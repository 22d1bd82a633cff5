//! Transient notification boxes: anchoring on screen, a fade-in / hold /
//! fade-out lifecycle driven by frame time, and dismissal by a press.

pub mod position;
pub mod timer;
pub mod color;
pub mod record;
pub mod event;
pub mod notification;
pub mod board;
pub mod plugin;
