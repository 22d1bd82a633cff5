//! A request to show a notification.

use vstd::prelude::*;
use crate::color::Rgb;
use crate::position::{Extent, NotiPosition, BOX_PERCENT};

verus! {

/// How long a box stays fully visible unless asked otherwise: five seconds,
/// in nanoseconds.
pub const DEFAULT_SHOW_NANOS: i64 = 5_000_000_000;

/// A request to show `msg` in a box at `pos`. The box stays fully visible
/// for `show_time` nanoseconds, between its fade-in and its fade-out; when
/// `show_time` is not positive it stays until it is pressed. Its size is
/// `width` by `height`.
pub struct NotiBoxEvent {
    pub msg: String,
    pub text_color: Rgb,
    pub pos: NotiPosition,
    pub show_time: i64,
    pub background_color: Rgb,
    pub width: Extent,
    pub height: Extent,
}

impl NotiBoxEvent {
    /// Every field but the message holds its default.
    pub open spec fn has_defaults(&self) -> bool {
        &&& self.text_color == (Rgb { red: 255, green: 255, blue: 255 })
        &&& self.pos == NotiPosition::TopRight
        &&& self.show_time == DEFAULT_SHOW_NANOS
        &&& self.background_color == (Rgb { red: 0, green: 0, blue: 0 })
        &&& self.width == Extent::Percent(BOX_PERCENT)
        &&& self.height == Extent::Percent(BOX_PERCENT)
    }

    /// A request for `msg` with every other field at its default.
    pub fn from_message(msg: String) -> (r: NotiBoxEvent)
        ensures
            r.msg == msg,
            r.has_defaults(),
    {
        NotiBoxEvent {
            msg,
            text_color: Rgb::white(),
            pos: NotiPosition::TopRight,
            show_time: DEFAULT_SHOW_NANOS,
            background_color: Rgb::black(),
            width: Extent::Percent(BOX_PERCENT),
            height: Extent::Percent(BOX_PERCENT),
        }
    }
}

impl Default for NotiBoxEvent {
    /// An empty message in white on black, at the top right, five seconds
    /// long, a fifth of the screen wide and high.
    fn default() -> (r: NotiBoxEvent)
        ensures
            r.msg@ == Seq::<char>::empty(),
            r.has_defaults(),
    {
        NotiBoxEvent::from_message(String::new())
    }
}

} // verus!
