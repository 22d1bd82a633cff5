//! One live notification box: what it shows and how it changes each frame.

use vstd::prelude::*;
use crate::color::{Opacity, Paint};
use crate::event::NotiBoxEvent;
use crate::position::{horizontal_of, pos_to_style, vertical_of, PositionStyle, MARGIN_PX};
use crate::record::{initial_phases, step_outcome, step_phases, NotiBox, Phase};

verus! {

/// What the pointer is doing to a box.
#[derive(Clone, Copy, Debug, PartialEq, Eq, Structural)]
pub enum PointerState {
    Idle,
    Hovered,
    Pressed,
}

/// A live notification box: its timers, its layout, its colours as shown
/// now, and its text.
pub struct Notification {
    pub record: NotiBox,
    pub style: PositionStyle,
    pub background: Paint,
    pub border: Paint,
    pub text: Paint,
    pub msg: String,
}

/// The content of a `Notification`, as values.
pub struct NotificationView {
    pub phases: Seq<Phase>,
    pub style: PositionStyle,
    pub background: Paint,
    pub border: Paint,
    pub text: Paint,
    pub msg: Seq<char>,
}

impl View for Notification {
    type V = NotificationView;

    open spec fn view(&self) -> NotificationView {
        NotificationView {
            phases: self.record.states@,
            style: self.style,
            background: self.background,
            border: self.border,
            text: self.text,
            msg: self.msg@,
        }
    }
}

impl Notification {
    pub open spec fn wf(&self) -> bool {
        self.record.wf()
    }
}

/// The box that a request creates: placed at the request's anchor with the
/// request's size, its background and text fully transparent so that the
/// fade-in starts from nothing, and its border the background colour at two
/// fifths opacity.
pub open spec fn spawned_view(ev: NotiBoxEvent) -> NotificationView {
    NotificationView {
        phases: initial_phases(ev.show_time),
        style: PositionStyle {
            width: ev.width,
            height: ev.height,
            margin_px: MARGIN_PX,
            justify_self: horizontal_of(ev.pos),
            align_self: vertical_of(ev.pos),
        },
        background: Paint { color: ev.background_color, alpha: Opacity { num: 0, den: 1 } },
        border: Paint { color: ev.background_color, alpha: Opacity { num: 2, den: 5 } },
        text: Paint { color: ev.text_color, alpha: Opacity { num: 0, den: 1 } },
        msg: ev.msg@,
    }
}

/// A box after a frame of `delta` nanoseconds, before any removal: its
/// timers advance and the background and text take the opacity of the phase
/// that ran. Their colours, the border and everything else stay.
pub open spec fn advanced_view(n: NotificationView, delta: u64) -> NotificationView {
    let out = step_outcome(n.phases, delta);
    NotificationView {
        phases: step_phases(n.phases, delta),
        background: match out.opacity {
            Some(o) => Paint { color: n.background.color, alpha: o },
            None => n.background,
        },
        text: match out.opacity {
            Some(o) => Paint { color: n.text.color, alpha: o },
            None => n.text,
        },
        ..n
    }
}

/// A box after a frame of `delta` nanoseconds: gone when that frame finished
/// its fade-out, else advanced.
pub open spec fn stepped_view(n: NotificationView, delta: u64) -> Option<NotificationView> {
    if step_outcome(n.phases, delta).despawn {
        None
    } else {
        Some(advanced_view(n, delta))
    }
}

/// Builds the box that `ev` asks for.
pub fn spawn_notification(ev: &NotiBoxEvent) -> (r: Notification)
    ensures
        r@ == spawned_view(*ev),
        r.wf(),
{
    let placed = pos_to_style(&ev.pos);
    let style = PositionStyle { width: ev.width, height: ev.height, ..placed };
    Notification {
        record: NotiBox::new(ev.show_time),
        style,
        background: Paint { color: ev.background_color, alpha: Opacity::transparent() },
        border: Paint { color: ev.background_color, alpha: Opacity::border() },
        text: Paint { color: ev.text_color, alpha: Opacity::transparent() },
        msg: ev.msg.clone(),
    }
}

/// Whether a pointer in `state` dismisses a box: only a press does.
pub fn click_dismisses(state: PointerState) -> (r: bool)
    ensures
        r == (state == PointerState::Pressed),
{
    match state {
        PointerState::Pressed => true,
        _ => false,
    }
}

impl Notification {
    /// Runs one frame of `delta` nanoseconds on the box and says whether it
    /// is now to be removed.
    pub fn countdown(&mut self, delta: u64) -> (despawn: bool)
        requires
            old(self).wf(),
        ensures
            final(self)@ == advanced_view(old(self)@, delta),
            despawn == step_outcome(old(self)@.phases, delta).despawn,
            final(self).wf(),
    {
        let out = self.record.tick(delta);
        match out.opacity {
            Some(o) => {
                self.background = self.background.with_alpha(o);
                self.text = self.text.with_alpha(o);
            },
            None => {},
        }
        out.despawn
    }
}

} // verus!
