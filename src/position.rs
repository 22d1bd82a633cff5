//! Where on screen a notification box is placed.

use vstd::prelude::*;

verus! {

/// One of the nine symbolic screen anchors.
#[derive(Clone, Copy, Debug, PartialEq, Eq, Structural)]
pub enum NotiPosition {
    TopRight,
    TopLeft,
    TopMid,
    MidLeft,
    Center,
    MidRight,
    BotLeft,
    BotMid,
    BotRight,
}

impl Default for NotiPosition {
    /// Boxes go to the top right corner unless asked otherwise.
    fn default() -> (r: Self)
        ensures
            r == NotiPosition::TopRight,
    {
        NotiPosition::TopRight
    }
}

/// Placement of the box along the horizontal axis.
#[derive(Clone, Copy, Debug, PartialEq, Eq, Structural)]
pub enum HorizontalAlign {
    Start,
    Center,
    End,
}

/// Placement of the box along the vertical axis.
#[derive(Clone, Copy, Debug, PartialEq, Eq, Structural)]
pub enum VerticalAlign {
    FlexStart,
    Center,
    FlexEnd,
}

/// A length in the layout: automatic, in pixels, or in percent of the parent.
#[derive(Clone, Copy, Debug, PartialEq, Eq, Structural)]
pub enum Extent {
    Auto,
    Px(u32),
    Percent(u32),
}

/// Side of the box, in percent of the viewport, unless a request says otherwise.
pub const BOX_PERCENT: u32 = 20;

/// Margin around the box on every side, in pixels.
pub const MARGIN_PX: u32 = 5;

/// Layout of a notification box. Its content is always centred inside it.
#[derive(Clone, Copy, Debug, PartialEq, Eq, Structural)]
pub struct PositionStyle {
    pub width: Extent,
    pub height: Extent,
    pub margin_px: u32,
    pub justify_self: HorizontalAlign,
    pub align_self: VerticalAlign,
}

/// The column of the anchor.
pub open spec fn horizontal_of(pos: NotiPosition) -> HorizontalAlign {
    match pos {
        NotiPosition::TopLeft | NotiPosition::MidLeft | NotiPosition::BotLeft => HorizontalAlign::Start,
        NotiPosition::TopMid | NotiPosition::Center | NotiPosition::BotMid => HorizontalAlign::Center,
        NotiPosition::TopRight | NotiPosition::MidRight | NotiPosition::BotRight => HorizontalAlign::End,
    }
}

/// The row of the anchor.
pub open spec fn vertical_of(pos: NotiPosition) -> VerticalAlign {
    match pos {
        NotiPosition::TopLeft | NotiPosition::TopMid | NotiPosition::TopRight => VerticalAlign::FlexStart,
        NotiPosition::MidLeft | NotiPosition::Center | NotiPosition::MidRight => VerticalAlign::Center,
        NotiPosition::BotLeft | NotiPosition::BotMid | NotiPosition::BotRight => VerticalAlign::FlexEnd,
    }
}

/// The style that `pos_to_style` gives to an anchor.
pub open spec fn style_of(pos: NotiPosition) -> PositionStyle {
    PositionStyle {
        width: Extent::Percent(BOX_PERCENT),
        height: Extent::Percent(BOX_PERCENT),
        margin_px: MARGIN_PX,
        justify_self: horizontal_of(pos),
        align_self: vertical_of(pos),
    }
}

/// Resolves an anchor to a box of the default size and margin that hugs the
/// anchor's edges of the viewport.
pub fn pos_to_style(pos: &NotiPosition) -> (r: PositionStyle)
    ensures
        r == style_of(*pos),
{
    let (justify_self, align_self) = match pos {
        NotiPosition::TopLeft => (HorizontalAlign::Start, VerticalAlign::FlexStart),
        NotiPosition::TopMid => (HorizontalAlign::Center, VerticalAlign::FlexStart),
        NotiPosition::TopRight => (HorizontalAlign::End, VerticalAlign::FlexStart),
        NotiPosition::MidLeft => (HorizontalAlign::Start, VerticalAlign::Center),
        NotiPosition::Center => (HorizontalAlign::Center, VerticalAlign::Center),
        NotiPosition::MidRight => (HorizontalAlign::End, VerticalAlign::Center),
        NotiPosition::BotLeft => (HorizontalAlign::Start, VerticalAlign::FlexEnd),
        NotiPosition::BotMid => (HorizontalAlign::Center, VerticalAlign::FlexEnd),
        NotiPosition::BotRight => (HorizontalAlign::End, VerticalAlign::FlexEnd),
    };
    PositionStyle {
        width: Extent::Percent(BOX_PERCENT),
        height: Extent::Percent(BOX_PERCENT),
        margin_px: MARGIN_PX,
        justify_self,
        align_self,
    }
}

/// Two anchors that are placed alike are the same anchor.
pub proof fn lemma_anchors_distinct(p: NotiPosition, q: NotiPosition)
    ensures
        horizontal_of(p) == horizontal_of(q) && vertical_of(p) == vertical_of(q) ==> p == q,
{
}

/// Every pair of a column and a row is the placement of some anchor, so the
/// anchors cover the whole three-by-three grid.
pub proof fn lemma_anchors_cover_grid(h: HorizontalAlign, v: VerticalAlign)
    ensures
        exists|p: NotiPosition| horizontal_of(p) == h && vertical_of(p) == v,
{
    let p = match (h, v) {
        (HorizontalAlign::Start, VerticalAlign::FlexStart) => NotiPosition::TopLeft,
        (HorizontalAlign::Center, VerticalAlign::FlexStart) => NotiPosition::TopMid,
        (HorizontalAlign::End, VerticalAlign::FlexStart) => NotiPosition::TopRight,
        (HorizontalAlign::Start, VerticalAlign::Center) => NotiPosition::MidLeft,
        (HorizontalAlign::Center, VerticalAlign::Center) => NotiPosition::Center,
        (HorizontalAlign::End, VerticalAlign::Center) => NotiPosition::MidRight,
        (HorizontalAlign::Start, VerticalAlign::FlexEnd) => NotiPosition::BotLeft,
        (HorizontalAlign::Center, VerticalAlign::FlexEnd) => NotiPosition::BotMid,
        (HorizontalAlign::End, VerticalAlign::FlexEnd) => NotiPosition::BotRight,
    };
    assert(horizontal_of(p) == h && vertical_of(p) == v);
}

} // verus!
