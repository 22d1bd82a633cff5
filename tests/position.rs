use bevy_notify::position::{pos_to_style, Extent, HorizontalAlign, NotiPosition, VerticalAlign};

const ALL: [NotiPosition; 9] = [
    NotiPosition::TopRight,
    NotiPosition::TopLeft,
    NotiPosition::TopMid,
    NotiPosition::MidLeft,
    NotiPosition::Center,
    NotiPosition::MidRight,
    NotiPosition::BotLeft,
    NotiPosition::BotMid,
    NotiPosition::BotRight,
];

#[test]
fn anchors_fill_the_grid_without_duplicates() {
    let mut seen: Vec<(HorizontalAlign, VerticalAlign)> = Vec::new();
    for pos in ALL.iter() {
        let s = pos_to_style(pos);
        let pair = (s.justify_self, s.align_self);
        assert!(!seen.contains(&pair));
        seen.push(pair);
    }
    for h in [HorizontalAlign::Start, HorizontalAlign::Center, HorizontalAlign::End] {
        for v in [VerticalAlign::FlexStart, VerticalAlign::Center, VerticalAlign::FlexEnd] {
            assert!(seen.contains(&(h, v)));
        }
    }
}

#[test]
fn anchors_resolve_deterministically() {
    for pos in ALL.iter() {
        assert_eq!(pos_to_style(pos), pos_to_style(pos));
    }
}

#[test]
fn corner_and_centre_placements() {
    let s = pos_to_style(&NotiPosition::TopLeft);
    assert_eq!(s.justify_self, HorizontalAlign::Start);
    assert_eq!(s.align_self, VerticalAlign::FlexStart);
    let s = pos_to_style(&NotiPosition::BotRight);
    assert_eq!(s.justify_self, HorizontalAlign::End);
    assert_eq!(s.align_self, VerticalAlign::FlexEnd);
    let s = pos_to_style(&NotiPosition::Center);
    assert_eq!(s.justify_self, HorizontalAlign::Center);
    assert_eq!(s.align_self, VerticalAlign::Center);
    let s = pos_to_style(&NotiPosition::MidRight);
    assert_eq!(s.justify_self, HorizontalAlign::End);
    assert_eq!(s.align_self, VerticalAlign::Center);
}

#[test]
fn resolved_box_has_default_size_and_margin() {
    let s = pos_to_style(&NotiPosition::BotMid);
    assert_eq!(s.width, Extent::Percent(20));
    assert_eq!(s.height, Extent::Percent(20));
    assert_eq!(s.margin_px, 5);
}

#[test]
fn default_anchor_is_top_right() {
    assert_eq!(NotiPosition::default(), NotiPosition::TopRight);
}
