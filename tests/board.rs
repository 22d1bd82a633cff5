use bevy_notify::board::NotiBoard;
use bevy_notify::event::NotiBoxEvent;
use bevy_notify::notification::PointerState;
use bevy_notify::plugin::{NotiBoxPlugin, NotiBoxPluginNoState};
use bevy_notify::position::{HorizontalAlign, NotiPosition, VerticalAlign};

const MS: u64 = 1_000_000;
const SEC: u64 = 1_000_000_000;

fn request(pos: NotiPosition, show_time: i64) -> NotiBoxEvent {
    let mut ev = NotiBoxEvent::from_message(String::from("note"));
    ev.pos = pos;
    ev.show_time = show_time;
    ev
}

#[test]
fn two_second_box_lives_three_seconds() {
    let mut board = NotiBoard::new();
    board.listen_event(&vec![request(NotiPosition::TopRight, 2 * SEC as i64)]);
    board.countdown(500 * MS);
    let n = board.get(0).unwrap();
    assert_eq!(n.background.alpha.num, n.background.alpha.den);
    assert!(n.record.states[0].1.finished());
    assert!(!n.record.states[1].1.finished());
    board.countdown(2 * SEC);
    let n = board.get(0).unwrap();
    assert_eq!(n.background.alpha.num, n.background.alpha.den);
    assert!(n.record.states[1].1.finished());
    assert!(board.is_live(0));
    board.countdown(500 * MS);
    assert!(!board.is_live(0));
    assert!(board.get(0).is_none());
}

#[test]
fn indefinite_box_stays_until_pressed() {
    let mut board = NotiBoard::new();
    board.listen_event(&vec![request(NotiPosition::Center, 0), request(NotiPosition::TopLeft, -5)]);
    for _ in 0..10 {
        board.countdown(100 * SEC);
    }
    assert!(board.is_live(0));
    assert!(board.is_live(1));
    assert!(!board.listen_click(0, PointerState::Hovered));
    assert!(board.is_live(0));
    assert!(board.listen_click(0, PointerState::Pressed));
    assert!(!board.is_live(0));
    assert!(board.is_live(1));
}

#[test]
fn pressing_twice_removes_once() {
    let mut board = NotiBoard::new();
    board.listen_event(&vec![request(NotiPosition::TopRight, 2 * SEC as i64)]);
    assert!(board.listen_click(0, PointerState::Pressed));
    assert!(!board.listen_click(0, PointerState::Pressed));
    assert!(!board.is_live(0));
    assert_eq!(board.len(), 1);
}

#[test]
fn press_on_unknown_index_is_harmless() {
    let mut board = NotiBoard::new();
    assert!(!board.listen_click(7, PointerState::Pressed));
    assert_eq!(board.len(), 0);
}

#[test]
fn press_cuts_an_animation_short() {
    let mut board = NotiBoard::new();
    board.listen_event(&vec![request(NotiPosition::TopRight, 2 * SEC as i64)]);
    board.countdown(200 * MS);
    assert!(board.listen_click(0, PointerState::Pressed));
    board.countdown(200 * MS);
    assert!(!board.is_live(0));
}

#[test]
fn concurrent_boxes_run_independently() {
    let mut board = NotiBoard::new();
    board.listen_event(&vec![
        request(NotiPosition::TopLeft, SEC as i64),
        request(NotiPosition::Center, 2 * SEC as i64),
        request(NotiPosition::BotRight, 3 * SEC as i64),
    ]);
    assert_eq!(board.len(), 3);
    assert_eq!(board.get(0).unwrap().style.justify_self, HorizontalAlign::Start);
    assert_eq!(board.get(1).unwrap().style.align_self, VerticalAlign::Center);
    assert_eq!(board.get(2).unwrap().style.align_self, VerticalAlign::FlexEnd);
    let mut gone_at: Vec<Option<u64>> = vec![None, None, None];
    let mut t = 0u64;
    while t < 10 * SEC {
        board.countdown(100 * MS);
        t += 100 * MS;
        for id in 0..3 {
            if gone_at[id].is_none() && !board.is_live(id) {
                gone_at[id] = Some(t);
            }
        }
    }
    assert_eq!(gone_at, vec![Some(2 * SEC), Some(3 * SEC), Some(4 * SEC)]);
}

#[test]
fn removing_one_box_leaves_the_others() {
    let mut board = NotiBoard::new();
    board.listen_event(&vec![
        request(NotiPosition::TopLeft, SEC as i64),
        request(NotiPosition::TopMid, SEC as i64),
    ]);
    board.countdown(300 * MS);
    assert!(board.listen_click(0, PointerState::Pressed));
    let n = board.get(1).unwrap();
    assert_eq!(n.background.alpha.num, 300 * MS);
    assert_eq!(n.background.alpha.den, 500 * MS);
}

#[test]
fn new_requests_keep_delivery_order() {
    let mut board = NotiBoard::new();
    board.listen_event(&vec![NotiBoxEvent::from_message(String::from("a"))]);
    board.listen_event(&vec![
        NotiBoxEvent::from_message(String::from("b")),
        NotiBoxEvent::from_message(String::from("c")),
    ]);
    board.listen_event(&vec![]);
    assert_eq!(board.len(), 3);
    assert_eq!(board.get(0).unwrap().msg, "a");
    assert_eq!(board.get(1).unwrap().msg, "b");
    assert_eq!(board.get(2).unwrap().msg, "c");
}

#[test]
fn plugin_settings() {
    let p = NotiBoxPlugin::new(vec![1u8, 2]);
    assert_eq!(p.states, Some(vec![1u8, 2]));
    let q: NotiBoxPlugin<u8> = NotiBoxPlugin::default();
    assert!(q.states.is_none());
    assert_eq!(NotiBoxPluginNoState::default(), NotiBoxPluginNoState);
}

#[test]
fn plugin_runs_only_in_listed_states() {
    let p = NotiBoxPlugin::new(vec![1u8, 3]);
    assert!(p.runs_in(&1));
    assert!(p.runs_in(&3));
    assert!(!p.runs_in(&2));
    let none: NotiBoxPlugin<u8> = NotiBoxPlugin::new(vec![]);
    assert!(!none.runs_in(&1));
    let all: NotiBoxPlugin<u8> = NotiBoxPlugin::default();
    assert!(all.runs_in(&9));
}
