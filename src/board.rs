//! The live notification boxes, and the three things that happen to them
//! each frame: requests create boxes, presses remove them, time runs them.

use vstd::prelude::*;
use crate::event::NotiBoxEvent;
use crate::notification::{
    click_dismisses, spawn_notification, spawned_view, stepped_view, Notification,
    NotificationView, PointerState,
};
use crate::record::{first_unfinished, phases_wf, FADE_NANOS};

verus! {

pub type BoardView = Seq<Option<NotificationView>>;

pub open spec fn slot_view(o: Option<Notification>) -> Option<NotificationView> {
    match o {
        Some(n) => Some(n@),
        None => None,
    }
}

/// Every live box has well-formed timers.
pub open spec fn board_wf(v: BoardView) -> bool {
    forall|i: int| 0 <= i < v.len() && (#[trigger] v[i]) is Some ==> phases_wf(v[i]->Some_0.phases)
}

/// The board after the requests `events`: one new box for each, in order,
/// after the boxes already there.
pub open spec fn after_events(v: BoardView, events: Seq<NotiBoxEvent>) -> BoardView {
    v + events.map_values(|e: NotiBoxEvent| Some(spawned_view(e)))
}

/// Whether the pointer in `state` on box `id` removes a box: it must be a
/// press on a box that is still there.
pub open spec fn press_removes(v: BoardView, id: int, state: PointerState) -> bool {
    0 <= id < v.len() && v[id] is Some && state == PointerState::Pressed
}

/// The board after the pointer in `state` on box `id`.
pub open spec fn after_press(v: BoardView, id: int, state: PointerState) -> BoardView {
    if press_removes(v, id, state) {
        v.update(id, None)
    } else {
        v
    }
}

/// The board after a frame of `delta` nanoseconds: each box steps on its own.
pub open spec fn after_frame(v: BoardView, delta: u64) -> BoardView {
    v.map_values(
        |o: Option<NotificationView>|
            match o {
                Some(n) => stepped_view(n, delta),
                None => None,
            },
    )
}

/// The board after one frame for each of `deltas`, in order.
pub open spec fn after_frames(v: BoardView, deltas: Seq<u64>) -> BoardView
    decreases deltas.len(),
{
    if deltas.len() == 0 {
        v
    } else {
        after_frames(after_frame(v, deltas[0]), deltas.drop_first())
    }
}

/// Live notification boxes, each under the index it was given when created.
/// A removed box leaves its index empty, so indices are never reused.
pub struct NotiBoard {
    pub slots: Vec<Option<Notification>>,
}

impl View for NotiBoard {
    type V = BoardView;

    open spec fn view(&self) -> BoardView {
        self.slots@.map_values(|o: Option<Notification>| slot_view(o))
    }
}

impl NotiBoard {
    pub open spec fn wf(&self) -> bool {
        forall|i: int|
            0 <= i < self.slots@.len() && (#[trigger] self.slots@[i]) is Some
                ==> self.slots@[i]->Some_0.wf()
    }

    pub fn new() -> (r: NotiBoard)
        ensures
            r@ == Seq::<Option<NotificationView>>::empty(),
            r.wf(),
    {
        let r = NotiBoard { slots: Vec::new() };
        assert(r@ =~= Seq::<Option<NotificationView>>::empty());
        r
    }

    /// Number of indices handed out so far, live or removed.
    pub fn len(&self) -> (r: usize)
        ensures
            r == self@.len(),
    {
        self.slots.len()
    }

    /// Whether box `id` is still on the board.
    pub fn is_live(&self, id: usize) -> (r: bool)
        ensures
            r == (id < self@.len() && self@[id as int] is Some),
    {
        id < self.slots.len() && self.slots[id].is_some()
    }

    /// Box `id`, if it is still on the board.
    pub fn get(&self, id: usize) -> (r: Option<&Notification>)
        ensures
            id < self@.len() && self@[id as int] is Some ==> r is Some && r->Some_0@ == self@[id as int]->Some_0,
            !(id < self@.len() && self@[id as int] is Some) ==> r is None,
    {
        if id < self.slots.len() {
            match &self.slots[id] {
                Some(n) => Some(n),
                None => None,
            }
        } else {
            None
        }
    }

    /// Creates one box for each request, in order; each new box gets the
    /// next index.
    pub fn listen_event(&mut self, events: &Vec<NotiBoxEvent>)
        requires
            old(self).wf(),
        ensures
            final(self)@ == after_events(old(self)@, events@),
            final(self).wf(),
    {
        let n = events.len();
        let mut i: usize = 0;
        while i < n
            invariant
                n == events.len(),
                0 <= i <= n,
                self.wf(),
                self@ == after_events(old(self)@, events@.subrange(0, i as int)),
            decreases n - i,
        {
            let note = spawn_notification(&events[i]);
            let ghost prev = self@;
            let ghost nv = note@;
            self.slots.push(Some(note));
            assert(self@ =~= prev.push(Some(nv)));
            assert(events@.subrange(0, i + 1) =~= events@.subrange(0, i as int).push(events@[i as int]));
            assert(after_events(old(self)@, events@.subrange(0, i + 1)) =~= after_events(
                old(self)@,
                events@.subrange(0, i as int),
            ).push(Some(spawned_view(events@[i as int]))));
            i = i + 1;
        }
        assert(events@.subrange(0, n as int) =~= events@);
    }

    /// Removes box `id` when the pointer presses it; says whether it did.
    /// Pressing a box that is already gone does nothing.
    pub fn listen_click(&mut self, id: usize, state: PointerState) -> (removed: bool)
        requires
            old(self).wf(),
        ensures
            removed == press_removes(old(self)@, id as int, state),
            final(self)@ == after_press(old(self)@, id as int, state),
            final(self).wf(),
    {
        if click_dismisses(state) && id < self.slots.len() && self.slots[id].is_some() {
            self.slots.set(id, None);
            assert(self@ =~= old(self)@.update(id as int, None));
            true
        } else {
            false
        }
    }

    /// Runs one frame of `delta` nanoseconds on every live box, and removes
    /// the boxes whose fade-out ended in this frame.
    pub fn countdown(&mut self, delta: u64)
        requires
            old(self).wf(),
        ensures
            final(self)@ == after_frame(old(self)@, delta),
            final(self).wf(),
    {
        let n = self.slots.len();
        let mut i: usize = 0;
        while i < n
            invariant
                n == self.slots.len(),
                n == old(self).slots@.len(),
                0 <= i <= n,
                self.wf(),
                forall|j: int| 0 <= j < i ==> #[trigger] self@[j] == after_frame(old(self)@, delta)[j],
                forall|j: int| i <= j < n ==> #[trigger] self.slots@[j] == old(self).slots@[j],
            decreases n - i,
        {
            let ghost vb = self@;
            let mut slot: Option<Notification> = None;
            self.slots.set_and_swap(i, &mut slot);
            let next = match slot {
                Some(mut note) => {
                    let gone = note.countdown(delta);
                    if gone {
                        None
                    } else {
                        Some(note)
                    }
                },
                None => None,
            };
            self.slots.set(i, next);
            assert(slot_view(next) == after_frame(old(self)@, delta)[i as int]);
            assert(forall|j: int| 0 <= j < n && j != i ==> #[trigger] self@[j] == vb[j]);
            i = i + 1;
        }
        assert(self@ =~= after_frame(old(self)@, delta));
    }
}

/// A box that was created without a display time is never removed by time:
/// whatever frames pass, it stays as it was. A press on it removes it.
pub proof fn lemma_indefinite_box_waits_for_press(v: BoardView, id: int, deltas: Seq<u64>)
    requires
        0 <= id < v.len(),
        v[id] is Some,
        v[id]->Some_0.phases.len() == 0,
    ensures
        after_frames(v, deltas).len() == v.len(),
        after_frames(v, deltas)[id] == v[id],
        after_press(after_frames(v, deltas), id, PointerState::Pressed)[id] is None,
    decreases deltas.len(),
{
    if deltas.len() > 0 {
        let v1 = after_frame(v, deltas[0]);
        assert(v1[id] == v[id]);
        lemma_indefinite_box_waits_for_press(v1, id, deltas.drop_first());
    }
}

/// Pressing the same box twice in one frame removes it once: the second
/// press finds nothing to remove and changes nothing.
pub proof fn lemma_press_twice(v: BoardView, id: int)
    ensures
        !press_removes(after_press(v, id, PointerState::Pressed), id, PointerState::Pressed),
        after_press(after_press(v, id, PointerState::Pressed), id, PointerState::Pressed)
            == after_press(v, id, PointerState::Pressed),
{
}

/// Boxes do not affect one another: what a frame does to a box is what it
/// would do to that box alone on the board.
pub proof fn lemma_frame_independent(v: BoardView, id: int, delta: u64)
    requires
        0 <= id < v.len(),
    ensures
        after_frame(v, delta).len() == v.len(),
        after_frame(v, delta)[id] == after_frame(seq![v[id]], delta)[0],
{
}

/// Requests do not affect the boxes already there, nor one another: each
/// new box is what its own request makes.
pub proof fn lemma_events_independent(v: BoardView, events: Seq<NotiBoxEvent>, k: int)
    requires
        0 <= k < events.len(),
    ensures
        after_events(v, events).len() == v.len() + events.len(),
        after_events(v, events).subrange(0, v.len() as int) == v,
        after_events(v, events)[v.len() + k] == Some(spawned_view(events[k])),
{
    assert(after_events(v, events).subrange(0, v.len() as int) =~= v);
}

/// A box shown for `show_time` nanoseconds lives a fade-in, then
/// `show_time`, then a fade-out. After a frame as long as the fade-in it is
/// fully opaque; after a further frame of `show_time` it is still there and
/// still opaque; a further frame as long as the fade-out removes it.
pub proof fn lemma_timed_box_lifecycle(ev: NotiBoxEvent)
    requires
        ev.show_time > 0,
    ensures
        after_frames(seq![Some(spawned_view(ev))], seq![FADE_NANOS])[0] is Some,
        after_frames(seq![Some(spawned_view(ev))], seq![FADE_NANOS])[0]->Some_0.background.alpha.is_opaque(),
        after_frames(seq![Some(spawned_view(ev))], seq![FADE_NANOS, ev.show_time as u64])[0] is Some,
        after_frames(seq![Some(spawned_view(ev))], seq![FADE_NANOS, ev.show_time as u64])[0]->Some_0.background.alpha.is_opaque(),
        after_frames(seq![Some(spawned_view(ev))], seq![FADE_NANOS, ev.show_time as u64, FADE_NANOS])[0] is None,
{
    let s = ev.show_time as u64;
    let v0: BoardView = seq![Some(spawned_view(ev))];
    let v1 = after_frame(v0, FADE_NANOS);
    let v2 = after_frame(v1, s);
    let v3 = after_frame(v2, FADE_NANOS);
    let p0 = spawned_view(ev).phases;
    let p1 = v1[0]->Some_0.phases;
    assert(p1.len() == 3 && p1[1] == p0[1] && p1[2] == p0[2]);
    assert(!p1[1].1.is_finished());
    assert(first_unfinished(p1, 1) == 1);
    assert(first_unfinished(p1, 0) == 1);
    let p2 = v2[0]->Some_0.phases;
    assert(p2.len() == 3 && p2[2] == p0[2]);
    assert(!p2[2].1.is_finished());
    assert(first_unfinished(p2, 2) == 2);
    assert(first_unfinished(p2, 1) == 2);
    assert(first_unfinished(p2, 0) == 2);
    assert(seq![FADE_NANOS].drop_first() =~= Seq::<u64>::empty());
    assert(seq![FADE_NANOS, s].drop_first() =~= seq![s]);
    assert(seq![s].drop_first() =~= Seq::<u64>::empty());
    assert(seq![FADE_NANOS, s, FADE_NANOS].drop_first() =~= seq![s, FADE_NANOS]);
    assert(seq![s, FADE_NANOS].drop_first() =~= seq![FADE_NANOS]);
    let e = Seq::<u64>::empty();
    assert(after_frames(v1, e) == v1);
    assert(after_frames(v0, seq![FADE_NANOS]) == v1);
    assert(after_frames(v2, e) == v2);
    assert(after_frames(v1, seq![s]) == v2);
    assert(after_frames(v0, seq![FADE_NANOS, s]) == v2);
    assert(after_frames(v3, e) == v3);
    assert(after_frames(v2, seq![FADE_NANOS]) == v3);
    assert(after_frames(v1, seq![s, FADE_NANOS]) == v3);
    assert(after_frames(v0, seq![FADE_NANOS, s, FADE_NANOS]) == v3);
}

} // verus!
