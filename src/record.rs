//! The animation state of one notification box: fade in, hold, fade out.

use vstd::prelude::*;
use crate::color::Opacity;
use crate::timer::{lemma_tick_monotone, OnceTimer};

verus! {

/// Length of the fade-in and of the fade-out, in nanoseconds.
pub const FADE_NANOS: u64 = 500_000_000;

/// The stages of a timed notification, run in this order.
#[derive(Clone, Copy, Debug, PartialEq, Eq, Structural)]
pub enum AnimationState {
    Start,
    Middle,
    End,
}

pub type Phase = (AnimationState, OnceTimer);

/// Either no phase at all (the box stays until dismissed), or the three
/// phases in order, each with a running time; a phase that has not finished
/// holds back every later one, which has not started.
pub open spec fn phases_wf(s: Seq<Phase>) -> bool {
    s.len() == 0 || {
        &&& s.len() == 3
        &&& s[0].0 == AnimationState::Start
        &&& s[1].0 == AnimationState::Middle
        &&& s[2].0 == AnimationState::End
        &&& forall|i: int| 0 <= i < 3 ==> #[trigger] s[i].1.wf() && s[i].1.duration > 0
        &&& forall|i: int, j: int|
            0 <= i < j < 3 && !(#[trigger] s[i].1).is_finished() ==> (#[trigger] s[j].1).elapsed == 0
    }
}

/// The index of the first phase at or after `from` whose timer has not
/// finished, or the length of `s` when there is none.
pub open spec fn first_unfinished(s: Seq<Phase>, from: int) -> int
    decreases s.len() - from,
{
    if from < 0 || from >= s.len() {
        s.len() as int
    } else if !s[from].1.is_finished() {
        from
    } else {
        first_unfinished(s, from + 1)
    }
}

/// The opacity shown while a phase runs: a linear ramp up during `Start`,
/// full during `Middle`, a linear ramp down during `End`.
pub open spec fn phase_opacity(state: AnimationState, t: OnceTimer) -> Opacity {
    match state {
        AnimationState::Start => Opacity { num: t.elapsed, den: t.duration },
        AnimationState::Middle => Opacity { num: 1, den: 1 },
        AnimationState::End => Opacity { num: (t.duration - t.elapsed) as u64, den: t.duration },
    }
}

/// What one frame did to a box: the opacity to show, if a phase ran, and
/// whether the box is to be removed.
#[derive(Clone, Copy, Debug, PartialEq, Eq, Structural)]
pub struct TickOutcome {
    pub opacity: Option<Opacity>,
    pub despawn: bool,
}

/// The phases after a frame of `delta` nanoseconds: only the first
/// unfinished phase advances.
pub open spec fn step_phases(s: Seq<Phase>, delta: u64) -> Seq<Phase> {
    let k = first_unfinished(s, 0);
    if k < s.len() {
        s.update(k, (s[k].0, s[k].1.ticked(delta)))
    } else {
        s
    }
}

/// What a frame of `delta` nanoseconds reports: the opacity of the phase that
/// ran, and removal when that frame completed the `End` phase.
pub open spec fn step_outcome(s: Seq<Phase>, delta: u64) -> TickOutcome {
    let k = first_unfinished(s, 0);
    if k < s.len() {
        let t = s[k].1.ticked(delta);
        TickOutcome {
            opacity: Some(phase_opacity(s[k].0, t)),
            despawn: s[k].0 == AnimationState::End && t.just_finished,
        }
    } else {
        TickOutcome { opacity: None, despawn: false }
    }
}

/// The phases of a new box shown for `show_time` nanoseconds; none when
/// `show_time` is not positive.
pub open spec fn initial_phases(show_time: i64) -> Seq<Phase> {
    if show_time > 0 {
        seq![
            (AnimationState::Start, OnceTimer { duration: FADE_NANOS, elapsed: 0, just_finished: false }),
            (AnimationState::Middle, OnceTimer { duration: show_time as u64, elapsed: 0, just_finished: false }),
            (AnimationState::End, OnceTimer { duration: FADE_NANOS, elapsed: 0, just_finished: false }),
        ]
    } else {
        seq![]
    }
}

/// The timers of one notification box.
pub struct NotiBox {
    pub states: Vec<Phase>,
}

impl NotiBox {
    pub open spec fn wf(&self) -> bool {
        phases_wf(self.states@)
    }

    /// A box shown for `show_time` nanoseconds; a box that stays until it is
    /// dismissed when `show_time` is not positive.
    pub fn new(show_time: i64) -> (r: NotiBox)
        ensures
            r.states@ == initial_phases(show_time),
            r.wf(),
    {
        let states = if show_time > 0 {
            vec![
                (AnimationState::Start, OnceTimer::new(FADE_NANOS)),
                (AnimationState::Middle, OnceTimer::new(show_time as u64)),
                (AnimationState::End, OnceTimer::new(FADE_NANOS)),
            ]
        } else {
            Vec::new()
        };
        assert(states@ =~= initial_phases(show_time));
        NotiBox { states }
    }

    /// Advances the first unfinished phase by `delta` nanoseconds and reports
    /// the opacity it gives; the later phases wait for later frames.
    pub fn tick(&mut self, delta: u64) -> (r: TickOutcome)
        requires
            old(self).wf(),
        ensures
            final(self).states@ == step_phases(old(self).states@, delta),
            r == step_outcome(old(self).states@, delta),
            final(self).wf(),
    {
        let n = self.states.len();
        let mut i: usize = 0;
        while i < n
            invariant
                n == self.states.len(),
                self.states@ == old(self).states@,
                phases_wf(self.states@),
                0 <= i <= n,
                first_unfinished(self.states@, 0) == first_unfinished(self.states@, i as int),
                forall|j: int| 0 <= j < i ==> (#[trigger] self.states@[j]).1.is_finished(),
            decreases n - i,
        {
            let (state, mut timer) = self.states[i];
            if timer.finished() {
                i = i + 1;
            } else {
                timer.tick(delta);
                let opacity = match state {
                    AnimationState::Start => Opacity { num: timer.elapsed, den: timer.duration },
                    AnimationState::Middle => Opacity::opaque(),
                    AnimationState::End => Opacity { num: timer.remaining(), den: timer.duration },
                };
                let despawn = match state {
                    AnimationState::End => timer.just_finished,
                    _ => false,
                };
                let ghost s = self.states@;
                self.states.set(i, (state, timer));
                proof {
                    lemma_step_keeps_wf(s, delta);
                }
                return TickOutcome { opacity: Some(opacity), despawn };
            }
        }
        TickOutcome { opacity: None, despawn: false }
    }
}

/// `first_unfinished(s, from)` is the first index from `from` on whose timer
/// has not finished.
pub proof fn lemma_first_unfinished(s: Seq<Phase>, from: int)
    requires
        0 <= from <= s.len(),
    ensures
        from <= first_unfinished(s, from) <= s.len(),
        first_unfinished(s, from) < s.len() ==> !s[first_unfinished(s, from)].1.is_finished(),
        forall|j: int| from <= j < first_unfinished(s, from) ==> (#[trigger] s[j].1).is_finished(),
    decreases s.len() - from,
{
    if from < s.len() && s[from].1.is_finished() {
        lemma_first_unfinished(s, from + 1);
    }
}

/// A well-formed phase list stays well-formed over a frame.
pub proof fn lemma_step_keeps_wf(s: Seq<Phase>, delta: u64)
    requires
        phases_wf(s),
    ensures
        phases_wf(step_phases(s, delta)),
{
    let k = first_unfinished(s, 0);
    lemma_first_unfinished(s, 0);
    if s.len() == 3 {
        if k < 3 {
            let s2 = step_phases(s, delta);
            assert forall|a: int, b: int|
                0 <= a < b < 3 && !(#[trigger] s2[a].1).is_finished() implies (#[trigger] s2[b].1).elapsed == 0 by {
                if a >= k {
                    assert(!s[a].1.is_finished());
                }
            }
        }
    }
}

/// The fade-in never dims: as more time passes in the `Start` phase, the
/// opacity shown does not decrease.
pub proof fn lemma_fade_in_monotone(t: OnceTimer, d1: u64, d2: u64)
    requires
        t.wf(),
        t.duration > 0,
        d1 <= d2,
    ensures
        phase_opacity(AnimationState::Start, t.ticked(d1)).at_most(
            phase_opacity(AnimationState::Start, t.ticked(d2)),
        ),
{
    lemma_tick_monotone(t, d1, d2);
    let t1 = t.ticked(d1);
    let t2 = t.ticked(d2);
    assert(t1.elapsed as int * t.duration as int <= t2.elapsed as int * t.duration as int)
        by (nonlinear_arith)
        requires
            t1.elapsed <= t2.elapsed,
    ;
}

/// The fade-out never brightens: as more time passes in the `End` phase, the
/// opacity shown does not increase.
pub proof fn lemma_fade_out_monotone(t: OnceTimer, d1: u64, d2: u64)
    requires
        t.wf(),
        t.duration > 0,
        d1 <= d2,
    ensures
        phase_opacity(AnimationState::End, t.ticked(d2)).at_most(
            phase_opacity(AnimationState::End, t.ticked(d1)),
        ),
{
    lemma_tick_monotone(t, d1, d2);
    let t1 = t.ticked(d1);
    let t2 = t.ticked(d2);
    let r1 = t.duration - t1.elapsed;
    let r2 = t.duration - t2.elapsed;
    assert(r2 <= r1);
    assert(r2 * t.duration as int <= r1 * t.duration as int) by (nonlinear_arith)
        requires
            r2 <= r1,
    ;
}

} // verus!
