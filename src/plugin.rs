//! The settings under which the notification systems run in a host.

use vstd::prelude::*;
use vstd::std_specs::cmp::PartialEqSpec;

verus! {

/// Runs the notification systems only while the host is in one of `states`,
/// or in every state when `states` is `None`.
#[verifier::reject_recursive_types(T)]
pub struct NotiBoxPlugin<T> {
    pub states: Option<Vec<T>>,
}

impl<T> NotiBoxPlugin<T> {
    /// Runs the systems only in `states`.
    pub fn new(states: Vec<T>) -> (r: Self)
        ensures
            r.states == Some(states),
    {
        NotiBoxPlugin { states: Some(states) }
    }
}

impl<T: PartialEq> NotiBoxPlugin<T> {
    /// Whether the systems run while the host is in state `current`: always
    /// when no states were given, else only when `current` is one of them.
    pub fn runs_in(&self, current: &T) -> (r: bool)
        ensures
            self.states is None ==> r,
            <T as PartialEqSpec>::obeys_eq_spec() && self.states is Some ==> r == exists|i: int|
                0 <= i < self.states->Some_0@.len() && #[trigger] self.states->Some_0@[i].eq_spec(current),
    {
        match &self.states {
            None => true,
            Some(states) => {
                let mut i: usize = 0;
                while i < states.len()
                    invariant
                        0 <= i <= states.len(),
                        self.states is Some && self.states->Some_0@ == states@,
                        <T as PartialEqSpec>::obeys_eq_spec() ==> forall|j: int|
                            0 <= j < i ==> !(#[trigger] states@[j].eq_spec(current)),
                    decreases states.len() - i,
                {
                    if states[i].eq(current) {
                        assert(<T as PartialEqSpec>::obeys_eq_spec() ==> states@[i as int].eq_spec(current));
                        return true;
                    }
                    i = i + 1;
                }
                false
            },
        }
    }
}

impl<T> Default for NotiBoxPlugin<T> {
    /// Runs the systems in every state.
    fn default() -> (r: Self)
        ensures
            r.states is None,
    {
        NotiBoxPlugin { states: None }
    }
}

/// Runs the notification systems in every frame, whatever the host's state.
#[derive(Clone, Copy, Debug, Default, PartialEq, Eq)]
pub struct NotiBoxPluginNoState;

} // verus!
