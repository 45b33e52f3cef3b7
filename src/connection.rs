//! The teardown protocol of a connection handle.
//!
//! A handle owns one reference to a native connection. Releasing it takes two
//! native calls in a fixed order: close, which disconnects at the protocol
//! level, then unref, which gives the reference back. The decisions live here;
//! the code that owns the native pointer performs each action it is handed.

use vstd::prelude::*;

verus! {

/// Where a handle stands in its teardown.
#[derive(Clone, Copy, Debug, PartialEq, Eq, Structural)]
pub enum HandleState {
    /// Open and usable.
    Live,
    /// Closed, its reference not yet released.
    Closed,
    /// Closed and released; nothing more may be done with it.
    Released,
}

/// A native call that teardown performs.
#[derive(Clone, Copy, Debug, PartialEq, Eq, Structural)]
pub enum TeardownAction {
    Close,
    Unref,
}

/// The next state of a handle in teardown, and the action that gets it there.
pub open spec fn step(s: HandleState) -> (HandleState, Option<TeardownAction>) {
    match s {
        HandleState::Live => (HandleState::Closed, Some(TeardownAction::Close)),
        HandleState::Closed => (HandleState::Released, Some(TeardownAction::Unref)),
        HandleState::Released => (HandleState::Released, None),
    }
}

/// How many steps of teardown are left from a state.
pub open spec fn steps_left(s: HandleState) -> nat {
    match s {
        HandleState::Live => 2,
        HandleState::Closed => 1,
        HandleState::Released => 0,
    }
}

/// Every action that teardown performs from a state on, in order, stepping
/// until no action is left.
pub open spec fn actions_from(s: HandleState) -> Seq<TeardownAction>
    decreases steps_left(s),
{
    match step(s).1 {
        Some(a) => if steps_left(step(s).0) < steps_left(s) {
            seq![a] + actions_from(step(s).0)
        } else {
            seq![a]
        },
        None => Seq::empty(),
    }
}

/// One step of teardown: the state after it and the native call to make, or
/// `None` once the handle is released.
pub fn teardown_step(s: HandleState) -> (r: (HandleState, Option<TeardownAction>))
    ensures
        r == step(s),
{
    match s {
        HandleState::Live => (HandleState::Closed, Some(TeardownAction::Close)),
        HandleState::Closed => (HandleState::Released, Some(TeardownAction::Unref)),
        HandleState::Released => (HandleState::Released, None),
    }
}

/// Tearing down a live handle makes exactly two native calls, close and then
/// unref, and leaves it released; a released handle makes no call at all, so
/// nothing is closed or released twice.
pub proof fn lemma_teardown_closes_then_releases()
    ensures
        actions_from(HandleState::Live) == seq![TeardownAction::Close, TeardownAction::Unref],
        step(step(HandleState::Live).0).0 == HandleState::Released,
        actions_from(HandleState::Released) == Seq::<TeardownAction>::empty(),
{
    reveal_with_fuel(actions_from, 3);
    assert(actions_from(HandleState::Released) =~= Seq::<TeardownAction>::empty());
    assert(actions_from(HandleState::Closed) =~= seq![TeardownAction::Unref]);
    assert(actions_from(HandleState::Live) =~= seq![TeardownAction::Close, TeardownAction::Unref]);
}

} // verus!
