//! The life of one wrapper object: created, live, destroyed.

use vstd::prelude::*;
use crate::status::Status;

verus! {

/// The state of a wrapper object. `Destroyed` is terminal.
#[derive(Clone, Copy, Debug, PartialEq, Eq, Structural)]
pub enum Lifecycle {
    /// The runtime has returned the handle; no wrapper holds it yet.
    Created,
    /// A wrapper owns the handle and holds its session.
    Live,
    /// The native destroy call has been issued.
    Destroyed,
}

/// What can happen to a wrapper object.
#[derive(Clone, Copy, Debug, PartialEq, Eq, Structural)]
pub enum LifecycleEvent {
    /// The handle is wrapped together with a reference to its session.
    Wrapped,
    /// A native call was made through the object and returned this code.
    Used(Status),
    /// The owner of the handle goes out of scope.
    Dropped,
}

/// The state after an event, and whether the event issues the native
/// destroy call.
pub open spec fn step_spec(state: Lifecycle, event: LifecycleEvent) -> (Lifecycle, bool) {
    match state {
        Lifecycle::Destroyed => (Lifecycle::Destroyed, false),
        Lifecycle::Created => match event {
            LifecycleEvent::Wrapped => (Lifecycle::Live, false),
            LifecycleEvent::Used(_) => (Lifecycle::Created, false),
            LifecycleEvent::Dropped => (Lifecycle::Destroyed, true),
        },
        Lifecycle::Live => match event {
            LifecycleEvent::Wrapped => (Lifecycle::Live, false),
            LifecycleEvent::Used(_) => (Lifecycle::Live, false),
            LifecycleEvent::Dropped => (Lifecycle::Destroyed, true),
        },
    }
}

/// The state after a sequence of events, and the number of native destroy
/// calls that the sequence issues.
pub open spec fn run_spec(state: Lifecycle, events: Seq<LifecycleEvent>) -> (Lifecycle, nat)
    decreases events.len(),
{
    if events.len() == 0 {
        (state, 0)
    } else {
        let before = run_spec(state, events.drop_last());
        let last = step_spec(before.0, events.last());
        (
            last.0,
            if last.1 {
                before.1 + 1
            } else {
                before.1
            },
        )
    }
}

/// Whether the owner was dropped somewhere in `events`.
pub open spec fn has_drop(events: Seq<LifecycleEvent>) -> bool {
    exists|i: int| 0 <= i < events.len() && #[trigger] events[i] == LifecycleEvent::Dropped
}

/// Applies one event: the state after it, and whether the native destroy
/// call is to be issued now.
pub fn step(state: Lifecycle, event: LifecycleEvent) -> (r: (Lifecycle, bool))
    ensures
        r == step_spec(state, event),
{
    match state {
        Lifecycle::Destroyed => (Lifecycle::Destroyed, false),
        Lifecycle::Created => match event {
            LifecycleEvent::Wrapped => (Lifecycle::Live, false),
            LifecycleEvent::Used(_) => (Lifecycle::Created, false),
            LifecycleEvent::Dropped => (Lifecycle::Destroyed, true),
        },
        Lifecycle::Live => match event {
            LifecycleEvent::Wrapped => (Lifecycle::Live, false),
            LifecycleEvent::Used(_) => (Lifecycle::Live, false),
            LifecycleEvent::Dropped => (Lifecycle::Destroyed, true),
        },
    }
}

/// Applies a sequence of events to a new object: the state after them, and
/// the number of native destroy calls they issue.
pub fn run(events: &Vec<LifecycleEvent>) -> (r: (Lifecycle, usize))
    ensures
        r.0 == run_spec(Lifecycle::Created, events@).0,
        r.1 == run_spec(Lifecycle::Created, events@).1,
{
    let mut state = Lifecycle::Created;
    let mut calls: usize = 0;
    let mut i: usize = 0;
    while i < events.len()
        invariant
            i <= events.len(),
            state == run_spec(Lifecycle::Created, events@.take(i as int)).0,
            calls == run_spec(Lifecycle::Created, events@.take(i as int)).1,
            calls <= 1,
            calls == 1 ==> state == Lifecycle::Destroyed,
        decreases events.len() - i,
    {
        proof {
            assert(events@.take(i + 1).drop_last() =~= events@.take(i as int));
        }
        let (next, destroy) = step(state, events[i]);
        state = next;
        if destroy {
            calls = calls + 1;
        }
        i = i + 1;
    }
    proof {
        assert(events@.take(i as int) =~= events@);
    }
    (state, calls)
}

/// An object is destroyed exactly once: whatever happens to it, and whatever
/// codes its calls return, the native destroy call is issued once if its
/// owner is ever dropped and never otherwise, and the object ends destroyed
/// exactly when the call was issued.
pub proof fn lemma_destroyed_exactly_once(events: Seq<LifecycleEvent>)
    ensures
        run_spec(Lifecycle::Created, events).1 == if has_drop(events) {
            1nat
        } else {
            0nat
        },
        run_spec(Lifecycle::Created, events).0 == Lifecycle::Destroyed <==> has_drop(events),
    decreases events.len(),
{
    if events.len() > 0 {
        let prefix = events.drop_last();
        lemma_destroyed_exactly_once(prefix);
        if has_drop(prefix) {
            let i = choose|i: int| 0 <= i < prefix.len() && #[trigger] prefix[i] == LifecycleEvent::Dropped;
            assert(events[i] == LifecycleEvent::Dropped);
        }
        if events.last() == LifecycleEvent::Dropped {
            assert(events[events.len() - 1] == LifecycleEvent::Dropped);
        }
        if has_drop(events) {
            let i = choose|i: int| 0 <= i < events.len() && #[trigger] events[i] == LifecycleEvent::Dropped;
            if i < prefix.len() {
                assert(prefix[i] == LifecycleEvent::Dropped);
            }
        }
    }
}

/// A call that fails leaves the object as it was: it neither destroys the
/// object nor counts as its destruction.
pub proof fn lemma_use_changes_nothing(state: Lifecycle, code: Status)
    ensures
        step_spec(state, LifecycleEvent::Used(code)) == (state, false),
{
}

} // verus!
