//! What holds of every handoff, whatever the foreign runtime reports and in
//! whatever order.

use crate::handoff::{created, reply, step, visible, Action, Event, HandoffState};
use vstd::prelude::*;

verus! {

/// The state after all of `events`, first to last.
pub open spec fn run(state: HandoffState, events: Seq<Event>) -> HandoffState
    decreases events.len(),
{
    if events.len() == 0 {
        state
    } else {
        run(step(state, events[0]), events.drop_first())
    }
}

/// Whether the handoff still owns its payload.
pub open spec fn live(state: HandoffState) -> bool {
    state.phase is Pending || state.phase is Exposed
}

/// A read through the view of a fresh handoff yields the payload, byte for
/// byte and in full length, before and after the registration is confirmed.
pub proof fn view_round_trip(payload: Seq<u8>)
    ensures
        created(payload).wf(),
        created(payload).length == payload.len(),
        visible(created(payload)) == Some(payload),
        visible(step(created(payload), Event::Registered)) == Some(payload),
{
}

/// As long as the view shows anything, it shows the bytes it was created
/// over: no event changes them.
pub proof fn view_is_frozen(payload: Seq<u8>, events: Seq<Event>)
    ensures
        visible(run(created(payload), events)) matches Some(bytes) ==> bytes == payload,
        run(created(payload), events).length == payload.len(),
{
    frozen_from(created(payload), events);
}

proof fn frozen_from(state: HandoffState, events: Seq<Event>)
    ensures
        run(state, events).length == state.length,
        run(state, events).held is Some ==> run(state, events).held == state.held,
    decreases events.len(),
{
    if events.len() > 0 {
        frozen_from(step(state, events[0]), events.drop_first());
    }
}

/// Every event keeps a handoff well formed, so at most one release ever
/// counts.
pub proof fn at_most_one_release(state: HandoffState, events: Seq<Event>)
    requires
        state.wf(),
    ensures
        run(state, events).wf(),
        run(state, events).releases <= 1,
    decreases events.len(),
{
    if events.len() > 0 {
        at_most_one_release(step(state, events[0]), events.drop_first());
    }
}

/// Asking twice for the release is the same as asking once.
pub proof fn release_is_idempotent(state: HandoffState)
    ensures
        step(step(state, Event::ReleaseRequested), Event::ReleaseRequested) == step(
            state,
            Event::ReleaseRequested,
        ),
        reply(step(state, Event::ReleaseRequested), Event::ReleaseRequested) == Ok::<Action, Seq<u8>>(
            Action::Nothing,
        ),
{
}

/// A release that finds the payload owned drops it, and counts exactly once
/// whatever the runtime reports afterwards, further releases included.
pub proof fn released_exactly_once(state: HandoffState, later: Seq<Event>)
    requires
        state.wf(),
        live(state),
    ensures
        run(step(state, Event::ReleaseRequested), later).releases == 1,
        run(step(state, Event::ReleaseRequested), later).phase is Released,
        visible(run(step(state, Event::ReleaseRequested), later)) is None,
{
    settled(step(state, Event::ReleaseRequested), later);
}

/// Without a request for release nothing is ever dropped: the count stays at
/// zero, and an exposed payload stays owned and readable as it was.
pub proof fn never_released(state: HandoffState, events: Seq<Event>)
    requires
        state.wf(),
        live(state),
        forall|i: int| 0 <= i < events.len() ==> events[i] != Event::ReleaseRequested,
    ensures
        run(state, events).releases == 0,
        state.phase is Exposed ==> run(state, events) == state,
    decreases events.len(),
{
    if events.len() > 0 {
        let next = step(state, events[0]);
        let rest = events.drop_first();
        assert forall|i: int| 0 <= i < rest.len() implies rest[i] != Event::ReleaseRequested by {
            assert(rest[i] == events[i + 1]);
        }
        if live(next) {
            never_released(next, rest);
        } else {
            settled(next, rest);
        }
    }
}

/// A refused registration hands the whole payload back, and no release ever
/// counts on that handoff.
pub proof fn refusal_returns_payload(payload: Seq<u8>, later: Seq<Event>)
    ensures
        reply(created(payload), Event::RegistrationFailed) == Err::<Action, Seq<u8>>(payload),
        step(created(payload), Event::RegistrationFailed).phase is Refused,
        run(step(created(payload), Event::RegistrationFailed), later) == step(
            created(payload),
            Event::RegistrationFailed,
        ),
        run(step(created(payload), Event::RegistrationFailed), later).releases == 0,
        visible(run(step(created(payload), Event::RegistrationFailed), later)) is None,
{
    settled(step(created(payload), Event::RegistrationFailed), later);
}

/// Once the payload is gone, no event changes the handoff.
proof fn settled(state: HandoffState, events: Seq<Event>)
    requires
        !live(state),
    ensures
        run(state, events) == state,
    decreases events.len(),
{
    if events.len() > 0 {
        settled(step(state, events[0]), events.drop_first());
    }
}

} // verus!
