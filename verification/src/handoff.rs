//! The handoff of one owned byte payload to a foreign runtime.
//!
//! The payload is shown to the foreign runtime as a borrowed slice, its
//! foreign view, never copied, and stays alive until that runtime asks for
//! its release. The handoff owns the payload by value, so it is also the
//! release token that the runtime is bound to: it can be moved to wherever
//! the runtime's finalizer will find it, and outlives the scope that made it.
//!
//! The runtime itself cannot be called from here: whoever talks to it tells
//! what it said as an [`Event`], and [`BorrowedBufferHandoff::on_event`]
//! decides what becomes of the payload.

use vstd::prelude::*;

verus! {

/// Where a handoff stands in its life.
#[derive(Clone, Copy, Debug, PartialEq, Eq, Structural)]
pub enum Phase {
    /// The payload is owned and its view is on offer; the runtime has not
    /// answered the registration yet.
    Pending,
    /// The runtime accepted the registration and may read the view.
    Exposed,
    /// The runtime asked for the release and the payload was dropped.
    Released,
    /// The runtime refused the registration and the payload went back to
    /// the caller.
    Refused,
}

/// What the foreign runtime reported.
#[derive(Clone, Copy, Debug, PartialEq, Eq, Structural)]
pub enum Event {
    /// The registration of the view succeeded.
    Registered,
    /// The registration of the view failed.
    RegistrationFailed,
    /// The runtime is done with the view and asks for the release.
    ReleaseRequested,
}

/// What an event did to a handoff.
#[derive(Clone, Copy, Debug, PartialEq, Eq, Structural)]
pub enum Action {
    /// The view is now registered with the runtime.
    Expose,
    /// The payload was dropped.
    Free,
    /// The event changed nothing.
    Nothing,
}

/// The mathematical state of a handoff.
pub struct HandoffState {
    pub phase: Phase,
    /// The bytes behind the view, as long as the payload is owned.
    pub held: Option<Seq<u8>>,
    /// The length that the view was created with.
    pub length: nat,
    /// How many times a release dropped the payload.
    pub releases: nat,
}

impl HandoffState {
    /// The payload is owned exactly until it is released or refused, the view
    /// keeps the length it was created with, and at most one release counts.
    pub open spec fn wf(self) -> bool {
        &&& self.held is Some <==> (self.phase is Pending || self.phase is Exposed)
        &&& self.held matches Some(bytes) ==> bytes.len() == self.length
        &&& self.releases == (if self.phase is Released { 1nat } else { 0nat })
    }
}

/// The state of a handoff that was just created over `payload`.
pub open spec fn created(payload: Seq<u8>) -> HandoffState {
    HandoffState { phase: Phase::Pending, held: Some(payload), length: payload.len(), releases: 0 }
}

/// What a read through the view yields: the payload while it is owned,
/// nothing afterwards.
pub open spec fn visible(state: HandoffState) -> Option<Seq<u8>> {
    state.held
}

/// The state after `event`.
///
/// A registration is answered once, while the handoff is pending. A release
/// drops the payload the first time it is asked for. Every other event leaves
/// the state as it is.
pub open spec fn step(state: HandoffState, event: Event) -> HandoffState {
    match (state.phase, event) {
        (Phase::Pending, Event::Registered) => HandoffState { phase: Phase::Exposed, ..state },
        (Phase::Pending, Event::RegistrationFailed) => HandoffState {
            phase: Phase::Refused,
            held: None,
            ..state
        },
        (Phase::Pending, Event::ReleaseRequested) | (Phase::Exposed, Event::ReleaseRequested) => {
            HandoffState {
                phase: Phase::Released,
                held: None,
                releases: state.releases + 1,
                ..state
            }
        },
        _ => state,
    }
}

/// What `event` is answered with: the action taken, or, where a pending
/// registration failed, the payload that goes back to the caller.
pub open spec fn reply(state: HandoffState, event: Event) -> Result<Action, Seq<u8>> {
    match (state.phase, event) {
        (Phase::Pending, Event::Registered) => Ok(Action::Expose),
        (Phase::Pending, Event::RegistrationFailed) => Err(state.held.unwrap()),
        (Phase::Pending, Event::ReleaseRequested) | (Phase::Exposed, Event::ReleaseRequested) => Ok(
            Action::Free,
        ),
        _ => Ok(Action::Nothing),
    }
}

/// The registration of a view failed. The error owns the payload that the
/// runtime refused, so that nothing of it is lost.
#[derive(Debug)]
pub struct AllocationError {
    payload: Vec<u8>,
}

impl View for AllocationError {
    type V = Seq<u8>;

    /// The bytes of the refused payload.
    closed spec fn view(&self) -> Seq<u8> {
        self.payload@
    }
}

impl AllocationError {
    /// Gives the refused payload back to the caller.
    pub fn into_payload(self) -> (payload: Vec<u8>)
        ensures
            payload@ == self@,
    {
        self.payload
    }
}

/// One owned payload on its way to a foreign runtime.
#[derive(Debug)]
pub struct BorrowedBufferHandoff {
    payload: Option<Vec<u8>>,
    length: usize,
    phase: Phase,
    releases: usize,
}

impl View for BorrowedBufferHandoff {
    type V = HandoffState;

    closed spec fn view(&self) -> HandoffState {
        HandoffState {
            phase: self.phase,
            held: match self.payload {
                Some(bytes) => Some(bytes@),
                None => None,
            },
            length: self.length as nat,
            releases: self.releases as nat,
        }
    }
}

impl BorrowedBufferHandoff {
    #[verifier::type_invariant]
    spec fn well_formed(self) -> bool {
        self@.wf()
    }

    /// Takes ownership of `payload`. Its view is on offer from now on, and
    /// the registration is pending.
    pub fn create(payload: Vec<u8>) -> (handoff: BorrowedBufferHandoff)
        ensures
            handoff@ == created(payload@),
    {
        let length = payload.len();
        BorrowedBufferHandoff { payload: Some(payload), length, phase: Phase::Pending, releases: 0 }
    }

    /// The view for the foreign runtime: the payload's own bytes, borrowed,
    /// as long as the payload is owned.
    pub fn foreign_view(&self) -> (view: Option<&[u8]>)
        ensures
            self@.wf(),
            match view {
                Some(bytes) => visible(self@) == Some(bytes@),
                None => visible(self@) is None,
            },
    {
        proof {
            use_type_invariant(self);
        }
        match &self.payload {
            Some(bytes) => Some(bytes.as_slice()),
            None => None,
        }
    }

    /// The length that the view was created with.
    pub fn len(&self) -> (length: usize)
        ensures
            self@.wf(),
            length == self@.length,
    {
        proof {
            use_type_invariant(self);
        }
        self.length
    }

    /// Where the handoff stands.
    pub fn phase(&self) -> (phase: Phase)
        ensures
            self@.wf(),
            phase == self@.phase,
    {
        proof {
            use_type_invariant(self);
        }
        self.phase
    }

    /// How many times a release dropped the payload.
    pub fn release_count(&self) -> (count: usize)
        ensures
            self@.wf(),
            count == self@.releases,
    {
        proof {
            use_type_invariant(self);
        }
        self.releases
    }

    /// Takes in what the foreign runtime reported.
    ///
    /// Fails exactly when a pending registration failed, and then hands the
    /// payload back inside the error.
    pub fn on_event(&mut self, event: Event) -> (outcome: Result<Action, AllocationError>)
        ensures
            final(self)@ == step(old(self)@, event),
            final(self)@.wf(),
            outcome is Err <==> old(self)@.phase is Pending && event is RegistrationFailed,
            match outcome {
                Ok(action) => reply(old(self)@, event) == Ok::<Action, Seq<u8>>(action),
                Err(error) => reply(old(self)@, event) == Err::<Action, Seq<u8>>(error@),
            },
    {
        proof {
            use_type_invariant(&*self);
        }
        match (self.phase, event) {
            (Phase::Pending, Event::Registered) => {
                self.phase = Phase::Exposed;
                Ok(Action::Expose)
            },
            (Phase::Pending, Event::RegistrationFailed) => {
                let mut previous = BorrowedBufferHandoff {
                    payload: None,
                    length: self.length,
                    phase: Phase::Refused,
                    releases: self.releases,
                };
                std::mem::swap(self, &mut previous);
                Err(AllocationError { payload: previous.payload.unwrap() })
            },
            (Phase::Pending, Event::ReleaseRequested) | (Phase::Exposed, Event::ReleaseRequested) => {
                *self = BorrowedBufferHandoff {
                    payload: None,
                    length: self.length,
                    phase: Phase::Released,
                    releases: self.releases + 1,
                };
                Ok(Action::Free)
            },
            _ => Ok(Action::Nothing),
        }
    }
}

} // verus!
