//! Coordinated shutdown: one flag that ends the session and a guard that lets
//! each endpoint be shut down exactly once, whoever asks and however often.

use crate::endpoint::Endpoint;
use vstd::prelude::*;

verus! {

/// Where a session stands between start and teardown.
#[derive(Clone, Copy, Debug, PartialEq, Eq, Structural)]
pub enum SessionPhase {
    /// No component has asked for shutdown.
    Running,
    /// Shutdown was asked for and at least one endpoint is still open.
    ShuttingDown,
    /// Both endpoints are shut down.
    Closed,
}

impl SessionPhase {
    /// Position of the phase in the order in which a session passes them.
    pub open spec fn rank(self) -> nat {
        match self {
            SessionPhase::Running => 0,
            SessionPhase::ShuttingDown => 1,
            SessionPhase::Closed => 2,
        }
    }
}

/// The shutdown state of a session as plain values.
pub struct ShutdownState {
    pub requested: bool,
    pub first_closed: bool,
    pub second_closed: bool,
}

impl ShutdownState {
    /// The state of a session that has just started.
    pub open spec fn initial() -> ShutdownState {
        ShutdownState { requested: false, first_closed: false, second_closed: false }
    }

    /// An endpoint is only ever closed in a session that is ending.
    pub open spec fn valid(self) -> bool {
        (self.first_closed || self.second_closed) ==> self.requested
    }

    /// Whether `endpoint` has been handed out for shutdown.
    pub open spec fn is_closed(self, endpoint: Endpoint) -> bool {
        match endpoint {
            Endpoint::First => self.first_closed,
            Endpoint::Second => self.second_closed,
        }
    }

    /// The state after a request for shutdown.
    pub open spec fn request(self) -> ShutdownState {
        ShutdownState { requested: true, ..self }
    }

    /// The state after `endpoint` was handed out for shutdown.
    pub open spec fn close(self, endpoint: Endpoint) -> ShutdownState {
        match endpoint {
            Endpoint::First => ShutdownState { requested: true, first_closed: true, ..self },
            Endpoint::Second => ShutdownState { requested: true, second_closed: true, ..self },
        }
    }

    /// The phase that the state amounts to.
    pub open spec fn phase(self) -> SessionPhase {
        if self.first_closed && self.second_closed {
            SessionPhase::Closed
        } else if self.requested {
            SessionPhase::ShuttingDown
        } else {
            SessionPhase::Running
        }
    }

    /// The state after the endpoints of `calls` were asked for, in order.
    pub open spec fn close_all(self, calls: Seq<Endpoint>) -> ShutdownState
        decreases calls.len(),
    {
        if calls.len() == 0 {
            self
        } else {
            self.close_all(calls.drop_last()).close(calls.last())
        }
    }

    /// Whether call number `index` of `calls` is the one that has to shut its
    /// endpoint down.
    pub open spec fn granted(self, calls: Seq<Endpoint>, index: int) -> bool
        recommends
            0 <= index < calls.len(),
    {
        !self.close_all(calls.take(index)).is_closed(calls[index])
    }
}

/// Shared shutdown state of one session.
#[derive(Debug)]
pub struct ShutdownCoordinator {
    requested: bool,
    first_closed: bool,
    second_closed: bool,
}

impl View for ShutdownCoordinator {
    type V = ShutdownState;

    closed spec fn view(&self) -> ShutdownState {
        ShutdownState {
            requested: self.requested,
            first_closed: self.first_closed,
            second_closed: self.second_closed,
        }
    }
}

impl ShutdownCoordinator {
    #[verifier::type_invariant]
    spec fn consistent(self) -> bool {
        self@.valid()
    }

    /// The coordinator of a fresh session: nothing requested, nothing closed.
    pub fn new() -> (coordinator: ShutdownCoordinator)
        ensures
            coordinator@ == ShutdownState::initial(),
    {
        ShutdownCoordinator { requested: false, first_closed: false, second_closed: false }
    }

    /// Whether the session is ending.
    pub fn is_shutdown(&self) -> (requested: bool)
        ensures
            requested == self@.requested,
    {
        self.requested
    }

    /// Whether `endpoint` has already been handed out for shutdown.
    pub fn is_closed(&self, endpoint: Endpoint) -> (closed: bool)
        ensures
            closed == self@.is_closed(endpoint),
    {
        match endpoint {
            Endpoint::First => self.first_closed,
            Endpoint::Second => self.second_closed,
        }
    }

    /// Marks the session as ending. Returns whether this call made the
    /// transition; a repeated request changes nothing.
    pub fn request_shutdown(&mut self) -> (first: bool)
        ensures
            final(self)@ == old(self)@.request(),
            first == !old(self)@.requested,
            final(self)@.valid(),
    {
        proof {
            use_type_invariant(&*self);
        }
        let first = !self.requested;
        self.requested = true;
        first
    }

    /// Marks the session as ending and hands `endpoint` out for shutdown.
    /// Returns `true` to exactly one caller per endpoint: the one that has to
    /// shut the endpoint down.
    pub fn close_endpoint(&mut self, endpoint: Endpoint) -> (owed: bool)
        ensures
            final(self)@ == old(self)@.close(endpoint),
            owed == !old(self)@.is_closed(endpoint),
            final(self)@.valid(),
    {
        self.requested = true;
        match endpoint {
            Endpoint::First => {
                let owed = !self.first_closed;
                self.first_closed = true;
                owed
            },
            Endpoint::Second => {
                let owed = !self.second_closed;
                self.second_closed = true;
                owed
            },
        }
    }

    /// The phase of the session.
    pub fn phase(&self) -> (phase: SessionPhase)
        ensures
            phase == self@.phase(),
            self@.valid(),
    {
        proof {
            use_type_invariant(self);
        }
        if self.first_closed && self.second_closed {
            SessionPhase::Closed
        } else if self.requested {
            SessionPhase::ShuttingDown
        } else {
            SessionPhase::Running
        }
    }
}

/// Asking again changes nothing: a second request for shutdown, or a second
/// call for the same endpoint, leaves the state as the first one made it, and
/// the second call for an endpoint is not granted.
pub proof fn lemma_shutdown_is_idempotent(state: ShutdownState, endpoint: Endpoint)
    ensures
        state.request().request() == state.request(),
        state.close(endpoint).close(endpoint) == state.close(endpoint),
        state.close(endpoint).request() == state.close(endpoint),
        state.close(endpoint).is_closed(endpoint),
        state.request().phase() != SessionPhase::Running,
{
}

/// After any calls an endpoint is closed exactly if it was closed before or
/// one of the calls named it; the other fields follow from that.
pub proof fn lemma_close_all_closes_what_was_named(
    start: ShutdownState,
    calls: Seq<Endpoint>,
    endpoint: Endpoint,
)
    ensures
        start.close_all(calls).is_closed(endpoint) == (start.is_closed(endpoint) || calls.contains(
            endpoint,
        )),
        start.close_all(calls).requested == (start.requested || calls.len() > 0),
        start.valid() ==> start.close_all(calls).valid(),
    decreases calls.len(),
{
    if calls.len() > 0 {
        let before = calls.drop_last();
        lemma_close_all_closes_what_was_named(start, before, endpoint);
        if calls.contains(endpoint) {
            let i = choose|i: int| 0 <= i < calls.len() && calls[i] == endpoint;
            if i < calls.len() - 1 {
                assert(before[i] == endpoint);
            }
        }
        if before.contains(endpoint) {
            let i = choose|i: int| 0 <= i < before.len() && before[i] == endpoint;
            assert(calls[i] == endpoint);
        }
        if calls.last() == endpoint {
            assert(calls[calls.len() - 1] == endpoint);
        }
    }
}

/// Whatever the order and number of calls, an endpoint is granted to the first
/// call that names it, provided it was still open at the start, and to no
/// other.
pub proof fn lemma_granted_to_first_call_only(
    start: ShutdownState,
    calls: Seq<Endpoint>,
    index: int,
)
    requires
        0 <= index < calls.len(),
    ensures
        start.granted(calls, index) <==> (!start.is_closed(calls[index]) && forall|earlier: int|
            0 <= earlier < index ==> calls[earlier] != calls[index]),
{
    let prefix = calls.take(index);
    let endpoint = calls[index];
    lemma_close_all_closes_what_was_named(start, prefix, endpoint);
    if prefix.contains(endpoint) {
        let i = choose|i: int| 0 <= i < prefix.len() && prefix[i] == endpoint;
        assert(calls[i] == endpoint);
    }
    if exists|earlier: int| 0 <= earlier < index && calls[earlier] == endpoint {
        let i = choose|earlier: int| 0 <= earlier < index && calls[earlier] == endpoint;
        assert(prefix[i] == endpoint);
    }
}

/// No endpoint is shut down twice: of two calls that name the same endpoint,
/// the later one is never granted.
pub proof fn lemma_endpoint_granted_at_most_once(
    start: ShutdownState,
    calls: Seq<Endpoint>,
    earlier: int,
    later: int,
)
    requires
        0 <= earlier < later < calls.len(),
        calls[earlier] == calls[later],
    ensures
        !start.granted(calls, later),
{
    lemma_granted_to_first_call_only(start, calls, later);
}

/// A session only moves forward: calls never take it back to an earlier
/// phase, a request once made stays, and a session in which both endpoints
/// were named is closed.
pub proof fn lemma_phase_never_goes_back(start: ShutdownState, calls: Seq<Endpoint>)
    ensures
        start.close_all(calls).phase().rank() >= start.phase().rank(),
        start.requested ==> start.close_all(calls).requested,
        calls.len() > 0 ==> start.close_all(calls).phase() != SessionPhase::Running,
        (calls.contains(Endpoint::First) && calls.contains(Endpoint::Second))
            ==> start.close_all(calls).phase() == SessionPhase::Closed,
{
    lemma_close_all_closes_what_was_named(start, calls, Endpoint::First);
    lemma_close_all_closes_what_was_named(start, calls, Endpoint::Second);
}

} // verus!
