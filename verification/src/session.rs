//! The state that the workers of one session share, and the answers to those
//! actions of a copier or of the supervisor that need no stream.
//!
//! A driver keeps one [`BridgeSession`] per bridge, behind whatever guard its
//! workers need, and turns to it for everything but reading, writing,
//! sleeping and shutting an endpoint down.

use crate::coordinator::{SessionPhase, ShutdownCoordinator, ShutdownState};
use crate::copier::CopierEvent;
use crate::endpoint::{Direction, Endpoint};
use crate::supervisor::SupervisorEvent;
use crate::traffic::{marked, Sample, TrafficFlags};
use vstd::prelude::*;

verus! {

/// The shared state of a session as plain values.
pub struct Signals {
    pub shutdown: ShutdownState,
    pub traffic: Sample,
}

impl Signals {
    /// The signals of a session that has just started.
    pub open spec fn initial() -> Signals {
        Signals { shutdown: ShutdownState::initial(), traffic: (false, false) }
    }

    /// The signals after the copier of `direction` has stopped: the session
    /// is ending and the destination of that copier is handed out.
    pub open spec fn copier_closed(self, direction: Direction) -> Signals {
        Signals { shutdown: self.shutdown.close(direction.spec_destination()), ..self }
    }

    /// The signals after the session was shut down as a whole: the session
    /// is ending and both endpoints are handed out.
    pub open spec fn shut_down(self) -> Signals {
        Signals { shutdown: self.shutdown.close(Endpoint::First).close(Endpoint::Second), ..self }
    }
}

/// Which endpoints a caller has to shut down.
#[derive(Clone, Copy, Debug, PartialEq, Eq, Structural)]
pub struct Owed {
    pub first: bool,
    pub second: bool,
}

/// The shutdown flag, the endpoint guard and the traffic flags of one session.
#[derive(Debug)]
pub struct BridgeSession {
    coordinator: ShutdownCoordinator,
    traffic: TrafficFlags,
}

impl View for BridgeSession {
    type V = Signals;

    closed spec fn view(&self) -> Signals {
        Signals { shutdown: self.coordinator@, traffic: self.traffic@ }
    }
}

impl BridgeSession {
    /// A session that has just started: running, both endpoints open, no
    /// traffic seen.
    pub fn new() -> (session: BridgeSession)
        ensures
            session@ == Signals::initial(),
    {
        BridgeSession { coordinator: ShutdownCoordinator::new(), traffic: TrafficFlags::new() }
    }

    /// Whether the session is ending.
    pub fn is_shutdown(&self) -> (requested: bool)
        ensures
            requested == self@.shutdown.requested,
    {
        self.coordinator.is_shutdown()
    }

    /// The phase of the session.
    pub fn phase(&self) -> (phase: SessionPhase)
        ensures
            phase == self@.shutdown.phase(),
            self@.shutdown.valid(),
    {
        self.coordinator.phase()
    }

    /// Answers a copier that wants to know the shutdown flag.
    pub fn poll(&self) -> (event: CopierEvent)
        ensures
            event == CopierEvent::ShutdownChecked(self@.shutdown.requested),
    {
        CopierEvent::ShutdownChecked(self.coordinator.is_shutdown())
    }

    /// Sets the traffic flag of `direction` for its copier.
    pub fn mark_traffic(&mut self, direction: Direction) -> (event: CopierEvent)
        ensures
            event == CopierEvent::TrafficMarked,
            final(self)@.traffic == marked(old(self)@.traffic, direction),
            final(self)@.shutdown == old(self)@.shutdown,
    {
        self.traffic.mark(direction);
        CopierEvent::TrafficMarked
    }

    /// Ends the session for the copier of `direction`, which has stopped.
    /// Returns whether that copier has to shut its destination down: it has,
    /// unless somebody did so before.
    pub fn close_copier(&mut self, direction: Direction) -> (owed: bool)
        ensures
            final(self)@ == old(self)@.copier_closed(direction),
            owed == !old(self)@.shutdown.is_closed(direction.spec_destination()),
            final(self)@.shutdown.valid(),
    {
        self.coordinator.request_shutdown();
        self.coordinator.close_endpoint(direction.destination())
    }

    /// Answers the supervisor that wants to know the traffic flags.
    pub fn sample(&self) -> (event: SupervisorEvent)
        ensures
            event == (SupervisorEvent::Sampled {
                forward: self@.traffic.0,
                backward: self@.traffic.1,
            }),
    {
        let flags = self.traffic.sample();
        SupervisorEvent::Sampled { forward: flags.0, backward: flags.1 }
    }

    /// Clears both traffic flags for the supervisor.
    pub fn clear_traffic(&mut self) -> (event: SupervisorEvent)
        ensures
            event == SupervisorEvent::TrafficCleared,
            final(self)@.traffic == (false, false),
            final(self)@.shutdown == old(self)@.shutdown,
    {
        self.traffic.clear();
        SupervisorEvent::TrafficCleared
    }

    /// Answers the supervisor that has slept for an interval and wants to
    /// know the shutdown flag.
    pub fn wake(&self) -> (event: SupervisorEvent)
        ensures
            event == (SupervisorEvent::Woke { shutdown_requested: self@.shutdown.requested }),
    {
        SupervisorEvent::Woke { shutdown_requested: self.coordinator.is_shutdown() }
    }

    /// Shuts the whole session down: for the supervisor, which has timed it
    /// out, or for whoever tears the session down. Returns the endpoints that
    /// the caller has to shut down: each of the two that nobody has shut down
    /// before.
    pub fn shut_down(&mut self) -> (owed: Owed)
        ensures
            final(self)@ == old(self)@.shut_down(),
            owed.first == !old(self)@.shutdown.is_closed(Endpoint::First),
            owed.second == !old(self)@.shutdown.is_closed(Endpoint::Second),
            final(self)@.shutdown.phase() == SessionPhase::Closed,
    {
        self.coordinator.request_shutdown();
        let first = self.coordinator.close_endpoint(Endpoint::First);
        let second = self.coordinator.close_endpoint(Endpoint::Second);
        Owed { first, second }
    }
}

/// A stopping copier and a supervisor that times out at the same moment end
/// the session once. Whichever of the two comes first, the signals are the
/// same afterwards and the session is closed. Whoever comes second finds the
/// destination of the copier closed already and is not owed it again; the
/// source of the copier is left to the shutdown of the whole session.
pub proof fn lemma_concurrent_shutdown_is_one_shutdown(signals: Signals, direction: Direction)
    ensures
        signals.copier_closed(direction).shut_down() == signals.shut_down().copier_closed(
            direction,
        ),
        signals.shut_down().copier_closed(direction) == signals.shut_down(),
        signals.shut_down().shutdown.phase() == SessionPhase::Closed,
        signals.shut_down().shutdown.is_closed(direction.spec_destination()),
        signals.copier_closed(direction).shutdown.is_closed(direction.spec_destination()),
        signals.copier_closed(direction).shutdown.is_closed(direction.spec_source())
            == signals.shutdown.is_closed(direction.spec_source()),
        signals.shut_down().traffic == signals.traffic,
{
}

/// Once both copiers have stopped the session is closed, whichever of them
/// stopped first: each has shut the endpoint down that the other reads from.
pub proof fn lemma_two_stopped_copiers_close_session(signals: Signals, direction: Direction)
    ensures
        signals.copier_closed(direction).copier_closed(direction.spec_reverse()).shutdown.phase()
            == SessionPhase::Closed,
        signals.copier_closed(direction).copier_closed(direction.spec_reverse())
            == signals.copier_closed(direction.spec_reverse()).copier_closed(direction),
        signals.copier_closed(direction).shutdown.phase() != SessionPhase::Running,
{
}

} // verus!
