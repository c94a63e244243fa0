//! The idle supervisor, as a state machine.
//!
//! At the end of every check interval the supervisor samples the traffic
//! flags of both directions. An interval in which both directions carried
//! traffic resets its count of idle ticks; any other interval adds one to it,
//! and the session is shut down as soon as the count exceeds what the
//! configuration allows. The first sample is taken after the first interval,
//! so that no session is judged before it had the time to carry traffic.

use crate::config::{SessionConfig, Timing};
use crate::endpoint::Direction;
use crate::traffic::{shows_traffic, Sample};
use vstd::prelude::*;

verus! {

/// What the supervisor asks its driver to do.
#[derive(Clone, Copy, Debug, PartialEq, Eq, Structural)]
pub enum SupervisorAction {
    /// Read both traffic flags and report them.
    Sample,
    /// Clear both traffic flags and report back.
    ClearTraffic,
    /// Sleep for one check interval, then read the shutdown flag and report it.
    Sleep,
    /// Request shutdown and shut both endpoints down. Nothing follows.
    Shutdown,
    /// Return: the session was ended by someone else. Nothing follows.
    Stop,
}

/// What a driver reports to the supervisor.
#[derive(Clone, Copy, Debug, PartialEq, Eq, Structural)]
pub enum SupervisorEvent {
    /// The traffic flags were read and held these values.
    Sampled { forward: bool, backward: bool },
    /// Both traffic flags were cleared.
    TrafficCleared,
    /// The interval is over, and the shutdown flag held this value.
    Woke { shutdown_requested: bool },
}

/// What the supervisor is waiting for.
#[derive(Clone, Copy, Debug, PartialEq, Eq, Structural)]
pub enum SupervisorStage {
    /// Waiting for the values of the traffic flags.
    Sampling,
    /// Waiting for the traffic flags to be cleared.
    Clearing,
    /// Waiting for the end of the interval.
    Sleeping,
    /// The idle limit was exceeded: the supervisor ends the session.
    TimedOut,
    /// The session was ended by a copier: the supervisor has nothing left to do.
    Stopped,
}

impl SupervisorStage {
    /// The action that the driver owes in this stage.
    pub open spec fn pending(self) -> SupervisorAction {
        match self {
            SupervisorStage::Sampling => SupervisorAction::Sample,
            SupervisorStage::Clearing => SupervisorAction::ClearTraffic,
            SupervisorStage::Sleeping => SupervisorAction::Sleep,
            SupervisorStage::TimedOut => SupervisorAction::Shutdown,
            SupervisorStage::Stopped => SupervisorAction::Stop,
        }
    }

    /// Whether the supervisor has finished, one way or the other.
    pub open spec fn terminal(self) -> bool {
        self == SupervisorStage::TimedOut || self == SupervisorStage::Stopped
    }
}

/// The supervisor as plain values.
pub struct Watch {
    pub timing: Timing,
    pub stage: SupervisorStage,
    /// Idle ticks counted since traffic was last seen in both directions.
    pub idle_ticks: nat,
}

impl Watch {
    /// The supervisor of a fresh session: no idle tick counted, about to let
    /// the first interval pass.
    pub open spec fn start(timing: Timing) -> Watch {
        Watch { timing, stage: SupervisorStage::Sleeping, idle_ticks: 0 }
    }

    /// The count stays within the limit while the session lives, and is one
    /// beyond it once the session has timed out.
    pub open spec fn valid(self) -> bool {
        &&& self.timing.valid()
        &&& match self.stage {
            SupervisorStage::TimedOut => self.idle_ticks == self.timing.max_idle_ticks() + 1,
            SupervisorStage::Clearing => self.idle_ticks == 0,
            _ => self.idle_ticks <= self.timing.max_idle_ticks(),
        }
    }

    /// The idle ticks that the session has got through: the count, without
    /// the tick that ended the session.
    pub open spec fn survived(self) -> nat {
        if self.stage == SupervisorStage::TimedOut {
            (self.idle_ticks - 1) as nat
        } else {
            self.idle_ticks
        }
    }

    /// Whether `event` reports on the action that is pending.
    pub open spec fn awaits(self, event: SupervisorEvent) -> bool {
        match (self.stage, event) {
            (SupervisorStage::Sampling, SupervisorEvent::Sampled { .. }) => true,
            (SupervisorStage::Clearing, SupervisorEvent::TrafficCleared) => true,
            (SupervisorStage::Sleeping, SupervisorEvent::Woke { .. }) => true,
            _ => false,
        }
    }

    /// The supervisor after `event`. A sample with traffic in both directions
    /// resets the count and has the flags cleared. Any other sample counts one
    /// idle tick: past the limit the session times out, else the supervisor
    /// sleeps. After the flags are cleared it sleeps as well. When it wakes
    /// and finds the shutdown flag set it stops, else it samples again. An
    /// event that answers no pending action changes nothing.
    pub open spec fn next(self, event: SupervisorEvent) -> Watch {
        match (self.stage, event) {
            (SupervisorStage::Sampling, SupervisorEvent::Sampled { forward, backward }) => {
                if forward && backward {
                    Watch { stage: SupervisorStage::Clearing, idle_ticks: 0, ..self }
                } else if self.idle_ticks + 1 > self.timing.max_idle_ticks() {
                    Watch {
                        stage: SupervisorStage::TimedOut,
                        idle_ticks: self.idle_ticks + 1,
                        ..self
                    }
                } else {
                    Watch {
                        stage: SupervisorStage::Sleeping,
                        idle_ticks: self.idle_ticks + 1,
                        ..self
                    }
                }
            },
            (SupervisorStage::Clearing, SupervisorEvent::TrafficCleared) => Watch {
                stage: SupervisorStage::Sleeping,
                ..self
            },
            (SupervisorStage::Sleeping, SupervisorEvent::Woke { shutdown_requested }) => {
                if shutdown_requested {
                    Watch { stage: SupervisorStage::Stopped, ..self }
                } else {
                    Watch { stage: SupervisorStage::Sampling, ..self }
                }
            },
            _ => self,
        }
    }

    /// The supervisor after all of `events`, in order.
    pub open spec fn run(self, events: Seq<SupervisorEvent>) -> Watch
        decreases events.len(),
    {
        if events.len() == 0 {
            self
        } else {
            self.run(events.drop_last()).next(events.last())
        }
    }
}

/// The idle supervisor of one session.
#[derive(Debug)]
pub struct IdleSupervisor {
    config: SessionConfig,
    max_idle_ticks: u64,
    stage: SupervisorStage,
    /// Idle ticks that the session has got through.
    survived: u64,
}

impl View for IdleSupervisor {
    type V = Watch;

    closed spec fn view(&self) -> Watch {
        Watch {
            timing: self.config@,
            stage: self.stage,
            idle_ticks: if self.stage == SupervisorStage::TimedOut {
                self.survived as nat + 1
            } else {
                self.survived as nat
            },
        }
    }
}

impl IdleSupervisor {
    #[verifier::type_invariant]
    spec fn within_limit(self) -> bool {
        &&& self@.valid()
        &&& self.max_idle_ticks == self.config@.max_idle_ticks()
    }

    /// The supervisor of a fresh session with the timing `config`. It lets
    /// one interval pass before it takes its first sample.
    pub fn new(config: SessionConfig) -> (supervisor: IdleSupervisor)
        ensures
            supervisor@ == Watch::start(config@),
            supervisor@.valid(),
    {
        let max_idle_ticks: u64 = config.max_idle_ticks();
        IdleSupervisor { config, max_idle_ticks, stage: SupervisorStage::Sleeping, survived: 0 }
    }

    /// The timing that the supervisor was made with.
    pub fn config(&self) -> (config: SessionConfig)
        ensures
            config@ == self@.timing,
    {
        self.config
    }

    /// The stage the supervisor is in.
    pub fn stage(&self) -> (stage: SupervisorStage)
        ensures
            stage == self@.stage,
            self@.valid(),
    {
        proof {
            use_type_invariant(self);
        }
        self.stage
    }

    /// The idle ticks that the session has got through since traffic was last
    /// seen in both directions.
    pub fn idle_ticks(&self) -> (ticks: u64)
        ensures
            ticks == self@.survived(),
            ticks <= self@.timing.max_idle_ticks(),
    {
        proof {
            use_type_invariant(self);
        }
        self.survived
    }

    /// The action that the driver owes right now.
    pub fn pending(&self) -> (action: SupervisorAction)
        ensures
            action == self@.stage.pending(),
    {
        match self.stage {
            SupervisorStage::Sampling => SupervisorAction::Sample,
            SupervisorStage::Clearing => SupervisorAction::ClearTraffic,
            SupervisorStage::Sleeping => SupervisorAction::Sleep,
            SupervisorStage::TimedOut => SupervisorAction::Shutdown,
            SupervisorStage::Stopped => SupervisorAction::Stop,
        }
    }

    /// Whether the supervisor has finished, by timeout or because the session
    /// was ended by a copier.
    pub fn is_finished(&self) -> (finished: bool)
        ensures
            finished == self@.stage.terminal(),
    {
        match self.stage {
            SupervisorStage::TimedOut => true,
            SupervisorStage::Stopped => true,
            _ => false,
        }
    }

    /// Takes the report of the driver and returns what to do next.
    pub fn step(&mut self, event: SupervisorEvent) -> (action: SupervisorAction)
        ensures
            final(self)@ == old(self)@.next(event),
            action == final(self)@.stage.pending(),
            final(self)@.valid(),
    {
        proof {
            use_type_invariant(&*self);
        }
        match (self.stage, event) {
            (SupervisorStage::Sampling, SupervisorEvent::Sampled { forward, backward }) => {
                if forward && backward {
                    self.survived = 0;
                    self.stage = SupervisorStage::Clearing;
                } else if self.survived >= self.max_idle_ticks {
                    self.stage = SupervisorStage::TimedOut;
                } else {
                    self.survived = self.survived + 1;
                    self.stage = SupervisorStage::Sleeping;
                }
            },
            (SupervisorStage::Clearing, SupervisorEvent::TrafficCleared) => {
                self.stage = SupervisorStage::Sleeping;
            },
            (SupervisorStage::Sleeping, SupervisorEvent::Woke { shutdown_requested }) => {
                if shutdown_requested {
                    self.stage = SupervisorStage::Stopped;
                } else {
                    self.stage = SupervisorStage::Sampling;
                }
            },
            _ => {},
        }
        self.pending()
    }
}

/// The events of a session in which nobody else asks for shutdown and the
/// flags hold `samples`, interval after interval: the supervisor wakes to a
/// shutdown flag that is clear, the sample is reported, and where it shows
/// traffic in both directions the flags are cleared.
pub open spec fn rounds(samples: Seq<Sample>) -> Seq<SupervisorEvent>
    decreases samples.len(),
{
    if samples.len() == 0 {
        Seq::empty()
    } else {
        let sampled = rounds(samples.drop_last()).push(
            SupervisorEvent::Woke { shutdown_requested: false },
        ).push(
            SupervisorEvent::Sampled { forward: samples.last().0, backward: samples.last().1 },
        );
        if samples.last().0 && samples.last().1 {
            sampled.push(SupervisorEvent::TrafficCleared)
        } else {
            sampled
        }
    }
}

/// Running one event more is one step more.
pub proof fn lemma_run_one_more(watch: Watch, events: Seq<SupervisorEvent>, event: SupervisorEvent)
    ensures
        watch.run(events.push(event)) == watch.run(events).next(event),
{
    assert(events.push(event).drop_last() =~= events);
}

/// One interval more of a session that nobody else ends: the supervisor
/// wakes, is told the sample, and, where the sample shows traffic in both
/// directions, is told that the flags were cleared.
pub proof fn lemma_one_round(watch: Watch, samples: Seq<Sample>, sample: Sample)
    ensures
        watch.run(rounds(samples.push(sample))) == ({
            let sampled = watch.run(rounds(samples)).next(
                SupervisorEvent::Woke { shutdown_requested: false },
            ).next(SupervisorEvent::Sampled { forward: sample.0, backward: sample.1 });
            if sample.0 && sample.1 {
                sampled.next(SupervisorEvent::TrafficCleared)
            } else {
                sampled
            }
        }),
{
    let longer = samples.push(sample);
    assert(longer.drop_last() =~= samples);
    let sampled = SupervisorEvent::Sampled { forward: sample.0, backward: sample.1 };
    let woke = SupervisorEvent::Woke { shutdown_requested: false };
    let e0 = rounds(samples);
    let e1 = e0.push(woke);
    let e2 = e1.push(sampled);
    lemma_run_one_more(watch, e0, woke);
    lemma_run_one_more(watch, e1, sampled);
    if sample.0 && sample.1 {
        lemma_run_one_more(watch, e2, SupervisorEvent::TrafficCleared);
    }
}

/// As long as every sample shows traffic in both directions, the session does
/// not end for idleness, however long it runs: after any number of such
/// intervals the supervisor is waiting for the next one and has no idle tick
/// on its count.
pub proof fn lemma_steady_traffic_keeps_session_alive(timing: Timing, samples: Seq<Sample>)
    requires
        timing.valid(),
        forall|i: int|
            0 <= i < samples.len() ==> shows_traffic(#[trigger] samples[i], Direction::Forward)
                && shows_traffic(samples[i], Direction::Backward),
    ensures
        Watch::start(timing).run(rounds(samples)).stage == SupervisorStage::Sleeping,
        Watch::start(timing).run(rounds(samples)).idle_ticks == 0,
        Watch::start(timing).run(rounds(samples)).timing == timing,
    decreases samples.len(),
{
    if samples.len() > 0 {
        let earlier = samples.drop_last();
        lemma_steady_traffic_keeps_session_alive(timing, earlier);
        assert(earlier.push(samples.last()) =~= samples);
        lemma_one_round(Watch::start(timing), earlier, samples.last());
    }
}

/// Traffic in one direction alone does not keep a session alive. If
/// `silent` never shows traffic, whatever the other direction does, every
/// interval counts as idle: the count equals the number of intervals while
/// that is within the limit, and the first interval beyond the limit times the
/// session out, after which nothing changes any more.
pub proof fn lemma_one_silent_direction_times_out(
    timing: Timing,
    samples: Seq<Sample>,
    silent: Direction,
)
    requires
        timing.valid(),
        forall|i: int| 0 <= i < samples.len() ==> !shows_traffic(#[trigger] samples[i], silent),
    ensures
        Watch::start(timing).run(rounds(samples)).timing == timing,
        samples.len() <= timing.max_idle_ticks() ==> {
            &&& Watch::start(timing).run(rounds(samples)).stage == SupervisorStage::Sleeping
            &&& Watch::start(timing).run(rounds(samples)).idle_ticks == samples.len()
        },
        samples.len() > timing.max_idle_ticks() ==> {
            &&& Watch::start(timing).run(rounds(samples)).stage == SupervisorStage::TimedOut
            &&& Watch::start(timing).run(rounds(samples)).idle_ticks == timing.max_idle_ticks()
                + 1
            &&& Watch::start(timing).run(rounds(samples)).stage.pending()
                == SupervisorAction::Shutdown
        },
    decreases samples.len(),
{
    if samples.len() > 0 {
        let earlier = samples.drop_last();
        lemma_one_silent_direction_times_out(timing, earlier, silent);
        assert(earlier.push(samples.last()) =~= samples);
        lemma_one_round(Watch::start(timing), earlier, samples.last());
        assert(!shows_traffic(samples.last(), silent));
    }
}

/// A supervisor that has finished stays as it is: no event moves it, and it
/// keeps asking for the same last action.
pub proof fn lemma_finished_supervisor_stays(watch: Watch, events: Seq<SupervisorEvent>)
    requires
        watch.stage.terminal(),
    ensures
        watch.run(events) == watch,
    decreases events.len(),
{
    if events.len() > 0 {
        lemma_finished_supervisor_stays(watch, events.drop_last());
    }
}

/// Every step keeps the count within its bounds, so that no sequence of
/// events takes a supervisor out of its valid states or changes its timing.
pub proof fn lemma_run_stays_valid(watch: Watch, events: Seq<SupervisorEvent>)
    requires
        watch.valid(),
    ensures
        watch.run(events).valid(),
        watch.run(events).timing == watch.timing,
    decreases events.len(),
{
    if events.len() > 0 {
        lemma_run_stays_valid(watch, events.drop_last());
    }
}

/// An event that reports on no pending action changes nothing.
pub proof fn lemma_event_out_of_turn_changes_nothing(watch: Watch, event: SupervisorEvent)
    requires
        !watch.awaits(event),
    ensures
        watch.next(event) == watch,
{
}

} // verus!
