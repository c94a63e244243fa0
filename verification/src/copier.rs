//! The byte copier of one direction, as a state machine.
//!
//! A copier never touches a stream itself. It tells its driver what to do
//! next (look at the shutdown flag, read, write, signal traffic, close) and
//! is told what came of it. The driver owns a buffer of [`BUFFER_SIZE`] bytes:
//! a read fills a prefix of it, and a write sends exactly the prefix that the
//! copier names.

use vstd::prelude::*;

verus! {

/// Size of the buffer that one read may fill, in bytes.
pub const BUFFER_SIZE: usize = 16384;

/// What a copier asks its driver to do.
#[derive(Clone, Copy, Debug, PartialEq, Eq, Structural)]
pub enum CopierAction {
    /// Read the shutdown flag and report it.
    CheckShutdown,
    /// Read once from the source into the buffer and report the outcome.
    Read,
    /// Write the first `len` bytes of the buffer to the destination, all of
    /// them, and report the outcome.
    Write { len: usize },
    /// Set the traffic flag of this direction and report back.
    MarkTraffic,
    /// Request shutdown and shut the destination down. Nothing follows.
    Close,
}

/// What a driver reports to its copier.
#[derive(Clone, Copy, Debug, PartialEq, Eq, Structural)]
pub enum CopierEvent {
    /// The shutdown flag was read and held this value.
    ShutdownChecked(bool),
    /// The read returned this many bytes; zero means the peer closed.
    ReadDone(usize),
    /// The read failed.
    ReadFailed,
    /// Every byte of the chunk was written.
    WriteDone,
    /// The write failed.
    WriteFailed,
    /// The traffic flag was set.
    TrafficMarked,
}

/// What a copier is waiting for.
#[derive(Clone, Copy, Debug, PartialEq, Eq, Structural)]
pub enum CopierStage {
    /// Waiting for the value of the shutdown flag.
    Polling,
    /// Waiting for the outcome of a read.
    Reading,
    /// Waiting for the outcome of the write of a chunk of `len` bytes.
    Writing { len: usize },
    /// Waiting for the traffic flag to be set.
    Marking,
    /// The copier has stopped for good.
    Stopped,
}

impl CopierStage {
    /// A chunk in flight is never empty and never larger than the buffer.
    pub open spec fn valid(self) -> bool {
        match self {
            CopierStage::Writing { len } => 0 < len <= BUFFER_SIZE,
            _ => true,
        }
    }

    /// The action that the driver owes in this stage.
    pub open spec fn pending(self) -> CopierAction {
        match self {
            CopierStage::Polling => CopierAction::CheckShutdown,
            CopierStage::Reading => CopierAction::Read,
            CopierStage::Writing { len } => CopierAction::Write { len },
            CopierStage::Marking => CopierAction::MarkTraffic,
            CopierStage::Stopped => CopierAction::Close,
        }
    }

    /// Whether `event` reports on the action that is pending in this stage.
    pub open spec fn awaits(self, event: CopierEvent) -> bool {
        match (self, event) {
            (CopierStage::Polling, CopierEvent::ShutdownChecked(_)) => true,
            (CopierStage::Reading, CopierEvent::ReadDone(_)) => true,
            (CopierStage::Reading, CopierEvent::ReadFailed) => true,
            (CopierStage::Writing { .. }, CopierEvent::WriteDone) => true,
            (CopierStage::Writing { .. }, CopierEvent::WriteFailed) => true,
            (CopierStage::Marking, CopierEvent::TrafficMarked) => true,
            _ => false,
        }
    }

    /// The stage after `event`. A copier that sees the shutdown flag set, a
    /// closed peer, a chunk that cannot have come from the buffer, or any
    /// failure stops; a chunk read is written, a chunk written is signalled,
    /// and after the signal the copier looks at the shutdown flag again. An
    /// event that answers no pending action changes nothing.
    pub open spec fn next(self, event: CopierEvent) -> CopierStage {
        match (self, event) {
            (CopierStage::Polling, CopierEvent::ShutdownChecked(requested)) => if requested {
                CopierStage::Stopped
            } else {
                CopierStage::Reading
            },
            (CopierStage::Reading, CopierEvent::ReadDone(len)) => if 0 < len <= BUFFER_SIZE {
                CopierStage::Writing { len }
            } else {
                CopierStage::Stopped
            },
            (CopierStage::Reading, CopierEvent::ReadFailed) => CopierStage::Stopped,
            (CopierStage::Writing { .. }, CopierEvent::WriteDone) => CopierStage::Marking,
            (CopierStage::Writing { .. }, CopierEvent::WriteFailed) => CopierStage::Stopped,
            (CopierStage::Marking, CopierEvent::TrafficMarked) => CopierStage::Polling,
            _ => self,
        }
    }

    /// The stage after all of `events`, in order.
    pub open spec fn run(self, events: Seq<CopierEvent>) -> CopierStage
        decreases events.len(),
    {
        if events.len() == 0 {
            self
        } else {
            self.run(events.drop_last()).next(events.last())
        }
    }
}

/// The copier of one direction of a session.
#[derive(Debug)]
pub struct ByteCopier {
    stage: CopierStage,
}

impl View for ByteCopier {
    type V = CopierStage;

    closed spec fn view(&self) -> CopierStage {
        self.stage
    }
}

impl ByteCopier {
    #[verifier::type_invariant]
    spec fn chunk_fits(self) -> bool {
        self.stage.valid()
    }

    /// A copier at the start of its loop: it first looks at the shutdown flag.
    pub fn new() -> (copier: ByteCopier)
        ensures
            copier@ == CopierStage::Polling,
    {
        ByteCopier { stage: CopierStage::Polling }
    }

    /// The stage the copier is in.
    pub fn stage(&self) -> (stage: CopierStage)
        ensures
            stage == self@,
            stage.valid(),
    {
        proof {
            use_type_invariant(self);
        }
        self.stage
    }

    /// The action that the driver owes right now.
    pub fn pending(&self) -> (action: CopierAction)
        ensures
            action == self@.pending(),
            self@.valid(),
    {
        proof {
            use_type_invariant(self);
        }
        match self.stage {
            CopierStage::Polling => CopierAction::CheckShutdown,
            CopierStage::Reading => CopierAction::Read,
            CopierStage::Writing { len } => CopierAction::Write { len },
            CopierStage::Marking => CopierAction::MarkTraffic,
            CopierStage::Stopped => CopierAction::Close,
        }
    }

    /// Whether the copier has stopped for good.
    pub fn is_stopped(&self) -> (stopped: bool)
        ensures
            stopped == (self@ == CopierStage::Stopped),
    {
        match self.stage {
            CopierStage::Stopped => true,
            _ => false,
        }
    }

    /// Takes the report of the driver and returns what to do next.
    pub fn step(&mut self, event: CopierEvent) -> (action: CopierAction)
        ensures
            final(self)@ == old(self)@.next(event),
            action == final(self)@.pending(),
            final(self)@.valid(),
    {
        proof {
            use_type_invariant(&*self);
        }
        let stage = match (self.stage, event) {
            (CopierStage::Polling, CopierEvent::ShutdownChecked(requested)) => {
                if requested {
                    CopierStage::Stopped
                } else {
                    CopierStage::Reading
                }
            },
            (CopierStage::Reading, CopierEvent::ReadDone(len)) => {
                if 0 < len && len <= BUFFER_SIZE {
                    CopierStage::Writing { len }
                } else {
                    CopierStage::Stopped
                }
            },
            (CopierStage::Reading, CopierEvent::ReadFailed) => CopierStage::Stopped,
            (CopierStage::Writing { .. }, CopierEvent::WriteDone) => CopierStage::Marking,
            (CopierStage::Writing { .. }, CopierEvent::WriteFailed) => CopierStage::Stopped,
            (CopierStage::Marking, CopierEvent::TrafficMarked) => CopierStage::Polling,
            (stage, _) => stage,
        };
        self.stage = stage;
        self.pending()
    }
}

/// An event that reports on no pending action changes nothing.
pub proof fn lemma_event_out_of_turn_changes_nothing(stage: CopierStage, event: CopierEvent)
    requires
        !stage.awaits(event),
    ensures
        stage.next(event) == stage,
{
}

/// Whatever is reported to a copier, the chunk it asks to have written is
/// never empty and never larger than the buffer.
pub proof fn lemma_chunk_always_fits(stage: CopierStage, events: Seq<CopierEvent>)
    requires
        stage.valid(),
    ensures
        stage.run(events).valid(),
        forall|len: usize|
            stage.run(events).pending() == (CopierAction::Write { len }) ==> 0 < len
                <= BUFFER_SIZE,
    decreases events.len(),
{
    if events.len() > 0 {
        lemma_chunk_always_fits(stage, events.drop_last());
    }
}

/// A copier that has stopped stays stopped, whatever is reported to it.
pub proof fn lemma_stopped_copier_stays_stopped(events: Seq<CopierEvent>)
    ensures
        CopierStage::Stopped.run(events) == CopierStage::Stopped,
    decreases events.len(),
{
    if events.len() > 0 {
        lemma_stopped_copier_stays_stopped(events.drop_last());
    }
}

} // verus!
