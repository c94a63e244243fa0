//! What a copier and its driver do to the bytes of one direction.
//!
//! The model follows every byte from the read that delivered it to the write
//! that sent it on. Its laws say that a copier never invents, drops, repeats
//! or reorders a byte, and that it signals traffic once for every chunk it has
//! forwarded.

use crate::copier::{CopierAction, CopierEvent, CopierStage, BUFFER_SIZE};
use vstd::prelude::*;

verus! {

/// What came of the action that a copier had pending.
pub enum Report {
    /// The shutdown flag held this value.
    Flag(bool),
    /// The source delivered these bytes into the front of the buffer; an
    /// empty delivery means that the peer closed.
    Delivered(Seq<u8>),
    /// The read failed and delivered nothing.
    ReadFailed,
    /// The whole chunk went out.
    Written,
    /// The write failed after this many bytes of the chunk had gone out.
    WriteFailed { written: nat },
    /// The traffic flag was set.
    Marked,
}

impl Report {
    /// The event by which the driver tells the copier of this report.
    pub open spec fn event(self) -> CopierEvent {
        match self {
            Report::Flag(requested) => CopierEvent::ShutdownChecked(requested),
            Report::Delivered(chunk) => CopierEvent::ReadDone(chunk.len() as usize),
            Report::ReadFailed => CopierEvent::ReadFailed,
            Report::Written => CopierEvent::WriteDone,
            Report::WriteFailed { .. } => CopierEvent::WriteFailed,
            Report::Marked => CopierEvent::TrafficMarked,
        }
    }

    /// A read cannot deliver more than the buffer holds.
    pub open spec fn possible(self) -> bool {
        match self {
            Report::Delivered(chunk) => chunk.len() <= BUFFER_SIZE,
            _ => true,
        }
    }
}

/// One direction of a session: the copier, the buffer of its driver and the
/// bytes that have come in and gone out so far.
pub struct Relay {
    pub stage: CopierStage,
    pub buffer: Seq<u8>,
    /// Every byte that the source has delivered, in order.
    pub received: Seq<u8>,
    /// Every byte that has been written to the destination, in order.
    pub sent: Seq<u8>,
    /// How many chunks have been written completely.
    pub forwarded: nat,
    /// How often the traffic flag has been set.
    pub signals: nat,
}

impl Relay {
    /// A relay that has not moved a byte yet, over a buffer of any content.
    pub open spec fn start(buffer: Seq<u8>) -> Relay {
        Relay {
            stage: CopierStage::Polling,
            buffer,
            received: Seq::empty(),
            sent: Seq::empty(),
            forwarded: 0,
            signals: 0,
        }
    }

    /// The chunk that the pending write is to send: the front of the buffer.
    pub open spec fn chunk(self) -> Seq<u8> {
        match self.stage.pending() {
            CopierAction::Write { len } => self.buffer.take(len as int),
            _ => Seq::empty(),
        }
    }

    /// The relay after the driver has performed the pending action with the
    /// outcome `report`. A report on an action that is not pending describes
    /// nothing that happened and changes nothing.
    pub open spec fn step(self, report: Report) -> Relay {
        if !self.stage.awaits(report.event()) {
            self
        } else {
            let stage = self.stage.next(report.event());
            match report {
                Report::Delivered(chunk) => Relay {
                    stage,
                    buffer: chunk + self.buffer.skip(chunk.len() as int),
                    received: self.received + chunk,
                    ..self
                },
                Report::Written => Relay {
                    stage,
                    sent: self.sent + self.chunk(),
                    forwarded: self.forwarded + 1,
                    ..self
                },
                Report::WriteFailed { written } => Relay {
                    stage,
                    sent: self.sent + self.chunk().take(
                        if written <= self.chunk().len() {
                            written as int
                        } else {
                            self.chunk().len() as int
                        },
                    ),
                    ..self
                },
                Report::Marked => Relay { stage, signals: self.signals + 1, ..self },
                _ => Relay { stage, ..self },
            }
        }
    }

    /// The relay after all of `reports`, in order.
    pub open spec fn run(self, reports: Seq<Report>) -> Relay
        decreases reports.len(),
    {
        if reports.len() == 0 {
            self
        } else {
            self.run(reports.drop_last()).step(reports.last())
        }
    }

    /// What holds of a relay at every moment: the bytes sent are the bytes
    /// received, but for the chunk that is in the buffer waiting to be
    /// written, or that was cut short by a failure; and traffic has been
    /// signalled for every chunk forwarded, but for the one just written.
    pub open spec fn in_order(self) -> bool {
        &&& self.stage.valid()
        &&& self.sent.is_prefix_of(self.received)
        &&& match self.stage {
            CopierStage::Polling | CopierStage::Reading => {
                &&& self.sent == self.received
                &&& self.signals == self.forwarded
            },
            CopierStage::Writing { len } => {
                &&& len <= self.buffer.len()
                &&& self.received == self.sent + self.buffer.take(len as int)
                &&& self.signals == self.forwarded
            },
            CopierStage::Marking => {
                &&& self.sent == self.received
                &&& self.signals + 1 == self.forwarded
            },
            CopierStage::Stopped => self.signals == self.forwarded,
        }
    }
}

/// The chunks of `chunks` one after the other.
pub open spec fn joined(chunks: Seq<Seq<u8>>) -> Seq<u8>
    decreases chunks.len(),
{
    if chunks.len() == 0 {
        Seq::empty()
    } else {
        joined(chunks.drop_last()) + chunks.last()
    }
}

/// The reports of an undisturbed session in which the source delivers
/// `chunks`: for each chunk the flag is found clear, the chunk is read,
/// written and signalled.
pub open spec fn undisturbed(chunks: Seq<Seq<u8>>) -> Seq<Report>
    decreases chunks.len(),
{
    if chunks.len() == 0 {
        Seq::empty()
    } else {
        undisturbed(chunks.drop_last()).push(Report::Flag(false)).push(
            Report::Delivered(chunks.last()),
        ).push(Report::Written).push(Report::Marked)
    }
}

/// One step keeps the bytes in order.
pub proof fn lemma_step_keeps_order(relay: Relay, report: Report)
    requires
        relay.in_order(),
        report.possible(),
    ensures
        relay.step(report).in_order(),
        relay.step(report).stage == relay.stage.next(report.event()),
        relay.sent.is_prefix_of(relay.step(report).sent),
        relay.received.is_prefix_of(relay.step(report).received),
{
    let after = relay.step(report);
    if relay.stage.awaits(report.event()) {
        match report {
            Report::Delivered(chunk) => {
                assert(after.buffer.take(chunk.len() as int) =~= chunk);
                assert(relay.received =~= after.received.subrange(0, relay.received.len() as int));
                assert(after.sent =~= after.received.subrange(0, after.sent.len() as int));
            },
            Report::Written => {
                assert(relay.sent =~= after.sent.subrange(0, relay.sent.len() as int));
                assert(after.sent =~= after.received.subrange(0, after.sent.len() as int));
            },
            Report::WriteFailed { written } => {
                assert(relay.sent =~= after.sent.subrange(0, relay.sent.len() as int));
                assert(after.sent =~= after.received.subrange(0, after.sent.len() as int));
            },
            _ => {
                assert(relay.sent =~= after.sent.subrange(0, relay.sent.len() as int));
                assert(relay.received =~= after.received.subrange(0, relay.received.len() as int));
            },
        }
    } else {
        assert(relay.sent =~= after.sent.subrange(0, relay.sent.len() as int));
        assert(relay.received =~= after.received.subrange(0, relay.received.len() as int));
    }
}

/// Whatever happens to a session (traffic, a closed peer, failed reads and
/// writes, a shutdown from elsewhere), the bytes that a copier has sent are
/// the first of the bytes it has received, in their order. While the copier
/// is not holding a chunk and has not stopped, they are all of them.
pub proof fn lemma_bytes_arrive_in_order(buffer: Seq<u8>, reports: Seq<Report>)
    requires
        forall|i: int| 0 <= i < reports.len() ==> (#[trigger] reports[i]).possible(),
    ensures
        Relay::start(buffer).run(reports).in_order(),
        Relay::start(buffer).run(reports).sent.is_prefix_of(
            Relay::start(buffer).run(reports).received,
        ),
    decreases reports.len(),
{
    if reports.len() == 0 {
        assert(Relay::start(buffer).sent =~= Relay::start(buffer).received.subrange(0, 0));
    } else {
        lemma_bytes_arrive_in_order(buffer, reports.drop_last());
        lemma_step_keeps_order(Relay::start(buffer).run(reports.drop_last()), reports.last());
    }
}

/// Running one report more is one step more.
pub proof fn lemma_run_one_more(relay: Relay, reports: Seq<Report>, report: Report)
    ensures
        relay.run(reports.push(report)) == relay.run(reports).step(report),
{
    assert(reports.push(report).drop_last() =~= reports);
}

/// While both endpoints stay open and nothing fails, everything that the
/// source delivers reaches the destination: after the chunks `chunks` the
/// bytes sent are those chunks one after the other, traffic has been signalled
/// once per chunk, and the copier is ready for the next one.
pub proof fn lemma_open_session_forwards_everything(buffer: Seq<u8>, chunks: Seq<Seq<u8>>)
    requires
        forall|i: int| 0 <= i < chunks.len() ==> 0 < (#[trigger] chunks[i]).len() <= BUFFER_SIZE,
    ensures
        Relay::start(buffer).run(undisturbed(chunks)).stage == CopierStage::Polling,
        Relay::start(buffer).run(undisturbed(chunks)).received == joined(chunks),
        Relay::start(buffer).run(undisturbed(chunks)).sent == joined(chunks),
        Relay::start(buffer).run(undisturbed(chunks)).forwarded == chunks.len(),
        Relay::start(buffer).run(undisturbed(chunks)).signals == chunks.len(),
    decreases chunks.len(),
{
    if chunks.len() > 0 {
        let earlier = chunks.drop_last();
        let chunk = chunks.last();
        lemma_open_session_forwards_everything(buffer, earlier);
        let start = Relay::start(buffer);
        let r0 = start.run(undisturbed(earlier));
        let s1 = undisturbed(earlier).push(Report::Flag(false));
        let s2 = s1.push(Report::Delivered(chunk));
        let s3 = s2.push(Report::Written);
        lemma_run_one_more(start, undisturbed(earlier), Report::Flag(false));
        lemma_run_one_more(start, s1, Report::Delivered(chunk));
        lemma_run_one_more(start, s2, Report::Written);
        lemma_run_one_more(start, s3, Report::Marked);
        let r1 = r0.step(Report::Flag(false));
        let r2 = r1.step(Report::Delivered(chunk));
        let r3 = r2.step(Report::Written);
        assert(r1.stage == CopierStage::Reading);
        assert(r2.stage == CopierStage::Writing { len: chunk.len() as usize });
        assert(r2.buffer.take(chunk.len() as int) =~= chunk);
        assert(r2.chunk() == chunk);
        assert(r3.stage == CopierStage::Marking);
    }
}

/// A copier that has stopped stays stopped: whatever is reported to it
/// afterwards, it asks for nothing but the close, and no byte moves.
pub proof fn lemma_stopped_relay_moves_nothing(relay: Relay, reports: Seq<Report>)
    requires
        relay.stage == CopierStage::Stopped,
    ensures
        relay.run(reports) == relay,
        relay.run(reports).stage.pending() == CopierAction::Close,
    decreases reports.len(),
{
    if reports.len() > 0 {
        lemma_stopped_relay_moves_nothing(relay, reports.drop_last());
    }
}

/// A closed peer stops the copier at once: the zero-length read is answered
/// with the close, and so are a failed read, a failed write and a shutdown
/// flag that is found set.
pub proof fn lemma_end_of_stream_stops_copier(len: usize, written: nat)
    ensures
        CopierStage::Reading.next(Report::Delivered(Seq::empty()).event()) == CopierStage::Stopped,
        CopierStage::Reading.next(Report::ReadFailed.event()) == CopierStage::Stopped,
        (CopierStage::Writing { len }).next((Report::WriteFailed { written }).event())
            == CopierStage::Stopped,
        CopierStage::Polling.next(Report::Flag(true).event()) == CopierStage::Stopped,
        CopierStage::Stopped.pending() == CopierAction::Close,
{
}

/// The copier inside a relay moves as the copier alone does when it is told
/// the events of the same reports.
pub proof fn lemma_relay_follows_copier(relay: Relay, reports: Seq<Report>)
    ensures
        relay.run(reports).stage == relay.stage.run(reports.map_values(|r: Report| r.event())),
    decreases reports.len(),
{
    let events = reports.map_values(|r: Report| r.event());
    if reports.len() > 0 {
        lemma_relay_follows_copier(relay, reports.drop_last());
        assert(events.drop_last() =~= reports.drop_last().map_values(|r: Report| r.event()));
        assert(events.last() == reports.last().event());
    }
}

} // verus!
