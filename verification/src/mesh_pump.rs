//! The two pumps of a splice, step by step: what each read and each write makes
//! of a pump, and how the pair is brought to one end.

use vstd::prelude::*;
use crate::mesh_splice::{
    merged, splice_end, DownlinkEnd, SpliceFault, SpliceOutcome,
};
use crate::mesh_wire::{CloseIntent, CloseReason, CLIENT_DONE_CODE};

verus! {

/// Which kind of parked session a splice carries.
#[derive(Clone, Copy, Debug, PartialEq, Eq, Structural)]
pub enum SpliceKind {
    Tcp,
    SsUdp,
    VlessUdp,
    VlessMux,
}

// ── The uplink chunk ────────────────────────────────────────────────────────

/// A chunk read off the mesh on its way into the upstream. The accounting moves
/// with every partial write, so that it is exact wherever the write is cut short.
#[derive(Clone, Copy, Debug, PartialEq, Eq, Structural)]
pub struct UplinkChunk {
    /// Length of the chunk.
    pub total: usize,
    /// How much of it the upstream has taken.
    pub written: usize,
    /// The session's running count of bytes the upstream has taken.
    pub acked: u64,
}

/// What one budgeted write to the upstream came to.
#[derive(Clone, Copy, Debug, PartialEq, Eq, Structural)]
pub enum ChunkWrite {
    Accepted(usize),
    Failed,
    Stalled,
}

/// Why an uplink write ends the splice.
#[derive(Clone, Copy, Debug, PartialEq, Eq, Structural)]
pub enum UplinkFault {
    /// The upstream took no byte.
    NoProgress,
    /// The write failed.
    Failed,
    /// The write outlasted the health budget.
    Stalled,
}

/// What the caller does next with the chunk.
#[derive(Clone, Copy, Debug, PartialEq, Eq, Structural)]
pub enum ChunkStep {
    /// Write the chunk from this offset on.
    Write { from: usize },
    /// The chunk is in the upstream.
    Done,
    Fault(UplinkFault),
}

impl UplinkFault {
    pub open spec fn as_splice_fault(self, error: anyhow::Error) -> SpliceFault {
        SpliceFault {
            reset: if self == UplinkFault::Stalled {
                CloseReason::Budget
            } else {
                CloseReason::Abort
            },
            upstream_healthy: false,
            error,
        }
    }

    /// The splice fault for this write, with the error that describes it.
    pub fn into_splice_fault(self, error: anyhow::Error) -> (fault: SpliceFault)
        ensures
            fault == self.as_splice_fault(error),
    {
        match self {
            UplinkFault::NoProgress => SpliceFault::upstream(error),
            UplinkFault::Failed => SpliceFault::upstream(error),
            UplinkFault::Stalled => SpliceFault::stalled_upstream(error),
        }
    }
}

impl UplinkChunk {
    pub open spec fn wf(self) -> bool {
        self.written <= self.total
    }

    pub open spec fn next_step(self) -> ChunkStep {
        if self.written == self.total {
            ChunkStep::Done
        } else {
            ChunkStep::Write { from: self.written }
        }
    }

    /// The chunk after one write: `n` bytes further where the upstream took them,
    /// untouched where the write failed.
    pub open spec fn after(self, write: ChunkWrite) -> UplinkChunk {
        match write {
            ChunkWrite::Accepted(n) => UplinkChunk {
                total: self.total,
                written: (self.written + n) as usize,
                acked: ((self.acked + n) % 0x1_0000_0000_0000_0000) as u64,
            },
            _ => self,
        }
    }

    /// Starts a chunk of `total` bytes on a session whose count stands at `acked`.
    pub fn begin(total: usize, acked: u64) -> (started: (UplinkChunk, ChunkStep))
        ensures
            started.0 == (UplinkChunk { total, written: 0, acked }),
            started.1 == started.0.next_step(),
    {
        let chunk = UplinkChunk { total, written: 0, acked };
        let step = if total == 0 { ChunkStep::Done } else { ChunkStep::Write { from: 0 } };
        (chunk, step)
    }

    /// Takes in the result of the write that was asked for.
    pub fn on_write(&mut self, write: ChunkWrite) -> (step: ChunkStep)
        requires
            old(self).wf(),
            old(self).written < old(self).total,
            write matches ChunkWrite::Accepted(n) ==> n <= old(self).total - old(self).written,
        ensures
            *final(self) == old(self).after(write),
            final(self).wf(),
            step == match write {
                ChunkWrite::Accepted(n) => if n == 0 {
                    ChunkStep::Fault(UplinkFault::NoProgress)
                } else {
                    final(self).next_step()
                },
                ChunkWrite::Failed => ChunkStep::Fault(UplinkFault::Failed),
                ChunkWrite::Stalled => ChunkStep::Fault(UplinkFault::Stalled),
            },
    {
        match write {
            ChunkWrite::Accepted(n) => {
                if n == 0 {
                    return ChunkStep::Fault(UplinkFault::NoProgress);
                }
                self.written = self.written + n;
                self.acked = self.acked.wrapping_add(n as u64);
                if self.written == self.total {
                    ChunkStep::Done
                } else {
                    ChunkStep::Write { from: self.written }
                }
            },
            ChunkWrite::Failed => ChunkStep::Fault(UplinkFault::Failed),
            ChunkWrite::Stalled => ChunkStep::Fault(UplinkFault::Stalled),
        }
    }
}

/// The chunk after a run of writes.
pub open spec fn chunk_run(chunk: UplinkChunk, writes: Seq<ChunkWrite>) -> UplinkChunk
    decreases writes.len(),
{
    if writes.len() == 0 {
        chunk
    } else {
        chunk_run(chunk, writes.drop_last()).after(writes.last())
    }
}

/// How many bytes a run of writes moved.
pub open spec fn accepted_bytes(writes: Seq<ChunkWrite>) -> nat
    decreases writes.len(),
{
    if writes.len() == 0 {
        0
    } else {
        accepted_bytes(writes.drop_last()) + match writes.last() {
            ChunkWrite::Accepted(n) => n as nat,
            _ => 0,
        }
    }
}

/// However a chunk's writes go, and wherever they are cut short, the session's
/// count of acknowledged bytes has moved by exactly the bytes the upstream took.
pub proof fn law_acked_counts_what_the_upstream_took(
    total: usize,
    acked: u64,
    writes: Seq<ChunkWrite>,
)
    requires
        accepted_bytes(writes) <= total,
    ensures
        chunk_run(UplinkChunk { total, written: 0, acked }, writes).written == accepted_bytes(writes),
        chunk_run(UplinkChunk { total, written: 0, acked }, writes).acked == (acked
            + accepted_bytes(writes)) % 0x1_0000_0000_0000_0000,
        chunk_run(UplinkChunk { total, written: 0, acked }, writes).total == total,
    decreases writes.len(),
{
    if writes.len() > 0 {
        law_acked_counts_what_the_upstream_took(total, acked, writes.drop_last());
    }
}

/// What a session's count stands at after a run of chunks, each with its writes.
pub open spec fn acked_after(acked: u64, chunks: Seq<(usize, Seq<ChunkWrite>)>) -> u64
    decreases chunks.len(),
{
    if chunks.len() == 0 {
        acked
    } else {
        let (total, writes) = chunks.last();
        chunk_run(
            UplinkChunk { total, written: 0, acked: acked_after(acked, chunks.drop_last()) },
            writes,
        ).acked
    }
}

/// How many bytes a run of chunks moved.
pub open spec fn accepted_in_all(chunks: Seq<(usize, Seq<ChunkWrite>)>) -> nat
    decreases chunks.len(),
{
    if chunks.len() == 0 {
        0
    } else {
        accepted_in_all(chunks.drop_last()) + accepted_bytes(chunks.last().1)
    }
}

/// Over a whole session, chunk after chunk, the count of acknowledged bytes moves by
/// exactly the bytes the upstream took, wherever the last chunk, or any other, was cut
/// short.
pub proof fn law_a_session_counts_what_the_upstream_took(
    acked: u64,
    chunks: Seq<(usize, Seq<ChunkWrite>)>,
)
    requires
        forall|i: int| 0 <= i < chunks.len() ==> accepted_bytes(#[trigger] chunks[i].1) <= chunks[i].0,
    ensures
        acked_after(acked, chunks) == (acked + accepted_in_all(chunks)) % 0x1_0000_0000_0000_0000,
    decreases chunks.len(),
{
    if chunks.len() > 0 {
        let before = chunks.drop_last();
        assert forall|i: int| 0 <= i < before.len() implies accepted_bytes(#[trigger] before[i].1)
            <= before[i].0 by {
            assert(before[i] == chunks[i]);
        }
        law_a_session_counts_what_the_upstream_took(acked, before);
        let (total, writes) = chunks.last();
        assert(chunks.last() == chunks[chunks.len() - 1]);
        law_acked_counts_what_the_upstream_took(total, acked_after(acked, before), writes);
    }
}

// ── The uplink pump ─────────────────────────────────────────────────────────

/// Where the pump from the mesh to the upstream stands.
#[derive(Debug)]
pub enum UplinkPhase {
    /// Waiting for the mesh.
    Reading,
    /// Handing `len` bytes, or one datagram or chunk of that length, to the upstream.
    Delivering { len: usize },
    /// Waiting for the datagrams in flight, to end so afterwards.
    Flushing(Result<(), SpliceFault>),
    Ended(Result<(), SpliceFault>),
}

/// What reached the uplink pump.
#[derive(Debug)]
pub enum UplinkEvent {
    /// The mesh handed over `len` bytes, or a datagram of that length.
    Data(usize),
    /// The edge finished its half of the stream.
    End,
    /// Reading the mesh failed.
    ReadFailed(anyhow::Error),
    /// The upstream has it. (A datagram that was sent in part is gone as one that was
    /// sent whole.)
    Delivered,
    /// The upstream did not take a byte stream's chunk.
    ChunkFailed(UplinkFault, anyhow::Error),
    /// The upstream did not take a datagram or a mux's chunk.
    DeliverFailed(anyhow::Error),
    /// No datagram is in flight any more.
    Flushed,
}

/// What the caller does next for the uplink pump.
#[derive(Clone, Copy, Debug, PartialEq, Eq, Structural)]
pub enum UplinkAction {
    Read,
    /// Write the chunk, counting what the upstream takes as it takes it.
    WriteChunk { len: usize },
    /// Count the bytes, and a datagram where `datagram` says so; then hand them over.
    CountAndDeliver { len: usize, datagram: bool },
    /// Wait for the datagrams in flight.
    Flush,
    /// The pump has ended.
    Return,
}

/// Which events can reach a pump of this kind in this phase.
pub open spec fn uplink_accepts(kind: SpliceKind, phase: UplinkPhase, event: UplinkEvent) -> bool {
    match phase {
        UplinkPhase::Reading => event is Data || event is End || event is ReadFailed,
        UplinkPhase::Delivering { .. } => match event {
            UplinkEvent::Delivered => true,
            UplinkEvent::ChunkFailed(_, _) => kind == SpliceKind::Tcp,
            UplinkEvent::DeliverFailed(_) => kind == SpliceKind::VlessUdp || kind
                == SpliceKind::VlessMux,
            _ => false,
        },
        UplinkPhase::Flushing(_) => event is Flushed,
        UplinkPhase::Ended(_) => false,
    }
}

/// A pump that is through. One that relays datagrams on the side waits for those first.
pub open spec fn uplink_through(kind: SpliceKind, result: Result<(), SpliceFault>) -> UplinkPhase {
    if kind == SpliceKind::SsUdp {
        UplinkPhase::Flushing(result)
    } else {
        UplinkPhase::Ended(result)
    }
}

pub open spec fn uplink_next(kind: SpliceKind, phase: UplinkPhase, event: UplinkEvent) -> UplinkPhase {
    match event {
        UplinkEvent::Data(len) => UplinkPhase::Delivering { len },
        UplinkEvent::End => uplink_through(kind, Ok(())),
        UplinkEvent::ReadFailed(error) => uplink_through(
            kind,
            Err(SpliceFault { reset: CloseReason::Abort, upstream_healthy: true, error }),
        ),
        UplinkEvent::Delivered => UplinkPhase::Reading,
        UplinkEvent::ChunkFailed(fault, error) => UplinkPhase::Ended(
            Err(fault.as_splice_fault(error)),
        ),
        UplinkEvent::DeliverFailed(error) => UplinkPhase::Ended(
            Err(SpliceFault { reset: CloseReason::Abort, upstream_healthy: false, error }),
        ),
        UplinkEvent::Flushed => match phase {
            UplinkPhase::Flushing(result) => UplinkPhase::Ended(result),
            _ => phase,
        },
    }
}

pub open spec fn uplink_action(kind: SpliceKind, phase: UplinkPhase, event: UplinkEvent) -> UplinkAction {
    match uplink_next(kind, phase, event) {
        UplinkPhase::Reading => UplinkAction::Read,
        UplinkPhase::Delivering { len } => if kind == SpliceKind::Tcp {
            UplinkAction::WriteChunk { len }
        } else {
            UplinkAction::CountAndDeliver {
                len,
                datagram: kind == SpliceKind::SsUdp || kind == SpliceKind::VlessUdp,
            }
        },
        UplinkPhase::Flushing(_) => UplinkAction::Flush,
        UplinkPhase::Ended(_) => UplinkAction::Return,
    }
}

/// One step of the uplink pump.
pub fn uplink_step(kind: SpliceKind, phase: UplinkPhase, event: UplinkEvent) -> (stepped: (
    UplinkPhase,
    UplinkAction,
))
    requires
        uplink_accepts(kind, phase, event),
    ensures
        stepped.0 == uplink_next(kind, phase, event),
        stepped.1 == uplink_action(kind, phase, event),
{
    match event {
        UplinkEvent::Data(len) => {
            let action = match kind {
                SpliceKind::Tcp => UplinkAction::WriteChunk { len },
                SpliceKind::VlessMux => UplinkAction::CountAndDeliver { len, datagram: false },
                _ => UplinkAction::CountAndDeliver { len, datagram: true },
            };
            (UplinkPhase::Delivering { len }, action)
        },
        UplinkEvent::End => match kind {
            SpliceKind::SsUdp => (UplinkPhase::Flushing(Ok(())), UplinkAction::Flush),
            _ => (UplinkPhase::Ended(Ok(())), UplinkAction::Return),
        },
        UplinkEvent::ReadFailed(error) => {
            let fault = SpliceFault::mesh(error);
            match kind {
                SpliceKind::SsUdp => (UplinkPhase::Flushing(Err(fault)), UplinkAction::Flush),
                _ => (UplinkPhase::Ended(Err(fault)), UplinkAction::Return),
            }
        },
        UplinkEvent::Delivered => (UplinkPhase::Reading, UplinkAction::Read),
        UplinkEvent::ChunkFailed(fault, error) => (
            UplinkPhase::Ended(Err(fault.into_splice_fault(error))),
            UplinkAction::Return,
        ),
        UplinkEvent::DeliverFailed(error) => (
            UplinkPhase::Ended(Err(SpliceFault::upstream(error))),
            UplinkAction::Return,
        ),
        UplinkEvent::Flushed => match phase {
            UplinkPhase::Flushing(result) => (UplinkPhase::Ended(result), UplinkAction::Return),
            other => (other, UplinkAction::Return),
        },
    }
}

/// A mesh stream that breaks never costs the session its upstream, and an upstream that
/// breaks always does.
pub proof fn law_a_fault_is_laid_at_the_right_door(
    kind: SpliceKind,
    phase: UplinkPhase,
    event: UplinkEvent,
)
    requires
        uplink_accepts(kind, phase, event),
    ensures
        event is ReadFailed ==> (uplink_next(kind, phase, event) matches UplinkPhase::Ended(result)
            ==> result is Err && result->Err_0.upstream_healthy),
        event is ChunkFailed || event is DeliverFailed ==> (uplink_next(
            kind,
            phase,
            event,
        ) matches UplinkPhase::Ended(result) && result is Err && !result->Err_0.upstream_healthy),
{
}

// ── The downlink pump ───────────────────────────────────────────────────────

/// Where the pump from the upstream to the mesh stands.
#[derive(Debug)]
pub enum DownlinkPhase {
    /// Waiting for the upstream, or for the word to stop.
    Reading,
    /// Holding `len` bytes that the mesh has not taken yet.
    Writing { len: usize },
    Ended(Result<DownlinkEnd, SpliceFault>),
}

/// What reached the downlink pump.
#[derive(Debug)]
pub enum DownlinkEvent {
    /// The other pump ended; stop at the next read.
    Stop,
    /// The upstream handed over `len` bytes, or one datagram or frame of that length.
    Data(usize),
    /// The socket had nothing after all.
    WouldBlock,
    /// The channel the upstream tasks feed is closed.
    Closed,
    /// Reading the upstream failed.
    ReadFailed(anyhow::Error),
    /// The mesh took what was written.
    Written,
    /// The edge stopped the stream with this code.
    Stopped(u64, anyhow::Error),
    /// Writing to the mesh failed otherwise.
    WriteFailed(anyhow::Error),
    /// The write outlasted the health budget.
    Stalled(anyhow::Error),
}

/// What the caller does next for the downlink pump.
#[derive(Clone, Copy, Debug, PartialEq, Eq, Structural)]
pub enum DownlinkAction {
    /// Wait for the next read, or for the word to stop.
    Read,
    /// Write the `len` bytes to the mesh; first remember them for a replay where
    /// `remember` says so and the session keeps a ring.
    Write { len: usize, remember: bool },
    /// The bytes are through: count them, and a datagram where the splice carries
    /// datagrams, then wait for the next read.
    CountAndRead { len: usize },
    /// Finish the mesh stream; the pump has ended.
    FinishStream,
    /// The pump has ended.
    Return,
}

/// Which events can reach a pump of this kind in this phase.
pub open spec fn downlink_accepts(kind: SpliceKind, phase: DownlinkPhase, event: DownlinkEvent) -> bool {
    match phase {
        DownlinkPhase::Reading => match event {
            DownlinkEvent::Stop => true,
            DownlinkEvent::Data(_) => true,
            DownlinkEvent::WouldBlock => kind == SpliceKind::VlessUdp,
            DownlinkEvent::Closed => kind == SpliceKind::SsUdp || kind == SpliceKind::VlessMux,
            DownlinkEvent::ReadFailed(_) => kind == SpliceKind::Tcp || kind == SpliceKind::VlessUdp,
            _ => false,
        },
        DownlinkPhase::Writing { .. } => match event {
            DownlinkEvent::Written => true,
            DownlinkEvent::Stopped(_, _) => true,
            DownlinkEvent::WriteFailed(_) => true,
            DownlinkEvent::Stalled(_) => true,
            _ => false,
        },
        DownlinkPhase::Ended(_) => false,
    }
}

pub open spec fn downlink_next(kind: SpliceKind, phase: DownlinkPhase, event: DownlinkEvent) -> DownlinkPhase {
    match event {
        DownlinkEvent::Stop => DownlinkPhase::Ended(Ok(DownlinkEnd::Stopped)),
        DownlinkEvent::Closed => DownlinkPhase::Ended(Ok(DownlinkEnd::Stopped)),
        DownlinkEvent::Data(len) => if len == 0 && kind == SpliceKind::Tcp {
            DownlinkPhase::Ended(Ok(DownlinkEnd::UpstreamEof))
        } else if len == 0 && kind == SpliceKind::VlessUdp {
            DownlinkPhase::Reading
        } else {
            DownlinkPhase::Writing { len }
        },
        DownlinkEvent::WouldBlock => DownlinkPhase::Reading,
        DownlinkEvent::ReadFailed(error) => DownlinkPhase::Ended(
            Err(
                SpliceFault {
                    reset: CloseReason::Abort,
                    upstream_healthy: false,
                    error,
                },
            ),
        ),
        DownlinkEvent::Written => DownlinkPhase::Reading,
        DownlinkEvent::Stopped(code, error) => if code == CLIENT_DONE_CODE {
            DownlinkPhase::Ended(Ok(DownlinkEnd::ClientDone))
        } else {
            DownlinkPhase::Ended(
                Err(
                    SpliceFault {
                        reset: CloseReason::Abort,
                        upstream_healthy: true,
                        error,
                    },
                ),
            )
        },
        DownlinkEvent::WriteFailed(error) => DownlinkPhase::Ended(
            Err(
                SpliceFault {
                    reset: CloseReason::Abort,
                    upstream_healthy: true,
                    error,
                },
            ),
        ),
        DownlinkEvent::Stalled(error) => DownlinkPhase::Ended(
            Err(
                SpliceFault {
                    reset: CloseReason::Budget,
                    upstream_healthy: true,
                    error,
                },
            ),
        ),
    }
}

pub open spec fn downlink_action(kind: SpliceKind, phase: DownlinkPhase, event: DownlinkEvent) -> DownlinkAction {
    match downlink_next(kind, phase, event) {
        DownlinkPhase::Reading => match phase {
            DownlinkPhase::Writing { len } => DownlinkAction::CountAndRead { len },
            _ => DownlinkAction::Read,
        },
        DownlinkPhase::Writing { len } => DownlinkAction::Write {
            len,
            remember: kind == SpliceKind::Tcp,
        },
        DownlinkPhase::Ended(Ok(DownlinkEnd::UpstreamEof)) => DownlinkAction::FinishStream,
        DownlinkPhase::Ended(_) => DownlinkAction::Return,
    }
}

/// One step of the downlink pump.
pub fn downlink_step(kind: SpliceKind, phase: DownlinkPhase, event: DownlinkEvent) -> (stepped: (
    DownlinkPhase,
    DownlinkAction,
))
    requires
        downlink_accepts(kind, phase, event),
    ensures
        stepped.0 == downlink_next(kind, phase, event),
        stepped.1 == downlink_action(kind, phase, event),
{
    match event {
        DownlinkEvent::Stop => (
            DownlinkPhase::Ended(Ok(DownlinkEnd::Stopped)),
            DownlinkAction::Return,
        ),
        DownlinkEvent::Closed => (
            DownlinkPhase::Ended(Ok(DownlinkEnd::Stopped)),
            DownlinkAction::Return,
        ),
        DownlinkEvent::Data(len) => match (kind, len) {
            (SpliceKind::Tcp, 0) => (
                DownlinkPhase::Ended(Ok(DownlinkEnd::UpstreamEof)),
                DownlinkAction::FinishStream,
            ),
            (SpliceKind::VlessUdp, 0) => (DownlinkPhase::Reading, DownlinkAction::Read),
            _ => (
                DownlinkPhase::Writing { len },
                DownlinkAction::Write { len, remember: kind == SpliceKind::Tcp },
            ),
        },
        DownlinkEvent::WouldBlock => (DownlinkPhase::Reading, DownlinkAction::Read),
        DownlinkEvent::ReadFailed(error) => (
            DownlinkPhase::Ended(Err(SpliceFault::upstream(error))),
            DownlinkAction::Return,
        ),
        DownlinkEvent::Written => match phase {
            DownlinkPhase::Writing { len } => (
                DownlinkPhase::Reading,
                DownlinkAction::CountAndRead { len },
            ),
            _ => (DownlinkPhase::Reading, DownlinkAction::Read),
        },
        DownlinkEvent::Stopped(code, error) => match CloseIntent::from_code(code) {
            CloseIntent::ClientDone => (
                DownlinkPhase::Ended(Ok(DownlinkEnd::ClientDone)),
                DownlinkAction::Return,
            ),
            CloseIntent::CarrierEnded => (
                DownlinkPhase::Ended(Err(SpliceFault::mesh(error))),
                DownlinkAction::Return,
            ),
        },
        DownlinkEvent::WriteFailed(error) => (
            DownlinkPhase::Ended(Err(SpliceFault::mesh(error))),
            DownlinkAction::Return,
        ),
        DownlinkEvent::Stalled(error) => (
            DownlinkPhase::Ended(Err(SpliceFault::stalled_mesh(error))),
            DownlinkAction::Return,
        ),
    }
}

/// The phase of a pump after a run of events.
pub open spec fn downlink_run(kind: SpliceKind, events: Seq<DownlinkEvent>) -> DownlinkPhase
    decreases events.len(),
{
    if events.len() == 0 {
        DownlinkPhase::Reading
    } else {
        downlink_next(kind, downlink_run(kind, events.drop_last()), events.last())
    }
}

/// Every event of the run can reach the pump where it does.
pub open spec fn downlink_run_ok(kind: SpliceKind, events: Seq<DownlinkEvent>) -> bool
    decreases events.len(),
{
    events.len() == 0 || (downlink_run_ok(kind, events.drop_last()) && downlink_accepts(
        kind,
        downlink_run(kind, events.drop_last()),
        events.last(),
    ))
}

/// How many bytes the run took out of the upstream.
pub open spec fn downlink_taken(events: Seq<DownlinkEvent>) -> nat
    decreases events.len(),
{
    if events.len() == 0 {
        0
    } else {
        downlink_taken(events.drop_last()) + match events.last() {
            DownlinkEvent::Data(len) => len as nat,
            _ => 0,
        }
    }
}

/// How many bytes the run put through the mesh and counted.
pub open spec fn downlink_counted(kind: SpliceKind, events: Seq<DownlinkEvent>) -> nat
    decreases events.len(),
{
    if events.len() == 0 {
        0
    } else {
        downlink_counted(kind, events.drop_last()) + match downlink_action(
            kind,
            downlink_run(kind, events.drop_last()),
            events.last(),
        ) {
            DownlinkAction::CountAndRead { len } => len as nat,
            _ => 0,
        }
    }
}

/// A pump that was told to stop, or that ran into the upstream's end, holds no
/// byte: everything it took out of the upstream went through the mesh. A carrier
/// switch therefore leaves no hole in the stream.
pub proof fn law_a_stopped_downlink_holds_no_byte(kind: SpliceKind, events: Seq<DownlinkEvent>)
    requires
        downlink_run_ok(kind, events),
    ensures
        downlink_run(kind, events) is Reading ==> downlink_taken(events) == downlink_counted(kind, events),
        downlink_run(kind, events) matches DownlinkPhase::Writing { len } ==> downlink_taken(events)
            == downlink_counted(kind, events) + len,
        downlink_run(kind, events) == DownlinkPhase::Ended(Ok(DownlinkEnd::Stopped))
            ==> downlink_taken(events) == downlink_counted(kind, events),
        downlink_run(kind, events) == DownlinkPhase::Ended(Ok(DownlinkEnd::UpstreamEof))
            ==> downlink_taken(events) == downlink_counted(kind, events),
    decreases events.len(),
{
    if events.len() > 0 {
        law_a_stopped_downlink_holds_no_byte(kind, events.drop_last());
    }
}

/// Only a byte stream ends on its own: no datagram or mux splice ever finishes
/// the mesh stream from its downlink.
pub proof fn law_only_a_byte_stream_sees_the_upstream_end(
    kind: SpliceKind,
    phase: DownlinkPhase,
    event: DownlinkEvent,
)
    requires
        downlink_accepts(kind, phase, event),
        downlink_action(kind, phase, event) == DownlinkAction::FinishStream,
    ensures
        kind == SpliceKind::Tcp,
        event == DownlinkEvent::Data(0),
{
}

// ── The pair ────────────────────────────────────────────────────────────────

/// The two pumps of one splice.
#[derive(Debug)]
pub enum SplicePair {
    /// Both run.
    Both,
    /// The downlink ended in good order; the uplink goes on.
    UplinkOnly { downlink: DownlinkEnd },
    /// The uplink ended; the downlink was told to stop and is waited for.
    Draining { uplink: Result<(), SpliceFault> },
    Ended(SpliceOutcome),
}

pub open spec fn pair_after_uplink(pair: SplicePair, result: Result<(), SpliceFault>) -> SplicePair {
    match pair {
        SplicePair::UplinkOnly { downlink } => SplicePair::Ended(merged(result, Ok(downlink))),
        _ => SplicePair::Draining { uplink: result },
    }
}

pub open spec fn pair_after_downlink(
    kind: SpliceKind,
    pair: SplicePair,
    result: Result<DownlinkEnd, SpliceFault>,
) -> SplicePair {
    match pair {
        SplicePair::Draining { uplink } => SplicePair::Ended(merged(uplink, result)),
        _ => match result {
            Ok(downlink) => SplicePair::UplinkOnly { downlink },
            Err(fault) => SplicePair::Ended(
                SpliceOutcome {
                    end: if kind == SpliceKind::VlessMux {
                        fault.as_end().without_park()
                    } else {
                        fault.as_end()
                    },
                    stream_finished: false,
                    observed_intent: CloseIntent::CarrierEnded,
                },
            ),
        },
    }
}

impl SplicePair {
    /// The pair after the uplink pump ended.
    pub fn on_uplink_end(self, result: Result<(), SpliceFault>) -> (next: SplicePair)
        requires
            self is Both || self is UplinkOnly,
        ensures
            next == pair_after_uplink(self, result),
    {
        match self {
            SplicePair::UplinkOnly { downlink } => SplicePair::Ended(
                splice_end(result, Ok(downlink)),
            ),
            _ => SplicePair::Draining { uplink: result },
        }
    }

    /// The pair after the downlink pump ended. A downlink fault ends the splice at
    /// once; a mux whose downlink failed lost frames, so it is never parked.
    pub fn on_downlink_end(self, kind: SpliceKind, result: Result<DownlinkEnd, SpliceFault>) -> (next:
        SplicePair)
        requires
            self is Both || self is Draining,
        ensures
            next == pair_after_downlink(kind, self, result),
    {
        match self {
            SplicePair::Draining { uplink } => SplicePair::Ended(splice_end(uplink, result)),
            _ => match result {
                Ok(downlink) => SplicePair::UplinkOnly { downlink },
                Err(fault) => {
                    let end = fault.into_end();
                    let end = match kind {
                        SpliceKind::VlessMux => end.deny_park(),
                        _ => end,
                    };
                    SplicePair::Ended(
                        SpliceOutcome {
                            end,
                            stream_finished: false,
                            observed_intent: CloseIntent::CarrierEnded,
                        },
                    )
                },
            },
        }
    }
}

// ── What the pumps are for ──────────────────────────────────────────────────

/// Everything the mesh brings is handed to the upstream, whole and at once, and nothing
/// else is: a byte stream's chunk to be written, anything else to be counted and handed
/// over, as a datagram where the splice carries datagrams. Only what was handed over
/// makes the pump read on.
pub proof fn law_the_upstream_is_handed_what_the_mesh_brings(
    kind: SpliceKind,
    phase: UplinkPhase,
    event: UplinkEvent,
    len: usize,
    datagram: bool,
)
    requires
        uplink_accepts(kind, phase, event),
    ensures
        uplink_next(kind, phase, event) == (UplinkPhase::Delivering { len }) <==> event
            == UplinkEvent::Data(len),
        uplink_action(kind, phase, event) == (UplinkAction::WriteChunk { len }) <==> event
            == UplinkEvent::Data(len) && kind == SpliceKind::Tcp,
        uplink_action(kind, phase, event) == (UplinkAction::CountAndDeliver { len, datagram }) <==> {
            &&& event == UplinkEvent::Data(len)
            &&& kind == SpliceKind::SsUdp && datagram || kind == SpliceKind::VlessUdp && datagram
                || kind == SpliceKind::VlessMux && !datagram
        },
        uplink_next(kind, phase, event) is Reading <==> event is Delivered,
        uplink_action(kind, phase, event) == UplinkAction::Read <==> event is Delivered,
{
}

/// An uplink ends without a fault exactly where the edge finished its half, and with a
/// fault exactly where the mesh or the upstream broke. The fault says whose it was and
/// how the stream is reset: for the health budget where a write stalled, as an abort
/// otherwise. One that relays datagrams on the side keeps its end back until they are
/// through, and then ends with it.
pub proof fn law_an_uplink_ends_only_for_a_cause(
    kind: SpliceKind,
    phase: UplinkPhase,
    event: UplinkEvent,
    fault: SpliceFault,
)
    requires
        uplink_accepts(kind, phase, event),
    ensures
        ({
            let next = uplink_next(kind, phase, event);
            let ends_well = UplinkPhase::Ended(Ok::<(), SpliceFault>(()));
            let ends_badly = UplinkPhase::Ended(Err::<(), SpliceFault>(fault));
            let mesh_broke = event == UplinkEvent::ReadFailed(fault.error) && fault.upstream_healthy
                && fault.reset == CloseReason::Abort;
            let upstream_broke = !fault.upstream_healthy && {
                ||| event == UplinkEvent::DeliverFailed(fault.error) && fault.reset
                    == CloseReason::Abort
                ||| event == UplinkEvent::ChunkFailed(UplinkFault::Failed, fault.error) && fault.reset
                    == CloseReason::Abort
                ||| event == UplinkEvent::ChunkFailed(UplinkFault::NoProgress, fault.error)
                    && fault.reset == CloseReason::Abort
                ||| event == UplinkEvent::ChunkFailed(UplinkFault::Stalled, fault.error) && fault.reset
                    == CloseReason::Budget
            };
            let on_the_side = kind == SpliceKind::SsUdp;
            &&& next == ends_well <==> {
                ||| event is End && !on_the_side
                ||| event is Flushed && phase == UplinkPhase::Flushing(Ok(()))
            }
            &&& next == ends_badly <==> {
                ||| mesh_broke && !on_the_side
                ||| upstream_broke
                ||| event is Flushed && phase == UplinkPhase::Flushing(Err(fault))
            }
            &&& next == UplinkPhase::Flushing(Ok(())) <==> event is End && on_the_side
            &&& next == UplinkPhase::Flushing(Err(fault)) <==> mesh_broke && on_the_side
            &&& uplink_action(kind, phase, event) == UplinkAction::Flush <==> next is Flushing
            &&& uplink_action(kind, phase, event) == UplinkAction::Return <==> next is Ended
        }),
{
}

/// No pump is deaf to what can happen to it: one that reads takes data, the end and a
/// failure of the mesh, one that delivers takes how that went, and one that has ended
/// takes nothing.
pub proof fn law_an_uplink_takes_what_can_happen(
    kind: SpliceKind,
    len: usize,
    fault: UplinkFault,
    error: anyhow::Error,
    result: Result<(), SpliceFault>,
    event: UplinkEvent,
)
    ensures
        uplink_accepts(kind, UplinkPhase::Reading, event) <==> event is Data || event is End || event
            is ReadFailed,
        uplink_accepts(kind, UplinkPhase::Delivering { len }, UplinkEvent::Delivered),
        uplink_accepts(
            SpliceKind::Tcp,
            UplinkPhase::Delivering { len },
            UplinkEvent::ChunkFailed(fault, error),
        ),
        kind == SpliceKind::VlessUdp || kind == SpliceKind::VlessMux ==> uplink_accepts(
            kind,
            UplinkPhase::Delivering { len },
            UplinkEvent::DeliverFailed(error),
        ),
        uplink_accepts(kind, UplinkPhase::Flushing(result), event) <==> event is Flushed,
        !uplink_accepts(kind, UplinkPhase::Ended(result), event),
{
}

/// Everything the upstream brings is written to the mesh, whole and at once, and is
/// counted once the mesh has it; a byte stream's bytes are remembered for a replay, and
/// nothing else is. What brings nothing is read past: a datagram socket that had nothing
/// after all, or an empty datagram of a single target.
pub proof fn law_the_mesh_is_written_what_the_upstream_brings(
    kind: SpliceKind,
    phase: DownlinkPhase,
    event: DownlinkEvent,
    len: usize,
    remember: bool,
)
    requires
        downlink_accepts(kind, phase, event),
    ensures
        ({
            let next = downlink_next(kind, phase, event);
            let action = downlink_action(kind, phase, event);
            let brings = event == DownlinkEvent::Data(len) && (len > 0 || kind == SpliceKind::SsUdp
                || kind == SpliceKind::VlessMux);
            &&& next == (DownlinkPhase::Writing { len }) <==> brings
            &&& action == (DownlinkAction::Write { len, remember }) <==> brings && remember == (kind
                == SpliceKind::Tcp)
            &&& action == (DownlinkAction::CountAndRead { len }) <==> event is Written && phase == (
            DownlinkPhase::Writing { len })
            &&& next is Reading <==> event is Written || event is WouldBlock || event
                == DownlinkEvent::Data(0) && kind == SpliceKind::VlessUdp
            &&& action == DownlinkAction::Read <==> event is WouldBlock || event
                == DownlinkEvent::Data(0) && kind == SpliceKind::VlessUdp
        }),
{
}

/// A downlink ends for a cause and says which: its client is done exactly where the edge
/// stopped the stream with that code, its upstream ended exactly where a byte stream
/// read nothing, and it was stopped exactly where it was told so or where nobody feeds it
/// any more. Every fault is the mesh's but a failed read, and is an abort but for a
/// stalled write.
pub proof fn law_a_downlink_ends_only_for_a_cause(
    kind: SpliceKind,
    phase: DownlinkPhase,
    event: DownlinkEvent,
    fault: SpliceFault,
)
    requires
        downlink_accepts(kind, phase, event),
    ensures
        ({
            let next = downlink_next(kind, phase, event);
            let action = downlink_action(kind, phase, event);
            &&& next == DownlinkPhase::Ended(Ok(DownlinkEnd::ClientDone)) <==> (
            event matches DownlinkEvent::Stopped(code, _) && code == CLIENT_DONE_CODE)
            &&& next == DownlinkPhase::Ended(Ok(DownlinkEnd::UpstreamEof)) <==> event
                == DownlinkEvent::Data(0) && kind == SpliceKind::Tcp
            &&& next == DownlinkPhase::Ended(Ok(DownlinkEnd::Stopped)) <==> event is Stop || event
                is Closed
            &&& next == DownlinkPhase::Ended(Err(fault)) <==> {
                ||| event == DownlinkEvent::ReadFailed(fault.error) && !fault.upstream_healthy
                    && fault.reset == CloseReason::Abort
                ||| event == DownlinkEvent::WriteFailed(fault.error) && fault.upstream_healthy
                    && fault.reset == CloseReason::Abort
                ||| event == DownlinkEvent::Stalled(fault.error) && fault.upstream_healthy
                    && fault.reset == CloseReason::Budget
                ||| (event matches DownlinkEvent::Stopped(code, error) && code != CLIENT_DONE_CODE
                    && error == fault.error && fault.upstream_healthy && fault.reset
                    == CloseReason::Abort)
            }
            &&& action == DownlinkAction::FinishStream <==> event == DownlinkEvent::Data(0) && kind
                == SpliceKind::Tcp
            &&& action == DownlinkAction::Return <==> next is Ended && action
                != DownlinkAction::FinishStream
        }),
{
}

/// A done client has read all that was counted for it: what its downlink took and did
/// not count is at most the one write that the edge stopped.
pub proof fn law_a_done_client_misses_at_most_one_write(kind: SpliceKind, events: Seq<DownlinkEvent>)
    requires
        downlink_run_ok(kind, events),
        downlink_run(kind, events) == DownlinkPhase::Ended(Ok(DownlinkEnd::ClientDone)),
    ensures
        events.len() > 0,
        events.last() matches DownlinkEvent::Stopped(code, _) && code == CLIENT_DONE_CODE,
        downlink_run(kind, events.drop_last()) matches DownlinkPhase::Writing { len }
            && downlink_taken(events) == downlink_counted(kind, events) + len,
{
    law_a_stopped_downlink_holds_no_byte(kind, events.drop_last());
}

/// No downlink pump is deaf to what can happen to it.
pub proof fn law_a_downlink_takes_what_can_happen(
    kind: SpliceKind,
    len: usize,
    error: anyhow::Error,
    result: Result<DownlinkEnd, SpliceFault>,
    event: DownlinkEvent,
)
    ensures
        downlink_accepts(kind, DownlinkPhase::Reading, DownlinkEvent::Stop),
        downlink_accepts(kind, DownlinkPhase::Reading, DownlinkEvent::Data(len)),
        downlink_accepts(SpliceKind::VlessUdp, DownlinkPhase::Reading, DownlinkEvent::WouldBlock),
        downlink_accepts(SpliceKind::SsUdp, DownlinkPhase::Reading, DownlinkEvent::Closed),
        downlink_accepts(SpliceKind::VlessMux, DownlinkPhase::Reading, DownlinkEvent::Closed),
        downlink_accepts(SpliceKind::Tcp, DownlinkPhase::Reading, DownlinkEvent::ReadFailed(error)),
        downlink_accepts(
            SpliceKind::VlessUdp,
            DownlinkPhase::Reading,
            DownlinkEvent::ReadFailed(error),
        ),
        downlink_accepts(kind, DownlinkPhase::Writing { len }, event) <==> event is Written || event
            is Stopped || event is WriteFailed || event is Stalled,
        !downlink_accepts(kind, DownlinkPhase::Ended(result), event),
{
}

/// Neither half is cut off by the other's good end: an uplink that ends has its downlink
/// stopped and waited for, a downlink that ends well lets the uplink go on. Which of them
/// ends first makes no difference to what the two leave behind. Only a broken downlink
/// ends the splice at once, and writes a mux off.
pub proof fn law_a_pair_waits_for_both_halves(
    kind: SpliceKind,
    uplink: Result<(), SpliceFault>,
    downlink: DownlinkEnd,
    fault: SpliceFault,
)
    ensures
        pair_after_uplink(SplicePair::Both, uplink) == (SplicePair::Draining { uplink }),
        pair_after_downlink(kind, SplicePair::Both, Ok(downlink)) == (SplicePair::UplinkOnly {
            downlink,
        }),
        pair_after_uplink(SplicePair::UplinkOnly { downlink }, uplink) == pair_after_downlink(
            kind,
            SplicePair::Draining { uplink },
            Ok(downlink),
        ),
        pair_after_downlink(kind, SplicePair::Draining { uplink }, Ok(downlink))
            == SplicePair::Ended(merged(uplink, Ok(downlink))),
        pair_after_downlink(kind, SplicePair::Draining { uplink }, Err(fault)) == SplicePair::Ended(
            merged(uplink, Err(fault)),
        ),
        pair_after_downlink(kind, SplicePair::Both, Err(fault)) == SplicePair::Ended(
            SpliceOutcome {
                end: crate::mesh_splice::SpliceEnd::Faulted {
                    reset: fault.reset,
                    upstream_healthy: fault.upstream_healthy && kind != SpliceKind::VlessMux,
                    error: fault.error,
                },
                stream_finished: false,
                observed_intent: CloseIntent::CarrierEnded,
            },
        ),
{
}

/// A chunk is through exactly when all of it was written, and goes on from the first
/// byte that was not; a write that took nothing moves it nowhere.
pub proof fn law_a_chunk_goes_on_from_where_it_is(chunk: UplinkChunk, from: usize, n: usize)
    requires
        chunk.wf(),
        n <= chunk.total - chunk.written,
    ensures
        chunk.next_step() == ChunkStep::Done <==> chunk.written == chunk.total,
        chunk.next_step() == (ChunkStep::Write { from }) <==> chunk.written < chunk.total && from
            == chunk.written,
        chunk.after(ChunkWrite::Accepted(n)).written == chunk.written + n,
        chunk.after(ChunkWrite::Accepted(n)).total == chunk.total,
        chunk.after(ChunkWrite::Failed) == chunk,
        chunk.after(ChunkWrite::Stalled) == chunk,
{
}

} // verus!
