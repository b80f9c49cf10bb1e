//! The readers that bring an upstream's bytes to the client, a buffer at a time.

use vstd::prelude::*;
use crate::nat_keys::Endpoint;
use crate::vless_mux::MuxAccounting;

verus! {

/// Where a byte-stream reader stands.
#[derive(Clone, Copy, Debug, PartialEq, Eq, Structural)]
pub enum ReaderPhase {
    /// Waiting for the upstream, or for the word to stop; nothing is buffered.
    Waiting,
    /// Pulling what is there already behind the first read.
    Draining { buffered: usize },
    /// Handing the buffer to the carrier.
    Sending { len: usize },
    Ended(ReaderEnd),
}

/// How a reader ends.
#[derive(Clone, Copy, Debug, PartialEq, Eq, Structural)]
pub enum ReaderEnd {
    /// It was asked to; the upstream is handed back.
    Cancelled,
    /// The upstream ended, or a mux sub-connection broke.
    Closed,
    /// The carrier no longer takes anything.
    CarrierGone,
    /// Reading failed.
    Failed,
    /// What was read fits no frame of the mux.
    Unframed,
}

/// What reached the reader.
#[derive(Clone, Copy, Debug, PartialEq, Eq, Structural)]
pub enum ReaderEvent {
    Cancel,
    ReadyFailed,
    Read(usize),
    WouldBlock,
    ReadFailed,
    /// The buffer fits no frame of the mux.
    EncodeFailed,
    Queued,
    QueueFailed,
}

/// What the reader does next.
#[derive(Clone, Copy, Debug, PartialEq, Eq, Structural)]
pub enum ReaderAction {
    Wait,
    /// Read on without waiting.
    ReadMore,
    /// Remember the buffer for replays and hand it to the carrier; where `count` says so,
    /// count its bytes for the user first, and its frame once it is framed.
    Send { len: usize, count: bool },
    /// Tell the client that the upstream ended; then return.
    SendEnd,
    Return,
}

/// Which reader it is: that of a TCP upstream of its own, which fails as a whole, or
/// that of one connection of a mux, which ends alone and is counted where the client's
/// session is terminated.
#[derive(Clone, Copy, Debug, PartialEq, Eq, Structural)]
pub enum ReaderKind {
    Upstream,
    MuxSub(MuxAccounting),
}

/// Whether a reader counts what it hands to the client.
pub open spec fn reader_counts(kind: ReaderKind) -> bool {
    match kind {
        ReaderKind::Upstream => true,
        ReaderKind::MuxSub(accounting) => accounting == MuxAccounting::Local,
    }
}

/// A buffer of `len` bytes on its way to the carrier.
pub open spec fn sends(kind: ReaderKind, len: usize) -> (ReaderPhase, ReaderAction) {
    (ReaderPhase::Sending { len }, ReaderAction::Send { len, count: reader_counts(kind) })
}

/// Which events can reach the reader where it stands.
pub open spec fn reader_accepts(phase: ReaderPhase, event: ReaderEvent) -> bool {
    match phase {
        ReaderPhase::Waiting => event is Cancel || event is ReadyFailed || event is Read || event
            is WouldBlock || event is ReadFailed,
        ReaderPhase::Draining { buffered } => (event is Read && buffered + event->Read_0 <= usize::MAX)
            || event is WouldBlock || event is ReadFailed,
        ReaderPhase::Sending { .. } => event is EncodeFailed || event is Queued || event is QueueFailed,
        ReaderPhase::Ended(_) => false,
    }
}

/// A buffer that holds `buffered` bytes: read on below the target, send at it.
pub open spec fn fill(kind: ReaderKind, buffered: usize, target: usize) -> (ReaderPhase, ReaderAction) {
    if buffered < target {
        (ReaderPhase::Draining { buffered }, ReaderAction::ReadMore)
    } else {
        sends(kind, buffered)
    }
}

/// The end of a reader whose upstream broke: a mux tells its client that the
/// connection ended, an upstream of its own takes the session down.
pub open spec fn broken(kind: ReaderKind) -> (ReaderPhase, ReaderAction) {
    match kind {
        ReaderKind::MuxSub(_) => (ReaderPhase::Ended(ReaderEnd::Closed), ReaderAction::SendEnd),
        ReaderKind::Upstream => (ReaderPhase::Ended(ReaderEnd::Failed), ReaderAction::Return),
    }
}

pub open spec fn reader_next(
    kind: ReaderKind,
    target: usize,
    phase: ReaderPhase,
    event: ReaderEvent,
) -> (ReaderPhase, ReaderAction) {
    match (phase, event) {
        (ReaderPhase::Waiting, ReaderEvent::Cancel) => (
            ReaderPhase::Ended(ReaderEnd::Cancelled),
            ReaderAction::Return,
        ),
        (ReaderPhase::Waiting, ReaderEvent::Read(len)) => if len == 0 {
            (ReaderPhase::Ended(ReaderEnd::Closed), ReaderAction::SendEnd)
        } else {
            fill(kind, len, target)
        },
        (ReaderPhase::Waiting, ReaderEvent::WouldBlock) => (ReaderPhase::Waiting, ReaderAction::Wait),
        (ReaderPhase::Waiting, _) => broken(kind),
        (ReaderPhase::Draining { buffered }, ReaderEvent::Read(len)) => if len == 0 {
            sends(kind, buffered)
        } else {
            fill(kind, (buffered + len) as usize, target)
        },
        (ReaderPhase::Draining { buffered }, ReaderEvent::WouldBlock) => sends(kind, buffered),
        (ReaderPhase::Draining { buffered }, _) => match kind {
            ReaderKind::MuxSub(_) => sends(kind, buffered),
            ReaderKind::Upstream => (
                ReaderPhase::Ended(ReaderEnd::Failed),
                ReaderAction::Return,
            ),
        },
        (ReaderPhase::Sending { .. }, ReaderEvent::Queued) => (
            ReaderPhase::Waiting,
            ReaderAction::Wait,
        ),
        (ReaderPhase::Sending { .. }, ReaderEvent::EncodeFailed) => (
            ReaderPhase::Ended(ReaderEnd::Unframed),
            ReaderAction::SendEnd,
        ),
        _ => (ReaderPhase::Ended(ReaderEnd::CarrierGone), ReaderAction::Return),
    }
}

fn send_step(kind: ReaderKind, len: usize) -> (stepped: (ReaderPhase, ReaderAction))
    ensures
        stepped == sends(kind, len),
{
    let count = match kind {
        ReaderKind::Upstream => true,
        ReaderKind::MuxSub(accounting) => accounting.counts(),
    };
    (ReaderPhase::Sending { len }, ReaderAction::Send { len, count })
}

fn fill_step(kind: ReaderKind, buffered: usize, target: usize) -> (stepped: (ReaderPhase, ReaderAction))
    ensures
        stepped == fill(kind, buffered, target),
{
    if buffered < target {
        (ReaderPhase::Draining { buffered }, ReaderAction::ReadMore)
    } else {
        send_step(kind, buffered)
    }
}

/// One step of a byte-stream reader.
pub fn reader_step(kind: ReaderKind, target: usize, phase: ReaderPhase, event: ReaderEvent) -> (stepped: (
    ReaderPhase,
    ReaderAction,
))
    requires
        reader_accepts(phase, event),
    ensures
        stepped == reader_next(kind, target, phase, event),
{
    match (phase, event) {
        (ReaderPhase::Waiting, ReaderEvent::Cancel) => (
            ReaderPhase::Ended(ReaderEnd::Cancelled),
            ReaderAction::Return,
        ),
        (ReaderPhase::Waiting, ReaderEvent::Read(0)) => (
            ReaderPhase::Ended(ReaderEnd::Closed),
            ReaderAction::SendEnd,
        ),
        (ReaderPhase::Waiting, ReaderEvent::Read(len)) => fill_step(kind, len, target),
        (ReaderPhase::Waiting, ReaderEvent::WouldBlock) => (ReaderPhase::Waiting, ReaderAction::Wait),
        (ReaderPhase::Waiting, _) => match kind {
            ReaderKind::MuxSub(_) => (ReaderPhase::Ended(ReaderEnd::Closed), ReaderAction::SendEnd),
            ReaderKind::Upstream => (ReaderPhase::Ended(ReaderEnd::Failed), ReaderAction::Return),
        },
        (ReaderPhase::Draining { buffered }, ReaderEvent::Read(0)) => send_step(kind, buffered),
        (ReaderPhase::Draining { buffered }, ReaderEvent::Read(len)) => fill_step(
            kind,
            buffered + len,
            target,
        ),
        (ReaderPhase::Draining { buffered }, ReaderEvent::WouldBlock) => send_step(kind, buffered),
        (ReaderPhase::Draining { buffered }, _) => match kind {
            ReaderKind::MuxSub(_) => send_step(kind, buffered),
            ReaderKind::Upstream => (ReaderPhase::Ended(ReaderEnd::Failed), ReaderAction::Return),
        },
        (ReaderPhase::Sending { .. }, ReaderEvent::Queued) => (
            ReaderPhase::Waiting,
            ReaderAction::Wait,
        ),
        (ReaderPhase::Sending { .. }, ReaderEvent::EncodeFailed) => (
            ReaderPhase::Ended(ReaderEnd::Unframed),
            ReaderAction::SendEnd,
        ),
        _ => (ReaderPhase::Ended(ReaderEnd::CarrierGone), ReaderAction::Return),
    }
}

// ── Runs and laws ───────────────────────────────────────────────────────────

pub open spec fn reader_run(kind: ReaderKind, target: usize, events: Seq<ReaderEvent>) -> ReaderPhase
    decreases events.len(),
{
    if events.len() == 0 {
        ReaderPhase::Waiting
    } else {
        reader_next(kind, target, reader_run(kind, target, events.drop_last()), events.last()).0
    }
}

pub open spec fn reader_run_ok(kind: ReaderKind, target: usize, events: Seq<ReaderEvent>) -> bool
    decreases events.len(),
{
    events.len() == 0 || (reader_run_ok(kind, target, events.drop_last()) && reader_accepts(
        reader_run(kind, target, events.drop_last()),
        events.last(),
    ))
}

/// How many bytes a run took out of the upstream.
pub open spec fn reader_taken(events: Seq<ReaderEvent>) -> nat
    decreases events.len(),
{
    if events.len() == 0 {
        0
    } else {
        reader_taken(events.drop_last()) + match events.last() {
            ReaderEvent::Read(len) => len as nat,
            _ => 0,
        }
    }
}

/// How many bytes a run handed to the carrier.
pub open spec fn reader_sent(kind: ReaderKind, target: usize, events: Seq<ReaderEvent>) -> nat
    decreases events.len(),
{
    if events.len() == 0 {
        0
    } else {
        reader_sent(kind, target, events.drop_last()) + match (
            reader_run(kind, target, events.drop_last()),
            events.last(),
        ) {
            (ReaderPhase::Sending { len }, ReaderEvent::Queued) => len as nat,
            _ => 0,
        }
    }
}

/// A reader that was asked to stop holds no byte: everything it took out of the
/// upstream is with the carrier, and the upstream it hands back goes on where the
/// client left off.
pub proof fn law_a_cancelled_reader_holds_no_byte(
    kind: ReaderKind,
    target: usize,
    events: Seq<ReaderEvent>,
)
    requires
        reader_run_ok(kind, target, events),
    ensures
        reader_run(kind, target, events) == ReaderPhase::Waiting ==> reader_taken(events)
            == reader_sent(kind, target, events),
        reader_run(kind, target, events) matches ReaderPhase::Draining { buffered } ==> reader_taken(
            events,
        ) == reader_sent(kind, target, events) + buffered,
        reader_run(kind, target, events) matches ReaderPhase::Sending { len } ==> reader_taken(events)
            == reader_sent(kind, target, events) + len,
        reader_run(kind, target, events) == ReaderPhase::Ended(ReaderEnd::Cancelled)
            ==> reader_taken(events) == reader_sent(kind, target, events),
        reader_run(kind, target, events) == ReaderPhase::Ended(ReaderEnd::Closed) ==> reader_taken(
            events,
        ) == reader_sent(kind, target, events),
    decreases events.len(),
{
    if events.len() > 0 {
        law_a_cancelled_reader_holds_no_byte(kind, target, events.drop_last());
    }
}

// ── Datagrams of a mux connection ───────────────────────────────────────────

/// What reached the reader of a mux connection's datagrams.
#[derive(Clone, Copy, Debug, PartialEq, Eq, Structural)]
pub enum DatagramReaderEvent {
    Cancel,
    ReadyFailed,
    Datagram { len: usize, from: Endpoint },
    WouldBlock,
    ReadFailed,
    /// The datagram does not fit a frame.
    EncodeFailed,
    Queued,
    QueueFailed,
}

/// What that reader does next.
#[derive(Clone, Copy, Debug, PartialEq, Eq, Structural)]
pub enum DatagramReaderAction {
    Wait,
    /// Frame the datagram with the address it came from, and hand it to the carrier;
    /// where `count` says so, count its bytes for the user first, and its frame once it
    /// is framed.
    Send { len: usize, from: Endpoint, count: bool },
    /// Tell the client that the connection ended; then return.
    SendEnd,
    Return,
}

pub open spec fn datagram_reader_next(accounting: MuxAccounting, event: DatagramReaderEvent) -> (
    Option<ReaderEnd>,
    DatagramReaderAction,
) {
    match event {
        DatagramReaderEvent::Cancel => (Some(ReaderEnd::Cancelled), DatagramReaderAction::Return),
        DatagramReaderEvent::ReadyFailed => (Some(ReaderEnd::Closed), DatagramReaderAction::SendEnd),
        DatagramReaderEvent::ReadFailed => (Some(ReaderEnd::Closed), DatagramReaderAction::SendEnd),
        DatagramReaderEvent::Datagram { len, from } => if len == 0 {
            (None, DatagramReaderAction::Wait)
        } else {
            (
                None,
                DatagramReaderAction::Send { len, from, count: accounting == MuxAccounting::Local },
            )
        },
        DatagramReaderEvent::WouldBlock => (None, DatagramReaderAction::Wait),
        DatagramReaderEvent::EncodeFailed => (None, DatagramReaderAction::Wait),
        DatagramReaderEvent::Queued => (None, DatagramReaderAction::Wait),
        DatagramReaderEvent::QueueFailed => (
            Some(ReaderEnd::CarrierGone),
            DatagramReaderAction::Return,
        ),
    }
}

/// One step of that reader: an empty datagram and one that fits no frame cost that
/// datagram; a broken socket ends the connection.
pub fn datagram_reader_step(accounting: MuxAccounting, event: DatagramReaderEvent) -> (stepped: (
    Option<ReaderEnd>,
    DatagramReaderAction,
))
    ensures
        stepped == datagram_reader_next(accounting, event),
{
    match event {
        DatagramReaderEvent::Cancel => (Some(ReaderEnd::Cancelled), DatagramReaderAction::Return),
        DatagramReaderEvent::ReadyFailed => (Some(ReaderEnd::Closed), DatagramReaderAction::SendEnd),
        DatagramReaderEvent::ReadFailed => (Some(ReaderEnd::Closed), DatagramReaderAction::SendEnd),
        DatagramReaderEvent::Datagram { len, from } => {
            if len == 0 {
                (None, DatagramReaderAction::Wait)
            } else {
                (None, DatagramReaderAction::Send { len, from, count: accounting.counts() })
            }
        },
        DatagramReaderEvent::WouldBlock => (None, DatagramReaderAction::Wait),
        DatagramReaderEvent::EncodeFailed => (None, DatagramReaderAction::Wait),
        DatagramReaderEvent::Queued => (None, DatagramReaderAction::Wait),
        DatagramReaderEvent::QueueFailed => (
            Some(ReaderEnd::CarrierGone),
            DatagramReaderAction::Return,
        ),
    }
}

/// A relayed mux is counted on the edge alone, which terminates the client's session:
/// none of its readers on the home counts anything, whatever it reads.
pub proof fn law_a_relayed_mux_is_counted_on_the_edge(
    target: usize,
    phase: ReaderPhase,
    event: ReaderEvent,
    datagram: DatagramReaderEvent,
)
    ensures
        reader_next(ReaderKind::MuxSub(MuxAccounting::OnTheEdge), target, phase, event).1 matches
            ReaderAction::Send { count, .. } ==> !count,
        datagram_reader_next(MuxAccounting::OnTheEdge, datagram).1 matches
            DatagramReaderAction::Send { count, .. } ==> !count,
{
}

// ── What a reader is for ────────────────────────────────────────────────────

/// Everything that is read goes to the client, and nothing else does: a buffer that is
/// full, or behind which nothing more is there, is sent whole, and one that is not yet
/// full is read into. A mux sends what it has even where reading on failed; an upstream
/// of its own has failed as a whole then.
pub proof fn law_what_is_read_is_sent(
    kind: ReaderKind,
    target: usize,
    phase: ReaderPhase,
    event: ReaderEvent,
    len: usize,
    count: bool,
    had: usize,
)
    requires
        reader_accepts(phase, event),
        phase == ReaderPhase::Waiting && had == 0 || phase == (ReaderPhase::Draining {
            buffered: had,
        }) && had > 0,
    ensures
        ({
            let (next, action) = reader_next(kind, target, phase, event);
            let got = match event {
                ReaderEvent::Read(n) => n as int,
                _ => 0,
            };
            let counts = kind == ReaderKind::Upstream || kind == ReaderKind::MuxSub(
                MuxAccounting::Local,
            );
            let sends_now = {
                ||| got > 0 && had + got >= target
                ||| had > 0 && event == ReaderEvent::Read(0)
                ||| had > 0 && event is WouldBlock
                ||| had > 0 && event is ReadFailed && kind is MuxSub
            };
            &&& action == (ReaderAction::Send { len, count }) <==> sends_now && len == had + got && count
                == counts
            &&& next == (ReaderPhase::Sending { len }) <==> sends_now && len == had + got
            &&& action == ReaderAction::ReadMore <==> got > 0 && had + got < target
            &&& next == (ReaderPhase::Draining { buffered: len }) <==> got > 0 && had + got < target
                && len == had + got
        }),
{
}

/// A reader ends for a cause and says which: because it was asked to while it held
/// nothing, because its upstream ended, because the carrier takes nothing more, because
/// what was read fits no frame, or because reading failed; a connection of a mux that
/// broke has ended for its client, who is told. Everything else goes on: what was queued
/// makes room for the next read.
pub proof fn law_a_reader_ends_only_for_a_cause(
    kind: ReaderKind,
    target: usize,
    phase: ReaderPhase,
    event: ReaderEvent,
)
    requires
        reader_accepts(phase, event),
    ensures
        ({
            let (next, action) = reader_next(kind, target, phase, event);
            let waits = phase is Waiting;
            let broke = waits && (event is ReadyFailed || event is ReadFailed);
            &&& next == ReaderPhase::Ended(ReaderEnd::Cancelled) <==> event is Cancel
            &&& next == ReaderPhase::Ended(ReaderEnd::Closed) <==> waits && event == ReaderEvent::Read(
                0,
            ) || broke && kind is MuxSub
            &&& next == ReaderPhase::Ended(ReaderEnd::Failed) <==> kind is Upstream && (broke || phase
                is Draining && event is ReadFailed)
            &&& next == ReaderPhase::Ended(ReaderEnd::CarrierGone) <==> event is QueueFailed
            &&& next == ReaderPhase::Ended(ReaderEnd::Unframed) <==> event is EncodeFailed
            &&& action == ReaderAction::SendEnd <==> next == ReaderPhase::Ended(ReaderEnd::Closed)
                || next == ReaderPhase::Ended(ReaderEnd::Unframed)
            &&& action == ReaderAction::Return <==> next is Ended && action != ReaderAction::SendEnd
            &&& next == ReaderPhase::Waiting <==> event is Queued || waits && event is WouldBlock
            &&& action == ReaderAction::Wait <==> next == ReaderPhase::Waiting
        }),
{
}

/// A reader takes whatever can come of what it last did: it can be stopped exactly while
/// it holds nothing.
pub proof fn law_a_reader_takes_what_can_happen(buffered: usize, n: usize, end: ReaderEnd, event: ReaderEvent)
    ensures
        reader_accepts(ReaderPhase::Waiting, event) <==> event is Cancel || event is ReadyFailed || event
            is Read || event is WouldBlock || event is ReadFailed,
        buffered + n <= usize::MAX ==> reader_accepts(
            ReaderPhase::Draining { buffered },
            ReaderEvent::Read(n),
        ),
        reader_accepts(ReaderPhase::Draining { buffered }, ReaderEvent::WouldBlock),
        reader_accepts(ReaderPhase::Draining { buffered }, ReaderEvent::ReadFailed),
        !reader_accepts(ReaderPhase::Draining { buffered }, ReaderEvent::Cancel),
        reader_accepts(ReaderPhase::Sending { len: buffered }, event) <==> event is EncodeFailed || event
            is Queued || event is QueueFailed,
        !reader_accepts(ReaderPhase::Ended(end), event),
{
}

/// A datagram that a connection receives goes to the client with the address it came
/// from, unless it is empty; the connection ends exactly where it is asked to, its socket
/// broke or the carrier takes nothing more, and the client is told of a broken socket.
pub proof fn law_a_received_datagram_is_sent(
    accounting: MuxAccounting,
    event: DatagramReaderEvent,
    len: usize,
    from: Endpoint,
    count: bool,
)
    ensures
        ({
            let (end, action) = datagram_reader_next(accounting, event);
            &&& action == (DatagramReaderAction::Send { len, from, count }) <==> event == (
            DatagramReaderEvent::Datagram { len, from }) && len > 0 && count == (accounting
                == MuxAccounting::Local)
            &&& end == Some(ReaderEnd::Cancelled) <==> event is Cancel
            &&& end == Some(ReaderEnd::Closed) <==> event is ReadyFailed || event is ReadFailed
            &&& end == Some(ReaderEnd::CarrierGone) <==> event is QueueFailed
            &&& end is Some <==> event is Cancel || event is ReadyFailed || event is ReadFailed || event
                is QueueFailed
            &&& action == DatagramReaderAction::SendEnd <==> end == Some(ReaderEnd::Closed)
            &&& action == DatagramReaderAction::Return <==> end is Some && end != Some(
                ReaderEnd::Closed,
            )
        }),
{
}

} // verus!
