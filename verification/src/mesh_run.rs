//! A whole splice, from the prologue to where the session goes.

use vstd::prelude::*;
use crate::mesh_pump::{pair_after_downlink, pair_after_uplink, SpliceKind, SplicePair};
use crate::mesh_serve::{mismatch, RejectReason, Refusal, RelayOutcome};
use crate::mesh_session::{
    dispose, disposition, harvests, prologue_failed, refuse_useless_park, Disposition, PrologueFailure,
    SplicePrologue,
};
use crate::mesh_splice::{
    close_splice, closing, needs_stopped_poll, DownlinkEnd, SpliceClose, SpliceEnd, SpliceFault,
    SpliceOutcome, StoppedPoll, StreamClose,
};
use crate::mesh_wire::CloseIntent;

verus! {

/// Where a splice stands.
#[derive(Debug)]
pub enum SplicePhase {
    /// The acknowledged offset is being written; then the replay, where there is one.
    WritingAck { replay: Option<Vec<u8>>, truncated: bool },
    /// A replay of `len` bytes is being written.
    WritingReplay { len: usize },
    Pumping(SplicePair),
    /// The stream is being asked whether the edge stopped it.
    Polling(SpliceOutcome),
    /// The stream is closed; what is left of the session is being collected.
    Collecting { reparks: bool, error: Option<anyhow::Error> },
    Done,
}

/// What reached a splice.
#[derive(Debug)]
pub enum SpliceEvent {
    Written,
    WriteFailed(anyhow::Error),
    UplinkEnded(Result<(), SpliceFault>),
    DownlinkEnded(Result<DownlinkEnd, SpliceFault>),
    Polled(StoppedPoll),
    /// This many of the session's keys or connections are fit to be parked.
    Collected(usize),
}

/// How what is left of a session is collected.
#[derive(Clone, Copy, Debug, PartialEq, Eq, Structural)]
pub enum Collect {
    /// There is nothing to collect.
    Nothing,
    /// Take the stream off its NAT entries.
    ReleaseKeys,
    /// Have the mux hand over its connections.
    Harvest,
}

/// What a splice asks for next.
#[derive(Debug)]
pub enum SpliceAction {
    /// Count the reason and the outcome, and reset both halves of the stream.
    Refuse(Refusal),
    WriteAck(u64),
    WriteReplay(Vec<u8>),
    /// Count `replayed` downlink bytes that were repeated, and a replay that could not be
    /// had where `truncated` says so; then run both pumps.
    Pump { truncated: bool, replayed: usize },
    /// Go on with the uplink alone.
    PumpUplink,
    /// Tell the downlink to stop, and wait for it.
    StopDownlink,
    PollStopped,
    /// Count a hit under this intent, close the stream, and collect what is left.
    Close { intent: CloseIntent, stream: StreamClose, collect: Collect },
    /// Count a hit without a close, and end with the error.
    Abandon { failure: PrologueFailure, cause: anyhow::Error },
    /// The session goes there; end with the error where there is one.
    Dispose { to: Disposition, error: Option<anyhow::Error> },
}

pub open spec fn splice_accepts(phase: SplicePhase, event: SpliceEvent) -> bool {
    match phase {
        SplicePhase::WritingAck { .. } => event is Written || event is WriteFailed,
        SplicePhase::WritingReplay { .. } => event is Written || event is WriteFailed,
        SplicePhase::Pumping(pair) => match pair {
            SplicePair::Both => event is UplinkEnded || event is DownlinkEnded,
            SplicePair::UplinkOnly { .. } => event is UplinkEnded,
            SplicePair::Draining { .. } => event is DownlinkEnded,
            SplicePair::Ended(_) => false,
        },
        SplicePhase::Polling(_) => event is Polled,
        SplicePhase::Collecting { .. } => event is Collected,
        SplicePhase::Done => false,
    }
}

/// The park a splice refuses before it writes anything.
pub open spec fn useless(kind: SpliceKind, usable: usize) -> Option<Refusal> {
    if usable > 0 {
        None
    } else if kind == SpliceKind::SsUdp {
        Some(mismatch(RejectReason::ParkIdentity, false))
    } else if kind == SpliceKind::VlessMux {
        Some(mismatch(RejectReason::ParkIncomplete, false))
    } else {
        None
    }
}

/// Once the acknowledgement is out, or none was asked for: the replay, then the pumps.
pub open spec fn after_ack(replay: Option<Vec<u8>>, truncated: bool) -> (SplicePhase, SpliceAction) {
    match replay {
        Some(bytes) => (
            SplicePhase::WritingReplay { len: bytes@.len() as usize },
            SpliceAction::WriteReplay(bytes),
        ),
        None => (
            SplicePhase::Pumping(SplicePair::Both),
            SpliceAction::Pump { truncated, replayed: 0 },
        ),
    }
}

pub open spec fn splice_start(kind: SpliceKind, usable: usize, prologue: SplicePrologue) -> (
    SplicePhase,
    SpliceAction,
) {
    match useless(kind, usable) {
        Some(refusal) => (SplicePhase::Done, SpliceAction::Refuse(refusal)),
        None => match prologue.ack {
            Some(acked) => (
                SplicePhase::WritingAck { replay: prologue.replay, truncated: prologue.truncated },
                SpliceAction::WriteAck(acked),
            ),
            None => after_ack(prologue.replay, prologue.truncated),
        },
    }
}

pub open spec fn abandoned(kind: SpliceKind, enabled: bool, error: anyhow::Error) -> (
    SplicePhase,
    SpliceAction,
) {
    (
        SplicePhase::Done,
        SpliceAction::Abandon {
            failure: PrologueFailure {
                outcome: RelayOutcome::Hit,
                put_back: kind == SpliceKind::VlessMux && enabled,
                release_keys: kind == SpliceKind::SsUdp,
            },
            cause: error,
        },
    )
}

/// How a session of this kind is collected once its splice is closed.
pub open spec fn collects(kind: SpliceKind, reparks: bool, enabled: bool) -> Collect {
    match kind {
        SpliceKind::SsUdp => Collect::ReleaseKeys,
        SpliceKind::VlessMux => if reparks && enabled {
            Collect::Harvest
        } else {
            Collect::Nothing
        },
        _ => Collect::Nothing,
    }
}

pub open spec fn closed(kind: SpliceKind, enabled: bool, outcome: SpliceOutcome, polled: StoppedPoll) -> (
    SplicePhase,
    SpliceAction,
) {
    let close = closing(outcome, polled);
    (
        SplicePhase::Collecting { reparks: close.reparks, error: close.error },
        SpliceAction::Close {
            intent: close.intent,
            stream: close.stream,
            collect: collects(kind, close.reparks, enabled),
        },
    )
}

/// Whether the stream is asked before a splice that ended so is closed.
pub open spec fn asks_stream(outcome: SpliceOutcome) -> bool {
    outcome.observed_intent == CloseIntent::CarrierEnded && outcome.end == (SpliceEnd::Graceful {
        upstream_healthy: true,
    })
}

pub open spec fn pair_moved(kind: SpliceKind, enabled: bool, pair: SplicePair) -> (
    SplicePhase,
    SpliceAction,
) {
    match pair {
        SplicePair::Ended(outcome) => if asks_stream(outcome) {
            (SplicePhase::Polling(outcome), SpliceAction::PollStopped)
        } else {
            closed(kind, enabled, outcome, StoppedPoll::Pending)
        },
        SplicePair::Draining { .. } => (SplicePhase::Pumping(pair), SpliceAction::StopDownlink),
        _ => (SplicePhase::Pumping(pair), SpliceAction::PumpUplink),
    }
}

pub open spec fn splice_next(
    kind: SpliceKind,
    enabled: bool,
    phase: SplicePhase,
    event: SpliceEvent,
) -> (SplicePhase, SpliceAction) {
    match (phase, event) {
        (SplicePhase::WritingAck { replay, truncated }, SpliceEvent::Written) => after_ack(
            replay,
            truncated,
        ),
        (SplicePhase::WritingAck { .. }, SpliceEvent::WriteFailed(error)) => abandoned(
            kind,
            enabled,
            error,
        ),
        (SplicePhase::WritingReplay { len }, SpliceEvent::Written) => (
            SplicePhase::Pumping(SplicePair::Both),
            SpliceAction::Pump { truncated: false, replayed: len },
        ),
        (SplicePhase::WritingReplay { .. }, SpliceEvent::WriteFailed(error)) => abandoned(
            kind,
            enabled,
            error,
        ),
        (SplicePhase::Pumping(pair), SpliceEvent::UplinkEnded(result)) => pair_moved(
            kind,
            enabled,
            pair_after_uplink(pair, result),
        ),
        (SplicePhase::Pumping(pair), SpliceEvent::DownlinkEnded(result)) => pair_moved(
            kind,
            enabled,
            pair_after_downlink(kind, pair, result),
        ),
        (SplicePhase::Polling(outcome), SpliceEvent::Polled(polled)) => closed(
            kind,
            enabled,
            outcome,
            polled,
        ),
        (SplicePhase::Collecting { reparks, error }, SpliceEvent::Collected(survivors)) => (
            SplicePhase::Done,
            SpliceAction::Dispose {
                to: disposition(kind, reparks, enabled, survivors as nat),
                error,
            },
        ),
        _ => (phase, SpliceAction::PollStopped),
    }
}

// ── The machine ─────────────────────────────────────────────────────────────

fn past_ack(replay: Option<Vec<u8>>, truncated: bool) -> (stepped: (SplicePhase, SpliceAction))
    ensures
        stepped == after_ack(replay, truncated),
{
    match replay {
        Some(bytes) => {
            let len: usize = bytes.len();
            (SplicePhase::WritingReplay { len }, SpliceAction::WriteReplay(bytes))
        },
        None => (
            SplicePhase::Pumping(SplicePair::Both),
            SpliceAction::Pump { truncated, replayed: 0 },
        ),
    }
}

fn abandon(kind: SpliceKind, registry_enabled: bool, error: anyhow::Error) -> (stepped: (
    SplicePhase,
    SpliceAction,
))
    ensures
        stepped == abandoned(kind, registry_enabled, error),
{
    let failure = prologue_failed(kind, registry_enabled);
    (SplicePhase::Done, SpliceAction::Abandon { failure, cause: error })
}

fn close(kind: SpliceKind, registry_enabled: bool, outcome: SpliceOutcome, polled: StoppedPoll) -> (stepped: (
    SplicePhase,
    SpliceAction,
))
    ensures
        stepped == closed(kind, registry_enabled, outcome, polled),
{
    let SpliceClose { intent, stream, reparks, error } = close_splice(outcome, polled);
    let collect = match kind {
        SpliceKind::SsUdp => Collect::ReleaseKeys,
        _ => if harvests(kind, reparks, registry_enabled) {
            Collect::Harvest
        } else {
            Collect::Nothing
        },
    };
    (
        SplicePhase::Collecting { reparks, error },
        SpliceAction::Close { intent, stream, collect },
    )
}

fn move_pair(kind: SpliceKind, registry_enabled: bool, pair: SplicePair) -> (stepped: (
    SplicePhase,
    SpliceAction,
))
    ensures
        stepped == pair_moved(kind, registry_enabled, pair),
{
    match pair {
        SplicePair::Ended(outcome) => {
            if needs_stopped_poll(&outcome.end, outcome.observed_intent) {
                (SplicePhase::Polling(outcome), SpliceAction::PollStopped)
            } else {
                close(kind, registry_enabled, outcome, StoppedPoll::Pending)
            }
        },
        SplicePair::Draining { uplink } => (
            SplicePhase::Pumping(SplicePair::Draining { uplink }),
            SpliceAction::StopDownlink,
        ),
        other => (SplicePhase::Pumping(other), SpliceAction::PumpUplink),
    }
}

/// Starts a splice. `usable` counts what the park brings: the attested user's keys, or
/// a mux's connections.
pub fn begin_splice(kind: SpliceKind, usable: usize, prologue: SplicePrologue) -> (started: (
    SplicePhase,
    SpliceAction,
))
    ensures
        started == splice_start(kind, usable, prologue),
{
    match refuse_useless_park(kind, usable) {
        Some(refusal) => (SplicePhase::Done, SpliceAction::Refuse(refusal)),
        None => match prologue.ack {
            Some(acked) => (
                SplicePhase::WritingAck { replay: prologue.replay, truncated: prologue.truncated },
                SpliceAction::WriteAck(acked),
            ),
            None => past_ack(prologue.replay, prologue.truncated),
        },
    }
}

/// One step of a splice.
pub fn step_splice(kind: SpliceKind, registry_enabled: bool, phase: SplicePhase, event: SpliceEvent) -> (stepped: (
    SplicePhase,
    SpliceAction,
))
    requires
        splice_accepts(phase, event),
    ensures
        stepped == splice_next(kind, registry_enabled, phase, event),
{
    match (phase, event) {
        (SplicePhase::WritingAck { replay, truncated }, SpliceEvent::Written) => past_ack(
            replay,
            truncated,
        ),
        (SplicePhase::WritingAck { .. }, SpliceEvent::WriteFailed(error)) => abandon(
            kind,
            registry_enabled,
            error,
        ),
        (SplicePhase::WritingReplay { len }, SpliceEvent::Written) => (
            SplicePhase::Pumping(SplicePair::Both),
            SpliceAction::Pump { truncated: false, replayed: len },
        ),
        (SplicePhase::WritingReplay { .. }, SpliceEvent::WriteFailed(error)) => abandon(
            kind,
            registry_enabled,
            error,
        ),
        (SplicePhase::Pumping(pair), SpliceEvent::UplinkEnded(result)) => move_pair(
            kind,
            registry_enabled,
            pair.on_uplink_end(result),
        ),
        (SplicePhase::Pumping(pair), SpliceEvent::DownlinkEnded(result)) => move_pair(
            kind,
            registry_enabled,
            pair.on_downlink_end(kind, result),
        ),
        (SplicePhase::Polling(outcome), SpliceEvent::Polled(polled)) => close(
            kind,
            registry_enabled,
            outcome,
            polled,
        ),
        (SplicePhase::Collecting { reparks, error }, SpliceEvent::Collected(survivors)) => (
            SplicePhase::Done,
            SpliceAction::Dispose {
                to: dispose(kind, reparks, registry_enabled, survivors),
                error,
            },
        ),
        (phase, _) => (phase, SpliceAction::PollStopped),
    }
}

// ── Runs and laws ───────────────────────────────────────────────────────────

/// What a splice starts from.
pub struct SpliceSetup {
    pub kind: SpliceKind,
    pub registry_enabled: bool,
    pub usable: usize,
    pub prologue: SplicePrologue,
}

pub open spec fn splice_run(setup: SpliceSetup, events: Seq<SpliceEvent>) -> SplicePhase
    decreases events.len(),
{
    if events.len() == 0 {
        splice_start(setup.kind, setup.usable, setup.prologue).0
    } else {
        splice_next(
            setup.kind,
            setup.registry_enabled,
            splice_run(setup, events.drop_last()),
            events.last(),
        ).0
    }
}

pub open spec fn splice_run_ok(setup: SpliceSetup, events: Seq<SpliceEvent>) -> bool
    decreases events.len(),
{
    events.len() == 0 || (splice_run_ok(setup, events.drop_last()) && splice_accepts(
        splice_run(setup, events.drop_last()),
        events.last(),
    ))
}

/// The action a run has come to.
pub open spec fn splice_action(setup: SpliceSetup, events: Seq<SpliceEvent>) -> SpliceAction {
    if events.len() == 0 {
        splice_start(setup.kind, setup.usable, setup.prologue).1
    } else {
        splice_next(
            setup.kind,
            setup.registry_enabled,
            splice_run(setup, events.drop_last()),
            events.last(),
        ).1
    }
}

/// An action that records how the relay ended.
pub open spec fn records_outcome(action: SpliceAction) -> bool {
    action is Refuse || action is Abandon || action is Close
}

/// How often a run has recorded how the relay ended.
pub open spec fn outcomes_recorded(setup: SpliceSetup, events: Seq<SpliceEvent>) -> nat
    decreases events.len(),
{
    let now: nat = if records_outcome(splice_action(setup, events)) {
        1
    } else {
        0
    };
    if events.len() == 0 {
        now
    } else {
        outcomes_recorded(setup, events.drop_last()) + now
    }
}

/// Every splice is counted exactly once, however it goes: not before its stream is
/// closed or given up, and not again when its session is disposed of.
pub proof fn law_a_splice_is_counted_once(setup: SpliceSetup, events: Seq<SpliceEvent>)
    requires
        splice_run_ok(setup, events),
    ensures
        outcomes_recorded(setup, events) == if splice_run(setup, events) is Collecting || splice_run(
            setup,
            events,
        ) is Done {
            1nat
        } else {
            0nat
        },
        !(splice_run(setup, events) matches SplicePhase::Pumping(pair) && pair is Ended),
    decreases events.len(),
{
    if events.len() > 0 {
        law_a_splice_is_counted_once(setup, events.drop_last());
    }
}

/// How many downlink bytes a prologue repeats.
pub open spec fn repeated_by(prologue: SplicePrologue) -> usize {
    match prologue.replay {
        Some(bytes) => bytes@.len() as usize,
        None => 0,
    }
}

/// What is repeated to the client counts as downlink, once it is written and in full: a
/// run that comes to its pumps has counted exactly the bytes of its prologue's replay.
pub proof fn law_a_replay_counts_as_downlink(setup: SpliceSetup, events: Seq<SpliceEvent>)
    requires
        splice_run_ok(setup, events),
    ensures
        splice_action(setup, events) matches SpliceAction::Pump { replayed, .. } ==> replayed
            == repeated_by(setup.prologue),
        match splice_run(setup, events) {
            SplicePhase::WritingAck { replay, .. } => replay == setup.prologue.replay,
            SplicePhase::WritingReplay { len } => setup.prologue.replay is Some && len == repeated_by(
                setup.prologue,
            ),
            _ => true,
        },
    decreases events.len(),
{
    if events.len() > 0 {
        law_a_replay_counts_as_downlink(setup, events.drop_last());
    }
}

/// A client that is done with its downlink does not lose the rest of its upload: the
/// splice goes on with the uplink, and nothing but the uplink's own end ends it.
pub proof fn law_a_done_client_uploads_to_the_end(kind: SpliceKind, enabled: bool, event: SpliceEvent)
    ensures
        ({
            let done = SpliceEvent::DownlinkEnded(Ok(DownlinkEnd::ClientDone));
            let stepped = splice_next(kind, enabled, SplicePhase::Pumping(SplicePair::Both), done);
            &&& stepped.1 == SpliceAction::PumpUplink
            &&& stepped.0 == SplicePhase::Pumping(
                SplicePair::UplinkOnly { downlink: DownlinkEnd::ClientDone },
            )
            &&& splice_accepts(stepped.0, event) <==> event is UplinkEnded
        }),
{
}

/// A session is parked only where its client may come back, its upstream is good, and
/// the registry takes parks.
pub proof fn law_a_parked_session_is_fit(
    kind: SpliceKind,
    enabled: bool,
    outcome: SpliceOutcome,
    polled: StoppedPoll,
    survivors: usize,
)
    requires
        splice_next(
            kind,
            enabled,
            closed(kind, enabled, outcome, polled).0,
            SpliceEvent::Collected(survivors),
        ).1 matches SpliceAction::Dispose { to, .. } && to == Disposition::Park,
    ensures
        enabled,
        outcome.end.is_healthy(),
        closing(outcome, polled).intent == CloseIntent::CarrierEnded,
{
}

/// A healthy session whose carrier ended is parked again, so it survives one carrier
/// after another. (A datagram session must still own an entry, a mux a connection.)
pub proof fn law_a_healthy_session_is_parked_again(
    kind: SpliceKind,
    outcome: SpliceOutcome,
    polled: StoppedPoll,
    survivors: usize,
)
    requires
        outcome.end.is_healthy(),
        closing(outcome, polled).intent == CloseIntent::CarrierEnded,
        survivors > 0,
    ensures
        splice_next(
            kind,
            true,
            closed(kind, true, outcome, polled).0,
            SpliceEvent::Collected(survivors),
        ).1 matches SpliceAction::Dispose { to, .. } && to == Disposition::Park,
{
}

// ── What a splice is for ────────────────────────────────────────────────────

/// A park that is of use is spliced, and its edge reads the prologue first: the offset,
/// then the replay, then the pumps' bytes. Only a UDP stream without a key of its user
/// and a mux without a connection are refused, each for what it lacks.
pub proof fn law_a_splice_starts_with_its_prologue(
    kind: SpliceKind,
    usable: usize,
    prologue: SplicePrologue,
    acked: u64,
    bytes: Vec<u8>,
)
    ensures
        ({
            let (phase, action) = splice_start(kind, usable, prologue);
            let lacks = usable == 0 && (kind == SpliceKind::SsUdp || kind == SpliceKind::VlessMux);
            &&& lacks ==> phase == SplicePhase::Done && action == SpliceAction::Refuse(
                Refusal {
                    rejected: if kind == SpliceKind::SsUdp {
                        RejectReason::ParkIdentity
                    } else {
                        RejectReason::ParkIncomplete
                    },
                    outcome: RelayOutcome::Miss,
                    close: crate::mesh_wire::CloseReason::Abort,
                    put_back: false,
                },
            )
            &&& action is Refuse <==> lacks
            &&& action == SpliceAction::WriteAck(acked) <==> !lacks && prologue.ack == Some(acked)
            &&& action == SpliceAction::WriteReplay(bytes) <==> !lacks && prologue.ack is None
                && prologue.replay == Some(bytes)
            &&& action is Pump <==> !lacks && prologue.ack is None && prologue.replay is None
            &&& action is Pump ==> phase == SplicePhase::Pumping(SplicePair::Both) && action
                == (SpliceAction::Pump { truncated: prologue.truncated, replayed: 0 })
            &&& action is WriteAck ==> phase == (SplicePhase::WritingAck {
                replay: prologue.replay,
                truncated: prologue.truncated,
            })
        }),
{
}

/// A prologue that is written leads on to the next part of it and then to both pumps; one
/// that cannot be written ends the splice as a hit without a close, with the write's
/// error, and gives back what was taken up for it.
pub proof fn law_a_prologue_leads_to_the_pumps(
    kind: SpliceKind,
    enabled: bool,
    replay: Option<Vec<u8>>,
    truncated: bool,
    len: usize,
    error: anyhow::Error,
)
    ensures
        ({
            let acking = SplicePhase::WritingAck { replay, truncated };
            let replaying = SplicePhase::WritingReplay { len };
            let pumping = SplicePhase::Pumping(SplicePair::Both);
            let given_up = (
                SplicePhase::Done,
                SpliceAction::Abandon {
                    failure: PrologueFailure {
                        outcome: RelayOutcome::Hit,
                        put_back: kind == SpliceKind::VlessMux && enabled,
                        release_keys: kind == SpliceKind::SsUdp,
                    },
                    cause: error,
                },
            );
            &&& replay matches Some(bytes) ==> splice_next(kind, enabled, acking, SpliceEvent::Written)
                == (
                SplicePhase::WritingReplay { len: bytes@.len() as usize },
                SpliceAction::WriteReplay(bytes),
            )
            &&& replay is None ==> splice_next(kind, enabled, acking, SpliceEvent::Written) == (
                pumping,
                SpliceAction::Pump { truncated, replayed: 0 },
            )
            &&& splice_next(kind, enabled, replaying, SpliceEvent::Written) == (
                pumping,
                SpliceAction::Pump { truncated: false, replayed: len },
            )
            &&& splice_next(kind, enabled, acking, SpliceEvent::WriteFailed(error)) == given_up
            &&& splice_next(kind, enabled, replaying, SpliceEvent::WriteFailed(error)) == given_up
        }),
{
}

/// How a splice ends, told from what its two pumps saw. The stream is asked exactly where
/// both ended well and nobody has heard from the client. A client that is done is
/// recorded as done, and its session goes; any other session whose upstream is good is
/// parked where the registry takes it and something of it is left. A broken splice resets
/// its stream for the reason it broke and ends with that error, unless the stream was
/// finished already.
pub proof fn law_a_splice_ends_as_its_pumps_did(
    kind: SpliceKind,
    enabled: bool,
    uplink: Result<(), SpliceFault>,
    downlink: Result<DownlinkEnd, SpliceFault>,
    fault: SpliceFault,
    other: SpliceFault,
    polled: StoppedPoll,
    survivors: usize,
)
    requires
        uplink is Err ==> uplink == Err::<(), SpliceFault>(fault),
        downlink is Err ==> downlink == Err::<DownlinkEnd, SpliceFault>(other),
    ensures
        ({
            let over = splice_next(
                kind,
                enabled,
                SplicePhase::Pumping(SplicePair::Draining { uplink }),
                SpliceEvent::DownlinkEnded(downlink),
            );
            let stopped = downlink == Ok::<DownlinkEnd, SpliceFault>(DownlinkEnd::Stopped);
            let eof = downlink == Ok::<DownlinkEnd, SpliceFault>(DownlinkEnd::UpstreamEof);
            let asked = uplink is Ok && stopped;
            let shut = if asked {
                splice_next(kind, enabled, over.0, SpliceEvent::Polled(polled))
            } else {
                over
            };
            let done = downlink == Ok::<DownlinkEnd, SpliceFault>(DownlinkEnd::ClientDone) || asked
                && polled == StoppedPoll::Stopped(crate::mesh_wire::CLIENT_DONE_CODE);
            let good = (uplink is Err ==> fault.upstream_healthy) && (downlink is Err
                ==> other.upstream_healthy) && !eof;
            let wanted = !done && good && enabled;
            &&& over.1 == SpliceAction::PollStopped <==> asked
            &&& shut.1 == (SpliceAction::Close {
                intent: if done {
                    CloseIntent::ClientDone
                } else {
                    CloseIntent::CarrierEnded
                },
                stream: if eof {
                    StreamClose::Finish
                } else if uplink is Err {
                    StreamClose::Reset(fault.reset)
                } else if downlink is Err {
                    StreamClose::Reset(other.reset)
                } else if done {
                    StreamClose::Reset(crate::mesh_wire::CloseReason::Fin)
                } else {
                    StreamClose::Finish
                },
                collect: if kind == SpliceKind::SsUdp {
                    Collect::ReleaseKeys
                } else if kind == SpliceKind::VlessMux && wanted {
                    Collect::Harvest
                } else {
                    Collect::Nothing
                },
            })
            &&& splice_next(kind, enabled, shut.0, SpliceEvent::Collected(survivors)) == (
                SplicePhase::Done,
                SpliceAction::Dispose {
                    to: if wanted && (survivors > 0 || kind == SpliceKind::Tcp || kind
                        == SpliceKind::VlessUdp) {
                        Disposition::Park
                    } else if !wanted && (kind == SpliceKind::Tcp || kind == SpliceKind::VlessMux) {
                        Disposition::Shutdown
                    } else {
                        Disposition::Forget
                    },
                    error: if uplink is Err {
                        Some(fault.error)
                    } else if downlink is Err {
                        Some(other.error)
                    } else {
                        None
                    },
                },
            )
        }),
{
}

/// It makes no difference to a splice which pump ends first, where the downlink ends
/// well; and neither cuts the other off. A downlink that breaks ends the splice at once:
/// the stream is reset for its reason, and a mux, which has lost frames, is not parked.
pub proof fn law_the_order_of_the_ends_does_not_matter(
    kind: SpliceKind,
    enabled: bool,
    uplink: Result<(), SpliceFault>,
    downlink: DownlinkEnd,
    fault: SpliceFault,
    survivors: usize,
)
    ensures
        ({
            let both = SplicePhase::Pumping(SplicePair::Both);
            let up_first = splice_next(kind, enabled, both, SpliceEvent::UplinkEnded(uplink));
            let down_first = splice_next(kind, enabled, both, SpliceEvent::DownlinkEnded(Ok(downlink)));
            let broken = splice_next(kind, enabled, both, SpliceEvent::DownlinkEnded(Err(fault)));
            let wanted = fault.upstream_healthy && enabled;
            &&& up_first == (
                SplicePhase::Pumping(SplicePair::Draining { uplink }),
                SpliceAction::StopDownlink,
            )
            &&& down_first == (
                SplicePhase::Pumping(SplicePair::UplinkOnly { downlink }),
                SpliceAction::PumpUplink,
            )
            &&& splice_next(kind, enabled, up_first.0, SpliceEvent::DownlinkEnded(Ok(downlink)))
                == splice_next(kind, enabled, down_first.0, SpliceEvent::UplinkEnded(uplink))
            &&& broken.1 == (SpliceAction::Close {
                intent: CloseIntent::CarrierEnded,
                stream: StreamClose::Reset(fault.reset),
                collect: if kind == SpliceKind::SsUdp {
                    Collect::ReleaseKeys
                } else {
                    Collect::Nothing
                },
            })
            &&& splice_next(kind, enabled, broken.0, SpliceEvent::Collected(survivors)).1 == (
            SpliceAction::Dispose {
                to: match kind {
                    SpliceKind::Tcp => if wanted {
                        Disposition::Park
                    } else {
                        Disposition::Shutdown
                    },
                    SpliceKind::SsUdp => if wanted && survivors > 0 {
                        Disposition::Park
                    } else {
                        Disposition::Forget
                    },
                    SpliceKind::VlessUdp => if wanted {
                        Disposition::Park
                    } else {
                        Disposition::Forget
                    },
                    SpliceKind::VlessMux => Disposition::Shutdown,
                },
                error: Some(fault.error),
            })
        }),
{
}

/// A splice takes whatever can come of what it last asked for.
pub proof fn law_a_splice_takes_what_can_happen(
    replay: Option<Vec<u8>>,
    truncated: bool,
    len: usize,
    uplink: Result<(), SpliceFault>,
    downlink: DownlinkEnd,
    outcome: SpliceOutcome,
    reparks: bool,
    error: Option<anyhow::Error>,
    event: SpliceEvent,
)
    ensures
        splice_accepts(SplicePhase::WritingAck { replay, truncated }, event) <==> event is Written
            || event is WriteFailed,
        splice_accepts(SplicePhase::WritingReplay { len }, event) <==> event is Written || event
            is WriteFailed,
        splice_accepts(SplicePhase::Pumping(SplicePair::Both), event) <==> event is UplinkEnded || event
            is DownlinkEnded,
        splice_accepts(SplicePhase::Pumping(SplicePair::UplinkOnly { downlink }), event) <==> event
            is UplinkEnded,
        splice_accepts(SplicePhase::Pumping(SplicePair::Draining { uplink }), event) <==> event
            is DownlinkEnded,
        splice_accepts(SplicePhase::Polling(outcome), event) <==> event is Polled,
        splice_accepts(SplicePhase::Collecting { reparks, error }, event) <==> event is Collected,
        !splice_accepts(SplicePhase::Done, event),
{
}

} // verus!
