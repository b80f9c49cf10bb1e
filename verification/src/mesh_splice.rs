//! How a relayed session's two pumps end, and what that end means for the mesh
//! stream, for the upstream and for the park.

use vstd::prelude::*;
use crate::mesh_wire::{CloseIntent, CloseReason, CLIENT_DONE_CODE};

verus! {

/// [`anyhow::Error`], carried through a splice and never looked into.
#[verifier::external_type_specification]
#[verifier::external_body]
pub struct ExAnyhowError(anyhow::Error);

/// One pump's failure: how the mesh stream is to be reset for it, and whether
/// the upstream is still good for another carrier.
#[derive(Debug)]
pub struct SpliceFault {
    pub reset: CloseReason,
    pub upstream_healthy: bool,
    pub error: anyhow::Error,
}

/// How a whole splice ended.
#[derive(Debug)]
pub enum SpliceEnd {
    Graceful { upstream_healthy: bool },
    Faulted { reset: CloseReason, upstream_healthy: bool, error: anyhow::Error },
}

/// What is done to the home's half of the mesh stream.
#[derive(Clone, Copy, Debug, PartialEq, Eq, Structural)]
pub enum StreamClose {
    Finish,
    Reset(CloseReason),
}

/// How the pump from the upstream to the mesh ended without a fault.
#[derive(Clone, Copy, Debug, PartialEq, Eq, Structural)]
pub enum DownlinkEnd {
    /// The upstream closed; the pump has finished the mesh stream.
    UpstreamEof,
    /// The pump was told to stop, at a point where it holds no unsent byte.
    Stopped,
    /// The edge stopped the stream and said that its client is done.
    ClientDone,
}

impl SpliceFault {
    /// The mesh stream broke; the upstream did not.
    pub fn mesh(error: anyhow::Error) -> (fault: SpliceFault)
        ensures
            fault == (SpliceFault { reset: CloseReason::Abort, upstream_healthy: true, error }),
    {
        SpliceFault { reset: CloseReason::Abort, upstream_healthy: true, error }
    }

    /// The upstream broke.
    pub fn upstream(error: anyhow::Error) -> (fault: SpliceFault)
        ensures
            fault == (SpliceFault { reset: CloseReason::Abort, upstream_healthy: false, error }),
    {
        SpliceFault { reset: CloseReason::Abort, upstream_healthy: false, error }
    }

    /// The upstream took no byte for a whole health budget.
    pub fn stalled_upstream(error: anyhow::Error) -> (fault: SpliceFault)
        ensures
            fault == (SpliceFault { reset: CloseReason::Budget, upstream_healthy: false, error }),
    {
        SpliceFault { reset: CloseReason::Budget, upstream_healthy: false, error }
    }

    /// The mesh stream took no byte for a whole health budget.
    pub fn stalled_mesh(error: anyhow::Error) -> (fault: SpliceFault)
        ensures
            fault == (SpliceFault { reset: CloseReason::Budget, upstream_healthy: true, error }),
    {
        SpliceFault { reset: CloseReason::Budget, upstream_healthy: true, error }
    }

    /// The end of a splice that this fault brought down.
    pub fn into_end(self) -> (end: SpliceEnd)
        ensures
            end == self.as_end(),
    {
        SpliceEnd::Faulted {
            reset: self.reset,
            upstream_healthy: self.upstream_healthy,
            error: self.error,
        }
    }

    pub open spec fn as_end(self) -> SpliceEnd {
        SpliceEnd::Faulted {
            reset: self.reset,
            upstream_healthy: self.upstream_healthy,
            error: self.error,
        }
    }
}

impl SpliceEnd {
    pub open spec fn is_healthy(self) -> bool {
        match self {
            SpliceEnd::Graceful { upstream_healthy } => upstream_healthy,
            SpliceEnd::Faulted { upstream_healthy, .. } => upstream_healthy,
        }
    }

    pub open spec fn without_park(self) -> SpliceEnd {
        match self {
            SpliceEnd::Graceful { .. } => SpliceEnd::Graceful { upstream_healthy: false },
            SpliceEnd::Faulted { reset, error, .. } => SpliceEnd::Faulted {
                reset,
                upstream_healthy: false,
                error,
            },
        }
    }

    pub open spec fn closes_with(self, stream_finished: bool, intent: CloseIntent) -> StreamClose {
        if stream_finished {
            StreamClose::Finish
        } else {
            match self {
                SpliceEnd::Faulted { reset, .. } => StreamClose::Reset(reset),
                SpliceEnd::Graceful { .. } => if intent == CloseIntent::ClientDone {
                    StreamClose::Reset(CloseReason::Fin)
                } else {
                    StreamClose::Finish
                },
            }
        }
    }

    /// What becomes of the mesh stream. A stream that was finished stays finished:
    /// a reset after the finish would drop what the peer has not read yet.
    pub fn stream_close(&self, stream_finished: bool, intent: CloseIntent) -> (close: StreamClose)
        ensures
            close == self.closes_with(stream_finished, intent),
    {
        if stream_finished {
            return StreamClose::Finish;
        }
        match self {
            SpliceEnd::Faulted { reset, .. } => StreamClose::Reset(*reset),
            SpliceEnd::Graceful { .. } => match intent {
                CloseIntent::ClientDone => StreamClose::Reset(CloseReason::Fin),
                CloseIntent::CarrierEnded => StreamClose::Finish,
            },
        }
    }

    /// Whether the upstream is still good for another carrier.
    pub fn upstream_healthy(&self) -> (healthy: bool)
        ensures
            healthy == self.is_healthy(),
    {
        match self {
            SpliceEnd::Graceful { upstream_healthy } => *upstream_healthy,
            SpliceEnd::Faulted { upstream_healthy, .. } => *upstream_healthy,
        }
    }

    /// Whether the session is to be parked again: its client may come back, and
    /// its upstream is good.
    pub fn reparks(&self, intent: CloseIntent) -> (reparks: bool)
        ensures
            reparks == (intent == CloseIntent::CarrierEnded && self.is_healthy()),
    {
        match intent {
            CloseIntent::CarrierEnded => self.upstream_healthy(),
            CloseIntent::ClientDone => false,
        }
    }

    /// The same end with the upstream written off.
    pub fn deny_park(self) -> (end: SpliceEnd)
        ensures
            end == self.without_park(),
    {
        match self {
            SpliceEnd::Graceful { .. } => SpliceEnd::Graceful { upstream_healthy: false },
            SpliceEnd::Faulted { reset, error, .. } => SpliceEnd::Faulted {
                reset,
                upstream_healthy: false,
                error,
            },
        }
    }
}

/// What the two pumps of a splice left behind.
#[derive(Debug)]
pub struct SpliceOutcome {
    pub end: SpliceEnd,
    /// The downlink pump has finished the mesh stream itself.
    pub stream_finished: bool,
    /// The intent a pump ran into, before anyone asks the stream for it.
    pub observed_intent: CloseIntent,
}

pub open spec fn uplink_healthy(uplink: Result<(), SpliceFault>) -> bool {
    match uplink {
        Ok(_) => true,
        Err(fault) => fault.upstream_healthy,
    }
}

pub open spec fn downlink_healthy(downlink: Result<DownlinkEnd, SpliceFault>) -> bool {
    match downlink {
        Ok(ended) => ended != DownlinkEnd::UpstreamEof,
        Err(fault) => fault.upstream_healthy,
    }
}

/// The fault a splice is blamed on: the uplink's where it has one.
pub open spec fn blamed_fault(
    uplink: Result<(), SpliceFault>,
    downlink: Result<DownlinkEnd, SpliceFault>,
) -> Option<SpliceFault> {
    match uplink {
        Err(fault) => Some(fault),
        Ok(_) => match downlink {
            Err(fault) => Some(fault),
            Ok(_) => None,
        },
    }
}

/// What the two halves add up to: finished exactly when the downlink ran into the
/// upstream's end, done exactly when the downlink heard so, fit for a park exactly
/// when neither half saw the upstream fail, and faulted with the uplink's fault before
/// the downlink's.
pub open spec fn merged(
    uplink: Result<(), SpliceFault>,
    downlink: Result<DownlinkEnd, SpliceFault>,
) -> SpliceOutcome {
    let healthy = uplink_healthy(uplink) && downlink_healthy(downlink);
    SpliceOutcome {
        end: match blamed_fault(uplink, downlink) {
            Some(fault) => SpliceEnd::Faulted {
                reset: fault.reset,
                upstream_healthy: healthy,
                error: fault.error,
            },
            None => SpliceEnd::Graceful { upstream_healthy: healthy },
        },
        stream_finished: downlink == Ok::<DownlinkEnd, SpliceFault>(DownlinkEnd::UpstreamEof),
        observed_intent: if downlink == Ok::<DownlinkEnd, SpliceFault>(DownlinkEnd::ClientDone) {
            CloseIntent::ClientDone
        } else {
            CloseIntent::CarrierEnded
        },
    }
}

/// Merges the ends of the two pumps.
pub fn splice_end(
    uplink: Result<(), SpliceFault>,
    downlink: Result<DownlinkEnd, SpliceFault>,
) -> (out: SpliceOutcome)
    ensures
        out == merged(uplink, downlink),
{
    let stream_finished = match &downlink {
        Ok(DownlinkEnd::UpstreamEof) => true,
        _ => false,
    };
    let observed_intent = match &downlink {
        Ok(DownlinkEnd::ClientDone) => CloseIntent::ClientDone,
        _ => CloseIntent::CarrierEnded,
    };
    let healthy_downlink = match &downlink {
        Ok(DownlinkEnd::Stopped) => true,
        Ok(DownlinkEnd::ClientDone) => true,
        Ok(DownlinkEnd::UpstreamEof) => false,
        Err(fault) => fault.upstream_healthy,
    };
    let end = match uplink {
        Ok(_) => match downlink {
            Ok(_) => SpliceEnd::Graceful { upstream_healthy: true },
            Err(fault) => fault.into_end(),
        },
        Err(fault) => fault.into_end(),
    };
    let end = if healthy_downlink { end } else { end.deny_park() };
    SpliceOutcome { end, stream_finished, observed_intent }
}

/// Whether the stream itself must be asked for the close intent: no pump ran into
/// one, and the answer decides about a park.
pub fn needs_stopped_poll(end: &SpliceEnd, observed: CloseIntent) -> (needed: bool)
    ensures
        needed == (observed == CloseIntent::CarrierEnded && *end == (SpliceEnd::Graceful {
            upstream_healthy: true,
        })),
{
    match (end, observed) {
        (SpliceEnd::Graceful { upstream_healthy: true }, CloseIntent::CarrierEnded) => true,
        _ => false,
    }
}

/// What one look at the stream's stop state shows.
#[derive(Clone, Copy, Debug, PartialEq, Eq, Structural)]
pub enum StoppedPoll {
    /// The peer stopped the stream with this code.
    Stopped(u64),
    /// The stream is closed and nobody stopped it, or it is lost.
    Unstopped,
    /// Nothing is known yet.
    Pending,
}

/// Reads the intent off one look at the stream's stop state.
pub fn poll_close_intent(polled: StoppedPoll) -> (intent: CloseIntent)
    ensures
        intent == CloseIntent::ClientDone <==> polled == StoppedPoll::Stopped(
            CLIENT_DONE_CODE,
        ),
{
    match polled {
        StoppedPoll::Stopped(code) => CloseIntent::from_code(code),
        StoppedPoll::Unstopped => CloseIntent::CarrierEnded,
        StoppedPoll::Pending => CloseIntent::CarrierEnded,
    }
}

/// The intent a splice ends with: what a pump observed, or what the stream says
/// where nobody observed anything and the answer matters.
pub fn resolve_close_intent(
    end: &SpliceEnd,
    observed: CloseIntent,
    polled: StoppedPoll,
) -> (intent: CloseIntent)
    ensures
        intent == CloseIntent::ClientDone <==> (observed == CloseIntent::ClientDone || (*end == (
        SpliceEnd::Graceful { upstream_healthy: true }) && polled == StoppedPoll::Stopped(
            CLIENT_DONE_CODE,
        ))),
{
    if needs_stopped_poll(end, observed) {
        poll_close_intent(polled)
    } else {
        observed
    }
}

// ── Closing a splice ────────────────────────────────────────────────────────

/// What a finished splice asks of its caller.
#[derive(Debug)]
pub struct SpliceClose {
    /// The intent the outcome is recorded under.
    pub intent: CloseIntent,
    /// What is done to the home's half of the mesh stream.
    pub stream: StreamClose,
    /// The session is fit to be parked again.
    pub reparks: bool,
    /// The error the relay ends with.
    pub error: Option<anyhow::Error>,
}

pub open spec fn resolved_intent(outcome: SpliceOutcome, polled: StoppedPoll) -> CloseIntent {
    if outcome.observed_intent == CloseIntent::ClientDone {
        CloseIntent::ClientDone
    } else if outcome.end == (SpliceEnd::Graceful { upstream_healthy: true }) && polled
        == StoppedPoll::Stopped(CLIENT_DONE_CODE) {
        CloseIntent::ClientDone
    } else {
        CloseIntent::CarrierEnded
    }
}

/// What a splice that ended so closes with.
pub open spec fn closing(outcome: SpliceOutcome, polled: StoppedPoll) -> SpliceClose {
    let intent = resolved_intent(outcome, polled);
    SpliceClose {
        intent,
        stream: outcome.end.closes_with(outcome.stream_finished, intent),
        reparks: intent == CloseIntent::CarrierEnded && outcome.end.is_healthy(),
        error: match outcome.end {
            SpliceEnd::Graceful { .. } => None,
            SpliceEnd::Faulted { error, .. } => Some(error),
        },
    }
}

/// Closes a splice: settles the intent, and with it the stream and the park.
pub fn close_splice(outcome: SpliceOutcome, polled: StoppedPoll) -> (close: SpliceClose)
    ensures
        close == closing(outcome, polled),
{
    let intent = resolve_close_intent(&outcome.end, outcome.observed_intent, polled);
    let stream = outcome.end.stream_close(outcome.stream_finished, intent);
    let reparks = outcome.end.reparks(intent);
    let error = match outcome.end {
        SpliceEnd::Graceful { .. } => None,
        SpliceEnd::Faulted { error, .. } => Some(error),
    };
    SpliceClose { intent, stream, reparks, error }
}

// ── Laws ────────────────────────────────────────────────────────────────────

/// A finished stream is never reset, whatever the end and the intent.
pub proof fn law_a_finished_stream_is_never_reset(end: SpliceEnd, intent: CloseIntent)
    ensures
        end.closes_with(true, intent) == StreamClose::Finish,
{
}

/// A failure in mid-splice never reaches the edge as a clean close.
pub proof fn law_a_fault_never_presents_as_a_clean_close(end: SpliceEnd, intent: CloseIntent)
    requires
        end is Faulted,
    ensures
        end.closes_with(false, intent) == StreamClose::Reset(end->reset),
{
}

/// A client that is done leaves no park, and its stream closes with a reason a
/// peer reads as an ordinary end, never with the intent itself.
pub proof fn law_a_done_client_leaves_no_park(outcome: SpliceOutcome, polled: StoppedPoll)
    requires
        closing(outcome, polled).intent == CloseIntent::ClientDone,
    ensures
        !closing(outcome, polled).reparks,
        outcome.end is Graceful && !outcome.stream_finished ==> closing(outcome, polled).stream
            == StreamClose::Reset(CloseReason::Fin),
{
}

/// The stream is asked for the intent exactly where the answer decides about a
/// park: elsewhere no answer changes whether the session is parked.
pub proof fn law_the_stopped_poll_runs_only_where_it_matters(outcome: SpliceOutcome, polled: StoppedPoll)
    ensures
        !(outcome.observed_intent == CloseIntent::CarrierEnded && outcome.end == (
        SpliceEnd::Graceful { upstream_healthy: true })) ==> resolved_intent(outcome, polled)
            == outcome.observed_intent,
        outcome.observed_intent == CloseIntent::CarrierEnded && outcome.end == (
        SpliceEnd::Graceful { upstream_healthy: true }) ==> (resolved_intent(outcome, polled)
            == CloseIntent::CarrierEnded <==> polled != StoppedPoll::Stopped(CLIENT_DONE_CODE)),
{
}

/// A splice is fit for a park exactly when neither pump saw the upstream fail or
/// end, and nobody heard that the client is done.
pub proof fn law_a_splice_parks_iff_both_halves_are_healthy(
    uplink: Result<(), SpliceFault>,
    downlink: Result<DownlinkEnd, SpliceFault>,
    polled: StoppedPoll,
)
    ensures
        closing(merged(uplink, downlink), polled).reparks <==> (uplink_healthy(uplink)
            && downlink_healthy(downlink) && downlink != Ok::<DownlinkEnd, SpliceFault>(
            DownlinkEnd::ClientDone,
        ) && !(uplink is Ok && downlink is Ok && polled == StoppedPoll::Stopped(CLIENT_DONE_CODE))),
{
}

/// What two pumps leave behind, told from what each of them saw. The splice is faulted
/// where either is, with the uplink's fault before the downlink's; its upstream is good
/// where neither saw it break and the downlink did not see it end; its stream is
/// finished where the downlink saw that end; its client is done where the downlink
/// heard so.
pub proof fn law_a_merge_keeps_what_each_half_saw(
    uplink: Result<(), SpliceFault>,
    downlink: Result<DownlinkEnd, SpliceFault>,
    fault: SpliceFault,
    other: SpliceFault,
    ended: DownlinkEnd,
    healthy: bool,
)
    requires
        uplink is Ok || uplink == Err::<(), SpliceFault>(fault),
        downlink == Ok::<DownlinkEnd, SpliceFault>(ended) || downlink == Err::<
            DownlinkEnd,
            SpliceFault,
        >(other),
        healthy == ((uplink is Ok || fault.upstream_healthy) && (if downlink is Ok {
            ended != DownlinkEnd::UpstreamEof
        } else {
            other.upstream_healthy
        })),
    ensures
        uplink is Ok && downlink is Ok ==> merged(uplink, downlink).end == (SpliceEnd::Graceful {
            upstream_healthy: healthy,
        }),
        uplink is Err ==> merged(uplink, downlink).end == (SpliceEnd::Faulted {
            reset: fault.reset,
            upstream_healthy: healthy,
            error: fault.error,
        }),
        uplink is Ok && downlink is Err ==> merged(uplink, downlink).end == (SpliceEnd::Faulted {
            reset: other.reset,
            upstream_healthy: healthy,
            error: other.error,
        }),
        merged(uplink, downlink).stream_finished <==> downlink is Ok && ended
            == DownlinkEnd::UpstreamEof,
        merged(uplink, downlink).observed_intent == CloseIntent::ClientDone <==> downlink is Ok && ended
            == DownlinkEnd::ClientDone,
{
}

/// How the stream is closed tells the edge how the splice went: it is reset exactly
/// where it was not finished and the splice broke, for the reason it broke, or where the
/// client is done, as an ordinary end. Everything else is a finish.
pub proof fn law_a_close_tells_how_it_went(
    end: SpliceEnd,
    stream_finished: bool,
    intent: CloseIntent,
    reason: CloseReason,
)
    ensures
        end.closes_with(stream_finished, intent) == StreamClose::Reset(reason) <==> !stream_finished
            && match end {
            SpliceEnd::Faulted { reset, .. } => reason == reset,
            SpliceEnd::Graceful { .. } => intent == CloseIntent::ClientDone && reason
                == CloseReason::Fin,
        },
{
}

/// Closing a splice, told from its outcome: the client is done where a pump heard so or,
/// after an end in good order with a good upstream, where the stream says so. The
/// session is parked again where the client is not done and the upstream is good. The
/// relay ends with the error that broke the splice, and with none otherwise.
pub proof fn law_a_splice_closes_as_it_ended(
    outcome: SpliceOutcome,
    polled: StoppedPoll,
    upstream_healthy: bool,
    reset: CloseReason,
    error: anyhow::Error,
)
    requires
        outcome.end == (SpliceEnd::Graceful { upstream_healthy }) || outcome.end == (
        SpliceEnd::Faulted { reset, upstream_healthy, error }),
    ensures
        ({
            let close = closing(outcome, polled);
            let done = outcome.observed_intent == CloseIntent::ClientDone || outcome.end is Graceful
                && upstream_healthy && polled == StoppedPoll::Stopped(CLIENT_DONE_CODE);
            &&& close.intent == CloseIntent::ClientDone <==> done
            &&& close.reparks <==> !done && upstream_healthy
            &&& close.error == if outcome.end is Faulted {
                Some(error)
            } else {
                None
            }
            &&& close.stream == StreamClose::Finish <==> outcome.stream_finished || outcome.end
                is Graceful && !done
            &&& outcome.end is Faulted && !outcome.stream_finished ==> close.stream
                == StreamClose::Reset(reset)
        }),
{
}

/// An end that is written off is the same end with a bad upstream, and a fault becomes
/// an end that says all the fault said.
pub proof fn law_a_written_off_end_says_the_rest(fault: SpliceFault, end: SpliceEnd)
    ensures
        !end.without_park().is_healthy(),
        end is Graceful ==> end.without_park() == (SpliceEnd::Graceful { upstream_healthy: false }),
        end matches SpliceEnd::Faulted { reset, error, .. } ==> end.without_park() == (
        SpliceEnd::Faulted { reset, upstream_healthy: false, error }),
        fault.as_end() == (SpliceEnd::Faulted {
            reset: fault.reset,
            upstream_healthy: fault.upstream_healthy,
            error: fault.error,
        }),
        end.is_healthy() <==> (end matches SpliceEnd::Graceful { upstream_healthy }
            && upstream_healthy) || (end matches SpliceEnd::Faulted { upstream_healthy, .. }
            && upstream_healthy),
{
}

/// Whether a client is done is never guessed: a look at the stream says so exactly for the
/// one code, the stream is looked at exactly where the answer decides about a park, and
/// what a pump heard stands whatever the stream says.
pub proof fn law_a_client_is_done_only_where_it_says_so(
    end: SpliceEnd,
    observed: CloseIntent,
    polled: StoppedPoll,
    needed: bool,
    read: CloseIntent,
    intent: CloseIntent,
)
    requires
        call_ensures(needs_stopped_poll, (&end, observed), needed),
        call_ensures(poll_close_intent, (polled,), read),
        call_ensures(resolve_close_intent, (&end, observed, polled), intent),
    ensures
        read == CloseIntent::ClientDone <==> polled == StoppedPoll::Stopped(CLIENT_DONE_CODE),
        needed <==> observed == CloseIntent::CarrierEnded && (
        end matches SpliceEnd::Graceful { upstream_healthy } && upstream_healthy),
        needed ==> intent == read,
        !needed ==> intent == observed,
{
}

/// A session is parked again exactly where its client may come back and its upstream is
/// good.
pub proof fn law_a_good_session_is_parked_again(end: SpliceEnd, intent: CloseIntent, reparks: bool)
    requires
        call_ensures(SpliceEnd::reparks, (&end, intent), reparks),
    ensures
        reparks <==> intent == CloseIntent::CarrierEnded && match end {
            SpliceEnd::Graceful { upstream_healthy } => upstream_healthy,
            SpliceEnd::Faulted { upstream_healthy, .. } => upstream_healthy,
        },
{
}

} // verus!
