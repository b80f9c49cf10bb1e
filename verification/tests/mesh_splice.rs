//! How a splice ends, and what that does to the stream and the park.

use outline_ss_rust::mesh_splice::{
    close_splice, needs_stopped_poll, poll_close_intent, resolve_close_intent, splice_end, DownlinkEnd,
    SpliceEnd, SpliceFault, StoppedPoll, StreamClose,
};
use outline_ss_rust::mesh_wire::{CloseIntent, CloseReason, CLIENT_DONE_CODE};

fn error(text: &'static str) -> anyhow::Error {
    anyhow::Error::msg(text)
}

#[test]
fn a_finished_stream_is_never_reset() {
    let switch = CloseIntent::CarrierEnded;

    let faulted = SpliceFault::mesh(error("the edge carrier died")).into_end();
    assert_eq!(faulted.stream_close(false, switch), StreamClose::Reset(CloseReason::Abort));
    assert_eq!(faulted.stream_close(true, switch), StreamClose::Finish);

    let stalled = SpliceFault::stalled_mesh(error("the edge wedged")).into_end();
    assert_eq!(stalled.stream_close(false, switch), StreamClose::Reset(CloseReason::Budget));
    assert_eq!(stalled.stream_close(true, switch), StreamClose::Finish);

    let graceful = SpliceEnd::Graceful { upstream_healthy: true };
    assert_eq!(graceful.stream_close(false, switch), StreamClose::Finish);
    assert_eq!(graceful.stream_close(true, switch), StreamClose::Finish);
}

#[test]
fn a_client_done_close_never_puts_an_intent_code_on_the_wire() {
    let graceful = SpliceEnd::Graceful { upstream_healthy: true };
    assert_eq!(
        graceful.stream_close(false, CloseIntent::ClientDone),
        StreamClose::Reset(CloseReason::Fin),
        "a stopped half must be closed explicitly, not left to quinn's drop",
    );
    assert_eq!(
        graceful.stream_close(false, CloseIntent::CarrierEnded),
        StreamClose::Finish,
        "a bare carrier switch still ends with a plain FIN",
    );
    assert_eq!(graceful.stream_close(true, CloseIntent::ClientDone), StreamClose::Finish);
}

#[test]
fn the_stopped_poll_runs_only_where_it_is_both_needed_and_reaped() {
    let healthy = SpliceEnd::Graceful { upstream_healthy: true };
    assert!(
        needs_stopped_poll(&healthy, CloseIntent::CarrierEnded),
        "a bare-FIN switch with a live upstream is the case the intent exists for",
    );
    assert!(
        !needs_stopped_poll(&healthy, CloseIntent::ClientDone),
        "the downlink pump already saw the intent; asking again only leaks",
    );
    assert!(
        !needs_stopped_poll(
            &SpliceEnd::Graceful { upstream_healthy: false },
            CloseIntent::CarrierEnded,
        ),
        "an EOF'd upstream never reparks, and its send half is already finished",
    );
    for faulted in [
        SpliceFault::mesh(error("the edge carrier died")).into_end(),
        SpliceFault::stalled_mesh(error("the edge wedged")).into_end(),
        SpliceFault::upstream(error("rst")).into_end(),
        SpliceFault::stalled_upstream(error("stuck")).into_end(),
    ] {
        assert!(
            !needs_stopped_poll(&faulted, CloseIntent::CarrierEnded),
            "a faulted relay is reset, so an entry inserted here is never reaped",
        );
    }
}

#[test]
fn a_splice_end_merges_both_halves() {
    assert!(matches!(
        splice_end(Ok(()), Ok(DownlinkEnd::Stopped)).end,
        SpliceEnd::Graceful { upstream_healthy: true },
    ));
    assert!(matches!(
        splice_end(Ok(()), Ok(DownlinkEnd::UpstreamEof)).end,
        SpliceEnd::Graceful { upstream_healthy: false },
    ));
    assert!(matches!(
        splice_end(Err(SpliceFault::mesh(error("gone"))), Ok(DownlinkEnd::Stopped)).end,
        SpliceEnd::Faulted {
            upstream_healthy: true,
            reset: CloseReason::Abort,
            ..
        },
    ));
    assert!(matches!(
        splice_end(Err(SpliceFault::mesh(error("gone"))), Ok(DownlinkEnd::UpstreamEof)).end,
        SpliceEnd::Faulted { upstream_healthy: false, .. },
    ));
    assert!(matches!(
        splice_end(Ok(()), Err(SpliceFault::upstream(error("rst")))).end,
        SpliceEnd::Faulted {
            upstream_healthy: false,
            reset: CloseReason::Abort,
            ..
        },
    ));
}

#[test]
fn a_splice_end_carries_what_the_pumps_observed() {
    let eofed = splice_end(Ok(()), Ok(DownlinkEnd::UpstreamEof));
    assert!(eofed.stream_finished, "only an upstream EOF finishes the stream");
    assert_eq!(eofed.observed_intent, CloseIntent::CarrierEnded);

    let done = splice_end(Ok(()), Ok(DownlinkEnd::ClientDone));
    assert!(!done.stream_finished);
    assert_eq!(
        done.observed_intent,
        CloseIntent::ClientDone,
        "a downlink write that failed with STOP_SENDING(ClientDone) already proves the intent",
    );
    assert!(
        !done.end.reparks(done.observed_intent),
        "a finished client's session must not go back into the registry",
    );

    let switched = splice_end(Ok(()), Ok(DownlinkEnd::Stopped));
    assert!(!switched.stream_finished);
    assert_eq!(switched.observed_intent, CloseIntent::CarrierEnded);

    let broken = splice_end(Ok(()), Err(SpliceFault::upstream(error("rst"))));
    assert!(!broken.stream_finished);
    assert_eq!(broken.observed_intent, CloseIntent::CarrierEnded);
}

#[test]
fn a_client_done_close_never_reparks() {
    let healthy = SpliceEnd::Graceful { upstream_healthy: true };
    assert!(healthy.reparks(CloseIntent::CarrierEnded));
    assert!(!healthy.reparks(CloseIntent::ClientDone));

    let eofed = SpliceEnd::Graceful { upstream_healthy: false };
    assert!(!eofed.reparks(CloseIntent::CarrierEnded));
    assert!(!eofed.reparks(CloseIntent::ClientDone));

    let mesh_fault = SpliceFault::mesh(error("the edge carrier died")).into_end();
    assert!(mesh_fault.reparks(CloseIntent::CarrierEnded));
    assert!(!mesh_fault.reparks(CloseIntent::ClientDone));

    let broken = SpliceFault::upstream(error("rst")).into_end();
    assert!(!broken.reparks(CloseIntent::CarrierEnded));
    assert!(!broken.reparks(CloseIntent::ClientDone));
}

#[test]
fn a_stop_code_is_read_as_an_intent() {
    assert_eq!(CLIENT_DONE_CODE, 0x5002);
    assert_eq!(CloseIntent::from_code(0x5002), CloseIntent::ClientDone);
    assert_eq!(CloseIntent::from_code(0), CloseIntent::CarrierEnded);
    assert_eq!(CloseIntent::from_code(0x5003), CloseIntent::CarrierEnded);
    assert_eq!(poll_close_intent(StoppedPoll::Stopped(0x5002)), CloseIntent::ClientDone);
    assert_eq!(poll_close_intent(StoppedPoll::Stopped(7)), CloseIntent::CarrierEnded);
    assert_eq!(poll_close_intent(StoppedPoll::Pending), CloseIntent::CarrierEnded);
    assert_eq!(poll_close_intent(StoppedPoll::Unstopped), CloseIntent::CarrierEnded);
    assert_eq!(CloseIntent::ClientDone.metric_label(), "client_done");
    assert_eq!(CloseIntent::CarrierEnded.metric_label(), "carrier_ended");
}

#[test]
fn the_stream_is_believed_only_where_it_was_asked() {
    let healthy = SpliceEnd::Graceful { upstream_healthy: true };
    let done = StoppedPoll::Stopped(CLIENT_DONE_CODE);
    assert_eq!(
        resolve_close_intent(&healthy, CloseIntent::CarrierEnded, done),
        CloseIntent::ClientDone
    );
    let faulted = SpliceFault::upstream(error("rst")).into_end();
    assert_eq!(
        resolve_close_intent(&faulted, CloseIntent::CarrierEnded, done),
        CloseIntent::CarrierEnded
    );
}

#[test]
fn closing_a_splice_settles_stream_and_park() {
    let close = close_splice(splice_end(Ok(()), Ok(DownlinkEnd::Stopped)), StoppedPoll::Pending);
    assert_eq!(close.intent, CloseIntent::CarrierEnded);
    assert_eq!(close.stream, StreamClose::Finish);
    assert!(close.reparks);
    assert!(close.error.is_none());

    let close = close_splice(
        splice_end(Ok(()), Ok(DownlinkEnd::Stopped)),
        StoppedPoll::Stopped(CLIENT_DONE_CODE),
    );
    assert_eq!(close.intent, CloseIntent::ClientDone);
    assert_eq!(close.stream, StreamClose::Reset(CloseReason::Fin));
    assert!(!close.reparks);

    let close = close_splice(
        splice_end(Err(SpliceFault::stalled_upstream(error("stuck"))), Ok(DownlinkEnd::Stopped)),
        StoppedPoll::Pending,
    );
    assert_eq!(close.stream, StreamClose::Reset(CloseReason::Budget));
    assert!(!close.reparks);
    assert_eq!(close.error.map(|e| e.to_string()), Some("stuck".to_string()));
}
