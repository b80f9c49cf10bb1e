//! A home's handling of relayed streams, end to end over its machines.

use outline_ss_rust::downlink_ring::DownlinkRing;
use outline_ss_rust::mesh_edge::{open_ack_wait, OpenHeader};
use outline_ss_rust::mesh_pump::{
    downlink_step, uplink_step, ChunkStep, ChunkWrite, DownlinkAction, DownlinkEvent, DownlinkPhase,
    SpliceKind, SplicePair, UplinkAction, UplinkChunk, UplinkEvent, UplinkFault, UplinkPhase,
};
use outline_ss_rust::mesh_run::{begin_splice, step_splice, Collect, SpliceAction, SpliceEvent, SplicePhase};
use outline_ss_rust::mesh_serve::{
    connection_step, listener_step, mesh_shape, park_query, protocol_matches, Accepted, AcceptedStream,
    ConnectionStep, ListenerStep, ParkProbe, ParkQuery, ParkShape, ParkedKind, Refusal, RejectReason,
    RelayOutcome, RelayRequest, ResumeMiss, ServeAction, ServeEvent, ServeRelayed, TcpProtocolContext,
    UserRead,
};
use outline_ss_rust::mesh_session::{
    dispose, splice_prologue, stream_prologue, Disposition, ReplayOutcome, SplicePrologue,
};
use outline_ss_rust::mesh_splice::{DownlinkEnd, SpliceFault, StoppedPoll, StreamClose};
use outline_ss_rust::mesh_wire::{CloseIntent, CloseReason, MeshFraming, MeshProtocol, MeshShape};
use outline_ss_rust::session::SessionId;

const SS_TCP: RelayRequest = RelayRequest { framing: MeshFraming::Tcp, protocol: MeshProtocol::Ss };
const SS_UDP: RelayRequest = RelayRequest { framing: MeshFraming::Udp, protocol: MeshProtocol::Ss };
const VLESS: RelayRequest = RelayRequest { framing: MeshFraming::Tcp, protocol: MeshProtocol::Vless };
const VLESS_UDP: RelayRequest =
    RelayRequest { framing: MeshFraming::Udp, protocol: MeshProtocol::Vless };

fn error(text: &'static str) -> anyhow::Error {
    anyhow::Error::msg(text)
}

/// Runs the serving of a stream up to its last action.
fn serve(request: RelayRequest, enabled: bool, events: &[ServeEvent]) -> (Vec<ServeAction>, ServeAction) {
    let (mut machine, first) = ServeRelayed::begin(request);
    let mut actions = vec![first];
    for event in events {
        actions.push(machine.step(*event, enabled));
    }
    let last = *actions.last().unwrap();
    (actions, last)
}

fn miss(rejected: RejectReason, close: CloseReason, put_back: bool) -> ServeAction {
    ServeAction::Refuse(Refusal { rejected, outcome: RelayOutcome::Miss, close, put_back })
}

fn admitted(shape: ParkShape) -> Vec<ServeEvent> {
    vec![
        ServeEvent::Probed(ParkProbe::Splicable(Some(shape))),
        ServeEvent::AckWritten,
        ServeEvent::User(UserRead::Frame),
        ServeEvent::Probed(ParkProbe::Splicable(Some(shape))),
    ]
}

#[test]
fn a_query_names_what_the_open_can_carry() {
    assert_eq!(park_query(&SS_TCP), Some(ParkQuery::Exact(ParkShape::Stream)));
    assert_eq!(park_query(&SS_UDP), Some(ParkQuery::Exact(ParkShape::Datagram)));
    assert_eq!(park_query(&VLESS), Some(ParkQuery::AnyVless));
    assert_eq!(park_query(&VLESS_UDP), None);
}

#[test]
fn shapes_and_protocols_map() {
    assert_eq!(mesh_shape(ParkShape::Stream), MeshShape::Stream);
    assert_eq!(mesh_shape(ParkShape::Datagram), MeshShape::Datagram);
    assert_eq!(mesh_shape(ParkShape::VlessUdpSingle), MeshShape::VlessUdpSingle);
    assert_eq!(mesh_shape(ParkShape::VlessMux), MeshShape::VlessMux);
    assert!(protocol_matches(MeshProtocol::Ss, TcpProtocolContext::Ss));
    assert!(protocol_matches(MeshProtocol::Vless, TcpProtocolContext::Vless));
    assert!(!protocol_matches(MeshProtocol::Ss, TcpProtocolContext::Vless));
    assert!(!protocol_matches(MeshProtocol::Vless, TcpProtocolContext::Ss));
}

#[test]
fn the_wait_for_an_ack_is_capped() {
    assert_eq!(open_ack_wait(1_000_000_000), 1_000_000_000);
    assert_eq!(open_ack_wait(3_000_000_000), 3_000_000_000);
    assert_eq!(open_ack_wait(3_000_000_001), 3_000_000_000);
    assert_eq!(open_ack_wait(0), 0);
}

#[test]
fn v5_home_refuses_when_no_park_exists() {
    let (actions, last) = serve(SS_TCP, true, &[ServeEvent::Probed(ParkProbe::Missing)]);
    assert_eq!(last, miss(RejectReason::NoSession, CloseReason::NoSession, false));
    assert!(!actions.iter().any(|a| matches!(a, ServeAction::WriteAck(_))));
    assert_eq!(RejectReason::NoSession.label(), "no_session");
    assert_eq!(RelayOutcome::Miss.label(), "miss");
}

#[test]
fn v5_home_refuses_a_park_of_the_wrong_kind() {
    let (actions, last) = serve(SS_TCP, true, &[ServeEvent::Probed(ParkProbe::OtherShape)]);
    assert_eq!(last, miss(RejectReason::ParkShape, CloseReason::NoSession, false));
    assert!(!actions.contains(&ServeAction::Take), "refusing on shape must leave the park");
    assert_eq!(RejectReason::ParkShape.label(), "park_shape");
}

#[test]
fn v5_home_refuses_udp_framing_on_a_byte_stream_park() {
    let (actions, last) = serve(SS_UDP, true, &[ServeEvent::Probed(ParkProbe::OtherShape)]);
    assert_eq!(actions[0], ServeAction::Probe(ParkQuery::Exact(ParkShape::Datagram)));
    assert_eq!(last, miss(RejectReason::ParkShape, CloseReason::NoSession, false));
}

#[test]
fn v5_home_refuses_when_the_user_does_not_own_the_park() {
    let mut events = admitted(ParkShape::Stream);
    events.push(ServeEvent::Missed(ResumeMiss::OwnerMismatch));
    let (actions, last) = serve(SS_TCP, true, &events);
    assert!(actions.contains(&ServeAction::WriteAck(MeshShape::Stream)));
    assert_eq!(last, miss(RejectReason::UnknownUser, CloseReason::NoSession, false));
    assert_eq!(RejectReason::UnknownUser.label(), "unknown_user");

    let mut events = admitted(ParkShape::Stream);
    events.push(ServeEvent::Missed(ResumeMiss::Gone));
    let (_, last) = serve(SS_TCP, true, &events);
    assert_eq!(last, miss(RejectReason::NoSession, CloseReason::NoSession, false));
}

#[test]
fn v5_home_splices_plaintext_to_the_parked_upstream() {
    let mut events = admitted(ParkShape::Stream);
    events.push(ServeEvent::Taken(ParkedKind::Tcp(TcpProtocolContext::Ss)));
    let (actions, last) = serve(SS_TCP, true, &events);
    assert_eq!(last, ServeAction::Splice(SpliceKind::Tcp));
    assert_eq!(
        actions,
        vec![
            ServeAction::Probe(ParkQuery::Exact(ParkShape::Stream)),
            ServeAction::WriteAck(MeshShape::Stream),
            ServeAction::ReadUser,
            ServeAction::Probe(ParkQuery::Exact(ParkShape::Stream)),
            ServeAction::Take,
            ServeAction::Splice(SpliceKind::Tcp),
        ]
    );
}

#[test]
fn v5_home_refuses_a_park_of_another_proxy_protocol() {
    let mut events = admitted(ParkShape::Stream);
    events.push(ServeEvent::Taken(ParkedKind::Tcp(TcpProtocolContext::Ss)));
    let (_, last) = serve(VLESS, true, &events);
    assert_eq!(last, miss(RejectReason::ProtocolMismatch, CloseReason::Abort, false));
    assert_eq!(RejectReason::ProtocolMismatch.label(), "protocol_mismatch");
}

#[test]
fn a_udp_relay_claiming_vless_is_refused() {
    let (_, last) = serve(VLESS_UDP, true, &[]);
    assert_eq!(last, miss(RejectReason::ProtocolMismatch, CloseReason::Abort, false));
    assert_eq!(RejectReason::ProtocolMismatch.label(), "protocol_mismatch");
}

#[test]
fn a_mux_claimed_under_another_protocol_is_put_back() {
    let mut events = admitted(ParkShape::VlessMux);
    events.push(ServeEvent::Taken(ParkedKind::VlessMux));
    let (_, last) = serve(SS_TCP, true, &events);
    assert_eq!(last, miss(RejectReason::ProtocolMismatch, CloseReason::Abort, true));
    let (_, last) = serve(SS_TCP, false, &events);
    assert_eq!(last, miss(RejectReason::ProtocolMismatch, CloseReason::Abort, false));
    let (_, last) = serve(VLESS, true, &events);
    assert_eq!(last, ServeAction::Splice(SpliceKind::VlessMux));
}

#[test]
fn a_park_that_changed_shape_is_put_back() {
    let mut events = admitted(ParkShape::Stream);
    events.push(ServeEvent::Taken(ParkedKind::VlessMux));
    let (_, last) = serve(VLESS, true, &events);
    assert_eq!(last, miss(RejectReason::FramingMismatch, CloseReason::Abort, true));
    assert_eq!(RejectReason::FramingMismatch.label(), "framing_mismatch");
}

#[test]
fn an_unusable_user_frame_is_a_bad_setup() {
    for read in [UserRead::Unusable, UserRead::TimedOut] {
        let (_, last) = serve(
            SS_TCP,
            true,
            &[
                ServeEvent::Probed(ParkProbe::Splicable(None)),
                ServeEvent::AckWritten,
                ServeEvent::User(read),
            ],
        );
        assert!(matches!(
            last,
            ServeAction::Refuse(Refusal {
                rejected: RejectReason::BadSetup,
                outcome: RelayOutcome::Error,
                close: CloseReason::Abort,
                ..
            })
        ));
    }
}

#[test]
fn an_ack_that_cannot_be_written_is_an_error() {
    let (_, last) = serve(
        VLESS,
        true,
        &[ServeEvent::Probed(ParkProbe::Splicable(None)), ServeEvent::AckFailed],
    );
    assert_eq!(last, ServeAction::Fail);
}

#[test]
fn a_park_that_vanished_after_the_ack_is_refused() {
    for (probe, reason) in [
        (ParkProbe::Missing, RejectReason::NoSession),
        (ParkProbe::OtherShape, RejectReason::ParkShape),
    ] {
        let (actions, last) = serve(
            VLESS,
            true,
            &[
                ServeEvent::Probed(ParkProbe::Splicable(Some(ParkShape::VlessMux))),
                ServeEvent::AckWritten,
                ServeEvent::User(UserRead::Frame),
                ServeEvent::Probed(probe),
            ],
        );
        assert_eq!(actions[3], ServeAction::Probe(ParkQuery::Exact(ParkShape::VlessMux)));
        assert_eq!(last, miss(reason, CloseReason::NoSession, false));
    }
}

#[test]
fn relay_streams_past_the_cap_are_refused() {
    assert_eq!(
        connection_step(AcceptedStream::Relay { permit: false }),
        ConnectionStep::Refuse { rejected: RejectReason::Capacity, close: CloseReason::Capacity }
    );
    assert_eq!(connection_step(AcceptedStream::Relay { permit: true }), ConnectionStep::Serve);
    assert_eq!(connection_step(AcceptedStream::StreamFailed), ConnectionStep::Skip);
    assert_eq!(RejectReason::Capacity.label(), "capacity");
}

#[test]
fn a_closed_connection_ends_the_accept_loop() {
    assert_eq!(connection_step(AcceptedStream::ConnectionLost), ConnectionStep::Stop);
    assert_eq!(listener_step(Accepted::Connection), ListenerStep::Serve);
    assert_eq!(listener_step(Accepted::Failed), ListenerStep::Skip);
    assert_eq!(listener_step(Accepted::EndpointClosed), ListenerStep::Stop);
    assert_eq!(listener_step(Accepted::Shutdown), ListenerStep::Stop);
}

#[test]
fn a_cancelled_uplink_chunk_write_counts_only_what_the_socket_took() {
    let (mut chunk, step) = UplinkChunk::begin(8192, 0);
    assert_eq!(step, ChunkStep::Write { from: 0 });
    assert_eq!(chunk.on_write(ChunkWrite::Accepted(3000)), ChunkStep::Write { from: 3000 });
    assert_eq!(chunk.written, 3000, "the socket took a partial chunk");
    assert_eq!(chunk.acked, 3000, "every byte the socket took must be accounted for");
}

#[test]
fn a_session_counts_on_from_chunk_to_chunk() {
    let mut acked = u64::MAX - 1;
    for taken in [[2usize, 1], [3, 0], [1, 4]] {
        let (mut chunk, _) = UplinkChunk::begin(100, acked);
        for n in taken {
            chunk.on_write(ChunkWrite::Accepted(n));
        }
        acked = chunk.acked;
    }
    assert_eq!(acked, 9, "eleven bytes further, round the end of the counter");
}

#[test]
fn a_chunk_ends_done_or_at_fault() {
    let (_, step) = UplinkChunk::begin(0, 9);
    assert_eq!(step, ChunkStep::Done);
    let (mut chunk, _) = UplinkChunk::begin(10, u64::MAX);
    assert_eq!(chunk.on_write(ChunkWrite::Accepted(10)), ChunkStep::Done);
    assert_eq!(chunk.acked, 9, "the count wraps");
    let (mut chunk, _) = UplinkChunk::begin(10, 5);
    assert_eq!(chunk.on_write(ChunkWrite::Accepted(0)), ChunkStep::Fault(UplinkFault::NoProgress));
    assert_eq!(chunk.on_write(ChunkWrite::Failed), ChunkStep::Fault(UplinkFault::Failed));
    assert_eq!(chunk.on_write(ChunkWrite::Stalled), ChunkStep::Fault(UplinkFault::Stalled));
    assert_eq!(chunk.acked, 5);
    let stalled = UplinkFault::Stalled.into_splice_fault(error("stuck"));
    assert_eq!(stalled.reset, CloseReason::Budget);
    assert!(!stalled.upstream_healthy);
    let failed = UplinkFault::NoProgress.into_splice_fault(error("none"));
    assert_eq!(failed.reset, CloseReason::Abort);
}

#[test]
fn a_downlink_stops_only_with_nothing_in_hand() {
    let (phase, action) = downlink_step(SpliceKind::Tcp, DownlinkPhase::Reading, DownlinkEvent::Data(5));
    assert_eq!(action, DownlinkAction::Write { len: 5, remember: true });
    let (phase, action) = downlink_step(SpliceKind::Tcp, phase, DownlinkEvent::Written);
    assert_eq!(action, DownlinkAction::CountAndRead { len: 5 });
    let (phase, action) = downlink_step(SpliceKind::Tcp, phase, DownlinkEvent::Stop);
    assert_eq!(action, DownlinkAction::Return);
    assert!(matches!(phase, DownlinkPhase::Ended(Ok(DownlinkEnd::Stopped))));
}

#[test]
fn a_clean_upstream_eof_still_finishes_the_relay_stream() {
    let (phase, action) = downlink_step(SpliceKind::Tcp, DownlinkPhase::Reading, DownlinkEvent::Data(0));
    assert_eq!(action, DownlinkAction::FinishStream);
    assert!(matches!(phase, DownlinkPhase::Ended(Ok(DownlinkEnd::UpstreamEof))));
    let (_, action) =
        downlink_step(SpliceKind::VlessUdp, DownlinkPhase::Reading, DownlinkEvent::Data(0));
    assert_eq!(action, DownlinkAction::Read, "an empty datagram is not an end");
    let (_, action) =
        downlink_step(SpliceKind::VlessUdp, DownlinkPhase::Reading, DownlinkEvent::WouldBlock);
    assert_eq!(action, DownlinkAction::Read);
}

#[test]
fn a_stopped_downlink_write_tells_the_intent() {
    let writing = || DownlinkPhase::Writing { len: 3 };
    let (phase, _) = downlink_step(
        SpliceKind::Tcp,
        writing(),
        DownlinkEvent::Stopped(0x5002, error("stopped")),
    );
    assert!(matches!(phase, DownlinkPhase::Ended(Ok(DownlinkEnd::ClientDone))));
    let (phase, _) =
        downlink_step(SpliceKind::Tcp, writing(), DownlinkEvent::Stopped(1, error("stopped")));
    assert!(matches!(
        phase,
        DownlinkPhase::Ended(Err(SpliceFault { upstream_healthy: true, reset: CloseReason::Abort, .. }))
    ));
    let (phase, _) = downlink_step(SpliceKind::Tcp, writing(), DownlinkEvent::Stalled(error("slow")));
    assert!(matches!(
        phase,
        DownlinkPhase::Ended(Err(SpliceFault { upstream_healthy: true, reset: CloseReason::Budget, .. }))
    ));
    let (phase, _) =
        downlink_step(SpliceKind::SsUdp, DownlinkPhase::Reading, DownlinkEvent::Closed);
    assert!(matches!(phase, DownlinkPhase::Ended(Ok(DownlinkEnd::Stopped))));
    let (phase, _) =
        downlink_step(SpliceKind::Tcp, DownlinkPhase::Reading, DownlinkEvent::ReadFailed(error("rst")));
    assert!(matches!(phase, DownlinkPhase::Ended(Err(SpliceFault { upstream_healthy: false, .. }))));
}

#[test]
fn an_uplink_counts_and_flushes_by_kind() {
    let (phase, action) = uplink_step(SpliceKind::Tcp, UplinkPhase::Reading, UplinkEvent::Data(4));
    assert_eq!(action, UplinkAction::WriteChunk { len: 4 });
    let (phase, action) = uplink_step(SpliceKind::Tcp, phase, UplinkEvent::Delivered);
    assert_eq!(action, UplinkAction::Read);
    let (phase, _) = uplink_step(SpliceKind::Tcp, phase, UplinkEvent::End);
    assert!(matches!(phase, UplinkPhase::Ended(Ok(()))));

    let (phase, action) = uplink_step(SpliceKind::SsUdp, UplinkPhase::Reading, UplinkEvent::End);
    assert_eq!(action, UplinkAction::Flush);
    let (phase, action) = uplink_step(SpliceKind::SsUdp, phase, UplinkEvent::Flushed);
    assert_eq!(action, UplinkAction::Return);
    assert!(matches!(phase, UplinkPhase::Ended(Ok(()))));

    let (_, action) = uplink_step(SpliceKind::VlessUdp, UplinkPhase::Reading, UplinkEvent::Data(4));
    assert_eq!(action, UplinkAction::CountAndDeliver { len: 4, datagram: true });
    let (phase, action) = uplink_step(SpliceKind::VlessMux, UplinkPhase::Reading, UplinkEvent::Data(4));
    assert_eq!(action, UplinkAction::CountAndDeliver { len: 4, datagram: false });
    let (phase, _) =
        uplink_step(SpliceKind::VlessMux, phase, UplinkEvent::DeliverFailed(error("bad frame")));
    assert!(matches!(phase, UplinkPhase::Ended(Err(SpliceFault { upstream_healthy: false, .. }))));
    let (phase, _) = uplink_step(
        SpliceKind::Tcp,
        UplinkPhase::Reading,
        UplinkEvent::ReadFailed(error("gone")),
    );
    assert!(matches!(phase, UplinkPhase::Ended(Err(SpliceFault { upstream_healthy: true, .. }))));
}

#[test]
fn a_prologue_reports_offsets_and_replays() {
    let prologue = splice_prologue(
        SpliceKind::Tcp,
        true,
        4096,
        true,
        Some(ReplayOutcome::Available(b"-WORLD!".to_vec())),
    );
    assert_eq!(prologue.ack, Some(4096));
    assert_eq!(prologue.replay.as_deref(), Some(&b"-WORLD!"[..]));
    assert!(!prologue.truncated);

    let prologue =
        splice_prologue(SpliceKind::Tcp, false, 7, true, Some(ReplayOutcome::Available(Vec::new())));
    assert_eq!((prologue.ack, prologue.replay, prologue.truncated), (None, None, false));
    let prologue = splice_prologue(SpliceKind::Tcp, false, 7, true, Some(ReplayOutcome::Truncated));
    assert!(prologue.truncated);
    let prologue = splice_prologue(SpliceKind::Tcp, false, 7, true, Some(ReplayOutcome::OffsetAhead));
    assert!(prologue.truncated);
    let prologue = splice_prologue(SpliceKind::Tcp, true, 7, false, Some(ReplayOutcome::Truncated));
    assert_eq!((prologue.ack, prologue.truncated), (Some(7), false));
}

#[test]
fn a_resumed_stream_is_repeated_from_where_the_client_read() {
    let mut ring = DownlinkRing::new(8);
    ring.push(b"hello ");
    ring.push(b"world!");
    let header = |offset, symmetric_replay| OpenHeader {
        framing: MeshFraming::Tcp,
        protocol: MeshProtocol::Ss,
        session_id: SessionId::from_bytes([3; 16]),
        resume_capable: true,
        ack_prefix: true,
        symmetric_replay,
        client_down_acked: offset,
        peer_addr: None,
    };
    let prologue = stream_prologue(&header(7, true), 4096, Some(&ring));
    assert_eq!(prologue.ack, Some(4096));
    assert_eq!(prologue.replay.as_deref(), Some(&b"orld!"[..]));
    assert!(!prologue.truncated);
    let prologue = stream_prologue(&header(12, true), 4096, Some(&ring));
    assert_eq!((prologue.replay, prologue.truncated), (None, false));
    for offset in [3, 13] {
        let prologue = stream_prologue(&header(offset, true), 4096, Some(&ring));
        assert_eq!((prologue.replay, prologue.truncated), (None, true));
    }
    for (asked, held) in [(false, Some(&ring)), (true, None)] {
        let prologue = stream_prologue(&header(7, asked), 4096, held);
        assert_eq!((prologue.replay, prologue.truncated), (None, false));
    }
}

#[test]
fn a_relayed_udp_session_reports_a_zero_acked_offset() {
    let prologue = splice_prologue(SpliceKind::SsUdp, true, 4096, true, None);
    assert_eq!(prologue.ack, Some(0));
    assert!(prologue.replay.is_none());
}

fn no_prologue() -> SplicePrologue {
    SplicePrologue { ack: None, replay: None, truncated: false }
}

#[test]
fn a_splice_that_switches_carriers_is_parked_again() {
    let kind = SpliceKind::Tcp;
    let prologue = SplicePrologue { ack: Some(5), replay: Some(vec![1, 2]), truncated: false };
    let (phase, action) = begin_splice(kind, 1, prologue);
    assert!(matches!(action, SpliceAction::WriteAck(5)));
    let (phase, action) = step_splice(kind, true, phase, SpliceEvent::Written);
    assert!(matches!(action, SpliceAction::WriteReplay(bytes) if bytes == vec![1, 2]));
    let (phase, action) = step_splice(kind, true, phase, SpliceEvent::Written);
    assert!(matches!(action, SpliceAction::Pump { truncated: false, replayed: 2 }));
    let (phase, action) = step_splice(kind, true, phase, SpliceEvent::UplinkEnded(Ok(())));
    assert!(matches!(action, SpliceAction::StopDownlink));
    let (phase, action) =
        step_splice(kind, true, phase, SpliceEvent::DownlinkEnded(Ok(DownlinkEnd::Stopped)));
    assert!(matches!(action, SpliceAction::PollStopped));
    let (phase, action) = step_splice(kind, true, phase, SpliceEvent::Polled(StoppedPoll::Pending));
    assert!(matches!(
        action,
        SpliceAction::Close {
            intent: CloseIntent::CarrierEnded,
            stream: StreamClose::Finish,
            collect: Collect::Nothing,
        }
    ));
    let (phase, action) = step_splice(kind, true, phase, SpliceEvent::Collected(0));
    assert!(matches!(action, SpliceAction::Dispose { to: Disposition::Park, error: None }));
    assert!(matches!(phase, SplicePhase::Done));
}

#[test]
fn an_uplink_fault_after_a_clean_upstream_eof_still_finishes() {
    let kind = SpliceKind::Tcp;
    let (phase, _) = begin_splice(kind, 1, no_prologue());
    let (phase, action) =
        step_splice(kind, true, phase, SpliceEvent::DownlinkEnded(Ok(DownlinkEnd::UpstreamEof)));
    assert!(matches!(action, SpliceAction::PumpUplink));
    let fault = SpliceFault::mesh(error("the client went away"));
    let (phase, action) = step_splice(kind, true, phase, SpliceEvent::UplinkEnded(Err(fault)));
    assert!(matches!(action, SpliceAction::Close { stream: StreamClose::Finish, .. }));
    let (_, action) = step_splice(kind, true, phase, SpliceEvent::Collected(0));
    assert!(matches!(action, SpliceAction::Dispose { to: Disposition::Shutdown, error: Some(_) }));
}

#[test]
fn a_client_done_close_still_drains_the_request_body() {
    let kind = SpliceKind::Tcp;
    let (phase, _) = begin_splice(kind, 1, no_prologue());
    let (phase, action) =
        step_splice(kind, true, phase, SpliceEvent::DownlinkEnded(Ok(DownlinkEnd::ClientDone)));
    assert!(matches!(action, SpliceAction::PumpUplink), "the uplink goes on to its end");
    assert!(matches!(phase, SplicePhase::Pumping(SplicePair::UplinkOnly { .. })));
    let (phase, action) = step_splice(kind, true, phase, SpliceEvent::UplinkEnded(Ok(())));
    assert!(matches!(
        action,
        SpliceAction::Close {
            intent: CloseIntent::ClientDone,
            stream: StreamClose::Reset(CloseReason::Fin),
            ..
        }
    ));
    let (_, action) = step_splice(kind, true, phase, SpliceEvent::Collected(0));
    assert!(matches!(action, SpliceAction::Dispose { to: Disposition::Shutdown, error: None }));
}

#[test]
fn a_failed_splice_does_not_present_as_a_clean_close() {
    let kind = SpliceKind::Tcp;
    let (phase, _) = begin_splice(kind, 1, no_prologue());
    let fault = SpliceFault::upstream(error("rst"));
    let (phase, action) = step_splice(kind, true, phase, SpliceEvent::DownlinkEnded(Err(fault)));
    assert!(matches!(
        action,
        SpliceAction::Close { stream: StreamClose::Reset(CloseReason::Abort), .. }
    ));
    let (_, action) = step_splice(kind, true, phase, SpliceEvent::Collected(0));
    assert!(matches!(action, SpliceAction::Dispose { to: Disposition::Shutdown, error: Some(_) }));
}

#[test]
fn a_mux_whose_downlink_failed_is_never_parked() {
    let kind = SpliceKind::VlessMux;
    let (phase, _) = begin_splice(kind, 2, no_prologue());
    let fault = SpliceFault::mesh(error("gone"));
    let (phase, action) = step_splice(kind, true, phase, SpliceEvent::DownlinkEnded(Err(fault)));
    assert!(matches!(action, SpliceAction::Close { collect: Collect::Nothing, .. }));
    let (_, action) = step_splice(kind, true, phase, SpliceEvent::Collected(0));
    assert!(matches!(action, SpliceAction::Dispose { to: Disposition::Shutdown, .. }));
}

#[test]
fn a_udp_park_with_no_key_for_the_attested_user_is_refused() {
    let (phase, action) = begin_splice(SpliceKind::SsUdp, 0, no_prologue());
    assert!(matches!(phase, SplicePhase::Done));
    assert!(matches!(
        action,
        SpliceAction::Refuse(Refusal {
            rejected: RejectReason::ParkIdentity,
            close: CloseReason::Abort,
            put_back: false,
            ..
        })
    ));
    assert_eq!(RejectReason::ParkIdentity.label(), "park_identity");
    let (_, action) = begin_splice(SpliceKind::VlessMux, 0, no_prologue());
    assert!(matches!(
        action,
        SpliceAction::Refuse(Refusal { rejected: RejectReason::ParkIncomplete, .. })
    ));
    assert_eq!(RejectReason::ParkIncomplete.label(), "park_incomplete");
}

#[test]
fn a_prologue_that_cannot_be_written_gives_up() {
    for (kind, put_back, release_keys) in [
        (SpliceKind::Tcp, false, false),
        (SpliceKind::SsUdp, false, true),
        (SpliceKind::VlessUdp, false, false),
        (SpliceKind::VlessMux, true, false),
    ] {
        let prologue = SplicePrologue { ack: Some(0), replay: None, truncated: false };
        let (phase, _) = begin_splice(kind, 1, prologue);
        let (_, action) = step_splice(kind, true, phase, SpliceEvent::WriteFailed(error("gone")));
        match action {
            SpliceAction::Abandon { failure, .. } => {
                assert_eq!(failure.outcome.label(), "hit");
                assert_eq!(failure.put_back, put_back);
                assert_eq!(failure.release_keys, release_keys);
            },
            _ => panic!("a failed prologue abandons the splice"),
        }
    }
}

#[test]
fn sessions_go_where_their_kind_says() {
    assert_eq!(dispose(SpliceKind::Tcp, true, true, 0), Disposition::Park);
    assert_eq!(dispose(SpliceKind::Tcp, true, false, 0), Disposition::Shutdown);
    assert_eq!(dispose(SpliceKind::SsUdp, true, true, 0), Disposition::Forget);
    assert_eq!(dispose(SpliceKind::SsUdp, true, true, 1), Disposition::Park);
    assert_eq!(dispose(SpliceKind::VlessUdp, false, true, 0), Disposition::Forget);
    assert_eq!(dispose(SpliceKind::VlessUdp, true, true, 0), Disposition::Park);
    assert_eq!(dispose(SpliceKind::VlessMux, true, true, 0), Disposition::Forget);
    assert_eq!(dispose(SpliceKind::VlessMux, true, true, 3), Disposition::Park);
    assert_eq!(dispose(SpliceKind::VlessMux, false, true, 3), Disposition::Shutdown);
}

#[test]
fn a_mux_hands_its_connections_over_before_it_is_parked() {
    let kind = SpliceKind::VlessMux;
    let (phase, _) = begin_splice(kind, 1, no_prologue());
    let (phase, _) = step_splice(kind, true, phase, SpliceEvent::UplinkEnded(Ok(())));
    let (phase, _) =
        step_splice(kind, true, phase, SpliceEvent::DownlinkEnded(Ok(DownlinkEnd::Stopped)));
    let (phase, action) = step_splice(kind, true, phase, SpliceEvent::Polled(StoppedPoll::Unstopped));
    assert!(matches!(action, SpliceAction::Close { collect: Collect::Harvest, .. }));
    let (_, action) = step_splice(kind, true, phase, SpliceEvent::Collected(2));
    assert!(matches!(action, SpliceAction::Dispose { to: Disposition::Park, .. }));
}
