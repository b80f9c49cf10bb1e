//! VLESS carriers: frames, establishing, muxes, parking.

use outline_ss_rust::downlink_ring::DownlinkRing;
use outline_ss_rust::greedy_reader::{
    datagram_reader_step, reader_step, DatagramReaderAction, DatagramReaderEvent, ReaderAction, ReaderEnd, ReaderEvent,
    ReaderKind, ReaderPhase,
};
use outline_ss_rust::mesh_session::ReplayOutcome;
use outline_ss_rust::mesh_wire::MeshShape;
use outline_ss_rust::nat_keys::Endpoint;
use outline_ss_rust::resume_headers::ResumeContext;
use outline_ss_rust::session::SessionId;
use outline_ss_rust::vless_establish::{
    EstablishAction, EstablishEvent, EstablishPhase, EstablishRequest,
};
use outline_ss_rust::vless_mux::{
    attach_parked, mux_upstream, on_udp_resolved, resolve_packet_addr, MuxAccounting, MuxRouteCtx,
    MuxServerCtx, MuxState, MuxUser, OpenSubStep, PacketTarget, ParkedVlessMux, SubConnKind,
};
use outline_ss_rust::vless_relay::{
    release_mesh_upstream, shutdown_unparked, FatalReason, FrameAction, HeaderParse, MeshAttachKind,
    MuxTaken, ParkStep, ParkedTcpFacts, RingPlan, ShutdownStep, TcpHarvest, TcpPark, TcpTaken,
    TruncateReason, VlessAction, VlessCommand, VlessEvent, VlessFrameError, VlessLoop, VlessRelay,
    VlessUpstream,
};

fn id(byte: u8) -> SessionId {
    SessionId::from_bytes([byte; 16])
}

fn context(resume: Option<u8>, replay: bool) -> ResumeContext {
    ResumeContext {
        requested_resume: resume.map(id),
        issued_session_id: Some(id(2)),
        ack_prefix_requested: true,
        symmetric_replay_requested: replay,
        client_acked_offset: 0,
    }
}

fn request() -> EstablishRequest {
    EstablishRequest { user: "alice".to_string(), consumed: 3, ring_capacity: 16 }
}

fn relay_with(resume: Option<u8>, replay: bool, mesh: Option<MeshShape>) -> VlessRelay {
    let mut state = VlessRelay::new(&context(resume, replay), mesh);
    assert_eq!(state.on_binary(&b"HDR".to_vec()), FrameAction::ParseHeader);
    assert_eq!(state.on_binary(&b"body".to_vec()), FrameAction::ParseHeader);
    state
}

#[test]
fn a_header_is_gathered_until_it_is_whole() {
    let mut state = relay_with(None, false, None);
    assert_eq!(state.header_buffer, b"HDRbody");
    assert_eq!(state.on_header(HeaderParse::Incomplete, 7), Ok(None));
    assert_eq!(
        state.on_header(HeaderParse::Incomplete, 6),
        Err(VlessFrameError::Fatal(FatalReason::HeaderTooLarge))
    );
    assert_eq!(
        state.on_header(HeaderParse::UnsupportedCommand, 6),
        Err(VlessFrameError::Fatal(FatalReason::UnsupportedCommand))
    );
    assert_eq!(
        state.on_header(HeaderParse::Malformed, 6),
        Err(VlessFrameError::Fatal(FatalReason::Malformed))
    );
    assert_eq!(
        state.on_header(HeaderParse::Request(VlessCommand::Mux), 0),
        Ok(Some(VlessCommand::Mux))
    );
    assert_eq!(
        state.on_user(VlessCommand::Tcp, false),
        Err(VlessFrameError::Fatal(FatalReason::UnknownUser))
    );
}

#[test]
fn a_relay_is_given_up_where_it_cannot_carry_the_command() {
    let mut state = relay_with(None, false, Some(MeshShape::VlessMux));
    assert_eq!(state.on_user(VlessCommand::Mux, true), Ok(false));
    assert_eq!(state.mesh_upstream, Some(MeshShape::VlessMux));
    assert_eq!(state.on_user(VlessCommand::Tcp, true), Ok(true));
    assert_eq!(state.mesh_upstream, None);
    assert!(!release_mesh_upstream(&mut state));
}

#[test]
fn a_fresh_tcp_session_connects_and_writes_its_leftover() {
    let mut state = relay_with(None, true, None);
    let request = request();
    let (phase, action) = request.begin(&mut state, MeshAttachKind::Tcp);
    assert!(matches!(action, EstablishAction::Connect));
    let (phase, action, _) = request.step(&mut state, phase, EstablishEvent::Connected);
    assert!(matches!(action, EstablishAction::QueueHeader { padded: true, cross_protocol: false }));
    let (phase, action, leftover) = request.step(&mut state, phase, EstablishEvent::Queued);
    assert!(matches!(
        action,
        EstablishAction::Start {
            upstream: VlessUpstream::Tcp { mesh: false },
            ring: RingPlan::Create,
            records_session: true,
            counted: 4,
        }
    ));
    assert_eq!(leftover, b"body");
    assert!(state.has_ring && state.has_counters && state.header_buffer.is_empty());
    let (phase, action, _) = request.step(&mut state, phase, EstablishEvent::LeftoverWritten(true));
    assert!(matches!(action, EstablishAction::Finish));
    assert!(matches!(phase, EstablishPhase::Done));
    assert_eq!(state.upstream_bytes_acked, 4);
    assert_eq!(state.on_binary(&vec![1]), FrameAction::WriteTcp { count: true });
    assert_eq!(state.on_written(1, true), Ok(()));
    assert_eq!(state.upstream_bytes_acked, 5);
    assert_eq!(
        state.on_written(1, false),
        Err(VlessFrameError::Fatal(FatalReason::WriteFailed))
    );
    assert_eq!(state.upstream_bytes_acked, 5);
}

#[test]
fn a_connect_that_fails_asks_for_another_try() {
    let mut state = relay_with(None, false, None);
    let request = request();
    let (phase, _) = request.begin(&mut state, MeshAttachKind::Tcp);
    let (_, action, _) = request.step(&mut state, phase, EstablishEvent::ConnectFailed);
    assert!(matches!(action, EstablishAction::Fail(VlessFrameError::UpstreamConnectFailed)));
}

#[test]
fn a_resumed_tcp_session_is_told_offset_and_replay_in_order() {
    let mut state = relay_with(Some(1), true, None);
    let request = request();
    let (phase, action) = request.begin(&mut state, MeshAttachKind::Tcp);
    assert!(matches!(action, EstablishAction::Take(taken) if taken == id(1)));
    assert_eq!(state.pending_resume, None);
    let parked = ParkedTcpFacts {
        vless: false,
        acked: 100,
        ring: Some(ReplayOutcome::Available(b"tail".to_vec())),
    };
    let (phase, action, _) =
        request.step(&mut state, phase, EstablishEvent::TcpTaken(TcpTaken::Parked(parked)));
    assert!(matches!(action, EstablishAction::QueueHeader { padded: true, cross_protocol: true }));
    assert_eq!(state.upstream_bytes_acked, 0);
    let (phase, action, _) = request.step(&mut state, phase, EstablishEvent::Queued);
    assert!(matches!(action, EstablishAction::QueueAck(100)));
    assert_eq!(state.upstream_bytes_acked, 100, "the count is taken over behind the header");
    let (phase, action, _) = request.step(&mut state, phase, EstablishEvent::Queued);
    assert!(matches!(action, EstablishAction::QueueReplay(Ok(bytes)) if bytes == b"tail"));
    let (_, action, leftover) = request.step(&mut state, phase, EstablishEvent::Queued);
    assert!(matches!(
        action,
        EstablishAction::Start { ring: RingPlan::Parked, records_session: false, counted: 4, .. }
    ));
    assert_eq!(leftover, b"body");
    assert_eq!(state.upstream_bytes_acked, 100, "the session goes on counting where it was parked");
}

#[test]
fn a_replay_starts_where_the_client_has_read_to() {
    let mut ring = DownlinkRing::new(8);
    ring.push(b"hello ");
    ring.push(b"world!");
    for (offset, replay) in [
        (6, Ok(b"world!".to_vec())),
        (12, Ok(Vec::new())),
        (3, Err(TruncateReason::Evicted)),
        (13, Err(TruncateReason::ClientAhead)),
    ] {
        let mut resume = context(Some(1), true);
        resume.client_acked_offset = offset;
        let state = VlessRelay::new(&resume, None);
        let facts = state.parked_tcp_facts(true, 5, Some(&ring));
        assert_eq!((facts.vless, facts.acked), (true, 5));
        assert_eq!(state.plan_tcp_resume(facts, 16).replay, Some(replay));
    }
    let state = relay_with(Some(1), true, None);
    let facts = state.parked_tcp_facts(false, 9, None);
    assert!(facts.ring.is_none() && !facts.vless && facts.acked == 9);
}

#[test]
fn a_replay_that_cannot_be_had_says_why() {
    for (ring, reason, label, plan) in [
        (None, TruncateReason::NoRing, "no_ring", RingPlan::Create),
        (Some(ReplayOutcome::Truncated), TruncateReason::Evicted, "evicted", RingPlan::Parked),
        (
            Some(ReplayOutcome::OffsetAhead),
            TruncateReason::ClientAhead,
            "client_ahead",
            RingPlan::Parked,
        ),
    ] {
        let state = relay_with(Some(1), true, None);
        let resume = state.plan_tcp_resume(ParkedTcpFacts { vless: true, acked: 5, ring }, 16);
        assert_eq!(resume.replay, Some(Err(reason)));
        assert_eq!(resume.ring, plan);
        assert_eq!(resume.ack, Some(5));
        assert!(!resume.cross_protocol);
        assert_eq!(reason.label(), label);
    }
    let state = relay_with(Some(1), true, None);
    let none = ParkedTcpFacts { vless: true, acked: 5, ring: None };
    assert_eq!(state.plan_tcp_resume(none, 0).ring, RingPlan::Without);
    let state = relay_with(Some(1), false, None);
    let none = ParkedTcpFacts { vless: true, acked: 5, ring: None };
    let resume = state.plan_tcp_resume(none, 16);
    assert_eq!((resume.replay, resume.ring), (None, RingPlan::Unchanged));
}

#[test]
fn a_relayed_session_goes_to_the_home() {
    for (kind, ack, records) in [(MeshAttachKind::Tcp, true, true), (MeshAttachKind::Mux, false, false)] {
        let mut state = relay_with(Some(1), false, Some(MeshShape::Stream));
        let request = request();
        let (phase, action) = request.begin(&mut state, kind);
        assert!(matches!(action, EstablishAction::AttachMesh(asked) if asked == kind));
        assert_eq!(state.pending_resume, Some(id(1)), "the local registry is not consulted");
        let (phase, action, _) =
            request.step(&mut state, phase, EstablishEvent::Attached { upstream_acked: 9 });
        assert!(matches!(action, EstablishAction::QueueHeader { padded: true, .. }));
        let (mut phase, mut action, _) = request.step(&mut state, phase, EstablishEvent::Queued);
        if ack {
            assert!(matches!(action, EstablishAction::QueueAck(9)));
            (phase, action, _) = request.step(&mut state, phase, EstablishEvent::Queued);
        }
        assert!(matches!(
            action,
            EstablishAction::Start { upstream: VlessUpstream::Tcp { mesh: true }, records_session, .. }
                if records_session == records
        ));
        let (_, action, _) = request.step(&mut state, phase, EstablishEvent::LeftoverWritten(false));
        assert!(matches!(action, EstablishAction::Fail(VlessFrameError::UpstreamConnectFailed)));
    }
    let mut state = relay_with(None, false, Some(MeshShape::Stream));
    let request = request();
    let (phase, _) = request.begin(&mut state, MeshAttachKind::Tcp);
    let (_, action, _) = request.step(&mut state, phase, EstablishEvent::AttachFailed);
    assert!(matches!(action, EstablishAction::Fail(VlessFrameError::UpstreamConnectFailed)));
}

#[test]
fn a_mux_is_resumed_or_started_but_never_from_another_kind() {
    let mut state = relay_with(Some(1), false, None);
    let request = request();
    let (phase, _) = request.begin(&mut state, MeshAttachKind::Mux);
    let (phase, action, _) =
        request.step(&mut state, phase, EstablishEvent::MuxTaken(MuxTaken::ParkedMux));
    assert!(matches!(action, EstablishAction::QueueHeader { padded: false, .. }));
    let (_, action, _) = request.step(&mut state, phase, EstablishEvent::QueueFailed);
    assert!(matches!(
        action,
        EstablishAction::Fail(VlessFrameError::Fatal(FatalReason::QueueFailed))
    ));

    let mut state = relay_with(Some(1), false, None);
    let (phase, _) = request.begin(&mut state, MeshAttachKind::Mux);
    let (_, action, _) =
        request.step(&mut state, phase, EstablishEvent::MuxTaken(MuxTaken::ParkedOtherwise));
    assert!(matches!(
        action,
        EstablishAction::Fail(VlessFrameError::Fatal(FatalReason::CrossShapeResume))
    ));

    let mut state = relay_with(None, false, None);
    let (phase, action) = request.begin(&mut state, MeshAttachKind::Mux);
    assert!(matches!(action, EstablishAction::QueueHeader { padded: false, .. }));
    let (phase, action, leftover) = request.step(&mut state, phase, EstablishEvent::Queued);
    assert!(matches!(action, EstablishAction::Start { upstream: VlessUpstream::Mux, counted: 0, .. }));
    assert_eq!(leftover, b"body");
    assert_eq!(state.upstream, VlessUpstream::Nowhere, "a new mux takes the leftover first");
    assert_eq!(state.authenticated_user.as_deref(), Some("alice"));
    let (_, action, _) = request.step(&mut state, phase, EstablishEvent::LeftoverWritten(false));
    assert!(matches!(action, EstablishAction::Fail(VlessFrameError::Fatal(FatalReason::MuxFailed))));
    assert_eq!(state.upstream, VlessUpstream::Nowhere);

    for (taken, before) in
        [(MuxTaken::ParkedMux, VlessUpstream::Mux), (MuxTaken::Missed, VlessUpstream::Nowhere)]
    {
        let mut state = relay_with(Some(1), false, None);
        let (phase, _) = request.begin(&mut state, MeshAttachKind::Mux);
        let (phase, _, _) = request.step(&mut state, phase, EstablishEvent::MuxTaken(taken));
        let (phase, _, _) = request.step(&mut state, phase, EstablishEvent::Queued);
        assert_eq!(state.upstream, before);
        let (_, action, _) = request.step(&mut state, phase, EstablishEvent::LeftoverWritten(true));
        assert!(matches!(action, EstablishAction::Finish));
        assert_eq!(state.upstream, VlessUpstream::Mux);
        assert_eq!(state.upstream_bytes_acked, 0);
        assert_eq!(state.on_fed(true), Ok(()));
        assert_eq!(state.on_fed(false), Err(VlessFrameError::Fatal(FatalReason::MuxFailed)));
    }
}

fn running(upstream: VlessUpstream) -> VlessRelay {
    let mut state = relay_with(None, false, None);
    state.install(upstream, "alice".to_string(), 3);
    state.upstream_bytes_acked = 77;
    state.has_ring = true;
    state
}

#[test]
fn a_tcp_upstream_is_parked_whole_or_shut_down() {
    let mut state = running(VlessUpstream::Tcp { mesh: false });
    assert!(matches!(state.begin_park(true), ParkStep::Harvest(under) if under == id(2)));
    match state.try_park_vless_tcp(TcpHarvest::Reader, true) {
        TcpPark::Park { owner, acked, ring } => {
            assert_eq!((owner.as_str(), acked, ring), ("alice", 77, true));
        },
        TcpPark::Shutdown => panic!("everything is there to park"),
    }
    assert!(!state.has_ring && !state.has_counters);
    assert_eq!(state.authenticated_user.as_deref(), Some("alice"));
    assert_eq!(shutdown_unparked(&mut state, true), ShutdownStep::Nothing);

    for harvest in [
        TcpHarvest::Mesh,
        TcpHarvest::Closed,
        TcpHarvest::UdpCancelled,
        TcpHarvest::Failed,
        TcpHarvest::Panicked,
    ] {
        let mut state = running(VlessUpstream::Tcp { mesh: false });
        assert!(matches!(state.try_park_vless_tcp(harvest, true), TcpPark::Shutdown));
        assert!(state.has_ring && state.has_counters);
    }
    let mut state = running(VlessUpstream::Tcp { mesh: false });
    assert!(matches!(state.try_park_vless_tcp(TcpHarvest::Reader, false), TcpPark::Shutdown));
}

#[test]
fn an_edge_never_parks_what_is_the_homes() {
    for upstream in [VlessUpstream::Tcp { mesh: true }, VlessUpstream::Udp { mesh: true }] {
        let mut state = running(upstream);
        assert!(matches!(state.begin_park(true), ParkStep::Skip));
        assert_eq!(state.upstream, upstream, "the upstream is left to be shut down");
    }
    let mut state = running(VlessUpstream::Tcp { mesh: true });
    assert_eq!(shutdown_unparked(&mut state, false), ShutdownStep::Tcp);
    let mut state = running(VlessUpstream::Udp { mesh: true });
    assert_eq!(shutdown_unparked(&mut state, false), ShutdownStep::Udp);
    let mut state = running(VlessUpstream::Mux);
    assert!(matches!(state.begin_park(false), ParkStep::Skip));
    assert_eq!(shutdown_unparked(&mut state, false), ShutdownStep::Mux);
    assert_eq!(shutdown_unparked(&mut state, false), ShutdownStep::Nothing);
}

#[test]
fn udp_and_mux_upstreams_are_parked_for_their_user() {
    let mut state = running(VlessUpstream::Udp { mesh: false });
    assert_eq!(state.on_forwarded(true), Ok(()));
    assert_eq!(
        state.on_forwarded(false),
        Err(VlessFrameError::Fatal(FatalReason::WriteFailed))
    );
    assert_eq!(state.try_park_vless_udp_single(false, true), None);
    assert_eq!(state.try_park_vless_udp_single(true, false), None);
    assert_eq!(state.try_park_vless_udp_single(true, true).as_deref(), Some("alice"));
    assert_eq!(state.try_park_vless_udp_single(true, true), None, "its counters are gone");
    let state = running(VlessUpstream::Mux);
    assert_eq!(state.try_park_vless_mux(true, 0), None);
    assert_eq!(state.try_park_vless_mux(false, 1), None);
    assert_eq!(state.try_park_vless_mux(true, 1).as_deref(), Some("alice"));
}

#[test]
fn the_carrier_loop_leaves_rejects_or_goes_on() {
    let ws = VlessLoop { padded: true, h3: false, pong_deadline_ms: 100 };
    assert_eq!(ws.step(VlessEvent::Binary { decoded: 0 }), VlessAction::Read);
    assert_eq!(ws.step(VlessEvent::Binary { decoded: 1 }), VlessAction::HandleFrame);
    assert_eq!(ws.step(VlessEvent::Ping), VlessAction::QueuePong);
    assert_eq!(ws.step(VlessEvent::Tick { idle_ms: 100 }), VlessAction::QueuePing);
    assert_eq!(
        ws.step(VlessEvent::Tick { idle_ms: 101 }),
        VlessAction::Leave { carrier_failed: false, deadline: true }
    );
    assert_eq!(
        ws.step(VlessEvent::ReadFailed),
        VlessAction::Leave { carrier_failed: true, deadline: false },
        "a carrier that died is parked like one that closed"
    );
    assert_eq!(
        ws.step(VlessEvent::FrameFailed(VlessFrameError::UpstreamConnectFailed)),
        VlessAction::Reject { try_again: true, read_out: false }
    );
    assert_eq!(
        ws.step(VlessEvent::FrameFailed(VlessFrameError::Fatal(FatalReason::Malformed))),
        VlessAction::Reject { try_again: false, read_out: true }
    );
    assert_eq!(ws.step(VlessEvent::Text), VlessAction::Abort);
    assert_eq!(ws.step(VlessEvent::PongFailed), VlessAction::Abort);
    let h3 = VlessLoop { h3: true, ..ws };
    assert_eq!(h3.step(VlessEvent::Tick { idle_ms: 101 }), VlessAction::Read);
    let plain = VlessLoop { padded: false, ..ws };
    assert_eq!(plain.step(VlessEvent::Binary { decoded: 0 }), VlessAction::HandleFrame);
}

fn endpoint(port: u16) -> Endpoint {
    Endpoint::V4 { ip: 0x7f00_0001, port }
}

fn mux_user() -> MuxUser {
    MuxUser { label: "alice".to_string(), fwmark: Some(4) }
}

#[test]
fn every_connection_of_a_mux_is_resumed() {
    let parked = ParkedVlessMux {
        user: mux_user(),
        user_counters: "alice".to_string(),
        buffer: b"half a fra".to_vec(),
        sub_conns: vec![
            (3, SubConnKind::Tcp),
            (9, SubConnKind::Udp { default_target: endpoint(53) }),
        ],
    };
    let (mux, readers) = attach_parked(parked, MuxAccounting::OnTheEdge);
    assert_eq!((mux.user.label.as_str(), mux.user.fwmark), ("alice", Some(4)));
    assert_eq!(mux.user_counters, "alice");
    assert_eq!(mux.buffer, b"half a fra");
    assert_eq!(mux.sub_conns.len(), 2);
    assert_eq!(mux.sub_conns[&9], SubConnKind::Udp { default_target: endpoint(53) });
    assert_eq!(readers.iter().map(|(id, _)| *id).collect::<Vec<_>>(), vec![3, 9]);
    assert!(!mux.accounting.counts());
    assert!(mux.is_parkable());

    let server = MuxServerCtx { prefer_ipv4_upstream: true, outbound_ipv6: false };
    let route = MuxRouteCtx { h3: true, path: "/vless".to_string() };
    let upstream = mux_upstream(mux, &server, &route);
    assert_eq!(upstream.server, server);
    assert_eq!(upstream.route.path, "/vless");
    assert!(upstream.route.h3 && upstream.mux.is_parkable());
}

#[test]
fn a_new_connection_is_opened_or_ended() {
    let mut mux = MuxState::new(mux_user(), "alice".to_string(), MuxAccounting::Local);
    assert!(!mux.is_parkable());
    assert_eq!(mux.on_tcp_connect(1, false, 0), OpenSubStep::SendEnd);
    assert_eq!(mux.on_tcp_connect(1, true, 0), OpenSubStep::StartReader);
    assert_eq!(mux.on_tcp_connect(2, true, 5), OpenSubStep::WriteInitial { count: true });
    assert_eq!(mux.on_initial_written(2, false), OpenSubStep::Fail);
    assert_eq!(mux.sub_conns.len(), 1);
    assert_eq!(mux.on_initial_written(2, true), OpenSubStep::StartReader);
    assert_eq!(on_udp_resolved(None), OpenSubStep::SendEnd);
    assert_eq!(on_udp_resolved(Some(endpoint(53))), OpenSubStep::Bind(endpoint(53)));
    assert_eq!(mux.on_udp_bound(4, false, endpoint(53), 0), OpenSubStep::SendEnd);
    assert_eq!(mux.on_udp_bound(4, true, endpoint(53), 0), OpenSubStep::StartReader);
    assert_eq!(
        mux.on_udp_bound(5, true, endpoint(53), 1),
        OpenSubStep::StartReaderAndSend { count: true }
    );
    assert_eq!(mux.sub_conns.len(), 4);
}

#[test]
fn a_datagram_goes_where_the_node_can_send() {
    let v6 = Endpoint::V6 { ip6: 1, port: 53, flowinfo: 0, scope_id: 0 };
    assert_eq!(resolve_packet_addr(PacketTarget::Ip(Some(v6)), true), None);
    assert_eq!(resolve_packet_addr(PacketTarget::Ip(Some(v6)), false), Some(v6));
    assert_eq!(resolve_packet_addr(PacketTarget::Ip(None), false), None);
    assert_eq!(resolve_packet_addr(PacketTarget::Domain(Some(v6)), true), Some(v6));
    assert_eq!(resolve_packet_addr(PacketTarget::Domain(None), true), None);
}

#[test]
fn a_reader_drains_up_to_its_target() {
    let step = |phase, event| reader_step(ReaderKind::Upstream, 10, phase, event);
    let (phase, action) = step(ReaderPhase::Waiting, ReaderEvent::Read(4));
    assert_eq!(action, ReaderAction::ReadMore);
    let (phase, action) = step(phase, ReaderEvent::Read(5));
    assert_eq!(action, ReaderAction::ReadMore);
    let (phase, action) = step(phase, ReaderEvent::Read(1));
    assert_eq!(action, ReaderAction::Send { len: 10, count: true });
    let (phase, action) = step(phase, ReaderEvent::Queued);
    assert_eq!((phase, action), (ReaderPhase::Waiting, ReaderAction::Wait));
    let (phase, _) = step(ReaderPhase::Waiting, ReaderEvent::Read(4));
    assert_eq!(step(phase, ReaderEvent::WouldBlock).1, ReaderAction::Send { len: 4, count: true });
    assert_eq!(step(phase, ReaderEvent::Read(0)).1, ReaderAction::Send { len: 4, count: true });
    assert_eq!(
        step(phase, ReaderEvent::ReadFailed),
        (ReaderPhase::Ended(ReaderEnd::Failed), ReaderAction::Return)
    );
    assert_eq!(
        reader_step(ReaderKind::MuxSub(MuxAccounting::Local), 10, phase, ReaderEvent::ReadFailed).1,
        ReaderAction::Send { len: 4, count: true }
    );
    assert_eq!(
        step(ReaderPhase::Waiting, ReaderEvent::Cancel),
        (ReaderPhase::Ended(ReaderEnd::Cancelled), ReaderAction::Return)
    );
    assert_eq!(
        step(ReaderPhase::Waiting, ReaderEvent::Read(0)),
        (ReaderPhase::Ended(ReaderEnd::Closed), ReaderAction::SendEnd)
    );
    assert_eq!(
        reader_step(ReaderKind::MuxSub(MuxAccounting::Local), 10, ReaderPhase::Waiting, ReaderEvent::ReadyFailed),
        (ReaderPhase::Ended(ReaderEnd::Closed), ReaderAction::SendEnd)
    );
    assert_eq!(
        step(ReaderPhase::Sending { len: 4 }, ReaderEvent::QueueFailed),
        (ReaderPhase::Ended(ReaderEnd::CarrierGone), ReaderAction::Return)
    );
    assert_eq!(
        reader_step(
            ReaderKind::MuxSub(MuxAccounting::Local),
            10,
            ReaderPhase::Sending { len: 4 },
            ReaderEvent::EncodeFailed
        ),
        (ReaderPhase::Ended(ReaderEnd::Unframed), ReaderAction::SendEnd)
    );
}

#[test]
fn a_datagram_reader_skips_what_it_cannot_frame() {
    let step = |event| datagram_reader_step(MuxAccounting::Local, event);
    let datagram = |len| DatagramReaderEvent::Datagram { len, from: endpoint(53) };
    assert_eq!(step(datagram(0)), (None, DatagramReaderAction::Wait));
    assert_eq!(
        step(datagram(9)),
        (None, DatagramReaderAction::Send { len: 9, from: endpoint(53), count: true })
    );
    assert_eq!(step(DatagramReaderEvent::EncodeFailed), (None, DatagramReaderAction::Wait));
    assert_eq!(
        step(DatagramReaderEvent::ReadFailed),
        (Some(ReaderEnd::Closed), DatagramReaderAction::SendEnd)
    );
    assert_eq!(
        step(DatagramReaderEvent::Cancel),
        (Some(ReaderEnd::Cancelled), DatagramReaderAction::Return)
    );
    assert_eq!(
        step(DatagramReaderEvent::QueueFailed),
        (Some(ReaderEnd::CarrierGone), DatagramReaderAction::Return)
    );
}

#[test]
fn a_relayed_mux_counts_nothing_on_the_home() {
    let kind = ReaderKind::MuxSub(MuxAccounting::OnTheEdge);
    let (_, action) = reader_step(kind, 4, ReaderPhase::Waiting, ReaderEvent::Read(4));
    assert_eq!(action, ReaderAction::Send { len: 4, count: false });
    let datagram = DatagramReaderEvent::Datagram { len: 9, from: endpoint(53) };
    let (_, action) = datagram_reader_step(MuxAccounting::OnTheEdge, datagram);
    assert_eq!(action, DatagramReaderAction::Send { len: 9, from: endpoint(53), count: false });
}
