//! An upstream that is another node's: attesting, writing, reading, and what the
//! client is told.

use outline_ss_rust::downlink_ring::DownlinkRing;
use outline_ss_rust::mesh_edge::{
    edge_echo, edge_session_id, edge_udp_echo, edge_upstream, open_edge_relay, open_header, OpenOutcome,
    OpenProgress,
};
use outline_ss_rust::mesh_session::ReplayOutcome;
use outline_ss_rust::mesh_wire::{CloseReason, MeshFraming, MeshProtocol, MeshShape};
use outline_ss_rust::nat_keys::Endpoint;
use outline_ss_rust::resume_headers::{EdgeResumeAdvert, ResumeContext};
use outline_ss_rust::session::SessionId;
use outline_ss_rust::upstream_source::{
    encode_user_frame, on_ack_read, on_user_sent, parse_user_frame, user_frame_rest, AttachError,
    AttachIo, AttachStep, MeshUpstream, TryRead, UpstreamWrite, UpstreamWriter, WriteVerdict,
    WriterShutdown,
};

#[test]
fn a_user_frame_reads_back() {
    let frame = encode_user_frame("beerloga", 64).unwrap();
    assert_eq!(frame, b"\x08beerloga");
    assert_eq!(user_frame_rest(frame[0], 64), Some(8));
    assert_eq!(parse_user_frame(&frame).unwrap(), "beerloga");
    assert_eq!(encode_user_frame("é", 64).unwrap(), vec![2, 0xc3, 0xa9]);
    assert_eq!(encode_user_frame("", 64).unwrap(), vec![0]);
    assert_eq!(parse_user_frame(&[2, 0xc3, 0xa9]).unwrap(), "é");
}

#[test]
fn a_frame_that_is_too_long_or_torn_is_refused() {
    assert!(encode_user_frame("abcd", 3).is_none());
    assert!(encode_user_frame("abc", 3).is_some());
    assert_eq!(user_frame_rest(65, 64), None);
    assert_eq!(parse_user_frame(&[]), None);
    assert_eq!(parse_user_frame(&[0]), None, "no user has an empty name");
    assert_eq!(parse_user_frame(&[2, 0xc3, 0x28]), None, "a name is text");
    assert_eq!(parse_user_frame(&[2, b'a']), None);
    assert_eq!(parse_user_frame(&[1, b'a', b'b']), None);
}

#[test]
fn attaching_reads_an_offset_where_it_was_asked_for() {
    assert_eq!(on_user_sent(AttachIo::Done, true), AttachStep::ReadAck);
    assert_eq!(on_user_sent(AttachIo::Done, false), AttachStep::Attached { upstream_acked: 0 });
    assert_eq!(on_user_sent(AttachIo::Failed, true), AttachStep::Fail(AttachError::UserFailed));
    assert_eq!(on_user_sent(AttachIo::TimedOut, true), AttachStep::Fail(AttachError::UserTimedOut));
    assert_eq!(
        on_ack_read(AttachIo::Done, Some(4096)),
        AttachStep::Attached { upstream_acked: 4096 }
    );
    assert_eq!(on_ack_read(AttachIo::Done, None), AttachStep::Fail(AttachError::AckMalformed));
    assert_eq!(on_ack_read(AttachIo::Failed, None), AttachStep::Fail(AttachError::AckFailed));
    assert_eq!(on_ack_read(AttachIo::TimedOut, None), AttachStep::Fail(AttachError::AckTimedOut));
}

#[test]
fn a_stalled_mesh_write_resets_the_stream() {
    let mesh = UpstreamWriter::Mesh;
    assert!(mesh.is_mesh());
    assert_eq!(mesh.on_write(UpstreamWrite::Done, 7), WriteVerdict::Written { mesh_bytes: 7 });
    assert_eq!(
        mesh.on_write(UpstreamWrite::Stalled, 7),
        WriteVerdict::TimedOut { reset: CloseReason::Budget }
    );
    assert_eq!(mesh.on_write(UpstreamWrite::Failed, 7), WriteVerdict::Failed);
    assert_eq!(mesh.shutdown(), WriterShutdown::FinishStream);
    let tcp = UpstreamWriter::Tcp;
    assert!(!tcp.is_mesh());
    assert_eq!(tcp.on_write(UpstreamWrite::Done, 7), WriteVerdict::Written { mesh_bytes: 0 });
    assert_eq!(tcp.shutdown(), WriterShutdown::ShutdownSocket);
}

#[test]
fn chunks_are_read_whole_and_in_order() {
    let mut upstream = MeshUpstream::new();
    let mut out = Vec::new();
    assert!(!upstream.is_ready());
    assert_eq!(upstream.try_read_buf(&mut out), TryRead::WouldBlock);
    assert_eq!(upstream.on_chunk(b"hello ".to_vec()), 6);
    assert!(upstream.is_ready());
    assert_eq!(upstream.try_read_buf(&mut out), TryRead::Read(6));
    assert_eq!(upstream.try_read_buf(&mut out), TryRead::WouldBlock);
    upstream.on_chunk(b"world".to_vec());
    upstream.on_end();
    assert_eq!(upstream.try_read_buf(&mut out), TryRead::Read(5));
    assert_eq!(upstream.try_read_buf(&mut out), TryRead::Eof);
    assert_eq!(out, b"hello world");
}

fn advert() -> EdgeResumeAdvert {
    EdgeResumeAdvert {
        session_id: SessionId::from_bytes([3; 16]),
        resume_capable: true,
        ack_prefix: true,
        symmetric_replay: true,
        down_acked: 12,
    }
}

fn local(id: u8) -> ResumeContext {
    ResumeContext {
        requested_resume: None,
        issued_session_id: Some(SessionId::from_bytes([id; 16])),
        ack_prefix_requested: true,
        symmetric_replay_requested: true,
        client_acked_offset: 0,
    }
}

#[test]
fn an_edge_upstream_never_confirms_v2_even_when_the_client_asked() {
    let edge = edge_upstream(&advert(), MeshShape::Stream, true);
    assert!(edge.reads_ack);
    assert!(edge.echo.ack_prefix && edge.resume.ack_prefix_requested);
    assert!(!edge.echo.symmetric_replay && !edge.resume.symmetric_replay_requested);
    assert_eq!(edge.resume.issued_session_id, None, "an edge must never park a relayed session");
    assert_eq!(edge.resume.requested_resume, None);

    let edge = edge_upstream(&advert(), MeshShape::Stream, false);
    assert!(edge.reads_ack, "the home sends the offset that the opening frame asked for");
    assert!(!edge.echo.ack_prefix && !edge.resume.ack_prefix_requested);
}

#[test]
fn a_relayed_session_echoes_the_presented_id() {
    let edge = edge_upstream(&advert(), MeshShape::Stream, true);
    let presented = Some(SessionId::from_bytes([3; 16]));
    assert_eq!(edge_session_id(Some(&edge), &local(8)), presented);
    assert_eq!(edge_echo(Some(&edge), &local(8)).session_id, presented);
    assert_eq!(edge_udp_echo(Some(&edge), &local(8)).session_id, presented);
}

#[test]
fn a_refused_relay_echoes_the_locally_minted_id() {
    let minted = Some(SessionId::from_bytes([8; 16]));
    assert_eq!(edge_session_id(None, &local(8)), minted);
    let echo = edge_echo(None, &local(8));
    assert_eq!(echo.session_id, minted);
    assert!(echo.ack_prefix && echo.symmetric_replay);
    let echo = edge_udp_echo(None, &local(8));
    assert_eq!(echo.session_id, minted);
    assert!(!echo.ack_prefix && !echo.symmetric_replay);
}

#[test]
fn an_opening_frame_carries_the_clients_own_words() {
    let peer = Endpoint::V4 { ip: 0x0a00_0001, port: 9 };
    let header = open_header(&advert(), MeshFraming::Udp, MeshProtocol::Ss, peer);
    assert_eq!((header.framing, header.protocol), (MeshFraming::Udp, MeshProtocol::Ss));
    assert_eq!(header.session_id, SessionId::from_bytes([3; 16]));
    assert!(header.resume_capable && header.ack_prefix && header.symmetric_replay);
    assert_eq!(header.client_down_acked, 12);
    assert_eq!(header.peer_addr, Some(peer));
}

#[test]
fn a_relay_that_is_not_admitted_is_served_locally() {
    assert_eq!(open_edge_relay(OpenProgress::NotSent), (OpenOutcome::Fail, None));
    assert_eq!(open_edge_relay(OpenProgress::NotAdmitted), (OpenOutcome::Refused, None));
    assert_eq!(
        open_edge_relay(OpenProgress::Admitted(MeshShape::VlessMux)),
        (OpenOutcome::Admitted, Some(MeshShape::VlessMux))
    );
    assert_eq!(OpenOutcome::Fail.label(), "fail");
    assert_eq!(OpenOutcome::Refused.label(), "refused");
    assert_eq!(OpenOutcome::Admitted.label(), "ok");
}

fn available(outcome: ReplayOutcome) -> Vec<u8> {
    match outcome {
        ReplayOutcome::Available(bytes) => bytes,
        other => panic!("nothing to replay: {other:?}"),
    }
}

#[test]
fn a_ring_replays_what_it_still_holds() {
    let mut ring = DownlinkRing::new(5);
    assert_eq!(available(ring.replay_from(0)), b"");
    ring.push(b"HELLO");
    ring.push(b"-W");
    assert_eq!(ring.total_sent(), 7);
    assert_eq!(available(ring.replay_from(2)), b"LLO-W");
    assert_eq!(available(ring.replay_from(7)), b"");
    assert!(matches!(ring.replay_from(1), ReplayOutcome::Truncated));
    assert!(matches!(ring.replay_from(8), ReplayOutcome::OffsetAhead));
    ring.push(b"0123456789");
    assert_eq!(available(ring.replay_from(12)), b"56789");
    let mut none = DownlinkRing::new(0);
    none.push(b"x");
    assert!(matches!(none.replay_from(0), ReplayOutcome::Truncated));
    assert_eq!(available(none.replay_from(1)), b"");
}
