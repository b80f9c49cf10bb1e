//! Routine ends, request paths and the root page.

use outline_ss_rust::mesh_serve::{park_query, ParkQuery, ParkShape};
use outline_ss_rust::mesh_wire::{MeshFraming, MeshProtocol};
use outline_ss_rust::requests::{
    combined_base_path, plan_upgrade, relay_terms, root_http_auth, RootAuth, RootPassword, UpgradeLeg,
};
use outline_ss_rust::resume_headers::ResumeContext;
use outline_ss_rust::session::SessionId;
use outline_ss_rust::ws_close::{
    classify_error, classify_h3_connection, classify_hyper, classify_io, classify_quinn,
    classify_sockudo, classify_stringified_h3, classify_tungstenite, finish_ws_session,
    has_tls_close_notify, is_expected_ws_close, is_normal_h3_shutdown, BenignClose, Cause,
    DisconnectReason, ErrorCause, H3WebSocketCause, IoKind, QuicCause, SessionEnd, WebSocketCause,
};

fn cause(cause: Cause, text: &str) -> ErrorCause {
    ErrorCause { cause, text: text.to_string() }
}

fn failed(chain: Vec<ErrorCause>, handshake_rejected: bool) -> DisconnectReason {
    finish_ws_session(&SessionEnd::Failed { chain, handshake_rejected })
}

#[test]
fn io_errors_are_judged_by_kind_and_text() {
    for kind in [
        IoKind::ConnectionReset,
        IoKind::BrokenPipe,
        IoKind::UnexpectedEof,
        IoKind::ConnectionAborted,
    ] {
        assert_eq!(classify_io(kind, ""), Some(BenignClose::PeerAbort));
    }
    assert_eq!(classify_io(IoKind::AnotherKind, "Connection error: Timeout"), None);
    assert_eq!(
        classify_io(IoKind::Other, "h3: Connection error: Timeout"),
        Some(BenignClose::QuicTimeout)
    );
    assert_eq!(classify_io(IoKind::Other, "disk on fire"), None);
}

#[test]
fn stringified_h3_errors_are_read() {
    let h3 = |text| classify_stringified_h3(text);
    assert_eq!(h3("Remote: ApplicationClose: H3_NO_ERROR"), Some(BenignClose::H3NoError));
    assert_eq!(h3("ApplicationClose: 0x0"), Some(BenignClose::H3NoError));
    assert_eq!(h3("Connection error: Timeout"), Some(BenignClose::QuicTimeout));
    assert_eq!(h3("Connection error: Tim"), None);
    assert_eq!(h3(""), None);
    assert_eq!(classify_h3_connection(true, ""), Some(BenignClose::H3NoError));
    assert_eq!(classify_h3_connection(false, "Connection error: Timeout"), Some(BenignClose::QuicTimeout));
    assert_eq!(classify_h3_connection(false, "x"), None);
}

#[test]
fn protocol_errors_are_judged() {
    for routine in [
        WebSocketCause::ConnectionClosed,
        WebSocketCause::AlreadyClosed,
        WebSocketCause::ResetWithoutClosingHandshake,
        WebSocketCause::SendAfterClosing,
        WebSocketCause::Io(IoKind::BrokenPipe, String::new()),
    ] {
        assert_eq!(classify_tungstenite(&routine), Some(BenignClose::PeerAbort));
    }
    assert_eq!(classify_tungstenite(&WebSocketCause::Otherwise), None);
    assert_eq!(classify_hyper(true, false, false), Some(BenignClose::PeerAbort));
    assert_eq!(classify_hyper(false, true, false), Some(BenignClose::PeerAbort));
    assert_eq!(classify_hyper(false, false, true), Some(BenignClose::PeerAbort));
    assert_eq!(classify_hyper(false, false, false), None);
    assert_eq!(classify_quinn(QuicCause::ApplicationClosed(0)), Some(BenignClose::H3NoError));
    assert_eq!(classify_quinn(QuicCause::ApplicationClosed(1)), None);
    assert_eq!(classify_quinn(QuicCause::LocallyClosed), Some(BenignClose::PeerAbort));
    assert_eq!(classify_quinn(QuicCause::Reset), Some(BenignClose::PeerAbort));
    assert_eq!(classify_quinn(QuicCause::TimedOut), Some(BenignClose::QuicTimeout));
    assert_eq!(classify_quinn(QuicCause::Otherwise), None);
    assert_eq!(
        classify_sockudo(&H3WebSocketCause::Http3("ApplicationClose: 0x0".to_string())),
        Some(BenignClose::H3NoError)
    );
    assert_eq!(classify_sockudo(&H3WebSocketCause::ConnectionReset), Some(BenignClose::PeerAbort));
    assert_eq!(classify_sockudo(&H3WebSocketCause::ConnectionClosed), Some(BenignClose::PeerAbort));
    assert_eq!(classify_sockudo(&H3WebSocketCause::Otherwise), None);
}

#[test]
fn the_outermost_routine_cause_decides() {
    let chain = vec![
        cause(Cause::Otherwise, "relay ended"),
        cause(Cause::Io(IoKind::BrokenPipe), "broken pipe"),
        cause(Cause::Quic(QuicCause::ApplicationClosed(0)), "closed"),
    ];
    assert_eq!(classify_error(&chain), Some(BenignClose::PeerAbort));
    assert!(is_expected_ws_close(&chain));
    assert!(!is_normal_h3_shutdown(&chain));
    assert_eq!(failed(chain, true), DisconnectReason::ClientDisconnect);

    let chain = vec![cause(Cause::H3Connection { no_error: true }, "")];
    assert!(is_normal_h3_shutdown(&chain));
    assert_eq!(failed(chain, false), DisconnectReason::Normal);
    let chain = vec![cause(Cause::H3Stream, "Connection error: Timeout")];
    assert_eq!(failed(chain, false), DisconnectReason::ClientDisconnect);
}

#[test]
fn a_dropped_tls_session_is_expected() {
    let chain = vec![
        cause(Cause::Otherwise, "reading"),
        cause(
            Cause::Io(IoKind::Other),
            "peer closed connection without sending TLS close_notify: see docs",
        ),
    ];
    assert!(has_tls_close_notify(&chain));
    assert_eq!(classify_error(&chain), None);
    assert_eq!(failed(chain, false), DisconnectReason::ClientDisconnect);
}

#[test]
fn a_session_end_is_counted() {
    assert_eq!(finish_ws_session(&SessionEnd::Clean), DisconnectReason::Normal);
    let chain = || vec![cause(Cause::Otherwise, "no such user")];
    assert_eq!(failed(chain(), true), DisconnectReason::HandshakeRejected);
    assert_eq!(failed(chain(), false), DisconnectReason::Error);
    assert_eq!(failed(vec![], false), DisconnectReason::Error);
}

#[test]
fn a_base_path_is_without_its_token() {
    assert_eq!(combined_base_path("/ss/abc", "abc"), "/ss");
    assert_eq!(combined_base_path("/ss/abc", "bc"), "/ss/abc");
    assert_eq!(combined_base_path("/ss/abc", "xyz"), "/ss/abc");
    assert_eq!(combined_base_path("/abc", "abc"), "");
    assert_eq!(combined_base_path("abc", "abc"), "abc");
    assert_eq!(combined_base_path("/ss/", ""), "/ss");
    assert_eq!(combined_base_path("a", "a/longer"), "a");
}

#[test]
fn the_root_page_asks_then_forbids() {
    let auth = |failed, password| root_http_auth(true, true, failed, 3, password);
    assert_eq!(root_http_auth(false, true, 0, 3, RootPassword::Matches), RootAuth::NotFound);
    assert_eq!(root_http_auth(true, false, 0, 3, RootPassword::Matches), RootAuth::NotFound);
    assert_eq!(auth(3, RootPassword::Matches), RootAuth::Forbidden);
    assert_eq!(auth(2, RootPassword::Matches), RootAuth::Success);
    assert_eq!(auth(1, RootPassword::Absent), RootAuth::Challenge { failed_attempts: 1 });
    assert_eq!(auth(1, RootPassword::Wrong), RootAuth::Challenge { failed_attempts: 2 });
    assert_eq!(auth(2, RootPassword::Wrong), RootAuth::Forbidden);
    assert_eq!(
        root_http_auth(true, true, u32::MAX - 1, u32::MAX, RootPassword::Wrong),
        RootAuth::Forbidden
    );
}

#[test]
fn an_upgrade_confirms_what_its_leg_can_do() {
    let context = ResumeContext {
        requested_resume: None,
        issued_session_id: Some(SessionId::from_bytes([9; 16])),
        ack_prefix_requested: true,
        symmetric_replay_requested: true,
        client_acked_offset: 0,
    };
    for leg in [UpgradeLeg::Tcp, UpgradeLeg::Vless] {
        let plan = plan_upgrade(leg, &context);
        assert!(plan.echo.ack_prefix && plan.echo.symmetric_replay && !plan.unbuffered);
        assert_eq!(plan.echo.session_id, context.issued_session_id);
    }
    let plan = plan_upgrade(UpgradeLeg::Udp, &context);
    assert!(!plan.echo.ack_prefix && !plan.echo.symmetric_replay && plan.unbuffered);
    assert_eq!(plan.echo.session_id, context.issued_session_id);
}

#[test]
fn every_leg_asks_for_a_relay_a_home_can_serve() {
    for (leg, framing, protocol, query) in [
        (UpgradeLeg::Tcp, MeshFraming::Tcp, MeshProtocol::Ss, ParkQuery::Exact(ParkShape::Stream)),
        (UpgradeLeg::Udp, MeshFraming::Udp, MeshProtocol::Ss, ParkQuery::Exact(ParkShape::Datagram)),
        (UpgradeLeg::Vless, MeshFraming::Tcp, MeshProtocol::Vless, ParkQuery::AnyVless),
    ] {
        let terms = relay_terms(leg);
        assert_eq!((terms.framing, terms.protocol), (framing, protocol));
        assert_eq!(park_query(&terms), Some(query));
    }
}
