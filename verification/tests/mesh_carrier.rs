//! The messages of a mesh carrier.

use bytes::Bytes;
use outline_ss_rust::carrier_padding::PaddingScheme;
use outline_ss_rust::mesh_carrier::{
    prepare_response, CarrierSend, MeshCarrier, MeshMsg, MeshUdpCarrier, WsFrame,
};
use outline_ss_rust::throughput_monitor::{ThrottleDetectParams, ThroughputMonitor};

#[test]
fn classify_maps_every_variant() {
    assert!(matches!(
        MeshCarrier::classify(MeshMsg::Binary(Bytes::from_static(b"x"))),
        WsFrame::Binary(_)
    ));
    assert!(matches!(MeshCarrier::classify(MeshMsg::Close), WsFrame::Close));
    assert!(matches!(MeshCarrier::classify(MeshMsg::Ping(Bytes::new())), WsFrame::Ping(_)));
    assert!(matches!(MeshCarrier::classify(MeshMsg::Pong), WsFrame::Pong));
}

#[test]
fn binary_round_trips_through_classify() {
    match MeshCarrier::classify(MeshCarrier::binary_msg(Bytes::from_static(b"payload"))) {
        WsFrame::Binary(b) => assert_eq!(&b[..], b"payload"),
        _ => panic!("binary_msg must classify as Binary"),
    }
}

#[test]
fn lengths_count_only_binary_payload() {
    let m = MeshCarrier::binary_msg(Bytes::from_static(b"hello"));
    assert_eq!(MeshCarrier::binary_len(&m), Some(5));
    assert_eq!(MeshCarrier::msg_len(&m), 5);
    assert_eq!(MeshCarrier::binary_len(&MeshMsg::Close), None);
    assert_eq!(MeshCarrier::msg_len(&MeshMsg::Close), 0);
    assert_eq!(MeshCarrier::msg_len(&MeshMsg::Ping(Bytes::from_static(b"pp"))), 2);
}

#[test]
fn close_variants_and_h3_semantics() {
    assert!(matches!(MeshCarrier::close_msg(), MeshMsg::Close));
    assert!(matches!(MeshCarrier::close_try_again_msg(), MeshMsg::Close));
    assert!(MeshCarrier::is_h3());
}

#[test]
fn pings_are_empty_and_answered_without_a_payload() {
    match MeshCarrier::ping_msg() {
        MeshMsg::Ping(payload) => assert!(payload.is_empty()),
        _ => panic!("a ping is a ping"),
    }
    assert!(matches!(MeshCarrier::pong_msg(Bytes::from_static(b"pp")), MeshMsg::Pong));
}

#[test]
fn only_data_and_closes_reach_the_stream() {
    let binary = MeshCarrier::binary_msg(Bytes::from_static(b"x"));
    assert_eq!(MeshCarrier::send_action(&binary), CarrierSend::Write);
    assert_eq!(MeshCarrier::send_action(&MeshMsg::Close), CarrierSend::Finish);
    assert_eq!(MeshCarrier::send_action(&MeshCarrier::ping_msg()), CarrierSend::Nothing);
    assert_eq!(MeshCarrier::send_action(&MeshMsg::Pong), CarrierSend::Nothing);
}

#[test]
fn a_datagram_carrier_speaks_the_same_messages() {
    let m = MeshUdpCarrier::binary_msg(Bytes::from_static(b"hello"));
    assert_eq!(MeshUdpCarrier::binary_len(&m), Some(5));
    assert_eq!(MeshUdpCarrier::msg_len(&m), 5);
    assert!(matches!(MeshUdpCarrier::classify(m), WsFrame::Binary(b) if &b[..] == b"hello"));
    assert!(matches!(MeshUdpCarrier::close_msg(), MeshMsg::Close));
    assert!(matches!(MeshUdpCarrier::close_try_again_msg(), MeshMsg::Close));
    assert!(matches!(MeshUdpCarrier::pong_msg(Bytes::from_static(b"p")), MeshMsg::Pong));
    assert_eq!(MeshUdpCarrier::msg_len(&MeshUdpCarrier::ping_msg()), 0);
    assert!(MeshUdpCarrier::is_h3());
}

#[test]
fn a_response_is_watched_and_framed() {
    let mut monitor = Some(ThroughputMonitor::new(ThrottleDetectParams::default()));
    let plain = prepare_response(&mut monitor, PaddingScheme::disabled(), b"abc".to_vec(), 6, 10);
    assert_eq!(plain, b"abc");
    let watched = monitor.unwrap();
    assert_eq!((watched.in_bytes, watched.backlog_seen), (3, false));
    let mut monitor = Some(watched);
    let padded = prepare_response(&mut monitor, PaddingScheme::new(2, 2), b"abc".to_vec(), 5, 10);
    assert_eq!(&padded[..7], &[0, 3, 0, 2, b'a', b'b', b'c']);
    assert_eq!(padded.len(), 9);
    let watched = monitor.unwrap();
    assert_eq!((watched.in_bytes, watched.backlog_seen), (6, true));
    let mut none = None;
    assert_eq!(prepare_response(&mut none, PaddingScheme::disabled(), vec![1], 0, 1), vec![1]);
    assert!(none.is_none());
}
