//! Session resumption over HTTP headers.

use axum::http::{HeaderMap, HeaderName, HeaderValue};
use outline_ss_rust::resume_headers::{
    decide, edge_route, wants_session_id, RegistryPolicy, ResumeContext, ResumeRequest,
    ResumeResponseEcho, RouteDecision, ShardId, ACK_PREFIX_HEADER, DOWN_ACKED_HEADER,
    RESUME_CAPABLE_HEADER, RESUME_REQUEST_HEADER, SESSION_RESPONSE_HEADER, SYMMETRIC_REPLAY_HEADER,
};
use outline_ss_rust::session::SessionId;
use outline_ss_rust::text::{contains, is_one, parse_decimal, trim};

fn shard(value: u8) -> ShardId {
    ShardId { value }
}

fn id_for(value: u8) -> SessionId {
    SessionId::from_bytes([value; 16])
}

fn headers_with_resume(id: SessionId) -> HeaderMap {
    let mut headers = HeaderMap::new();
    headers.insert(RESUME_REQUEST_HEADER, HeaderValue::from_str(&id.to_hex()).unwrap());
    headers
}

#[test]
fn no_identity_never_relays() {
    let headers = headers_with_resume(id_for(3));
    let (decision, advert) = edge_route(&headers, None, Some(shard(3)));
    assert_eq!(decision, RouteDecision::Local);
    assert!(advert.is_none());
}

#[test]
fn own_shard_stays_local() {
    let headers = headers_with_resume(id_for(7));
    let (decision, advert) = edge_route(&headers, Some(shard(7)), Some(shard(7)));
    assert_eq!(decision, RouteDecision::Local);
    assert!(advert.is_none());
}

#[test]
fn no_resume_header_is_local() {
    let (decision, advert) = edge_route(&HeaderMap::new(), Some(shard(7)), None);
    assert_eq!(decision, RouteDecision::Local);
    assert!(advert.is_none());
}

#[test]
fn foreign_shard_relays_and_carries_the_id() {
    let id = id_for(3);
    let headers = headers_with_resume(id);
    let (decision, advert) = edge_route(&headers, Some(shard(7)), Some(shard(3)));
    assert_eq!(decision, RouteDecision::Relay(shard(3)));
    let advert = advert.expect("a relay decision yields the advert to forward");
    assert_eq!(advert.session_id.as_bytes(), id.as_bytes());
    assert!(!advert.resume_capable);
    assert!(!advert.ack_prefix);
    assert!(!advert.symmetric_replay);
    assert_eq!(advert.down_acked, 0);
}

#[test]
fn advert_forwards_raw_capability_flags() {
    let mut headers = headers_with_resume(id_for(9));
    headers.insert(RESUME_CAPABLE_HEADER, HeaderValue::from_static("1"));
    headers.insert(ACK_PREFIX_HEADER, HeaderValue::from_static("1"));
    headers.insert(SYMMETRIC_REPLAY_HEADER, HeaderValue::from_static("1"));
    headers.insert(DOWN_ACKED_HEADER, HeaderValue::from_static("4096"));

    let (decision, advert) = edge_route(&headers, Some(shard(1)), Some(shard(9)));
    assert_eq!(decision, RouteDecision::Relay(shard(9)));
    let advert = advert.unwrap();
    assert!(advert.resume_capable);
    assert!(advert.ack_prefix);
    assert!(advert.symmetric_replay);
    assert_eq!(advert.down_acked, 4096);
}

#[test]
fn malformed_down_acked_is_zero() {
    let mut headers = headers_with_resume(id_for(5));
    headers.insert(SYMMETRIC_REPLAY_HEADER, HeaderValue::from_static("1"));
    headers.insert(DOWN_ACKED_HEADER, HeaderValue::from_static("not-a-number"));
    let (_, advert) = edge_route(&headers, Some(shard(2)), Some(shard(5)));
    assert_eq!(advert.unwrap().down_acked, 0);
}

#[test]
fn ids_read_back_from_their_spelling() {
    let id = SessionId::from_bytes([
        0x00, 0x01, 0x0a, 0x0f, 0x10, 0x7f, 0x80, 0xff, 0xde, 0xad, 0xbe, 0xef, 0x12, 0x34, 0x56,
        0x78,
    ]);
    assert_eq!(id.to_hex(), "00010a0f107f80ffdeadbeef12345678");
    assert_eq!(SessionId::parse_hex(&id.to_hex()), Some(id));
    assert_eq!(SessionId::parse_hex("00010A0F107F80FFDEADBEEF12345678"), Some(id));
    assert_eq!(SessionId::parse_hex("00010a0f107f80ffdeadbeef1234567"), None);
    assert_eq!(SessionId::parse_hex("00010a0f107f80ffdeadbeef1234567g"), None);
    assert_eq!(SessionId::parse_hex(""), None);
    assert_ne!(id, id_for(0));
}

const ON: RegistryPolicy = RegistryPolicy { enabled: true, symmetric_replay_enabled: true };

fn full_request() -> HeaderMap {
    let mut headers = headers_with_resume(id_for(4));
    headers.insert(RESUME_CAPABLE_HEADER, HeaderValue::from_static(" 1 "));
    headers.insert(ACK_PREFIX_HEADER, HeaderValue::from_static("1"));
    headers.insert(SYMMETRIC_REPLAY_HEADER, HeaderValue::from_static("1\t"));
    headers.insert(DOWN_ACKED_HEADER, HeaderValue::from_static(" 77 "));
    headers
}

#[test]
fn a_local_resume_is_granted_in_full() {
    let minted = Some(id_for(8));
    let context =
        ResumeContext::from_request_headers(&full_request(), ON, Some(shard(4)), Some(shard(4)), minted);
    assert_eq!(context.requested_resume, Some(id_for(4)));
    assert_eq!(context.issued_session_id, minted);
    assert!(context.ack_prefix_requested);
    assert!(context.symmetric_replay_requested);
    assert_eq!(context.client_acked_offset, 77);
    let echo = context.response_echo();
    assert_eq!(echo.session_id, minted);
    assert!(echo.ack_prefix && echo.symmetric_replay);
    let echo = context.session_echo();
    assert_eq!(echo.session_id, minted);
    assert!(!echo.ack_prefix && !echo.symmetric_replay);
}

#[test]
fn a_foreign_resume_is_not_granted_here() {
    let context = ResumeContext::from_request_headers(
        &full_request(),
        ON,
        Some(shard(1)),
        Some(shard(4)),
        Some(id_for(8)),
    );
    assert_eq!(context.requested_resume, None);
    assert_eq!(context.issued_session_id, Some(id_for(8)), "an id is minted all the same");
    assert_eq!(context.client_acked_offset, 0, "there is nothing to replay");
}

#[test]
fn nothing_is_granted_without_a_registry() {
    let off = RegistryPolicy { enabled: false, symmetric_replay_enabled: true };
    let context =
        ResumeContext::from_request_headers(&full_request(), off, None, None, Some(id_for(8)));
    assert_eq!(context.requested_resume, None);
    assert_eq!(context.issued_session_id, None);
    assert!(!context.ack_prefix_requested && !context.symmetric_replay_requested);
    assert_eq!(context.client_acked_offset, 0);
}

#[test]
fn replay_rests_on_the_acknowledged_prefix() {
    let mut headers = full_request();
    headers.remove(ACK_PREFIX_HEADER);
    let context = ResumeContext::from_request_headers(&headers, ON, None, None, None);
    assert!(!context.ack_prefix_requested && !context.symmetric_replay_requested);

    let ringless = RegistryPolicy { enabled: true, symmetric_replay_enabled: false };
    let context = ResumeContext::from_request_headers(&full_request(), ringless, None, None, None);
    assert!(context.ack_prefix_requested && !context.symmetric_replay_requested);
}

#[test]
fn an_id_is_minted_for_who_can_use_one() {
    let plain = ResumeRequest::read(&HeaderMap::new());
    assert!(!wants_session_id(&plain, ON));
    let mut headers = HeaderMap::new();
    headers.insert(RESUME_CAPABLE_HEADER, HeaderValue::from_static("1"));
    assert!(wants_session_id(&ResumeRequest::read(&headers), ON));
    assert!(wants_session_id(&ResumeRequest::read(&headers_with_resume(id_for(1))), ON));
    headers.insert(RESUME_CAPABLE_HEADER, HeaderValue::from_static("yes"));
    assert!(!wants_session_id(&ResumeRequest::read(&headers), ON));
}

#[test]
fn opaque_header_bytes_say_nothing() {
    let mut headers = HeaderMap::new();
    headers.insert(RESUME_CAPABLE_HEADER, HeaderValue::from_bytes(&[b'1', 0xff]).unwrap());
    assert!(!ResumeRequest::read(&headers).resume_capable);
    let mut headers = HeaderMap::new();
    headers.append(RESUME_CAPABLE_HEADER, HeaderValue::from_static("1"));
    headers.append(RESUME_CAPABLE_HEADER, HeaderValue::from_static("0"));
    assert!(ResumeRequest::read(&headers).resume_capable, "the first value counts");
}

#[test]
fn an_echo_reaches_the_next_request() {
    let echo =
        ResumeResponseEcho { session_id: Some(id_for(0xab)), ack_prefix: true, symmetric_replay: false };
    let mut headers = HeaderMap::new();
    headers.insert("server", HeaderValue::from_static("x"));
    headers.insert(SESSION_RESPONSE_HEADER, HeaderValue::from_static("stale"));
    assert!(echo.apply(&mut headers));
    assert_eq!(headers.get(SESSION_RESPONSE_HEADER).unwrap(), "abababababababababababababababab");
    assert_eq!(headers.get(ACK_PREFIX_HEADER).unwrap(), "1");
    assert!(headers.get(SYMMETRIC_REPLAY_HEADER).is_none());
    assert_eq!(headers.get("server").unwrap(), "x");

    let told = headers.get(SESSION_RESPONSE_HEADER).unwrap().clone();
    let mut request = HeaderMap::new();
    request.insert(RESUME_REQUEST_HEADER, told);
    assert_eq!(ResumeRequest::read(&request).session_id, Some(id_for(0xab)));

    let mut headers = HeaderMap::new();
    assert!(ResumeResponseEcho::default().apply(&mut headers));
    assert!(headers.is_empty());
    let all =
        ResumeResponseEcho { session_id: Some(id_for(1)), ack_prefix: true, symmetric_replay: true };
    assert!(all.apply(&mut headers));
    assert_eq!(headers.len(), 3);
}

fn crowded(names: usize) -> HeaderMap {
    let mut headers = HeaderMap::new();
    for i in 0..names {
        let name = HeaderName::from_bytes(format!("h{i}").as_bytes()).unwrap();
        if headers.try_insert(name, HeaderValue::from_static("x")).is_err() {
            break;
        }
    }
    headers
}

#[test]
fn an_echo_goes_into_a_crowded_map_but_not_into_a_full_one() {
    let echo =
        ResumeResponseEcho { session_id: Some(id_for(1)), ack_prefix: true, symmetric_replay: true };
    let mut headers = crowded(7000);
    assert_eq!(headers.keys_len(), 7000);
    assert!(echo.apply(&mut headers));
    assert_eq!(headers.keys_len(), 7003);

    let mut headers = crowded(40_000);
    let before = headers.clone();
    assert!(!echo.apply(&mut headers));
    assert_eq!(headers, before);
    assert!(ResumeResponseEcho::default().apply(&mut headers));
}

#[test]
fn routes_are_decided_by_shard() {
    assert_eq!(decide(Some(shard(1)), Some(shard(2))), RouteDecision::Relay(shard(2)));
    assert_eq!(decide(Some(shard(1)), Some(shard(1))), RouteDecision::Local);
    assert_eq!(decide(None, Some(shard(1))), RouteDecision::Local);
    assert_eq!(decide(Some(shard(1)), None), RouteDecision::Local);
}

#[test]
fn decimals_and_flags_parse_as_std_does() {
    for text in
        ["", "0", "7", "+7", "-7", "+", "18446744073709551615", "18446744073709551616", "1 2", "007", "٣"]
    {
        assert_eq!(parse_decimal(text), text.parse::<u64>().ok(), "{text:?}");
    }
    for text in [" a b\t", "\u{a0}x\u{3000}", "", "  ", "x"] {
        assert_eq!(trim(text), text.trim());
    }
    assert!(is_one(" 1\r\n"));
    assert!(!is_one("11"));
    assert!(contains("abcabd", "abd"));
    assert!(contains("abc", ""));
    assert!(!contains("ab", "abc"));
}
