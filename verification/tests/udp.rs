//! UDP sessions: keys, scopes, datagrams, and what a stream leaves behind.

use outline_ss_rust::nat_keys::{
    detach_stream_nat_keys, reattach_parked_nat_keys, Endpoint, NatKey, NatTable, StreamNatKeys,
    NAT_KEYS_RECONCILE_FLOOR,
};
use outline_ss_rust::relayed_udp::{begin_relayed_udp, release_relayed_udp, RelayedUdpIdentity};
use outline_ss_rust::session::SessionId;
use outline_ss_rust::udp_edge::{
    edge_downlink_step, on_forward_parsed, on_forward_written, EdgeDownlinkAction, EdgeDownlinkEvent,
    EdgeSeal, ForwardAction, ForwardError, ForwardWrite, MeshUdpEdge, SealStep,
};
use outline_ss_rust::udp_relay::{
    admit_datagram, relay_teardown, Admission, DropReason, GlobalPermit, LoopEnd, RelayAction, RelayEvent,
    TeardownStep, UdpRelayLoop,
};
use outline_ss_rust::udp_session::{
    next_ss_udp_stream_id, AuthStep, DatagramAction, DatagramCtx, DatagramError, DatagramEvent,
    DatagramPhase, DecryptOutcome, ParkedSsUdpStream, ReplayCheck, RequestResult, ScopeResume, ScopeStep,
    TargetParse, UdpSession,
};

fn endpoint(port: u16) -> Endpoint {
    Endpoint::V4 { ip: 0x7f00_0001, port }
}

fn key(port: u16) -> NatKey {
    NatKey { user_id: "user".to_string(), fwmark: None, scope: None, target: endpoint(port) }
}

fn key_of(user: &str, id: u8, port: u16) -> NatKey {
    NatKey {
        user_id: user.to_string(),
        fwmark: None,
        scope: Some(SessionId::from_bytes([id; 16])),
        target: endpoint(port),
    }
}

fn same(left: &[NatKey], right: &[NatKey]) -> bool {
    left.len() == right.len() && left.iter().zip(right).all(|(a, b)| a.same_as(b))
}

fn holds(keys: &[NatKey], key: &NatKey) -> bool {
    keys.iter().any(|k| k.same_as(key))
}

#[test]
fn tracking_below_the_threshold_keeps_every_key() {
    let mut keys = StreamNatKeys::new();
    for port in 0..8u16 {
        keys.track(key(port), |_| true);
    }
    assert_eq!(keys.len(), 8);
}

#[test]
fn duplicate_targets_are_deduplicated() {
    let mut keys = StreamNatKeys::new();
    for _ in 0..100 {
        keys.track(key(1), |_| true);
    }
    assert_eq!(keys.len(), 1);
}

#[test]
fn evicted_nat_entries_are_reconciled_away() {
    let mut keys = StreamNatKeys::new();
    let mut live: Option<NatKey> = None;
    for port in 0..1000u16 {
        let key = key(port);
        live = Some(key.clone());
        let live_key = live.clone().expect("just set");
        keys.track(key, |candidate| candidate.same_as(&live_key));
        assert!(
            keys.len() <= NAT_KEYS_RECONCILE_FLOOR,
            "tracked set grew past the reconcile threshold: {}",
            keys.len()
        );
    }
    let parked = keys.take();
    assert!(holds(&parked, &live.expect("at least one key tracked")));
}

#[test]
fn live_keys_survive_reconciliation_and_raise_the_threshold() {
    let mut keys = StreamNatKeys::new();
    let total = NAT_KEYS_RECONCILE_FLOOR * 3;
    for port in 0..total as u16 {
        keys.track(key(port), |_| true);
    }
    assert_eq!(keys.len(), total);
}

#[test]
fn take_drains_the_set_and_resets_the_threshold() {
    let mut keys = StreamNatKeys::new();
    for port in 0..4u16 {
        keys.track(key(port), |_| true);
    }
    let drained = keys.take();
    assert_eq!(drained.len(), 4);
    assert_eq!(keys.len(), 0);

    for port in 100..(100 + NAT_KEYS_RECONCILE_FLOOR as u16 + 1) {
        keys.track(key(port), |_| false);
    }
    assert!(keys.len() <= 1, "reconcile did not re-arm after take: {}", keys.len());
}

#[test]
fn adopted_resume_keys_are_tracked() {
    let mut keys = StreamNatKeys::new();
    keys.adopt(vec![key(1), key(2)]);
    assert_eq!(keys.len(), 2);
    assert!(holds(&keys.take(), &key(2)));
}

#[test]
fn stream_ids_count_up() {
    let mut counter = 1;
    assert_eq!(next_ss_udp_stream_id(&mut counter), 1);
    assert_eq!(next_ss_udp_stream_id(&mut counter), 2);
    let mut counter = u64::MAX;
    assert_eq!(next_ss_udp_stream_id(&mut counter), u64::MAX);
    assert_eq!(counter, 0);
}

#[test]
fn a_resumed_stream_takes_over_and_hands_on() {
    let mut table = NatTable::new();
    for port in [1, 2] {
        assert!(table.get_or_create(&key(port)));
        assert!(table.register_session(&key(port), 10));
    }
    let parked = vec![key(1), key(9), key(2)];
    let reattached = reattach_parked_nat_keys(&mut table, &parked, 11);
    assert!(same(&reattached, &[key(1), key(2)]), "an evicted entry is left out");
    assert!(detach_stream_nat_keys(&mut table, 10, &parked).is_empty(), "stream 10 is superseded");
    assert!(same(&detach_stream_nat_keys(&mut table, 11, &reattached), &[key(1), key(2)]));
    assert!(detach_stream_nat_keys(&mut table, 11, &reattached).is_empty());
    assert!(table.contains(&key(1)), "the entry outlives the stream");
}

fn session(issued: Option<u8>) -> UdpSession {
    UdpSession::new(
        Some(SessionId::from_bytes([1; 16])),
        issued.map(|b| SessionId::from_bytes([b; 16])),
        7,
    )
}

fn opened(user: &str, guarded: bool) -> DecryptOutcome {
    DecryptOutcome::Opened { user_index: 3, user_id: user.to_string(), guarded }
}

#[test]
fn the_first_user_names_the_stream() {
    let mut s = session(None);
    assert_eq!(s.on_decrypt(DecryptOutcome::UnknownUser), AuthStep::RejectUnknownUser);
    assert_eq!(s.on_decrypt(DecryptOutcome::Failed), AuthStep::RejectFailed);
    assert_eq!(s.cached_user, None);
    assert_eq!(s.on_decrypt(opened("alice", false)), AuthStep::Accept { first: true });
    assert_eq!(s.on_decrypt(opened("bob", false)), AuthStep::Accept { first: false });
    assert_eq!(s.authenticated_user.as_deref(), Some("alice"));
    assert_eq!(s.cached_user, Some(3));
}

#[test]
fn a_replayed_datagram_is_dropped() {
    let mut s = session(None);
    assert_eq!(s.on_decrypt(opened("alice", true)), AuthStep::CheckReplay);
    assert_eq!(s.on_replay_check(ReplayCheck::Replay), AuthStep::DropReplayed);
    assert_eq!(s.on_replay_check(ReplayCheck::StoreFull), AuthStep::DropStoreFull);
    assert!(!s.session_recorded);
    assert_eq!(s.on_replay_check(ReplayCheck::Fresh), AuthStep::Accept { first: true });
    assert_eq!(s.on_replay_check(ReplayCheck::Fresh), AuthStep::Accept { first: false });
}

#[test]
fn a_scope_is_the_parked_one_where_an_entry_is_still_live() {
    let mut table = NatTable::new();
    let parked_key = key_of("alice", 1, 53);
    table.get_or_create(&parked_key);
    let mut s = session(Some(2));
    assert!(matches!(s.begin_scope(true), ScopeStep::Take(id) if id == SessionId::from_bytes([1; 16])));
    let parked = ParkedSsUdpStream { nat_keys: vec![parked_key.clone()], owner: "alice".to_string() };
    let scope = s.resolve_nat_scope(ScopeResume::Parked(parked), &mut table);
    assert_eq!(scope, Some(SessionId::from_bytes([1; 16])));
    assert_eq!(s.nat_keys.len(), 1);
    assert!(matches!(s.begin_scope(true), ScopeStep::Known(Some(id)) if id == scope.unwrap()));
}

#[test]
fn a_scope_is_the_streams_own_otherwise() {
    let own = Some(SessionId::from_bytes([2; 16]));
    let mut table = NatTable::new();

    let mut s = session(Some(2));
    assert!(matches!(s.begin_scope(false), ScopeStep::Known(id) if id == own));

    for resumed in [
        ScopeResume::Missed,
        ScopeResume::OtherKind,
        ScopeResume::Parked(ParkedSsUdpStream {
            nat_keys: vec![key_of("alice", 1, 53)],
            owner: "alice".to_string(),
        }),
    ] {
        let mut s = session(Some(2));
        assert!(matches!(s.begin_scope(true), ScopeStep::Take(_)));
        assert_eq!(s.resolve_nat_scope(resumed, &mut table), own);
        assert_eq!(s.nat_keys.len(), 0);
    }
}

fn ctx(accounts: bool) -> DatagramCtx {
    DatagramCtx {
        user_id: "alice".to_string(),
        fwmark: Some(4),
        scope: None,
        stream_id: 7,
        accounts_per_user: accounts,
        max_payload: 100,
    }
}

fn drive(accounts: bool, len: usize, events: &[DatagramEvent]) -> (DatagramAction, NatTable, StreamNatKeys) {
    let ctx = ctx(accounts);
    let mut table = NatTable::new();
    let mut keys = StreamNatKeys::new();
    let mut phase = DatagramPhase::Parsing;
    let mut last = DatagramAction::Resolve;
    for event in events {
        let (next, action) = ctx.step_datagram(len, phase, *event, &mut table, &mut keys);
        phase = next;
        last = action;
    }
    (last, table, keys)
}

fn target(consumed: usize) -> DatagramEvent {
    DatagramEvent::Parsed(TargetParse::Target { consumed })
}

#[test]
fn a_datagram_goes_out_under_its_own_key() {
    let events = [target(7), DatagramEvent::Resolved(endpoint(53)), DatagramEvent::Opened];
    let (action, table, mut keys) = drive(true, 107, &events);
    assert_eq!(action, DatagramAction::Send { from: 7, count: true });
    let own = NatKey { user_id: "alice".to_string(), fwmark: Some(4), scope: None, target: endpoint(53) };
    assert!(table.contains(&own));
    assert!(holds(&keys.take(), &own));

    let (action, _, _) = drive(
        true,
        107,
        &[target(7), DatagramEvent::Resolved(endpoint(53)), DatagramEvent::Opened, DatagramEvent::Sent],
    );
    assert_eq!(action, DatagramAction::Finish { request: Some(RequestResult::Success) });
    assert_eq!(RequestResult::Success.label(), "success");
}

#[test]
fn the_home_leaves_per_user_udp_accounting_to_the_edge() {
    let (action, _, _) = drive(
        false,
        107,
        &[target(7), DatagramEvent::Resolved(endpoint(53)), DatagramEvent::Opened, DatagramEvent::Sent],
    );
    assert_eq!(action, DatagramAction::Finish { request: None });
}

#[test]
fn a_datagram_fails_where_it_fails() {
    let fail = |error, request| DatagramAction::Fail { error, request };
    let parsed = |parse| [DatagramEvent::Parsed(parse)];
    assert_eq!(
        drive(true, 9, &parsed(TargetParse::Incomplete)).0,
        fail(DatagramError::MissingTarget, None)
    );
    assert_eq!(drive(true, 9, &parsed(TargetParse::Malformed)).0, fail(DatagramError::Malformed, None));
    assert_eq!(
        drive(true, 9, &[target(7), DatagramEvent::ResolveFailed]).0,
        fail(DatagramError::ResolveFailed, None)
    );
    assert_eq!(
        drive(true, 9, &[target(7), DatagramEvent::Resolved(endpoint(1)), DatagramEvent::OpenFailed]).0,
        fail(DatagramError::NatFailed, None)
    );
    assert_eq!(
        drive(
            true,
            9,
            &[
                target(7),
                DatagramEvent::Resolved(endpoint(1)),
                DatagramEvent::Opened,
                DatagramEvent::SendFailed,
            ]
        )
        .0,
        fail(DatagramError::SendFailed, Some(RequestResult::Error))
    );
    let (action, table, _) =
        drive(true, 108, &[target(7), DatagramEvent::Resolved(endpoint(1)), DatagramEvent::Opened]);
    assert_eq!(action, DatagramAction::DropOversized { request: Some(RequestResult::Error) });
    assert_eq!(table.entries.len(), 1, "the entry is there all the same");
}

#[test]
fn teardown_with_resumption_still_parks_the_nat_keys() {
    let mut table = NatTable::new();
    let mut s = session(Some(2));
    s.on_decrypt(opened("alice", false));
    table.get_or_create(&key(1));
    table.register_session(&key(1), 7);
    table.get_or_create(&key(2));
    table.register_session(&key(2), 8);
    s.nat_keys.adopt(vec![key(1), key(2)]);
    assert_eq!(s.park_reservation(true), Some(SessionId::from_bytes([2; 16])));
    let park = s.release_ss_udp_stream_on_drop(true, &mut table).expect("the stream is parked");
    assert_eq!(park.session_id, SessionId::from_bytes([2; 16]));
    assert_eq!(park.parked.owner, "alice");
    assert!(same(&park.parked.nat_keys, &[key(1)]), "key 2 is another stream's by now");
    assert_eq!(table.entries[0].stream, None);
    assert_eq!(table.entries[1].stream, Some(8));
}

#[test]
fn teardown_without_resumption_releases_the_writer() {
    let mut table = NatTable::new();
    let mut s = session(None);
    s.on_decrypt(opened("alice", false));
    table.get_or_create(&key(1));
    table.register_session(&key(1), 7);
    s.nat_keys.adopt(vec![key(1)]);
    assert_eq!(s.park_reservation(true), None);
    assert!(s.release_ss_udp_stream_on_drop(true, &mut table).is_none());
    assert_eq!(table.entries[0].stream, None, "the sender slot is released all the same");
    assert!(table.contains(&key(1)), "the NAT entry must outlive the stream");
}

fn park(keys: Vec<NatKey>) -> ParkedSsUdpStream {
    ParkedSsUdpStream { nat_keys: keys, owner: "beerloga".to_string() }
}

#[test]
fn a_relayed_session_never_reattaches_a_foreign_nat_key() {
    let ours = key_of("beerloga", 36, 1);
    let foreign = key_of("someone-else", 36, 2);
    let mut table = NatTable::new();
    for key in [&ours, &foreign] {
        table.get_or_create(key);
        table.register_session(key, 1);
    }
    let user = "beerloga".to_string();
    let mut relayed =
        begin_relayed_udp(&park(vec![foreign.clone(), ours.clone()]), &user, &mut table, 5).unwrap();
    assert_eq!(relayed.foreign, 1);
    assert_eq!(table.entries[1].stream, Some(1), "the foreign entry keeps its stream");
    let detached = release_relayed_udp(&mut relayed.keys, &mut table, 5);
    assert!(same(&detached, &[ours]));
}

#[test]
fn an_identity_is_that_of_the_users_first_key() {
    let user = "beerloga".to_string();
    let keys = vec![
        key_of("other", 1, 1),
        key_of("beerloga", 2, 2),
        key_of("beerloga", 3, 3),
        key_of("beerloga", 2, 4),
    ];
    let (identity, owned, foreign) = RelayedUdpIdentity::from_park(&park(keys), &user).unwrap();
    assert_eq!(identity.scope, Some(SessionId::from_bytes([2; 16])));
    assert!(same(&owned, &[key_of("beerloga", 2, 2), key_of("beerloga", 2, 4)]));
    assert_eq!(foreign, 2);
    assert!(identity.owns(&key_of("beerloga", 2, 99)));
    assert!(!identity.owns(&key_of("beerloga", 3, 2)));
    assert!(RelayedUdpIdentity::from_park(&park(vec![key_of("x", 1, 1)]), &user).is_none());
    assert!(RelayedUdpIdentity::from_park(&park(vec![]), &user).is_none());
}

#[test]
fn a_datagram_cannot_reach_another_sessions_nat_entry() {
    let mine = DatagramCtx { scope: Some(SessionId::from_bytes([34; 16])), ..ctx(false) };
    let theirs = DatagramCtx { scope: Some(SessionId::from_bytes([99; 16])), ..ctx(false) };
    assert!(!mine.nat_key(endpoint(53)).same_as(&theirs.nat_key(endpoint(53))));
    let other_user = DatagramCtx { user_id: "someone-else".to_string(), ..ctx(false) };
    assert!(!ctx(false).nat_key(endpoint(53)).same_as(&other_user.nat_key(endpoint(53))));
}

#[test]
fn datagrams_are_admitted_in_order_of_limits() {
    assert_eq!(admit_datagram(0, 2, GlobalPermit::Unlimited), Admission::Relay);
    assert_eq!(admit_datagram(1, 2, GlobalPermit::Granted), Admission::Relay);
    assert_eq!(
        admit_datagram(1, 2, GlobalPermit::Exhausted),
        Admission::Drop(DropReason::GlobalConcurrencyLimit)
    );
    assert_eq!(
        admit_datagram(2, 2, GlobalPermit::Exhausted),
        Admission::Drop(DropReason::ConcurrencyLimit)
    );
    assert_eq!(DropReason::ConcurrencyLimit.label(), "concurrency_limit");
    assert_eq!(DropReason::GlobalConcurrencyLimit.label(), "global_concurrency_limit");
    assert_eq!(DropReason::RelayedUserMismatch.label(), "relayed_user_mismatch");
}

#[test]
fn the_relay_loop_takes_frames_one_by_one() {
    let local = UdpRelayLoop { relayed: false, padded: true };
    assert_eq!(local.step(RelayEvent::Binary { decoded: 0 }), RelayAction::Read);
    assert_eq!(local.step(RelayEvent::Binary { decoded: 3 }), RelayAction::Relay { len: 3 });
    assert_eq!(local.step(RelayEvent::Ping), RelayAction::QueuePong);
    assert_eq!(local.step(RelayEvent::Pong), RelayAction::Read);
    assert_eq!(local.step(RelayEvent::Close), RelayAction::End(LoopEnd::Clean));
    assert_eq!(local.step(RelayEvent::Ended), RelayAction::End(LoopEnd::Clean));
    assert_eq!(local.step(RelayEvent::Text), RelayAction::End(LoopEnd::TextFrame));
    assert_eq!(local.step(RelayEvent::ReadFailed), RelayAction::End(LoopEnd::ReadFailed));
    assert_eq!(local.step(RelayEvent::PongFailed), RelayAction::End(LoopEnd::PongFailed));
    let edge = UdpRelayLoop { relayed: true, padded: false };
    assert_eq!(edge.step(RelayEvent::Binary { decoded: 0 }), RelayAction::Forward { len: 0 });
    assert_eq!(edge.step(RelayEvent::NotForwarded), RelayAction::Read);
    assert_eq!(edge.step(RelayEvent::ForwardFailed), RelayAction::End(LoopEnd::ForwardFailed));
    assert_eq!(relay_teardown(false).len(), 4);
    assert_eq!(relay_teardown(true)[1], TeardownStep::ShutdownEdge);
}

#[test]
fn udp_edge_drops_a_datagram_from_a_user_it_did_not_attest() {
    let beerloga = "beerloga".to_string();
    let intruder = "intruder".to_string();
    let mut edge = MeshUdpEdge::new();
    assert_eq!(edge.begin_forward(&beerloga), ForwardAction::Attach);
    assert_eq!(edge.on_attached(&beerloga, true), ForwardAction::ParseTarget);
    let drop = |warn| ForwardAction::DropForeign {
        reason: DropReason::RelayedUserMismatch,
        request: RequestResult::Error,
        warn,
    };
    assert_eq!(edge.begin_forward(&intruder), drop(true));
    assert_eq!(edge.begin_forward(&intruder), drop(false));
    assert_eq!(edge.begin_forward(&beerloga), ForwardAction::ParseTarget);
}

#[test]
fn a_failed_attach_uses_the_relay_up() {
    let user = "beerloga".to_string();
    let mut edge = MeshUdpEdge::new();
    assert_eq!(edge.begin_forward(&user), ForwardAction::Attach);
    assert_eq!(
        edge.on_attached(&user, false),
        ForwardAction::Fail { error: ForwardError::AttachFailed, counted: None }
    );
    assert_eq!(
        edge.begin_forward(&user),
        ForwardAction::Fail { error: ForwardError::SetupConsumed, counted: None }
    );
}

#[test]
fn a_forwarded_datagram_is_checked_and_counted() {
    let parsed = |consumed| TargetParse::Target { consumed };
    assert_eq!(on_forward_parsed(parsed(7), 107, 100), ForwardAction::Write { payload_len: 100 });
    assert_eq!(
        on_forward_parsed(parsed(7), 108, 100),
        ForwardAction::DropOversized { request: RequestResult::Error }
    );
    assert_eq!(
        on_forward_parsed(TargetParse::Incomplete, 3, 100),
        ForwardAction::DropUnaddressed { request: RequestResult::Error },
        "a datagram without a target costs itself, not the session"
    );
    assert_eq!(
        on_forward_parsed(TargetParse::Malformed, 3, 100),
        ForwardAction::DropUnaddressed { request: RequestResult::Error }
    );
    assert_eq!(
        on_forward_written(ForwardWrite::Done),
        ForwardAction::Finish { request: RequestResult::Success }
    );
    assert!(matches!(
        on_forward_written(ForwardWrite::Stalled),
        ForwardAction::Fail { error: ForwardError::Stalled, counted: Some(RequestResult::Error) }
    ));
    assert!(matches!(
        on_forward_written(ForwardWrite::Failed),
        ForwardAction::Fail { error: ForwardError::WriteFailed, .. }
    ));
}

#[test]
fn a_datagram_without_a_target_leaves_the_carrier_attached() {
    let user = "alice".to_string();
    let mut edge = MeshUdpEdge::new();
    edge.begin_forward(&user);
    edge.on_attached(&user, true);
    assert_eq!(edge.begin_forward(&user), ForwardAction::ParseTarget);
    let dropped = on_forward_parsed(TargetParse::Incomplete, 3, 100);
    assert_eq!(dropped, ForwardAction::DropUnaddressed { request: RequestResult::Error });
    let machine = UdpRelayLoop { relayed: true, padded: false };
    assert_eq!(machine.step(RelayEvent::Forwarded), RelayAction::Read, "the session goes on");
    assert_eq!(edge.begin_forward(&user), ForwardAction::ParseTarget);
}

#[test]
fn responses_are_sealed_under_ids_of_their_own() {
    let mut seal = EdgeSeal::new();
    let target = TargetParse::Target { consumed: 7 };
    assert_eq!(seal.seal(target), SealStep::Drop, "there are no keys yet");
    seal.observe();
    assert_eq!(seal.seal(target), SealStep::Encrypt { packet_id: 0, from: 7 });
    assert_eq!(seal.seal(TargetParse::Malformed), SealStep::Drop);
    assert_eq!(seal.seal(target), SealStep::Encrypt { packet_id: 1, from: 7 });
    assert_eq!(
        edge_downlink_step(EdgeDownlinkEvent::Datagram(9)),
        EdgeDownlinkAction::CountAndSeal(9)
    );
    assert_eq!(edge_downlink_step(EdgeDownlinkEvent::NotSealed), EdgeDownlinkAction::Read);
    assert_eq!(
        edge_downlink_step(EdgeDownlinkEvent::Sealed(2)),
        EdgeDownlinkAction::CountAndDeliver(2)
    );
    assert_eq!(edge_downlink_step(EdgeDownlinkEvent::ClientGone), EdgeDownlinkAction::End);
    assert_eq!(edge_downlink_step(EdgeDownlinkEvent::Ended), EdgeDownlinkAction::End);
}
