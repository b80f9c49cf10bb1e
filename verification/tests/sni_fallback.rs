//! Routing by server name.

use outline_ss_rust::sni_fallback::{
    SniBackend, SniFallbackConfig, SniLookup, SniMatcher, SniPeekFailure, SniRoute,
};

fn exact(name: &str) -> SniMatcher {
    SniMatcher::Exact(name.to_ascii_lowercase())
}

fn wildcard(pattern: &str) -> SniMatcher {
    let suffix = pattern
        .to_ascii_lowercase()
        .strip_prefix('*')
        .expect("test wildcard must start with `*`")
        .to_owned();
    SniMatcher::Wildcard { suffix }
}

fn cfg(local: Vec<SniMatcher>, backends: Vec<SniBackend>, allow_no_sni: bool) -> SniFallbackConfig {
    SniFallbackConfig {
        match_sni: local,
        allow_no_sni,
        max_client_hello_bytes: 8192,
        backends,
    }
}

fn backend(authority: &str, matchers: Vec<SniMatcher>) -> SniBackend {
    SniBackend {
        authority: authority.to_owned(),
        match_sni: matchers,
        proxy_protocol: None,
    }
}

#[test]
fn exact_local_match_routes_to_local() {
    let lookup =
        SniLookup::build(&cfg(vec![exact("ours.example")], vec![backend("up:443", vec![])], false));
    assert_eq!(lookup.lookup(Some("ours.example")), Some(SniRoute::Local));
}

#[test]
fn exact_backend_match_routes_to_backend() {
    let lookup = SniLookup::build(&cfg(
        vec![exact("ours.example")],
        vec![backend("first:443", vec![exact("foreign.example")]), backend("catchall:443", vec![])],
        false,
    ));
    assert_eq!(lookup.lookup(Some("foreign.example")), Some(SniRoute::Backend(0)));
}

#[test]
fn exact_match_wins_over_wildcard_in_other_list() {
    let lookup = SniLookup::build(&cfg(
        vec![exact("ours.example")],
        vec![backend("up:443", vec![wildcard("*.example")])],
        false,
    ));
    assert_eq!(lookup.lookup(Some("ours.example")), Some(SniRoute::Local));
}

#[test]
fn wildcard_falls_back_after_exact_miss() {
    let lookup = SniLookup::build(&cfg(
        vec![wildcard("*.ours.example")],
        vec![backend("catchall:443", vec![])],
        false,
    ));
    assert_eq!(lookup.lookup(Some("api.ours.example")), Some(SniRoute::Local));
    assert_eq!(lookup.lookup(Some("a.b.ours.example")), Some(SniRoute::Backend(0)));
}

#[test]
fn local_exact_wins_over_backend_exact_collision() {
    let lookup = SniLookup::build(&cfg(
        vec![exact("shared.example")],
        vec![backend("up:443", vec![exact("shared.example")])],
        false,
    ));
    assert_eq!(lookup.lookup(Some("shared.example")), Some(SniRoute::Local));
}

#[test]
fn first_backend_wins_among_backends() {
    let lookup = SniLookup::build(&cfg(
        vec![exact("ours.example")],
        vec![
            backend("first:443", vec![exact("dup.example")]),
            backend("second:443", vec![exact("dup.example")]),
        ],
        false,
    ));
    assert_eq!(lookup.lookup(Some("dup.example")), Some(SniRoute::Backend(0)));
}

#[test]
fn no_sni_routes_per_allow_flag() {
    let with_allow = SniLookup::build(&cfg(
        vec![exact("ours.example")],
        vec![backend("catchall:443", vec![])],
        true,
    ));
    assert_eq!(with_allow.lookup(None), Some(SniRoute::Local));

    let without_allow = SniLookup::build(&cfg(
        vec![exact("ours.example")],
        vec![backend("catchall:443", vec![])],
        false,
    ));
    assert_eq!(without_allow.lookup(None), Some(SniRoute::Backend(0)));
}

#[test]
fn unmatched_sni_falls_through_to_catch_all() {
    let lookup = SniLookup::build(&cfg(
        vec![exact("ours.example")],
        vec![backend("named:443", vec![exact("known.example")]), backend("catchall:443", vec![])],
        false,
    ));
    assert_eq!(lookup.lookup(Some("nobody-claims-this.example")), Some(SniRoute::Backend(1)));
}

#[test]
fn backend_exact_overrides_local_wildcard() {
    let lookup = SniLookup::build(&cfg(
        vec![wildcard("*.beerloga.su")],
        vec![
            backend("127.0.0.1:10443", vec![exact("px.beerloga.su")]),
            backend("127.0.0.1:11443", vec![]),
        ],
        false,
    ));
    assert_eq!(lookup.lookup(Some("px.beerloga.su")), Some(SniRoute::Backend(0)));
    assert_eq!(lookup.lookup(Some("cloud.beerloga.su")), Some(SniRoute::Local));
    assert_eq!(lookup.lookup(Some("something.else.com")), Some(SniRoute::Backend(1)));
}

#[test]
fn unmatched_sni_without_catch_all_returns_none() {
    let lookup = SniLookup::build(&cfg(
        vec![exact("ours.example")],
        vec![backend("named:443", vec![exact("known.example")])],
        false,
    ));
    assert_eq!(lookup.lookup(Some("nobody-claims-this.example")), None);
}

#[test]
fn a_backend_wildcard_comes_after_every_exact_name() {
    let lookup = SniLookup::build(&cfg(
        vec![],
        vec![
            backend("wild:443", vec![wildcard("*.example")]),
            backend("named:443", vec![exact("a.example")]),
        ],
        false,
    ));
    assert_eq!(lookup.lookup(Some("a.example")), Some(SniRoute::Backend(1)));
    assert_eq!(lookup.lookup(Some("b.example")), Some(SniRoute::Backend(0)));
    assert_eq!(lookup.lookup(Some("example")), None);
    assert_eq!(lookup.lookup(Some(".example")), None, "a wildcard stands for one label");
}

#[test]
fn peer_closed_is_the_only_bucket_demoted_below_warn() {
    assert!(!SniPeekFailure::PeerClosed.is_noteworthy());
    assert!(SniPeekFailure::ReadFailed.is_noteworthy());
    assert!(SniPeekFailure::Oversized.is_noteworthy());
    assert!(SniPeekFailure::Malformed.is_noteworthy());
}

#[test]
fn every_failure_bucket_has_a_stable_metric_label() {
    assert_eq!(SniPeekFailure::PeerClosed.as_str(), "peer_closed");
    assert_eq!(SniPeekFailure::ReadFailed.as_str(), "read_failed");
    assert_eq!(SniPeekFailure::Oversized.as_str(), "oversized");
    assert_eq!(SniPeekFailure::Malformed.as_str(), "malformed");
}
