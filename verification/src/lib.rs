//! Transport core of a multi-node relay server: session resumption across
//! nodes, the plaintext splices that carry a resumed session, the decisions of
//! the per-carrier relay loops, and the small codecs around them.
//!
//! Everything here is a pure function or a state machine over plain values.
//! Sockets, timers and tasks live with the caller, which performs the actions a
//! machine asks for and hands back the events.

pub mod carrier_padding;
pub mod downlink_ring;
pub mod greedy_reader;
pub mod http_headers;
pub mod mesh_carrier;
pub mod mesh_edge;
pub mod mesh_pump;
pub mod mesh_run;
pub mod mesh_serve;
pub mod mesh_session;
pub mod mesh_splice;
pub mod mesh_wire;
pub mod nat_keys;
pub mod relayed_udp;
pub mod requests;
pub mod resume_headers;
pub mod session;
pub mod sni_fallback;
pub mod text;
pub mod throughput_monitor;
pub mod udp_edge;
pub mod udp_relay;
pub mod udp_session;
pub mod upstream_source;
pub mod vless_establish;
pub mod vless_mux;
pub mod vless_relay;
pub mod ws_close;
