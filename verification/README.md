# outline-ss-rust

The transport layer of a proxy server whose sessions survive their carriers: a client
that comes back, on the same node or on another node of the cluster, goes on with the
connection it had.

The library under `src/` holds every decision of that layer, and Verus proves what each
of them says. It does no I/O. Where the server alternates between waiting and deciding,
the library has a state machine: a step takes the state and what came of the last action,
and gives the next state and the next action.

- `mesh_*`: relays between cluster nodes. A home serves a relayed session out of what it
  has parked (`mesh_serve`, `mesh_session`, `mesh_run`, `mesh_pump`, `mesh_splice`); an
  edge opens the relay and carries the client (`mesh_edge`, `upstream_source`,
  `mesh_carrier`).
- `udp_*`, `nat_keys`, `relayed_udp`: datagram sessions and the NAT entries they own.
- `vless_*`, `greedy_reader`, `downlink_ring`: VLESS sessions, their readers and what is
  kept for a replay.
- `resume_headers`, `session`, `http_headers`, `requests`: what a client and the server
  tell each other when a carrier is opened.
- `carrier_padding`, `throughput_monitor`: padded carriers, cover traffic and the signs
  of a throttled client.
- `sni_fallback`, `ws_close`, `text`: routes by server name, what the end of a carrier
  means, and the text functions they share.

Properties that span several functions are public proof functions whose names start with
`law_`.

`app/` is the I/O around it: sockets, QUIC streams, timers and HTTP handlers. `tests/`
runs the library on concrete values.
