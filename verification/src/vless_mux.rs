//! A VLESS mux: many connections on one carrier.

use std::collections::HashMap;
use vstd::prelude::*;
use crate::nat_keys::Endpoint;

verus! {

broadcast use vstd::std_specs::hash::group_hash_axioms;

/// One connection of a mux.
#[derive(Clone, Copy, Debug, PartialEq, Eq, Structural)]
pub enum SubConnKind {
    Tcp,
    /// Datagrams; those that name no target go to the default one.
    Udp { default_target: Endpoint },
}

/// Who accounts for the client's traffic.
#[derive(Clone, Copy, Debug, PartialEq, Eq, Structural)]
pub enum MuxAccounting {
    Local,
    /// The edge that terminates the client's session.
    OnTheEdge,
}

impl MuxAccounting {
    /// Whether this node counts the client's bytes.
    pub fn counts(self) -> (counts: bool)
        ensures
            counts == (self == MuxAccounting::Local),
    {
        matches!(self, MuxAccounting::Local)
    }
}

/// Whose connections a mux holds.
#[derive(Clone, Debug)]
pub struct MuxUser {
    pub label: String,
    /// The routing mark of the user's sockets.
    pub fwmark: Option<u32>,
}

/// A mux under way.
#[derive(Debug)]
pub struct MuxState {
    pub user: MuxUser,
    /// The label that the client's traffic is counted under, where it is counted here.
    pub user_counters: String,
    /// What the client has sent of a frame that is not whole yet.
    pub buffer: Vec<u8>,
    pub sub_conns: HashMap<u16, SubConnKind>,
    pub accounting: MuxAccounting,
}

/// A parked mux.
#[derive(Debug)]
pub struct ParkedVlessMux {
    pub user: MuxUser,
    pub user_counters: String,
    pub buffer: Vec<u8>,
    pub sub_conns: Vec<(u16, SubConnKind)>,
}

/// The connections of a list, by id.
pub open spec fn conns_of(list: Seq<(u16, SubConnKind)>) -> Map<u16, SubConnKind>
    decreases list.len(),
{
    if list.len() == 0 {
        Map::empty()
    } else {
        conns_of(list.drop_last()).insert(list.last().0, list.last().1)
    }
}

impl MuxState {
    /// A mux without connections.
    pub fn new(user: MuxUser, user_counters: String, accounting: MuxAccounting) -> (mux: MuxState)
        ensures
            mux.user == user,
            mux.user_counters == user_counters,
            mux.buffer@.len() == 0,
            mux.sub_conns@ == Map::<u16, SubConnKind>::empty(),
            mux.accounting == accounting,
    {
        MuxState {
            user,
            user_counters,
            buffer: Vec::new(),
            sub_conns: HashMap::new(),
            accounting,
        }
    }

    /// Whether there is anything to park.
    pub fn is_parkable(&self) -> (parkable: bool)
        ensures
            parkable == (self.sub_conns@.len() > 0),
    {
        self.sub_conns.len() > 0
    }
}

/// Resumes a parked mux, for the user it was parked for and with every connection it was
/// parked with. A reader is to be
/// started for each, in the order that comes back.
pub fn attach_parked(parked: ParkedVlessMux, accounting: MuxAccounting) -> (attached: (
    MuxState,
    Vec<(u16, SubConnKind)>,
))
    ensures
        attached.0.user == parked.user,
        attached.0.user_counters == parked.user_counters,
        attached.0.buffer == parked.buffer,
        attached.0.accounting == accounting,
        attached.0.sub_conns@ == conns_of(parked.sub_conns@),
        attached.1@ == parked.sub_conns@,
{
    let mut sub_conns: HashMap<u16, SubConnKind> = HashMap::new();
    let mut i: usize = 0;
    while i < parked.sub_conns.len()
        invariant
            i <= parked.sub_conns@.len(),
            sub_conns@ == conns_of(parked.sub_conns@.take(i as int)),
        decreases parked.sub_conns@.len() - i,
    {
        let (id, kind) = parked.sub_conns[i];
        assert(parked.sub_conns@.take(i + 1).drop_last() =~= parked.sub_conns@.take(i as int));
        sub_conns.insert(id, kind);
        i = i + 1;
    }
    assert(parked.sub_conns@.take(parked.sub_conns@.len() as int) =~= parked.sub_conns@);
    let ParkedVlessMux { user, user_counters, buffer, sub_conns: order } = parked;
    (MuxState { user, user_counters, buffer, sub_conns, accounting }, order)
}

/// Resuming is total: every connection of a park is there afterwards, under its id.
pub proof fn law_every_parked_connection_is_resumed(list: Seq<(u16, SubConnKind)>, at: int)
    requires
        0 <= at < list.len(),
        forall|i: int, j: int|
            0 <= i < j < list.len() ==> (#[trigger] list[i]).0 != (#[trigger] list[j]).0,
    ensures
        conns_of(list).dom().contains(list[at].0),
        conns_of(list)[list[at].0] == list[at].1,
    decreases list.len(),
{
    if at < list.len() - 1 {
        law_every_parked_connection_is_resumed(list.drop_last(), at);
        assert(list.drop_last()[at] == list[at]);
    }
}

// ── Opening connections ─────────────────────────────────────────────────────

/// What is done next for a new connection.
#[derive(Clone, Copy, Debug, PartialEq, Eq, Structural)]
pub enum OpenSubStep {
    /// Tell the client that the connection ended with an error; the mux goes on.
    SendEnd,
    /// Bind a socket for this target.
    Bind(Endpoint),
    /// Write what the client sent along; count it where `count` says so.
    WriteInitial { count: bool },
    /// Start the connection's reader.
    StartReader,
    /// Start the connection's reader, then send what the client sent along; count it
    /// where `count` says so. A datagram that cannot be sent is lost.
    StartReaderAndSend { count: bool },
    /// End the mux.
    Fail,
}

impl MuxState {
    /// Takes in whether a TCP connection's target was reached. `initial` is how much
    /// the client sent along.
    pub fn on_tcp_connect(&mut self, id: u16, connected: bool, initial: usize) -> (step: OpenSubStep)
        ensures
            final(self).user == old(self).user,
            final(self).user_counters == old(self).user_counters,
            final(self).buffer == old(self).buffer,
            final(self).accounting == old(self).accounting,
            step == if !connected {
                OpenSubStep::SendEnd
            } else if initial > 0 {
                OpenSubStep::WriteInitial { count: old(self).accounting == MuxAccounting::Local }
            } else {
                OpenSubStep::StartReader
            },
            final(self).sub_conns@ == if connected && initial == 0 {
                old(self).sub_conns@.insert(id, SubConnKind::Tcp)
            } else {
                old(self).sub_conns@
            },
    {
        if !connected {
            return OpenSubStep::SendEnd;
        }
        if initial > 0 {
            return OpenSubStep::WriteInitial { count: self.accounting.counts() };
        }
        self.sub_conns.insert(id, SubConnKind::Tcp);
        OpenSubStep::StartReader
    }

    /// Takes in whether what the client sent along was written.
    pub fn on_initial_written(&mut self, id: u16, written: bool) -> (step: OpenSubStep)
        ensures
            final(self).user == old(self).user,
            final(self).user_counters == old(self).user_counters,
            final(self).buffer == old(self).buffer,
            final(self).accounting == old(self).accounting,
            step == if written {
                OpenSubStep::StartReader
            } else {
                OpenSubStep::Fail
            },
            final(self).sub_conns@ == if written {
                old(self).sub_conns@.insert(id, SubConnKind::Tcp)
            } else {
                old(self).sub_conns@
            },
    {
        if !written {
            return OpenSubStep::Fail;
        }
        self.sub_conns.insert(id, SubConnKind::Tcp);
        OpenSubStep::StartReader
    }

    /// Takes in whether a datagram connection's socket was bound. `initial` is how much
    /// the client sent along.
    pub fn on_udp_bound(&mut self, id: u16, bound: bool, target: Endpoint, initial: usize) -> (step: OpenSubStep)
        ensures
            final(self).user == old(self).user,
            final(self).user_counters == old(self).user_counters,
            final(self).buffer == old(self).buffer,
            final(self).accounting == old(self).accounting,
            step == if !bound {
                OpenSubStep::SendEnd
            } else if initial > 0 {
                OpenSubStep::StartReaderAndSend {
                    count: old(self).accounting == MuxAccounting::Local,
                }
            } else {
                OpenSubStep::StartReader
            },
            final(self).sub_conns@ == if bound {
                old(self).sub_conns@.insert(id, SubConnKind::Udp { default_target: target })
            } else {
                old(self).sub_conns@
            },
    {
        if !bound {
            return OpenSubStep::SendEnd;
        }
        self.sub_conns.insert(id, SubConnKind::Udp { default_target: target });
        if initial > 0 {
            OpenSubStep::StartReaderAndSend { count: self.accounting.counts() }
        } else {
            OpenSubStep::StartReader
        }
    }
}

/// Takes in where a datagram connection's target is; `None` where its name has no
/// address.
pub fn on_udp_resolved(resolved: Option<Endpoint>) -> (step: OpenSubStep)
    ensures
        step == match resolved {
            Some(target) => OpenSubStep::Bind(target),
            None => OpenSubStep::SendEnd,
        },
{
    match resolved {
        Some(target) => OpenSubStep::Bind(target),
        None => OpenSubStep::SendEnd,
    }
}

/// The target a datagram names.
#[derive(Clone, Copy, Debug, PartialEq, Eq, Structural)]
pub enum PacketTarget {
    /// A name, with the address the cache has for it.
    Domain(Option<Endpoint>),
    /// An address; `None` where it is none.
    Ip(Option<Endpoint>),
}

/// Where a datagram goes: a name where the cache says, an address as it is. On a node
/// that sends over IPv4 alone an IPv6 address goes nowhere.
pub fn resolve_packet_addr(target: PacketTarget, prefer_ipv4: bool) -> (to: Option<Endpoint>)
    ensures
        to == match target {
            PacketTarget::Domain(cached) => cached,
            PacketTarget::Ip(Some(endpoint)) => if prefer_ipv4 && endpoint is V6 {
                None
            } else {
                Some(endpoint)
            },
            PacketTarget::Ip(None) => None,
        },
{
    match target {
        PacketTarget::Domain(cached) => cached,
        PacketTarget::Ip(Some(endpoint)) => {
            if prefer_ipv4 && matches!(endpoint, Endpoint::V6 { .. }) {
                None
            } else {
                Some(endpoint)
            }
        },
        PacketTarget::Ip(None) => None,
    }
}

/// How a mux's connections go out.
#[derive(Clone, Copy, Debug, PartialEq, Eq, Structural)]
pub struct MuxServerCtx {
    pub prefer_ipv4_upstream: bool,
    /// Connections go out over addresses of a configured IPv6 range.
    pub outbound_ipv6: bool,
}

/// Which carrier a mux's traffic is counted for.
#[derive(Debug)]
pub struct MuxRouteCtx {
    /// The carrier is HTTP/3.
    pub h3: bool,
    pub path: String,
}

/// A mux as a carrier holds it, with what each of its frames needs.
#[derive(Debug)]
pub struct MuxUpstream {
    pub mux: MuxState,
    pub server: MuxServerCtx,
    pub route: MuxRouteCtx,
}

/// Puts a mux, new or resumed, behind a carrier, whose settings it takes over.
pub fn mux_upstream(mux: MuxState, server: &MuxServerCtx, route: &MuxRouteCtx) -> (upstream: MuxUpstream)
    ensures
        upstream.mux == mux,
        upstream.server == *server,
        upstream.route.h3 == route.h3,
        upstream.route.path@ == route.path@,
{
    MuxUpstream {
        mux,
        server: *server,
        route: MuxRouteCtx { h3: route.h3, path: route.path.clone() },
    }
}

/// A resumed mux has exactly the connections it was parked with: an id that is on no list
/// has none, and an id that is on it has that of its last place.
pub proof fn law_a_resumed_mux_has_no_other_connection(list: Seq<(u16, SubConnKind)>, id: u16)
    ensures
        conns_of(list).dom().contains(id) ==> exists|i: int|
            0 <= i < list.len() && (#[trigger] list[i]).0 == id && conns_of(list)[id] == list[i].1,
    decreases list.len(),
{
    if list.len() > 0 {
        let front = list.drop_last();
        law_a_resumed_mux_has_no_other_connection(front, id);
        if conns_of(list).dom().contains(id) {
            if list.last().0 == id {
                assert(list[list.len() - 1].0 == id);
            } else {
                let i = choose|i: int|
                    0 <= i < front.len() && (#[trigger] front[i]).0 == id && conns_of(front)[id]
                        == front[i].1;
                assert(list[i] == front[i]);
            }
        }
    }
}

/// A datagram of a mux goes to the address its target has, and nowhere where it has none
/// that this node can send to; and a connection without an address is ended, not the mux.
pub proof fn law_a_mux_datagram_goes_to_its_target(
    cached: Option<Endpoint>,
    address: Endpoint,
    prefer_ipv4: bool,
    by_name: Option<Endpoint>,
    by_address: Option<Endpoint>,
    resolved: Option<Endpoint>,
    step: OpenSubStep,
    accounting: MuxAccounting,
    counts: bool,
)
    requires
        call_ensures(resolve_packet_addr, (PacketTarget::Domain(cached), prefer_ipv4), by_name),
        call_ensures(resolve_packet_addr, (PacketTarget::Ip(Some(address)), prefer_ipv4), by_address),
        call_ensures(on_udp_resolved, (resolved,), step),
        call_ensures(MuxAccounting::counts, (accounting,), counts),
    ensures
        by_name == cached,
        by_address == Some(address) <==> !(prefer_ipv4 && address is V6),
        by_address is None <==> prefer_ipv4 && address is V6,
        resolved is Some ==> step == OpenSubStep::Bind(resolved->0),
        resolved is None ==> step == OpenSubStep::SendEnd,
        counts <==> accounting == MuxAccounting::Local,
{
}

} // verus!
