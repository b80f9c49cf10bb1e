//! An edge's side of a relay: asking the home for it, and what the client is told.

use vstd::prelude::*;
use crate::mesh_wire::{MeshFraming, MeshProtocol, MeshShape};
use crate::nat_keys::Endpoint;
use crate::resume_headers::{EdgeResumeAdvert, ResumeContext, ResumeResponseEcho};
use crate::session::SessionId;

verus! {

/// The longest wait for a home's answer, in nanoseconds.
pub const OPEN_ACK_CAP_NANOS: u128 = 3_000_000_000;

/// How long an edge waits for a home's answer: the health budget, or the cap where
/// that is shorter. The client's upgrade waits with it.
pub fn open_ack_wait(budget_nanos: u128) -> (wait_nanos: u128)
    ensures
        wait_nanos == if budget_nanos <= OPEN_ACK_CAP_NANOS {
            budget_nanos
        } else {
            OPEN_ACK_CAP_NANOS
        },
{
    if budget_nanos <= OPEN_ACK_CAP_NANOS {
        budget_nanos
    } else {
        OPEN_ACK_CAP_NANOS
    }
}

/// The opening frame of a relay.
#[derive(Clone, Copy, Debug)]
pub struct OpenHeader {
    pub framing: MeshFraming,
    pub protocol: MeshProtocol,
    pub session_id: SessionId,
    pub resume_capable: bool,
    pub ack_prefix: bool,
    pub symmetric_replay: bool,
    pub client_down_acked: u64,
    pub peer_addr: Option<Endpoint>,
}

/// The opening frame for a client: its own words, and where it comes from.
pub fn open_header(
    advert: &EdgeResumeAdvert,
    framing: MeshFraming,
    protocol: MeshProtocol,
    peer_addr: Endpoint,
) -> (header: OpenHeader)
    ensures
        header == (OpenHeader {
            framing,
            protocol,
            session_id: advert.session_id,
            resume_capable: advert.resume_capable,
            ack_prefix: advert.ack_prefix,
            symmetric_replay: advert.symmetric_replay,
            client_down_acked: advert.down_acked,
            peer_addr: Some(peer_addr),
        }),
{
    OpenHeader {
        framing,
        protocol,
        session_id: advert.session_id,
        resume_capable: advert.resume_capable,
        ack_prefix: advert.ack_prefix,
        symmetric_replay: advert.symmetric_replay,
        client_down_acked: advert.down_acked,
        peer_addr: Some(peer_addr),
    }
}

/// How asking for a relay is counted.
#[derive(Clone, Copy, Debug, PartialEq, Eq, Structural)]
pub enum OpenOutcome {
    /// The home could not be reached.
    Fail,
    /// The home said no, or nothing.
    Refused,
    Admitted,
}

impl OpenOutcome {
    /// The metric label of the outcome.
    pub fn label(self) -> (label: &'static str)
        ensures
            label@ == match self {
                OpenOutcome::Fail => "fail"@,
                OpenOutcome::Refused => "refused"@,
                OpenOutcome::Admitted => "ok"@,
            },
    {
        match self {
            OpenOutcome::Fail => "fail",
            OpenOutcome::Refused => "refused",
            OpenOutcome::Admitted => "ok",
        }
    }
}

/// How far asking for a relay got.
#[derive(Clone, Copy, Debug, PartialEq, Eq, Structural)]
pub enum OpenProgress {
    /// The opening frame could not be sent.
    NotSent,
    /// It was sent, and no answer came that admits the relay.
    NotAdmitted,
    /// The home admitted it, with this shape.
    Admitted(MeshShape),
}

/// Settles whether a client is relayed: the shape of the relay where it is, `None`
/// where this node serves it itself.
pub fn open_edge_relay(progress: OpenProgress) -> (settled: (OpenOutcome, Option<MeshShape>))
    ensures
        settled == match progress {
            OpenProgress::NotSent => (OpenOutcome::Fail, None::<MeshShape>),
            OpenProgress::NotAdmitted => (OpenOutcome::Refused, None::<MeshShape>),
            OpenProgress::Admitted(shape) => (OpenOutcome::Admitted, Some(shape)),
        },
{
    match progress {
        OpenProgress::NotSent => (OpenOutcome::Fail, None),
        OpenProgress::NotAdmitted => (OpenOutcome::Refused, None),
        OpenProgress::Admitted(shape) => (OpenOutcome::Admitted, Some(shape)),
    }
}

/// An admitted relay, as the client's carrier uses it.
#[derive(Clone, Copy, Debug)]
pub struct EdgeUpstream {
    pub shape: MeshShape,
    /// The home's stream starts with an acknowledged offset.
    pub reads_ack: bool,
    pub resume: ResumeContext,
    pub echo: ResumeResponseEcho,
}

pub open spec fn relayed(advert: EdgeResumeAdvert, shape: MeshShape, registry_enabled: bool) -> EdgeUpstream {
    let ack_prefix = advert.ack_prefix && registry_enabled;
    EdgeUpstream {
        shape,
        reads_ack: advert.ack_prefix,
        resume: ResumeContext {
            requested_resume: None,
            issued_session_id: None,
            ack_prefix_requested: ack_prefix,
            symmetric_replay_requested: false,
            client_acked_offset: 0,
        },
        echo: ResumeResponseEcho {
            session_id: Some(advert.session_id),
            ack_prefix,
            symmetric_replay: false,
        },
    }
}

/// Sets a client's carrier up for an admitted relay. The session is the home's: this
/// node resumes nothing, issues no id, and tells the client the id it came with. It
/// confirms the acknowledged prefix, which it can pass on, and no replay, which it
/// cannot.
pub fn edge_upstream(advert: &EdgeResumeAdvert, shape: MeshShape, registry_enabled: bool) -> (edge:
    EdgeUpstream)
    ensures
        edge == relayed(*advert, shape, registry_enabled),
{
    let ack_prefix = advert.ack_prefix && registry_enabled;
    EdgeUpstream {
        shape,
        reads_ack: advert.ack_prefix,
        resume: ResumeContext {
            requested_resume: None,
            issued_session_id: None,
            ack_prefix_requested: ack_prefix,
            symmetric_replay_requested: false,
            client_acked_offset: 0,
        },
        echo: ResumeResponseEcho {
            session_id: Some(advert.session_id),
            ack_prefix,
            symmetric_replay: false,
        },
    }
}

pub open spec fn told_id(edge: Option<EdgeUpstream>, local: ResumeContext) -> Option<SessionId> {
    match edge {
        Some(edge) => edge.echo.session_id,
        None => local.issued_session_id,
    }
}

/// The id the client is told: the relay's, or this node's own where there is none.
pub fn edge_session_id(edge: Option<&EdgeUpstream>, local: &ResumeContext) -> (id: Option<SessionId>)
    ensures
        id == match edge {
            Some(edge) => told_id(Some(*edge), *local),
            None => told_id(None, *local),
        },
{
    match edge {
        Some(edge) => edge.echo.session_id,
        None => local.issued_session_id,
    }
}

/// What the client of a byte stream is told.
pub fn edge_echo(edge: Option<&EdgeUpstream>, local: &ResumeContext) -> (echo: ResumeResponseEcho)
    ensures
        echo == match edge {
            Some(edge) => edge.echo,
            None => ResumeResponseEcho {
                session_id: local.issued_session_id,
                ack_prefix: local.ack_prefix_requested,
                symmetric_replay: local.symmetric_replay_requested,
            },
        },
{
    match edge {
        Some(edge) => edge.echo,
        None => local.response_echo(),
    }
}

/// What the client of a datagram path is told: the id, and nothing that only a byte
/// stream has.
pub fn edge_udp_echo(edge: Option<&EdgeUpstream>, local: &ResumeContext) -> (echo: ResumeResponseEcho)
    ensures
        echo.session_id == match edge {
            Some(edge) => told_id(Some(*edge), *local),
            None => told_id(None, *local),
        },
        !echo.ack_prefix,
        !echo.symmetric_replay,
{
    ResumeResponseEcho {
        session_id: edge_session_id(edge, local),
        ack_prefix: false,
        symmetric_replay: false,
    }
}

// ── Laws ────────────────────────────────────────────────────────────────────

/// A relayed client is told the id it came with, which is the one its home parks
/// under, and never that its downlink will be replayed.
pub proof fn law_a_relayed_client_keeps_its_id(
    advert: EdgeResumeAdvert,
    shape: MeshShape,
    registry_enabled: bool,
    local: ResumeContext,
)
    ensures
        told_id(Some(relayed(advert, shape, registry_enabled)), local) == Some(advert.session_id),
        !relayed(advert, shape, registry_enabled).echo.symmetric_replay,
        relayed(advert, shape, registry_enabled).resume.issued_session_id is None,
{
}

/// A client whose relay was refused is told the id this node issued, under which this
/// node will park it. The id that was refused never comes back, unless it is the one
/// that this node issued.
pub proof fn law_a_refused_client_is_told_a_local_id(local: ResumeContext, refused: SessionId)
    ensures
        told_id(None, local) == local.issued_session_id,
        local.issued_session_id != Some(refused) ==> told_id(None, local) != Some(refused),
{
}

/// What the client is told about the acknowledged prefix is what its carrier does.
pub proof fn law_the_echo_matches_the_carrier(
    advert: EdgeResumeAdvert,
    shape: MeshShape,
    registry_enabled: bool,
)
    ensures
        relayed(advert, shape, registry_enabled).echo.ack_prefix == relayed(
            advert,
            shape,
            registry_enabled,
        ).resume.ack_prefix_requested,
        relayed(advert, shape, registry_enabled).echo.ack_prefix ==> relayed(
            advert,
            shape,
            registry_enabled,
        ).reads_ack,
{
}

/// A relayed client is told what the home keeps for it, field by field: its own id, and
/// the acknowledged prefix exactly where it asked for one and this node negotiates at
/// all. The carrier reads the home's offset exactly where the client asked for one, for
/// that is what the home was told; and it resumes nothing of this node's.
pub proof fn law_a_relayed_client_is_told_what_the_home_keeps(
    advert: EdgeResumeAdvert,
    shape: MeshShape,
    registry_enabled: bool,
    local: ResumeContext,
)
    ensures
        ({
            let edge = relayed(advert, shape, registry_enabled);
            &&& edge.shape == shape
            &&& edge.reads_ack == advert.ack_prefix
            &&& edge.echo.session_id == Some(advert.session_id)
            &&& edge.echo.ack_prefix <==> advert.ack_prefix && registry_enabled
            &&& !edge.echo.symmetric_replay
            &&& edge.resume.ack_prefix_requested <==> advert.ack_prefix && registry_enabled
            &&& !edge.resume.symmetric_replay_requested
            &&& edge.resume.requested_resume is None
            &&& edge.resume.issued_session_id is None
            &&& edge.resume.client_acked_offset == 0
            &&& told_id(Some(edge), local) == Some(advert.session_id)
            &&& told_id(None, local) == local.issued_session_id
        }),
{
}

/// A home is asked in the client's own words and answered in time: the opening frame says
/// what the client said and where it comes from; the wait is never longer than the health
/// budget or than three seconds; and the client is relayed exactly where the home admits
/// it, with the shape that the home named.
pub proof fn law_a_home_is_asked_in_the_clients_words(
    advert: EdgeResumeAdvert,
    framing: MeshFraming,
    protocol: MeshProtocol,
    peer_addr: Endpoint,
    header: OpenHeader,
    budget_nanos: u128,
    wait_nanos: u128,
    progress: OpenProgress,
    settled: (OpenOutcome, Option<MeshShape>),
    shape: MeshShape,
)
    requires
        call_ensures(open_header, (&advert, framing, protocol, peer_addr), header),
        call_ensures(open_ack_wait, (budget_nanos,), wait_nanos),
        call_ensures(open_edge_relay, (progress,), settled),
    ensures
        header.session_id == advert.session_id,
        header.framing == framing && header.protocol == protocol,
        header.resume_capable == advert.resume_capable,
        header.ack_prefix == advert.ack_prefix,
        header.symmetric_replay == advert.symmetric_replay,
        header.client_down_acked == advert.down_acked,
        header.peer_addr == Some(peer_addr),
        wait_nanos <= budget_nanos && wait_nanos <= 3_000_000_000,
        wait_nanos == budget_nanos || wait_nanos == 3_000_000_000,
        settled.1 == Some(shape) <==> progress == OpenProgress::Admitted(shape),
        settled.0 == OpenOutcome::Fail <==> progress == OpenProgress::NotSent,
        settled.0 == OpenOutcome::Refused <==> progress == OpenProgress::NotAdmitted,
{
}

/// A client is told what its own side negotiated where it is served here, and what the
/// home keeps where it is relayed; a datagram client is told its id and no more.
pub proof fn law_an_echo_is_the_serving_nodes(
    edge: EdgeUpstream,
    local: ResumeContext,
    here: ResumeResponseEcho,
    there: ResumeResponseEcho,
    udp_here: ResumeResponseEcho,
    udp_there: ResumeResponseEcho,
)
    requires
        call_ensures(edge_echo, (None::<&EdgeUpstream>, &local), here),
        call_ensures(edge_echo, (Some(&edge), &local), there),
        call_ensures(edge_udp_echo, (None::<&EdgeUpstream>, &local), udp_here),
        call_ensures(edge_udp_echo, (Some(&edge), &local), udp_there),
    ensures
        here.session_id == local.issued_session_id,
        here.ack_prefix == local.ack_prefix_requested,
        here.symmetric_replay == local.symmetric_replay_requested,
        there == edge.echo,
        udp_here.session_id == local.issued_session_id,
        udp_there.session_id == edge.echo.session_id,
        !udp_here.ack_prefix && !udp_here.symmetric_replay,
        !udp_there.ack_prefix && !udp_there.symmetric_replay,
{
}

} // verus!
