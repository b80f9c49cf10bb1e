//! Session-resumption negotiation over HTTP headers.

use vstd::prelude::*;
use vstd::string::*;
use crate::http_headers::{
    ascii_text, fits_value, header_count, header_text, header_values, is_plain_name, is_visible, set_text, text_of, MAX_NAMES,
};
use crate::session::{hex_text, is_hex_id, spells, SessionId};
use crate::text::{decimal_u64, is_one, parse_decimal, trim, trimmed};

verus! {

/// Request: the id of the session the client wants back.
pub const RESUME_REQUEST_HEADER: &'static str = "x-outline-resume";

/// Request: the client can resume sessions at all.
pub const RESUME_CAPABLE_HEADER: &'static str = "x-outline-resume-capable";

/// Request and response: the resumed stream starts with an uplink offset.
pub const ACK_PREFIX_HEADER: &'static str = "x-outline-resume-ack-prefix";

/// Request and response: the resumed stream replays the unacknowledged downlink.
pub const SYMMETRIC_REPLAY_HEADER: &'static str = "x-outline-resume-symmetric-replay";

/// Request: how far the client has read the downlink.
pub const DOWN_ACKED_HEADER: &'static str = "x-outline-resume-down-acked";

/// Response: the id the session is parked under.
pub const SESSION_RESPONSE_HEADER: &'static str = "x-outline-session";

proof fn lemma_plain_names()
    ensures
        is_plain_name(RESUME_REQUEST_HEADER@),
        is_plain_name(RESUME_CAPABLE_HEADER@),
        is_plain_name(ACK_PREFIX_HEADER@),
        is_plain_name(SYMMETRIC_REPLAY_HEADER@),
        is_plain_name(DOWN_ACKED_HEADER@),
        is_plain_name(SESSION_RESPONSE_HEADER@),
{
    reveal_strlit("x-outline-resume");
    reveal_strlit("x-outline-resume-capable");
    reveal_strlit("x-outline-resume-ack-prefix");
    reveal_strlit("x-outline-resume-symmetric-replay");
    reveal_strlit("x-outline-resume-down-acked");
    reveal_strlit("x-outline-session");
}


// ── What a request says ─────────────────────────────────────────────────────

/// A request's resumption headers, read and not yet judged.
#[derive(Clone, Copy, Debug)]
pub struct ResumeRequest {
    /// The session the client wants back.
    pub session_id: Option<SessionId>,
    pub resume_capable: bool,
    pub ack_prefix: bool,
    pub symmetric_replay: bool,
    /// How far the client has read the downlink; 0 where it does not say.
    pub down_acked: u64,
}

/// Whether the header is there and says `1`.
pub open spec fn says_one(headers: axum::http::HeaderMap, name: Seq<char>) -> bool {
    header_text(headers, name) matches Some(text) && trimmed(text) == seq!['1']
}

/// The offset the client acknowledges; 0 where the header is absent, empty or malformed.
pub open spec fn acked_offset(headers: axum::http::HeaderMap) -> u64 {
    match header_text(headers, DOWN_ACKED_HEADER@) {
        Some(text) => match decimal_u64(trimmed(text)) {
            Some(offset) => offset,
            None => 0,
        },
        None => 0,
    }
}

/// Whether the request names a session.
pub open spec fn names_session(headers: axum::http::HeaderMap) -> bool {
    header_text(headers, RESUME_REQUEST_HEADER@) matches Some(text) && is_hex_id(text)
}

/// Whether `request` is what the headers say.
pub open spec fn says(headers: axum::http::HeaderMap, request: ResumeRequest) -> bool {
    &&& request.session_id is Some <==> names_session(headers)
    &&& request.session_id matches Some(id) ==> spells(
        header_text(headers, RESUME_REQUEST_HEADER@)->0,
        id@,
    )
    &&& request.resume_capable == says_one(headers, RESUME_CAPABLE_HEADER@)
    &&& request.ack_prefix == says_one(headers, ACK_PREFIX_HEADER@)
    &&& request.symmetric_replay == says_one(headers, SYMMETRIC_REPLAY_HEADER@)
    &&& request.down_acked == acked_offset(headers)
}

/// Whether the header is there and says `1`.
pub fn header_is_one(headers: &axum::http::HeaderMap, name: &str) -> (one: bool)
    requires
        is_plain_name(name@),
    ensures
        one == says_one(*headers, name@),
{
    match text_of(headers, name) {
        Some(text) => is_one(text),
        None => false,
    }
}

impl ResumeRequest {
    /// Reads a request's headers.
    pub fn read(headers: &axum::http::HeaderMap) -> (request: ResumeRequest)
        ensures
            says(*headers, request),
    {
        proof {
            lemma_plain_names();
        }
        let session_id = match text_of(headers, RESUME_REQUEST_HEADER) {
            Some(text) => SessionId::parse_hex(text),
            None => None,
        };
        let down_acked: u64 = match text_of(headers, DOWN_ACKED_HEADER) {
            Some(text) => match parse_decimal(trim(text)) {
                Some(offset) => offset,
                None => 0,
            },
            None => 0,
        };
        ResumeRequest {
            session_id,
            resume_capable: header_is_one(headers, RESUME_CAPABLE_HEADER),
            ack_prefix: header_is_one(headers, ACK_PREFIX_HEADER),
            symmetric_replay: header_is_one(headers, SYMMETRIC_REPLAY_HEADER),
            down_acked,
        }
    }
}

// ── Routing ─────────────────────────────────────────────────────────────────

/// One node's number in the cluster.
#[derive(Clone, Copy, Debug, PartialEq, Eq, Structural)]
pub struct ShardId {
    pub value: u8,
}

/// Where a session is served.
#[derive(Clone, Copy, Debug, PartialEq, Eq, Structural)]
pub enum RouteDecision {
    Local,
    Relay(ShardId),
}

pub open spec fn route_of(own: Option<ShardId>, presented: Option<ShardId>) -> RouteDecision {
    match (own, presented) {
        (Some(own), Some(shard)) => if shard == own {
            RouteDecision::Local
        } else {
            RouteDecision::Relay(shard)
        },
        _ => RouteDecision::Local,
    }
}

/// Routes a session: to the node its id carries, where this node is in a cluster
/// and is another one.
pub fn decide(own: Option<ShardId>, presented: Option<ShardId>) -> (route: RouteDecision)
    ensures
        route == route_of(own, presented),
{
    match (own, presented) {
        (Some(own), Some(shard)) => if shard == own {
            RouteDecision::Local
        } else {
            RouteDecision::Relay(shard)
        },
        _ => RouteDecision::Local,
    }
}

// ── Negotiation ─────────────────────────────────────────────────────────────

/// What this node's registry of parked sessions allows.
#[derive(Clone, Copy, Debug, PartialEq, Eq, Structural)]
pub struct RegistryPolicy {
    pub enabled: bool,
    pub symmetric_replay_enabled: bool,
}

/// The resumption a carrier was granted.
#[derive(Clone, Copy, Debug)]
pub struct ResumeContext {
    pub requested_resume: Option<SessionId>,
    pub issued_session_id: Option<SessionId>,
    pub ack_prefix_requested: bool,
    pub symmetric_replay_requested: bool,
    pub client_acked_offset: u64,
}

/// The resumption headers of a response.
#[derive(Clone, Copy, Debug)]
pub struct ResumeResponseEcho {
    pub session_id: Option<SessionId>,
    pub ack_prefix: bool,
    pub symmetric_replay: bool,
}

impl Default for ResumeContext {
    fn default() -> (context: ResumeContext)
        ensures
            context == (ResumeContext {
                requested_resume: None,
                issued_session_id: None,
                ack_prefix_requested: false,
                symmetric_replay_requested: false,
                client_acked_offset: 0,
            }),
    {
        ResumeContext {
            requested_resume: None,
            issued_session_id: None,
            ack_prefix_requested: false,
            symmetric_replay_requested: false,
            client_acked_offset: 0,
        }
    }
}

impl Default for ResumeResponseEcho {
    fn default() -> (echo: ResumeResponseEcho)
        ensures
            echo == (ResumeResponseEcho {
                session_id: None,
                ack_prefix: false,
                symmetric_replay: false,
            }),
    {
        ResumeResponseEcho { session_id: None, ack_prefix: false, symmetric_replay: false }
    }
}

/// Whether a carrier is issued an id: the registry takes parks, and the client
/// can resume, or tried to.
pub open spec fn mints(request: ResumeRequest, registry: RegistryPolicy) -> bool {
    registry.enabled && (request.resume_capable || request.session_id is Some)
}

/// What a request is granted. Each capability rests on the one before it: nothing
/// without a registry, replay only on top of the acknowledged prefix, an offset
/// only for a replay of a session that is resumed here.
pub open spec fn granted(
    request: ResumeRequest,
    registry: RegistryPolicy,
    route: RouteDecision,
    minted: Option<SessionId>,
) -> ResumeContext {
    let requested_resume = if registry.enabled && route == RouteDecision::Local {
        request.session_id
    } else {
        None
    };
    let ack_prefix_requested = registry.enabled && request.ack_prefix;
    let symmetric_replay_requested = ack_prefix_requested && registry.symmetric_replay_enabled
        && request.symmetric_replay;
    ResumeContext {
        requested_resume,
        issued_session_id: if mints(request, registry) {
            minted
        } else {
            None
        },
        ack_prefix_requested,
        symmetric_replay_requested,
        client_acked_offset: if symmetric_replay_requested && requested_resume is Some {
            request.down_acked
        } else {
            0
        },
    }
}

/// Whether the registry is to mint an id for this request.
pub fn wants_session_id(request: &ResumeRequest, registry: RegistryPolicy) -> (wanted: bool)
    ensures
        wanted == mints(*request, registry),
{
    registry.enabled && (request.resume_capable || request.session_id.is_some())
}

impl ResumeContext {
    /// Grants a request. `minted` is the fresh id of a registry that mints one.
    pub fn grant(
        request: &ResumeRequest,
        registry: RegistryPolicy,
        route: RouteDecision,
        minted: Option<SessionId>,
    ) -> (context: ResumeContext)
        ensures
            context == granted(*request, registry, route, minted),
    {
        let requested_resume = match route {
            RouteDecision::Local => if registry.enabled {
                request.session_id
            } else {
                None
            },
            RouteDecision::Relay(_) => None,
        };
        let issued_session_id = if wants_session_id(request, registry) { minted } else { None };
        let ack_prefix_requested = registry.enabled && request.ack_prefix;
        let symmetric_replay_requested = ack_prefix_requested && registry.symmetric_replay_enabled
            && request.symmetric_replay;
        let client_acked_offset: u64 = if symmetric_replay_requested && requested_resume.is_some() {
            request.down_acked
        } else {
            0
        };
        ResumeContext {
            requested_resume,
            issued_session_id,
            ack_prefix_requested,
            symmetric_replay_requested,
            client_acked_offset,
        }
    }

    /// Reads a request's headers and grants what they ask for. `own` is this node's
    /// shard, `presented` the shard the requested id carries, `minted` the fresh id
    /// of a registry that mints one.
    pub fn from_request_headers(
        headers: &axum::http::HeaderMap,
        registry: RegistryPolicy,
        own: Option<ShardId>,
        presented: Option<ShardId>,
        minted: Option<SessionId>,
    ) -> (context: ResumeContext)
        ensures
            exists|request: ResumeRequest| #[trigger]
                says(*headers, request) && context == granted(
                    request,
                    registry,
                    route_of(
                        own,
                        if request.session_id is Some {
                            presented
                        } else {
                            None
                        },
                    ),
                    minted,
                ),
    {
        let request = ResumeRequest::read(headers);
        let presented = match request.session_id {
            Some(_) => presented,
            None => None,
        };
        let route = decide(own, presented);
        ResumeContext::grant(&request, registry, route, minted)
    }

    /// The response to a request this context was granted for.
    pub fn response_echo(&self) -> (echo: ResumeResponseEcho)
        ensures
            echo == (ResumeResponseEcho {
                session_id: self.issued_session_id,
                ack_prefix: self.ack_prefix_requested,
                symmetric_replay: self.symmetric_replay_requested,
            }),
    {
        ResumeResponseEcho {
            session_id: self.issued_session_id,
            ack_prefix: self.ack_prefix_requested,
            symmetric_replay: self.symmetric_replay_requested,
        }
    }

    /// The response on a path that confirms the id and no more.
    pub fn session_echo(&self) -> (echo: ResumeResponseEcho)
        ensures
            echo == (ResumeResponseEcho {
                session_id: self.issued_session_id,
                ack_prefix: false,
                symmetric_replay: false,
            }),
    {
        ResumeResponseEcho {
            session_id: self.issued_session_id,
            ack_prefix: false,
            symmetric_replay: false,
        }
    }
}

/// What an edge tells a home about the client it relays: the client's own words,
/// which the home judges by its own registry.
#[derive(Clone, Copy, Debug)]
pub struct EdgeResumeAdvert {
    pub session_id: SessionId,
    pub resume_capable: bool,
    pub ack_prefix: bool,
    pub symmetric_replay: bool,
    pub down_acked: u64,
}

/// Routes a request at the edge. `own` is this node's shard, `presented` the shard
/// the requested id carries. A relayed request comes with what the home is told.
pub fn edge_route(
    headers: &axum::http::HeaderMap,
    own: Option<ShardId>,
    presented: Option<ShardId>,
) -> (routed: (RouteDecision, Option<EdgeResumeAdvert>))
    ensures
        routed.0 == route_of(
            own,
            if names_session(*headers) {
                presented
            } else {
                None
            },
        ),
        routed.1 is Some <==> routed.0 is Relay,
        routed.1 matches Some(advert) ==> says(
            *headers,
            ResumeRequest {
                session_id: Some(advert.session_id),
                resume_capable: advert.resume_capable,
                ack_prefix: advert.ack_prefix,
                symmetric_replay: advert.symmetric_replay,
                down_acked: advert.down_acked,
            },
        ),
{
    let request = ResumeRequest::read(headers);
    match request.session_id {
        Some(session_id) => match decide(own, presented) {
            RouteDecision::Relay(shard) => (
                RouteDecision::Relay(shard),
                Some(
                    EdgeResumeAdvert {
                        session_id,
                        resume_capable: request.resume_capable,
                        ack_prefix: request.ack_prefix,
                        symmetric_replay: request.symmetric_replay,
                        down_acked: request.down_acked,
                    },
                ),
            ),
            RouteDecision::Local => (RouteDecision::Local, None),
        },
        None => (RouteDecision::Local, None),
    }
}

// ── The response ────────────────────────────────────────────────────────────

/// The bytes of a text in ASCII.
pub open spec fn ascii_bytes(text: Seq<char>) -> Seq<u8> {
    Seq::new(text.len(), |i: int| text[i] as u8)
}

/// A header map with an echo's id in it.
pub open spec fn with_id(headers: Map<Seq<char>, Seq<u8>>, echo: ResumeResponseEcho) -> Map<
    Seq<char>,
    Seq<u8>,
> {
    match echo.session_id {
        Some(id) => headers.insert(SESSION_RESPONSE_HEADER@, ascii_bytes(hex_text(id@))),
        None => headers,
    }
}

/// A header map with an echo's id and its word on the acknowledged prefix in it.
pub open spec fn with_prefix(headers: Map<Seq<char>, Seq<u8>>, echo: ResumeResponseEcho) -> Map<
    Seq<char>,
    Seq<u8>,
> {
    if echo.ack_prefix {
        with_id(headers, echo).insert(ACK_PREFIX_HEADER@, seq![49u8])
    } else {
        with_id(headers, echo)
    }
}

/// A header map with an echo in it.
pub open spec fn with_echo(
    headers: Map<Seq<char>, Seq<u8>>,
    echo: ResumeResponseEcho,
) -> Map<Seq<char>, Seq<u8>> {
    if echo.symmetric_replay {
        with_prefix(headers, echo).insert(SYMMETRIC_REPLAY_HEADER@, seq![49u8])
    } else {
        with_prefix(headers, echo)
    }
}

proof fn lemma_hex_text_is_visible(id: SessionId, text: &str)
    requires
        text@ == hex_text(id@),
    ensures
        text.spec_bytes() == ascii_bytes(hex_text(id@)),
        forall|i: int|
            0 <= i < text.spec_bytes().len() ==> is_visible(#[trigger] text.spec_bytes()[i]),
{
    assert forall|i: int| 0 <= i < text@.len() implies '0' <= #[trigger] text@[i] <= 'f' by {
        assert(0 <= id@[i / 2] as int / 16 < 16 && 0 <= id@[i / 2] as int % 16 < 16);
    }
    assert(is_ascii(text));
    is_ascii_spec_bytes(text);
    assert(text.spec_bytes() =~= ascii_bytes(hex_text(id@)));
}

impl ResumeResponseEcho {
    /// Writes the echo into a response's headers. `false` where the map is too full to
    /// take one of them; those before it are then in.
    pub fn apply(&self, headers: &mut axum::http::HeaderMap) -> (applied: bool)
        ensures
            header_count(*old(headers)) + 2 <= MAX_NAMES ==> applied,
            *self == (ResumeResponseEcho {
                session_id: None,
                ack_prefix: false,
                symmetric_replay: false,
            }) ==> applied,
            applied ==> header_values(*final(headers)) == with_echo(
                header_values(*old(headers)),
                *self,
            ),
            !applied ==> {
                ||| header_values(*final(headers)) == header_values(*old(headers))
                ||| header_values(*final(headers)) == with_id(header_values(*old(headers)), *self)
                ||| header_values(*final(headers)) == with_prefix(
                    header_values(*old(headers)),
                    *self,
                )
            },
    {
        proof {
            lemma_plain_names();
            reveal_strlit("1");
            is_ascii_spec_bytes("1");
            assert("1".spec_bytes() =~= seq![49u8]);
            assert(fits_value("1".spec_bytes()));
        }
        match self.session_id {
            Some(id) => {
                let spelled = id.to_hex();
                let text = spelled.as_str();
                proof {
                    lemma_hex_text_is_visible(id, text);
                    assert(fits_value(text.spec_bytes()));
                }
                if !set_text(headers, SESSION_RESPONSE_HEADER, text) {
                    return false;
                }
            },
            None => {},
        }
        if self.ack_prefix && !set_text(headers, ACK_PREFIX_HEADER, "1") {
            return false;
        }
        if self.symmetric_replay && !set_text(headers, SYMMETRIC_REPLAY_HEADER, "1") {
            return false;
        }
        true
    }
}

// ── Laws ────────────────────────────────────────────────────────────────────

/// Replay is only ever granted on top of the acknowledged prefix, and nothing at all
/// without a registry that takes parks.
pub proof fn law_capabilities_build_on_each_other(
    request: ResumeRequest,
    registry: RegistryPolicy,
    route: RouteDecision,
    minted: Option<SessionId>,
)
    ensures
        granted(request, registry, route, minted).symmetric_replay_requested ==> granted(
            request,
            registry,
            route,
            minted,
        ).ack_prefix_requested,
        granted(request, registry, route, minted).ack_prefix_requested ==> registry.enabled,
        granted(request, registry, route, minted).issued_session_id is Some ==> registry.enabled,
        granted(request, registry, route, minted).requested_resume is Some ==> registry.enabled,
        granted(request, registry, route, minted).client_acked_offset != 0 ==> granted(
            request,
            registry,
            route,
            minted,
        ).symmetric_replay_requested && granted(request, registry, route, minted).requested_resume
            is Some,
{
}

/// A session of another node is never resumed here.
pub proof fn law_a_foreign_session_is_not_resumed_here(
    request: ResumeRequest,
    registry: RegistryPolicy,
    own: ShardId,
    presented: ShardId,
    minted: Option<SessionId>,
)
    requires
        own != presented,
    ensures
        route_of(Some(own), Some(presented)) == RouteDecision::Relay(presented),
        granted(
            request,
            registry,
            route_of(Some(own), Some(presented)),
            minted,
        ).requested_resume is None,
{
}

/// The id a response carries reads back, at the next request, as the id the
/// session is parked under.
pub proof fn law_an_echoed_id_reads_back(headers: Map<Seq<char>, Seq<u8>>, echo: ResumeResponseEcho)
    requires
        echo.session_id is Some,
    ensures
        with_echo(headers, echo).dom().contains(SESSION_RESPONSE_HEADER@),
        spells(
            ascii_text(with_echo(headers, echo)[SESSION_RESPONSE_HEADER@]),
            echo.session_id->0@,
        ),
{
    let id = echo.session_id->0;
    reveal_strlit("x-outline-resume-ack-prefix");
    reveal_strlit("x-outline-resume-symmetric-replay");
    reveal_strlit("x-outline-session");
    assert(SESSION_RESPONSE_HEADER@.len() != ACK_PREFIX_HEADER@.len());
    assert(SESSION_RESPONSE_HEADER@.len() != SYMMETRIC_REPLAY_HEADER@.len());
    crate::session::law_hex_round_trip(id, hex_text(id@), id);
    let text = ascii_text(with_echo(headers, echo)[SESSION_RESPONSE_HEADER@]);
    assert(text =~= hex_text(id@)) by {
        assert forall|i: int| 0 <= i < 32 implies text[i] == #[trigger] hex_text(id@)[i] by {
            assert(0 <= id@[i / 2] as int / 16 < 16 && 0 <= id@[i / 2] as int % 16 < 16);
        }
    }
}

// ── What negotiating is for ─────────────────────────────────────────────────

/// A session that is named is resumed: with a registry, on the node that is to serve it,
/// whatever else the request says or leaves out. Two requests that name the same session
/// are granted the same resume, however they differ.
pub proof fn law_a_named_session_is_resumed(
    request: ResumeRequest,
    other: ResumeRequest,
    registry: RegistryPolicy,
    route: RouteDecision,
    minted: Option<SessionId>,
    again: Option<SessionId>,
)
    requires
        request.session_id == other.session_id,
    ensures
        registry.enabled && route == RouteDecision::Local ==> granted(
            request,
            registry,
            route,
            minted,
        ).requested_resume == request.session_id,
        !registry.enabled || route is Relay ==> granted(
            request,
            registry,
            route,
            minted,
        ).requested_resume is None,
        granted(request, registry, route, minted).requested_resume == granted(
            other,
            registry,
            route,
            again,
        ).requested_resume,
{
}

/// A client that can come back is told how: it is issued the fresh id exactly where the
/// registry takes parks and the client says that it resumes sessions or names one, and
/// that wherever the session is served.
pub proof fn law_a_client_that_can_come_back_is_issued_an_id(
    request: ResumeRequest,
    registry: RegistryPolicy,
    route: RouteDecision,
    minted: Option<SessionId>,
)
    ensures
        registry.enabled && (request.resume_capable || request.session_id is Some) ==> granted(
            request,
            registry,
            route,
            minted,
        ).issued_session_id == minted,
        !registry.enabled || !(request.resume_capable || request.session_id is Some) ==> granted(
            request,
            registry,
            route,
            minted,
        ).issued_session_id is None,
        mints(request, registry) <==> registry.enabled && (request.resume_capable
            || request.session_id is Some),
{
}

/// A capability is granted exactly where the client asks for it and everything it rests
/// on is there, and the client's offset counts exactly where there is something to replay
/// from it.
pub proof fn law_a_capability_is_granted_where_it_is_asked_for(
    request: ResumeRequest,
    registry: RegistryPolicy,
    route: RouteDecision,
    minted: Option<SessionId>,
)
    ensures
        ({
            let context = granted(request, registry, route, minted);
            &&& context.ack_prefix_requested <==> registry.enabled && request.ack_prefix
            &&& context.symmetric_replay_requested <==> registry.enabled && request.ack_prefix
                && registry.symmetric_replay_enabled && request.symmetric_replay
            &&& context.symmetric_replay_requested && request.session_id is Some && route
                == RouteDecision::Local ==> context.client_acked_offset == request.down_acked
            &&& !(context.symmetric_replay_requested && request.session_id is Some && route
                == RouteDecision::Local) ==> context.client_acked_offset == 0
        }),
{
}

/// A session is served by the node whose number its id carries: it is relayed exactly
/// where this node has a number, the id carries one, and they differ, and then to that
/// one.
pub proof fn law_a_session_is_served_by_its_own_node(
    own: Option<ShardId>,
    presented: Option<ShardId>,
    home: ShardId,
)
    ensures
        route_of(own, presented) == RouteDecision::Relay(home) <==> presented == Some(home) && own
            is Some && own != Some(home),
        own is Some ==> route_of(own, own) == RouteDecision::Local,
        route_of(None, presented) == RouteDecision::Local,
        route_of(own, None) == RouteDecision::Local,
{
}

/// What is read off a request is what its headers say: the named session where the header
/// spells one, each flag where its own header says `1`, and the offset where its header
/// spells a number, 0 otherwise.
pub proof fn law_a_request_says_what_its_headers_say(
    headers: axum::http::HeaderMap,
    request: ResumeRequest,
)
    requires
        says(headers, request),
    ensures
        request.session_id is Some <==> header_text(headers, RESUME_REQUEST_HEADER@) is Some
            && is_hex_id(header_text(headers, RESUME_REQUEST_HEADER@)->0),
        request.session_id matches Some(id) ==> spells(
            header_text(headers, RESUME_REQUEST_HEADER@)->0,
            id@,
        ),
        names_session(headers) <==> request.session_id is Some,
        request.resume_capable <==> header_text(headers, RESUME_CAPABLE_HEADER@) is Some && trimmed(
            header_text(headers, RESUME_CAPABLE_HEADER@)->0,
        ) == seq!['1'],
        request.ack_prefix <==> header_text(headers, ACK_PREFIX_HEADER@) is Some && trimmed(
            header_text(headers, ACK_PREFIX_HEADER@)->0,
        ) == seq!['1'],
        request.symmetric_replay <==> header_text(headers, SYMMETRIC_REPLAY_HEADER@) is Some
            && trimmed(header_text(headers, SYMMETRIC_REPLAY_HEADER@)->0) == seq!['1'],
        ({
            let text = header_text(headers, DOWN_ACKED_HEADER@);
            let number = decimal_u64(trimmed(text->0));
            &&& text is Some && number is Some ==> request.down_acked == number->0
            &&& text is None || number is None ==> request.down_acked == 0
        }),
{
}

/// A response says what the client was granted and nothing else: the id where there is
/// one, spelled, each capability where it was granted, and every other header what it
/// said before.
pub proof fn law_a_response_says_what_was_granted(
    headers: Map<Seq<char>, Seq<u8>>,
    echo: ResumeResponseEcho,
    name: Seq<char>,
)
    ensures
        ({
            let told = with_echo(headers, echo);
            &&& echo.session_id matches Some(id) ==> told.dom().contains(SESSION_RESPONSE_HEADER@)
                && told[SESSION_RESPONSE_HEADER@] == ascii_bytes(hex_text(id@))
            &&& echo.ack_prefix ==> told.dom().contains(ACK_PREFIX_HEADER@)
                && told[ACK_PREFIX_HEADER@] == seq![49u8]
            &&& echo.symmetric_replay ==> told.dom().contains(SYMMETRIC_REPLAY_HEADER@)
                && told[SYMMETRIC_REPLAY_HEADER@] == seq![49u8]
            &&& !(echo.session_id is Some && name == SESSION_RESPONSE_HEADER@) && !(echo.ack_prefix
                && name == ACK_PREFIX_HEADER@) && !(echo.symmetric_replay && name
                == SYMMETRIC_REPLAY_HEADER@) ==> {
                &&& told.dom().contains(name) <==> headers.dom().contains(name)
                &&& headers.dom().contains(name) ==> told[name] == headers[name]
            }
        }),
{
    reveal_strlit("x-outline-resume-ack-prefix");
    reveal_strlit("x-outline-resume-symmetric-replay");
    reveal_strlit("x-outline-session");
    assert(SESSION_RESPONSE_HEADER@.len() != ACK_PREFIX_HEADER@.len());
    assert(SESSION_RESPONSE_HEADER@.len() != SYMMETRIC_REPLAY_HEADER@.len());
    assert(ACK_PREFIX_HEADER@.len() != SYMMETRIC_REPLAY_HEADER@.len());
}

/// A response confirms exactly what was granted, and on a path that only has sessions the
/// session alone.
pub proof fn law_an_echo_is_what_was_granted(
    context: ResumeContext,
    whole: ResumeResponseEcho,
    session: ResumeResponseEcho,
)
    requires
        call_ensures(ResumeContext::response_echo, (&context,), whole),
        call_ensures(ResumeContext::session_echo, (&context,), session),
    ensures
        whole.session_id == context.issued_session_id && session.session_id
            == context.issued_session_id,
        whole.ack_prefix == context.ack_prefix_requested,
        whole.symmetric_replay == context.symmetric_replay_requested,
        !session.ack_prefix && !session.symmetric_replay,
{
}

/// From the headers to the grant: a request that spells a session of this node is granted
/// that session, whatever its other headers say, and one that spells none, or one of
/// another node, is granted no resume. A relayed request tells the home the very session
/// it spells.
pub proof fn law_a_spelled_session_is_granted_or_relayed(
    headers: axum::http::HeaderMap,
    registry: RegistryPolicy,
    own: Option<ShardId>,
    presented: Option<ShardId>,
    minted: Option<SessionId>,
    context: ResumeContext,
    routed: (RouteDecision, Option<EdgeResumeAdvert>),
)
    requires
        call_ensures(
            ResumeContext::from_request_headers,
            (&headers, registry, own, presented, minted),
            context,
        ),
        call_ensures(edge_route, (&headers, own, presented), routed),
    ensures
        ({
            let text = header_text(headers, RESUME_REQUEST_HEADER@);
            let spelled = text is Some && is_hex_id(text->0);
            let foreign = own is Some && presented is Some && own != presented;
            &&& context.requested_resume is Some <==> registry.enabled && spelled && !foreign
            &&& context.requested_resume matches Some(id) ==> spells(text->0, id@)
            &&& routed.0 is Relay <==> spelled && foreign
            &&& routed.0 matches RouteDecision::Relay(home) ==> presented == Some(home)
            &&& routed.1 is Some <==> routed.0 is Relay
            &&& routed.1 matches Some(advert) ==> spells(text->0, advert.session_id@)
        }),
{
}

} // verus!
