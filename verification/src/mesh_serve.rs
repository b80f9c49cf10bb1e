//! A home's handling of one relayed stream, from the opening frame to the splice.
//!
//! The home admits a stream in two phases. It first asks the registry, without
//! taking anything, whether a park the stream could carry exists, and answers the
//! edge; only then does the edge name its user, and only then is the park taken.

use vstd::prelude::*;
use crate::mesh_pump::SpliceKind;
use crate::mesh_wire::{CloseReason, MeshFraming, MeshProtocol, MeshShape};

verus! {

/// What a parked session can be spliced as.
#[derive(Clone, Copy, Debug, PartialEq, Eq, Structural)]
pub enum ParkShape {
    Stream,
    Datagram,
    VlessUdpSingle,
    VlessMux,
}

/// The park a relay asks for.
#[derive(Clone, Copy, Debug, PartialEq, Eq, Structural)]
pub enum ParkQuery {
    Exact(ParkShape),
    AnyVless,
}

/// What the registry answers to a query, without taking anything.
#[derive(Clone, Copy, Debug, PartialEq, Eq, Structural)]
pub enum ParkProbe {
    /// A park the query allows exists, or is about to; its shape where it is known.
    Splicable(Option<ParkShape>),
    Missing,
    /// A park exists that the query does not allow.
    OtherShape,
}

/// The proxy protocol a parked byte stream was authenticated under.
#[derive(Clone, Copy, Debug, PartialEq, Eq, Structural)]
pub enum TcpProtocolContext {
    Ss,
    Vless,
}

/// What the registry hands out.
#[derive(Clone, Copy, Debug, PartialEq, Eq, Structural)]
pub enum ParkedKind {
    Tcp(TcpProtocolContext),
    SsUdpStream,
    VlessUdpSingle,
    VlessMux,
}

/// Why the registry hands out nothing.
#[derive(Clone, Copy, Debug, PartialEq, Eq, Structural)]
pub enum ResumeMiss {
    OwnerMismatch,
    Gone,
}

/// What the relay's opening frame asks for.
#[derive(Clone, Copy, Debug, PartialEq, Eq, Structural)]
pub struct RelayRequest {
    pub framing: MeshFraming,
    pub protocol: MeshProtocol,
}

/// Whether a relay that terminated `relayed` may carry a byte stream parked under
/// `parked`.
pub fn protocol_matches(relayed: MeshProtocol, parked: TcpProtocolContext) -> (matching: bool)
    ensures
        matching == same_protocol(relayed, parked),
{
    match (relayed, parked) {
        (MeshProtocol::Ss, TcpProtocolContext::Ss) => true,
        (MeshProtocol::Vless, TcpProtocolContext::Vless) => true,
        _ => false,
    }
}

pub open spec fn same_protocol(relayed: MeshProtocol, parked: TcpProtocolContext) -> bool {
    relayed == MeshProtocol::Ss <==> parked == TcpProtocolContext::Ss
}

pub open spec fn wire_shape(shape: ParkShape) -> MeshShape {
    match shape {
        ParkShape::Stream => MeshShape::Stream,
        ParkShape::Datagram => MeshShape::Datagram,
        ParkShape::VlessUdpSingle => MeshShape::VlessUdpSingle,
        ParkShape::VlessMux => MeshShape::VlessMux,
    }
}

/// The shape as it goes over the wire.
pub fn mesh_shape(shape: ParkShape) -> (wire: MeshShape)
    ensures
        wire == wire_shape(shape),
{
    match shape {
        ParkShape::Stream => MeshShape::Stream,
        ParkShape::Datagram => MeshShape::Datagram,
        ParkShape::VlessUdpSingle => MeshShape::VlessUdpSingle,
        ParkShape::VlessMux => MeshShape::VlessMux,
    }
}

pub open spec fn query_of(request: RelayRequest) -> Option<ParkQuery> {
    match (request.framing, request.protocol) {
        (MeshFraming::Tcp, MeshProtocol::Ss) => Some(ParkQuery::Exact(ParkShape::Stream)),
        (MeshFraming::Udp, MeshProtocol::Ss) => Some(ParkQuery::Exact(ParkShape::Datagram)),
        (MeshFraming::Tcp, MeshProtocol::Vless) => Some(ParkQuery::AnyVless),
        (MeshFraming::Udp, MeshProtocol::Vless) => None,
    }
}

/// The park a relay can carry. VLESS multiplexes TCP, UDP and mux onto one byte
/// carrier, so a datagram-framed VLESS relay names no park at all.
pub fn park_query(request: &RelayRequest) -> (query: Option<ParkQuery>)
    ensures
        query == query_of(*request),
{
    match (request.framing, request.protocol) {
        (MeshFraming::Tcp, MeshProtocol::Ss) => Some(ParkQuery::Exact(ParkShape::Stream)),
        (MeshFraming::Udp, MeshProtocol::Ss) => Some(ParkQuery::Exact(ParkShape::Datagram)),
        (MeshFraming::Tcp, MeshProtocol::Vless) => Some(ParkQuery::AnyVless),
        (MeshFraming::Udp, MeshProtocol::Vless) => None,
    }
}

// ── Refusals ────────────────────────────────────────────────────────────────

/// The counted reason for a refusal.
#[derive(Clone, Copy, Debug, PartialEq, Eq, Structural)]
pub enum RejectReason {
    BadSetup,
    Capacity,
    NoSession,
    ParkShape,
    UnknownUser,
    FramingMismatch,
    ProtocolMismatch,
    ParkIdentity,
    ParkIncomplete,
}

impl RejectReason {
    /// The metric label of the reason.
    pub fn label(self) -> (label: &'static str)
        ensures
            label@ == match self {
                RejectReason::BadSetup => "bad_setup"@,
                RejectReason::Capacity => "capacity"@,
                RejectReason::NoSession => "no_session"@,
                RejectReason::ParkShape => "park_shape"@,
                RejectReason::UnknownUser => "unknown_user"@,
                RejectReason::FramingMismatch => "framing_mismatch"@,
                RejectReason::ProtocolMismatch => "protocol_mismatch"@,
                RejectReason::ParkIdentity => "park_identity"@,
                RejectReason::ParkIncomplete => "park_incomplete"@,
            },
    {
        match self {
            RejectReason::BadSetup => "bad_setup",
            RejectReason::Capacity => "capacity",
            RejectReason::NoSession => "no_session",
            RejectReason::ParkShape => "park_shape",
            RejectReason::UnknownUser => "unknown_user",
            RejectReason::FramingMismatch => "framing_mismatch",
            RejectReason::ProtocolMismatch => "protocol_mismatch",
            RejectReason::ParkIdentity => "park_identity",
            RejectReason::ParkIncomplete => "park_incomplete",
        }
    }
}

/// How a relay is counted once it is over.
#[derive(Clone, Copy, Debug, PartialEq, Eq, Structural)]
pub enum RelayOutcome {
    Hit,
    Miss,
    Error,
}

impl RelayOutcome {
    /// The metric label of the outcome.
    pub fn label(self) -> (label: &'static str)
        ensures
            label@ == match self {
                RelayOutcome::Hit => "hit"@,
                RelayOutcome::Miss => "miss"@,
                RelayOutcome::Error => "error"@,
            },
    {
        match self {
            RelayOutcome::Hit => "hit",
            RelayOutcome::Miss => "miss",
            RelayOutcome::Error => "error",
        }
    }
}

/// A refusal: count the reason and the outcome, put a taken park back where
/// `put_back` says so, and reset both halves of the stream with `close`.
#[derive(Clone, Copy, Debug, PartialEq, Eq, Structural)]
pub struct Refusal {
    pub rejected: RejectReason,
    pub outcome: RelayOutcome,
    pub close: CloseReason,
    pub put_back: bool,
}

/// A refusal whose relay never learnt what it may carry.
pub open spec fn bad_setup() -> Refusal {
    Refusal {
        rejected: RejectReason::BadSetup,
        outcome: RelayOutcome::Error,
        close: CloseReason::Abort,
        put_back: false,
    }
}

/// A refusal for want of a session; the edge serves its client itself.
pub open spec fn no_session(rejected: RejectReason) -> Refusal {
    Refusal {
        rejected,
        outcome: RelayOutcome::Miss,
        close: CloseReason::NoSession,
        put_back: false,
    }
}

/// A refusal of a park that was already taken.
pub open spec fn mismatch(rejected: RejectReason, put_back: bool) -> Refusal {
    Refusal { rejected, outcome: RelayOutcome::Miss, close: CloseReason::Abort, put_back }
}

// ── The machine ─────────────────────────────────────────────────────────────

/// Where the home stands with a relayed stream.
#[derive(Clone, Copy, Debug, PartialEq, Eq, Structural)]
pub enum ServePhase {
    Probing { query: ParkQuery },
    Acking { shape: ParkShape },
    AwaitingUser { shape: ParkShape },
    Reprobing { shape: ParkShape },
    Taking { shape: ParkShape },
    Done,
}

/// How reading the edge's user frame went.
#[derive(Clone, Copy, Debug, PartialEq, Eq, Structural)]
pub enum UserRead {
    Frame,
    Unusable,
    TimedOut,
}

/// What the home is told.
#[derive(Clone, Copy, Debug, PartialEq, Eq, Structural)]
pub enum ServeEvent {
    Probed(ParkProbe),
    AckWritten,
    AckFailed,
    User(UserRead),
    Taken(ParkedKind),
    Missed(ResumeMiss),
}

/// What the home does next.
#[derive(Clone, Copy, Debug, PartialEq, Eq, Structural)]
pub enum ServeAction {
    /// Ask the registry, without taking anything.
    Probe(ParkQuery),
    /// Tell the edge that it is admitted, and with which shape.
    WriteAck(MeshShape),
    /// Wait for the edge to name its user.
    ReadUser,
    /// Take the park for that user.
    Take,
    Refuse(Refusal),
    /// Count an error and end with the write's error.
    Fail,
    Splice(SpliceKind),
}

/// Which event a phase waits for.
pub open spec fn serve_accepts(phase: ServePhase, event: ServeEvent) -> bool {
    match phase {
        ServePhase::Probing { .. } => event is Probed,
        ServePhase::Acking { .. } => event is AckWritten || event is AckFailed,
        ServePhase::AwaitingUser { .. } => event is User,
        ServePhase::Reprobing { .. } => event is Probed,
        ServePhase::Taking { .. } => event is Taken || event is Missed,
        ServePhase::Done => false,
    }
}

/// What a query settles on when the registry knows of a park but not its shape.
pub open spec fn shape_or_default(query: ParkQuery, known: Option<ParkShape>) -> ParkShape {
    match known {
        Some(shape) => shape,
        None => match query {
            ParkQuery::Exact(shape) => shape,
            ParkQuery::AnyVless => ParkShape::Stream,
        },
    }
}

/// The splice for a park taken under an admitted shape, if the two fit.
pub open spec fn splice_kind(shape: ParkShape, parked: ParkedKind) -> Option<SpliceKind> {
    match (shape, parked) {
        (ParkShape::Stream, ParkedKind::Tcp(_)) => Some(SpliceKind::Tcp),
        (ParkShape::Datagram, ParkedKind::SsUdpStream) => Some(SpliceKind::SsUdp),
        (ParkShape::VlessUdpSingle, ParkedKind::VlessUdpSingle) => Some(SpliceKind::VlessUdp),
        (ParkShape::VlessMux, ParkedKind::VlessMux) => Some(SpliceKind::VlessMux),
        _ => None,
    }
}

/// Whether a park may be carried by a relay of this protocol.
pub open spec fn protocol_allows(protocol: MeshProtocol, parked: ParkedKind) -> bool {
    match parked {
        ParkedKind::Tcp(context) => same_protocol(protocol, context),
        ParkedKind::SsUdpStream => protocol == MeshProtocol::Ss,
        ParkedKind::VlessUdpSingle => protocol == MeshProtocol::Vless,
        ParkedKind::VlessMux => protocol == MeshProtocol::Vless,
    }
}

/// How a relay starts. Datagram framing is Shadowsocks' alone, so a relay that claims
/// another protocol over it is refused for its protocol.
pub open spec fn serve_start(request: RelayRequest) -> (ServePhase, ServeAction) {
    match query_of(request) {
        Some(query) => (ServePhase::Probing { query }, ServeAction::Probe(query)),
        None => (
            ServePhase::Done,
            ServeAction::Refuse(mismatch(RejectReason::ProtocolMismatch, false)),
        ),
    }
}

/// What is done with a park once it is taken. A park that does not fit goes back
/// where the registry takes parks at all; so does a mux claimed under another
/// protocol.
pub open spec fn serve_taken(
    protocol: MeshProtocol,
    shape: ParkShape,
    parked: ParkedKind,
    enabled: bool,
) -> ServeAction {
    match splice_kind(shape, parked) {
        None => ServeAction::Refuse(mismatch(RejectReason::FramingMismatch, enabled)),
        Some(kind) => if protocol_allows(protocol, parked) {
            ServeAction::Splice(kind)
        } else {
            ServeAction::Refuse(
                mismatch(
                    RejectReason::ProtocolMismatch,
                    enabled && parked == ParkedKind::VlessMux,
                ),
            )
        },
    }
}

pub open spec fn serve_next(
    request: RelayRequest,
    phase: ServePhase,
    event: ServeEvent,
    enabled: bool,
) -> (ServePhase, ServeAction) {
    match (phase, event) {
        (ServePhase::Probing { query }, ServeEvent::Probed(probe)) => match probe {
            ParkProbe::Splicable(known) => {
                let shape = shape_or_default(query, known);
                (ServePhase::Acking { shape }, ServeAction::WriteAck(wire_shape(shape)))
            },
            ParkProbe::Missing => (
                ServePhase::Done,
                ServeAction::Refuse(no_session(RejectReason::NoSession)),
            ),
            ParkProbe::OtherShape => (
                ServePhase::Done,
                ServeAction::Refuse(no_session(RejectReason::ParkShape)),
            ),
        },
        (ServePhase::Acking { shape }, ServeEvent::AckWritten) => (
            ServePhase::AwaitingUser { shape },
            ServeAction::ReadUser,
        ),
        (ServePhase::Acking { .. }, ServeEvent::AckFailed) => (ServePhase::Done, ServeAction::Fail),
        (ServePhase::AwaitingUser { shape }, ServeEvent::User(read)) => if read == UserRead::Frame {
            (ServePhase::Reprobing { shape }, ServeAction::Probe(ParkQuery::Exact(shape)))
        } else {
            (ServePhase::Done, ServeAction::Refuse(bad_setup()))
        },
        (ServePhase::Reprobing { shape }, ServeEvent::Probed(probe)) => match probe {
            ParkProbe::Splicable(_) => (ServePhase::Taking { shape }, ServeAction::Take),
            ParkProbe::Missing => (
                ServePhase::Done,
                ServeAction::Refuse(no_session(RejectReason::NoSession)),
            ),
            ParkProbe::OtherShape => (
                ServePhase::Done,
                ServeAction::Refuse(no_session(RejectReason::ParkShape)),
            ),
        },
        (ServePhase::Taking { .. }, ServeEvent::Missed(miss)) => (
            ServePhase::Done,
            ServeAction::Refuse(
                no_session(
                    if miss == ResumeMiss::OwnerMismatch {
                        RejectReason::UnknownUser
                    } else {
                        RejectReason::NoSession
                    },
                ),
            ),
        ),
        (ServePhase::Taking { shape }, ServeEvent::Taken(parked)) => (
            ServePhase::Done,
            serve_taken(request.protocol, shape, parked, enabled),
        ),
        _ => (phase, ServeAction::Fail),
    }
}

/// The serving of one relayed stream.
#[derive(Clone, Copy, Debug, PartialEq, Eq, Structural)]
pub struct ServeRelayed {
    pub request: RelayRequest,
    pub phase: ServePhase,
}

fn refuse_probe(probe: ParkProbe) -> (refusal: Refusal)
    requires
        probe is Missing || probe is OtherShape,
    ensures
        refusal == no_session(
            if probe is Missing {
                RejectReason::NoSession
            } else {
                RejectReason::ParkShape
            },
        ),
{
    let rejected = match probe {
        ParkProbe::Missing => RejectReason::NoSession,
        _ => RejectReason::ParkShape,
    };
    Refusal {
        rejected,
        outcome: RelayOutcome::Miss,
        close: CloseReason::NoSession,
        put_back: false,
    }
}

fn refuse_bad_setup() -> (refusal: Refusal)
    ensures
        refusal == bad_setup(),
{
    Refusal {
        rejected: RejectReason::BadSetup,
        outcome: RelayOutcome::Error,
        close: CloseReason::Abort,
        put_back: false,
    }
}

/// Settles what is done with a park that was taken under an admitted shape.
pub fn settle_taken(
    protocol: MeshProtocol,
    shape: ParkShape,
    parked: ParkedKind,
    registry_enabled: bool,
) -> (action: ServeAction)
    ensures
        action == serve_taken(protocol, shape, parked, registry_enabled),
{
    let kind = match (shape, parked) {
        (ParkShape::Stream, ParkedKind::Tcp(_)) => SpliceKind::Tcp,
        (ParkShape::Datagram, ParkedKind::SsUdpStream) => SpliceKind::SsUdp,
        (ParkShape::VlessUdpSingle, ParkedKind::VlessUdpSingle) => SpliceKind::VlessUdp,
        (ParkShape::VlessMux, ParkedKind::VlessMux) => SpliceKind::VlessMux,
        _ => {
            return ServeAction::Refuse(
                Refusal {
                    rejected: RejectReason::FramingMismatch,
                    outcome: RelayOutcome::Miss,
                    close: CloseReason::Abort,
                    put_back: registry_enabled,
                },
            );
        },
    };
    let allowed = match parked {
        ParkedKind::Tcp(context) => protocol_matches(protocol, context),
        ParkedKind::SsUdpStream => protocol == MeshProtocol::Ss,
        ParkedKind::VlessUdpSingle => protocol == MeshProtocol::Vless,
        ParkedKind::VlessMux => protocol == MeshProtocol::Vless,
    };
    if allowed {
        ServeAction::Splice(kind)
    } else {
        ServeAction::Refuse(
            Refusal {
                rejected: RejectReason::ProtocolMismatch,
                outcome: RelayOutcome::Miss,
                close: CloseReason::Abort,
                put_back: registry_enabled && parked == ParkedKind::VlessMux,
            },
        )
    }
}

impl ServeRelayed {
    /// Starts on a relay's opening frame.
    pub fn begin(request: RelayRequest) -> (started: (ServeRelayed, ServeAction))
        ensures
            started.0.request == request,
            (started.0.phase, started.1) == serve_start(request),
    {
        match park_query(&request) {
            Some(query) => (
                ServeRelayed { request, phase: ServePhase::Probing { query } },
                ServeAction::Probe(query),
            ),
            None => (
                ServeRelayed { request, phase: ServePhase::Done },
                ServeAction::Refuse(
                    Refusal {
                        rejected: RejectReason::ProtocolMismatch,
                        outcome: RelayOutcome::Miss,
                        close: CloseReason::Abort,
                        put_back: false,
                    },
                ),
            ),
        }
    }

    /// Takes in what the last action brought.
    pub fn step(&mut self, event: ServeEvent, registry_enabled: bool) -> (action: ServeAction)
        requires
            serve_accepts(old(self).phase, event),
        ensures
            final(self).request == old(self).request,
            (final(self).phase, action) == serve_next(
                old(self).request,
                old(self).phase,
                event,
                registry_enabled,
            ),
    {
        match (self.phase, event) {
            (ServePhase::Probing { query }, ServeEvent::Probed(ParkProbe::Splicable(known))) => {
                let shape = match known {
                    Some(shape) => shape,
                    None => match query {
                        ParkQuery::Exact(shape) => shape,
                        ParkQuery::AnyVless => ParkShape::Stream,
                    },
                };
                self.phase = ServePhase::Acking { shape };
                ServeAction::WriteAck(mesh_shape(shape))
            },
            (ServePhase::Reprobing { shape }, ServeEvent::Probed(ParkProbe::Splicable(_))) => {
                self.phase = ServePhase::Taking { shape };
                ServeAction::Take
            },
            (_, ServeEvent::Probed(probe)) => {
                self.phase = ServePhase::Done;
                ServeAction::Refuse(refuse_probe(probe))
            },
            (ServePhase::Acking { shape }, ServeEvent::AckWritten) => {
                self.phase = ServePhase::AwaitingUser { shape };
                ServeAction::ReadUser
            },
            (ServePhase::AwaitingUser { shape }, ServeEvent::User(UserRead::Frame)) => {
                self.phase = ServePhase::Reprobing { shape };
                ServeAction::Probe(ParkQuery::Exact(shape))
            },
            (_, ServeEvent::User(_)) => {
                self.phase = ServePhase::Done;
                ServeAction::Refuse(refuse_bad_setup())
            },
            (ServePhase::Taking { .. }, ServeEvent::Missed(miss)) => {
                self.phase = ServePhase::Done;
                let rejected = match miss {
                    ResumeMiss::OwnerMismatch => RejectReason::UnknownUser,
                    ResumeMiss::Gone => RejectReason::NoSession,
                };
                ServeAction::Refuse(
                    Refusal {
                        rejected,
                        outcome: RelayOutcome::Miss,
                        close: CloseReason::NoSession,
                        put_back: false,
                    },
                )
            },
            (ServePhase::Taking { shape }, ServeEvent::Taken(parked)) => {
                self.phase = ServePhase::Done;
                settle_taken(self.request.protocol, shape, parked, registry_enabled)
            },
            _ => {
                self.phase = ServePhase::Done;
                ServeAction::Fail
            },
        }
    }
}

// ── Runs and laws ───────────────────────────────────────────────────────────

/// The phase after a run of events.
pub open spec fn serve_run(request: RelayRequest, enabled: bool, events: Seq<ServeEvent>) -> ServePhase
    decreases events.len(),
{
    if events.len() == 0 {
        serve_start(request).0
    } else {
        serve_next(request, serve_run(request, enabled, events.drop_last()), events.last(), enabled).0
    }
}

/// Every event of the run is one its phase waits for.
pub open spec fn serve_run_ok(request: RelayRequest, enabled: bool, events: Seq<ServeEvent>) -> bool
    decreases events.len(),
{
    events.len() == 0 || (serve_run_ok(request, enabled, events.drop_last()) && serve_accepts(
        serve_run(request, enabled, events.drop_last()),
        events.last(),
    ))
}

/// Everything a run asks of the home, in order.
pub open spec fn serve_actions(request: RelayRequest, enabled: bool, events: Seq<ServeEvent>) -> Seq<
    ServeAction,
>
    decreases events.len(),
{
    if events.len() == 0 {
        seq![serve_start(request).1]
    } else {
        serve_actions(request, enabled, events.drop_last()).push(
            serve_next(
                request,
                serve_run(request, enabled, events.drop_last()),
                events.last(),
                enabled,
            ).1,
        )
    }
}

/// An action that ends the handling of the stream. A refusal and a failure each
/// record one outcome; a splice records one when it closes.
pub open spec fn ends_relay(action: ServeAction) -> bool {
    action is Refuse || action is Fail || action is Splice
}

/// Every relay is accounted for exactly once: a run that is over ended with one
/// closing action and had none before; a run that is not over had none.
pub proof fn law_every_relay_ends_once(request: RelayRequest, enabled: bool, events: Seq<ServeEvent>)
    requires
        serve_run_ok(request, enabled, events),
    ensures
        serve_actions(request, enabled, events).len() == events.len() + 1,
        forall|i: int|
            0 <= i < events.len() ==> !ends_relay(#[trigger] serve_actions(request, enabled, events)[i]),
        ends_relay(serve_actions(request, enabled, events).last()) <==> serve_run(
            request,
            enabled,
            events,
        ) == ServePhase::Done,
    decreases events.len(),
{
    if events.len() > 0 {
        law_every_relay_ends_once(request, enabled, events.drop_last());
    }
}

/// A refusal before the park is taken leaves the park alone, and a run takes at
/// most one park: whatever is refused earlier stays claimable.
pub proof fn law_a_park_is_taken_last(request: RelayRequest, enabled: bool, events: Seq<ServeEvent>)
    requires
        serve_run_ok(request, enabled, events),
    ensures
        forall|i: int|
            0 <= i < events.len() && #[trigger] serve_actions(request, enabled, events)[i]
                == ServeAction::Take ==> i + 1 == events.len(),
        serve_run(request, enabled, events) is Taking <==> serve_actions(request, enabled, events).last()
            == ServeAction::Take,
    decreases events.len(),
{
    if events.len() > 0 {
        let prefix = events.drop_last();
        law_a_park_is_taken_last(request, enabled, prefix);
        law_every_relay_ends_once(request, enabled, prefix);
        assert(serve_run_ok(request, enabled, prefix));
        if prefix.len() > 0 {
            assert(serve_run_ok(request, enabled, prefix.drop_last()));
            law_a_park_is_taken_last(request, enabled, prefix.drop_last());
            law_every_relay_ends_once(request, enabled, prefix.drop_last());
        }
    }
}

/// A relay never crosses the proxy protocol boundary: what is spliced was parked
/// under the protocol the edge terminated, and fits the shape it was taken for.
pub proof fn law_a_splice_keeps_shape_and_protocol(
    request: RelayRequest,
    phase: ServePhase,
    event: ServeEvent,
    enabled: bool,
)
    requires
        serve_accepts(phase, event),
        serve_next(request, phase, event, enabled).1 is Splice,
    ensures
        event is Taken,
        phase is Taking,
        protocol_allows(request.protocol, event->Taken_0),
        splice_kind(phase->Taking_shape, event->Taken_0) == Some(
            serve_next(request, phase, event, enabled).1->Splice_0,
        ),
{
}

/// What a run that is still under way has told the edge: nothing while it asks the
/// registry, and then the one shape it goes on with.
proof fn lemma_the_edge_was_told(request: RelayRequest, enabled: bool, events: Seq<ServeEvent>)
    requires
        serve_run_ok(request, enabled, events),
    ensures
        ({
            let actions = serve_actions(request, enabled, events);
            match serve_run(request, enabled, events) {
                ServePhase::Probing { .. } => events.len() == 0,
                ServePhase::Acking { shape } => events.len() == 1 && actions[1]
                    == ServeAction::WriteAck(wire_shape(shape)),
                ServePhase::AwaitingUser { shape } => events.len() == 2 && actions[1]
                    == ServeAction::WriteAck(wire_shape(shape)),
                ServePhase::Reprobing { shape } => events.len() == 3 && actions[1]
                    == ServeAction::WriteAck(wire_shape(shape)) && events[2] == ServeEvent::User(
                    UserRead::Frame,
                ),
                ServePhase::Taking { shape } => events.len() == 4 && actions[1]
                    == ServeAction::WriteAck(wire_shape(shape)) && events[2] == ServeEvent::User(
                    UserRead::Frame,
                ),
                ServePhase::Done => true,
            }
        }),
    decreases events.len(),
{
    if events.len() > 0 {
        lemma_the_edge_was_told(request, enabled, events.drop_last());
        law_every_relay_ends_once(request, enabled, events.drop_last());
        law_every_relay_ends_once(request, enabled, events);
    }
}

/// A relay that reaches its splice was admitted with the very shape it is spliced in,
/// its edge has named a user, and its park was taken under the protocol that the edge
/// terminated.
pub proof fn law_a_splice_is_what_the_edge_was_told(
    request: RelayRequest,
    enabled: bool,
    events: Seq<ServeEvent>,
)
    requires
        serve_run_ok(request, enabled, events),
        serve_actions(request, enabled, events).last() is Splice,
    ensures
        events.len() == 5,
        events[2] == ServeEvent::User(UserRead::Frame),
        events[4] is Taken,
        protocol_allows(request.protocol, events[4]->Taken_0),
        exists|shape: ParkShape|
            serve_actions(request, enabled, events)[1] == ServeAction::WriteAck(#[trigger] wire_shape(shape))
                && splice_kind(shape, events[4]->Taken_0) == Some(
                serve_actions(request, enabled, events).last()->Splice_0,
            ),
{
    law_every_relay_ends_once(request, enabled, events);
    if events.len() > 0 {
        let before = events.drop_last();
        lemma_the_edge_was_told(request, enabled, before);
        law_every_relay_ends_once(request, enabled, before);
        let phase = serve_run(request, enabled, before);
        law_a_splice_keeps_shape_and_protocol(request, phase, events.last(), enabled);
        assert(serve_actions(request, enabled, events)[1] == serve_actions(request, enabled, before)[1]);
        assert(serve_actions(request, enabled, events)[1] == ServeAction::WriteAck(
            wire_shape(phase->Taking_shape),
        ));
    }
}

/// A park that was taken and does not fit the shape the edge was told is put back
/// whenever the registry takes parks.
pub proof fn law_a_park_that_does_not_fit_is_put_back(
    protocol: MeshProtocol,
    shape: ParkShape,
    parked: ParkedKind,
)
    requires
        splice_kind(shape, parked) is None,
    ensures
        serve_taken(protocol, shape, parked, true) matches ServeAction::Refuse(refusal)
            && refusal.put_back,
{
}

// ── The accept loops ────────────────────────────────────────────────────────

/// What accepting on a mesh endpoint brought.
#[derive(Clone, Copy, Debug, PartialEq, Eq, Structural)]
pub enum Accepted {
    Connection,
    Failed,
    EndpointClosed,
    Shutdown,
}

/// What the listener does with it.
#[derive(Clone, Copy, Debug, PartialEq, Eq, Structural)]
pub enum ListenerStep {
    /// Serve the connection and accept the next one.
    Serve,
    /// Accept the next one.
    Skip,
    Stop,
}

/// One turn of the listener.
pub fn listener_step(accepted: Accepted) -> (step: ListenerStep)
    ensures
        step == match accepted {
            Accepted::Connection => ListenerStep::Serve,
            Accepted::Failed => ListenerStep::Skip,
            Accepted::EndpointClosed => ListenerStep::Stop,
            Accepted::Shutdown => ListenerStep::Stop,
        },
{
    match accepted {
        Accepted::Connection => ListenerStep::Serve,
        Accepted::Failed => ListenerStep::Skip,
        Accepted::EndpointClosed => ListenerStep::Stop,
        Accepted::Shutdown => ListenerStep::Stop,
    }
}

/// What accepting a stream on a peer's connection brought, and whether a relay
/// permit was to be had.
#[derive(Clone, Copy, Debug, PartialEq, Eq, Structural)]
pub enum AcceptedStream {
    Relay { permit: bool },
    StreamFailed,
    ConnectionLost,
}

/// What the connection's accept loop does with it.
#[derive(Clone, Copy, Debug, PartialEq, Eq, Structural)]
pub enum ConnectionStep {
    /// Serve the stream and accept the next one.
    Serve,
    /// Count the reason, reset both halves with the close, and accept the next one.
    Refuse { rejected: RejectReason, close: CloseReason },
    /// Accept the next one.
    Skip,
    Stop,
}

/// One turn of a connection's accept loop. Only the loss of the connection ends it:
/// an unusable stream and a full node cost that one stream.
pub fn connection_step(accepted: AcceptedStream) -> (step: ConnectionStep)
    ensures
        step == match accepted {
            AcceptedStream::Relay { permit } => if permit {
                ConnectionStep::Serve
            } else {
                ConnectionStep::Refuse {
                    rejected: RejectReason::Capacity,
                    close: CloseReason::Capacity,
                }
            },
            AcceptedStream::StreamFailed => ConnectionStep::Skip,
            AcceptedStream::ConnectionLost => ConnectionStep::Stop,
        },
{
    match accepted {
        AcceptedStream::Relay { permit: true } => ConnectionStep::Serve,
        AcceptedStream::Relay { permit: false } => ConnectionStep::Refuse {
            rejected: RejectReason::Capacity,
            close: CloseReason::Capacity,
        },
        AcceptedStream::StreamFailed => ConnectionStep::Skip,
        AcceptedStream::ConnectionLost => ConnectionStep::Stop,
    }
}

// ── What serving a relay is for ─────────────────────────────────────────────

/// Every park that was admitted under its own shape and is claimed under its own protocol
/// is spliced, as what it is; nothing else is. A park of another shape is refused for its
/// framing, one of another protocol for its protocol, and each is put back where it can
/// still be claimed.
pub proof fn law_what_fits_is_spliced(
    protocol: MeshProtocol,
    shape: ParkShape,
    parked: ParkedKind,
    enabled: bool,
)
    ensures
        ({
            let action = serve_taken(protocol, shape, parked, enabled);
            let fits = {
                ||| shape == ParkShape::Stream && parked is Tcp
                ||| shape == ParkShape::Datagram && parked == ParkedKind::SsUdpStream
                ||| shape == ParkShape::VlessUdpSingle && parked == ParkedKind::VlessUdpSingle
                ||| shape == ParkShape::VlessMux && parked == ParkedKind::VlessMux
            };
            let own = {
                ||| protocol == MeshProtocol::Ss && (parked == ParkedKind::Tcp(TcpProtocolContext::Ss)
                    || parked == ParkedKind::SsUdpStream)
                ||| protocol == MeshProtocol::Vless && (parked == ParkedKind::Tcp(
                    TcpProtocolContext::Vless,
                ) || parked == ParkedKind::VlessUdpSingle || parked == ParkedKind::VlessMux)
            };
            &&& fits && own ==> action == ServeAction::Splice(
                match parked {
                    ParkedKind::Tcp(_) => SpliceKind::Tcp,
                    ParkedKind::SsUdpStream => SpliceKind::SsUdp,
                    ParkedKind::VlessUdpSingle => SpliceKind::VlessUdp,
                    ParkedKind::VlessMux => SpliceKind::VlessMux,
                },
            )
            &&& !fits ==> action == ServeAction::Refuse(
                Refusal {
                    rejected: RejectReason::FramingMismatch,
                    outcome: RelayOutcome::Miss,
                    close: CloseReason::Abort,
                    put_back: enabled,
                },
            )
            &&& fits && !own ==> action == ServeAction::Refuse(
                Refusal {
                    rejected: RejectReason::ProtocolMismatch,
                    outcome: RelayOutcome::Miss,
                    close: CloseReason::Abort,
                    put_back: enabled && parked == ParkedKind::VlessMux,
                },
            )
        }),
{
}

/// A byte stream is claimed under its own protocol exactly where the relay and the park
/// name the same one.
pub proof fn law_a_stream_stays_in_its_protocol(relayed: MeshProtocol, parked: TcpProtocolContext)
    ensures
        same_protocol(relayed, parked) <==> {
            ||| relayed == MeshProtocol::Ss && parked == TcpProtocolContext::Ss
            ||| relayed == MeshProtocol::Vless && parked == TcpProtocolContext::Vless
        },
{
}

/// A relay starts with a question for the registry: for the one shape that its framing
/// names where it is Shadowsocks, for any VLESS park where it is VLESS over a byte
/// stream. A VLESS relay over datagrams is refused for its protocol.
pub proof fn law_a_relay_asks_for_what_it_can_carry(request: RelayRequest)
    ensures
        ({
            let asks = |query: ParkQuery|
                (ServePhase::Probing { query }, ServeAction::Probe(query));
            &&& request.protocol == MeshProtocol::Ss && request.framing == MeshFraming::Tcp
                ==> serve_start(request) == asks(ParkQuery::Exact(ParkShape::Stream))
            &&& request.protocol == MeshProtocol::Ss && request.framing == MeshFraming::Udp
                ==> serve_start(request) == asks(ParkQuery::Exact(ParkShape::Datagram))
            &&& request.protocol == MeshProtocol::Vless && request.framing == MeshFraming::Tcp
                ==> serve_start(request) == asks(ParkQuery::AnyVless)
            &&& request.protocol == MeshProtocol::Vless && request.framing == MeshFraming::Udp
                ==> serve_start(request) == (
                ServePhase::Done,
                ServeAction::Refuse(
                    Refusal {
                        rejected: RejectReason::ProtocolMismatch,
                        outcome: RelayOutcome::Miss,
                        close: CloseReason::Abort,
                        put_back: false,
                    },
                ),
            )
            &&& query_of(request) is None <==> request.protocol == MeshProtocol::Vless
                && request.framing == MeshFraming::Udp
            &&& query_of(request) matches Some(query) ==> serve_start(request) == asks(query)
        }),
{
}

/// Admission goes forward whenever it can, and keeps to one shape: a park that exists is
/// acknowledged with its own shape, or with the one asked for where the registry does
/// not know it yet; then the user is read, the same shape is asked for again, and the
/// park is taken.
pub proof fn law_admission_goes_forward(
    request: RelayRequest,
    query: ParkQuery,
    known: Option<ParkShape>,
    again: Option<ParkShape>,
    shape: ParkShape,
    parked: ParkedKind,
    enabled: bool,
)
    requires
        known == Some(shape) || known is None && (query == ParkQuery::Exact(shape) || query
            == ParkQuery::AnyVless && shape == ParkShape::Stream),
    ensures
        serve_next(
            request,
            ServePhase::Probing { query },
            ServeEvent::Probed(ParkProbe::Splicable(known)),
            enabled,
        ) == (
            ServePhase::Acking { shape },
            ServeAction::WriteAck(
                match shape {
                    ParkShape::Stream => MeshShape::Stream,
                    ParkShape::Datagram => MeshShape::Datagram,
                    ParkShape::VlessUdpSingle => MeshShape::VlessUdpSingle,
                    ParkShape::VlessMux => MeshShape::VlessMux,
                },
            ),
        ),
        serve_next(request, ServePhase::Acking { shape }, ServeEvent::AckWritten, enabled) == (
            ServePhase::AwaitingUser { shape },
            ServeAction::ReadUser,
        ),
        serve_next(
            request,
            ServePhase::AwaitingUser { shape },
            ServeEvent::User(UserRead::Frame),
            enabled,
        ) == (ServePhase::Reprobing { shape }, ServeAction::Probe(ParkQuery::Exact(shape))),
        serve_next(
            request,
            ServePhase::Reprobing { shape },
            ServeEvent::Probed(ParkProbe::Splicable(again)),
            enabled,
        ) == (ServePhase::Taking { shape }, ServeAction::Take),
        serve_next(request, ServePhase::Taking { shape }, ServeEvent::Taken(parked), enabled) == (
            ServePhase::Done,
            serve_taken(request.protocol, shape, parked, enabled),
        ),
{
}

/// Every way a relay falls through has its own answer, and no other event brings it: no
/// park, a park of another shape, a user who does not own it, a user who was not named,
/// an answer that could not be written. The edge hears that there is no session exactly
/// where it is to serve its client itself.
pub proof fn law_a_refusal_says_why(
    request: RelayRequest,
    phase: ServePhase,
    event: ServeEvent,
    enabled: bool,
)
    requires
        serve_accepts(phase, event),
    ensures
        ({
            let action = serve_next(request, phase, event, enabled).1;
            let miss = |rejected: RejectReason|
                ServeAction::Refuse(
                    Refusal {
                        rejected,
                        outcome: RelayOutcome::Miss,
                        close: CloseReason::NoSession,
                        put_back: false,
                    },
                );
            &&& action == miss(RejectReason::NoSession) <==> event == ServeEvent::Probed(
                ParkProbe::Missing,
            ) || event == ServeEvent::Missed(ResumeMiss::Gone)
            &&& action == miss(RejectReason::ParkShape) <==> event == ServeEvent::Probed(
                ParkProbe::OtherShape,
            )
            &&& action == miss(RejectReason::UnknownUser) <==> event == ServeEvent::Missed(
                ResumeMiss::OwnerMismatch,
            )
            &&& action == ServeAction::Refuse(
                Refusal {
                    rejected: RejectReason::BadSetup,
                    outcome: RelayOutcome::Error,
                    close: CloseReason::Abort,
                    put_back: false,
                },
            ) <==> event == ServeEvent::User(UserRead::Unusable) || event == ServeEvent::User(
                UserRead::TimedOut,
            )
            &&& action == ServeAction::Fail <==> event == ServeEvent::AckFailed
            &&& action matches ServeAction::Refuse(refusal) ==> (refusal.close
                == CloseReason::NoSession <==> !(event is User) && !(event is Taken))
            &&& (action is Refuse || action is Fail || action is Splice) <==> serve_next(
                request,
                phase,
                event,
                enabled,
            ).0 == ServePhase::Done
        }),
{
}

/// A home that waits for something takes whatever comes of it, and nothing else.
pub proof fn law_a_home_takes_what_it_waits_for(
    query: ParkQuery,
    shape: ParkShape,
    event: ServeEvent,
)
    ensures
        serve_accepts(ServePhase::Probing { query }, event) <==> event is Probed,
        serve_accepts(ServePhase::Acking { shape }, event) <==> event is AckWritten || event
            is AckFailed,
        serve_accepts(ServePhase::AwaitingUser { shape }, event) <==> event is User,
        serve_accepts(ServePhase::Reprobing { shape }, event) <==> event is Probed,
        serve_accepts(ServePhase::Taking { shape }, event) <==> event is Taken || event is Missed,
        !serve_accepts(ServePhase::Done, event),
{
}

/// What a shape is called on the wire: no two are called the same.
pub proof fn law_every_shape_has_its_own_name(a: ParkShape, b: ParkShape)
    ensures
        wire_shape(a) == wire_shape(b) <==> a == b,
        wire_shape(ParkShape::Stream) == MeshShape::Stream,
        wire_shape(ParkShape::Datagram) == MeshShape::Datagram,
        wire_shape(ParkShape::VlessUdpSingle) == MeshShape::VlessUdpSingle,
        wire_shape(ParkShape::VlessMux) == MeshShape::VlessMux,
{
}

/// Only the end of the endpoint or of the node ends the listener.
pub proof fn law_a_listener_outlives_its_connections(accepted: Accepted, step: ListenerStep)
    requires
        call_ensures(listener_step, (accepted,), step),
    ensures
        step == ListenerStep::Stop <==> accepted == Accepted::EndpointClosed || accepted
            == Accepted::Shutdown,
        step == ListenerStep::Serve <==> accepted == Accepted::Connection,
{
}

/// A peer's connection outlives its streams: only its loss ends it. A stream is served
/// exactly where there is a permit for it, and one past the limit is turned away for
/// that.
pub proof fn law_a_connection_outlives_its_streams(accepted: AcceptedStream, step: ConnectionStep)
    requires
        call_ensures(connection_step, (accepted,), step),
    ensures
        step == ConnectionStep::Stop <==> accepted == AcceptedStream::ConnectionLost,
        step == ConnectionStep::Serve <==> accepted == (AcceptedStream::Relay { permit: true }),
        step == (ConnectionStep::Refuse {
            rejected: RejectReason::Capacity,
            close: CloseReason::Capacity,
        }) <==> accepted == (AcceptedStream::Relay { permit: false }),
{
}

} // verus!
