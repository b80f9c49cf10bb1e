//! One VLESS carrier: the frames its client sends, the upstream they establish, and
//! what is parked when the carrier goes.

use vstd::prelude::*;
use crate::downlink_ring::DownlinkRing;
use crate::mesh_session::ReplayOutcome;
use crate::mesh_wire::MeshShape;
use crate::resume_headers::ResumeContext;
use crate::session::SessionId;

verus! {

/// Where a carrier's client bytes go. `mesh` where the upstream is another node's.
#[derive(Clone, Copy, Debug, PartialEq, Eq, Structural)]
pub enum VlessUpstream {
    Nowhere,
    Tcp { mesh: bool },
    Udp { mesh: bool },
    Mux,
}

/// What a VLESS request asks for.
#[derive(Clone, Copy, Debug, PartialEq, Eq, Structural)]
pub enum VlessCommand {
    Tcp,
    Udp,
    Mux,
}

/// The state of one carrier.
#[derive(Debug)]
pub struct VlessRelay {
    pub upstream: VlessUpstream,
    /// A relay to the session's home that nobody has used yet, and its shape.
    pub mesh_upstream: Option<MeshShape>,
    /// The session the client wants back, until somebody asked for it.
    pub pending_resume: Option<SessionId>,
    /// The id the session is parked under.
    pub issued_session_id: Option<SessionId>,
    pub ack_prefix_requested: bool,
    pub symmetric_replay_requested: bool,
    /// How many bytes of the downlink the client says it has read.
    pub client_acked_offset: u64,
    /// How many bytes the upstream has taken.
    pub upstream_bytes_acked: u64,
    /// What the client sent before its request header was whole.
    pub header_buffer: Vec<u8>,
    pub authenticated_user: Option<String>,
    pub has_counters: bool,
    /// The session keeps a ring of sent downlink bytes.
    pub has_ring: bool,
}

/// Why a frame ends the carrier.
#[derive(Clone, Copy, Debug, PartialEq, Eq, Structural)]
pub enum FatalReason {
    WriteFailed,
    HeaderTooLarge,
    UnsupportedCommand,
    Malformed,
    UnknownUser,
    MuxFailed,
    QueueFailed,
    CrossShapeResume,
}

/// How a frame ends the carrier. The client of a failed upstream is told to try
/// again; a client that broke the protocol is read out and told nothing.
#[derive(Clone, Copy, Debug, PartialEq, Eq, Structural)]
pub enum VlessFrameError {
    UpstreamConnectFailed,
    Fatal(FatalReason),
}

/// Where a binary frame goes.
#[derive(Clone, Copy, Debug, PartialEq, Eq, Structural)]
pub enum FrameAction {
    /// Into the TCP upstream; count its bytes for the user where `count` says so.
    WriteTcp { count: bool },
    /// Into the UDP upstream, datagram by datagram.
    ForwardUdp,
    /// Into the mux.
    FeedMux,
    /// Into the header buffer; parse that.
    ParseHeader,
}

/// What parsing the header buffer came to.
#[derive(Clone, Copy, Debug, PartialEq, Eq, Structural)]
pub enum HeaderParse {
    Request(VlessCommand),
    Incomplete,
    UnsupportedCommand,
    Malformed,
}

pub open spec fn frame_action(state: VlessRelay) -> FrameAction {
    match state.upstream {
        VlessUpstream::Tcp { .. } => FrameAction::WriteTcp { count: state.has_counters },
        VlessUpstream::Udp { .. } => FrameAction::ForwardUdp,
        VlessUpstream::Mux => FrameAction::FeedMux,
        VlessUpstream::Nowhere => FrameAction::ParseHeader,
    }
}

/// How a failed write to an upstream ends the carrier.
pub open spec fn write_failure(mesh: bool) -> VlessFrameError {
    if mesh {
        VlessFrameError::UpstreamConnectFailed
    } else {
        VlessFrameError::Fatal(FatalReason::WriteFailed)
    }
}

pub open spec fn wanted_shape(command: VlessCommand) -> MeshShape {
    match command {
        VlessCommand::Tcp => MeshShape::Stream,
        VlessCommand::Udp => MeshShape::VlessUdpSingle,
        VlessCommand::Mux => MeshShape::VlessMux,
    }
}

impl VlessRelay {
    /// The same state but for the upstream.
    pub open spec fn with_upstream(self, upstream: VlessUpstream) -> VlessRelay {
        VlessRelay { upstream, ..self }
    }

    /// A carrier that has seen no frame. `mesh_upstream` is the shape of the relay to
    /// the session's home, where there is one.
    pub fn new(resume: &ResumeContext, mesh_upstream: Option<MeshShape>) -> (state: VlessRelay)
        ensures
            state.header_buffer@.len() == 0,
            state == (VlessRelay {
                upstream: VlessUpstream::Nowhere,
                mesh_upstream,
                pending_resume: resume.requested_resume,
                issued_session_id: resume.issued_session_id,
                ack_prefix_requested: resume.ack_prefix_requested,
                symmetric_replay_requested: resume.symmetric_replay_requested,
                client_acked_offset: resume.client_acked_offset,
                upstream_bytes_acked: 0,
                header_buffer: state.header_buffer,
                authenticated_user: None,
                has_counters: false,
                has_ring: false,
            }),
    {
        VlessRelay {
            upstream: VlessUpstream::Nowhere,
            mesh_upstream,
            pending_resume: resume.requested_resume,
            issued_session_id: resume.issued_session_id,
            ack_prefix_requested: resume.ack_prefix_requested,
            symmetric_replay_requested: resume.symmetric_replay_requested,
            client_acked_offset: resume.client_acked_offset,
            upstream_bytes_acked: 0,
            header_buffer: Vec::new(),
            authenticated_user: None,
            has_counters: false,
            has_ring: false,
        }
    }

    /// Takes in a binary frame of the client.
    pub fn on_binary(&mut self, data: &Vec<u8>) -> (action: FrameAction)
        ensures
            action == frame_action(*old(self)),
            final(self).header_buffer@ == if old(self).upstream == VlessUpstream::Nowhere {
                old(self).header_buffer@ + data@
            } else {
                old(self).header_buffer@
            },
            *final(self) == (VlessRelay {
                header_buffer: final(self).header_buffer,
                ..*old(self)
            }),
    {
        match self.upstream {
            VlessUpstream::Tcp { .. } => FrameAction::WriteTcp { count: self.has_counters },
            VlessUpstream::Udp { .. } => FrameAction::ForwardUdp,
            VlessUpstream::Mux => FrameAction::FeedMux,
            VlessUpstream::Nowhere => {
                let ghost before = self.header_buffer@;
                let mut i: usize = 0;
                while i < data.len()
                    invariant
                        i <= data@.len(),
                        self.header_buffer@ == before + data@.take(i as int),
                        *self == (VlessRelay { header_buffer: self.header_buffer, ..*old(self) }),
                    decreases data@.len() - i,
                {
                    self.header_buffer.push(data[i]);
                    assert(self.header_buffer@ =~= before + data@.take(i + 1));
                    i = i + 1;
                }
                assert(data@.take(data@.len() as int) =~= data@);
                FrameAction::ParseHeader
            },
        }
    }

    /// Takes in whether the upstream took `len` bytes. Only then do they count as
    /// acknowledged.
    pub fn on_written(&mut self, len: usize, written: bool) -> (result: Result<(), VlessFrameError>)
        requires
            old(self).upstream is Tcp,
        ensures
            written ==> result is Ok && *final(self) == (VlessRelay {
                upstream_bytes_acked: ((old(self).upstream_bytes_acked + len)
                    % 0x1_0000_0000_0000_0000) as u64,
                ..*old(self)
            }),
            !written ==> result == Err::<(), VlessFrameError>(
                write_failure(old(self).upstream->Tcp_mesh),
            ) && *final(self) == *old(self),
    {
        if written {
            self.upstream_bytes_acked = self.upstream_bytes_acked.wrapping_add(len as u64);
            return Ok(());
        }
        match self.upstream {
            VlessUpstream::Tcp { mesh: true } => Err(VlessFrameError::UpstreamConnectFailed),
            _ => Err(VlessFrameError::Fatal(FatalReason::WriteFailed)),
        }
    }

    /// Takes in whether the UDP upstream took the frame's datagrams.
    pub fn on_forwarded(&self, forwarded: bool) -> (result: Result<(), VlessFrameError>)
        requires
            self.upstream is Udp,
        ensures
            result == if forwarded {
                Ok(())
            } else {
                Err::<(), VlessFrameError>(write_failure(self.upstream->Udp_mesh))
            },
    {
        if forwarded {
            return Ok(());
        }
        match self.upstream {
            VlessUpstream::Udp { mesh: true } => Err(VlessFrameError::UpstreamConnectFailed),
            _ => Err(VlessFrameError::Fatal(FatalReason::WriteFailed)),
        }
    }

    /// Takes in whether the mux took the frame.
    pub fn on_fed(&self, fed: bool) -> (result: Result<(), VlessFrameError>)
        requires
            self.upstream == VlessUpstream::Mux,
        ensures
            result == if fed {
                Ok(())
            } else {
                Err::<(), VlessFrameError>(VlessFrameError::Fatal(FatalReason::MuxFailed))
            },
    {
        if fed {
            Ok(())
        } else {
            Err(VlessFrameError::Fatal(FatalReason::MuxFailed))
        }
    }

    /// Takes in what parsing the header buffer came to: the command of a whole
    /// request, nothing yet where more may come, or the end of the carrier.
    pub fn on_header(&self, parse: HeaderParse, max_buffer: usize) -> (result: Result<
        Option<VlessCommand>,
        VlessFrameError,
    >)
        ensures
            result == match parse {
                HeaderParse::Request(command) => Ok::<Option<VlessCommand>, VlessFrameError>(
                    Some(command),
                ),
                HeaderParse::Incomplete => if self.header_buffer@.len() > max_buffer {
                    Err(VlessFrameError::Fatal(FatalReason::HeaderTooLarge))
                } else {
                    Ok(None)
                },
                HeaderParse::UnsupportedCommand => Err(
                    VlessFrameError::Fatal(FatalReason::UnsupportedCommand),
                ),
                HeaderParse::Malformed => Err(VlessFrameError::Fatal(FatalReason::Malformed)),
            },
    {
        match parse {
            HeaderParse::Request(command) => Ok(Some(command)),
            HeaderParse::Incomplete => if self.header_buffer.len() > max_buffer {
                Err(VlessFrameError::Fatal(FatalReason::HeaderTooLarge))
            } else {
                Ok(None)
            },
            HeaderParse::UnsupportedCommand => Err(
                VlessFrameError::Fatal(FatalReason::UnsupportedCommand),
            ),
            HeaderParse::Malformed => Err(VlessFrameError::Fatal(FatalReason::Malformed)),
        }
    }

    /// Takes in whether the request's user is one of this path's. Where it is, a
    /// relay to the home that cannot carry the command is given up; `true` tells
    /// that its stream is to be refused.
    pub fn on_user(&mut self, command: VlessCommand, known: bool) -> (result: Result<
        bool,
        VlessFrameError,
    >)
        ensures
            !known ==> result == Err::<bool, VlessFrameError>(
                VlessFrameError::Fatal(FatalReason::UnknownUser),
            ) && *final(self) == *old(self),
            known ==> ({
                let gives_up = old(self).mesh_upstream matches Some(shape) && shape != wanted_shape(
                    command,
                );
                &&& result == Ok::<bool, VlessFrameError>(gives_up)
                &&& *final(self) == if gives_up {
                    VlessRelay { mesh_upstream: None, ..*old(self) }
                } else {
                    *old(self)
                }
            }),
    {
        if !known {
            return Err(VlessFrameError::Fatal(FatalReason::UnknownUser));
        }
        let want = match command {
            VlessCommand::Tcp => MeshShape::Stream,
            VlessCommand::Udp => MeshShape::VlessUdpSingle,
            VlessCommand::Mux => MeshShape::VlessMux,
        };
        Ok(keep_mesh_upstream_for(self, want))
    }
}

/// Gives up a relay to the home whose shape is not the wanted one; `true` where it did.
pub fn keep_mesh_upstream_for(state: &mut VlessRelay, want: MeshShape) -> (refused: bool)
    ensures
        refused == (old(state).mesh_upstream matches Some(shape) && shape != want),
        *final(state) == if refused {
            VlessRelay { mesh_upstream: None, ..*old(state) }
        } else {
            *old(state)
        },
{
    match state.mesh_upstream {
        Some(shape) => if shape != want {
            release_mesh_upstream(state)
        } else {
            false
        },
        None => false,
    }
}

/// Gives up a relay to the home; `true` where there was one, whose stream is then
/// to be refused.
pub fn release_mesh_upstream(state: &mut VlessRelay) -> (refused: bool)
    ensures
        refused == old(state).mesh_upstream is Some,
        *final(state) == (VlessRelay { mesh_upstream: None, ..*old(state) }),
{
    let refused = state.mesh_upstream.is_some();
    state.mesh_upstream = None;
    refused
}

// ── Establishing an upstream ────────────────────────────────────────────────

/// What a relay to the home is attached for.
#[derive(Clone, Copy, Debug, PartialEq, Eq, Structural)]
pub enum MeshAttachKind {
    Tcp,
    Mux,
}

impl MeshAttachKind {
    /// Whether the client reads an acknowledged offset first: a mux numbers nothing.
    pub fn emits_ack_prefix(self) -> (emits: bool)
        ensures
            emits == (self == MeshAttachKind::Tcp),
    {
        matches!(self, MeshAttachKind::Tcp)
    }

    /// Whether an authenticated TCP session is counted.
    pub fn records_authenticated_session(self) -> (records: bool)
        ensures
            records == (self == MeshAttachKind::Tcp),
    {
        matches!(self, MeshAttachKind::Tcp)
    }
}

/// The first thing done for a TCP or mux request.
#[derive(Clone, Copy, Debug)]
pub enum EstablishStep {
    /// Attest the user to the home and use its relay.
    AttachMesh(MeshAttachKind),
    /// Take the parked session for the user, and hand the answer back.
    Take(SessionId),
    /// Make a new upstream.
    Fresh,
}

/// What a parked TCP session brings to its resumption.
#[derive(Debug)]
pub struct ParkedTcpFacts {
    /// It was authenticated under VLESS.
    pub vless: bool,
    /// How many bytes its upstream has taken.
    pub acked: u64,
    /// What its ring holds beyond the offset the client has read; `None` without a ring.
    pub ring: Option<ReplayOutcome>,
}

/// The registry's answer to a TCP request.
#[derive(Debug)]
pub enum TcpTaken {
    Parked(ParkedTcpFacts),
    /// Nothing, or a session of another kind.
    Otherwise,
}

/// The registry's answer to a mux request.
#[derive(Clone, Copy, Debug, PartialEq, Eq, Structural)]
pub enum MuxTaken {
    ParkedMux,
    ParkedOtherwise,
    Missed,
}

/// Why a replay comes up empty.
#[derive(Clone, Copy, Debug, PartialEq, Eq, Structural)]
pub enum TruncateReason {
    NoRing,
    Evicted,
    ClientAhead,
}

impl TruncateReason {
    /// The metric label of the reason.
    pub fn label(self) -> (label: &'static str)
        ensures
            label@ == match self {
                TruncateReason::NoRing => "no_ring"@,
                TruncateReason::Evicted => "evicted"@,
                TruncateReason::ClientAhead => "client_ahead"@,
            },
    {
        match self {
            TruncateReason::NoRing => "no_ring",
            TruncateReason::Evicted => "evicted",
            TruncateReason::ClientAhead => "client_ahead",
        }
    }
}

/// The ring a resumed session goes on with.
#[derive(Clone, Copy, Debug, PartialEq, Eq, Structural)]
pub enum RingPlan {
    /// The one it was parked with.
    Parked,
    /// A new, empty one.
    Create,
    /// What the carrier had, if anything.
    Unchanged,
    Without,
}

/// How a parked TCP session is resumed. The client reads the response header first,
/// then the acknowledged offset, then the replay frame, then the upstream.
#[derive(Debug)]
pub struct TcpResume {
    /// Count a resumption across proxy protocols.
    pub cross_protocol: bool,
    pub ack: Option<u64>,
    /// The bytes the client has not read, or why they cannot be had; `None` where the
    /// client wants no replay.
    pub replay: Option<Result<Vec<u8>, TruncateReason>>,
    pub ring: RingPlan,
}

pub open spec fn replay_of(ring: Option<ReplayOutcome>) -> Result<Vec<u8>, TruncateReason> {
    match ring {
        None => Err(TruncateReason::NoRing),
        Some(ReplayOutcome::Available(bytes)) => Ok(bytes),
        Some(ReplayOutcome::Truncated) => Err(TruncateReason::Evicted),
        Some(ReplayOutcome::OffsetAhead) => Err(TruncateReason::ClientAhead),
    }
}

pub open spec fn ring_plan(symmetric: bool, parked_ring: bool, capacity: usize) -> RingPlan {
    if !symmetric {
        RingPlan::Unchanged
    } else if parked_ring {
        RingPlan::Parked
    } else if capacity > 0 {
        RingPlan::Create
    } else {
        RingPlan::Without
    }
}

/// How a carrier in this state resumes a parked TCP session.
pub open spec fn tcp_resume(state: VlessRelay, parked: ParkedTcpFacts, ring_capacity: usize) -> TcpResume {
    TcpResume {
        cross_protocol: !parked.vless,
        ack: if state.ack_prefix_requested {
            Some(parked.acked)
        } else {
            None
        },
        replay: if state.symmetric_replay_requested {
            Some(replay_of(parked.ring))
        } else {
            None
        },
        ring: ring_plan(state.symmetric_replay_requested, parked.ring is Some, ring_capacity),
    }
}

impl VlessRelay {
    /// Starts on a request. A relay to the home comes first, then the session the
    /// client wants back, then a new upstream; each of the first two is used once.
    pub fn begin_establish(&mut self, kind: MeshAttachKind) -> (step: EstablishStep)
        ensures
            match step {
                EstablishStep::AttachMesh(attach) => {
                    &&& attach == kind
                    &&& old(self).mesh_upstream is Some
                    &&& *final(self) == (VlessRelay { mesh_upstream: None, ..*old(self) })
                },
                EstablishStep::Take(id) => {
                    &&& old(self).mesh_upstream is None
                    &&& old(self).pending_resume == Some(id)
                    &&& *final(self) == (VlessRelay { pending_resume: None, ..*old(self) })
                },
                EstablishStep::Fresh => {
                    &&& old(self).mesh_upstream is None
                    &&& old(self).pending_resume is None
                    &&& *final(self) == *old(self)
                },
            },
    {
        if self.mesh_upstream.is_some() {
            self.mesh_upstream = None;
            return EstablishStep::AttachMesh(kind);
        }
        match self.pending_resume {
            Some(id) => {
                self.pending_resume = None;
                EstablishStep::Take(id)
            },
            None => EstablishStep::Fresh,
        }
    }

    /// Whether `facts` are those of a parked TCP session with this ring, for the offset
    /// that the client of this carrier has read to.
    pub open spec fn facts_of(
        self,
        vless: bool,
        acked: u64,
        ring: Option<&DownlinkRing>,
        facts: ParkedTcpFacts,
    ) -> bool {
        &&& facts.vless == vless
        &&& facts.acked == acked
        &&& match (ring, facts.ring) {
            (Some(ring), Some(outcome)) => ring.answers(self.client_acked_offset, outcome),
            (None, None) => true,
            _ => false,
        }
    }

    /// What a parked TCP session brings to its resumption by this carrier's client.
    pub fn parked_tcp_facts(&self, vless: bool, acked: u64, ring: Option<&DownlinkRing>) -> (facts:
        ParkedTcpFacts)
        requires
            ring matches Some(ring) ==> ring.wf(),
        ensures
            self.facts_of(vless, acked, ring, facts),
    {
        let ring = match ring {
            Some(ring) => Some(ring.replay_from(self.client_acked_offset)),
            None => None,
        };
        ParkedTcpFacts { vless, acked, ring }
    }

    /// Plans the resumption of a parked TCP session.
    pub fn plan_tcp_resume(&self, parked: ParkedTcpFacts, ring_capacity: usize) -> (resume: TcpResume)
        ensures
            resume == tcp_resume(*self, parked, ring_capacity),
    {
        let ring = if !self.symmetric_replay_requested {
            RingPlan::Unchanged
        } else if parked.ring.is_some() {
            RingPlan::Parked
        } else if ring_capacity > 0 {
            RingPlan::Create
        } else {
            RingPlan::Without
        };
        let ack: Option<u64> = if self.ack_prefix_requested { Some(parked.acked) } else { None };
        let replay: Option<Result<Vec<u8>, TruncateReason>> = if self.symmetric_replay_requested {
            Some(take_replay(parked.ring))
        } else {
            None
        };
        TcpResume { cross_protocol: !parked.vless, ack, replay, ring }
    }

    /// Takes over a resumed session's count of acknowledged bytes and its ring.
    pub fn adopt_tcp(&mut self, acked: u64, ring: RingPlan)
        ensures
            *final(self) == (VlessRelay {
                upstream_bytes_acked: acked,
                has_ring: match ring {
                    RingPlan::Parked => true,
                    RingPlan::Create => true,
                    RingPlan::Unchanged => old(self).has_ring,
                    RingPlan::Without => false,
                },
                ..*old(self)
            }),
    {
        self.upstream_bytes_acked = acked;
        match ring {
            RingPlan::Parked => {
                self.has_ring = true;
            },
            RingPlan::Create => {
                self.has_ring = true;
            },
            RingPlan::Unchanged => {},
            RingPlan::Without => {
                self.has_ring = false;
            },
        }
    }

    /// The offset the client of a relayed session reads first.
    pub fn mesh_ack(&self, kind: MeshAttachKind, upstream_acked: u64) -> (ack: Option<u64>)
        ensures
            ack == if self.ack_prefix_requested && kind == MeshAttachKind::Tcp {
                Some(upstream_acked)
            } else {
                None
            },
    {
        if self.ack_prefix_requested && kind.emits_ack_prefix() {
            Some(upstream_acked)
        } else {
            None
        }
    }

    /// Settles on an upstream for `user`, and hands out what the client sent behind
    /// its request, which took up `consumed` bytes of the header buffer.
    pub fn install(&mut self, upstream: VlessUpstream, user: String, consumed: usize) -> (leftover: Vec<u8>)
        requires
            consumed <= old(self).header_buffer@.len(),
        ensures
            leftover@ == old(self).header_buffer@.subrange(
                consumed as int,
                old(self).header_buffer@.len() as int,
            ),
            final(self).header_buffer@.len() == 0,
            *final(self) == (VlessRelay {
                upstream,
                authenticated_user: Some(user),
                has_counters: true,
                header_buffer: final(self).header_buffer,
                ..*old(self)
            }),
    {
        let leftover = self.header_buffer.split_off(consumed);
        self.header_buffer.clear();
        self.authenticated_user = Some(user);
        self.has_counters = true;
        self.upstream = upstream;
        leftover
    }
}

fn take_replay(ring: Option<ReplayOutcome>) -> (replay: Result<Vec<u8>, TruncateReason>)
    ensures
        replay == replay_of(ring),
{
    match ring {
        None => Err(TruncateReason::NoRing),
        Some(ReplayOutcome::Available(bytes)) => Ok(bytes),
        Some(ReplayOutcome::Truncated) => Err(TruncateReason::Evicted),
        Some(ReplayOutcome::OffsetAhead) => Err(TruncateReason::ClientAhead),
    }
}

/// Whether a mux request resumes a parked mux: `Ok(true)` where it does, `Ok(false)`
/// where it starts a new one. A parked session of another kind ends the carrier.
pub fn settle_mux_taken(taken: MuxTaken) -> (result: Result<bool, VlessFrameError>)
    ensures
        result == match taken {
            MuxTaken::ParkedMux => Ok::<bool, VlessFrameError>(true),
            MuxTaken::Missed => Ok(false),
            MuxTaken::ParkedOtherwise => Err(VlessFrameError::Fatal(FatalReason::CrossShapeResume)),
        },
{
    match taken {
        MuxTaken::ParkedMux => Ok(true),
        MuxTaken::Missed => Ok(false),
        MuxTaken::ParkedOtherwise => Err(VlessFrameError::Fatal(FatalReason::CrossShapeResume)),
    }
}

// ── Parking ─────────────────────────────────────────────────────────────────

/// The first thing done when a carrier goes.
#[derive(Clone, Copy, Debug)]
pub enum ParkStep {
    /// Park nothing; what upstream there is, is shut down.
    Skip,
    /// Reserve the id, stop the reader and wait for it.
    Harvest(SessionId),
}

/// What the reader of a TCP upstream handed back.
#[derive(Clone, Copy, Debug, PartialEq, Eq, Structural)]
pub enum TcpHarvest {
    /// Its read half.
    Reader,
    /// The upstream was another node's.
    Mesh,
    /// The upstream had ended.
    Closed,
    /// The reader was a datagram reader.
    UdpCancelled,
    Failed,
    Panicked,
}

/// What becomes of a TCP upstream.
#[derive(Debug)]
pub enum TcpPark {
    /// Into the registry, for this user, with this count; with the ring where `ring`
    /// says so.
    Park { owner: String, acked: u64, ring: bool },
    /// Its writer is shut down.
    Shutdown,
}

pub open spec fn park_skips(upstream: VlessUpstream, registry_enabled: bool, issued: bool) -> bool {
    !registry_enabled || !issued || match upstream {
        VlessUpstream::Nowhere => true,
        VlessUpstream::Tcp { mesh } => mesh,
        VlessUpstream::Udp { mesh } => mesh,
        VlessUpstream::Mux => false,
    }
}

impl VlessRelay {
    /// Starts on parking what a carrier leaves. Only what this node holds itself is
    /// parked: a relayed session is the home's to park.
    pub fn begin_park(&mut self, registry_enabled: bool) -> (step: ParkStep)
        ensures
            park_skips(old(self).upstream, registry_enabled, old(self).issued_session_id is Some)
                ==> step == ParkStep::Skip && *final(self) == *old(self),
            !park_skips(old(self).upstream, registry_enabled, old(self).issued_session_id is Some)
                ==> step == ParkStep::Harvest(old(self).issued_session_id->0) && *final(self) == old(self).with_upstream(VlessUpstream::Nowhere),
    {
        if !registry_enabled {
            return ParkStep::Skip;
        }
        let id = match self.issued_session_id {
            Some(id) => id,
            None => {
                return ParkStep::Skip;
            },
        };
        match self.upstream {
            VlessUpstream::Nowhere => {
                return ParkStep::Skip;
            },
            VlessUpstream::Tcp { mesh: true } => {
                return ParkStep::Skip;
            },
            VlessUpstream::Udp { mesh: true } => {
                return ParkStep::Skip;
            },
            _ => {},
        }
        self.upstream = VlessUpstream::Nowhere;
        ParkStep::Harvest(id)
    }

    /// Whether a TCP upstream can be parked, given what its reader handed back and
    /// whether its writer is a socket that is still counted.
    pub open spec fn tcp_parkable(self, harvest: TcpHarvest, guarded_socket: bool) -> bool {
        harvest == TcpHarvest::Reader && self.authenticated_user is Some && self.has_counters
            && guarded_socket
    }

    /// Settles a TCP upstream: parked whole, or shut down.
    pub fn try_park_vless_tcp(&mut self, harvest: TcpHarvest, guarded_socket: bool) -> (park: TcpPark)
        ensures
            match park {
                TcpPark::Park { owner, acked, ring } => {
                    &&& old(self).tcp_parkable(harvest, guarded_socket)
                    &&& owner@ == old(self).authenticated_user->0@
                    &&& acked == old(self).upstream_bytes_acked
                    &&& ring == old(self).has_ring
                    &&& *final(self) == (VlessRelay {
                        has_ring: false,
                        has_counters: false,
                        ..*old(self)
                    })
                },
                TcpPark::Shutdown => {
                    &&& !old(self).tcp_parkable(harvest, guarded_socket)
                    &&& *final(self) == if old(self).tcp_parkable(harvest, true) {
                        VlessRelay {
                            authenticated_user: None,
                            has_counters: false,
                            ..*old(self)
                        }
                    } else {
                        *old(self)
                    }
                },
            },
    {
        match harvest {
            TcpHarvest::Reader => {},
            _ => {
                return TcpPark::Shutdown;
            },
        }
        match &self.authenticated_user {
            Some(user) => {
                if !self.has_counters {
                    return TcpPark::Shutdown;
                }
                self.has_counters = false;
                if !guarded_socket {
                    self.authenticated_user = None;
                    return TcpPark::Shutdown;
                }
                let ring = self.has_ring;
                self.has_ring = false;
                TcpPark::Park { owner: user.clone(), acked: self.upstream_bytes_acked, ring }
            },
            None => TcpPark::Shutdown,
        }
    }

    /// Settles a UDP upstream: the owner it is parked for, or `None` where it is not.
    /// `socket` tells that it has a socket of its own, `cancelled` that its reader
    /// stopped because it was asked to.
    pub fn try_park_vless_udp_single(&mut self, socket: bool, cancelled: bool) -> (owner: Option<String>)
        ensures
            owner is Some <==> socket && cancelled && old(self).authenticated_user is Some && old(self).has_counters,
            owner matches Some(owner) ==> owner@ == old(self).authenticated_user->0@,
            *final(self) == if owner is Some {
                VlessRelay { has_counters: false, ..*old(self) }
            } else {
                *old(self)
            },
    {
        if !socket || !cancelled || !self.has_counters {
            return None;
        }
        match &self.authenticated_user {
            Some(user) => {
                self.has_counters = false;
                Some(user.clone())
            },
            None => None,
        }
    }

    /// Settles a mux: the owner it is parked for, or `None` where it is not.
    /// `survivors` counts the connections it handed over; a mux that cannot be
    /// parked at all hands over none.
    pub fn try_park_vless_mux(&self, parkable: bool, survivors: usize) -> (owner: Option<String>)
        ensures
            owner is Some <==> parkable && survivors > 0 && self.authenticated_user is Some,
            owner matches Some(owner) ==> owner@ == self.authenticated_user->0@,
    {
        if !parkable || survivors == 0 {
            return None;
        }
        match &self.authenticated_user {
            Some(user) => Some(user.clone()),
            None => None,
        }
    }
}

/// What is shut down when nothing was parked.
#[derive(Clone, Copy, Debug, PartialEq, Eq, Structural)]
pub enum ShutdownStep {
    /// Shut the TCP writer down and stop counting the upstream.
    Tcp,
    Udp,
    Mux,
    Nothing,
}

/// Shuts down what a carrier still holds.
pub fn shutdown_unparked(state: &mut VlessRelay, parked: bool) -> (step: ShutdownStep)
    ensures
        parked ==> step == ShutdownStep::Nothing && *final(state) == *old(state),
        !parked ==> {
            &&& *final(state) == old(state).with_upstream(VlessUpstream::Nowhere)
            &&& step == match old(state).upstream {
                VlessUpstream::Tcp { .. } => ShutdownStep::Tcp,
                VlessUpstream::Udp { .. } => ShutdownStep::Udp,
                VlessUpstream::Mux => ShutdownStep::Mux,
                VlessUpstream::Nowhere => ShutdownStep::Nothing,
            }
        },
{
    if parked {
        return ShutdownStep::Nothing;
    }
    let step = match state.upstream {
        VlessUpstream::Tcp { .. } => ShutdownStep::Tcp,
        VlessUpstream::Udp { .. } => ShutdownStep::Udp,
        VlessUpstream::Mux => ShutdownStep::Mux,
        VlessUpstream::Nowhere => ShutdownStep::Nothing,
    };
    state.upstream = VlessUpstream::Nowhere;
    step
}

// ── The loop ────────────────────────────────────────────────────────────────

/// What reached the carrier's loop.
#[derive(Clone, Copy, Debug, PartialEq, Eq, Structural)]
pub enum VlessEvent {
    /// A binary frame, of this length once a padded carrier's padding is off.
    Binary { decoded: usize },
    Close,
    Ping,
    Pong,
    Text,
    Ended,
    ReadFailed,
    PongQueued,
    PongFailed,
    FrameDone,
    FrameFailed(VlessFrameError),
    /// The keepalive timer fired; this long ago the client was last heard of.
    Tick { idle_ms: u64 },
}

/// What the loop does next.
#[derive(Clone, Copy, Debug, PartialEq, Eq, Structural)]
pub enum VlessAction {
    Read,
    HandleFrame,
    QueuePong,
    QueuePing,
    /// Leave the loop, park or shut the upstream down, and end with the carrier's
    /// error where there is one. `deadline` counts a client that went silent.
    Leave { carrier_failed: bool, deadline: bool },
    /// Close the carrier towards the client, and end with the frame's error. The
    /// client is asked to try again, or is read out first.
    Reject { try_again: bool, read_out: bool },
    /// End with an error at once.
    Abort,
}

/// The loop of one carrier.
#[derive(Clone, Copy, Debug, PartialEq, Eq, Structural)]
pub struct VlessLoop {
    pub padded: bool,
    /// The carrier is HTTP/3, which keeps itself alive.
    pub h3: bool,
    pub pong_deadline_ms: u64,
}

pub open spec fn vless_next(state: VlessLoop, event: VlessEvent) -> VlessAction {
    match event {
        VlessEvent::Binary { decoded } => if state.padded && decoded == 0 {
            VlessAction::Read
        } else {
            VlessAction::HandleFrame
        },
        VlessEvent::Ping => VlessAction::QueuePong,
        VlessEvent::Pong => VlessAction::Read,
        VlessEvent::PongQueued => VlessAction::Read,
        VlessEvent::FrameDone => VlessAction::Read,
        VlessEvent::Close => VlessAction::Leave { carrier_failed: false, deadline: false },
        VlessEvent::Ended => VlessAction::Leave { carrier_failed: false, deadline: false },
        VlessEvent::ReadFailed => VlessAction::Leave { carrier_failed: true, deadline: false },
        VlessEvent::FrameFailed(error) => VlessAction::Reject {
            try_again: error == VlessFrameError::UpstreamConnectFailed,
            read_out: error != VlessFrameError::UpstreamConnectFailed,
        },
        VlessEvent::PongFailed => VlessAction::Abort,
        VlessEvent::Text => VlessAction::Abort,
        VlessEvent::Tick { idle_ms } => if state.h3 {
            VlessAction::Read
        } else if idle_ms > state.pong_deadline_ms {
            VlessAction::Leave { carrier_failed: false, deadline: true }
        } else {
            VlessAction::QueuePing
        },
    }
}

impl VlessLoop {
    /// One turn of the loop.
    pub fn step(&self, event: VlessEvent) -> (action: VlessAction)
        ensures
            action == vless_next(*self, event),
    {
        match event {
            VlessEvent::Binary { decoded } => if self.padded && decoded == 0 {
                VlessAction::Read
            } else {
                VlessAction::HandleFrame
            },
            VlessEvent::Ping => VlessAction::QueuePong,
            VlessEvent::Pong => VlessAction::Read,
            VlessEvent::PongQueued => VlessAction::Read,
            VlessEvent::FrameDone => VlessAction::Read,
            VlessEvent::Close => VlessAction::Leave { carrier_failed: false, deadline: false },
            VlessEvent::Ended => VlessAction::Leave { carrier_failed: false, deadline: false },
            VlessEvent::ReadFailed => VlessAction::Leave { carrier_failed: true, deadline: false },
            VlessEvent::FrameFailed(VlessFrameError::UpstreamConnectFailed) => VlessAction::Reject {
                try_again: true,
                read_out: false,
            },
            VlessEvent::FrameFailed(VlessFrameError::Fatal(_)) => VlessAction::Reject {
                try_again: false,
                read_out: true,
            },
            VlessEvent::PongFailed => VlessAction::Abort,
            VlessEvent::Text => VlessAction::Abort,
            VlessEvent::Tick { idle_ms } => if self.h3 {
                VlessAction::Read
            } else if idle_ms > self.pong_deadline_ms {
                VlessAction::Leave { carrier_failed: false, deadline: true }
            } else {
                VlessAction::QueuePing
            },
        }
    }
}

// ── Laws ────────────────────────────────────────────────────────────────────

/// A session whose upstream is another node's is never parked here, whatever id the
/// carrier was issued.
pub proof fn law_an_edge_never_parks_a_relayed_session(
    upstream: VlessUpstream,
    registry_enabled: bool,
    issued: bool,
)
    requires
        upstream == (VlessUpstream::Tcp { mesh: true }) || upstream == (VlessUpstream::Udp {
            mesh: true,
        }),
    ensures
        park_skips(upstream, registry_enabled, issued),
{
}

/// A relay to the home survives a request exactly where it can carry the command.
pub proof fn law_a_relay_is_kept_iff_it_carries_the_command(command: VlessCommand, shape: MeshShape)
    ensures
        shape == wanted_shape(command) <==> match command {
            VlessCommand::Tcp => shape == MeshShape::Stream,
            VlessCommand::Udp => shape == MeshShape::VlessUdpSingle,
            VlessCommand::Mux => shape == MeshShape::VlessMux,
        },
        forall|other: VlessCommand| wanted_shape(other) == wanted_shape(command) ==> other == command,
{
}

/// A client that wants a replay is told exactly what there is. Where the ring holds
/// everything from the client's offset on, the client gets that, and has the whole
/// downlink with it; where it does not, or there is no ring, the client is told of the
/// gap.
pub proof fn law_a_replay_is_honest(
    state: VlessRelay,
    vless: bool,
    acked: u64,
    ring: Option<&DownlinkRing>,
    parked: ParkedTcpFacts,
    ring_capacity: usize,
)
    requires
        state.symmetric_replay_requested,
        state.facts_of(vless, acked, ring, parked),
    ensures
        ({
            let replay = tcp_resume(state, parked, ring_capacity).replay;
            let offset = state.client_acked_offset;
            &&& replay is Some
            &&& replay->0 is Ok <==> (ring matches Some(ring) && ring.oldest() <= offset <= ring@.len())
            &&& replay->0 matches Ok(bytes) ==> ring->0@.take(offset as int) + bytes@ == ring->0@
        }),
{
    let replay = tcp_resume(state, parked, ring_capacity).replay;
    if let Some(Ok(bytes)) = replay {
        assert(ring->0@.take(state.client_acked_offset as int) + bytes@ =~= ring->0@);
    }
}

/// Where a client's bytes go: into the upstream that was established, in the way that
/// upstream takes them, and into the request header exactly where there is none yet.
pub proof fn law_a_frame_goes_into_the_upstream(state: VlessRelay, count: bool)
    ensures
        frame_action(state) == (FrameAction::WriteTcp { count }) <==> state.upstream is Tcp && count
            == state.has_counters,
        frame_action(state) == FrameAction::ForwardUdp <==> state.upstream is Udp,
        frame_action(state) == FrameAction::FeedMux <==> state.upstream is Mux,
        frame_action(state) == FrameAction::ParseHeader <==> state.upstream is Nowhere,
{
}

/// A client is asked to try again exactly where its session lives on another node: an
/// upstream of this node that fails is an error of the session.
pub proof fn law_a_broken_relay_may_be_tried_again(mesh: bool)
    ensures
        write_failure(mesh) == VlessFrameError::UpstreamConnectFailed <==> mesh,
        write_failure(mesh) == VlessFrameError::Fatal(FatalReason::WriteFailed) <==> !mesh,
{
}

/// What a resumed client is told, and with which ring it goes on: the count of its own
/// session where it asked for one, a replay or the reason there is none where it asked
/// for one, and nothing otherwise. A ring is kept on, made, or done without for its sake.
pub proof fn law_a_resumption_is_what_was_asked_for(
    state: VlessRelay,
    parked: ParkedTcpFacts,
    ring_capacity: usize,
)
    ensures
        ({
            let resume = tcp_resume(state, parked, ring_capacity);
            &&& resume.cross_protocol <==> !parked.vless
            &&& resume.ack is Some <==> state.ack_prefix_requested
            &&& resume.ack matches Some(acked) ==> acked == parked.acked
            &&& resume.replay is Some <==> state.symmetric_replay_requested
            &&& resume.replay matches Some(replay) ==> match replay {
                Ok(bytes) => parked.ring == Some(ReplayOutcome::Available(bytes)),
                Err(TruncateReason::Evicted) => parked.ring == Some(ReplayOutcome::Truncated),
                Err(TruncateReason::ClientAhead) => parked.ring == Some(ReplayOutcome::OffsetAhead),
                Err(TruncateReason::NoRing) => parked.ring is None,
            }
            &&& resume.ring == RingPlan::Unchanged <==> !state.symmetric_replay_requested
            &&& resume.ring == RingPlan::Parked <==> state.symmetric_replay_requested && parked.ring
                is Some
            &&& resume.ring == RingPlan::Create <==> state.symmetric_replay_requested && parked.ring
                is None && ring_capacity > 0
        }),
{
}

/// The facts of a parked session are its own: its protocol, its count, and what its ring
/// holds beyond the client's offset.
pub proof fn law_parked_facts_are_the_sessions_own(
    state: VlessRelay,
    vless: bool,
    acked: u64,
    ring: Option<&DownlinkRing>,
    facts: ParkedTcpFacts,
)
    requires
        state.facts_of(vless, acked, ring, facts),
    ensures
        facts.vless == vless,
        facts.acked == acked,
        facts.ring is Some <==> ring is Some,
        facts.ring matches Some(ReplayOutcome::Available(bytes)) ==> {
            &&& state.client_acked_offset + bytes@.len() == ring->0@.len()
            &&& bytes@.len() <= ring->0.cap()
            &&& forall|i: int|
                0 <= i < bytes@.len() ==> #[trigger] bytes@[i] == ring->0@[state.client_acked_offset
                    + i]
        },
        facts.ring matches Some(ReplayOutcome::Truncated) ==> ring->0@.len()
            - state.client_acked_offset > ring->0.cap(),
        facts.ring matches Some(ReplayOutcome::OffsetAhead) ==> state.client_acked_offset
            > ring->0@.len(),
{
}

/// What a carrier leaves is harvested for a park exactly where the registry takes parks,
/// the session has an id to come back with, and this node holds the upstream itself.
pub proof fn law_what_can_come_back_is_parked(
    upstream: VlessUpstream,
    registry_enabled: bool,
    issued: bool,
)
    ensures
        !park_skips(upstream, registry_enabled, issued) <==> registry_enabled && issued && (upstream
            == VlessUpstream::Mux || upstream == (VlessUpstream::Tcp { mesh: false }) || upstream
            == (VlessUpstream::Udp { mesh: false })),
{
}

/// A TCP upstream is parked exactly where its reader was handed back whole, its socket is
/// still counted, and somebody who is counted owns it.
pub proof fn law_a_whole_connection_is_parked(
    state: VlessRelay,
    harvest: TcpHarvest,
    guarded_socket: bool,
    upstream: VlessUpstream,
)
    ensures
        state.tcp_parkable(harvest, guarded_socket) <==> harvest == TcpHarvest::Reader
            && guarded_socket && state.has_counters && state.authenticated_user is Some,
        state.with_upstream(upstream).upstream == upstream,
        state.with_upstream(upstream) == (VlessRelay { upstream, ..state }),
{
}

/// The loop of a carrier, told from what it does. It handles every frame but one of
/// nothing but padding; it answers pings; it asks a quiet client whether it is there, and
/// leaves one that was silent past the deadline, but not on a carrier that keeps itself
/// alive. It leaves in good order where the client closed or ended, and with the
/// carrier's error where reading failed; it rejects a client exactly where a frame
/// failed, and reads it out unless it may try again.
pub proof fn law_a_carrier_is_served_until_it_ends(
    state: VlessLoop,
    event: VlessEvent,
    try_again: bool,
    read_out: bool,
)
    ensures
        ({
            let action = vless_next(state, event);
            let silent = !state.h3 && (event matches VlessEvent::Tick { idle_ms } && idle_ms
                > state.pong_deadline_ms);
            let quiet = !state.h3 && (event matches VlessEvent::Tick { idle_ms } && idle_ms
                <= state.pong_deadline_ms);
            let blank = state.padded && event == (VlessEvent::Binary { decoded: 0 });
            &&& action == VlessAction::HandleFrame <==> event is Binary && !blank
            &&& action == VlessAction::QueuePong <==> event is Ping
            &&& action == VlessAction::QueuePing <==> quiet
            &&& action == (VlessAction::Leave { carrier_failed: false, deadline: false }) <==> event
                is Close || event is Ended
            &&& action == (VlessAction::Leave { carrier_failed: true, deadline: false }) <==> event
                is ReadFailed
            &&& action == (VlessAction::Leave { carrier_failed: false, deadline: true }) <==> silent
            &&& action == (VlessAction::Reject { try_again, read_out }) <==> (
            event matches VlessEvent::FrameFailed(error) && try_again == (error
                == VlessFrameError::UpstreamConnectFailed) && read_out == !try_again)
            &&& action == VlessAction::Abort <==> event is Text || event is PongFailed
            &&& action == VlessAction::Read <==> {
                ||| blank
                ||| event is Pong
                ||| event is PongQueued
                ||| event is FrameDone
                ||| event is Tick && state.h3
            }
        }),
{
}

/// A request is taken for what it is: a whole one gives its command, one that is not whole
/// is waited for as long as it may still become one, and anything else ends the carrier
/// for its own reason.
pub proof fn law_a_request_is_taken_for_what_it_is(
    state: VlessRelay,
    parse: HeaderParse,
    max_buffer: usize,
    result: Result<Option<VlessCommand>, VlessFrameError>,
    command: VlessCommand,
)
    requires
        call_ensures(VlessRelay::on_header, (&state, parse, max_buffer), result),
    ensures
        result == Ok::<Option<VlessCommand>, VlessFrameError>(Some(command)) <==> parse
            == HeaderParse::Request(command),
        result == Ok::<Option<VlessCommand>, VlessFrameError>(None) <==> parse
            == HeaderParse::Incomplete && state.header_buffer@.len() <= max_buffer,
        result == Err::<Option<VlessCommand>, VlessFrameError>(
            VlessFrameError::Fatal(FatalReason::HeaderTooLarge),
        ) <==> parse == HeaderParse::Incomplete && state.header_buffer@.len() > max_buffer,
        result == Err::<Option<VlessCommand>, VlessFrameError>(
            VlessFrameError::Fatal(FatalReason::UnsupportedCommand),
        ) <==> parse == HeaderParse::UnsupportedCommand,
        result == Err::<Option<VlessCommand>, VlessFrameError>(
            VlessFrameError::Fatal(FatalReason::Malformed),
        ) <==> parse == HeaderParse::Malformed,
{
}

/// What an upstream took is no error; what it did not take ends the carrier, and the client
/// may try again exactly where the upstream is another node's.
pub proof fn law_what_is_not_taken_ends_the_carrier(
    state: VlessRelay,
    mesh: bool,
    taken: bool,
    forwarded: Result<(), VlessFrameError>,
    mux: VlessRelay,
    fed: Result<(), VlessFrameError>,
)
    requires
        state.upstream == (VlessUpstream::Udp { mesh }),
        call_ensures(VlessRelay::on_forwarded, (&state, taken), forwarded),
        call_ensures(VlessRelay::on_fed, (&mux, taken), fed),
    ensures
        forwarded is Ok <==> taken,
        fed is Ok <==> taken,
        !taken ==> (forwarded->Err_0 == VlessFrameError::UpstreamConnectFailed <==> mesh),
        !taken && !mesh ==> forwarded->Err_0 == VlessFrameError::Fatal(FatalReason::WriteFailed),
        !taken ==> fed->Err_0 == VlessFrameError::Fatal(FatalReason::MuxFailed),
{
}

/// A mux request resumes a parked mux, starts a new one where there is none, and is turned
/// away exactly where the id is another kind's; a mux is parked, for its user, exactly
/// where some connection of it is left. A byte stream has an offset and is counted as a
/// session of its own; a mux has neither.
pub proof fn law_a_mux_comes_back_whole(
    taken: MuxTaken,
    settled: Result<bool, VlessFrameError>,
    state: VlessRelay,
    parkable: bool,
    survivors: usize,
    owner: Option<String>,
    kind: MeshAttachKind,
    emits: bool,
    records: bool,
)
    requires
        call_ensures(settle_mux_taken, (taken,), settled),
        call_ensures(VlessRelay::try_park_vless_mux, (&state, parkable, survivors), owner),
        call_ensures(MeshAttachKind::emits_ack_prefix, (kind,), emits),
        call_ensures(MeshAttachKind::records_authenticated_session, (kind,), records),
    ensures
        settled == Ok::<bool, VlessFrameError>(true) <==> taken == MuxTaken::ParkedMux,
        settled == Ok::<bool, VlessFrameError>(false) <==> taken == MuxTaken::Missed,
        settled == Err::<bool, VlessFrameError>(
            VlessFrameError::Fatal(FatalReason::CrossShapeResume),
        ) <==> taken == MuxTaken::ParkedOtherwise,
        owner is Some <==> parkable && survivors > 0 && state.authenticated_user is Some,
        owner is Some ==> owner->0@ == state.authenticated_user->0@,
        emits <==> kind == MeshAttachKind::Tcp,
        records <==> kind == MeshAttachKind::Tcp,
{
}

} // verus!
