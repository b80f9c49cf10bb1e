//! Establishing the upstream of a TCP or mux request, step by step.

use vstd::prelude::*;
use crate::session::SessionId;
use crate::vless_relay::{
    settle_mux_taken, tcp_resume, write_failure, EstablishStep, FatalReason, MeshAttachKind,
    MuxTaken, ParkedTcpFacts, RingPlan, TcpResume, TcpTaken, TruncateReason, VlessFrameError,
    VlessRelay, VlessUpstream,
};

verus! {

/// What an upstream comes with. The client reads the response header first, then the
/// acknowledged offset, then the replay, then the upstream.
#[derive(Debug)]
pub struct UpstreamPlan {
    pub upstream: VlessUpstream,
    pub ack: Option<u64>,
    pub replay: Option<Result<Vec<u8>, TruncateReason>>,
    /// The count of acknowledged bytes a resumed session goes on with.
    pub adopt: Option<u64>,
    pub ring: RingPlan,
    /// Count an authenticated TCP session.
    pub records_session: bool,
    /// The upstream is the carrier's only once it has taken what the client sent behind
    /// its request.
    pub leftover_first: bool,
}

/// Where establishing stands.
#[derive(Debug)]
pub enum EstablishPhase {
    Attaching(MeshAttachKind),
    Taking(MeshAttachKind),
    Connecting,
    QueueingHeader(UpstreamPlan),
    QueueingAck(UpstreamPlan),
    QueueingReplay(UpstreamPlan),
    /// What the client sent behind its request is on its way into this upstream.
    WritingLeftover { len: usize, upstream: VlessUpstream },
    Done,
}

/// What the last action came to.
#[derive(Debug)]
pub enum EstablishEvent {
    /// The home knows the user; its upstream has taken this many bytes.
    Attached { upstream_acked: u64 },
    AttachFailed,
    TcpTaken(TcpTaken),
    MuxTaken(MuxTaken),
    Connected,
    ConnectFailed,
    Queued,
    QueueFailed,
    LeftoverWritten(bool),
}

/// What is done next.
#[derive(Debug)]
pub enum EstablishAction {
    AttachMesh(MeshAttachKind),
    Take(SessionId),
    /// Connect to the target, and count how that went.
    Connect,
    /// Queue the response header, framed as the carrier's padding has it where `padded`
    /// says so and as it is otherwise; count a resumption across protocols where
    /// `cross_protocol` says so.
    QueueHeader { padded: bool, cross_protocol: bool },
    QueueAck(u64),
    /// Queue a replay frame: the bytes, or a mark that they cannot be had.
    QueueReplay(Result<Vec<u8>, TruncateReason>),
    /// Start the upstream's reader, with a ring as planned; then count this many bytes of
    /// the leftover for the user, and write it. A mux counts its connections' bytes itself.
    Start { upstream: VlessUpstream, ring: RingPlan, records_session: bool, counted: usize },
    Finish,
    Fail(VlessFrameError),
}

pub open spec fn establish_accepts(phase: EstablishPhase, event: EstablishEvent) -> bool {
    match phase {
        EstablishPhase::Attaching(_) => event is Attached || event is AttachFailed,
        EstablishPhase::Taking(kind) => if kind == MeshAttachKind::Tcp {
            event is TcpTaken
        } else {
            event is MuxTaken
        },
        EstablishPhase::Connecting => event is Connected || event is ConnectFailed,
        EstablishPhase::QueueingHeader(_) => event is Queued || event is QueueFailed,
        EstablishPhase::QueueingAck(_) => event is Queued || event is QueueFailed,
        EstablishPhase::QueueingReplay(_) => event is Queued || event is QueueFailed,
        EstablishPhase::WritingLeftover { .. } => event is LeftoverWritten,
        EstablishPhase::Done => false,
    }
}

// ── Plans ───────────────────────────────────────────────────────────────────

/// A relay to the home: no ring, for the home keeps it; no count to go on with, for the
/// home reports its own.
pub open spec fn mesh_plan(state: VlessRelay, kind: MeshAttachKind, upstream_acked: u64) -> UpstreamPlan {
    UpstreamPlan {
        upstream: VlessUpstream::Tcp { mesh: true },
        ack: if state.ack_prefix_requested && kind == MeshAttachKind::Tcp {
            Some(upstream_acked)
        } else {
            None
        },
        replay: None,
        adopt: None,
        ring: RingPlan::Unchanged,
        records_session: kind == MeshAttachKind::Tcp,
        leftover_first: false,
    }
}

/// A parked session of this node.
pub open spec fn parked_plan(state: VlessRelay, parked: ParkedTcpFacts, ring_capacity: usize) -> UpstreamPlan {
    let resume = tcp_resume(state, parked, ring_capacity);
    UpstreamPlan {
        upstream: VlessUpstream::Tcp { mesh: false },
        ack: resume.ack,
        replay: resume.replay,
        adopt: Some(parked.acked),
        ring: resume.ring,
        records_session: false,
        leftover_first: false,
    }
}

/// A new connection.
pub open spec fn fresh_plan(state: VlessRelay, ring_capacity: usize) -> UpstreamPlan {
    UpstreamPlan {
        upstream: VlessUpstream::Tcp { mesh: false },
        ack: None,
        replay: None,
        adopt: None,
        ring: if state.symmetric_replay_requested && !state.has_ring && ring_capacity > 0 {
            RingPlan::Create
        } else {
            RingPlan::Unchanged
        },
        records_session: true,
        leftover_first: false,
    }
}

/// A mux of this node: one that is resumed is the carrier's at once, a new one once it
/// has taken the leftover.
pub open spec fn mux_plan(resumed: bool) -> UpstreamPlan {
    UpstreamPlan {
        upstream: VlessUpstream::Mux,
        ack: None,
        replay: None,
        adopt: None,
        ring: RingPlan::Unchanged,
        records_session: false,
        leftover_first: !resumed,
    }
}

// ── Steps ───────────────────────────────────────────────────────────────────

/// The messages of a plan are queued: the upstream is started, and the leftover of
/// `len` bytes written.
pub open spec fn started(plan: UpstreamPlan, len: usize) -> (EstablishPhase, EstablishAction) {
    (
        EstablishPhase::WritingLeftover { len, upstream: plan.upstream },
        EstablishAction::Start {
            upstream: plan.upstream,
            ring: plan.ring,
            records_session: plan.records_session,
            counted: if plan.upstream is Tcp {
                len
            } else {
                0
            },
        },
    )
}

/// Past the acknowledged offset: the replay, where there is one.
pub open spec fn past_offset(plan: UpstreamPlan, len: usize) -> (EstablishPhase, EstablishAction) {
    match plan.replay {
        Some(replay) => (
            EstablishPhase::QueueingReplay(UpstreamPlan { replay: None, ..plan }),
            EstablishAction::QueueReplay(replay),
        ),
        None => started(plan, len),
    }
}

/// Past the response header: the acknowledged offset, where there is one.
pub open spec fn past_header(plan: UpstreamPlan, len: usize) -> (EstablishPhase, EstablishAction) {
    match plan.ack {
        Some(acked) => (EstablishPhase::QueueingAck(plan), EstablishAction::QueueAck(acked)),
        None => past_offset(plan, len),
    }
}

pub open spec fn failed(error: VlessFrameError) -> (EstablishPhase, EstablishAction) {
    (EstablishPhase::Done, EstablishAction::Fail(error))
}

/// How a leftover that cannot be written ends the carrier.
pub open spec fn leftover_failure(upstream: VlessUpstream) -> VlessFrameError {
    match upstream {
        VlessUpstream::Tcp { mesh } => write_failure(mesh),
        _ => VlessFrameError::Fatal(FatalReason::MuxFailed),
    }
}

pub open spec fn establish_next(
    state: VlessRelay,
    phase: EstablishPhase,
    event: EstablishEvent,
    leftover: usize,
    ring_capacity: usize,
) -> (EstablishPhase, EstablishAction) {
    match (phase, event) {
        (EstablishPhase::Attaching(kind), EstablishEvent::Attached { upstream_acked }) => (
            EstablishPhase::QueueingHeader(mesh_plan(state, kind, upstream_acked)),
            EstablishAction::QueueHeader { padded: true, cross_protocol: false },
        ),
        (EstablishPhase::Attaching(_), _) => failed(VlessFrameError::UpstreamConnectFailed),
        (EstablishPhase::Taking(_), EstablishEvent::TcpTaken(TcpTaken::Parked(parked))) => (
            EstablishPhase::QueueingHeader(parked_plan(state, parked, ring_capacity)),
            EstablishAction::QueueHeader { padded: true, cross_protocol: !parked.vless },
        ),
        (EstablishPhase::Taking(_), EstablishEvent::TcpTaken(TcpTaken::Otherwise)) => (
            EstablishPhase::Connecting,
            EstablishAction::Connect,
        ),
        (EstablishPhase::Taking(_), EstablishEvent::MuxTaken(taken)) => if taken
            == MuxTaken::ParkedOtherwise {
            failed(VlessFrameError::Fatal(FatalReason::CrossShapeResume))
        } else {
            (
                EstablishPhase::QueueingHeader(mux_plan(taken == MuxTaken::ParkedMux)),
                EstablishAction::QueueHeader { padded: false, cross_protocol: false },
            )
        },
        (EstablishPhase::Connecting, EstablishEvent::Connected) => (
            EstablishPhase::QueueingHeader(fresh_plan(state, ring_capacity)),
            EstablishAction::QueueHeader { padded: true, cross_protocol: false },
        ),
        (EstablishPhase::Connecting, _) => failed(VlessFrameError::UpstreamConnectFailed),
        (EstablishPhase::QueueingHeader(plan), EstablishEvent::Queued) => past_header(plan, leftover),
        (EstablishPhase::QueueingAck(plan), EstablishEvent::Queued) => past_offset(plan, leftover),
        (EstablishPhase::QueueingReplay(plan), EstablishEvent::Queued) => started(plan, leftover),
        (EstablishPhase::WritingLeftover { upstream, .. }, EstablishEvent::LeftoverWritten(written)) => if written {
            (EstablishPhase::Done, EstablishAction::Finish)
        } else {
            failed(leftover_failure(upstream))
        },
        _ => failed(VlessFrameError::Fatal(FatalReason::QueueFailed)),
    }
}

/// The state once a resumed session's count is the carrier's, which it is from the
/// moment the response header is queued.
pub open spec fn adopted(state: VlessRelay, phase: EstablishPhase, event: EstablishEvent) -> VlessRelay {
    match (phase, event) {
        (EstablishPhase::QueueingHeader(plan), EstablishEvent::Queued) => match plan.adopt {
            Some(acked) => VlessRelay { upstream_bytes_acked: acked, ..state },
            None => state,
        },
        _ => state,
    }
}

/// The state once a plan's upstream is started for `user`.
pub open spec fn installed(state: VlessRelay, plan: UpstreamPlan, after: VlessRelay, user: Seq<char>) -> bool {
    &&& after.header_buffer@.len() == 0
    &&& after.authenticated_user matches Some(owner) && owner@ == user
    &&& after == (VlessRelay {
        upstream: if plan.leftover_first {
            state.upstream
        } else {
            plan.upstream
        },
        authenticated_user: after.authenticated_user,
        has_counters: true,
        header_buffer: after.header_buffer,
        has_ring: match plan.ring {
            RingPlan::Parked => true,
            RingPlan::Create => true,
            RingPlan::Unchanged => state.has_ring,
            RingPlan::Without => false,
        },
        ..state
    })
}

/// The state once the upstream has taken the leftover.
pub open spec fn settled(state: VlessRelay, phase: EstablishPhase) -> VlessRelay {
    match phase {
        EstablishPhase::WritingLeftover { len, upstream } => if upstream is Tcp {
            VlessRelay {
                upstream_bytes_acked: ((state.upstream_bytes_acked + len)
                    % 0x1_0000_0000_0000_0000) as u64,
                ..state
            }
        } else {
            VlessRelay { upstream, ..state }
        },
        _ => state,
    }
}

/// The plan whose upstream this step starts.
pub open spec fn started_plan(phase: EstablishPhase) -> UpstreamPlan {
    match phase {
        EstablishPhase::QueueingHeader(plan) => plan,
        EstablishPhase::QueueingAck(plan) => plan,
        EstablishPhase::QueueingReplay(plan) => plan,
        _ => mux_plan(true),
    }
}

/// The request whose upstream is being established.
#[derive(Debug)]
pub struct EstablishRequest {
    pub user: String,
    /// How much of the header buffer the request takes up.
    pub consumed: usize,
    /// How many bytes a ring holds on this node; 0 where it keeps none.
    pub ring_capacity: usize,
}

impl EstablishRequest {
    fn start(&self, state: &mut VlessRelay, plan: UpstreamPlan) -> (begun: (
        EstablishPhase,
        EstablishAction,
        Vec<u8>,
    ))
        requires
            self.consumed <= old(state).header_buffer@.len(),
        ensures
            (begun.0, begun.1) == started(
                plan,
                (old(state).header_buffer@.len() - self.consumed) as usize,
            ),
            begun.2@ == old(state).header_buffer@.skip(self.consumed as int),
            installed(*old(state), plan, *final(state), self.user@),
    {
        let acked: u64 = state.upstream_bytes_acked;
        state.adopt_tcp(acked, plan.ring);
        let now = if plan.leftover_first { state.upstream } else { plan.upstream };
        let leftover = state.install(now, self.user.clone(), self.consumed);
        let len: usize = leftover.len();
        assert(leftover@ =~= old(state).header_buffer@.skip(self.consumed as int));
        let counted: usize = match plan.upstream {
            VlessUpstream::Tcp { .. } => len,
            _ => 0,
        };
        (
            EstablishPhase::WritingLeftover { len, upstream: plan.upstream },
            EstablishAction::Start {
                upstream: plan.upstream,
                ring: plan.ring,
                records_session: plan.records_session,
                counted,
            },
            leftover,
        )
    }

    fn after_offset(&self, state: &mut VlessRelay, plan: UpstreamPlan) -> (stepped: (
        EstablishPhase,
        EstablishAction,
        Vec<u8>,
    ))
        requires
            self.consumed <= old(state).header_buffer@.len(),
        ensures
            (stepped.0, stepped.1) == past_offset(
                plan,
                (old(state).header_buffer@.len() - self.consumed) as usize,
            ),
            stepped.1 is Start ==> installed(*old(state), plan, *final(state), self.user@)
                && stepped.2@ == old(state).header_buffer@.skip(self.consumed as int),
            !(stepped.1 is Start) ==> *final(state) == *old(state) && stepped.2@.len() == 0,
    {
        let UpstreamPlan {
            upstream,
            ack,
            replay,
            adopt,
            ring,
            records_session,
            leftover_first,
        } = plan;
        match replay {
            Some(replay) => (
                EstablishPhase::QueueingReplay(
                    UpstreamPlan {
                        upstream,
                        ack,
                        replay: None,
                        adopt,
                        ring,
                        records_session,
                        leftover_first,
                    },
                ),
                EstablishAction::QueueReplay(replay),
                Vec::new(),
            ),
            None => self.start(
                state,
                UpstreamPlan {
                    upstream,
                    ack,
                    replay: None,
                    adopt,
                    ring,
                    records_session,
                    leftover_first,
                },
            ),
        }
    }

    fn plan_fresh(&self, state: &VlessRelay) -> (plan: UpstreamPlan)
        ensures
            plan == fresh_plan(*state, self.ring_capacity),
    {
        let ring = if state.symmetric_replay_requested && !state.has_ring && self.ring_capacity > 0 {
            RingPlan::Create
        } else {
            RingPlan::Unchanged
        };
        UpstreamPlan {
            upstream: VlessUpstream::Tcp { mesh: false },
            ack: None,
            replay: None,
            adopt: None,
            ring,
            records_session: true,
            leftover_first: false,
        }
    }

    fn plan_parked(&self, state: &VlessRelay, parked: ParkedTcpFacts) -> (plan: UpstreamPlan)
        ensures
            plan == parked_plan(*state, parked, self.ring_capacity),
    {
        let acked: u64 = parked.acked;
        let TcpResume { cross_protocol: _, ack, replay, ring } = state.plan_tcp_resume(
            parked,
            self.ring_capacity,
        );
        UpstreamPlan {
            upstream: VlessUpstream::Tcp { mesh: false },
            ack,
            replay,
            adopt: Some(acked),
            ring,
            records_session: false,
            leftover_first: false,
        }
    }

    /// Starts on a TCP or mux request: with the relay to the home, then with the
    /// session the client wants back, then with a new upstream.
    pub fn begin(&self, state: &mut VlessRelay, kind: MeshAttachKind) -> (begun: (
        EstablishPhase,
        EstablishAction,
    ))
        ensures
            old(state).mesh_upstream is Some ==> {
                &&& begun == (
                    EstablishPhase::Attaching(kind),
                    EstablishAction::AttachMesh(kind),
                )
                &&& *final(state) == (VlessRelay { mesh_upstream: None, ..*old(state) })
            },
            old(state).mesh_upstream is None && old(state).pending_resume is Some ==> {
                &&& begun == (
                    EstablishPhase::Taking(kind),
                    EstablishAction::Take(old(state).pending_resume->0),
                )
                &&& *final(state) == (VlessRelay { pending_resume: None, ..*old(state) })
            },
            old(state).mesh_upstream is None && old(state).pending_resume is None ==> {
                &&& begun == if kind == MeshAttachKind::Tcp {
                    (EstablishPhase::Connecting, EstablishAction::Connect)
                } else {
                    (
                        EstablishPhase::QueueingHeader(mux_plan(false)),
                        EstablishAction::QueueHeader { padded: false, cross_protocol: false },
                    )
                }
                &&& *final(state) == *old(state)
            },
    {
        match state.begin_establish(kind) {
            EstablishStep::AttachMesh(kind) => (
                EstablishPhase::Attaching(kind),
                EstablishAction::AttachMesh(kind),
            ),
            EstablishStep::Take(id) => (EstablishPhase::Taking(kind), EstablishAction::Take(id)),
            EstablishStep::Fresh => match kind {
                MeshAttachKind::Tcp => (EstablishPhase::Connecting, EstablishAction::Connect),
                MeshAttachKind::Mux => (
                    EstablishPhase::QueueingHeader(plan_mux(false)),
                    EstablishAction::QueueHeader { padded: false, cross_protocol: false },
                ),
            },
        }
    }

    /// One step. Where it starts the upstream, what the client sent behind its request
    /// comes back with it; otherwise nothing does.
    pub fn step(&self, state: &mut VlessRelay, phase: EstablishPhase, event: EstablishEvent) -> (stepped: (
        EstablishPhase,
        EstablishAction,
        Vec<u8>,
    ))
        requires
            establish_accepts(phase, event),
            self.consumed <= old(state).header_buffer@.len() || phase is WritingLeftover,
            phase matches EstablishPhase::WritingLeftover { upstream, .. } ==> {
                ||| upstream is Tcp && old(state).upstream == upstream
                ||| upstream is Mux
            },
        ensures
            (stepped.0, stepped.1) == establish_next(
                *old(state),
                phase,
                event,
                (old(state).header_buffer@.len() - self.consumed) as usize,
                self.ring_capacity,
            ),
            stepped.1 is Start ==> {
                &&& installed(
                    adopted(*old(state), phase, event),
                    started_plan(phase),
                    *final(state),
                    self.user@,
                )
                &&& stepped.2@ == old(state).header_buffer@.skip(self.consumed as int)
            },
            !(stepped.1 is Start) ==> stepped.2@.len() == 0,
            stepped.1 is Finish ==> *final(state) == settled(*old(state), phase),
            !(stepped.1 is Start) && !(stepped.1 is Finish) ==> *final(state) == adopted(
                *old(state),
                phase,
                event,
            ),
    {
        match (phase, event) {
            (EstablishPhase::Attaching(kind), EstablishEvent::Attached { upstream_acked }) => {
                let plan = UpstreamPlan {
                    upstream: VlessUpstream::Tcp { mesh: true },
                    ack: state.mesh_ack(kind, upstream_acked),
                    replay: None,
                    adopt: None,
                    ring: RingPlan::Unchanged,
                    records_session: kind.records_authenticated_session(),
                    leftover_first: false,
                };
                (
                    EstablishPhase::QueueingHeader(plan),
                    EstablishAction::QueueHeader { padded: true, cross_protocol: false },
                    Vec::new(),
                )
            },
            (EstablishPhase::Attaching(_), _) => fail(VlessFrameError::UpstreamConnectFailed),
            (EstablishPhase::Taking(_), EstablishEvent::TcpTaken(TcpTaken::Parked(parked))) => {
                let cross_protocol = !parked.vless;
                (
                    EstablishPhase::QueueingHeader(self.plan_parked(state, parked)),
                    EstablishAction::QueueHeader { padded: true, cross_protocol },
                    Vec::new(),
                )
            },
            (EstablishPhase::Taking(_), EstablishEvent::TcpTaken(TcpTaken::Otherwise)) => (
                EstablishPhase::Connecting,
                EstablishAction::Connect,
                Vec::new(),
            ),
            (EstablishPhase::Taking(_), EstablishEvent::MuxTaken(taken)) => match settle_mux_taken(
                taken,
            ) {
                Err(error) => fail(error),
                Ok(resumed) => (
                    EstablishPhase::QueueingHeader(plan_mux(resumed)),
                    EstablishAction::QueueHeader { padded: false, cross_protocol: false },
                    Vec::new(),
                ),
            },
            (EstablishPhase::Connecting, EstablishEvent::Connected) => (
                EstablishPhase::QueueingHeader(self.plan_fresh(state)),
                EstablishAction::QueueHeader { padded: true, cross_protocol: false },
                Vec::new(),
            ),
            (EstablishPhase::Connecting, _) => fail(VlessFrameError::UpstreamConnectFailed),
            (EstablishPhase::QueueingHeader(plan), EstablishEvent::Queued) => {
                match plan.adopt {
                    Some(acked) => {
                        state.adopt_tcp(acked, RingPlan::Unchanged);
                    },
                    None => {},
                }
                match plan.ack {
                    Some(acked) => (
                        EstablishPhase::QueueingAck(plan),
                        EstablishAction::QueueAck(acked),
                        Vec::new(),
                    ),
                    None => self.after_offset(state, plan),
                }
            },
            (EstablishPhase::QueueingAck(plan), EstablishEvent::Queued) => self.after_offset(
                state,
                plan,
            ),
            (EstablishPhase::QueueingReplay(plan), EstablishEvent::Queued) => self.start(state, plan),
            (
                EstablishPhase::WritingLeftover { len, upstream },
                EstablishEvent::LeftoverWritten(written),
            ) => {
                match upstream {
                    VlessUpstream::Tcp { .. } => match state.on_written(len, written) {
                        Ok(_) => (EstablishPhase::Done, EstablishAction::Finish, Vec::new()),
                        Err(error) => fail(error),
                    },
                    _ => if written {
                        state.upstream = upstream;
                        (EstablishPhase::Done, EstablishAction::Finish, Vec::new())
                    } else {
                        fail(VlessFrameError::Fatal(FatalReason::MuxFailed))
                    },
                }
            },
            _ => fail(VlessFrameError::Fatal(FatalReason::QueueFailed)),
        }
    }
}

fn fail(error: VlessFrameError) -> (stepped: (EstablishPhase, EstablishAction, Vec<u8>))
    ensures
        (stepped.0, stepped.1) == failed(error),
        stepped.2@.len() == 0,
{
    (EstablishPhase::Done, EstablishAction::Fail(error), Vec::new())
}

fn plan_mux(resumed: bool) -> (plan: UpstreamPlan)
    ensures
        plan == mux_plan(resumed),
{
    UpstreamPlan {
        upstream: VlessUpstream::Mux,
        ack: None,
        replay: None,
        adopt: None,
        ring: RingPlan::Unchanged,
        records_session: false,
        leftover_first: !resumed,
    }
}

// ── Laws ────────────────────────────────────────────────────────────────────

/// How far establishing has got, as the client sees it.
pub open spec fn establish_rank(phase: EstablishPhase) -> int {
    match phase {
        EstablishPhase::Attaching(_) => 0,
        EstablishPhase::Taking(_) => 0,
        EstablishPhase::Connecting => 1,
        EstablishPhase::QueueingHeader(_) => 2,
        EstablishPhase::QueueingAck(_) => 3,
        EstablishPhase::QueueingReplay(_) => 4,
        EstablishPhase::WritingLeftover { .. } => 5,
        EstablishPhase::Done => 6,
    }
}

/// The client reads the response header, then the acknowledged offset, then the
/// replay, then the upstream: each is queued on the way into the phase that bears its
/// name, every step leads to a later phase, and the first of them is the header's.
pub proof fn law_the_client_reads_in_order(
    state: VlessRelay,
    phase: EstablishPhase,
    event: EstablishEvent,
    leftover: usize,
    ring_capacity: usize,
)
    requires
        establish_accepts(phase, event),
    ensures
        ({
            let (next, action) = establish_next(state, phase, event, leftover, ring_capacity);
            &&& establish_rank(phase) < establish_rank(next)
            &&& action is QueueHeader <==> next is QueueingHeader
            &&& action is QueueAck <==> next is QueueingAck
            &&& action is QueueReplay <==> next is QueueingReplay
            &&& action is Start <==> next is WritingLeftover
            &&& establish_rank(phase) < 2 ==> establish_rank(next) <= 2 || next is Done
        }),
{
}

/// A session that is resumed goes on counting where it was parked: the client is told
/// the very count the carrier starts from, and the carrier has it before the client is
/// told.
pub proof fn law_a_resumed_count_is_the_one_the_client_hears(
    state: VlessRelay,
    parked: ParkedTcpFacts,
    ring_capacity: usize,
)
    ensures
        parked_plan(state, parked, ring_capacity).adopt == Some(parked.acked),
        parked_plan(state, parked, ring_capacity).ack is Some ==> parked_plan(
            state,
            parked,
            ring_capacity,
        ).ack == parked_plan(state, parked, ring_capacity).adopt,
        adopted(
            state,
            EstablishPhase::QueueingHeader(parked_plan(state, parked, ring_capacity)),
            EstablishEvent::Queued,
        ).upstream_bytes_acked == parked.acked,
{
}

/// A relayed session is never given a ring or a replay of this node's.
pub proof fn law_a_relayed_session_replays_nothing_here(
    state: VlessRelay,
    kind: MeshAttachKind,
    upstream_acked: u64,
)
    ensures
        mesh_plan(state, kind, upstream_acked).replay is None,
        mesh_plan(state, kind, upstream_acked).ring == RingPlan::Unchanged,
{
}

// ── What establishing is for ────────────────────────────────────────────────

/// A request always comes to an upstream unless something broke: a TCP request whose
/// resume brings nothing goes on exactly as one without a resume, by connecting, and a
/// mux request whose resume brings nothing starts a new mux. Only a mux request that
/// names a session of another kind is turned away for it.
pub proof fn law_a_resume_that_brings_nothing_costs_nothing(
    state: VlessRelay,
    phase: EstablishPhase,
    event: EstablishEvent,
    leftover: usize,
    ring_capacity: usize,
)
    requires
        establish_accepts(phase, event),
    ensures
        ({
            let (next, action) = establish_next(state, phase, event, leftover, ring_capacity);
            &&& event == EstablishEvent::TcpTaken(TcpTaken::Otherwise) ==> next
                == EstablishPhase::Connecting && action == EstablishAction::Connect
            &&& action == EstablishAction::Connect <==> event == EstablishEvent::TcpTaken(
                TcpTaken::Otherwise,
            )
            &&& action == EstablishAction::Fail(VlessFrameError::Fatal(FatalReason::CrossShapeResume))
                <==> event == EstablishEvent::MuxTaken(MuxTaken::ParkedOtherwise)
            &&& event == EstablishEvent::MuxTaken(MuxTaken::Missed) || event
                == EstablishEvent::MuxTaken(MuxTaken::ParkedMux) ==> next is QueueingHeader
        }),
{
}

/// Establishing fails only where something broke, and says what: a client whose upstream
/// cannot be reached, or whose relay broke, is asked to try again; a carrier that takes
/// nothing more, an own upstream or mux that does not take the leftover, and a session of
/// another kind end it for good.
pub proof fn law_establishing_fails_only_for_a_cause(
    state: VlessRelay,
    phase: EstablishPhase,
    event: EstablishEvent,
    leftover: usize,
    ring_capacity: usize,
)
    requires
        establish_accepts(phase, event),
        phase matches EstablishPhase::WritingLeftover { upstream, .. } ==> upstream is Tcp || upstream
            is Mux,
    ensures
        ({
            let action = establish_next(state, phase, event, leftover, ring_capacity).1;
            let fails = |reason: FatalReason| EstablishAction::Fail(VlessFrameError::Fatal(reason));
            let into = |upstream: VlessUpstream|
                event == EstablishEvent::LeftoverWritten(false) && (
                phase matches EstablishPhase::WritingLeftover { upstream: to, .. } && to == upstream);
            &&& action == EstablishAction::Fail(VlessFrameError::UpstreamConnectFailed) <==> event
                is AttachFailed || event is ConnectFailed || into(VlessUpstream::Tcp { mesh: true })
            &&& action == fails(FatalReason::QueueFailed) <==> event is QueueFailed
            &&& action == fails(FatalReason::WriteFailed) <==> into(VlessUpstream::Tcp { mesh: false })
            &&& action == fails(FatalReason::MuxFailed) <==> into(VlessUpstream::Mux)
            &&& action is Fail <==> {
                ||| event is AttachFailed
                ||| event is ConnectFailed
                ||| event is QueueFailed
                ||| event == EstablishEvent::LeftoverWritten(false)
                ||| event == EstablishEvent::MuxTaken(MuxTaken::ParkedOtherwise)
            }
            &&& action is Finish <==> event == EstablishEvent::LeftoverWritten(true)
        }),
{
}

/// The response header goes out exactly where there is an upstream to go on with: padded
/// as the carrier is, but for a mux of this node; and counted as a resumption across
/// protocols exactly where the parked session was not a VLESS one.
pub proof fn law_a_header_goes_out_for_an_upstream(
    state: VlessRelay,
    phase: EstablishPhase,
    event: EstablishEvent,
    leftover: usize,
    ring_capacity: usize,
    padded: bool,
    cross_protocol: bool,
)
    requires
        establish_accepts(phase, event),
    ensures
        establish_next(state, phase, event, leftover, ring_capacity).1 == (
        EstablishAction::QueueHeader { padded, cross_protocol }) <==> {
            ||| event is Attached && padded && !cross_protocol
            ||| event is Connected && padded && !cross_protocol
            ||| (event matches EstablishEvent::TcpTaken(TcpTaken::Parked(parked)) && padded
                && cross_protocol == !parked.vless)
            ||| (event == EstablishEvent::MuxTaken(MuxTaken::ParkedMux) || event
                == EstablishEvent::MuxTaken(MuxTaken::Missed)) && !padded && !cross_protocol
        },
{
}

/// Behind the header the client reads exactly what its upstream comes with: the offset
/// where there is one, the replay where there is one, and then the upstream, whose
/// leftover is counted for the user where it is a byte stream of its own.
pub proof fn law_a_plan_is_carried_out(
    state: VlessRelay,
    plan: UpstreamPlan,
    leftover: usize,
    ring_capacity: usize,
)
    ensures
        ({
            let after = |phase: EstablishPhase|
                establish_next(state, phase, EstablishEvent::Queued, leftover, ring_capacity);
            let start = (
                EstablishPhase::WritingLeftover { len: leftover, upstream: plan.upstream },
                EstablishAction::Start {
                    upstream: plan.upstream,
                    ring: plan.ring,
                    records_session: plan.records_session,
                    counted: if plan.upstream is Tcp {
                        leftover
                    } else {
                        0
                    },
                },
            );
            let header = after(EstablishPhase::QueueingHeader(plan));
            let offset = after(EstablishPhase::QueueingAck(plan));
            &&& plan.ack matches Some(acked) ==> header == (
                EstablishPhase::QueueingAck(plan),
                EstablishAction::QueueAck(acked),
            )
            &&& plan.ack is None ==> header == offset
            &&& plan.replay matches Some(replay) ==> offset == (
                EstablishPhase::QueueingReplay(UpstreamPlan { replay: None, ..plan }),
                EstablishAction::QueueReplay(replay),
            )
            &&& plan.replay is None ==> offset == start
            &&& after(EstablishPhase::QueueingReplay(plan)) == start
        }),
{
}

/// What each upstream comes with. A relay to the home tells the offset the home told,
/// where the client wants one and the stream has one. A parked session tells its own,
/// goes on counting from it, and replays what the client asks for; a new connection and a
/// mux have neither. A ring is kept exactly for a client that wants replays: the parked
/// one, or a new one where this node keeps any. A new mux is the carrier's only once it
/// has taken the leftover.
pub proof fn law_an_upstream_comes_with_what_it_has(
    state: VlessRelay,
    kind: MeshAttachKind,
    upstream_acked: u64,
    parked: ParkedTcpFacts,
    leftover: usize,
    ring_capacity: usize,
    taken: MuxTaken,
)
    requires
        taken != MuxTaken::ParkedOtherwise,
    ensures
        ({
            let after = |phase: EstablishPhase, event: EstablishEvent|
                establish_next(state, phase, event, leftover, ring_capacity).0;
            let wants_offset = state.ack_prefix_requested;
            let wants_replay = state.symmetric_replay_requested;
            &&& after(EstablishPhase::Attaching(kind), EstablishEvent::Attached { upstream_acked })
                == EstablishPhase::QueueingHeader(
                UpstreamPlan {
                    upstream: VlessUpstream::Tcp { mesh: true },
                    ack: if wants_offset && kind == MeshAttachKind::Tcp {
                        Some(upstream_acked)
                    } else {
                        None
                    },
                    replay: None,
                    adopt: None,
                    ring: RingPlan::Unchanged,
                    records_session: kind == MeshAttachKind::Tcp,
                    leftover_first: false,
                },
            )
            &&& after(
                EstablishPhase::Taking(MeshAttachKind::Tcp),
                EstablishEvent::TcpTaken(TcpTaken::Parked(parked)),
            ) == EstablishPhase::QueueingHeader(
                UpstreamPlan {
                    upstream: VlessUpstream::Tcp { mesh: false },
                    ack: if wants_offset {
                        Some(parked.acked)
                    } else {
                        None
                    },
                    replay: if !wants_replay {
                        None
                    } else {
                        Some(
                            match parked.ring {
                                Some(crate::mesh_session::ReplayOutcome::Available(bytes)) => Ok(bytes),
                                Some(crate::mesh_session::ReplayOutcome::Truncated) => Err(
                                    TruncateReason::Evicted,
                                ),
                                Some(crate::mesh_session::ReplayOutcome::OffsetAhead) => Err(
                                    TruncateReason::ClientAhead,
                                ),
                                None => Err(TruncateReason::NoRing),
                            },
                        )
                    },
                    adopt: Some(parked.acked),
                    ring: if !wants_replay {
                        RingPlan::Unchanged
                    } else if parked.ring is Some {
                        RingPlan::Parked
                    } else if ring_capacity > 0 {
                        RingPlan::Create
                    } else {
                        RingPlan::Without
                    },
                    records_session: false,
                    leftover_first: false,
                },
            )
            &&& after(EstablishPhase::Connecting, EstablishEvent::Connected)
                == EstablishPhase::QueueingHeader(
                UpstreamPlan {
                    upstream: VlessUpstream::Tcp { mesh: false },
                    ack: None,
                    replay: None,
                    adopt: None,
                    ring: if wants_replay && !state.has_ring && ring_capacity > 0 {
                        RingPlan::Create
                    } else {
                        RingPlan::Unchanged
                    },
                    records_session: true,
                    leftover_first: false,
                },
            )
            &&& after(EstablishPhase::Taking(MeshAttachKind::Mux), EstablishEvent::MuxTaken(taken))
                == EstablishPhase::QueueingHeader(
                UpstreamPlan {
                    upstream: VlessUpstream::Mux,
                    ack: None,
                    replay: None,
                    adopt: None,
                    ring: RingPlan::Unchanged,
                    records_session: false,
                    leftover_first: taken == MuxTaken::Missed,
                },
            )
        }),
{
}

/// What establishing leaves in the carrier's state, field by field. Starting settles the
/// user, who is counted from then on, and empties the header buffer; it settles the
/// upstream, unless that is to take the leftover first, and whether there is a ring; and
/// it touches nothing else. A resumed count is taken over behind the header, and only
/// what an upstream took of the leftover is added to it.
pub proof fn law_a_carrier_holds_what_was_established(
    state: VlessRelay,
    plan: UpstreamPlan,
    after: VlessRelay,
    user: Seq<char>,
    len: usize,
    upstream: VlessUpstream,
)
    requires
        installed(state, plan, after, user),
    ensures
        after.authenticated_user is Some && after.authenticated_user->0@ == user,
        after.has_counters,
        after.header_buffer@.len() == 0,
        plan.leftover_first ==> after.upstream == state.upstream,
        !plan.leftover_first ==> after.upstream == plan.upstream,
        after.has_ring <==> plan.ring == RingPlan::Parked || plan.ring == RingPlan::Create || plan.ring
            == RingPlan::Unchanged && state.has_ring,
        after.mesh_upstream == state.mesh_upstream,
        after.pending_resume == state.pending_resume,
        after.issued_session_id == state.issued_session_id,
        after.ack_prefix_requested == state.ack_prefix_requested,
        after.symmetric_replay_requested == state.symmetric_replay_requested,
        after.client_acked_offset == state.client_acked_offset,
        after.upstream_bytes_acked == state.upstream_bytes_acked,
        adopted(state, EstablishPhase::QueueingHeader(plan), EstablishEvent::Queued) == (VlessRelay {
            upstream_bytes_acked: match plan.adopt {
                Some(acked) => acked,
                None => state.upstream_bytes_acked,
            },
            ..state
        }),
        settled(state, EstablishPhase::WritingLeftover { len, upstream }) == (VlessRelay {
            upstream: if upstream is Tcp {
                state.upstream
            } else {
                upstream
            },
            upstream_bytes_acked: if upstream is Tcp {
                ((state.upstream_bytes_acked + len) % 0x1_0000_0000_0000_0000) as u64
            } else {
                state.upstream_bytes_acked
            },
            ..state
        }),
{
}

/// A count is taken over at no other point, and nothing but the leftover's own upstream
/// is settled on.
pub proof fn law_only_a_queued_header_takes_a_count_over(
    state: VlessRelay,
    phase: EstablishPhase,
    event: EstablishEvent,
)
    ensures
        !(phase is QueueingHeader && event is Queued) ==> adopted(state, phase, event) == state,
        !(phase is WritingLeftover) ==> settled(state, phase) == state,
        phase matches EstablishPhase::QueueingHeader(plan) ==> started_plan(phase) == plan,
        phase matches EstablishPhase::QueueingAck(plan) ==> started_plan(phase) == plan,
        phase matches EstablishPhase::QueueingReplay(plan) ==> started_plan(phase) == plan,
{
}

/// Establishing takes whatever can come of what it last asked for.
pub proof fn law_establishing_takes_what_can_happen(
    kind: MeshAttachKind,
    plan: UpstreamPlan,
    len: usize,
    upstream: VlessUpstream,
    event: EstablishEvent,
)
    ensures
        establish_accepts(EstablishPhase::Attaching(kind), event) <==> event is Attached || event
            is AttachFailed,
        establish_accepts(EstablishPhase::Taking(MeshAttachKind::Tcp), event) <==> event is TcpTaken,
        establish_accepts(EstablishPhase::Taking(MeshAttachKind::Mux), event) <==> event is MuxTaken,
        establish_accepts(EstablishPhase::Connecting, event) <==> event is Connected || event
            is ConnectFailed,
        establish_accepts(EstablishPhase::QueueingHeader(plan), event) <==> event is Queued || event
            is QueueFailed,
        establish_accepts(EstablishPhase::QueueingAck(plan), event) <==> event is Queued || event
            is QueueFailed,
        establish_accepts(EstablishPhase::QueueingReplay(plan), event) <==> event is Queued || event
            is QueueFailed,
        establish_accepts(EstablishPhase::WritingLeftover { len, upstream }, event) <==> event
            is LeftoverWritten,
        !establish_accepts(EstablishPhase::Done, event),
{
}

} // verus!
