//! What frames a splice: the prologue the edge reads first, the checks a park must
//! pass, and where the session goes once the splice is closed.

use vstd::prelude::*;
use crate::downlink_ring::DownlinkRing;
use crate::mesh_edge::OpenHeader;
use crate::mesh_pump::SpliceKind;
use crate::mesh_serve::{mismatch, RejectReason, Refusal, RelayOutcome};
use crate::mesh_wire::CloseReason;

verus! {

/// What the ring of sent downlink bytes still holds from an offset on.
#[derive(Debug)]
pub enum ReplayOutcome {
    /// Everything from the offset on.
    Available(Vec<u8>),
    /// The ring has dropped the bytes at the offset.
    Truncated,
    /// The offset lies beyond what was sent.
    OffsetAhead,
}

/// What the home writes before any downlink byte.
#[derive(Debug)]
pub struct SplicePrologue {
    /// The uplink offset to report, in an acknowledgement frame.
    pub ack: Option<u64>,
    /// The downlink suffix to repeat.
    pub replay: Option<Vec<u8>>,
    /// Count a replay that could not be had.
    pub truncated: bool,
}

/// Plans the prologue. The acknowledgement is there exactly where the edge asked for
/// it, on every kind of splice, so that an edge reads the head of each stream the
/// same way; only a byte stream has an offset to report. Only a byte stream that
/// keeps a ring repeats its unacknowledged suffix, where the client asked for it.
pub fn splice_prologue(
    kind: SpliceKind,
    ack_prefix: bool,
    upstream_acked: u64,
    symmetric_replay: bool,
    ring: Option<ReplayOutcome>,
) -> (prologue: SplicePrologue)
    ensures
        prologue.ack == if !ack_prefix {
            None
        } else if kind == SpliceKind::Tcp {
            Some(upstream_acked)
        } else {
            Some(0u64)
        },
        ({
            let replays = kind == SpliceKind::Tcp && symmetric_replay && ring is Some;
            &&& prologue.replay is Some <==> replays && (ring->0 matches ReplayOutcome::Available(
                bytes,
            ) && bytes@.len() > 0)
            &&& prologue.replay matches Some(bytes) ==> bytes == ring->0->Available_0
            &&& prologue.truncated <==> replays && !(ring->0 is Available)
        }),
{
    let ack: Option<u64> = if !ack_prefix {
        None
    } else if kind == SpliceKind::Tcp {
        Some(upstream_acked)
    } else {
        Some(0)
    };
    let mut replay: Option<Vec<u8>> = None;
    let mut truncated = false;
    if kind == SpliceKind::Tcp && symmetric_replay {
        match ring {
            Some(ReplayOutcome::Available(bytes)) => {
                if bytes.len() > 0 {
                    replay = Some(bytes);
                }
            },
            Some(_) => {
                truncated = true;
            },
            None => {},
        }
    }
    SplicePrologue { ack, replay, truncated }
}

/// The prologue of a parked byte stream that resumes as its edge asked: it tells the
/// uplink offset where the edge reads one, and repeats what the client has not read of
/// the downlink where the client asked for it and the ring still holds it.
pub open spec fn resumes_stream(
    header: OpenHeader,
    upstream_acked: u64,
    ring: Option<&DownlinkRing>,
    prologue: SplicePrologue,
) -> bool {
    &&& prologue.ack == if header.ack_prefix {
        Some(upstream_acked)
    } else {
        None
    }
    &&& match ring {
        Some(ring) => {
            let offset = header.client_down_acked;
            let held = ring.oldest() <= offset <= ring@.len();
            &&& prologue.truncated <==> header.symmetric_replay && !held
            &&& prologue.replay is Some <==> header.symmetric_replay && held && offset < ring@.len()
            &&& prologue.replay matches Some(bytes) ==> bytes@ == ring@.subrange(
                offset as int,
                ring@.len() as int,
            )
        },
        None => prologue.replay is None && !prologue.truncated,
    }
}

/// Plans the prologue of a parked byte stream.
pub fn stream_prologue(header: &OpenHeader, upstream_acked: u64, ring: Option<&DownlinkRing>) -> (prologue:
    SplicePrologue)
    requires
        ring matches Some(ring) ==> ring.wf(),
    ensures
        resumes_stream(*header, upstream_acked, ring, prologue),
{
    let replay = match ring {
        Some(ring) => if header.symmetric_replay {
            Some(ring.replay_from(header.client_down_acked))
        } else {
            None
        },
        None => None,
    };
    splice_prologue(
        SpliceKind::Tcp,
        header.ack_prefix,
        upstream_acked,
        header.symmetric_replay,
        replay,
    )
}

/// What a prologue that cannot be written asks for: the relay counts as a hit with
/// no close, and its error is returned.
#[derive(Clone, Copy, Debug, PartialEq, Eq, Structural)]
pub struct PrologueFailure {
    pub outcome: RelayOutcome,
    /// Park the session again as it was.
    pub put_back: bool,
    /// Take the stream off the NAT entries it has reattached.
    pub release_keys: bool,
}

/// Gives up on a splice whose prologue cannot be written.
pub fn prologue_failed(kind: SpliceKind, registry_enabled: bool) -> (failure: PrologueFailure)
    ensures
        failure.outcome == RelayOutcome::Hit,
        failure.put_back == (kind == SpliceKind::VlessMux && registry_enabled),
        failure.release_keys == (kind == SpliceKind::SsUdp),
{
    PrologueFailure {
        outcome: RelayOutcome::Hit,
        put_back: kind == SpliceKind::VlessMux && registry_enabled,
        release_keys: kind == SpliceKind::SsUdp,
    }
}

/// The refusal for a park that turns out to be of no use, before anything is
/// written: a UDP stream without a key of the attested user, a mux without a
/// connection. `usable` counts the user's keys, or the connections.
pub fn refuse_useless_park(kind: SpliceKind, usable: usize) -> (refusal: Option<Refusal>)
    ensures
        refusal == if usable > 0 {
            None
        } else if kind == SpliceKind::SsUdp {
            Some(mismatch(RejectReason::ParkIdentity, false))
        } else if kind == SpliceKind::VlessMux {
            Some(mismatch(RejectReason::ParkIncomplete, false))
        } else {
            None
        },
{
    if usable > 0 {
        return None;
    }
    let rejected = match kind {
        SpliceKind::SsUdp => RejectReason::ParkIdentity,
        SpliceKind::VlessMux => RejectReason::ParkIncomplete,
        _ => {
            return None;
        },
    };
    Some(
        Refusal {
            rejected,
            outcome: RelayOutcome::Miss,
            close: CloseReason::Abort,
            put_back: false,
        },
    )
}

/// Where a session goes once its splice is closed.
#[derive(Clone, Copy, Debug, PartialEq, Eq, Structural)]
pub enum Disposition {
    /// Into the registry, under the id it was resumed with.
    Park,
    /// Its upstream is shut down.
    Shutdown,
    /// It is dropped; nothing is left to shut down.
    Forget,
}

/// Whether a mux is to hand over its connections, to be parked.
pub fn harvests(kind: SpliceKind, reparks: bool, registry_enabled: bool) -> (harvest: bool)
    ensures
        harvest == (kind == SpliceKind::VlessMux && reparks && registry_enabled),
{
    kind == SpliceKind::VlessMux && reparks && registry_enabled
}

pub open spec fn disposition(
    kind: SpliceKind,
    reparks: bool,
    registry_enabled: bool,
    survivors: nat,
) -> Disposition {
    let wanted = reparks && registry_enabled;
    match kind {
        SpliceKind::Tcp => if wanted {
            Disposition::Park
        } else {
            Disposition::Shutdown
        },
        SpliceKind::SsUdp => if wanted && survivors > 0 {
            Disposition::Park
        } else {
            Disposition::Forget
        },
        SpliceKind::VlessUdp => if wanted {
            Disposition::Park
        } else {
            Disposition::Forget
        },
        SpliceKind::VlessMux => if !wanted {
            Disposition::Shutdown
        } else if survivors > 0 {
            Disposition::Park
        } else {
            Disposition::Forget
        },
    }
}

/// Settles where a session goes. `survivors` counts what would be parked: the NAT
/// keys that were still the stream's own, or the connections a mux handed over.
pub fn dispose(kind: SpliceKind, reparks: bool, registry_enabled: bool, survivors: usize) -> (to:
    Disposition)
    ensures
        to == disposition(kind, reparks, registry_enabled, survivors as nat),
{
    let wanted = reparks && registry_enabled;
    match kind {
        SpliceKind::Tcp => if wanted {
            Disposition::Park
        } else {
            Disposition::Shutdown
        },
        SpliceKind::SsUdp => if wanted && survivors > 0 {
            Disposition::Park
        } else {
            Disposition::Forget
        },
        SpliceKind::VlessUdp => if wanted {
            Disposition::Park
        } else {
            Disposition::Forget
        },
        SpliceKind::VlessMux => if !wanted {
            Disposition::Shutdown
        } else if survivors > 0 {
            Disposition::Park
        } else {
            Disposition::Forget
        },
    }
}

/// An uplink goes on where the upstream is: a client that sends its body from the
/// reported offset on has its upstream read the whole body, each byte once.
pub proof fn law_an_uplink_goes_on_where_the_upstream_is(
    header: OpenHeader,
    upstream_acked: u64,
    ring: Option<&DownlinkRing>,
    prologue: SplicePrologue,
    body: Seq<u8>,
)
    requires
        header.ack_prefix,
        resumes_stream(header, upstream_acked, ring, prologue),
        upstream_acked <= body.len(),
    ensures
        prologue.ack is Some,
        body.take(upstream_acked as int) + body.skip(prologue.ack->0 as int) == body,
{
    assert(body.take(upstream_acked as int) + body.skip(prologue.ack->0 as int) =~= body);
}

/// A client that asked for a replay goes on without a hole and without a repetition:
/// what it had read and what the prologue repeats are all that was sent. Where that
/// cannot be, the home counts the gap and repeats nothing.
pub proof fn law_a_resumed_downlink_has_no_hole(
    header: OpenHeader,
    upstream_acked: u64,
    ring: DownlinkRing,
    prologue: SplicePrologue,
)
    requires
        header.symmetric_replay,
        resumes_stream(header, upstream_acked, Some(&ring), prologue),
    ensures
        !prologue.truncated ==> ring@.take(header.client_down_acked as int) + (match prologue.replay {
            Some(bytes) => bytes@,
            None => Seq::empty(),
        }) == ring@,
        prologue.truncated ==> prologue.replay is None,
        header.client_down_acked <= ring@.len() <= ring.cap() ==> !prologue.truncated,
{
    if !prologue.truncated {
        assert(ring@.take(header.client_down_acked as int) + (match prologue.replay {
            Some(bytes) => bytes@,
            None => Seq::empty(),
        }) =~= ring@);
    }
}

/// Nothing is parked that the registry does not take, that the splice wrote off, or
/// that its client is done with.
pub proof fn law_only_a_fit_session_is_parked(
    kind: SpliceKind,
    reparks: bool,
    registry_enabled: bool,
    survivors: nat,
)
    requires
        disposition(kind, reparks, registry_enabled, survivors) == Disposition::Park,
    ensures
        reparks,
        registry_enabled,
        kind == SpliceKind::SsUdp || kind == SpliceKind::VlessMux ==> survivors > 0,
{
}

/// Where a session goes, told from what it is: it is parked exactly where it is wanted
/// back, the registry takes it and something of it is left; a connection that is not is
/// shut down, and so is a mux that is not wanted; datagram sockets are let go of.
pub proof fn law_a_session_goes_where_it_belongs(
    kind: SpliceKind,
    reparks: bool,
    registry_enabled: bool,
    survivors: nat,
)
    ensures
        ({
            let to = disposition(kind, reparks, registry_enabled, survivors);
            let counts = kind == SpliceKind::SsUdp || kind == SpliceKind::VlessMux;
            &&& to == Disposition::Park <==> reparks && registry_enabled && (counts ==> survivors > 0)
            &&& to == Disposition::Shutdown <==> !(reparks && registry_enabled) && (kind
                == SpliceKind::Tcp || kind == SpliceKind::VlessMux)
        }),
{
}

/// A prologue is what the edge and its client asked for, and no more: the offset where
/// the edge reads one; the downlink from the client's offset on where the client wants
/// it, there is a ring, and the ring, which holds the last bytes up to its capacity,
/// reaches back that far. Where the ring does not, the gap is counted.
pub proof fn law_a_prologue_is_what_was_asked_for(
    header: OpenHeader,
    upstream_acked: u64,
    ring: Option<&DownlinkRing>,
    prologue: SplicePrologue,
)
    requires
        resumes_stream(header, upstream_acked, ring, prologue),
    ensures
        header.ack_prefix ==> prologue.ack == Some(upstream_acked),
        !header.ack_prefix ==> prologue.ack is None,
        !header.symmetric_replay || ring is None ==> prologue.replay is None && !prologue.truncated,
        header.symmetric_replay && ring is Some ==> {
            let sent = ring->0@;
            let offset = header.client_down_acked;
            let reaches = offset <= sent.len() && sent.len() - offset <= ring->0.cap();
            &&& prologue.truncated <==> !reaches
            &&& prologue.replay is Some <==> reaches && offset < sent.len()
            &&& prologue.replay matches Some(bytes) ==> {
                &&& bytes@.len() == sent.len() - offset
                &&& forall|i: int| 0 <= i < bytes@.len() ==> #[trigger] bytes@[i] == sent[offset + i]
            }
        },
{
}

/// Every kind of splice reports an offset where its edge reads one, and only a byte stream
/// has one to report; only a byte stream repeats anything, what its ring has and the
/// client asked for, and counts a gap where the ring has not.
pub proof fn law_a_prologue_fits_its_kind(
    kind: SpliceKind,
    ack_prefix: bool,
    upstream_acked: u64,
    symmetric_replay: bool,
    ring: Option<ReplayOutcome>,
    prologue: SplicePrologue,
)
    requires
        call_ensures(
            splice_prologue,
            (kind, ack_prefix, upstream_acked, symmetric_replay, ring),
            prologue,
        ),
    ensures
        prologue.ack is Some <==> ack_prefix,
        prologue.ack matches Some(acked) ==> acked == if kind == SpliceKind::Tcp {
            upstream_acked
        } else {
            0
        },
        prologue.replay is Some || prologue.truncated ==> kind == SpliceKind::Tcp && symmetric_replay
            && ring is Some,
        prologue.replay matches Some(bytes) ==> ring == Some(ReplayOutcome::Available(bytes))
            && bytes@.len() > 0,
        kind == SpliceKind::Tcp && symmetric_replay && (ring
            matches Some(ReplayOutcome::Available(bytes)) && bytes@.len() > 0) ==> prologue.replay is Some,
        kind == SpliceKind::Tcp && symmetric_replay && (ring == Some(ReplayOutcome::Truncated) || ring
            == Some(ReplayOutcome::OffsetAhead)) ==> prologue.truncated,
{
}

/// A park is refused before anything is written exactly where there is nothing in it to
/// splice, and a prologue that fails gives back a mux and lets go of a stream's entries.
pub proof fn law_an_empty_park_is_refused(
    kind: SpliceKind,
    usable: usize,
    enabled: bool,
    reparks: bool,
    refusal: Option<Refusal>,
    failure: PrologueFailure,
    harvest: bool,
)
    requires
        call_ensures(refuse_useless_park, (kind, usable), refusal),
        call_ensures(prologue_failed, (kind, enabled), failure),
        call_ensures(harvests, (kind, reparks, enabled), harvest),
    ensures
        refusal is Some <==> usable == 0 && (kind == SpliceKind::SsUdp || kind == SpliceKind::VlessMux),
        refusal matches Some(refusal) ==> {
            &&& refusal.rejected == RejectReason::ParkIdentity <==> kind == SpliceKind::SsUdp
            &&& refusal.rejected == RejectReason::ParkIncomplete <==> kind == SpliceKind::VlessMux
            &&& refusal.outcome == RelayOutcome::Miss
            &&& refusal.close == CloseReason::Abort
            &&& !refusal.put_back
        },
        failure.outcome == RelayOutcome::Hit,
        failure.put_back <==> enabled && kind == SpliceKind::VlessMux,
        failure.release_keys <==> kind == SpliceKind::SsUdp,
        harvest <==> kind == SpliceKind::VlessMux && reparks && enabled,
{
}

} // verus!
