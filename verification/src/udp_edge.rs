//! The edge's half of a relayed UDP session: it opens the client's datagrams and
//! hands them to the home, and seals what the home sends back.

use vstd::prelude::*;
use crate::udp_relay::DropReason;
use crate::udp_session::{RequestResult, TargetParse};

verus! {

// ── The uplink ──────────────────────────────────────────────────────────────

/// One carrier's way to the home. The carrier attests one user, the first that
/// authenticates; the home relays everything on it as that user's.
#[derive(Debug)]
pub struct MeshUdpEdge {
    /// The stream to the home is there and nobody has used it yet.
    pub setup_available: bool,
    pub attested_user: Option<String>,
    /// A datagram of another user was reported.
    pub mismatch_warned: bool,
}

/// Why forwarding fails: the way to the home is of no use.
#[derive(Clone, Copy, Debug, PartialEq, Eq, Structural)]
pub enum ForwardError {
    /// The stream to the home was used up by an earlier attempt.
    SetupConsumed,
    AttachFailed,
    WriteFailed,
    Stalled,
}

/// What is done with a datagram.
#[derive(Clone, Copy, Debug, PartialEq, Eq, Structural)]
pub enum ForwardAction {
    /// Count and drop a datagram of a user this carrier does not attest; report it
    /// where `warn` says so.
    DropForeign { reason: DropReason, request: RequestResult, warn: bool },
    /// Keep the datagram's keys for sealing, then attest its user to the home.
    Attach,
    /// Keep the datagram's keys for sealing, then parse its target.
    ParseTarget,
    /// Count and drop a datagram without a target address.
    DropUnaddressed { request: RequestResult },
    /// Count and drop a datagram that is longer than UDP can carry.
    DropOversized { request: RequestResult },
    /// Count this many payload bytes for the user, and write the datagram, address
    /// and all, to the home.
    Write { payload_len: usize },
    /// Count the datagram as relayed.
    Finish { request: RequestResult },
    Fail { error: ForwardError, counted: Option<RequestResult> },
}

/// How writing a datagram to the home went.
#[derive(Clone, Copy, Debug, PartialEq, Eq, Structural)]
pub enum ForwardWrite {
    Done,
    Failed,
    Stalled,
}

/// What matters of a carrier's way to the home.
pub struct EdgeView {
    pub setup_available: bool,
    pub attested: Option<Seq<char>>,
    pub warned: bool,
}

impl View for MeshUdpEdge {
    type V = EdgeView;

    open spec fn view(&self) -> EdgeView {
        EdgeView {
            setup_available: self.setup_available,
            attested: match self.attested_user {
                Some(user) => Some(user@),
                None => None,
            },
            warned: self.mismatch_warned,
        }
    }
}

/// What a datagram of `user` does to a carrier, and what is done with it first.
pub open spec fn edge_forward(edge: EdgeView, user: Seq<char>) -> (EdgeView, ForwardAction) {
    match edge.attested {
        Some(attested) => if attested == user {
            (edge, ForwardAction::ParseTarget)
        } else {
            (
                EdgeView { warned: true, ..edge },
                ForwardAction::DropForeign {
                    reason: DropReason::RelayedUserMismatch,
                    request: RequestResult::Error,
                    warn: !edge.warned,
                },
            )
        },
        None => if edge.setup_available {
            (EdgeView { setup_available: false, ..edge }, ForwardAction::Attach)
        } else {
            (edge, ForwardAction::Fail { error: ForwardError::SetupConsumed, counted: None })
        },
    }
}

/// What the home's answer to the attestation of `user` does to a carrier.
pub open spec fn edge_attached(edge: EdgeView, user: Seq<char>, attached: bool) -> (
    EdgeView,
    ForwardAction,
) {
    if attached {
        (EdgeView { attested: Some(user), ..edge }, ForwardAction::ParseTarget)
    } else {
        (edge, ForwardAction::Fail { error: ForwardError::AttachFailed, counted: None })
    }
}

impl MeshUdpEdge {
    /// A carrier that has attested nobody.
    pub fn new() -> (edge: MeshUdpEdge)
        ensures
            edge@ == (EdgeView { setup_available: true, attested: None, warned: false }),
    {
        MeshUdpEdge { setup_available: true, attested_user: None, mismatch_warned: false }
    }

    /// Starts on an authenticated datagram of `user`.
    pub fn begin_forward(&mut self, user: &String) -> (action: ForwardAction)
        ensures
            (final(self)@, action) == edge_forward(old(self)@, user@),
    {
        match &self.attested_user {
            Some(attested) => {
                if *attested != *user {
                    let warn = !self.mismatch_warned;
                    self.mismatch_warned = true;
                    return ForwardAction::DropForeign {
                        reason: DropReason::RelayedUserMismatch,
                        request: RequestResult::Error,
                        warn,
                    };
                }
                ForwardAction::ParseTarget
            },
            None => {
                if self.setup_available {
                    self.setup_available = false;
                    ForwardAction::Attach
                } else {
                    ForwardAction::Fail { error: ForwardError::SetupConsumed, counted: None }
                }
            },
        }
    }

    /// Takes in whether the home was told about `user`.
    pub fn on_attached(&mut self, user: &String, attached: bool) -> (action: ForwardAction)
        requires
            old(self)@.attested is None,
        ensures
            (final(self)@, action) == edge_attached(old(self)@, user@, attached),
    {
        if attached {
            self.attested_user = Some(user.clone());
            ForwardAction::ParseTarget
        } else {
            ForwardAction::Fail { error: ForwardError::AttachFailed, counted: None }
        }
    }
}

/// What is done with a datagram of `len` bytes once its target address is parsed. What
/// a single datagram gets wrong costs that datagram, not the session.
pub open spec fn forward_parsed(parsed: TargetParse, len: usize, max_payload: usize) -> ForwardAction {
    match parsed {
        TargetParse::Target { consumed } => if len - consumed > max_payload {
            ForwardAction::DropOversized { request: RequestResult::Error }
        } else {
            ForwardAction::Write { payload_len: (len - consumed) as usize }
        },
        _ => ForwardAction::DropUnaddressed { request: RequestResult::Error },
    }
}

/// Takes in where the target address of a datagram of `len` bytes ends.
pub fn on_forward_parsed(parsed: TargetParse, len: usize, max_payload: usize) -> (action: ForwardAction)
    requires
        parsed matches TargetParse::Target { consumed } ==> consumed <= len,
    ensures
        action == forward_parsed(parsed, len, max_payload),
{
    match parsed {
        TargetParse::Target { consumed } => {
            let payload_len: usize = len - consumed;
            if payload_len > max_payload {
                ForwardAction::DropOversized { request: RequestResult::Error }
            } else {
                ForwardAction::Write { payload_len }
            }
        },
        TargetParse::Incomplete => ForwardAction::DropUnaddressed { request: RequestResult::Error },
        TargetParse::Malformed => ForwardAction::DropUnaddressed { request: RequestResult::Error },
    }
}

/// Takes in how the write to the home went.
pub fn on_forward_written(write: ForwardWrite) -> (action: ForwardAction)
    ensures
        action == match write {
            ForwardWrite::Done => ForwardAction::Finish { request: RequestResult::Success },
            ForwardWrite::Failed => ForwardAction::Fail {
                error: ForwardError::WriteFailed,
                counted: Some(RequestResult::Error),
            },
            ForwardWrite::Stalled => ForwardAction::Fail {
                error: ForwardError::Stalled,
                counted: Some(RequestResult::Error),
            },
        },
{
    match write {
        ForwardWrite::Done => ForwardAction::Finish { request: RequestResult::Success },
        ForwardWrite::Failed => ForwardAction::Fail {
            error: ForwardError::WriteFailed,
            counted: Some(RequestResult::Error),
        },
        ForwardWrite::Stalled => ForwardAction::Fail {
            error: ForwardError::Stalled,
            counted: Some(RequestResult::Error),
        },
    }
}

// ── The downlink ────────────────────────────────────────────────────────────

/// Seals the home's responses for the client: under the keys of the client's last
/// datagram, with a packet id of its own for each attempt.
#[derive(Clone, Copy, Debug, PartialEq, Eq, Structural)]
pub struct EdgeSeal {
    /// A datagram of the client has brought keys.
    pub keyed: bool,
    pub next_packet_id: u64,
}

/// What is done with a response of the home.
#[derive(Clone, Copy, Debug, PartialEq, Eq, Structural)]
pub enum SealStep {
    /// Nothing can be sealed.
    Drop,
    /// Seal the payload that starts at `from`, under this packet id.
    Encrypt { packet_id: u64, from: usize },
}

impl EdgeSeal {
    /// A seal without keys.
    pub fn new() -> (seal: EdgeSeal)
        ensures
            seal == (EdgeSeal { keyed: false, next_packet_id: 0 }),
    {
        EdgeSeal { keyed: false, next_packet_id: 0 }
    }

    /// Takes the keys of a datagram of the client.
    pub fn observe(&mut self)
        ensures
            *final(self) == (EdgeSeal { keyed: true, next_packet_id: old(self).next_packet_id }),
    {
        self.keyed = true;
    }

    /// Prepares to seal a response, source address in front.
    pub fn seal(&mut self, parsed: TargetParse) -> (step: SealStep)
        ensures
            (*final(self), step) == sealed_once(*old(self), parsed),
    {
        if !self.keyed {
            return SealStep::Drop;
        }
        match parsed {
            TargetParse::Target { consumed } => {
                let packet_id: u64 = self.next_packet_id;
                self.next_packet_id = packet_id.wrapping_add(1);
                SealStep::Encrypt { packet_id, from: consumed }
            },
            _ => SealStep::Drop,
        }
    }
}

/// What reached the pump that brings the home's responses to the client.
#[derive(Clone, Copy, Debug, PartialEq, Eq, Structural)]
pub enum EdgeDownlinkEvent {
    /// A response of this length.
    Datagram(usize),
    Ended,
    ReadFailed,
    /// The response was sealed; this many payload bytes are in it.
    Sealed(usize),
    NotSealed,
    Delivered,
    ClientGone,
}

/// What the pump does next.
#[derive(Clone, Copy, Debug, PartialEq, Eq, Structural)]
pub enum EdgeDownlinkAction {
    Read,
    /// Count the response and seal it.
    CountAndSeal(usize),
    /// Count the payload for the user and hand the sealed response to the carrier.
    CountAndDeliver(usize),
    End,
}

/// One step of that pump. A response that cannot be sealed costs that response; the
/// pump ends with the home's stream or with the client's carrier.
pub fn edge_downlink_step(event: EdgeDownlinkEvent) -> (action: EdgeDownlinkAction)
    ensures
        action == match event {
            EdgeDownlinkEvent::Datagram(len) => EdgeDownlinkAction::CountAndSeal(len),
            EdgeDownlinkEvent::Ended => EdgeDownlinkAction::End,
            EdgeDownlinkEvent::ReadFailed => EdgeDownlinkAction::End,
            EdgeDownlinkEvent::Sealed(len) => EdgeDownlinkAction::CountAndDeliver(len),
            EdgeDownlinkEvent::NotSealed => EdgeDownlinkAction::Read,
            EdgeDownlinkEvent::Delivered => EdgeDownlinkAction::Read,
            EdgeDownlinkEvent::ClientGone => EdgeDownlinkAction::End,
        },
{
    match event {
        EdgeDownlinkEvent::Datagram(len) => EdgeDownlinkAction::CountAndSeal(len),
        EdgeDownlinkEvent::Ended => EdgeDownlinkAction::End,
        EdgeDownlinkEvent::ReadFailed => EdgeDownlinkAction::End,
        EdgeDownlinkEvent::Sealed(len) => EdgeDownlinkAction::CountAndDeliver(len),
        EdgeDownlinkEvent::NotSealed => EdgeDownlinkAction::Read,
        EdgeDownlinkEvent::Delivered => EdgeDownlinkAction::Read,
        EdgeDownlinkEvent::ClientGone => EdgeDownlinkAction::End,
    }
}

// ── Laws ────────────────────────────────────────────────────────────────────

/// One authenticated datagram: whose it is, and whether the home takes the user on,
/// should it be the one that attests.
pub struct EdgeDatagram {
    pub user: Seq<char>,
    pub attaches: bool,
}

/// A carrier after one datagram.
pub open spec fn edge_after(edge: EdgeView, datagram: EdgeDatagram) -> EdgeView {
    let (next, action) = edge_forward(edge, datagram.user);
    if action == ForwardAction::Attach {
        edge_attached(next, datagram.user, datagram.attaches).0
    } else {
        next
    }
}

/// A carrier after a run of datagrams.
pub open spec fn edge_run(datagrams: Seq<EdgeDatagram>) -> EdgeView
    decreases datagrams.len(),
{
    if datagrams.len() == 0 {
        EdgeView { setup_available: true, attested: None, warned: false }
    } else {
        edge_after(edge_run(datagrams.drop_last()), datagrams.last())
    }
}

/// How often a run has reported a datagram of another user.
pub open spec fn warnings(datagrams: Seq<EdgeDatagram>) -> nat
    decreases datagrams.len(),
{
    if datagrams.len() == 0 {
        0
    } else {
        warnings(datagrams.drop_last()) + match edge_forward(
            edge_run(datagrams.drop_last()),
            datagrams.last().user,
        ).1 {
            ForwardAction::DropForeign { warn: true, .. } => 1nat,
            _ => 0nat,
        }
    }
}

/// No datagram ends a relayed session by what it holds: once a carrier has attested its
/// user, a datagram of any user and of any content is either written to the home or
/// dropped and counted as an error.
pub proof fn law_a_bad_datagram_costs_only_itself(
    edge: EdgeView,
    user: Seq<char>,
    parsed: TargetParse,
    len: usize,
    max_payload: usize,
)
    requires
        edge.attested is Some,
    ensures
        edge_forward(edge, user).0.attested == edge.attested,
        edge_forward(edge, user).1 matches ForwardAction::DropForeign { request, .. } ==> request
            == RequestResult::Error,
        edge_forward(edge, user).1 is DropForeign || edge_forward(edge, user).1 is ParseTarget,
        match forward_parsed(parsed, len, max_payload) {
            ForwardAction::Write { .. } => parsed is Target,
            ForwardAction::DropOversized { request } => request == RequestResult::Error,
            ForwardAction::DropUnaddressed { request } => request == RequestResult::Error,
            _ => false,
        },
{
}

/// One carrier, one identity: once a carrier has attested a user it attests no other,
/// whatever its client sends, and a datagram goes on to the home exactly where it is
/// that user's.
pub proof fn law_a_carrier_speaks_for_one_user(
    datagrams: Seq<EdgeDatagram>,
    more: Seq<EdgeDatagram>,
    user: Seq<char>,
    next: Seq<char>,
)
    requires
        edge_run(datagrams).attested == Some(user),
    ensures
        edge_run(datagrams + more).attested == Some(user),
        edge_forward(edge_run(datagrams + more), next).1 == ForwardAction::ParseTarget <==> next
            == user,
        next != user ==> edge_forward(edge_run(datagrams + more), next).1 is DropForeign,
    decreases more.len(),
{
    if more.len() == 0 {
        assert(datagrams + more =~= datagrams);
    } else {
        law_a_carrier_speaks_for_one_user(datagrams, more.drop_last(), user, next);
        assert((datagrams + more).drop_last() =~= datagrams + more.drop_last());
    }
}

/// Datagrams of other users are reported at most once per carrier, however many
/// there are.
pub proof fn law_a_carrier_warns_at_most_once(datagrams: Seq<EdgeDatagram>)
    ensures
        warnings(datagrams) == if edge_run(datagrams).warned {
            1nat
        } else {
            0nat
        },
    decreases datagrams.len(),
{
    if datagrams.len() > 0 {
        law_a_carrier_warns_at_most_once(datagrams.drop_last());
    }
}

/// What a seal becomes once it was asked to seal a response.
pub open spec fn sealed_once(seal: EdgeSeal, parsed: TargetParse) -> (EdgeSeal, SealStep) {
    match parsed {
        TargetParse::Target { consumed } => if seal.keyed {
            (
                EdgeSeal {
                    keyed: true,
                    next_packet_id: ((seal.next_packet_id + 1) % 0x1_0000_0000_0000_0000) as u64,
                },
                SealStep::Encrypt { packet_id: seal.next_packet_id, from: consumed },
            )
        } else {
            (seal, SealStep::Drop)
        },
        _ => (seal, SealStep::Drop),
    }
}

pub open spec fn seal_run(seal: EdgeSeal, responses: Seq<TargetParse>) -> EdgeSeal
    decreases responses.len(),
{
    if responses.len() == 0 {
        seal
    } else {
        sealed_once(seal_run(seal, responses.drop_last()), responses.last()).0
    }
}

/// The packet ids a run of responses is sealed under, in order.
pub open spec fn packet_ids(seal: EdgeSeal, responses: Seq<TargetParse>) -> Seq<u64>
    decreases responses.len(),
{
    if responses.len() == 0 {
        Seq::empty()
    } else {
        let before = packet_ids(seal, responses.drop_last());
        match sealed_once(seal_run(seal, responses.drop_last()), responses.last()).1 {
            SealStep::Encrypt { packet_id, .. } => before.push(packet_id),
            SealStep::Drop => before,
        }
    }
}

/// Sealed responses are numbered one after the other, as the client's replay window
/// asks for: a response that is dropped beforehand uses up no number.
pub proof fn law_responses_are_numbered_in_order(seal: EdgeSeal, responses: Seq<TargetParse>)
    requires
        seal.next_packet_id + responses.len() < 0x1_0000_0000_0000_0000,
    ensures
        packet_ids(seal, responses).len() <= responses.len(),
        forall|i: int|
            0 <= i < packet_ids(seal, responses).len() ==> #[trigger] packet_ids(seal, responses)[i]
                == seal.next_packet_id + i,
        seal_run(seal, responses).next_packet_id == seal.next_packet_id + packet_ids(
            seal,
            responses,
        ).len(),
        seal_run(seal, responses).keyed == seal.keyed,
    decreases responses.len(),
{
    if responses.len() > 0 {
        law_responses_are_numbered_in_order(seal, responses.drop_last());
    }
}

/// A relayed datagram goes to the home exactly where it is the carrier's own user's: the
/// first user attests the carrier, once, and is the carrier's from the moment the home
/// takes it on; a datagram of anybody else is dropped and counted, and reported the first
/// time. A carrier whose home did not take its user on forwards nothing more.
pub proof fn law_a_datagram_is_forwarded_for_its_own_user(
    edge: EdgeView,
    user: Seq<char>,
    attached: bool,
    warn: bool,
)
    ensures
        ({
            let (next, action) = edge_forward(edge, user);
            let (told, then) = edge_attached(edge, user, attached);
            &&& action == ForwardAction::ParseTarget <==> edge.attested == Some(user)
            &&& action == ForwardAction::Attach <==> edge.attested is None && edge.setup_available
            &&& action == (ForwardAction::Fail {
                error: ForwardError::SetupConsumed,
                counted: None,
            }) <==> edge.attested is None && !edge.setup_available
            &&& action == (ForwardAction::DropForeign {
                reason: DropReason::RelayedUserMismatch,
                request: RequestResult::Error,
                warn,
            }) <==> edge.attested is Some && edge.attested != Some(user) && warn == !edge.warned
            &&& next.attested == edge.attested
            &&& next.setup_available <==> edge.setup_available && !(action is Attach)
            &&& next.warned <==> edge.warned || action is DropForeign
            &&& attached ==> told.attested == Some(user) && then == ForwardAction::ParseTarget
            &&& !attached ==> told.attested == edge.attested && then == (ForwardAction::Fail {
                error: ForwardError::AttachFailed,
                counted: None,
            })
            &&& told.setup_available == edge.setup_available && told.warned == edge.warned
        }),
{
}

/// A datagram is written to the home exactly where it names a target and its payload, all
/// that stands behind the target, is not longer than UDP can carry; it is dropped for
/// what it lacks otherwise.
pub proof fn law_a_datagram_with_a_target_is_written(
    parsed: TargetParse,
    len: usize,
    max_payload: usize,
    consumed: usize,
    payload_len: usize,
)
    requires
        parsed matches TargetParse::Target { consumed: at } ==> at == consumed && consumed <= len,
    ensures
        forward_parsed(parsed, len, max_payload) == (ForwardAction::Write { payload_len }) <==> parsed
            is Target && payload_len == len - consumed && payload_len <= max_payload,
        forward_parsed(parsed, len, max_payload) == (ForwardAction::DropOversized {
            request: RequestResult::Error,
        }) <==> parsed is Target && len - consumed > max_payload,
        forward_parsed(parsed, len, max_payload) == (ForwardAction::DropUnaddressed {
            request: RequestResult::Error,
        }) <==> !(parsed is Target),
{
}

/// A response is sealed exactly where there are keys and it names its source: from the
/// payload behind that source on, under the next number.
pub proof fn law_a_response_with_a_source_is_sealed(
    seal: EdgeSeal,
    parsed: TargetParse,
    packet_id: u64,
    from: usize,
)
    ensures
        sealed_once(seal, parsed).1 == (SealStep::Encrypt { packet_id, from }) <==> seal.keyed && parsed
            == (TargetParse::Target { consumed: from }) && packet_id == seal.next_packet_id,
        sealed_once(seal, parsed).1 == SealStep::Drop ==> sealed_once(seal, parsed).0 == seal,
        sealed_once(seal, parsed).0.keyed == seal.keyed,
{
}

/// A datagram is a success exactly where the home has it; a home that cannot be written to
/// or does not drain ends the forwarding, and the datagram is counted as an error.
pub proof fn law_a_written_datagram_is_a_success(write: ForwardWrite, action: ForwardAction)
    requires
        call_ensures(on_forward_written, (write,), action),
    ensures
        action == (ForwardAction::Finish { request: RequestResult::Success }) <==> write
            == ForwardWrite::Done,
        action == (ForwardAction::Fail {
            error: ForwardError::WriteFailed,
            counted: Some(RequestResult::Error),
        }) <==> write == ForwardWrite::Failed,
        action == (ForwardAction::Fail {
            error: ForwardError::Stalled,
            counted: Some(RequestResult::Error),
        }) <==> write == ForwardWrite::Stalled,
{
}

/// Every response of the home that can be sealed reaches the client, one for one; one that
/// cannot is passed over; and the pump ends exactly with the home's stream or with the
/// client.
pub proof fn law_a_response_reaches_the_client(
    event: EdgeDownlinkEvent,
    action: EdgeDownlinkAction,
    len: usize,
)
    requires
        call_ensures(edge_downlink_step, (event,), action),
    ensures
        action == EdgeDownlinkAction::CountAndSeal(len) <==> event == EdgeDownlinkEvent::Datagram(len),
        action == EdgeDownlinkAction::CountAndDeliver(len) <==> event == EdgeDownlinkEvent::Sealed(len),
        action == EdgeDownlinkAction::Read <==> event is NotSealed || event is Delivered,
        action == EdgeDownlinkAction::End <==> event is Ended || event is ReadFailed || event
            is ClientGone,
{
}

/// A carrier is seen for all that it is.
pub proof fn law_a_carrier_is_all_of_its_parts(edge: MeshUdpEdge)
    ensures
        edge@.setup_available == edge.setup_available,
        edge@.warned == edge.mismatch_warned,
        edge.attested_user matches Some(user) ==> edge@.attested == Some(user@),
        edge.attested_user is None ==> edge@.attested is None,
{
}

} // verus!
