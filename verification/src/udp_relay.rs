//! The relay loop of one client's UDP carrier, frame by frame.

use vstd::prelude::*;

verus! {

/// Whether the node-wide limit on relays in flight lets another one in.
#[derive(Clone, Copy, Debug, PartialEq, Eq, Structural)]
pub enum GlobalPermit {
    /// There is no such limit.
    Unlimited,
    Granted,
    Exhausted,
}

/// Why a datagram is dropped.
#[derive(Clone, Copy, Debug, PartialEq, Eq, Structural)]
pub enum DropReason {
    ConcurrencyLimit,
    GlobalConcurrencyLimit,
    RelayedUserMismatch,
}

impl DropReason {
    /// The metric label of the reason.
    pub fn label(self) -> (label: &'static str)
        ensures
            label@ == match self {
                DropReason::ConcurrencyLimit => "concurrency_limit"@,
                DropReason::GlobalConcurrencyLimit => "global_concurrency_limit"@,
                DropReason::RelayedUserMismatch => "relayed_user_mismatch"@,
            },
    {
        match self {
            DropReason::ConcurrencyLimit => "concurrency_limit",
            DropReason::GlobalConcurrencyLimit => "global_concurrency_limit",
            DropReason::RelayedUserMismatch => "relayed_user_mismatch",
        }
    }
}

/// What is done with a datagram that is ready to be relayed.
#[derive(Clone, Copy, Debug, PartialEq, Eq, Structural)]
pub enum Admission {
    Relay,
    Drop(DropReason),
}

/// Whether another relay fits on this carrier; only then is the node-wide limit
/// asked for a permit.
pub fn carrier_has_room(in_flight: usize, limit: usize) -> (room: bool)
    ensures
        room == (in_flight < limit),
{
    in_flight < limit
}

pub open spec fn admission(in_flight: usize, limit: usize, permit: GlobalPermit) -> Admission {
    if in_flight >= limit {
        Admission::Drop(DropReason::ConcurrencyLimit)
    } else if permit == GlobalPermit::Exhausted {
        Admission::Drop(DropReason::GlobalConcurrencyLimit)
    } else {
        Admission::Relay
    }
}

/// Admits a datagram, or drops it: the carrier's own limit first, then the node's.
pub fn admit_datagram(in_flight: usize, limit: usize, permit: GlobalPermit) -> (admitted: Admission)
    ensures
        admitted == admission(in_flight, limit, permit),
{
    if !carrier_has_room(in_flight, limit) {
        return Admission::Drop(DropReason::ConcurrencyLimit);
    }
    match permit {
        GlobalPermit::Exhausted => Admission::Drop(DropReason::GlobalConcurrencyLimit),
        _ => Admission::Relay,
    }
}

/// What reached the relay loop.
#[derive(Clone, Copy, Debug, PartialEq, Eq, Structural)]
pub enum RelayEvent {
    /// A binary frame. `decoded` is what is left of it once a padded carrier's
    /// padding is off, and its length as it came otherwise.
    Binary { decoded: usize },
    Close,
    Ping,
    Pong,
    Text,
    /// The carrier's read half ended.
    Ended,
    /// Reading the carrier failed.
    ReadFailed,
    /// A datagram went to the home, or was dropped on the way.
    Forwarded,
    /// Forwarding a datagram to the home failed.
    ForwardFailed,
    /// A datagram did not authenticate, or is not to be relayed.
    NotForwarded,
    PongQueued,
    PongFailed,
}

/// How the loop ends.
#[derive(Clone, Copy, Debug, PartialEq, Eq, Structural)]
pub enum LoopEnd {
    Clean,
    ReadFailed,
    ForwardFailed,
    PongFailed,
    TextFrame,
}

/// What the loop does next.
#[derive(Clone, Copy, Debug, PartialEq, Eq, Structural)]
pub enum RelayAction {
    /// Read the next frame. A read that has begun is never given up, so that a
    /// carrier which reads a frame in parts stays in step.
    Read,
    /// Count a frame of this length, authenticate it here and hand it to the home,
    /// before the next frame is read.
    Forward { len: usize },
    /// Count a frame of this length and have it relayed, while frames are read on.
    Relay { len: usize },
    QueuePong,
    End(LoopEnd),
}

/// The loop of one carrier.
#[derive(Clone, Copy, Debug, PartialEq, Eq, Structural)]
pub struct UdpRelayLoop {
    /// The session's home is another node.
    pub relayed: bool,
    /// The carrier pads its frames.
    pub padded: bool,
}

pub open spec fn relay_next(state: UdpRelayLoop, event: RelayEvent) -> RelayAction {
    match event {
        RelayEvent::Binary { decoded } => if state.padded && decoded == 0 {
            RelayAction::Read
        } else if state.relayed {
            RelayAction::Forward { len: decoded }
        } else {
            RelayAction::Relay { len: decoded }
        },
        RelayEvent::Ping => RelayAction::QueuePong,
        RelayEvent::Pong => RelayAction::Read,
        RelayEvent::Forwarded => RelayAction::Read,
        RelayEvent::NotForwarded => RelayAction::Read,
        RelayEvent::PongQueued => RelayAction::Read,
        RelayEvent::Close => RelayAction::End(LoopEnd::Clean),
        RelayEvent::Ended => RelayAction::End(LoopEnd::Clean),
        RelayEvent::ReadFailed => RelayAction::End(LoopEnd::ReadFailed),
        RelayEvent::ForwardFailed => RelayAction::End(LoopEnd::ForwardFailed),
        RelayEvent::PongFailed => RelayAction::End(LoopEnd::PongFailed),
        RelayEvent::Text => RelayAction::End(LoopEnd::TextFrame),
    }
}

impl UdpRelayLoop {
    /// One turn of the loop.
    pub fn step(&self, event: RelayEvent) -> (action: RelayAction)
        ensures
            action == relay_next(*self, event),
    {
        match event {
            RelayEvent::Binary { decoded } => if self.padded && decoded == 0 {
                RelayAction::Read
            } else if self.relayed {
                RelayAction::Forward { len: decoded }
            } else {
                RelayAction::Relay { len: decoded }
            },
            RelayEvent::Ping => RelayAction::QueuePong,
            RelayEvent::Pong => RelayAction::Read,
            RelayEvent::Forwarded => RelayAction::Read,
            RelayEvent::NotForwarded => RelayAction::Read,
            RelayEvent::PongQueued => RelayAction::Read,
            RelayEvent::Close => RelayAction::End(LoopEnd::Clean),
            RelayEvent::Ended => RelayAction::End(LoopEnd::Clean),
            RelayEvent::ReadFailed => RelayAction::End(LoopEnd::ReadFailed),
            RelayEvent::ForwardFailed => RelayAction::End(LoopEnd::ForwardFailed),
            RelayEvent::PongFailed => RelayAction::End(LoopEnd::PongFailed),
            RelayEvent::Text => RelayAction::End(LoopEnd::TextFrame),
        }
    }
}

/// What the loop tears down, in this order, once it has ended.
#[derive(Clone, Copy, Debug, PartialEq, Eq, Structural)]
pub enum TeardownStep {
    /// Wait for the relays in flight.
    DrainRelays,
    /// Finish the stream to the home and end its downlink pump.
    ShutdownEdge,
    /// Let go of the NAT entries, and park them where that is owed.
    ReleaseStream,
    /// Drop every sender into the carrier's writer.
    DropSenders,
    /// Wait for the carrier's writer.
    JoinWriter,
}

/// The order of the teardown. The NAT entries hold senders into the carrier's
/// writer, so they are let go of before the writer is waited for.
pub fn relay_teardown(relayed: bool) -> (steps: Vec<TeardownStep>)
    ensures
        relayed ==> steps@ == seq![
            TeardownStep::DrainRelays,
            TeardownStep::ShutdownEdge,
            TeardownStep::ReleaseStream,
            TeardownStep::DropSenders,
            TeardownStep::JoinWriter,
        ],
        !relayed ==> steps@ == seq![
            TeardownStep::DrainRelays,
            TeardownStep::ReleaseStream,
            TeardownStep::DropSenders,
            TeardownStep::JoinWriter,
        ],
{
    let mut steps: Vec<TeardownStep> = Vec::new();
    steps.push(TeardownStep::DrainRelays);
    if relayed {
        steps.push(TeardownStep::ShutdownEdge);
    }
    steps.push(TeardownStep::ReleaseStream);
    steps.push(TeardownStep::DropSenders);
    steps.push(TeardownStep::JoinWriter);
    steps
}

/// On a relayed carrier no datagram is ever relayed from here: the NAT belongs to
/// the home.
pub proof fn law_a_relayed_carrier_keeps_the_nat_on_the_home(padded: bool, event: RelayEvent)
    ensures
        !(relay_next(UdpRelayLoop { relayed: true, padded }, event) is Relay),
{
}

/// A frame of nothing but padding is never taken for a datagram.
pub proof fn law_cover_traffic_is_no_datagram(relayed: bool)
    ensures
        relay_next(UdpRelayLoop { relayed, padded: true }, RelayEvent::Binary { decoded: 0 })
            == RelayAction::Read,
{
}

/// A datagram is relayed exactly where both limits leave room for it, and dropped for the
/// carrier's own before the node's.
pub proof fn law_a_datagram_with_room_is_relayed(in_flight: usize, limit: usize, permit: GlobalPermit)
    ensures
        admission(in_flight, limit, permit) == Admission::Relay <==> in_flight < limit && permit
            != GlobalPermit::Exhausted,
        admission(in_flight, limit, permit) == Admission::Drop(DropReason::ConcurrencyLimit) <==> in_flight
            >= limit,
        admission(in_flight, limit, permit) == Admission::Drop(DropReason::GlobalConcurrencyLimit) <==> in_flight
            < limit && permit == GlobalPermit::Exhausted,
{
}

/// The loop of a carrier, told from what it does: every frame but one of nothing but
/// padding is relayed whole, to the home where the session lives there and from here
/// otherwise; pings are answered; and the loop ends exactly where the client closed or
/// ended, where reading, the home or the answer to a ping failed, or where the client
/// does not keep to the protocol, and says which.
pub proof fn law_a_datagram_carrier_is_served_until_it_ends(
    state: UdpRelayLoop,
    event: RelayEvent,
    len: usize,
)
    ensures
        ({
            let action = relay_next(state, event);
            let blank = state.padded && event == (RelayEvent::Binary { decoded: 0 });
            let frame = event == (RelayEvent::Binary { decoded: len }) && !blank;
            &&& action == (RelayAction::Forward { len }) <==> frame && state.relayed
            &&& action == (RelayAction::Relay { len }) <==> frame && !state.relayed
            &&& action == RelayAction::QueuePong <==> event is Ping
            &&& action == RelayAction::End(LoopEnd::Clean) <==> event is Close || event is Ended
            &&& action == RelayAction::End(LoopEnd::ReadFailed) <==> event is ReadFailed
            &&& action == RelayAction::End(LoopEnd::ForwardFailed) <==> event is ForwardFailed
            &&& action == RelayAction::End(LoopEnd::PongFailed) <==> event is PongFailed
            &&& action == RelayAction::End(LoopEnd::TextFrame) <==> event is Text
            &&& action == RelayAction::Read <==> {
                ||| blank
                ||| event is Pong
                ||| event is PongQueued
                ||| event is Forwarded
                ||| event is NotForwarded
            }
        }),
{
}

/// Nothing waits for itself on the way out: the relays in flight are through before the
/// entries are let go of, the way to the home is shut down where there is one, the entries
/// and every sender into the writer are let go of before the writer is waited for.
pub proof fn law_the_writer_is_waited_for_last(relayed: bool, steps: Vec<TeardownStep>)
    requires
        call_ensures(relay_teardown, (relayed,), steps),
    ensures
        steps@.first() == TeardownStep::DrainRelays,
        steps@.last() == TeardownStep::JoinWriter,
        steps@[steps@.len() - 2] == TeardownStep::DropSenders,
        steps@[steps@.len() - 3] == TeardownStep::ReleaseStream,
        relayed ==> steps@.len() == 5 && steps@[1] == TeardownStep::ShutdownEdge,
        !relayed ==> steps@.len() == 4,
{
}

} // verus!
