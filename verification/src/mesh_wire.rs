//! The vocabulary two cluster nodes share on a relayed stream.

use vstd::prelude::*;

verus! {

/// Why a node ends a relayed stream.
#[derive(Clone, Copy, Debug, PartialEq, Eq, Structural)]
pub enum CloseReason {
    /// The stream ended in good order.
    Fin,
    /// The stream cannot go on.
    Abort,
    /// A write stalled past the health budget.
    Budget,
    /// The node serves as many relays as it may.
    Capacity,
    /// The node holds no session the relay could resume.
    NoSession,
}

/// What the edge said about its client when it closed the carrier.
#[derive(Clone, Copy, Debug, PartialEq, Eq, Structural)]
pub enum CloseIntent {
    /// The client is finished with the session.
    ClientDone,
    /// Only this carrier ended; the client may come back.
    CarrierEnded,
}

/// The stop code an edge sends when its client is finished.
pub const CLIENT_DONE_CODE: u64 = 0x5002;

impl CloseIntent {
    /// Reads an intent off a stop code. Every code but [`CLIENT_DONE_CODE`] means
    /// that the carrier ended, so an unknown code never costs a client its session.
    pub fn from_code(code: u64) -> (intent: CloseIntent)
        ensures
            intent == CloseIntent::ClientDone <==> code == CLIENT_DONE_CODE,
    {
        if code == CLIENT_DONE_CODE {
            CloseIntent::ClientDone
        } else {
            CloseIntent::CarrierEnded
        }
    }

    /// The metric label of the intent.
    pub fn metric_label(self) -> (label: &'static str)
        ensures
            self == CloseIntent::ClientDone ==> label@ == "client_done"@,
            self == CloseIntent::CarrierEnded ==> label@ == "carrier_ended"@,
    {
        match self {
            CloseIntent::ClientDone => "client_done",
            CloseIntent::CarrierEnded => "carrier_ended",
        }
    }
}

/// How a relayed stream frames what it carries.
#[derive(Clone, Copy, Debug, PartialEq, Eq, Structural)]
pub enum MeshFraming {
    Tcp,
    Udp,
}

/// The proxy protocol the edge terminated for its client.
#[derive(Clone, Copy, Debug, PartialEq, Eq, Structural)]
pub enum MeshProtocol {
    Ss,
    Vless,
}

/// The shape of parked session an admitted relay carries.
#[derive(Clone, Copy, Debug, PartialEq, Eq, Structural)]
pub enum MeshShape {
    Stream,
    Datagram,
    VlessUdpSingle,
    VlessMux,
}

/// One code says that a client is done, and no other code ever costs a client its session.
pub proof fn law_one_code_says_that_a_client_is_done(code: u64, intent: CloseIntent)
    requires
        call_ensures(CloseIntent::from_code, (code,), intent),
    ensures
        intent == CloseIntent::ClientDone <==> code == 0x5002,
        intent == CloseIntent::CarrierEnded <==> code != 0x5002,
{
}

} // verus!
