//! A mesh stream in the part of a WebSocket: which message stands for which frame.

use vstd::prelude::*;
use crate::carrier_padding::{frame_downlink_message, PaddingScheme};
use crate::throughput_monitor::ThroughputMonitor;

verus! {

/// [`bytes::Bytes`], whose contents are [`bytes_held`].
#[verifier::external_type_specification]
#[verifier::external_body]
pub struct ExBytes(bytes::Bytes);

/// The bytes a [`bytes::Bytes`] holds.
pub uninterp spec fn bytes_held(bytes: bytes::Bytes) -> Seq<u8>;

/// Calls `Bytes::len`: how many bytes are held.
#[verifier::external_body]
fn held_len(bytes: &bytes::Bytes) -> (len: usize)
    ensures
        len == bytes_held(*bytes).len(),
{
    bytes.len()
}

/// Calls `Bytes::new`: no bytes.
#[verifier::external_body]
fn no_bytes() -> (bytes: bytes::Bytes)
    ensures
        bytes_held(bytes) == Seq::<u8>::empty(),
{
    bytes::Bytes::new()
}

/// A message on a mesh carrier.
#[derive(Debug)]
pub enum MeshMsg {
    Binary(bytes::Bytes),
    Close,
    Ping(bytes::Bytes),
    Pong,
}

/// A frame as the relay loops see it, whatever the carrier.
#[derive(Debug)]
pub enum WsFrame {
    Binary(bytes::Bytes),
    Close,
    Ping(bytes::Bytes),
    Pong,
    Text,
}

/// What sending a message does to the stream. Nothing is left to do for a ping or a
/// pong: QUIC keeps the connection alive.
#[derive(Clone, Copy, Debug, PartialEq, Eq, Structural)]
pub enum CarrierSend {
    /// Write the bytes, and count them.
    Write,
    /// Finish the stream.
    Finish,
    Nothing,
}

/// The byte-stream carrier.
pub struct MeshCarrier;

pub open spec fn frame_of(msg: MeshMsg) -> WsFrame {
    match msg {
        MeshMsg::Binary(bytes) => WsFrame::Binary(bytes),
        MeshMsg::Close => WsFrame::Close,
        MeshMsg::Ping(payload) => WsFrame::Ping(payload),
        MeshMsg::Pong => WsFrame::Pong,
    }
}

pub open spec fn payload_len(msg: MeshMsg) -> nat {
    match msg {
        MeshMsg::Binary(bytes) => bytes_held(bytes).len(),
        MeshMsg::Ping(payload) => bytes_held(payload).len(),
        _ => 0,
    }
}

impl MeshCarrier {
    /// The frame a message stands for. A mesh carrier has no text frames.
    pub fn classify(msg: MeshMsg) -> (frame: WsFrame)
        ensures
            frame == frame_of(msg),
    {
        match msg {
            MeshMsg::Binary(bytes) => WsFrame::Binary(bytes),
            MeshMsg::Close => WsFrame::Close,
            MeshMsg::Ping(payload) => WsFrame::Ping(payload),
            MeshMsg::Pong => WsFrame::Pong,
        }
    }

    /// A message that carries data.
    pub fn binary_msg(data: bytes::Bytes) -> (msg: MeshMsg)
        ensures
            msg == MeshMsg::Binary(data),
    {
        MeshMsg::Binary(data)
    }

    /// A message that closes the carrier.
    pub fn close_msg() -> (msg: MeshMsg)
        ensures
            msg == MeshMsg::Close,
    {
        MeshMsg::Close
    }

    /// A message that closes the carrier and asks for another try. There is no client
    /// on the mesh to ask, so it is an ordinary close.
    pub fn close_try_again_msg() -> (msg: MeshMsg)
        ensures
            msg == MeshMsg::Close,
    {
        MeshMsg::Close
    }

    /// A ping without a payload.
    pub fn ping_msg() -> (msg: MeshMsg)
        ensures
            msg matches MeshMsg::Ping(payload) && bytes_held(payload) == Seq::<u8>::empty(),
    {
        MeshMsg::Ping(no_bytes())
    }

    /// The answer to a ping, without its payload.
    pub fn pong_msg(_payload: bytes::Bytes) -> (msg: MeshMsg)
        ensures
            msg == MeshMsg::Pong,
    {
        MeshMsg::Pong
    }

    /// The length of a message's data, where it carries data.
    pub fn binary_len(msg: &MeshMsg) -> (len: Option<usize>)
        ensures
            len is Some <==> *msg is Binary,
            len matches Some(len) ==> len == payload_len(*msg),
    {
        match msg {
            MeshMsg::Binary(bytes) => Some(held_len(bytes)),
            _ => None,
        }
    }

    /// The length of whatever a message carries.
    pub fn msg_len(msg: &MeshMsg) -> (len: usize)
        ensures
            len == payload_len(*msg),
    {
        match msg {
            MeshMsg::Binary(bytes) => held_len(bytes),
            MeshMsg::Ping(payload) => held_len(payload),
            MeshMsg::Close => 0,
            MeshMsg::Pong => 0,
        }
    }

    /// A mesh carrier is kept alive by QUIC, as an HTTP/3 one is.
    pub fn is_h3() -> (h3: bool)
        ensures
            h3,
    {
        true
    }

    /// What sending a message does to the stream.
    pub fn send_action(msg: &MeshMsg) -> (action: CarrierSend)
        ensures
            action == match *msg {
                MeshMsg::Binary(_) => CarrierSend::Write,
                MeshMsg::Close => CarrierSend::Finish,
                MeshMsg::Ping(_) => CarrierSend::Nothing,
                MeshMsg::Pong => CarrierSend::Nothing,
            },
    {
        match msg {
            MeshMsg::Binary(_) => CarrierSend::Write,
            MeshMsg::Close => CarrierSend::Finish,
            MeshMsg::Ping(_) => CarrierSend::Nothing,
            MeshMsg::Pong => CarrierSend::Nothing,
        }
    }
}

/// The carrier of datagrams: one message is one datagram, whose boundary the stream keeps.
pub struct MeshUdpCarrier;

impl MeshUdpCarrier {
    /// The frame a message stands for. A mesh carrier has no text frames.
    pub fn classify(msg: MeshMsg) -> (frame: WsFrame)
        ensures
            frame == frame_of(msg),
    {
        MeshCarrier::classify(msg)
    }

    /// A message that carries one datagram.
    pub fn binary_msg(data: bytes::Bytes) -> (msg: MeshMsg)
        ensures
            msg == MeshMsg::Binary(data),
    {
        MeshMsg::Binary(data)
    }

    /// A message that closes the carrier.
    pub fn close_msg() -> (msg: MeshMsg)
        ensures
            msg == MeshMsg::Close,
    {
        MeshMsg::Close
    }

    /// A message that closes the carrier; there is no client on the mesh to ask for
    /// another try.
    pub fn close_try_again_msg() -> (msg: MeshMsg)
        ensures
            msg == MeshMsg::Close,
    {
        MeshMsg::Close
    }

    /// A ping without a payload.
    pub fn ping_msg() -> (msg: MeshMsg)
        ensures
            msg matches MeshMsg::Ping(payload) && bytes_held(payload) == Seq::<u8>::empty(),
    {
        MeshCarrier::ping_msg()
    }

    /// The answer to a ping, without its payload.
    pub fn pong_msg(_payload: bytes::Bytes) -> (msg: MeshMsg)
        ensures
            msg == MeshMsg::Pong,
    {
        MeshMsg::Pong
    }

    /// The length of a message's datagram, where it carries one.
    pub fn binary_len(msg: &MeshMsg) -> (len: Option<usize>)
        ensures
            len is Some <==> *msg is Binary,
            len matches Some(len) ==> len == payload_len(*msg),
    {
        MeshCarrier::binary_len(msg)
    }

    /// The length of whatever a message carries.
    pub fn msg_len(msg: &MeshMsg) -> (len: usize)
        ensures
            len == payload_len(*msg),
    {
        MeshCarrier::msg_len(msg)
    }

    /// A mesh carrier is kept alive by QUIC, as an HTTP/3 one is.
    pub fn is_h3() -> (h3: bool)
        ensures
            h3,
    {
        true
    }
}

/// How many places of a queue are taken, where `free` of `max` are free.
pub open spec fn taken_places(free: usize, max: usize) -> int {
    if free <= max {
        max - free
    } else {
        0
    }
}

/// Prepares a response for a datagram carrier: counts it for the carrier's throttle
/// detection, where there is one, and frames it as the carrier's padding has it.
/// `free` of the `max` places in the carrier's queue are free.
pub fn prepare_response(
    monitor: &mut Option<ThroughputMonitor>,
    padding: PaddingScheme,
    data: Vec<u8>,
    free: usize,
    max: usize,
) -> (message: Vec<u8>)
    ensures
        *final(monitor) == match *old(monitor) {
            Some(before) => Some(
                ThroughputMonitor {
                    in_bytes: ((before.in_bytes + data@.len()) % 0x1_0000_0000_0000_0000) as u64,
                    backlog_seen: before.backlog_seen || 2 * taken_places(free, max) >= max,
                    ..before
                },
            ),
            None => None,
        },
        !padding.enabled ==> message@ == data@,
        padding.enabled ==> padding.frames_as(data@, message@),
{
    match monitor.take() {
        Some(watched) => {
            let mut watched = watched;
            watched.note_datagram(data.len(), max.saturating_sub(free), max);
            *monitor = Some(watched);
        },
        None => {},
    }
    frame_downlink_message(padding, data)
}

/// What a carrier is given to send reaches the other side's loop unchanged.
pub proof fn law_a_binary_message_arrives_as_it_is(data: bytes::Bytes)
    ensures
        frame_of(MeshMsg::Binary(data)) == WsFrame::Binary(data),
        payload_len(MeshMsg::Binary(data)) == bytes_held(data).len(),
{
}

/// Every message is the frame it stands for, with what it carries; none is a text frame,
/// and none stands for another's frame.
pub proof fn law_a_message_is_its_own_frame(msg: MeshMsg, other: MeshMsg)
    ensures
        frame_of(msg) == frame_of(other) <==> msg == other,
        msg matches MeshMsg::Binary(bytes) ==> frame_of(msg) == WsFrame::Binary(bytes) && payload_len(
            msg,
        ) == bytes_held(bytes).len(),
        msg matches MeshMsg::Ping(bytes) ==> frame_of(msg) == WsFrame::Ping(bytes) && payload_len(msg)
            == bytes_held(bytes).len(),
        msg is Close ==> frame_of(msg) is Close && payload_len(msg) == 0,
        msg is Pong ==> frame_of(msg) is Pong && payload_len(msg) == 0,
        !(frame_of(msg) is Text),
{
}

/// A queue has as many places taken as are not free.
pub proof fn law_a_taken_place_is_not_free(free: usize, max: usize)
    ensures
        free <= max ==> taken_places(free, max) + free == max,
        free > max ==> taken_places(free, max) == 0,
{
}

} // verus!
