//! A carrier's upstream where it is another node's: attesting the user, writing, and
//! reading what the home sends.

use vstd::prelude::*;
use vstd::string::*;
use vstd::utf8::{decode_utf8, encode_utf8, encode_utf8_decode_utf8, encode_utf8_valid_utf8, valid_utf8};
use crate::mesh_wire::CloseReason;

verus! {

// ── The user frame ──────────────────────────────────────────────────────────

/// The frame an edge names its user in: one length byte, then the name.
pub open spec fn user_frame(name: Seq<u8>) -> Seq<u8> {
    seq![name.len() as u8] + name
}

/// Encodes the user frame; `None` where the name is longer than `max_len` bytes.
pub fn encode_user_frame(user: &str, max_len: usize) -> (frame: Option<Vec<u8>>)
    requires
        max_len <= 255,
    ensures
        frame is Some <==> user.spec_bytes().len() <= max_len,
        frame matches Some(frame) ==> frame@ == user_frame(user.spec_bytes()),
{
    let name = user.as_bytes();
    if name.len() > max_len {
        return None;
    }
    let mut frame: Vec<u8> = Vec::new();
    frame.push(name.len() as u8);
    let mut i: usize = 0;
    assert(frame@ =~= seq![name@.len() as u8] + name@.take(0));
    while i < name.len()
        invariant
            i <= name@.len(),
            frame@ == seq![name@.len() as u8] + name@.take(i as int),
        decreases name@.len() - i,
    {
        frame.push(name[i]);
        assert(frame@ =~= seq![name@.len() as u8] + name@.take(i + 1));
        i = i + 1;
    }
    assert(name@.take(name@.len() as int) =~= name@);
    Some(frame)
}

/// How many bytes follow a user frame's length byte; `None` where that is more than a
/// name may have.
pub fn user_frame_rest(len_byte: u8, max_len: usize) -> (rest: Option<usize>)
    ensures
        rest == if len_byte > max_len {
            None
        } else {
            Some(len_byte as usize)
        },
{
    if len_byte as usize > max_len {
        None
    } else {
        Some(len_byte as usize)
    }
}

/// Calls `String::from_utf8`: the string that the bytes encode, where they are valid
/// UTF-8, and nothing otherwise.
#[verifier::external_body]
fn text_of(bytes: Vec<u8>) -> (text: Option<String>)
    ensures
        text is Some <==> valid_utf8(bytes@),
        text matches Some(text) ==> text@ == decode_utf8(bytes@),
{
    String::from_utf8(bytes).ok()
}

/// A whole user frame: the length byte tells what follows, and what follows is a name.
/// No user has an empty name.
pub open spec fn names_a_user(frame: Seq<u8>) -> bool {
    frame.len() > 1 && frame.len() == frame[0] + 1 && valid_utf8(frame.skip(1))
}

/// The name in a whole user frame; `None` where the frame names nobody.
pub fn parse_user_frame(frame: &[u8]) -> (name: Option<String>)
    ensures
        name is Some <==> names_a_user(frame@),
        name matches Some(name) ==> name@ == decode_utf8(frame@.skip(1)),
{
    if frame.len() <= 1 || frame.len() != frame[0] as usize + 1 {
        return None;
    }
    let mut name: Vec<u8> = Vec::new();
    let mut i: usize = 1;
    while i < frame.len()
        invariant
            1 <= i <= frame@.len(),
            name@ == frame@.subrange(1, i as int),
        decreases frame@.len() - i,
    {
        name.push(frame[i]);
        assert(name@ =~= frame@.subrange(1, i + 1));
        i = i + 1;
    }
    assert(name@ =~= frame@.skip(1));
    text_of(name)
}

/// The home reads the name that the edge wrote, whatever it is: what an edge encodes is
/// a frame that names a user, and the name is the same.
pub proof fn law_a_user_frame_reads_back(user: Seq<char>)
    requires
        0 < encode_utf8(user).len() <= 255,
    ensures
        names_a_user(user_frame(encode_utf8(user))),
        decode_utf8(user_frame(encode_utf8(user)).skip(1)) == user,
{
    encode_utf8_valid_utf8(user);
    encode_utf8_decode_utf8(user);
    assert(user_frame(encode_utf8(user)).skip(1) =~= encode_utf8(user));
}

// ── Attaching ───────────────────────────────────────────────────────────────

/// Why a relay cannot be attached.
#[derive(Clone, Copy, Debug, PartialEq, Eq, Structural)]
pub enum AttachError {
    NameTooLong,
    UserTimedOut,
    UserFailed,
    AckTimedOut,
    AckFailed,
    AckMalformed,
}

/// How sending the user frame, or reading the acknowledgement, went.
#[derive(Clone, Copy, Debug, PartialEq, Eq, Structural)]
pub enum AttachIo {
    Done,
    Failed,
    TimedOut,
}

/// What is done next.
#[derive(Clone, Copy, Debug, PartialEq, Eq, Structural)]
pub enum AttachStep {
    /// Read the home's acknowledged offset.
    ReadAck,
    /// The relay is attached; the home's upstream has taken this many bytes.
    Attached { upstream_acked: u64 },
    Fail(AttachError),
}

/// Takes in whether the user frame was sent. The home sends an acknowledged offset
/// exactly where it was asked to.
pub fn on_user_sent(sent: AttachIo, ack_prefix: bool) -> (step: AttachStep)
    ensures
        step == match sent {
            AttachIo::Done => if ack_prefix {
                AttachStep::ReadAck
            } else {
                AttachStep::Attached { upstream_acked: 0 }
            },
            AttachIo::Failed => AttachStep::Fail(AttachError::UserFailed),
            AttachIo::TimedOut => AttachStep::Fail(AttachError::UserTimedOut),
        },
{
    match sent {
        AttachIo::Done => if ack_prefix {
            AttachStep::ReadAck
        } else {
            AttachStep::Attached { upstream_acked: 0 }
        },
        AttachIo::Failed => AttachStep::Fail(AttachError::UserFailed),
        AttachIo::TimedOut => AttachStep::Fail(AttachError::UserTimedOut),
    }
}

/// Takes in the home's acknowledgement; `acked` is `None` where it cannot be parsed.
pub fn on_ack_read(read: AttachIo, acked: Option<u64>) -> (step: AttachStep)
    ensures
        step == match read {
            AttachIo::Done => match acked {
                Some(upstream_acked) => AttachStep::Attached { upstream_acked },
                None => AttachStep::Fail(AttachError::AckMalformed),
            },
            AttachIo::Failed => AttachStep::Fail(AttachError::AckFailed),
            AttachIo::TimedOut => AttachStep::Fail(AttachError::AckTimedOut),
        },
{
    match read {
        AttachIo::Done => match acked {
            Some(upstream_acked) => AttachStep::Attached { upstream_acked },
            None => AttachStep::Fail(AttachError::AckMalformed),
        },
        AttachIo::Failed => AttachStep::Fail(AttachError::AckFailed),
        AttachIo::TimedOut => AttachStep::Fail(AttachError::AckTimedOut),
    }
}

// ── Writing ─────────────────────────────────────────────────────────────────

/// The writer of an upstream.
#[derive(Clone, Copy, Debug, PartialEq, Eq, Structural)]
pub enum UpstreamWriter {
    /// A socket of this node.
    Tcp,
    /// A stream to another node.
    Mesh,
}

/// How a write went. Only a stream to another node is held to the health budget.
#[derive(Clone, Copy, Debug, PartialEq, Eq, Structural)]
pub enum UpstreamWrite {
    Done,
    Failed,
    Stalled,
}

/// What a write comes to.
#[derive(Clone, Copy, Debug, PartialEq, Eq, Structural)]
pub enum WriteVerdict {
    /// Written; count this many bytes for the mesh.
    Written { mesh_bytes: usize },
    Failed,
    /// Reset the stream for this reason, and fail as timed out.
    TimedOut { reset: CloseReason },
}

/// How an upstream is shut down.
#[derive(Clone, Copy, Debug, PartialEq, Eq, Structural)]
pub enum WriterShutdown {
    ShutdownSocket,
    FinishStream,
}

impl UpstreamWriter {
    /// Whether the upstream is another node's.
    pub fn is_mesh(&self) -> (mesh: bool)
        ensures
            mesh == (*self == UpstreamWriter::Mesh),
    {
        matches!(self, UpstreamWriter::Mesh)
    }

    /// Takes in how a write of `len` bytes went.
    pub fn on_write(&self, write: UpstreamWrite, len: usize) -> (verdict: WriteVerdict)
        requires
            *self == UpstreamWriter::Tcp ==> write != UpstreamWrite::Stalled,
        ensures
            verdict == match write {
                UpstreamWrite::Done => WriteVerdict::Written {
                    mesh_bytes: if *self == UpstreamWriter::Mesh {
                        len
                    } else {
                        0
                    },
                },
                UpstreamWrite::Failed => WriteVerdict::Failed,
                UpstreamWrite::Stalled => WriteVerdict::TimedOut { reset: CloseReason::Budget },
            },
    {
        match write {
            UpstreamWrite::Done => {
                let mesh_bytes: usize = if self.is_mesh() { len } else { 0 };
                WriteVerdict::Written { mesh_bytes }
            },
            UpstreamWrite::Failed => WriteVerdict::Failed,
            UpstreamWrite::Stalled => WriteVerdict::TimedOut { reset: CloseReason::Budget },
        }
    }

    /// How the upstream is shut down.
    pub fn shutdown(&self) -> (how: WriterShutdown)
        ensures
            how == match *self {
                UpstreamWriter::Tcp => WriterShutdown::ShutdownSocket,
                UpstreamWriter::Mesh => WriterShutdown::FinishStream,
            },
    {
        match self {
            UpstreamWriter::Tcp => WriterShutdown::ShutdownSocket,
            UpstreamWriter::Mesh => WriterShutdown::FinishStream,
        }
    }
}

// ── Reading ─────────────────────────────────────────────────────────────────

/// What a home has sent and the carrier has not taken yet: at most one chunk.
#[derive(Debug)]
pub struct MeshUpstream {
    pub pending: Option<Vec<u8>>,
    pub eof: bool,
}

/// What reading without waiting brings.
#[derive(Clone, Copy, Debug, PartialEq, Eq, Structural)]
pub enum TryRead {
    Read(usize),
    Eof,
    WouldBlock,
}

pub open spec fn pending_bytes(pending: Option<Vec<u8>>) -> Seq<u8> {
    match pending {
        Some(chunk) => chunk@,
        None => Seq::empty(),
    }
}

impl MeshUpstream {
    /// A stream nothing came on yet.
    pub fn new() -> (upstream: MeshUpstream)
        ensures
            upstream.pending is None,
            !upstream.eof,
    {
        MeshUpstream { pending: None, eof: false }
    }

    /// Whether a read has something to bring without waiting.
    pub fn is_ready(&self) -> (ready: bool)
        ensures
            ready == (self.pending is Some || self.eof),
    {
        self.pending.is_some() || self.eof
    }

    /// Takes in a chunk off the stream; it is counted for the mesh. Nothing is read
    /// off the stream while a chunk is pending.
    pub fn on_chunk(&mut self, chunk: Vec<u8>) -> (mesh_bytes: usize)
        requires
            old(self).pending is None,
            !old(self).eof,
        ensures
            mesh_bytes == chunk@.len(),
            final(self).pending == Some(chunk),
            final(self).eof == old(self).eof,
    {
        let mesh_bytes: usize = chunk.len();
        self.pending = Some(chunk);
        mesh_bytes
    }

    /// Takes in the end of the stream.
    pub fn on_end(&mut self)
        ensures
            final(self).pending == old(self).pending,
            final(self).eof,
    {
        self.eof = true;
    }

    /// Hands out the pending chunk, whole; without one, the end of the stream once it
    /// has come.
    pub fn try_read_buf(&mut self, out: &mut Vec<u8>) -> (read: TryRead)
        ensures
            final(out)@ == old(out)@ + pending_bytes(old(self).pending),
            final(self).pending is None,
            final(self).eof == old(self).eof,
            read == match old(self).pending {
                Some(chunk) => TryRead::Read(chunk@.len() as usize),
                None => if old(self).eof {
                    TryRead::Eof
                } else {
                    TryRead::WouldBlock
                },
            },
    {
        match self.pending.take() {
            Some(chunk) => {
                let ghost before = out@;
                let len: usize = chunk.len();
                let mut i: usize = 0;
                assert(out@ =~= before + chunk@.take(0));
                while i < len
                    invariant
                        i <= len == chunk@.len(),
                        out@ == before + chunk@.take(i as int),
                    decreases len - i,
                {
                    out.push(chunk[i]);
                    assert(out@ =~= before + chunk@.take(i + 1));
                    i = i + 1;
                }
                assert(chunk@.take(len as int) =~= chunk@);
                TryRead::Read(len)
            },
            None => {
                assert(out@ =~= out@ + Seq::<u8>::empty());
                if self.eof {
                    TryRead::Eof
                } else {
                    TryRead::WouldBlock
                }
            },
        }
    }
}

// ── Laws ────────────────────────────────────────────────────────────────────

/// What reaches a reader: a chunk off the stream, its end, or a read of the carrier.
pub enum ReaderInput {
    Chunk(Seq<u8>),
    End,
    TryRead,
}

/// A reader, and everything that has come in and gone out through it.
pub struct ReaderRun {
    pub pending: Option<Seq<u8>>,
    pub eof: bool,
    pub received: Seq<u8>,
    pub delivered: Seq<u8>,
}

/// Whether the input can reach a reader in this state: nothing is read off the stream
/// while a chunk is pending, nor past its end.
pub open spec fn reader_takes(run: ReaderRun, input: ReaderInput) -> bool {
    input is TryRead || (run.pending is None && !run.eof)
}

pub open spec fn reader_after(run: ReaderRun, input: ReaderInput) -> ReaderRun {
    match input {
        ReaderInput::Chunk(chunk) => ReaderRun {
            pending: Some(chunk),
            received: run.received + chunk,
            ..run
        },
        ReaderInput::End => ReaderRun { eof: true, ..run },
        ReaderInput::TryRead => match run.pending {
            Some(chunk) => ReaderRun { pending: None, delivered: run.delivered + chunk, ..run },
            None => run,
        },
    }
}

pub open spec fn reader_run(inputs: Seq<ReaderInput>) -> ReaderRun
    decreases inputs.len(),
{
    if inputs.len() == 0 {
        ReaderRun { pending: None, eof: false, received: Seq::empty(), delivered: Seq::empty() }
    } else {
        reader_after(reader_run(inputs.drop_last()), inputs.last())
    }
}

pub open spec fn reader_run_ok(inputs: Seq<ReaderInput>) -> bool
    decreases inputs.len(),
{
    inputs.len() == 0 || (reader_run_ok(inputs.drop_last()) && reader_takes(
        reader_run(inputs.drop_last()),
        inputs.last(),
    ))
}

/// The carrier reads what the home sent, in order and without loss: everything that came
/// off the stream was handed out, but for the one chunk that is pending. Where a read
/// brings the end, all of it was.
pub proof fn law_the_carrier_reads_what_the_home_sent(inputs: Seq<ReaderInput>)
    requires
        reader_run_ok(inputs),
    ensures
        ({
            let run = reader_run(inputs);
            &&& run.received == run.delivered + match run.pending {
                Some(chunk) => chunk,
                None => Seq::empty(),
            }
            &&& run.pending is None ==> run.received == run.delivered
        }),
    decreases inputs.len(),
{
    if inputs.len() > 0 {
        law_the_carrier_reads_what_the_home_sent(inputs.drop_last());
        let before = reader_run(inputs.drop_last());
        let after = reader_run(inputs);
        match inputs.last() {
            ReaderInput::Chunk(chunk) => {
                assert(before.received =~= before.delivered);
                assert(after.received =~= after.delivered + chunk);
            },
            ReaderInput::End => {},
            ReaderInput::TryRead => {
                assert(after.received =~= after.delivered);
            },
        }
    }
    assert(reader_run(inputs).delivered + Seq::<u8>::empty() =~= reader_run(inputs).delivered);
}

/// A user frame is the length of the name and the name, and a frame names a user exactly
/// where it is that of some text that is not empty.
pub proof fn law_a_frame_is_a_length_and_a_name(name: Seq<u8>, frame: Seq<u8>, i: int)
    requires
        name.len() <= 255,
    ensures
        user_frame(name).len() == 1 + name.len(),
        user_frame(name)[0] == name.len(),
        0 <= i < name.len() ==> user_frame(name)[1 + i] == name[i],
        names_a_user(frame) ==> frame == user_frame(frame.skip(1)) && frame.len() > 1 && valid_utf8(
            frame.skip(1),
        ),
        name.len() > 0 && valid_utf8(name) ==> names_a_user(user_frame(name)),
{
    assert(user_frame(name).skip(1) =~= name);
    if names_a_user(frame) {
        assert(frame =~= user_frame(frame.skip(1)));
    }
}

/// What is pending is the chunk that came, and nothing where none did.
pub proof fn law_what_is_pending_is_the_chunk(chunk: Vec<u8>)
    ensures
        pending_bytes(Some(chunk)) == chunk@,
        pending_bytes(None) == Seq::<u8>::empty(),
{
}

/// A relay is attached exactly where everything that was asked of the home came: the user
/// frame went out and, where an offset was asked for, the home told one, which is then the
/// relay's. Every failure has its own name.
pub proof fn law_a_relay_is_attached_once_the_home_answered(
    sent: AttachIo,
    ack_prefix: bool,
    first: AttachStep,
    read: AttachIo,
    acked: Option<u64>,
    second: AttachStep,
    upstream_acked: u64,
)
    requires
        call_ensures(on_user_sent, (sent, ack_prefix), first),
        call_ensures(on_ack_read, (read, acked), second),
    ensures
        first == AttachStep::ReadAck <==> sent == AttachIo::Done && ack_prefix,
        first == (AttachStep::Attached { upstream_acked }) <==> sent == AttachIo::Done && !ack_prefix
            && upstream_acked == 0,
        first == AttachStep::Fail(AttachError::UserFailed) <==> sent == AttachIo::Failed,
        first == AttachStep::Fail(AttachError::UserTimedOut) <==> sent == AttachIo::TimedOut,
        second == (AttachStep::Attached { upstream_acked }) <==> read == AttachIo::Done && acked == Some(
            upstream_acked,
        ),
        second == AttachStep::Fail(AttachError::AckMalformed) <==> read == AttachIo::Done && acked
            is None,
        second == AttachStep::Fail(AttachError::AckFailed) <==> read == AttachIo::Failed,
        second == AttachStep::Fail(AttachError::AckTimedOut) <==> read == AttachIo::TimedOut,
{
}

/// A write is one where all was written; bytes are counted for the mesh exactly where they
/// went there; and a relay that does not drain is reset for the health budget. An upstream
/// of this node is shut down, and a relay finished, so that the home keeps the session.
pub proof fn law_a_write_is_what_it_came_to(
    writer: UpstreamWriter,
    write: UpstreamWrite,
    len: usize,
    verdict: WriteVerdict,
    how: WriterShutdown,
    mesh_bytes: usize,
    reset: CloseReason,
)
    requires
        call_ensures(UpstreamWriter::on_write, (&writer, write, len), verdict),
        call_ensures(UpstreamWriter::shutdown, (&writer,), how),
    ensures
        verdict == (WriteVerdict::Written { mesh_bytes }) <==> write == UpstreamWrite::Done && mesh_bytes
            == if writer == UpstreamWriter::Mesh {
            len
        } else {
            0
        },
        verdict == WriteVerdict::Failed <==> write == UpstreamWrite::Failed,
        verdict == (WriteVerdict::TimedOut { reset }) <==> write == UpstreamWrite::Stalled && reset
            == CloseReason::Budget,
        how == WriterShutdown::FinishStream <==> writer == UpstreamWriter::Mesh,
{
}

/// As many bytes follow a length byte as it says, where a name may be that long.
pub proof fn law_a_length_byte_is_kept_to(len_byte: u8, max_len: usize, rest: Option<usize>)
    requires
        call_ensures(user_frame_rest, (len_byte, max_len), rest),
    ensures
        rest is Some <==> len_byte <= max_len,
        rest matches Some(rest) ==> rest == len_byte,
{
}

} // verus!
