//! Which ends of a carrier are routine, and how a session's end is counted.

use vstd::prelude::*;
use crate::text::{contains, has_part};

verus! {

/// A routine end.
#[derive(Clone, Copy, Debug, PartialEq, Eq, Structural)]
pub enum BenignClose {
    /// The peer went away.
    PeerAbort,
    /// The peer closed the connection in good order.
    H3NoError,
    /// The peer went silent.
    QuicTimeout,
}

/// The kind of an I/O error, as far as it matters here.
#[derive(Clone, Copy, Debug, PartialEq, Eq, Structural)]
pub enum IoKind {
    ConnectionReset,
    BrokenPipe,
    UnexpectedEof,
    ConnectionAborted,
    /// An error of no kind of its own, which its text must tell.
    Other,
    AnotherKind,
}

/// An error of the WebSocket protocol.
#[derive(Debug)]
pub enum WebSocketCause {
    ConnectionClosed,
    AlreadyClosed,
    ResetWithoutClosingHandshake,
    SendAfterClosing,
    /// An I/O error, with its own text.
    Io(IoKind, String),
    Otherwise,
}

/// An error of a QUIC connection.
#[derive(Clone, Copy, Debug, PartialEq, Eq, Structural)]
pub enum QuicCause {
    /// The peer's application closed the connection with this code.
    ApplicationClosed(u64),
    LocallyClosed,
    Reset,
    TimedOut,
    Otherwise,
}

/// An error of an HTTP/3 WebSocket.
#[derive(Debug)]
pub enum H3WebSocketCause {
    ConnectionClosed,
    ConnectionReset,
    /// An HTTP/3 error, of which only the text is left.
    Http3(String),
    Otherwise,
}

/// One error of a chain of causes.
#[derive(Debug)]
pub enum Cause {
    Io(IoKind),
    WebSocket(WebSocketCause),
    Http { canceled: bool, incomplete_message: bool, closed: bool },
    Quic(QuicCause),
    H3Connection { no_error: bool },
    H3Stream,
    H3WebSocket(H3WebSocketCause),
    Otherwise,
}

/// One error of a chain of causes, and its text.
#[derive(Debug)]
pub struct ErrorCause {
    pub cause: Cause,
    pub text: String,
}

// ── One cause ───────────────────────────────────────────────────────────────

pub open spec fn stringified_h3(text: Seq<char>) -> Option<BenignClose> {
    if has_part(text, "ApplicationClose: H3_NO_ERROR"@) || has_part(text, "ApplicationClose: 0x0"@) {
        Some(BenignClose::H3NoError)
    } else if has_part(text, "Connection error: Timeout"@) {
        Some(BenignClose::QuicTimeout)
    } else {
        None
    }
}

/// Reads a routine end off the text of an HTTP/3 error, where its type is lost.
pub fn classify_stringified_h3(text: &str) -> (benign: Option<BenignClose>)
    ensures
        benign == stringified_h3(text@),
{
    if contains(text, "ApplicationClose: H3_NO_ERROR") || contains(text, "ApplicationClose: 0x0") {
        Some(BenignClose::H3NoError)
    } else if contains(text, "Connection error: Timeout") {
        Some(BenignClose::QuicTimeout)
    } else {
        None
    }
}

pub open spec fn benign_io(kind: IoKind, text: Seq<char>) -> Option<BenignClose> {
    match kind {
        IoKind::Other => stringified_h3(text),
        IoKind::AnotherKind => None,
        _ => Some(BenignClose::PeerAbort),
    }
}

/// Whether an I/O error is a routine end.
pub fn classify_io(kind: IoKind, text: &str) -> (benign: Option<BenignClose>)
    ensures
        benign == benign_io(kind, text@),
{
    match kind {
        IoKind::ConnectionReset => Some(BenignClose::PeerAbort),
        IoKind::BrokenPipe => Some(BenignClose::PeerAbort),
        IoKind::UnexpectedEof => Some(BenignClose::PeerAbort),
        IoKind::ConnectionAborted => Some(BenignClose::PeerAbort),
        IoKind::Other => classify_stringified_h3(text),
        IoKind::AnotherKind => None,
    }
}

pub open spec fn benign_web_socket(cause: WebSocketCause) -> Option<BenignClose> {
    match cause {
        WebSocketCause::Io(kind, text) => benign_io(kind, text@),
        WebSocketCause::Otherwise => None,
        _ => Some(BenignClose::PeerAbort),
    }
}

/// Whether an error of the WebSocket protocol is a routine end.
pub fn classify_tungstenite(cause: &WebSocketCause) -> (benign: Option<BenignClose>)
    ensures
        benign == benign_web_socket(*cause),
{
    match cause {
        WebSocketCause::ConnectionClosed => Some(BenignClose::PeerAbort),
        WebSocketCause::AlreadyClosed => Some(BenignClose::PeerAbort),
        WebSocketCause::ResetWithoutClosingHandshake => Some(BenignClose::PeerAbort),
        WebSocketCause::SendAfterClosing => Some(BenignClose::PeerAbort),
        WebSocketCause::Io(kind, text) => classify_io(*kind, text.as_str()),
        WebSocketCause::Otherwise => None,
    }
}

/// Whether an HTTP error is a routine end.
pub fn classify_hyper(canceled: bool, incomplete_message: bool, closed: bool) -> (benign: Option<
    BenignClose,
>)
    ensures
        benign == if canceled || incomplete_message || closed {
            Some(BenignClose::PeerAbort)
        } else {
            None
        },
{
    if canceled || incomplete_message || closed {
        Some(BenignClose::PeerAbort)
    } else {
        None
    }
}

pub open spec fn benign_quic(cause: QuicCause) -> Option<BenignClose> {
    match cause {
        QuicCause::ApplicationClosed(code) => if code == 0 {
            Some(BenignClose::H3NoError)
        } else {
            None
        },
        QuicCause::LocallyClosed => Some(BenignClose::PeerAbort),
        QuicCause::Reset => Some(BenignClose::PeerAbort),
        QuicCause::TimedOut => Some(BenignClose::QuicTimeout),
        QuicCause::Otherwise => None,
    }
}

/// Whether an error of a QUIC connection is a routine end.
pub fn classify_quinn(cause: QuicCause) -> (benign: Option<BenignClose>)
    ensures
        benign == benign_quic(cause),
{
    match cause {
        QuicCause::ApplicationClosed(0) => Some(BenignClose::H3NoError),
        QuicCause::ApplicationClosed(_) => None,
        QuicCause::LocallyClosed => Some(BenignClose::PeerAbort),
        QuicCause::Reset => Some(BenignClose::PeerAbort),
        QuicCause::TimedOut => Some(BenignClose::QuicTimeout),
        QuicCause::Otherwise => None,
    }
}

pub open spec fn benign_h3_connection(no_error: bool, text: Seq<char>) -> Option<BenignClose> {
    if no_error {
        Some(BenignClose::H3NoError)
    } else {
        stringified_h3(text)
    }
}

/// Whether an error of an HTTP/3 connection is a routine end.
pub fn classify_h3_connection(no_error: bool, text: &str) -> (benign: Option<BenignClose>)
    ensures
        benign == benign_h3_connection(no_error, text@),
{
    if no_error {
        return Some(BenignClose::H3NoError);
    }
    classify_stringified_h3(text)
}

pub open spec fn benign_h3_web_socket(cause: H3WebSocketCause) -> Option<BenignClose> {
    match cause {
        H3WebSocketCause::ConnectionClosed => Some(BenignClose::PeerAbort),
        H3WebSocketCause::ConnectionReset => Some(BenignClose::PeerAbort),
        H3WebSocketCause::Http3(text) => stringified_h3(text@),
        H3WebSocketCause::Otherwise => None,
    }
}

/// Whether an error of an HTTP/3 WebSocket is a routine end.
pub fn classify_sockudo(cause: &H3WebSocketCause) -> (benign: Option<BenignClose>)
    ensures
        benign == benign_h3_web_socket(*cause),
{
    match cause {
        H3WebSocketCause::ConnectionClosed => Some(BenignClose::PeerAbort),
        H3WebSocketCause::ConnectionReset => Some(BenignClose::PeerAbort),
        H3WebSocketCause::Http3(text) => classify_stringified_h3(text.as_str()),
        H3WebSocketCause::Otherwise => None,
    }
}

pub open spec fn benign_cause(error: ErrorCause) -> Option<BenignClose> {
    match error.cause {
        Cause::Io(kind) => benign_io(kind, error.text@),
        Cause::WebSocket(cause) => benign_web_socket(cause),
        Cause::Http { canceled, incomplete_message, closed } => if canceled || incomplete_message
            || closed {
            Some(BenignClose::PeerAbort)
        } else {
            None
        },
        Cause::Quic(cause) => benign_quic(cause),
        Cause::H3Connection { no_error } => benign_h3_connection(no_error, error.text@),
        Cause::H3Stream => stringified_h3(error.text@),
        Cause::H3WebSocket(cause) => benign_h3_web_socket(cause),
        Cause::Otherwise => None,
    }
}

/// Whether one cause is a routine end.
pub fn classify_cause(error: &ErrorCause) -> (benign: Option<BenignClose>)
    ensures
        benign == benign_cause(*error),
{
    match &error.cause {
        Cause::Io(kind) => classify_io(*kind, error.text.as_str()),
        Cause::WebSocket(cause) => classify_tungstenite(cause),
        Cause::Http { canceled, incomplete_message, closed } => classify_hyper(
            *canceled,
            *incomplete_message,
            *closed,
        ),
        Cause::Quic(cause) => classify_quinn(*cause),
        Cause::H3Connection { no_error } => classify_h3_connection(*no_error, error.text.as_str()),
        Cause::H3Stream => classify_stringified_h3(error.text.as_str()),
        Cause::H3WebSocket(cause) => classify_sockudo(cause),
        Cause::Otherwise => None,
    }
}

// ── A chain of causes ───────────────────────────────────────────────────────

/// The routine end of the outermost cause that is one.
pub open spec fn benign_chain(chain: Seq<ErrorCause>) -> Option<BenignClose>
    decreases chain.len(),
{
    if chain.len() == 0 {
        None
    } else if benign_cause(chain[0]) is Some {
        benign_cause(chain[0])
    } else {
        benign_chain(chain.drop_first())
    }
}

/// Whether a cause says that the peer dropped the TLS session without closing it.
pub open spec fn drops_tls(chain: Seq<ErrorCause>) -> bool {
    exists|i: int|
        0 <= i < chain.len() && has_part(
            (#[trigger] chain[i]).text@,
            "peer closed connection without sending TLS close_notify"@,
        )
}

/// The routine end behind an error: that of the outermost cause that is one.
pub fn classify_error(chain: &Vec<ErrorCause>) -> (benign: Option<BenignClose>)
    ensures
        benign == benign_chain(chain@),
{
    let mut i: usize = 0;
    assert(chain@.skip(0) =~= chain@);
    while i < chain.len()
        invariant
            i <= chain@.len(),
            benign_chain(chain@) == benign_chain(chain@.skip(i as int)),
        decreases chain@.len() - i,
    {
        let benign = classify_cause(&chain[i]);
        assert(chain@.skip(i as int)[0] == chain@[i as int]);
        assert(chain@.skip(i as int).drop_first() =~= chain@.skip(i + 1));
        if benign.is_some() {
            return benign;
        }
        i = i + 1;
    }
    None
}

/// Whether the peer dropped the TLS session without closing it.
pub fn has_tls_close_notify(chain: &Vec<ErrorCause>) -> (drops: bool)
    ensures
        drops == drops_tls(chain@),
{
    let mut i: usize = 0;
    while i < chain.len()
        invariant
            i <= chain@.len(),
            forall|j: int|
                0 <= j < i ==> !has_part(
                    (#[trigger] chain@[j]).text@,
                    "peer closed connection without sending TLS close_notify"@,
                ),
        decreases chain@.len() - i,
    {
        if contains(
            chain[i].text.as_str(),
            "peer closed connection without sending TLS close_notify",
        ) {
            return true;
        }
        i = i + 1;
    }
    false
}

/// Whether an error is a routine end of a carrier.
pub fn is_expected_ws_close(chain: &Vec<ErrorCause>) -> (expected: bool)
    ensures
        expected == (benign_chain(chain@) is Some || drops_tls(chain@)),
{
    classify_error(chain).is_some() || has_tls_close_notify(chain)
}

/// Whether an error is an HTTP/3 close in good order.
pub fn is_normal_h3_shutdown(chain: &Vec<ErrorCause>) -> (normal: bool)
    ensures
        normal == (benign_chain(chain@) == Some(BenignClose::H3NoError)),
{
    matches!(classify_error(chain), Some(BenignClose::H3NoError))
}

/// How a session's end is counted.
#[derive(Clone, Copy, Debug, PartialEq, Eq, Structural)]
pub enum DisconnectReason {
    Normal,
    ClientDisconnect,
    HandshakeRejected,
    Error,
}

/// How a session ended.
#[derive(Debug)]
pub enum SessionEnd {
    Clean,
    /// With an error of these causes; `handshake_rejected` where the client was read
    /// out because its handshake was rejected.
    Failed { chain: Vec<ErrorCause>, handshake_rejected: bool },
}

pub open spec fn disconnect_reason(end: SessionEnd) -> DisconnectReason {
    match end {
        SessionEnd::Clean => DisconnectReason::Normal,
        SessionEnd::Failed { chain, handshake_rejected } => if benign_chain(chain@) == Some(
            BenignClose::H3NoError,
        ) {
            DisconnectReason::Normal
        } else if benign_chain(chain@) is Some || drops_tls(chain@) {
            DisconnectReason::ClientDisconnect
        } else if handshake_rejected {
            DisconnectReason::HandshakeRejected
        } else {
            DisconnectReason::Error
        },
    }
}

/// Counts a session's end.
pub fn finish_ws_session(end: &SessionEnd) -> (reason: DisconnectReason)
    ensures
        reason == disconnect_reason(*end),
{
    match end {
        SessionEnd::Clean => DisconnectReason::Normal,
        SessionEnd::Failed { chain, handshake_rejected } => {
            if is_normal_h3_shutdown(chain) {
                DisconnectReason::Normal
            } else if is_expected_ws_close(chain) {
                DisconnectReason::ClientDisconnect
            } else if *handshake_rejected {
                DisconnectReason::HandshakeRejected
            } else {
                DisconnectReason::Error
            }
        },
    }
}

/// An end that is routine is never counted as an error, and one that is counted as an
/// error has no routine cause anywhere in its chain.
pub proof fn law_a_routine_end_is_no_error(end: SessionEnd)
    requires
        disconnect_reason(end) == DisconnectReason::Error,
    ensures
        end is Failed,
        forall|i: int|
            0 <= i < end->chain@.len() ==> benign_cause(#[trigger] end->chain@[i]) is None,
        !drops_tls(end->chain@),
{
    lemma_no_benign_cause(end->chain@);
}

proof fn lemma_no_benign_cause(chain: Seq<ErrorCause>)
    requires
        benign_chain(chain) is None,
    ensures
        forall|i: int| 0 <= i < chain.len() ==> benign_cause(#[trigger] chain[i]) is None,
    decreases chain.len(),
{
    if chain.len() > 0 {
        lemma_no_benign_cause(chain.drop_first());
        assert forall|i: int| 0 <= i < chain.len() implies benign_cause(#[trigger] chain[i]) is None by {
            if i > 0 {
                assert(chain.drop_first()[i - 1] == chain[i]);
            }
        }
    }
}

// ── What classifying an end is for ──────────────────────────────────────────

/// An error of which only the text is left is an orderly close where the text says that
/// the peer closed without an error, and a timeout where it says so and nothing of the
/// other; any other text is no routine end.
pub proof fn law_a_text_tells_an_orderly_close(text: Seq<char>)
    ensures
        stringified_h3(text) == Some(BenignClose::H3NoError) <==> has_part(
            text,
            "ApplicationClose: H3_NO_ERROR"@,
        ) || has_part(text, "ApplicationClose: 0x0"@),
        stringified_h3(text) == Some(BenignClose::QuicTimeout) <==> has_part(
            text,
            "Connection error: Timeout"@,
        ) && !has_part(text, "ApplicationClose: H3_NO_ERROR"@) && !has_part(
            text,
            "ApplicationClose: 0x0"@,
        ),
        stringified_h3(text) != Some(BenignClose::PeerAbort),
{
}

/// A peer that merely went away is told from every other error: by the kind of an I/O
/// error, by a WebSocket that was closed or reset, by a request that was cut short, by a
/// connection that was closed here or reset.
pub proof fn law_a_peer_that_went_away_is_no_error(error: ErrorCause)
    ensures
        ({
            let gone = |kind: IoKind|
                kind == IoKind::ConnectionReset || kind == IoKind::BrokenPipe || kind
                    == IoKind::UnexpectedEof || kind == IoKind::ConnectionAborted;
            benign_cause(error) == Some(BenignClose::PeerAbort) <==> match error.cause {
                Cause::Io(kind) => gone(kind),
                Cause::WebSocket(WebSocketCause::Io(kind, _)) => gone(kind),
                Cause::WebSocket(cause) => cause is ConnectionClosed || cause is AlreadyClosed || cause
                    is ResetWithoutClosingHandshake || cause is SendAfterClosing,
                Cause::Http { canceled, incomplete_message, closed } => canceled || incomplete_message
                    || closed,
                Cause::Quic(cause) => cause == QuicCause::LocallyClosed || cause == QuicCause::Reset,
                Cause::H3WebSocket(cause) => cause is ConnectionClosed || cause is ConnectionReset,
                _ => false,
            }
        }),
{
    law_a_text_tells_an_orderly_close(error.text@);
    if let Cause::WebSocket(WebSocketCause::Io(_, text)) = error.cause {
        law_a_text_tells_an_orderly_close(text@);
    }
    if let Cause::H3WebSocket(H3WebSocketCause::Http3(text)) = error.cause {
        law_a_text_tells_an_orderly_close(text@);
    }
}

/// An orderly close and a timeout are told by the connection where its error says so, and
/// by the text where the error has no other word for it: an I/O error of no kind of its
/// own, an HTTP/3 error.
pub proof fn law_an_orderly_close_is_told(error: ErrorCause, end: BenignClose)
    requires
        end != BenignClose::PeerAbort,
    ensures
        benign_cause(error) == Some(end) <==> match error.cause {
            Cause::Io(kind) => kind == IoKind::Other && stringified_h3(error.text@) == Some(end),
            Cause::WebSocket(WebSocketCause::Io(kind, text)) => kind == IoKind::Other
                && stringified_h3(text@) == Some(end),
            Cause::Quic(cause) => cause == QuicCause::ApplicationClosed(0) && end
                == BenignClose::H3NoError || cause == QuicCause::TimedOut && end
                == BenignClose::QuicTimeout,
            Cause::H3Connection { no_error } => if no_error {
                end == BenignClose::H3NoError
            } else {
                stringified_h3(error.text@) == Some(end)
            },
            Cause::H3Stream => stringified_h3(error.text@) == Some(end),
            Cause::H3WebSocket(H3WebSocketCause::Http3(text)) => stringified_h3(text@) == Some(end),
            _ => false,
        },
{
}

/// A chain of causes is what its outermost routine cause is: a routine cause further in
/// counts exactly where none stands before it.
pub proof fn law_the_outermost_routine_cause_counts(chain: Seq<ErrorCause>, at: int)
    ensures
        0 <= at < chain.len() && benign_cause(chain[at]) is Some && (forall|i: int|
            0 <= i < at ==> benign_cause(#[trigger] chain[i]) is None) ==> benign_chain(chain)
            == benign_cause(chain[at]),
        (forall|i: int| 0 <= i < chain.len() ==> benign_cause(#[trigger] chain[i]) is None)
            ==> benign_chain(chain) is None,
    decreases chain.len(),
{
    if chain.len() > 0 {
        let rest = chain.drop_first();
        law_the_outermost_routine_cause_counts(rest, at - 1);
        if forall|i: int| 0 <= i < chain.len() ==> benign_cause(#[trigger] chain[i]) is None {
            assert forall|i: int| 0 <= i < rest.len() implies benign_cause(#[trigger] rest[i]) is None by {
                assert(rest[i] == chain[i + 1]);
            }
            assert(benign_cause(chain[0]) is None);
        }
        if 0 < at < chain.len() && benign_cause(chain[at]) is Some && (forall|i: int|
            0 <= i < at ==> benign_cause(#[trigger] chain[i]) is None) {
            assert(benign_cause(chain[0]) is None);
            assert forall|i: int| 0 <= i < at - 1 implies benign_cause(#[trigger] rest[i]) is None by {
                assert(rest[i] == chain[i + 1]);
            }
            assert(rest[at - 1] == chain[at]);
        }
    }
}

/// How an end is counted: as normal where it was clean or an orderly close, as the
/// client's where it was routine otherwise or the peer dropped its TLS session, as a
/// rejected handshake where it was that and nothing routine, and as an error otherwise.
pub proof fn law_an_end_is_counted_for_what_it_was(
    end: SessionEnd,
    chain: Vec<ErrorCause>,
    handshake_rejected: bool,
)
    requires
        end is Failed ==> end == (SessionEnd::Failed { chain, handshake_rejected }),
    ensures
        ({
            let reason = disconnect_reason(end);
            let routine = benign_chain(chain@);
            let dropped = exists|i: int|
                0 <= i < chain@.len() && has_part(
                    (#[trigger] chain@[i]).text@,
                    "peer closed connection without sending TLS close_notify"@,
                );
            &&& reason == DisconnectReason::Normal <==> end is Clean || routine == Some(
                BenignClose::H3NoError,
            )
            &&& reason == DisconnectReason::ClientDisconnect <==> end is Failed && routine != Some(
                BenignClose::H3NoError,
            ) && (routine is Some || dropped)
            &&& reason == DisconnectReason::HandshakeRejected <==> end is Failed && routine is None
                && !dropped && handshake_rejected
        }),
{
}

} // verus!
