//! One client's UDP stream: who it is, under which scope its NAT entries live,
//! what a datagram goes through on its way out, and what the stream leaves behind.

use vstd::prelude::*;
use crate::nat_keys::{
    claimed, detach_stream_nat_keys, key_views, kept, live_in, next_reconcile, owned_by,
    reattach_parked_nat_keys, released, scope_view, with_key, Endpoint, NatKey, NatKeyView, NatTable,
    StreamNatKeys, NAT_KEYS_RECONCILE_FLOOR,
};
use crate::session::SessionId;

verus! {

/// Draws the next stream id from the process-wide counter.
pub fn next_ss_udp_stream_id(counter: &mut u64) -> (id: u64)
    ensures
        id == *old(counter),
        *final(counter) == (*old(counter) + 1) % 0x1_0000_0000_0000_0000,
{
    let id: u64 = *counter;
    *counter = counter.wrapping_add(1);
    id
}

/// A parked UDP stream: the keys of its NAT entries and the user they serve.
#[derive(Debug)]
pub struct ParkedSsUdpStream {
    pub nat_keys: Vec<NatKey>,
    pub owner: String,
}

/// The state of one UDP stream.
#[derive(Debug)]
pub struct UdpSession {
    /// The client's session was counted.
    pub session_recorded: bool,
    /// The user whose key opened the last datagram, tried first on the next one.
    pub cached_user: Option<usize>,
    /// The first user that authenticated; the stream is parked under that name.
    pub authenticated_user: Option<String>,
    /// The session the client wants back, until somebody asked for it.
    pub pending_resume: Option<SessionId>,
    /// The id the stream is parked under.
    pub issued_session_id: Option<SessionId>,
    pub stream_id: u64,
    pub nat_keys: StreamNatKeys,
    /// The scope of the stream's NAT entries, once it is settled.
    pub nat_scope: Option<Option<SessionId>>,
}

// ── Authentication ──────────────────────────────────────────────────────────

/// What opening a datagram came to.
#[derive(Debug)]
pub enum DecryptOutcome {
    /// A user's key opened it; `guarded` where its packet id is subject to the
    /// replay check.
    Opened { user_index: usize, user_id: String, guarded: bool },
    /// No user's key opened it.
    UnknownUser,
    Failed,
}

/// What the replay store says of a packet id.
#[derive(Clone, Copy, Debug, PartialEq, Eq, Structural)]
pub enum ReplayCheck {
    Fresh,
    Replay,
    StoreFull,
}

/// What is done with a datagram.
#[derive(Clone, Copy, Debug, PartialEq, Eq, Structural)]
pub enum AuthStep {
    /// Ask the replay store.
    CheckReplay,
    /// Relay it; `first` where the client's session is to be counted, and only its
    /// last sighting otherwise.
    Accept { first: bool },
    /// Count and drop a replayed datagram.
    DropReplayed,
    /// Count and drop a datagram the replay store has no room for.
    DropStoreFull,
    /// End with the error that no configured key matched.
    RejectUnknownUser,
    /// End with the error that opening it brought.
    RejectFailed,
}

pub open spec fn user_view(user: Option<String>) -> Option<Seq<char>> {
    match user {
        Some(user) => Some(user@),
        None => None,
    }
}

impl UdpSession {
    pub open spec fn wf(self) -> bool {
        self.nat_keys.wf()
    }

    /// Everything but what authentication may change.
    pub open spec fn same_but_auth(self, other: UdpSession) -> bool {
        &&& self.pending_resume == other.pending_resume
        &&& self.issued_session_id == other.issued_session_id
        &&& self.stream_id == other.stream_id
        &&& self.nat_keys == other.nat_keys
        &&& self.nat_scope == other.nat_scope
    }

    /// A stream that has seen no datagram.
    pub fn new(
        requested_resume: Option<SessionId>,
        issued_session_id: Option<SessionId>,
        stream_id: u64,
    ) -> (session: UdpSession)
        ensures
            session.wf(),
            !session.session_recorded,
            session.cached_user is None,
            session.authenticated_user is None,
            session.pending_resume == requested_resume,
            session.issued_session_id == issued_session_id,
            session.stream_id == stream_id,
            session.nat_keys@ == Set::<NatKeyView>::empty(),
            session.nat_keys.reconcile_at == NAT_KEYS_RECONCILE_FLOOR,
            session.nat_scope is None,
    {
        UdpSession {
            session_recorded: false,
            cached_user: None,
            authenticated_user: None,
            pending_resume: requested_resume,
            issued_session_id,
            stream_id,
            nat_keys: StreamNatKeys::new(),
            nat_scope: None,
        }
    }

    /// Takes in what opening a datagram came to. Whose key opened it is remembered
    /// even where the datagram is dropped afterwards; the stream's user is the first.
    pub fn on_decrypt(&mut self, outcome: DecryptOutcome) -> (step: AuthStep)
        ensures
            final(self).same_but_auth(*old(self)),
            match outcome {
                DecryptOutcome::Opened { user_index, user_id, guarded } => {
                    &&& final(self).cached_user == Some(user_index)
                    &&& user_view(final(self).authenticated_user) == match old(self).authenticated_user {
                        Some(user) => Some(user@),
                        None => Some(user_id@),
                    }
                    &&& guarded ==> step == AuthStep::CheckReplay && final(self).session_recorded
                        == old(self).session_recorded
                    &&& !guarded ==> step == (AuthStep::Accept { first: !old(self).session_recorded })
                        && final(self).session_recorded
                },
                DecryptOutcome::UnknownUser => step == AuthStep::RejectUnknownUser && *final(self)
                    == *old(self),
                DecryptOutcome::Failed => step == AuthStep::RejectFailed && *final(self) == *old(self),
            },
    {
        match outcome {
            DecryptOutcome::Opened { user_index, user_id, guarded } => {
                self.cached_user = Some(user_index);
                if self.authenticated_user.is_none() {
                    self.authenticated_user = Some(user_id);
                }
                if guarded {
                    AuthStep::CheckReplay
                } else {
                    self.accept()
                }
            },
            DecryptOutcome::UnknownUser => AuthStep::RejectUnknownUser,
            DecryptOutcome::Failed => AuthStep::RejectFailed,
        }
    }

    /// Takes in the replay store's answer.
    pub fn on_replay_check(&mut self, check: ReplayCheck) -> (step: AuthStep)
        ensures
            final(self).same_but_auth(*old(self)),
            final(self).cached_user == old(self).cached_user,
            final(self).authenticated_user == old(self).authenticated_user,
            final(self).session_recorded == (old(self).session_recorded || check
                == ReplayCheck::Fresh),
            step == match check {
                ReplayCheck::Fresh => AuthStep::Accept { first: !old(self).session_recorded },
                ReplayCheck::Replay => AuthStep::DropReplayed,
                ReplayCheck::StoreFull => AuthStep::DropStoreFull,
            },
    {
        match check {
            ReplayCheck::Fresh => self.accept(),
            ReplayCheck::Replay => AuthStep::DropReplayed,
            ReplayCheck::StoreFull => AuthStep::DropStoreFull,
        }
    }

    fn accept(&mut self) -> (step: AuthStep)
        ensures
            final(self).same_but_auth(*old(self)),
            final(self).cached_user == old(self).cached_user,
            final(self).authenticated_user == old(self).authenticated_user,
            final(self).session_recorded,
            step == (AuthStep::Accept { first: !old(self).session_recorded }),
    {
        let first = !self.session_recorded;
        self.session_recorded = true;
        AuthStep::Accept { first }
    }
}

// ── The scope ───────────────────────────────────────────────────────────────

/// What is done to settle the stream's scope.
#[derive(Clone, Copy, Debug)]
pub enum ScopeStep {
    /// It is settled.
    Known(Option<SessionId>),
    /// Take the parked session for the stream's user, and hand the answer back.
    Take(SessionId),
}

/// The registry's answer.
#[derive(Debug)]
pub enum ScopeResume {
    Parked(ParkedSsUdpStream),
    /// A parked session of another kind was under the id.
    OtherKind,
    Missed,
}

/// The scope the first of some keys carries.
pub open spec fn first_scope(keys: Seq<NatKeyView>) -> Option<Seq<u8>> {
    if keys.len() == 0 {
        None
    } else {
        keys[0].scope
    }
}

impl UdpSession {
    /// Everything but what settling the scope may change.
    pub open spec fn same_but_scope(self, other: UdpSession) -> bool {
        &&& self.session_recorded == other.session_recorded
        &&& self.cached_user == other.cached_user
        &&& self.authenticated_user == other.authenticated_user
        &&& self.issued_session_id == other.issued_session_id
        &&& self.stream_id == other.stream_id
    }

    /// Starts on the scope. It is settled once in the stream's life. A resume that
    /// the client asked for is asked of the registry once, and only where the
    /// registry takes parks; without one the stream's own id is the scope.
    pub fn begin_scope(&mut self, registry_enabled: bool) -> (step: ScopeStep)
        requires
            old(self).wf(),
        ensures
            final(self).wf(),
            final(self).same_but_scope(*old(self)),
            final(self).nat_keys == old(self).nat_keys,
            match old(self).nat_scope {
                Some(scope) => step == ScopeStep::Known(scope) && *final(self) == *old(self),
                None => if registry_enabled && old(self).pending_resume is Some {
                    &&& step == ScopeStep::Take(old(self).pending_resume->0)
                    &&& final(self).pending_resume is None
                    &&& final(self).nat_scope is None
                } else {
                    &&& step == ScopeStep::Known(old(self).issued_session_id)
                    &&& final(self).pending_resume == old(self).pending_resume
                    &&& final(self).nat_scope == Some(old(self).issued_session_id)
                },
            },
    {
        match self.nat_scope {
            Some(scope) => ScopeStep::Known(scope),
            None => {
                if registry_enabled {
                    match self.pending_resume {
                        Some(id) => {
                            self.pending_resume = None;
                            return ScopeStep::Take(id);
                        },
                        None => {},
                    }
                }
                self.nat_scope = Some(self.issued_session_id);
                ScopeStep::Known(self.issued_session_id)
            },
        }
    }

    /// Settles the scope with the registry's answer. A parked stream's live entries
    /// are reattached, and with any of them comes its scope; with none of them the
    /// stream's own id is the scope.
    pub fn resolve_nat_scope(&mut self, resumed: ScopeResume, table: &mut NatTable) -> (scope: Option<
        SessionId,
    >)
        requires
            old(self).wf(),
            old(table).wf(),
            old(self).nat_scope is None,
        ensures
            final(self).wf(),
            final(table).wf(),
            final(self).same_but_scope(*old(self)),
            final(self).pending_resume == old(self).pending_resume,
            final(self).nat_keys.reconcile_at == old(self).nat_keys.reconcile_at,
            final(self).nat_scope == Some(scope),
            match resumed {
                ScopeResume::Parked(parked) => {
                    let keys = key_views(parked.nat_keys@);
                    let live = keys.filter(live_in(old(table)@));
                    &&& final(table)@ == claimed(old(table)@, keys, old(self).stream_id)
                    &&& final(self).nat_keys@ == old(self).nat_keys@.union(live.to_set())
                    &&& live.len() > 0 ==> scope_view(scope) == first_scope(keys)
                    &&& live.len() == 0 ==> scope == old(self).issued_session_id
                },
                _ => {
                    &&& scope == old(self).issued_session_id
                    &&& final(table)@ == old(table)@
                    &&& final(self).nat_keys == old(self).nat_keys
                },
            },
    {
        let mut scope = self.issued_session_id;
        match resumed {
            ScopeResume::Parked(parked) => {
                let reattached = reattach_parked_nat_keys(table, &parked.nat_keys, self.stream_id);
                let ghost views = key_views(reattached@);
                if reattached.len() > 0 {
                    scope = if parked.nat_keys.len() > 0 {
                        parked.nat_keys[0].scope
                    } else {
                        None
                    };
                    self.nat_keys.adopt(reattached);
                } else {
                    assert(views.to_set() =~= Set::<NatKeyView>::empty());
                    assert(self.nat_keys@ =~= self.nat_keys@.union(views.to_set()));
                }
                assert(views.len() == reattached@.len());
            },
            ScopeResume::OtherKind => {},
            ScopeResume::Missed => {},
        }
        self.nat_scope = Some(scope);
        scope
    }
}

// ── One datagram ────────────────────────────────────────────────────────────

/// What parsing the target address in front of a datagram came to.
#[derive(Clone, Copy, Debug, PartialEq, Eq, Structural)]
pub enum TargetParse {
    /// The address takes up this many bytes.
    Target { consumed: usize },
    Incomplete,
    Malformed,
}

/// The identity a datagram is relayed under.
#[derive(Debug)]
pub struct DatagramCtx {
    pub user_id: String,
    pub fwmark: Option<u32>,
    pub scope: Option<SessionId>,
    pub stream_id: u64,
    /// This node terminates the client's session, so it accounts for its user.
    pub accounts_per_user: bool,
    /// The longest payload a UDP datagram can carry.
    pub max_payload: usize,
}

/// Why a datagram ends in an error.
#[derive(Clone, Copy, Debug, PartialEq, Eq, Structural)]
pub enum DatagramError {
    Malformed,
    MissingTarget,
    ResolveFailed,
    NatFailed,
    SendFailed,
}

/// How a request is counted.
#[derive(Clone, Copy, Debug, PartialEq, Eq, Structural)]
pub enum RequestResult {
    Success,
    Error,
}

impl RequestResult {
    /// The metric label of the result.
    pub fn label(self) -> (label: &'static str)
        ensures
            self == RequestResult::Success ==> label@ == "success"@,
            self == RequestResult::Error ==> label@ == "error"@,
    {
        match self {
            RequestResult::Success => "success",
            RequestResult::Error => "error",
        }
    }
}

/// Where a datagram stands.
#[derive(Clone, Copy, Debug, PartialEq, Eq, Structural)]
pub enum DatagramPhase {
    Parsing,
    Resolving { consumed: usize },
    Opening { consumed: usize, target: Endpoint },
    Sending,
    Done,
}

/// What became of the last action.
#[derive(Clone, Copy, Debug, PartialEq, Eq, Structural)]
pub enum DatagramEvent {
    Parsed(TargetParse),
    Resolved(Endpoint),
    ResolveFailed,
    /// The entry's socket is there.
    Opened,
    OpenFailed,
    Sent,
    SendFailed,
}

/// What is done next.
#[derive(Clone, Copy, Debug, PartialEq, Eq, Structural)]
pub enum DatagramAction {
    /// Resolve the target's name.
    Resolve,
    /// Get the socket of the NAT entry for this target, or bind one.
    Open(Endpoint),
    /// Send the payload that starts at this offset; count its bytes for the user
    /// where `count` says so.
    Send { from: usize, count: bool },
    /// Count an oversized datagram, and the request where `request` says so.
    DropOversized { request: Option<RequestResult> },
    /// The datagram is out: keep the entry alive, and count the request where
    /// `request` says so.
    Finish { request: Option<RequestResult> },
    Fail { error: DatagramError, request: Option<RequestResult> },
}

pub open spec fn datagram_accepts(len: usize, phase: DatagramPhase, event: DatagramEvent) -> bool {
    match phase {
        DatagramPhase::Parsing => event matches DatagramEvent::Parsed(parsed) && (
        parsed matches TargetParse::Target { consumed } ==> consumed <= len),
        DatagramPhase::Resolving { .. } => event is Resolved || event is ResolveFailed,
        DatagramPhase::Opening { .. } => event is Opened || event is OpenFailed,
        DatagramPhase::Sending => event is Sent || event is SendFailed,
        DatagramPhase::Done => false,
    }
}

/// A request's result, counted only where this node accounts for the user.
pub open spec fn counted(accounts: bool, result: RequestResult) -> Option<RequestResult> {
    if accounts {
        Some(result)
    } else {
        None
    }
}

pub open spec fn datagram_next(
    ctx: DatagramCtx,
    len: usize,
    phase: DatagramPhase,
    event: DatagramEvent,
) -> (DatagramPhase, DatagramAction) {
    match (phase, event) {
        (DatagramPhase::Parsing, DatagramEvent::Parsed(parsed)) => match parsed {
            TargetParse::Target { consumed } => (
                DatagramPhase::Resolving { consumed },
                DatagramAction::Resolve,
            ),
            TargetParse::Incomplete => (
                DatagramPhase::Done,
                DatagramAction::Fail { error: DatagramError::MissingTarget, request: None },
            ),
            TargetParse::Malformed => (
                DatagramPhase::Done,
                DatagramAction::Fail { error: DatagramError::Malformed, request: None },
            ),
        },
        (DatagramPhase::Resolving { consumed }, DatagramEvent::Resolved(target)) => (
            DatagramPhase::Opening { consumed, target },
            DatagramAction::Open(target),
        ),
        (DatagramPhase::Resolving { .. }, _) => (
            DatagramPhase::Done,
            DatagramAction::Fail { error: DatagramError::ResolveFailed, request: None },
        ),
        (DatagramPhase::Opening { consumed, .. }, DatagramEvent::Opened) => if len - consumed
            > ctx.max_payload {
            (
                DatagramPhase::Done,
                DatagramAction::DropOversized {
                    request: counted(ctx.accounts_per_user, RequestResult::Error),
                },
            )
        } else {
            (
                DatagramPhase::Sending,
                DatagramAction::Send { from: consumed, count: ctx.accounts_per_user },
            )
        },
        (DatagramPhase::Opening { .. }, _) => (
            DatagramPhase::Done,
            DatagramAction::Fail { error: DatagramError::NatFailed, request: None },
        ),
        (DatagramPhase::Sending, DatagramEvent::Sent) => (
            DatagramPhase::Done,
            DatagramAction::Finish {
                request: counted(ctx.accounts_per_user, RequestResult::Success),
            },
        ),
        _ => (
            DatagramPhase::Done,
            DatagramAction::Fail {
                error: DatagramError::SendFailed,
                request: counted(ctx.accounts_per_user, RequestResult::Error),
            },
        ),
    }
}

/// How many keys a stream holds once `key` is among them.
pub open spec fn count_with(keys: StreamNatKeys, key: NatKeyView) -> nat {
    if keys@.contains(key) {
        keys.keys@.len()
    } else {
        keys.keys@.len() + 1
    }
}

/// What a stream's keys become once it has sent under `key`: the key is added, and
/// where that brings the stream to its mark, exactly the live keys stay and the mark
/// is set anew.
pub open spec fn tracked_key(
    before: StreamNatKeys,
    key: NatKeyView,
    table: Map<NatKeyView, Option<u64>>,
    after: StreamNatKeys,
) -> bool {
    if count_with(before, key) < before.reconcile_at {
        after@ == before@.insert(key) && after.reconcile_at == before.reconcile_at
    } else {
        after@ == before@.insert(key).intersect(table.dom()) && after.reconcile_at == next_reconcile(
            after.keys@.len(),
        )
    }
}

impl DatagramCtx {
    /// The key a datagram to `target` goes out under. It is made of the session's
    /// own identity, so a session can name no entry but its own.
    pub open spec fn key_view(self, target: Endpoint) -> NatKeyView {
        NatKeyView {
            user_id: self.user_id@,
            fwmark: self.fwmark,
            scope: scope_view(self.scope),
            target,
        }
    }

    /// Builds that key.
    pub fn nat_key(&self, target: Endpoint) -> (key: NatKey)
        ensures
            key@ == self.key_view(target),
    {
        NatKey { user_id: self.user_id.clone(), fwmark: self.fwmark, scope: self.scope, target }
    }

    fn count_request(&self, result: RequestResult) -> (request: Option<RequestResult>)
        ensures
            request == counted(self.accounts_per_user, result),
    {
        if self.accounts_per_user {
            Some(result)
        } else {
            None
        }
    }

    /// One step of a datagram of `len` bytes, address in front. Once the entry's
    /// socket is there, the entry is pointed at this stream and its key tracked,
    /// before anything is sent.
    pub fn step_datagram(
        &self,
        len: usize,
        phase: DatagramPhase,
        event: DatagramEvent,
        table: &mut NatTable,
        keys: &mut StreamNatKeys,
    ) -> (stepped: (DatagramPhase, DatagramAction))
        requires
            datagram_accepts(len, phase, event),
            phase matches DatagramPhase::Opening { consumed, .. } ==> consumed <= len,
            old(table).wf(),
            old(keys).wf(),
        ensures
            final(table).wf(),
            final(keys).wf(),
            stepped == datagram_next(*self, len, phase, event),
            stepped.0 matches DatagramPhase::Resolving { consumed } ==> consumed <= len,
            event == DatagramEvent::Opened ==> {
                let key = self.key_view(phase->target);
                &&& final(table)@ == old(table)@.insert(key, Some(self.stream_id))
                &&& tracked_key(*old(keys), key, final(table)@, *final(keys))
            },
            event != DatagramEvent::Opened ==> *final(table) == *old(table) && *final(keys) == *old(keys),
    {
        match (phase, event) {
            (DatagramPhase::Parsing, DatagramEvent::Parsed(parsed)) => match parsed {
                TargetParse::Target { consumed } => (
                    DatagramPhase::Resolving { consumed },
                    DatagramAction::Resolve,
                ),
                TargetParse::Incomplete => (
                    DatagramPhase::Done,
                    DatagramAction::Fail { error: DatagramError::MissingTarget, request: None },
                ),
                TargetParse::Malformed => (
                    DatagramPhase::Done,
                    DatagramAction::Fail { error: DatagramError::Malformed, request: None },
                ),
            },
            (DatagramPhase::Resolving { consumed }, DatagramEvent::Resolved(target)) => (
                DatagramPhase::Opening { consumed, target },
                DatagramAction::Open(target),
            ),
            (DatagramPhase::Resolving { .. }, _) => (
                DatagramPhase::Done,
                DatagramAction::Fail { error: DatagramError::ResolveFailed, request: None },
            ),
            (DatagramPhase::Opening { consumed, target }, DatagramEvent::Opened) => {
                self.own_entry(target, table, keys);
                if len - consumed > self.max_payload {
                    (
                        DatagramPhase::Done,
                        DatagramAction::DropOversized {
                            request: self.count_request(RequestResult::Error),
                        },
                    )
                } else {
                    (
                        DatagramPhase::Sending,
                        DatagramAction::Send { from: consumed, count: self.accounts_per_user },
                    )
                }
            },
            (DatagramPhase::Opening { .. }, _) => (
                DatagramPhase::Done,
                DatagramAction::Fail { error: DatagramError::NatFailed, request: None },
            ),
            (DatagramPhase::Sending, DatagramEvent::Sent) => (
                DatagramPhase::Done,
                DatagramAction::Finish { request: self.count_request(RequestResult::Success) },
            ),
            _ => (
                DatagramPhase::Done,
                DatagramAction::Fail {
                    error: DatagramError::SendFailed,
                    request: self.count_request(RequestResult::Error),
                },
            ),
        }
    }

    fn own_entry(&self, target: Endpoint, table: &mut NatTable, keys: &mut StreamNatKeys)
        requires
            old(table).wf(),
            old(keys).wf(),
        ensures
            final(table).wf(),
            final(keys).wf(),
            final(table)@ == old(table)@.insert(self.key_view(target), Some(self.stream_id)),
            tracked_key(*old(keys), self.key_view(target), final(table)@, *final(keys)),
    {
        let key = self.nat_key(target);
        let ghost before = *keys;
        let ghost all = with_key(before.keys@, key);
        table.get_or_create(&key);
        table.register_session(&key, self.stream_id);
        assert(table@ =~= old(table)@.insert(self.key_view(target), Some(self.stream_id)));
        let live_table: &NatTable = table;
        let is_live = |k: &NatKey| -> (live: bool)
            ensures
                live == live_table@.dom().contains(k@)
        {
            live_table.contains(k)
        };
        keys.track(key, is_live);
        proof {
            lemma_with_key_view(before, key);
            assert(all.len() == count_with(before, key@));
            if all.len() >= before.reconcile_at {
                let verdicts = choose|verdicts: Seq<bool>| #[trigger]
                    kept(all, verdicts) == keys.keys@ && verdicts.len() == all.len() && (forall|i: int|
                        0 <= i < verdicts.len() ==> #[trigger] verdicts[i] == table@.dom().contains(
                            all[i]@,
                        ));
                lemma_kept_are_the_live(all, verdicts, table@);
                assert(keys@ =~= before@.insert(key@).intersect(table@.dom()));
            }
        }
    }
}

proof fn lemma_with_key_view(keys: StreamNatKeys, key: NatKey)
    ensures
        key_views(with_key(keys.keys@, key)).to_set() == keys@.insert(key@),
{
    let all = with_key(keys.keys@, key);
    assert forall|k: NatKeyView| #[trigger] key_views(all).to_set().contains(k) <==> keys@.insert(
        key@,
    ).contains(k) by {
        if key_views(keys.keys@).contains(key@) {
        } else {
            assert(key_views(all) =~= key_views(keys.keys@).push(key@));
            if key_views(keys.keys@).contains(k) {
                let i = choose|i: int|
                    0 <= i < key_views(keys.keys@).len() && key_views(keys.keys@)[i] == k;
                assert(key_views(all)[i] == k);
            }
            assert(key_views(all)[keys.keys@.len() as int] == key@);
        }
    }
    assert(key_views(all).to_set() =~= keys@.insert(key@));
}

proof fn lemma_kept_are_the_live(
    keys: Seq<NatKey>,
    verdicts: Seq<bool>,
    table: Map<NatKeyView, Option<u64>>,
)
    requires
        verdicts.len() >= keys.len(),
        forall|i: int|
            0 <= i < keys.len() ==> #[trigger] verdicts[i] == table.dom().contains(keys[i]@),
    ensures
        forall|k: NatKeyView| #[trigger]
            key_views(kept(keys, verdicts)).contains(k) <==> key_views(keys).contains(k)
                && table.dom().contains(k),
    decreases keys.len(),
{
    if keys.len() > 0 {
        let front = keys.drop_last();
        lemma_kept_are_the_live(front, verdicts, table);
        let last = keys.last()@;
        assert(key_views(keys) =~= key_views(front).push(last));
        assert(key_views(kept(front, verdicts).push(keys.last())) =~= key_views(
            kept(front, verdicts),
        ).push(last));
        assert forall|s: Seq<NatKeyView>, k: NatKeyView| #[trigger] s.push(last).contains(k)
            <==> s.contains(k) || k == last by {
            if s.contains(k) {
                let i = choose|i: int| 0 <= i < s.len() && s[i] == k;
                assert(s.push(last)[i] == k);
            }
            assert(s.push(last)[s.len() as int] == last);
        }
    }
}

// ── The end of a stream ─────────────────────────────────────────────────────

/// What a stream leaves to the registry.
#[derive(Debug)]
pub struct UdpPark {
    pub session_id: SessionId,
    pub parked: ParkedSsUdpStream,
}

impl UdpSession {
    /// Whether the stream can be parked: it was issued an id, the registry takes
    /// parks, and somebody authenticated on it.
    pub open spec fn can_park(self, registry_enabled: bool) -> bool {
        self.issued_session_id is Some && registry_enabled && self.authenticated_user is Some
    }

    /// The id to reserve before the stream's entries are detached, so that a resume
    /// that comes meanwhile waits for the park.
    pub fn park_reservation(&self, registry_enabled: bool) -> (id: Option<SessionId>)
        ensures
            id == if self.can_park(registry_enabled) {
                self.issued_session_id
            } else {
                None
            },
    {
        if registry_enabled && self.authenticated_user.is_some() {
            self.issued_session_id
        } else {
            None
        }
    }

    /// Lets go of the stream's NAT entries, whether or not it can be parked: the
    /// entries hold on to the carrier's writer otherwise. What is left to park
    /// comes back.
    pub fn release_ss_udp_stream_on_drop(&mut self, registry_enabled: bool, table: &mut NatTable) -> (park:
        Option<UdpPark>)
        requires
            old(self).wf(),
            old(table).wf(),
        ensures
            final(self).wf(),
            final(table).wf(),
            final(self).same_but_scope(*old(self)),
            final(self).pending_resume == old(self).pending_resume,
            final(self).nat_scope == old(self).nat_scope,
            final(self).nat_keys@ == Set::<NatKeyView>::empty(),
            final(self).nat_keys.reconcile_at == NAT_KEYS_RECONCILE_FLOOR,
            final(table)@ == released(
                old(table)@,
                key_views(old(self).nat_keys.keys@),
                old(self).stream_id,
            ),
            ({
                let ours = key_views(old(self).nat_keys.keys@).filter(
                    owned_by(old(table)@, old(self).stream_id),
                );
                &&& park is Some <==> old(self).can_park(registry_enabled) && ours.len() > 0
                &&& park matches Some(park) ==> {
                    &&& park.session_id == old(self).issued_session_id->0
                    &&& park.parked.owner@ == old(self).authenticated_user->0@
                    &&& key_views(park.parked.nat_keys@) == ours
                }
            }),
    {
        let keys = self.nat_keys.take();
        let detached = detach_stream_nat_keys(table, self.stream_id, &keys);
        assert(key_views(detached@).len() == detached@.len());
        if !registry_enabled || detached.len() == 0 {
            return None;
        }
        match (&self.issued_session_id, &self.authenticated_user) {
            (Some(session_id), Some(owner)) => Some(
                UdpPark {
                    session_id: *session_id,
                    parked: ParkedSsUdpStream { nat_keys: detached, owner: owner.clone() },
                },
            ),
            _ => None,
        }
    }
}

// ── Laws ────────────────────────────────────────────────────────────────────

/// Two sessions that differ in user, routing mark or scope share no NAT entry,
/// whatever targets their datagrams name.
pub proof fn law_a_session_names_only_its_own_entries(
    mine: DatagramCtx,
    theirs: DatagramCtx,
    target: Endpoint,
    other: Endpoint,
)
    requires
        mine.user_id@ != theirs.user_id@ || mine.fwmark != theirs.fwmark || scope_view(mine.scope)
            != scope_view(theirs.scope),
    ensures
        mine.key_view(target) != theirs.key_view(other),
{
}

/// A datagram longer than UDP can carry is never sent, and one that is sent went
/// through parsing, resolving and opening first.
pub proof fn law_no_oversized_datagram_is_sent(
    ctx: DatagramCtx,
    len: usize,
    phase: DatagramPhase,
    event: DatagramEvent,
)
    requires
        datagram_accepts(len, phase, event),
        datagram_next(ctx, len, phase, event).1 is Send,
    ensures
        phase is Opening,
        datagram_next(ctx, len, phase, event).1->from == phase->Opening_consumed,
        len - phase->Opening_consumed <= ctx.max_payload,
{
}

/// A node that only relays a session counts nothing for its user.
pub proof fn law_a_relaying_node_counts_nothing_per_user(
    ctx: DatagramCtx,
    len: usize,
    phase: DatagramPhase,
    event: DatagramEvent,
)
    requires
        datagram_accepts(len, phase, event),
        !ctx.accounts_per_user,
    ensures
        match datagram_next(ctx, len, phase, event).1 {
            DatagramAction::Send { count, .. } => !count,
            DatagramAction::DropOversized { request } => request is None,
            DatagramAction::Finish { request } => request is None,
            DatagramAction::Fail { request, .. } => request is None,
            _ => true,
        },
{
}

// ── What relaying a datagram is for ─────────────────────────────────────────

/// A datagram goes to the target it names: the name is resolved, the entry of exactly the
/// address that came of it is opened, and what is sent is exactly what stands behind the
/// target address.
pub proof fn law_a_datagram_goes_to_its_target(
    ctx: DatagramCtx,
    len: usize,
    phase: DatagramPhase,
    event: DatagramEvent,
    target: Endpoint,
    consumed: usize,
    from: usize,
    count: bool,
)
    requires
        datagram_accepts(len, phase, event),
    ensures
        ({
            let (next, action) = datagram_next(ctx, len, phase, event);
            &&& action == DatagramAction::Resolve <==> (event matches DatagramEvent::Parsed(
                TargetParse::Target { .. },
            ))
            &&& next == (DatagramPhase::Resolving { consumed }) <==> event == DatagramEvent::Parsed(
                TargetParse::Target { consumed },
            )
            &&& action == DatagramAction::Open(target) <==> event == DatagramEvent::Resolved(target)
            &&& next == (DatagramPhase::Opening { consumed, target }) <==> event
                == DatagramEvent::Resolved(target) && phase == (DatagramPhase::Resolving { consumed })
            &&& action == (DatagramAction::Send { from, count }) <==> event is Opened && (
            phase matches DatagramPhase::Opening { consumed: at, .. } && at == from && len - at
                <= ctx.max_payload) && count == ctx.accounts_per_user
            &&& next is Sending <==> action is Send
        }),
{
}

/// A datagram falls through only for a cause, which its error names: no target or none
/// that can be read, no address for it, no entry, or a socket that does not send. Only
/// one that was longer than UDP can carry is dropped without an error, and only one that
/// went out is a success. What is counted for a user is counted where the session is
/// terminated: a request that went out or fell through once its entry was there.
pub proof fn law_a_datagram_falls_through_only_for_a_cause(
    ctx: DatagramCtx,
    len: usize,
    phase: DatagramPhase,
    event: DatagramEvent,
    request: Option<RequestResult>,
)
    requires
        datagram_accepts(len, phase, event),
    ensures
        ({
            let (next, action) = datagram_next(ctx, len, phase, event);
            let fails = |error: DatagramError| DatagramAction::Fail { error, request };
            let counts = |result: RequestResult|
                request == if ctx.accounts_per_user {
                    Some(result)
                } else {
                    None
                };
            &&& action == fails(DatagramError::MissingTarget) <==> event == DatagramEvent::Parsed(
                TargetParse::Incomplete,
            ) && request is None
            &&& action == fails(DatagramError::Malformed) <==> event == DatagramEvent::Parsed(
                TargetParse::Malformed,
            ) && request is None
            &&& action == fails(DatagramError::ResolveFailed) <==> event is ResolveFailed && request
                is None
            &&& action == fails(DatagramError::NatFailed) <==> event is OpenFailed && request is None
            &&& action == fails(DatagramError::SendFailed) <==> event is SendFailed && counts(
                RequestResult::Error,
            )
            &&& action == (DatagramAction::Finish { request }) <==> event is Sent && counts(
                RequestResult::Success,
            )
            &&& action == (DatagramAction::DropOversized { request }) <==> event is Opened && (
            phase matches DatagramPhase::Opening { consumed, .. } && len - consumed > ctx.max_payload)
                && counts(RequestResult::Error)
            &&& next == DatagramPhase::Done <==> action is Fail || action is Finish || action
                is DropOversized
        }),
{
}

/// A datagram's run, from end to end: what is sent went through the entry of the address
/// that the resolver gave for the very target that was parsed, and no byte of the payload
/// is left out.
pub proof fn law_a_datagram_is_relayed_whole(
    ctx: DatagramCtx,
    len: usize,
    consumed: usize,
    target: Endpoint,
)
    requires
        consumed <= len,
        len - consumed <= ctx.max_payload,
    ensures
        ({
            let parsed = datagram_next(
                ctx,
                len,
                DatagramPhase::Parsing,
                DatagramEvent::Parsed(TargetParse::Target { consumed }),
            );
            let resolved = datagram_next(ctx, len, parsed.0, DatagramEvent::Resolved(target));
            let opened = datagram_next(ctx, len, resolved.0, DatagramEvent::Opened);
            let sent = datagram_next(ctx, len, opened.0, DatagramEvent::Sent);
            &&& parsed.1 == DatagramAction::Resolve
            &&& resolved.1 == DatagramAction::Open(target)
            &&& resolved.0->target == target
            &&& opened.1 == (DatagramAction::Send { from: consumed, count: ctx.accounts_per_user })
            &&& sent.1 is Finish
        }),
{
}

/// A datagram takes whatever can come of what was last done for it.
pub proof fn law_a_datagram_takes_what_can_happen(
    len: usize,
    consumed: usize,
    target: Endpoint,
    event: DatagramEvent,
)
    ensures
        datagram_accepts(len, DatagramPhase::Parsing, event) <==> event is Parsed && (
        event matches DatagramEvent::Parsed(TargetParse::Target { consumed: at }) ==> at <= len),
        datagram_accepts(len, DatagramPhase::Resolving { consumed }, event) <==> event is Resolved
            || event is ResolveFailed,
        datagram_accepts(len, DatagramPhase::Opening { consumed, target }, event) <==> event is Opened
            || event is OpenFailed,
        datagram_accepts(len, DatagramPhase::Sending, event) <==> event is Sent || event
            is SendFailed,
        !datagram_accepts(len, DatagramPhase::Done, event),
{
}

/// The key a datagram goes out under is made of its session's user, mark and scope and of
/// its own target: two datagrams of one session share an entry exactly where they share
/// the target.
pub proof fn law_a_key_is_the_session_and_the_target(ctx: DatagramCtx, a: Endpoint, b: Endpoint)
    ensures
        ctx.key_view(a).user_id == ctx.user_id@,
        ctx.key_view(a).fwmark == ctx.fwmark,
        ctx.key_view(a).scope is Some <==> ctx.scope is Some,
        ctx.scope matches Some(id) ==> ctx.key_view(a).scope == Some(id@),
        ctx.key_view(a).target == a,
        ctx.key_view(a) == ctx.key_view(b) <==> a == b,
{
}

/// A stream remembers every key it sent under as long as its entry lives, and forgets
/// only keys whose entry is gone: below its mark it forgets nothing, and at its mark it
/// keeps exactly the live ones.
pub proof fn law_a_stream_forgets_only_dead_keys(
    before: StreamNatKeys,
    key: NatKeyView,
    table: Map<NatKeyView, Option<u64>>,
    after: StreamNatKeys,
    other: NatKeyView,
)
    requires
        tracked_key(before, key, table, after),
    ensures
        table.dom().contains(key) ==> after@.contains(key),
        before@.contains(other) && table.dom().contains(other) ==> after@.contains(other),
        after@.contains(other) ==> before@.contains(other) || other == key,
        ({
            let held = before.keys@.len() + if before@.contains(key) {
                0int
            } else {
                1int
            };
            &&& held < before.reconcile_at && before@.contains(other) ==> after@.contains(other)
            &&& held < before.reconcile_at ==> after@.contains(key) && after.reconcile_at
                == before.reconcile_at
            &&& held >= before.reconcile_at && after@.contains(other) ==> table.dom().contains(other)
            &&& held >= before.reconcile_at && after.keys@.len() <= 32 ==> after.reconcile_at == 64
            &&& held >= before.reconcile_at && 32 < after.keys@.len() && 2 * after.keys@.len()
                <= usize::MAX ==> after.reconcile_at == 2 * after.keys@.len()
        }),
{
}

/// A stream can be parked exactly where it has an id, an owner and a registry to go to;
/// and the scope of a park is that of its first key.
pub proof fn law_a_stream_that_can_come_back_is_parked(
    session: UdpSession,
    registry_enabled: bool,
    keys: Seq<NatKeyView>,
)
    ensures
        session.can_park(registry_enabled) <==> registry_enabled && session.issued_session_id is Some
            && session.authenticated_user is Some,
        keys.len() > 0 ==> first_scope(keys) == keys[0].scope,
        keys.len() == 0 ==> first_scope(keys) is None,
        user_view(session.authenticated_user) is Some <==> session.authenticated_user is Some,
        session.authenticated_user matches Some(user) ==> user_view(session.authenticated_user)
            == Some(user@),
{
}

/// Authenticating a datagram touches nothing but who the stream's user is, and settling
/// the scope nothing but the scope, the resume and the keys.
pub proof fn law_a_stream_keeps_the_rest(session: UdpSession, other: UdpSession)
    ensures
        session.same_but_auth(other) ==> {
            &&& session.pending_resume == other.pending_resume
            &&& session.issued_session_id == other.issued_session_id
            &&& session.stream_id == other.stream_id
            &&& session.nat_keys == other.nat_keys
            &&& session.nat_scope == other.nat_scope
        },
        session.same_but_scope(other) ==> {
            &&& session.session_recorded == other.session_recorded
            &&& session.cached_user == other.cached_user
            &&& session.authenticated_user == other.authenticated_user
            &&& session.issued_session_id == other.issued_session_id
            &&& session.stream_id == other.stream_id
        },
{
}

} // verus!
