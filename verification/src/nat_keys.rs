//! NAT keys, the table of entries they name, and the keys one UDP stream owns.

use vstd::prelude::*;
use crate::session::SessionId;

verus! {

/// A socket address.
#[derive(Clone, Copy, Debug, PartialEq, Eq, Structural)]
pub enum Endpoint {
    V4 { ip: u32, port: u16 },
    V6 { ip6: u128, port: u16, flowinfo: u32, scope_id: u32 },
}

/// What a NAT entry is found by: who sends, under which routing mark, in which
/// session, and to whom.
#[derive(Debug)]
pub struct NatKey {
    pub user_id: String,
    pub fwmark: Option<u32>,
    pub scope: Option<SessionId>,
    pub target: Endpoint,
}

pub struct NatKeyView {
    pub user_id: Seq<char>,
    pub fwmark: Option<u32>,
    pub scope: Option<Seq<u8>>,
    pub target: Endpoint,
}

pub open spec fn scope_view(scope: Option<SessionId>) -> Option<Seq<u8>> {
    match scope {
        Some(id) => Some(id@),
        None => None,
    }
}

impl View for NatKey {
    type V = NatKeyView;

    open spec fn view(&self) -> NatKeyView {
        NatKeyView {
            user_id: self.user_id@,
            fwmark: self.fwmark,
            scope: scope_view(self.scope),
            target: self.target,
        }
    }
}

impl Clone for NatKey {
    fn clone(&self) -> (copy: NatKey)
        ensures
            copy@ == self@,
    {
        NatKey {
            user_id: self.user_id.clone(),
            fwmark: self.fwmark,
            scope: self.scope,
            target: self.target,
        }
    }
}

/// Whether two scopes are the same.
pub fn same_scope(a: &Option<SessionId>, b: &Option<SessionId>) -> (same: bool)
    ensures
        same == (scope_view(*a) == scope_view(*b)),
{
    match (a, b) {
        (Some(x), Some(y)) => *x == *y,
        (None, None) => true,
        _ => false,
    }
}

impl NatKey {
    /// Whether two keys name the same entry.
    pub fn same_as(&self, other: &NatKey) -> (same: bool)
        ensures
            same == (self@ == other@),
    {
        self.user_id == other.user_id && self.fwmark == other.fwmark && same_scope(
            &self.scope,
            &other.scope,
        ) && self.target == other.target
    }
}

pub open spec fn key_views(keys: Seq<NatKey>) -> Seq<NatKeyView> {
    keys.map_values(|key: NatKey| key@)
}

// ── The table ───────────────────────────────────────────────────────────────

/// A live NAT entry and the stream its responses go to.
#[derive(Debug)]
pub struct NatEntry {
    pub key: NatKey,
    pub stream: Option<u64>,
}

/// The live NAT entries.
#[derive(Debug)]
pub struct NatTable {
    pub entries: Vec<NatEntry>,
}

pub open spec fn holds_key(entries: Seq<NatEntry>, key: NatKeyView) -> bool {
    exists|i: int| 0 <= i < entries.len() && #[trigger] entries[i].key@ == key
}

pub open spec fn position_of(entries: Seq<NatEntry>, key: NatKeyView) -> int {
    choose|i: int| 0 <= i < entries.len() && #[trigger] entries[i].key@ == key
}

impl View for NatTable {
    type V = Map<NatKeyView, Option<u64>>;

    open spec fn view(&self) -> Map<NatKeyView, Option<u64>> {
        Map::new(
            |key: NatKeyView| holds_key(self.entries@, key),
            |key: NatKeyView| self.entries@[position_of(self.entries@, key)].stream,
        )
    }
}

impl NatTable {
    /// No key has two entries.
    pub open spec fn wf(self) -> bool {
        forall|i: int, j: int|
            0 <= i < j < self.entries@.len() ==> #[trigger] self.entries@[i].key@
                != #[trigger] self.entries@[j].key@
    }

    /// A table without entries.
    pub fn new() -> (table: NatTable)
        ensures
            table.wf(),
            table@ == Map::<NatKeyView, Option<u64>>::empty(),
    {
        let table = NatTable { entries: Vec::new() };
        assert(table@ =~= Map::<NatKeyView, Option<u64>>::empty());
        table
    }

    fn find(&self, key: &NatKey) -> (found: Option<usize>)
        ensures
            found matches Some(i) ==> i < self.entries@.len() && self.entries@[i as int].key@ == key@,
            found is Some <==> self@.dom().contains(key@),
    {
        let mut i: usize = 0;
        while i < self.entries.len()
            invariant
                i <= self.entries@.len(),
                forall|j: int| 0 <= j < i ==> #[trigger] self.entries@[j].key@ != key@,
            decreases self.entries@.len() - i,
        {
            if self.entries[i].key.same_as(key) {
                return Some(i);
            }
            i = i + 1;
        }
        None
    }

    proof fn lemma_value_at(self, i: int)
        requires
            self.wf(),
            0 <= i < self.entries@.len(),
        ensures
            self@.dom().contains(self.entries@[i].key@),
            self@[self.entries@[i].key@] == self.entries@[i].stream,
    {
        let key = self.entries@[i].key@;
        assert(holds_key(self.entries@, key));
        let j = position_of(self.entries@, key);
        assert(self.entries@[j].key@ == key);
    }

    /// Whether the key's entry is live.
    pub fn contains(&self, key: &NatKey) -> (live: bool)
        ensures
            live == self@.dom().contains(key@),
    {
        self.find(key).is_some()
    }

    /// Makes sure that the key has an entry; a new one has no stream yet.
    pub fn get_or_create(&mut self, key: &NatKey) -> (created: bool)
        requires
            old(self).wf(),
        ensures
            final(self).wf(),
            created == !old(self)@.dom().contains(key@),
            !created ==> final(self)@ == old(self)@,
            created ==> final(self)@ == old(self)@.insert(key@, None),
    {
        if self.find(key).is_some() {
            return false;
        }
        let ghost before = *self;
        self.entries.push(NatEntry { key: key.clone(), stream: None });
        proof {
            assert forall|k: NatKeyView| holds_key(self.entries@, k) <==> (holds_key(
                before.entries@,
                k,
            ) || k == key@) by {
                if holds_key(before.entries@, k) {
                    let i = position_of(before.entries@, k);
                    assert(self.entries@[i].key@ == k);
                }
                assert(self.entries@[self.entries@.len() - 1].key@ == key@);
                if holds_key(self.entries@, k) && k != key@ {
                    let i = position_of(self.entries@, k);
                    assert(before.entries@[i].key@ == k);
                }
            }
            assert forall|k: NatKeyView| #[trigger] self@.dom().contains(k) implies self@[k]
                == before@.insert(key@, None)[k] by {
                let i = position_of(self.entries@, k);
                self.lemma_value_at(i);
                if k != key@ {
                    before.lemma_value_at(i);
                }
            }
            assert(self@ =~= before@.insert(key@, None));
        }
        true
    }

    /// Points the key's live entry at a stream; `false` where there is none.
    pub fn register_session(&mut self, key: &NatKey, stream_id: u64) -> (registered: bool)
        requires
            old(self).wf(),
        ensures
            final(self).wf(),
            registered == old(self)@.dom().contains(key@),
            registered ==> final(self)@ == old(self)@.insert(key@, Some(stream_id)),
            !registered ==> final(self)@ == old(self)@,
    {
        match self.find(key) {
            Some(i) => {
                self.set_stream(i, Some(stream_id));
                true
            },
            None => false,
        }
    }

    /// Takes the key's live entry off a stream; `false`, and the entry as it was,
    /// where it is not that stream's.
    pub fn detach_session_for_stream(&mut self, key: &NatKey, stream_id: u64) -> (detached: bool)
        requires
            old(self).wf(),
        ensures
            final(self).wf(),
            detached == (old(self)@.dom().contains(key@) && old(self)@[key@] == Some(stream_id)),
            detached ==> final(self)@ == old(self)@.insert(key@, None),
            !detached ==> final(self)@ == old(self)@,
    {
        match self.find(key) {
            Some(i) => {
                proof {
                    self.lemma_value_at(i as int);
                }
                match self.entries[i].stream {
                    Some(owner) => if owner == stream_id {
                        self.set_stream(i, None);
                        true
                    } else {
                        false
                    },
                    None => false,
                }
            },
            None => false,
        }
    }

    fn set_stream(&mut self, i: usize, stream: Option<u64>)
        requires
            old(self).wf(),
            i < old(self).entries@.len(),
        ensures
            final(self).wf(),
            final(self)@ == old(self)@.insert(old(self).entries@[i as int].key@, stream),
    {
        let ghost before = *self;
        let key = self.entries[i].key.clone();
        self.entries.set(i, NatEntry { key, stream });
        proof {
            assert forall|j: int| 0 <= j < self.entries@.len() implies (#[trigger] self.entries@[j]).key@
                == before.entries@[j].key@ by {}
            assert forall|k: NatKeyView| holds_key(self.entries@, k) <==> holds_key(before.entries@, k) by {
                if holds_key(before.entries@, k) {
                    let j = position_of(before.entries@, k);
                    assert(self.entries@[j].key@ == k);
                }
                if holds_key(self.entries@, k) {
                    let j = position_of(self.entries@, k);
                    assert(before.entries@[j].key@ == k);
                }
            }
            let key = before.entries@[i as int].key@;
            assert forall|k: NatKeyView| #[trigger] self@.dom().contains(k) implies self@[k]
                == before@.insert(key, stream)[k] by {
                let j = position_of(self.entries@, k);
                self.lemma_value_at(j);
                before.lemma_value_at(j);
            }
            before.lemma_value_at(i as int);
            assert(self@ =~= before@.insert(key, stream));
        }
    }
}

// ── Handing a stream's entries on ───────────────────────────────────────────

pub open spec fn live_in(table: Map<NatKeyView, Option<u64>>) -> spec_fn(NatKeyView) -> bool {
    |key: NatKeyView| table.dom().contains(key)
}

pub open spec fn owned_by(table: Map<NatKeyView, Option<u64>>, stream_id: u64) -> spec_fn(
    NatKeyView,
) -> bool {
    |key: NatKeyView| table.dom().contains(key) && table[key] == Some(stream_id)
}

/// The table once a stream has claimed the live ones among `keys`.
pub open spec fn claimed(
    table: Map<NatKeyView, Option<u64>>,
    keys: Seq<NatKeyView>,
    stream_id: u64,
) -> Map<NatKeyView, Option<u64>> {
    Map::new(
        |key: NatKeyView| table.dom().contains(key),
        |key: NatKeyView|
            if keys.contains(key) {
                Some(stream_id)
            } else {
                table[key]
            },
    )
}

/// The table once a stream has let go of those among `keys` that are its own.
pub open spec fn released(
    table: Map<NatKeyView, Option<u64>>,
    keys: Seq<NatKeyView>,
    stream_id: u64,
) -> Map<NatKeyView, Option<u64>> {
    Map::new(
        |key: NatKeyView| table.dom().contains(key),
        |key: NatKeyView|
            if keys.contains(key) && table[key] == Some(stream_id) {
                None
            } else {
                table[key]
            },
    )
}

proof fn lemma_take_next<T>(s: Seq<T>, i: int)
    requires
        0 <= i < s.len(),
    ensures
        s.take(i + 1) == s.take(i).push(s[i]),
{
    assert(s.take(i + 1) =~= s.take(i).push(s[i]));
}

proof fn lemma_contains_push<T>(s: Seq<T>, x: T)
    ensures
        forall|k: T| #[trigger] s.push(x).contains(k) <==> s.contains(k) || k == x,
{
    assert forall|k: T| #[trigger] s.push(x).contains(k) <==> s.contains(k) || k == x by {
        if s.contains(k) {
            let i = choose|i: int| 0 <= i < s.len() && s[i] == k;
            assert(s.push(x)[i] == k);
        }
        assert(s.push(x)[s.len() as int] == x);
    }
}

proof fn lemma_push_keeps_distinct<T>(s: Seq<T>, x: T)
    requires
        s.no_duplicates(),
        !s.contains(x),
    ensures
        s.push(x).no_duplicates(),
{
    assert forall|i: int, j: int| 0 <= i < s.push(x).len() && 0 <= j < s.push(x).len() && i
        != j implies s.push(x)[i] != s.push(x)[j] by {
        if i == s.len() {
            assert(s.contains(s[j]));
        } else if j == s.len() {
            assert(s.contains(s[i]));
        }
    }
}

proof fn lemma_filter_push<T>(s: Seq<T>, x: T, pred: spec_fn(T) -> bool)
    ensures
        s.push(x).filter(pred) == (if pred(x) {
            s.filter(pred).push(x)
        } else {
            s.filter(pred)
        }),
{
    reveal(Seq::filter);
    assert(s.push(x).drop_last() =~= s);
}

proof fn lemma_key_views_push(keys: Seq<NatKey>, key: NatKey)
    ensures
        key_views(keys.push(key)) == key_views(keys).push(key@),
{
    assert(key_views(keys.push(key)) =~= key_views(keys).push(key@));
}

/// Points the live ones among parked keys at the stream that resumes them. The
/// keys that were reattached come back, in order; an evicted one is left out.
pub fn reattach_parked_nat_keys(table: &mut NatTable, keys: &Vec<NatKey>, stream_id: u64) -> (reattached:
    Vec<NatKey>)
    requires
        old(table).wf(),
    ensures
        final(table).wf(),
        key_views(reattached@) == key_views(keys@).filter(live_in(old(table)@)),
        final(table)@ == claimed(old(table)@, key_views(keys@), stream_id),
{
    let ghost start = table@;
    let ghost views = key_views(keys@);
    let mut reattached: Vec<NatKey> = Vec::new();
    let mut i: usize = 0;
    proof {
        reveal(Seq::filter);
        assert(views.take(0) =~= Seq::empty());
        assert(key_views(reattached@) =~= Seq::<NatKeyView>::empty());
        assert(table@ =~= claimed(start, views.take(0), stream_id));
    }
    while i < keys.len()
        invariant
            i <= keys@.len(),
            table.wf(),
            views == key_views(keys@),
            key_views(reattached@) == views.take(i as int).filter(live_in(start)),
            table@ == claimed(start, views.take(i as int), stream_id),
        decreases keys@.len() - i,
    {
        let ghost before = table@;
        let registered = table.register_session(&keys[i], stream_id);
        proof {
            let key = keys@[i as int]@;
            assert(views[i as int] == key);
            lemma_take_next(views, i as int);
            lemma_contains_push(views.take(i as int), key);
            lemma_filter_push(views.take(i as int), key, live_in(start));
            assert(registered == start.dom().contains(key));
            assert(table@ =~= claimed(start, views.take(i + 1), stream_id));
        }
        if registered {
            let key = keys[i].clone();
            proof {
                lemma_key_views_push(reattached@, key);
            }
            reattached.push(key);
        }
        i = i + 1;
    }
    assert(views.take(views.len() as int) =~= views);
    reattached
}

/// Takes a stream off those among its keys that are still its own. They come
/// back, in order; an evicted one and one another stream took over are left out.
pub fn detach_stream_nat_keys(table: &mut NatTable, stream_id: u64, keys: &Vec<NatKey>) -> (detached:
    Vec<NatKey>)
    requires
        old(table).wf(),
        key_views(keys@).no_duplicates(),
    ensures
        final(table).wf(),
        key_views(detached@) == key_views(keys@).filter(owned_by(old(table)@, stream_id)),
        final(table)@ == released(old(table)@, key_views(keys@), stream_id),
{
    let ghost start = table@;
    let ghost views = key_views(keys@);
    let mut detached: Vec<NatKey> = Vec::new();
    let mut i: usize = 0;
    proof {
        reveal(Seq::filter);
        assert(views.take(0) =~= Seq::empty());
        assert(key_views(detached@) =~= Seq::<NatKeyView>::empty());
        assert(table@ =~= released(start, views.take(0), stream_id));
    }
    while i < keys.len()
        invariant
            i <= keys@.len(),
            table.wf(),
            views == key_views(keys@),
            views.no_duplicates(),
            key_views(detached@) == views.take(i as int).filter(owned_by(start, stream_id)),
            table@ == released(start, views.take(i as int), stream_id),
        decreases keys@.len() - i,
    {
        let ghost before = table@;
        let ours = table.detach_session_for_stream(&keys[i], stream_id);
        proof {
            let key = keys@[i as int]@;
            assert(views[i as int] == key);
            assert(!views.take(i as int).contains(key)) by {
                if views.take(i as int).contains(key) {
                    let j = choose|j: int| 0 <= j < i && views.take(i as int)[j] == key;
                    assert(views[j] == views[i as int]);
                }
            }
            lemma_take_next(views, i as int);
            lemma_contains_push(views.take(i as int), key);
            lemma_filter_push(views.take(i as int), key, owned_by(start, stream_id));
            assert(ours == (start.dom().contains(key) && start[key] == Some(stream_id)));
            assert(table@ =~= released(start, views.take(i + 1), stream_id));
        }
        if ours {
            let key = keys[i].clone();
            proof {
                lemma_key_views_push(detached@, key);
            }
            detached.push(key);
        }
        i = i + 1;
    }
    assert(views.take(views.len() as int) =~= views);
    detached
}

// ── The keys of one stream ──────────────────────────────────────────────────

/// The least number of keys at which a stream looks for evicted ones.
pub const NAT_KEYS_RECONCILE_FLOOR: usize = 64;

/// The NAT keys a stream owns. Keys whose entries were evicted are dropped once
/// the set has doubled since the last look, so the set stays in proportion to
/// what is live.
#[derive(Debug)]
pub struct StreamNatKeys {
    pub keys: Vec<NatKey>,
    pub reconcile_at: usize,
}

impl View for StreamNatKeys {
    type V = Set<NatKeyView>;

    open spec fn view(&self) -> Set<NatKeyView> {
        key_views(self.keys@).to_set()
    }
}

/// The keys with `key` among them, at the end where it was not there yet.
pub open spec fn with_key(keys: Seq<NatKey>, key: NatKey) -> Seq<NatKey> {
    if key_views(keys).contains(key@) {
        keys
    } else {
        keys.push(key)
    }
}

/// The keys whose verdict is to stay.
pub open spec fn kept(keys: Seq<NatKey>, verdicts: Seq<bool>) -> Seq<NatKey>
    decreases keys.len(),
{
    if keys.len() == 0 {
        keys
    } else if verdicts[keys.len() - 1] {
        kept(keys.drop_last(), verdicts).push(keys.last())
    } else {
        kept(keys.drop_last(), verdicts)
    }
}

/// The size at which the next look for evicted keys is due.
pub open spec fn next_reconcile(len: nat) -> nat {
    if 2 * len <= NAT_KEYS_RECONCILE_FLOOR {
        NAT_KEYS_RECONCILE_FLOOR as nat
    } else if 2 * len <= usize::MAX {
        2 * len
    } else {
        usize::MAX as nat
    }
}

proof fn lemma_kept_is_part(keys: Seq<NatKey>, verdicts: Seq<bool>)
    requires
        verdicts.len() >= keys.len(),
    ensures
        kept(keys, verdicts).len() <= keys.len(),
        forall|k: NatKeyView| #[trigger]
            key_views(kept(keys, verdicts)).contains(k) ==> key_views(keys).contains(k),
        key_views(keys).no_duplicates() ==> key_views(kept(keys, verdicts)).no_duplicates(),
    decreases keys.len(),
{
    if keys.len() > 0 {
        let front = keys.drop_last();
        lemma_kept_is_part(front, verdicts);
        assert(front.push(keys.last()) =~= keys);
        lemma_key_views_push(front, keys.last());
        lemma_contains_push(key_views(front), keys.last()@);
        lemma_key_views_push(kept(front, verdicts), keys.last());
        lemma_contains_push(key_views(kept(front, verdicts)), keys.last()@);
        if key_views(keys).no_duplicates() {
            assert(key_views(front) =~= key_views(keys).drop_last());
            assert(key_views(front).no_duplicates());
            assert(!key_views(front).contains(keys.last()@)) by {
                if key_views(front).contains(keys.last()@) {
                    let i = choose|i: int|
                        0 <= i < key_views(front).len() && key_views(front)[i] == keys.last()@;
                    assert(key_views(keys)[i] == key_views(keys)[keys.len() - 1]);
                }
            }
            lemma_push_keeps_distinct(key_views(kept(front, verdicts)), keys.last()@);
        }
    }
}

proof fn lemma_kept_extends(keys: Seq<NatKey>, verdicts: Seq<bool>, more: Seq<bool>)
    requires
        verdicts.len() >= keys.len(),
        more.len() >= keys.len(),
        forall|i: int| 0 <= i < keys.len() ==> verdicts[i] == more[i],
    ensures
        kept(keys, verdicts) == kept(keys, more),
    decreases keys.len(),
{
    if keys.len() > 0 {
        lemma_kept_extends(keys.drop_last(), verdicts, more);
    }
}

impl StreamNatKeys {
    /// No key is held twice.
    pub open spec fn wf(self) -> bool {
        key_views(self.keys@).no_duplicates()
    }

    /// No keys.
    pub fn new() -> (keys: StreamNatKeys)
        ensures
            keys.wf(),
            keys.keys@.len() == 0,
            keys@ == Set::<NatKeyView>::empty(),
            keys.reconcile_at == NAT_KEYS_RECONCILE_FLOOR,
    {
        let keys = StreamNatKeys { keys: Vec::new(), reconcile_at: NAT_KEYS_RECONCILE_FLOOR };
        assert(keys@ =~= Set::<NatKeyView>::empty());
        keys
    }

    fn insert(&mut self, key: NatKey)
        requires
            old(self).wf(),
        ensures
            final(self).wf(),
            final(self).keys@ == with_key(old(self).keys@, key),
            final(self)@ == old(self)@.insert(key@),
            final(self).reconcile_at == old(self).reconcile_at,
    {
        let ghost before = *self;
        let mut i: usize = 0;
        while i < self.keys.len()
            invariant
                i <= self.keys@.len(),
                *self == before,
                before.wf(),
                forall|j: int| 0 <= j < i ==> #[trigger] key_views(self.keys@)[j] != key@,
            decreases self.keys@.len() - i,
        {
            if self.keys[i].same_as(&key) {
                assert(key_views(self.keys@)[i as int] == key@);
                assert(self@ =~= before@.insert(key@));
                return;
            }
            i = i + 1;
        }
        proof {
            lemma_key_views_push(before.keys@, key);
            lemma_contains_push(key_views(before.keys@), key@);
            lemma_push_keeps_distinct(key_views(before.keys@), key@);
        }
        self.keys.push(key);
        assert(self@ =~= before@.insert(key@));
    }

    /// Adds a key the stream has sent under. Where the set has grown to its mark,
    /// drops every key that `is_live` disowns and sets the next mark.
    pub fn track<F: Fn(&NatKey) -> bool>(&mut self, key: NatKey, is_live: F)
        requires
            old(self).wf(),
            forall|k: &NatKey| #[trigger] is_live.requires((k,)),
        ensures
            final(self).wf(),
            with_key(old(self).keys@, key).len() < old(self).reconcile_at ==> {
                &&& final(self).keys@ == with_key(old(self).keys@, key)
                &&& final(self).reconcile_at == old(self).reconcile_at
            },
            with_key(old(self).keys@, key).len() >= old(self).reconcile_at ==> {
                &&& exists|verdicts: Seq<bool>| #[trigger]
                    kept(with_key(old(self).keys@, key), verdicts) == final(self).keys@
                        && verdicts.len() == with_key(old(self).keys@, key).len() && (forall|i: int|
                        0 <= i < verdicts.len() ==> is_live.ensures(
                            (&with_key(old(self).keys@, key)[i],),
                            #[trigger] verdicts[i],
                        ))
                &&& final(self).reconcile_at == next_reconcile(final(self).keys@.len())
            },
            final(self).keys@.len() < final(self).reconcile_at || final(self).keys@.len() == usize::MAX,
    {
        self.insert(key);
        let ghost all = self.keys@;
        if self.keys.len() < self.reconcile_at {
            return;
        }
        let mut candidates: Vec<NatKey> = Vec::new();
        std::mem::swap(&mut candidates, &mut self.keys);
        let ghost mut verdicts: Seq<bool> = Seq::empty();
        let mut survivors: Vec<NatKey> = Vec::new();
        for candidate in it: candidates
            invariant
                it.seq() == all,
                verdicts.len() == it.index(),
                survivors@ == kept(all.take(it.index() as int), verdicts),
                forall|k: &NatKey| #[trigger] is_live.requires((k,)),
                forall|i: int|
                    0 <= i < verdicts.len() ==> is_live.ensures((&all[i],), #[trigger] verdicts[i]),
        {
            let ghost at = it.index() as int;
            let ghost seen = verdicts;
            let live = is_live(&candidate);
            proof {
                verdicts = verdicts.push(live);
                assert(all.take(at + 1).drop_last() =~= all.take(at));
                lemma_kept_extends(all.take(at), seen, verdicts);
            }
            if live {
                survivors.push(candidate);
            }
        }
        proof {
            assert(all.take(all.len() as int) =~= all);
            lemma_kept_is_part(all, verdicts);
            assert(kept(all, verdicts) == survivors@);
        }
        let len: usize = survivors.len();
        let doubled: usize = match len.checked_mul(2) {
            Some(doubled) => doubled,
            None => usize::MAX,
        };
        self.keys = survivors;
        self.reconcile_at = if doubled > NAT_KEYS_RECONCILE_FLOOR {
            doubled
        } else {
            NAT_KEYS_RECONCILE_FLOOR
        };
    }

    /// Adds keys without looking for evicted ones.
    pub fn adopt(&mut self, keys: Vec<NatKey>)
        requires
            old(self).wf(),
        ensures
            final(self).wf(),
            final(self)@ == old(self)@.union(key_views(keys@).to_set()),
            final(self).reconcile_at == old(self).reconcile_at,
    {
        let ghost start = self@;
        let ghost views = key_views(keys@);
        assert(self@ =~= start.union(views.take(0).to_set()));
        for key in it: keys
            invariant
                self.wf(),
                it.seq() == keys@,
                views == key_views(keys@),
                self@ == start.union(views.take(it.index() as int).to_set()),
                self.reconcile_at == old(self).reconcile_at,
        {
            let ghost at = it.index() as int;
            proof {
                lemma_take_next(views, at);
                lemma_contains_push(views.take(at), key@);
            }
            self.insert(key);
            assert(self@ =~= start.union(views.take(at + 1).to_set()));
        }
        assert(views.take(views.len() as int) =~= views);
    }

    /// Hands all keys out and starts over.
    pub fn take(&mut self) -> (keys: Vec<NatKey>)
        requires
            old(self).wf(),
        ensures
            final(self).wf(),
            final(self).keys@.len() == 0,
            final(self)@ == Set::<NatKeyView>::empty(),
            final(self).reconcile_at == NAT_KEYS_RECONCILE_FLOOR,
            keys@ == old(self).keys@,
            key_views(keys@).no_duplicates(),
            key_views(keys@).to_set() == old(self)@,
    {
        let mut keys: Vec<NatKey> = Vec::new();
        std::mem::swap(&mut keys, &mut self.keys);
        self.reconcile_at = NAT_KEYS_RECONCILE_FLOOR;
        assert(self@ =~= Set::<NatKeyView>::empty());
        keys
    }

    /// How many keys are held.
    pub fn len(&self) -> (len: usize)
        ensures
            len == self.keys@.len(),
    {
        self.keys.len()
    }
}

// ── Laws ────────────────────────────────────────────────────────────────────

proof fn lemma_filter_all<T>(s: Seq<T>, pred: spec_fn(T) -> bool)
    requires
        forall|i: int| 0 <= i < s.len() ==> pred(#[trigger] s[i]),
    ensures
        s.filter(pred) == s,
    decreases s.len(),
{
    reveal(Seq::filter);
    if s.len() > 0 {
        lemma_filter_all(s.drop_last(), pred);
        assert(s.drop_last().push(s.last()) =~= s);
    }
}

/// A stream that resumed parked keys can hand all of them on again: every key it
/// reattached is its own until another stream claims it.
pub proof fn law_a_resumed_stream_hands_its_keys_on(
    table: Map<NatKeyView, Option<u64>>,
    keys: Seq<NatKeyView>,
    stream_id: u64,
)
    ensures
        keys.filter(live_in(table)).filter(owned_by(claimed(table, keys, stream_id), stream_id))
            == keys.filter(live_in(table)),
{
    let live = keys.filter(live_in(table));
    assert forall|i: int| 0 <= i < live.len() implies (owned_by(
        claimed(table, keys, stream_id),
        stream_id,
    ))(#[trigger] live[i]) by {
        keys.lemma_filter_pred(live_in(table), i);
        assert(live.contains(live[i]));
        keys.lemma_filter_contains_rev(live_in(table), live[i]);
    }
    lemma_filter_all(live, owned_by(claimed(table, keys, stream_id), stream_id));
}

/// A stream whose entries another stream has claimed lets go of none of them: the
/// teardown of a superseded carrier never cuts off its successor.
pub proof fn law_a_superseded_stream_detaches_nothing(
    table: Map<NatKeyView, Option<u64>>,
    keys: Seq<NatKeyView>,
    superseded: u64,
    successor: u64,
)
    requires
        superseded != successor,
    ensures
        released(claimed(table, keys, successor), keys, superseded) == claimed(table, keys, successor),
        keys.filter(owned_by(claimed(table, keys, successor), superseded)).len() == 0,
{
    let after = claimed(table, keys, successor);
    assert(released(after, keys, superseded) =~= after);
    let ours = keys.filter(owned_by(after, superseded));
    if ours.len() > 0 {
        keys.lemma_filter_pred(owned_by(after, superseded), 0);
        assert(ours.contains(ours[0]));
        keys.lemma_filter_contains_rev(owned_by(after, superseded), ours[0]);
        assert(after[ours[0]] == Some(successor));
    }
}

/// Claiming and releasing make no entry and lose none: they only say whose the responses
/// are. A claim makes every live entry among the keys the stream's, whoever had it; a
/// release takes the stream off exactly those among the keys that are still its own; and
/// every other entry keeps the stream it had.
pub proof fn law_a_stream_claims_and_releases_its_own(
    table: Map<NatKeyView, Option<u64>>,
    keys: Seq<NatKeyView>,
    stream_id: u64,
    key: NatKeyView,
)
    ensures
        claimed(table, keys, stream_id).dom().contains(key) <==> table.dom().contains(key),
        released(table, keys, stream_id).dom().contains(key) <==> table.dom().contains(key),
        table.dom().contains(key) ==> {
            &&& keys.contains(key) ==> claimed(table, keys, stream_id)[key] == Some(stream_id)
            &&& !keys.contains(key) ==> claimed(table, keys, stream_id)[key] == table[key]
            &&& keys.contains(key) && table[key] == Some(stream_id) ==> released(
                table,
                keys,
                stream_id,
            )[key] is None
            &&& !(keys.contains(key) && table[key] == Some(stream_id)) ==> released(
                table,
                keys,
                stream_id,
            )[key] == table[key]
        },
        (live_in(table))(key) <==> table.dom().contains(key),
        (owned_by(table, stream_id))(key) <==> table.dom().contains(key) && table[key] == Some(
            stream_id,
        ),
{
}

/// Handing keys from one stream to another and back: what a stream claimed and let go of
/// belongs to nobody, and what its successor then claims is the successor's.
pub proof fn law_keys_pass_from_stream_to_stream(
    table: Map<NatKeyView, Option<u64>>,
    keys: Seq<NatKeyView>,
    first: u64,
    second: u64,
    key: NatKeyView,
)
    requires
        keys.contains(key),
        table.dom().contains(key),
    ensures
        released(claimed(table, keys, first), keys, first)[key] is None,
        claimed(released(claimed(table, keys, first), keys, first), keys, second)[key] == Some(second),
        claimed(claimed(table, keys, first), keys, second)[key] == Some(second),
{
}

/// A key is what all of its parts are: two keys name one entry exactly where user, mark,
/// scope and target agree.
pub proof fn law_a_key_is_all_of_its_parts(a: NatKey, b: NatKey)
    ensures
        a@ == b@ <==> {
            &&& a.user_id@ == b.user_id@
            &&& a.fwmark == b.fwmark
            &&& a.target == b.target
            &&& match (a.scope, b.scope) {
                (Some(x), Some(y)) => x@ == y@,
                (None, None) => true,
                _ => false,
            }
        },
{
}

/// A table's view is its entries: a key is live exactly where an entry has it, and its
/// stream is that entry's.
pub proof fn law_a_table_is_its_entries(table: NatTable, at: int, key: NatKeyView)
    requires
        table.wf(),
        0 <= at < table.entries@.len(),
    ensures
        table@.dom().contains(table.entries@[at].key@),
        table@[table.entries@[at].key@] == table.entries@[at].stream,
        table@.dom().contains(key) ==> exists|i: int|
            0 <= i < table.entries@.len() && #[trigger] table.entries@[i].key@ == key,
{
    table.lemma_value_at(at);
}

/// A stream's list of keys grows by the key it sends under and by nothing else, and not
/// where it has the key already; a look for evicted keys keeps those that are
/// said to live, and as many; and the next look is due at twice what was kept, but not below
/// the floor.
pub proof fn law_a_stream_keeps_what_is_said_to_live(
    keys: Seq<NatKey>,
    key: NatKey,
    verdicts: Seq<bool>,
    at: int,
    len: nat,
)
    requires
        verdicts.len() == keys.len(),
        0 <= at < keys.len(),
    ensures
        key_views(keys).contains(key@) ==> with_key(keys, key) == keys,
        !key_views(keys).contains(key@) ==> with_key(keys, key) == keys.push(key),
        verdicts[at] ==> kept(keys, verdicts).contains(keys[at]),
        kept(keys, verdicts).len() == verdicts.filter(|v: bool| v).len(),
        next_reconcile(len) >= 64,
        2 * len <= usize::MAX ==> next_reconcile(len) == if 2 * len >= 64 {
            2 * len
        } else {
            64
        },
{
    lemma_kept_counts(keys, verdicts);
    if verdicts[at] {
        lemma_kept_holds(keys, verdicts, at);
    }
}

proof fn lemma_kept_counts(keys: Seq<NatKey>, verdicts: Seq<bool>)
    requires
        verdicts.len() == keys.len(),
    ensures
        kept(keys, verdicts).len() == verdicts.filter(|v: bool| v).len(),
    decreases keys.len(),
{
    reveal(Seq::filter);
    if keys.len() > 0 {
        lemma_kept_counts(keys.drop_last(), verdicts.drop_last());
        lemma_kept_extends(keys.drop_last(), verdicts.drop_last(), verdicts);
    }
}

proof fn lemma_kept_holds(keys: Seq<NatKey>, verdicts: Seq<bool>, at: int)
    requires
        verdicts.len() == keys.len(),
        0 <= at < keys.len(),
        verdicts[at],
    ensures
        kept(keys, verdicts).contains(keys[at]),
    decreases keys.len(),
{
    let front = kept(keys.drop_last(), verdicts);
    if at == keys.len() - 1 {
        assert(front.push(keys.last())[front.len() as int] == keys[at]);
    } else {
        lemma_kept_holds(keys.drop_last(), verdicts.drop_last(), at);
        lemma_kept_extends(keys.drop_last(), verdicts.drop_last(), verdicts);
        let i = choose|i: int| 0 <= i < front.len() && front[i] == keys[at];
        assert(front.push(keys.last())[i] == keys[at]);
    }
}

/// A stream's keys are those on its list, and all of them.
pub proof fn law_a_stream_has_the_keys_on_its_list(keys: StreamNatKeys, at: int, key: NatKeyView)
    ensures
        0 <= at < keys.keys@.len() ==> keys@.contains(keys.keys@[at]@),
        keys@.contains(key) ==> exists|i: int|
            0 <= i < keys.keys@.len() && (#[trigger] keys.keys@[i])@ == key,
        key_views(keys.keys@).len() == keys.keys@.len(),
{
    let views = key_views(keys.keys@);
    if 0 <= at < keys.keys@.len() {
        assert(views[at] == keys.keys@[at]@);
        assert(views.contains(views[at]));
    }
    if keys@.contains(key) {
        assert(views.contains(key));
        let i = choose|i: int| 0 <= i < views.len() && views[i] == key;
        assert(keys.keys@[i]@ == key);
    }
}

} // verus!
