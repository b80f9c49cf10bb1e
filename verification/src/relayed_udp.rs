//! A relayed Shadowsocks UDP session on its home: the identity its park names, the
//! entries it reattaches, and what it hands on.

use vstd::prelude::*;
use crate::nat_keys::{
    claimed, detach_stream_nat_keys, key_views, live_in, owned_by, reattach_parked_nat_keys, released,
    same_scope, scope_view, NatKey, NatKeyView, NatTable, StreamNatKeys, NAT_KEYS_RECONCILE_FLOOR,
};
use crate::session::SessionId;
use crate::udp_session::ParkedSsUdpStream;

verus! {

/// The identity a relayed session sends under. The home takes it from the park,
/// for the user the edge attests; nothing in a datagram can change it.
#[derive(Debug)]
pub struct RelayedUdpIdentity {
    pub user_id: String,
    pub fwmark: Option<u32>,
    pub scope: Option<SessionId>,
}

pub struct IdentityView {
    pub user_id: Seq<char>,
    pub fwmark: Option<u32>,
    pub scope: Option<Seq<u8>>,
}

impl View for RelayedUdpIdentity {
    type V = IdentityView;

    open spec fn view(&self) -> IdentityView {
        IdentityView {
            user_id: self.user_id@,
            fwmark: self.fwmark,
            scope: scope_view(self.scope),
        }
    }
}

/// The identity a key belongs to.
pub open spec fn identity_of(key: NatKeyView) -> IdentityView {
    IdentityView { user_id: key.user_id, fwmark: key.fwmark, scope: key.scope }
}

pub open spec fn belongs_to(identity: IdentityView) -> spec_fn(NatKeyView) -> bool {
    |key: NatKeyView| identity_of(key) == identity
}

/// Whether `at` is the first of the keys that belongs to the user.
pub open spec fn first_of_user(keys: Seq<NatKeyView>, user: Seq<char>, at: int) -> bool {
    &&& 0 <= at < keys.len()
    &&& keys[at].user_id == user
    &&& forall|i: int| 0 <= i < at ==> #[trigger] keys[i].user_id != user
}

/// Whether the user owns a key among these.
pub open spec fn user_owns_one(keys: Seq<NatKeyView>, user: Seq<char>) -> bool {
    exists|i: int| 0 <= i < keys.len() && #[trigger] keys[i].user_id == user
}

impl RelayedUdpIdentity {
    /// Whether the key belongs to this identity.
    pub fn owns(&self, key: &NatKey) -> (owned: bool)
        ensures
            owned == (belongs_to(self@))(key@),
    {
        key.user_id == self.user_id && key.fwmark == self.fwmark && same_scope(
            &key.scope,
            &self.scope,
        )
    }

    /// The identity a park gives the attested user: that of the user's first key.
    /// With it come the keys that belong to it, in order, and the number that do
    /// not. A park with no key of the user names no identity.
    pub fn from_park(parked: &ParkedSsUdpStream, user: &String) -> (found: Option<
        (RelayedUdpIdentity, Vec<NatKey>, usize),
    >)
        ensures
            found is Some <==> user_owns_one(key_views(parked.nat_keys@), user@),
            found matches Some((identity, owned, foreign)) ==> {
                let keys = key_views(parked.nat_keys@);
                &&& exists|at: int| #[trigger]
                    first_of_user(keys, user@, at) && identity@ == identity_of(keys[at])
                &&& key_views(owned@) == keys.filter(belongs_to(identity@))
                &&& foreign == keys.len() - owned@.len()
            },
    {
        let ghost views = key_views(parked.nat_keys@);
        let mut at: usize = 0;
        while at < parked.nat_keys.len()
            invariant
                at <= parked.nat_keys@.len(),
                views == key_views(parked.nat_keys@),
                forall|i: int| 0 <= i < at ==> #[trigger] views[i].user_id != user@,
            decreases parked.nat_keys@.len() - at,
        {
            let template = &parked.nat_keys[at];
            if template.user_id == *user {
                let identity = RelayedUdpIdentity {
                    user_id: template.user_id.clone(),
                    fwmark: template.fwmark,
                    scope: template.scope,
                };
                assert(views[at as int] == template@);
                assert(identity@ == identity_of(views[at as int]));
                assert(first_of_user(views, user@, at as int));
                let owned = identity.select(&parked.nat_keys);
                assert(key_views(owned@).len() == owned@.len());
                proof {
                    views.lemma_filter_len(belongs_to(identity@));
                }
                let foreign: usize = parked.nat_keys.len() - owned.len();
                return Some((identity, owned, foreign));
            }
            assert(views[at as int] == template@);
            at = at + 1;
        }
        None
    }

    fn select(&self, keys: &Vec<NatKey>) -> (owned: Vec<NatKey>)
        ensures
            key_views(owned@) == key_views(keys@).filter(belongs_to(self@)),
    {
        let ghost views = key_views(keys@);
        let mut owned: Vec<NatKey> = Vec::new();
        let mut i: usize = 0;
        proof {
            reveal(Seq::filter);
            assert(views.take(0) =~= Seq::empty());
            assert(key_views(owned@) =~= Seq::<NatKeyView>::empty());
        }
        while i < keys.len()
            invariant
                i <= keys@.len(),
                views == key_views(keys@),
                key_views(owned@) == views.take(i as int).filter(belongs_to(self@)),
            decreases keys@.len() - i,
        {
            let ours = self.owns(&keys[i]);
            proof {
                reveal(Seq::filter);
                assert(views[i as int] == keys@[i as int]@);
                assert(views.take(i + 1).drop_last() =~= views.take(i as int));
            }
            if ours {
                let key = keys[i].clone();
                let ghost before = owned@;
                owned.push(key);
                assert(key_views(owned@) =~= key_views(before).push(key@));
            }
            i = i + 1;
        }
        assert(views.take(views.len() as int) =~= views);
        owned
    }
}

/// A relayed session that is under way.
#[derive(Debug)]
pub struct RelayedUdp {
    pub identity: RelayedUdpIdentity,
    pub keys: StreamNatKeys,
    /// How many parked keys belong to somebody else and were left alone.
    pub foreign: usize,
}

/// Starts a relayed session: points the attested user's own parked entries at its
/// stream. `None`, and nothing touched, where the park holds no key of the user.
pub fn begin_relayed_udp(
    parked: &ParkedSsUdpStream,
    user: &String,
    table: &mut NatTable,
    stream_id: u64,
) -> (begun: Option<RelayedUdp>)
    requires
        old(table).wf(),
    ensures
        final(table).wf(),
        begun is Some <==> user_owns_one(key_views(parked.nat_keys@), user@),
        begun is None ==> *final(table) == *old(table),
        begun matches Some(relayed) ==> {
            let keys = key_views(parked.nat_keys@);
            let owned = keys.filter(belongs_to(relayed.identity@));
            &&& relayed.keys.wf()
            &&& relayed.keys.reconcile_at == NAT_KEYS_RECONCILE_FLOOR
            &&& exists|at: int| #[trigger]
                first_of_user(keys, user@, at) && relayed.identity@ == identity_of(keys[at])
            &&& relayed.foreign == keys.len() - owned.len()
            &&& relayed.keys@ == owned.filter(live_in(old(table)@)).to_set()
            &&& final(table)@ == claimed(old(table)@, owned, stream_id)
        },
{
    match RelayedUdpIdentity::from_park(parked, user) {
        Some((identity, owned, foreign)) => {
            assert(key_views(owned@).len() == owned@.len());
            let reattached = reattach_parked_nat_keys(table, &owned, stream_id);
            let ghost views = key_views(reattached@);
            let mut keys = StreamNatKeys::new();
            keys.adopt(reattached);
            assert(keys@ =~= views.to_set());
            Some(RelayedUdp { identity, keys, foreign })
        },
        None => None,
    }
}

/// Ends a relayed session: takes its stream off the entries that are still its
/// own. They come back, for the park or to be forgotten.
pub fn release_relayed_udp(keys: &mut StreamNatKeys, table: &mut NatTable, stream_id: u64) -> (detached:
    Vec<NatKey>)
    requires
        old(keys).wf(),
        old(table).wf(),
    ensures
        final(keys).wf(),
        final(table).wf(),
        final(keys)@ == Set::<NatKeyView>::empty(),
        final(keys).reconcile_at == NAT_KEYS_RECONCILE_FLOOR,
        key_views(detached@) == key_views(old(keys).keys@).filter(owned_by(old(table)@, stream_id)),
        final(table)@ == released(old(table)@, key_views(old(keys).keys@), stream_id),
{
    let taken = keys.take();
    detach_stream_nat_keys(table, stream_id, &taken)
}

// ── Laws ────────────────────────────────────────────────────────────────────

/// A relayed session touches no entry of another user or scope: an entry whose key
/// does not belong to its identity keeps the stream it had.
pub proof fn law_a_relayed_session_never_takes_a_foreign_entry(
    table: Map<NatKeyView, Option<u64>>,
    parked: Seq<NatKeyView>,
    identity: IdentityView,
    stream_id: u64,
    key: NatKeyView,
)
    requires
        table.dom().contains(key),
        identity_of(key) != identity,
    ensures
        claimed(table, parked.filter(belongs_to(identity)), stream_id)[key] == table[key],
{
    let owned = parked.filter(belongs_to(identity));
    if owned.contains(key) {
        let i = choose|i: int| 0 <= i < owned.len() && owned[i] == key;
        parked.lemma_filter_pred(belongs_to(identity), i);
    }
}

/// The key a relayed session sends a new target's datagram under belongs to it, so
/// it can be reattached by the next carrier.
pub proof fn law_a_new_target_stays_with_the_session(identity: IdentityView, key: NatKeyView)
    requires
        key.user_id == identity.user_id,
        key.fwmark == identity.fwmark,
        key.scope == identity.scope,
    ensures
        (belongs_to(identity))(key),
{
}

/// The identity of a relayed session is the attested user's own: a key is the session's
/// exactly where user, mark and scope are, whatever its target. A park gives the user an
/// identity exactly where one of its keys is the user's, and then that of the first.
pub proof fn law_a_relayed_identity_is_the_users_own(
    identity: IdentityView,
    key: NatKeyView,
    keys: Seq<NatKeyView>,
    user: Seq<char>,
    at: int,
    earlier: int,
)
    ensures
        (belongs_to(identity))(key) <==> key.user_id == identity.user_id && key.fwmark
            == identity.fwmark && key.scope == identity.scope,
        identity_of(key).user_id == key.user_id,
        identity_of(key).fwmark == key.fwmark,
        identity_of(key).scope == key.scope,
        0 <= at < keys.len() && keys[at].user_id == user ==> user_owns_one(keys, user),
        user_owns_one(keys, user) ==> exists|i: int|
            0 <= i < keys.len() && #[trigger] keys[i].user_id == user,
        first_of_user(keys, user, at) ==> 0 <= at < keys.len() && keys[at].user_id == user,
        first_of_user(keys, user, at) && 0 <= earlier < keys.len() && keys[earlier].user_id == user
            ==> at <= earlier,
{
}

/// An identity is seen for all that it is.
pub proof fn law_an_identity_is_all_of_its_parts(identity: RelayedUdpIdentity)
    ensures
        identity@.user_id == identity.user_id@,
        identity@.fwmark == identity.fwmark,
        identity.scope matches Some(id) ==> identity@.scope == Some(id@),
        identity.scope is None ==> identity@.scope is None,
{
}

} // verus!
