//! The roster engine over an in-memory store: at most one roster per
//! identity, idempotent membership changes, announcement tracking, and the
//! per-community permission sets.
use vstd::prelude::*;
use crate::alert_connector::{announcement_added, lemma_set_ops_keep_unique, set_insert, set_remove, AlertConnector};
use crate::bucket::Bucket;
use crate::text::str_eq;
use crate::war_message::WarMessage;

verus! {

/// The descriptive fields of a roster that is created on first announcement.
pub struct AlertSeed {
    pub date: String,
    pub time: String,
    pub server: String,
    pub faction: String,
    pub territory: String,
    pub title: String,
    pub kind: u8,
}

/// Why a store operation did nothing.
#[derive(Clone, Copy, PartialEq, Eq, Structural, Debug)]
pub enum StoreError {
    /// No roster has the identity asked for.
    NotFound,
}

/// Rosters keyed by their identity text, and the roles that may manage
/// alerts in each community, as (community, role) pairs.
pub struct RosterStore {
    pub rosters: Vec<AlertConnector>,
    pub permissions: Vec<(u64, u64)>,
}

/// Roster `i` of `rs` has identity `code`.
pub open spec fn has_code(rs: Seq<AlertConnector>, code: Seq<char>, i: int) -> bool {
    0 <= i < rs.len() && rs[i].code@ == code
}

/// No two rosters share an identity.
pub open spec fn codes_unique(rs: Seq<AlertConnector>) -> bool {
    forall|i: int, j: int|
        0 <= i < rs.len() && 0 <= j < rs.len() && i != j ==> #[trigger] rs[i].code@ != #[trigger] rs[j].code@
}

/// Identities are unique, and no bucket of any roster lists a member twice.
pub open spec fn store_wf(rs: Seq<AlertConnector>) -> bool {
    &&& codes_unique(rs)
    &&& forall|i: int| 0 <= i < rs.len() ==> (#[trigger] rs[i]).buckets_unique()
}

/// `r` is a fresh roster made from `seed`, announced by `wm` alone.
pub open spec fn seeded(r: AlertConnector, code: Seq<char>, seed: AlertSeed, wm: WarMessage) -> bool {
    &&& r.code@ == code
    &&& r.date@ == seed.date@
    &&& r.time@ == seed.time@
    &&& r.server@ == seed.server@
    &&& r.faction@ == seed.faction@
    &&& r.territory@ == seed.territory@
    &&& r.title@ == seed.title@
    &&& r.kind == seed.kind
    &&& forall|b: Bucket| (#[trigger] r.bucket_spec(b)).len() == 0
    &&& r.war_messages@ == seq![wm]
}

/// `new` is `old` after announcement `wm` was ensured for identity `code`.
pub open spec fn ensured(
    old: Seq<AlertConnector>,
    new: Seq<AlertConnector>,
    code: Seq<char>,
    wm: WarMessage,
    seed: AlertSeed,
) -> bool {
    if exists|i: int| has_code(old, code, i) {
        let i = choose|i: int| has_code(old, code, i);
        &&& new.len() == old.len()
        &&& announcement_added(old[i], new[i], wm)
        &&& forall|j: int| 0 <= j < old.len() && j != i ==> new[j] == old[j]
    } else {
        &&& new.len() == old.len() + 1
        &&& forall|j: int| 0 <= j < old.len() ==> new[j] == old[j]
        &&& seeded(new[old.len() as int], code, seed, wm)
    }
}

/// `new` is `old` after a membership change of roster `i`.
pub open spec fn membership_set(
    old: AlertConnector,
    new: AlertConnector,
    b: Bucket,
    user_id: u64,
    present: bool,
) -> bool {
    &&& new.bucket_spec(b) == if present {
        set_insert(old.bucket_spec(b), user_id)
    } else {
        set_remove(old.bucket_spec(b), user_id)
    }
    &&& forall|c: Bucket| c != b ==> #[trigger] new.bucket_spec(c) == old.bucket_spec(c)
    &&& new.same_header(&old)
    &&& new.war_messages@ == old.war_messages@
}

/// Whether a role in `roles` is granted in `guild_id` by the pairs `perms`.
pub open spec fn permits(perms: Seq<(u64, u64)>, guild_id: u64, roles: Seq<u64>) -> bool {
    exists|k: int| 0 <= k < roles.len() && perms.contains((guild_id, #[trigger] roles[k]))
}

/// Whether some role in `roles` is among the `granted` ones.
pub fn any_role_granted(granted: &Vec<u64>, roles: &Vec<u64>) -> (r: bool)
    ensures
        r == exists|k: int| 0 <= k < roles@.len() && granted@.contains(#[trigger] roles@[k]),
{
    let mut k: usize = 0;
    while k < roles.len()
        invariant
            k <= roles@.len(),
            forall|j: int| 0 <= j < k ==> !granted@.contains(#[trigger] roles@[j]),
        decreases roles@.len() - k,
    {
        let mut i: usize = 0;
        while i < granted.len()
            invariant
                i <= granted@.len(),
                k < roles@.len(),
                forall|j: int| 0 <= j < i ==> granted@[j] != roles@[k as int],
            decreases granted@.len() - i,
        {
            if granted[i] == roles[k] {
                assert(granted@.contains(roles@[k as int]));
                return true;
            }
            i = i + 1;
        }
        k = k + 1;
    }
    false
}

/// The predicate that holds of a roster that lists `user_id` in any bucket.
pub open spec fn member_of(user_id: u64) -> spec_fn(AlertConnector) -> bool {
    |a: AlertConnector| a.is_member(user_id)
}

/// The rosters that list `user_id` in any of their buckets, in store order:
/// those whose announcements show the user's profile.
pub fn rosters_containing_user(all: Vec<AlertConnector>, user_id: u64) -> (r: Vec<AlertConnector>)
    ensures
        r@ == all@.filter(member_of(user_id)),
{
    let ghost f = member_of(user_id);
    let mut r: Vec<AlertConnector> = Vec::new();
    let mut rest = all;
    let ghost whole = rest@;
    let mut taken: Vec<AlertConnector> = Vec::new();
    // walk the rosters from the back, then restore store order
    while rest.len() > 0
        invariant
            whole == rest@ + taken@.reverse(),
        decreases rest@.len(),
    {
        let a = rest.pop().unwrap();
        proof {
            assert(taken@.push(a).reverse() =~= seq![a] + taken@.reverse());
        }
        taken.push(a);
        assert(whole =~= rest@ + taken@.reverse());
    }
    assert(whole =~= taken@.reverse());
    let ghost consumed: Seq<AlertConnector> = Seq::empty();
    while taken.len() > 0
        invariant
            whole == consumed + taken@.reverse(),
            f == member_of(user_id),
            r@ == consumed.filter(f),
        decreases taken@.len(),
    {
        let a = taken.pop().unwrap();
        proof {
            consumed.lemma_filter_push(a, f);
            consumed = consumed.push(a);
        }
        if a.has_member(user_id) {
            r.push(a);
        }
        assert(whole =~= consumed + taken@.reverse());
    }
    assert(consumed =~= whole);
    r
}

impl RosterStore {
    /// The store invariant: identities are unique and no bucket lists a
    /// member twice.
    pub open spec fn wf(&self) -> bool {
        store_wf(self.rosters@)
    }

    /// Whether a role of `roles` may manage alerts in `guild_id`.
    pub open spec fn permits_spec(&self, guild_id: u64, roles: Seq<u64>) -> bool {
        permits(self.permissions@, guild_id, roles)
    }

    /// An empty store.
    pub fn new() -> (r: Self)
        ensures
            r.wf(),
            r.rosters@.len() == 0,
            r.permissions@.len() == 0,
    {
        RosterStore { rosters: Vec::new(), permissions: Vec::new() }
    }

    /// Position of the roster with identity `code`.
    pub fn find(&self, code: &str) -> (r: Option<usize>)
        ensures
            r matches Some(i) ==> has_code(self.rosters@, code@, i as int),
            r is None ==> !exists|i: int| has_code(self.rosters@, code@, i),
    {
        let mut i: usize = 0;
        while i < self.rosters.len()
            invariant
                i <= self.rosters@.len(),
                forall|j: int| 0 <= j < i ==> !has_code(self.rosters@, code@, j),
            decreases self.rosters@.len() - i,
        {
            if str_eq(self.rosters[i].code.as_str(), code) {
                return Some(i);
            }
            i = i + 1;
        }
        None
    }

    /// The roster with identity `code`, if there is one.
    pub fn get(&self, code: &str) -> (r: Option<&AlertConnector>)
        ensures
            r matches Some(a) ==> exists|i: int| has_code(self.rosters@, code@, i) && self.rosters@[i] == *a,
            r is None ==> !exists|i: int| has_code(self.rosters@, code@, i),
    {
        match self.find(code) {
            Some(i) => Some(&self.rosters[i]),
            None => None,
        }
    }

    /// Records announcement `wm` for identity `code`: on the existing roster if
    /// there is one, else on a new roster made from `seed`.
    pub fn ensure_announcement(&mut self, code: &str, wm: WarMessage, seed: &AlertSeed)
        requires
            old(self).wf(),
        ensures
            final(self).wf(),
            ensured(old(self).rosters@, final(self).rosters@, code@, wm, *seed),
            final(self).permissions@ == old(self).permissions@,
    {
        match self.find(code) {
            Some(i) => {
                self.rosters[i].add_war_message(wm);
                proof {
                    lemma_unique_index(old(self).rosters@, code@, i as int);
                    lemma_ensured_keeps_wf(old(self).rosters@, self.rosters@, code@, wm, *seed);
                }
            },
            None => {
                let r = AlertConnector::create(
                    code,
                    seed.date.as_str(),
                    seed.time.as_str(),
                    seed.server.as_str(),
                    seed.faction.as_str(),
                    seed.territory.as_str(),
                    seed.title.as_str(),
                    seed.kind,
                    wm,
                );
                self.rosters.push(r);
                proof {
                    lemma_ensured_keeps_wf(old(self).rosters@, self.rosters@, code@, wm, *seed);
                }
            },
        }
    }

    /// Puts `user_id` into (or, when not `present`, takes it out of) bucket `b`
    /// of the roster with identity `code`.
    pub fn set_membership(&mut self, code: &str, b: Bucket, user_id: u64, present: bool) -> (r: Result<(), StoreError>)
        requires
            old(self).wf(),
        ensures
            final(self).wf(),
            final(self).permissions@ == old(self).permissions@,
            r is Err <==> !exists|i: int| has_code(old(self).rosters@, code@, i),
            r is Err ==> final(self).rosters@ == old(self).rosters@,
            r is Ok ==> final(self).rosters@.len() == old(self).rosters@.len() && forall|i: int|
                0 <= i < old(self).rosters@.len() ==> if has_code(old(self).rosters@, code@, i) {
                    membership_set(old(self).rosters@[i], #[trigger] final(self).rosters@[i], b, user_id, present)
                } else {
                    final(self).rosters@[i] == old(self).rosters@[i]
                },
    {
        match self.find(code) {
            Some(i) => {
                self.rosters[i].set_membership(b, user_id, present);
                proof {
                    lemma_unique_index(old(self).rosters@, code@, i as int);
                    lemma_membership_keeps_wf(old(self).rosters@, self.rosters@, code@, b, user_id, present);
                }
                Ok(())
            },
            None => Err(StoreError::NotFound),
        }
    }

    /// Grants (when `present`) or withdraws the right of `role_id` to manage
    /// alerts in `guild_id`.
    pub fn set_permission(&mut self, guild_id: u64, role_id: u64, present: bool)
        ensures
            final(self).rosters@ == old(self).rosters@,
            forall|p: (u64, u64)|
                #[trigger] final(self).permissions@.contains(p) == if p == (guild_id, role_id) {
                    present
                } else {
                    old(self).permissions@.contains(p)
                },
    {
        let p = (guild_id, role_id);
        if present {
            let mut i: usize = 0;
            while i < self.permissions.len()
                invariant
                    i <= self.permissions@.len(),
                    self.permissions@ == old(self).permissions@,
                    self.rosters@ == old(self).rosters@,
                    p == (guild_id, role_id),
                    present,
                    forall|j: int| 0 <= j < i ==> self.permissions@[j] != p,
                decreases self.permissions@.len() - i,
            {
                let q = self.permissions[i];
                if q.0 == guild_id && q.1 == role_id {
                    assert(self.permissions@[i as int] == q);
                    assert(q == p);
                    assert(self.permissions@.contains(p));
                    return;
                }
                i = i + 1;
            }
            self.permissions.push(p);
            assert forall|q: (u64, u64)| #[trigger] self.permissions@.contains(q) == if q == p {
                true
            } else {
                old(self).permissions@.contains(q)
            } by {
                if q != p && self.permissions@.contains(q) {
                    let j = choose|j: int| 0 <= j < self.permissions@.len() && self.permissions@[j] == q;
                    assert(old(self).permissions@[j] == q);
                }
                if q == p {
                    assert(self.permissions@[old(self).permissions@.len() as int] == p);
                }
                if q != p && old(self).permissions@.contains(q) {
                    let j = choose|j: int| 0 <= j < old(self).permissions@.len() && old(self).permissions@[j] == q;
                    assert(self.permissions@[j] == q);
                }
            }
        } else {
            let mut kept: Vec<(u64, u64)> = Vec::new();
            let mut i: usize = 0;
            while i < self.permissions.len()
                invariant
                    i <= self.permissions@.len(),
                    self.permissions@ == old(self).permissions@,
                    self.rosters@ == old(self).rosters@,
                    p == (guild_id, role_id),
                    forall|q: (u64, u64)|
                        #[trigger] kept@.contains(q) <==> (q != p && exists|j: int|
                            0 <= j < i && self.permissions@[j] == q),
                decreases self.permissions@.len() - i,
            {
                let q = self.permissions[i];
                let ghost before = kept@;
                if !(q.0 == guild_id && q.1 == role_id) {
                    kept.push(q);
                }
                assert forall|x: (u64, u64)|
                    #[trigger] kept@.contains(x) <==> (x != p && exists|j: int|
                        0 <= j < i + 1 && self.permissions@[j] == x) by {
                    if kept@.contains(x) && !before.contains(x) {
                        assert(x == q);
                        assert(self.permissions@[i as int] == x);
                    }
                    if x != p && exists|j: int| 0 <= j < i + 1 && self.permissions@[j] == x {
                        let j = choose|j: int| 0 <= j < i + 1 && self.permissions@[j] == x;
                        if j == i {
                            assert(kept@[kept@.len() - 1] == x);
                        } else {
                            assert(before.contains(x));
                            let m = choose|m: int| 0 <= m < before.len() && before[m] == x;
                            assert(kept@[m] == x);
                        }
                    }
                }
                i = i + 1;
            }
            self.permissions = kept;
        }
    }

    /// Whether some role of `roles` may manage alerts in `guild_id`.
    pub fn has_permission(&self, guild_id: u64, roles: &Vec<u64>) -> (r: bool)
        ensures
            r == self.permits_spec(guild_id, roles@),
    {
        let mut k: usize = 0;
        while k < roles.len()
            invariant
                k <= roles@.len(),
                forall|j: int| 0 <= j < k ==> !self.permissions@.contains((guild_id, #[trigger] roles@[j])),
            decreases roles@.len() - k,
        {
            let mut i: usize = 0;
            while i < self.permissions.len()
                invariant
                    i <= self.permissions@.len(),
                    k < roles@.len(),
                    forall|j: int| 0 <= j < i ==> self.permissions@[j] != (guild_id, roles@[k as int]),
                decreases self.permissions@.len() - i,
            {
                let q = self.permissions[i];
                if q.0 == guild_id && q.1 == roles[k] {
                    assert(self.permissions@[i as int] == q);
                    assert(q == (guild_id, roles@[k as int]));
                    return true;
                }
                i = i + 1;
            }
            k = k + 1;
        }
        false
    }
}

proof fn lemma_filter_keeps_all(s: Seq<u64>, pred: spec_fn(u64) -> bool)
    requires
        forall|i: int| 0 <= i < s.len() ==> pred(#[trigger] s[i]),
    ensures
        s.filter(pred) == s,
    decreases s.len(),
{
    if s.len() > 0 {
        let init = s.drop_last();
        lemma_filter_keeps_all(init, pred);
        init.lemma_filter_push(s.last(), pred);
        assert(init.push(s.last()) == s);
    } else {
        assert(s.filter(pred) =~= s) by {
            reveal(Seq::filter);
        }
    }
}

/// Adding a member twice leaves a bucket as adding it once, removing twice
/// as removing once, and removing an absent member changes nothing.
pub proof fn lemma_membership_idempotent(s: Seq<u64>, x: u64)
    ensures
        set_insert(set_insert(s, x), x) == set_insert(s, x),
        set_remove(set_remove(s, x), x) == set_remove(s, x),
        !s.contains(x) ==> set_remove(s, x) == s,
{
    if !s.contains(x) {
        assert(s.push(x)[s.len() as int] == x);
        lemma_filter_keeps_all(s, crate::alert_connector::other_than(x));
    } else {
        assert(set_insert(s, x) == s);
    }
    let r = set_remove(s, x);
    assert forall|i: int| 0 <= i < r.len() implies (crate::alert_connector::other_than(x))(#[trigger] r[i]) by {
        s.lemma_filter_pred(crate::alert_connector::other_than(x), i);
    }
    lemma_filter_keeps_all(r, crate::alert_connector::other_than(x));
}

/// Applying the same membership change to a roster twice gives the roster
/// that applying it once gives, bucket for bucket. When buckets hold no
/// duplicates, an added member is then listed exactly once and the bucket, as
/// a set, is the old one with the member added.
pub proof fn lemma_set_membership_twice(
    a0: AlertConnector,
    a1: AlertConnector,
    a2: AlertConnector,
    b: Bucket,
    user_id: u64,
    present: bool,
)
    requires
        membership_set(a0, a1, b, user_id, present),
        membership_set(a1, a2, b, user_id, present),
    ensures
        forall|c: Bucket| #[trigger] a2.bucket_spec(c) == a1.bucket_spec(c),
        a2.same_header(&a1),
        a2.war_messages@ == a1.war_messages@,
        a0.buckets_unique() && present ==> a2.bucket_spec(b).no_duplicates() && a2.bucket_spec(
            b,
        ).contains(user_id) && a2.bucket_spec(b).to_set() == a0.bucket_spec(b).to_set().insert(
            user_id,
        ),
{
    let s = a0.bucket_spec(b);
    lemma_membership_idempotent(s, user_id);
    if a0.buckets_unique() && present {
        assert(s.no_duplicates());
        lemma_set_ops_keep_unique(s, user_id);
        if s.contains(user_id) {
            assert(s.to_set().insert(user_id) =~= s.to_set());
        } else {
            s.lemma_push_to_set_commute(user_id);
        }
    }
}

/// Removing a member that a bucket does not hold changes no bucket.
pub proof fn lemma_remove_absent_member(a0: AlertConnector, a1: AlertConnector, b: Bucket, user_id: u64)
    requires
        !a0.bucket_spec(b).contains(user_id),
        membership_set(a0, a1, b, user_id, false),
    ensures
        forall|c: Bucket| #[trigger] a1.bucket_spec(c) == a0.bucket_spec(c),
{
    lemma_membership_idempotent(a0.bucket_spec(b), user_id);
}

/// With unique identities, the roster with identity `code` sits at one index only.
pub proof fn lemma_unique_index(rs: Seq<AlertConnector>, code: Seq<char>, i: int)
    requires
        codes_unique(rs),
        has_code(rs, code, i),
    ensures
        forall|j: int| has_code(rs, code, j) ==> j == i,
        (choose|j: int| has_code(rs, code, j)) == i,
{
    assert forall|j: int| has_code(rs, code, j) implies j == i by {
        if j != i {
            assert(rs[j].code@ != rs[i].code@);
        }
    }
}

/// Ensuring an announcement keeps the store invariant, and leaves a roster
/// with the identity.
pub proof fn lemma_ensured_keeps_wf(
    s0: Seq<AlertConnector>,
    s1: Seq<AlertConnector>,
    code: Seq<char>,
    wm: WarMessage,
    seed: AlertSeed,
)
    requires
        store_wf(s0),
        ensured(s0, s1, code, wm, seed),
    ensures
        store_wf(s1),
        exists|i: int| has_code(s1, code, i),
{
    if exists|i: int| has_code(s0, code, i) {
        let i = choose|i: int| has_code(s0, code, i);
        assert(has_code(s1, code, i));
        assert forall|a: int, b: int|
            0 <= a < s1.len() && 0 <= b < s1.len() && a != b implies #[trigger] s1[a].code@
            != #[trigger] s1[b].code@ by {
            assert(s0[a].code@ != s0[b].code@);
        }
        assert forall|k: int| 0 <= k < s1.len() implies (#[trigger] s1[k]).buckets_unique() by {
            assert(s0[k].buckets_unique());
            if k == i {
                assert forall|c: Bucket| #[trigger] s1[k].bucket_spec(c).no_duplicates() by {
                    assert(s0[k].bucket_spec(c).no_duplicates());
                }
            }
        }
    } else {
        let n = s0.len() as int;
        assert(has_code(s1, code, n));
        assert forall|a: int, b: int|
            0 <= a < s1.len() && 0 <= b < s1.len() && a != b implies #[trigger] s1[a].code@
            != #[trigger] s1[b].code@ by {
            if a == n {
                assert(!has_code(s0, code, b));
            } else if b == n {
                assert(!has_code(s0, code, a));
            } else {
                assert(s0[a].code@ != s0[b].code@);
            }
        }
        assert forall|k: int| 0 <= k < s1.len() implies (#[trigger] s1[k]).buckets_unique() by {
            if k < n {
                assert(s0[k].buckets_unique());
            } else {
                assert forall|c: Bucket| #[trigger] s1[k].bucket_spec(c).no_duplicates() by {
                    assert(s1[k].bucket_spec(c).len() == 0);
                }
            }
        }
    }
}

/// A membership change of the roster with identity `code` keeps the store
/// invariant.
pub proof fn lemma_membership_keeps_wf(
    s0: Seq<AlertConnector>,
    s1: Seq<AlertConnector>,
    code: Seq<char>,
    b: Bucket,
    user_id: u64,
    present: bool,
)
    requires
        store_wf(s0),
        s1.len() == s0.len(),
        forall|i: int|
            0 <= i < s0.len() ==> if has_code(s0, code, i) {
                membership_set(s0[i], #[trigger] s1[i], b, user_id, present)
            } else {
                s1[i] == s0[i]
            },
    ensures
        store_wf(s1),
{
    assert forall|x: int, y: int|
        0 <= x < s1.len() && 0 <= y < s1.len() && x != y implies #[trigger] s1[x].code@
        != #[trigger] s1[y].code@ by {
        assert(s0[x].code@ != s0[y].code@);
        if has_code(s0, code, x) {
            assert(membership_set(s0[x], s1[x], b, user_id, present));
        }
        if has_code(s0, code, y) {
            assert(membership_set(s0[y], s1[y], b, user_id, present));
        }
    }
    assert forall|k: int| 0 <= k < s1.len() implies (#[trigger] s1[k]).buckets_unique() by {
        assert(s0[k].buckets_unique());
        if has_code(s0, code, k) {
            assert(membership_set(s0[k], s1[k], b, user_id, present));
            lemma_set_ops_keep_unique(s0[k].bucket_spec(b), user_id);
            assert forall|c: Bucket| #[trigger] s1[k].bucket_spec(c).no_duplicates() by {
                assert(s0[k].bucket_spec(c).no_duplicates());
            }
        }
    }
}

/// Adding two announcements to a roster, one after the other, leaves it
/// listing, as a set, its earlier announcements and both new ones, with its
/// fields and buckets as they were.
pub proof fn lemma_two_announcements(
    a0: AlertConnector,
    a1: AlertConnector,
    a2: AlertConnector,
    w1: WarMessage,
    w2: WarMessage,
)
    requires
        announcement_added(a0, a1, w1),
        announcement_added(a1, a2, w2),
    ensures
        a2.war_messages@.to_set() == a0.war_messages@.to_set().insert(w1).insert(w2),
        a2.same_header(&a0),
        forall|b: Bucket| #[trigger] a2.bucket_spec(b) == a0.bucket_spec(b),
{
    lemma_with_announcement_set(a0.war_messages@, w1);
    lemma_with_announcement_set(a1.war_messages@, w2);
}

proof fn lemma_with_announcement_set(wms: Seq<WarMessage>, wm: WarMessage)
    ensures
        crate::alert_connector::with_announcement(wms, wm).to_set() == wms.to_set().insert(wm),
{
    if wms.contains(wm) {
        assert(wms.to_set().insert(wm) =~= wms.to_set());
    } else {
        wms.lemma_push_to_set_commute(wm);
    }
}

/// Two announcements ensured for one identity, in either order and from any
/// seeds, leave exactly one roster with that identity, and it lists both
/// announcements.
pub proof fn lemma_ensure_announcement_converges(
    s0: Seq<AlertConnector>,
    s1: Seq<AlertConnector>,
    s2: Seq<AlertConnector>,
    code: Seq<char>,
    w1: WarMessage,
    w2: WarMessage,
    seed1: AlertSeed,
    seed2: AlertSeed,
)
    requires
        store_wf(s0),
        ensured(s0, s1, code, w1, seed1),
        ensured(s1, s2, code, w2, seed2),
    ensures
        exists|i: int| has_code(s2, code, i),
        forall|i: int, j: int| has_code(s2, code, i) && has_code(s2, code, j) ==> i == j,
        forall|i: int|
            has_code(s2, code, i) ==> s2[i].war_messages@.contains(w1) && s2[i].war_messages@.contains(
                w2,
            ),
        !(exists|k: int| has_code(s0, code, k)) ==> forall|i: int|
            has_code(s2, code, i) ==> s2[i].war_messages@.to_set() == set![w1, w2],
{
    lemma_ensured_keeps_wf(s0, s1, code, w1, seed1);
    lemma_ensured_keeps_wf(s1, s2, code, w2, seed2);
    let i = choose|i: int| has_code(s1, code, i);
    assert forall|k: int| has_code(s1, code, k) implies k == i by {
        if k != i {
            assert(s1[k].code@ != s1[i].code@);
        }
    }
    assert(s1[i].war_messages@.contains(w1)) by {
        if exists|k: int| has_code(s0, code, k) {
            let k = choose|k: int| has_code(s0, code, k);
            assert(has_code(s1, code, k));
            let wms = s0[k].war_messages@;
            if !wms.contains(w1) {
                assert(wms.push(w1)[wms.len() as int] == w1);
            }
        } else {
            assert(has_code(s1, code, s0.len() as int));
            assert(seq![w1][0] == w1);
        }
    }
    assert(has_code(s2, code, i));
    let wms = s1[i].war_messages@;
    if !wms.contains(w2) {
        assert(wms.push(w2)[wms.len() as int] == w2);
        let k = choose|k: int| 0 <= k < wms.len() && wms[k] == w1;
        assert(wms.push(w2)[k] == w1);
    }
    assert forall|a: int, b: int| has_code(s2, code, a) && has_code(s2, code, b) implies a == b by {
        if a != b {
            assert(s2[a].code@ != s2[b].code@);
        }
    }
    if !(exists|k: int| has_code(s0, code, k)) {
        let n = s0.len() as int;
        assert(has_code(s1, code, n));
        assert(n == i);
        lemma_with_announcement_set(s1[i].war_messages@, w2);
        assert(seq![w1].to_set() =~= set![w1]) by {
            assert(seq![w1][0] == w1);
        }
        assert(set![w1].insert(w2) =~= set![w1, w2]);
        assert forall|k: int| has_code(s2, code, k) implies s2[k].war_messages@.to_set() == set![w1, w2] by {
            assert(k == i);
        }
    }
}

/// No empty list of roles is permitted, and a role is permitted in a
/// community once it was granted there.
pub proof fn lemma_permission_after_grant(
    before: Seq<(u64, u64)>,
    after: Seq<(u64, u64)>,
    guild_id: u64,
    role_id: u64,
)
    requires
        forall|p: (u64, u64)|
            #[trigger] after.contains(p) == if p == (guild_id, role_id) {
                true
            } else {
                before.contains(p)
            },
    ensures
        !permits(after, guild_id, Seq::empty()),
        permits(after, guild_id, seq![role_id]),
{
    assert(after.contains((guild_id, role_id)));
    assert(seq![role_id][0] == role_id);
}

} // verus!
