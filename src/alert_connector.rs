//! A roster: one scheduled event, the members of its eight buckets, and every
//! announcement message that mirrors it.
use vstd::prelude::*;
use std::collections::HashSet;
use crate::bucket::{all_buckets, bucket_table, lemma_reaction_table_complete, Bucket, BUCKET_COUNT};
use crate::war_message::WarMessage;

verus! {

/// One scheduled event and its roster. `code` is the text form of the
/// alert identity and is the roster's key; `kind` is 1 for an alert that
/// was given a name (its `title`), 0 otherwise.
pub struct AlertConnector {
    pub code: String,
    pub date: String,
    pub time: String,
    pub server: String,
    pub faction: String,
    pub territory: String,
    pub title: String,
    pub kind: u8,
    pub tanks: Vec<u64>,
    pub erdps: Vec<u64>,
    pub prdps: Vec<u64>,
    pub mdps: Vec<u64>,
    pub healers: Vec<u64>,
    pub tentative: Vec<u64>,
    pub not_available: Vec<u64>,
    pub artillery: Vec<u64>,
    pub war_messages: Vec<WarMessage>,
}

/// `s` with `x` added, unless it is already there.
pub open spec fn set_insert(s: Seq<u64>, x: u64) -> Seq<u64> {
    if s.contains(x) {
        s
    } else {
        s.push(x)
    }
}

/// `s` without any occurrence of `x`.
pub open spec fn set_remove(s: Seq<u64>, x: u64) -> Seq<u64> {
    s.filter(other_than(x))
}

/// The predicate that holds of every value but `x`.
pub open spec fn other_than(x: u64) -> spec_fn(u64) -> bool {
    |y: u64| y != x
}

/// The announcements of a roster after `wm` was added to them.
pub open spec fn with_announcement(wms: Seq<WarMessage>, wm: WarMessage) -> Seq<WarMessage> {
    if wms.contains(wm) {
        wms
    } else {
        wms.push(wm)
    }
}

/// `new` is `old` with announcement `wm` added.
pub open spec fn announcement_added(old: AlertConnector, new: AlertConnector, wm: WarMessage) -> bool {
    &&& new.war_messages@ == with_announcement(old.war_messages@, wm)
    &&& new.same_header(&old)
    &&& forall|b: Bucket| #[trigger] new.bucket_spec(b) == old.bucket_spec(b)
}

/// Inserting into, or removing from, a sequence without duplicates keeps
/// it without duplicates; an inserted value is then there exactly once.
pub proof fn lemma_set_ops_keep_unique(s: Seq<u64>, x: u64)
    requires
        s.no_duplicates(),
    ensures
        set_insert(s, x).no_duplicates(),
        set_insert(s, x).contains(x),
        set_remove(s, x).no_duplicates(),
        !set_remove(s, x).contains(x),
{
    if !s.contains(x) {
        let t = s.push(x);
        assert(t[s.len() as int] == x);
        assert forall|i: int, j: int| 0 <= i < t.len() && 0 <= j < t.len() && i != j implies t[i]
            != t[j] by {
            if i < s.len() && j < s.len() {
            } else if i < s.len() {
                assert(s.contains(t[i]));
            } else {
                assert(s.contains(t[j]));
            }
        }
    }
    lemma_filter_keeps_unique(s, other_than(x));
    if set_remove(s, x).contains(x) {
        let k = choose|k: int| 0 <= k < set_remove(s, x).len() && set_remove(s, x)[k] == x;
        s.lemma_filter_pred(other_than(x), k);
    }
}

proof fn lemma_filter_keeps_unique(s: Seq<u64>, p: spec_fn(u64) -> bool)
    requires
        s.no_duplicates(),
    ensures
        s.filter(p).no_duplicates(),
    decreases s.len(),
{
    if s.len() == 0 {
        assert(s.filter(p) =~= s) by {
            reveal(Seq::filter);
        }
    } else {
        let init = s.drop_last();
        let l = s.last();
        assert(init.push(l) == s);
        assert(init.no_duplicates()) by {
            assert forall|i: int, j: int| 0 <= i < init.len() && 0 <= j < init.len() && i != j implies init[i]
                != init[j] by {
                assert(s[i] != s[j]);
            }
        }
        lemma_filter_keeps_unique(init, p);
        init.lemma_filter_push(l, p);
        if p(l) {
            let f = init.filter(p);
            let t = f.push(l);
            assert(!init.contains(l)) by {
                if init.contains(l) {
                    let k = choose|k: int| 0 <= k < init.len() && init[k] == l;
                    assert(s[k] == s[s.len() - 1]);
                }
            }
            assert(!f.contains(l)) by {
                if f.contains(l) {
                    init.lemma_filter_contains_rev(p, l);
                }
            }
            assert forall|i: int, j: int| 0 <= i < t.len() && 0 <= j < t.len() && i != j implies t[i]
                != t[j] by {
                if i < f.len() && j < f.len() {
                } else if i < f.len() {
                    assert(f.contains(t[i]));
                } else {
                    assert(f.contains(t[j]));
                }
            }
        }
    }
}

/// Adds `x` to `v` unless it is already there.
pub fn insert_unique(v: &mut Vec<u64>, x: u64)
    ensures
        final(v)@ == set_insert(old(v)@, x),
{
    let mut i: usize = 0;
    while i < v.len()
        invariant
            i <= v@.len(),
            forall|j: int| 0 <= j < i ==> v@[j] != x,
        decreases v@.len() - i,
    {
        if v[i] == x {
            assert(v@.contains(x));
            return;
        }
        i = i + 1;
    }
    v.push(x);
}

/// Removes every occurrence of `x` from `v`.
pub fn remove_all(v: &mut Vec<u64>, x: u64)
    ensures
        final(v)@ == set_remove(old(v)@, x),
{
    let mut out: Vec<u64> = Vec::new();
    let mut i: usize = 0;
    while i < v.len()
        invariant
            i <= v@.len(),
            out@ == set_remove(v@.subrange(0, i as int), x),
        decreases v@.len() - i,
    {
        proof {
            let f = other_than(x);
            assert(v@.subrange(0, i + 1) == v@.subrange(0, i as int).push(v@[i as int]));
            v@.subrange(0, i as int).lemma_filter_push(v@[i as int], f);
        }
        if v[i] != x {
            out.push(v[i]);
        }
        i = i + 1;
    }
    assert(v@.subrange(0, v@.len() as int) == v@);
    *v = out;
}

impl PartialEq for AlertConnector {
    /// Two rosters are the same roster when their identities are equal.
    fn eq(&self, other: &AlertConnector) -> (r: bool)
        ensures
            r == (self.code@ == other.code@),
    {
        self.code == other.code
    }
}

impl vstd::std_specs::cmp::PartialEqSpecImpl for AlertConnector {
    open spec fn obeys_eq_spec() -> bool {
        true
    }

    open spec fn eq_spec(&self, other: &AlertConnector) -> bool {
        self.code@ == other.code@
    }
}

impl AlertConnector {
    /// Members of bucket `b`.
    pub open spec fn bucket_spec(&self, b: Bucket) -> Seq<u64> {
        match b {
            Bucket::Tank => self.tanks@,
            Bucket::Mdps => self.mdps@,
            Bucket::Prdps => self.prdps@,
            Bucket::Erdps => self.erdps@,
            Bucket::Healer => self.healers@,
            Bucket::Artillery => self.artillery@,
            Bucket::Tentative => self.tentative@,
            Bucket::NotAvailable => self.not_available@,
        }
    }

    /// Every user who has responded: the members of each bucket but
    /// artillery, in the order tank, elemental ranged, physical ranged,
    /// melee, healer, tentative, not available.
    pub open spec fn users_spec(&self) -> Seq<u64> {
        self.tanks@ + self.erdps@ + self.prdps@ + self.mdps@ + self.healers@ + self.tentative@
            + self.not_available@
    }

    /// The descriptive fields and announcements agree; buckets may differ.
    pub open spec fn same_header(&self, other: &AlertConnector) -> bool {
        &&& self.code@ == other.code@
        &&& self.date@ == other.date@
        &&& self.time@ == other.time@
        &&& self.server@ == other.server@
        &&& self.faction@ == other.faction@
        &&& self.territory@ == other.territory@
        &&& self.title@ == other.title@
        &&& self.kind == other.kind
    }

    /// Whether `user_id` is a member of any of the eight buckets.
    pub open spec fn is_member(&self, user_id: u64) -> bool {
        exists|b: Bucket| #[trigger] self.bucket_spec(b).contains(user_id)
    }

    /// No bucket lists a member twice.
    pub open spec fn buckets_unique(&self) -> bool {
        forall|b: Bucket| #[trigger] self.bucket_spec(b).no_duplicates()
    }

    /// Whether some announcement of this roster is in `guild_id`/`channel_id`.
    pub open spec fn has_channel(&self, guild_id: u64, channel_id: u64) -> bool {
        exists|i: int|
            0 <= i < self.war_messages@.len() && (#[trigger] self.war_messages@[i]).spec_guild_id()
                == guild_id && self.war_messages@[i].spec_channel_id() == channel_id
    }

    /// Creates a roster with empty buckets whose sole announcement is `war_message`.
    pub fn create(
        code: &str,
        date: &str,
        time: &str,
        server: &str,
        faction: &str,
        territory: &str,
        title: &str,
        kind: u8,
        war_message: WarMessage,
    ) -> (r: Self)
        ensures
            r.code@ == code@,
            r.date@ == date@,
            r.time@ == time@,
            r.server@ == server@,
            r.faction@ == faction@,
            r.territory@ == territory@,
            r.title@ == title@,
            r.kind == kind,
            forall|b: Bucket| (#[trigger] r.bucket_spec(b)).len() == 0,
            r.buckets_unique(),
            r.war_messages@ == seq![war_message],
    {
        let r = AlertConnector {
            code: String::from_str(code),
            date: String::from_str(date),
            time: String::from_str(time),
            server: String::from_str(server),
            faction: String::from_str(faction),
            territory: String::from_str(territory),
            title: String::from_str(title),
            kind,
            tanks: Vec::new(),
            erdps: Vec::new(),
            prdps: Vec::new(),
            mdps: Vec::new(),
            healers: Vec::new(),
            tentative: Vec::new(),
            not_available: Vec::new(),
            artillery: Vec::new(),
            war_messages: vec![war_message],
        };
        assert(r.war_messages@ =~= seq![war_message]);
        assert forall|b: Bucket| #[trigger] r.bucket_spec(b).no_duplicates() by {
            assert(r.bucket_spec(b).len() == 0);
        }
        r
    }

    /// Members of every bucket but artillery, concatenated.
    pub fn get_users(&self) -> (r: Vec<u64>)
        ensures
            r@ == self.users_spec(),
    {
        let mut r: Vec<u64> = Vec::new();
        append_all(&mut r, &self.tanks);
        append_all(&mut r, &self.erdps);
        append_all(&mut r, &self.prdps);
        append_all(&mut r, &self.mdps);
        append_all(&mut r, &self.healers);
        append_all(&mut r, &self.tentative);
        append_all(&mut r, &self.not_available);
        assert(r@ =~= self.users_spec());
        r
    }

    /// Whether the user has responded in any bucket but artillery.
    pub fn contains_user(&self, user_id: u64) -> (r: bool)
        ensures
            r == self.users_spec().contains(user_id),
    {
        let users = self.get_users();
        let mut i: usize = 0;
        while i < users.len()
            invariant
                users@ == self.users_spec(),
                i <= users@.len(),
                forall|j: int| 0 <= j < i ==> users@[j] != user_id,
            decreases users@.len() - i,
        {
            if users[i] == user_id {
                assert(users@[i as int] == user_id);
                return true;
            }
            i = i + 1;
        }
        false
    }

    /// The members of bucket `b`.
    pub fn bucket(&self, b: Bucket) -> (r: &Vec<u64>)
        ensures
            r@ == self.bucket_spec(b),
    {
        match b {
            Bucket::Tank => &self.tanks,
            Bucket::Mdps => &self.mdps,
            Bucket::Prdps => &self.prdps,
            Bucket::Erdps => &self.erdps,
            Bucket::Healer => &self.healers,
            Bucket::Artillery => &self.artillery,
            Bucket::Tentative => &self.tentative,
            Bucket::NotAvailable => &self.not_available,
        }
    }

    /// Whether `user_id` is a member of any of the eight buckets.
    pub fn has_member(&self, user_id: u64) -> (r: bool)
        ensures
            r == self.is_member(user_id),
    {
        proof {
            lemma_reaction_table_complete();
        }
        let buckets = all_buckets();
        let mut i: usize = 0;
        while i < BUCKET_COUNT
            invariant
                i <= BUCKET_COUNT,
                buckets@ == bucket_table(),
                forall|j: int| 0 <= j < i ==> !self.bucket_spec(#[trigger] bucket_table()[j]).contains(user_id),
            decreases BUCKET_COUNT - i,
        {
            let members = self.bucket(buckets[i]);
            let mut k: usize = 0;
            while k < members.len()
                invariant
                    k <= members@.len(),
                    i < BUCKET_COUNT,
                    buckets@ == bucket_table(),
                    members@ == self.bucket_spec(buckets@[i as int]),
                    forall|j: int| 0 <= j < k ==> members@[j] != user_id,
                decreases members@.len() - k,
            {
                if members[k] == user_id {
                    assert(members@[k as int] == user_id);
                    assert(self.bucket_spec(buckets@[i as int]).contains(user_id));
                    return true;
                }
                k = k + 1;
            }
            i = i + 1;
        }
        assert forall|b: Bucket| !#[trigger] self.bucket_spec(b).contains(user_id) by {
            assert(bucket_table()[b.spec_index() as int] == b);
        }
        false
    }

    /// The communities that hold an announcement of this roster.
    pub fn get_guild_ids(&self) -> (r: HashSet<u64>)
        ensures
            r@ == Set::new(
                |g: u64|
                    exists|i: int|
                        0 <= i < self.war_messages@.len() && (#[trigger] self.war_messages@[i]).spec_guild_id()
                            == g,
            ),
    {
        broadcast use vstd::std_specs::hash::group_hash_axioms;

        let mut result: HashSet<u64> = HashSet::new();
        let mut i: usize = 0;
        while i < self.war_messages.len()
            invariant
                i <= self.war_messages@.len(),
                result@ == Set::new(
                    |g: u64|
                        exists|j: int|
                            0 <= j < i && (#[trigger] self.war_messages@[j]).spec_guild_id() == g,
                ),
            decreases self.war_messages@.len() - i,
        {
            let g = self.war_messages[i].get_guild_id();
            result.insert(g);
            assert(result@ =~= Set::new(
                |h: u64|
                    exists|j: int|
                        0 <= j < i + 1 && (#[trigger] self.war_messages@[j]).spec_guild_id() == h,
            )) by {
                assert(self.war_messages@[i as int].spec_guild_id() == g);
            }
            i = i + 1;
        }
        assert(result@ =~= Set::new(
            |g: u64|
                exists|i: int|
                    0 <= i < self.war_messages@.len() && (#[trigger] self.war_messages@[i]).spec_guild_id()
                        == g,
        ));
        result
    }

    /// Whether `guild_id`/`channel_id`/`message_id` is one of this roster's announcements.
    pub fn contains_war_message(&self, guild_id: u64, channel_id: u64, message_id: u64) -> (r: bool)
        ensures
            r == self.war_messages@.contains(WarMessage::new_spec(guild_id, channel_id, message_id)),
    {
        let wm = WarMessage::new(guild_id, channel_id, message_id);
        self.contains_announcement(wm)
    }

    /// Whether `wm` is one of this roster's announcements.
    pub fn contains_announcement(&self, wm: WarMessage) -> (r: bool)
        ensures
            r == self.war_messages@.contains(wm),
    {
        let mut i: usize = 0;
        while i < self.war_messages.len()
            invariant
                i <= self.war_messages@.len(),
                forall|j: int| 0 <= j < i ==> self.war_messages@[j] != wm,
            decreases self.war_messages@.len() - i,
        {
            if self.war_messages[i] == wm {
                assert(self.war_messages@[i as int] == wm);
                return true;
            }
            i = i + 1;
        }
        false
    }

    /// Whether some announcement of this roster is in `guild_id`/`channel_id`.
    pub fn channel_contains_war_message(&self, guild_id: u64, channel_id: u64) -> (r: bool)
        ensures
            r == self.has_channel(guild_id, channel_id),
    {
        let mut i: usize = 0;
        while i < self.war_messages.len()
            invariant
                i <= self.war_messages@.len(),
                forall|j: int|
                    0 <= j < i ==> !((#[trigger] self.war_messages@[j]).spec_guild_id() == guild_id
                        && self.war_messages@[j].spec_channel_id() == channel_id),
            decreases self.war_messages@.len() - i,
        {
            let wm = &self.war_messages[i];
            if wm.get_channel_id() == channel_id && wm.get_guild_id() == guild_id {
                return true;
            }
            i = i + 1;
        }
        false
    }

    /// Records `wm` as an announcement of this roster, unless it already is one.
    pub fn add_war_message(&mut self, wm: WarMessage)
        ensures
            announcement_added(*old(self), *final(self), wm),
    {
        if !self.contains_announcement(wm) {
            self.war_messages.push(wm);
        }
    }

    /// Puts `user_id` into bucket `b` when `present`, takes it out otherwise.
    /// No other bucket, field or announcement changes.
    pub fn set_membership(&mut self, b: Bucket, user_id: u64, present: bool)
        ensures
            final(self).bucket_spec(b) == if present {
                set_insert(old(self).bucket_spec(b), user_id)
            } else {
                set_remove(old(self).bucket_spec(b), user_id)
            },
            forall|c: Bucket| c != b ==> #[trigger] final(self).bucket_spec(c) == old(self).bucket_spec(c),
            final(self).same_header(old(self)),
            final(self).war_messages@ == old(self).war_messages@,
            old(self).buckets_unique() ==> final(self).buckets_unique(),
    {
        proof {
            if old(self).buckets_unique() {
                lemma_set_ops_keep_unique(old(self).bucket_spec(b), user_id);
            }
        }
        let v: &mut Vec<u64> = match b {
            Bucket::Tank => &mut self.tanks,
            Bucket::Mdps => &mut self.mdps,
            Bucket::Prdps => &mut self.prdps,
            Bucket::Erdps => &mut self.erdps,
            Bucket::Healer => &mut self.healers,
            Bucket::Artillery => &mut self.artillery,
            Bucket::Tentative => &mut self.tentative,
            Bucket::NotAvailable => &mut self.not_available,
        };
        if present {
            insert_unique(v, user_id);
        } else {
            remove_all(v, user_id);
        }
        proof {
            if old(self).buckets_unique() {
                assert forall|c: Bucket| #[trigger] self.bucket_spec(c).no_duplicates() by {
                    if c != b {
                        assert(old(self).bucket_spec(c).no_duplicates());
                    }
                }
            }
        }
    }
}

fn append_all(r: &mut Vec<u64>, s: &Vec<u64>)
    ensures
        final(r)@ == old(r)@ + s@,
{
    let mut i: usize = 0;
    let ghost start = r@;
    while i < s.len()
        invariant
            i <= s@.len(),
            r@ == start + s@.subrange(0, i as int),
        decreases s@.len() - i,
    {
        r.push(s[i]);
        assert(r@ =~= start + s@.subrange(0, i + 1));
        i = i + 1;
    }
    assert(s@.subrange(0, s@.len() as int) =~= s@);
}

} // verus!
