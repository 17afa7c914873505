//! The eight participation buckets of a roster and the reaction table that
//! selects them.
use vstd::prelude::*;

verus! {

/// Number of buckets, and of reactions on an announcement.
pub const BUCKET_COUNT: usize = 8;

/// A participation bucket. The order of the variants is the order of the
/// reaction table.
#[derive(Clone, Copy, PartialEq, Eq, Structural, Debug, Hash)]
pub enum Bucket {
    Tank,
    Mdps,
    Prdps,
    Erdps,
    Healer,
    Artillery,
    Tentative,
    NotAvailable,
}

/// The reaction emoji of each bucket, by position in the reaction table.
pub open spec fn reaction_table() -> Seq<char> {
    seq!['\u{1F6E1}', '\u{1F5E1}', '\u{1F3F9}', '\u{1FA84}', '\u{2764}', '\u{1F4A5}', '\u{2753}', '\u{26D4}']
}

/// The buckets, by position in the reaction table.
pub open spec fn bucket_table() -> Seq<Bucket> {
    seq![
        Bucket::Tank,
        Bucket::Mdps,
        Bucket::Prdps,
        Bucket::Erdps,
        Bucket::Healer,
        Bucket::Artillery,
        Bucket::Tentative,
        Bucket::NotAvailable,
    ]
}

impl Bucket {
    /// Position of the bucket in the reaction table.
    pub open spec fn spec_index(self) -> nat {
        match self {
            Bucket::Tank => 0,
            Bucket::Mdps => 1,
            Bucket::Prdps => 2,
            Bucket::Erdps => 3,
            Bucket::Healer => 4,
            Bucket::Artillery => 5,
            Bucket::Tentative => 6,
            Bucket::NotAvailable => 7,
        }
    }

    /// Duty buckets render loadout detail; the two status buckets do not.
    pub open spec fn is_duty(self) -> bool {
        !(self is Tentative || self is NotAvailable)
    }

    /// The reaction emoji that selects this bucket.
    pub fn reaction(&self) -> (r: char)
        ensures
            r == reaction_table()[self.spec_index() as int],
    {
        match self {
            Bucket::Tank => '\u{1F6E1}',
            Bucket::Mdps => '\u{1F5E1}',
            Bucket::Prdps => '\u{1F3F9}',
            Bucket::Erdps => '\u{1FA84}',
            Bucket::Healer => '\u{2764}',
            Bucket::Artillery => '\u{1F4A5}',
            Bucket::Tentative => '\u{2753}',
            Bucket::NotAvailable => '\u{26D4}',
        }
    }
}

/// All buckets, in reaction-table order.
pub fn all_buckets() -> (r: Vec<Bucket>)
    ensures
        r@ == bucket_table(),
{
    let r = vec![
        Bucket::Tank,
        Bucket::Mdps,
        Bucket::Prdps,
        Bucket::Erdps,
        Bucket::Healer,
        Bucket::Artillery,
        Bucket::Tentative,
        Bucket::NotAvailable,
    ];
    assert(r@ =~= bucket_table());
    r
}

/// The reaction emojis, in table order.
pub fn reactions() -> (r: Vec<char>)
    ensures
        r@ == reaction_table(),
{
    let r = vec!['\u{1F6E1}', '\u{1F5E1}', '\u{1F3F9}', '\u{1FA84}', '\u{2764}', '\u{1F4A5}', '\u{2753}', '\u{26D4}'];
    assert(r@ =~= reaction_table());
    r
}

/// The bucket whose reaction emoji is exactly the text `emoji`, if any.
pub open spec fn bucket_of_reaction_spec(emoji: Seq<char>) -> Option<Bucket> {
    if exists|i: int| 0 <= i < BUCKET_COUNT && emoji == seq![#[trigger] reaction_table()[i]] {
        let i = choose|i: int| 0 <= i < BUCKET_COUNT && emoji == seq![#[trigger] reaction_table()[i]];
        Some(bucket_table()[i])
    } else {
        None
    }
}

/// The table's emojis are pairwise distinct, and each bucket sits at its own index.
pub proof fn lemma_reaction_table_complete()
    ensures
        reaction_table().len() == BUCKET_COUNT,
        bucket_table().len() == BUCKET_COUNT,
        forall|i: int, j: int|
            0 <= i < j < BUCKET_COUNT ==> reaction_table()[i] != reaction_table()[j],
        forall|i: int| 0 <= i < BUCKET_COUNT ==> (#[trigger] bucket_table()[i]).spec_index() == i,
        forall|b: Bucket| bucket_table()[#[trigger] b.spec_index() as int] == b,
{
}

/// Decodes a reaction emoji into the bucket it selects.
pub fn bucket_of_reaction(emoji: &str) -> (r: Option<Bucket>)
    ensures
        r == bucket_of_reaction_spec(emoji@),
{
    proof {
        lemma_reaction_table_complete();
    }
    if emoji.unicode_len() != 1 {
        assert(forall|i: int| 0 <= i < BUCKET_COUNT ==> emoji@ != seq![#[trigger] reaction_table()[i]]);
        return None;
    }
    let c = emoji.get_char(0);
    assert(emoji@ == seq![c]);
    let table = reactions();
    let buckets = all_buckets();
    let mut i: usize = 0;
    while i < BUCKET_COUNT
        invariant
            i <= BUCKET_COUNT,
            table@ == reaction_table(),
            buckets@ == bucket_table(),
            emoji@ == seq![c],
            forall|j: int| 0 <= j < i ==> reaction_table()[j] != c,
        decreases BUCKET_COUNT - i,
    {
        if table[i] == c {
            assert(emoji@ == seq![reaction_table()[i as int]]);
            let ghost k = choose|k: int| 0 <= k < BUCKET_COUNT && emoji@ == seq![#[trigger] reaction_table()[k]];
            assert(seq![c][0] == reaction_table()[k]);
            assert(k == i);
            return Some(buckets[i]);
        }
        i = i + 1;
    }
    assert forall|j: int| 0 <= j < BUCKET_COUNT implies emoji@ != seq![#[trigger] reaction_table()[j]] by {
        if emoji@ == seq![reaction_table()[j]] {
            assert(seq![c][0] == seq![reaction_table()[j]][0]);
        }
    }
    None
}

} // verus!
