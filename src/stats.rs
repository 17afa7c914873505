//! Summary statistics over registered profiles.
use vstd::prelude::*;
use crate::render::{blank, field, spacer, trim_of, trimmed, EmbedField};
use crate::text::{decimal, decimal_string, push_char, push_str};
use crate::user_data::UserData;
use crate::weapon::{all_weapons, weapon_table, Weapon, WEAPON_COUNT};

verus! {

/// Averages and loadout histograms. The histograms hold one count per
/// weapon, by weapon table index.
pub struct WarStats {
    pub avg_level: u32,
    pub avg_gear_score: u32,
    pub main_hand_counts: Vec<u32>,
    pub secondary_counts: Vec<u32>,
}

/// Sum of the levels above 1.
pub open spec fn level_sum(ps: Seq<UserData>) -> nat
    decreases ps.len(),
{
    if ps.len() == 0 {
        0
    } else {
        level_sum(ps.drop_last()) + if ps.last().level > 1 {
            ps.last().level as nat
        } else {
            0
        }
    }
}

/// Number of profiles with a level above 1.
pub open spec fn level_count(ps: Seq<UserData>) -> nat
    decreases ps.len(),
{
    if ps.len() == 0 {
        0
    } else {
        level_count(ps.drop_last()) + if ps.last().level > 1 {
            1nat
        } else {
            0
        }
    }
}

/// Sum of the positive gear scores.
pub open spec fn gear_sum(ps: Seq<UserData>) -> nat
    decreases ps.len(),
{
    if ps.len() == 0 {
        0
    } else {
        gear_sum(ps.drop_last()) + ps.last().gear_score as nat
    }
}

/// Number of profiles with a positive gear score.
pub open spec fn gear_count(ps: Seq<UserData>) -> nat
    decreases ps.len(),
{
    if ps.len() == 0 {
        0
    } else {
        gear_count(ps.drop_last()) + if ps.last().gear_score > 0 {
            1nat
        } else {
            0
        }
    }
}

/// Number of profiles whose main hand (when `main`) or secondary is `w`.
pub open spec fn votes(ps: Seq<UserData>, w: Weapon, main: bool) -> nat
    decreases ps.len(),
{
    if ps.len() == 0 {
        0
    } else {
        votes(ps.drop_last(), w, main) + if (if main {
            ps.last().main_hand
        } else {
            ps.last().secondary
        }) == Some(w) {
            1nat
        } else {
            0
        }
    }
}

/// `sum / count`, with a zero count read as 1.
pub open spec fn average(sum: nat, count: nat) -> nat {
    if count == 0 {
        sum
    } else {
        sum / count
    }
}

proof fn lemma_bounds(ps: Seq<UserData>)
    ensures
        level_sum(ps) <= 255 * level_count(ps),
        gear_sum(ps) <= 65535 * gear_count(ps),
        level_count(ps) <= ps.len(),
        gear_count(ps) <= ps.len(),
        level_count(ps) == 0 ==> level_sum(ps) == 0,
        gear_count(ps) == 0 ==> gear_sum(ps) == 0,
        forall|w: Weapon, m: bool| #[trigger] votes(ps, w, m) <= ps.len(),
    decreases ps.len(),
{
    if ps.len() > 0 {
        lemma_bounds(ps.drop_last());
        assert forall|w: Weapon, m: bool| #[trigger] votes(ps, w, m) <= ps.len() by {
            assert(votes(ps.drop_last(), w, m) <= ps.drop_last().len());
        }
    }
}

fn count_step(counts: &mut Vec<u32>, w: Option<Weapon>)
    requires
        old(counts)@.len() == WEAPON_COUNT,
        forall|i: int| 0 <= i < WEAPON_COUNT ==> old(counts)@[i] < u32::MAX,
    ensures
        final(counts)@.len() == WEAPON_COUNT,
        forall|v: Weapon|
            #[trigger] final(counts)@[v.spec_index() as int] == old(counts)@[v.spec_index() as int] + if w
                == Some(v) {
                1int
            } else {
                0
            },
{
    match w {
        Some(w) => {
            let i = w.index();
            let c = counts[i];
            counts.set(i, c + 1);
            assert forall|v: Weapon| #[trigger] counts@[v.spec_index() as int] == old(counts)@[v.spec_index() as int] + if Some(w)
                == Some(v) {
                1int
            } else {
                0
            } by {
                if v != w {
                    assert(v.spec_index() != w.spec_index());
                }
            }
        },
        None => {},
    }
}

/// Averages level and gear score over the profiles that set them (a level
/// above 1, a gear score above 0), 0 where none does, and counts the main
/// hand and secondary choices per weapon.
pub fn aggregate(profiles: &Vec<UserData>) -> (r: WarStats)
    requires
        profiles@.len() <= u32::MAX,
    ensures
        r.avg_level == average(level_sum(profiles@), level_count(profiles@)),
        r.avg_gear_score == average(gear_sum(profiles@), gear_count(profiles@)),
        r.main_hand_counts@.len() == WEAPON_COUNT,
        r.secondary_counts@.len() == WEAPON_COUNT,
        forall|w: Weapon| #[trigger] r.main_hand_counts@[w.spec_index() as int] == votes(profiles@, w, true),
        forall|w: Weapon| #[trigger] r.secondary_counts@[w.spec_index() as int] == votes(profiles@, w, false),
{
    let mut level_total: u64 = 0;
    let mut level_n: u64 = 0;
    let mut gear_total: u64 = 0;
    let mut gear_n: u64 = 0;
    let mut main_counts: Vec<u32> = zero_counts();
    let mut secondary_counts: Vec<u32> = zero_counts();
    let mut i: usize = 0;
    while i < profiles.len()
        invariant
            i <= profiles@.len() <= u32::MAX,
            level_total == level_sum(profiles@.subrange(0, i as int)),
            level_n == level_count(profiles@.subrange(0, i as int)),
            gear_total == gear_sum(profiles@.subrange(0, i as int)),
            gear_n == gear_count(profiles@.subrange(0, i as int)),
            main_counts@.len() == WEAPON_COUNT,
            secondary_counts@.len() == WEAPON_COUNT,
            forall|w: Weapon|
                #[trigger] main_counts@[w.spec_index() as int] == votes(profiles@.subrange(0, i as int), w, true),
            forall|w: Weapon|
                #[trigger] secondary_counts@[w.spec_index() as int] == votes(
                    profiles@.subrange(0, i as int),
                    w,
                    false,
                ),
        decreases profiles@.len() - i,
    {
        let ghost pre = profiles@.subrange(0, i as int);
        let ghost next = profiles@.subrange(0, i + 1);
        assert(next.drop_last() == pre);
        proof {
            lemma_bounds(pre);
            assert forall|k: int| 0 <= k < WEAPON_COUNT implies main_counts@[k] < u32::MAX
                && secondary_counts@[k] < u32::MAX by {
                crate::weapon::lemma_table_position(k);
                let w = weapon_table()[k];
                assert(votes(pre, w, true) <= pre.len());
                assert(votes(pre, w, false) <= pre.len());
            }
        }
        let p = &profiles[i];
        if p.level > 1 {
            level_total = level_total + p.level as u64;
            level_n = level_n + 1;
        }
        if p.gear_score > 0 {
            gear_total = gear_total + p.gear_score as u64;
            gear_n = gear_n + 1;
        }
        count_step(&mut main_counts, p.main_hand);
        count_step(&mut secondary_counts, p.secondary);
        i = i + 1;
    }
    assert(profiles@.subrange(0, profiles@.len() as int) == profiles@);
    proof {
        lemma_bounds(profiles@);
    }
    let level_d: u64 = if level_n == 0 {
        1
    } else {
        level_n
    };
    let gear_d: u64 = if gear_n == 0 {
        1
    } else {
        gear_n
    };
    let avg_level = level_total / level_d;
    let avg_gear = gear_total / gear_d;
    assert(avg_level <= 255) by (nonlinear_arith)
        requires
            avg_level == level_total / level_d,
            level_total <= 255 * level_d,
            level_d >= 1,
    ;
    assert(avg_gear <= 65535) by (nonlinear_arith)
        requires
            avg_gear == gear_total / gear_d,
            gear_total <= 65535 * gear_d,
            gear_d >= 1,
    ;
    WarStats {
        avg_level: avg_level as u32,
        avg_gear_score: avg_gear as u32,
        main_hand_counts: main_counts,
        secondary_counts,
    }
}

fn zero_counts() -> (r: Vec<u32>)
    ensures
        r@ == Seq::new(WEAPON_COUNT as nat, |i: int| 0u32),
{
    let mut r: Vec<u32> = Vec::new();
    while r.len() < WEAPON_COUNT
        invariant
            r@ == Seq::new(r@.len(), |i: int| 0u32),
            r@.len() <= WEAPON_COUNT,
        decreases WEAPON_COUNT - r@.len(),
    {
        r.push(0);
        assert(r@ =~= Seq::new(r@.len(), |i: int| 0u32));
    }
    r
}

/// Sum of the first `n` counts.
pub open spec fn counts_total(counts: Seq<u32>, n: nat) -> nat
    decreases n,
{
    if n == 0 || n > counts.len() {
        0
    } else {
        counts_total(counts, (n - 1) as nat) + counts[n - 1] as nat
    }
}

/// Whole percent of `count` in `total`, rounded down; a zero total is read as 1.
pub open spec fn percent(count: nat, total: nat) -> nat {
    if total == 0 {
        count * 100
    } else {
        count * 100 / total
    }
}

/// The histogram line of one weapon: its label, a bar of one dot per two
/// percent, and the percentage.
pub open spec fn weapon_count_line(w: Weapon, count: nat, total: nat) -> Seq<char> {
    let p = percent(count, total);
    w.label_spec() + "\n||`"@ + Seq::new(p / 2, |i: int| '.') + "`|| "@ + decimal(p) + "%\n"@
}

/// The histogram lines of the first `n` weapons of the table.
pub open spec fn weapon_counts_lines(counts: Seq<u32>, total: nat, n: nat) -> Seq<char>
    decreases n,
{
    if n == 0 || n > counts.len() {
        Seq::empty()
    } else {
        weapon_counts_lines(counts, total, (n - 1) as nat) + weapon_count_line(
            weapon_table()[n - 1],
            counts[n - 1] as nat,
            total,
        )
    }
}

/// The histogram text of a count per weapon.
pub open spec fn weapon_counts_spec(counts: Seq<u32>) -> Seq<char> {
    weapon_counts_lines(counts, counts_total(counts, WEAPON_COUNT as nat), WEAPON_COUNT as nat)
}

proof fn lemma_total_bound(counts: Seq<u32>, n: nat)
    requires
        n <= counts.len(),
    ensures
        counts_total(counts, n) <= n * 0xffff_ffff,
        forall|k: int| 0 <= k < n ==> counts[k] <= counts_total(counts, n),
    decreases n,
{
    if n > 0 {
        lemma_total_bound(counts, (n - 1) as nat);
    }
}

/// Renders a histogram of weapon choices, one line per weapon in table order.
pub fn add_weapon_counts_to_embed(weapon_counts: &Vec<u32>) -> (r: String)
    requires
        weapon_counts@.len() == WEAPON_COUNT,
    ensures
        r@ == weapon_counts_spec(weapon_counts@),
{
    let mut total: u64 = 0;
    let mut k: usize = 0;
    while k < WEAPON_COUNT
        invariant
            k <= WEAPON_COUNT == weapon_counts@.len(),
            total == counts_total(weapon_counts@, k as nat),
            total <= k * 0xffff_ffff,
        decreases WEAPON_COUNT - k,
    {
        total = total + weapon_counts[k] as u64;
        k = k + 1;
    }
    proof {
        lemma_total_bound(weapon_counts@, WEAPON_COUNT as nat);
    }
    let divisor: u64 = if total == 0 {
        1
    } else {
        total
    };
    let weapons = all_weapons();
    let mut result = String::new();
    let mut i: usize = 0;
    while i < WEAPON_COUNT
        invariant
            i <= WEAPON_COUNT == weapon_counts@.len(),
            weapons@ == weapon_table(),
            total == counts_total(weapon_counts@, WEAPON_COUNT as nat),
            divisor == if total == 0 { 1 } else { total },
            forall|k: int| 0 <= k < WEAPON_COUNT ==> weapon_counts@[k] <= total,
            result@ == weapon_counts_lines(weapon_counts@, total as nat, i as nat),
        decreases WEAPON_COUNT - i,
    {
        let count = weapon_counts[i] as u64;
        let pct: u64 = count * 100 / divisor;
        assert(pct == percent(count as nat, total as nat));
        push_str(&mut result, weapons[i].get_label());
        push_str(&mut result, "\n||`");
        let ghost before_bar = result@;
        let mut dots: u64 = 0;
        while dots < pct / 2
            invariant
                dots <= pct / 2,
                result@ == before_bar + Seq::new(dots as nat, |j: int| '.'),
            decreases pct / 2 - dots,
        {
            push_char(&mut result, '.');
            dots = dots + 1;
            assert(result@ =~= before_bar + Seq::new(dots as nat, |j: int| '.'));
        }
        push_str(&mut result, "`|| ");
        push_str(&mut result, decimal_string(pct).as_str());
        push_str(&mut result, "%\n");
        assert(result@ =~= weapon_counts_lines(weapon_counts@, total as nat, (i + 1) as nat));
        i = i + 1;
    }
    result
}

/// The title of a statistics report for `scope`.
pub fn stats_title(scope: &str) -> (r: String)
    ensures
        r@ == "War Helper Stats - "@ + scope@,
{
    let mut t = String::from_str("War Helper Stats - ");
    push_str(&mut t, scope);
    t
}

/// The fields of a statistics report: the number of connected communities,
/// the averages, and both histograms.
pub fn stats_fields(stats: &WarStats, guild_count: u64) -> (r: Vec<EmbedField>)
    requires
        stats.main_hand_counts@.len() == WEAPON_COUNT,
        stats.secondary_counts@.len() == WEAPON_COUNT,
    ensures
        crate::render::fields_view(r@) == seq![
            (blank(), "__**Connected Guilds:**__ "@ + decimal(guild_count as nat), false),
            (blank(), "__**Average Gear Score:**__ "@ + decimal(stats.avg_gear_score as nat), true),
            (blank(), blank(), true),
            (blank(), "__**Average Level:**__ "@ + decimal(stats.avg_level as nat), true),
            (
                blank(),
                "__**Main Hand Selections:**__\n"@ + trim_of(weapon_counts_spec(stats.main_hand_counts@)),
                false,
            ),
            (
                blank(),
                "__**Secondary Selections:**__\n"@ + trim_of(weapon_counts_spec(stats.secondary_counts@)),
                false,
            ),
        ],
{
    let mut guilds = String::from_str("__**Connected Guilds:**__ ");
    push_str(&mut guilds, decimal_string(guild_count).as_str());
    let mut gear = String::from_str("__**Average Gear Score:**__ ");
    push_str(&mut gear, decimal_string(stats.avg_gear_score as u64).as_str());
    let mut level = String::from_str("__**Average Level:**__ ");
    push_str(&mut level, decimal_string(stats.avg_level as u64).as_str());
    let mut main = String::from_str("__**Main Hand Selections:**__\n");
    push_str(&mut main, trimmed(&add_weapon_counts_to_embed(&stats.main_hand_counts)).as_str());
    let mut secondary = String::from_str("__**Secondary Selections:**__\n");
    push_str(&mut secondary, trimmed(&add_weapon_counts_to_embed(&stats.secondary_counts)).as_str());
    let r = vec![
        field("\u{200B}", guilds.as_str(), false),
        field("\u{200B}", gear.as_str(), true),
        spacer(true),
        field("\u{200B}", level.as_str(), true),
        field("\u{200B}", main.as_str(), false),
        field("\u{200B}", secondary.as_str(), false),
    ];
    assert(crate::render::fields_view(r@) =~= seq![
        (blank(), "__**Connected Guilds:**__ "@ + decimal(guild_count as nat), false),
        (blank(), "__**Average Gear Score:**__ "@ + decimal(stats.avg_gear_score as nat), true),
        (blank(), blank(), true),
        (blank(), "__**Average Level:**__ "@ + decimal(stats.avg_level as nat), true),
        (
            blank(),
            "__**Main Hand Selections:**__\n"@ + trim_of(weapon_counts_spec(stats.main_hand_counts@)),
            false,
        ),
        (
            blank(),
            "__**Secondary Selections:**__\n"@ + trim_of(weapon_counts_spec(stats.secondary_counts@)),
            false,
        ),
    ]);
    r
}

} // verus!
