//! Decisions behind the user commands: profile registration, member search,
//! and permission management.
use vstd::prelude::*;
use crate::text::{decimal, decimal_string, push_str, str_eq};
use crate::trade_skill::TradeSkill;
use crate::user_data::{ProfileUpdate, UserData};
use crate::weapon::Weapon;

verus! {

/// A profile registration request, as the user typed it.
pub enum RegisterCommand {
    MainHand(String),
    Secondary(String),
    Level(i64),
    GearScore(i64),
    TradeSkill(String, i64),
    WeaponLevel(String, i64),
    Username(String),
}

/// What a registration request does: the profile update to store, whether
/// the announcements listing the user must be re-rendered, and the reply.
pub struct RegisterPlan {
    pub update: Option<ProfileUpdate>,
    pub refresh: bool,
    pub reply: String,
}

/// `p` is a plan that changes nothing and answers `reply`.
pub open spec fn refused(p: RegisterPlan, reply: Seq<char>) -> bool {
    p.update is None && !p.refresh && p.reply@ == reply
}

/// `p` stores `u`, refreshes when `refresh`, and answers `reply`.
pub open spec fn accepted(p: RegisterPlan, u: ProfileUpdate, refresh: bool, reply: Seq<char>) -> bool {
    p.update == Some(u) && p.refresh == refresh && p.reply@ == reply
}

fn reply_with(prefix: &str, rest: &str) -> (r: String)
    ensures
        r@ == prefix@ + rest@,
{
    let mut s = String::from_str(prefix);
    push_str(&mut s, rest);
    s
}

/// Validates a registration request and says what it changes. Weapons and
/// trade skills are given by their stored codes; levels must lie in 1-60,
/// gear scores in 0-625, trade-skill levels in 0-200 and weapon levels in 0-20.
pub fn plan_register(cmd: RegisterCommand) -> (r: RegisterPlan)
    ensures
        match cmd {
            RegisterCommand::MainHand(s) => match Weapon::from_code_spec(s@) {
                Some(w) => accepted(r, ProfileUpdate::MainHand(w), true, "Main hand set to "@ + w.label_spec()),
                None => refused(r, "Invalid input for weapon"@),
            },
            RegisterCommand::Secondary(s) => match Weapon::from_code_spec(s@) {
                Some(w) => accepted(r, ProfileUpdate::Secondary(w), true, "Secondary set to "@ + w.label_spec()),
                None => refused(r, "Invalid input for weapon"@),
            },
            RegisterCommand::Level(l) => if 1 <= l <= 60 {
                accepted(r, ProfileUpdate::Level(l as u8), false, "Level set to "@ + decimal(l as nat))
            } else {
                refused(r, "Please enter a level from 1 to 60 (inclusive)."@)
            },
            RegisterCommand::GearScore(g) => if 0 <= g <= 625 {
                accepted(r, ProfileUpdate::GearScore(g as u16), true, "Gear score set to "@ + decimal(g as nat))
            } else {
                refused(r, "Please enter a level from 0 to 625 (inclusive)."@)
            },
            RegisterCommand::TradeSkill(s, l) => match TradeSkill::from_code_spec(s@) {
                Some(t) => if 0 <= l <= 200 {
                    accepted(r, ProfileUpdate::TradeSkill(t, l as u8), false, t.label_spec() + " set to "@ + decimal(l as nat))
                } else {
                    refused(r, "Please enter a level from 0 to 200 (inclusive)."@)
                },
                None => refused(r, "Invalid input for trade skill"@),
            },
            RegisterCommand::WeaponLevel(s, l) => match Weapon::from_code_spec(s@) {
                Some(w) => if 0 <= l <= 20 {
                    accepted(r, ProfileUpdate::WeaponLevel(w, l as u8), true, w.label_spec() + " set to "@ + decimal(l as nat))
                } else {
                    refused(r, "Please enter a level from 0 to 20 (inclusive)."@)
                },
                None => refused(r, "Invalid input for weapon"@),
            },
            RegisterCommand::Username(n) => r.update matches Some(ProfileUpdate::Username(m)) && m@ == n@
                && r.refresh && r.reply@ == "Username set to "@ + n@,
        },
{
    match cmd {
        RegisterCommand::MainHand(s) => match Weapon::from_code(s.as_str()) {
            Ok(w) => RegisterPlan {
                update: Some(ProfileUpdate::MainHand(w)),
                refresh: true,
                reply: reply_with("Main hand set to ", w.get_label()),
            },
            Err(_) => RegisterPlan { update: None, refresh: false, reply: String::from_str("Invalid input for weapon") },
        },
        RegisterCommand::Secondary(s) => match Weapon::from_code(s.as_str()) {
            Ok(w) => RegisterPlan {
                update: Some(ProfileUpdate::Secondary(w)),
                refresh: true,
                reply: reply_with("Secondary set to ", w.get_label()),
            },
            Err(_) => RegisterPlan { update: None, refresh: false, reply: String::from_str("Invalid input for weapon") },
        },
        RegisterCommand::Level(l) => if 1 <= l && l <= 60 {
            RegisterPlan {
                update: Some(ProfileUpdate::Level(l as u8)),
                refresh: false,
                reply: reply_with("Level set to ", decimal_string(l as u64).as_str()),
            }
        } else {
            RegisterPlan {
                update: None,
                refresh: false,
                reply: String::from_str("Please enter a level from 1 to 60 (inclusive)."),
            }
        },
        RegisterCommand::GearScore(g) => if 0 <= g && g <= 625 {
            RegisterPlan {
                update: Some(ProfileUpdate::GearScore(g as u16)),
                refresh: true,
                reply: reply_with("Gear score set to ", decimal_string(g as u64).as_str()),
            }
        } else {
            RegisterPlan {
                update: None,
                refresh: false,
                reply: String::from_str("Please enter a level from 0 to 625 (inclusive)."),
            }
        },
        RegisterCommand::TradeSkill(s, l) => match TradeSkill::from_code(s.as_str()) {
            Ok(t) => if 0 <= l && l <= 200 {
                let mut reply = String::from_str(t.get_label());
                push_str(&mut reply, " set to ");
                push_str(&mut reply, decimal_string(l as u64).as_str());
                RegisterPlan { update: Some(ProfileUpdate::TradeSkill(t, l as u8)), refresh: false, reply }
            } else {
                RegisterPlan {
                    update: None,
                    refresh: false,
                    reply: String::from_str("Please enter a level from 0 to 200 (inclusive)."),
                }
            },
            Err(_) => RegisterPlan {
                update: None,
                refresh: false,
                reply: String::from_str("Invalid input for trade skill"),
            },
        },
        RegisterCommand::WeaponLevel(s, l) => match Weapon::from_code(s.as_str()) {
            Ok(w) => if 0 <= l && l <= 20 {
                let mut reply = String::from_str(w.get_label());
                push_str(&mut reply, " set to ");
                push_str(&mut reply, decimal_string(l as u64).as_str());
                RegisterPlan { update: Some(ProfileUpdate::WeaponLevel(w, l as u8)), refresh: true, reply }
            } else {
                RegisterPlan {
                    update: None,
                    refresh: false,
                    reply: String::from_str("Please enter a level from 0 to 20 (inclusive)."),
                }
            },
            Err(_) => RegisterPlan { update: None, refresh: false, reply: String::from_str("Invalid input for weapon") },
        },
        RegisterCommand::Username(n) => {
            let reply = reply_with("Username set to ", n.as_str());
            RegisterPlan { update: Some(ProfileUpdate::Username(n)), refresh: true, reply }
        },
    }
}

/// Most names a search lists.
pub const SEARCH_LIMIT: usize = 100;

/// The names of the candidates whose value is at least `min`, in order.
/// A candidate without a value never matches.
pub open spec fn matching_names(c: Seq<(String, Option<u16>)>, min: u16) -> Seq<Seq<char>>
    decreases c.len(),
{
    if c.len() == 0 {
        Seq::empty()
    } else {
        let rest = matching_names(c.drop_last(), min);
        match c.last().1 {
            Some(v) => if v >= min {
                rest.push(c.last().0@)
            } else {
                rest
            },
            None => rest,
        }
    }
}

/// One line per name, each in back-quotes.
pub open spec fn name_lines(names: Seq<Seq<char>>) -> Seq<char>
    decreases names.len(),
{
    if names.len() == 0 {
        Seq::empty()
    } else {
        name_lines(names.drop_last()) + "`"@ + names.last() + "`\n"@
    }
}

/// The text of a search: the first hundred matching names, or `No Results`.
pub open spec fn search_text(c: Seq<(String, Option<u16>)>, min: u16) -> Seq<char> {
    let m = matching_names(c, min);
    if m.len() == 0 {
        "No Results"@
    } else if m.len() <= SEARCH_LIMIT {
        name_lines(m)
    } else {
        name_lines(m.take(SEARCH_LIMIT as int))
    }
}

proof fn lemma_matching_prefix(c: Seq<(String, Option<u16>)>, min: u16, i: int, n: int)
    requires
        0 <= i <= n <= c.len(),
    ensures
        matching_names(c.subrange(0, i), min).len() <= matching_names(c.subrange(0, n), min).len(),
        matching_names(c.subrange(0, n), min).take(matching_names(c.subrange(0, i), min).len() as int)
            == matching_names(c.subrange(0, i), min),
    decreases n - i,
{
    if i < n {
        lemma_matching_prefix(c, min, i, n - 1);
        let s = c.subrange(0, n);
        assert(s.drop_last() == c.subrange(0, n - 1));
        let a = matching_names(c.subrange(0, n - 1), min);
        let k = matching_names(c.subrange(0, i), min).len() as int;
        assert(matching_names(s, min).take(k) =~= a.take(k));
    } else {
        assert(matching_names(c.subrange(0, n), min).take(matching_names(c.subrange(0, n), min).len() as int)
            =~= matching_names(c.subrange(0, n), min));
    }
}

/// Lists the names of the candidates whose value reaches `min`, at most a
/// hundred of them, or says that there are none.
pub fn search_names(candidates: &Vec<(String, Option<u16>)>, min: u16) -> (r: String)
    ensures
        r@ == search_text(candidates@, min),
{
    let mut names = String::new();
    let mut count: usize = 0;
    let mut i: usize = 0;
    loop
        invariant_except_break
            i <= candidates@.len(),
            count == matching_names(candidates@.subrange(0, i as int), min).len(),
            count < SEARCH_LIMIT,
            names@ == name_lines(matching_names(candidates@.subrange(0, i as int), min)),
        ensures
            count <= SEARCH_LIMIT,
            count <= matching_names(candidates@, min).len(),
            names@ == name_lines(matching_names(candidates@, min).take(count as int)),
            count == SEARCH_LIMIT || count == matching_names(candidates@, min).len(),
        decreases candidates@.len() - i,
    {
        if i >= candidates.len() {
            proof {
                assert(candidates@.subrange(0, candidates@.len() as int) == candidates@);
                let m = matching_names(candidates@, min);
                assert(m.take(count as int) =~= m);
            }
            break;
        }
        let ghost next = candidates@.subrange(0, i + 1);
        assert(next.drop_last() == candidates@.subrange(0, i as int));
        match candidates[i].1 {
            Some(v) => if v >= min {
                push_str(&mut names, "`");
                push_str(&mut names, candidates[i].0.as_str());
                push_str(&mut names, "`\n");
                count = count + 1;
            },
            None => {},
        }
        i = i + 1;
        proof {
            let m = matching_names(candidates@.subrange(0, i as int), min);
            if m.len() > 0 {
                assert(m.drop_last() == matching_names(candidates@.subrange(0, i - 1), min) || m
                    == matching_names(candidates@.subrange(0, i - 1), min));
            }
            assert(names@ =~= name_lines(m));
        }
        if count == SEARCH_LIMIT {
            proof {
                lemma_matching_prefix(candidates@, min, i as int, candidates@.len() as int);
                assert(candidates@.subrange(0, candidates@.len() as int) == candidates@);
            }
            break;
        }
    }
    proof {
        let m = matching_names(candidates@, min);
        if m.len() <= SEARCH_LIMIT {
            assert(count == m.len());
            assert(m.take(count as int) =~= m);
        }
    }
    if count == 0 {
        String::from_str("No Results")
    } else {
        names
    }
}

/// The title of a search report for `subject`.
pub fn search_title(subject: &str) -> (r: String)
    ensures
        r@ == "War Helper Search - "@ + subject@,
{
    reply_with("War Helper Search - ", subject)
}

/// What a member search compares.
#[derive(Clone, Copy, PartialEq, Eq, Structural, Debug)]
pub enum SearchKey {
    TradeSkill(TradeSkill),
    Weapon(Weapon),
    GearScore,
    Level,
}

/// The highest value of what `key` compares, used when no minimum is given.
pub open spec fn default_minimum(key: SearchKey) -> u16 {
    match key {
        SearchKey::TradeSkill(_) => 200,
        SearchKey::Weapon(_) => 20,
        SearchKey::GearScore => 625,
        SearchKey::Level => 60,
    }
}

/// A given minimum brought into the range of the compared values: below 0
/// it is 0, above `u16::MAX` it is `u16::MAX`. Every compared value fits in
/// 16 bits, so the same profiles reach the result as reach the given number.
pub open spec fn clamped_minimum(v: i64) -> u16 {
    if v < 0 {
        0
    } else if v > u16::MAX {
        u16::MAX
    } else {
        v as u16
    }
}

/// The minimum of a search: the one given, clamped to the range of the
/// compared values, or the highest value when none is given.
pub fn search_minimum(key: SearchKey, given: Option<i64>) -> (r: u16)
    ensures
        r == match given {
            None => default_minimum(key),
            Some(v) => clamped_minimum(v),
        },
{
    match given {
        None => match key {
            SearchKey::TradeSkill(_) => 200,
            SearchKey::Weapon(_) => 20,
            SearchKey::GearScore => 625,
            SearchKey::Level => 60,
        },
        Some(v) => if v < 0 {
            0
        } else if v > u16::MAX as i64 {
            u16::MAX
        } else {
            v as u16
        },
    }
}

/// The value of a profile that a search compares.
pub fn search_value(key: SearchKey, p: &UserData) -> (r: u16)
    ensures
        r == match key {
            SearchKey::TradeSkill(s) => p.trade_skill_spec(s) as u16,
            SearchKey::Weapon(w) => p.weapon_level_spec(w) as u16,
            SearchKey::GearScore => p.gear_score,
            SearchKey::Level => p.level as u16,
        },
{
    match key {
        SearchKey::TradeSkill(s) => p.get_trade_skill(s) as u16,
        SearchKey::Weapon(w) => p.get_weapon_level(w) as u16,
        SearchKey::GearScore => p.gear_score,
        SearchKey::Level => p.level as u16,
    }
}

/// What a search is about, as named in its title.
pub fn search_subject(key: SearchKey) -> (r: &'static str)
    ensures
        r@ == match key {
            SearchKey::TradeSkill(s) => s.label_spec(),
            SearchKey::Weapon(w) => w.label_spec(),
            SearchKey::GearScore => "Gear Score"@,
            SearchKey::Level => "Level"@,
        },
{
    match key {
        SearchKey::TradeSkill(s) => s.get_label(),
        SearchKey::Weapon(w) => w.get_label(),
        SearchKey::GearScore => "Gear Score",
        SearchKey::Level => "Level",
    }
}

/// The description of a search report: the minimum asked for.
pub fn search_description(key: SearchKey, min: u16) -> (r: String)
    ensures
        r@ == (if key is GearScore {
            "Minimum GS: "@
        } else {
            "Minimum Level: "@
        }) + decimal(min as nat),
{
    let prefix = if matches!(key, SearchKey::GearScore) {
        "Minimum GS: "
    } else {
        "Minimum Level: "
    };
    reply_with(prefix, decimal_string(min as u64).as_str())
}

/// The change a permission command asks for: `add` grants, `remove`
/// withdraws, anything else is no command; with the reply to give.
pub fn permission_change(option: &str) -> (r: Option<(bool, &'static str)>)
    ensures
        option@ == "add"@ ==> (r matches Some((true, m)) && m@
            == "The bot admin permission has been added to the specified role."@),
        option@ != "add"@ && option@ == "remove"@ ==> (r matches Some((false, m)) && m@
            == "The bot admin permission has been removed from the specified role."@),
        option@ != "add"@ && option@ != "remove"@ ==> r is None,
{
    if str_eq(option, "add") {
        Some((true, "The bot admin permission has been added to the specified role."))
    } else if str_eq(option, "remove") {
        Some((false, "The bot admin permission has been removed from the specified role."))
    } else {
        None
    }
}

} // verus!
