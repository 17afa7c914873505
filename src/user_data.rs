//! A player's registered profile.
use vstd::prelude::*;
use crate::trade_skill::{TradeSkill, TRADE_SKILL_COUNT};
use crate::weapon::{Weapon, WEAPON_COUNT};

verus! {

/// Registered attributes of one player. `trade_skills` holds a level for each
/// trade skill by its table index, `weapons` a level for each weapon by its
/// table index; an entry that is missing reads as level 0.
pub struct UserData {
    pub username: String,
    pub main_hand: Option<Weapon>,
    pub secondary: Option<Weapon>,
    pub level: u8,
    pub gear_score: u16,
    pub trade_skills: Vec<u8>,
    pub weapons: Vec<u8>,
}

/// One field update of a profile.
pub enum ProfileUpdate {
    MainHand(Weapon),
    Secondary(Weapon),
    Level(u8),
    GearScore(u16),
    TradeSkill(TradeSkill, u8),
    WeaponLevel(Weapon, u8),
    Username(String),
}

/// A level for every trade skill, all 0.
pub fn default_trade_skills() -> (r: Vec<u8>)
    ensures
        r@ == Seq::new(TRADE_SKILL_COUNT as nat, |i: int| 0u8),
{
    zeros(TRADE_SKILL_COUNT)
}

/// A level for every weapon, all 0.
pub fn default_weapons() -> (r: Vec<u8>)
    ensures
        r@ == Seq::new(WEAPON_COUNT as nat, |i: int| 0u8),
{
    zeros(WEAPON_COUNT)
}

fn zeros(n: usize) -> (r: Vec<u8>)
    ensures
        r@ == Seq::new(n as nat, |i: int| 0u8),
{
    let mut r: Vec<u8> = Vec::new();
    while r.len() < n
        invariant
            r@ == Seq::new(r@.len(), |i: int| 0u8),
            r@.len() <= n,
        decreases n - r@.len(),
    {
        r.push(0);
        assert(r@ =~= Seq::new(r@.len(), |i: int| 0u8));
    }
    r
}

/// The level stored at `i`, or 0 where there is none.
pub open spec fn level_at(levels: Seq<u8>, i: nat) -> u8 {
    if i < levels.len() {
        levels[i as int]
    } else {
        0
    }
}

fn get_level(levels: &Vec<u8>, i: usize) -> (r: u8)
    ensures
        r == level_at(levels@, i as nat),
{
    if i < levels.len() {
        levels[i]
    } else {
        0
    }
}

fn set_level(levels: &mut Vec<u8>, i: usize, level: u8)
    ensures
        i < old(levels)@.len() ==> final(levels)@ == old(levels)@.update(i as int, level),
        i >= old(levels)@.len() ==> final(levels)@ == old(levels)@ + Seq::new(
            (i - old(levels)@.len()) as nat,
            |k: int| 0u8,
        ).push(level),
{
    if i < levels.len() {
        levels.set(i, level);
    } else {
        let ghost start = levels@;
        while levels.len() < i
            invariant
                start.len() <= levels@.len() <= i,
                levels@ == start + Seq::new((levels@.len() - start.len()) as nat, |k: int| 0u8),
            decreases i - levels@.len(),
        {
            levels.push(0);
            assert(levels@ =~= start + Seq::new((levels@.len() - start.len()) as nat, |k: int| 0u8));
        }
        levels.push(level);
    }
}

impl Default for UserData {
    /// A fresh profile: no name, no weapons equipped, level 1, gear score 0,
    /// every trade skill and weapon at level 0.
    fn default() -> (r: Self)
        ensures
            r.username@ == Seq::<char>::empty(),
            r.main_hand is None,
            r.secondary is None,
            r.level == 1,
            r.gear_score == 0,
            r.trade_skills@ == Seq::new(TRADE_SKILL_COUNT as nat, |i: int| 0u8),
            r.weapons@ == Seq::new(WEAPON_COUNT as nat, |i: int| 0u8),
    {
        UserData {
            username: String::new(),
            main_hand: None,
            secondary: None,
            level: 1,
            gear_score: 0,
            trade_skills: default_trade_skills(),
            weapons: default_weapons(),
        }
    }
}

impl UserData {
    /// Level of `w` in this profile.
    pub open spec fn weapon_level_spec(&self, w: Weapon) -> u8 {
        level_at(self.weapons@, w.spec_index())
    }

    /// Level of `s` in this profile.
    pub open spec fn trade_skill_spec(&self, s: TradeSkill) -> u8 {
        level_at(self.trade_skills@, s.spec_index())
    }

    /// Level of the main-hand weapon, 0 when none is equipped.
    pub open spec fn main_hand_level_spec(&self) -> u8 {
        match self.main_hand {
            Some(w) => self.weapon_level_spec(w),
            None => 0,
        }
    }

    /// Level of the secondary weapon, 0 when none is equipped.
    pub open spec fn secondary_level_spec(&self) -> u8 {
        match self.secondary {
            Some(w) => self.weapon_level_spec(w),
            None => 0,
        }
    }

    /// Level of the main-hand weapon, 0 when none is equipped.
    pub fn get_main_hand_level(&self) -> (r: u8)
        ensures
            r == self.main_hand_level_spec(),
    {
        match self.main_hand {
            Some(w) => get_level(&self.weapons, w.index()),
            None => 0,
        }
    }

    /// Level of the secondary weapon, 0 when none is equipped.
    pub fn get_secondary_level(&self) -> (r: u8)
        ensures
            r == self.secondary_level_spec(),
    {
        match self.secondary {
            Some(w) => get_level(&self.weapons, w.index()),
            None => 0,
        }
    }

    /// Level of a trade skill.
    pub fn get_trade_skill(&self, skill: TradeSkill) -> (r: u8)
        ensures
            r == self.trade_skill_spec(skill),
    {
        get_level(&self.trade_skills, skill.index())
    }

    /// Level of a weapon.
    pub fn get_weapon_level(&self, weapon: Weapon) -> (r: u8)
        ensures
            r == self.weapon_level_spec(weapon),
    {
        get_level(&self.weapons, weapon.index())
    }

    /// Applies one field update. The named field takes the new value; every
    /// other field, and every other trade skill or weapon level, is kept.
    pub fn apply(&mut self, update: ProfileUpdate)
        ensures
            match update {
                ProfileUpdate::MainHand(w) => final(self).main_hand == Some(w),
                ProfileUpdate::Secondary(w) => final(self).secondary == Some(w),
                ProfileUpdate::Level(l) => final(self).level == l,
                ProfileUpdate::GearScore(g) => final(self).gear_score == g,
                ProfileUpdate::TradeSkill(s, l) => final(self).trade_skill_spec(s) == l,
                ProfileUpdate::WeaponLevel(w, l) => final(self).weapon_level_spec(w) == l,
                ProfileUpdate::Username(n) => final(self).username@ == n@,
            },
            !(update is MainHand) ==> final(self).main_hand == old(self).main_hand,
            !(update is Secondary) ==> final(self).secondary == old(self).secondary,
            !(update is Level) ==> final(self).level == old(self).level,
            !(update is GearScore) ==> final(self).gear_score == old(self).gear_score,
            !(update is Username) ==> final(self).username@ == old(self).username@,
            forall|s: TradeSkill|
                !(update matches ProfileUpdate::TradeSkill(t, _) && t == s) ==> (
                #[trigger] final(self).trade_skill_spec(s)) == old(self).trade_skill_spec(s),
            forall|w: Weapon|
                !(update matches ProfileUpdate::WeaponLevel(v, _) && v == w) ==> (
                #[trigger] final(self).weapon_level_spec(w)) == old(self).weapon_level_spec(w),
    {
        match update {
            ProfileUpdate::MainHand(w) => {
                self.main_hand = Some(w);
            },
            ProfileUpdate::Secondary(w) => {
                self.secondary = Some(w);
            },
            ProfileUpdate::Level(l) => {
                self.level = l;
            },
            ProfileUpdate::GearScore(g) => {
                self.gear_score = g;
            },
            ProfileUpdate::TradeSkill(s, l) => {
                set_level(&mut self.trade_skills, s.index(), l);
                assert forall|t: TradeSkill| t != s implies #[trigger] self.trade_skill_spec(t)
                    == old(self).trade_skill_spec(t) by {
                    assert(t.spec_index() != s.spec_index());
                }
            },
            ProfileUpdate::WeaponLevel(w, l) => {
                set_level(&mut self.weapons, w.index(), l);
                assert forall|v: Weapon| v != w implies #[trigger] self.weapon_level_spec(v)
                    == old(self).weapon_level_spec(v) by {
                    assert(v.spec_index() != w.spec_index());
                }
            },
            ProfileUpdate::Username(n) => {
                self.username = n;
            },
        }
    }
}

} // verus!
