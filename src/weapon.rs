//! The weapons a player can equip.
use vstd::prelude::*;
use crate::text::str_eq;

verus! {

/// Number of weapon kinds.
pub const WEAPON_COUNT: usize = 12;

/// A weapon kind, in the order of the weapon table.
#[derive(Clone, Copy, PartialEq, Eq, Structural, Debug, Hash, PartialOrd, Ord, Default)]
pub enum Weapon {
    #[default]
    SwordAndShield,
    Rapier,
    Hatchet,
    Spear,
    GreatAxe,
    WarHammer,
    Bow,
    Musket,
    FireStaff,
    LifeStaff,
    IceGauntlet,
    VoidGauntlet,
}

impl Weapon {
    /// Position of the weapon in the fixed weapon table.
    pub open spec fn spec_index(self) -> nat {
        match self {
            Weapon::SwordAndShield => 0,
            Weapon::Rapier => 1,
            Weapon::Hatchet => 2,
            Weapon::Spear => 3,
            Weapon::GreatAxe => 4,
            Weapon::WarHammer => 5,
            Weapon::Bow => 6,
            Weapon::Musket => 7,
            Weapon::FireStaff => 8,
            Weapon::LifeStaff => 9,
            Weapon::IceGauntlet => 10,
            Weapon::VoidGauntlet => 11,
        }
    }

    /// Human-readable name.
    pub open spec fn label_spec(self) -> Seq<char> {
        match self {
            Weapon::SwordAndShield => "Sword and Shield"@,
            Weapon::Rapier => "Rapier"@,
            Weapon::Hatchet => "Hatchet"@,
            Weapon::Spear => "Spear"@,
            Weapon::GreatAxe => "Great Axe"@,
            Weapon::WarHammer => "War Hammer"@,
            Weapon::Bow => "Bow"@,
            Weapon::Musket => "Musket"@,
            Weapon::FireStaff => "Fire Staff"@,
            Weapon::LifeStaff => "Life Staff"@,
            Weapon::IceGauntlet => "Ice Gauntlet"@,
            Weapon::VoidGauntlet => "Void Gauntlet"@,
        }
    }

    /// Short name shown on roster lines.
    pub open spec fn abbreviation_spec(self) -> Seq<char> {
        match self {
            Weapon::SwordAndShield => "SS"@,
            Weapon::Rapier => "R"@,
            Weapon::Hatchet => "H"@,
            Weapon::Spear => "S"@,
            Weapon::GreatAxe => "GA"@,
            Weapon::WarHammer => "WH"@,
            Weapon::Bow => "B"@,
            Weapon::Musket => "M"@,
            Weapon::FireStaff => "FS"@,
            Weapon::LifeStaff => "LS"@,
            Weapon::IceGauntlet => "IG"@,
            Weapon::VoidGauntlet => "VG"@,
        }
    }

    /// Stored code of the weapon.
    pub open spec fn code_spec(self) -> Seq<char> {
        match self {
            Weapon::SwordAndShield => "SWORDANDSHIELD"@,
            Weapon::Rapier => "RAPIER"@,
            Weapon::Hatchet => "HATCHET"@,
            Weapon::Spear => "SPEAR"@,
            Weapon::GreatAxe => "GREATAXE"@,
            Weapon::WarHammer => "WARHAMMER"@,
            Weapon::Bow => "BOW"@,
            Weapon::Musket => "MUSKET"@,
            Weapon::FireStaff => "FIRESTAFF"@,
            Weapon::LifeStaff => "LIFESTAFF"@,
            Weapon::IceGauntlet => "ICEGAUNT"@,
            Weapon::VoidGauntlet => "VOIDGAUNT"@,
        }
    }

    /// Position of the weapon in the fixed weapon table.
    pub fn index(&self) -> (r: usize)
        ensures
            r == self.spec_index(),
            r < WEAPON_COUNT,
    {
        match self {
            Weapon::SwordAndShield => 0,
            Weapon::Rapier => 1,
            Weapon::Hatchet => 2,
            Weapon::Spear => 3,
            Weapon::GreatAxe => 4,
            Weapon::WarHammer => 5,
            Weapon::Bow => 6,
            Weapon::Musket => 7,
            Weapon::FireStaff => 8,
            Weapon::LifeStaff => 9,
            Weapon::IceGauntlet => 10,
            Weapon::VoidGauntlet => 11,
        }
    }

    /// Human-readable name.
    pub fn get_label(&self) -> (r: &'static str)
        ensures
            r@ == self.label_spec(),
    {
        match self {
            Weapon::SwordAndShield => "Sword and Shield",
            Weapon::Rapier => "Rapier",
            Weapon::Hatchet => "Hatchet",
            Weapon::Spear => "Spear",
            Weapon::GreatAxe => "Great Axe",
            Weapon::WarHammer => "War Hammer",
            Weapon::Bow => "Bow",
            Weapon::Musket => "Musket",
            Weapon::FireStaff => "Fire Staff",
            Weapon::LifeStaff => "Life Staff",
            Weapon::IceGauntlet => "Ice Gauntlet",
            Weapon::VoidGauntlet => "Void Gauntlet",
        }
    }

    /// Short name shown on roster lines.
    pub fn get_abbreviation(&self) -> (r: &'static str)
        ensures
            r@ == self.abbreviation_spec(),
    {
        match self {
            Weapon::SwordAndShield => "SS",
            Weapon::Rapier => "R",
            Weapon::Hatchet => "H",
            Weapon::Spear => "S",
            Weapon::GreatAxe => "GA",
            Weapon::WarHammer => "WH",
            Weapon::Bow => "B",
            Weapon::Musket => "M",
            Weapon::FireStaff => "FS",
            Weapon::LifeStaff => "LS",
            Weapon::IceGauntlet => "IG",
            Weapon::VoidGauntlet => "VG",
        }
    }

    /// Stored code of the weapon.
    pub fn code(&self) -> (r: &'static str)
        ensures
            r@ == self.code_spec(),
    {
        match self {
            Weapon::SwordAndShield => "SWORDANDSHIELD",
            Weapon::Rapier => "RAPIER",
            Weapon::Hatchet => "HATCHET",
            Weapon::Spear => "SPEAR",
            Weapon::GreatAxe => "GREATAXE",
            Weapon::WarHammer => "WARHAMMER",
            Weapon::Bow => "BOW",
            Weapon::Musket => "MUSKET",
            Weapon::FireStaff => "FIRESTAFF",
            Weapon::LifeStaff => "LIFESTAFF",
            Weapon::IceGauntlet => "ICEGAUNT",
            Weapon::VoidGauntlet => "VOIDGAUNT",
        }
    }

    /// The weapon whose stored code is `s`, if any.
    pub open spec fn from_code_spec(s: Seq<char>) -> Option<Weapon> {
        if s == "SWORDANDSHIELD"@ {
            Some(Weapon::SwordAndShield)
        } else if s == "RAPIER"@ {
            Some(Weapon::Rapier)
        } else if s == "HATCHET"@ {
            Some(Weapon::Hatchet)
        } else if s == "SPEAR"@ {
            Some(Weapon::Spear)
        } else if s == "GREATAXE"@ {
            Some(Weapon::GreatAxe)
        } else if s == "WARHAMMER"@ {
            Some(Weapon::WarHammer)
        } else if s == "BOW"@ {
            Some(Weapon::Bow)
        } else if s == "MUSKET"@ {
            Some(Weapon::Musket)
        } else if s == "FIRESTAFF"@ {
            Some(Weapon::FireStaff)
        } else if s == "LIFESTAFF"@ {
            Some(Weapon::LifeStaff)
        } else if s == "ICEGAUNT"@ {
            Some(Weapon::IceGauntlet)
        } else if s == "VOIDGAUNT"@ {
            Some(Weapon::VoidGauntlet)
        } else {
            None
        }
    }

    /// Parses a stored weapon code; any other text is refused.
    pub fn from_code(s: &str) -> (r: Result<Weapon, &'static str>)
        ensures
            r matches Ok(w) ==> Self::from_code_spec(s@) == Some(w),
            r matches Err(e) ==> Self::from_code_spec(s@) is None && e@ == "Failed to parse weapon"@,
    {
        if str_eq(s, "SWORDANDSHIELD") {
            Ok(Weapon::SwordAndShield)
        } else if str_eq(s, "RAPIER") {
            Ok(Weapon::Rapier)
        } else if str_eq(s, "HATCHET") {
            Ok(Weapon::Hatchet)
        } else if str_eq(s, "SPEAR") {
            Ok(Weapon::Spear)
        } else if str_eq(s, "GREATAXE") {
            Ok(Weapon::GreatAxe)
        } else if str_eq(s, "WARHAMMER") {
            Ok(Weapon::WarHammer)
        } else if str_eq(s, "BOW") {
            Ok(Weapon::Bow)
        } else if str_eq(s, "MUSKET") {
            Ok(Weapon::Musket)
        } else if str_eq(s, "FIRESTAFF") {
            Ok(Weapon::FireStaff)
        } else if str_eq(s, "LIFESTAFF") {
            Ok(Weapon::LifeStaff)
        } else if str_eq(s, "ICEGAUNT") {
            Ok(Weapon::IceGauntlet)
        } else if str_eq(s, "VOIDGAUNT") {
            Ok(Weapon::VoidGauntlet)
        } else {
            Err("Failed to parse weapon")
        }
    }
}

/// The weapon table, in its fixed order.
pub open spec fn weapon_table() -> Seq<Weapon> {
    seq![
        Weapon::SwordAndShield,
        Weapon::Rapier,
        Weapon::Hatchet,
        Weapon::Spear,
        Weapon::GreatAxe,
        Weapon::WarHammer,
        Weapon::Bow,
        Weapon::Musket,
        Weapon::FireStaff,
        Weapon::LifeStaff,
        Weapon::IceGauntlet,
        Weapon::VoidGauntlet,
    ]
}

/// All weapons, in the fixed table order.
pub fn all_weapons() -> (r: Vec<Weapon>)
    ensures
        r@ == weapon_table(),
        r@.len() == WEAPON_COUNT,
        forall|i: int| 0 <= i < WEAPON_COUNT ==> (#[trigger] r@[i]).spec_index() == i,
{
    let r = vec![
        Weapon::SwordAndShield,
        Weapon::Rapier,
        Weapon::Hatchet,
        Weapon::Spear,
        Weapon::GreatAxe,
        Weapon::WarHammer,
        Weapon::Bow,
        Weapon::Musket,
        Weapon::FireStaff,
        Weapon::LifeStaff,
        Weapon::IceGauntlet,
        Weapon::VoidGauntlet,
    ];
    assert(r@ =~= weapon_table());
    r
}

/// The weapon at table position `k` has index `k`.
pub proof fn lemma_table_position(k: int)
    requires
        0 <= k < WEAPON_COUNT,
    ensures
        weapon_table()[k].spec_index() == k,
{
}

} // verus!
