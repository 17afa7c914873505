//! The trade skills a player can level.
use vstd::prelude::*;
use crate::text::str_eq;

verus! {

/// Number of trade skills.
pub const TRADE_SKILL_COUNT: usize = 17;

/// A trade skill, in the order of the trade-skill table.
#[derive(Clone, Copy, PartialEq, Eq, Structural, Debug, Hash, PartialOrd, Ord, Default)]
pub enum TradeSkill {
    #[default]
    WeaponSmithing,
    Armoring,
    Engineering,
    JewelCrafting,
    Arcana,
    Cooking,
    Furnishing,
    Mining,
    TrackingSkinning,
    Fishing,
    Logging,
    Harvesting,
    Smelting,
    StoneCutting,
    LeatherWorking,
    Weaving,
    WoodWorking,
}

impl TradeSkill {
    /// Position of the skill in the fixed trade-skill table.
    pub open spec fn spec_index(self) -> nat {
        match self {
            TradeSkill::WeaponSmithing => 0,
            TradeSkill::Armoring => 1,
            TradeSkill::Engineering => 2,
            TradeSkill::JewelCrafting => 3,
            TradeSkill::Arcana => 4,
            TradeSkill::Cooking => 5,
            TradeSkill::Furnishing => 6,
            TradeSkill::Mining => 7,
            TradeSkill::TrackingSkinning => 8,
            TradeSkill::Fishing => 9,
            TradeSkill::Logging => 10,
            TradeSkill::Harvesting => 11,
            TradeSkill::Smelting => 12,
            TradeSkill::StoneCutting => 13,
            TradeSkill::LeatherWorking => 14,
            TradeSkill::Weaving => 15,
            TradeSkill::WoodWorking => 16,
        }
    }

    /// Human-readable name.
    pub open spec fn label_spec(self) -> Seq<char> {
        match self {
            TradeSkill::WeaponSmithing => "Weaponsmithing"@,
            TradeSkill::Armoring => "Armoring"@,
            TradeSkill::Engineering => "Engineering"@,
            TradeSkill::JewelCrafting => "Jewelcrafting"@,
            TradeSkill::Arcana => "Arcana"@,
            TradeSkill::Cooking => "Cooking"@,
            TradeSkill::Furnishing => "Furnishing"@,
            TradeSkill::Mining => "Mining"@,
            TradeSkill::TrackingSkinning => "Tracking and Skinning"@,
            TradeSkill::Fishing => "Fishing"@,
            TradeSkill::Logging => "Logging"@,
            TradeSkill::Harvesting => "Harvesting"@,
            TradeSkill::Smelting => "Smelting"@,
            TradeSkill::StoneCutting => "Stonecutting"@,
            TradeSkill::LeatherWorking => "Leatherworking"@,
            TradeSkill::Weaving => "Weaving"@,
            TradeSkill::WoodWorking => "Woodworking"@,
        }
    }

    /// Stored code of the skill.
    pub open spec fn code_spec(self) -> Seq<char> {
        match self {
            TradeSkill::WeaponSmithing => "WEAPONSMITHING"@,
            TradeSkill::Armoring => "ARMORING"@,
            TradeSkill::Engineering => "ENGINEERING"@,
            TradeSkill::JewelCrafting => "JEWELCRAFTING"@,
            TradeSkill::Arcana => "ARCANA"@,
            TradeSkill::Cooking => "COOKING"@,
            TradeSkill::Furnishing => "FURNISHING"@,
            TradeSkill::Mining => "MINING"@,
            TradeSkill::TrackingSkinning => "TRACKINGSKINNING"@,
            TradeSkill::Fishing => "FISHING"@,
            TradeSkill::Logging => "LOGGING"@,
            TradeSkill::Harvesting => "HARVESTING"@,
            TradeSkill::Smelting => "SMELTING"@,
            TradeSkill::StoneCutting => "STONECUTTING"@,
            TradeSkill::LeatherWorking => "LEATHERWORKING"@,
            TradeSkill::Weaving => "WEAVING"@,
            TradeSkill::WoodWorking => "WOODWORKING"@,
        }
    }

    /// Position of the skill in the fixed trade-skill table.
    pub fn index(&self) -> (r: usize)
        ensures
            r == self.spec_index(),
            r < TRADE_SKILL_COUNT,
    {
        match self {
            TradeSkill::WeaponSmithing => 0,
            TradeSkill::Armoring => 1,
            TradeSkill::Engineering => 2,
            TradeSkill::JewelCrafting => 3,
            TradeSkill::Arcana => 4,
            TradeSkill::Cooking => 5,
            TradeSkill::Furnishing => 6,
            TradeSkill::Mining => 7,
            TradeSkill::TrackingSkinning => 8,
            TradeSkill::Fishing => 9,
            TradeSkill::Logging => 10,
            TradeSkill::Harvesting => 11,
            TradeSkill::Smelting => 12,
            TradeSkill::StoneCutting => 13,
            TradeSkill::LeatherWorking => 14,
            TradeSkill::Weaving => 15,
            TradeSkill::WoodWorking => 16,
        }
    }

    /// Human-readable name.
    pub fn get_label(&self) -> (r: &'static str)
        ensures
            r@ == self.label_spec(),
    {
        match self {
            TradeSkill::WeaponSmithing => "Weaponsmithing",
            TradeSkill::Armoring => "Armoring",
            TradeSkill::Engineering => "Engineering",
            TradeSkill::JewelCrafting => "Jewelcrafting",
            TradeSkill::Arcana => "Arcana",
            TradeSkill::Cooking => "Cooking",
            TradeSkill::Furnishing => "Furnishing",
            TradeSkill::Mining => "Mining",
            TradeSkill::TrackingSkinning => "Tracking and Skinning",
            TradeSkill::Fishing => "Fishing",
            TradeSkill::Logging => "Logging",
            TradeSkill::Harvesting => "Harvesting",
            TradeSkill::Smelting => "Smelting",
            TradeSkill::StoneCutting => "Stonecutting",
            TradeSkill::LeatherWorking => "Leatherworking",
            TradeSkill::Weaving => "Weaving",
            TradeSkill::WoodWorking => "Woodworking",
        }
    }

    /// Stored code of the skill.
    pub fn code(&self) -> (r: &'static str)
        ensures
            r@ == self.code_spec(),
    {
        match self {
            TradeSkill::WeaponSmithing => "WEAPONSMITHING",
            TradeSkill::Armoring => "ARMORING",
            TradeSkill::Engineering => "ENGINEERING",
            TradeSkill::JewelCrafting => "JEWELCRAFTING",
            TradeSkill::Arcana => "ARCANA",
            TradeSkill::Cooking => "COOKING",
            TradeSkill::Furnishing => "FURNISHING",
            TradeSkill::Mining => "MINING",
            TradeSkill::TrackingSkinning => "TRACKINGSKINNING",
            TradeSkill::Fishing => "FISHING",
            TradeSkill::Logging => "LOGGING",
            TradeSkill::Harvesting => "HARVESTING",
            TradeSkill::Smelting => "SMELTING",
            TradeSkill::StoneCutting => "STONECUTTING",
            TradeSkill::LeatherWorking => "LEATHERWORKING",
            TradeSkill::Weaving => "WEAVING",
            TradeSkill::WoodWorking => "WOODWORKING",
        }
    }

    /// The skill named by `s`: its stored code, or its table index in decimal.
    pub open spec fn from_code_spec(s: Seq<char>) -> Option<TradeSkill> {
        if s == "WEAPONSMITHING"@ || s == "0"@ {
            Some(TradeSkill::WeaponSmithing)
        } else if s == "ARMORING"@ || s == "1"@ {
            Some(TradeSkill::Armoring)
        } else if s == "ENGINEERING"@ || s == "2"@ {
            Some(TradeSkill::Engineering)
        } else if s == "JEWELCRAFTING"@ || s == "3"@ {
            Some(TradeSkill::JewelCrafting)
        } else if s == "ARCANA"@ || s == "4"@ {
            Some(TradeSkill::Arcana)
        } else if s == "COOKING"@ || s == "5"@ {
            Some(TradeSkill::Cooking)
        } else if s == "FURNISHING"@ || s == "6"@ {
            Some(TradeSkill::Furnishing)
        } else if s == "MINING"@ || s == "7"@ {
            Some(TradeSkill::Mining)
        } else if s == "TRACKINGSKINNING"@ || s == "8"@ {
            Some(TradeSkill::TrackingSkinning)
        } else if s == "FISHING"@ || s == "9"@ {
            Some(TradeSkill::Fishing)
        } else if s == "LOGGING"@ || s == "10"@ {
            Some(TradeSkill::Logging)
        } else if s == "HARVESTING"@ || s == "11"@ {
            Some(TradeSkill::Harvesting)
        } else if s == "SMELTING"@ || s == "12"@ {
            Some(TradeSkill::Smelting)
        } else if s == "STONECUTTING"@ || s == "13"@ {
            Some(TradeSkill::StoneCutting)
        } else if s == "LEATHERWORKING"@ || s == "14"@ {
            Some(TradeSkill::LeatherWorking)
        } else if s == "WEAVING"@ || s == "15"@ {
            Some(TradeSkill::Weaving)
        } else if s == "WOODWORKING"@ || s == "16"@ {
            Some(TradeSkill::WoodWorking)
        } else {
            None
        }
    }

    /// Parses a stored trade-skill code or table index; any other text is
    /// refused and handed back.
    pub fn from_code(s: &str) -> (r: Result<TradeSkill, String>)
        ensures
            r matches Ok(t) ==> Self::from_code_spec(s@) == Some(t),
            r matches Err(e) ==> Self::from_code_spec(s@) is None && e@ == s@,
    {
        if str_eq(s, "WEAPONSMITHING") || str_eq(s, "0") {
            Ok(TradeSkill::WeaponSmithing)
        } else if str_eq(s, "ARMORING") || str_eq(s, "1") {
            Ok(TradeSkill::Armoring)
        } else if str_eq(s, "ENGINEERING") || str_eq(s, "2") {
            Ok(TradeSkill::Engineering)
        } else if str_eq(s, "JEWELCRAFTING") || str_eq(s, "3") {
            Ok(TradeSkill::JewelCrafting)
        } else if str_eq(s, "ARCANA") || str_eq(s, "4") {
            Ok(TradeSkill::Arcana)
        } else if str_eq(s, "COOKING") || str_eq(s, "5") {
            Ok(TradeSkill::Cooking)
        } else if str_eq(s, "FURNISHING") || str_eq(s, "6") {
            Ok(TradeSkill::Furnishing)
        } else if str_eq(s, "MINING") || str_eq(s, "7") {
            Ok(TradeSkill::Mining)
        } else if str_eq(s, "TRACKINGSKINNING") || str_eq(s, "8") {
            Ok(TradeSkill::TrackingSkinning)
        } else if str_eq(s, "FISHING") || str_eq(s, "9") {
            Ok(TradeSkill::Fishing)
        } else if str_eq(s, "LOGGING") || str_eq(s, "10") {
            Ok(TradeSkill::Logging)
        } else if str_eq(s, "HARVESTING") || str_eq(s, "11") {
            Ok(TradeSkill::Harvesting)
        } else if str_eq(s, "SMELTING") || str_eq(s, "12") {
            Ok(TradeSkill::Smelting)
        } else if str_eq(s, "STONECUTTING") || str_eq(s, "13") {
            Ok(TradeSkill::StoneCutting)
        } else if str_eq(s, "LEATHERWORKING") || str_eq(s, "14") {
            Ok(TradeSkill::LeatherWorking)
        } else if str_eq(s, "WEAVING") || str_eq(s, "15") {
            Ok(TradeSkill::Weaving)
        } else if str_eq(s, "WOODWORKING") || str_eq(s, "16") {
            Ok(TradeSkill::WoodWorking)
        } else {
            Err(String::from_str(s))
        }
    }
}

/// The trade-skill table, in its fixed order.
pub open spec fn trade_skill_table() -> Seq<TradeSkill> {
    seq![
        TradeSkill::WeaponSmithing,
        TradeSkill::Armoring,
        TradeSkill::Engineering,
        TradeSkill::JewelCrafting,
        TradeSkill::Arcana,
        TradeSkill::Cooking,
        TradeSkill::Furnishing,
        TradeSkill::Mining,
        TradeSkill::TrackingSkinning,
        TradeSkill::Fishing,
        TradeSkill::Logging,
        TradeSkill::Harvesting,
        TradeSkill::Smelting,
        TradeSkill::StoneCutting,
        TradeSkill::LeatherWorking,
        TradeSkill::Weaving,
        TradeSkill::WoodWorking,
    ]
}

/// All trade skills, in the fixed table order.
pub fn all_trade_skills() -> (r: Vec<TradeSkill>)
    ensures
        r@ == trade_skill_table(),
        r@.len() == TRADE_SKILL_COUNT,
{
    let r = vec![
        TradeSkill::WeaponSmithing,
        TradeSkill::Armoring,
        TradeSkill::Engineering,
        TradeSkill::JewelCrafting,
        TradeSkill::Arcana,
        TradeSkill::Cooking,
        TradeSkill::Furnishing,
        TradeSkill::Mining,
        TradeSkill::TrackingSkinning,
        TradeSkill::Fishing,
        TradeSkill::Logging,
        TradeSkill::Harvesting,
        TradeSkill::Smelting,
        TradeSkill::StoneCutting,
        TradeSkill::LeatherWorking,
        TradeSkill::Weaving,
        TradeSkill::WoodWorking,
    ];
    assert(r@ =~= trade_skill_table());
    r
}

} // verus!
