use vstd::prelude::*;
use vstd::string::*;
use crate::standardize::{ascii_lower, flatten, flatten_str, kept, str_eq};

verus! {

/// A named numeric attribute of a character, weapon or artifact.
#[derive(Debug, Clone, Copy, PartialEq, Eq, Hash, Structural)]
pub enum Stat {
    BaseHP,
    FlatHP,
    HPPercent,
    BaseATK,
    FlatATK,
    ATKPercent,
    BaseDEF,
    FlatDEF,
    DEFPercent,
    ElementalMastery,
    CritRate,
    CritDMG,
    EnergyRecharge,
    DMGBonus,
    ElementalDMGBonus,
    PyroDMGBonus,
    CryoDMGBonus,
    GeoDMGBonus,
    DendroDMGBonus,
    ElectroDMGBonus,
    HydroDMGBonus,
    AnemoDMGBonus,
    PhysicalDMGBonus,
    NormalATKDMGBonus,
    ChargeATKDMGBonus,
    PlungeATKDMGBonus,
    SkillDMGBonus,
    BurstDMGBonus,
    HealingBonus,
    NoStat,
    ReactionBonus,
    DefReduction,
    DefIgnore,
    PyroResistanceReduction,
    HydroResistanceReduction,
    ElectroResistanceReduction,
    CryoResistanceReduction,
    AnemoResistanceReduction,
    GeoResistanceReduction,
    DendroResistanceReduction,
    PhysicalResistanceReduction,
}

/// The name of a stat, as `Stat::as_str` spells it.
pub open spec fn stat_name(s: Stat) -> Seq<char> {
    match s {
        Stat::BaseHP => "BaseHP"@,
        Stat::FlatHP => "FlatHP"@,
        Stat::HPPercent => "HPPercent"@,
        Stat::BaseATK => "BaseATK"@,
        Stat::FlatATK => "FlatATK"@,
        Stat::ATKPercent => "ATKPercent"@,
        Stat::BaseDEF => "BaseDEF"@,
        Stat::FlatDEF => "FlatDEF"@,
        Stat::DEFPercent => "DEFPercent"@,
        Stat::ElementalMastery => "ElementalMastery"@,
        Stat::CritRate => "CritRate"@,
        Stat::CritDMG => "CritDMG"@,
        Stat::EnergyRecharge => "EnergyRecharge"@,
        Stat::DMGBonus => "DMGBonus"@,
        Stat::ElementalDMGBonus => "ElementalDMGBonus"@,
        Stat::PyroDMGBonus => "PyroDMGBonus"@,
        Stat::CryoDMGBonus => "CryoDMGBonus"@,
        Stat::GeoDMGBonus => "GeoDMGBonus"@,
        Stat::DendroDMGBonus => "DendroDMGBonus"@,
        Stat::ElectroDMGBonus => "ElectroDMGBonus"@,
        Stat::HydroDMGBonus => "HydroDMGBonus"@,
        Stat::AnemoDMGBonus => "AnemoDMGBonus"@,
        Stat::PhysicalDMGBonus => "PhysicalDMGBonus"@,
        Stat::NormalATKDMGBonus => "NormalATKDMGBonus"@,
        Stat::ChargeATKDMGBonus => "ChargeATKDMGBonus"@,
        Stat::PlungeATKDMGBonus => "PlungeATKDMGBonus"@,
        Stat::SkillDMGBonus => "SkillDMGBonus"@,
        Stat::BurstDMGBonus => "BurstDMGBonus"@,
        Stat::HealingBonus => "HealingBonus"@,
        Stat::NoStat => "None"@,
        Stat::ReactionBonus => "ReactionBonus"@,
        Stat::DefReduction => "DefReduction"@,
        Stat::DefIgnore => "DefIgnore"@,
        Stat::PyroResistanceReduction => "PyroResistanceReduction"@,
        Stat::HydroResistanceReduction => "HydroResistanceReduction"@,
        Stat::ElectroResistanceReduction => "ElectroResistanceReduction"@,
        Stat::CryoResistanceReduction => "CryoResistanceReduction"@,
        Stat::AnemoResistanceReduction => "AnemoResistanceReduction"@,
        Stat::GeoResistanceReduction => "GeoResistanceReduction"@,
        Stat::DendroResistanceReduction => "DendroResistanceReduction"@,
        Stat::PhysicalResistanceReduction => "PhysicalResistanceReduction"@,
    }
}

/// The numeric code of a stat: its position in the declaration of `Stat`.
pub open spec fn stat_code(s: Stat) -> nat {
    match s {
        Stat::BaseHP => 0,
        Stat::FlatHP => 1,
        Stat::HPPercent => 2,
        Stat::BaseATK => 3,
        Stat::FlatATK => 4,
        Stat::ATKPercent => 5,
        Stat::BaseDEF => 6,
        Stat::FlatDEF => 7,
        Stat::DEFPercent => 8,
        Stat::ElementalMastery => 9,
        Stat::CritRate => 10,
        Stat::CritDMG => 11,
        Stat::EnergyRecharge => 12,
        Stat::DMGBonus => 13,
        Stat::ElementalDMGBonus => 14,
        Stat::PyroDMGBonus => 15,
        Stat::CryoDMGBonus => 16,
        Stat::GeoDMGBonus => 17,
        Stat::DendroDMGBonus => 18,
        Stat::ElectroDMGBonus => 19,
        Stat::HydroDMGBonus => 20,
        Stat::AnemoDMGBonus => 21,
        Stat::PhysicalDMGBonus => 22,
        Stat::NormalATKDMGBonus => 23,
        Stat::ChargeATKDMGBonus => 24,
        Stat::PlungeATKDMGBonus => 25,
        Stat::SkillDMGBonus => 26,
        Stat::BurstDMGBonus => 27,
        Stat::HealingBonus => 28,
        Stat::NoStat => 29,
        Stat::ReactionBonus => 30,
        Stat::DefReduction => 31,
        Stat::DefIgnore => 32,
        Stat::PyroResistanceReduction => 33,
        Stat::HydroResistanceReduction => 34,
        Stat::ElectroResistanceReduction => 35,
        Stat::CryoResistanceReduction => 36,
        Stat::AnemoResistanceReduction => 37,
        Stat::GeoResistanceReduction => 38,
        Stat::DendroResistanceReduction => 39,
        Stat::PhysicalResistanceReduction => 40,
    }
}

/// The stat that a normalised name (lower case, letters and digits only)
/// denotes, if any; the names are grouped by length.
pub open spec fn stat_of_key(k: Seq<char>) -> Option<Stat> {
    if k.len() == 1 {
        if k == "n"@ {
            Some(Stat::NoStat)
        } else {
            None
        }
    } else if k.len() == 2 {
        if k == "hp"@ {
            Some(Stat::HPPercent)
        } else if k == "em"@ {
            Some(Stat::ElementalMastery)
        } else if k == "cr"@ {
            Some(Stat::CritRate)
        } else if k == "cd"@ {
            Some(Stat::CritDMG)
        } else if k == "er"@ {
            Some(Stat::EnergyRecharge)
        } else if k == "hb"@ {
            Some(Stat::HealingBonus)
        } else {
            None
        }
    } else if k.len() == 3 {
        if k == "atk"@ {
            Some(Stat::ATKPercent)
        } else if k == "def"@ {
            Some(Stat::DEFPercent)
        } else {
            None
        }
    } else if k.len() == 4 {
        if k == "none"@ {
            Some(Stat::NoStat)
        } else {
            None
        }
    } else if k.len() == 6 {
        if k == "basehp"@ {
            Some(Stat::BaseHP)
        } else if k == "flathp"@ {
            Some(Stat::FlatHP)
        } else {
            None
        }
    } else if k.len() == 7 {
        if k == "baseatk"@ {
            Some(Stat::BaseATK)
        } else if k == "flatatk"@ {
            Some(Stat::FlatATK)
        } else if k == "basedef"@ {
            Some(Stat::BaseDEF)
        } else if k == "flatdef"@ {
            Some(Stat::FlatDEF)
        } else if k == "critdmg"@ {
            Some(Stat::CritDMG)
        } else {
            None
        }
    } else if k.len() == 8 {
        if k == "critrate"@ {
            Some(Stat::CritRate)
        } else if k == "dmgbonus"@ {
            Some(Stat::DMGBonus)
        } else {
            None
        }
    } else if k.len() == 9 {
        if k == "hppercent"@ {
            Some(Stat::HPPercent)
        } else if k == "defignore"@ {
            Some(Stat::DefIgnore)
        } else {
            None
        }
    } else if k.len() == 10 {
        if k == "atkpercent"@ {
            Some(Stat::ATKPercent)
        } else if k == "defpercent"@ {
            Some(Stat::DEFPercent)
        } else {
            None
        }
    } else if k.len() == 11 {
        if k == "geodmgbonus"@ {
            Some(Stat::GeoDMGBonus)
        } else if k == "physicaldmg"@ {
            Some(Stat::PhysicalDMGBonus)
        } else {
            None
        }
    } else if k.len() == 12 {
        if k == "elementaldmg"@ {
            Some(Stat::ElementalDMGBonus)
        } else if k == "pyrodmgbonus"@ {
            Some(Stat::PyroDMGBonus)
        } else if k == "cryodmgbonus"@ {
            Some(Stat::CryoDMGBonus)
        } else if k == "healingbonus"@ {
            Some(Stat::HealingBonus)
        } else if k == "defreduction"@ {
            Some(Stat::DefReduction)
        } else {
            None
        }
    } else if k.len() == 13 {
        if k == "hydrodmgbonus"@ {
            Some(Stat::HydroDMGBonus)
        } else if k == "anemodmgbonus"@ {
            Some(Stat::AnemoDMGBonus)
        } else if k == "skilldmgbonus"@ {
            Some(Stat::SkillDMGBonus)
        } else if k == "burstdmgbonus"@ {
            Some(Stat::BurstDMGBonus)
        } else if k == "reactionbonus"@ {
            Some(Stat::ReactionBonus)
        } else {
            None
        }
    } else if k.len() == 14 {
        if k == "energyrecharge"@ {
            Some(Stat::EnergyRecharge)
        } else if k == "dendrodmgbonus"@ {
            Some(Stat::DendroDMGBonus)
        } else {
            None
        }
    } else if k.len() == 15 {
        if k == "electrodmgbonus"@ {
            Some(Stat::ElectroDMGBonus)
        } else {
            None
        }
    } else if k.len() == 16 {
        if k == "elementalmastery"@ {
            Some(Stat::ElementalMastery)
        } else if k == "physicaldmgbonus"@ {
            Some(Stat::PhysicalDMGBonus)
        } else {
            None
        }
    } else if k.len() == 17 {
        if k == "elementaldmgbonus"@ {
            Some(Stat::ElementalDMGBonus)
        } else if k == "normalatkdmgbonus"@ {
            Some(Stat::NormalATKDMGBonus)
        } else if k == "chargeatkdmgbonus"@ {
            Some(Stat::ChargeATKDMGBonus)
        } else if k == "plungeatkdmgbonus"@ {
            Some(Stat::PlungeATKDMGBonus)
        } else {
            None
        }
    } else if k.len() == 18 {
        if k == "physicaldmgpercent"@ {
            Some(Stat::PhysicalDMGBonus)
        } else {
            None
        }
    } else if k.len() == 22 {
        if k == "georesistancereduction"@ {
            Some(Stat::GeoResistanceReduction)
        } else {
            None
        }
    } else if k.len() == 23 {
        if k == "pyroresistancereduction"@ {
            Some(Stat::PyroResistanceReduction)
        } else if k == "cryoresistancereduction"@ {
            Some(Stat::CryoResistanceReduction)
        } else {
            None
        }
    } else if k.len() == 24 {
        if k == "hydroresistancereduction"@ {
            Some(Stat::HydroResistanceReduction)
        } else if k == "anemoresistancereduction"@ {
            Some(Stat::AnemoResistanceReduction)
        } else {
            None
        }
    } else if k.len() == 25 {
        if k == "dendroresistancereduction"@ {
            Some(Stat::DendroResistanceReduction)
        } else {
            None
        }
    } else if k.len() == 26 {
        if k == "electroresistancereduction"@ {
            Some(Stat::ElectroResistanceReduction)
        } else {
            None
        }
    } else if k.len() == 27 {
        if k == "physicalresistancereduction"@ {
            Some(Stat::PhysicalResistanceReduction)
        } else {
            None
        }
    } else {
        None
    }
}


/// Debuffs that an attack may place on its target.
#[derive(Debug, Clone, Copy, PartialEq, Eq, Hash, Structural)]
pub enum Debuffs {
    DefReduction,
    DefIgnore,
    PyroResistanceReduction,
    HydroResistanceReduction,
    ElectroResistanceReduction,
    CryoResistanceReduction,
    AnemoResistanceReduction,
    GeoResistanceReduction,
    DendroResistanceReduction,
    PhysicalResistanceReduction,
}

/// The kind of attack that deals a hit.
#[derive(Debug, Clone, Copy, PartialEq, Eq, Hash, Structural)]
pub enum DamageType {
    Normal,
    Charged,
    Plunging,
    Skill,
    Burst,
    NoType,
}

/// The element of a hit.
#[derive(Debug, Clone, Copy, PartialEq, Eq, Hash, Structural)]
pub enum Element {
    Pyro,
    Hydro,
    Electro,
    Anemo,
    Geo,
    Dendro,
    Cryo,
    Physical,
    NoElement,
}

/// The stat that a hit's damage scales from.
#[derive(Debug, Clone, Copy, PartialEq, Eq, Hash, Structural)]
pub enum BaseScaling {
    ATK,
    DEF,
    HP,
}

/// The amplifying reaction applied to a hit, if any.
#[derive(Debug, Clone, Copy, PartialEq, Eq, Hash, Structural)]
pub enum Amplifier {
    Forward,
    Reverse,
    NoAmplifier,
}

/// Transformative elemental reactions.
#[derive(Debug, Clone, Copy, PartialEq, Eq, Hash, Structural)]
pub enum ReactionType {
    Overloaded,
    Superconduct,
    Electrocharged,
    Swirl,
    Shattered,
    Aggravate,
    Spread,
}

pub open spec fn is_elemental_dmg_bonus_spec(s: Stat) -> bool {
    match s {
        Stat::PyroDMGBonus | Stat::CryoDMGBonus | Stat::GeoDMGBonus | Stat::DendroDMGBonus
        | Stat::ElectroDMGBonus | Stat::HydroDMGBonus | Stat::AnemoDMGBonus => true,
        _ => false,
    }
}

impl Stat {
    /// Whether this stat is the damage bonus of one of the seven elements
    /// (physical excluded).
    pub fn is_elemental_dmg_bonus(&self) -> (r: bool)
        ensures
            r == is_elemental_dmg_bonus_spec(*self),
    {
        match self {
            Stat::PyroDMGBonus => true,
            Stat::CryoDMGBonus => true,
            Stat::GeoDMGBonus => true,
            Stat::DendroDMGBonus => true,
            Stat::ElectroDMGBonus => true,
            Stat::HydroDMGBonus => true,
            Stat::AnemoDMGBonus => true,
            _ => false,
        }
    }

    pub fn as_str(&self) -> (r: &'static str)
        ensures
            r@ == stat_name(*self),
    {
        match self {
            Stat::BaseHP => "BaseHP",
            Stat::FlatHP => "FlatHP",
            Stat::HPPercent => "HPPercent",
            Stat::BaseATK => "BaseATK",
            Stat::FlatATK => "FlatATK",
            Stat::ATKPercent => "ATKPercent",
            Stat::BaseDEF => "BaseDEF",
            Stat::FlatDEF => "FlatDEF",
            Stat::DEFPercent => "DEFPercent",
            Stat::ElementalMastery => "ElementalMastery",
            Stat::CritRate => "CritRate",
            Stat::CritDMG => "CritDMG",
            Stat::EnergyRecharge => "EnergyRecharge",
            Stat::DMGBonus => "DMGBonus",
            Stat::ElementalDMGBonus => "ElementalDMGBonus",
            Stat::PyroDMGBonus => "PyroDMGBonus",
            Stat::CryoDMGBonus => "CryoDMGBonus",
            Stat::GeoDMGBonus => "GeoDMGBonus",
            Stat::DendroDMGBonus => "DendroDMGBonus",
            Stat::ElectroDMGBonus => "ElectroDMGBonus",
            Stat::HydroDMGBonus => "HydroDMGBonus",
            Stat::AnemoDMGBonus => "AnemoDMGBonus",
            Stat::PhysicalDMGBonus => "PhysicalDMGBonus",
            Stat::NormalATKDMGBonus => "NormalATKDMGBonus",
            Stat::ChargeATKDMGBonus => "ChargeATKDMGBonus",
            Stat::PlungeATKDMGBonus => "PlungeATKDMGBonus",
            Stat::SkillDMGBonus => "SkillDMGBonus",
            Stat::BurstDMGBonus => "BurstDMGBonus",
            Stat::HealingBonus => "HealingBonus",
            Stat::NoStat => "None",
            Stat::ReactionBonus => "ReactionBonus",
            Stat::DefReduction => "DefReduction",
            Stat::DefIgnore => "DefIgnore",
            Stat::PyroResistanceReduction => "PyroResistanceReduction",
            Stat::HydroResistanceReduction => "HydroResistanceReduction",
            Stat::ElectroResistanceReduction => "ElectroResistanceReduction",
            Stat::CryoResistanceReduction => "CryoResistanceReduction",
            Stat::AnemoResistanceReduction => "AnemoResistanceReduction",
            Stat::GeoResistanceReduction => "GeoResistanceReduction",
            Stat::DendroResistanceReduction => "DendroResistanceReduction",
            Stat::PhysicalResistanceReduction => "PhysicalResistanceReduction",
        }
    }

    /// The numeric code of this stat (0 to 40), used by language bindings.
    pub fn id(&self) -> (r: u32)
        ensures
            r as nat == stat_code(*self),
    {
        match self {
            Stat::BaseHP => 0,
            Stat::FlatHP => 1,
            Stat::HPPercent => 2,
            Stat::BaseATK => 3,
            Stat::FlatATK => 4,
            Stat::ATKPercent => 5,
            Stat::BaseDEF => 6,
            Stat::FlatDEF => 7,
            Stat::DEFPercent => 8,
            Stat::ElementalMastery => 9,
            Stat::CritRate => 10,
            Stat::CritDMG => 11,
            Stat::EnergyRecharge => 12,
            Stat::DMGBonus => 13,
            Stat::ElementalDMGBonus => 14,
            Stat::PyroDMGBonus => 15,
            Stat::CryoDMGBonus => 16,
            Stat::GeoDMGBonus => 17,
            Stat::DendroDMGBonus => 18,
            Stat::ElectroDMGBonus => 19,
            Stat::HydroDMGBonus => 20,
            Stat::AnemoDMGBonus => 21,
            Stat::PhysicalDMGBonus => 22,
            Stat::NormalATKDMGBonus => 23,
            Stat::ChargeATKDMGBonus => 24,
            Stat::PlungeATKDMGBonus => 25,
            Stat::SkillDMGBonus => 26,
            Stat::BurstDMGBonus => 27,
            Stat::HealingBonus => 28,
            Stat::NoStat => 29,
            Stat::ReactionBonus => 30,
            Stat::DefReduction => 31,
            Stat::DefIgnore => 32,
            Stat::PyroResistanceReduction => 33,
            Stat::HydroResistanceReduction => 34,
            Stat::ElectroResistanceReduction => 35,
            Stat::CryoResistanceReduction => 36,
            Stat::AnemoResistanceReduction => 37,
            Stat::GeoResistanceReduction => 38,
            Stat::DendroResistanceReduction => 39,
            Stat::PhysicalResistanceReduction => 40,
        }
    }

    /// The stat with the given numeric code, or `None` where no stat has it.
    pub fn from_id(id: u32) -> (r: Option<Stat>)
        ensures
            r.is_some() <==> id < 41,
            r.is_some() ==> stat_code(r.unwrap()) == id,
    {
        match id {
            0 => Some(Stat::BaseHP),
            1 => Some(Stat::FlatHP),
            2 => Some(Stat::HPPercent),
            3 => Some(Stat::BaseATK),
            4 => Some(Stat::FlatATK),
            5 => Some(Stat::ATKPercent),
            6 => Some(Stat::BaseDEF),
            7 => Some(Stat::FlatDEF),
            8 => Some(Stat::DEFPercent),
            9 => Some(Stat::ElementalMastery),
            10 => Some(Stat::CritRate),
            11 => Some(Stat::CritDMG),
            12 => Some(Stat::EnergyRecharge),
            13 => Some(Stat::DMGBonus),
            14 => Some(Stat::ElementalDMGBonus),
            15 => Some(Stat::PyroDMGBonus),
            16 => Some(Stat::CryoDMGBonus),
            17 => Some(Stat::GeoDMGBonus),
            18 => Some(Stat::DendroDMGBonus),
            19 => Some(Stat::ElectroDMGBonus),
            20 => Some(Stat::HydroDMGBonus),
            21 => Some(Stat::AnemoDMGBonus),
            22 => Some(Stat::PhysicalDMGBonus),
            23 => Some(Stat::NormalATKDMGBonus),
            24 => Some(Stat::ChargeATKDMGBonus),
            25 => Some(Stat::PlungeATKDMGBonus),
            26 => Some(Stat::SkillDMGBonus),
            27 => Some(Stat::BurstDMGBonus),
            28 => Some(Stat::HealingBonus),
            29 => Some(Stat::NoStat),
            30 => Some(Stat::ReactionBonus),
            31 => Some(Stat::DefReduction),
            32 => Some(Stat::DefIgnore),
            33 => Some(Stat::PyroResistanceReduction),
            34 => Some(Stat::HydroResistanceReduction),
            35 => Some(Stat::ElectroResistanceReduction),
            36 => Some(Stat::CryoResistanceReduction),
            37 => Some(Stat::AnemoResistanceReduction),
            38 => Some(Stat::GeoResistanceReduction),
            39 => Some(Stat::DendroResistanceReduction),
            40 => Some(Stat::PhysicalResistanceReduction),
            _ => None,
        }
    }

    /// The stat that a normalised name denotes (see `flatten_str`), if any.
    pub fn from_key(k: &str) -> (r: Option<Stat>)
        ensures
            r == stat_of_key(k@),
    {
        let n = k.unicode_len();
        if n == 1 {
            if str_eq(k, "n") {
                Some(Stat::NoStat)
            } else {
                None
            }
        } else if n == 2 {
            if str_eq(k, "hp") {
                Some(Stat::HPPercent)
            } else if str_eq(k, "em") {
                Some(Stat::ElementalMastery)
            } else if str_eq(k, "cr") {
                Some(Stat::CritRate)
            } else if str_eq(k, "cd") {
                Some(Stat::CritDMG)
            } else if str_eq(k, "er") {
                Some(Stat::EnergyRecharge)
            } else if str_eq(k, "hb") {
                Some(Stat::HealingBonus)
            } else {
                None
            }
        } else if n == 3 {
            if str_eq(k, "atk") {
                Some(Stat::ATKPercent)
            } else if str_eq(k, "def") {
                Some(Stat::DEFPercent)
            } else {
                None
            }
        } else if n == 4 {
            if str_eq(k, "none") {
                Some(Stat::NoStat)
            } else {
                None
            }
        } else if n == 6 {
            if str_eq(k, "basehp") {
                Some(Stat::BaseHP)
            } else if str_eq(k, "flathp") {
                Some(Stat::FlatHP)
            } else {
                None
            }
        } else if n == 7 {
            if str_eq(k, "baseatk") {
                Some(Stat::BaseATK)
            } else if str_eq(k, "flatatk") {
                Some(Stat::FlatATK)
            } else if str_eq(k, "basedef") {
                Some(Stat::BaseDEF)
            } else if str_eq(k, "flatdef") {
                Some(Stat::FlatDEF)
            } else if str_eq(k, "critdmg") {
                Some(Stat::CritDMG)
            } else {
                None
            }
        } else if n == 8 {
            if str_eq(k, "critrate") {
                Some(Stat::CritRate)
            } else if str_eq(k, "dmgbonus") {
                Some(Stat::DMGBonus)
            } else {
                None
            }
        } else if n == 9 {
            if str_eq(k, "hppercent") {
                Some(Stat::HPPercent)
            } else if str_eq(k, "defignore") {
                Some(Stat::DefIgnore)
            } else {
                None
            }
        } else if n == 10 {
            if str_eq(k, "atkpercent") {
                Some(Stat::ATKPercent)
            } else if str_eq(k, "defpercent") {
                Some(Stat::DEFPercent)
            } else {
                None
            }
        } else if n == 11 {
            if str_eq(k, "geodmgbonus") {
                Some(Stat::GeoDMGBonus)
            } else if str_eq(k, "physicaldmg") {
                Some(Stat::PhysicalDMGBonus)
            } else {
                None
            }
        } else if n == 12 {
            if str_eq(k, "elementaldmg") {
                Some(Stat::ElementalDMGBonus)
            } else if str_eq(k, "pyrodmgbonus") {
                Some(Stat::PyroDMGBonus)
            } else if str_eq(k, "cryodmgbonus") {
                Some(Stat::CryoDMGBonus)
            } else if str_eq(k, "healingbonus") {
                Some(Stat::HealingBonus)
            } else if str_eq(k, "defreduction") {
                Some(Stat::DefReduction)
            } else {
                None
            }
        } else if n == 13 {
            if str_eq(k, "hydrodmgbonus") {
                Some(Stat::HydroDMGBonus)
            } else if str_eq(k, "anemodmgbonus") {
                Some(Stat::AnemoDMGBonus)
            } else if str_eq(k, "skilldmgbonus") {
                Some(Stat::SkillDMGBonus)
            } else if str_eq(k, "burstdmgbonus") {
                Some(Stat::BurstDMGBonus)
            } else if str_eq(k, "reactionbonus") {
                Some(Stat::ReactionBonus)
            } else {
                None
            }
        } else if n == 14 {
            if str_eq(k, "energyrecharge") {
                Some(Stat::EnergyRecharge)
            } else if str_eq(k, "dendrodmgbonus") {
                Some(Stat::DendroDMGBonus)
            } else {
                None
            }
        } else if n == 15 {
            if str_eq(k, "electrodmgbonus") {
                Some(Stat::ElectroDMGBonus)
            } else {
                None
            }
        } else if n == 16 {
            if str_eq(k, "elementalmastery") {
                Some(Stat::ElementalMastery)
            } else if str_eq(k, "physicaldmgbonus") {
                Some(Stat::PhysicalDMGBonus)
            } else {
                None
            }
        } else if n == 17 {
            if str_eq(k, "elementaldmgbonus") {
                Some(Stat::ElementalDMGBonus)
            } else if str_eq(k, "normalatkdmgbonus") {
                Some(Stat::NormalATKDMGBonus)
            } else if str_eq(k, "chargeatkdmgbonus") {
                Some(Stat::ChargeATKDMGBonus)
            } else if str_eq(k, "plungeatkdmgbonus") {
                Some(Stat::PlungeATKDMGBonus)
            } else {
                None
            }
        } else if n == 18 {
            if str_eq(k, "physicaldmgpercent") {
                Some(Stat::PhysicalDMGBonus)
            } else {
                None
            }
        } else if n == 22 {
            if str_eq(k, "georesistancereduction") {
                Some(Stat::GeoResistanceReduction)
            } else {
                None
            }
        } else if n == 23 {
            if str_eq(k, "pyroresistancereduction") {
                Some(Stat::PyroResistanceReduction)
            } else if str_eq(k, "cryoresistancereduction") {
                Some(Stat::CryoResistanceReduction)
            } else {
                None
            }
        } else if n == 24 {
            if str_eq(k, "hydroresistancereduction") {
                Some(Stat::HydroResistanceReduction)
            } else if str_eq(k, "anemoresistancereduction") {
                Some(Stat::AnemoResistanceReduction)
            } else {
                None
            }
        } else if n == 25 {
            if str_eq(k, "dendroresistancereduction") {
                Some(Stat::DendroResistanceReduction)
            } else {
                None
            }
        } else if n == 26 {
            if str_eq(k, "electroresistancereduction") {
                Some(Stat::ElectroResistanceReduction)
            } else {
                None
            }
        } else if n == 27 {
            if str_eq(k, "physicalresistancereduction") {
                Some(Stat::PhysicalResistanceReduction)
            } else {
                None
            }
        } else {
            None
        }
    }

    /// The stat that a name denotes, compared without regard to case,
    /// spaces or punctuation; `None` where the name denotes no stat.
    pub fn from_name(name: &str) -> (r: Option<Stat>)
        ensures
            r == stat_of_key(flatten(name@)),
    {
        let key = flatten_str(name);
        Stat::from_key(key.as_str())
    }
}

impl std::str::FromStr for Stat {
    type Err = ();

    fn from_str(name: &str) -> (r: Result<Stat, ()>)
        ensures
            r == (match stat_of_key(flatten(name@)) {
                Some(s) => Ok::<Stat, ()>(s),
                None => Err(()),
            }),
    {
        match Stat::from_name(name) {
            Some(s) => Ok(s),
            None => Err(()),
        }
    }
}


/// The stat holding the damage bonus of an element.
pub open spec fn element_bonus_spec(e: Element) -> Option<Stat> {
    match e {
        Element::Pyro => Some(Stat::PyroDMGBonus),
        Element::Hydro => Some(Stat::HydroDMGBonus),
        Element::Electro => Some(Stat::ElectroDMGBonus),
        Element::Anemo => Some(Stat::AnemoDMGBonus),
        Element::Geo => Some(Stat::GeoDMGBonus),
        Element::Dendro => Some(Stat::DendroDMGBonus),
        Element::Cryo => Some(Stat::CryoDMGBonus),
        Element::Physical => Some(Stat::PhysicalDMGBonus),
        Element::NoElement => None,
    }
}

/// The stat holding the resistance reduction against an element.
pub open spec fn element_res_reduction_spec(e: Element) -> Option<Stat> {
    match e {
        Element::Pyro => Some(Stat::PyroResistanceReduction),
        Element::Hydro => Some(Stat::HydroResistanceReduction),
        Element::Electro => Some(Stat::ElectroResistanceReduction),
        Element::Anemo => Some(Stat::AnemoResistanceReduction),
        Element::Geo => Some(Stat::GeoResistanceReduction),
        Element::Dendro => Some(Stat::DendroResistanceReduction),
        Element::Cryo => Some(Stat::CryoResistanceReduction),
        Element::Physical => Some(Stat::PhysicalResistanceReduction),
        Element::NoElement => None,
    }
}

/// The stat holding the damage bonus of an attack type.
pub open spec fn attack_bonus_spec(d: DamageType) -> Option<Stat> {
    match d {
        DamageType::Normal => Some(Stat::NormalATKDMGBonus),
        DamageType::Charged => Some(Stat::ChargeATKDMGBonus),
        DamageType::Plunging => Some(Stat::PlungeATKDMGBonus),
        DamageType::Skill => Some(Stat::SkillDMGBonus),
        DamageType::Burst => Some(Stat::BurstDMGBonus),
        DamageType::NoType => None,
    }
}

/// The base, percent and flat stats that make up a scaling stat's total.
pub open spec fn scaling_stats_spec(b: BaseScaling) -> (Stat, Stat, Stat) {
    match b {
        BaseScaling::ATK => (Stat::BaseATK, Stat::ATKPercent, Stat::FlatATK),
        BaseScaling::DEF => (Stat::BaseDEF, Stat::DEFPercent, Stat::FlatDEF),
        BaseScaling::HP => (Stat::BaseHP, Stat::HPPercent, Stat::FlatHP),
    }
}

/// Whether an element can take part in an amplifying reaction.
pub open spec fn amplifiable_spec(e: Element) -> bool {
    e == Element::Pyro || e == Element::Hydro || e == Element::Cryo || e == Element::Anemo
}

impl Element {
    /// The stat holding this element's damage bonus; none for no element.
    pub fn dmg_bonus_stat(&self) -> (r: Option<Stat>)
        ensures
            r == element_bonus_spec(*self),
    {
        match self {
            Element::Pyro => Some(Stat::PyroDMGBonus),
            Element::Hydro => Some(Stat::HydroDMGBonus),
            Element::Electro => Some(Stat::ElectroDMGBonus),
            Element::Anemo => Some(Stat::AnemoDMGBonus),
            Element::Geo => Some(Stat::GeoDMGBonus),
            Element::Dendro => Some(Stat::DendroDMGBonus),
            Element::Cryo => Some(Stat::CryoDMGBonus),
            Element::Physical => Some(Stat::PhysicalDMGBonus),
            Element::NoElement => None,
        }
    }

    /// The stat holding the resistance reduction against this element.
    pub fn res_reduction_stat(&self) -> (r: Option<Stat>)
        ensures
            r == element_res_reduction_spec(*self),
    {
        match self {
            Element::Pyro => Some(Stat::PyroResistanceReduction),
            Element::Hydro => Some(Stat::HydroResistanceReduction),
            Element::Electro => Some(Stat::ElectroResistanceReduction),
            Element::Anemo => Some(Stat::AnemoResistanceReduction),
            Element::Geo => Some(Stat::GeoResistanceReduction),
            Element::Dendro => Some(Stat::DendroResistanceReduction),
            Element::Cryo => Some(Stat::CryoResistanceReduction),
            Element::Physical => Some(Stat::PhysicalResistanceReduction),
            Element::NoElement => None,
        }
    }

    /// Whether this element can take part in an amplifying reaction.
    pub fn is_amplifiable(&self) -> (r: bool)
        ensures
            r == amplifiable_spec(*self),
    {
        match self {
            Element::Pyro | Element::Hydro | Element::Cryo | Element::Anemo => true,
            _ => false,
        }
    }

    /// The element with the given code (Pyro 0, Hydro 1, Electro 2, Cryo 3,
    /// Anemo 4, Geo 5, Dendro 6, Physical 7).
    pub fn from_id(id: u32) -> (r: Option<Element>)
        ensures
            r == (if id == 0 {
                Some(Element::Pyro)
            } else if id == 1 {
                Some(Element::Hydro)
            } else if id == 2 {
                Some(Element::Electro)
            } else if id == 3 {
                Some(Element::Cryo)
            } else if id == 4 {
                Some(Element::Anemo)
            } else if id == 5 {
                Some(Element::Geo)
            } else if id == 6 {
                Some(Element::Dendro)
            } else if id == 7 {
                Some(Element::Physical)
            } else {
                None
            }),
    {
        match id {
            0 => Some(Element::Pyro),
            1 => Some(Element::Hydro),
            2 => Some(Element::Electro),
            3 => Some(Element::Cryo),
            4 => Some(Element::Anemo),
            5 => Some(Element::Geo),
            6 => Some(Element::Dendro),
            7 => Some(Element::Physical),
            _ => None,
        }
    }
}

impl DamageType {
    /// The stat holding this attack type's damage bonus; none for no type.
    pub fn dmg_bonus_stat(&self) -> (r: Option<Stat>)
        ensures
            r == attack_bonus_spec(*self),
    {
        match self {
            DamageType::Normal => Some(Stat::NormalATKDMGBonus),
            DamageType::Charged => Some(Stat::ChargeATKDMGBonus),
            DamageType::Plunging => Some(Stat::PlungeATKDMGBonus),
            DamageType::Skill => Some(Stat::SkillDMGBonus),
            DamageType::Burst => Some(Stat::BurstDMGBonus),
            DamageType::NoType => None,
        }
    }

    /// The attack type with the given code (Normal 0, Charged 1, Plunging 2,
    /// Skill 3, Burst 4).
    pub fn from_id(id: u32) -> (r: Option<DamageType>)
        ensures
            r == (if id == 0 {
                Some(DamageType::Normal)
            } else if id == 1 {
                Some(DamageType::Charged)
            } else if id == 2 {
                Some(DamageType::Plunging)
            } else if id == 3 {
                Some(DamageType::Skill)
            } else if id == 4 {
                Some(DamageType::Burst)
            } else {
                None
            }),
    {
        match id {
            0 => Some(DamageType::Normal),
            1 => Some(DamageType::Charged),
            2 => Some(DamageType::Plunging),
            3 => Some(DamageType::Skill),
            4 => Some(DamageType::Burst),
            _ => None,
        }
    }
}

impl BaseScaling {
    /// The base, percent and flat stats whose total this scaling reads.
    pub fn stats(&self) -> (r: (Stat, Stat, Stat))
        ensures
            r == scaling_stats_spec(*self),
    {
        match self {
            BaseScaling::ATK => (Stat::BaseATK, Stat::ATKPercent, Stat::FlatATK),
            BaseScaling::DEF => (Stat::BaseDEF, Stat::DEFPercent, Stat::FlatDEF),
            BaseScaling::HP => (Stat::BaseHP, Stat::HPPercent, Stat::FlatHP),
        }
    }

    /// The scaling with the given code (ATK 0, DEF 1, HP 2).
    pub fn from_id(id: u32) -> (r: Option<BaseScaling>)
        ensures
            r == (if id == 0 {
                Some(BaseScaling::ATK)
            } else if id == 1 {
                Some(BaseScaling::DEF)
            } else if id == 2 {
                Some(BaseScaling::HP)
            } else {
                None
            }),
    {
        match id {
            0 => Some(BaseScaling::ATK),
            1 => Some(BaseScaling::DEF),
            2 => Some(BaseScaling::HP),
            _ => None,
        }
    }
}

impl Amplifier {
    /// The amplifier with the given code (none 0, forward 1, reverse 2).
    pub fn from_id(id: u32) -> (r: Option<Amplifier>)
        ensures
            r == (if id == 0 {
                Some(Amplifier::NoAmplifier)
            } else if id == 1 {
                Some(Amplifier::Forward)
            } else if id == 2 {
                Some(Amplifier::Reverse)
            } else {
                None
            }),
    {
        match id {
            0 => Some(Amplifier::NoAmplifier),
            1 => Some(Amplifier::Forward),
            2 => Some(Amplifier::Reverse),
            _ => None,
        }
    }
}


/// Normalising a normalised name changes nothing, so a name and its
/// normalised form denote the same stat.
pub proof fn lemma_flatten_idempotent(s: Seq<char>)
    ensures
        flatten(flatten(s)) == flatten(s),
    decreases s.len(),
{
    if s.len() > 0 {
        lemma_flatten_idempotent(s.drop_last());
        let t = flatten(s.drop_last());
        let c = ascii_lower(s.last());
        if kept(c) {
            assert(t.push(c).drop_last() == t);
            assert(ascii_lower(c) == c);
        }
    }
}

} // verus!
