use vstd::prelude::*;
use crate::standardize::flatten;
use crate::stat::{stat_name, stat_of_key, Stat};

verus! {

/// A stat's own name (`Stat::as_str`) reads back as that stat.
pub proof fn lemma_name_round_trip(s: Stat)
    ensures
        stat_of_key(flatten(stat_name(s))) == Some(s),
{
    match s {
        Stat::BaseHP => lemma_reads_base_hp(),
        Stat::FlatHP => lemma_reads_flat_hp(),
        Stat::HPPercent => lemma_reads_hp_percent(),
        Stat::BaseATK => lemma_reads_base_atk(),
        Stat::FlatATK => lemma_reads_flat_atk(),
        Stat::ATKPercent => lemma_reads_atk_percent(),
        Stat::BaseDEF => lemma_reads_base_def(),
        Stat::FlatDEF => lemma_reads_flat_def(),
        Stat::DEFPercent => lemma_reads_def_percent(),
        Stat::ElementalMastery => lemma_reads_elemental_mastery(),
        Stat::CritRate => lemma_reads_crit_rate(),
        Stat::CritDMG => lemma_reads_crit_dmg(),
        Stat::EnergyRecharge => lemma_reads_energy_recharge(),
        Stat::DMGBonus => lemma_reads_dmg_bonus(),
        Stat::ElementalDMGBonus => lemma_reads_elemental_dmg_bonus(),
        Stat::PyroDMGBonus => lemma_reads_pyro_dmg_bonus(),
        Stat::CryoDMGBonus => lemma_reads_cryo_dmg_bonus(),
        Stat::GeoDMGBonus => lemma_reads_geo_dmg_bonus(),
        Stat::DendroDMGBonus => lemma_reads_dendro_dmg_bonus(),
        Stat::ElectroDMGBonus => lemma_reads_electro_dmg_bonus(),
        Stat::HydroDMGBonus => lemma_reads_hydro_dmg_bonus(),
        Stat::AnemoDMGBonus => lemma_reads_anemo_dmg_bonus(),
        Stat::PhysicalDMGBonus => lemma_reads_physical_dmg_bonus(),
        Stat::NormalATKDMGBonus => lemma_reads_normal_atkdmg_bonus(),
        Stat::ChargeATKDMGBonus => lemma_reads_charge_atkdmg_bonus(),
        Stat::PlungeATKDMGBonus => lemma_reads_plunge_atkdmg_bonus(),
        Stat::SkillDMGBonus => lemma_reads_skill_dmg_bonus(),
        Stat::BurstDMGBonus => lemma_reads_burst_dmg_bonus(),
        Stat::HealingBonus => lemma_reads_healing_bonus(),
        Stat::NoStat => lemma_reads_no_stat(),
        Stat::ReactionBonus => lemma_reads_reaction_bonus(),
        Stat::DefReduction => lemma_reads_def_reduction(),
        Stat::DefIgnore => lemma_reads_def_ignore(),
        Stat::PyroResistanceReduction => lemma_reads_pyro_resistance_reduction(),
        Stat::HydroResistanceReduction => lemma_reads_hydro_resistance_reduction(),
        Stat::ElectroResistanceReduction => lemma_reads_electro_resistance_reduction(),
        Stat::CryoResistanceReduction => lemma_reads_cryo_resistance_reduction(),
        Stat::AnemoResistanceReduction => lemma_reads_anemo_resistance_reduction(),
        Stat::GeoResistanceReduction => lemma_reads_geo_resistance_reduction(),
        Stat::DendroResistanceReduction => lemma_reads_dendro_resistance_reduction(),
        Stat::PhysicalResistanceReduction => lemma_reads_physical_resistance_reduction(),
    }
}

proof fn lemma_reads_base_hp()
    ensures
        stat_of_key(flatten("BaseHP"@)) == Some(Stat::BaseHP),
{
    reveal_strlit("BaseHP");
    reveal_strlit("basehp");
    reveal_with_fuel(flatten, 28);
    assert(flatten("BaseHP"@) == "basehp"@);
}

proof fn lemma_reads_flat_hp()
    ensures
        stat_of_key(flatten("FlatHP"@)) == Some(Stat::FlatHP),
{
    reveal_strlit("FlatHP");
    reveal_strlit("flathp");
    assert("flathp"@[0] != "basehp"@[0]) by {
        reveal_strlit("basehp");
    }
    reveal_with_fuel(flatten, 28);
    assert(flatten("FlatHP"@) == "flathp"@);
}

proof fn lemma_reads_hp_percent()
    ensures
        stat_of_key(flatten("HPPercent"@)) == Some(Stat::HPPercent),
{
    reveal_strlit("HPPercent");
    reveal_strlit("hppercent");
    reveal_with_fuel(flatten, 28);
    assert(flatten("HPPercent"@) == "hppercent"@);
}

proof fn lemma_reads_base_atk()
    ensures
        stat_of_key(flatten("BaseATK"@)) == Some(Stat::BaseATK),
{
    reveal_strlit("BaseATK");
    reveal_strlit("baseatk");
    reveal_with_fuel(flatten, 28);
    assert(flatten("BaseATK"@) == "baseatk"@);
}

proof fn lemma_reads_flat_atk()
    ensures
        stat_of_key(flatten("FlatATK"@)) == Some(Stat::FlatATK),
{
    reveal_strlit("FlatATK");
    reveal_strlit("flatatk");
    assert("flatatk"@[0] != "baseatk"@[0]) by {
        reveal_strlit("baseatk");
    }
    reveal_with_fuel(flatten, 28);
    assert(flatten("FlatATK"@) == "flatatk"@);
}

proof fn lemma_reads_atk_percent()
    ensures
        stat_of_key(flatten("ATKPercent"@)) == Some(Stat::ATKPercent),
{
    reveal_strlit("ATKPercent");
    reveal_strlit("atkpercent");
    reveal_with_fuel(flatten, 28);
    assert(flatten("ATKPercent"@) == "atkpercent"@);
}

proof fn lemma_reads_base_def()
    ensures
        stat_of_key(flatten("BaseDEF"@)) == Some(Stat::BaseDEF),
{
    reveal_strlit("BaseDEF");
    reveal_strlit("basedef");
    assert("basedef"@[4] != "baseatk"@[4]) by {
        reveal_strlit("baseatk");
    }
    assert("basedef"@[0] != "flatatk"@[0]) by {
        reveal_strlit("flatatk");
    }
    reveal_with_fuel(flatten, 28);
    assert(flatten("BaseDEF"@) == "basedef"@);
}

proof fn lemma_reads_flat_def()
    ensures
        stat_of_key(flatten("FlatDEF"@)) == Some(Stat::FlatDEF),
{
    reveal_strlit("FlatDEF");
    reveal_strlit("flatdef");
    assert("flatdef"@[0] != "baseatk"@[0]) by {
        reveal_strlit("baseatk");
    }
    assert("flatdef"@[4] != "flatatk"@[4]) by {
        reveal_strlit("flatatk");
    }
    assert("flatdef"@[0] != "basedef"@[0]) by {
        reveal_strlit("basedef");
    }
    reveal_with_fuel(flatten, 28);
    assert(flatten("FlatDEF"@) == "flatdef"@);
}

proof fn lemma_reads_def_percent()
    ensures
        stat_of_key(flatten("DEFPercent"@)) == Some(Stat::DEFPercent),
{
    reveal_strlit("DEFPercent");
    reveal_strlit("defpercent");
    assert("defpercent"@[0] != "atkpercent"@[0]) by {
        reveal_strlit("atkpercent");
    }
    reveal_with_fuel(flatten, 28);
    assert(flatten("DEFPercent"@) == "defpercent"@);
}

proof fn lemma_reads_elemental_mastery()
    ensures
        stat_of_key(flatten("ElementalMastery"@)) == Some(Stat::ElementalMastery),
{
    reveal_strlit("ElementalMastery");
    reveal_strlit("elementalmastery");
    reveal_with_fuel(flatten, 28);
    assert(flatten("ElementalMastery"@) == "elementalmastery"@);
}

proof fn lemma_reads_crit_rate()
    ensures
        stat_of_key(flatten("CritRate"@)) == Some(Stat::CritRate),
{
    reveal_strlit("CritRate");
    reveal_strlit("critrate");
    reveal_with_fuel(flatten, 28);
    assert(flatten("CritRate"@) == "critrate"@);
}

proof fn lemma_reads_crit_dmg()
    ensures
        stat_of_key(flatten("CritDMG"@)) == Some(Stat::CritDMG),
{
    reveal_strlit("CritDMG");
    reveal_strlit("critdmg");
    assert("critdmg"@[0] != "baseatk"@[0]) by {
        reveal_strlit("baseatk");
    }
    assert("critdmg"@[0] != "flatatk"@[0]) by {
        reveal_strlit("flatatk");
    }
    assert("critdmg"@[0] != "basedef"@[0]) by {
        reveal_strlit("basedef");
    }
    assert("critdmg"@[0] != "flatdef"@[0]) by {
        reveal_strlit("flatdef");
    }
    reveal_with_fuel(flatten, 28);
    assert(flatten("CritDMG"@) == "critdmg"@);
}

proof fn lemma_reads_energy_recharge()
    ensures
        stat_of_key(flatten("EnergyRecharge"@)) == Some(Stat::EnergyRecharge),
{
    reveal_strlit("EnergyRecharge");
    reveal_strlit("energyrecharge");
    reveal_with_fuel(flatten, 28);
    assert(flatten("EnergyRecharge"@) == "energyrecharge"@);
}

proof fn lemma_reads_dmg_bonus()
    ensures
        stat_of_key(flatten("DMGBonus"@)) == Some(Stat::DMGBonus),
{
    reveal_strlit("DMGBonus");
    reveal_strlit("dmgbonus");
    assert("dmgbonus"@[0] != "critrate"@[0]) by {
        reveal_strlit("critrate");
    }
    reveal_with_fuel(flatten, 28);
    assert(flatten("DMGBonus"@) == "dmgbonus"@);
}

proof fn lemma_reads_elemental_dmg_bonus()
    ensures
        stat_of_key(flatten("ElementalDMGBonus"@)) == Some(Stat::ElementalDMGBonus),
{
    reveal_strlit("ElementalDMGBonus");
    reveal_strlit("elementaldmgbonus");
    reveal_with_fuel(flatten, 28);
    assert(flatten("ElementalDMGBonus"@) == "elementaldmgbonus"@);
}

proof fn lemma_reads_pyro_dmg_bonus()
    ensures
        stat_of_key(flatten("PyroDMGBonus"@)) == Some(Stat::PyroDMGBonus),
{
    reveal_strlit("PyroDMGBonus");
    reveal_strlit("pyrodmgbonus");
    assert("pyrodmgbonus"@[0] != "elementaldmg"@[0]) by {
        reveal_strlit("elementaldmg");
    }
    reveal_with_fuel(flatten, 28);
    assert(flatten("PyroDMGBonus"@) == "pyrodmgbonus"@);
}

proof fn lemma_reads_cryo_dmg_bonus()
    ensures
        stat_of_key(flatten("CryoDMGBonus"@)) == Some(Stat::CryoDMGBonus),
{
    reveal_strlit("CryoDMGBonus");
    reveal_strlit("cryodmgbonus");
    assert("cryodmgbonus"@[0] != "elementaldmg"@[0]) by {
        reveal_strlit("elementaldmg");
    }
    assert("cryodmgbonus"@[0] != "pyrodmgbonus"@[0]) by {
        reveal_strlit("pyrodmgbonus");
    }
    reveal_with_fuel(flatten, 28);
    assert(flatten("CryoDMGBonus"@) == "cryodmgbonus"@);
}

proof fn lemma_reads_geo_dmg_bonus()
    ensures
        stat_of_key(flatten("GeoDMGBonus"@)) == Some(Stat::GeoDMGBonus),
{
    reveal_strlit("GeoDMGBonus");
    reveal_strlit("geodmgbonus");
    reveal_with_fuel(flatten, 28);
    assert(flatten("GeoDMGBonus"@) == "geodmgbonus"@);
}

proof fn lemma_reads_dendro_dmg_bonus()
    ensures
        stat_of_key(flatten("DendroDMGBonus"@)) == Some(Stat::DendroDMGBonus),
{
    reveal_strlit("DendroDMGBonus");
    reveal_strlit("dendrodmgbonus");
    assert("dendrodmgbonus"@[0] != "energyrecharge"@[0]) by {
        reveal_strlit("energyrecharge");
    }
    reveal_with_fuel(flatten, 28);
    assert(flatten("DendroDMGBonus"@) == "dendrodmgbonus"@);
}

proof fn lemma_reads_electro_dmg_bonus()
    ensures
        stat_of_key(flatten("ElectroDMGBonus"@)) == Some(Stat::ElectroDMGBonus),
{
    reveal_strlit("ElectroDMGBonus");
    reveal_strlit("electrodmgbonus");
    reveal_with_fuel(flatten, 28);
    assert(flatten("ElectroDMGBonus"@) == "electrodmgbonus"@);
}

proof fn lemma_reads_hydro_dmg_bonus()
    ensures
        stat_of_key(flatten("HydroDMGBonus"@)) == Some(Stat::HydroDMGBonus),
{
    reveal_strlit("HydroDMGBonus");
    reveal_strlit("hydrodmgbonus");
    reveal_with_fuel(flatten, 28);
    assert(flatten("HydroDMGBonus"@) == "hydrodmgbonus"@);
}

proof fn lemma_reads_anemo_dmg_bonus()
    ensures
        stat_of_key(flatten("AnemoDMGBonus"@)) == Some(Stat::AnemoDMGBonus),
{
    reveal_strlit("AnemoDMGBonus");
    reveal_strlit("anemodmgbonus");
    assert("anemodmgbonus"@[0] != "hydrodmgbonus"@[0]) by {
        reveal_strlit("hydrodmgbonus");
    }
    reveal_with_fuel(flatten, 28);
    assert(flatten("AnemoDMGBonus"@) == "anemodmgbonus"@);
}

proof fn lemma_reads_physical_dmg_bonus()
    ensures
        stat_of_key(flatten("PhysicalDMGBonus"@)) == Some(Stat::PhysicalDMGBonus),
{
    reveal_strlit("PhysicalDMGBonus");
    reveal_strlit("physicaldmgbonus");
    assert("physicaldmgbonus"@[0] != "elementalmastery"@[0]) by {
        reveal_strlit("elementalmastery");
    }
    reveal_with_fuel(flatten, 28);
    assert(flatten("PhysicalDMGBonus"@) == "physicaldmgbonus"@);
}

proof fn lemma_reads_normal_atkdmg_bonus()
    ensures
        stat_of_key(flatten("NormalATKDMGBonus"@)) == Some(Stat::NormalATKDMGBonus),
{
    reveal_strlit("NormalATKDMGBonus");
    reveal_strlit("normalatkdmgbonus");
    assert("normalatkdmgbonus"@[0] != "elementaldmgbonus"@[0]) by {
        reveal_strlit("elementaldmgbonus");
    }
    reveal_with_fuel(flatten, 28);
    assert(flatten("NormalATKDMGBonus"@) == "normalatkdmgbonus"@);
}

proof fn lemma_reads_charge_atkdmg_bonus()
    ensures
        stat_of_key(flatten("ChargeATKDMGBonus"@)) == Some(Stat::ChargeATKDMGBonus),
{
    reveal_strlit("ChargeATKDMGBonus");
    reveal_strlit("chargeatkdmgbonus");
    assert("chargeatkdmgbonus"@[0] != "elementaldmgbonus"@[0]) by {
        reveal_strlit("elementaldmgbonus");
    }
    assert("chargeatkdmgbonus"@[0] != "normalatkdmgbonus"@[0]) by {
        reveal_strlit("normalatkdmgbonus");
    }
    reveal_with_fuel(flatten, 28);
    assert(flatten("ChargeATKDMGBonus"@) == "chargeatkdmgbonus"@);
}

proof fn lemma_reads_plunge_atkdmg_bonus()
    ensures
        stat_of_key(flatten("PlungeATKDMGBonus"@)) == Some(Stat::PlungeATKDMGBonus),
{
    reveal_strlit("PlungeATKDMGBonus");
    reveal_strlit("plungeatkdmgbonus");
    assert("plungeatkdmgbonus"@[0] != "elementaldmgbonus"@[0]) by {
        reveal_strlit("elementaldmgbonus");
    }
    assert("plungeatkdmgbonus"@[0] != "normalatkdmgbonus"@[0]) by {
        reveal_strlit("normalatkdmgbonus");
    }
    assert("plungeatkdmgbonus"@[0] != "chargeatkdmgbonus"@[0]) by {
        reveal_strlit("chargeatkdmgbonus");
    }
    reveal_with_fuel(flatten, 28);
    assert(flatten("PlungeATKDMGBonus"@) == "plungeatkdmgbonus"@);
}

proof fn lemma_reads_skill_dmg_bonus()
    ensures
        stat_of_key(flatten("SkillDMGBonus"@)) == Some(Stat::SkillDMGBonus),
{
    reveal_strlit("SkillDMGBonus");
    reveal_strlit("skilldmgbonus");
    assert("skilldmgbonus"@[0] != "hydrodmgbonus"@[0]) by {
        reveal_strlit("hydrodmgbonus");
    }
    assert("skilldmgbonus"@[0] != "anemodmgbonus"@[0]) by {
        reveal_strlit("anemodmgbonus");
    }
    reveal_with_fuel(flatten, 28);
    assert(flatten("SkillDMGBonus"@) == "skilldmgbonus"@);
}

proof fn lemma_reads_burst_dmg_bonus()
    ensures
        stat_of_key(flatten("BurstDMGBonus"@)) == Some(Stat::BurstDMGBonus),
{
    reveal_strlit("BurstDMGBonus");
    reveal_strlit("burstdmgbonus");
    assert("burstdmgbonus"@[0] != "hydrodmgbonus"@[0]) by {
        reveal_strlit("hydrodmgbonus");
    }
    assert("burstdmgbonus"@[0] != "anemodmgbonus"@[0]) by {
        reveal_strlit("anemodmgbonus");
    }
    assert("burstdmgbonus"@[0] != "skilldmgbonus"@[0]) by {
        reveal_strlit("skilldmgbonus");
    }
    reveal_with_fuel(flatten, 28);
    assert(flatten("BurstDMGBonus"@) == "burstdmgbonus"@);
}

proof fn lemma_reads_healing_bonus()
    ensures
        stat_of_key(flatten("HealingBonus"@)) == Some(Stat::HealingBonus),
{
    reveal_strlit("HealingBonus");
    reveal_strlit("healingbonus");
    assert("healingbonus"@[0] != "elementaldmg"@[0]) by {
        reveal_strlit("elementaldmg");
    }
    assert("healingbonus"@[0] != "pyrodmgbonus"@[0]) by {
        reveal_strlit("pyrodmgbonus");
    }
    assert("healingbonus"@[0] != "cryodmgbonus"@[0]) by {
        reveal_strlit("cryodmgbonus");
    }
    reveal_with_fuel(flatten, 28);
    assert(flatten("HealingBonus"@) == "healingbonus"@);
}

proof fn lemma_reads_no_stat()
    ensures
        stat_of_key(flatten("None"@)) == Some(Stat::NoStat),
{
    reveal_strlit("None");
    reveal_strlit("none");
    reveal_with_fuel(flatten, 28);
    assert(flatten("None"@) == "none"@);
}

proof fn lemma_reads_reaction_bonus()
    ensures
        stat_of_key(flatten("ReactionBonus"@)) == Some(Stat::ReactionBonus),
{
    reveal_strlit("ReactionBonus");
    reveal_strlit("reactionbonus");
    assert("reactionbonus"@[0] != "hydrodmgbonus"@[0]) by {
        reveal_strlit("hydrodmgbonus");
    }
    assert("reactionbonus"@[0] != "anemodmgbonus"@[0]) by {
        reveal_strlit("anemodmgbonus");
    }
    assert("reactionbonus"@[0] != "skilldmgbonus"@[0]) by {
        reveal_strlit("skilldmgbonus");
    }
    assert("reactionbonus"@[0] != "burstdmgbonus"@[0]) by {
        reveal_strlit("burstdmgbonus");
    }
    reveal_with_fuel(flatten, 28);
    assert(flatten("ReactionBonus"@) == "reactionbonus"@);
}

proof fn lemma_reads_def_reduction()
    ensures
        stat_of_key(flatten("DefReduction"@)) == Some(Stat::DefReduction),
{
    reveal_strlit("DefReduction");
    reveal_strlit("defreduction");
    assert("defreduction"@[0] != "elementaldmg"@[0]) by {
        reveal_strlit("elementaldmg");
    }
    assert("defreduction"@[0] != "pyrodmgbonus"@[0]) by {
        reveal_strlit("pyrodmgbonus");
    }
    assert("defreduction"@[0] != "cryodmgbonus"@[0]) by {
        reveal_strlit("cryodmgbonus");
    }
    assert("defreduction"@[0] != "healingbonus"@[0]) by {
        reveal_strlit("healingbonus");
    }
    reveal_with_fuel(flatten, 28);
    assert(flatten("DefReduction"@) == "defreduction"@);
}

proof fn lemma_reads_def_ignore()
    ensures
        stat_of_key(flatten("DefIgnore"@)) == Some(Stat::DefIgnore),
{
    reveal_strlit("DefIgnore");
    reveal_strlit("defignore");
    assert("defignore"@[0] != "hppercent"@[0]) by {
        reveal_strlit("hppercent");
    }
    reveal_with_fuel(flatten, 28);
    assert(flatten("DefIgnore"@) == "defignore"@);
}

proof fn lemma_reads_pyro_resistance_reduction()
    ensures
        stat_of_key(flatten("PyroResistanceReduction"@)) == Some(Stat::PyroResistanceReduction),
{
    reveal_strlit("PyroResistanceReduction");
    reveal_strlit("pyroresistancereduction");
    reveal_with_fuel(flatten, 28);
    assert(flatten("PyroResistanceReduction"@) == "pyroresistancereduction"@);
}

proof fn lemma_reads_hydro_resistance_reduction()
    ensures
        stat_of_key(flatten("HydroResistanceReduction"@)) == Some(Stat::HydroResistanceReduction),
{
    reveal_strlit("HydroResistanceReduction");
    reveal_strlit("hydroresistancereduction");
    reveal_with_fuel(flatten, 28);
    assert(flatten("HydroResistanceReduction"@) == "hydroresistancereduction"@);
}

proof fn lemma_reads_electro_resistance_reduction()
    ensures
        stat_of_key(flatten("ElectroResistanceReduction"@)) == Some(Stat::ElectroResistanceReduction),
{
    reveal_strlit("ElectroResistanceReduction");
    reveal_strlit("electroresistancereduction");
    reveal_with_fuel(flatten, 28);
    assert(flatten("ElectroResistanceReduction"@) == "electroresistancereduction"@);
}

proof fn lemma_reads_cryo_resistance_reduction()
    ensures
        stat_of_key(flatten("CryoResistanceReduction"@)) == Some(Stat::CryoResistanceReduction),
{
    reveal_strlit("CryoResistanceReduction");
    reveal_strlit("cryoresistancereduction");
    assert("cryoresistancereduction"@[0] != "pyroresistancereduction"@[0]) by {
        reveal_strlit("pyroresistancereduction");
    }
    reveal_with_fuel(flatten, 28);
    assert(flatten("CryoResistanceReduction"@) == "cryoresistancereduction"@);
}

proof fn lemma_reads_anemo_resistance_reduction()
    ensures
        stat_of_key(flatten("AnemoResistanceReduction"@)) == Some(Stat::AnemoResistanceReduction),
{
    reveal_strlit("AnemoResistanceReduction");
    reveal_strlit("anemoresistancereduction");
    assert("anemoresistancereduction"@[0] != "hydroresistancereduction"@[0]) by {
        reveal_strlit("hydroresistancereduction");
    }
    reveal_with_fuel(flatten, 28);
    assert(flatten("AnemoResistanceReduction"@) == "anemoresistancereduction"@);
}

proof fn lemma_reads_geo_resistance_reduction()
    ensures
        stat_of_key(flatten("GeoResistanceReduction"@)) == Some(Stat::GeoResistanceReduction),
{
    reveal_strlit("GeoResistanceReduction");
    reveal_strlit("georesistancereduction");
    reveal_with_fuel(flatten, 28);
    assert(flatten("GeoResistanceReduction"@) == "georesistancereduction"@);
}

proof fn lemma_reads_dendro_resistance_reduction()
    ensures
        stat_of_key(flatten("DendroResistanceReduction"@)) == Some(Stat::DendroResistanceReduction),
{
    reveal_strlit("DendroResistanceReduction");
    reveal_strlit("dendroresistancereduction");
    reveal_with_fuel(flatten, 28);
    assert(flatten("DendroResistanceReduction"@) == "dendroresistancereduction"@);
}

proof fn lemma_reads_physical_resistance_reduction()
    ensures
        stat_of_key(flatten("PhysicalResistanceReduction"@)) == Some(Stat::PhysicalResistanceReduction),
{
    reveal_strlit("PhysicalResistanceReduction");
    reveal_strlit("physicalresistancereduction");
    reveal_with_fuel(flatten, 28);
    assert(flatten("PhysicalResistanceReduction"@) == "physicalresistancereduction"@);
}

} // verus!
