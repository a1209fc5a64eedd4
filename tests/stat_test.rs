use std::str::FromStr;

use aminus::artifact::{check_sub_stat_key, main_stat_key, MainStatColumn};
use aminus::dmg_function::DMGFunction;
use aminus::error::ValidationError;
use aminus::rolls::RollQuality;
use aminus::stat::{Amplifier, BaseScaling, DamageType, Element, Stat};

#[test]
fn stat_names_round_trip() {
    for id in 0..41u32 {
        let s = Stat::from_id(id).unwrap();
        assert_eq!(s.id(), id);
        assert_eq!(Stat::from_name(s.as_str()), Some(s));
    }
    assert_eq!(Stat::from_id(41), None);
    assert_eq!(Stat::NoStat.as_str(), "None");
    assert_eq!(Stat::FlatHP.id(), 1);
    assert_eq!(Stat::PhysicalResistanceReduction.id(), 40);
}

#[test]
fn stat_from_str_aliases() {
    assert_eq!(Stat::from_str("Crit Rate"), Ok(Stat::CritRate));
    assert_eq!(Stat::from_str("cd"), Ok(Stat::CritDMG));
    assert_eq!(Stat::from_str("ATK"), Ok(Stat::ATKPercent));
    assert_eq!(Stat::from_str("HP"), Ok(Stat::HPPercent));
    assert_eq!(Stat::from_str("Physical DMG Bonus"), Ok(Stat::PhysicalDMGBonus));
    assert_eq!(Stat::from_str("Elemental Mastery"), Ok(Stat::ElementalMastery));
    assert_eq!(Stat::from_str("n"), Ok(Stat::NoStat));
    assert_eq!(Stat::from_str("EM"), Ok(Stat::ElementalMastery));
    assert_eq!(Stat::from_str("cr"), Ok(Stat::CritRate));
    assert_eq!(Stat::from_str("Er"), Ok(Stat::EnergyRecharge));
    assert_eq!(Stat::from_str("def"), Ok(Stat::DEFPercent));
    assert_eq!(Stat::from_str("h.b."), Ok(Stat::HealingBonus));
    assert_eq!(Stat::from_str("Crit_DMG"), Ok(Stat::CritDMG));
    for id in 0..41u32 {
        let s = Stat::from_id(id).unwrap();
        assert_eq!(Stat::from_str(s.as_str()), Ok(s));
        assert_eq!(Stat::from_str(&s.as_str().to_uppercase()), Ok(s));
    }
    assert_eq!(Stat::from_str("unknown"), Err(()));
    assert_eq!(Stat::from_name(""), None);
}

#[test]
fn elemental_dmg_bonus() {
    assert!(Stat::PyroDMGBonus.is_elemental_dmg_bonus());
    assert!(Stat::AnemoDMGBonus.is_elemental_dmg_bonus());
    assert!(!Stat::PhysicalDMGBonus.is_elemental_dmg_bonus());
    assert!(!Stat::ElementalDMGBonus.is_elemental_dmg_bonus());
}

#[test]
fn enum_codes() {
    assert_eq!(Element::from_id(3), Some(Element::Cryo));
    assert_eq!(Element::from_id(4), Some(Element::Anemo));
    assert_eq!(Element::from_id(8), None);
    assert_eq!(DamageType::from_id(4), Some(DamageType::Burst));
    assert_eq!(DamageType::from_id(5), None);
    assert_eq!(BaseScaling::from_id(2), Some(BaseScaling::HP));
    assert_eq!(BaseScaling::from_id(3), None);
    assert_eq!(Amplifier::from_id(0), Some(Amplifier::NoAmplifier));
    assert_eq!(Amplifier::from_id(2), Some(Amplifier::Reverse));
    assert_eq!(Amplifier::from_id(3), None);
    assert_eq!(RollQuality::from_id(0), Some(RollQuality::LOW));
    assert_eq!(RollQuality::from_id(4), Some(RollQuality::AVG));
    assert_eq!(RollQuality::from_id(5), None);
}

#[test]
fn damage_stats_selection() {
    let d = DMGFunction::damage_stats(Element::Pyro, DamageType::Skill, BaseScaling::DEF, Amplifier::Forward).unwrap();
    assert_eq!(d.scaling_base, Stat::BaseDEF);
    assert_eq!(d.scaling_percent, Stat::DEFPercent);
    assert_eq!(d.scaling_flat, Stat::FlatDEF);
    assert_eq!(d.element_bonus, Some(Stat::PyroDMGBonus));
    assert_eq!(d.attack_bonus, Some(Stat::SkillDMGBonus));
    assert_eq!(d.resistance_reduction, Some(Stat::PyroResistanceReduction));
    assert!(d.amplified);

    let d = DMGFunction::damage_stats(Element::NoElement, DamageType::NoType, BaseScaling::HP, Amplifier::NoAmplifier).unwrap();
    assert_eq!(d.element_bonus, None);
    assert_eq!(d.attack_bonus, None);
    assert_eq!(d.resistance_reduction, None);
    assert!(!d.amplified);

    assert_eq!(
        DMGFunction::damage_stats(Element::Electro, DamageType::Normal, BaseScaling::ATK, Amplifier::Reverse),
        Err(ValidationError::AmplifierElementMismatch)
    );
}

#[test]
fn defence_levels() {
    assert_eq!(DMGFunction::check_levels(90, 100), Ok(()));
    assert_eq!(DMGFunction::check_levels(1, 1), Ok(()));
    assert_eq!(DMGFunction::check_levels(0, 100), Err(ValidationError::InvalidLevels));
    assert_eq!(DMGFunction::check_levels(91, 100), Err(ValidationError::InvalidLevels));
    assert_eq!(DMGFunction::check_levels(90, 0), Err(ValidationError::InvalidLevels));
}

#[test]
fn main_stat_table_keys() {
    assert_eq!(main_stat_key(5, 20, &Stat::FlatATK), Ok(MainStatColumn::FlatATK));
    assert_eq!(main_stat_key(1, 0, &Stat::FlatATK), Ok(MainStatColumn::FlatATK));
    assert_eq!(main_stat_key(1, 0, &Stat::PyroDMGBonus), Ok(MainStatColumn::ElementalDMGPercent));
    assert_eq!(main_stat_key(5, 20, &Stat::PhysicalDMGBonus), Ok(MainStatColumn::PhysicalDMGBonus));
    assert_eq!(main_stat_key(0, 0, &Stat::FlatATK), Err(ValidationError::InvalidRarityLevel));
    assert_eq!(main_stat_key(-1, 0, &Stat::FlatATK), Err(ValidationError::InvalidRarityLevel));
    assert_eq!(main_stat_key(6, 0, &Stat::FlatATK), Err(ValidationError::InvalidRarityLevel));
    assert_eq!(main_stat_key(1, 5, &Stat::FlatATK), Err(ValidationError::InvalidRarityLevel));
    assert_eq!(main_stat_key(5, 21, &Stat::FlatATK), Err(ValidationError::InvalidRarityLevel));
    assert_eq!(main_stat_key(4, 17, &Stat::FlatATK), Err(ValidationError::InvalidRarityLevel));
    assert_eq!(main_stat_key(5, 20, &Stat::BaseATK), Err(ValidationError::InvalidMainStat));

    assert_eq!(check_sub_stat_key(5, &Stat::ATKPercent), Ok(()));
    assert_eq!(check_sub_stat_key(0, &Stat::BaseATK), Err(ValidationError::InvalidRarityLevel));
    assert_eq!(check_sub_stat_key(5, &Stat::PhysicalDMGBonus), Err(ValidationError::InvalidSubstat));
}
