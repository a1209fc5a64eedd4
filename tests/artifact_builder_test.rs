use aminus::artifact::{is_valid_substat_type, max_rolls_for, ArtifactPiece};
use aminus::artifact_builder::ArtifactBuilder;
use aminus::error::ValidationError;
use aminus::rolls::RollQuality;
use aminus::stat::Stat;

fn piece(rarity: i8, level: i8, stat_type: Stat) -> Option<ArtifactPiece> {
    Some(ArtifactPiece { rarity, level, stat_type })
}

#[test]
fn default_artifact_builder() {
    let mut bob = ArtifactBuilder::new(
        Some(ArtifactPiece { rarity: 5, level: 20, stat_type: Stat::FlatHP }),
        Some(ArtifactPiece { rarity: 5, level: 20, stat_type: Stat::FlatATK }),
        Some(ArtifactPiece { rarity: 5, level: 20, stat_type: Stat::EnergyRecharge }),
        Some(ArtifactPiece { rarity: 5, level: 20, stat_type: Stat::ATKPercent }),
        Some(ArtifactPiece { rarity: 5, level: 20, stat_type: Stat::ATKPercent }),
    )
    .unwrap();

    // no piece has the stat as main stat
    assert_eq!(bob.substat_constraint(&Stat::FlatDEF, 5), 30);
    assert_eq!(bob.substat_constraint(&Stat::CritDMG, 5), 30);
    assert_eq!(bob.substat_constraint(&Stat::CritRate, 5), 30);
    // one piece has the stat as main stat
    assert_eq!(bob.substat_constraint(&Stat::EnergyRecharge, 5), 24);
    assert_eq!(bob.substat_constraint(&Stat::FlatATK, 5), 24);
    // two pieces have the stat as main stat
    assert_eq!(bob.substat_constraint(&Stat::ATKPercent, 5), 18);

    assert_eq!(bob.rolls.len(), 0);
    bob.roll(Stat::CritRate, RollQuality::AVG, 5, 1).unwrap();
    assert_eq!(bob.current_rolls_for_given(&Stat::CritRate, RollQuality::AVG, 5), 1);
    bob.roll(Stat::CritRate, RollQuality::MAX, 5, 1).unwrap();
    assert_eq!(bob.current_rolls_for_given(&Stat::CritRate, RollQuality::MAX, 5), 1);
    assert_eq!(bob.current_rolls(), 2);
}

#[test]
fn kqm_artifact_builder() {
    let bob = ArtifactBuilder::kqm(
        Some(ArtifactPiece { rarity: 5, level: 20, stat_type: Stat::FlatHP }),
        Some(ArtifactPiece { rarity: 5, level: 20, stat_type: Stat::FlatATK }),
        Some(ArtifactPiece { rarity: 5, level: 20, stat_type: Stat::EnergyRecharge }),
        Some(ArtifactPiece { rarity: 5, level: 20, stat_type: Stat::ATKPercent }),
        Some(ArtifactPiece { rarity: 5, level: 20, stat_type: Stat::ATKPercent }),
    )
    .unwrap();

    assert_eq!(bob.substat_constraint(&Stat::FlatDEF, 5), 10);
    assert_eq!(bob.substat_constraint(&Stat::CritDMG, 5), 10);
    assert_eq!(bob.substat_constraint(&Stat::CritRate, 5), 10);
    assert_eq!(bob.substat_constraint(&Stat::EnergyRecharge, 5), (10 - 2));
    assert_eq!(bob.substat_constraint(&Stat::FlatATK, 5), 10 - 2);
    assert_eq!(bob.substat_constraint(&Stat::ATKPercent, 5), 10 - 2 - 2);
}

#[test]
fn default_artifact_builder_4_star_artifacts() {
    let bob = ArtifactBuilder::new(
        Some(ArtifactPiece { rarity: 4, level: 16, stat_type: Stat::FlatHP }),
        Some(ArtifactPiece { rarity: 4, level: 16, stat_type: Stat::FlatATK }),
        Some(ArtifactPiece { rarity: 4, level: 16, stat_type: Stat::EnergyRecharge }),
        Some(ArtifactPiece { rarity: 4, level: 16, stat_type: Stat::ATKPercent }),
        Some(ArtifactPiece { rarity: 4, level: 16, stat_type: Stat::ATKPercent }),
    )
    .unwrap();

    assert_eq!(bob.max_rolls(), 35);
}

#[test]
fn roll_updates_rolls_map() {
    let mut bob = ArtifactBuilder::new(
        Some(ArtifactPiece { rarity: 5, level: 20, stat_type: Stat::FlatHP }),
        Some(ArtifactPiece { rarity: 5, level: 20, stat_type: Stat::FlatATK }),
        Some(ArtifactPiece { rarity: 5, level: 20, stat_type: Stat::EnergyRecharge }),
        Some(ArtifactPiece { rarity: 5, level: 20, stat_type: Stat::PyroDMGBonus }),
        Some(ArtifactPiece { rarity: 5, level: 20, stat_type: Stat::CritRate }),
    )
    .unwrap();
    assert!(bob.rolls.len() == 0);
    bob.roll(Stat::FlatATK, RollQuality::AVG, 5, 1).unwrap();
    assert!(bob.rolls.len() == 1);
    assert!(bob.rolls.contains_key(&(Stat::FlatATK, RollQuality::AVG, 5)));
    assert!(bob.rolls.get(&(Stat::FlatATK, RollQuality::AVG, 5)).is_some());
    assert!(*(bob.rolls.get(&(Stat::FlatATK, RollQuality::AVG, 5)).unwrap()) == 1);

    bob.roll(Stat::FlatATK, RollQuality::AVG, 5, 1).unwrap();
    assert!(bob.rolls.len() == 1);
    assert!(bob.rolls.contains_key(&(Stat::FlatATK, RollQuality::AVG, 5)));
    assert!(bob.rolls.get(&(Stat::FlatATK, RollQuality::AVG, 5)).is_some());
    assert!(*(bob.rolls.get(&(Stat::FlatATK, RollQuality::AVG, 5)).unwrap()) == 2);

    bob.roll(Stat::FlatATK, RollQuality::HIGH, 5, 1).unwrap();
    assert!(bob.rolls.len() == 2);
    assert!(bob.rolls.contains_key(&(Stat::FlatATK, RollQuality::AVG, 5)));
    assert!(*(bob.rolls.get(&(Stat::FlatATK, RollQuality::AVG, 5)).unwrap()) == 2);
    assert!(bob.rolls.contains_key(&(Stat::FlatATK, RollQuality::HIGH, 5)));
    assert!(*(bob.rolls.get(&(Stat::FlatATK, RollQuality::HIGH, 5)).unwrap()) == 1);
}

#[test]
fn test_max_rolls_for_method() {
    let test_cases = vec![
        (1, 0, 0),
        (1, 4, 1),
        (2, 0, 1),
        (2, 4, 2),
        (3, 0, 2),
        (3, 4, 3),
        (3, 8, 4),
        (3, 12, 5),
        (4, 0, 3),
        (4, 4, 4),
        (4, 8, 5),
        (4, 12, 6),
        (4, 16, 7),
        (5, 0, 4),
        (5, 4, 5),
        (5, 8, 6),
        (5, 12, 7),
        (5, 16, 8),
        (5, 20, 9),
    ];

    for (rarity, level, expected) in test_cases {
        let artifact_piece = ArtifactPiece { rarity, level, stat_type: Stat::FlatHP };
        let actual = max_rolls_for(&artifact_piece, false);
        assert_eq!(actual, expected);
    }
}

#[test]
fn test_artifact_builder() {
    let five_star_artifacts = ArtifactBuilder::new(
        Some(ArtifactPiece { rarity: 5, level: 20, stat_type: Stat::FlatHP }),
        Some(ArtifactPiece { rarity: 5, level: 20, stat_type: Stat::FlatATK }),
        Some(ArtifactPiece { rarity: 5, level: 20, stat_type: Stat::ATKPercent }),
        Some(ArtifactPiece { rarity: 5, level: 20, stat_type: Stat::PyroDMGBonus }),
        Some(ArtifactPiece { rarity: 5, level: 20, stat_type: Stat::CritRate }),
    )
    .unwrap();

    assert_eq!(five_star_artifacts.current_rolls(), 0);
    assert_eq!(five_star_artifacts.max_rolls(), 45);
    assert_eq!(five_star_artifacts.rolls_left(), 45);

    let four_star_artifacts = ArtifactBuilder::new(
        Some(ArtifactPiece { rarity: 4, level: 16, stat_type: Stat::FlatHP }),
        Some(ArtifactPiece { rarity: 4, level: 16, stat_type: Stat::FlatATK }),
        Some(ArtifactPiece { rarity: 4, level: 16, stat_type: Stat::ATKPercent }),
        Some(ArtifactPiece { rarity: 4, level: 16, stat_type: Stat::PyroDMGBonus }),
        Some(ArtifactPiece { rarity: 4, level: 16, stat_type: Stat::CritRate }),
    )
    .unwrap();

    assert_eq!(four_star_artifacts.current_rolls(), 0);
    assert_eq!(four_star_artifacts.max_rolls(), 35);

    let mixed_star_artifacts = ArtifactBuilder::new(
        Some(ArtifactPiece { rarity: 4, level: 16, stat_type: Stat::FlatHP }),
        Some(ArtifactPiece { rarity: 4, level: 16, stat_type: Stat::FlatATK }),
        Some(ArtifactPiece { rarity: 5, level: 20, stat_type: Stat::EnergyRecharge }),
        Some(ArtifactPiece { rarity: 4, level: 16, stat_type: Stat::ElementalMastery }),
        Some(ArtifactPiece { rarity: 4, level: 16, stat_type: Stat::CritRate }),
    )
    .unwrap();

    assert_eq!(mixed_star_artifacts.current_rolls(), 0);
    assert_eq!(mixed_star_artifacts.max_rolls(), 37);
}

#[test]
#[should_panic]
fn invalid_main_stat_values_are_caught() {
    let _bob = ArtifactBuilder::new(
        Some(ArtifactPiece { rarity: 5, level: 20, stat_type: Stat::FlatHP }),
        Some(ArtifactPiece { rarity: 5, level: 20, stat_type: Stat::FlatDEF }),
        Some(ArtifactPiece { rarity: 5, level: 20, stat_type: Stat::EnergyRecharge }),
        Some(ArtifactPiece { rarity: 5, level: 20, stat_type: Stat::EnergyRecharge }),
        Some(ArtifactPiece { rarity: 5, level: 20, stat_type: Stat::ATKPercent }),
    )
    .unwrap();
}

#[test]
fn kqm_artifact_builder_detailed_test() {
    let bob = ArtifactBuilder::kqm(
        Some(ArtifactPiece { rarity: 5, level: 20, stat_type: Stat::FlatHP }),
        Some(ArtifactPiece { rarity: 5, level: 20, stat_type: Stat::FlatATK }),
        Some(ArtifactPiece { rarity: 5, level: 20, stat_type: Stat::ATKPercent }),
        Some(ArtifactPiece { rarity: 5, level: 20, stat_type: Stat::PyroDMGBonus }),
        Some(ArtifactPiece { rarity: 5, level: 20, stat_type: Stat::CritRate }),
    )
    .unwrap();

    assert_eq!(bob.current_rolls(), 20); // 2 rolls for each of 10 substats
    assert_eq!(bob.max_rolls(), 40); // 20 fixed + 20 fluid
    assert_eq!(bob.rolls_left(), 20);

    assert_eq!(bob.substat_constraint(&Stat::HPPercent, 5), 10);
    assert_eq!(bob.substat_constraint(&Stat::ATKPercent, 5), 8);
    assert_eq!(bob.substat_constraint(&Stat::CritRate, 5), 8);
}

#[test]
fn artifact_builder_rolling_substats() {
    let mut bob = ArtifactBuilder::kqm(
        Some(ArtifactPiece { rarity: 5, level: 20, stat_type: Stat::FlatHP }),
        Some(ArtifactPiece { rarity: 5, level: 20, stat_type: Stat::FlatATK }),
        Some(ArtifactPiece { rarity: 5, level: 20, stat_type: Stat::ATKPercent }),
        Some(ArtifactPiece { rarity: 5, level: 20, stat_type: Stat::PyroDMGBonus }),
        Some(ArtifactPiece { rarity: 5, level: 20, stat_type: Stat::CritRate }),
    )
    .unwrap();

    assert_eq!(bob.max_rolls(), 40);
    assert_eq!(bob.rolls_left(), 20);

    let initial_hp_constraint = bob.substat_constraint(&Stat::HPPercent, 5);
    assert_eq!(initial_hp_constraint, 10);

    let initial_rolls = bob.current_rolls();
    assert_eq!(initial_rolls, 20);

    // 2 fixed rolls are made already, so 8 more reach the budget of 10
    for i in 1..=8 {
        bob.roll(Stat::HPPercent, RollQuality::AVG, 5, 1).unwrap();
        assert_eq!(bob.current_rolls_for_given(&Stat::HPPercent, RollQuality::AVG, 5), 2 + i);
    }

    // no more HPPercent can be rolled
    assert_eq!(bob.roll(Stat::HPPercent, RollQuality::AVG, 5, 1), Err(ValidationError::RollExceedsConstraint));
    assert_eq!(bob.roll(Stat::HPPercent, RollQuality::MAX, 5, 1), Err(ValidationError::RollExceedsConstraint));
    let hp_rolls_after = bob.current_rolls_for_given(&Stat::HPPercent, RollQuality::AVG, 5);
    assert_eq!(hp_rolls_after, 10);
}

#[test]
fn artifact_builder_rolling_substats_for_4star() {
    let bob = ArtifactBuilder::kqm(
        Some(ArtifactPiece { rarity: 4, level: 16, stat_type: Stat::FlatHP }),
        Some(ArtifactPiece { rarity: 4, level: 16, stat_type: Stat::FlatATK }),
        Some(ArtifactPiece { rarity: 4, level: 16, stat_type: Stat::ATKPercent }),
        Some(ArtifactPiece { rarity: 4, level: 16, stat_type: Stat::PyroDMGBonus }),
        Some(ArtifactPiece { rarity: 4, level: 16, stat_type: Stat::CritRate }),
    )
    .unwrap();

    assert_eq!(bob.max_rolls(), 30);
}

#[test]
fn test_rolling_constraints() {
    let mut bob = ArtifactBuilder::new(
        Some(ArtifactPiece { rarity: 5, level: 20, stat_type: Stat::FlatHP }),
        Some(ArtifactPiece { rarity: 5, level: 20, stat_type: Stat::FlatATK }),
        Some(ArtifactPiece { rarity: 5, level: 20, stat_type: Stat::ATKPercent }),
        Some(ArtifactPiece { rarity: 5, level: 20, stat_type: Stat::PyroDMGBonus }),
        Some(ArtifactPiece { rarity: 5, level: 20, stat_type: Stat::CritRate }),
    )
    .unwrap();

    let constraint = bob.substat_constraint(&Stat::HPPercent, 5);
    for _ in 0..constraint {
        bob.roll(Stat::HPPercent, RollQuality::AVG, 5, 1).unwrap();
    }

    assert_eq!(bob.current_rolls_for_given(&Stat::HPPercent, RollQuality::AVG, 5), constraint);
}

#[test]
fn test_substat_value_calculation() {
    let mut bob = ArtifactBuilder::new(
        Some(ArtifactPiece { rarity: 5, level: 20, stat_type: Stat::FlatHP }),
        Some(ArtifactPiece { rarity: 5, level: 20, stat_type: Stat::FlatATK }),
        Some(ArtifactPiece { rarity: 5, level: 20, stat_type: Stat::ATKPercent }),
        Some(ArtifactPiece { rarity: 5, level: 20, stat_type: Stat::PyroDMGBonus }),
        Some(ArtifactPiece { rarity: 5, level: 20, stat_type: Stat::CritRate }),
    )
    .unwrap();

    bob.roll(Stat::CritDMG, RollQuality::MAX, 5, 3).unwrap();
    bob.roll(Stat::CritDMG, RollQuality::HIGH, 5, 2).unwrap();

    assert_eq!(bob.current_rolls_for_given(&Stat::CritDMG, RollQuality::MAX, 5), 3);
    assert_eq!(bob.current_rolls_for_given(&Stat::CritDMG, RollQuality::HIGH, 5), 2);
    assert_eq!(bob.current_rolls(), 5);
    assert_eq!(bob.rolls_left(), 45 - 5);
    assert_eq!(bob.current_rolls_for_given(&Stat::CritDMG, RollQuality::MAX, 5), 3);
    assert_eq!(bob.current_rolls_for_given(&Stat::CritDMG, RollQuality::HIGH, 5), 2);
}

#[test]
fn test_valid_substat_types() {
    assert!(is_valid_substat_type(&Stat::HPPercent));
    assert!(is_valid_substat_type(&Stat::FlatHP));
    assert!(is_valid_substat_type(&Stat::ATKPercent));
    assert!(is_valid_substat_type(&Stat::FlatATK));
    assert!(is_valid_substat_type(&Stat::DEFPercent));
    assert!(is_valid_substat_type(&Stat::FlatDEF));
    assert!(is_valid_substat_type(&Stat::ElementalMastery));
    assert!(is_valid_substat_type(&Stat::CritRate));
    assert!(is_valid_substat_type(&Stat::CritDMG));
    assert!(is_valid_substat_type(&Stat::EnergyRecharge));

    assert!(!is_valid_substat_type(&Stat::PyroDMGBonus));
    assert!(!is_valid_substat_type(&Stat::BaseHP));
    assert!(!is_valid_substat_type(&Stat::BaseATK));
}

#[test]
fn manual_construction() {}

#[test]
fn character_test_adding_and_getting() {}

#[test]
fn roll_then_unroll_restores_counts() {
    let mut bob = ArtifactBuilder::kqm_all_5_star(Stat::ATKPercent, Stat::PyroDMGBonus, Stat::CritRate).unwrap();
    let before = bob.current_rolls_for_given(&Stat::CritDMG, RollQuality::AVG, 5);
    let total = bob.current_rolls();
    bob.roll(Stat::CritDMG, RollQuality::AVG, 5, 3).unwrap();
    assert_eq!(bob.current_rolls_for_given(&Stat::CritDMG, RollQuality::AVG, 5), before + 3);
    bob.unroll(Stat::CritDMG, RollQuality::AVG, 5, 3).unwrap();
    assert_eq!(bob.current_rolls_for_given(&Stat::CritDMG, RollQuality::AVG, 5), before);
    assert_eq!(bob.current_rolls(), total);

    // a fresh key is dropped again
    let keys = bob.rolls.len();
    bob.roll(Stat::CritDMG, RollQuality::LOW, 5, 2).unwrap();
    assert_eq!(bob.rolls.len(), keys + 1);
    bob.unroll(Stat::CritDMG, RollQuality::LOW, 5, 2).unwrap();
    assert_eq!(bob.rolls.len(), keys);
    assert!(!bob.rolls.contains_key(&(Stat::CritDMG, RollQuality::LOW, 5)));
}

#[test]
fn unroll_clamps_at_zero() {
    let mut bob = ArtifactBuilder::new(piece(5, 20, Stat::FlatHP), None, None, None, None).unwrap();
    bob.roll(Stat::CritRate, RollQuality::MID, 5, 4).unwrap();
    bob.unroll(Stat::CritRate, RollQuality::MID, 5, 6).unwrap();
    assert_eq!(bob.current_rolls_for_given(&Stat::CritRate, RollQuality::MID, 5), 0);
    assert_eq!(bob.rolls.len(), 0);
    // no effect where the key holds no rolls
    bob.unroll(Stat::CritRate, RollQuality::MID, 5, 1).unwrap();
    assert_eq!(bob.current_rolls(), 0);
}

#[test]
fn roll_within_budget_stays_within_budget() {
    let mut bob = ArtifactBuilder::new(piece(5, 20, Stat::FlatHP), piece(5, 20, Stat::FlatATK), None, None, None).unwrap();
    let budget = bob.substat_constraint(&Stat::FlatATK, 5);
    assert_eq!(budget, 6);
    bob.roll(Stat::FlatATK, RollQuality::AVG, 5, 4).unwrap();
    bob.roll(Stat::FlatATK, RollQuality::AVG, 5, 2).unwrap();
    assert!(bob.current_rolls_for_given(&Stat::FlatATK, RollQuality::AVG, 5) <= budget);
    assert_eq!(bob.roll(Stat::FlatATK, RollQuality::AVG, 5, 1), Err(ValidationError::RollExceedsConstraint));
    assert_eq!(bob.roll(Stat::FlatATK, RollQuality::HIGH, 5, 1), Err(ValidationError::RollExceedsConstraint));
    assert_eq!(bob.current_rolls_for_given(&Stat::FlatATK, RollQuality::AVG, 5), 6);
}

#[test]
fn roll_errors() {
    let mut bob = ArtifactBuilder::new(piece(5, 20, Stat::FlatHP), None, None, None, None).unwrap();
    assert_eq!(bob.roll(Stat::PyroDMGBonus, RollQuality::AVG, 5, 1), Err(ValidationError::InvalidSubstat));
    assert_eq!(bob.roll(Stat::CritRate, RollQuality::AVG, 5, -1), Err(ValidationError::NegativeRollCount));
    assert_eq!(bob.roll(Stat::CritRate, RollQuality::AVG, 5, 7), Err(ValidationError::RollExceedsConstraint));
    assert_eq!(bob.roll(Stat::FlatHP, RollQuality::AVG, 5, 1), Err(ValidationError::RollExceedsConstraint));
    assert_eq!(bob.roll(Stat::CritRate, RollQuality::AVG, 4, 1), Err(ValidationError::RollExceedsConstraint));
    assert_eq!(bob.unroll(Stat::BaseATK, RollQuality::AVG, 5, 1), Err(ValidationError::InvalidSubstat));
    assert_eq!(bob.unroll(Stat::CritRate, RollQuality::AVG, 5, -2), Err(ValidationError::NegativeRollCount));
    // the budget counts the rolls already made, over all qualities
    bob.roll(Stat::CritRate, RollQuality::AVG, 5, 4).unwrap();
    assert_eq!(bob.roll(Stat::CritRate, RollQuality::MAX, 5, 3), Err(ValidationError::RollExceedsConstraint));
    assert_eq!(bob.roll(Stat::CritRate, RollQuality::MAX, 5, 2), Ok(()));
    assert_eq!(bob.current_rolls(), 6);
}

#[test]
fn roll_count_overflow() {
    let mut bob = ArtifactBuilder::new(
        piece(5, 20, Stat::FlatHP),
        piece(5, 20, Stat::FlatATK),
        piece(5, 20, Stat::EnergyRecharge),
        piece(5, 20, Stat::ATKPercent),
        piece(5, 20, Stat::ATKPercent),
    )
    .unwrap();
    for stat in [Stat::FlatDEF, Stat::CritDMG, Stat::CritRate, Stat::HPPercent] {
        bob.roll(stat, RollQuality::AVG, 5, 30).unwrap();
    }
    bob.roll(Stat::DEFPercent, RollQuality::AVG, 5, 6).unwrap();
    assert_eq!(bob.current_rolls(), 126);
    assert_eq!(bob.roll(Stat::ElementalMastery, RollQuality::AVG, 5, 2), Err(ValidationError::RollCountOverflow));
    assert_eq!(bob.roll(Stat::ElementalMastery, RollQuality::AVG, 5, 1), Ok(()));
    assert_eq!(bob.current_rolls(), 127);
    assert_eq!(bob.rolls_left(), 45 - 127);
}

#[test]
fn roll_of_zero_changes_nothing() {
    let mut bob = ArtifactBuilder::new(piece(5, 20, Stat::FlatHP), None, None, None, None).unwrap();
    assert_eq!(bob.roll(Stat::CritRate, RollQuality::AVG, 5, 0), Ok(()));
    assert_eq!(bob.rolls.len(), 0);
}

#[test]
fn new_validates_slots() {
    assert!(matches!(
        ArtifactBuilder::new(None, None, piece(5, 20, Stat::CritRate), None, None),
        Err(ValidationError::InvalidMainStat)
    ));
    assert!(matches!(
        ArtifactBuilder::new(None, None, None, None, piece(5, 20, Stat::PyroDMGBonus)),
        Err(ValidationError::InvalidMainStat)
    ));
    assert!(matches!(
        ArtifactBuilder::new(piece(5, 21, Stat::FlatHP), None, None, None, None),
        Err(ValidationError::InvalidRarityLevel)
    ));
    assert!(matches!(
        ArtifactBuilder::new(piece(6, 0, Stat::FlatHP), None, None, None, None),
        Err(ValidationError::InvalidRarityLevel)
    ));
    assert!(matches!(
        ArtifactBuilder::new(None, piece(4, -1, Stat::FlatATK), None, None, None),
        Err(ValidationError::InvalidRarityLevel)
    ));
    let er_goblet = ArtifactBuilder::new(None, None, None, piece(5, 20, Stat::EnergyRecharge), None).unwrap();
    assert_eq!(er_goblet.substat_constraint(&Stat::CritRate, 5), 6);
    assert_eq!(er_goblet.substat_constraint(&Stat::EnergyRecharge, 5), 0);
    let empty = ArtifactBuilder::new(None, None, None, None, None).unwrap();
    assert_eq!(empty.max_rolls(), 0);
    assert_eq!(empty.substat_constraint(&Stat::CritRate, 5), 0);
    assert_eq!(empty.main_pieces().len(), 0);
}

#[test]
fn constraint_is_zero_for_other_rarities_and_stats() {
    let bob = ArtifactBuilder::new(piece(5, 20, Stat::FlatHP), piece(4, 16, Stat::FlatATK), piece(3, 12, Stat::HPPercent), None, None).unwrap();
    assert_eq!(bob.substat_constraint(&Stat::CritRate, 5), 6);
    assert_eq!(bob.substat_constraint(&Stat::CritRate, 4), 5);
    assert_eq!(bob.substat_constraint(&Stat::CritRate, 3), 4);
    assert_eq!(bob.substat_constraint(&Stat::CritRate, 2), 0);
    assert_eq!(bob.substat_constraint(&Stat::PyroDMGBonus, 5), 0);
    assert_eq!(bob.max_rolls(), 9 + 7 + 5);
    let pieces = bob.main_pieces();
    assert_eq!(pieces.len(), 3);
    assert_eq!(pieces[2].stat_type, Stat::HPPercent);
}

#[test]
fn kqm_errors() {
    assert!(matches!(
        ArtifactBuilder::kqm(None, None, None, None, None),
        Err(ValidationError::NoPieces)
    ));
    assert!(matches!(
        ArtifactBuilder::kqm(piece(5, 16, Stat::FlatHP), None, None, None, None),
        Err(ValidationError::NotPresetGrade)
    ));
    assert!(matches!(
        ArtifactBuilder::kqm(None, piece(5, 20, Stat::FlatHP), None, None, None),
        Err(ValidationError::InvalidMainStat)
    ));
    // a lone sands piece grants its own main stat no budget
    assert!(matches!(
        ArtifactBuilder::kqm(None, None, piece(5, 20, Stat::ATKPercent), None, None),
        Err(ValidationError::RollExceedsConstraint)
    ));
}

#[test]
fn kqm_presets() {
    let five = ArtifactBuilder::kqm_all_5_star(Stat::ATKPercent, Stat::PyroDMGBonus, Stat::CritRate).unwrap();
    assert_eq!(five.max_rolls(), 40);
    assert_eq!(five.current_rolls(), 20);
    assert_eq!(five.current_rolls_for_given(&Stat::EnergyRecharge, RollQuality::AVG, 5), 2);

    let four = ArtifactBuilder::kqm_all_4_star(Stat::ATKPercent, Stat::ATKPercent, Stat::ATKPercent).unwrap();
    assert_eq!(four.max_rolls(), 30);
    assert_eq!(four.current_rolls(), 20);
    assert_eq!(four.current_rolls_for_given(&Stat::ATKPercent, RollQuality::AVG, 4), 2);
    assert_eq!(four.substat_constraint(&Stat::ATKPercent, 4), 4);

    let mixed = ArtifactBuilder::kqm_all_4_star_with_5_star(Stat::ATKPercent, Stat::PyroDMGBonus, Stat::CritRate, 1).unwrap();
    assert_eq!(mixed.max_rolls(), 32);
    assert_eq!(mixed.current_rolls(), 20);
    assert_eq!(mixed.current_rolls_for_given(&Stat::CritDMG, RollQuality::AVG, 4), 2);
    assert_eq!(mixed.current_rolls_for_given(&Stat::CritDMG, RollQuality::AVG, 5), 0);

    let sands_five = ArtifactBuilder::kqm_all_4_star_with_5_star(Stat::ATKPercent, Stat::PyroDMGBonus, Stat::CritRate, 0).unwrap();
    assert_eq!(sands_five.sands.unwrap().rarity, 5);
    assert_eq!(sands_five.goblet.unwrap().rarity, 4);
    assert_eq!(sands_five.current_rolls(), 20);
    assert_eq!(sands_five.current_rolls_for_given(&Stat::ATKPercent, RollQuality::AVG, 4), 2);
    assert_eq!(sands_five.max_rolls(), 32);

    let er_goblet = ArtifactBuilder::kqm_all_4_star(Stat::HPPercent, Stat::EnergyRecharge, Stat::CritRate).unwrap();
    assert_eq!(er_goblet.substat_constraint(&Stat::EnergyRecharge, 4), 8);

    assert!(matches!(
        ArtifactBuilder::kqm_all_5_star(Stat::CritRate, Stat::PyroDMGBonus, Stat::CritRate),
        Err(ValidationError::InvalidMainStat)
    ));
    assert!(matches!(
        ArtifactBuilder::kqm_all_4_star_with_5_star(Stat::ATKPercent, Stat::PyroDMGBonus, Stat::CritRate, 3),
        Err(ValidationError::InvalidId)
    ));
}
