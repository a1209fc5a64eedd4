use vstd::prelude::*;
use crate::error::ValidationError;
use crate::stat::{is_elemental_dmg_bonus_spec, Stat};

verus! {

/// One artifact: its rarity (stars), its level and its main stat.
#[derive(Debug, Clone, Copy, PartialEq, Eq, Structural)]
pub struct ArtifactPiece {
    pub rarity: i8,
    pub level: i8,
    pub stat_type: Stat,
}

/// The highest level that an artifact of the given rarity reaches.
pub open spec fn level_cap(rarity: int) -> int {
    if rarity == 1 || rarity == 2 {
        4
    } else if rarity == 3 {
        12
    } else if rarity == 4 {
        16
    } else if rarity == 5 {
        20
    } else {
        -1
    }
}

/// Whether a level is reachable at a rarity: the rarity is 1 to 5 and the
/// level between 0 and that rarity's cap.
pub open spec fn valid_level_for_rarity(level: int, rarity: int) -> bool {
    1 <= rarity <= 5 && 0 <= level <= level_cap(rarity)
}

impl ArtifactPiece {
    pub open spec fn valid(&self) -> bool {
        valid_level_for_rarity(self.level as int, self.rarity as int)
    }
}

/// The stats that artifacts can roll as substats, in their usual order.
pub open spec fn substat_list() -> Seq<Stat> {
    seq![
        Stat::HPPercent,
        Stat::FlatHP,
        Stat::ATKPercent,
        Stat::FlatATK,
        Stat::DEFPercent,
        Stat::FlatDEF,
        Stat::ElementalMastery,
        Stat::CritRate,
        Stat::CritDMG,
        Stat::EnergyRecharge,
    ]
}

/// The position of a substat in `substat_list`; 10 for any other stat.
pub open spec fn substat_index(s: Stat) -> int {
    match s {
        Stat::HPPercent => 0,
        Stat::FlatHP => 1,
        Stat::ATKPercent => 2,
        Stat::FlatATK => 3,
        Stat::DEFPercent => 4,
        Stat::FlatDEF => 5,
        Stat::ElementalMastery => 6,
        Stat::CritRate => 7,
        Stat::CritDMG => 8,
        Stat::EnergyRecharge => 9,
        _ => 10,
    }
}

/// `substat_list` holds each substat once, and nothing else.
pub proof fn lemma_substat_list()
    ensures
        substat_list().len() == 10,
        forall|j: int|
            0 <= j < 10 ==> #[trigger] substat_index(substat_list()[j]) == j && is_substat(
                substat_list()[j],
            ),
        forall|s: Stat|
            #[trigger] is_substat(s) ==> 0 <= substat_index(s) < 10 && substat_list()[substat_index(
                s,
            )] == s,
{
    let l = substat_list();
    assert forall|j: int| 0 <= j < 10 implies #[trigger] substat_index(l[j]) == j && is_substat(
        l[j],
    ) by {
        if j == 0 {
        } else if j == 1 {
        } else if j == 2 {
        } else if j == 3 {
        } else if j == 4 {
        } else if j == 5 {
        } else if j == 6 {
        } else if j == 7 {
        } else if j == 8 {
        } else {
        }
    }
}

pub open spec fn is_substat(s: Stat) -> bool {
    match s {
        Stat::HPPercent | Stat::FlatHP | Stat::ATKPercent | Stat::FlatATK | Stat::DEFPercent
        | Stat::FlatDEF | Stat::ElementalMastery | Stat::CritRate | Stat::CritDMG
        | Stat::EnergyRecharge => true,
        _ => false,
    }
}

pub open spec fn is_sands_stat(s: Stat) -> bool {
    match s {
        Stat::HPPercent | Stat::ATKPercent | Stat::DEFPercent | Stat::ElementalMastery
        | Stat::EnergyRecharge => true,
        _ => false,
    }
}

pub open spec fn is_goblet_stat(s: Stat) -> bool {
    match s {
        Stat::HPPercent | Stat::ATKPercent | Stat::DEFPercent | Stat::ElementalMastery
        | Stat::EnergyRecharge | Stat::PyroDMGBonus | Stat::CryoDMGBonus | Stat::GeoDMGBonus | Stat::DendroDMGBonus
        | Stat::ElectroDMGBonus | Stat::HydroDMGBonus | Stat::AnemoDMGBonus
        | Stat::PhysicalDMGBonus => true,
        _ => false,
    }
}

pub open spec fn is_circlet_stat(s: Stat) -> bool {
    match s {
        Stat::HPPercent | Stat::ATKPercent | Stat::DEFPercent | Stat::ElementalMastery
        | Stat::CritRate | Stat::CritDMG | Stat::HealingBonus => true,
        _ => false,
    }
}

/// The rolls that a piece holds at most: its starting substats plus one per
/// four levels.
pub open spec fn max_rolls_spec(p: ArtifactPiece) -> int {
    (p.rarity - 1) + p.level / 4
}

/// The rolls of one substat that a piece holds at most: none where the
/// substat is the piece's main stat.
pub open spec fn max_rolls_given_spec(p: ArtifactPiece, s: Stat, worse_case: bool) -> int {
    if p.stat_type == s {
        0
    } else if worse_case {
        p.level / 4
    } else {
        p.level / 4 + 1
    }
}

/// The stats that artifacts can roll as substats.
pub fn possible_sub_stats() -> (r: Vec<Stat>)
    ensures
        r@ == substat_list(),
{
    let r = vec![
        Stat::HPPercent,
        Stat::FlatHP,
        Stat::ATKPercent,
        Stat::FlatATK,
        Stat::DEFPercent,
        Stat::FlatDEF,
        Stat::ElementalMastery,
        Stat::CritRate,
        Stat::CritDMG,
        Stat::EnergyRecharge,
    ];
    assert(r@ == substat_list());
    r
}

/// Whether artifacts can roll the stat as a substat.
pub fn is_valid_substat_type(stat_type: &Stat) -> (r: bool)
    ensures
        r == is_substat(*stat_type),
        r == substat_list().contains(*stat_type),
{
    proof {
        if is_substat(*stat_type) {
            let i: int = match *stat_type {
                Stat::HPPercent => 0,
                Stat::FlatHP => 1,
                Stat::ATKPercent => 2,
                Stat::FlatATK => 3,
                Stat::DEFPercent => 4,
                Stat::FlatDEF => 5,
                Stat::ElementalMastery => 6,
                Stat::CritRate => 7,
                Stat::CritDMG => 8,
                _ => 9,
            };
            assert(substat_list()[i] == *stat_type);
        }
    }
    match stat_type {
        Stat::HPPercent | Stat::FlatHP | Stat::ATKPercent | Stat::FlatATK | Stat::DEFPercent
        | Stat::FlatDEF | Stat::ElementalMastery | Stat::CritRate | Stat::CritDMG
        | Stat::EnergyRecharge => true,
        _ => false,
    }
}

/// Whether a sands piece can have the stat as its main stat.
pub fn is_valid_sands_stat(s: &Stat) -> (r: bool)
    ensures
        r == is_sands_stat(*s),
{
    match s {
        Stat::HPPercent | Stat::ATKPercent | Stat::DEFPercent | Stat::ElementalMastery
        | Stat::EnergyRecharge => true,
        _ => false,
    }
}

/// Whether a goblet piece can have the stat as its main stat.
pub fn is_valid_goblet_stat(s: &Stat) -> (r: bool)
    ensures
        r == is_goblet_stat(*s),
{
    match s {
        Stat::HPPercent | Stat::ATKPercent | Stat::DEFPercent | Stat::ElementalMastery
        | Stat::EnergyRecharge | Stat::PyroDMGBonus | Stat::CryoDMGBonus | Stat::GeoDMGBonus | Stat::DendroDMGBonus
        | Stat::ElectroDMGBonus | Stat::HydroDMGBonus | Stat::AnemoDMGBonus
        | Stat::PhysicalDMGBonus => true,
        _ => false,
    }
}

/// Whether a circlet piece can have the stat as its main stat.
pub fn is_valid_circlet_stat(s: &Stat) -> (r: bool)
    ensures
        r == is_circlet_stat(*s),
{
    match s {
        Stat::HPPercent | Stat::ATKPercent | Stat::DEFPercent | Stat::ElementalMastery
        | Stat::CritRate | Stat::CritDMG | Stat::HealingBonus => true,
        _ => false,
    }
}

/// Whether `level` is reachable at `rarity`.
pub fn check_level_for_rarity(level: i8, rarity: i8) -> (r: bool)
    ensures
        r == valid_level_for_rarity(level as int, rarity as int),
{
    if level < 0 {
        return false;
    }
    match rarity {
        1 => level <= 4,
        2 => level <= 4,
        3 => level <= 12,
        4 => level <= 16,
        5 => level <= 20,
        _ => false,
    }
}

/// The rolls that a piece holds at most. The piece is taken to start with
/// its full set of substats, so `worse_case` changes nothing here.
pub fn max_rolls_for(artifact: &ArtifactPiece, worse_case: bool) -> (r: i8)
    requires
        artifact.valid(),
    ensures
        r as int == max_rolls_spec(*artifact),
        0 <= r <= 9,
{
    let base_substats = artifact.rarity - 1;
    let upgrades = artifact.level / 4;
    base_substats + upgrades
}

/// The rolls of one substat that a piece holds at most; with `worse_case`,
/// the substat is taken to be missing from the piece's starting set.
pub fn max_rolls_for_given(artifact: &ArtifactPiece, substat_type: &Stat, worse_case: bool) -> (r: i8)
    requires
        artifact.valid(),
    ensures
        r as int == max_rolls_given_spec(*artifact, *substat_type, worse_case),
        0 <= r <= 6,
{
    if artifact.stat_type == *substat_type {
        return 0;
    }
    let upgrades = artifact.level / 4;
    if worse_case {
        upgrades
    } else {
        upgrades + 1
    }
}

/// The rolls that a piece holds at most, less one where the substat is the
/// piece's main stat.
pub fn max_rolls_for_given_stat(artifact: &ArtifactPiece, substat_type: &Stat, worse_case: bool) -> (r: i8)
    requires
        artifact.valid(),
    ensures
        r as int == max_rolls_spec(*artifact) - (if *substat_type == artifact.stat_type {
            1int
        } else {
            0int
        }),
{
    let m = max_rolls_for(artifact, worse_case);
    if *substat_type == artifact.stat_type {
        m - 1
    } else {
        m
    }
}


/// The columns of the main stat value table: one per stat that a main stat
/// can be, the seven elemental bonuses sharing one.
#[derive(Debug, Clone, Copy, PartialEq, Eq, Hash, Structural)]
pub enum MainStatColumn {
    FlatHP,
    FlatATK,
    HPPercent,
    ATKPercent,
    DEFPercent,
    PhysicalDMGBonus,
    ElementalDMGPercent,
    ElementalMastery,
    EnergyRecharge,
    CritRate,
    CritDMG,
    HealingBonus,
}

pub open spec fn main_stat_column_spec(s: Stat) -> Option<MainStatColumn> {
    match s {
        Stat::FlatHP => Some(MainStatColumn::FlatHP),
        Stat::FlatATK => Some(MainStatColumn::FlatATK),
        Stat::HPPercent => Some(MainStatColumn::HPPercent),
        Stat::ATKPercent => Some(MainStatColumn::ATKPercent),
        Stat::DEFPercent => Some(MainStatColumn::DEFPercent),
        Stat::PhysicalDMGBonus => Some(MainStatColumn::PhysicalDMGBonus),
        Stat::ElementalMastery => Some(MainStatColumn::ElementalMastery),
        Stat::EnergyRecharge => Some(MainStatColumn::EnergyRecharge),
        Stat::CritRate => Some(MainStatColumn::CritRate),
        Stat::CritDMG => Some(MainStatColumn::CritDMG),
        Stat::HealingBonus => Some(MainStatColumn::HealingBonus),
        _ => if is_elemental_dmg_bonus_spec(s) {
            Some(MainStatColumn::ElementalDMGPercent)
        } else {
            None
        },
    }
}

/// Where the main stat value of a piece stands in the value table: the
/// column of its stat, the row being its level. Refused where the level is
/// not reachable at the rarity, or where no main stat value exists for the
/// stat.
pub fn main_stat_key(rarity: i8, level: i8, stat_type: &Stat) -> (r: Result<MainStatColumn, ValidationError>)
    ensures
        !valid_level_for_rarity(level as int, rarity as int) ==> r == Err::<
            MainStatColumn,
            ValidationError,
        >(ValidationError::InvalidRarityLevel),
        valid_level_for_rarity(level as int, rarity as int) ==> r == match main_stat_column_spec(
            *stat_type,
        ) {
            Some(c) => Ok::<MainStatColumn, ValidationError>(c),
            None => Err(ValidationError::InvalidMainStat),
        },
{
    if !check_level_for_rarity(level, rarity) {
        return Err(ValidationError::InvalidRarityLevel);
    }
    match stat_type {
        Stat::FlatHP => Ok(MainStatColumn::FlatHP),
        Stat::FlatATK => Ok(MainStatColumn::FlatATK),
        Stat::HPPercent => Ok(MainStatColumn::HPPercent),
        Stat::ATKPercent => Ok(MainStatColumn::ATKPercent),
        Stat::DEFPercent => Ok(MainStatColumn::DEFPercent),
        Stat::PhysicalDMGBonus => Ok(MainStatColumn::PhysicalDMGBonus),
        Stat::ElementalMastery => Ok(MainStatColumn::ElementalMastery),
        Stat::EnergyRecharge => Ok(MainStatColumn::EnergyRecharge),
        Stat::CritRate => Ok(MainStatColumn::CritRate),
        Stat::CritDMG => Ok(MainStatColumn::CritDMG),
        Stat::HealingBonus => Ok(MainStatColumn::HealingBonus),
        _ => if stat_type.is_elemental_dmg_bonus() {
            Ok(MainStatColumn::ElementalDMGPercent)
        } else {
            Err(ValidationError::InvalidMainStat)
        },
    }
}

/// Checks a lookup of the value of one substat roll: the rarity is 1 to 5
/// and the stat a substat.
pub fn check_sub_stat_key(rarity: i32, stat_type: &Stat) -> (r: Result<(), ValidationError>)
    ensures
        !(1 <= rarity <= 5) ==> r == Err::<(), ValidationError>(ValidationError::InvalidRarityLevel),
        1 <= rarity <= 5 && !is_substat(*stat_type) ==> r == Err::<(), ValidationError>(
            ValidationError::InvalidSubstat,
        ),
        1 <= rarity <= 5 && is_substat(*stat_type) ==> r is Ok,
{
    if rarity < 1 || rarity > 5 {
        return Err(ValidationError::InvalidRarityLevel);
    }
    if !is_valid_substat_type(stat_type) {
        return Err(ValidationError::InvalidSubstat);
    }
    Ok(())
}

} // verus!
