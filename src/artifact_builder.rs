use vstd::prelude::*;
use crate::artifact::{
    check_level_for_rarity, is_circlet_stat, is_goblet_stat, is_sands_stat, is_substat,
    is_valid_circlet_stat, is_valid_goblet_stat, is_valid_sands_stat, is_valid_substat_type,
    max_rolls_for, max_rolls_for_given, max_rolls_spec, ArtifactPiece, possible_sub_stats,
    substat_list, substat_index, lemma_substat_list,
};
use crate::error::ValidationError;
use crate::rolls::{RollCounts, RollKey, RollQuality};
use crate::stat::Stat;

verus! {

/// Whether each slot's piece has a main stat that the slot allows.
pub open spec fn mains_valid(
    flower: Option<ArtifactPiece>,
    feather: Option<ArtifactPiece>,
    sands: Option<ArtifactPiece>,
    goblet: Option<ArtifactPiece>,
    circlet: Option<ArtifactPiece>,
) -> bool {
    &&& (match flower { Some(p) => p.stat_type == Stat::FlatHP, None => true })
    &&& (match feather { Some(p) => p.stat_type == Stat::FlatATK, None => true })
    &&& (match sands { Some(p) => is_sands_stat(p.stat_type), None => true })
    &&& (match goblet { Some(p) => is_goblet_stat(p.stat_type), None => true })
    &&& (match circlet { Some(p) => is_circlet_stat(p.stat_type), None => true })
}

pub open spec fn piece_ok(slot: Option<ArtifactPiece>) -> bool {
    match slot {
        Some(p) => p.valid(),
        None => true,
    }
}

pub open spec fn pieces_ok(
    flower: Option<ArtifactPiece>,
    feather: Option<ArtifactPiece>,
    sands: Option<ArtifactPiece>,
    goblet: Option<ArtifactPiece>,
    circlet: Option<ArtifactPiece>,
) -> bool {
    piece_ok(flower) && piece_ok(feather) && piece_ok(sands) && piece_ok(goblet) && piece_ok(
        circlet,
    )
}

/// Why a set of slots is refused, if it is.
pub open spec fn slots_error(
    flower: Option<ArtifactPiece>,
    feather: Option<ArtifactPiece>,
    sands: Option<ArtifactPiece>,
    goblet: Option<ArtifactPiece>,
    circlet: Option<ArtifactPiece>,
) -> Option<ValidationError> {
    if !mains_valid(flower, feather, sands, goblet, circlet) {
        Some(ValidationError::InvalidMainStat)
    } else if !pieces_ok(flower, feather, sands, goblet, circlet) {
        Some(ValidationError::InvalidRarityLevel)
    } else {
        None
    }
}

/// What one slot adds to the roll budget of `stat` at `rarity`: nothing
/// where the slot is empty, of another rarity, or has `stat` as main stat;
/// else `fixed` where given, or one roll per four levels plus one.
pub open spec fn slot_budget(slot: Option<ArtifactPiece>, stat: Stat, rarity: i8, fixed: Option<i8>) -> int {
    match slot {
        Some(p) => if p.rarity == rarity && p.stat_type != stat {
            match fixed {
                Some(k) => k as int,
                None => p.level / 4 + 1,
            }
        } else {
            0
        },
        None => 0,
    }
}

/// The rolls of `stat` that the slots allow at `rarity`; none for a stat
/// that is no substat.
pub open spec fn constraint_of(
    flower: Option<ArtifactPiece>,
    feather: Option<ArtifactPiece>,
    sands: Option<ArtifactPiece>,
    goblet: Option<ArtifactPiece>,
    circlet: Option<ArtifactPiece>,
    fixed: Option<i8>,
    stat: Stat,
    rarity: i8,
) -> int {
    if is_substat(stat) {
        slot_budget(flower, stat, rarity, fixed) + slot_budget(feather, stat, rarity, fixed)
            + slot_budget(sands, stat, rarity, fixed) + slot_budget(goblet, stat, rarity, fixed)
            + slot_budget(circlet, stat, rarity, fixed)
    } else {
        0
    }
}

pub open spec fn slot_max(slot: Option<ArtifactPiece>) -> int {
    match slot {
        Some(p) => max_rolls_spec(p),
        None => 0,
    }
}

pub open spec fn slot_count(slot: Option<ArtifactPiece>) -> int {
    match slot {
        Some(p) => 1,
        None => 0,
    }
}

pub open spec fn slot_seq(slot: Option<ArtifactPiece>) -> Seq<ArtifactPiece> {
    match slot {
        Some(p) => seq![p],
        None => Seq::empty(),
    }
}

/// The count after `num` rolls of key `k`.
pub open spec fn rolled(m: Map<RollKey, int>, k: RollKey, num: int) -> Map<RollKey, int> {
    if num == 0 {
        m
    } else {
        m.insert(k, (if m.contains_key(k) { m[k] } else { 0 }) + num)
    }
}

/// The count after taking back `num` rolls of key `k`, clamped at zero.
pub open spec fn unrolled(m: Map<RollKey, int>, k: RollKey, num: int) -> Map<RollKey, int> {
    if !m.contains_key(k) {
        m
    } else if m[k] > num {
        m.insert(k, m[k] - num)
    } else {
        m.remove(k)
    }
}

/// Assembles five artifact slots and a multiset of substat rolls, and keeps
/// the rolls of each stat within what the slots allow.
pub struct ArtifactBuilder {
    pub flower: Option<ArtifactPiece>,
    pub feather: Option<ArtifactPiece>,
    pub sands: Option<ArtifactPiece>,
    pub goblet: Option<ArtifactPiece>,
    pub circlet: Option<ArtifactPiece>,
    /// Roll counts by stat, quality and rarity.
    pub rolls: RollCounts,
    /// Where set, the roll budget that each slot grants a stat other than
    /// its main stat; else it follows the slot's level.
    pub fixed_budget: Option<i8>,
    /// Where set, the total number of rolls allowed; else the sum of what
    /// each piece can hold.
    pub roll_limit: Option<i8>,
}

impl ArtifactBuilder {
    pub open spec fn wf(&self) -> bool {
        &&& mains_valid(self.flower, self.feather, self.sands, self.goblet, self.circlet)
        &&& pieces_ok(self.flower, self.feather, self.sands, self.goblet, self.circlet)
        &&& self.rolls.wf()
        &&& (match self.fixed_budget { Some(k) => 0 <= k <= 6, None => true })
        &&& (match self.roll_limit { Some(l) => 0 <= l <= 45, None => true })
    }

    /// The rolls of `stat` allowed at `rarity`.
    pub open spec fn constraint(&self, stat: Stat, rarity: i8) -> int {
        constraint_of(
            self.flower,
            self.feather,
            self.sands,
            self.goblet,
            self.circlet,
            self.fixed_budget,
            stat,
            rarity,
        )
    }

    /// The rolls made of `stat` at `rarity`, over all qualities.
    pub open spec fn made(&self, stat: Stat, rarity: i8) -> int {
        self.rolls.count((stat, RollQuality::MAX, rarity)) + self.rolls.count(
            (stat, RollQuality::HIGH, rarity),
        ) + self.rolls.count((stat, RollQuality::MID, rarity)) + self.rolls.count(
            (stat, RollQuality::LOW, rarity),
        ) + self.rolls.count((stat, RollQuality::AVG, rarity))
    }

    /// The rolls made of every stat at every rarity are within that stat's
    /// budget at that rarity.
    pub open spec fn within_budget(&self) -> bool {
        forall|stat: Stat, rarity: i8| #[trigger]
            self.made(stat, rarity) <= self.constraint(stat, rarity)
    }

    pub open spec fn max_rolls_spec(&self) -> int {
        match self.roll_limit {
            Some(l) => l as int,
            None => slot_max(self.flower) + slot_max(self.feather) + slot_max(self.sands)
                + slot_max(self.goblet) + slot_max(self.circlet),
        }
    }

    /// The pieces present, in slot order.
    pub open spec fn pieces(&self) -> Seq<ArtifactPiece> {
        slot_seq(self.flower) + slot_seq(self.feather) + slot_seq(self.sands) + slot_seq(
            self.goblet,
        ) + slot_seq(self.circlet)
    }

    /// The slots and budget rules are those of `other`.
    pub open spec fn same_setup(&self, other: &ArtifactBuilder) -> bool {
        &&& self.flower == other.flower
        &&& self.feather == other.feather
        &&& self.sands == other.sands
        &&& self.goblet == other.goblet
        &&& self.circlet == other.circlet
        &&& self.fixed_budget == other.fixed_budget
        &&& self.roll_limit == other.roll_limit
    }

    /// Why `roll(stat, _, rarity, num)` is refused, if it is.
    pub open spec fn roll_error(&self, stat: Stat, rarity: i8, num: i8) -> Option<ValidationError> {
        if !is_substat(stat) {
            Some(ValidationError::InvalidSubstat)
        } else if num < 0 {
            Some(ValidationError::NegativeRollCount)
        } else if self.made(stat, rarity) + num > self.constraint(stat, rarity) {
            Some(ValidationError::RollExceedsConstraint)
        } else if self.rolls.total_spec() + num > 127 {
            Some(ValidationError::RollCountOverflow)
        } else {
            None
        }
    }

    /// Why `unroll(stat, _, _, num)` is refused, if it is.
    pub open spec fn unroll_error(stat: Stat, num: i8) -> Option<ValidationError> {
        if !is_substat(stat) {
            Some(ValidationError::InvalidSubstat)
        } else if num < 0 {
            Some(ValidationError::NegativeRollCount)
        } else {
            None
        }
    }
}

fn main_stat_ok(slot: &Option<ArtifactPiece>, which: u8) -> (r: bool)
    requires
        which < 5,
    ensures
        r == (match *slot {
            Some(p) => if which == 0 {
                p.stat_type == Stat::FlatHP
            } else if which == 1 {
                p.stat_type == Stat::FlatATK
            } else if which == 2 {
                is_sands_stat(p.stat_type)
            } else if which == 3 {
                is_goblet_stat(p.stat_type)
            } else {
                is_circlet_stat(p.stat_type)
            },
            None => true,
        }),
{
    match slot {
        Some(p) => if which == 0 {
            p.stat_type == Stat::FlatHP
        } else if which == 1 {
            p.stat_type == Stat::FlatATK
        } else if which == 2 {
            is_valid_sands_stat(&p.stat_type)
        } else if which == 3 {
            is_valid_goblet_stat(&p.stat_type)
        } else {
            is_valid_circlet_stat(&p.stat_type)
        },
        None => true,
    }
}

fn piece_ok_exec(slot: &Option<ArtifactPiece>) -> (r: bool)
    ensures
        r == piece_ok(*slot),
{
    match slot {
        Some(p) => check_level_for_rarity(p.level, p.rarity),
        None => true,
    }
}

/// Checks the slots: a main stat that its slot allows, then a level that
/// the rarity reaches.
pub fn check_slots(
    flower: &Option<ArtifactPiece>,
    feather: &Option<ArtifactPiece>,
    sands: &Option<ArtifactPiece>,
    goblet: &Option<ArtifactPiece>,
    circlet: &Option<ArtifactPiece>,
) -> (r: Option<ValidationError>)
    ensures
        r == slots_error(*flower, *feather, *sands, *goblet, *circlet),
{
    if !(main_stat_ok(flower, 0) && main_stat_ok(feather, 1) && main_stat_ok(sands, 2)
        && main_stat_ok(goblet, 3) && main_stat_ok(circlet, 4)) {
        return Some(ValidationError::InvalidMainStat);
    }
    if !(piece_ok_exec(flower) && piece_ok_exec(feather) && piece_ok_exec(sands) && piece_ok_exec(
        goblet,
    ) && piece_ok_exec(circlet)) {
        return Some(ValidationError::InvalidRarityLevel);
    }
    None
}

fn slot_budget_exec(slot: &Option<ArtifactPiece>, stat: &Stat, rarity: i8, fixed: Option<i8>) -> (r: i8)
    requires
        piece_ok(*slot),
        match fixed {
            Some(k) => 0 <= k <= 6,
            None => true,
        },
    ensures
        r as int == slot_budget(*slot, *stat, rarity, fixed),
        0 <= r <= 6,
{
    match slot {
        Some(p) => if p.rarity == rarity && p.stat_type != *stat {
            match fixed {
                Some(k) => k,
                None => max_rolls_for_given(p, stat, false),
            }
        } else {
            0
        },
        None => 0,
    }
}

fn slot_max_exec(slot: &Option<ArtifactPiece>) -> (r: i8)
    requires
        piece_ok(*slot),
    ensures
        r as int == slot_max(*slot),
        0 <= r <= 9,
{
    match slot {
        Some(p) => max_rolls_for(p, false),
        None => 0,
    }
}

impl ArtifactBuilder {
    /// A builder over the given slots, with no rolls, each stat's budget
    /// following the levels of the pieces.
    pub fn new(
        flower: Option<ArtifactPiece>,
        feather: Option<ArtifactPiece>,
        sands: Option<ArtifactPiece>,
        goblet: Option<ArtifactPiece>,
        circlet: Option<ArtifactPiece>,
    ) -> (r: Result<ArtifactBuilder, ValidationError>)
        ensures
            match slots_error(flower, feather, sands, goblet, circlet) {
                Some(e) => r == Err::<ArtifactBuilder, ValidationError>(e),
                None => r is Ok,
            },
            r matches Ok(b) ==> {
                &&& b.wf()
                &&& b.flower == flower && b.feather == feather && b.sands == sands
                &&& b.goblet == goblet && b.circlet == circlet
                &&& b.fixed_budget is None
                &&& b.roll_limit is None
                &&& b.rolls@ == Map::<RollKey, int>::empty()
                &&& b.rolls.total_spec() == 0
                &&& b.within_budget()
            },
    {
        match check_slots(&flower, &feather, &sands, &goblet, &circlet) {
            Some(e) => Err(e),
            None => Ok(
                ArtifactBuilder {
                    flower,
                    feather,
                    sands,
                    goblet,
                    circlet,
                    rolls: RollCounts::new(),
                    fixed_budget: None,
                    roll_limit: None,
                },
            ),
        }
    }

    /// The rolls of `stat_type` allowed at `rarity`: the sum, over the
    /// pieces of that rarity whose main stat differs, of each piece's budget.
    pub fn substat_constraint(&self, stat_type: &Stat, rarity: i8) -> (r: i8)
        requires
            self.wf(),
        ensures
            r as int == self.constraint(*stat_type, rarity),
            0 <= r <= 30,
    {
        if !is_valid_substat_type(stat_type) {
            return 0;
        }
        let f = self.fixed_budget;
        slot_budget_exec(&self.flower, stat_type, rarity, f) + slot_budget_exec(
            &self.feather,
            stat_type,
            rarity,
            f,
        ) + slot_budget_exec(&self.sands, stat_type, rarity, f) + slot_budget_exec(
            &self.goblet,
            stat_type,
            rarity,
            f,
        ) + slot_budget_exec(&self.circlet, stat_type, rarity, f)
    }

    /// The total number of rolls allowed.
    pub fn max_rolls(&self) -> (r: i8)
        requires
            self.wf(),
        ensures
            r as int == self.max_rolls_spec(),
            0 <= r <= 45,
    {
        match self.roll_limit {
            Some(l) => l,
            None => slot_max_exec(&self.flower) + slot_max_exec(&self.feather) + slot_max_exec(
                &self.sands,
            ) + slot_max_exec(&self.goblet) + slot_max_exec(&self.circlet),
        }
    }

    /// The number of rolls made, over all stats, qualities and rarities.
    pub fn current_rolls(&self) -> (r: i8)
        requires
            self.wf(),
        ensures
            r as int == self.rolls.total_spec(),
            r >= 0,
    {
        proof {
            self.rolls.lemma_wf();
        }
        self.rolls.total()
    }

    /// The number of rolls made of a stat at a quality and rarity.
    pub fn current_rolls_for_given(&self, stat_type: &Stat, quality: RollQuality, rarity: i8) -> (r: i8)
        requires
            self.wf(),
        ensures
            r as int == self.rolls.count((*stat_type, quality, rarity)),
    {
        self.rolls.count_of(&(*stat_type, quality, rarity))
    }

    /// The rolls allowed that are not made yet (negative where more were
    /// made than allowed).
    pub fn rolls_left(&self) -> (r: i8)
        requires
            self.wf(),
        ensures
            r as int == self.max_rolls_spec() - self.rolls.total_spec(),
    {
        self.max_rolls() - self.current_rolls()
    }

    /// The pieces present, in slot order.
    pub fn main_pieces(&self) -> (r: Vec<ArtifactPiece>)
        ensures
            r@ == self.pieces(),
    {
        let mut r: Vec<ArtifactPiece> = Vec::new();
        if let Some(p) = self.flower {
            r.push(p);
        }
        if let Some(p) = self.feather {
            r.push(p);
        }
        if let Some(p) = self.sands {
            r.push(p);
        }
        if let Some(p) = self.goblet {
            r.push(p);
        }
        if let Some(p) = self.circlet {
            r.push(p);
        }
        assert(r@ =~= self.pieces());
        r
    }

    /// Adds `num` rolls of `substat_value` at `quality` and `rarity`.
    /// Refused where the stat is no substat, `num` is negative, the rolls of
    /// the stat at that rarity (all qualities) would pass its budget, or the
    /// rolls in all would pass 127.
    pub fn roll(&mut self, substat_value: Stat, quality: RollQuality, rarity: i8, num: i8) -> (r: Result<(), ValidationError>)
        requires
            old(self).wf(),
        ensures
            final(self).wf(),
            final(self).same_setup(old(self)),
            match old(self).roll_error(substat_value, rarity, num) {
                Some(e) => r == Err::<(), ValidationError>(e) && final(self).rolls@ == old(self).rolls@
                    && final(self).rolls.total_spec() == old(self).rolls.total_spec(),
                None => r is Ok && final(self).rolls@ == rolled(
                    old(self).rolls@,
                    (substat_value, quality, rarity),
                    num as int,
                ) && final(self).rolls.total_spec() == old(self).rolls.total_spec() + num,
            },
            old(self).within_budget() ==> final(self).within_budget(),
    {
        if !is_valid_substat_type(&substat_value) {
            return Err(ValidationError::InvalidSubstat);
        }
        if num < 0 {
            return Err(ValidationError::NegativeRollCount);
        }
        proof {
            self.rolls.lemma_wf();
        }
        let made: i32 = self.rolls.count_of(&(substat_value, RollQuality::MAX, rarity)) as i32
            + self.rolls.count_of(&(substat_value, RollQuality::HIGH, rarity)) as i32
            + self.rolls.count_of(&(substat_value, RollQuality::MID, rarity)) as i32
            + self.rolls.count_of(&(substat_value, RollQuality::LOW, rarity)) as i32
            + self.rolls.count_of(&(substat_value, RollQuality::AVG, rarity)) as i32;
        if made + num as i32 > self.substat_constraint(&substat_value, rarity) as i32 {
            return Err(ValidationError::RollExceedsConstraint);
        }
        if self.rolls.total() > 127 - num {
            return Err(ValidationError::RollCountOverflow);
        }
        let ghost before = *self;
        if num > 0 {
            self.rolls.add((substat_value, quality, rarity), num);
        }
        proof {
            let key = (substat_value, quality, rarity);
            assert forall|k: RollKey| #[trigger] self.rolls.count(k) == if k == key {
                before.rolls.count(k) + num
            } else {
                before.rolls.count(k)
            } by {}
            if before.within_budget() {
                lemma_roll_keeps_budget(before, *self, key, num as int);
            }
        }
        Ok(())
    }

    /// Takes back `num` rolls of `substat_value` at `quality` and `rarity`,
    /// clamped at zero; a key left with no rolls is dropped. Refused where
    /// the stat is no substat or `num` is negative.
    pub fn unroll(&mut self, substat_value: Stat, quality: RollQuality, rarity: i8, num: i8) -> (r: Result<(), ValidationError>)
        requires
            old(self).wf(),
        ensures
            final(self).wf(),
            final(self).same_setup(old(self)),
            match ArtifactBuilder::unroll_error(substat_value, num) {
                Some(e) => r == Err::<(), ValidationError>(e) && final(self).rolls@ == old(self).rolls@,
                None => r is Ok && final(self).rolls@ == unrolled(
                    old(self).rolls@,
                    (substat_value, quality, rarity),
                    num as int,
                ) && final(self).rolls.total_spec() == old(self).rolls.total_spec() - (old(
                    self,
                ).rolls.count((substat_value, quality, rarity)) - (if old(self).rolls.count(
                    (substat_value, quality, rarity),
                ) > num {
                    old(self).rolls.count((substat_value, quality, rarity)) - num
                } else {
                    0
                })),
            },
            old(self).within_budget() ==> final(self).within_budget(),
    {
        if !is_valid_substat_type(&substat_value) {
            return Err(ValidationError::InvalidSubstat);
        }
        if num < 0 {
            return Err(ValidationError::NegativeRollCount);
        }
        let ghost before = *self;
        proof {
            self.rolls.lemma_wf();
        }
        self.rolls.take((substat_value, quality, rarity), num);
        proof {
            assert forall|k: RollKey| #[trigger] self.rolls.count(k) <= before.rolls.count(k) by {}
            if before.within_budget() {
                assert forall|s2: Stat, r2: i8| #[trigger]
                    self.made(s2, r2) <= self.constraint(s2, r2) by {
                    assert(before.made(s2, r2) <= before.constraint(s2, r2));
                    assert(self.rolls.count((s2, RollQuality::MAX, r2)) <= before.rolls.count((s2, RollQuality::MAX, r2)));
                    assert(self.rolls.count((s2, RollQuality::HIGH, r2)) <= before.rolls.count((s2, RollQuality::HIGH, r2)));
                    assert(self.rolls.count((s2, RollQuality::MID, r2)) <= before.rolls.count((s2, RollQuality::MID, r2)));
                    assert(self.rolls.count((s2, RollQuality::LOW, r2)) <= before.rolls.count((s2, RollQuality::LOW, r2)));
                    assert(self.rolls.count((s2, RollQuality::AVG, r2)) <= before.rolls.count((s2, RollQuality::AVG, r2)));
                }
            }
        }
        Ok(())
    }
}


/// Whether a slot is empty or holds a 5 star piece at level 20 or a 4 star
/// piece at level 16.
pub open spec fn preset_grade(slot: Option<ArtifactPiece>) -> bool {
    match slot {
        Some(p) => (p.rarity == 5 && p.level == 20) || (p.rarity == 4 && p.level == 16),
        None => true,
    }
}

pub open spec fn rarity_max(slot: Option<ArtifactPiece>, acc: i8) -> i8 {
    match slot {
        Some(p) => if p.rarity > acc {
            p.rarity
        } else {
            acc
        },
        None => acc,
    }
}

/// The rarity at which the preset rolls its fixed substats: the highest
/// rarity among the pieces.
pub open spec fn roll_rarity(
    flower: Option<ArtifactPiece>,
    feather: Option<ArtifactPiece>,
    sands: Option<ArtifactPiece>,
    goblet: Option<ArtifactPiece>,
    circlet: Option<ArtifactPiece>,
) -> i8 {
    rarity_max(circlet, rarity_max(goblet, rarity_max(sands, rarity_max(feather, rarity_max(flower, 0)))))
}

/// The preset's total roll limit: what the pieces can hold, less one per
/// piece.
pub open spec fn preset_limit(
    flower: Option<ArtifactPiece>,
    feather: Option<ArtifactPiece>,
    sands: Option<ArtifactPiece>,
    goblet: Option<ArtifactPiece>,
    circlet: Option<ArtifactPiece>,
) -> int {
    slot_max(flower) + slot_max(feather) + slot_max(sands) + slot_max(goblet) + slot_max(circlet)
        - (slot_count(flower) + slot_count(feather) + slot_count(sands) + slot_count(goblet)
        + slot_count(circlet))
}

/// The preset's fixed rolls: two of average quality for every substat, at
/// the given rarity.
pub open spec fn preset_rolls(rarity: i8) -> Map<RollKey, int> {
    Map::new(
        |k: RollKey| is_substat(k.0) && k.1 == RollQuality::AVG && k.2 == rarity,
        |k: RollKey| 2int,
    )
}

pub open spec fn preset_rolls_upto(rarity: i8, i: int) -> Map<RollKey, int> {
    Map::new(
        |k: RollKey|
            k.1 == RollQuality::AVG && k.2 == rarity && exists|j: int|
                0 <= j < i && substat_list()[j] == k.0,
        |k: RollKey| 2int,
    )
}

/// Why the preset refuses a set of slots, if it does.
pub open spec fn kqm_error(
    flower: Option<ArtifactPiece>,
    feather: Option<ArtifactPiece>,
    sands: Option<ArtifactPiece>,
    goblet: Option<ArtifactPiece>,
    circlet: Option<ArtifactPiece>,
) -> Option<ValidationError> {
    if !mains_valid(flower, feather, sands, goblet, circlet) {
        Some(ValidationError::InvalidMainStat)
    } else if !(preset_grade(flower) && preset_grade(feather) && preset_grade(sands)
        && preset_grade(goblet) && preset_grade(circlet)) {
        Some(ValidationError::NotPresetGrade)
    } else if flower is None && feather is None && sands is None && goblet is None
        && circlet is None {
        Some(ValidationError::NoPieces)
    } else if exists|s: Stat|
        is_substat(s) && #[trigger] constraint_of(
            flower,
            feather,
            sands,
            goblet,
            circlet,
            Some(2i8),
            s,
            roll_rarity(flower, feather, sands, goblet, circlet),
        ) < 2 {
        Some(ValidationError::RollExceedsConstraint)
    } else {
        None
    }
}

fn preset_grade_exec(slot: &Option<ArtifactPiece>) -> (r: bool)
    ensures
        r == preset_grade(*slot),
{
    match slot {
        Some(p) => (p.rarity == 5 && p.level == 20) || (p.rarity == 4 && p.level == 16),
        None => true,
    }
}

fn rarity_max_exec(slot: &Option<ArtifactPiece>, acc: i8) -> (r: i8)
    ensures
        r == rarity_max(*slot, acc),
{
    match slot {
        Some(p) => if p.rarity > acc {
            p.rarity
        } else {
            acc
        },
        None => acc,
    }
}

impl ArtifactBuilder {
    /// A builder under the community preset: each piece grants every stat
    /// other than its main stat a budget of two rolls, the roll limit is what
    /// the pieces hold less one per piece, and every substat starts with two
    /// rolls of average quality at the highest rarity among the pieces.
    #[verifier::rlimit(40)]
    pub fn kqm(
        flower: Option<ArtifactPiece>,
        feather: Option<ArtifactPiece>,
        sands: Option<ArtifactPiece>,
        goblet: Option<ArtifactPiece>,
        circlet: Option<ArtifactPiece>,
    ) -> (r: Result<ArtifactBuilder, ValidationError>)
        ensures
            match kqm_error(flower, feather, sands, goblet, circlet) {
                Some(e) => r == Err::<ArtifactBuilder, ValidationError>(e),
                None => r is Ok,
            },
            r matches Ok(b) ==> {
                &&& b.wf()
                &&& b.flower == flower && b.feather == feather && b.sands == sands
                &&& b.goblet == goblet && b.circlet == circlet
                &&& b.fixed_budget == Some(2i8)
                &&& b.max_rolls_spec() == preset_limit(flower, feather, sands, goblet, circlet)
                &&& b.rolls@ == preset_rolls(roll_rarity(flower, feather, sands, goblet, circlet))
                &&& b.rolls.total_spec() == 20
                &&& b.within_budget()
            },
    {
        if !(main_stat_ok(&flower, 0) && main_stat_ok(&feather, 1) && main_stat_ok(&sands, 2)
            && main_stat_ok(&goblet, 3) && main_stat_ok(&circlet, 4)) {
            return Err(ValidationError::InvalidMainStat);
        }
        if !(preset_grade_exec(&flower) && preset_grade_exec(&feather) && preset_grade_exec(&sands)
            && preset_grade_exec(&goblet) && preset_grade_exec(&circlet)) {
            return Err(ValidationError::NotPresetGrade);
        }
        if flower.is_none() && feather.is_none() && sands.is_none() && goblet.is_none()
            && circlet.is_none() {
            return Err(ValidationError::NoPieces);
        }
        let rr = rarity_max_exec(
            &circlet,
            rarity_max_exec(
                &goblet,
                rarity_max_exec(&sands, rarity_max_exec(&feather, rarity_max_exec(&flower, 0))),
            ),
        );
        let base = slot_max_exec(&flower) + slot_max_exec(&feather) + slot_max_exec(&sands)
            + slot_max_exec(&goblet) + slot_max_exec(&circlet);
        let penalty: i8 = (if flower.is_some() { 1i8 } else { 0i8 }) + (if feather.is_some() {
            1i8
        } else {
            0i8
        }) + (if sands.is_some() { 1i8 } else { 0i8 }) + (if goblet.is_some() {
            1i8
        } else {
            0i8
        }) + (if circlet.is_some() { 1i8 } else { 0i8 });
        let limit = base - penalty;
        proof {
            assert(rr == roll_rarity(flower, feather, sands, goblet, circlet));
            assert(limit as int == preset_limit(flower, feather, sands, goblet, circlet));
        }
        let r = ArtifactBuilder::with_fixed_rolls(flower, feather, sands, goblet, circlet, rr, limit);
        proof {
            if r is Err {
                let s = choose|s: Stat| is_substat(s) && #[trigger] constraint_of(
                    flower,
                    feather,
                    sands,
                    goblet,
                    circlet,
                    Some(2i8),
                    s,
                    rr,
                ) < 2;
                assert(kqm_error(flower, feather, sands, goblet, circlet) == Some(
                    ValidationError::RollExceedsConstraint,
                ));
            }
        }
        r
    }
}


impl ArtifactBuilder {
    /// A builder over preset pieces with the given roll limit, each piece
    /// granting a budget of two rolls, and every substat given two rolls of
    /// average quality at rarity `rr`. Refused where some substat's budget
    /// at `rr` is under two.
    fn with_fixed_rolls(
        flower: Option<ArtifactPiece>,
        feather: Option<ArtifactPiece>,
        sands: Option<ArtifactPiece>,
        goblet: Option<ArtifactPiece>,
        circlet: Option<ArtifactPiece>,
        rr: i8,
        limit: i8,
    ) -> (r: Result<ArtifactBuilder, ValidationError>)
        requires
            mains_valid(flower, feather, sands, goblet, circlet),
            preset_grade(flower) && preset_grade(feather) && preset_grade(sands) && preset_grade(
                goblet,
            ) && preset_grade(circlet),
            0 <= limit <= 45,
        ensures
            r is Ok <==> forall|s: Stat|
                is_substat(s) ==> #[trigger] constraint_of(
                    flower,
                    feather,
                    sands,
                    goblet,
                    circlet,
                    Some(2i8),
                    s,
                    rr,
                ) >= 2,
            r is Err ==> r == Err::<ArtifactBuilder, ValidationError>(
                ValidationError::RollExceedsConstraint,
            ),
            r matches Ok(b) ==> {
                &&& b.wf()
                &&& b.flower == flower && b.feather == feather && b.sands == sands
                &&& b.goblet == goblet && b.circlet == circlet
                &&& b.fixed_budget == Some(2i8)
                &&& b.roll_limit == Some(limit)
                &&& b.rolls@ == preset_rolls(rr)
                &&& b.rolls.total_spec() == 20
                &&& b.within_budget()
            },
    {
        let mut bob = ArtifactBuilder {
            flower,
            feather,
            sands,
            goblet,
            circlet,
            rolls: RollCounts::new(),
            fixed_budget: Some(2),
            roll_limit: Some(limit),
        };
        let subs = possible_sub_stats();
        proof {
            lemma_substat_list();
            assert(bob.rolls@ =~= preset_rolls_upto(rr, 0));
        }
        let mut i: usize = 0;
        while i < subs.len()
            invariant
                subs@ == substat_list(),
                subs@.len() == 10,
                i <= 10,
                bob.wf(),
                bob.flower == flower && bob.feather == feather && bob.sands == sands,
                bob.goblet == goblet && bob.circlet == circlet,
                bob.fixed_budget == Some(2i8),
                bob.roll_limit == Some(limit),
                bob.rolls@ == preset_rolls_upto(rr, i as int),
                bob.rolls.total_spec() == 2 * i,
                forall|j: int| 0 <= j < i ==> bob.constraint(#[trigger] substat_list()[j], rr) >= 2,
            decreases 10 - i,
        {
            let stat = subs[i];
            let key: RollKey = (stat, RollQuality::AVG, rr);
            proof {
                lemma_substat_list();
                assert(!bob.rolls@.contains_key(key)) by {
                    if bob.rolls@.contains_key(key) {
                        let j = choose|j: int| 0 <= j < i && substat_list()[j] == stat;
                        assert(substat_index(substat_list()[j]) == j);
                    }
                }
            }
            proof {
                assert(is_substat(stat));
                assert(bob.made(stat, rr) == 0);
            }
            match bob.roll(stat, RollQuality::AVG, rr, 2) {
                Ok(()) => {},
                Err(e) => {
                    proof {
                        assert(constraint_of(flower, feather, sands, goblet, circlet, Some(2i8), stat, rr) < 2);
                    }
                    return Err(e);
                },
            }
            proof {
                assert(bob.rolls@ =~= preset_rolls_upto(rr, i + 1)) by {
                    assert forall|k: RollKey| #[trigger] preset_rolls_upto(rr, i + 1).contains_key(k)
                        implies bob.rolls@.contains_key(k) by {
                        let j = choose|j: int| 0 <= j < i + 1 && substat_list()[j] == k.0;
                        if j < i {
                            assert(preset_rolls_upto(rr, i as int).contains_key(k));
                        }
                    }
                    assert forall|k: RollKey| #[trigger] bob.rolls@.contains_key(k)
                        implies preset_rolls_upto(rr, i + 1).contains_key(k) by {
                        if k != key {
                            assert(preset_rolls_upto(rr, i as int).contains_key(k));
                            let j = choose|j: int| 0 <= j < i && substat_list()[j] == k.0;
                        }
                    }
                }
            }
            i = i + 1;
        }
        proof {
            lemma_substat_list();
            assert(bob.rolls@ =~= preset_rolls(rr)) by {
                assert forall|k: RollKey| #[trigger] preset_rolls(rr).contains_key(k)
                    implies bob.rolls@.contains_key(k) by {
                    assert(substat_list()[substat_index(k.0)] == k.0);
                }
            }
            assert forall|s: Stat| is_substat(s) implies #[trigger] constraint_of(
                flower,
                feather,
                sands,
                goblet,
                circlet,
                Some(2i8),
                s,
                rr,
            ) >= 2 by {
                assert(substat_list()[substat_index(s)] == s);
                assert(bob.constraint(substat_list()[substat_index(s)], rr) >= 2);
            }
            assert(bob.within_budget());
        }
        Ok(bob)
    }
}

/// A piece of the given rarity at the highest level of that rarity.
pub open spec fn top_piece(rarity: i8, stat: Stat) -> ArtifactPiece {
    ArtifactPiece { rarity, level: if rarity == 5 { 20 } else { 16 }, stat_type: stat }
}

impl ArtifactBuilder {
    /// The preset with five 5 star pieces at level 20 and the given main
    /// stats on sands, goblet and circlet.
    pub fn kqm_all_5_star(sands_main: Stat, goblet_main: Stat, circlet_main: Stat) -> (r: Result<
        ArtifactBuilder,
        ValidationError,
    >)
        ensures
            r is Err <==> !(is_sands_stat(sands_main) && is_goblet_stat(goblet_main)
                && is_circlet_stat(circlet_main)),
            r is Err ==> r == Err::<ArtifactBuilder, ValidationError>(
                ValidationError::InvalidMainStat,
            ),
            r matches Ok(b) ==> {
                &&& b.wf()
                &&& b.flower == Some(top_piece(5, Stat::FlatHP))
                &&& b.feather == Some(top_piece(5, Stat::FlatATK))
                &&& b.sands == Some(top_piece(5, sands_main))
                &&& b.goblet == Some(top_piece(5, goblet_main))
                &&& b.circlet == Some(top_piece(5, circlet_main))
                &&& b.fixed_budget == Some(2i8)
                &&& b.max_rolls_spec() == 40
                &&& b.rolls@ == preset_rolls(5)
                &&& b.rolls.total_spec() == 20
                &&& b.within_budget()
            },
    {
        let f = Some(ArtifactPiece { rarity: 5, level: 20, stat_type: Stat::FlatHP });
        let fe = Some(ArtifactPiece { rarity: 5, level: 20, stat_type: Stat::FlatATK });
        let sa = Some(ArtifactPiece { rarity: 5, level: 20, stat_type: sands_main });
        let go = Some(ArtifactPiece { rarity: 5, level: 20, stat_type: goblet_main });
        let ci = Some(ArtifactPiece { rarity: 5, level: 20, stat_type: circlet_main });
        proof {
            assert forall|s: Stat| is_substat(s) implies #[trigger] constraint_of(
                f,
                fe,
                sa,
                go,
                ci,
                Some(2i8),
                s,
                5,
            ) >= 2 by {}
        }
        ArtifactBuilder::kqm(f, fe, sa, go, ci)
    }

    /// The preset with five 4 star pieces at level 16 and the given main
    /// stats on sands, goblet and circlet; its fixed rolls are at 4 star.
    pub fn kqm_all_4_star(sands_main: Stat, goblet_main: Stat, circlet_main: Stat) -> (r: Result<
        ArtifactBuilder,
        ValidationError,
    >)
        ensures
            r is Err <==> !(is_sands_stat(sands_main) && is_goblet_stat(goblet_main)
                && is_circlet_stat(circlet_main)),
            r is Err ==> r == Err::<ArtifactBuilder, ValidationError>(
                ValidationError::InvalidMainStat,
            ),
            r matches Ok(b) ==> {
                &&& b.wf()
                &&& b.flower == Some(top_piece(4, Stat::FlatHP))
                &&& b.feather == Some(top_piece(4, Stat::FlatATK))
                &&& b.sands == Some(top_piece(4, sands_main))
                &&& b.goblet == Some(top_piece(4, goblet_main))
                &&& b.circlet == Some(top_piece(4, circlet_main))
                &&& b.fixed_budget == Some(2i8)
                &&& b.max_rolls_spec() == 30
                &&& b.rolls@ == preset_rolls(4)
                &&& b.rolls.total_spec() == 20
                &&& b.within_budget()
            },
    {
        let f = Some(ArtifactPiece { rarity: 4, level: 16, stat_type: Stat::FlatHP });
        let fe = Some(ArtifactPiece { rarity: 4, level: 16, stat_type: Stat::FlatATK });
        let sa = Some(ArtifactPiece { rarity: 4, level: 16, stat_type: sands_main });
        let go = Some(ArtifactPiece { rarity: 4, level: 16, stat_type: goblet_main });
        let ci = Some(ArtifactPiece { rarity: 4, level: 16, stat_type: circlet_main });
        proof {
            assert forall|s: Stat| is_substat(s) implies #[trigger] constraint_of(
                f,
                fe,
                sa,
                go,
                ci,
                Some(2i8),
                s,
                4,
            ) >= 2 by {}
        }
        ArtifactBuilder::kqm(f, fe, sa, go, ci)
    }

    /// The preset with 4 star pieces at level 16 but for one 5 star piece at
    /// level 20 (`five_star_index` 0 for sands, 1 for goblet, 2 for
    /// circlet). Its fixed rolls stand at 4 star, the rarity of most pieces.
    pub fn kqm_all_4_star_with_5_star(
        sands_main: Stat,
        goblet_main: Stat,
        circlet_main: Stat,
        five_star_index: usize,
    ) -> (r: Result<ArtifactBuilder, ValidationError>)
        ensures
            five_star_index >= 3 ==> r == Err::<ArtifactBuilder, ValidationError>(
                ValidationError::InvalidId,
            ),
            five_star_index < 3 ==> (r is Err <==> !(is_sands_stat(sands_main) && is_goblet_stat(
                goblet_main,
            ) && is_circlet_stat(circlet_main))),
            five_star_index < 3 && r is Err ==> r == Err::<ArtifactBuilder, ValidationError>(
                ValidationError::InvalidMainStat,
            ),
            r matches Ok(b) ==> {
                &&& b.wf()
                &&& b.flower == Some(top_piece(4, Stat::FlatHP))
                &&& b.feather == Some(top_piece(4, Stat::FlatATK))
                &&& b.sands == Some(top_piece(if five_star_index == 0 { 5 } else { 4 }, sands_main))
                &&& b.goblet == Some(top_piece(if five_star_index == 1 { 5 } else { 4 }, goblet_main))
                &&& b.circlet == Some(top_piece(if five_star_index == 2 { 5 } else { 4 }, circlet_main))
                &&& b.fixed_budget == Some(2i8)
                &&& b.max_rolls_spec() == 32
                &&& b.rolls@ == preset_rolls(4)
                &&& b.rolls.total_spec() == 20
                &&& b.within_budget()
            },
    {
        if five_star_index >= 3 {
            return Err(ValidationError::InvalidId);
        }
        if !(is_valid_sands_stat(&sands_main) && is_valid_goblet_stat(&goblet_main)
            && is_valid_circlet_stat(&circlet_main)) {
            return Err(ValidationError::InvalidMainStat);
        }
        let sr: i8 = if five_star_index == 0 { 5 } else { 4 };
        let gr: i8 = if five_star_index == 1 { 5 } else { 4 };
        let cr: i8 = if five_star_index == 2 { 5 } else { 4 };
        let f = Some(ArtifactPiece { rarity: 4, level: 16, stat_type: Stat::FlatHP });
        let fe = Some(ArtifactPiece { rarity: 4, level: 16, stat_type: Stat::FlatATK });
        let sa = Some(ArtifactPiece { rarity: sr, level: if sr == 5 { 20 } else { 16 }, stat_type: sands_main });
        let go = Some(ArtifactPiece { rarity: gr, level: if gr == 5 { 20 } else { 16 }, stat_type: goblet_main });
        let ci = Some(ArtifactPiece { rarity: cr, level: if cr == 5 { 20 } else { 16 }, stat_type: circlet_main });
        proof {
            assert forall|s: Stat| is_substat(s) implies #[trigger] constraint_of(
                f,
                fe,
                sa,
                go,
                ci,
                Some(2i8),
                s,
                4,
            ) >= 2 by {}
        }
        ArtifactBuilder::with_fixed_rolls(f, fe, sa, go, ci, 4, 32)
    }
}

/// Where `roll` accepts `num` rolls of a key (`roll_error` is `None`),
/// taking the same `num` rolls of that key back leaves every roll count as
/// it was.
pub proof fn lemma_roll_then_unroll(b: ArtifactBuilder, stat: Stat, quality: RollQuality, rarity: i8, num: i8)
    requires
        b.wf(),
        b.roll_error(stat, rarity, num) is None,
    ensures
        unrolled(rolled(b.rolls@, (stat, quality, rarity), num as int), (stat, quality, rarity), num as int)
            == b.rolls@,
{
    b.rolls.lemma_wf();
    let k = (stat, quality, rarity);
    let m = b.rolls@;
    if num == 0 {
        if m.contains_key(k) {
            assert(m.insert(k, m[k] - 0) =~= m);
        }
    } else if m.contains_key(k) {
        assert(rolled(m, k, num as int).insert(k, m[k]) =~= m);
    } else {
        assert(m.insert(k, num as int).remove(k) =~= m);
    }
}


proof fn lemma_roll_keeps_budget(before: ArtifactBuilder, after: ArtifactBuilder, key: RollKey, num: int)
    requires
        before.within_budget(),
        after.same_setup(&before),
        forall|k: RollKey| #[trigger] after.rolls.count(k) == if k == key {
            before.rolls.count(k) + num
        } else {
            before.rolls.count(k)
        },
        before.made(key.0, key.2) + num <= before.constraint(key.0, key.2),
    ensures
        after.within_budget(),
{
    assert forall|s2: Stat, r2: i8| #[trigger] after.made(s2, r2) <= after.constraint(s2, r2) by {
        assert(before.made(s2, r2) <= before.constraint(s2, r2));
        assert(after.constraint(s2, r2) == before.constraint(s2, r2));
        if s2 == key.0 && r2 == key.2 {
            assert(key == (s2, key.1, r2));
            assert(after.rolls.count((s2, RollQuality::MAX, r2)) == before.rolls.count((s2, RollQuality::MAX, r2)) + if key.1 == RollQuality::MAX { num } else { 0 });
            assert(after.rolls.count((s2, RollQuality::HIGH, r2)) == before.rolls.count((s2, RollQuality::HIGH, r2)) + if key.1 == RollQuality::HIGH { num } else { 0 });
            assert(after.rolls.count((s2, RollQuality::MID, r2)) == before.rolls.count((s2, RollQuality::MID, r2)) + if key.1 == RollQuality::MID { num } else { 0 });
            assert(after.rolls.count((s2, RollQuality::LOW, r2)) == before.rolls.count((s2, RollQuality::LOW, r2)) + if key.1 == RollQuality::LOW { num } else { 0 });
            assert(after.rolls.count((s2, RollQuality::AVG, r2)) == before.rolls.count((s2, RollQuality::AVG, r2)) + if key.1 == RollQuality::AVG { num } else { 0 });
            assert(after.made(s2, r2) == before.made(s2, r2) + num);
        } else {
            assert(after.made(s2, r2) == before.made(s2, r2));
        }
    }
}

/// While every roll count is within budget, the rolls made of any stat at
/// any quality and rarity are at most that stat's budget at that rarity.
pub proof fn lemma_count_within_budget(b: ArtifactBuilder, stat: Stat, quality: RollQuality, rarity: i8)
    requires
        b.wf(),
        b.within_budget(),
    ensures
        b.rolls.count((stat, quality, rarity)) <= b.constraint(stat, rarity),
{
    b.rolls.lemma_wf();
    assert(b.made(stat, rarity) <= b.constraint(stat, rarity));
    assert(b.rolls.count((stat, RollQuality::MAX, rarity)) >= 0);
    assert(b.rolls.count((stat, RollQuality::HIGH, rarity)) >= 0);
    assert(b.rolls.count((stat, RollQuality::MID, rarity)) >= 0);
    assert(b.rolls.count((stat, RollQuality::LOW, rarity)) >= 0);
    assert(b.rolls.count((stat, RollQuality::AVG, rarity)) >= 0);
}

} // verus!
