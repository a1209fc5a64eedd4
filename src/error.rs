use vstd::prelude::*;

verus! {

/// An input that the library refuses.
#[derive(Debug, Clone, Copy, PartialEq, Eq, Structural)]
pub enum ValidationError {
    /// A numeric code or index that names nothing of the kind asked for.
    InvalidId,
    /// A slot given a main stat that the slot cannot have.
    InvalidMainStat,
    /// A piece whose rarity is not 1 to 5, or whose level is negative or
    /// above the cap of its rarity.
    InvalidRarityLevel,
    /// A piece that is neither 5 star at level 20 nor 4 star at level 16,
    /// where the preset asks for one of the two.
    NotPresetGrade,
    /// A preset given no piece at all.
    NoPieces,
    /// A stat that artifacts cannot roll as a substat.
    InvalidSubstat,
    /// A negative number of rolls.
    NegativeRollCount,
    /// More rolls at once than the stat's budget at that rarity.
    RollExceedsConstraint,
    /// More rolls in all than a roll counter holds.
    RollCountOverflow,
    /// An amplifying reaction on an element that cannot be amplified.
    AmplifierElementMismatch,
    /// A level outside the range that the defence formula accepts.
    InvalidLevels,
}

/// A name that matched no entry, or more than one.
#[derive(Debug, Clone, Copy, PartialEq, Eq, Structural)]
pub enum LookupError {
    NotFound,
    Ambiguous,
}

} // verus!
