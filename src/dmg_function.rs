use vstd::prelude::*;
use crate::error::ValidationError;
use crate::stat::{
    amplifiable_spec, attack_bonus_spec, element_bonus_spec, element_res_reduction_spec,
    scaling_stats_spec, Amplifier, BaseScaling, DamageType, Element, Stat,
};

verus! {

/// Which stats one hit's damage reads.
#[derive(Debug, Clone, Copy, PartialEq, Eq, Structural)]
pub struct DamageStats {
    /// The base part of the scaling stat.
    pub scaling_base: Stat,
    /// The percent part of the scaling stat.
    pub scaling_percent: Stat,
    /// The flat part of the scaling stat.
    pub scaling_flat: Stat,
    /// The bonus of the hit's element, where it has one.
    pub element_bonus: Option<Stat>,
    /// The bonus of the hit's attack type, where it has one.
    pub attack_bonus: Option<Stat>,
    /// The resistance reduction against the hit's element, where it has one.
    pub resistance_reduction: Option<Stat>,
    /// Whether an amplifying reaction applies, reading elemental mastery and
    /// reaction bonus.
    pub amplified: bool,
}

/// Composes the damage formulas for one hit.
pub struct DMGFunction {}

impl DMGFunction {
    /// The stats that a hit of the given element, attack type, scaling and
    /// amplifier reads. An amplifying reaction is refused on an element
    /// other than pyro, hydro, cryo and anemo.
    pub fn damage_stats(element: Element, damage_type: DamageType, scaling: BaseScaling, amplifier: Amplifier) -> (r: Result<DamageStats, ValidationError>)
        ensures
            amplifier != Amplifier::NoAmplifier && !amplifiable_spec(element) ==> r == Err::<
                DamageStats,
                ValidationError,
            >(ValidationError::AmplifierElementMismatch),
            amplifier == Amplifier::NoAmplifier || amplifiable_spec(element) ==> r == Ok::<
                DamageStats,
                ValidationError,
            >(
                DamageStats {
                    scaling_base: scaling_stats_spec(scaling).0,
                    scaling_percent: scaling_stats_spec(scaling).1,
                    scaling_flat: scaling_stats_spec(scaling).2,
                    element_bonus: element_bonus_spec(element),
                    attack_bonus: attack_bonus_spec(damage_type),
                    resistance_reduction: element_res_reduction_spec(element),
                    amplified: amplifier != Amplifier::NoAmplifier,
                },
            ),
    {
        let amplified = match amplifier {
            Amplifier::NoAmplifier => false,
            _ => true,
        };
        if amplified && !element.is_amplifiable() {
            return Err(ValidationError::AmplifierElementMismatch);
        }
        let (scaling_base, scaling_percent, scaling_flat) = scaling.stats();
        Ok(
            DamageStats {
                scaling_base,
                scaling_percent,
                scaling_flat,
                element_bonus: element.dmg_bonus_stat(),
                attack_bonus: damage_type.dmg_bonus_stat(),
                resistance_reduction: element.res_reduction_stat(),
                amplified,
            },
        )
    }

    /// Checks the levels that the defence formula accepts: a character
    /// level from 1 to 90 and an enemy level of at least 1.
    pub fn check_levels(character_level: i8, enemy_level: i8) -> (r: Result<(), ValidationError>)
        ensures
            r is Ok <==> 1 <= character_level <= 90 && enemy_level >= 1,
            r is Err ==> r == Err::<(), ValidationError>(ValidationError::InvalidLevels),
    {
        if character_level >= 1 && character_level <= 90 && enemy_level >= 1 {
            Ok(())
        } else {
            Err(ValidationError::InvalidLevels)
        }
    }
}

} // verus!
