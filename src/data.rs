use vstd::prelude::*;
use crate::factory::NamedJSON;

verus! {

/// The character table of the game data.
#[derive(Debug, Clone)]
pub struct CharacterList {
    pub data: Vec<CharacterJSON>,
}

/// The weapon table of the game data.
#[derive(Debug, Clone)]
pub struct WeaponList {
    pub data: Vec<WeaponJSON>,
}

/// One character of the game data.
#[derive(Debug, Clone)]
pub struct CharacterJSON {
    pub name: String,
    pub rarity: u8,
    pub element: String,
    pub weapon: String,
    pub ascension_stat: String,
    pub base_stats: Vec<CharacterBaseStatJSON>,
}

/// A character's base values at one level, as the data writes them.
#[derive(Debug, Clone)]
pub struct CharacterBaseStatJSON {
    pub lvl: String,
    pub base_hp: String,
    pub base_atk: String,
    pub base_def: String,
    pub stat_type: String,
    pub stat_value: String,
    pub phase: u8,
}

/// What one ascension of a character costs.
#[derive(Debug, Clone)]
pub struct CharacterAscensionCostJSON {
    pub phase: u8,
    pub materials: Vec<CharacterAscensionMaterialJSON>,
}

/// One material of an ascension cost.
#[derive(Debug, Clone)]
pub struct CharacterAscensionMaterialJSON {
    pub name: String,
    pub amount: String,
}

/// One weapon of the game data.
#[derive(Debug, Clone)]
pub struct WeaponJSON {
    pub name: String,
    pub rarity: u8,
    pub category: String,
    pub base_stats: Vec<WeaponBaseStatJSON>,
}

/// A weapon's base values at one level, as the data writes them.
#[derive(Debug, Clone)]
pub struct WeaponBaseStatJSON {
    pub level: String,
    pub base_atk: String,
    pub sub_stat_type: Option<String>,
    pub sub_stat_value: Option<String>,
    pub ascension_phase: Option<u8>,
}

/// A character as the remote service describes it.
#[derive(Debug, Clone)]
pub struct Chara {
    pub name: String,
    pub key: String,
    pub title: String,
    pub rarity: u8,
    pub element: String,
    pub vision: String,
    pub weapon: String,
    pub release_date: String,
    pub release_date_epoch: u64,
    pub constellation: String,
    pub birthday: String,
    pub affiliation: String,
    pub region: String,
    pub special_dish: String,
    pub alternate_title: String,
    pub description: String,
    pub ascension_stat: String,
    pub base_stats: Vec<BaseStats>,
}

/// A character's base values at one level, as the remote service writes
/// them.
#[derive(Debug, Clone)]
pub struct BaseStats {
    pub lvl: String,
    pub base_hp: String,
    pub base_atk: String,
    pub base_def: String,
    pub ascension_stat_type: String,
    pub ascension_stat_value: String,
    pub ascension_phase: u8,
}

impl NamedJSON for CharacterJSON {
    open spec fn name_view(&self) -> Seq<char> {
        self.name@
    }

    fn name(&self) -> (r: &str) {
        self.name.as_str()
    }
}

impl NamedJSON for WeaponJSON {
    open spec fn name_view(&self) -> Seq<char> {
        self.name@
    }

    fn name(&self) -> (r: &str) {
        self.name.as_str()
    }
}

} // verus!
