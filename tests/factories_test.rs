use aminus::data::CharacterJSON;
use aminus::error::LookupError;
use aminus::factory::{StatFactory, StatTableFactory};
use aminus::standardize::flatten_str;

fn character(name: &str) -> CharacterJSON {
    CharacterJSON {
        name: name.to_string(),
        rarity: 5,
        element: String::from("Cryo"),
        weapon: String::from("Sword"),
        ascension_stat: String::from("CritDMG"),
        base_stats: Vec::new(),
    }
}

#[test]
fn factories_fuzzy_match_test() {
    assert!(StatTableFactory::fuzzy_match("ayaka", "Kamisato Ayaka"));
}

#[test]
fn stat_factory_fuzzy_match_test() {
    assert!(StatFactory::fuzzy_match("ayaka", "Kamisato Ayaka"));
}

#[test]
fn fuzzy_match_reads_in_order() {
    assert!(StatFactory::fuzzy_match("KAMI-ayaka", "Kamisato Ayaka"));
    assert!(StatFactory::fuzzy_match("ktk", "Kamisato Ayaka"));
    assert!(!StatFactory::fuzzy_match("akayak", "Kamisato Ayaka"));
    assert!(!StatFactory::fuzzy_match("", "Kamisato Ayaka"));
    assert!(!StatFactory::fuzzy_match("!!", ""));
    assert!(!StatFactory::fuzzy_match("ayakaa", "Kamisato Ayaka"));
}

#[test]
fn flatten_str_normalises() {
    assert_eq!(flatten_str("Kamisato Ayaka!"), "kamisatoayaka");
    assert_eq!(flatten_str("Physical DMG%"), "physicaldmg");
    assert_eq!(flatten_str("A-1_b 2"), "a1b2");
    assert_eq!(flatten_str(""), "");
}

#[test]
fn check_correct_level_for_rarity_caps() {
    assert!(StatTableFactory::check_correct_level_for_rarity(20, 5));
    assert!(!StatTableFactory::check_correct_level_for_rarity(21, 5));
    assert!(StatFactory::check_correct_level_for_rarity(16, 4));
    assert!(!StatFactory::check_correct_level_for_rarity(17, 4));
    assert!(StatFactory::check_correct_level_for_rarity(12, 3));
    assert!(StatFactory::check_correct_level_for_rarity(4, 2));
    assert!(!StatFactory::check_correct_level_for_rarity(5, 1));
    assert!(StatFactory::check_correct_level_for_rarity(0, 1));
    assert!(!StatFactory::check_correct_level_for_rarity(0, 0));
    assert!(!StatFactory::check_correct_level_for_rarity(0, 6));
    assert!(!StatFactory::check_correct_level_for_rarity(-1, 5));
}

#[test]
fn find_match_exact_and_fuzzy() {
    let list = vec![character("Amber"), character("Kamisato Ayaka"), character("Kamisato Ayato")];
    let found = StatFactory::find_match(list.clone(), "ayaka").unwrap();
    assert_eq!(found.name, "Kamisato Ayaka");
    let found = StatTableFactory::find_match(list.clone(), "AMBER").unwrap();
    assert_eq!(found.name, "Amber");
    assert!(matches!(StatFactory::find_match(list.clone(), "kamisato"), Err(LookupError::Ambiguous)));
    assert!(matches!(StatFactory::find_match(list, "NonExistentCharacter"), Err(LookupError::NotFound)));
    assert!(matches!(StatFactory::find_match(Vec::<CharacterJSON>::new(), "amber"), Err(LookupError::NotFound)));
}

#[test]
fn find_match_prefers_exact() {
    let list = vec![character("Kamisato Ayaka"), character("Ayaka")];
    let found = StatFactory::find_match(list.clone(), "ayaka").unwrap();
    assert_eq!(found.name, "Ayaka");
    let found = StatTableFactory::find_match(list.clone(), "Kamisato-Ayaka").unwrap();
    assert_eq!(found.name, "Kamisato Ayaka");
    let twice = vec![character("Amber"), character("amber!")];
    assert!(matches!(StatFactory::find_match(twice, "AMBER"), Err(LookupError::Ambiguous)));
}
