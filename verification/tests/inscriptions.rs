use bevymmo::inscriptions::{
    check_armor_inscription, check_armor_slot, check_root_inscription, ArmorAbility,
    RootWordFacts, SlotAbility, SlotWords, WordFacts, WordMetadata,
};
use bevymmo::items::EquipSlot;

fn word(id: &str, cost: u32) -> WordFacts {
    WordFacts {
        id: id.to_string(),
        known: true,
        metadata: Some(WordMetadata { compatible: true, exclusive_group: None, rune_cost: cost }),
    }
}

fn grouped(id: &str, group: &str) -> WordFacts {
    WordFacts {
        id: id.to_string(),
        known: true,
        metadata: Some(WordMetadata {
            compatible: true,
            exclusive_group: Some(group.to_string()),
            rune_cost: 1,
        }),
    }
}

fn slot(words: Vec<WordFacts>) -> SlotWords {
    SlotWords { ability: SlotAbility::Registered, words }
}

fn root(id: &str, cost: u32) -> Option<RootWordFacts> {
    Some(RootWordFacts { id: id.to_string(), known: true, rune_cost: Some(cost) })
}

#[test]
fn a_valid_weapon_inscription_is_returned_as_stored() {
    let r = check_root_inscription(
        &root("damage", 2),
        &slot(vec![word("amplia", 1), word("veloce", 1)]),
        &slot(vec![]),
        &slot(vec![word("vasta", 3)]),
        7,
    )
    .unwrap();
    assert_eq!(r.root_word.as_deref(), Some("damage"));
    assert_eq!(r.primary, vec!["amplia".to_string(), "veloce".to_string()]);
    assert!(r.secondary.is_empty());
    assert_eq!(r.ultimate, vec!["vasta".to_string()]);
}

#[test]
fn the_capacity_bounds_the_whole_inscription() {
    let err = check_root_inscription(
        &root("damage", 2),
        &slot(vec![word("amplia", 3)]),
        &slot(vec![word("veloce", 3)]),
        &slot(vec![]),
        7,
    )
    .unwrap_err();
    assert_eq!(err, "rune capacity exceeded: 8 / 7");
}

#[test]
fn root_word_refusals() {
    let unknown = Some(RootWordFacts { id: "fire".to_string(), known: false, rune_cost: Some(1) });
    assert_eq!(
        check_root_inscription(&unknown, &slot(vec![]), &slot(vec![]), &slot(vec![]), 10).unwrap_err(),
        "Root Word \"fire\" is not known"
    );
    let missing = Some(RootWordFacts { id: "fire".to_string(), known: true, rune_cost: None });
    assert_eq!(
        check_root_inscription(&missing, &slot(vec![]), &slot(vec![]), &slot(vec![]), 10).unwrap_err(),
        "unknown Root Word \"fire\""
    );
}

#[test]
fn each_slot_has_its_word_limit() {
    let err = check_root_inscription(
        &None,
        &slot(vec![]),
        &slot(vec![]),
        &slot(vec![word("a", 0), word("b", 0)]),
        10,
    )
    .unwrap_err();
    assert_eq!(err, "Ultimate accepts at most 1 Ancient Words");
    let err = check_root_inscription(
        &None,
        &slot(vec![word("a", 0), word("b", 0), word("c", 0)]),
        &slot(vec![]),
        &slot(vec![]),
        10,
    )
    .unwrap_err();
    assert_eq!(err, "Primary accepts at most 2 Ancient Words");
}

#[test]
fn a_slot_needs_a_registered_gesture() {
    let none = SlotWords { ability: SlotAbility::NotOffered, words: vec![] };
    assert_eq!(
        check_root_inscription(&None, &slot(vec![]), &none, &slot(vec![]), 10).unwrap_err(),
        "no ability offered for Secondary"
    );
    let ghost = SlotWords {
        ability: SlotAbility::Unregistered { ability_id: "orb".to_string() },
        words: vec![],
    };
    assert_eq!(
        check_root_inscription(&None, &ghost, &slot(vec![]), &slot(vec![]), 10).unwrap_err(),
        "unknown ability \"orb\""
    );
}

#[test]
fn word_refusals_come_in_order() {
    let check = |words: Vec<WordFacts>| {
        check_root_inscription(&None, &slot(words), &slot(vec![]), &slot(vec![]), 10).unwrap_err()
    };
    assert_eq!(check(vec![word("a", 0), word("a", 0)]), "duplicate Ancient Word \"a\"");
    let mut unknown = word("b", 0);
    unknown.known = false;
    assert_eq!(check(vec![unknown]), "Ancient Word \"b\" is not known");
    let mut missing = word("c", 0);
    missing.metadata = None;
    assert_eq!(check(vec![missing]), "unknown Ancient Word \"c\"");
    let mut clash = word("d", 0);
    clash.metadata.as_mut().unwrap().compatible = false;
    assert_eq!(check(vec![clash]), "Ancient Word \"d\" is incompatible with Primary");
    assert_eq!(
        check(vec![grouped("e", "Element"), grouped("f", "Element")]),
        "Ancient Word conflict in group Element"
    );
}

#[test]
fn different_groups_do_not_conflict() {
    let r = check_root_inscription(
        &None,
        &slot(vec![grouped("e", "Element"), grouped("f", "Shape")]),
        &slot(vec![]),
        &slot(vec![]),
        10,
    );
    assert!(r.is_ok());
}

#[test]
fn armor_slots_are_helmet_armor_or_shoes() {
    assert_eq!(check_armor_slot("Helmet"), Ok(EquipSlot::Helmet));
    assert_eq!(check_armor_slot(" shoes "), Ok(EquipSlot::Shoes));
    assert_eq!(
        check_armor_slot("weapon"),
        Err("armor inscriptions are only valid for helmet, armor or shoes".to_string())
    );
    assert!(check_armor_slot("belt").unwrap_err().starts_with("unknown equipment slot"));
}

#[test]
fn armor_inscriptions_follow_their_own_rules() {
    let ok = check_armor_inscription(&root("ward", 1), &ArmorAbility::Registered, &vec![word("x", 1)], 2)
        .unwrap();
    assert_eq!(ok.root_word.as_deref(), Some("ward"));
    assert_eq!(ok.secondary_words, vec!["x".to_string()]);
    assert_eq!(
        check_armor_inscription(&None, &ArmorAbility::Registered, &vec![word("a", 0), word("b", 0), word("c", 0)], 9)
            .unwrap_err(),
        "armor accepts at most 2 Ancient Words"
    );
    assert_eq!(
        check_armor_inscription(&None, &ArmorAbility::NoPrimary, &vec![], 9).unwrap_err(),
        "armor has no primary ability"
    );
    assert_eq!(
        check_armor_inscription(
            &None,
            &ArmorAbility::Unregistered { ability_id: "aegis".to_string() },
            &vec![],
            9
        )
        .unwrap_err(),
        "unknown armor ability \"aegis\""
    );
    let mut clash = word("d", 0);
    clash.metadata.as_mut().unwrap().compatible = false;
    assert_eq!(
        check_armor_inscription(&None, &ArmorAbility::Registered, &vec![clash], 9).unwrap_err(),
        "Ancient Word \"d\" is incompatible with armor"
    );
    assert_eq!(
        check_armor_inscription(&root("ward", 2), &ArmorAbility::Registered, &vec![word("x", 1)], 2)
            .unwrap_err(),
        "rune capacity exceeded: 3 / 2"
    );
}

#[test]
fn armor_words_have_no_exclusive_groups() {
    let r = check_armor_inscription(
        &None,
        &ArmorAbility::Registered,
        &vec![grouped("e", "Element"), grouped("f", "Element")],
        9,
    );
    assert!(r.is_ok());
}

use bevymmo::inscriptions::{check_armor_item, check_weapon_item, InscribedItemFacts};

fn item_ok() -> InscribedItemFacts {
    InscribedItemFacts {
        item_id: Some("magic_staff".to_string()),
        item_known: true,
        has_abilities: true,
        has_rune_profile: true,
        language_initialized: true,
    }
}

#[test]
fn the_inscribed_item_is_checked_first() {
    assert_eq!(check_weapon_item(&item_ok()), Ok(()));
    let mut f = item_ok();
    f.item_id = None;
    assert_eq!(check_weapon_item(&f).unwrap_err(), "no weapon equipped");
    assert_eq!(check_armor_item("Helmet", &f).unwrap_err(), "equipment slot \"Helmet\" is empty");
    let mut f = item_ok();
    f.has_rune_profile = false;
    assert_eq!(check_weapon_item(&f).unwrap_err(), "\"magic_staff\" has no rune profile");
    let mut f = item_ok();
    f.has_abilities = false;
    assert_eq!(check_armor_item("helmet", &f).unwrap_err(), "\"magic_staff\" has no armor abilities");
    let mut f = item_ok();
    f.language_initialized = false;
    assert_eq!(
        check_weapon_item(&f).unwrap_err(),
        "ancient language has not been initialized for this character"
    );
    assert_eq!(check_armor_item("helmet", &f).unwrap_err(), "ancient language has not been initialized");
}
