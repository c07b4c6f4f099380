use bevymmo::lifecycle::{
    complete_join, ids_owned_by, join_plan, player_hue_degrees, starter_glyphs, starter_language,
    JoinCompletion, JoinOutcome, OwnedRow, STARTER_ITEM_ID,
};

#[test]
fn join_creates_a_character_under_the_name_key() {
    match join_plan("  Ada  ", false, false) {
        Ok(JoinOutcome::Create { key }) => assert_eq!(key, "ada"),
        other => panic!("unexpected {other:?}"),
    }
}

#[test]
fn join_brings_an_existing_character_back() {
    assert!(matches!(join_plan("Ada", true, true), Ok(JoinOutcome::Rejoin)));
}

#[test]
fn join_refuses_a_taken_name_and_a_bad_length() {
    assert_eq!(join_plan("Ada", false, true).unwrap_err(), "name \"Ada\" is taken");
    assert_eq!(
        join_plan("ab", true, false).unwrap_err(),
        "name must be 3-16 characters, got \"ab\""
    );
}

#[test]
fn new_characters_start_with_the_starter_kit() {
    assert_eq!(STARTER_ITEM_ID, "magic_staff");
    let g = starter_glyphs();
    assert_eq!(g.essences, vec!["fuoco", "gelo", "terra"]);
    assert_eq!(g.modifiers, vec!["espandere", "amplificare", "concentrare"]);
    assert!(g.ancient_words.is_empty());
    let l = starter_language();
    assert_eq!(l.root_words, vec!["damage"]);
    assert_eq!(l.ancient_words, vec!["amplia"]);
    assert_eq!(l.base_abilities, vec!["arcane_orb"]);
}

#[test]
fn leaving_collects_exactly_the_owned_rows() {
    let rows = [
        OwnedRow { id: 1, owner: 7 },
        OwnedRow { id: 2, owner: 8 },
        OwnedRow { id: 3, owner: 7 },
    ];
    assert_eq!(ids_owned_by(&rows, 7), vec![1, 3]);
    assert_eq!(ids_owned_by(&rows, 9), Vec::<u64>::new());
}

#[test]
fn finished_loads_are_spawned_only_for_waiting_links() {
    assert_eq!(complete_join(false, true, true, false), JoinCompletion::Ignore);
    assert_eq!(complete_join(true, false, true, false), JoinCompletion::Ignore);
    assert_eq!(complete_join(true, true, false, false), JoinCompletion::Disconnect);
    assert_eq!(complete_join(true, true, true, true), JoinCompletion::Disconnect);
    assert_eq!(complete_join(true, true, true, false), JoinCompletion::Spawn);
}

#[test]
fn peer_hues_spread_around_the_wheel() {
    assert_eq!(player_hue_degrees(0), 180);
    assert_eq!(player_hue_degrees(1), (137 + 180) % 360);
    assert_eq!(player_hue_degrees(2), (274 + 180) % 360);
    assert_eq!(
        player_hue_degrees(u64::MAX),
        u64::MAX.wrapping_mul(137).wrapping_add(180) % 360
    );
}

use bevymmo::lifecycle::{leave_plan, CharacterRows, Identity, IdentityRow, IdentityTable, EntityTable};

#[test]
fn leaving_deletes_every_row_of_the_character() {
    let me = Identity { high: 1, low: 2 };
    let other = Identity { high: 1, low: 3 };
    let rows = CharacterRows {
        cooldowns: vec![OwnedRow { id: 1, owner: 5 }, OwnedRow { id: 2, owner: 6 }],
        crowd_control: vec![OwnedRow { id: 3, owner: 5 }],
        active_statuses: vec![],
        stat_modifiers: vec![OwnedRow { id: 4, owner: 6 }],
        periodic_effects: vec![OwnedRow { id: 5, owner: 5 }, OwnedRow { id: 6, owner: 5 }],
        threats: vec![OwnedRow { id: 7, owner: 5 }],
        resonances: vec![IdentityRow { id: 8, identity: me }, IdentityRow { id: 9, identity: other }],
    };
    assert!(leave_plan(None, me, &rows).is_none());
    let plan = leave_plan(Some(5), me, &rows).unwrap();
    assert_eq!(plan.cooldown_ids, vec![1]);
    assert_eq!(plan.crowd_control_ids, vec![3]);
    assert!(plan.active_status_ids.is_empty());
    assert!(plan.stat_modifier_ids.is_empty());
    assert_eq!(plan.periodic_effect_ids, vec![5, 6]);
    assert_eq!(plan.threat_ids, vec![7]);
    assert_eq!(plan.resonance_ids, vec![8]);
    assert_eq!(plan.entity_id, 5);
    assert!(plan.identity_tables.contains(&IdentityTable::KnownAncientLanguage));
    assert_eq!(plan.identity_tables.len(), 7);
    assert!(plan.entity_tables.contains(&EntityTable::GameEntity));
    assert_eq!(plan.entity_tables.len(), 3);
}
