use bevymmo::hotbar::{
    assign_hotbar_spell, parse_hotbar_slot, prune_hotbar_to_available, AvailableSpellChoices,
    HotbarSlot, SpellHotbar,
};

fn choices() -> AvailableSpellChoices {
    AvailableSpellChoices {
        q: vec!["fireball".to_string()],
        w: vec!["frost".to_string(), "blink".to_string()],
        e: vec![],
    }
}

#[test]
fn hotbar_keys_parse_trimmed_and_case_insensitively() {
    assert_eq!(parse_hotbar_slot(" Q "), Ok(HotbarSlot::Q));
    assert_eq!(parse_hotbar_slot("w"), Ok(HotbarSlot::W));
    assert_eq!(parse_hotbar_slot("E"), Ok(HotbarSlot::E));
    assert_eq!(
        parse_hotbar_slot(" R "),
        Err("unknown hotbar slot \"r\"; expected q, w or e".to_string())
    );
}

#[test]
fn a_spell_is_bound_only_where_it_is_offered() {
    let mut bar = SpellHotbar::empty();
    assert_eq!(assign_hotbar_spell(&mut bar, "q", Some("fireball".to_string()), &choices()), Ok(()));
    assert_eq!(bar.q_spell.as_deref(), Some("fireball"));
    assert_eq!(
        assign_hotbar_spell(&mut bar, "e", Some("fireball".to_string()), &choices()),
        Err("\"fireball\" is not offered on \"e\" by your equipped items".to_string())
    );
    assert_eq!(bar.e_spell, None);
    assert!(bar.contains("fireball"));
    assert_eq!(assign_hotbar_spell(&mut bar, "Q", None, &choices()), Ok(()));
    assert_eq!(bar.q_spell, None);
    assert!(assign_hotbar_spell(&mut bar, "x", None, &choices()).is_err());
}

#[test]
fn pruning_drops_bindings_that_are_no_longer_offered() {
    let mut bar = SpellHotbar {
        q_spell: Some("fireball".to_string()),
        w_spell: Some("meteor".to_string()),
        e_spell: None,
    };
    assert!(prune_hotbar_to_available(&mut bar, &choices()));
    assert_eq!(bar.q_spell.as_deref(), Some("fireball"));
    assert_eq!(bar.w_spell, None);
    assert!(!prune_hotbar_to_available(&mut bar, &choices()));
}

#[test]
fn offered_spells_are_looked_up_per_key() {
    let c = choices();
    assert!(c.contains(HotbarSlot::W, "blink"));
    assert!(!c.contains(HotbarSlot::Q, "blink"));
    assert!(!c.contains(HotbarSlot::E, "frost"));
}

#[test]
fn the_bar_reports_each_key() {
    let mut bar = SpellHotbar::empty();
    bar.assign(HotbarSlot::E, Some("blink".to_string()));
    assert_eq!(bar.spell_for_slot(HotbarSlot::E).as_deref(), Some("blink"));
    assert_eq!(bar.spell_for_slot(HotbarSlot::Q), &None);
}
