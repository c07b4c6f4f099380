use bevymmo::casting::{
    cast_kind_row, check_cast_request, describe_block, key_press_action, modifier_row_kind,
    parse_ability_slot, parse_slot, release_action, seeded_affected, status_filter,
    status_selection, targeting_from_row, targeting_row, AbilitySlot, AoeTargeting,
    AoeTargetingRow, CastBlockedReason, CastConditions, CastKind, CastKindRow,
    EffectPayloadFilterRow, EffectPayloadSelectionRow, KeyPressAction, ModifierKind,
    ModifierKindRow, ReleaseAction, StatusFilter, StatusSelection,
};
use bevymmo::hotbar::SpellHotbar;

fn ok_conditions() -> CastConditions {
    CastConditions {
        caster_dead: false,
        spell_known: true,
        on_cooldown: false,
        casting_blocked: false,
    }
}

fn bar_with(spell: &str) -> SpellHotbar {
    SpellHotbar {
        q_spell: None,
        w_spell: Some(spell.to_string()),
        e_spell: None,
    }
}

#[test]
fn cast_kinds_keep_their_spelling() {
    assert_eq!(cast_kind_row(CastKind::Instant), CastKindRow::Instant);
    assert_eq!(cast_kind_row(CastKind::CastTime), CastKindRow::CastTime);
    assert_eq!(cast_kind_row(CastKind::Channeling), CastKindRow::Channeling);
}

#[test]
fn targeting_policies_round_trip_through_rows() {
    for t in [AoeTargeting::Everyone, AoeTargeting::ExcludeCaster, AoeTargeting::CasterOnly] {
        assert_eq!(targeting_from_row(targeting_row(t)), t);
    }
    assert_eq!(targeting_row(AoeTargeting::CasterOnly), AoeTargetingRow::CasterOnly);
}

#[test]
fn the_caster_is_seeded_unless_everyone_is_hit() {
    assert!(seeded_affected(AoeTargeting::Everyone, 5).is_empty());
    assert_eq!(seeded_affected(AoeTargeting::ExcludeCaster, 5), vec![5]);
    assert_eq!(seeded_affected(AoeTargeting::CasterOnly, 9), vec![9]);
}

#[test]
fn stored_filters_and_selections_convert_one_for_one() {
    assert_eq!(status_filter(EffectPayloadFilterRow::Buffs), StatusFilter::Buffs);
    assert_eq!(status_filter(EffectPayloadFilterRow::Debuffs), StatusFilter::Debuffs);
    assert_eq!(status_filter(EffectPayloadFilterRow::All), StatusFilter::All);
    assert_eq!(status_selection(EffectPayloadSelectionRow::Oldest), StatusSelection::Oldest);
    assert_eq!(status_selection(EffectPayloadSelectionRow::Newest), StatusSelection::Newest);
    assert_eq!(
        status_selection(EffectPayloadSelectionRow::ShortestRemaining),
        StatusSelection::ShortestRemaining
    );
    assert_eq!(modifier_row_kind(ModifierKind::Buff), ModifierKindRow::Buff);
    assert_eq!(modifier_row_kind(ModifierKind::Debuff), ModifierKindRow::Debuff);
}

#[test]
fn ability_slots_parse_case_insensitively() {
    assert_eq!(parse_slot("Primary"), Ok(AbilitySlot::Primary));
    assert_eq!(parse_slot("SECONDARY"), Ok(AbilitySlot::Secondary));
    assert_eq!(parse_ability_slot("  ultimate "), Ok(AbilitySlot::Ultimate));
    assert_eq!(
        parse_slot(" primary"),
        Err("unknown ability slot \" primary\"; expected primary, secondary or ultimate".to_string())
    );
    assert_eq!(
        parse_ability_slot(" Fourth "),
        Err("unknown ability slot \"fourth\"; expected primary, secondary or ultimate".to_string())
    );
}

#[test]
fn blocked_casts_are_explained() {
    assert_eq!(
        describe_block(CastBlockedReason::UnknownGlyph),
        "you do not know every glyph inscribed on that slot"
    );
    assert_eq!(
        describe_block(CastBlockedReason::IncompatibleAncientWord),
        "an Ancient Word is incompatible with the selected gesture"
    );
}

#[test]
fn releasing_a_key_completes_channels_and_fires_charges() {
    assert_eq!(release_action(None), ReleaseAction::Nothing);
    assert_eq!(release_action(Some((CastKindRow::Channeling, false))), ReleaseAction::Nothing);
    assert_eq!(release_action(Some((CastKindRow::Channeling, true))), ReleaseAction::Complete);
    assert_eq!(release_action(Some((CastKindRow::Charge, true))), ReleaseAction::FireCharge);
    assert_eq!(release_action(Some((CastKindRow::CastTime, true))), ReleaseAction::Interrupt);
}

#[test]
fn pressing_a_key_toggles_a_channel() {
    assert_eq!(key_press_action(CastKind::Channeling, true, true), KeyPressAction::SendRelease);
    assert_eq!(key_press_action(CastKind::Channeling, false, true), KeyPressAction::Skip);
    assert_eq!(
        key_press_action(CastKind::Channeling, false, false),
        KeyPressAction::SendCast { start_hud_cooldown: true }
    );
    assert_eq!(
        key_press_action(CastKind::CastTime, false, false),
        KeyPressAction::SendCast { start_hud_cooldown: false }
    );
    assert_eq!(
        key_press_action(CastKind::Instant, true, false),
        KeyPressAction::SendCast { start_hud_cooldown: true }
    );
}

#[test]
fn a_cast_request_passes_when_every_check_does() {
    assert_eq!(check_cast_request("fireball", &bar_with("fireball"), ok_conditions()), Ok(()));
}

#[test]
fn cast_request_refusals_come_in_order() {
    let bar = bar_with("fireball");
    let mut c = ok_conditions();
    c.caster_dead = true;
    c.spell_known = false;
    assert_eq!(check_cast_request("fireball", &bar, c), Err("dead characters do not cast".to_string()));
    c.caster_dead = false;
    assert_eq!(check_cast_request("nope", &bar, c), Err("unknown spell \"nope\"".to_string()));
    c.spell_known = true;
    c.on_cooldown = true;
    assert_eq!(
        check_cast_request("frost", &bar, c),
        Err("\"frost\" is not on the hotbar".to_string())
    );
    assert_eq!(
        check_cast_request("fireball", &bar, c),
        Err("\"fireball\" is on cooldown".to_string())
    );
    c.on_cooldown = false;
    c.casting_blocked = true;
    assert_eq!(
        check_cast_request("fireball", &bar, c),
        Err("you cannot cast right now".to_string())
    );
}

use bevymmo::casting::{
    advance_cast, armor_cast_source, open_cast, parse_armor_slot, wind_up_interrupted,
    CastAdvance, CastMode, CastSourceRow, CastTickFacts, OpenCast,
};
use bevymmo::items::EquipSlot;

fn tick() -> CastTickFacts {
    CastTickFacts {
        caster_present: true,
        caster_alive: true,
        casting_blocked: false,
        moved: false,
        spell_known: true,
        due: false,
        channel_complete: false,
    }
}

#[test]
fn armor_slot_names_have_aliases() {
    assert_eq!(parse_armor_slot("HELMET"), Ok(EquipSlot::Helmet));
    assert_eq!(parse_armor_slot("Chestplate"), Ok(EquipSlot::Armor));
    assert_eq!(parse_armor_slot("boots"), Ok(EquipSlot::Shoes));
    assert_eq!(parse_armor_slot("Gloves"), Err("unknown armor slot \"gloves\"".to_string()));
    assert_eq!(armor_cast_source(EquipSlot::Shoes), Ok(CastSourceRow::Shoes));
    assert_eq!(armor_cast_source(EquipSlot::Weapon), Err("invalid armor source".to_string()));
}

#[test]
fn instants_open_no_cast() {
    for source in [CastSourceRow::Spell, CastSourceRow::Eidolon, CastSourceRow::Helmet] {
        assert_eq!(open_cast(source, CastMode::Instant, true), None);
    }
}

#[test]
fn wind_ups_and_charges_stop_the_caster() {
    assert_eq!(
        open_cast(CastSourceRow::Eidolon, CastMode::CastTime, true),
        Some(OpenCast {
            kind: CastKindRow::Charge,
            stop_caster: true,
            cooldown_on_press: false,
            armed: false,
            interrupts_on_move: true,
        })
    );
    assert_eq!(
        open_cast(CastSourceRow::Spell, CastMode::CastTime, true),
        Some(OpenCast {
            kind: CastKindRow::CastTime,
            stop_caster: true,
            cooldown_on_press: false,
            armed: false,
            interrupts_on_move: false,
        })
    );
}

#[test]
fn channels_start_armed_with_their_cooldown() {
    let spell = open_cast(CastSourceRow::Spell, CastMode::Channeling { interrupts_on_move: true }, false)
        .unwrap();
    assert_eq!(spell.kind, CastKindRow::Channeling);
    assert!(spell.armed && spell.cooldown_on_press && spell.interrupts_on_move);
    assert!(!spell.stop_caster);
    let armor = open_cast(CastSourceRow::Armor, CastMode::Channeling { interrupts_on_move: false }, false)
        .unwrap();
    assert!(armor.stop_caster);
    assert!(!armor.interrupts_on_move);
}

#[test]
fn a_cast_ends_when_its_caster_cannot_go_on() {
    let mut f = tick();
    f.caster_present = false;
    assert_eq!(
        advance_cast(CastSourceRow::Spell, CastKindRow::Channeling, false, f),
        CastAdvance::End { interrupted: true }
    );
    let mut f = tick();
    f.casting_blocked = true;
    assert_eq!(
        advance_cast(CastSourceRow::Eidolon, CastKindRow::Charge, false, f),
        CastAdvance::End { interrupted: true }
    );
}

#[test]
fn movement_breaks_wind_ups_and_channels_by_policy() {
    let mut f = tick();
    f.moved = true;
    assert_eq!(
        advance_cast(CastSourceRow::Spell, CastKindRow::CastTime, false, f),
        CastAdvance::End { interrupted: true }
    );
    assert_eq!(
        advance_cast(CastSourceRow::Spell, CastKindRow::Channeling, false, f),
        CastAdvance::TickChannel { finish: false }
    );
    assert_eq!(
        advance_cast(CastSourceRow::Spell, CastKindRow::Channeling, true, f),
        CastAdvance::End { interrupted: true }
    );
}

#[test]
fn wind_ups_fire_when_due_and_charges_wait() {
    let mut f = tick();
    assert_eq!(advance_cast(CastSourceRow::Eidolon, CastKindRow::CastTime, false, f), CastAdvance::Wait);
    f.due = true;
    assert_eq!(
        advance_cast(CastSourceRow::Eidolon, CastKindRow::CastTime, false, f),
        CastAdvance::FireAndEnd
    );
    assert_eq!(advance_cast(CastSourceRow::Eidolon, CastKindRow::Charge, false, f), CastAdvance::Wait);
    assert_eq!(
        advance_cast(CastSourceRow::Spell, CastKindRow::Charge, false, f),
        CastAdvance::End { interrupted: false }
    );
    assert_eq!(
        advance_cast(CastSourceRow::Spell, CastKindRow::Instant, false, f),
        CastAdvance::End { interrupted: false }
    );
    f.spell_known = false;
    assert_eq!(
        advance_cast(CastSourceRow::Spell, CastKindRow::CastTime, false, f),
        CastAdvance::End { interrupted: true }
    );
    assert_eq!(
        advance_cast(CastSourceRow::Eidolon, CastKindRow::CastTime, false, f),
        CastAdvance::FireAndEnd
    );
}

#[test]
fn channels_finish_when_complete() {
    let mut f = tick();
    f.channel_complete = true;
    assert_eq!(
        advance_cast(CastSourceRow::Eidolon, CastKindRow::Channeling, false, f),
        CastAdvance::TickChannel { finish: true }
    );
}

#[test]
fn a_failed_ability_wind_up_counts_as_interrupted() {
    assert!(wind_up_interrupted(CastSourceRow::Eidolon, false));
    assert!(!wind_up_interrupted(CastSourceRow::Eidolon, true));
    assert!(!wind_up_interrupted(CastSourceRow::Spell, false));
}

use bevymmo::casting::{
    cleanse_options, modifier_multiplicative, payload_kept, EffectPayloadKindRow, ModifierOp,
};

#[test]
fn status_applications_need_a_status() {
    assert!(!payload_kept(EffectPayloadKindRow::ApplyStatus, false));
    assert!(payload_kept(EffectPayloadKindRow::ApplyStatus, true));
    assert!(payload_kept(EffectPayloadKindRow::Damage, false));
    assert!(payload_kept(EffectPayloadKindRow::Purge, false));
}

#[test]
fn cleanses_default_to_every_status_oldest_first() {
    assert_eq!(cleanse_options(None, None), (StatusFilter::All, StatusSelection::Oldest));
    assert_eq!(
        cleanse_options(Some(EffectPayloadFilterRow::Debuffs), Some(EffectPayloadSelectionRow::Newest)),
        (StatusFilter::Debuffs, StatusSelection::Newest)
    );
}

#[test]
fn overrides_cannot_be_stored() {
    assert_eq!(modifier_multiplicative(ModifierOp::Add), Some(false));
    assert_eq!(modifier_multiplicative(ModifierOp::Multiply), Some(true));
    assert_eq!(modifier_multiplicative(ModifierOp::Override), None);
}

use bevymmo::casting::{cooldowns_to_replace, CooldownRow};

#[test]
fn a_new_cooldown_replaces_the_running_one() {
    let rows = [
        CooldownRow { id: 10, entity_id: 1, ability_id: "fireball".to_string() },
        CooldownRow { id: 11, entity_id: 2, ability_id: "fireball".to_string() },
        CooldownRow { id: 12, entity_id: 1, ability_id: "blink".to_string() },
        CooldownRow { id: 13, entity_id: 1, ability_id: "fireball".to_string() },
    ];
    assert_eq!(cooldowns_to_replace(&rows, 1, "fireball"), vec![10, 13]);
    assert_eq!(cooldowns_to_replace(&rows, 3, "fireball"), Vec::<u64>::new());
}

use bevymmo::casting::{check_armor_cast_request, check_eidolon_request, ArmorCastFacts, EidolonFacts};

fn eidolon_ok() -> EidolonFacts {
    EidolonFacts {
        caster_dead: false,
        weapon_item_id: Some("magic_staff".to_string()),
        item_display_name: Some("Magic Staff".to_string()),
        has_gestures: true,
        gesture: Some("arcane_orb".to_string()),
        on_cooldown: false,
        casting_blocked: false,
        root_inscribed: false,
        language_initialized: false,
    }
}

#[test]
fn an_eidolon_request_resolves_the_slot_gesture() {
    assert_eq!(
        check_eidolon_request("Primary", &eidolon_ok()),
        Ok((AbilitySlot::Primary, "arcane_orb".to_string()))
    );
}

#[test]
fn eidolon_refusals_come_in_order() {
    let mut f = eidolon_ok();
    f.caster_dead = true;
    assert_eq!(check_eidolon_request("nope", &f).unwrap_err(), "dead characters do not cast");
    let f = eidolon_ok();
    assert!(check_eidolon_request("nope", &f).unwrap_err().starts_with("unknown ability slot"));
    let mut f = eidolon_ok();
    f.weapon_item_id = None;
    assert_eq!(check_eidolon_request("primary", &f).unwrap_err(), "no weapon equipped");
    let mut f = eidolon_ok();
    f.item_display_name = None;
    assert_eq!(check_eidolon_request("primary", &f).unwrap_err(), "unknown item \"magic_staff\"");
    let mut f = eidolon_ok();
    f.has_gestures = false;
    assert_eq!(check_eidolon_request("primary", &f).unwrap_err(), "Magic Staff has no Eidolon gestures");
    let mut f = eidolon_ok();
    f.gesture = None;
    assert_eq!(
        check_eidolon_request("ultimate", &f).unwrap_err(),
        "the weapon offers no gesture for Ultimate"
    );
    let mut f = eidolon_ok();
    f.on_cooldown = true;
    f.casting_blocked = true;
    assert_eq!(check_eidolon_request("primary", &f).unwrap_err(), "\"arcane_orb\" is on cooldown");
    let mut f = eidolon_ok();
    f.casting_blocked = true;
    assert_eq!(check_eidolon_request("primary", &f).unwrap_err(), "you cannot cast right now");
}

fn armor_ok() -> ArmorCastFacts {
    ArmorCastFacts {
        caster_dead: false,
        armor_item_id: Some("iron_helm".to_string()),
        item_display_name: Some("Iron Helm".to_string()),
        has_abilities: true,
        primary_ability: Some("ward".to_string()),
        on_cooldown: false,
        casting_blocked: false,
        language_initialized: true,
    }
}

#[test]
fn an_armor_request_names_its_source() {
    assert_eq!(
        check_armor_cast_request("Helmet", &armor_ok()),
        Ok((EquipSlot::Helmet, CastSourceRow::Helmet, "ward".to_string()))
    );
    assert_eq!(
        check_armor_cast_request("boots", &armor_ok()),
        Ok((EquipSlot::Shoes, CastSourceRow::Shoes, "ward".to_string()))
    );
}

#[test]
fn armor_refusals_come_in_order() {
    assert_eq!(
        check_armor_cast_request("Gloves", &armor_ok()).unwrap_err(),
        "unknown armor slot \"gloves\""
    );
    let mut f = armor_ok();
    f.armor_item_id = None;
    assert_eq!(check_armor_cast_request("Chest", &f).unwrap_err(), "armor slot \"Chest\" is empty");
    let mut f = armor_ok();
    f.has_abilities = false;
    assert_eq!(check_armor_cast_request("chest", &f).unwrap_err(), "Iron Helm has no armor abilities");
    let mut f = armor_ok();
    f.primary_ability = None;
    assert_eq!(check_armor_cast_request("chest", &f).unwrap_err(), "armor has no Primary ability");
    let mut f = armor_ok();
    f.language_initialized = false;
    assert_eq!(
        check_armor_cast_request("chest", &f).unwrap_err(),
        "ancient language has not been initialized"
    );
    let mut f = armor_ok();
    f.language_initialized = false;
    f.casting_blocked = true;
    assert_eq!(check_armor_cast_request("chest", &f).unwrap_err(), "you cannot cast right now");
}

use bevymmo::casting::region_persistable;

#[test]
fn only_lasting_circles_with_effects_are_stored() {
    assert!(region_persistable(true, true, true));
    assert!(!region_persistable(false, true, true));
    assert!(!region_persistable(true, false, true));
    assert!(!region_persistable(true, true, false));
}

use bevymmo::casting::check_caster_stats;

#[test]
fn root_inscribed_weapons_need_the_language() {
    let mut f = eidolon_ok();
    f.root_inscribed = true;
    assert_eq!(
        check_eidolon_request("primary", &f).unwrap_err(),
        "ancient language has not been initialized"
    );
    f.language_initialized = true;
    assert!(check_eidolon_request("primary", &f).is_ok());
    f.casting_blocked = true;
    f.language_initialized = false;
    assert_eq!(check_eidolon_request("primary", &f).unwrap_err(), "you cannot cast right now");
}

#[test]
fn instant_abilities_need_combat_stats() {
    assert_eq!(check_caster_stats(true), Ok(()));
    assert_eq!(check_caster_stats(false), Err("caster has no stats".to_string()));
}
