use bevymmo::hotbar::SpellHotbar;
use bevymmo::items::{
    AbilitySelection, Equipment, Inscription, Inventory, ItemInstance, WeaponInscriptions,
};
use bevymmo::rows::{
    equipment_from_rows, equipment_to_rows, hotbar_from_row, hotbar_to_row, inventory_from_rows,
    inventory_to_rows, known_glyphs_from_rows, next_instance_id, AbilitySelectionRow,
    ItemInstanceRow,
};

fn inscribed_sword(id: u64) -> ItemInstance {
    ItemInstance {
        instance_id: id,
        item_id: "sword".to_string(),
        inscriptions: Some(WeaponInscriptions {
            primary: Inscription {
                essence: Some("fire".to_string()),
                modifiers: vec!["wide".to_string(), "fast".to_string()],
                ancient_word: None,
            },
            secondary: Inscription::empty(),
            ultimate: Inscription {
                essence: None,
                modifiers: vec![],
                ancient_word: Some("vor".to_string()),
            },
        }),
        ability_selection: AbilitySelection {
            primary: Some("slash".to_string()),
            secondary: None,
        },
    }
}

fn row(id: u64) -> Option<ItemInstanceRow> {
    Some(ItemInstanceRow {
        instance_id: id,
        item_id: "ore".to_string(),
        inscriptions: None,
        ability_selection: AbilitySelectionRow { primary: None, secondary: None },
    })
}

#[test]
fn an_inventory_survives_a_trip_through_rows() {
    let mut inv = Inventory::empty();
    inv.slots[3] = Some(inscribed_sword(8));
    let rows = inventory_to_rows(&inv);
    assert_eq!(rows.len(), 10);
    let back = inventory_from_rows(&rows);
    let copy = back.slots[3].as_ref().unwrap();
    assert_eq!(copy.instance_id, 8);
    let ins = copy.inscriptions.as_ref().unwrap();
    assert_eq!(ins.primary.essence.as_deref(), Some("fire"));
    assert_eq!(ins.primary.modifiers, vec!["wide".to_string(), "fast".to_string()]);
    assert_eq!(ins.ultimate.ancient_word.as_deref(), Some("vor"));
    assert_eq!(copy.ability_selection.primary.as_deref(), Some("slash"));
    assert_eq!(back.slots.iter().filter(|s| s.is_some()).count(), 1);
}

#[test]
fn short_or_long_row_lists_still_give_a_full_inventory() {
    let back = inventory_from_rows(&[row(1), None]);
    assert_eq!(back.slots.len(), 10);
    assert_eq!(back.slots[0].as_ref().unwrap().instance_id, 1);
    assert!(back.slots[9].is_none());
    let many: Vec<Option<ItemInstanceRow>> = (1..=12).map(row).collect();
    let back = inventory_from_rows(&many);
    assert_eq!(back.slots.len(), 10);
    assert_eq!(back.slots[9].as_ref().unwrap().instance_id, 10);
}

#[test]
fn equipment_survives_a_trip_through_rows() {
    let mut eq = Equipment::empty();
    eq.slots[3] = Some(inscribed_sword(4));
    let back = equipment_from_rows(&equipment_to_rows(&eq));
    assert_eq!(back.slots.len(), 10);
    assert_eq!(back.slots[3].as_ref().unwrap().item_id, "sword");
    assert!(back.slots[0].is_none());
}

#[test]
fn the_hotbar_survives_a_trip_through_its_row() {
    let bar = SpellHotbar {
        q_spell: Some("fireball".to_string()),
        w_spell: None,
        e_spell: Some("blink".to_string()),
    };
    let back = hotbar_from_row(&hotbar_to_row(&bar));
    assert_eq!(back.q_spell.as_deref(), Some("fireball"));
    assert_eq!(back.w_spell, None);
    assert_eq!(back.e_spell.as_deref(), Some("blink"));
}

#[test]
fn known_glyphs_keep_their_lists() {
    let k = known_glyphs_from_rows(
        &["fire".to_string()],
        &[],
        &["vor".to_string(), "kel".to_string()],
    );
    assert_eq!(k.essences, vec!["fire".to_string()]);
    assert!(k.modifiers.is_empty());
    assert_eq!(k.ancient_words, vec!["vor".to_string(), "kel".to_string()]);
}

#[test]
fn the_next_instance_id_is_one_past_the_highest_stored() {
    assert_eq!(next_instance_id(&[], &[]), 1);
    let inventories = vec![vec![row(3), None, row(17)], vec![row(5)]];
    let equipment = vec![vec![None, row(21)]];
    assert_eq!(next_instance_id(&inventories, &equipment), 22);
    assert_eq!(next_instance_id(&inventories, &[]), 18);
}

use bevymmo::rows::checked_next_instance_id;

#[test]
fn the_checked_next_id_refuses_only_when_ids_run_out() {
    assert_eq!(checked_next_instance_id(&[], &[]), Some(1));
    let inventories = vec![vec![row(41)]];
    assert_eq!(checked_next_instance_id(&inventories, &[]), Some(42));
    let full = vec![vec![row(u64::MAX)]];
    assert_eq!(checked_next_instance_id(&[], &full), None);
}
