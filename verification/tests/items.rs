use bevymmo::items::{
    check_equip_requirements, equip_item, grant_item, move_item, parse_equip_slot, unequip_item,
    EquipRequirement, EquipSlot, Equipment, Inventory, ItemDefinition, ItemInstance, ItemRegistry,
    EQUIP_SLOT_COUNT, INVENTORY_CAPACITY,
};

fn registry() -> ItemRegistry {
    ItemRegistry {
        items: vec![
            ItemDefinition {
                id: "sword".to_string(),
                equippable_into: Some(EquipSlot::Weapon),
                equip_requirements: vec![],
            },
            ItemDefinition {
                id: "axe".to_string(),
                equippable_into: Some(EquipSlot::Weapon),
                equip_requirements: vec![EquipRequirement::MinLevel { value: 0 }],
            },
            ItemDefinition {
                id: "crown".to_string(),
                equippable_into: Some(EquipSlot::Helmet),
                equip_requirements: vec![EquipRequirement::MinLevel { value: 30 }],
            },
            ItemDefinition {
                id: "ore".to_string(),
                equippable_into: None,
                equip_requirements: vec![],
            },
        ],
    }
}

fn occupied(slots: &[Option<ItemInstance>]) -> usize {
    slots.iter().filter(|s| s.is_some()).count()
}

#[test]
fn new_containers_are_empty_and_sized() {
    let inv = Inventory::empty();
    let eq = Equipment::empty();
    assert_eq!(inv.slots.len(), INVENTORY_CAPACITY);
    assert_eq!(eq.slots.len(), EQUIP_SLOT_COUNT);
    assert_eq!(occupied(&inv.slots) + occupied(&eq.slots), 0);
}

#[test]
fn granting_fills_the_first_free_slot() {
    let mut inv = Inventory::empty();
    assert_eq!(grant_item(&mut inv, "sword", &registry(), 11), Ok(0));
    assert_eq!(grant_item(&mut inv, "ore", &registry(), 12), Ok(1));
    let first = inv.slots[0].as_ref().unwrap();
    assert_eq!(first.item_id, "sword");
    assert_eq!(first.instance_id, 11);
    assert_eq!(
        grant_item(&mut inv, "wand", &registry(), 13),
        Err("unknown item \"wand\"".to_string())
    );
}

#[test]
fn granting_into_a_full_inventory_is_refused() {
    let mut inv = Inventory::empty();
    for k in 0..INVENTORY_CAPACITY {
        assert_eq!(grant_item(&mut inv, "ore", &registry(), k as u64 + 1), Ok(k as u8));
    }
    assert_eq!(
        grant_item(&mut inv, "ore", &registry(), 99),
        Err("inventory is full".to_string())
    );
}

#[test]
fn equipping_swaps_with_what_was_worn_and_assigns_an_id() {
    let mut inv = Inventory::empty();
    let mut eq = Equipment::empty();
    inv.slots[2] = Some(ItemInstance::new("sword".to_string()));
    assert_eq!(equip_item(&mut inv, &mut eq, 2, &registry(), 500), Ok(()));
    assert!(inv.slots[2].is_none());
    let worn = eq.get(EquipSlot::Weapon).as_ref().unwrap();
    assert_eq!(worn.item_id, "sword");
    assert_eq!(worn.instance_id, 500);

    inv.slots[4] = Some(ItemInstance::new("axe".to_string()));
    assert_eq!(equip_item(&mut inv, &mut eq, 4, &registry(), 501), Ok(()));
    assert_eq!(eq.get(EquipSlot::Weapon).as_ref().unwrap().item_id, "axe");
    assert_eq!(inv.slots[4].as_ref().unwrap().item_id, "sword");
    assert_eq!(inv.slots[4].as_ref().unwrap().instance_id, 500);
    assert_eq!(occupied(&inv.slots) + occupied(&eq.slots), 2);
}

#[test]
fn equip_refusals_change_nothing() {
    let mut inv = Inventory::empty();
    let mut eq = Equipment::empty();
    inv.slots[0] = Some(ItemInstance::new("ore".to_string()));
    inv.slots[1] = Some(ItemInstance::new("crown".to_string()));
    inv.slots[3] = Some(ItemInstance::new("ghost".to_string()));
    assert_eq!(
        equip_item(&mut inv, &mut eq, 10, &registry(), 1),
        Err("inventory slot 10 out of range (0..10)".to_string())
    );
    assert_eq!(
        equip_item(&mut inv, &mut eq, 2, &registry(), 1),
        Err("inventory slot 2 is empty".to_string())
    );
    assert_eq!(
        equip_item(&mut inv, &mut eq, 0, &registry(), 1),
        Err("\"ore\" is not equippable".to_string())
    );
    assert_eq!(
        equip_item(&mut inv, &mut eq, 1, &registry(), 1),
        Err("requires level 30, and characters have no level yet".to_string())
    );
    assert_eq!(
        equip_item(&mut inv, &mut eq, 3, &registry(), 1),
        Err("unknown item \"ghost\"".to_string())
    );
    assert_eq!(occupied(&inv.slots), 3);
    assert_eq!(occupied(&eq.slots), 0);
}

#[test]
fn unequipping_returns_the_copy_to_the_first_free_slot() {
    let mut inv = Inventory::empty();
    let mut eq = Equipment::empty();
    inv.slots[0] = Some(ItemInstance::new("ore".to_string()));
    inv.slots[5] = Some(ItemInstance::new("sword".to_string()));
    equip_item(&mut inv, &mut eq, 5, &registry(), 77).unwrap();
    assert_eq!(unequip_item(&mut inv, &mut eq, " Weapon "), Ok(()));
    assert!(eq.get(EquipSlot::Weapon).is_none());
    assert_eq!(inv.slots[1].as_ref().unwrap().instance_id, 77);
    assert_eq!(
        unequip_item(&mut inv, &mut eq, "weapon"),
        Err("equipment slot \"weapon\" is empty".to_string())
    );
    assert!(unequip_item(&mut inv, &mut eq, "belt").unwrap_err().starts_with("unknown equipment slot \"belt\""));
}

#[test]
fn unequipping_into_a_full_inventory_is_refused() {
    let mut inv = Inventory::empty();
    let mut eq = Equipment::empty();
    for k in 0..INVENTORY_CAPACITY {
        inv.slots[k] = Some(ItemInstance::new("ore".to_string()));
    }
    eq.slots[1] = Some(ItemInstance::new("crown".to_string()));
    assert_eq!(unequip_item(&mut inv, &mut eq, "helmet"), Err("inventory is full".to_string()));
    assert!(eq.get(EquipSlot::Helmet).is_some());
}

#[test]
fn moving_swaps_two_slots_and_twice_restores() {
    let mut inv = Inventory::empty();
    inv.slots[0] = Some(ItemInstance::new("sword".to_string()));
    assert_eq!(move_item(&mut inv, 0, 7), Ok(()));
    assert!(inv.slots[0].is_none());
    assert_eq!(inv.slots[7].as_ref().unwrap().item_id, "sword");
    assert_eq!(move_item(&mut inv, 0, 7), Ok(()));
    assert_eq!(inv.slots[0].as_ref().unwrap().item_id, "sword");
    assert_eq!(
        move_item(&mut inv, 3, 12),
        Err("inventory slots 3/12 out of range (0..10)".to_string())
    );
}

#[test]
fn equipment_slot_names_parse_case_insensitively() {
    assert_eq!(parse_equip_slot("Helmet"), Ok(EquipSlot::Helmet));
    assert_eq!(parse_equip_slot(" MOUNT "), Ok(EquipSlot::Mount));
    assert_eq!(
        parse_equip_slot("ring"),
        Err("unknown equipment slot \"ring\"; expected one of bag, helmet, cape, weapon, armor, offhand, potion, shoes, food, mount".to_string())
    );
}

#[test]
fn only_level_zero_requirements_can_be_met() {
    assert_eq!(check_equip_requirements(&vec![]), Ok(()));
    assert_eq!(check_equip_requirements(&vec![EquipRequirement::MinLevel { value: 0 }]), Ok(()));
    assert_eq!(
        check_equip_requirements(&vec![
            EquipRequirement::MinLevel { value: 0 },
            EquipRequirement::MinLevel { value: 5 },
            EquipRequirement::MinLevel { value: 9 },
        ]),
        Err("requires level 5, and characters have no level yet".to_string())
    );
}

#[test]
fn the_registry_finds_definitions_by_id() {
    let r = registry();
    assert!(r.contains("axe"));
    assert!(!r.contains("Axe"));
    assert_eq!(r.get("crown").unwrap().equippable_into, Some(EquipSlot::Helmet));
    assert!(r.get("wand").is_none());
}

#[test]
fn slots_have_stable_indices_and_labels() {
    for i in 0..EQUIP_SLOT_COUNT {
        assert_eq!(EquipSlot::at(i).index(), i);
    }
    assert_eq!(EquipSlot::Offhand.label(), "offhand");
}
