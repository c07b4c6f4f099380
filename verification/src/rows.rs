//! Stored spellings of the item, inscription and hotbar types, and the
//! conversions between the two in both directions.
//!
//! The stored forms are flat: ids are strings and fixed-size slot arrays
//! become lists whose length is carried by convention. Reading a list back
//! tolerates a short or long one rather than failing.
use vstd::prelude::*;
use crate::hotbar::{SpellHotbar, SpellHotbarView};
use crate::items::{
    copy_opt_string, copy_strings, opt_text, texts, AbilitySelection, AbilitySelectionView,
    Equipment, Inscription, InscriptionView, Inventory, ItemInstance, ItemInstanceView,
    WeaponInscriptions, WeaponInscriptionsView, EQUIP_SLOT_COUNT, INVENTORY_CAPACITY, opt_item_view,
    slots_view,
};

verus! {

#[derive(Debug)]
pub struct InscriptionRow {
    pub essence: Option<String>,
    pub modifiers: Vec<String>,
    pub ancient_word: Option<String>,
}

impl View for InscriptionRow {
    type V = InscriptionView;

    open spec fn view(&self) -> InscriptionView {
        InscriptionView {
            essence: opt_text(self.essence),
            modifiers: texts(self.modifiers@),
            ancient_word: opt_text(self.ancient_word),
        }
    }
}

pub fn inscription_to_row(i: &Inscription) -> (r: InscriptionRow)
    ensures
        r@ == i@,
{
    InscriptionRow {
        essence: copy_opt_string(&i.essence),
        modifiers: copy_strings(&i.modifiers),
        ancient_word: copy_opt_string(&i.ancient_word),
    }
}

pub fn inscription_from_row(i: &InscriptionRow) -> (r: Inscription)
    ensures
        r@ == i@,
{
    Inscription {
        essence: copy_opt_string(&i.essence),
        modifiers: copy_strings(&i.modifiers),
        ancient_word: copy_opt_string(&i.ancient_word),
    }
}

#[derive(Debug)]
pub struct WeaponInscriptionsRow {
    pub primary: InscriptionRow,
    pub secondary: InscriptionRow,
    pub ultimate: InscriptionRow,
}

impl View for WeaponInscriptionsRow {
    type V = WeaponInscriptionsView;

    open spec fn view(&self) -> WeaponInscriptionsView {
        WeaponInscriptionsView {
            primary: self.primary@,
            secondary: self.secondary@,
            ultimate: self.ultimate@,
        }
    }
}

pub fn weapon_inscriptions_to_row(w: &WeaponInscriptions) -> (r: WeaponInscriptionsRow)
    ensures
        r@ == w@,
{
    WeaponInscriptionsRow {
        primary: inscription_to_row(&w.primary),
        secondary: inscription_to_row(&w.secondary),
        ultimate: inscription_to_row(&w.ultimate),
    }
}

pub fn weapon_inscriptions_from_row(w: &WeaponInscriptionsRow) -> (r: WeaponInscriptions)
    ensures
        r@ == w@,
{
    WeaponInscriptions {
        primary: inscription_from_row(&w.primary),
        secondary: inscription_from_row(&w.secondary),
        ultimate: inscription_from_row(&w.ultimate),
    }
}

#[derive(Debug)]
pub struct AbilitySelectionRow {
    pub primary: Option<String>,
    pub secondary: Option<String>,
}

impl View for AbilitySelectionRow {
    type V = AbilitySelectionView;

    open spec fn view(&self) -> AbilitySelectionView {
        AbilitySelectionView { primary: opt_text(self.primary), secondary: opt_text(self.secondary) }
    }
}

pub fn ability_selection_to_row(a: &AbilitySelection) -> (r: AbilitySelectionRow)
    ensures
        r@ == a@,
{
    AbilitySelectionRow { primary: copy_opt_string(&a.primary), secondary: copy_opt_string(&a.secondary) }
}

pub fn ability_selection_from_row(a: &AbilitySelectionRow) -> (r: AbilitySelection)
    ensures
        r@ == a@,
{
    AbilitySelection { primary: copy_opt_string(&a.primary), secondary: copy_opt_string(&a.secondary) }
}

/// One physical copy of an item, as stored. Zero means "not stored yet".
#[derive(Debug)]
pub struct ItemInstanceRow {
    pub instance_id: u64,
    pub item_id: String,
    pub inscriptions: Option<WeaponInscriptionsRow>,
    pub ability_selection: AbilitySelectionRow,
}

pub open spec fn opt_inscriptions_row_view(o: Option<WeaponInscriptionsRow>) -> Option<WeaponInscriptionsView> {
    match o {
        Some(w) => Some(w@),
        None => None,
    }
}

impl View for ItemInstanceRow {
    type V = ItemInstanceView;

    open spec fn view(&self) -> ItemInstanceView {
        ItemInstanceView {
            instance_id: self.instance_id,
            item_id: self.item_id@,
            inscriptions: opt_inscriptions_row_view(self.inscriptions),
            ability_selection: self.ability_selection@,
        }
    }
}

pub fn item_instance_to_row(i: &ItemInstance) -> (r: ItemInstanceRow)
    ensures
        r@ == i@,
{
    ItemInstanceRow {
        instance_id: i.instance_id,
        item_id: i.item_id.clone(),
        inscriptions: match &i.inscriptions {
            Some(w) => Some(weapon_inscriptions_to_row(w)),
            None => None,
        },
        ability_selection: ability_selection_to_row(&i.ability_selection),
    }
}

pub fn item_instance_from_row(i: &ItemInstanceRow) -> (r: ItemInstance)
    ensures
        r@ == i@,
{
    ItemInstance {
        instance_id: i.instance_id,
        item_id: i.item_id.clone(),
        inscriptions: match &i.inscriptions {
            Some(w) => Some(weapon_inscriptions_from_row(w)),
            None => None,
        },
        ability_selection: ability_selection_from_row(&i.ability_selection),
    }
}

pub open spec fn opt_row_view(o: Option<ItemInstanceRow>) -> Option<ItemInstanceView> {
    match o {
        Some(i) => Some(i@),
        None => None,
    }
}

/// The contents of a stored slot list.
pub open spec fn rows_view(v: Seq<Option<ItemInstanceRow>>) -> Seq<Option<ItemInstanceView>> {
    v.map_values(|o: Option<ItemInstanceRow>| opt_row_view(o))
}

/// `n` slots read from a stored list: entry `k` where the list has one, empty
/// past its end; entries past `n` are ignored.
pub open spec fn slots_from_rows(rows: Seq<Option<ItemInstanceView>>, n: nat) -> Seq<Option<ItemInstanceView>> {
    Seq::new(n, |k: int| if k < rows.len() { rows[k] } else { None })
}

fn slots_to_rows(slots: &Vec<Option<ItemInstance>>) -> (r: Vec<Option<ItemInstanceRow>>)
    ensures
        rows_view(r@) == slots_view(slots@),
{
    let mut r: Vec<Option<ItemInstanceRow>> = Vec::new();
    let mut i: usize = 0;
    while i < slots.len()
        invariant
            i <= slots@.len(),
            rows_view(r@) == slots_view(slots@.subrange(0, i as int)),
        decreases slots@.len() - i,
    {
        let row = match &slots[i] {
            Some(item) => Some(item_instance_to_row(item)),
            None => None,
        };
        assert(opt_row_view(row) == opt_item_view(slots@[i as int]));
        let ghost before = r@;
        r.push(row);
        assert(r@ == before.push(row));
        assert(rows_view(r@) =~= rows_view(before).push(opt_row_view(row)));
        assert(slots_view(slots@.subrange(0, i + 1)) =~= slots_view(slots@.subrange(0, i as int)).push(opt_item_view(slots@[i as int])));
        i = i + 1;
    }
    assert(slots@.subrange(0, slots@.len() as int) =~= slots@);
    r
}

fn slots_from_row_list(rows: &[Option<ItemInstanceRow>], n: usize) -> (r: Vec<Option<ItemInstance>>)
    ensures
        slots_view(r@) == slots_from_rows(rows_view(rows@), n as nat),
        r@.len() == n,
{
    let mut r: Vec<Option<ItemInstance>> = Vec::new();
    let mut i: usize = 0;
    while i < n
        invariant
            i <= n,
            r@.len() == i,
            slots_view(r@) == slots_from_rows(rows_view(rows@), n as nat).subrange(0, i as int),
        decreases n - i,
    {
        let slot = if i < rows.len() {
            match &rows[i] {
                Some(row) => Some(item_instance_from_row(row)),
                None => None,
            }
        } else {
            None
        };
        r.push(slot);
        assert(slots_view(r@) =~= slots_from_rows(rows_view(rows@), n as nat).subrange(0, i + 1));
        i = i + 1;
    }
    assert(slots_from_rows(rows_view(rows@), n as nat).subrange(0, n as int) =~= slots_from_rows(rows_view(rows@), n as nat));
    r
}

/// Converts an inventory to its stored slot list, one entry per slot.
pub fn inventory_to_rows(inventory: &Inventory) -> (r: Vec<Option<ItemInstanceRow>>)
    ensures
        rows_view(r@) == inventory@,
{
    slots_to_rows(&inventory.slots)
}

/// Reads an inventory back from its stored slot list, tolerating a list of
/// the wrong length: missing entries are empty slots, extra ones are ignored.
pub fn inventory_from_rows(rows: &[Option<ItemInstanceRow>]) -> (r: Inventory)
    ensures
        r.wf(),
        r@ == slots_from_rows(rows_view(rows@), INVENTORY_CAPACITY as nat),
{
    Inventory { slots: slots_from_row_list(rows, INVENTORY_CAPACITY) }
}

/// Converts equipment to its stored slot list, in `EquipSlot` order.
pub fn equipment_to_rows(equipment: &Equipment) -> (r: Vec<Option<ItemInstanceRow>>)
    ensures
        rows_view(r@) == equipment@,
{
    slots_to_rows(&equipment.slots)
}

/// Reads equipment back from its stored slot list, tolerating a list of the
/// wrong length as `inventory_from_rows` does.
pub fn equipment_from_rows(rows: &[Option<ItemInstanceRow>]) -> (r: Equipment)
    ensures
        r.wf(),
        r@ == slots_from_rows(rows_view(rows@), EQUIP_SLOT_COUNT as nat),
{
    Equipment { slots: slots_from_row_list(rows, EQUIP_SLOT_COUNT) }
}

/// Storing an inventory and reading it back gives the same inventory.
pub proof fn law_inventory_round_trip(inventory: Seq<Option<ItemInstanceView>>)
    requires
        inventory.len() == INVENTORY_CAPACITY,
    ensures
        slots_from_rows(inventory, INVENTORY_CAPACITY as nat) == inventory,
{
    assert(slots_from_rows(inventory, INVENTORY_CAPACITY as nat) =~= inventory);
}

/// Storing equipment and reading it back gives the same equipment.
pub proof fn law_equipment_round_trip(equipment: Seq<Option<ItemInstanceView>>)
    requires
        equipment.len() == EQUIP_SLOT_COUNT,
    ensures
        slots_from_rows(equipment, EQUIP_SLOT_COUNT as nat) == equipment,
{
    assert(slots_from_rows(equipment, EQUIP_SLOT_COUNT as nat) =~= equipment);
}

/// The three hotbar keys as stored.
#[derive(Debug)]
pub struct HotbarRow {
    pub q: Option<String>,
    pub w: Option<String>,
    pub e: Option<String>,
}

impl View for HotbarRow {
    type V = SpellHotbarView;

    open spec fn view(&self) -> SpellHotbarView {
        SpellHotbarView { q: opt_text(self.q), w: opt_text(self.w), e: opt_text(self.e) }
    }
}

pub fn hotbar_to_row(h: &SpellHotbar) -> (r: HotbarRow)
    ensures
        r@ == h@,
{
    HotbarRow {
        q: copy_opt_string(&h.q_spell),
        w: copy_opt_string(&h.w_spell),
        e: copy_opt_string(&h.e_spell),
    }
}

pub fn hotbar_from_row(h: &HotbarRow) -> (r: SpellHotbar)
    ensures
        r@ == h@,
{
    SpellHotbar {
        q_spell: copy_opt_string(&h.q),
        w_spell: copy_opt_string(&h.w),
        e_spell: copy_opt_string(&h.e),
    }
}

/// The glyphs a character has learnt, by id.
#[derive(Debug)]
pub struct KnownGlyphs {
    pub essences: Vec<String>,
    pub modifiers: Vec<String>,
    pub ancient_words: Vec<String>,
}

fn strings_of(v: &[String]) -> (r: Vec<String>)
    ensures
        r@ == v@,
{
    let mut r: Vec<String> = Vec::new();
    let mut i: usize = 0;
    while i < v.len()
        invariant
            i <= v@.len(),
            r@ == v@.subrange(0, i as int),
        decreases v@.len() - i,
    {
        r.push(v[i].clone());
        assert(r@ =~= v@.subrange(0, i + 1));
        i = i + 1;
    }
    assert(v@.subrange(0, v@.len() as int) =~= v@);
    r
}

/// The glyph vocabulary from its three stored id lists.
pub fn known_glyphs_from_rows(essences: &[String], modifiers: &[String], ancient_words: &[String]) -> (r: KnownGlyphs)
    ensures
        r.essences@ == essences@,
        r.modifiers@ == modifiers@,
        r.ancient_words@ == ancient_words@,
{
    KnownGlyphs {
        essences: strings_of(essences),
        modifiers: strings_of(modifiers),
        ancient_words: strings_of(ancient_words),
    }
}

/// The largest instance id in the stored slot lists, or zero.
pub open spec fn max_instance_id(lists: Seq<Seq<Option<ItemInstanceView>>>) -> nat
    decreases lists.len(),
{
    if lists.len() == 0 {
        0
    } else {
        let rest = max_instance_id(lists.drop_last());
        let here = max_in_slots(lists.last());
        if rest >= here { rest } else { here }
    }
}

pub open spec fn max_in_slots(slots: Seq<Option<ItemInstanceView>>) -> nat
    decreases slots.len(),
{
    if slots.len() == 0 {
        0
    } else {
        let rest = max_in_slots(slots.drop_last());
        let here: nat = match slots.last() {
            Some(i) => i.instance_id as nat,
            None => 0,
        };
        if rest >= here { rest } else { here }
    }
}

pub open spec fn lists_view(s: Seq<Vec<Option<ItemInstanceRow>>>) -> Seq<Seq<Option<ItemInstanceView>>> {
    s.map_values(|v: Vec<Option<ItemInstanceRow>>| rows_view(v@))
}

proof fn lemma_max_in_slots_bounds(s: Seq<Option<ItemInstanceView>>, k: int)
    requires
        0 <= k < s.len(),
        s[k] is Some,
    ensures
        s[k]->0.instance_id <= max_in_slots(s),
    decreases s.len(),
{
    if k < s.len() - 1 {
        lemma_max_in_slots_bounds(s.drop_last(), k);
    }
}

proof fn lemma_max_instance_id_bounds(lists: Seq<Seq<Option<ItemInstanceView>>>, j: int)
    requires
        0 <= j < lists.len(),
    ensures
        max_in_slots(lists[j]) <= max_instance_id(lists),
    decreases lists.len(),
{
    if j < lists.len() - 1 {
        lemma_max_instance_id_bounds(lists.drop_last(), j);
    }
}

fn max_in_row_list(v: &Vec<Option<ItemInstanceRow>>) -> (m: u64)
    ensures
        m as nat == max_in_slots(rows_view(v@)),
{
    let ghost s = rows_view(v@);
    let mut m: u64 = 0;
    let mut i: usize = 0;
    while i < v.len()
        invariant
            i <= v@.len(),
            s == rows_view(v@),
            m as nat == max_in_slots(s.subrange(0, i as int)),
        decreases v@.len() - i,
    {
        assert(s.subrange(0, i + 1).drop_last() =~= s.subrange(0, i as int));
        if let Some(row) = &v[i] {
            if row.instance_id > m {
                m = row.instance_id;
            }
        }
        i = i + 1;
    }
    assert(s.subrange(0, v@.len() as int) =~= s);
    m
}

fn max_in_lists(lists: &[Vec<Option<ItemInstanceRow>>]) -> (m: u64)
    ensures
        m as nat == max_instance_id(lists_view(lists@)),
{
    let ghost s = lists_view(lists@);
    let mut m: u64 = 0;
    let mut i: usize = 0;
    while i < lists.len()
        invariant
            i <= lists@.len(),
            s == lists_view(lists@),
            m as nat == max_instance_id(s.subrange(0, i as int)),
        decreases lists@.len() - i,
    {
        assert(s.subrange(0, i + 1).drop_last() =~= s.subrange(0, i as int));
        let here = max_in_row_list(&lists[i]);
        if here > m {
            m = here;
        }
        i = i + 1;
    }
    assert(s.subrange(0, lists@.len() as int) =~= s);
    m
}

/// The id a newly minted copy gets: one past the highest id stored in any
/// inventory or equipment list (so 1 when nothing is stored).
pub open spec fn next_id_for(inventories: Seq<Seq<Option<ItemInstanceView>>>, equipment: Seq<Seq<Option<ItemInstanceView>>>) -> nat {
    let a = max_instance_id(inventories);
    let b = max_instance_id(equipment);
    (if a >= b { a } else { b }) + 1
}

/// The next free instance id: one past the highest one stored anywhere.
///
/// The highest stored id must be below `u64::MAX`, so that one past it fits.
pub fn next_instance_id(inventories: &[Vec<Option<ItemInstanceRow>>], equipment: &[Vec<Option<ItemInstanceRow>>]) -> (id: u64)
    requires
        next_id_for(lists_view(inventories@), lists_view(equipment@)) <= u64::MAX,
    ensures
        id as nat == next_id_for(lists_view(inventories@), lists_view(equipment@)),
{
    let a = max_in_lists(inventories);
    let b = max_in_lists(equipment);
    let m = if a >= b { a } else { b };
    m + 1
}

/// The next free instance id, or `None` when the highest stored id is
/// already `u64::MAX` and no id is left past it.
pub fn checked_next_instance_id(
    inventories: &[Vec<Option<ItemInstanceRow>>],
    equipment: &[Vec<Option<ItemInstanceRow>>],
) -> (id: Option<u64>)
    ensures
        next_id_for(lists_view(inventories@), lists_view(equipment@)) <= u64::MAX ==> id == Some(
            next_id_for(lists_view(inventories@), lists_view(equipment@)) as u64,
        ),
        next_id_for(lists_view(inventories@), lists_view(equipment@)) > u64::MAX ==> id is None,
{
    let a = max_in_lists(inventories);
    let b = max_in_lists(equipment);
    let m = if a >= b { a } else { b };
    if m == u64::MAX {
        None
    } else {
        Some(m + 1)
    }
}

/// A freshly chosen instance id differs from every id already stored.
pub proof fn law_next_id_is_fresh(
    inventories: Seq<Seq<Option<ItemInstanceView>>>,
    equipment: Seq<Seq<Option<ItemInstanceView>>>,
    j: int,
    k: int,
)
    ensures
        0 <= j < inventories.len() && 0 <= k < inventories[j].len() && inventories[j][k] is Some
            ==> inventories[j][k]->0.instance_id < next_id_for(inventories, equipment),
        0 <= j < equipment.len() && 0 <= k < equipment[j].len() && equipment[j][k] is Some
            ==> equipment[j][k]->0.instance_id < next_id_for(inventories, equipment),
{
    if 0 <= j < inventories.len() && 0 <= k < inventories[j].len() && inventories[j][k] is Some {
        lemma_max_in_slots_bounds(inventories[j], k);
        lemma_max_instance_id_bounds(inventories, j);
    }
    if 0 <= j < equipment.len() && 0 <= k < equipment[j].len() && equipment[j][k] is Some {
        lemma_max_in_slots_bounds(equipment[j], k);
        lemma_max_instance_id_bounds(equipment, j);
    }
}

} // verus!
