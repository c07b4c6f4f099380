//! Items: the copies a character owns, the ten-slot inventory, the ten
//! equipment slots, and the rules for moving copies between them.
use vstd::prelude::*;
use crate::text::{
    chars_of, concat, debug_quoted, debug_str, decimal, decimal_string, eq_ignore_ascii_case,
    equal_ignore_ascii_case, owned, same_text, trim, trimmed,
};

verus! {

/// Number of slots in every inventory.
pub const INVENTORY_CAPACITY: usize = 10;

/// Number of equipment slots.
pub const EQUIP_SLOT_COUNT: usize = 10;

// ---------------------------------------------------------------------------
// Inscriptions and ability selections
// ---------------------------------------------------------------------------

/// One inscribed slot of an Eidolon weapon: an optional essence, the
/// modifiers, and an optional ancient word, each by id.
#[derive(Debug)]
pub struct Inscription {
    pub essence: Option<String>,
    pub modifiers: Vec<String>,
    pub ancient_word: Option<String>,
}

pub ghost struct InscriptionView {
    pub essence: Option<Seq<char>>,
    pub modifiers: Seq<Seq<char>>,
    pub ancient_word: Option<Seq<char>>,
}

/// The text of an optional id.
pub open spec fn opt_text(o: Option<String>) -> Option<Seq<char>> {
    match o {
        Some(s) => Some(s@),
        None => None,
    }
}

/// The texts of a list of ids.
pub open spec fn texts(v: Seq<String>) -> Seq<Seq<char>> {
    v.map_values(|s: String| s@)
}

impl View for Inscription {
    type V = InscriptionView;

    open spec fn view(&self) -> InscriptionView {
        InscriptionView {
            essence: opt_text(self.essence),
            modifiers: texts(self.modifiers@),
            ancient_word: opt_text(self.ancient_word),
        }
    }
}

/// A copy of an optional id.
pub fn copy_opt_string(s: &Option<String>) -> (r: Option<String>)
    ensures
        r == *s,
{
    match s {
        Some(x) => Some(x.clone()),
        None => None,
    }
}

/// A copy of a list of ids.
pub fn copy_strings(v: &Vec<String>) -> (r: Vec<String>)
    ensures
        r@ == v@,
{
    let mut r: Vec<String> = Vec::new();
    let mut i: usize = 0;
    while i < v.len()
        invariant
            i <= v@.len(),
            r@ == v@.subrange(0, i as int),
        decreases v@.len() - i,
    {
        r.push(v[i].clone());
        assert(r@ =~= v@.subrange(0, i + 1));
        i = i + 1;
    }
    assert(v@.subrange(0, v@.len() as int) =~= v@);
    r
}

impl Inscription {
    /// The empty inscription.
    pub fn empty() -> (r: Inscription)
        ensures
            r@ == (InscriptionView { essence: None, modifiers: Seq::empty(), ancient_word: None }),
    {
        let r = Inscription { essence: None, modifiers: Vec::new(), ancient_word: None };
        assert(texts(r.modifiers@) =~= Seq::empty());
        r
    }

    pub fn duplicate(&self) -> (r: Inscription)
        ensures
            r@ == self@,
    {
        Inscription {
            essence: copy_opt_string(&self.essence),
            modifiers: copy_strings(&self.modifiers),
            ancient_word: copy_opt_string(&self.ancient_word),
        }
    }
}

/// The inscriptions of the three slots of an Eidolon weapon.
#[derive(Debug)]
pub struct WeaponInscriptions {
    pub primary: Inscription,
    pub secondary: Inscription,
    pub ultimate: Inscription,
}

pub ghost struct WeaponInscriptionsView {
    pub primary: InscriptionView,
    pub secondary: InscriptionView,
    pub ultimate: InscriptionView,
}

impl View for WeaponInscriptions {
    type V = WeaponInscriptionsView;

    open spec fn view(&self) -> WeaponInscriptionsView {
        WeaponInscriptionsView {
            primary: self.primary@,
            secondary: self.secondary@,
            ultimate: self.ultimate@,
        }
    }
}

impl WeaponInscriptions {
    pub fn duplicate(&self) -> (r: WeaponInscriptions)
        ensures
            r@ == self@,
    {
        WeaponInscriptions {
            primary: self.primary.duplicate(),
            secondary: self.secondary.duplicate(),
            ultimate: self.ultimate.duplicate(),
        }
    }
}

/// Which of the weapon's offered gestures is active on the primary and
/// secondary slots, by ability id.
#[derive(Debug)]
pub struct AbilitySelection {
    pub primary: Option<String>,
    pub secondary: Option<String>,
}

pub ghost struct AbilitySelectionView {
    pub primary: Option<Seq<char>>,
    pub secondary: Option<Seq<char>>,
}

impl View for AbilitySelection {
    type V = AbilitySelectionView;

    open spec fn view(&self) -> AbilitySelectionView {
        AbilitySelectionView { primary: opt_text(self.primary), secondary: opt_text(self.secondary) }
    }
}

impl AbilitySelection {
    /// Nothing selected.
    pub fn none() -> (r: AbilitySelection)
        ensures
            r@ == (AbilitySelectionView { primary: None, secondary: None }),
    {
        AbilitySelection { primary: None, secondary: None }
    }

    pub fn duplicate(&self) -> (r: AbilitySelection)
        ensures
            r == *self,
    {
        AbilitySelection {
            primary: copy_opt_string(&self.primary),
            secondary: copy_opt_string(&self.secondary),
        }
    }
}

// ---------------------------------------------------------------------------
// Item instances
// ---------------------------------------------------------------------------

/// One physical copy of an item. `instance_id` zero means "not assigned yet".
#[derive(Debug)]
pub struct ItemInstance {
    pub instance_id: u64,
    pub item_id: String,
    pub inscriptions: Option<WeaponInscriptions>,
    pub ability_selection: AbilitySelection,
}

pub ghost struct ItemInstanceView {
    pub instance_id: u64,
    pub item_id: Seq<char>,
    pub inscriptions: Option<WeaponInscriptionsView>,
    pub ability_selection: AbilitySelectionView,
}

pub open spec fn opt_inscriptions_view(o: Option<WeaponInscriptions>) -> Option<WeaponInscriptionsView> {
    match o {
        Some(w) => Some(w@),
        None => None,
    }
}

impl View for ItemInstance {
    type V = ItemInstanceView;

    open spec fn view(&self) -> ItemInstanceView {
        ItemInstanceView {
            instance_id: self.instance_id,
            item_id: self.item_id@,
            inscriptions: opt_inscriptions_view(self.inscriptions),
            ability_selection: self.ability_selection@,
        }
    }
}

pub open spec fn opt_item_view(o: Option<ItemInstance>) -> Option<ItemInstanceView> {
    match o {
        Some(i) => Some(i@),
        None => None,
    }
}

/// The contents of a row of slots.
pub open spec fn slots_view(v: Seq<Option<ItemInstance>>) -> Seq<Option<ItemInstanceView>> {
    v.map_values(|o: Option<ItemInstance>| opt_item_view(o))
}

pub fn copy_opt_inscriptions(o: &Option<WeaponInscriptions>) -> (r: Option<WeaponInscriptions>)
    ensures
        opt_inscriptions_view(r) == opt_inscriptions_view(*o),
{
    match o {
        Some(w) => Some(w.duplicate()),
        None => None,
    }
}

impl ItemInstance {
    /// A fresh, unassigned copy of `item_id` with nothing inscribed or selected.
    pub fn new(item_id: String) -> (r: ItemInstance)
        ensures
            r@ == fresh_instance_view(item_id@, 0),
    {
        ItemInstance {
            instance_id: 0,
            item_id,
            inscriptions: None,
            ability_selection: AbilitySelection::none(),
        }
    }

    /// Whether the copy has been given its permanent id.
    pub fn is_assigned(&self) -> (b: bool)
        ensures
            b == (self.instance_id != 0),
    {
        self.instance_id != 0
    }

    pub fn duplicate(&self) -> (r: ItemInstance)
        ensures
            r@ == self@,
    {
        ItemInstance {
            instance_id: self.instance_id,
            item_id: self.item_id.clone(),
            inscriptions: copy_opt_inscriptions(&self.inscriptions),
            ability_selection: self.ability_selection.duplicate(),
        }
    }
}

/// A new copy of `item_id` with id `instance_id`, nothing inscribed, nothing
/// selected.
pub open spec fn fresh_instance_view(item_id: Seq<char>, instance_id: u64) -> ItemInstanceView {
    ItemInstanceView {
        instance_id,
        item_id,
        inscriptions: None,
        ability_selection: AbilitySelectionView { primary: None, secondary: None },
    }
}

// ---------------------------------------------------------------------------
// Slots
// ---------------------------------------------------------------------------

/// Number of occupied slots.
pub open spec fn occupied(s: Seq<Option<ItemInstanceView>>) -> nat
    decreases s.len(),
{
    if s.len() == 0 {
        0
    } else {
        occupied(s.drop_last()) + if s.last() is Some { 1nat } else { 0nat }
    }
}

/// Index of the first empty slot, if any.
pub open spec fn first_free(s: Seq<Option<ItemInstanceView>>) -> Option<int> {
    if exists|k: int| 0 <= k < s.len() && s[k] is None {
        Some(choose|k: int| 0 <= k < s.len() && s[k] is None && forall|j: int| 0 <= j < k ==> s[j] is Some)
    } else {
        None
    }
}

proof fn lemma_first_free(s: Seq<Option<ItemInstanceView>>, k: int)
    requires
        0 <= k < s.len(),
        s[k] is None,
        forall|j: int| 0 <= j < k ==> s[j] is Some,
    ensures
        first_free(s) == Some(k),
{
    assert(exists|k: int| 0 <= k < s.len() && s[k] is None && forall|j: int| 0 <= j < k ==> s[j] is Some);
    let c = choose|k: int| 0 <= k < s.len() && s[k] is None && forall|j: int| 0 <= j < k ==> s[j] is Some;
    if c < k {
        assert(s[c] is Some);
    }
    if k < c {
        assert(s[k] is Some);
    }
}

/// Replacing the slot at `i` changes the count by what left and what came in.
pub proof fn lemma_occupied_update(s: Seq<Option<ItemInstanceView>>, i: int, x: Option<ItemInstanceView>)
    requires
        0 <= i < s.len(),
    ensures
        occupied(s.update(i, x)) + (if s[i] is Some { 1int } else { 0int }) == occupied(s) + (if x is Some { 1int } else { 0int }),
    decreases s.len(),
{
    let t = s.update(i, x);
    if i == s.len() - 1 {
        assert(t.drop_last() =~= s.drop_last());
    } else {
        lemma_occupied_update(s.drop_last(), i, x);
        assert(t.drop_last() =~= s.drop_last().update(i, x));
    }
}

/// The first empty slot of `slots`, scanning from the front.
pub fn find_free_slot(slots: &Vec<Option<ItemInstance>>) -> (r: Option<usize>)
    ensures
        match first_free(slots_view(slots@)) {
            Some(k) => r == Some(k as usize),
            None => r is None,
        },
{
    let ghost sv = slots_view(slots@);
    let mut i: usize = 0;
    while i < slots.len()
        invariant
            i <= slots@.len(),
            sv == slots_view(slots@),
            forall|j: int| 0 <= j < i ==> sv[j] is Some,
        decreases slots@.len() - i,
    {
        if slots[i].is_none() {
            proof {
                lemma_first_free(sv, i as int);
            }
            return Some(i);
        }
        i = i + 1;
    }
    assert(!exists|k: int| 0 <= k < sv.len() && sv[k] is None);
    None
}

/// Takes the copy out of slot `i`, leaving it empty.
pub fn take_slot(slots: &mut Vec<Option<ItemInstance>>, i: usize) -> (r: Option<ItemInstance>)
    requires
        i < old(slots)@.len(),
    ensures
        r == old(slots)@[i as int],
        final(slots)@ == old(slots)@.update(i as int, None),
{
    let mut taken: Option<ItemInstance> = None;
    slots.set_and_swap(i, &mut taken);
    taken
}

/// Puts `item` into slot `i`, dropping what was there.
pub fn put_slot(slots: &mut Vec<Option<ItemInstance>>, i: usize, item: Option<ItemInstance>)
    requires
        i < old(slots)@.len(),
    ensures
        final(slots)@ == old(slots)@.update(i as int, item),
{
    slots.set(i, item);
}

pub proof fn lemma_slots_view_update(s: Seq<Option<ItemInstance>>, i: int, x: Option<ItemInstance>)
    requires
        0 <= i < s.len(),
    ensures
        slots_view(s.update(i, x)) == slots_view(s).update(i, opt_item_view(x)),
{
    assert(slots_view(s.update(i, x)) =~= slots_view(s).update(i, opt_item_view(x)));
}

// ---------------------------------------------------------------------------
// Inventory and equipment
// ---------------------------------------------------------------------------

/// The bag: always exactly `INVENTORY_CAPACITY` slots.
#[derive(Debug)]
pub struct Inventory {
    pub slots: Vec<Option<ItemInstance>>,
}

impl View for Inventory {
    type V = Seq<Option<ItemInstanceView>>;

    open spec fn view(&self) -> Seq<Option<ItemInstanceView>> {
        slots_view(self.slots@)
    }
}

impl Inventory {
    pub open spec fn wf(&self) -> bool {
        self.slots@.len() == INVENTORY_CAPACITY
    }

    /// An inventory with every slot empty.
    pub fn empty() -> (r: Inventory)
        ensures
            r.wf(),
            forall|k: int| 0 <= k < INVENTORY_CAPACITY ==> r@[k] is None,
    {
        let mut slots: Vec<Option<ItemInstance>> = Vec::new();
        let mut i: usize = 0;
        while i < INVENTORY_CAPACITY
            invariant
                i <= INVENTORY_CAPACITY,
                slots@.len() == i,
                forall|k: int| 0 <= k < i ==> slots@[k] is None,
            decreases INVENTORY_CAPACITY - i,
        {
            slots.push(None);
            i = i + 1;
        }
        Inventory { slots }
    }
}

/// The ten equipment slots, in the order they are stored.
#[derive(Debug, Clone, Copy, PartialEq, Eq, Structural)]
pub enum EquipSlot {
    Bag,
    Helmet,
    Cape,
    Weapon,
    Armor,
    Offhand,
    Potion,
    Shoes,
    Food,
    Mount,
}

pub open spec fn equip_slot_index(slot: EquipSlot) -> int {
    match slot {
        EquipSlot::Bag => 0,
        EquipSlot::Helmet => 1,
        EquipSlot::Cape => 2,
        EquipSlot::Weapon => 3,
        EquipSlot::Armor => 4,
        EquipSlot::Offhand => 5,
        EquipSlot::Potion => 6,
        EquipSlot::Shoes => 7,
        EquipSlot::Food => 8,
        EquipSlot::Mount => 9,
    }
}

/// The slot stored at position `i` (`i < 10`).
pub open spec fn equip_slot_at(i: int) -> EquipSlot {
    if i == 0 {
        EquipSlot::Bag
    } else if i == 1 {
        EquipSlot::Helmet
    } else if i == 2 {
        EquipSlot::Cape
    } else if i == 3 {
        EquipSlot::Weapon
    } else if i == 4 {
        EquipSlot::Armor
    } else if i == 5 {
        EquipSlot::Offhand
    } else if i == 6 {
        EquipSlot::Potion
    } else if i == 7 {
        EquipSlot::Shoes
    } else if i == 8 {
        EquipSlot::Food
    } else {
        EquipSlot::Mount
    }
}

/// The lower-case name of each slot, as clients spell it.
pub open spec fn equip_slot_label(slot: EquipSlot) -> Seq<char> {
    match slot {
        EquipSlot::Bag => "bag"@,
        EquipSlot::Helmet => "helmet"@,
        EquipSlot::Cape => "cape"@,
        EquipSlot::Weapon => "weapon"@,
        EquipSlot::Armor => "armor"@,
        EquipSlot::Offhand => "offhand"@,
        EquipSlot::Potion => "potion"@,
        EquipSlot::Shoes => "shoes"@,
        EquipSlot::Food => "food"@,
        EquipSlot::Mount => "mount"@,
    }
}

impl EquipSlot {
    /// Position of the slot in the stored list.
    pub fn index(self) -> (i: usize)
        ensures
            i as int == equip_slot_index(self),
            i < EQUIP_SLOT_COUNT,
    {
        match self {
            EquipSlot::Bag => 0,
            EquipSlot::Helmet => 1,
            EquipSlot::Cape => 2,
            EquipSlot::Weapon => 3,
            EquipSlot::Armor => 4,
            EquipSlot::Offhand => 5,
            EquipSlot::Potion => 6,
            EquipSlot::Shoes => 7,
            EquipSlot::Food => 8,
            EquipSlot::Mount => 9,
        }
    }

    /// The slot at position `i` of the stored list.
    pub fn at(i: usize) -> (s: EquipSlot)
        requires
            i < EQUIP_SLOT_COUNT,
        ensures
            s == equip_slot_at(i as int),
            equip_slot_index(s) == i,
    {
        if i == 0 {
            EquipSlot::Bag
        } else if i == 1 {
            EquipSlot::Helmet
        } else if i == 2 {
            EquipSlot::Cape
        } else if i == 3 {
            EquipSlot::Weapon
        } else if i == 4 {
            EquipSlot::Armor
        } else if i == 5 {
            EquipSlot::Offhand
        } else if i == 6 {
            EquipSlot::Potion
        } else if i == 7 {
            EquipSlot::Shoes
        } else if i == 8 {
            EquipSlot::Food
        } else {
            EquipSlot::Mount
        }
    }

    /// The slot's lower-case name.
    pub fn label(self) -> (s: &'static str)
        ensures
            s@ == equip_slot_label(self),
    {
        proof {
            reveal_strlit("bag");
            reveal_strlit("helmet");
            reveal_strlit("cape");
            reveal_strlit("weapon");
            reveal_strlit("armor");
            reveal_strlit("offhand");
            reveal_strlit("potion");
            reveal_strlit("shoes");
            reveal_strlit("food");
            reveal_strlit("mount");
        }
        match self {
            EquipSlot::Bag => "bag",
            EquipSlot::Helmet => "helmet",
            EquipSlot::Cape => "cape",
            EquipSlot::Weapon => "weapon",
            EquipSlot::Armor => "armor",
            EquipSlot::Offhand => "offhand",
            EquipSlot::Potion => "potion",
            EquipSlot::Shoes => "shoes",
            EquipSlot::Food => "food",
            EquipSlot::Mount => "mount",
        }
    }
}

/// What a character wears: always exactly one slot per `EquipSlot`.
#[derive(Debug)]
pub struct Equipment {
    pub slots: Vec<Option<ItemInstance>>,
}

impl View for Equipment {
    type V = Seq<Option<ItemInstanceView>>;

    open spec fn view(&self) -> Seq<Option<ItemInstanceView>> {
        slots_view(self.slots@)
    }
}

impl Equipment {
    pub open spec fn wf(&self) -> bool {
        self.slots@.len() == EQUIP_SLOT_COUNT
    }

    /// Nothing equipped.
    pub fn empty() -> (r: Equipment)
        ensures
            r.wf(),
            forall|k: int| 0 <= k < EQUIP_SLOT_COUNT ==> r@[k] is None,
    {
        let mut slots: Vec<Option<ItemInstance>> = Vec::new();
        let mut i: usize = 0;
        while i < EQUIP_SLOT_COUNT
            invariant
                i <= EQUIP_SLOT_COUNT,
                slots@.len() == i,
                forall|k: int| 0 <= k < i ==> slots@[k] is None,
            decreases EQUIP_SLOT_COUNT - i,
        {
            slots.push(None);
            i = i + 1;
        }
        Equipment { slots }
    }

    /// What is worn in `slot`.
    pub fn get(&self, slot: EquipSlot) -> (r: &Option<ItemInstance>)
        requires
            self.wf(),
        ensures
            opt_item_view(*r) == self@[equip_slot_index(slot)],
    {
        &self.slots[slot.index()]
    }
}

// ---------------------------------------------------------------------------
// The item catalogue
// ---------------------------------------------------------------------------

/// A condition a character must meet to equip an item.
#[derive(Debug, Clone, Copy, PartialEq, Eq, Structural)]
pub enum EquipRequirement {
    MinLevel { value: u32 },
}

/// What the catalogue says about one item id.
#[derive(Debug)]
pub struct ItemDefinition {
    pub id: String,
    /// The equipment slot the item goes into, if it can be equipped at all.
    pub equippable_into: Option<EquipSlot>,
    pub equip_requirements: Vec<EquipRequirement>,
}

/// Every item this build ships, one definition per id.
#[derive(Debug)]
pub struct ItemRegistry {
    pub items: Vec<ItemDefinition>,
}

impl ItemRegistry {
    /// No two definitions share an id.
    pub open spec fn wf(&self) -> bool {
        forall|i: int, j: int|
            0 <= i < self.items@.len() && 0 <= j < self.items@.len() && i != j
                ==> #[trigger] self.items@[i].id@ != #[trigger] self.items@[j].id@
    }

    pub open spec fn has(&self, id: Seq<char>) -> bool {
        exists|k: int| 0 <= k < self.items@.len() && #[trigger] self.items@[k].id@ == id
    }

    /// The definition of `id`, if the catalogue has one.
    pub open spec fn lookup(&self, id: Seq<char>) -> Option<ItemDefinition> {
        if self.has(id) {
            Some(self.items@[choose|k: int| 0 <= k < self.items@.len() && #[trigger] self.items@[k].id@ == id])
        } else {
            None
        }
    }

    /// The definition of `id`, if the catalogue has one.
    pub fn get(&self, id: &str) -> (r: Option<&ItemDefinition>)
        requires
            self.wf(),
        ensures
            self.lookup(id@) is None ==> r is None,
            self.lookup(id@) matches Some(d) ==> (r matches Some(x) && *x == d),
    {
        let mut i: usize = 0;
        while i < self.items.len()
            invariant
                self.wf(),
                i <= self.items@.len(),
                forall|k: int| 0 <= k < i ==> #[trigger] self.items@[k].id@ != id@,
            decreases self.items@.len() - i,
        {
            if same_text(self.items[i].id.as_str(), id) {
                proof {
                    let c = choose|k: int| 0 <= k < self.items@.len() && #[trigger] self.items@[k].id@ == id@;
                    assert(self.items@[i as int].id@ == id@);
                    if c != i {
                        assert(self.items@[c].id@ != self.items@[i as int].id@);
                    }
                }
                return Some(&self.items[i]);
            }
            i = i + 1;
        }
        None
    }

    /// Whether the catalogue defines `id`.
    pub fn contains(&self, id: &str) -> (b: bool)
        requires
            self.wf(),
        ensures
            b == self.has(id@),
    {
        self.get(id).is_some()
    }
}

/// The level a requirement list demands first, if any is unmeetable.
///
/// Characters have no level, so `MinLevel { value: 0 }` is the only kind of
/// requirement that can be met.
pub open spec fn first_unmet(reqs: Seq<EquipRequirement>) -> Option<u32> {
    if exists|k: int| 0 <= k < reqs.len() && #[trigger] reqs[k]->MinLevel_value != 0 {
        Some(reqs[choose|k: int| 0 <= k < reqs.len() && #[trigger] reqs[k]->MinLevel_value != 0
            && forall|j: int| 0 <= j < k ==> reqs[j]->MinLevel_value == 0]->MinLevel_value)
    } else {
        None
    }
}

pub open spec fn requirement_text(value: u32) -> Seq<char> {
    "requires level "@ + decimal(value as nat) + ", and characters have no level yet"@
}

/// Rejects an item whose equip requirements the character cannot meet.
///
/// `MinLevel` is unmeetable for any level above zero: characters have no
/// level, and a requirement nothing can satisfy fails closed.
pub fn check_equip_requirements(requirements: &Vec<EquipRequirement>) -> (r: Result<(), String>)
    ensures
        first_unmet(requirements@) is None ==> r is Ok,
        first_unmet(requirements@) matches Some(v) ==> (r matches Err(e) && e@ == requirement_text(v)),
{
    let mut i: usize = 0;
    while i < requirements.len()
        invariant
            i <= requirements@.len(),
            forall|k: int| 0 <= k < i ==> #[trigger] requirements@[k]->MinLevel_value == 0,
        decreases requirements@.len() - i,
    {
        match requirements[i] {
            EquipRequirement::MinLevel { value } => {
                if value != 0 {
                    proof {
                        let reqs = requirements@;
                        let c = choose|k: int| 0 <= k < reqs.len() && #[trigger] reqs[k]->MinLevel_value != 0
                            && forall|j: int| 0 <= j < k ==> reqs[j]->MinLevel_value == 0;
                        assert(reqs[i as int]->MinLevel_value != 0);
                        if c < i {
                            assert(reqs[c]->MinLevel_value == 0);
                        }
                        if i < c {
                            assert(reqs[i as int]->MinLevel_value == 0);
                        }
                        reveal_strlit("requires level ");
                        reveal_strlit(", and characters have no level yet");
                    }
                    let text = concat(owned("requires level "), decimal_string(value as u64).as_str());
                    return Err(concat(text, ", and characters have no level yet"));
                }
            },
        }
        i = i + 1;
    }
    Ok(())
}

// ---------------------------------------------------------------------------
// Parsing slot names
// ---------------------------------------------------------------------------

/// The slot whose label matches `name`, trimmed, ignoring ASCII case.
pub open spec fn equip_slot_named(name: Seq<char>) -> Option<EquipSlot> {
    if exists|i: int| 0 <= i < EQUIP_SLOT_COUNT && eq_ignore_ascii_case(#[trigger] equip_slot_label(equip_slot_at(i)), trim(name)) {
        Some(equip_slot_at(choose|i: int| 0 <= i < EQUIP_SLOT_COUNT && eq_ignore_ascii_case(#[trigger] equip_slot_label(equip_slot_at(i)), trim(name))
            && forall|j: int| 0 <= j < i ==> !eq_ignore_ascii_case(equip_slot_label(equip_slot_at(j)), trim(name))))
    } else {
        None
    }
}

pub open spec fn unknown_equip_slot_text(name: Seq<char>) -> Seq<char> {
    "unknown equipment slot "@ + debug_quoted(name)
        + "; expected one of bag, helmet, cape, weapon, armor, offhand, potion, shoes, food, mount"@
}

/// Parses an equipment slot name, trimmed and case-insensitively.
pub fn parse_equip_slot(name: &str) -> (r: Result<EquipSlot, String>)
    ensures
        equip_slot_named(name@) matches Some(s) ==> r == Ok::<EquipSlot, String>(s),
        equip_slot_named(name@) is None ==> (r matches Err(e) && e@ == unknown_equip_slot_text(name@)),
{
    let key = trimmed(name);
    let mut i: usize = 0;
    while i < EQUIP_SLOT_COUNT
        invariant
            i <= EQUIP_SLOT_COUNT,
            key@ == trim(name@),
            forall|j: int| 0 <= j < i ==> !eq_ignore_ascii_case(#[trigger] equip_slot_label(equip_slot_at(j)), trim(name@)),
        decreases EQUIP_SLOT_COUNT - i,
    {
        let slot = EquipSlot::at(i);
        if equal_ignore_ascii_case(slot.label(), key.as_str()) {
            proof {
                let t = trim(name@);
                let c = choose|k: int| 0 <= k < EQUIP_SLOT_COUNT && eq_ignore_ascii_case(#[trigger] equip_slot_label(equip_slot_at(k)), t)
                    && forall|j: int| 0 <= j < k ==> !eq_ignore_ascii_case(equip_slot_label(equip_slot_at(j)), t);
                assert(eq_ignore_ascii_case(equip_slot_label(equip_slot_at(i as int)), t));
                if c < i {
                    assert(!eq_ignore_ascii_case(equip_slot_label(equip_slot_at(c)), t));
                }
                if i < c {
                    assert(!eq_ignore_ascii_case(equip_slot_label(equip_slot_at(i as int)), t));
                }
            }
            return Ok(slot);
        }
        i = i + 1;
    }
    proof {
        reveal_strlit("unknown equipment slot ");
        reveal_strlit("; expected one of bag, helmet, cape, weapon, armor, offhand, potion, shoes, food, mount");
    }
    let text = concat(owned("unknown equipment slot "), debug_str(name).as_str());
    Err(concat(text, "; expected one of bag, helmet, cape, weapon, armor, offhand, potion, shoes, food, mount"))
}

// ---------------------------------------------------------------------------
// Moving copies between inventory and equipment
// ---------------------------------------------------------------------------

pub open spec fn slot_out_of_range_text(slot_index: u8) -> Seq<char> {
    "inventory slot "@ + decimal(slot_index as nat) + " out of range (0..10)"@
}

pub open spec fn slot_empty_text(slot_index: u8) -> Seq<char> {
    "inventory slot "@ + decimal(slot_index as nat) + " is empty"@
}

pub open spec fn unknown_item_text(item_id: Seq<char>) -> Seq<char> {
    "unknown item "@ + debug_quoted(item_id)
}

pub open spec fn not_equippable_text(item_id: Seq<char>) -> Seq<char> {
    debug_quoted(item_id) + " is not equippable"@
}

pub open spec fn inventory_full_text() -> Seq<char> {
    "inventory is full"@
}

/// Why equipping inventory slot `slot_index` is refused, checked in this
/// order: the index, the slot's contents, the catalogue entry, whether it is
/// equippable, and its requirements. `None` when the equip goes ahead.
pub open spec fn equip_refusal(inventory: Seq<Option<ItemInstanceView>>, slot_index: u8, registry: ItemRegistry) -> Option<Seq<char>> {
    if slot_index >= INVENTORY_CAPACITY {
        Some(slot_out_of_range_text(slot_index))
    } else if inventory[slot_index as int] is None {
        Some(slot_empty_text(slot_index))
    } else {
        let item_id = inventory[slot_index as int]->0.item_id;
        match registry.lookup(item_id) {
            None => Some(unknown_item_text(item_id)),
            Some(def) => match def.equippable_into {
                None => Some(not_equippable_text(item_id)),
                Some(_) => match first_unmet(def.equip_requirements@) {
                    Some(v) => Some(requirement_text(v)),
                    None => None,
                },
            },
        }
    }
}

/// The slot an accepted equip targets.
pub open spec fn equip_target(inventory: Seq<Option<ItemInstanceView>>, slot_index: u8, registry: ItemRegistry) -> EquipSlot {
    registry.lookup(inventory[slot_index as int]->0.item_id)->0.equippable_into->0
}

/// A copy as it is once equipped: given `fresh_id` if it had no id yet.
pub open spec fn with_assigned_id(item: ItemInstanceView, fresh_id: u64) -> ItemInstanceView {
    if item.instance_id == 0 {
        ItemInstanceView { instance_id: fresh_id, ..item }
    } else {
        item
    }
}

/// Equips the copy held in inventory slot `slot_index` into the slot its
/// catalogue entry declares.
///
/// Whatever was already worn there swaps back into the inventory slot the copy
/// just left, so equipping can never overflow the inventory. A copy that has
/// never been stored gets `fresh_id` as its permanent id, so an equipped copy
/// always carries a nonzero id. On refusal nothing changes.
pub fn equip_item(
    inventory: &mut Inventory,
    equipment: &mut Equipment,
    slot_index: u8,
    registry: &ItemRegistry,
    fresh_id: u64,
) -> (r: Result<(), String>)
    requires
        old(inventory).wf(),
        old(equipment).wf(),
        registry.wf(),
        fresh_id != 0,
    ensures
        final(inventory).wf(),
        final(equipment).wf(),
        equip_refusal(old(inventory)@, slot_index, *registry) matches Some(reason) ==> (r matches Err(e)
            && e@ == reason && final(inventory)@ == old(inventory)@ && final(equipment)@ == old(equipment)@),
        equip_refusal(old(inventory)@, slot_index, *registry) is None ==> ({
            let target = equip_slot_index(equip_target(old(inventory)@, slot_index, *registry));
            &&& r is Ok
            &&& final(inventory)@ == old(inventory)@.update(slot_index as int, old(equipment)@[target])
            &&& final(equipment)@ == old(equipment)@.update(
                target,
                Some(with_assigned_id(old(inventory)@[slot_index as int]->0, fresh_id)),
            )
            &&& final(equipment)@[target]->0.instance_id != 0
        }),
{
    let index = slot_index as usize;
    if index >= INVENTORY_CAPACITY {
        proof {
            reveal_strlit("inventory slot ");
            reveal_strlit(" out of range (0..10)");
        }
        let text = concat(owned("inventory slot "), decimal_string(slot_index as u64).as_str());
        return Err(concat(text, " out of range (0..10)"));
    }
    if inventory.slots[index].is_none() {
        proof {
            reveal_strlit("inventory slot ");
            reveal_strlit(" is empty");
        }
        let text = concat(owned("inventory slot "), decimal_string(slot_index as u64).as_str());
        return Err(concat(text, " is empty"));
    }
    let item_id = match &inventory.slots[index] {
        Some(instance) => instance.item_id.clone(),
        None => String::new(),
    };
    let definition = match registry.get(item_id.as_str()) {
        Some(d) => d,
        None => {
            proof {
                reveal_strlit("unknown item ");
            }
            return Err(concat(owned("unknown item "), debug_str(item_id.as_str()).as_str()));
        },
    };
    let target = match definition.equippable_into {
        Some(t) => t,
        None => {
            proof {
                reveal_strlit(" is not equippable");
            }
            return Err(concat(debug_str(item_id.as_str()), " is not equippable"));
        },
    };
    check_equip_requirements(&definition.equip_requirements)?;

    let ghost inv0 = inventory.slots@;
    let ghost eq0 = equipment.slots@;
    let taken = take_slot(&mut inventory.slots, index);
    let mut instance = match taken {
        Some(i) => i,
        None => {
            assert(false);
            return Err(String::new());
        },
    };
    if !instance.is_assigned() {
        instance.instance_id = fresh_id;
    }
    let t = target.index();
    let previous = take_slot(&mut equipment.slots, t);
    put_slot(&mut equipment.slots, t, Some(instance));
    put_slot(&mut inventory.slots, index, previous);
    proof {
        lemma_slots_view_update(inv0, index as int, eq0[t as int]);
        assert(inventory.slots@ == inv0.update(index as int, eq0[t as int]));
        assert(slots_view(inventory.slots@) =~= slots_view(inv0).update(index as int, opt_item_view(eq0[t as int])));
        assert(equipment.slots@ =~= eq0.update(t as int, Some(instance)));
        assert(slots_view(equipment.slots@) =~= slots_view(eq0).update(t as int, Some(instance@)));
    }
    Ok(())
}

pub open spec fn equipment_slot_empty_text(name: Seq<char>) -> Seq<char> {
    "equipment slot "@ + debug_quoted(name) + " is empty"@
}

/// Unequips the slot called `slot` and puts the copy into the first free
/// inventory slot. Refused, with nothing changed, when the name is unknown,
/// the slot is empty, or the inventory is full.
pub fn unequip_item(inventory: &mut Inventory, equipment: &mut Equipment, slot: &str) -> (r: Result<(), String>)
    requires
        old(inventory).wf(),
        old(equipment).wf(),
    ensures
        final(inventory).wf(),
        final(equipment).wf(),
        r is Err ==> final(inventory)@ == old(inventory)@ && final(equipment)@ == old(equipment)@,
        equip_slot_named(slot@) is None ==> (r matches Err(e) && e@ == unknown_equip_slot_text(slot@)),
        equip_slot_named(slot@) matches Some(target) ==> ({
            let t = equip_slot_index(target);
            &&& old(equipment)@[t] is None ==> (r matches Err(e) && e@ == equipment_slot_empty_text(slot@))
            &&& old(equipment)@[t] is Some && first_free(old(inventory)@) is None ==> (r matches Err(e)
                && e@ == inventory_full_text())
            &&& old(equipment)@[t] is Some && first_free(old(inventory)@) is Some ==> {
                &&& r is Ok
                &&& final(equipment)@ == old(equipment)@.update(t, None)
                &&& final(inventory)@ == old(inventory)@.update(first_free(old(inventory)@)->0, old(equipment)@[t])
            }
        }),
{
    let target = parse_equip_slot(slot)?;
    let t = target.index();
    if equipment.slots[t].is_none() {
        proof {
            reveal_strlit("equipment slot ");
            reveal_strlit(" is empty");
        }
        let text = concat(owned("equipment slot "), debug_str(slot).as_str());
        return Err(concat(text, " is empty"));
    }
    let free = match find_free_slot(&inventory.slots) {
        Some(f) => f,
        None => {
            proof {
                reveal_strlit("inventory is full");
            }
            return Err(owned("inventory is full"));
        },
    };
    let ghost inv0 = inventory.slots@;
    let ghost eq0 = equipment.slots@;
    let instance = take_slot(&mut equipment.slots, t);
    put_slot(&mut inventory.slots, free, instance);
    proof {
        lemma_slots_view_update(eq0, t as int, None);
        lemma_slots_view_update(inv0, free as int, eq0[t as int]);
    }
    Ok(())
}

pub open spec fn move_out_of_range_text(from: u8, to: u8) -> Seq<char> {
    "inventory slots "@ + decimal(from as nat) + "/"@ + decimal(to as nat) + " out of range (0..10)"@
}

/// Swaps the contents of two inventory slots.
pub fn move_item(inventory: &mut Inventory, from: u8, to: u8) -> (r: Result<(), String>)
    requires
        old(inventory).wf(),
    ensures
        final(inventory).wf(),
        (from >= INVENTORY_CAPACITY || to >= INVENTORY_CAPACITY) ==> (r matches Err(e) && e@
            == move_out_of_range_text(from, to) && final(inventory)@ == old(inventory)@),
        (from < INVENTORY_CAPACITY && to < INVENTORY_CAPACITY) ==> r is Ok && final(inventory)@
            == old(inventory)@.update(from as int, old(inventory)@[to as int]).update(
            to as int,
            old(inventory)@[from as int],
        ),
{
    let from_index = from as usize;
    let to_index = to as usize;
    if from_index >= INVENTORY_CAPACITY || to_index >= INVENTORY_CAPACITY {
        proof {
            reveal_strlit("inventory slots ");
            reveal_strlit("/");
            reveal_strlit(" out of range (0..10)");
        }
        let text = concat(owned("inventory slots "), decimal_string(from as u64).as_str());
        let text = concat(text, "/");
        let text = concat(text, decimal_string(to as u64).as_str());
        return Err(concat(text, " out of range (0..10)"));
    }
    let ghost s0 = inventory.slots@;
    let a = take_slot(&mut inventory.slots, from_index);
    let b = take_slot(&mut inventory.slots, to_index);
    put_slot(&mut inventory.slots, from_index, b);
    put_slot(&mut inventory.slots, to_index, a);
    proof {
        assert(inventory.slots@ =~= s0.update(from_index as int, s0[to_index as int]).update(to_index as int, s0[from_index as int]));
        lemma_slots_view_update(s0, from_index as int, s0[to_index as int]);
        lemma_slots_view_update(s0.update(from_index as int, s0[to_index as int]), to_index as int, s0[from_index as int]);
    }
    Ok(())
}

/// Puts a newly minted copy of `item_id`, with id `fresh_id`, into the first
/// free inventory slot and returns that slot. Unknown ids and a full
/// inventory are refused, with nothing changed. A granted copy always carries
/// a nonzero id.
pub fn grant_item(inventory: &mut Inventory, item_id: &str, registry: &ItemRegistry, fresh_id: u64) -> (r: Result<u8, String>)
    requires
        old(inventory).wf(),
        registry.wf(),
        fresh_id != 0,
    ensures
        final(inventory).wf(),
        r is Err ==> final(inventory)@ == old(inventory)@,
        !registry.has(item_id@) ==> (r matches Err(e) && e@ == unknown_item_text(item_id@)),
        registry.has(item_id@) && first_free(old(inventory)@) is None ==> (r matches Err(e) && e@
            == inventory_full_text()),
        registry.has(item_id@) && first_free(old(inventory)@) is Some ==> (r matches Ok(slot)
            && slot == first_free(old(inventory)@)->0 && final(inventory)@ == old(inventory)@.update(
            first_free(old(inventory)@)->0,
            Some(fresh_instance_view(item_id@, fresh_id)),
        ) && final(inventory)@[slot as int]->0.instance_id != 0),
{
    if !registry.contains(item_id) {
        proof {
            reveal_strlit("unknown item ");
        }
        return Err(concat(owned("unknown item "), debug_str(item_id).as_str()));
    }
    let free = match find_free_slot(&inventory.slots) {
        Some(f) => f,
        None => {
            proof {
                reveal_strlit("inventory is full");
            }
            return Err(owned("inventory is full"));
        },
    };
    let mut instance = ItemInstance::new(owned(item_id));
    instance.instance_id = fresh_id;
    let ghost inv0 = inventory.slots@;
    put_slot(&mut inventory.slots, free, Some(instance));
    proof {
        lemma_slots_view_update(inv0, free as int, Some(instance));
    }
    Ok(free as u8)
}

// ---------------------------------------------------------------------------
// Laws
// ---------------------------------------------------------------------------

/// Equipping never creates or destroys a copy: the number of occupied slots
/// across inventory and equipment is the same before and after.
pub proof fn law_equip_conserves_copies(
    inventory: Seq<Option<ItemInstanceView>>,
    equipment: Seq<Option<ItemInstanceView>>,
    slot_index: u8,
    registry: ItemRegistry,
    fresh_id: u64,
)
    requires
        inventory.len() == INVENTORY_CAPACITY,
        equipment.len() == EQUIP_SLOT_COUNT,
        equip_refusal(inventory, slot_index, registry) is None,
    ensures
        ({
            let t = equip_slot_index(equip_target(inventory, slot_index, registry));
            occupied(inventory.update(slot_index as int, equipment[t])) + occupied(
                equipment.update(t, Some(with_assigned_id(inventory[slot_index as int]->0, fresh_id))),
            ) == occupied(inventory) + occupied(equipment)
        }),
{
    let t = equip_slot_index(equip_target(inventory, slot_index, registry));
    assert(0 <= t < EQUIP_SLOT_COUNT);
    lemma_occupied_update(inventory, slot_index as int, equipment[t]);
    lemma_occupied_update(equipment, t, Some(with_assigned_id(inventory[slot_index as int]->0, fresh_id)));
}

/// Unequipping moves a copy from the equipment into the inventory: the number
/// of occupied slots across both is unchanged.
pub proof fn law_unequip_conserves_copies(
    inventory: Seq<Option<ItemInstanceView>>,
    equipment: Seq<Option<ItemInstanceView>>,
    t: int,
)
    requires
        inventory.len() == INVENTORY_CAPACITY,
        0 <= t < equipment.len(),
        equipment[t] is Some,
        first_free(inventory) is Some,
    ensures
        occupied(inventory.update(first_free(inventory)->0, equipment[t])) + occupied(equipment.update(t, None))
            == occupied(inventory) + occupied(equipment),
{
    let f = first_free(inventory)->0;
    let k = choose|k: int| 0 <= k < inventory.len() && inventory[k] is None && forall|j: int| 0 <= j < k ==> inventory[j] is Some;
    assert(f == k);
    lemma_occupied_update(inventory, f, equipment[t]);
    lemma_occupied_update(equipment, t, None);
}

/// Moving an item from `from` to `to` and back restores the inventory.
pub proof fn law_move_twice_restores(inventory: Seq<Option<ItemInstanceView>>, from: int, to: int)
    requires
        0 <= from < inventory.len(),
        0 <= to < inventory.len(),
    ensures
        ({
            let once = inventory.update(from, inventory[to]).update(to, inventory[from]);
            once.update(from, once[to]).update(to, once[from]) == inventory
        }),
{
    let once = inventory.update(from, inventory[to]).update(to, inventory[from]);
    assert(once.update(from, once[to]).update(to, once[from]) =~= inventory);
}

/// Moving items around the inventory never changes how many it holds.
pub proof fn law_move_conserves_copies(inventory: Seq<Option<ItemInstanceView>>, from: int, to: int)
    requires
        0 <= from < inventory.len(),
        0 <= to < inventory.len(),
    ensures
        occupied(inventory.update(from, inventory[to]).update(to, inventory[from])) == occupied(inventory),
{
    let once = inventory.update(from, inventory[to]);
    lemma_occupied_update(inventory, from, inventory[to]);
    lemma_occupied_update(once, to, inventory[from]);
}

} // verus!
