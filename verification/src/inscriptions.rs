//! Root Word inscriptions on weapons and armor: which Ancient Words a slot
//! may carry, and whether the whole inscription fits the item's rune
//! capacity.
//!
//! The caller looks each requested word up (in the character's language and
//! in the word catalogue) and hands the findings over; this module applies
//! the rules in the order the player is told about them.
use vstd::prelude::*;
use crate::casting::AbilitySlot;
use crate::items::{equip_slot_named, opt_text, unknown_equip_slot_text, EquipSlot, parse_equip_slot};
use crate::text::{concat, debug_quoted, debug_str, decimal, decimal_string, owned, same_text};

verus! {

/// What the catalogue says about an Ancient Word, as it bears on one gesture.
#[derive(Debug)]
pub struct WordMetadata {
    /// Whether the word's tags suit the gesture it would modify.
    pub compatible: bool,
    /// The exclusive group the word belongs to, by name, if any.
    pub exclusive_group: Option<String>,
    pub rune_cost: u32,
}

/// What the caller found out about one requested Ancient Word.
#[derive(Debug)]
pub struct WordFacts {
    pub id: String,
    /// Whether the character knows the word.
    pub known: bool,
    /// The catalogue entry, or `None` when the catalogue has no such word.
    pub metadata: Option<WordMetadata>,
}

/// What the caller found out about the requested Root Word.
#[derive(Debug)]
pub struct RootWordFacts {
    pub id: String,
    /// Whether the character knows the word.
    pub known: bool,
    /// Its rune cost, or `None` when the catalogue has no such word.
    pub rune_cost: Option<u32>,
}

/// The gesture a slot's words would modify.
#[derive(Debug)]
pub enum SlotAbility {
    /// The item offers no gesture for the slot.
    NotOffered,
    /// The item names a gesture the ability catalogue does not have.
    Unregistered { ability_id: String },
    /// The gesture exists; the words' `compatible` flags refer to it.
    Registered,
}

/// The words requested for one weapon slot, with the slot's gesture.
#[derive(Debug)]
pub struct SlotWords {
    pub ability: SlotAbility,
    pub words: Vec<WordFacts>,
}

/// A weapon's Root Word inscription, by word id.
#[derive(Debug)]
pub struct RootInscription {
    pub root_word: Option<String>,
    pub primary: Vec<String>,
    pub secondary: Vec<String>,
    pub ultimate: Vec<String>,
}

/// An armor item's inscription, by word id.
#[derive(Debug)]
pub struct ArmorInscription {
    pub root_word: Option<String>,
    pub secondary_words: Vec<String>,
}

// ---------------------------------------------------------------------------
// The rules, stated
// ---------------------------------------------------------------------------

/// The name of a weapon slot as messages print it.
pub open spec fn slot_name(slot: AbilitySlot) -> Seq<char> {
    match slot {
        AbilitySlot::Primary => "Primary"@,
        AbilitySlot::Secondary => "Secondary"@,
        AbilitySlot::Ultimate => "Ultimate"@,
    }
}

/// How many Ancient Words a weapon slot holds.
pub open spec fn max_words(slot: AbilitySlot) -> nat {
    match slot {
        AbilitySlot::Primary => 2,
        AbilitySlot::Secondary => 2,
        AbilitySlot::Ultimate => 1,
    }
}

/// The ids of the requested words.
pub open spec fn word_ids(words: Seq<WordFacts>) -> Seq<Seq<char>> {
    words.map_values(|w: WordFacts| w.id@)
}

/// The exclusive group of the word at `i`, by name.
pub open spec fn group_of(words: Seq<WordFacts>, i: int) -> Option<Seq<char>> {
    match words[i].metadata {
        Some(m) => opt_text(m.exclusive_group),
        None => None,
    }
}

/// Why the word at `i` is refused, given that every earlier word passed:
/// a repeat, a word the character does not know, a word the catalogue lacks,
/// a word that does not suit the gesture (`context` names it), or, when
/// `groups` is set, a second word from an exclusive group.
pub open spec fn word_issue(words: Seq<WordFacts>, i: int, context: Seq<char>, groups: bool) -> Option<
    Seq<char>,
> {
    let id = words[i].id@;
    if exists|j: int| 0 <= j < i && word_ids(words)[j] == id {
        Some("duplicate Ancient Word "@ + debug_quoted(id))
    } else if !words[i].known {
        Some("Ancient Word "@ + debug_quoted(id) + " is not known"@)
    } else if words[i].metadata is None {
        Some("unknown Ancient Word "@ + debug_quoted(id))
    } else if !words[i].metadata->0.compatible {
        Some("Ancient Word "@ + debug_quoted(id) + " is incompatible with "@ + context)
    } else if groups && group_of(words, i) is Some && exists|j: int|
        0 <= j < i && group_of(words, j) == group_of(words, i) {
        Some("Ancient Word conflict in group "@ + group_of(words, i)->0)
    } else {
        None
    }
}

/// The first refused word among the first `n`.
pub open spec fn first_word_issue(words: Seq<WordFacts>, n: nat, context: Seq<char>, groups: bool) -> Option<
    Seq<char>,
>
    decreases n,
{
    if n == 0 {
        None
    } else {
        match first_word_issue(words, (n - 1) as nat, context, groups) {
            Some(e) => Some(e),
            None => word_issue(words, n - 1, context, groups),
        }
    }
}

/// The rune cost of the first `n` words.
pub open spec fn words_cost(words: Seq<WordFacts>, n: nat) -> nat
    decreases n,
{
    if n == 0 {
        0
    } else {
        words_cost(words, (n - 1) as nat) + match words[n - 1].metadata {
            Some(m) => m.rune_cost as nat,
            None => 0,
        }
    }
}

/// Why a weapon slot's request is refused: too many words, no gesture, an
/// unknown gesture, then the first refused word.
pub open spec fn slot_issue(slot: AbilitySlot, request: SlotWords) -> Option<Seq<char>> {
    let words = request.words@;
    if words.len() > max_words(slot) {
        Some(slot_name(slot) + " accepts at most "@ + decimal(max_words(slot)) + " Ancient Words"@)
    } else {
        match request.ability {
            SlotAbility::NotOffered => Some("no ability offered for "@ + slot_name(slot)),
            SlotAbility::Unregistered { ability_id } => Some(
                "unknown ability "@ + debug_quoted(ability_id@),
            ),
            SlotAbility::Registered => first_word_issue(words, words.len(), slot_name(slot), true),
        }
    }
}

/// Why the Root Word is refused: unknown to the character, then missing from
/// the catalogue.
pub open spec fn root_issue(root: Option<RootWordFacts>) -> Option<Seq<char>> {
    match root {
        None => None,
        Some(r) => if !r.known {
            Some("Root Word "@ + debug_quoted(r.id@) + " is not known"@)
        } else if r.rune_cost is None {
            Some("unknown Root Word "@ + debug_quoted(r.id@))
        } else {
            None
        },
    }
}

/// The Root Word's rune cost (zero without one).
pub open spec fn root_cost(root: Option<RootWordFacts>) -> nat {
    match root {
        Some(r) => match r.rune_cost {
            Some(c) => c as nat,
            None => 0,
        },
        None => 0,
    }
}

/// The refusal for an inscription that costs more than the item holds.
pub open spec fn capacity_text(total: nat, capacity: u32) -> Seq<char> {
    "rune capacity exceeded: "@ + decimal(total) + " / "@ + decimal(capacity as nat)
}

/// The total rune cost of a weapon inscription.
pub open spec fn weapon_cost(
    root: Option<RootWordFacts>,
    primary: SlotWords,
    secondary: SlotWords,
    ultimate: SlotWords,
) -> nat {
    root_cost(root) + words_cost(primary.words@, primary.words@.len()) + words_cost(
        secondary.words@,
        secondary.words@.len(),
    ) + words_cost(ultimate.words@, ultimate.words@.len())
}

/// Why a weapon inscription is refused, in the order of the checks: the Root
/// Word, the Primary, Secondary and Ultimate slots, then the capacity.
pub open spec fn weapon_inscription_issue(
    root: Option<RootWordFacts>,
    primary: SlotWords,
    secondary: SlotWords,
    ultimate: SlotWords,
    capacity: u32,
) -> Option<Seq<char>> {
    if root_issue(root) is Some {
        root_issue(root)
    } else if slot_issue(AbilitySlot::Primary, primary) is Some {
        slot_issue(AbilitySlot::Primary, primary)
    } else if slot_issue(AbilitySlot::Secondary, secondary) is Some {
        slot_issue(AbilitySlot::Secondary, secondary)
    } else if slot_issue(AbilitySlot::Ultimate, ultimate) is Some {
        slot_issue(AbilitySlot::Ultimate, ultimate)
    } else if weapon_cost(root, primary, secondary, ultimate) > capacity {
        Some(capacity_text(weapon_cost(root, primary, secondary, ultimate), capacity))
    } else {
        None
    }
}

// ---------------------------------------------------------------------------
// Checking words
// ---------------------------------------------------------------------------

fn seen_id(words: &Vec<WordFacts>, i: usize) -> (r: bool)
    requires
        i < words@.len(),
    ensures
        r == exists|j: int| 0 <= j < i && word_ids(words@)[j] == words@[i as int].id@,
{
    let ghost ids = word_ids(words@);
    let mut j: usize = 0;
    while j < i
        invariant
            j <= i < words@.len(),
            ids == word_ids(words@),
            forall|k: int| 0 <= k < j ==> ids[k] != words@[i as int].id@,
        decreases i - j,
    {
        assert(ids[j as int] == words@[j as int].id@);
        if same_text(words[j].id.as_str(), words[i].id.as_str()) {
            return true;
        }
        j = j + 1;
    }
    false
}

fn group_name(words: &Vec<WordFacts>, i: usize) -> (r: Option<&String>)
    requires
        i < words@.len(),
    ensures
        match r {
            Some(g) => group_of(words@, i as int) == Some(g@),
            None => group_of(words@, i as int) is None,
        },
{
    match &words[i].metadata {
        Some(m) => match &m.exclusive_group {
            Some(g) => Some(g),
            None => None,
        },
        None => None,
    }
}

fn group_seen(words: &Vec<WordFacts>, i: usize, group: &String) -> (r: bool)
    requires
        i < words@.len(),
        group_of(words@, i as int) == Some(group@),
    ensures
        r == exists|j: int| 0 <= j < i && group_of(words@, j) == group_of(words@, i as int),
{
    let mut j: usize = 0;
    while j < i
        invariant
            j <= i < words@.len(),
            group_of(words@, i as int) == Some(group@),
            forall|k: int| 0 <= k < j ==> group_of(words@, k) != group_of(words@, i as int),
        decreases i - j,
    {
        match group_name(words, j) {
            Some(g) => {
                if same_text(g.as_str(), group.as_str()) {
                    return true;
                }
            },
            None => {},
        }
        j = j + 1;
    }
    false
}

fn word_problem(words: &Vec<WordFacts>, i: usize, context: &str, groups: bool) -> (r: Option<String>)
    requires
        i < words@.len(),
    ensures
        opt_text(r) == word_issue(words@, i as int, context@, groups),
{
    proof {
        reveal_strlit("duplicate Ancient Word ");
        reveal_strlit("Ancient Word ");
        reveal_strlit(" is not known");
        reveal_strlit("unknown Ancient Word ");
        reveal_strlit(" is incompatible with ");
        reveal_strlit("Ancient Word conflict in group ");
    }
    let word = &words[i];
    let id = word.id.as_str();
    if seen_id(words, i) {
        return Some(concat(owned("duplicate Ancient Word "), debug_str(id).as_str()));
    }
    if !word.known {
        let text = concat(owned("Ancient Word "), debug_str(id).as_str());
        return Some(concat(text, " is not known"));
    }
    let metadata = match &word.metadata {
        Some(m) => m,
        None => {
            return Some(concat(owned("unknown Ancient Word "), debug_str(id).as_str()));
        },
    };
    if !metadata.compatible {
        let text = concat(owned("Ancient Word "), debug_str(id).as_str());
        let text = concat(text, " is incompatible with ");
        return Some(concat(text, context));
    }
    if groups {
        match group_name(words, i) {
            Some(g) => {
                if group_seen(words, i, g) {
                    return Some(concat(owned("Ancient Word conflict in group "), g.as_str()));
                }
            },
            None => {},
        }
    }
    None
}

fn check_words(words: &Vec<WordFacts>, context: &str, groups: bool) -> (r: Option<String>)
    ensures
        opt_text(r) == first_word_issue(words@, words@.len(), context@, groups),
{
    let mut i: usize = 0;
    while i < words.len()
        invariant
            i <= words@.len(),
            first_word_issue(words@, i as nat, context@, groups) is None,
        decreases words@.len() - i,
    {
        let problem = word_problem(words, i, context, groups);
        if problem.is_some() {
            proof {
                lemma_first_issue_stays(words@, (i + 1) as nat, words@.len(), context@, groups);
            }
            return problem;
        }
        i = i + 1;
    }
    None
}

proof fn lemma_first_issue_stays(words: Seq<WordFacts>, n: nat, m: nat, context: Seq<char>, groups: bool)
    requires
        n <= m,
    ensures
        first_word_issue(words, n, context, groups) is Some ==> first_word_issue(words, m, context, groups)
            == first_word_issue(words, n, context, groups),
    decreases m - n,
{
    if n < m {
        lemma_first_issue_stays(words, n, (m - 1) as nat, context, groups);
    }
}

fn sum_costs(words: &Vec<WordFacts>) -> (total: u64)
    requires
        words@.len() <= 2,
    ensures
        total as nat == words_cost(words@, words@.len()),
        total <= 2 * (u32::MAX as nat),
{
    let mut total: u64 = 0;
    let mut i: usize = 0;
    while i < words.len()
        invariant
            i <= words@.len() <= 2,
            total as nat == words_cost(words@, i as nat),
            total <= i * (u32::MAX as nat),
        decreases words@.len() - i,
    {
        match &words[i].metadata {
            Some(m) => {
                total = total + m.rune_cost as u64;
            },
            None => {},
        }
        i = i + 1;
    }
    total
}

fn copy_ids(words: &Vec<WordFacts>) -> (r: Vec<String>)
    ensures
        r@.len() == words@.len(),
        forall|k: int| 0 <= k < words@.len() ==> #[trigger] r@[k]@ == words@[k].id@,
{
    let mut r: Vec<String> = Vec::new();
    let mut i: usize = 0;
    while i < words.len()
        invariant
            i <= words@.len(),
            r@.len() == i,
            forall|k: int| 0 <= k < i ==> #[trigger] r@[k]@ == words@[k].id@,
        decreases words@.len() - i,
    {
        r.push(words[i].id.clone());
        i = i + 1;
    }
    r
}

fn check_root(root: &Option<RootWordFacts>) -> (r: Result<u64, String>)
    ensures
        match r {
            Ok(cost) => root_issue(*root) is None && cost == root_cost(*root),
            Err(e) => root_issue(*root) == Some(e@),
        },
{
    proof {
        reveal_strlit("Root Word ");
        reveal_strlit(" is not known");
        reveal_strlit("unknown Root Word ");
    }
    match root {
        None => Ok(0),
        Some(facts) => {
            if !facts.known {
                let text = concat(owned("Root Word "), debug_str(facts.id.as_str()).as_str());
                return Err(concat(text, " is not known"));
            }
            match facts.rune_cost {
                Some(c) => Ok(c as u64),
                None => Err(concat(owned("unknown Root Word "), debug_str(facts.id.as_str()).as_str())),
            }
        },
    }
}

fn copy_root_id(root: &Option<RootWordFacts>) -> (r: Option<String>)
    ensures
        opt_text(r) == match *root {
            Some(f) => Some(f.id@),
            None => None,
        },
{
    match root {
        Some(f) => Some(f.id.clone()),
        None => None,
    }
}

fn capacity_message(total: u64, capacity: u32) -> (s: String)
    ensures
        s@ == capacity_text(total as nat, capacity),
{
    proof {
        reveal_strlit("rune capacity exceeded: ");
        reveal_strlit(" / ");
    }
    let text = concat(owned("rune capacity exceeded: "), decimal_string(total).as_str());
    let text = concat(text, " / ");
    concat(text, decimal_string(capacity as u64).as_str())
}

// ---------------------------------------------------------------------------
// Weapons
// ---------------------------------------------------------------------------

fn slot_label(slot: AbilitySlot) -> (s: &'static str)
    ensures
        s@ == slot_name(slot),
{
    proof {
        reveal_strlit("Primary");
        reveal_strlit("Secondary");
        reveal_strlit("Ultimate");
    }
    match slot {
        AbilitySlot::Primary => "Primary",
        AbilitySlot::Secondary => "Secondary",
        AbilitySlot::Ultimate => "Ultimate",
    }
}

fn slot_max(slot: AbilitySlot) -> (n: usize)
    ensures
        n == max_words(slot),
{
    match slot {
        AbilitySlot::Primary => 2,
        AbilitySlot::Secondary => 2,
        AbilitySlot::Ultimate => 1,
    }
}

fn check_slot(slot: AbilitySlot, request: &SlotWords) -> (r: Option<String>)
    ensures
        opt_text(r) == slot_issue(slot, *request),
        r is None ==> request.words@.len() <= max_words(slot),
{
    proof {
        reveal_strlit(" accepts at most ");
        reveal_strlit(" Ancient Words");
        reveal_strlit("no ability offered for ");
        reveal_strlit("unknown ability ");
    }
    let name = slot_label(slot);
    let max = slot_max(slot);
    if request.words.len() > max {
        let text = concat(owned(name), " accepts at most ");
        let text = concat(text, decimal_string(max as u64).as_str());
        return Some(concat(text, " Ancient Words"));
    }
    match &request.ability {
        SlotAbility::NotOffered => Some(concat(owned("no ability offered for "), name)),
        SlotAbility::Unregistered { ability_id } => Some(
            concat(owned("unknown ability "), debug_str(ability_id.as_str()).as_str()),
        ),
        SlotAbility::Registered => check_words(&request.words, name, true),
    }
}

/// Checks a Root Word inscription for the equipped weapon and, when every
/// rule holds, returns it as stored: the Root Word and each slot's words.
///
/// The checks run in order and the first failure is reported: the Root Word
/// (known, then catalogued); then for Primary, Secondary and Ultimate in turn
/// the word count (two, two and one at most), the slot's gesture, and each
/// word (no repeat, known, catalogued, compatible with the gesture, at most
/// one per exclusive group); finally the total rune cost against the
/// weapon's capacity.
pub fn check_root_inscription(
    root: &Option<RootWordFacts>,
    primary: &SlotWords,
    secondary: &SlotWords,
    ultimate: &SlotWords,
    capacity: u32,
) -> (r: Result<RootInscription, String>)
    ensures
        match weapon_inscription_issue(*root, *primary, *secondary, *ultimate, capacity) {
            Some(e) => r is Err && r->Err_0@ == e,
            None => r is Ok && opt_text(r->Ok_0.root_word) == match *root {
                Some(f) => Some(f.id@),
                None => None,
            } && crate::items::texts(r->Ok_0.primary@) == word_ids(primary.words@)
                && crate::items::texts(r->Ok_0.secondary@) == word_ids(secondary.words@)
                && crate::items::texts(r->Ok_0.ultimate@) == word_ids(ultimate.words@),
        },
{
    let root_total = check_root(root)?;
    match check_slot(AbilitySlot::Primary, primary) {
        Some(e) => {
            return Err(e);
        },
        None => {},
    }
    match check_slot(AbilitySlot::Secondary, secondary) {
        Some(e) => {
            return Err(e);
        },
        None => {},
    }
    match check_slot(AbilitySlot::Ultimate, ultimate) {
        Some(e) => {
            return Err(e);
        },
        None => {},
    }
    let total = root_total + sum_costs(&primary.words) + sum_costs(&secondary.words) + sum_costs(
        &ultimate.words,
    );
    if total > capacity as u64 {
        return Err(capacity_message(total, capacity));
    }
    let p = copy_ids(&primary.words);
    let s = copy_ids(&secondary.words);
    let u = copy_ids(&ultimate.words);
    proof {
        assert(crate::items::texts(p@) =~= word_ids(primary.words@));
        assert(crate::items::texts(s@) =~= word_ids(secondary.words@));
        assert(crate::items::texts(u@) =~= word_ids(ultimate.words@));
    }
    Ok(RootInscription { root_word: copy_root_id(root), primary: p, secondary: s, ultimate: u })
}

// ---------------------------------------------------------------------------
// Armor
// ---------------------------------------------------------------------------

/// Whether an equipment slot takes an armor inscription.
pub open spec fn is_armor_slot(slot: EquipSlot) -> bool {
    slot == EquipSlot::Helmet || slot == EquipSlot::Armor || slot == EquipSlot::Shoes
}

/// Parses the equipment slot an armor inscription targets: a known slot
/// name, and one of helmet, armor or shoes.
pub fn check_armor_slot(name: &str) -> (r: Result<EquipSlot, String>)
    ensures
        equip_slot_named(name@) is None ==> (r matches Err(e) && e@ == unknown_equip_slot_text(name@)),
        equip_slot_named(name@) matches Some(s) ==> if is_armor_slot(s) {
            r == Ok::<EquipSlot, String>(s)
        } else {
            r matches Err(e) && e@ == "armor inscriptions are only valid for helmet, armor or shoes"@
        },
{
    let target = parse_equip_slot(name)?;
    match target {
        EquipSlot::Helmet | EquipSlot::Armor | EquipSlot::Shoes => Ok(target),
        _ => {
            proof {
                reveal_strlit("armor inscriptions are only valid for helmet, armor or shoes");
            }
            Err(owned("armor inscriptions are only valid for helmet, armor or shoes"))
        },
    }
}

/// The gesture an armor item's words would modify: its first Primary
/// ability.
#[derive(Debug)]
pub enum ArmorAbility {
    /// The item offers no Primary ability.
    NoPrimary,
    /// The item names an ability the catalogue does not have.
    Unregistered { ability_id: String },
    /// The ability exists; the words' `compatible` flags refer to it.
    Registered,
}

/// Why an armor inscription is refused, in the order of the checks: the Root
/// Word, the word count (two at most), the item's ability, each word (no
/// repeat, known, catalogued, compatible), then the capacity.
pub open spec fn armor_inscription_issue(
    root: Option<RootWordFacts>,
    ability: ArmorAbility,
    words: Seq<WordFacts>,
    capacity: u32,
) -> Option<Seq<char>> {
    if root_issue(root) is Some {
        root_issue(root)
    } else if words.len() > 2 {
        Some("armor accepts at most 2 Ancient Words"@)
    } else {
        match ability {
            ArmorAbility::NoPrimary => Some("armor has no primary ability"@),
            ArmorAbility::Unregistered { ability_id } => Some(
                "unknown armor ability "@ + debug_quoted(ability_id@),
            ),
            ArmorAbility::Registered => if first_word_issue(words, words.len(), "armor"@, false) is Some {
                first_word_issue(words, words.len(), "armor"@, false)
            } else if root_cost(root) + words_cost(words, words.len()) > capacity {
                Some(capacity_text(root_cost(root) + words_cost(words, words.len()), capacity))
            } else {
                None
            },
        }
    }
}

/// Checks the inscription of an equipped armor item and, when every rule
/// holds, returns it as stored. Armor words have no exclusive groups.
pub fn check_armor_inscription(
    root: &Option<RootWordFacts>,
    ability: &ArmorAbility,
    words: &Vec<WordFacts>,
    capacity: u32,
) -> (r: Result<ArmorInscription, String>)
    ensures
        match armor_inscription_issue(*root, *ability, words@, capacity) {
            Some(e) => r is Err && r->Err_0@ == e,
            None => r is Ok && opt_text(r->Ok_0.root_word) == match *root {
                Some(f) => Some(f.id@),
                None => None,
            } && crate::items::texts(r->Ok_0.secondary_words@) == word_ids(words@),
        },
{
    proof {
        reveal_strlit("armor accepts at most 2 Ancient Words");
        reveal_strlit("armor has no primary ability");
        reveal_strlit("unknown armor ability ");
        reveal_strlit("armor");
    }
    let root_total = check_root(root)?;
    if words.len() > 2 {
        return Err(owned("armor accepts at most 2 Ancient Words"));
    }
    match ability {
        ArmorAbility::NoPrimary => {
            return Err(owned("armor has no primary ability"));
        },
        ArmorAbility::Unregistered { ability_id } => {
            return Err(concat(owned("unknown armor ability "), debug_str(ability_id.as_str()).as_str()));
        },
        ArmorAbility::Registered => {},
    }
    match check_words(words, "armor", false) {
        Some(e) => {
            return Err(e);
        },
        None => {},
    }
    let total = root_total + sum_costs(words);
    if total > capacity as u64 {
        return Err(capacity_message(total, capacity));
    }
    let ids = copy_ids(words);
    proof {
        assert(crate::items::texts(ids@) =~= word_ids(words@));
    }
    Ok(ArmorInscription { root_word: copy_root_id(root), secondary_words: ids })
}

// ---------------------------------------------------------------------------
// What an accepted inscription guarantees
// ---------------------------------------------------------------------------

/// A word that passed every check: known, catalogued, and suited to its
/// gesture.
pub open spec fn word_usable(words: Seq<WordFacts>, i: int) -> bool {
    words[i].known && words[i].metadata is Some && words[i].metadata->0.compatible
}

proof fn lemma_no_issue_means_usable(words: Seq<WordFacts>, n: nat, context: Seq<char>, groups: bool)
    requires
        n <= words.len(),
        first_word_issue(words, n, context, groups) is None,
    ensures
        forall|i: int| 0 <= i < n ==> #[trigger] word_usable(words, i) && !(exists|j: int|
            0 <= j < i && word_ids(words)[j] == words[i].id@),
    decreases n,
{
    if n > 0 {
        lemma_no_issue_means_usable(words, (n - 1) as nat, context, groups);
        let last = n - 1;
        assert(word_issue(words, last, context, groups) is None);
        assert(word_usable(words, last));
        assert(!(exists|j: int| 0 <= j < last && word_ids(words)[j] == words[last].id@));
        assert forall|i: int| 0 <= i < n implies #[trigger] word_usable(words, i) && !(exists|j: int|
            0 <= j < i && word_ids(words)[j] == words[i].id@) by {
            if i < last {
            } else {
                assert(i == last);
            }
        }
    }
}

/// An inscription is accepted whole or not at all, and an accepted one fits
/// its weapon: every slot holds at most its number of words, every word is
/// known, catalogued, suited to its gesture and not repeated in its slot,
/// and the total rune cost is within the weapon's capacity.
pub proof fn law_accepted_inscription_fits(
    root: Option<RootWordFacts>,
    primary: SlotWords,
    secondary: SlotWords,
    ultimate: SlotWords,
    capacity: u32,
)
    requires
        weapon_inscription_issue(root, primary, secondary, ultimate, capacity) is None,
    ensures
        weapon_cost(root, primary, secondary, ultimate) <= capacity,
        root_cost(root) + words_cost(primary.words@, primary.words@.len()) + words_cost(
            secondary.words@,
            secondary.words@.len(),
        ) + words_cost(ultimate.words@, ultimate.words@.len()) <= capacity,
        primary.words@.len() <= 2,
        secondary.words@.len() <= 2,
        ultimate.words@.len() <= 1,
        forall|i: int| 0 <= i < primary.words@.len() ==> #[trigger] word_usable(primary.words@, i),
        forall|i: int| 0 <= i < secondary.words@.len() ==> #[trigger] word_usable(secondary.words@, i),
        forall|i: int| 0 <= i < ultimate.words@.len() ==> #[trigger] word_usable(ultimate.words@, i),
{
    lemma_no_issue_means_usable(primary.words@, primary.words@.len(), "Primary"@, true);
    lemma_no_issue_means_usable(secondary.words@, secondary.words@.len(), "Secondary"@, true);
    lemma_no_issue_means_usable(ultimate.words@, ultimate.words@.len(), "Ultimate"@, true);
}

/// An inscription whose words are all acceptable is refused for capacity
/// exactly when the Root Word's cost and the rune costs of every word in
/// the Primary, Secondary and Ultimate slots add up to more than the
/// weapon holds, and the refusal reports that total.
pub proof fn law_every_slot_counts_against_capacity(
    root: Option<RootWordFacts>,
    primary: SlotWords,
    secondary: SlotWords,
    ultimate: SlotWords,
    capacity: u32,
)
    requires
        root_issue(root) is None,
        slot_issue(AbilitySlot::Primary, primary) is None,
        slot_issue(AbilitySlot::Secondary, secondary) is None,
        slot_issue(AbilitySlot::Ultimate, ultimate) is None,
    ensures
        ({
            let total = root_cost(root) + words_cost(primary.words@, primary.words@.len()) + words_cost(
                secondary.words@,
                secondary.words@.len(),
            ) + words_cost(ultimate.words@, ultimate.words@.len());
            &&& total > capacity ==> weapon_inscription_issue(root, primary, secondary, ultimate, capacity)
                == Some(capacity_text(total, capacity))
            &&& total <= capacity ==> weapon_inscription_issue(root, primary, secondary, ultimate, capacity)
                is None
        }),
{
}

/// The same holds of armor: at most two words, each usable, within the
/// item's capacity.
pub proof fn law_accepted_armor_inscription_fits(
    root: Option<RootWordFacts>,
    ability: ArmorAbility,
    words: Seq<WordFacts>,
    capacity: u32,
)
    requires
        armor_inscription_issue(root, ability, words, capacity) is None,
    ensures
        root_cost(root) + words_cost(words, words.len()) <= capacity,
        words.len() <= 2,
        forall|i: int| 0 <= i < words.len() ==> #[trigger] word_usable(words, i),
{
    lemma_no_issue_means_usable(words, words.len(), "armor"@, false);
}

// ---------------------------------------------------------------------------
// The item being inscribed
// ---------------------------------------------------------------------------

/// What an inscription request found out about the item it inscribes.
#[derive(Debug)]
pub struct InscribedItemFacts {
    /// The item in the targeted equipment slot; `None` when it is empty.
    pub item_id: Option<String>,
    /// The catalogue knows the item.
    pub item_known: bool,
    /// The item offers abilities.
    pub has_abilities: bool,
    /// The item has a rune profile (a capacity).
    pub has_rune_profile: bool,
    /// The character's Root Word language exists.
    pub language_initialized: bool,
}

/// Why a weapon inscription request cannot reach the word checks: no weapon,
/// a weapon the catalogue lacks, no ability loadout, no rune profile, no
/// language.
pub open spec fn weapon_item_refusal(f: InscribedItemFacts) -> Option<Seq<char>> {
    if f.item_id is None {
        Some("no weapon equipped"@)
    } else if !f.item_known {
        Some("unknown item "@ + debug_quoted(f.item_id->0@))
    } else if !f.has_abilities {
        Some(debug_quoted(f.item_id->0@) + " has no ability loadout"@)
    } else if !f.has_rune_profile {
        Some(debug_quoted(f.item_id->0@) + " has no rune profile"@)
    } else if !f.language_initialized {
        Some("ancient language has not been initialized for this character"@)
    } else {
        None
    }
}

/// Checks that the equipped weapon can take a Root Word inscription.
pub fn check_weapon_item(facts: &InscribedItemFacts) -> (r: Result<(), String>)
    ensures
        match weapon_item_refusal(*facts) {
            Some(e) => r matches Err(m) && m@ == e,
            None => r is Ok,
        },
{
    proof {
        reveal_strlit("no weapon equipped");
        reveal_strlit("unknown item ");
        reveal_strlit(" has no ability loadout");
        reveal_strlit(" has no rune profile");
        reveal_strlit("ancient language has not been initialized for this character");
    }
    let id = match &facts.item_id {
        Some(id) => id,
        None => {
            return Err(owned("no weapon equipped"));
        },
    };
    if !facts.item_known {
        return Err(concat(owned("unknown item "), debug_str(id.as_str()).as_str()));
    }
    if !facts.has_abilities {
        return Err(concat(debug_str(id.as_str()), " has no ability loadout"));
    }
    if !facts.has_rune_profile {
        return Err(concat(debug_str(id.as_str()), " has no rune profile"));
    }
    if !facts.language_initialized {
        return Err(owned("ancient language has not been initialized for this character"));
    }
    Ok(())
}

/// Why an armor inscription request cannot reach the word checks: an empty
/// slot (named as the player wrote it), an item the catalogue lacks, no
/// armor abilities, no rune profile, no language.
pub open spec fn armor_item_refusal(slot_name: Seq<char>, f: InscribedItemFacts) -> Option<Seq<char>> {
    if f.item_id is None {
        Some("equipment slot "@ + debug_quoted(slot_name) + " is empty"@)
    } else if !f.item_known {
        Some("unknown item "@ + debug_quoted(f.item_id->0@))
    } else if !f.has_abilities {
        Some(debug_quoted(f.item_id->0@) + " has no armor abilities"@)
    } else if !f.has_rune_profile {
        Some(debug_quoted(f.item_id->0@) + " has no rune profile"@)
    } else if !f.language_initialized {
        Some("ancient language has not been initialized"@)
    } else {
        None
    }
}

/// Checks that the armor item in the named slot can take an inscription.
pub fn check_armor_item(slot_name: &str, facts: &InscribedItemFacts) -> (r: Result<(), String>)
    ensures
        match armor_item_refusal(slot_name@, *facts) {
            Some(e) => r matches Err(m) && m@ == e,
            None => r is Ok,
        },
{
    proof {
        reveal_strlit("equipment slot ");
        reveal_strlit(" is empty");
        reveal_strlit("unknown item ");
        reveal_strlit(" has no armor abilities");
        reveal_strlit(" has no rune profile");
        reveal_strlit("ancient language has not been initialized");
    }
    let id = match &facts.item_id {
        Some(id) => id,
        None => {
            let text = concat(owned("equipment slot "), debug_str(slot_name).as_str());
            return Err(concat(text, " is empty"));
        },
    };
    if !facts.item_known {
        return Err(concat(owned("unknown item "), debug_str(id.as_str()).as_str()));
    }
    if !facts.has_abilities {
        return Err(concat(debug_str(id.as_str()), " has no armor abilities"));
    }
    if !facts.has_rune_profile {
        return Err(concat(debug_str(id.as_str()), " has no rune profile"));
    }
    if !facts.language_initialized {
        return Err(owned("ancient language has not been initialized"));
    }
    Ok(())
}

} // verus!
