//! The Q/W/E spell hotbar and which spells the equipped items offer on it.
use vstd::prelude::*;
use crate::items::{opt_text, texts};
use crate::text::{ascii_lower_seq, ascii_lowercase, concat, debug_quoted, debug_str, owned, same_text, trim, trimmed};

verus! {

/// The three hotbar keys.
#[derive(Debug, Clone, Copy, PartialEq, Eq, Structural)]
pub enum HotbarSlot {
    Q,
    W,
    E,
}

/// The spell bound to each key, by spell id.
#[derive(Debug)]
pub struct SpellHotbar {
    pub q_spell: Option<String>,
    pub w_spell: Option<String>,
    pub e_spell: Option<String>,
}

pub ghost struct SpellHotbarView {
    pub q: Option<Seq<char>>,
    pub w: Option<Seq<char>>,
    pub e: Option<Seq<char>>,
}

impl View for SpellHotbar {
    type V = SpellHotbarView;

    open spec fn view(&self) -> SpellHotbarView {
        SpellHotbarView { q: opt_text(self.q_spell), w: opt_text(self.w_spell), e: opt_text(self.e_spell) }
    }
}

impl SpellHotbarView {
    pub open spec fn at(self, key: HotbarSlot) -> Option<Seq<char>> {
        match key {
            HotbarSlot::Q => self.q,
            HotbarSlot::W => self.w,
            HotbarSlot::E => self.e,
        }
    }

    pub open spec fn with(self, key: HotbarSlot, spell: Option<Seq<char>>) -> SpellHotbarView {
        match key {
            HotbarSlot::Q => SpellHotbarView { q: spell, ..self },
            HotbarSlot::W => SpellHotbarView { w: spell, ..self },
            HotbarSlot::E => SpellHotbarView { e: spell, ..self },
        }
    }
}

impl SpellHotbar {
    /// An empty hotbar.
    pub fn empty() -> (r: SpellHotbar)
        ensures
            r@ == (SpellHotbarView { q: None, w: None, e: None }),
    {
        SpellHotbar { q_spell: None, w_spell: None, e_spell: None }
    }

    /// The spell bound to `key`.
    pub fn spell_for_slot(&self, key: HotbarSlot) -> (r: &Option<String>)
        ensures
            opt_text(*r) == self@.at(key),
    {
        match key {
            HotbarSlot::Q => &self.q_spell,
            HotbarSlot::W => &self.w_spell,
            HotbarSlot::E => &self.e_spell,
        }
    }

    /// Binds `spell` to `key`, or clears the key when `spell` is `None`.
    pub fn assign(&mut self, key: HotbarSlot, spell: Option<String>)
        ensures
            final(self)@ == old(self)@.with(key, opt_text(spell)),
    {
        match key {
            HotbarSlot::Q => {
                self.q_spell = spell;
            },
            HotbarSlot::W => {
                self.w_spell = spell;
            },
            HotbarSlot::E => {
                self.e_spell = spell;
            },
        }
    }

    /// Whether `spell_id` is bound to any key.
    pub fn contains(&self, spell_id: &str) -> (b: bool)
        ensures
            b == (self@.q == Some(spell_id@) || self@.w == Some(spell_id@) || self@.e == Some(spell_id@)),
    {
        let q = match &self.q_spell {
            Some(s) => same_text(s.as_str(), spell_id),
            None => false,
        };
        let w = match &self.w_spell {
            Some(s) => same_text(s.as_str(), spell_id),
            None => false,
        };
        let e = match &self.e_spell {
            Some(s) => same_text(s.as_str(), spell_id),
            None => false,
        };
        q || w || e
    }
}

/// The spells the equipped items offer on each key, by spell id.
#[derive(Debug)]
pub struct AvailableSpellChoices {
    pub q: Vec<String>,
    pub w: Vec<String>,
    pub e: Vec<String>,
}

impl AvailableSpellChoices {
    pub open spec fn offered(&self, key: HotbarSlot) -> Seq<Seq<char>> {
        match key {
            HotbarSlot::Q => texts(self.q@),
            HotbarSlot::W => texts(self.w@),
            HotbarSlot::E => texts(self.e@),
        }
    }

    /// Whether `spell_id` is offered on `key`.
    pub fn contains(&self, key: HotbarSlot, spell_id: &str) -> (b: bool)
        ensures
            b == self.offered(key).contains(spell_id@),
    {
        let list = match key {
            HotbarSlot::Q => &self.q,
            HotbarSlot::W => &self.w,
            HotbarSlot::E => &self.e,
        };
        let ghost t = self.offered(key);
        assert(t == texts(list@));
        let mut i: usize = 0;
        while i < list.len()
            invariant
                i <= list@.len(),
                t == texts(list@),
                t == self.offered(key),
                forall|k: int| 0 <= k < i ==> t[k] != spell_id@,
            decreases list@.len() - i,
        {
            if same_text(list[i].as_str(), spell_id) {
                assert(t[i as int] == spell_id@);
                assert(t.contains(spell_id@));
                return true;
            }
            i = i + 1;
        }
        false
    }
}

/// The key `name` spells, trimmed and ignoring ASCII case.
pub open spec fn hotbar_slot_named(name: Seq<char>) -> Option<HotbarSlot> {
    let key = ascii_lower_seq(trim(name));
    if key == "q"@ {
        Some(HotbarSlot::Q)
    } else if key == "w"@ {
        Some(HotbarSlot::W)
    } else if key == "e"@ {
        Some(HotbarSlot::E)
    } else {
        None
    }
}

pub open spec fn unknown_hotbar_slot_text(name: Seq<char>) -> Seq<char> {
    "unknown hotbar slot "@ + debug_quoted(ascii_lower_seq(trim(name))) + "; expected q, w or e"@
}

/// Parses a hotbar key name (`q`, `w` or `e`), trimmed, case-insensitively.
pub fn parse_hotbar_slot(name: &str) -> (r: Result<HotbarSlot, String>)
    ensures
        hotbar_slot_named(name@) matches Some(k) ==> r == Ok::<HotbarSlot, String>(k),
        hotbar_slot_named(name@) is None ==> (r matches Err(e) && e@ == unknown_hotbar_slot_text(name@)),
{
    proof {
        reveal_strlit("q");
        reveal_strlit("w");
        reveal_strlit("e");
    }
    let t = trimmed(name);
    let key = ascii_lowercase(t.as_str());
    if same_text(key.as_str(), "q") {
        Ok(HotbarSlot::Q)
    } else if same_text(key.as_str(), "w") {
        Ok(HotbarSlot::W)
    } else if same_text(key.as_str(), "e") {
        Ok(HotbarSlot::E)
    } else {
        proof {
            reveal_strlit("unknown hotbar slot ");
            reveal_strlit("; expected q, w or e");
        }
        let text = concat(owned("unknown hotbar slot "), debug_str(key.as_str()).as_str());
        Err(concat(text, "; expected q, w or e"))
    }
}

pub open spec fn not_offered_text(spell_id: Seq<char>, slot: Seq<char>) -> Seq<char> {
    debug_quoted(spell_id) + " is not offered on "@ + debug_quoted(slot) + " by your equipped items"@
}

/// Binds `spell_id` to the key named `slot`, or clears it when `spell_id` is
/// `None`. A spell may only be bound to a key its equipped items offer it on.
/// On refusal the hotbar is unchanged.
pub fn assign_hotbar_spell(
    bar: &mut SpellHotbar,
    slot: &str,
    spell_id: Option<String>,
    choices: &AvailableSpellChoices,
) -> (r: Result<(), String>)
    ensures
        hotbar_slot_named(slot@) is None ==> (r matches Err(e) && e@ == unknown_hotbar_slot_text(slot@)
            && final(bar)@ == old(bar)@),
        hotbar_slot_named(slot@) matches Some(key) ==> {
            &&& (spell_id is Some && !choices.offered(key).contains(spell_id->0@)) ==> (r matches Err(e)
                && e@ == not_offered_text(spell_id->0@, slot@) && final(bar)@ == old(bar)@)
            &&& (spell_id is None || choices.offered(key).contains(spell_id->0@)) ==> (r is Ok
                && final(bar)@ == old(bar)@.with(key, opt_text(spell_id)))
        },
{
    let key = parse_hotbar_slot(slot)?;
    if let Some(id) = &spell_id {
        if !choices.contains(key, id.as_str()) {
            proof {
                reveal_strlit(" is not offered on ");
                reveal_strlit(" by your equipped items");
            }
            let text = concat(debug_str(id.as_str()), " is not offered on ");
            let text = concat(text, debug_str(slot).as_str());
            return Err(concat(text, " by your equipped items"));
        }
    }
    bar.assign(key, spell_id);
    Ok(())
}

/// A binding is still valid when the key is empty or its spell is offered.
pub open spec fn binding_offered(bar: SpellHotbarView, choices: AvailableSpellChoices, key: HotbarSlot) -> bool {
    bar.at(key) matches Some(id) ==> choices.offered(key).contains(id)
}

/// The hotbar after dropping every binding the choices no longer offer.
pub open spec fn pruned(bar: SpellHotbarView, choices: AvailableSpellChoices) -> SpellHotbarView {
    SpellHotbarView {
        q: if binding_offered(bar, choices, HotbarSlot::Q) { bar.q } else { None },
        w: if binding_offered(bar, choices, HotbarSlot::W) { bar.w } else { None },
        e: if binding_offered(bar, choices, HotbarSlot::E) { bar.e } else { None },
    }
}

fn prune_key(bar: &mut SpellHotbar, key: HotbarSlot, choices: &AvailableSpellChoices) -> (changed: bool)
    ensures
        binding_offered(old(bar)@, *choices, key) ==> !changed && final(bar)@ == old(bar)@,
        !binding_offered(old(bar)@, *choices, key) ==> changed && final(bar)@ == old(bar)@.with(key, None),
{
    let stale = match bar.spell_for_slot(key) {
        Some(selected) => !choices.contains(key, selected.as_str()),
        None => false,
    };
    if stale {
        bar.assign(key, None);
    }
    stale
}

/// Clears every key whose spell the equipped items no longer offer, and says
/// whether anything changed.
pub fn prune_hotbar_to_available(bar: &mut SpellHotbar, choices: &AvailableSpellChoices) -> (changed: bool)
    ensures
        final(bar)@ == pruned(old(bar)@, *choices),
        changed == (final(bar)@ != old(bar)@),
{
    let q = prune_key(bar, HotbarSlot::Q, choices);
    let w = prune_key(bar, HotbarSlot::W, choices);
    let e = prune_key(bar, HotbarSlot::E, choices);
    q || w || e
}

/// After pruning, every bound key holds a spell that is offered on it.
pub proof fn law_pruned_bindings_are_offered(bar: SpellHotbarView, choices: AvailableSpellChoices, key: HotbarSlot)
    ensures
        binding_offered(pruned(bar, choices), choices, key),
{
}

/// Pruning a pruned hotbar changes nothing.
pub proof fn law_prune_is_idempotent(bar: SpellHotbarView, choices: AvailableSpellChoices)
    ensures
        pruned(pruned(bar, choices), choices) == pruned(bar, choices),
{
}

} // verus!
