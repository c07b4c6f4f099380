//! Characters coming and going: what `join` does with a chosen name, what a
//! new character starts with, and which rows a leaving character owns.
use vstd::prelude::*;
use crate::names::{check_join_name, join_name_length_text, normalized, MAX_NAME_CHARS, MIN_NAME_CHARS};
use crate::rows::KnownGlyphs;
use crate::text::{concat, debug_quoted, debug_str, owned};

verus! {

/// What `join` does for a name that passed the length rule.
#[derive(Debug)]
pub enum JoinOutcome {
    /// The identity already has a character: it comes back online.
    Rejoin,
    /// A new character is created under this lookup key.
    Create { key: String },
}

/// The refusal for a name another character already uses.
pub open spec fn name_taken_text(display_name: Seq<char>) -> Seq<char> {
    "name "@ + debug_quoted(display_name) + " is taken"@
}

/// Decides `join`: the name must be 3 to 16 characters once normalised;
/// then an identity that already has a character simply rejoins; otherwise
/// the name's key must be free, and a character is created under it.
/// `has_character` and `name_taken` are what the database says of the
/// caller's identity and of the name's key.
pub fn join_plan(display_name: &str, has_character: bool, name_taken: bool) -> (r: Result<
    JoinOutcome,
    String,
>)
    ensures
        !(MIN_NAME_CHARS <= normalized(display_name@).len() <= MAX_NAME_CHARS) ==> (r matches Err(e)
            && e@ == join_name_length_text(display_name@)),
        MIN_NAME_CHARS <= normalized(display_name@).len() <= MAX_NAME_CHARS ==> {
            &&& has_character ==> (r matches Ok(JoinOutcome::Rejoin))
            &&& !has_character && name_taken ==> (r matches Err(e) && e@ == name_taken_text(
                display_name@,
            ))
            &&& !has_character && !name_taken ==> (r matches Ok(JoinOutcome::Create { key }) && key@
                == normalized(display_name@))
        },
{
    let key = check_join_name(display_name)?;
    if has_character {
        return Ok(JoinOutcome::Rejoin);
    }
    if name_taken {
        proof {
            reveal_strlit("name ");
            reveal_strlit(" is taken");
        }
        let text = concat(owned("name "), debug_str(display_name).as_str());
        return Err(concat(text, " is taken"));
    }
    Ok(JoinOutcome::Create { key })
}

/// The item every new character finds in its bag.
pub const STARTER_ITEM_ID: &'static str = "magic_staff";

/// The glyphs a new character knows.
pub open spec fn starter_glyph_texts() -> (Seq<Seq<char>>, Seq<Seq<char>>, Seq<Seq<char>>) {
    (
        seq!["fuoco"@, "gelo"@, "terra"@],
        seq!["espandere"@, "amplificare"@, "concentrare"@],
        Seq::empty(),
    )
}

/// The glyph vocabulary a new character starts with: three essences, three
/// modifiers, no ancient words.
pub fn starter_glyphs() -> (k: KnownGlyphs)
    ensures
        crate::items::texts(k.essences@) == starter_glyph_texts().0,
        crate::items::texts(k.modifiers@) == starter_glyph_texts().1,
        crate::items::texts(k.ancient_words@) == starter_glyph_texts().2,
{
    proof {
        reveal_strlit("fuoco");
        reveal_strlit("gelo");
        reveal_strlit("terra");
        reveal_strlit("espandere");
        reveal_strlit("amplificare");
        reveal_strlit("concentrare");
    }
    let essences = vec![owned("fuoco"), owned("gelo"), owned("terra")];
    let modifiers = vec![owned("espandere"), owned("amplificare"), owned("concentrare")];
    let ancient_words: Vec<String> = Vec::new();
    let k = KnownGlyphs { essences, modifiers, ancient_words };
    assert(crate::items::texts(k.essences@) =~= starter_glyph_texts().0);
    assert(crate::items::texts(k.modifiers@) =~= starter_glyph_texts().1);
    assert(crate::items::texts(k.ancient_words@) =~= starter_glyph_texts().2);
    k
}

/// The Root Word language a character knows, by id.
#[derive(Debug)]
pub struct KnownAncientLanguage {
    pub root_words: Vec<String>,
    pub ancient_words: Vec<String>,
    pub base_abilities: Vec<String>,
}

/// The Root Word language a new character starts with: one Root Word, one
/// Ancient Word and one base ability.
pub fn starter_language() -> (l: KnownAncientLanguage)
    ensures
        crate::items::texts(l.root_words@) == seq!["damage"@],
        crate::items::texts(l.ancient_words@) == seq!["amplia"@],
        crate::items::texts(l.base_abilities@) == seq!["arcane_orb"@],
{
    proof {
        reveal_strlit("damage");
        reveal_strlit("amplia");
        reveal_strlit("arcane_orb");
    }
    let l = KnownAncientLanguage {
        root_words: vec![owned("damage")],
        ancient_words: vec![owned("amplia")],
        base_abilities: vec![owned("arcane_orb")],
    };
    assert(crate::items::texts(l.root_words@) =~= seq!["damage"@]);
    assert(crate::items::texts(l.ancient_words@) =~= seq!["amplia"@]);
    assert(crate::items::texts(l.base_abilities@) =~= seq!["arcane_orb"@]);
    l
}

/// A row keyed by `id` that belongs to `owner` (an entity or an identity).
#[derive(Debug, Clone, Copy, PartialEq, Eq, Structural)]
pub struct OwnedRow {
    pub id: u64,
    pub owner: u64,
}

/// The ids of the rows that belong to `owner`, in table order.
pub open spec fn ids_of(rows: Seq<OwnedRow>, owner: u64) -> Seq<u64>
    decreases rows.len(),
{
    if rows.len() == 0 {
        Seq::empty()
    } else {
        let rest = ids_of(rows.drop_last(), owner);
        if rows.last().owner == owner {
            rest.push(rows.last().id)
        } else {
            rest
        }
    }
}

/// The ids of the rows a leaving character owns: they are collected in one
/// pass and deleted in the next.
pub fn ids_owned_by(rows: &[OwnedRow], owner: u64) -> (ids: Vec<u64>)
    ensures
        ids@ == ids_of(rows@, owner),
{
    let mut ids: Vec<u64> = Vec::new();
    let mut i: usize = 0;
    while i < rows.len()
        invariant
            i <= rows@.len(),
            ids@ == ids_of(rows@.subrange(0, i as int), owner),
        decreases rows@.len() - i,
    {
        assert(rows@.subrange(0, i + 1).drop_last() =~= rows@.subrange(0, i as int));
        if rows[i].owner == owner {
            ids.push(rows[i].id);
        }
        i = i + 1;
    }
    assert(rows@.subrange(0, rows@.len() as int) =~= rows@);
    ids
}

/// Every id collected belongs to the owner, and every row of the owner is
/// collected: after the deletions nothing of the character is left.
pub proof fn law_leave_collects_exactly_the_owned_rows(rows: Seq<OwnedRow>, owner: u64, id: u64)
    ensures
        ids_of(rows, owner).contains(id) <==> exists|k: int|
            0 <= k < rows.len() && rows[k].owner == owner && rows[k].id == id,
    decreases rows.len(),
{
    if rows.len() > 0 {
        law_leave_collects_exactly_the_owned_rows(rows.drop_last(), owner, id);
        let rest = ids_of(rows.drop_last(), owner);
        if exists|k: int| 0 <= k < rows.len() && rows[k].owner == owner && rows[k].id == id {
            let k = choose|k: int| 0 <= k < rows.len() && rows[k].owner == owner && rows[k].id == id;
            if k < rows.len() - 1 {
                assert(rows.drop_last()[k] == rows[k]);
            }
        }
        if rows.last().owner == owner {
            assert(rest.push(rows.last().id).contains(id) <==> (rest.contains(id) || rows.last().id == id)) by {
                if rest.push(rows.last().id).contains(id) {
                    let j = choose|j: int| 0 <= j < rest.len() + 1 && rest.push(rows.last().id)[j] == id;
                    if j < rest.len() {
                        assert(rest[j] == id);
                    }
                }
                if rest.contains(id) {
                    let j = choose|j: int| 0 <= j < rest.len() && rest[j] == id;
                    assert(rest.push(rows.last().id)[j] == id);
                }
                assert(rest.push(rows.last().id)[rest.len() as int] == rows.last().id);
            }
        }
        if exists|k: int| 0 <= k < rows.drop_last().len() && rows.drop_last()[k].owner == owner
            && rows.drop_last()[k].id == id {
            let k = choose|k: int| 0 <= k < rows.drop_last().len() && rows.drop_last()[k].owner == owner
                && rows.drop_last()[k].id == id;
            assert(rows[k] == rows.drop_last()[k]);
        }
    }
}

/// A client identity: 256 bits, as two halves.
#[derive(Debug, Clone, Copy, PartialEq, Eq, Structural)]
pub struct Identity {
    pub high: u128,
    pub low: u128,
}

/// A row keyed by `id` that belongs to a client identity.
#[derive(Debug, Clone, Copy, PartialEq, Eq, Structural)]
pub struct IdentityRow {
    pub id: u64,
    pub identity: Identity,
}

/// The ids of the rows that belong to `identity`, in table order.
pub open spec fn identity_ids_of(rows: Seq<IdentityRow>, identity: Identity) -> Seq<u64>
    decreases rows.len(),
{
    if rows.len() == 0 {
        Seq::empty()
    } else {
        let rest = identity_ids_of(rows.drop_last(), identity);
        if rows.last().identity == identity {
            rest.push(rows.last().id)
        } else {
            rest
        }
    }
}

fn ids_of_identity(rows: &[IdentityRow], identity: Identity) -> (ids: Vec<u64>)
    ensures
        ids@ == identity_ids_of(rows@, identity),
{
    let mut ids: Vec<u64> = Vec::new();
    let mut i: usize = 0;
    while i < rows.len()
        invariant
            i <= rows@.len(),
            ids@ == identity_ids_of(rows@.subrange(0, i as int), identity),
        decreases rows@.len() - i,
    {
        assert(rows@.subrange(0, i + 1).drop_last() =~= rows@.subrange(0, i as int));
        if rows[i].identity.high == identity.high && rows[i].identity.low == identity.low {
            ids.push(rows[i].id);
        }
        i = i + 1;
    }
    assert(rows@.subrange(0, rows@.len() as int) =~= rows@);
    ids
}

proof fn lemma_identity_ids_exact(rows: Seq<IdentityRow>, identity: Identity, id: u64)
    ensures
        identity_ids_of(rows, identity).contains(id) <==> exists|k: int|
            0 <= k < rows.len() && rows[k].identity == identity && rows[k].id == id,
    decreases rows.len(),
{
    if rows.len() > 0 {
        lemma_identity_ids_exact(rows.drop_last(), identity, id);
        let rest = identity_ids_of(rows.drop_last(), identity);
        if exists|k: int| 0 <= k < rows.len() && rows[k].identity == identity && rows[k].id == id {
            let k = choose|k: int| 0 <= k < rows.len() && rows[k].identity == identity && rows[k].id == id;
            if k < rows.len() - 1 {
                assert(rows.drop_last()[k] == rows[k]);
            }
        }
        if rows.last().identity == identity {
            let pushed = rest.push(rows.last().id);
            if pushed.contains(id) {
                let j = choose|j: int| 0 <= j < pushed.len() && pushed[j] == id;
                if j < rest.len() {
                    assert(rest[j] == id);
                }
            }
            if rest.contains(id) {
                let j = choose|j: int| 0 <= j < rest.len() && rest[j] == id;
                assert(pushed[j] == id);
            }
            assert(pushed[rest.len() as int] == rows.last().id);
        }
        if exists|k: int| 0 <= k < rows.drop_last().len() && rows.drop_last()[k].identity == identity
            && rows.drop_last()[k].id == id {
            let k = choose|k: int| 0 <= k < rows.drop_last().len() && rows.drop_last()[k].identity
                == identity && rows.drop_last()[k].id == id;
            assert(rows[k] == rows.drop_last()[k]);
        }
    }
}

/// The tables holding one row per character, keyed by the character's
/// entity.
#[derive(Debug, Clone, Copy, PartialEq, Eq, Structural)]
pub enum EntityTable {
    CastState,
    EntityStats,
    GameEntity,
}

/// The tables holding one row per character, keyed by its client identity.
#[derive(Debug, Clone, Copy, PartialEq, Eq, Structural)]
pub enum IdentityTable {
    KnownGlyphs,
    KnownAncientLanguage,
    Equipment,
    Inventory,
    Hotbar,
    PlayerStats,
    Player,
}

/// The rows of the many-per-character tables, as a leave sees them. Each
/// row's owner is the entity it concerns (for threat, the entity the threat
/// is held against).
#[derive(Debug)]
pub struct CharacterRows {
    pub cooldowns: Vec<OwnedRow>,
    pub crowd_control: Vec<OwnedRow>,
    pub active_statuses: Vec<OwnedRow>,
    pub stat_modifiers: Vec<OwnedRow>,
    pub periodic_effects: Vec<OwnedRow>,
    pub threats: Vec<OwnedRow>,
    pub resonances: Vec<IdentityRow>,
}

/// Everything a leave deletes.
#[derive(Debug)]
pub struct LeavePlan {
    pub cooldown_ids: Vec<u64>,
    pub crowd_control_ids: Vec<u64>,
    pub active_status_ids: Vec<u64>,
    pub stat_modifier_ids: Vec<u64>,
    pub periodic_effect_ids: Vec<u64>,
    pub threat_ids: Vec<u64>,
    pub resonance_ids: Vec<u64>,
    /// The entity whose one-per-character rows go.
    pub entity_id: u64,
    /// The identity whose one-per-character rows go.
    pub identity: Identity,
    pub entity_tables: Vec<EntityTable>,
    pub identity_tables: Vec<IdentityTable>,
}

/// What a leave deletes for the character of `identity`, whose entity is
/// `entity_id` (`None` when the identity has no character, in which case a
/// leave does nothing): every row the character owns, in every table, so that
/// its name is free again.
pub fn leave_plan(entity_id: Option<u64>, identity: Identity, rows: &CharacterRows) -> (plan: Option<LeavePlan>)
    ensures
        entity_id is None ==> plan is None,
        entity_id matches Some(e) ==> (plan matches Some(p) && {
            &&& p.entity_id == e
            &&& p.identity == identity
            &&& p.cooldown_ids@ == ids_of(rows.cooldowns@, e)
            &&& p.crowd_control_ids@ == ids_of(rows.crowd_control@, e)
            &&& p.active_status_ids@ == ids_of(rows.active_statuses@, e)
            &&& p.stat_modifier_ids@ == ids_of(rows.stat_modifiers@, e)
            &&& p.periodic_effect_ids@ == ids_of(rows.periodic_effects@, e)
            &&& p.threat_ids@ == ids_of(rows.threats@, e)
            &&& p.resonance_ids@ == identity_ids_of(rows.resonances@, identity)
            &&& forall|t: EntityTable| p.entity_tables@.contains(t)
            &&& forall|t: IdentityTable| p.identity_tables@.contains(t)
        }),
{
    let e = match entity_id {
        Some(e) => e,
        None => {
            return None;
        },
    };
    let entity_tables = vec![EntityTable::CastState, EntityTable::EntityStats, EntityTable::GameEntity];
    let identity_tables = vec![
        IdentityTable::KnownGlyphs,
        IdentityTable::KnownAncientLanguage,
        IdentityTable::Equipment,
        IdentityTable::Inventory,
        IdentityTable::Hotbar,
        IdentityTable::PlayerStats,
        IdentityTable::Player,
    ];
    proof {
        assert forall|t: EntityTable| entity_tables@.contains(t) by {
            match t {
                EntityTable::CastState => assert(entity_tables@[0] == t),
                EntityTable::EntityStats => assert(entity_tables@[1] == t),
                EntityTable::GameEntity => assert(entity_tables@[2] == t),
            }
        }
        assert forall|t: IdentityTable| identity_tables@.contains(t) by {
            match t {
                IdentityTable::KnownGlyphs => assert(identity_tables@[0] == t),
                IdentityTable::KnownAncientLanguage => assert(identity_tables@[1] == t),
                IdentityTable::Equipment => assert(identity_tables@[2] == t),
                IdentityTable::Inventory => assert(identity_tables@[3] == t),
                IdentityTable::Hotbar => assert(identity_tables@[4] == t),
                IdentityTable::PlayerStats => assert(identity_tables@[5] == t),
                IdentityTable::Player => assert(identity_tables@[6] == t),
            }
        }
    }
    Some(
        LeavePlan {
            cooldown_ids: ids_owned_by(rows.cooldowns.as_slice(), e),
            crowd_control_ids: ids_owned_by(rows.crowd_control.as_slice(), e),
            active_status_ids: ids_owned_by(rows.active_statuses.as_slice(), e),
            stat_modifier_ids: ids_owned_by(rows.stat_modifiers.as_slice(), e),
            periodic_effect_ids: ids_owned_by(rows.periodic_effects.as_slice(), e),
            threat_ids: ids_owned_by(rows.threats.as_slice(), e),
            resonance_ids: ids_of_identity(rows.resonances.as_slice(), identity),
            entity_id: e,
            identity,
            entity_tables,
            identity_tables,
        },
    )
}

/// After a leave nothing of the character is left: every row of every
/// many-per-character table that belongs to it is among the ids the plan
/// deletes, and nothing else is; every one-per-character table, entity- or
/// identity-keyed, is cleared for it.
pub proof fn law_leave_removes_every_row_of_the_character(
    rows: CharacterRows,
    entity_id: u64,
    identity: Identity,
    id: u64,
)
    ensures
        ids_of(rows.cooldowns@, entity_id).contains(id) <==> exists|k: int|
            0 <= k < rows.cooldowns@.len() && rows.cooldowns@[k].owner == entity_id && rows.cooldowns@[k].id
                == id,
        ids_of(rows.crowd_control@, entity_id).contains(id) <==> exists|k: int|
            0 <= k < rows.crowd_control@.len() && rows.crowd_control@[k].owner == entity_id
                && rows.crowd_control@[k].id == id,
        ids_of(rows.active_statuses@, entity_id).contains(id) <==> exists|k: int|
            0 <= k < rows.active_statuses@.len() && rows.active_statuses@[k].owner == entity_id
                && rows.active_statuses@[k].id == id,
        ids_of(rows.stat_modifiers@, entity_id).contains(id) <==> exists|k: int|
            0 <= k < rows.stat_modifiers@.len() && rows.stat_modifiers@[k].owner == entity_id
                && rows.stat_modifiers@[k].id == id,
        ids_of(rows.periodic_effects@, entity_id).contains(id) <==> exists|k: int|
            0 <= k < rows.periodic_effects@.len() && rows.periodic_effects@[k].owner == entity_id
                && rows.periodic_effects@[k].id == id,
        ids_of(rows.threats@, entity_id).contains(id) <==> exists|k: int|
            0 <= k < rows.threats@.len() && rows.threats@[k].owner == entity_id && rows.threats@[k].id == id,
        identity_ids_of(rows.resonances@, identity).contains(id) <==> exists|k: int|
            0 <= k < rows.resonances@.len() && rows.resonances@[k].identity == identity
                && rows.resonances@[k].id == id,
{
    law_leave_collects_exactly_the_owned_rows(rows.cooldowns@, entity_id, id);
    law_leave_collects_exactly_the_owned_rows(rows.crowd_control@, entity_id, id);
    law_leave_collects_exactly_the_owned_rows(rows.active_statuses@, entity_id, id);
    law_leave_collects_exactly_the_owned_rows(rows.stat_modifiers@, entity_id, id);
    law_leave_collects_exactly_the_owned_rows(rows.periodic_effects@, entity_id, id);
    law_leave_collects_exactly_the_owned_rows(rows.threats@, entity_id, id);
    lemma_identity_ids_exact(rows.resonances@, identity, id);
}

// ---------------------------------------------------------------------------
// Joining a hosted session
// ---------------------------------------------------------------------------

/// What the server does with a finished character load for a link.
#[derive(Debug, Clone, Copy, PartialEq, Eq, Structural)]
pub enum JoinCompletion {
    /// The link disconnected or stopped waiting meanwhile: drop the result.
    Ignore,
    /// Refuse the link: the load failed, or the character is already in play.
    Disconnect,
    /// Spawn the character for the link.
    Spawn,
}

/// Decides a finished load, in the order the server checks it: a link no
/// longer connected or no longer waiting is ignored; a failed load and a
/// character that is already in play under another link disconnect it;
/// anything else spawns.
pub fn complete_join(still_connected: bool, still_pending: bool, loaded: bool, already_active: bool) -> (c: JoinCompletion)
    ensures
        !still_connected || !still_pending ==> c == JoinCompletion::Ignore,
        still_connected && still_pending && (!loaded || already_active) ==> c == JoinCompletion::Disconnect,
        still_connected && still_pending && loaded && !already_active ==> c == JoinCompletion::Spawn,
{
    if !still_connected || !still_pending {
        JoinCompletion::Ignore
    } else if !loaded || already_active {
        JoinCompletion::Disconnect
    } else {
        JoinCompletion::Spawn
    }
}

/// The hue, in whole degrees, a peer's character is drawn in: the peer's bits
/// times 137 plus 180, wrapping at 64 bits, modulo 360.
pub open spec fn hue_degrees(peer_bits: u64) -> int {
    (((peer_bits as int * 137) % 0x1_0000_0000_0000_0000 + 180) % 0x1_0000_0000_0000_0000) % 360
}

/// The hue of a peer's character, in whole degrees, spread around the wheel
/// so that consecutive peers look different.
pub fn player_hue_degrees(peer_bits: u64) -> (d: u64)
    ensures
        d == hue_degrees(peer_bits),
        d < 360,
{
    let scaled = peer_bits.wrapping_mul(137);
    let shifted = scaled.wrapping_add(180);
    shifted % 360
}

} // verus!
