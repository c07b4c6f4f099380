//! Spell casting decisions: the stored spellings of cast kinds and targeting
//! policies, the names of the ability slots, and what a key press or a key
//! release asks of the cast pipeline.
use vstd::prelude::*;
use crate::hotbar::SpellHotbar;
use crate::items::EquipSlot;
use crate::text::{ascii_lower_seq, ascii_lowercase, concat, debug_quoted, debug_str, owned, same_text, trim, trimmed};

verus! {

/// How a spell is cast.
#[derive(Debug, Clone, Copy, PartialEq, Eq, Structural)]
pub enum CastKind {
    Instant,
    CastTime,
    Channeling,
}

/// How a cast in progress is stored. `Charge` fires on release.
#[derive(Debug, Clone, Copy, PartialEq, Eq, Structural)]
pub enum CastKindRow {
    Instant,
    CastTime,
    Channeling,
    Charge,
}

/// The stored spelling of a cast kind, for the reducers that open a cast.
pub fn cast_kind_row(kind: CastKind) -> (r: CastKindRow)
    ensures
        kind == CastKind::Instant ==> r == CastKindRow::Instant,
        kind == CastKind::CastTime ==> r == CastKindRow::CastTime,
        kind == CastKind::Channeling ==> r == CastKindRow::Channeling,
{
    match kind {
        CastKind::Instant => CastKindRow::Instant,
        CastKind::CastTime => CastKindRow::CastTime,
        CastKind::Channeling => CastKindRow::Channeling,
    }
}

/// Who an area effect may touch.
#[derive(Debug, Clone, Copy, PartialEq, Eq, Structural)]
pub enum AoeTargeting {
    Everyone,
    CasterOnly,
    ExcludeCaster,
}

/// The stored spelling of an area targeting policy.
#[derive(Debug, Clone, Copy, PartialEq, Eq, Structural)]
pub enum AoeTargetingRow {
    Everyone,
    CasterOnly,
    ExcludeCaster,
}

pub open spec fn spec_targeting_row(t: AoeTargeting) -> AoeTargetingRow {
    match t {
        AoeTargeting::Everyone => AoeTargetingRow::Everyone,
        AoeTargeting::CasterOnly => AoeTargetingRow::CasterOnly,
        AoeTargeting::ExcludeCaster => AoeTargetingRow::ExcludeCaster,
    }
}

pub open spec fn spec_targeting_from_row(t: AoeTargetingRow) -> AoeTargeting {
    match t {
        AoeTargetingRow::Everyone => AoeTargeting::Everyone,
        AoeTargetingRow::CasterOnly => AoeTargeting::CasterOnly,
        AoeTargetingRow::ExcludeCaster => AoeTargeting::ExcludeCaster,
    }
}

/// Policy to its stored spelling.
pub fn targeting_row(targeting: AoeTargeting) -> (r: AoeTargetingRow)
    ensures
        r == spec_targeting_row(targeting),
{
    match targeting {
        AoeTargeting::Everyone => AoeTargetingRow::Everyone,
        AoeTargeting::CasterOnly => AoeTargetingRow::CasterOnly,
        AoeTargeting::ExcludeCaster => AoeTargetingRow::ExcludeCaster,
    }
}

/// Stored spelling back to the policy.
pub fn targeting_from_row(row: AoeTargetingRow) -> (r: AoeTargeting)
    ensures
        r == spec_targeting_from_row(row),
{
    match row {
        AoeTargetingRow::Everyone => AoeTargeting::Everyone,
        AoeTargetingRow::CasterOnly => AoeTargeting::CasterOnly,
        AoeTargetingRow::ExcludeCaster => AoeTargeting::ExcludeCaster,
    }
}

/// Storing a targeting policy and reading it back is lossless, both ways.
pub proof fn law_targeting_round_trip(t: AoeTargeting, r: AoeTargetingRow)
    ensures
        spec_targeting_from_row(spec_targeting_row(t)) == t,
        spec_targeting_row(spec_targeting_from_row(r)) == r,
{
}

/// The entities an area region counts as already affected when it is stored:
/// the caster, whenever the policy excludes it or touches only it.
pub fn seeded_affected(targeting: AoeTargeting, caster: u64) -> (r: Vec<u64>)
    ensures
        targeting == AoeTargeting::Everyone ==> r@ == Seq::<u64>::empty(),
        targeting != AoeTargeting::Everyone ==> r@ == seq![caster],
{
    let mut r: Vec<u64> = Vec::new();
    match targeting {
        AoeTargeting::Everyone => {},
        AoeTargeting::ExcludeCaster | AoeTargeting::CasterOnly => {
            r.push(caster);
        },
    }
    assert(targeting != AoeTargeting::Everyone ==> r@ =~= seq![caster]);
    r
}

/// Whether an area request is stored as a region rather than resolved on
/// the spot: only a circle with a lifetime and at least one effect is; a
/// region with no lifetime would expire on the next step anyway, and the
/// stored shape cannot describe a cone's aperture.
pub fn region_persistable(has_lifetime: bool, is_circle: bool, has_effects: bool) -> (b: bool)
    ensures
        b == (has_lifetime && is_circle && has_effects),
{
    if !has_lifetime {
        return false;
    }
    if !is_circle {
        return false;
    }
    has_effects
}

/// Which statuses a cleanse or purge considers.
#[derive(Debug, Clone, Copy, PartialEq, Eq, Structural)]
pub enum StatusFilter {
    Buffs,
    Debuffs,
    All,
}

#[derive(Debug, Clone, Copy, PartialEq, Eq, Structural)]
pub enum EffectPayloadFilterRow {
    Buffs,
    Debuffs,
    All,
}

/// Stored filter to the effect filter.
pub fn status_filter(filter: EffectPayloadFilterRow) -> (r: StatusFilter)
    ensures
        filter == EffectPayloadFilterRow::Buffs ==> r == StatusFilter::Buffs,
        filter == EffectPayloadFilterRow::Debuffs ==> r == StatusFilter::Debuffs,
        filter == EffectPayloadFilterRow::All ==> r == StatusFilter::All,
{
    match filter {
        EffectPayloadFilterRow::Buffs => StatusFilter::Buffs,
        EffectPayloadFilterRow::Debuffs => StatusFilter::Debuffs,
        EffectPayloadFilterRow::All => StatusFilter::All,
    }
}

/// Which of the matching statuses a cleanse or purge removes.
#[derive(Debug, Clone, Copy, PartialEq, Eq, Structural)]
pub enum StatusSelection {
    Oldest,
    Newest,
    ShortestRemaining,
}

#[derive(Debug, Clone, Copy, PartialEq, Eq, Structural)]
pub enum EffectPayloadSelectionRow {
    Oldest,
    Newest,
    ShortestRemaining,
}

/// Stored selection to the effect selection.
pub fn status_selection(selection: EffectPayloadSelectionRow) -> (r: StatusSelection)
    ensures
        selection == EffectPayloadSelectionRow::Oldest ==> r == StatusSelection::Oldest,
        selection == EffectPayloadSelectionRow::Newest ==> r == StatusSelection::Newest,
        selection == EffectPayloadSelectionRow::ShortestRemaining ==> r == StatusSelection::ShortestRemaining,
{
    match selection {
        EffectPayloadSelectionRow::Oldest => StatusSelection::Oldest,
        EffectPayloadSelectionRow::Newest => StatusSelection::Newest,
        EffectPayloadSelectionRow::ShortestRemaining => StatusSelection::ShortestRemaining,
    }
}

/// Whether a stat modifier is declared a buff or a debuff.
#[derive(Debug, Clone, Copy, PartialEq, Eq, Structural)]
pub enum ModifierKind {
    Buff,
    Debuff,
}

#[derive(Debug, Clone, Copy, PartialEq, Eq, Structural)]
pub enum ModifierKindRow {
    Buff,
    Debuff,
}

/// Carries the declared buff/debuff label into the row; it is never inferred
/// from the sign of the value.
pub fn modifier_row_kind(kind: ModifierKind) -> (r: ModifierKindRow)
    ensures
        kind == ModifierKind::Buff ==> r == ModifierKindRow::Buff,
        kind == ModifierKind::Debuff ==> r == ModifierKindRow::Debuff,
{
    match kind {
        ModifierKind::Buff => ModifierKindRow::Buff,
        ModifierKind::Debuff => ModifierKindRow::Debuff,
    }
}

// ---------------------------------------------------------------------------
// Ability slots
// ---------------------------------------------------------------------------

/// The gameplay role of an Eidolon gesture slot.
#[derive(Debug, Clone, Copy, PartialEq, Eq, Structural)]
pub enum AbilitySlot {
    Primary,
    Secondary,
    Ultimate,
}

/// The slot a lower-cased name spells.
pub open spec fn ability_slot_for(key: Seq<char>) -> Option<AbilitySlot> {
    if key == "primary"@ {
        Some(AbilitySlot::Primary)
    } else if key == "secondary"@ {
        Some(AbilitySlot::Secondary)
    } else if key == "ultimate"@ {
        Some(AbilitySlot::Ultimate)
    } else {
        None
    }
}

pub open spec fn unknown_ability_slot_text(key: Seq<char>) -> Seq<char> {
    "unknown ability slot "@ + debug_quoted(key) + "; expected primary, secondary or ultimate"@
}

fn ability_slot_of_key(key: &str) -> (r: Result<AbilitySlot, String>)
    ensures
        ability_slot_for(key@) matches Some(s) ==> r == Ok::<AbilitySlot, String>(s),
        ability_slot_for(key@) is None ==> (r matches Err(e) && e@ == unknown_ability_slot_text(key@)),
{
    proof {
        reveal_strlit("primary");
        reveal_strlit("secondary");
        reveal_strlit("ultimate");
    }
    if same_text(key, "primary") {
        Ok(AbilitySlot::Primary)
    } else if same_text(key, "secondary") {
        Ok(AbilitySlot::Secondary)
    } else if same_text(key, "ultimate") {
        Ok(AbilitySlot::Ultimate)
    } else {
        proof {
            reveal_strlit("unknown ability slot ");
            reveal_strlit("; expected primary, secondary or ultimate");
        }
        let text = concat(owned("unknown ability slot "), debug_str(key).as_str());
        Err(concat(text, "; expected primary, secondary or ultimate"))
    }
}

/// Parses an ability slot name case-insensitively, as the cast reducers take
/// it (no trimming).
pub fn parse_slot(slot: &str) -> (r: Result<AbilitySlot, String>)
    ensures
        ability_slot_for(ascii_lower_seq(slot@)) matches Some(s) ==> r == Ok::<AbilitySlot, String>(s),
        ability_slot_for(ascii_lower_seq(slot@)) is None ==> (r matches Err(e) && e@
            == unknown_ability_slot_text(ascii_lower_seq(slot@))),
{
    let key = ascii_lowercase(slot);
    ability_slot_of_key(key.as_str())
}

/// Parses an ability slot name trimmed and case-insensitively, as the
/// inscription reducers take it.
pub fn parse_ability_slot(name: &str) -> (r: Result<AbilitySlot, String>)
    ensures
        ability_slot_for(ascii_lower_seq(trim(name@))) matches Some(s) ==> r == Ok::<AbilitySlot, String>(s),
        ability_slot_for(ascii_lower_seq(trim(name@))) is None ==> (r matches Err(e) && e@
            == unknown_ability_slot_text(ascii_lower_seq(trim(name@)))),
{
    let t = trimmed(name);
    let key = ascii_lowercase(t.as_str());
    ability_slot_of_key(key.as_str())
}

/// Why an inscribed gesture cannot be cast.
#[derive(Debug, Clone, Copy, PartialEq, Eq, Structural)]
pub enum CastBlockedReason {
    UnknownGlyph,
    MissingRegistryEntry,
    UnknownRootWord,
    UnknownAncientWord,
    IncompatibleAncientWord,
}

pub open spec fn block_text(reason: CastBlockedReason) -> Seq<char> {
    match reason {
        CastBlockedReason::UnknownGlyph => "you do not know every glyph inscribed on that slot"@,
        CastBlockedReason::MissingRegistryEntry => "that gesture no longer exists in the registry"@,
        CastBlockedReason::UnknownRootWord => "that slot uses an unknown or unavailable Root Word"@,
        CastBlockedReason::UnknownAncientWord => "that slot uses an unknown or unavailable Ancient Word"@,
        CastBlockedReason::IncompatibleAncientWord => "an Ancient Word is incompatible with the selected gesture"@,
    }
}

/// The player-facing explanation of a blocked cast.
pub fn describe_block(reason: CastBlockedReason) -> (s: String)
    ensures
        s@ == block_text(reason),
{
    proof {
        reveal_strlit("you do not know every glyph inscribed on that slot");
        reveal_strlit("that gesture no longer exists in the registry");
        reveal_strlit("that slot uses an unknown or unavailable Root Word");
        reveal_strlit("that slot uses an unknown or unavailable Ancient Word");
        reveal_strlit("an Ancient Word is incompatible with the selected gesture");
    }
    match reason {
        CastBlockedReason::UnknownGlyph => owned("you do not know every glyph inscribed on that slot"),
        CastBlockedReason::MissingRegistryEntry => owned("that gesture no longer exists in the registry"),
        CastBlockedReason::UnknownRootWord => owned("that slot uses an unknown or unavailable Root Word"),
        CastBlockedReason::UnknownAncientWord => owned("that slot uses an unknown or unavailable Ancient Word"),
        CastBlockedReason::IncompatibleAncientWord => owned("an Ancient Word is incompatible with the selected gesture"),
    }
}

// ---------------------------------------------------------------------------
// Releasing a key
// ---------------------------------------------------------------------------

/// What releasing a spell key does to the caster's cast.
#[derive(Debug, Clone, Copy, PartialEq, Eq, Structural)]
pub enum ReleaseAction {
    /// No cast of that spell is running: nothing to do (not an error, the tick
    /// may have finished it first).
    Nothing,
    /// A channel that is released has completed.
    Complete,
    /// A charge fires on release.
    FireCharge,
    /// Anything else released is treated as an interruption.
    Interrupt,
}

/// What a key release does, given the caster's running cast (its kind and
/// whether it is the released spell).
pub fn release_action(running: Option<(CastKindRow, bool)>) -> (a: ReleaseAction)
    ensures
        running is None ==> a == ReleaseAction::Nothing,
        running matches Some((_, false)) ==> a == ReleaseAction::Nothing,
        running == Some((CastKindRow::Channeling, true)) ==> a == ReleaseAction::Complete,
        running == Some((CastKindRow::Charge, true)) ==> a == ReleaseAction::FireCharge,
        running == Some((CastKindRow::Instant, true)) ==> a == ReleaseAction::Interrupt,
        running == Some((CastKindRow::CastTime, true)) ==> a == ReleaseAction::Interrupt,
{
    match running {
        None => ReleaseAction::Nothing,
        Some((kind, same_spell)) => {
            if !same_spell {
                ReleaseAction::Nothing
            } else {
                match kind {
                    CastKindRow::Channeling => ReleaseAction::Complete,
                    CastKindRow::Charge => ReleaseAction::FireCharge,
                    _ => ReleaseAction::Interrupt,
                }
            }
        },
    }
}

// ---------------------------------------------------------------------------
// Pressing a key (client side)
// ---------------------------------------------------------------------------

/// What the client sends when a hotbar key with a spell bound is pressed.
#[derive(Debug, Clone, Copy, PartialEq, Eq, Structural)]
pub enum KeyPressAction {
    /// Nothing: the spell is cooling down.
    Skip,
    /// Ask the server to end the channel of this spell.
    SendRelease,
    /// Ask the server to cast; `start_hud_cooldown` says whether the HUD starts
    /// its cooldown display now.
    SendCast { start_hud_cooldown: bool },
}

/// The press-to-toggle rule: a channel already running for this spell is
/// released; otherwise a spell off cooldown is cast, and the HUD cooldown
/// starts at once for channels and instants (a cast-time spell starts it when
/// the cast completes).
pub fn key_press_action(kind: CastKind, channeling_this_spell: bool, on_cooldown: bool) -> (a: KeyPressAction)
    ensures
        kind == CastKind::Channeling && channeling_this_spell ==> a == KeyPressAction::SendRelease,
        !(kind == CastKind::Channeling && channeling_this_spell) && on_cooldown ==> a == KeyPressAction::Skip,
        !(kind == CastKind::Channeling && channeling_this_spell) && !on_cooldown ==> a
            == (KeyPressAction::SendCast { start_hud_cooldown: kind != CastKind::CastTime }),
{
    if let CastKind::Channeling = kind {
        if channeling_this_spell {
            return KeyPressAction::SendRelease;
        }
        if on_cooldown {
            return KeyPressAction::Skip;
        }
        return KeyPressAction::SendCast { start_hud_cooldown: true };
    }
    if on_cooldown {
        return KeyPressAction::Skip;
    }
    KeyPressAction::SendCast { start_hud_cooldown: matches!(kind, CastKind::Instant) }
}

// ---------------------------------------------------------------------------
// Validating a cast request
// ---------------------------------------------------------------------------

/// What the cast reducer knows about the caster and the spell before it
/// checks the aim.
#[derive(Debug, Clone, Copy, PartialEq, Eq, Structural)]
pub struct CastConditions {
    pub caster_dead: bool,
    pub spell_known: bool,
    pub on_cooldown: bool,
    pub casting_blocked: bool,
}

/// Why a cast request is refused, in the order the checks run: a dead caster,
/// an unknown spell, a spell not on the hotbar, a spell cooling down, crowd
/// control. `None` when the request may go on to the range check.
pub open spec fn cast_refusal(spell_id: Seq<char>, on_hotbar: bool, c: CastConditions) -> Option<Seq<char>> {
    if c.caster_dead {
        Some("dead characters do not cast"@)
    } else if !c.spell_known {
        Some("unknown spell "@ + debug_quoted(spell_id))
    } else if !on_hotbar {
        Some(debug_quoted(spell_id) + " is not on the hotbar"@)
    } else if c.on_cooldown {
        Some(debug_quoted(spell_id) + " is on cooldown"@)
    } else if c.casting_blocked {
        Some("you cannot cast right now"@)
    } else {
        None
    }
}

/// Players cast what is on their hotbar and nothing else.
pub fn check_cast_request(spell_id: &str, hotbar: &SpellHotbar, conditions: CastConditions) -> (r: Result<(), String>)
    ensures
        ({
            let on_hotbar = hotbar@.q == Some(spell_id@) || hotbar@.w == Some(spell_id@) || hotbar@.e == Some(spell_id@);
            match cast_refusal(spell_id@, on_hotbar, conditions) {
                Some(reason) => r matches Err(e) && e@ == reason,
                None => r is Ok,
            }
        }),
{
    if conditions.caster_dead {
        proof {
            reveal_strlit("dead characters do not cast");
        }
        return Err(owned("dead characters do not cast"));
    }
    if !conditions.spell_known {
        proof {
            reveal_strlit("unknown spell ");
        }
        return Err(concat(owned("unknown spell "), debug_str(spell_id).as_str()));
    }
    if !hotbar.contains(spell_id) {
        proof {
            reveal_strlit(" is not on the hotbar");
        }
        return Err(concat(debug_str(spell_id), " is not on the hotbar"));
    }
    if conditions.on_cooldown {
        proof {
            reveal_strlit(" is on cooldown");
        }
        return Err(concat(debug_str(spell_id), " is on cooldown"));
    }
    if conditions.casting_blocked {
        proof {
            reveal_strlit("you cannot cast right now");
        }
        return Err(owned("you cannot cast right now"));
    }
    Ok(())
}

// ---------------------------------------------------------------------------
// Armor casts
// ---------------------------------------------------------------------------

/// Where a cast in progress came from: a hotbar spell, the weapon's Eidolon
/// gestures, or a piece of armor.
#[derive(Debug, Clone, Copy, PartialEq, Eq, Structural)]
pub enum CastSourceRow {
    Spell,
    Eidolon,
    Helmet,
    Armor,
    Shoes,
}

/// The armor slot a lower-cased name spells, with its aliases.
pub open spec fn armor_slot_for(key: Seq<char>) -> Option<EquipSlot> {
    if key == "helmet"@ {
        Some(EquipSlot::Helmet)
    } else if key == "armor"@ || key == "chest"@ || key == "chestplate"@ {
        Some(EquipSlot::Armor)
    } else if key == "shoes"@ || key == "boots"@ {
        Some(EquipSlot::Shoes)
    } else {
        None
    }
}

/// Parses the armor slot an armor cast names, case-insensitively:
/// `helmet`; `armor`, `chest` or `chestplate`; `shoes` or `boots`.
pub fn parse_armor_slot(name: &str) -> (r: Result<EquipSlot, String>)
    ensures
        armor_slot_for(ascii_lower_seq(name@)) matches Some(s) ==> r == Ok::<EquipSlot, String>(s),
        armor_slot_for(ascii_lower_seq(name@)) is None ==> (r matches Err(e) && e@ == "unknown armor slot "@
            + debug_quoted(ascii_lower_seq(name@))),
{
    proof {
        reveal_strlit("helmet");
        reveal_strlit("armor");
        reveal_strlit("chest");
        reveal_strlit("chestplate");
        reveal_strlit("shoes");
        reveal_strlit("boots");
        reveal_strlit("unknown armor slot ");
    }
    let key = ascii_lowercase(name);
    let k = key.as_str();
    if same_text(k, "helmet") {
        Ok(EquipSlot::Helmet)
    } else if same_text(k, "armor") || same_text(k, "chest") || same_text(k, "chestplate") {
        Ok(EquipSlot::Armor)
    } else if same_text(k, "shoes") || same_text(k, "boots") {
        Ok(EquipSlot::Shoes)
    } else {
        Err(concat(owned("unknown armor slot "), debug_str(k).as_str()))
    }
}

/// The cast source of an armor slot; only helmet, armor and shoes cast.
pub fn armor_cast_source(slot: EquipSlot) -> (r: Result<CastSourceRow, String>)
    ensures
        slot == EquipSlot::Helmet ==> r == Ok::<CastSourceRow, String>(CastSourceRow::Helmet),
        slot == EquipSlot::Armor ==> r == Ok::<CastSourceRow, String>(CastSourceRow::Armor),
        slot == EquipSlot::Shoes ==> r == Ok::<CastSourceRow, String>(CastSourceRow::Shoes),
        !(slot == EquipSlot::Helmet || slot == EquipSlot::Armor || slot == EquipSlot::Shoes) ==> (r matches Err(
            e,
        ) && e@ == "invalid armor source"@),
{
    match slot {
        EquipSlot::Helmet => Ok(CastSourceRow::Helmet),
        EquipSlot::Armor => Ok(CastSourceRow::Armor),
        EquipSlot::Shoes => Ok(CastSourceRow::Shoes),
        _ => {
            proof {
                reveal_strlit("invalid armor source");
            }
            Err(owned("invalid armor source"))
        },
    }
}

// ---------------------------------------------------------------------------
// Opening a cast
// ---------------------------------------------------------------------------

/// How an ability or spell is cast, with what a channel does when the
/// caster moves.
#[derive(Debug, Clone, Copy, PartialEq, Eq, Structural)]
pub enum CastMode {
    Instant,
    CastTime,
    Channeling { interrupts_on_move: bool },
}

/// The cast a request opens, when it does not resolve on the spot.
#[derive(Debug, Clone, Copy, PartialEq, Eq, Structural)]
pub struct OpenCast {
    pub kind: CastKindRow,
    /// Whether the caster is stopped where they stand.
    pub stop_caster: bool,
    /// Whether the cooldown starts on the press rather than on completion.
    pub cooldown_on_press: bool,
    /// Whether the channel starts armed, so its first tick lands on the next
    /// simulation step.
    pub armed: bool,
    /// Whether moving cancels the cast.
    pub interrupts_on_move: bool,
}

/// Whether a source is an item's ability rather than a hotbar spell.
pub open spec fn is_ability_source(source: CastSourceRow) -> bool {
    source != CastSourceRow::Spell
}

/// Whether a source is a piece of armor.
pub open spec fn is_armor_source(source: CastSourceRow) -> bool {
    source == CastSourceRow::Helmet || source == CastSourceRow::Armor || source == CastSourceRow::Shoes
}

/// The cast a request opens: `None` for an instant, which resolves at once.
/// A wind-up stops the caster and always breaks on movement; an ability
/// whose blueprint charges opens a charge instead, fired on release. A
/// channel starts armed, starts its cooldown on the press, breaks on
/// movement as its policy says, and stops the caster only for armor.
/// Hotbar spells have no charge, and store no movement rule for a wind-up.
pub open spec fn cast_opening(source: CastSourceRow, mode: CastMode, charge: bool) -> Option<OpenCast> {
    match mode {
        CastMode::Instant => None,
        CastMode::CastTime => Some(
            OpenCast {
                kind: if is_ability_source(source) && charge {
                    CastKindRow::Charge
                } else {
                    CastKindRow::CastTime
                },
                stop_caster: true,
                cooldown_on_press: false,
                armed: false,
                interrupts_on_move: is_ability_source(source),
            },
        ),
        CastMode::Channeling { interrupts_on_move } => Some(
            OpenCast {
                kind: CastKindRow::Channeling,
                stop_caster: is_armor_source(source),
                cooldown_on_press: true,
                armed: true,
                interrupts_on_move,
            },
        ),
    }
}

/// What a cast request opens, by source, cast mode and whether the ability
/// charges.
pub fn open_cast(source: CastSourceRow, mode: CastMode, charge: bool) -> (r: Option<OpenCast>)
    ensures
        r == cast_opening(source, mode, charge),
{
    let ability = match source {
        CastSourceRow::Spell => false,
        _ => true,
    };
    let armor = match source {
        CastSourceRow::Helmet | CastSourceRow::Armor | CastSourceRow::Shoes => true,
        _ => false,
    };
    match mode {
        CastMode::Instant => None,
        CastMode::CastTime => Some(
            OpenCast {
                kind: if ability && charge {
                    CastKindRow::Charge
                } else {
                    CastKindRow::CastTime
                },
                stop_caster: true,
                cooldown_on_press: false,
                armed: false,
                interrupts_on_move: ability,
            },
        ),
        CastMode::Channeling { interrupts_on_move } => Some(
            OpenCast {
                kind: CastKindRow::Channeling,
                stop_caster: armor,
                cooldown_on_press: true,
                armed: true,
                interrupts_on_move,
            },
        ),
    }
}

// ---------------------------------------------------------------------------
// Advancing a cast
// ---------------------------------------------------------------------------

/// Whether moving cancels a stored cast of this kind: a wind-up or a charge
/// always does, a channel as its stored policy says, an instant never.
pub open spec fn movement_cancels(kind: CastKindRow, channel_movement_interrupts: bool) -> bool {
    match kind {
        CastKindRow::CastTime | CastKindRow::Charge => true,
        CastKindRow::Channeling => channel_movement_interrupts,
        CastKindRow::Instant => false,
    }
}

/// What the simulation step measured about one cast in progress.
#[derive(Debug, Clone, Copy, PartialEq, Eq, Structural)]
pub struct CastTickFacts {
    /// The caster still exists.
    pub caster_present: bool,
    pub caster_alive: bool,
    /// Crowd control stops the caster casting.
    pub casting_blocked: bool,
    /// The caster has left the point where the cast started.
    pub moved: bool,
    /// The stored spell id names a known spell (only read for hotbar spells).
    pub spell_known: bool,
    /// The elapsed time, this step included, has reached the required time.
    pub due: bool,
    /// The channel has a duration and has run it.
    pub channel_complete: bool,
}

/// What one simulation step does to a cast in progress.
#[derive(Debug, Clone, Copy, PartialEq, Eq, Structural)]
pub enum CastAdvance {
    /// The cast ends now; `interrupted` says whether it was cut short.
    End { interrupted: bool },
    /// Nothing fires; the cast keeps its new elapsed time.
    Wait,
    /// The wind-up is done: fire once, then end.
    FireAndEnd,
    /// Fire the channel ticks that came due; end the channel when `finish`.
    TickChannel { finish: bool },
}

/// One step of a stored cast. A missing, dead or crowd-controlled caster, or
/// one that moved when movement cancels, ends it interrupted. Otherwise a
/// wind-up fires when due, a channel ticks until complete, an ability's
/// charge waits for the release, a hotbar spell whose id is unknown is
/// cancelled, a hotbar spell stored as a charge is closed, and an instant,
/// which never opens a stored cast, is closed as completed: instant casts
/// are never interruptions.
pub open spec fn cast_step(
    source: CastSourceRow,
    kind: CastKindRow,
    channel_movement_interrupts: bool,
    facts: CastTickFacts,
) -> CastAdvance {
    if !facts.caster_present || !facts.caster_alive || facts.casting_blocked {
        CastAdvance::End { interrupted: true }
    } else if movement_cancels(kind, channel_movement_interrupts) && facts.moved {
        CastAdvance::End { interrupted: true }
    } else {
        match kind {
            CastKindRow::Instant => CastAdvance::End { interrupted: false },
            CastKindRow::CastTime => if !is_ability_source(source) && !facts.spell_known {
                CastAdvance::End { interrupted: true }
            } else if facts.due {
                CastAdvance::FireAndEnd
            } else {
                CastAdvance::Wait
            },
            CastKindRow::Channeling => if !is_ability_source(source) && !facts.spell_known {
                CastAdvance::End { interrupted: true }
            } else {
                CastAdvance::TickChannel { finish: facts.channel_complete }
            },
            CastKindRow::Charge => if is_ability_source(source) {
                CastAdvance::Wait
            } else {
                CastAdvance::End { interrupted: false }
            },
        }
    }
}

/// Decides what one simulation step does to a stored cast.
pub fn advance_cast(
    source: CastSourceRow,
    kind: CastKindRow,
    channel_movement_interrupts: bool,
    facts: CastTickFacts,
) -> (a: CastAdvance)
    ensures
        a == cast_step(source, kind, channel_movement_interrupts, facts),
{
    if !facts.caster_present || !facts.caster_alive || facts.casting_blocked {
        return CastAdvance::End { interrupted: true };
    }
    let cancels = match kind {
        CastKindRow::CastTime | CastKindRow::Charge => true,
        CastKindRow::Channeling => channel_movement_interrupts,
        CastKindRow::Instant => false,
    };
    if cancels && facts.moved {
        return CastAdvance::End { interrupted: true };
    }
    let ability = match source {
        CastSourceRow::Spell => false,
        _ => true,
    };
    match kind {
        CastKindRow::Instant => CastAdvance::End { interrupted: false },
        CastKindRow::CastTime => {
            if !ability && !facts.spell_known {
                CastAdvance::End { interrupted: true }
            } else if facts.due {
                CastAdvance::FireAndEnd
            } else {
                CastAdvance::Wait
            }
        },
        CastKindRow::Channeling => {
            if !ability && !facts.spell_known {
                CastAdvance::End { interrupted: true }
            } else {
                CastAdvance::TickChannel { finish: facts.channel_complete }
            }
        },
        CastKindRow::Charge => {
            if ability {
                CastAdvance::Wait
            } else {
                CastAdvance::End { interrupted: false }
            }
        },
    }
}

/// Whether a wind-up that fired ends as an interruption: an ability whose
/// resolution failed at completion (its equipment changed mid-cast) does; a
/// hotbar spell never does.
pub fn wind_up_interrupted(source: CastSourceRow, fired: bool) -> (interrupted: bool)
    ensures
        interrupted == (is_ability_source(source) && !fired),
{
    match source {
        CastSourceRow::Spell => false,
        _ => !fired,
    }
}

/// A cast cut short stays cut short: whatever else holds, a caster who has
/// died or is crowd-controlled never has a cast fire or tick.
pub proof fn law_blocked_casters_never_fire(
    source: CastSourceRow,
    kind: CastKindRow,
    channel_movement_interrupts: bool,
    facts: CastTickFacts,
)
    requires
        !facts.caster_alive || facts.casting_blocked || !facts.caster_present,
    ensures
        cast_step(source, kind, channel_movement_interrupts, facts) == (CastAdvance::End {
            interrupted: true,
        }),
{
}

/// Instant casts are never interruptions: a stored instant whose caster can
/// still act is closed as completed.
pub proof fn law_instant_casts_are_never_interruptions(
    source: CastSourceRow,
    channel_movement_interrupts: bool,
    facts: CastTickFacts,
)
    requires
        facts.caster_present,
        facts.caster_alive,
        !facts.casting_blocked,
    ensures
        cast_step(source, CastKindRow::Instant, channel_movement_interrupts, facts) == (CastAdvance::End {
            interrupted: false,
        }),
{
}

/// Moving cancels a wind-up and a charge: a caster who has left the point
/// where the cast started has it ended as an interruption. A channel is
/// cancelled by movement exactly when its stored policy says so.
pub proof fn law_moving_interrupts_wind_ups_and_charges(
    source: CastSourceRow,
    kind: CastKindRow,
    channel_movement_interrupts: bool,
    facts: CastTickFacts,
)
    requires
        facts.moved,
    ensures
        kind == CastKindRow::CastTime || kind == CastKindRow::Charge ==> cast_step(
            source,
            kind,
            channel_movement_interrupts,
            facts,
        ) == (CastAdvance::End { interrupted: true }),
        kind == CastKindRow::Channeling && channel_movement_interrupts ==> cast_step(
            source,
            kind,
            channel_movement_interrupts,
            facts,
        ) == (CastAdvance::End { interrupted: true }),
        kind == CastKindRow::Channeling && !channel_movement_interrupts && facts.caster_present
            && facts.caster_alive && !facts.casting_blocked && (is_ability_source(source) || facts.spell_known)
            ==> cast_step(source, kind, channel_movement_interrupts, facts) == (CastAdvance::TickChannel {
            finish: facts.channel_complete,
        }),
{
}

/// A charge held by an ability never fires from the simulation step: only
/// the release fires it.
pub proof fn law_charges_fire_only_on_release(
    source: CastSourceRow,
    channel_movement_interrupts: bool,
    facts: CastTickFacts,
)
    requires
        is_ability_source(source),
    ensures
        cast_step(source, CastKindRow::Charge, channel_movement_interrupts, facts) != CastAdvance::FireAndEnd,
        !(cast_step(source, CastKindRow::Charge, channel_movement_interrupts, facts) is TickChannel),
{
}

// ---------------------------------------------------------------------------
// Stored effect payloads
// ---------------------------------------------------------------------------

/// What a stored effect payload does.
#[derive(Debug, Clone, Copy, PartialEq, Eq, Structural)]
pub enum EffectPayloadKindRow {
    Damage,
    Heal,
    ApplyStatus,
    Cleanse,
    Purge,
}

/// Whether a stored payload becomes an effect: a status application with no
/// status id is dropped; every other payload is kept.
pub fn payload_kept(kind: EffectPayloadKindRow, has_status_id: bool) -> (kept: bool)
    ensures
        kept == (kind != EffectPayloadKindRow::ApplyStatus || has_status_id),
{
    match kind {
        EffectPayloadKindRow::ApplyStatus => has_status_id,
        _ => true,
    }
}

/// The filter and selection of a stored cleanse or purge: as stored, or
/// every status and the oldest first when the row leaves them out.
pub fn cleanse_options(
    filter: Option<EffectPayloadFilterRow>,
    selection: Option<EffectPayloadSelectionRow>,
) -> (r: (StatusFilter, StatusSelection))
    ensures
        filter is None ==> r.0 == StatusFilter::All,
        filter matches Some(f) ==> r.0 == (match f {
            EffectPayloadFilterRow::Buffs => StatusFilter::Buffs,
            EffectPayloadFilterRow::Debuffs => StatusFilter::Debuffs,
            EffectPayloadFilterRow::All => StatusFilter::All,
        }),
        selection is None ==> r.1 == StatusSelection::Oldest,
        selection matches Some(s) ==> r.1 == (match s {
            EffectPayloadSelectionRow::Oldest => StatusSelection::Oldest,
            EffectPayloadSelectionRow::Newest => StatusSelection::Newest,
            EffectPayloadSelectionRow::ShortestRemaining => StatusSelection::ShortestRemaining,
        }),
{
    let f = match filter {
        Some(f) => status_filter(f),
        None => StatusFilter::All,
    };
    let s = match selection {
        Some(s) => status_selection(s),
        None => StatusSelection::Oldest,
    };
    (f, s)
}

/// How a stat modifier combines with the stat.
#[derive(Debug, Clone, Copy, PartialEq, Eq, Structural)]
pub enum ModifierOp {
    Add,
    Multiply,
    Override,
}

/// Whether a stat modifier is stored as multiplicative; `None` for an
/// override, which the stored modifier cannot express and is dropped.
pub fn modifier_multiplicative(op: ModifierOp) -> (r: Option<bool>)
    ensures
        op == ModifierOp::Add ==> r == Some(false),
        op == ModifierOp::Multiply ==> r == Some(true),
        op == ModifierOp::Override ==> r is None,
{
    match op {
        ModifierOp::Add => Some(false),
        ModifierOp::Multiply => Some(true),
        ModifierOp::Override => None,
    }
}

// ---------------------------------------------------------------------------
// Cooldowns
// ---------------------------------------------------------------------------

/// A running cooldown: which entity's ability it holds back.
#[derive(Debug)]
pub struct CooldownRow {
    pub id: u64,
    pub entity_id: u64,
    pub ability_id: String,
}

/// Whether a cooldown row is the one of `ability_id` for `entity_id`.
pub open spec fn cooldown_of(row: CooldownRow, entity_id: u64, ability_id: Seq<char>) -> bool {
    row.entity_id == entity_id && row.ability_id@ == ability_id
}

/// The ids, among the first `n` rows, of the cooldowns of `ability_id` for
/// `entity_id`.
pub open spec fn cooldown_ids(rows: Seq<CooldownRow>, n: nat, entity_id: u64, ability_id: Seq<char>) -> Seq<u64>
    decreases n,
{
    if n == 0 {
        Seq::empty()
    } else {
        let rest = cooldown_ids(rows, (n - 1) as nat, entity_id, ability_id);
        if cooldown_of(rows[n - 1], entity_id, ability_id) {
            rest.push(rows[n - 1].id)
        } else {
            rest
        }
    }
}

/// The cooldowns a new one for `ability_id` replaces: starting a cooldown
/// deletes these and inserts one fresh timer, so a second cast can only
/// ever refresh it.
pub fn cooldowns_to_replace(rows: &[CooldownRow], entity_id: u64, ability_id: &str) -> (ids: Vec<u64>)
    ensures
        ids@ == cooldown_ids(rows@, rows@.len(), entity_id, ability_id@),
{
    let mut ids: Vec<u64> = Vec::new();
    let mut i: usize = 0;
    while i < rows.len()
        invariant
            i <= rows@.len(),
            ids@ == cooldown_ids(rows@, i as nat, entity_id, ability_id@),
        decreases rows@.len() - i,
    {
        if rows[i].entity_id == entity_id && same_text(rows[i].ability_id.as_str(), ability_id) {
            ids.push(rows[i].id);
        }
        i = i + 1;
    }
    ids
}

/// Cooldowns never stack: the ids a new cooldown replaces are exactly those
/// of the timers the entity already holds for that ability, so once they are
/// deleted and the new one inserted, the entity holds one timer for it.
pub proof fn law_cooldowns_refresh_instead_of_stacking(
    rows: Seq<CooldownRow>,
    entity_id: u64,
    ability_id: Seq<char>,
    id: u64,
)
    ensures
        cooldown_ids(rows, rows.len(), entity_id, ability_id).contains(id) <==> exists|k: int|
            0 <= k < rows.len() && cooldown_of(rows[k], entity_id, ability_id) && rows[k].id == id,
{
    lemma_cooldown_ids_exact(rows, rows.len(), entity_id, ability_id, id);
}

proof fn lemma_cooldown_ids_exact(rows: Seq<CooldownRow>, n: nat, entity_id: u64, ability_id: Seq<char>, id: u64)
    requires
        n <= rows.len(),
    ensures
        cooldown_ids(rows, n, entity_id, ability_id).contains(id) <==> exists|k: int|
            0 <= k < n && cooldown_of(rows[k], entity_id, ability_id) && rows[k].id == id,
    decreases n,
{
    if n > 0 {
        lemma_cooldown_ids_exact(rows, (n - 1) as nat, entity_id, ability_id, id);
        let rest = cooldown_ids(rows, (n - 1) as nat, entity_id, ability_id);
        let last = n - 1;
        if cooldown_of(rows[last], entity_id, ability_id) {
            let pushed = rest.push(rows[last].id);
            if pushed.contains(id) {
                let j = choose|j: int| 0 <= j < pushed.len() && pushed[j] == id;
                if j < rest.len() {
                    assert(rest[j] == id);
                    assert(rest.contains(id));
                }
            }
            if rest.contains(id) {
                let j = choose|j: int| 0 <= j < rest.len() && rest[j] == id;
                assert(pushed[j] == id);
            }
            if rows[last].id == id {
                assert(pushed[rest.len() as int] == id);
            }
        }
    }
}

// ---------------------------------------------------------------------------
// Validating an ability request
// ---------------------------------------------------------------------------

/// What the Eidolon cast reducer found out before resolving the gesture.
#[derive(Debug)]
pub struct EidolonFacts {
    pub caster_dead: bool,
    /// The equipped weapon's item id; `None` without a weapon.
    pub weapon_item_id: Option<String>,
    /// The weapon's display name; `None` when the catalogue lacks the item.
    pub item_display_name: Option<String>,
    /// The weapon offers Eidolon gestures at all.
    pub has_gestures: bool,
    /// The gesture active on the requested slot, by ability id.
    pub gesture: Option<String>,
    /// That gesture is cooling down.
    pub on_cooldown: bool,
    pub casting_blocked: bool,
    /// The weapon carries a Root Word inscription, which resolves through the
    /// character's Root Word language.
    pub root_inscribed: bool,
    /// The character's Root Word language exists.
    pub language_initialized: bool,
}

/// The name of an ability slot as messages print it.
pub open spec fn ability_slot_text(slot: AbilitySlot) -> Seq<char> {
    match slot {
        AbilitySlot::Primary => "Primary"@,
        AbilitySlot::Secondary => "Secondary"@,
        AbilitySlot::Ultimate => "Ultimate"@,
    }
}

/// Why an Eidolon cast request is refused, in the order of the checks: a
/// dead caster, an unknown slot name, no weapon, a weapon the catalogue
/// lacks, a weapon without gestures, no gesture on the slot, the gesture
/// cooling down, crowd control, and a Root Word inscription with no
/// language to resolve it.
pub open spec fn eidolon_refusal(slot_name: Seq<char>, f: EidolonFacts) -> Option<Seq<char>> {
    let key = ascii_lower_seq(slot_name);
    if f.caster_dead {
        Some("dead characters do not cast"@)
    } else if ability_slot_for(key) is None {
        Some(unknown_ability_slot_text(key))
    } else if f.weapon_item_id is None {
        Some("no weapon equipped"@)
    } else if f.item_display_name is None {
        Some("unknown item "@ + debug_quoted(f.weapon_item_id->0@))
    } else if !f.has_gestures {
        Some(f.item_display_name->0@ + " has no Eidolon gestures"@)
    } else if f.gesture is None {
        Some("the weapon offers no gesture for "@ + ability_slot_text(ability_slot_for(key)->0))
    } else if f.on_cooldown {
        Some(debug_quoted(f.gesture->0@) + " is on cooldown"@)
    } else if f.casting_blocked {
        Some("you cannot cast right now"@)
    } else if f.root_inscribed && !f.language_initialized {
        Some("ancient language has not been initialized"@)
    } else {
        None
    }
}

fn slot_text(slot: AbilitySlot) -> (s: &'static str)
    ensures
        s@ == ability_slot_text(slot),
{
    proof {
        reveal_strlit("Primary");
        reveal_strlit("Secondary");
        reveal_strlit("Ultimate");
    }
    match slot {
        AbilitySlot::Primary => "Primary",
        AbilitySlot::Secondary => "Secondary",
        AbilitySlot::Ultimate => "Ultimate",
    }
}

fn cooldown_or_blocked(ability_id: &str, on_cooldown: bool, casting_blocked: bool) -> (r: Result<(), String>)
    ensures
        on_cooldown ==> (r matches Err(e) && e@ == debug_quoted(ability_id@) + " is on cooldown"@),
        !on_cooldown && casting_blocked ==> (r matches Err(e) && e@ == "you cannot cast right now"@),
        !on_cooldown && !casting_blocked ==> r is Ok,
{
    proof {
        reveal_strlit(" is on cooldown");
        reveal_strlit("you cannot cast right now");
    }
    if on_cooldown {
        return Err(concat(debug_str(ability_id), " is on cooldown"));
    }
    if casting_blocked {
        return Err(owned("you cannot cast right now"));
    }
    Ok(())
}

/// Checks an Eidolon cast request up to the gesture's resolution and
/// returns the slot and the gesture to resolve.
pub fn check_eidolon_request(slot_name: &str, facts: &EidolonFacts) -> (r: Result<(AbilitySlot, String), String>)
    ensures
        match eidolon_refusal(slot_name@, *facts) {
            Some(e) => r matches Err(m) && m@ == e,
            None => r matches Ok((slot, gesture)) && Some(slot) == ability_slot_for(
                ascii_lower_seq(slot_name@),
            ) && gesture@ == facts.gesture->0@,
        },
{
    proof {
        reveal_strlit("dead characters do not cast");
        reveal_strlit("no weapon equipped");
        reveal_strlit("unknown item ");
        reveal_strlit(" has no Eidolon gestures");
        reveal_strlit("the weapon offers no gesture for ");
    }
    if facts.caster_dead {
        return Err(owned("dead characters do not cast"));
    }
    let slot = parse_slot(slot_name)?;
    let item_id = match &facts.weapon_item_id {
        Some(id) => id,
        None => {
            return Err(owned("no weapon equipped"));
        },
    };
    let display_name = match &facts.item_display_name {
        Some(n) => n,
        None => {
            return Err(concat(owned("unknown item "), debug_str(item_id.as_str()).as_str()));
        },
    };
    if !facts.has_gestures {
        return Err(concat(owned(display_name.as_str()), " has no Eidolon gestures"));
    }
    let gesture = match &facts.gesture {
        Some(g) => g,
        None => {
            return Err(concat(owned("the weapon offers no gesture for "), slot_text(slot)));
        },
    };
    cooldown_or_blocked(gesture.as_str(), facts.on_cooldown, facts.casting_blocked)?;
    if facts.root_inscribed && !facts.language_initialized {
        proof {
            reveal_strlit("ancient language has not been initialized");
        }
        return Err(owned("ancient language has not been initialized"));
    }
    Ok((slot, owned(gesture.as_str())))
}

/// What the armor cast reducer found out before resolving the ability.
#[derive(Debug)]
pub struct ArmorCastFacts {
    pub caster_dead: bool,
    /// The item in the named armor slot; `None` when the slot is empty.
    pub armor_item_id: Option<String>,
    /// Its display name; `None` when the catalogue lacks the item.
    pub item_display_name: Option<String>,
    /// The item offers abilities at all.
    pub has_abilities: bool,
    /// Its first Primary ability, by id.
    pub primary_ability: Option<String>,
    /// That ability is cooling down.
    pub on_cooldown: bool,
    pub casting_blocked: bool,
    /// The character's Root Word language exists.
    pub language_initialized: bool,
}

/// Why an armor cast request is refused, in the order of the checks: a dead
/// caster, an unknown armor slot, an empty slot, an item the catalogue
/// lacks, an item without abilities, no Primary ability, the ability
/// cooling down, crowd control, no Root Word language.
pub open spec fn armor_cast_refusal(slot_name: Seq<char>, f: ArmorCastFacts) -> Option<Seq<char>> {
    let key = ascii_lower_seq(slot_name);
    if f.caster_dead {
        Some("dead characters do not cast"@)
    } else if armor_slot_for(key) is None {
        Some("unknown armor slot "@ + debug_quoted(key))
    } else if f.armor_item_id is None {
        Some("armor slot "@ + debug_quoted(slot_name) + " is empty"@)
    } else if f.item_display_name is None {
        Some("unknown item "@ + debug_quoted(f.armor_item_id->0@))
    } else if !f.has_abilities {
        Some(f.item_display_name->0@ + " has no armor abilities"@)
    } else if f.primary_ability is None {
        Some("armor has no Primary ability"@)
    } else if f.on_cooldown {
        Some(debug_quoted(f.primary_ability->0@) + " is on cooldown"@)
    } else if f.casting_blocked {
        Some("you cannot cast right now"@)
    } else if !f.language_initialized {
        Some("ancient language has not been initialized"@)
    } else {
        None
    }
}

/// Checks an armor cast request up to the ability's resolution and returns
/// the armor slot, its cast source and the ability to resolve.
pub fn check_armor_cast_request(slot_name: &str, facts: &ArmorCastFacts) -> (r: Result<
    (EquipSlot, CastSourceRow, String),
    String,
>)
    ensures
        match armor_cast_refusal(slot_name@, *facts) {
            Some(e) => r matches Err(m) && m@ == e,
            None => r matches Ok((slot, source, ability)) && Some(slot) == armor_slot_for(
                ascii_lower_seq(slot_name@),
            ) && (slot == EquipSlot::Helmet ==> source == CastSourceRow::Helmet) && (slot
                == EquipSlot::Armor ==> source == CastSourceRow::Armor) && (slot == EquipSlot::Shoes
                ==> source == CastSourceRow::Shoes) && ability@ == facts.primary_ability->0@,
        },
{
    proof {
        reveal_strlit("dead characters do not cast");
        reveal_strlit("armor slot ");
        reveal_strlit(" is empty");
        reveal_strlit("unknown item ");
        reveal_strlit(" has no armor abilities");
        reveal_strlit("armor has no Primary ability");
        reveal_strlit("ancient language has not been initialized");
    }
    if facts.caster_dead {
        return Err(owned("dead characters do not cast"));
    }
    let slot = parse_armor_slot(slot_name)?;
    let item_id = match &facts.armor_item_id {
        Some(id) => id,
        None => {
            let text = concat(owned("armor slot "), debug_str(slot_name).as_str());
            return Err(concat(text, " is empty"));
        },
    };
    let display_name = match &facts.item_display_name {
        Some(n) => n,
        None => {
            return Err(concat(owned("unknown item "), debug_str(item_id.as_str()).as_str()));
        },
    };
    if !facts.has_abilities {
        return Err(concat(owned(display_name.as_str()), " has no armor abilities"));
    }
    let ability = match &facts.primary_ability {
        Some(a) => a,
        None => {
            return Err(owned("armor has no Primary ability"));
        },
    };
    cooldown_or_blocked(ability.as_str(), facts.on_cooldown, facts.casting_blocked)?;
    if !facts.language_initialized {
        return Err(owned("ancient language has not been initialized"));
    }
    let source = armor_cast_source(slot)?;
    Ok((slot, source, owned(ability.as_str())))
}

/// An instant ability resolves against the caster's combat stats; a caster
/// without them cannot cast it.
pub fn check_caster_stats(has_stats: bool) -> (r: Result<(), String>)
    ensures
        has_stats ==> r is Ok,
        !has_stats ==> (r matches Err(e) && e@ == "caster has no stats"@),
{
    if !has_stats {
        proof {
            reveal_strlit("caster has no stats");
        }
        return Err(owned("caster has no stats"));
    }
    Ok(())
}

} // verus!
