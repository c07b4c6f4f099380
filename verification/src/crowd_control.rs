//! Crowd control: which effects stop an entity acting, casting or moving.
use vstd::prelude::*;

verus! {

/// The crowd control effects an entity can be under.
#[derive(Debug, Clone, Copy, PartialEq, Eq, Structural)]
pub enum CrowdControlKindRow {
    Stun,
    Root,
    Silence,
    Slow,
}

/// A stun suppresses everything; root, silence and slow one axis at most.
pub open spec fn stops_everything(kind: CrowdControlKindRow) -> bool {
    kind == CrowdControlKindRow::Stun
}

/// A stun or a silence stops casting.
pub open spec fn stops_casting(kind: CrowdControlKindRow) -> bool {
    kind == CrowdControlKindRow::Stun || kind == CrowdControlKindRow::Silence
}

/// A stun or a root stops movement; a slow is a speed modifier, not a gate.
pub open spec fn stops_moving(kind: CrowdControlKindRow) -> bool {
    kind == CrowdControlKindRow::Stun || kind == CrowdControlKindRow::Root
}

/// Whether this kind suppresses every action, movement and casting alike.
pub fn blocks_all_actions(kind: CrowdControlKindRow) -> (b: bool)
    ensures
        b == stops_everything(kind),
{
    match kind {
        CrowdControlKindRow::Stun => true,
        CrowdControlKindRow::Root | CrowdControlKindRow::Silence | CrowdControlKindRow::Slow => false,
    }
}

/// Whether this kind stops the victim casting.
pub fn blocks_casting(kind: CrowdControlKindRow) -> (b: bool)
    ensures
        b == stops_casting(kind),
{
    match kind {
        CrowdControlKindRow::Stun => blocks_all_actions(kind),
        CrowdControlKindRow::Silence => true,
        CrowdControlKindRow::Root | CrowdControlKindRow::Slow => false,
    }
}

/// Whether this kind stops the victim moving.
pub fn blocks_movement(kind: CrowdControlKindRow) -> (b: bool)
    ensures
        b == stops_moving(kind),
{
    match kind {
        CrowdControlKindRow::Stun => blocks_all_actions(kind),
        CrowdControlKindRow::Root => true,
        CrowdControlKindRow::Silence | CrowdControlKindRow::Slow => false,
    }
}

/// An effect that suppresses every action suppresses casting and movement.
pub proof fn law_full_block_blocks_both(kind: CrowdControlKindRow)
    ensures
        stops_everything(kind) ==> stops_casting(kind) && stops_moving(kind),
{
}

/// One active effect: who it is on and what it is.
#[derive(Debug, Clone, Copy, PartialEq, Eq, Structural)]
pub struct ActiveEffect {
    pub entity_id: u64,
    pub kind: CrowdControlKindRow,
}

/// Whether `entity_id` is under an effect that suppresses all action.
pub fn has_blocking_cc(effects: &[ActiveEffect], entity_id: u64) -> (b: bool)
    ensures
        b <==> exists|k: int| 0 <= k < effects@.len() && #[trigger] effects@[k].entity_id == entity_id
            && stops_everything(effects@[k].kind),
{
    let mut i: usize = 0;
    while i < effects.len()
        invariant
            i <= effects@.len(),
            forall|k: int| 0 <= k < i ==> !(#[trigger] effects@[k].entity_id == entity_id
                && stops_everything(effects@[k].kind)),
        decreases effects@.len() - i,
    {
        if effects[i].entity_id == entity_id && blocks_all_actions(effects[i].kind) {
            return true;
        }
        i = i + 1;
    }
    false
}

/// Whether `entity_id` may not start or continue a cast.
pub fn is_casting_blocked(effects: &[ActiveEffect], entity_id: u64) -> (b: bool)
    ensures
        b <==> exists|k: int| 0 <= k < effects@.len() && #[trigger] effects@[k].entity_id == entity_id
            && stops_casting(effects@[k].kind),
{
    let mut i: usize = 0;
    while i < effects.len()
        invariant
            i <= effects@.len(),
            forall|k: int| 0 <= k < i ==> !(#[trigger] effects@[k].entity_id == entity_id
                && stops_casting(effects@[k].kind)),
        decreases effects@.len() - i,
    {
        if effects[i].entity_id == entity_id && blocks_casting(effects[i].kind) {
            return true;
        }
        i = i + 1;
    }
    false
}

/// Whether `entity_id` may not move under its own power.
pub fn is_movement_blocked(effects: &[ActiveEffect], entity_id: u64) -> (b: bool)
    ensures
        b <==> exists|k: int| 0 <= k < effects@.len() && #[trigger] effects@[k].entity_id == entity_id
            && stops_moving(effects@[k].kind),
{
    let mut i: usize = 0;
    while i < effects.len()
        invariant
            i <= effects@.len(),
            forall|k: int| 0 <= k < i ==> !(#[trigger] effects@[k].entity_id == entity_id
                && stops_moving(effects@[k].kind)),
        decreases effects@.len() - i,
    {
        if effects[i].entity_id == entity_id && blocks_movement(effects[i].kind) {
            return true;
        }
        i = i + 1;
    }
    false
}

/// Whether the effect at `k` is `kind` on `entity_id`.
pub open spec fn is_effect(effects: Seq<ActiveEffect>, k: int, entity_id: u64, kind: CrowdControlKindRow) -> bool {
    effects[k].entity_id == entity_id && effects[k].kind == kind
}

/// No entity carries two effects of one kind.
pub open spec fn no_stacking(effects: Seq<ActiveEffect>) -> bool {
    forall|i: int, j: int|
        0 <= i < j < effects.len() ==> !(effects[i].entity_id == effects[j].entity_id && effects[i].kind
            == effects[j].kind)
}

/// The effects after applying `kind` to `entity_id`: an effect of that kind
/// already on the entity is refreshed in place (its new duration replaces
/// the old one); otherwise a new effect is added.
pub open spec fn applied(effects: Seq<ActiveEffect>, entity_id: u64, kind: CrowdControlKindRow) -> Seq<
    ActiveEffect,
> {
    if exists|k: int| 0 <= k < effects.len() && is_effect(effects, k, entity_id, kind) {
        effects
    } else {
        effects.push(ActiveEffect { entity_id, kind })
    }
}

/// Where applying `kind` to `entity_id` lands: the position of the effect it
/// refreshes, or `None` when a new effect is added.
pub fn find_effect(effects: &[ActiveEffect], entity_id: u64, kind: CrowdControlKindRow) -> (r: Option<usize>)
    ensures
        match r {
            Some(k) => k < effects@.len() && is_effect(effects@, k as int, entity_id, kind),
            None => !(exists|k: int| 0 <= k < effects@.len() && is_effect(effects@, k, entity_id, kind)),
        },
{
    let mut i: usize = 0;
    while i < effects.len()
        invariant
            i <= effects@.len(),
            forall|k: int| 0 <= k < i ==> !is_effect(effects@, k, entity_id, kind),
        decreases effects@.len() - i,
    {
        if effects[i].entity_id == entity_id && effects[i].kind == kind {
            return Some(i);
        }
        i = i + 1;
    }
    None
}

/// Crowd control refreshes instead of stacking: applying an effect never
/// leaves an entity with two of one kind, and leaves exactly one of the
/// applied kind on it. That keeps a chain of stuns bounded.
pub proof fn law_apply_refreshes_instead_of_stacking(
    effects: Seq<ActiveEffect>,
    entity_id: u64,
    kind: CrowdControlKindRow,
)
    requires
        no_stacking(effects),
    ensures
        no_stacking(applied(effects, entity_id, kind)),
        exists|k: int|
            0 <= k < applied(effects, entity_id, kind).len() && is_effect(
                applied(effects, entity_id, kind),
                k,
                entity_id,
                kind,
            ),
        forall|i: int, j: int|
            0 <= i < applied(effects, entity_id, kind).len() && 0 <= j < applied(
                effects,
                entity_id,
                kind,
            ).len() && is_effect(applied(effects, entity_id, kind), i, entity_id, kind) && is_effect(
                applied(effects, entity_id, kind),
                j,
                entity_id,
                kind,
            ) ==> i == j,
{
    let after = applied(effects, entity_id, kind);
    if !(exists|k: int| 0 <= k < effects.len() && is_effect(effects, k, entity_id, kind)) {
        let n = effects.len() as int;
        assert(is_effect(after, n, entity_id, kind));
        assert forall|i: int, j: int| 0 <= i < j < after.len() implies !(after[i].entity_id
            == after[j].entity_id && after[i].kind == after[j].kind) by {
            if j == n {
                assert(!is_effect(effects, i, entity_id, kind));
            }
        }
    }
    assert forall|i: int, j: int|
        0 <= i < after.len() && 0 <= j < after.len() && is_effect(after, i, entity_id, kind) && is_effect(
            after,
            j,
            entity_id,
            kind,
        ) implies i == j by {
        if i < j {
            assert(!(after[i].entity_id == after[j].entity_id && after[i].kind == after[j].kind));
        } else if j < i {
            assert(!(after[j].entity_id == after[i].entity_id && after[j].kind == after[i].kind));
        }
    }
}

/// What applying a crowd control effect does.
#[derive(Debug, Clone, Copy, PartialEq, Eq, Structural)]
pub enum CrowdControlApply {
    /// Nothing: an effect with no duration is not applied.
    Ignore,
    /// Refresh the effect at `refresh` (or add a new one when `None`) with
    /// the new duration; then end the victim's cast when `cancel_cast`, and
    /// clear its move target when `freeze`.
    Apply { refresh: Option<usize>, cancel_cast: bool, freeze: bool },
}

/// Decides applying `kind` to `entity_id`. `positive_duration` says whether
/// the requested duration is above zero. An effect already of that kind on
/// the entity is refreshed rather than stacked; a casting-blocking effect
/// ends the victim's cast at once, and a movement-blocking one stops it
/// where it stands.
pub fn plan_crowd_control(
    effects: &[ActiveEffect],
    entity_id: u64,
    kind: CrowdControlKindRow,
    positive_duration: bool,
) -> (r: CrowdControlApply)
    ensures
        !positive_duration ==> r == CrowdControlApply::Ignore,
        positive_duration ==> (r matches CrowdControlApply::Apply { refresh, cancel_cast, freeze }
            && cancel_cast == stops_casting(kind) && freeze == stops_moving(kind) && match refresh {
            Some(k) => k < effects@.len() && is_effect(effects@, k as int, entity_id, kind),
            None => !(exists|k: int| 0 <= k < effects@.len() && is_effect(effects@, k, entity_id, kind)),
        }),
{
    if !positive_duration {
        return CrowdControlApply::Ignore;
    }
    let refresh = find_effect(effects, entity_id, kind);
    CrowdControlApply::Apply {
        refresh,
        cancel_cast: blocks_casting(kind),
        freeze: blocks_movement(kind),
    }
}

} // verus!
