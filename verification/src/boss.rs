//! The dragon encounter's decisions: its phase machine, the priority list of
//! each phase, and which entry of that list it casts.
use vstd::prelude::*;
use crate::casting::{CastKind, CastKindRow, OpenCast};

verus! {

/// The phases of the encounter, by what the dragon is doing.
#[derive(Debug, Clone, Copy, PartialEq, Eq, Structural)]
pub enum BossPhase {
    Dormant,
    Ground,
    Aerial,
    Berserk,
    Dead,
}

/// The phases as stored, by number.
#[derive(Debug, Clone, Copy, PartialEq, Eq, Structural)]
pub enum BossPhaseRow {
    Idle,
    PhaseOne,
    PhaseTwo,
    Enraged,
}

/// Stored phase to encounter phase.
pub fn phase_from_row(phase: BossPhaseRow) -> (p: BossPhase)
    ensures
        p == spec_phase_from_row(phase),
{
    match phase {
        BossPhaseRow::Idle => BossPhase::Dormant,
        BossPhaseRow::PhaseOne => BossPhase::Ground,
        BossPhaseRow::PhaseTwo => BossPhase::Aerial,
        BossPhaseRow::Enraged => BossPhase::Berserk,
    }
}

pub open spec fn spec_phase_from_row(phase: BossPhaseRow) -> BossPhase {
    match phase {
        BossPhaseRow::Idle => BossPhase::Dormant,
        BossPhaseRow::PhaseOne => BossPhase::Ground,
        BossPhaseRow::PhaseTwo => BossPhase::Aerial,
        BossPhaseRow::Enraged => BossPhase::Berserk,
    }
}

pub open spec fn spec_phase_to_row(phase: BossPhase) -> BossPhaseRow {
    match phase {
        BossPhase::Dormant => BossPhaseRow::Idle,
        BossPhase::Ground => BossPhaseRow::PhaseOne,
        BossPhase::Aerial => BossPhaseRow::PhaseTwo,
        BossPhase::Berserk | BossPhase::Dead => BossPhaseRow::Enraged,
    }
}

/// Encounter phase to stored phase. `Dead` has no stored spelling and is kept
/// as the last phase a boss can die in.
pub fn phase_to_row(phase: BossPhase) -> (r: BossPhaseRow)
    ensures
        r == spec_phase_to_row(phase),
{
    match phase {
        BossPhase::Dormant => BossPhaseRow::Idle,
        BossPhase::Ground => BossPhaseRow::PhaseOne,
        BossPhase::Aerial => BossPhaseRow::PhaseTwo,
        BossPhase::Berserk | BossPhase::Dead => BossPhaseRow::Enraged,
    }
}

/// Reading a stored phase and storing it again changes nothing; a phase
/// other than `Dead` survives being stored and read back.
pub proof fn law_phase_round_trip(row: BossPhaseRow, phase: BossPhase)
    ensures
        spec_phase_to_row(spec_phase_from_row(row)) == row,
        phase != BossPhase::Dead ==> spec_phase_from_row(spec_phase_to_row(phase)) == phase,
{
}

/// How far along the fight a phase is. The machine never moves backwards.
pub open spec fn phase_rank(phase: BossPhase) -> int {
    match phase {
        BossPhase::Dormant => 0,
        BossPhase::Ground => 1,
        BossPhase::Aerial => 2,
        BossPhase::Berserk => 3,
        BossPhase::Dead => 4,
    }
}

/// What the tick measured about the boss, reduced to the comparisons the
/// phase machine makes.
#[derive(Debug, Clone, Copy, PartialEq, Eq, Structural)]
pub struct PhaseSignals {
    /// Health fraction at or below the berserk threshold.
    pub at_or_below_berserk_hp: bool,
    /// Health fraction at or below the aerial threshold.
    pub at_or_below_aerial_hp: bool,
    /// Engaged time has reached the enrage timer.
    pub enrage_timer_elapsed: bool,
}

pub open spec fn spec_next_phase(phase: BossPhase, signals: PhaseSignals) -> BossPhase {
    match phase {
        BossPhase::Ground => if signals.at_or_below_berserk_hp {
            BossPhase::Berserk
        } else if signals.at_or_below_aerial_hp {
            BossPhase::Aerial
        } else if signals.enrage_timer_elapsed {
            BossPhase::Berserk
        } else {
            phase
        },
        BossPhase::Aerial => if signals.at_or_below_berserk_hp || signals.enrage_timer_elapsed {
            BossPhase::Berserk
        } else {
            phase
        },
        _ => phase,
    }
}

/// The phase machine: health thresholds first, the enrage timer as the safety
/// net. Berserk holds, Dormant is left only by engaging, Dead is terminal.
pub fn advance_phase(phase: BossPhase, signals: PhaseSignals) -> (next: BossPhase)
    ensures
        next == spec_next_phase(phase, signals),
{
    match phase {
        BossPhase::Ground => {
            if signals.at_or_below_berserk_hp {
                BossPhase::Berserk
            } else if signals.at_or_below_aerial_hp {
                BossPhase::Aerial
            } else if signals.enrage_timer_elapsed {
                BossPhase::Berserk
            } else {
                phase
            }
        },
        BossPhase::Aerial => {
            if signals.at_or_below_berserk_hp || signals.enrage_timer_elapsed {
                BossPhase::Berserk
            } else {
                phase
            }
        },
        _ => phase,
    }
}

/// Transitions are monotonic: the phase never regresses.
pub proof fn law_phase_never_regresses(phase: BossPhase, signals: PhaseSignals)
    ensures
        phase_rank(spec_next_phase(phase, signals)) >= phase_rank(phase),
{
}

/// The enrage timer is the safety net of the live fight: once it has run
/// out, an aerial boss goes berserk whatever its health, and a grounded boss
/// goes berserk unless its health first sends it airborne.
pub proof fn law_enrage_timer_forces_berserk(phase: BossPhase, signals: PhaseSignals)
    requires
        signals.enrage_timer_elapsed,
        phase == BossPhase::Aerial || (phase == BossPhase::Ground && (signals.at_or_below_berserk_hp
            || !signals.at_or_below_aerial_hp)),
    ensures
        spec_next_phase(phase, signals) == BossPhase::Berserk,
{
}

/// Health decides first: at the berserk threshold a live boss goes berserk;
/// a grounded boss at the aerial threshold takes to the air, timer or not;
/// and a live boss above both thresholds with time left keeps its phase.
pub proof fn law_health_thresholds_drive_the_fight(phase: BossPhase, signals: PhaseSignals)
    requires
        phase == BossPhase::Ground || phase == BossPhase::Aerial,
    ensures
        signals.at_or_below_berserk_hp ==> spec_next_phase(phase, signals) == BossPhase::Berserk,
        phase == BossPhase::Ground && !signals.at_or_below_berserk_hp && signals.at_or_below_aerial_hp
            ==> spec_next_phase(phase, signals) == BossPhase::Aerial,
        !signals.at_or_below_berserk_hp && !signals.enrage_timer_elapsed && (phase == BossPhase::Aerial
            || !signals.at_or_below_aerial_hp) ==> spec_next_phase(phase, signals) == phase,
{
}

/// Berserk, Dormant and Dead are fixed points of the machine.
pub proof fn law_terminal_phases_hold(phase: BossPhase, signals: PhaseSignals)
    requires
        phase == BossPhase::Berserk || phase == BossPhase::Dormant || phase == BossPhase::Dead,
    ensures
        spec_next_phase(phase, signals) == phase,
{
}

/// The encounter state the engage rule reads and writes.
#[derive(Debug, Clone, Copy, PartialEq, Eq, Structural)]
pub struct Engagement {
    pub is_engaged: bool,
    pub phase: BossPhase,
    pub rotation_cursor: usize,
}

/// Engages a boss the first time a living player is inside its arena: the
/// fight starts on the ground with the rotation at its top. `None` when the
/// boss is idle with nobody in the ring, which leaves it untouched.
pub fn engage(state: Engagement, anyone_in_arena: bool) -> (r: Option<Engagement>)
    ensures
        state.is_engaged ==> r == Some(state),
        !state.is_engaged && !anyone_in_arena ==> r is None,
        !state.is_engaged && anyone_in_arena ==> r == Some(
            Engagement { is_engaged: true, phase: BossPhase::Ground, rotation_cursor: 0 },
        ),
{
    if state.is_engaged {
        return Some(state);
    }
    if !anyone_in_arena {
        return None;
    }
    Some(Engagement { is_engaged: true, phase: BossPhase::Ground, rotation_cursor: 0 })
}

/// How an ability picks what it points at.
#[derive(Debug, Clone, Copy, PartialEq, Eq, Structural)]
pub enum Targeting {
    /// Highest threat, or the nearest player before anyone has any.
    MainThreat,
    /// The farthest living player.
    Farthest,
    /// Centred on the boss itself.
    CasterCentered,
    /// The centroid of the `n` most tightly packed living players.
    DensestCluster(usize),
}

/// One entry in a phase's priority list.
#[derive(Debug, Clone, Copy)]
pub struct RotationEntry {
    pub spell_id: &'static str,
    pub targeting: Targeting,
}

/// The priority list of a phase, as (spell id, targeting) pairs.
pub open spec fn rotation(phase: BossPhase) -> Seq<(Seq<char>, Targeting)> {
    match phase {
        BossPhase::Ground => seq![
            ("searing_breath"@, Targeting::MainThreat),
            ("cinder_storm"@, Targeting::DensestCluster(2)),
            ("wing_buffet"@, Targeting::CasterCentered),
            ("tail_sweep"@, Targeting::CasterCentered),
            ("dragon_claw"@, Targeting::MainThreat),
        ],
        BossPhase::Aerial => seq![
            ("molten_eruption"@, Targeting::CasterCentered),
            ("cinder_storm"@, Targeting::DensestCluster(2)),
        ],
        BossPhase::Berserk => seq![
            ("cataclysm"@, Targeting::CasterCentered),
            ("searing_breath"@, Targeting::Farthest),
            ("cinder_storm"@, Targeting::DensestCluster(2)),
            ("wing_buffet"@, Targeting::CasterCentered),
            ("dragon_claw"@, Targeting::MainThreat),
        ],
        BossPhase::Dormant | BossPhase::Dead => seq![],
    }
}

pub open spec fn entries_view(v: Seq<RotationEntry>) -> Seq<(Seq<char>, Targeting)> {
    v.map_values(|e: RotationEntry| (e.spell_id@, e.targeting))
}

fn entry(spell_id: &'static str, targeting: Targeting) -> (e: RotationEntry)
    ensures
        e.spell_id == spell_id,
        e.targeting == targeting,
{
    RotationEntry { spell_id, targeting }
}

/// The priority list for a phase: grounded melee and breath; the airborne
/// arena-wide patterns; or the enraged roster with Cataclysm on top. Dormant
/// and Dead have no rotation.
pub fn priority_list_for(phase: BossPhase) -> (list: Vec<RotationEntry>)
    ensures
        entries_view(list@) == rotation(phase),
{
    proof {
        reveal_strlit("searing_breath");
        reveal_strlit("cinder_storm");
        reveal_strlit("wing_buffet");
        reveal_strlit("tail_sweep");
        reveal_strlit("dragon_claw");
        reveal_strlit("molten_eruption");
        reveal_strlit("cataclysm");
    }
    let mut list: Vec<RotationEntry> = Vec::new();
    match phase {
        BossPhase::Ground => {
            list.push(entry("searing_breath", Targeting::MainThreat));
            list.push(entry("cinder_storm", Targeting::DensestCluster(2)));
            list.push(entry("wing_buffet", Targeting::CasterCentered));
            list.push(entry("tail_sweep", Targeting::CasterCentered));
            list.push(entry("dragon_claw", Targeting::MainThreat));
        },
        BossPhase::Aerial => {
            list.push(entry("molten_eruption", Targeting::CasterCentered));
            list.push(entry("cinder_storm", Targeting::DensestCluster(2)));
        },
        BossPhase::Berserk => {
            list.push(entry("cataclysm", Targeting::CasterCentered));
            list.push(entry("searing_breath", Targeting::Farthest));
            list.push(entry("cinder_storm", Targeting::DensestCluster(2)));
            list.push(entry("wing_buffet", Targeting::CasterCentered));
            list.push(entry("dragon_claw", Targeting::MainThreat));
        },
        BossPhase::Dormant | BossPhase::Dead => {},
    }
    assert(entries_view(list@) =~= rotation(phase));
    list
}

/// Strict priority: the first entry of the list that can be cast this tick.
/// `usable[k]` says whether entry `k` is in the spellbook, off cooldown, and
/// has a target. The order is the design of the fight; the chosen index is
/// what the rotation cursor records.
pub fn choose_rotation_entry(list: &Vec<RotationEntry>, usable: &Vec<bool>) -> (choice: Option<usize>)
    ensures
        choice matches Some(k) ==> k < list@.len() && k < usable@.len() && usable@[k as int]
            && forall|j: int| 0 <= j < k ==> !usable@[j],
        choice is None ==> forall|j: int| 0 <= j < list@.len() && j < usable@.len() ==> !usable@[j],
{
    let mut i: usize = 0;
    while i < list.len() && i < usable.len()
        invariant
            i <= list@.len(),
            i <= usable@.len(),
            forall|j: int| 0 <= j < i ==> !usable@[j],
        decreases list@.len() - i,
    {
        if usable[i] {
            return Some(i);
        }
        i = i + 1;
    }
    None
}

// ---------------------------------------------------------------------------
// Choosing groups of players
// ---------------------------------------------------------------------------

/// Every length-`k` selection from `s` that keeps the order of `s`, in
/// lexicographic order of positions: the selections that take the first
/// element, then those that skip it.
pub open spec fn k_combinations(s: Seq<usize>, k: nat) -> Seq<Seq<usize>>
    decreases s.len(), k,
{
    if k == 0 {
        seq![Seq::empty()]
    } else if s.len() == 0 {
        Seq::empty()
    } else {
        prefixed(seq![s[0]], k_combinations(s.drop_first(), (k - 1) as nat)) + k_combinations(
            s.drop_first(),
            k,
        )
    }
}

/// Each sequence of `cs` with `p` in front of it.
pub open spec fn prefixed(p: Seq<usize>, cs: Seq<Seq<usize>>) -> Seq<Seq<usize>> {
    cs.map_values(|c: Seq<usize>| p + c)
}

/// The contents of a list of lists.
pub open spec fn lists_view(v: Seq<Vec<usize>>) -> Seq<Seq<usize>> {
    v.map_values(|c: Vec<usize>| c@)
}

proof fn lemma_prefixed_append(p: Seq<usize>, a: Seq<Seq<usize>>, b: Seq<Seq<usize>>)
    ensures
        prefixed(p, a + b) == prefixed(p, a) + prefixed(p, b),
{
    assert(prefixed(p, a + b) =~= prefixed(p, a) + prefixed(p, b));
}

proof fn lemma_prefixed_twice(p: Seq<usize>, q: Seq<usize>, a: Seq<Seq<usize>>)
    ensures
        prefixed(p, prefixed(q, a)) == prefixed(p + q, a),
{
    assert forall|i: int| 0 <= i < a.len() implies #[trigger] prefixed(p, prefixed(q, a))[i] == prefixed(
        p + q,
        a,
    )[i] by {
        assert(p + (q + a[i]) =~= (p + q) + a[i]);
    }
    assert(prefixed(p, prefixed(q, a)) =~= prefixed(p + q, a));
}

/// Unfolding the selections from position `i` on, for `m >= 1`.
proof fn lemma_combinations_from(s: Seq<usize>, i: int, m: nat)
    requires
        0 <= i < s.len(),
        m >= 1,
    ensures
        k_combinations(s.skip(i), m) == prefixed(seq![s[i]], k_combinations(s.skip(i + 1), (m - 1) as nat))
            + k_combinations(s.skip(i + 1), m),
{
    assert(s.skip(i).drop_first() =~= s.skip(i + 1));
    assert(s.skip(i)[0] == s[i]);
}

fn copy_list(v: &Vec<usize>) -> (r: Vec<usize>)
    ensures
        r@ == v@,
{
    let mut r: Vec<usize> = Vec::new();
    let mut i: usize = 0;
    while i < v.len()
        invariant
            i <= v@.len(),
            r@ == v@.subrange(0, i as int),
        decreases v@.len() - i,
    {
        r.push(v[i]);
        assert(r@ =~= v@.subrange(0, i + 1));
        i = i + 1;
    }
    assert(v@.subrange(0, v@.len() as int) =~= v@);
    r
}

fn combine_recursive(
    indices: &[usize],
    start: usize,
    k: usize,
    current: &mut Vec<usize>,
    out: &mut Vec<Vec<usize>>,
)
    requires
        start <= indices@.len(),
        old(current)@.len() <= k,
    ensures
        final(current)@ == old(current)@,
        lists_view(final(out)@) == lists_view(old(out)@) + prefixed(
            old(current)@,
            k_combinations(indices@.skip(start as int), (k - old(current)@.len()) as nat),
        ),
    decreases indices@.len() - start,
{
    let ghost s = indices@;
    let ghost cur = current@;
    let ghost out0 = lists_view(out@);
    if current.len() == k {
        let ghost before = out@;
        out.push(copy_list(current));
        proof {
            assert(lists_view(out@) =~= lists_view(before).push(cur));
            assert(prefixed(cur, seq![Seq::<usize>::empty()]) =~= seq![cur]);
        }
        return;
    }
    let ghost m: nat = (k - cur.len()) as nat;
    let mut i = start;
    while i < indices.len()
        invariant
            start <= i <= indices@.len(),
            s == indices@,
            current@ == cur,
            cur.len() < k,
            m == k - cur.len(),
            m >= 1,
            lists_view(out@) + prefixed(cur, k_combinations(s.skip(i as int), m)) == out0 + prefixed(
                cur,
                k_combinations(s.skip(start as int), m),
            ),
        decreases indices@.len() - i,
    {
        let ghost before = lists_view(out@);
        current.push(indices[i]);
        combine_recursive(indices, i + 1, k, current, out);
        current.pop();
        proof {
            let x = s[i as int];
            let inner = k_combinations(s.skip(i + 1), (m - 1) as nat);
            let rest = k_combinations(s.skip(i + 1), m);
            assert(cur.push(x) =~= cur + seq![x]);
            assert((k - (cur.len() + 1)) as nat == (m - 1) as nat);
            lemma_combinations_from(s, i as int, m);
            lemma_prefixed_append(cur, prefixed(seq![x], inner), rest);
            lemma_prefixed_twice(cur, seq![x], inner);
            assert(current@ =~= cur);
        }
        i = i + 1;
    }
    proof {
        assert(s.skip(i as int) =~= Seq::<usize>::empty());
        assert(k_combinations(s.skip(i as int), m) =~= Seq::<Seq<usize>>::empty());
        assert(prefixed(cur, Seq::<Seq<usize>>::empty()) =~= Seq::<Seq<usize>>::empty());
        assert(lists_view(out@) + Seq::<Seq<usize>>::empty() =~= lists_view(out@));
    }
}

/// Every length-`k` combination of `indices`, in lexicographic order of
/// positions.
pub fn combinations(indices: &[usize], k: usize) -> (out: Vec<Vec<usize>>)
    ensures
        lists_view(out@) == k_combinations(indices@, k as nat),
{
    let mut out: Vec<Vec<usize>> = Vec::new();
    let mut current: Vec<usize> = Vec::new();
    combine_recursive(indices, 0, k, &mut current, &mut out);
    proof {
        assert(indices@.skip(0) =~= indices@);
        assert(lists_view(Seq::<Vec<usize>>::empty()) =~= Seq::<Seq<usize>>::empty());
        let cs = k_combinations(indices@, k as nat);
        assert(prefixed(Seq::<usize>::empty(), cs) =~= cs) by {
            assert forall|i: int| 0 <= i < cs.len() implies #[trigger] prefixed(Seq::<usize>::empty(), cs)[i]
                == cs[i] by {
                assert(Seq::<usize>::empty() + cs[i] =~= cs[i]);
            }
        }
        assert(Seq::<Seq<usize>>::empty() + cs =~= cs);
    }
    out
}

// ---------------------------------------------------------------------------
// Casting on an AI actor's behalf
// ---------------------------------------------------------------------------

/// What an AI actor's cast request does.
#[derive(Debug, Clone, Copy, PartialEq, Eq, Structural)]
pub enum AiCastPlan {
    /// An instant: fire it now (its cooldown starts if it fired).
    FireNow,
    /// A channel with no declared duration: an AI has no key to release, so
    /// the ability is skipped rather than channelled forever.
    Skip,
    /// Open this cast and let the simulation step advance it.
    Open(OpenCast),
}

/// The cast an AI actor opens for a spell of `kind`. Unlike a player's, a
/// wind-up does not stop the actor, and a channel needs a declared duration.
/// A channel starts armed, starts its cooldown now, and breaks on movement
/// as the spell's policy says.
pub fn ai_cast_plan(kind: CastKind, has_channel_duration: bool, interrupts_on_move: bool) -> (p: AiCastPlan)
    ensures
        kind == CastKind::Instant ==> p == AiCastPlan::FireNow,
        kind == CastKind::Channeling && !has_channel_duration ==> p == AiCastPlan::Skip,
        kind == CastKind::CastTime ==> p == AiCastPlan::Open(
            OpenCast {
                kind: CastKindRow::CastTime,
                stop_caster: false,
                cooldown_on_press: false,
                armed: false,
                interrupts_on_move: false,
            },
        ),
        kind == CastKind::Channeling && has_channel_duration ==> p == AiCastPlan::Open(
            OpenCast {
                kind: CastKindRow::Channeling,
                stop_caster: false,
                cooldown_on_press: true,
                armed: true,
                interrupts_on_move,
            },
        ),
{
    match kind {
        CastKind::Instant => AiCastPlan::FireNow,
        CastKind::CastTime => AiCastPlan::Open(
            OpenCast {
                kind: CastKindRow::CastTime,
                stop_caster: false,
                cooldown_on_press: false,
                armed: false,
                interrupts_on_move: false,
            },
        ),
        CastKind::Channeling => {
            if !has_channel_duration {
                AiCastPlan::Skip
            } else {
                AiCastPlan::Open(
                    OpenCast {
                        kind: CastKindRow::Channeling,
                        stop_caster: false,
                        cooldown_on_press: true,
                        armed: true,
                        interrupts_on_move,
                    },
                )
            }
        },
    }
}

// ---------------------------------------------------------------------------
// Which entities the AI drives
// ---------------------------------------------------------------------------

/// What a game entity is.
#[derive(Debug, Clone, Copy, PartialEq, Eq, Structural)]
pub enum EntityKindRow {
    Player,
    Enemy,
    Boss,
    Dummy,
    Npc,
}

/// What the AI step needs to know of a game entity.
#[derive(Debug, Clone, Copy, PartialEq, Eq, Structural)]
pub struct ActorRow {
    pub kind: EntityKindRow,
    pub dead: bool,
}

/// The positions, among the first `n` rows, of the living entities of `kind`.
pub open spec fn living_of_kind(rows: Seq<ActorRow>, n: nat, kind: EntityKindRow) -> Seq<usize>
    decreases n,
{
    if n == 0 {
        Seq::empty()
    } else {
        let rest = living_of_kind(rows, (n - 1) as nat, kind);
        if rows[n - 1].kind == kind && !rows[n - 1].dead {
            rest.push((n - 1) as usize)
        } else {
            rest
        }
    }
}

/// The mobs one AI step drives, by position in table order. Players drive
/// themselves; dummies and NPCs have no AI; the dead are left alone.
#[derive(Debug)]
pub struct Actors {
    pub enemies: Vec<usize>,
    pub bosses: Vec<usize>,
}

/// Splits out, in one pass, the living enemies and bosses.
pub fn collect_actors(rows: &[ActorRow]) -> (a: Actors)
    ensures
        a.enemies@ == living_of_kind(rows@, rows@.len(), EntityKindRow::Enemy),
        a.bosses@ == living_of_kind(rows@, rows@.len(), EntityKindRow::Boss),
{
    let mut enemies: Vec<usize> = Vec::new();
    let mut bosses: Vec<usize> = Vec::new();
    let mut i: usize = 0;
    while i < rows.len()
        invariant
            i <= rows@.len(),
            enemies@ == living_of_kind(rows@, i as nat, EntityKindRow::Enemy),
            bosses@ == living_of_kind(rows@, i as nat, EntityKindRow::Boss),
        decreases rows@.len() - i,
    {
        let row = rows[i];
        if !row.dead {
            match row.kind {
                EntityKindRow::Enemy => enemies.push(i),
                EntityKindRow::Boss => bosses.push(i),
                EntityKindRow::Player | EntityKindRow::Dummy | EntityKindRow::Npc => {},
            }
        }
        i = i + 1;
    }
    Actors { enemies, bosses }
}

} // verus!
