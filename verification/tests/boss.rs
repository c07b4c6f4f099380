use bevymmo::boss::{
    advance_phase, choose_rotation_entry, engage, phase_from_row, phase_to_row,
    priority_list_for, BossPhase, BossPhaseRow, Engagement, PhaseSignals, Targeting,
};

fn signals(berserk: bool, aerial: bool, enrage: bool) -> PhaseSignals {
    PhaseSignals {
        at_or_below_berserk_hp: berserk,
        at_or_below_aerial_hp: aerial,
        enrage_timer_elapsed: enrage,
    }
}

#[test]
fn ground_phase_moves_on_health_then_timer() {
    assert_eq!(advance_phase(BossPhase::Ground, signals(false, false, false)), BossPhase::Ground);
    assert_eq!(advance_phase(BossPhase::Ground, signals(false, true, false)), BossPhase::Aerial);
    assert_eq!(advance_phase(BossPhase::Ground, signals(true, true, false)), BossPhase::Berserk);
    assert_eq!(advance_phase(BossPhase::Ground, signals(false, false, true)), BossPhase::Berserk);
    assert_eq!(advance_phase(BossPhase::Ground, signals(false, true, true)), BossPhase::Aerial);
}

#[test]
fn aerial_phase_ends_in_berserk() {
    assert_eq!(advance_phase(BossPhase::Aerial, signals(false, true, false)), BossPhase::Aerial);
    assert_eq!(advance_phase(BossPhase::Aerial, signals(true, true, false)), BossPhase::Berserk);
    assert_eq!(advance_phase(BossPhase::Aerial, signals(false, false, true)), BossPhase::Berserk);
}

#[test]
fn terminal_phases_hold() {
    for phase in [BossPhase::Berserk, BossPhase::Dormant, BossPhase::Dead] {
        assert_eq!(advance_phase(phase, signals(true, true, true)), phase);
    }
}

#[test]
fn phase_rows_round_trip() {
    for phase in [BossPhase::Dormant, BossPhase::Ground, BossPhase::Aerial, BossPhase::Berserk] {
        assert_eq!(phase_from_row(phase_to_row(phase)), phase);
    }
    for row in [
        BossPhaseRow::Idle,
        BossPhaseRow::PhaseOne,
        BossPhaseRow::PhaseTwo,
        BossPhaseRow::Enraged,
    ] {
        assert_eq!(phase_to_row(phase_from_row(row)), row);
    }
    assert_eq!(phase_to_row(BossPhase::Dead), BossPhaseRow::Enraged);
}

#[test]
fn engaging_starts_on_the_ground_at_the_top_of_the_rotation() {
    let idle = Engagement { is_engaged: false, phase: BossPhase::Dormant, rotation_cursor: 3 };
    assert_eq!(engage(idle, false), None);
    assert_eq!(
        engage(idle, true),
        Some(Engagement { is_engaged: true, phase: BossPhase::Ground, rotation_cursor: 0 })
    );
    let fighting = Engagement { is_engaged: true, phase: BossPhase::Aerial, rotation_cursor: 1 };
    assert_eq!(engage(fighting, true), Some(fighting));
}

#[test]
fn each_phase_has_its_rotation() {
    let ground = priority_list_for(BossPhase::Ground);
    let ids: Vec<&str> = ground.iter().map(|e| e.spell_id).collect();
    assert_eq!(ids, ["searing_breath", "cinder_storm", "wing_buffet", "tail_sweep", "dragon_claw"]);
    assert_eq!(ground[1].targeting, Targeting::DensestCluster(2));
    let berserk = priority_list_for(BossPhase::Berserk);
    assert_eq!(berserk[0].spell_id, "cataclysm");
    assert_eq!(berserk[1].targeting, Targeting::Farthest);
    assert_eq!(priority_list_for(BossPhase::Aerial).len(), 2);
    assert!(priority_list_for(BossPhase::Dormant).is_empty());
    assert!(priority_list_for(BossPhase::Dead).is_empty());
}

#[test]
fn rotation_takes_the_first_usable_entry() {
    let list = priority_list_for(BossPhase::Ground);
    assert_eq!(choose_rotation_entry(&list, &vec![false, false, true, true, true]), Some(2));
    assert_eq!(choose_rotation_entry(&list, &vec![false; 5]), None);
    assert_eq!(choose_rotation_entry(&list, &vec![true]), Some(0));
}

use bevymmo::boss::{ai_cast_plan, combinations, AiCastPlan};
use bevymmo::casting::{CastKind, CastKindRow, OpenCast};

#[test]
fn combinations_come_in_lexicographic_order() {
    assert_eq!(
        combinations(&[0, 1, 2, 3], 2),
        vec![vec![0, 1], vec![0, 2], vec![0, 3], vec![1, 2], vec![1, 3], vec![2, 3]]
    );
    assert_eq!(combinations(&[4, 9], 0), vec![Vec::<usize>::new()]);
    assert!(combinations(&[4, 9], 3).is_empty());
    assert_eq!(combinations(&[7, 8, 9], 3), vec![vec![7, 8, 9]]);
}

#[test]
fn ai_casts_follow_the_spell_kind() {
    assert_eq!(ai_cast_plan(CastKind::Instant, false, false), AiCastPlan::FireNow);
    assert_eq!(ai_cast_plan(CastKind::Channeling, false, true), AiCastPlan::Skip);
    assert_eq!(
        ai_cast_plan(CastKind::CastTime, false, true),
        AiCastPlan::Open(OpenCast {
            kind: CastKindRow::CastTime,
            stop_caster: false,
            cooldown_on_press: false,
            armed: false,
            interrupts_on_move: false,
        })
    );
    assert_eq!(
        ai_cast_plan(CastKind::Channeling, true, true),
        AiCastPlan::Open(OpenCast {
            kind: CastKindRow::Channeling,
            stop_caster: false,
            cooldown_on_press: true,
            armed: true,
            interrupts_on_move: true,
        })
    );
}

use bevymmo::boss::{collect_actors, ActorRow, EntityKindRow};

#[test]
fn only_living_enemies_and_bosses_get_ai() {
    let rows = [
        ActorRow { kind: EntityKindRow::Player, dead: false },
        ActorRow { kind: EntityKindRow::Enemy, dead: false },
        ActorRow { kind: EntityKindRow::Boss, dead: true },
        ActorRow { kind: EntityKindRow::Enemy, dead: true },
        ActorRow { kind: EntityKindRow::Boss, dead: false },
        ActorRow { kind: EntityKindRow::Npc, dead: false },
        ActorRow { kind: EntityKindRow::Enemy, dead: false },
    ];
    let actors = collect_actors(&rows);
    assert_eq!(actors.enemies, vec![1, 6]);
    assert_eq!(actors.bosses, vec![4]);
}
