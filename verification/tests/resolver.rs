use colony_core::grid::{Direction, Pos};
use colony_core::movement::{MovementGoal, MovementProfile, PathState};
use colony_core::resolver::{resolve_swaps, MoveDecision};
use colony_core::role::{Startup, RoomId, WorkerRole};
use colony_core::worker::{WorkerId, WorkerState};

fn mobile_worker() -> WorkerState {
    WorkerState::new_with_role(WorkerRole::Startup(Startup {
        home_room: RoomId { raw: 1 },
        id: 0,
    }))
}

fn goal_to(x: u16, y: u16, range: u32) -> MovementGoal {
    MovementGoal {
        goal_pos: Pos { x, y },
        goal_range: range,
        profile: MovementProfile::PlainsOneToOne,
        avoid_creeps: false,
    }
}

fn cache_for(goal: MovementGoal, at: Pos) -> PathState {
    PathState {
        goal,
        stuck_count: 0,
        last_position: at,
        next_direction: Direction::Right,
        path: vec![Direction::Right, Direction::Right],
        path_progress: 0,
    }
}

#[test]
fn goal_reached_discards_cache_and_idles() {
    let mut state = mobile_worker();
    let here = Pos { x: 100, y: 100 };
    let goal = goal_to(102, 100, 3);
    state.movement_goal = Some(goal);
    // Even a deeply stuck cache is discarded once the goal is satisfied.
    let mut ps = cache_for(goal, here);
    ps.stuck_count = u8::MAX;
    state.path_state = Some(ps);
    let d = state.resolve_worker_movement(here, 0, true, false);
    assert_eq!(d, MoveDecision::Idle);
    assert!(state.path_state.is_none());
    assert!(state.movement_goal.is_none());
}

#[test]
fn goal_change_discards_cache_and_requests_plan() {
    let mut state = mobile_worker();
    let here = Pos { x: 100, y: 100 };
    let old_goal = goal_to(120, 100, 0);
    let new_goal = goal_to(100, 120, 0);
    state.movement_goal = Some(new_goal);
    // The cache was planned for the old goal; it no longer matches. The
    // worker did not move since, so the position check finds it parked.
    state.path_state = Some(cache_for(old_goal, here));
    let d = state.resolve_worker_movement(here, 0, true, false);
    assert_eq!(d, MoveDecision::PlanNeeded);
    assert!(state.path_state.is_none());
    assert_eq!(state.movement_goal, Some(new_goal));
}

#[test]
fn cpu_critical_skips_planning_and_keeps_goal() {
    let mut state = mobile_worker();
    let here = Pos { x: 100, y: 100 };
    let goal = goal_to(120, 100, 0);
    state.movement_goal = Some(goal);
    state.path_state = None;
    let d = state.resolve_worker_movement(here, 0, true, true);
    assert_eq!(d, MoveDecision::Stay);
    assert!(state.path_state.is_none());
    assert_eq!(state.movement_goal, Some(goal));
}

#[test]
fn usable_cache_steps_along_path() {
    let mut state = mobile_worker();
    let last = Pos { x: 100, y: 100 };
    let here = Pos { x: 101, y: 100 };
    let goal = goal_to(120, 100, 0);
    state.movement_goal = Some(goal);
    state.path_state = Some(cache_for(goal, last));
    // The worker moved as intended last tick, so the cursor advances and
    // the next cached step is issued.
    let d = state.resolve_worker_movement(here, 0, true, false);
    assert_eq!(d, MoveDecision::Step(Direction::Right));
    let ps = state.path_state.as_ref().unwrap();
    assert_eq!(ps.path_progress, 1);
    assert_eq!(ps.stuck_count, 0);
    assert_eq!(ps.next_direction, Direction::Right);
    assert_eq!(state.movement_goal, Some(goal));
}

#[test]
fn stuck_past_threshold_requests_plan() {
    let mut state = mobile_worker();
    let here = Pos { x: 100, y: 100 };
    let goal = goal_to(120, 100, 0);
    state.movement_goal = Some(goal);
    let mut ps = cache_for(goal, here);
    ps.stuck_count = colony_core::STUCK_REPATH_THRESHOLD;
    // next_direction points right but the worker stands still, so the
    // count rises past the threshold during the check.
    state.path_state = Some(ps);
    let d = state.resolve_worker_movement(here, 0, true, false);
    assert_eq!(d, MoveDecision::PlanNeeded);
    assert!(state.path_state.is_none());
}

#[test]
fn fatigued_worker_does_nothing() {
    let mut state = mobile_worker();
    let goal = goal_to(120, 100, 0);
    state.movement_goal = Some(goal);
    let d = state.resolve_worker_movement(Pos { x: 100, y: 100 }, 3, true, false);
    assert_eq!(d, MoveDecision::Stay);
    assert_eq!(state.movement_goal, Some(goal));
}

#[test]
fn immobile_worker_is_skipped() {
    let mut state = mobile_worker();
    let d = state.resolve_worker_movement(Pos { x: 100, y: 100 }, 0, false, false);
    assert_eq!(d, MoveDecision::Stay);
}

#[test]
fn worker_without_goal_idles() {
    let mut state = mobile_worker();
    let d = state.resolve_worker_movement(Pos { x: 100, y: 100 }, 0, true, false);
    assert_eq!(d, MoveDecision::Idle);
}

#[test]
fn fresh_plan_with_empty_search_leaves_worker_stationary() {
    let mut state = mobile_worker();
    state.movement_goal = Some(goal_to(120, 100, 0));
    let step = state.apply_fresh_plan(Pos { x: 100, y: 100 }, &Vec::new());
    assert_eq!(step, None);
    assert!(state.path_state.is_none());
}

#[test]
fn fresh_plan_issues_first_step_of_partial_path() {
    let mut state = mobile_worker();
    state.movement_goal = Some(goal_to(120, 100, 0));
    // The search gave out after two cells, far short of the goal; the
    // partial path is still used.
    let cells = vec![Pos { x: 101, y: 100 }, Pos { x: 102, y: 100 }];
    let step = state.apply_fresh_plan(Pos { x: 100, y: 100 }, &cells);
    assert_eq!(step, Some(Direction::Right));
    let ps = state.path_state.as_ref().unwrap();
    assert_eq!(ps.path, vec![Direction::Right, Direction::Right]);
    assert_eq!(ps.path_progress, 0);
}

#[test]
fn swap_commands_idle_worker_in_opposite_direction() {
    let blocked_cell = Pos { x: 100, y: 100 };
    let idle = vec![(blocked_cell, WorkerId::Creep(11))];
    // A mover heading right intends to enter the idle worker's cell.
    let intents = vec![(blocked_cell, Direction::Right)];
    let cmds = resolve_swaps(&idle, &intents);
    assert_eq!(cmds, vec![(WorkerId::Creep(11), Direction::Left)]);
}

#[test]
fn swap_leaves_unrelated_idle_workers_alone() {
    let idle = vec![
        (Pos { x: 100, y: 100 }, WorkerId::Creep(11)),
        (Pos { x: 200, y: 200 }, WorkerId::Creep(12)),
    ];
    let intents = vec![(Pos { x: 100, y: 100 }, Direction::BottomLeft)];
    let cmds = resolve_swaps(&idle, &intents);
    assert_eq!(cmds, vec![(WorkerId::Creep(11), Direction::TopRight)]);
    assert!(cmds.iter().all(|(w, _)| *w != WorkerId::Creep(12)));
}

#[test]
fn swap_without_idle_occupant_commands_nothing() {
    let idle = vec![(Pos { x: 200, y: 200 }, WorkerId::Creep(12))];
    let intents = vec![(Pos { x: 100, y: 100 }, Direction::Top)];
    assert_eq!(resolve_swaps(&idle, &intents), Vec::new());
}
