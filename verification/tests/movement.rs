use colony_core::grid::{Direction, Pos};
use colony_core::movement::{compress_path, MovementGoal, MovementProfile, PathState};

fn goal_at(x: u16, y: u16) -> MovementGoal {
    MovementGoal {
        goal_pos: Pos { x, y },
        goal_range: 0,
        profile: MovementProfile::PlainsOneToOne,
        avoid_creeps: false,
    }
}

fn cached(goal: MovementGoal) -> PathState {
    PathState {
        goal,
        stuck_count: 0,
        last_position: Pos { x: 100, y: 100 },
        next_direction: Direction::Right,
        path: vec![Direction::Right, Direction::Right, Direction::Bottom],
        path_progress: 0,
    }
}

#[test]
fn moving_as_predicted_advances_cursor_and_resets_stuck() {
    let mut ps = cached(goal_at(110, 100));
    ps.stuck_count = 4;
    ps.check_if_moved_and_update_pos(Pos { x: 101, y: 100 });
    assert_eq!(ps.path_progress, 1);
    assert_eq!(ps.stuck_count, 0);
    assert_eq!(ps.last_position, Pos { x: 101, y: 100 });
}

#[test]
fn standing_still_raises_stuck_count_by_one() {
    let mut ps = cached(goal_at(110, 100));
    ps.stuck_count = 4;
    ps.check_if_moved_and_update_pos(Pos { x: 100, y: 100 });
    assert_eq!(ps.stuck_count, 5);
    assert_eq!(ps.path_progress, 0);
    assert_eq!(ps.last_position, Pos { x: 100, y: 100 });
}

#[test]
fn unexpected_position_forces_stuck_to_maximum() {
    let mut ps = cached(goal_at(110, 100));
    ps.check_if_moved_and_update_pos(Pos { x: 90, y: 90 });
    assert_eq!(ps.stuck_count, u8::MAX);
    assert_eq!(ps.path_progress, 0);
}

#[test]
fn compress_turns_adjacent_cells_into_steps() {
    let from = Pos { x: 100, y: 100 };
    let cells = vec![
        Pos { x: 101, y: 100 },
        Pos { x: 102, y: 101 },
        Pos { x: 102, y: 102 },
    ];
    assert_eq!(
        compress_path(from, &cells),
        vec![Direction::Right, Direction::BottomRight, Direction::Bottom]
    );
}

#[test]
fn compress_drops_region_boundary_steps() {
    // x = 49 is the last column of one region; x = 50 is the first of the
    // next. The crossing happens implicitly and stores no step.
    let from = Pos { x: 49, y: 10 };
    let cells = vec![Pos { x: 50, y: 10 }, Pos { x: 51, y: 10 }];
    assert_eq!(compress_path(from, &cells), vec![Direction::Right]);
}

#[test]
fn compress_of_empty_search_is_empty() {
    let from = Pos { x: 100, y: 100 };
    assert_eq!(compress_path(from, &Vec::new()), Vec::new());
}

#[test]
fn planning_incomplete_search_still_builds_state() {
    // Search ran out of budget and yielded nothing: the plan still comes
    // back whole, with a defensive placeholder direction and no steps.
    let goal = goal_at(200, 200);
    let ps = goal.find_path_to(Pos { x: 100, y: 100 }, &Vec::new());
    assert_eq!(ps.path, Vec::new());
    assert_eq!(ps.next_direction, Direction::Top);
    assert_eq!(ps.stuck_count, 0);
    assert_eq!(ps.path_progress, 0);
    assert_eq!(ps.goal, goal);
    assert_eq!(ps.last_position, Pos { x: 100, y: 100 });
}

#[test]
fn planning_sets_first_step_as_next_direction() {
    let goal = goal_at(200, 200);
    let cells = vec![Pos { x: 101, y: 101 }];
    let ps = goal.find_path_to(Pos { x: 100, y: 100 }, &cells);
    assert_eq!(ps.path, vec![Direction::BottomRight]);
    assert_eq!(ps.next_direction, Direction::BottomRight);
}
