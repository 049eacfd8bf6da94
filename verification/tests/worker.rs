use colony_core::codec::encode_role;
use colony_core::grid::Pos;
use colony_core::movement::{MovementGoal, MovementProfile};
use colony_core::role::{Hauler, RoomId, Spawn, WorkerRole};
use colony_core::task::{Task, TaskResult};
use colony_core::worker::{apply_task_result, ShardState, WorkerId, WorkerState};

fn worker_with_queue(tasks: &[Task]) -> WorkerState {
    let mut state = WorkerState::new_with_role(WorkerRole::Hauler(Hauler {
        home_room: RoomId { raw: 1 },
        id: 0,
    }));
    for t in tasks {
        state.task_queue.push_back(*t);
    }
    state
}

#[test]
fn complete_removes_exactly_the_front_task() {
    let t1 = Task::IdleUntil(5);
    let t2 = Task::WaitToSpawn;
    let mut state = worker_with_queue(&[t1, t2]);
    let popped = state.pop_current_task().unwrap();
    assert_eq!(popped, t1);
    let destroy = apply_task_result(&mut state, popped, TaskResult::Complete);
    assert!(!destroy);
    assert_eq!(state.task_queue.len(), 1);
    assert_eq!(state.task_queue[0], t2);
}

#[test]
fn complete_add_to_front_replaces_front_only() {
    let t1 = Task::IdleUntil(5);
    let t2 = Task::WaitToSpawn;
    let t3 = Task::Upgrade(9);
    let mut state = worker_with_queue(&[t1, t2]);
    let popped = state.pop_current_task().unwrap();
    apply_task_result(&mut state, popped, TaskResult::CompleteAddTaskToFront(t3));
    assert_eq!(state.task_queue.len(), 2);
    assert_eq!(state.task_queue[0], t3);
    assert_eq!(state.task_queue[1], t2);
}

#[test]
fn still_working_requeues_same_task() {
    let t1 = Task::IdleUntil(5);
    let mut state = worker_with_queue(&[t1]);
    let popped = state.pop_current_task().unwrap();
    apply_task_result(&mut state, popped, TaskResult::StillWorking);
    assert_eq!(state.task_queue.len(), 1);
    assert_eq!(state.task_queue[0], t1);
}

#[test]
fn move_me_to_sets_goal_and_requeues() {
    let t1 = Task::Upgrade(9);
    let goal = MovementGoal {
        goal_pos: Pos { x: 7, y: 8 },
        goal_range: 1,
        profile: MovementProfile::PlainsOneToOne,
        avoid_creeps: false,
    };
    let mut state = worker_with_queue(&[t1]);
    let popped = state.pop_current_task().unwrap();
    apply_task_result(&mut state, popped, TaskResult::MoveMeTo(goal));
    assert_eq!(state.movement_goal, Some(goal));
    assert_eq!(state.task_queue.len(), 1);
    assert_eq!(state.task_queue[0], t1);
}

#[test]
fn add_task_to_front_keeps_current_behind_it() {
    let t1 = Task::Upgrade(9);
    let t2 = Task::IdleUntil(5);
    let mut state = worker_with_queue(&[t1]);
    let popped = state.pop_current_task().unwrap();
    apply_task_result(&mut state, popped, TaskResult::AddTaskToFront(t2));
    assert_eq!(state.task_queue.len(), 2);
    assert_eq!(state.task_queue[0], t2);
    assert_eq!(state.task_queue[1], t1);
}

#[test]
fn complete_add_to_back_appends_followup() {
    let t1 = Task::Upgrade(9);
    let t2 = Task::WaitToSpawn;
    let t3 = Task::IdleUntil(5);
    let mut state = worker_with_queue(&[t1, t2]);
    let popped = state.pop_current_task().unwrap();
    apply_task_result(&mut state, popped, TaskResult::CompleteAddTaskToBack(t3));
    assert_eq!(state.task_queue.len(), 2);
    assert_eq!(state.task_queue[0], t2);
    assert_eq!(state.task_queue[1], t3);
}

#[test]
fn destroy_worker_reports_removal() {
    let t1 = Task::WaitToSpawn;
    let mut state = worker_with_queue(&[t1]);
    let popped = state.pop_current_task().unwrap();
    assert!(apply_task_result(&mut state, popped, TaskResult::DestroyWorker));
}

#[test]
fn register_creep_adopts_decoded_role_and_tracks_it() {
    let mut shard = ShardState::new(10);
    let role = WorkerRole::Hauler(Hauler {
        home_room: RoomId { raw: 3 },
        id: 1,
    });
    let name = encode_role(&role);
    shard.register_creep(WorkerId::Creep(1), false, &name);
    assert_eq!(shard.worker_state.len(), 1);
    assert_eq!(shard.worker_state[0].1.role, role);
    assert_eq!(shard.worker_roles, vec![role]);
}

#[test]
fn register_creep_bad_name_gets_sentinel_untracked_role() {
    let mut shard = ShardState::new(10);
    shard.register_creep(WorkerId::Creep(1), false, &b"not a token".to_vec());
    assert_eq!(shard.worker_state.len(), 1);
    assert!(matches!(
        shard.worker_state[0].1.role,
        WorkerRole::Invalid(_)
    ));
    // The sentinel role is deliberately kept out of the filled set.
    assert!(shard.worker_roles.is_empty());
}

#[test]
fn register_creep_spawning_gets_stub_role() {
    let mut shard = ShardState::new(10);
    shard.register_creep(WorkerId::Creep(1), true, &Vec::new());
    assert!(matches!(
        shard.worker_state[0].1.role,
        WorkerRole::SpawningCreep(_)
    ));
    assert!(shard.worker_roles.is_empty());
}

#[test]
fn register_creep_existing_worker_is_left_alone() {
    let mut shard = ShardState::new(10);
    let role = WorkerRole::Hauler(Hauler {
        home_room: RoomId { raw: 3 },
        id: 1,
    });
    let name = encode_role(&role);
    shard.register_creep(WorkerId::Creep(1), false, &name);
    shard.worker_state[0].1.task_queue.push_back(Task::WaitToSpawn);
    shard.register_creep(WorkerId::Creep(1), false, &name);
    assert_eq!(shard.worker_state.len(), 1);
    assert_eq!(shard.worker_state[0].1.task_queue.len(), 1);
    assert_eq!(shard.worker_roles.len(), 1);
}

#[test]
fn remove_worker_releases_its_role() {
    let mut shard = ShardState::new(10);
    let role = WorkerRole::Hauler(Hauler {
        home_room: RoomId { raw: 3 },
        id: 1,
    });
    let name = encode_role(&role);
    shard.register_creep(WorkerId::Creep(1), false, &name);
    shard.remove_worker(WorkerId::Creep(1));
    assert!(shard.worker_state.is_empty());
    assert!(shard.worker_roles.is_empty());
}

#[test]
fn remove_absent_worker_changes_nothing() {
    let mut shard = ShardState::new(10);
    shard.remove_worker(WorkerId::Creep(1));
    assert!(shard.worker_state.is_empty());
}

#[test]
fn register_structure_overwrites_existing_state() {
    let mut shard = ShardState::new(10);
    let role = WorkerRole::Spawn(Spawn {
        room: RoomId { raw: 3 },
    });
    shard.register_structure(WorkerId::Spawn(9), role);
    shard.worker_state[0].1.task_queue.push_back(Task::WaitToSpawn);
    shard.register_structure(WorkerId::Spawn(9), role);
    assert_eq!(shard.worker_state.len(), 1);
    assert!(shard.worker_state[0].1.task_queue.is_empty());
}
