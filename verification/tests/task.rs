use colony_core::grid::Pos;
use colony_core::movement::{MovementGoal, MovementProfile};
use colony_core::task::{
    ActionError, ActionOutcome, Task, TaskContext, TaskResult, WorkerKind,
};

fn creep_ctx() -> TaskContext {
    TaskContext {
        now: 1000,
        kind: WorkerKind::Creep,
        worker_pos: Pos { x: 100, y: 100 },
        target_pos: Some(Pos { x: 105, y: 100 }),
        outcome: ActionOutcome::Succeeded,
        free_energy: 50,
        spawning: false,
    }
}

#[test]
fn idle_until_future_still_working_repeatedly() {
    let ctx = creep_ctx();
    let task = Task::IdleUntil(2000);
    // Re-running within the same tick changes nothing: same observation,
    // same outcome, every time.
    for _ in 0..5 {
        assert_eq!(
            task.run_task(&ctx, MovementProfile::PlainsOneToOne),
            TaskResult::StillWorking
        );
    }
}

#[test]
fn idle_until_reached_completes() {
    let ctx = creep_ctx();
    assert_eq!(
        Task::IdleUntil(1000).run_task(&ctx, MovementProfile::PlainsOneToOne),
        TaskResult::Complete
    );
    assert_eq!(
        Task::IdleUntil(999).run_task(&ctx, MovementProfile::PlainsOneToOne),
        TaskResult::Complete
    );
}

#[test]
fn move_to_position_within_range_completes() {
    let ctx = creep_ctx();
    let target = Pos { x: 103, y: 102 };
    // Chebyshev distance is 3.
    assert_eq!(
        Task::MoveToPosition(target, 3).run_task(&ctx, MovementProfile::PlainsOneToOne),
        TaskResult::Complete
    );
}

#[test]
fn move_to_position_far_requests_move_with_paved_default() {
    let ctx = creep_ctx();
    let target = Pos { x: 103, y: 102 };
    assert_eq!(
        Task::MoveToPosition(target, 2).run_task(&ctx, MovementProfile::PlainsOneToOne),
        TaskResult::MoveMeTo(MovementGoal {
            goal_pos: target,
            goal_range: 2,
            profile: MovementProfile::RoadsOneToTwo,
            avoid_creeps: false,
        })
    );
}

#[test]
fn harvest_until_full_keeps_working_while_capacity_remains() {
    let ctx = creep_ctx();
    assert_eq!(
        Task::HarvestEnergyUntilFull(7).run_task(&ctx, MovementProfile::PlainsOneToOne),
        TaskResult::StillWorking
    );
}

#[test]
fn harvest_until_full_completes_when_full() {
    let mut ctx = creep_ctx();
    ctx.free_energy = 0;
    assert_eq!(
        Task::HarvestEnergyUntilFull(7).run_task(&ctx, MovementProfile::PlainsOneToOne),
        TaskResult::Complete
    );
}

#[test]
fn harvest_out_of_range_moves_in() {
    let mut ctx = creep_ctx();
    ctx.outcome = ActionOutcome::Failed(ActionError::NotInRange);
    // Distance to target is 5: outside the melee dead zone, no avoidance.
    assert_eq!(
        Task::HarvestEnergyUntilFull(7).run_task(&ctx, MovementProfile::PlainsOneToOne),
        TaskResult::MoveMeTo(MovementGoal {
            goal_pos: Pos { x: 105, y: 100 },
            goal_range: 1,
            profile: MovementProfile::PlainsOneToOne,
            avoid_creeps: false,
        })
    );
}

#[test]
fn harvest_in_dead_zone_avoids_others() {
    let mut ctx = creep_ctx();
    ctx.outcome = ActionOutcome::Failed(ActionError::NotInRange);
    ctx.target_pos = Some(Pos { x: 102, y: 100 });
    // Distance exactly 2: the melee dead zone flips avoidance on.
    assert_eq!(
        Task::HarvestEnergyUntilFull(7).run_task(&ctx, MovementProfile::PlainsOneToOne),
        TaskResult::MoveMeTo(MovementGoal {
            goal_pos: Pos { x: 102, y: 100 },
            goal_range: 1,
            profile: MovementProfile::PlainsOneToOne,
            avoid_creeps: true,
        })
    );
}

#[test]
fn harvest_exhausted_source_completes() {
    let mut ctx = creep_ctx();
    ctx.outcome = ActionOutcome::Failed(ActionError::NotEnough);
    assert_eq!(
        Task::HarvestEnergyUntilFull(7).run_task(&ctx, MovementProfile::PlainsOneToOne),
        TaskResult::Complete
    );
}

#[test]
fn repair_target_vanished_completes_without_movement() {
    let mut ctx = creep_ctx();
    ctx.outcome = ActionOutcome::TargetGone;
    ctx.target_pos = None;
    assert_eq!(
        Task::Repair(42).run_task(&ctx, MovementProfile::PlainsOneToOne),
        TaskResult::Complete
    );
}

#[test]
fn repair_succeeding_keeps_working() {
    let ctx = creep_ctx();
    assert_eq!(
        Task::Repair(42).run_task(&ctx, MovementProfile::PlainsOneToOne),
        TaskResult::StillWorking
    );
}

#[test]
fn build_in_ranged_dead_zone_avoids_others() {
    let mut ctx = creep_ctx();
    ctx.outcome = ActionOutcome::Failed(ActionError::NotInRange);
    ctx.target_pos = Some(Pos { x: 104, y: 100 });
    // Distance exactly 4: the ranged dead zone flips avoidance on.
    assert_eq!(
        Task::Build(42).run_task(&ctx, MovementProfile::RoadsOneToTwo),
        TaskResult::MoveMeTo(MovementGoal {
            goal_pos: Pos { x: 104, y: 100 },
            goal_range: 1,
            profile: MovementProfile::RoadsOneToTwo,
            avoid_creeps: true,
        })
    );
}

#[test]
fn build_invalid_target_completes() {
    let mut ctx = creep_ctx();
    ctx.outcome = ActionOutcome::Failed(ActionError::InvalidTarget);
    assert_eq!(
        Task::Build(42).run_task(&ctx, MovementProfile::PlainsOneToOne),
        TaskResult::Complete
    );
}

#[test]
fn upgrade_out_of_energy_completes() {
    let mut ctx = creep_ctx();
    ctx.outcome = ActionOutcome::Failed(ActionError::NotEnough);
    assert_eq!(
        Task::Upgrade(42).run_task(&ctx, MovementProfile::PlainsOneToOne),
        TaskResult::Complete
    );
}

#[test]
fn take_from_resource_forces_swamp_profile() {
    let mut ctx = creep_ctx();
    ctx.outcome = ActionOutcome::Failed(ActionError::NotInRange);
    assert_eq!(
        Task::TakeFromResource(42).run_task(&ctx, MovementProfile::RoadsOneToTwo),
        TaskResult::MoveMeTo(MovementGoal {
            goal_pos: Pos { x: 105, y: 100 },
            goal_range: 1,
            profile: MovementProfile::SwampFiveToOne,
            avoid_creeps: false,
        })
    );
}

#[test]
fn take_succeeded_completes() {
    let ctx = creep_ctx();
    assert_eq!(
        Task::TakeFromResource(42).run_task(&ctx, MovementProfile::PlainsOneToOne),
        TaskResult::Complete
    );
}

#[test]
fn deliver_full_receiver_completes() {
    let mut ctx = creep_ctx();
    ctx.outcome = ActionOutcome::Failed(ActionError::Full);
    assert_eq!(
        Task::DeliverToStructure(42, colony_core::task::ResourceKind::Energy)
            .run_task(&ctx, MovementProfile::PlainsOneToOne),
        TaskResult::Complete
    );
}

fn spawn_ctx(outcome: ActionOutcome) -> TaskContext {
    TaskContext {
        now: 1000,
        kind: WorkerKind::Spawn,
        worker_pos: Pos { x: 100, y: 100 },
        target_pos: Some(Pos { x: 100, y: 100 }),
        outcome,
        free_energy: 0,
        spawning: false,
    }
}

#[test]
fn spawn_creep_accepted_completes() {
    let role = colony_core::role::WorkerRole::Invalid(colony_core::role::Invalid {});
    let ctx = spawn_ctx(ActionOutcome::Succeeded);
    assert_eq!(
        Task::SpawnCreep(role).run_task(&ctx, MovementProfile::PlainsOneToOne),
        TaskResult::Complete
    );
}

#[test]
fn spawn_creep_name_exists_completes() {
    let role = colony_core::role::WorkerRole::Invalid(colony_core::role::Invalid {});
    let ctx = spawn_ctx(ActionOutcome::Failed(ActionError::NameExists));
    assert_eq!(
        Task::SpawnCreep(role).run_task(&ctx, MovementProfile::PlainsOneToOne),
        TaskResult::Complete
    );
}

#[test]
fn spawn_creep_busy_retries() {
    let role = colony_core::role::WorkerRole::Invalid(colony_core::role::Invalid {});
    let ctx = spawn_ctx(ActionOutcome::Failed(ActionError::Busy));
    assert_eq!(
        Task::SpawnCreep(role).run_task(&ctx, MovementProfile::PlainsOneToOne),
        TaskResult::StillWorking
    );
}

#[test]
fn spawn_creep_short_on_energy_retries() {
    let role = colony_core::role::WorkerRole::Invalid(colony_core::role::Invalid {});
    let ctx = spawn_ctx(ActionOutcome::Failed(ActionError::NotEnough));
    assert_eq!(
        Task::SpawnCreep(role).run_task(&ctx, MovementProfile::PlainsOneToOne),
        TaskResult::StillWorking
    );
}

#[test]
fn wait_to_spawn_waits_then_destroys() {
    let mut ctx = creep_ctx();
    ctx.spawning = true;
    assert_eq!(
        Task::WaitToSpawn.run_task(&ctx, MovementProfile::PlainsOneToOne),
        TaskResult::StillWorking
    );
    ctx.spawning = false;
    assert_eq!(
        Task::WaitToSpawn.run_task(&ctx, MovementProfile::PlainsOneToOne),
        TaskResult::DestroyWorker
    );
}
