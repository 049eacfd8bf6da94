//! The task state machine: the closed set of task variants and the
//! transition rules that turn one tick's observed world state into a
//! structured outcome.
//!
//! Attempting an action against the live world happens outside this
//! library; the observation (did the target resolve, how did the action
//! fare, where do things stand) is handed in as a `TaskContext`, and the
//! decision made from it is verified here for every possible observation.

use vstd::prelude::*;

use crate::grid::{spec_range, Pos};
use crate::movement::{MovementGoal, MovementProfile};
use crate::role::WorkerRole;

verus! {

/// Workers one step outside this range of their target for a melee-range
/// action are likely stuck in a swap loop; they replan avoiding others.
pub const MELEE_OUT_OF_RANGE: u32 = 2;

/// Workers one step outside their ranged-action reach (reach 3, so range 4)
/// are likely crowded out; they replan avoiding others.
pub const RANGED_OUT_OF_RANGE: u32 = 4;

/// The world's verdict on one attempted action, as observed by the caller
/// that performed it.
#[derive(PartialEq, Eq, Structural, Hash, Debug, Clone, Copy)]
pub enum ActionError {
    /// Too far from the target; recoverable by moving.
    NotInRange,
    /// The target is not a valid subject for this action.
    InvalidTarget,
    /// The target (or the worker) lacks the resource or progress needed.
    NotEnough,
    /// The receiving side has no room left.
    Full,
    /// A worker with the requested name already exists.
    NameExists,
    /// The acting structure is already occupied this tick.
    Busy,
    /// Any failure not modelled above.
    Other,
}

/// What happened when the current task's action was attempted this tick.
#[derive(PartialEq, Eq, Structural, Hash, Debug, Clone, Copy)]
pub enum ActionOutcome {
    /// The task's target no longer resolves to a live object.
    TargetGone,
    /// The action was accepted by the world.
    Succeeded,
    /// The action was rejected with the given error.
    Failed(ActionError),
}

/// Which category of live object the task is running against.
#[derive(PartialEq, Eq, Structural, Hash, Debug, Clone, Copy)]
pub enum WorkerKind {
    Creep,
    Spawn,
    Tower,
}

/// One tick's observations for a single worker, gathered by the caller
/// before asking the state machine for a decision.
#[derive(PartialEq, Eq, Structural, Hash, Debug, Clone, Copy)]
pub struct TaskContext {
    /// The simulation's current tick counter.
    pub now: u32,
    /// The category of the worker the task runs on.
    pub kind: WorkerKind,
    /// The worker's current position.
    pub worker_pos: Pos,
    /// The target's position, if the target resolved.
    pub target_pos: Option<Pos>,
    /// The verdict on the attempted action, where the task has one.
    pub outcome: ActionOutcome,
    /// The worker's free energy capacity after the attempt.
    pub free_energy: u32,
    /// Whether the worker is still materializing.
    pub spawning: bool,
}

/// A resource class carried by take/deliver tasks.
#[derive(PartialEq, Eq, Structural, Hash, Debug, Clone, Copy)]
pub enum ResourceKind {
    Energy,
    /// Any resource class this bot does not reason about.
    OtherResource,
}

/// The closed set of task variants. Action targets are carried as packed
/// object identifiers; only the outside world can turn one back into a
/// live object.
#[derive(PartialEq, Eq, Structural, Hash, Debug, Clone, Copy)]
pub enum Task {
    IdleUntil(u32),
    MoveToPosition(Pos, u32),
    HarvestEnergyUntilFull(u128),
    HarvestEnergyForever(u128),
    Build(u128),
    Repair(u128),
    Upgrade(u128),
    TakeFromResource(u128),
    TakeFromStructure(u128, ResourceKind),
    DeliverToStructure(u128, ResourceKind),
    SpawnCreep(WorkerRole),
    WaitToSpawn,
}

/// The structured outcome of running one task for one tick.
#[derive(PartialEq, Eq, Structural, Hash, Debug, Clone, Copy)]
pub enum TaskResult {
    /// Task satisfied: pop it from the queue.
    Complete,
    /// Retry the same task next tick; nothing else changes.
    StillWorking,
    /// Blocked on proximity: record the goal and retry once closer.
    MoveMeTo(MovementGoal),
    /// Push a prerequisite task ahead of the current one.
    AddTaskToFront(Task),
    /// Replace the current task with a new one.
    CompleteAddTaskToFront(Task),
    /// Current task done; enqueue a followup at the tail.
    CompleteAddTaskToBack(Task),
    /// Deregister this worker entirely.
    DestroyWorker,
}

/// Which worker categories a task may run on; running it on any other
/// category is a caller error.
pub open spec fn task_worker_compatible(t: Task, k: WorkerKind) -> bool {
    match t {
        Task::IdleUntil(_) => true,
        Task::MoveToPosition(_, _) => true,
        Task::SpawnCreep(_) => k == WorkerKind::Spawn,
        _ => k == WorkerKind::Creep,
    }
}

/// The observations hang together: a target position is known exactly when
/// the target resolved.
pub open spec fn ctx_coherent(ctx: TaskContext) -> bool {
    (ctx.outcome == ActionOutcome::TargetGone) <==> (ctx.target_pos is None)
}

/// A movement goal centred on `pos`.
pub open spec fn spec_goal(pos: Pos, range: u32, profile: MovementProfile, avoid: bool)
    -> MovementGoal {
    MovementGoal { goal_pos: pos, goal_range: range, profile, avoid_creeps: avoid }
}

/// Whether the worker stands exactly in the melee dead zone of its target:
/// the range at which repeated swapping with another agent is likely.
pub open spec fn melee_dead_zone(ctx: TaskContext) -> bool {
    ctx.target_pos matches Some(t) && spec_range(ctx.worker_pos, t) == MELEE_OUT_OF_RANGE
}

/// Whether the worker stands exactly in the ranged dead zone of its target.
pub open spec fn ranged_dead_zone(ctx: TaskContext) -> bool {
    ctx.target_pos matches Some(t) && spec_range(ctx.worker_pos, t) == RANGED_OUT_OF_RANGE
}

/// Transition rule for harvesting until the store is full: a vanished or
/// exhausted target completes; a successful bite completes once no free
/// capacity remains, else keeps working; out of range moves in.
pub open spec fn spec_harvest_until_full(ctx: TaskContext, profile: MovementProfile)
    -> TaskResult {
    match ctx.outcome {
        ActionOutcome::TargetGone => TaskResult::Complete,
        ActionOutcome::Succeeded => if ctx.free_energy == 0 {
            TaskResult::Complete
        } else {
            TaskResult::StillWorking
        },
        ActionOutcome::Failed(e) => match e {
            ActionError::NotInRange => TaskResult::MoveMeTo(
                spec_goal(ctx.target_pos->Some_0, 1, profile, melee_dead_zone(ctx)),
            ),
            _ => TaskResult::Complete,
        },
    }
}

/// Transition rule for the open-ended repeatable actions (perpetual
/// harvest, build, repair, upgrade): success keeps working, out of range
/// moves in, anything else completes. The dead-zone test uses the action
/// category's range.
pub open spec fn spec_sustained_action(ctx: TaskContext, profile: MovementProfile, avoid: bool)
    -> TaskResult {
    match ctx.outcome {
        ActionOutcome::TargetGone => TaskResult::Complete,
        ActionOutcome::Succeeded => TaskResult::StillWorking,
        ActionOutcome::Failed(e) => match e {
            ActionError::NotInRange => TaskResult::MoveMeTo(
                spec_goal(ctx.target_pos->Some_0, 1, profile, avoid),
            ),
            _ => TaskResult::Complete,
        },
    }
}

/// Transition rule for the one-shot transfers (pick up, withdraw, deliver):
/// success completes, out of range moves in, anything else completes.
pub open spec fn spec_transfer_action(ctx: TaskContext, profile: MovementProfile) -> TaskResult {
    match ctx.outcome {
        ActionOutcome::TargetGone => TaskResult::Complete,
        ActionOutcome::Succeeded => TaskResult::Complete,
        ActionOutcome::Failed(e) => match e {
            ActionError::NotInRange => TaskResult::MoveMeTo(
                spec_goal(ctx.target_pos->Some_0, 1, profile, melee_dead_zone(ctx)),
            ),
            _ => TaskResult::Complete,
        },
    }
}

/// Transition rule for requesting a spawn: done when accepted or when the
/// name is already taken; retried while the spawner is busy or resources
/// are short; any other failure completes.
pub open spec fn spec_spawn_creep(ctx: TaskContext) -> TaskResult {
    match ctx.outcome {
        ActionOutcome::Succeeded => TaskResult::Complete,
        ActionOutcome::Failed(e) => match e {
            ActionError::NameExists => TaskResult::Complete,
            ActionError::Busy => TaskResult::StillWorking,
            ActionError::NotEnough => TaskResult::StillWorking,
            _ => TaskResult::Complete,
        },
        ActionOutcome::TargetGone => TaskResult::Complete,
    }
}

/// The whole transition relation of the state machine: what each task
/// returns for every possible observation.
pub open spec fn spec_run_task(t: Task, ctx: TaskContext, profile: MovementProfile)
    -> TaskResult {
    match t {
        Task::IdleUntil(tick) => if ctx.now >= tick {
            TaskResult::Complete
        } else {
            TaskResult::StillWorking
        },
        Task::MoveToPosition(pos, range) => if spec_range(ctx.worker_pos, pos) <= range {
            TaskResult::Complete
        } else {
            TaskResult::MoveMeTo(spec_goal(pos, range, MovementProfile::RoadsOneToTwo, false))
        },
        Task::HarvestEnergyUntilFull(_) => spec_harvest_until_full(ctx, profile),
        Task::HarvestEnergyForever(_) => spec_sustained_action(ctx, profile, melee_dead_zone(ctx)),
        Task::Build(_) => spec_sustained_action(ctx, profile, ranged_dead_zone(ctx)),
        Task::Repair(_) => spec_sustained_action(ctx, profile, ranged_dead_zone(ctx)),
        Task::Upgrade(_) => spec_sustained_action(ctx, profile, ranged_dead_zone(ctx)),
        Task::TakeFromResource(_) => spec_transfer_action(
            ctx,
            MovementProfile::SwampFiveToOne,
        ),
        Task::TakeFromStructure(_, _) => spec_transfer_action(
            ctx,
            MovementProfile::SwampFiveToOne,
        ),
        Task::DeliverToStructure(_, _) => spec_transfer_action(ctx, profile),
        Task::SpawnCreep(_) => spec_spawn_creep(ctx),
        Task::WaitToSpawn => if ctx.spawning {
            TaskResult::StillWorking
        } else {
            TaskResult::DestroyWorker
        },
    }
}

/// Decide whether the worker stands in the dead zone at distance `zone`.
fn in_dead_zone(ctx: &TaskContext, zone: u32) -> (r: bool)
    requires
        ctx.target_pos is Some,
    ensures
        r == (spec_range(ctx.worker_pos, ctx.target_pos->Some_0) == zone),
{
    match ctx.target_pos {
        Some(t) => ctx.worker_pos.get_range_to(t) as u32 == zone,
        None => false,
    }
}

/// Harvest from an energy node until the worker's store has no free
/// capacity left.
pub fn harvest_energy_until_full(ctx: &TaskContext, movement_profile: MovementProfile) -> (r:
    TaskResult)
    requires
        ctx_coherent(*ctx),
    ensures
        r == spec_harvest_until_full(*ctx, movement_profile),
{
    match ctx.outcome {
        ActionOutcome::TargetGone => TaskResult::Complete,
        ActionOutcome::Succeeded => {
            if ctx.free_energy == 0 {
                TaskResult::Complete
            } else {
                TaskResult::StillWorking
            }
        },
        ActionOutcome::Failed(e) => match e {
            ActionError::NotInRange => {
                let avoid_creeps = in_dead_zone(ctx, MELEE_OUT_OF_RANGE);
                let target = match ctx.target_pos {
                    Some(t) => t,
                    None => ctx.worker_pos,  // unreachable under coherence
                };
                TaskResult::MoveMeTo(
                    MovementGoal {
                        goal_pos: target,
                        goal_range: 1,
                        profile: movement_profile,
                        avoid_creeps,
                    },
                )
            },
            _ => TaskResult::Complete,
        },
    }
}

/// Shared body of the open-ended repeatable actions.
fn sustained_action(ctx: &TaskContext, movement_profile: MovementProfile, zone: u32) -> (r:
    TaskResult)
    requires
        ctx_coherent(*ctx),
    ensures
        r == spec_sustained_action(
            *ctx,
            movement_profile,
            ctx.target_pos matches Some(t) && spec_range(ctx.worker_pos, t) == zone,
        ),
{
    match ctx.outcome {
        ActionOutcome::TargetGone => TaskResult::Complete,
        ActionOutcome::Succeeded => TaskResult::StillWorking,
        ActionOutcome::Failed(e) => match e {
            ActionError::NotInRange => {
                let avoid_creeps = in_dead_zone(ctx, zone);
                let target = match ctx.target_pos {
                    Some(t) => t,
                    None => ctx.worker_pos,  // unreachable under coherence
                };
                TaskResult::MoveMeTo(
                    MovementGoal {
                        goal_pos: target,
                        goal_range: 1,
                        profile: movement_profile,
                        avoid_creeps,
                    },
                )
            },
            _ => TaskResult::Complete,
        },
    }
}

/// Harvest from an energy node forever; a parked dedicated harvester never
/// finishes this on its own.
pub fn harvest_energy_forever(ctx: &TaskContext, movement_profile: MovementProfile) -> (r:
    TaskResult)
    requires
        ctx_coherent(*ctx),
    ensures
        r == spec_sustained_action(*ctx, movement_profile, melee_dead_zone(*ctx)),
{
    sustained_action(ctx, movement_profile, MELEE_OUT_OF_RANGE)
}

/// Put work into a construction site.
pub fn build(ctx: &TaskContext, movement_profile: MovementProfile) -> (r: TaskResult)
    requires
        ctx_coherent(*ctx),
    ensures
        r == spec_sustained_action(*ctx, movement_profile, ranged_dead_zone(*ctx)),
{
    sustained_action(ctx, movement_profile, RANGED_OUT_OF_RANGE)
}

/// Restore hits to a damaged structure.
pub fn repair(ctx: &TaskContext, movement_profile: MovementProfile) -> (r: TaskResult)
    requires
        ctx_coherent(*ctx),
    ensures
        r == spec_sustained_action(*ctx, movement_profile, ranged_dead_zone(*ctx)),
{
    sustained_action(ctx, movement_profile, RANGED_OUT_OF_RANGE)
}

/// Feed the region's controller.
pub fn upgrade(ctx: &TaskContext, movement_profile: MovementProfile) -> (r: TaskResult)
    requires
        ctx_coherent(*ctx),
    ensures
        r == spec_sustained_action(*ctx, movement_profile, ranged_dead_zone(*ctx)),
{
    sustained_action(ctx, movement_profile, RANGED_OUT_OF_RANGE)
}

/// Shared body of the one-shot transfers.
fn transfer_action(ctx: &TaskContext, movement_profile: MovementProfile) -> (r: TaskResult)
    requires
        ctx_coherent(*ctx),
    ensures
        r == spec_transfer_action(*ctx, movement_profile),
{
    match ctx.outcome {
        ActionOutcome::TargetGone => TaskResult::Complete,
        ActionOutcome::Succeeded => TaskResult::Complete,
        ActionOutcome::Failed(e) => match e {
            ActionError::NotInRange => {
                let avoid_creeps = in_dead_zone(ctx, MELEE_OUT_OF_RANGE);
                let target = match ctx.target_pos {
                    Some(t) => t,
                    None => ctx.worker_pos,  // unreachable under coherence
                };
                TaskResult::MoveMeTo(
                    MovementGoal {
                        goal_pos: target,
                        goal_range: 1,
                        profile: movement_profile,
                        avoid_creeps,
                    },
                )
            },
            _ => TaskResult::Complete,
        },
    }
}

/// Pick up a dropped resource pile. The store is empty on the way there,
/// so the swamp-speed profile is forced regardless of body.
pub fn take_from_resource(ctx: &TaskContext, _movement_profile: MovementProfile) -> (r:
    TaskResult)
    requires
        ctx_coherent(*ctx),
    ensures
        r == spec_transfer_action(*ctx, MovementProfile::SwampFiveToOne),
{
    transfer_action(ctx, MovementProfile::SwampFiveToOne)
}

/// Withdraw from a structure's store; same forced profile as pickup.
pub fn take_from_structure(ctx: &TaskContext, _movement_profile: MovementProfile) -> (r:
    TaskResult)
    requires
        ctx_coherent(*ctx),
    ensures
        r == spec_transfer_action(*ctx, MovementProfile::SwampFiveToOne),
{
    transfer_action(ctx, MovementProfile::SwampFiveToOne)
}

/// Hand resources over to a structure's store.
pub fn deliver_to_structure(ctx: &TaskContext, movement_profile: MovementProfile) -> (r:
    TaskResult)
    requires
        ctx_coherent(*ctx),
    ensures
        r == spec_transfer_action(*ctx, movement_profile),
{
    transfer_action(ctx, movement_profile)
}

/// Ask the spawner to produce a creep for a role.
pub fn spawn_creep(ctx: &TaskContext) -> (r: TaskResult)
    ensures
        r == spec_spawn_creep(*ctx),
{
    match ctx.outcome {
        ActionOutcome::Succeeded => TaskResult::Complete,
        ActionOutcome::Failed(e) => match e {
            ActionError::NameExists => TaskResult::Complete,
            ActionError::Busy => TaskResult::StillWorking,
            ActionError::NotEnough => TaskResult::StillWorking,
            _ => TaskResult::Complete,
        },
        ActionOutcome::TargetGone => TaskResult::Complete,
    }
}

/// Wait out materialization; once it finishes, the stub worker is
/// destroyed so reconciliation can pick the real role up from the name.
pub fn wait_to_spawn(ctx: &TaskContext) -> (r: TaskResult)
    ensures
        ctx.spawning ==> r == TaskResult::StillWorking,
        !ctx.spawning ==> r == TaskResult::DestroyWorker,
{
    if ctx.spawning {
        TaskResult::StillWorking
    } else {
        TaskResult::DestroyWorker
    }
}

impl Task {
    /// Decide the outcome of running the task for one tick, from the
    /// observed world state.
    pub fn run_task(&self, ctx: &TaskContext, movement_profile: MovementProfile) -> (r:
        TaskResult)
        requires
            task_worker_compatible(*self, ctx.kind),
            ctx_coherent(*ctx),
        ensures
            r == spec_run_task(*self, *ctx, movement_profile),
    {
        match self {
            Task::IdleUntil(tick) => {
                if ctx.now >= *tick {
                    TaskResult::Complete
                } else {
                    TaskResult::StillWorking
                }
            },
            Task::MoveToPosition(position, range) => {
                if ctx.worker_pos.get_range_to(*position) as u32 <= *range {
                    TaskResult::Complete
                } else {
                    TaskResult::MoveMeTo(
                        MovementGoal {
                            goal_pos: *position,
                            goal_range: *range,
                            profile: MovementProfile::RoadsOneToTwo,
                            avoid_creeps: false,
                        },
                    )
                }
            },
            Task::HarvestEnergyUntilFull(_) => harvest_energy_until_full(ctx, movement_profile),
            Task::HarvestEnergyForever(_) => harvest_energy_forever(ctx, movement_profile),
            Task::Build(_) => build(ctx, movement_profile),
            Task::Repair(_) => repair(ctx, movement_profile),
            Task::Upgrade(_) => upgrade(ctx, movement_profile),
            Task::TakeFromResource(_) => take_from_resource(ctx, movement_profile),
            Task::TakeFromStructure(_, _) => take_from_structure(ctx, movement_profile),
            Task::DeliverToStructure(_, _) => deliver_to_structure(ctx, movement_profile),
            Task::SpawnCreep(_) => spawn_creep(ctx),
            Task::WaitToSpawn => wait_to_spawn(ctx),
        }
    }
}

/// A worker idling towards a future deadline keeps idling, with no other
/// effect, however many times it is re-run in one tick: the rule is a pure
/// function of the deadline and the clock.
pub proof fn lemma_idle_until_is_idempotent(
    deadline: u32,
    ctx: TaskContext,
    profile: MovementProfile,
)
    requires
        ctx.now < deadline,
    ensures
        spec_run_task(Task::IdleUntil(deadline), ctx, profile) == TaskResult::StillWorking,
{
}

/// A repair task whose target no longer resolves completes at once, with
/// no movement request or any other side effect.
pub proof fn lemma_vanished_target_completes(
    target: u128,
    ctx: TaskContext,
    profile: MovementProfile,
)
    requires
        ctx.outcome == ActionOutcome::TargetGone,
    ensures
        spec_run_task(Task::Repair(target), ctx, profile) == TaskResult::Complete,
{
}

} // verus!
