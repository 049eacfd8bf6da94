//! Per-tick movement resolution: decide for every mobile worker whether it
//! idles, reuses its cached path, needs a fresh plan, or steps; then let
//! idle workers swap places with workers that want to move into them.
//!
//! Issuing the actual step commands, and running the graph search for a
//! fresh plan, happens outside this library. The driver classifies every
//! worker first (collecting idle cells and movement intents) and resolves
//! swaps only afterwards: swap eligibility depends on the complete idle
//! set, which no single pass can know.

use vstd::prelude::*;

use crate::grid::{spec_opposite, spec_range, Direction, Pos};
use crate::movement::{spec_compress, spec_step_update, PathState};
use crate::worker::{WorkerId, WorkerState};
use crate::STUCK_REPATH_THRESHOLD;

verus! {

/// What the resolver decided for one worker this tick.
#[derive(PartialEq, Eq, Structural, Hash, Debug, Clone, Copy)]
pub enum MoveDecision {
    /// Nothing to do: the worker cannot act, its path is exhausted, or
    /// planning is being skipped this tick.
    Stay,
    /// The worker has nowhere to be; it is a swap candidate at its cell.
    Idle,
    /// Step in this direction, and record the intent to enter the
    /// neighbouring cell.
    Step(Direction),
    /// The goal stands but no usable path is cached: a fresh plan is
    /// wanted (and affordable this tick).
    PlanNeeded,
}

/// A cached path advanced by this tick's observation remains usable only
/// while its stored goal still equals the current goal and its stuck count
/// is at or below the repath threshold.
pub open spec fn cache_usable(ps: PathState, g: crate::movement::MovementGoal) -> bool {
    ps.goal == g && ps.stuck_count <= STUCK_REPATH_THRESHOLD
}

impl WorkerState {
    /// Classify this worker for the movement phase and advance or discard
    /// its cached path accordingly. The task queue and role are never
    /// touched; a goal, once unmet, is kept until met.
    pub fn resolve_worker_movement(
        &mut self,
        position: Pos,
        fatigue: u32,
        can_move: bool,
        cpu_critical: bool,
    ) -> (d: MoveDecision)
        requires
            old(self).path_state matches Some(ps) ==> ps.path_progress < usize::MAX,
        ensures
            final(self).role == old(self).role,
            final(self).task_queue@ == old(self).task_queue@,
            (!can_move || fatigue > 0) ==> d == MoveDecision::Stay && *final(self) == *old(self),
            (can_move && fatigue == 0 && old(self).movement_goal is None) ==> d
                == MoveDecision::Idle && *final(self) == *old(self),
            old(self).movement_goal matches Some(g) ==> ((can_move && fatigue == 0 && spec_range(
                position,
                g.goal_pos,
            ) <= g.goal_range) ==> d == MoveDecision::Idle && final(self).path_state is None
                && final(self).movement_goal is None),
            old(self).movement_goal matches Some(g) ==> ((can_move && fatigue == 0 && spec_range(
                position,
                g.goal_pos,
            ) > g.goal_range) ==> {
                &&& final(self).movement_goal == old(self).movement_goal
                &&& match old(self).path_state {
                    Some(ps) => {
                        let a = spec_step_update(ps, position);
                        if cache_usable(a, g) {
                            if a.path_progress < a.path@.len() {
                                &&& d == MoveDecision::Step(a.path@[a.path_progress as int])
                                &&& final(self).path_state == Some(
                                    PathState {
                                        next_direction: a.path@[a.path_progress as int],
                                        ..a
                                    },
                                )
                            } else {
                                &&& d == MoveDecision::Stay
                                &&& final(self).path_state is None
                            }
                        } else {
                            &&& final(self).path_state is None
                            &&& d == if cpu_critical {
                                MoveDecision::Stay
                            } else {
                                MoveDecision::PlanNeeded
                            }
                        }
                    },
                    None => {
                        &&& final(self).path_state is None
                        &&& d == if cpu_critical {
                            MoveDecision::Stay
                        } else {
                            MoveDecision::PlanNeeded
                        }
                    },
                }
            }),
    {
        if !can_move || fatigue > 0 {
            return MoveDecision::Stay;
        }
        let goal = match self.movement_goal {
            Some(g) => g,
            None => {
                return MoveDecision::Idle;
            },
        };
        if position.get_range_to(goal.goal_pos) as u32 <= goal.goal_range {
            // Goal is met: unset any cached path, clear the goal, idle.
            self.path_state = None;
            self.movement_goal = None;
            return MoveDecision::Idle;
        }
        match self.path_state.take() {
            Some(mut ps) => {
                ps.check_if_moved_and_update_pos(position);
                if ps.goal == goal && ps.stuck_count <= STUCK_REPATH_THRESHOLD {
                    if ps.path_progress < ps.path.len() {
                        let dir = ps.path[ps.path_progress];
                        ps.next_direction = dir;
                        self.path_state = Some(ps);
                        MoveDecision::Step(dir)
                    } else {
                        // The cached steps are exhausted; the cache is
                        // dropped and the worker stands this tick.
                        MoveDecision::Stay
                    }
                } else {
                    // Goal changed or worker stuck: the cache is dropped
                    // and a fresh plan wanted, budget permitting.
                    if cpu_critical {
                        MoveDecision::Stay
                    } else {
                        MoveDecision::PlanNeeded
                    }
                }
            },
            None => {
                if cpu_critical {
                    MoveDecision::Stay
                } else {
                    MoveDecision::PlanNeeded
                }
            },
        }
    }

    /// Install a freshly planned path (built from the searched cells) and
    /// take its first step. An incomplete search that compressed to no
    /// steps leaves the worker stationary this tick, with nothing cached.
    pub fn apply_fresh_plan(&mut self, position: Pos, cells: &Vec<Pos>) -> (step: Option<
        Direction,
    >)
        requires
            old(self).movement_goal is Some,
        ensures
            final(self).role == old(self).role,
            final(self).task_queue@ == old(self).task_queue@,
            final(self).movement_goal == old(self).movement_goal,
            ({
                let steps = spec_compress(position, cells@);
                let g = old(self).movement_goal->Some_0;
                if steps.len() > 0 {
                    &&& step == Some(steps[0])
                    &&& final(self).path_state matches Some(n)
                    &&& final(self).path_state->Some_0.goal == g
                    &&& final(self).path_state->Some_0.stuck_count == 0
                    &&& final(self).path_state->Some_0.last_position == position
                    &&& final(self).path_state->Some_0.next_direction == steps[0]
                    &&& final(self).path_state->Some_0.path@ == steps
                    &&& final(self).path_state->Some_0.path_progress == 0
                } else {
                    &&& step is None
                    &&& final(self).path_state is None
                }
            }),
    {
        let goal = match self.movement_goal {
            Some(g) => g,
            None => {
                return None;
            },
        };
        let ps = goal.find_path_to(position, cells);
        if ps.path.len() > 0 {
            let dir = ps.path[0];
            self.path_state = Some(ps);
            Some(dir)
        } else {
            self.path_state = None;
            None
        }
    }
}

/// The first idle worker registered at cell `c`, if any.
pub open spec fn idle_find(idle: Seq<(Pos, WorkerId)>, c: Pos) -> Option<WorkerId>
    decreases idle.len(),
{
    if idle.len() == 0 {
        None
    } else if idle[0].0 == c {
        Some(idle[0].1)
    } else {
        idle_find(idle.skip(1), c)
    }
}

/// The swap commands that one tick's idle set and movement intents give
/// rise to: for each intended destination cell occupied by an idle worker,
/// that worker is told to step exactly opposite the mover's direction.
pub open spec fn spec_swaps(idle: Seq<(Pos, WorkerId)>, intents: Seq<(Pos, Direction)>) -> Seq<
    (WorkerId, Direction),
>
    decreases intents.len(),
{
    if intents.len() == 0 {
        Seq::empty()
    } else {
        let rest = spec_swaps(idle, intents.skip(1));
        match idle_find(idle, intents[0].0) {
            Some(w) => seq![(w, spec_opposite(intents[0].1))] + rest,
            None => rest,
        }
    }
}

/// Look up the first idle worker registered at cell `c`.
fn find_idle_at(idle: &Vec<(Pos, WorkerId)>, c: Pos) -> (r: Option<WorkerId>)
    ensures
        r == idle_find(idle@, c),
{
    let n = idle.len();
    let mut i: usize = 0;
    proof {
        assert(idle@.skip(0) =~= idle@);
    }
    while i < n
        invariant
            i <= n,
            n == idle@.len(),
            idle_find(idle@, c) == idle_find(idle@.skip(i as int), c),
        decreases n - i,
    {
        proof {
            let rest = idle@.skip(i as int);
            assert(rest[0] == idle@[i as int]);
            assert(rest.skip(1) =~= idle@.skip(i as int + 1));
        }
        if idle[i].0 == c {
            return Some(idle[i].1);
        }
        i = i + 1;
    }
    proof {
        assert(idle@.skip(i as int) =~= Seq::<(Pos, WorkerId)>::empty());
    }
    None
}

/// Resolve the courtesy swaps: for each `(cell, direction)` a mover
/// intends, command the idle worker at that cell (if any) to step in the
/// exact opposite direction.
pub fn resolve_swaps(idle_workers: &Vec<(Pos, WorkerId)>, moving_workers: &Vec<(Pos, Direction)>)
    -> (cmds: Vec<(WorkerId, Direction)>)
    ensures
        cmds@ == spec_swaps(idle_workers@, moving_workers@),
{
    let mut cmds: Vec<(WorkerId, Direction)> = Vec::new();
    let n = moving_workers.len();
    let mut i: usize = 0;
    proof {
        assert(moving_workers@.skip(0) =~= moving_workers@);
        assert(cmds@ + spec_swaps(idle_workers@, moving_workers@) =~= spec_swaps(
            idle_workers@,
            moving_workers@,
        ));
    }
    while i < n
        invariant
            i <= n,
            n == moving_workers@.len(),
            spec_swaps(idle_workers@, moving_workers@) == cmds@ + spec_swaps(
                idle_workers@,
                moving_workers@.skip(i as int),
            ),
        decreases n - i,
    {
        proof {
            let rest = moving_workers@.skip(i as int);
            assert(rest[0] == moving_workers@[i as int]);
            assert(rest.skip(1) =~= moving_workers@.skip(i as int + 1));
        }
        let (dest, dir) = moving_workers[i];
        match find_idle_at(idle_workers, dest) {
            Some(w) => {
                let ghost cmds0 = cmds@;
                cmds.push((w, dir.opposite()));
                proof {
                    let tail = spec_swaps(idle_workers@, moving_workers@.skip(i as int + 1));
                    assert(cmds@ =~= cmds0 + seq![(w, spec_opposite(dir))]);
                    assert(cmds0 + (seq![(w, spec_opposite(dir))] + tail) =~= (cmds0 + seq![
                        (w, spec_opposite(dir)),
                    ]) + tail);
                }
            },
            None => {},
        }
        i = i + 1;
    }
    proof {
        assert(moving_workers@.skip(i as int) =~= Seq::<(Pos, Direction)>::empty());
        assert(spec_swaps(idle_workers@, moving_workers@.skip(i as int)) == Seq::<
            (WorkerId, Direction),
        >::empty());
        assert(cmds@ + Seq::<(WorkerId, Direction)>::empty() =~= cmds@);
    }
    cmds
}

/// What makes the commanded direction the right one: stepping exactly
/// opposite the mover's direction takes the idle worker from the mover's
/// intended destination onto the mover's own cell — the two trade places.
pub proof fn lemma_swap_trades_places(mover: Pos, d: Direction, dest: Pos)
    requires
        crate::grid::stepped(mover, d, dest),
    ensures
        crate::grid::stepped(dest, spec_opposite(d), mover),
{
}

/// A found idle worker really is registered at that cell.
pub proof fn lemma_idle_find_member(idle: Seq<(Pos, WorkerId)>, c: Pos)
    ensures
        idle_find(idle, c) matches Some(w) ==> exists|i: int|
            0 <= i < idle.len() && idle[i] == (c, w),
    decreases idle.len(),
{
    if idle.len() > 0 && idle[0].0 != c {
        lemma_idle_find_member(idle.skip(1), c);
        if idle_find(idle, c) is Some {
            let w = idle_find(idle, c)->Some_0;
            let i = choose|i: int| 0 <= i < idle.skip(1).len() && idle.skip(1)[i] == (c, w);
            assert(idle[i + 1] == (c, w));
        }
    }
}

/// Swap correctness, first half: a mover whose intended destination holds
/// an idle worker gets that worker commanded one step in the exact
/// opposite direction.
pub proof fn lemma_swap_commands_blocked_cell(
    idle: Seq<(Pos, WorkerId)>,
    intents: Seq<(Pos, Direction)>,
    j: int,
)
    requires
        0 <= j < intents.len(),
        idle_find(idle, intents[j].0) is Some,
    ensures
        exists|k: int|
            0 <= k < spec_swaps(idle, intents).len() && spec_swaps(idle, intents)[k] == (
                idle_find(idle, intents[j].0)->Some_0,
                spec_opposite(intents[j].1),
            ),
    decreases intents.len(),
{
    let cmds = spec_swaps(idle, intents);
    if j == 0 {
        assert(cmds[0] == (idle_find(idle, intents[0].0)->Some_0, spec_opposite(intents[0].1)));
    } else {
        lemma_swap_commands_blocked_cell(idle, intents.skip(1), j - 1);
        let rest = spec_swaps(idle, intents.skip(1));
        let k = choose|k: int|
            0 <= k < rest.len() && rest[k] == (
                idle_find(idle, intents.skip(1)[j - 1].0)->Some_0,
                spec_opposite(intents.skip(1)[j - 1].1),
            );
        match idle_find(idle, intents[0].0) {
            Some(_) => {
                assert(cmds[k + 1] == rest[k]);
            },
            None => {
                assert(cmds[k] == rest[k]);
            },
        }
    }
}

/// Swap correctness, second half: an idle worker standing only at cells
/// that no mover intends to enter is never commanded to move.
pub proof fn lemma_unintended_idle_left_alone(
    idle: Seq<(Pos, WorkerId)>,
    intents: Seq<(Pos, Direction)>,
    w: WorkerId,
)
    requires
        forall|i: int, j: int|
            0 <= i < idle.len() && 0 <= j < intents.len() && idle[i].1 == w ==> intents[j].0
                != idle[i].0,
    ensures
        forall|k: int|
            0 <= k < spec_swaps(idle, intents).len() ==> (#[trigger] spec_swaps(idle, intents)[k]).0
                != w,
    decreases intents.len(),
{
    if intents.len() > 0 {
        lemma_unintended_idle_left_alone(idle, intents.skip(1), w);
        let cmds = spec_swaps(idle, intents);
        let rest = spec_swaps(idle, intents.skip(1));
        match idle_find(idle, intents[0].0) {
            Some(found) => {
                lemma_idle_find_member(idle, intents[0].0);
                let i = choose|i: int|
                    0 <= i < idle.len() && idle[i] == (intents[0].0, found);
                assert(found != w) by {
                    if found == w {
                        assert(intents[0].0 != idle[i].0);
                    }
                }
                assert(forall|k: int| 0 <= k < cmds.len() ==> cmds[k] == if k == 0 {
                    (found, spec_opposite(intents[0].1))
                } else {
                    rest[k - 1]
                });
            },
            None => {},
        }
    }
}

} // verus!
