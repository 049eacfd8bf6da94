//! Worker identity and durable state, the task-queue semantics that task
//! outcomes are applied with, and the registry that reconciles tracked
//! workers against the live world each tick.
//!
//! Resolving an identifier into a live object, and every other touch of
//! the world, happens outside this library; the registry here records the
//! decisions (track, classify, remove) on plain values.

use std::collections::VecDeque;

use vstd::prelude::*;

use crate::codec::{decode_role, spec_decode_role};
use crate::movement::{MovementGoal, PathState};
use crate::role::{Invalid, RoomId, SpawningCreep, WorkerRole};
use crate::task::{Task, TaskResult};

verus! {

/// A stable identifier for a worker: the packed object identifier of a
/// mobile agent, a spawning structure, or a static action structure.
#[derive(PartialEq, Eq, Structural, Hash, Debug, Copy, Clone)]
pub enum WorkerId {
    Creep(u128),
    Spawn(u128),
    Tower(u128),
}

/// Per-room colony bookkeeping (spawn queues, remote tracking) — not yet
/// populated.
#[derive(Debug, Clone)]
pub struct ColonyState {}

/// The durable state of one registered worker: its role, its ordered task
/// queue (front is the active task), its current movement goal, and its
/// cached path state. The tick-scoped live handle is deliberately not
/// here: handles are owned by the surrounding driver and never survive a
/// tick.
#[derive(Debug)]
pub struct WorkerState {
    pub role: WorkerRole,
    pub task_queue: VecDeque<Task>,
    pub movement_goal: Option<MovementGoal>,
    pub path_state: Option<PathState>,
}

impl WorkerState {
    /// Fresh state for a newly observed worker: empty queue, no goal, no
    /// cached path.
    pub fn new_with_role(role: WorkerRole) -> (s: WorkerState)
        ensures
            s.role == role,
            s.task_queue@ == Seq::<Task>::empty(),
            s.movement_goal is None,
            s.path_state is None,
    {
        WorkerState { role, task_queue: VecDeque::new(), movement_goal: None, path_state: None }
    }

    /// Take the task at the front of the queue, if any.
    pub fn pop_current_task(&mut self) -> (t: Option<Task>)
        ensures
            final(self).role == old(self).role,
            final(self).movement_goal == old(self).movement_goal,
            final(self).path_state == old(self).path_state,
            match t {
                Some(x) => {
                    &&& old(self).task_queue@.len() > 0
                    &&& x == old(self).task_queue@[0]
                    &&& final(self).task_queue@ == old(self).task_queue@.skip(1)
                },
                None => {
                    &&& old(self).task_queue@.len() == 0
                    &&& final(self).task_queue@ == old(self).task_queue@
                },
            },
    {
        let r = self.task_queue.pop_front();
        proof {
            if old(self).task_queue@.len() > 0 {
                assert(self.task_queue@ =~= old(self).task_queue@.skip(1));
            }
        }
        r
    }
}

/// The queue a worker is left with after its popped task `current` came
/// back with `result`.
pub open spec fn spec_apply_queue(q: Seq<Task>, current: Task, result: TaskResult) -> Seq<Task> {
    match result {
        TaskResult::Complete => q,
        TaskResult::StillWorking => seq![current] + q,
        TaskResult::MoveMeTo(_) => seq![current] + q,
        TaskResult::AddTaskToFront(t) => seq![t, current] + q,
        TaskResult::CompleteAddTaskToFront(t) => seq![t] + q,
        TaskResult::CompleteAddTaskToBack(t) => q.push(t),
        TaskResult::DestroyWorker => q,
    }
}

/// Apply one task outcome to a worker whose front task `current` was
/// already popped. Returns whether the worker is to be deregistered.
pub fn apply_task_result(state: &mut WorkerState, current: Task, result: TaskResult) -> (destroy:
    bool)
    ensures
        final(state).role == old(state).role,
        final(state).path_state == old(state).path_state,
        final(state).task_queue@ == spec_apply_queue(old(state).task_queue@, current, result),
        final(state).movement_goal == match result {
            TaskResult::MoveMeTo(g) => Some(g),
            _ => old(state).movement_goal,
        },
        destroy == (result is DestroyWorker),
{
    match result {
        TaskResult::Complete => false,
        TaskResult::StillWorking => {
            state.task_queue.push_front(current);
            false
        },
        TaskResult::MoveMeTo(goal) => {
            state.movement_goal = Some(goal);
            state.task_queue.push_front(current);
            false
        },
        TaskResult::AddTaskToFront(t) => {
            state.task_queue.push_front(current);
            state.task_queue.push_front(t);
            proof {
                assert(state.task_queue@ =~= seq![t, current] + old(state).task_queue@);
            }
            false
        },
        TaskResult::CompleteAddTaskToFront(t) => {
            state.task_queue.push_front(t);
            false
        },
        TaskResult::CompleteAddTaskToBack(t) => {
            state.task_queue.push_back(t);
            false
        },
        TaskResult::DestroyWorker => true,
    }
}

/// A `Complete` outcome for the task at the front of the queue removes
/// exactly that one entry and nothing else, and a `CompleteAddTaskToFront`
/// replaces the front entry with exactly one new entry, leaving the rest
/// of the queue undisturbed.
pub proof fn lemma_completion_drains_exactly_one(q: Seq<Task>, replacement: Task)
    requires
        q.len() > 0,
    ensures
        spec_apply_queue(q.skip(1), q[0], TaskResult::Complete) == q.skip(1),
        spec_apply_queue(q.skip(1), q[0], TaskResult::Complete).len() == q.len() - 1,
        forall|i: int|
            1 <= i < q.len() ==> spec_apply_queue(q.skip(1), q[0], TaskResult::Complete)[i - 1]
                == #[trigger] q[i],
        spec_apply_queue(q.skip(1), q[0], TaskResult::CompleteAddTaskToFront(replacement))
            =~= seq![replacement] + q.skip(1),
        spec_apply_queue(
            q.skip(1),
            q[0],
            TaskResult::CompleteAddTaskToFront(replacement),
        ).len() == q.len(),
        spec_apply_queue(q.skip(1), q[0], TaskResult::CompleteAddTaskToFront(replacement))[0]
            == replacement,
        forall|i: int|
            1 <= i < q.len() ==> spec_apply_queue(
                q.skip(1),
                q[0],
                TaskResult::CompleteAddTaskToFront(replacement),
            )[i] == q[i],
{
}

/// The whole persistent state of the bot on one shard: per-room colony
/// bookkeeping, every tracked worker, and the set of roles currently
/// filled by a live worker.
#[derive(Debug)]
pub struct ShardState {
    /// The tick this state was created on.
    pub global_init_time: u32,
    pub colony_state: Vec<(RoomId, ColonyState)>,
    pub worker_state: Vec<(WorkerId, WorkerState)>,
    /// Which roles have an active worker, letting spawns decide what is
    /// missing. The sentinel role of an undecodable name is never entered
    /// here.
    pub worker_roles: Vec<WorkerRole>,
}

/// Some tracked worker carries identifier `id`.
pub open spec fn has_worker(s: Seq<(WorkerId, WorkerState)>, id: WorkerId) -> bool {
    exists|i: int| 0 <= i < s.len() && s[i].0 == id
}

/// No two tracked workers share an identifier.
pub open spec fn unique_worker_ids(s: Seq<(WorkerId, WorkerState)>) -> bool {
    forall|i: int, j: int| 0 <= i < j < s.len() ==> s[i].0 != s[j].0
}

/// The role list holds `r`.
pub open spec fn has_role(s: Seq<WorkerRole>, r: WorkerRole) -> bool {
    exists|i: int| 0 <= i < s.len() && s[i] == r
}

impl ShardState {
    /// Fresh shard state, created on tick `now`.
    pub fn new(now: u32) -> (s: ShardState)
        ensures
            s.global_init_time == now,
            s.colony_state@ == Seq::<(RoomId, ColonyState)>::empty(),
            s.worker_state@ == Seq::<(WorkerId, WorkerState)>::empty(),
            s.worker_roles@ == Seq::<WorkerRole>::empty(),
    {
        ShardState {
            global_init_time: now,
            colony_state: Vec::new(),
            worker_state: Vec::new(),
            worker_roles: Vec::new(),
        }
    }

    /// Index of the tracked worker carrying `id`, if any.
    pub fn find_worker_index(&self, id: WorkerId) -> (r: Option<usize>)
        ensures
            match r {
                Some(i) => i < self.worker_state@.len() && self.worker_state@[i as int].0 == id,
                None => !has_worker(self.worker_state@, id),
            },
    {
        let n = self.worker_state.len();
        let mut i: usize = 0;
        while i < n
            invariant
                i <= n,
                n == self.worker_state@.len(),
                forall|j: int| 0 <= j < i ==> self.worker_state@[j].0 != id,
            decreases n - i,
        {
            if self.worker_state[i].0 == id {
                return Some(i);
            }
            i = i + 1;
        }
        None
    }

    /// Whether a role is already filled by an active worker.
    pub fn role_is_active(&self, role: &WorkerRole) -> (r: bool)
        ensures
            r == has_role(self.worker_roles@, *role),
    {
        let n = self.worker_roles.len();
        let mut i: usize = 0;
        while i < n
            invariant
                i <= n,
                n == self.worker_roles@.len(),
                forall|j: int| 0 <= j < i ==> self.worker_roles@[j] != *role,
            decreases n - i,
        {
            if self.worker_roles[i] == *role {
                return true;
            }
            i = i + 1;
        }
        false
    }

    /// Record a role as filled, once.
    fn insert_role(&mut self, role: WorkerRole)
        ensures
            final(self).global_init_time == old(self).global_init_time,
            final(self).colony_state@ == old(self).colony_state@,
            final(self).worker_state@ == old(self).worker_state@,
            final(self).worker_roles@ == if has_role(old(self).worker_roles@, role) {
                old(self).worker_roles@
            } else {
                old(self).worker_roles@.push(role)
            },
    {
        if !self.role_is_active(&role) {
            self.worker_roles.push(role);
        }
    }

    /// Reconcile one observed mobile agent against the registry. An agent
    /// already tracked is left as it is. A new agent still materializing
    /// is tracked under the transient materializing role. Otherwise its
    /// display name decides: a name that decodes yields that role, which
    /// is also recorded as filled; a name that does not decode yields the
    /// permanent sentinel role, deliberately left out of the filled set.
    pub fn register_creep(&mut self, id: WorkerId, spawning: bool, name: &Vec<u8>)
        requires
            unique_worker_ids(old(self).worker_state@),
        ensures
            unique_worker_ids(final(self).worker_state@),
            final(self).global_init_time == old(self).global_init_time,
            final(self).colony_state@ == old(self).colony_state@,
            has_worker(old(self).worker_state@, id) ==> final(self).worker_state@ == old(self).worker_state@ && final(self).worker_roles@ == old(self).worker_roles@,
            !has_worker(old(self).worker_state@, id) ==> {
                let role = spec_registered_creep_role(spawning, name@);
                &&& final(self).worker_state@.len() == old(self).worker_state@.len() + 1
                &&& final(self).worker_state@.take(old(self).worker_state@.len() as int) == old(self).worker_state@
                &&& final(self).worker_state@.last().0 == id
                &&& final(self).worker_state@.last().1.role == role
                &&& final(self).worker_state@.last().1.task_queue@ == Seq::<Task>::empty()
                &&& final(self).worker_state@.last().1.movement_goal is None
                &&& final(self).worker_state@.last().1.path_state is None
                &&& final(self).worker_roles@ == if !spawning && spec_decode_role(name@) is Some
                    && !has_role(old(self).worker_roles@, role) {
                    old(self).worker_roles@.push(role)
                } else {
                    old(self).worker_roles@
                }
            },
    {
        match self.find_worker_index(id) {
            Some(_) => {
                // Already tracked; the caller refreshes its own live
                // handle, nothing changes here.
            },
            None => {
                if spawning {
                    let state = WorkerState::new_with_role(
                        WorkerRole::SpawningCreep(SpawningCreep {  }),
                    );
                    self.worker_state.push((id, state));
                } else {
                    match decode_role(name) {
                        Some(role) => {
                            self.insert_role(role);
                            let state = WorkerState::new_with_role(role);
                            self.worker_state.push((id, state));
                        },
                        None => {
                            let state = WorkerState::new_with_role(
                                WorkerRole::Invalid(Invalid {  }),
                            );
                            self.worker_state.push((id, state));
                        },
                    }
                }
            },
        }
    }

    /// Track an observed worker structure, replacing any state already
    /// held under its identifier with a fresh one.
    pub fn register_structure(&mut self, id: WorkerId, role: WorkerRole)
        requires
            unique_worker_ids(old(self).worker_state@),
        ensures
            unique_worker_ids(final(self).worker_state@),
            final(self).global_init_time == old(self).global_init_time,
            final(self).colony_state@ == old(self).colony_state@,
            final(self).worker_roles@ == old(self).worker_roles@,
            final(self).worker_state@.len() == if has_worker(old(self).worker_state@, id) {
                old(self).worker_state@.len() as int
            } else {
                old(self).worker_state@.len() + 1 as int
            },
            has_worker(final(self).worker_state@, id),
            exists|i: int|
                {
                    &&& 0 <= i < final(self).worker_state@.len()
                    &&& final(self).worker_state@[i].0 == id
                    &&& final(self).worker_state@[i].1.role == role
                    &&& final(self).worker_state@[i].1.task_queue@ == Seq::<Task>::empty()
                    &&& final(self).worker_state@[i].1.movement_goal is None
                    &&& final(self).worker_state@[i].1.path_state is None
                    &&& forall|j: int|
                        0 <= j < old(self).worker_state@.len() && j != i ==> final(self).worker_state@[j] == old(self).worker_state@[j]
                },
    {
        let state = WorkerState::new_with_role(role);
        match self.find_worker_index(id) {
            Some(i) => {
                self.worker_state[i] = (id, state);
                proof {
                    let wi = i as int;
                    assert(has_worker(old(self).worker_state@, id));
                    assert(self.worker_state@[wi].0 == id);
                    assert forall|j: int, k: int|
                        0 <= j < k < self.worker_state@.len() implies self.worker_state@[j].0
                        != self.worker_state@[k].0 by {
                        if j != wi && k != wi {
                            assert(old(self).worker_state@[j].0 != old(self).worker_state@[k].0);
                        }
                    }
                    assert(0 <= wi < self.worker_state@.len() && self.worker_state@[wi].0 == id
                        && self.worker_state@[wi].1.role == role && self.worker_state@[
                        wi
                    ].1.task_queue@ == Seq::<Task>::empty() && self.worker_state@[
                        wi
                    ].1.movement_goal is None && self.worker_state@[wi].1.path_state is None
                        && forall|j: int|
                        0 <= j < old(self).worker_state@.len() && j != wi
                            ==> self.worker_state@[j] == old(self).worker_state@[j]);
                }
            },
            None => {
                self.worker_state.push((id, state));
                proof {
                    let wi = old(self).worker_state@.len() as int;
                    assert(self.worker_state@[wi].0 == id);
                    assert forall|j: int, k: int|
                        0 <= j < k < self.worker_state@.len() implies self.worker_state@[j].0
                        != self.worker_state@[k].0 by {
                        if k != wi {
                            assert(old(self).worker_state@[j].0 != old(self).worker_state@[k].0);
                        } else {
                            assert(self.worker_state@[j] == old(self).worker_state@[j]);
                        }
                    }
                    assert(0 <= wi < self.worker_state@.len() && self.worker_state@[wi].0 == id
                        && self.worker_state@[wi].1.role == role && self.worker_state@[
                        wi
                    ].1.task_queue@ == Seq::<Task>::empty() && self.worker_state@[
                        wi
                    ].1.movement_goal is None && self.worker_state@[wi].1.path_state is None
                        && forall|j: int|
                        0 <= j < old(self).worker_state@.len() && j != wi
                            ==> self.worker_state@[j] == old(self).worker_state@[j]);
                }
            },
        }
    }

    /// Deregister the worker carrying `id`, if tracked, and release its
    /// role from the filled set.
    pub fn remove_worker(&mut self, id: WorkerId)
        requires
            unique_worker_ids(old(self).worker_state@),
        ensures
            unique_worker_ids(final(self).worker_state@),
            final(self).global_init_time == old(self).global_init_time,
            final(self).colony_state@ == old(self).colony_state@,
            !has_worker(final(self).worker_state@, id),
            !has_worker(old(self).worker_state@, id) ==> final(self).worker_state@ == old(self).worker_state@ && final(self).worker_roles@ == old(self).worker_roles@,
            has_worker(old(self).worker_state@, id) ==> exists|i: int|
                {
                    &&& 0 <= i < old(self).worker_state@.len()
                    &&& old(self).worker_state@[i].0 == id
                    &&& final(self).worker_state@ == old(self).worker_state@.remove(i)
                },
    {
        match self.find_worker_index(id) {
            Some(i) => {
                let ghost pre = self.worker_state@;
                let (_, state) = self.worker_state.remove(i);
                self.remove_role(&state.role);
                proof {
                    assert forall|k: int|
                        0 <= k < self.worker_state@.len() implies self.worker_state@[k].0
                        != id by {
                        if k < i {
                            assert(self.worker_state@[k] == pre[k]);
                        } else {
                            assert(self.worker_state@[k] == pre[k + 1]);
                        }
                    }
                }
            },
            None => {},
        }
    }

    /// Release one occurrence of a role from the filled set.
    fn remove_role(&mut self, role: &WorkerRole)
        ensures
            final(self).global_init_time == old(self).global_init_time,
            final(self).colony_state@ == old(self).colony_state@,
            final(self).worker_state@ == old(self).worker_state@,
            !has_role(old(self).worker_roles@, *role) ==> final(self).worker_roles@ == old(self).worker_roles@,
            has_role(old(self).worker_roles@, *role) ==> exists|i: int|
                {
                    &&& 0 <= i < old(self).worker_roles@.len()
                    &&& old(self).worker_roles@[i] == *role
                    &&& final(self).worker_roles@ == old(self).worker_roles@.remove(i)
                },
    {
        let n = self.worker_roles.len();
        let mut i: usize = 0;
        while i < n
            invariant
                i <= n,
                n == self.worker_roles@.len(),
                self.worker_roles@ == old(self).worker_roles@,
                self.worker_state@ == old(self).worker_state@,
                self.colony_state@ == old(self).colony_state@,
                self.global_init_time == old(self).global_init_time,
                forall|j: int| 0 <= j < i ==> self.worker_roles@[j] != *role,
            decreases n - i,
        {
            if self.worker_roles[i] == *role {
                self.worker_roles.remove(i);
                return ;
            }
            i = i + 1;
        }
    }
}

/// The role a newly observed, untracked mobile agent is registered under.
pub open spec fn spec_registered_creep_role(spawning: bool, name: Seq<u8>) -> WorkerRole {
    if spawning {
        WorkerRole::SpawningCreep(SpawningCreep {  })
    } else {
        match spec_decode_role(name) {
            Some(role) => role,
            None => WorkerRole::Invalid(Invalid {  }),
        }
    }
}

} // verus!
