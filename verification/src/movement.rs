//! Movement data: speed profiles, movement goals, and the per-worker cached
//! path state with its staleness and stuck accounting.
//!
//! The graph search itself runs outside this library; planning here takes
//! the searched cell sequence as a value and compresses it into directional
//! steps.

use vstd::prelude::*;

use crate::grid::{
    dir_dx, dir_dy, spec_adjacent_dir, spec_same_region, stepped, Direction, Pos,
};

verus! {

/// The different speeds available to mobile workers, used to weight path
/// costs.
#[derive(PartialEq, Eq, Structural, Hash, Debug, Clone, Copy)]
pub enum MovementProfile {
    /// Moves at full speed even on swamp.
    SwampFiveToOne,
    /// Moves at full speed on plains.
    PlainsOneToOne,
    /// Moves once per tick only on paved tiles; weight them lowest.
    RoadsOneToTwo,
}

/// Where a worker wants to move and how the planner should weigh the
/// terrain getting it there. Equality of goals is what detects "the goal
/// changed" for cache invalidation.
#[derive(PartialEq, Eq, Structural, Hash, Debug, Clone, Copy)]
pub struct MovementGoal {
    pub goal_pos: Pos,
    pub goal_range: u32,
    pub profile: MovementProfile,
    pub avoid_creeps: bool,
}

/// The cached movement state of one worker: the goal the cached path was
/// planned for, the stuck accounting, and the compressed step sequence with
/// its progress cursor.
#[derive(Debug, Clone)]
pub struct PathState {
    /// Goal this state moves towards; a cached path is reused only while
    /// the worker's current goal still equals it.
    pub goal: MovementGoal,
    pub stuck_count: u8,
    pub last_position: Pos,
    /// The direction attempted last tick, kept to verify it was executed.
    pub next_direction: Direction,
    pub path: Vec<Direction>,
    pub path_progress: usize,
}

/// How one tick's observed position updates a cached path: moving as
/// intended advances the cursor and clears the stuck count; standing still
/// raises the stuck count by one (held at its ceiling); any other observed
/// position forces the count to its maximum so the next eligible tick
/// replans.
pub open spec fn spec_step_update(ps: PathState, current: Pos) -> PathState {
    if stepped(ps.last_position, ps.next_direction, current) {
        PathState {
            last_position: current,
            path_progress: (ps.path_progress + 1) as usize,
            stuck_count: 0,
            ..ps
        }
    } else if current == ps.last_position {
        PathState {
            stuck_count: if ps.stuck_count < 255 {
                (ps.stuck_count + 1) as u8
            } else {
                255
            },
            ..ps
        }
    } else {
        PathState { stuck_count: 255, ..ps }
    }
}

impl PathState {
    /// Compare the observed position against last tick's intent and update
    /// progress cursor, confirmed position and stuck count accordingly.
    pub fn check_if_moved_and_update_pos(&mut self, current_position: Pos)
        requires
            old(self).path_progress < usize::MAX,
        ensures
            *final(self) == spec_step_update(*old(self), current_position),
    {
        let moved_as_intended = {
            let dx: i32 = current_position.x as i32 - self.last_position.x as i32;
            let dy: i32 = current_position.y as i32 - self.last_position.y as i32;
            let d = self.next_direction;
            dx == dir_dx_exec(d) && dy == dir_dy_exec(d)
        };
        if moved_as_intended {
            self.last_position = current_position;
            self.path_progress = self.path_progress + 1;
            self.stuck_count = 0;
        } else if current_position == self.last_position {
            if self.stuck_count < 255 {
                self.stuck_count = self.stuck_count + 1;
            }
        } else {
            // Not where we were, not where we were headed: something odd
            // (a region-edge teleport, say). Force an immediate repath.
            self.stuck_count = 255;
        }
    }
}

/// Stuck escalation monotonicity: standing still strictly raises the
/// stuck count (until its ceiling); moving exactly as predicted resets it
/// to zero and advances the progress cursor by exactly one; any other
/// observed position forces the count to its maximum, guaranteeing a
/// repath on the next eligible tick.
pub proof fn lemma_stuck_escalation(ps: PathState, current: Pos)
    requires
        ps.path_progress < usize::MAX,
    ensures
        stepped(ps.last_position, ps.next_direction, current) ==> spec_step_update(
            ps,
            current,
        ).stuck_count == 0 && spec_step_update(ps, current).path_progress == ps.path_progress + 1,
        !stepped(ps.last_position, ps.next_direction, current) && current == ps.last_position
            && ps.stuck_count < 255 ==> spec_step_update(ps, current).stuck_count > ps.stuck_count,
        !stepped(ps.last_position, ps.next_direction, current) && current != ps.last_position
            ==> spec_step_update(ps, current).stuck_count == 255,
{
}

fn dir_dx_exec(d: Direction) -> (r: i32)
    ensures
        r as int == dir_dx(d),
{
    match d {
        Direction::Top => 0,
        Direction::TopRight => 1,
        Direction::Right => 1,
        Direction::BottomRight => 1,
        Direction::Bottom => 0,
        Direction::BottomLeft => -1,
        Direction::Left => -1,
        Direction::TopLeft => -1,
    }
}

fn dir_dy_exec(d: Direction) -> (r: i32)
    ensures
        r as int == dir_dy(d),
{
    match d {
        Direction::Top => -1,
        Direction::TopRight => -1,
        Direction::Right => 0,
        Direction::BottomRight => 1,
        Direction::Bottom => 1,
        Direction::BottomLeft => 1,
        Direction::Left => 0,
        Direction::TopLeft => -1,
    }
}

/// The directional steps that a searched cell sequence compresses to,
/// walking a cursor along the cells: a cell in the same region as the
/// cursor contributes the single step towards it, a cell in another region
/// is a boundary crossing and contributes nothing, and compression stops at
/// the first same-region cell that is not exactly one step away.
pub open spec fn spec_compress(cursor: Pos, cells: Seq<Pos>) -> Seq<Direction>
    decreases cells.len(),
{
    if cells.len() == 0 {
        Seq::empty()
    } else {
        let p = cells[0];
        if spec_same_region(p, cursor) {
            match spec_adjacent_dir(cursor, p) {
                Some(d) => seq![d] + spec_compress(p, cells.skip(1)),
                None => Seq::empty(),
            }
        } else {
            spec_compress(p, cells.skip(1))
        }
    }
}

/// Compress a searched cell sequence into directional steps, dropping
/// region-boundary crossings.
pub fn compress_path(from: Pos, cells: &Vec<Pos>) -> (steps: Vec<Direction>)
    ensures
        steps@ == spec_compress(from, cells@),
{
    let mut steps: Vec<Direction> = Vec::new();
    let mut cursor: Pos = from;
    let mut i: usize = 0;
    let n = cells.len();
    proof {
        assert(cells@.skip(0) =~= cells@);
        assert(steps@ + spec_compress(from, cells@) =~= spec_compress(from, cells@));
    }
    while i < n
        invariant
            i <= n,
            n == cells@.len(),
            spec_compress(from, cells@) == steps@ + spec_compress(cursor, cells@.skip(i as int)),
        decreases n - i,
    {
        let p = cells[i];
        proof {
            let rest = cells@.skip(i as int);
            assert(rest[0] == cells@[i as int]);
            assert(rest.skip(1) =~= cells@.skip(i as int + 1));
        }
        if p.same_region(cursor) {
            match cursor.adjacent_dir_to(p) {
                Some(d) => {
                    proof {
                        let rest = cells@.skip(i as int);
                        assert(spec_compress(cursor, rest) == seq![d] + spec_compress(
                            p,
                            rest.skip(1),
                        ));
                    }
                    let ghost steps0 = steps@;
                    steps.push(d);
                    proof {
                        assert(steps@ =~= steps0 + seq![d]);
                        assert(steps0 + (seq![d] + spec_compress(p, cells@.skip(i as int + 1)))
                            =~= (steps0 + seq![d]) + spec_compress(p, cells@.skip(i as int + 1)));
                    }
                },
                None => {
                    // A same-region cell that is not one exact step away:
                    // stop compressing, as the cached tail would be
                    // unusable anyway.
                    proof {
                        assert(spec_compress(cursor, cells@.skip(i as int)) =~= Seq::<
                            Direction,
                        >::empty());
                        assert(steps@ + Seq::<Direction>::empty() =~= steps@);
                    }
                    return steps;
                },
            }
        }
        cursor = p;
        i = i + 1;
    }
    proof {
        assert(cells@.skip(i as int) =~= Seq::<Pos>::empty());
        assert(spec_compress(cursor, cells@.skip(i as int)) == Seq::<Direction>::empty());
        assert(steps@ + Seq::<Direction>::empty() =~= steps@);
    }
    steps
}

impl MovementGoal {
    /// Build the cached path state for this goal from a searched cell
    /// sequence starting at `from_position`. A search that ran out of
    /// budget yields fewer cells, possibly none; the empty step list then
    /// simply signals "attempt nothing useful this tick", while the stored
    /// next direction is a defensive placeholder.
    pub fn find_path_to(&self, from_position: Pos, cells: &Vec<Pos>) -> (r: PathState)
        ensures
            r.goal == *self,
            r.stuck_count == 0,
            r.last_position == from_position,
            r.path_progress == 0,
            r.path@ == spec_compress(from_position, cells@),
            r.path@.len() > 0 ==> r.next_direction == r.path@[0],
            r.path@.len() == 0 ==> r.next_direction == Direction::Top,
    {
        let steps = compress_path(from_position, cells);
        let next_direction = if steps.len() > 0 {
            steps[0]
        } else {
            Direction::Top
        };
        PathState {
            goal: *self,
            stuck_count: 0,
            last_position: from_position,
            next_direction,
            path: steps,
            path_progress: 0,
        }
    }
}

} // verus!
