//! Per-tick decision core for an autonomous agent-management bot on a tile
//! grid: a worker/task lifecycle engine and a movement-resolution subsystem.
//!
//! The world itself (terrain, live object handles, the graph search, the
//! clock) is reached only by the surrounding application; everything here
//! works on plain values the application hands in, and every decision rule
//! carries a contract.

use vstd::prelude::*;

pub mod codec;
pub mod costmap;
pub mod grid;
pub mod movement;
pub mod policy;
pub mod resolver;
pub mod role;
pub mod task;
pub mod worker;

verus! {

/// Consider a worker stuck, and eligible for a fresh plan, once it has failed
/// to move this many consecutive ticks.
pub const STUCK_REPATH_THRESHOLD: u8 = 10;

/// When task finding fails, idle this long.
pub const NO_TASK_IDLE_TICKS: u32 = 10;

} // verus!
