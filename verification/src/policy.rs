//! Role policy: what job a worker of each role picks when its queue runs
//! dry, and what body a spawned creep of each role gets.
//!
//! Every decision here is a pure function of a room snapshot — the plain
//! values the surrounding driver read off the world this tick — so the
//! selection rules are verified for every possible snapshot.

use vstd::prelude::*;

use crate::grid::Pos;
use crate::role::{Builder, Hauler, RoomId, SourceHarvester, Startup, Upgrader, WorkerRole};
use crate::task::{ResourceKind, Task};
use crate::worker::has_role;
use crate::NO_TASK_IDLE_TICKS;

verus! {

/// A builder grabs energy off the ground only above this amount.
pub const BUILDER_ENERGY_PICKUP_THRESHOLD: u32 = 100;

/// A builder withdraws energy from buffers only above this amount.
pub const BUILDER_ENERGY_WITHDRAW_THRESHOLD: u32 = 1000;

/// A hauler grabs energy off the ground only above this amount.
pub const HAULER_ENERGY_PICKUP_THRESHOLD: u32 = 35;

/// A hauler withdraws energy from buffers only above this amount.
pub const HAULER_ENERGY_WITHDRAW_THRESHOLD: u32 = 500;

/// An upgrader withdraws energy from buffers only above this amount.
pub const UPGRADER_ENERGY_WITHDRAW_THRESHOLD: u32 = 1200;

/// Terminals are filled with energy up to this level.
pub const TERMINAL_ENERGY_TARGET: u32 = 50000;

/// Cost of one hauler body set (two carriers at 50, one mover at 50).
pub const HAULER_COST_PER_MULTIPLIER: u32 = 50 * 2 + 50;

/// Parts in one hauler body set.
pub const HAULER_PARTS_PER_MULTIPLIER: u32 = 3;

/// Largest number of body sets a hauler may be spawned with (the overall
/// body-size cap divided by the set size).
pub const HAULER_MAX_MULTIPLIER: u32 = 50 / HAULER_PARTS_PER_MULTIPLIER;

/// How many do-it-all startup creeps to keep alive at the lowest levels.
pub const STARTUP_RCL1_COUNT_TARGET: u8 = 15;

/// How many haulers to keep alive in each room.
pub const HAULER_COUNT_TARGET: u8 = 1;

/// How many upgraders to keep alive in each room.
pub const UPGRADER_COUNT_TARGET: u8 = 4;

/// Repair watermark by room level, lowest to highest.
pub const REPAIR_WATERMARK_RCL_1: u32 = 10000;

pub const REPAIR_WATERMARK_RCL_2: u32 = 10000;

pub const REPAIR_WATERMARK_RCL_3: u32 = 50000;

pub const REPAIR_WATERMARK_RCL_4: u32 = 100000;

pub const REPAIR_WATERMARK_RCL_5: u32 = 100000;

pub const REPAIR_WATERMARK_RCL_6: u32 = 500000;

pub const REPAIR_WATERMARK_RCL_7: u32 = 1000000;

pub const REPAIR_WATERMARK_RCL_8: u32 = 3000000;

/// The fixed watermark a startup creep repairs to.
pub const STARTUP_REPAIR_WATERMARK: u32 = 10000;

/// The structure categories the policy tells apart.
#[derive(PartialEq, Eq, Structural, Hash, Debug, Clone, Copy)]
pub enum StructureKind {
    Spawn,
    Extension,
    Tower,
    Container,
    Storage,
    Terminal,
    Road,
    Wall,
    Rampart,
    Controller,
    Other,
}

/// One structure as observed this tick.
#[derive(PartialEq, Eq, Structural, Hash, Debug, Clone, Copy)]
pub struct StructureInfo {
    pub id: u128,
    pub kind: StructureKind,
    pub hits: u32,
    /// Zero for indestructible structures.
    pub hits_max: u32,
    /// Free energy capacity of the structure's store.
    pub store_free_energy: u32,
    /// Energy held in the structure's store.
    pub store_used_energy: u32,
}

/// One dropped resource pile as observed this tick.
#[derive(PartialEq, Eq, Structural, Hash, Debug, Clone, Copy)]
pub struct ResourceInfo {
    pub id: u128,
    pub is_energy: bool,
    pub amount: u32,
}

/// One energy source as observed this tick.
#[derive(PartialEq, Eq, Structural, Hash, Debug, Clone, Copy)]
pub struct SourceInfo {
    pub id: u128,
    pub pos: Pos,
}

/// The room's controller as observed this tick.
#[derive(PartialEq, Eq, Structural, Hash, Debug, Clone, Copy)]
pub struct ControllerInfo {
    pub id: u128,
    pub level: u8,
}

/// Everything a role's task finding reads off one room in one tick.
#[derive(Debug)]
pub struct RoomSnapshot {
    pub structures: Vec<StructureInfo>,
    /// Dropped resource piles.
    pub resources: Vec<ResourceInfo>,
    /// Sources currently holding energy.
    pub active_sources: Vec<SourceInfo>,
    /// All sources, for spawn planning.
    pub sources: Vec<SourceInfo>,
    /// This bot's construction sites.
    pub my_construction_sites: Vec<u128>,
    pub controller: Option<ControllerInfo>,
}

/// When task finding fails, idle until this deadline (saturating at the
/// end of time).
pub open spec fn spec_idle_deadline(now: u32) -> u32 {
    if now + NO_TASK_IDLE_TICKS > u32::MAX {
        u32::MAX
    } else {
        (now + NO_TASK_IDLE_TICKS) as u32
    }
}

fn idle_deadline(now: u32) -> (r: u32)
    ensures
        r == spec_idle_deadline(now),
{
    if now > u32::MAX - NO_TASK_IDLE_TICKS {
        u32::MAX
    } else {
        now + NO_TASK_IDLE_TICKS
    }
}

/// Whether a structure is worth repairing: destructible, below the
/// watermark, and under half its maximum hits.
pub open spec fn repair_needed(s: StructureInfo, watermark: u32) -> bool {
    s.hits_max != 0 && s.hits < watermark && 2 * s.hits < s.hits_max
}

fn repair_needed_exec(s: &StructureInfo, watermark: u32) -> (r: bool)
    ensures
        r == repair_needed(*s, watermark),
{
    s.hits_max != 0 && s.hits < watermark && (s.hits as u64) * 2 < s.hits_max as u64
}

/// The first structure in scan order that needs repair, if any.
pub open spec fn spec_first_repair_target(ss: Seq<StructureInfo>, watermark: u32) -> Option<u128>
    decreases ss.len(),
{
    if ss.len() == 0 {
        None
    } else if repair_needed(ss[0], watermark) {
        Some(ss[0].id)
    } else {
        spec_first_repair_target(ss.skip(1), watermark)
    }
}

fn first_repair_target(ss: &Vec<StructureInfo>, watermark: u32) -> (r: Option<u128>)
    ensures
        r == spec_first_repair_target(ss@, watermark),
{
    let n = ss.len();
    let mut i: usize = 0;
    proof {
        assert(ss@.skip(0) =~= ss@);
    }
    while i < n
        invariant
            i <= n,
            n == ss@.len(),
            spec_first_repair_target(ss@, watermark) == spec_first_repair_target(
                ss@.skip(i as int),
                watermark,
            ),
        decreases n - i,
    {
        proof {
            let rest = ss@.skip(i as int);
            assert(rest[0] == ss@[i as int]);
            assert(rest.skip(1) =~= ss@.skip(i as int + 1));
        }
        if repair_needed_exec(&ss[i], watermark) {
            return Some(ss[i].id);
        }
        i = i + 1;
    }
    proof {
        assert(ss@.skip(i as int) =~= Seq::<StructureInfo>::empty());
    }
    None
}

/// Whether a dropped pile is worth picking up at a threshold.
pub open spec fn pickup_worthwhile(r: ResourceInfo, threshold: u32) -> bool {
    r.is_energy && r.amount >= threshold
}

/// The first pile in scan order worth picking up, if any.
pub open spec fn spec_first_pickup(rs: Seq<ResourceInfo>, threshold: u32) -> Option<u128>
    decreases rs.len(),
{
    if rs.len() == 0 {
        None
    } else if pickup_worthwhile(rs[0], threshold) {
        Some(rs[0].id)
    } else {
        spec_first_pickup(rs.skip(1), threshold)
    }
}

fn first_pickup(rs: &Vec<ResourceInfo>, threshold: u32) -> (r: Option<u128>)
    ensures
        r == spec_first_pickup(rs@, threshold),
{
    let n = rs.len();
    let mut i: usize = 0;
    proof {
        assert(rs@.skip(0) =~= rs@);
    }
    while i < n
        invariant
            i <= n,
            n == rs@.len(),
            spec_first_pickup(rs@, threshold) == spec_first_pickup(rs@.skip(i as int), threshold),
        decreases n - i,
    {
        proof {
            let rest = rs@.skip(i as int);
            assert(rest[0] == rs@[i as int]);
            assert(rest.skip(1) =~= rs@.skip(i as int + 1));
        }
        if rs[i].is_energy && rs[i].amount >= threshold {
            return Some(rs[i].id);
        }
        i = i + 1;
    }
    proof {
        assert(rs@.skip(i as int) =~= Seq::<ResourceInfo>::empty());
    }
    None
}

/// Whether a structure is an energy buffer workers may draw from (never a
/// spawn or an extension), holding at least the threshold.
pub open spec fn withdraw_worthwhile(s: StructureInfo, threshold: u32) -> bool {
    (s.kind == StructureKind::Container || s.kind == StructureKind::Storage || s.kind
        == StructureKind::Terminal) && s.store_used_energy >= threshold
}

/// The first buffer in scan order worth withdrawing from, if any.
pub open spec fn spec_first_withdraw(ss: Seq<StructureInfo>, threshold: u32) -> Option<u128>
    decreases ss.len(),
{
    if ss.len() == 0 {
        None
    } else if withdraw_worthwhile(ss[0], threshold) {
        Some(ss[0].id)
    } else {
        spec_first_withdraw(ss.skip(1), threshold)
    }
}

fn first_withdraw(ss: &Vec<StructureInfo>, threshold: u32) -> (r: Option<u128>)
    ensures
        r == spec_first_withdraw(ss@, threshold),
{
    let n = ss.len();
    let mut i: usize = 0;
    proof {
        assert(ss@.skip(0) =~= ss@);
    }
    while i < n
        invariant
            i <= n,
            n == ss@.len(),
            spec_first_withdraw(ss@, threshold) == spec_first_withdraw(
                ss@.skip(i as int),
                threshold,
            ),
        decreases n - i,
    {
        proof {
            let rest = ss@.skip(i as int);
            assert(rest[0] == ss@[i as int]);
            assert(rest.skip(1) =~= ss@.skip(i as int + 1));
        }
        let k = ss[i].kind;
        if (k == StructureKind::Container || k == StructureKind::Storage || k
            == StructureKind::Terminal) && ss[i].store_used_energy >= threshold {
            return Some(ss[i].id);
        }
        i = i + 1;
    }
    proof {
        assert(ss@.skip(i as int) =~= Seq::<StructureInfo>::empty());
    }
    None
}

/// Whether a structure is a priority delivery target (spawn, extension or
/// tower) with room for energy.
pub open spec fn priority_delivery(s: StructureInfo) -> bool {
    (s.kind == StructureKind::Spawn || s.kind == StructureKind::Extension || s.kind
        == StructureKind::Tower) && s.store_free_energy > 0
}

/// The first priority delivery target in scan order, if any.
pub open spec fn spec_first_priority_delivery(ss: Seq<StructureInfo>) -> Option<u128>
    decreases ss.len(),
{
    if ss.len() == 0 {
        None
    } else if priority_delivery(ss[0]) {
        Some(ss[0].id)
    } else {
        spec_first_priority_delivery(ss.skip(1))
    }
}

fn first_priority_delivery(ss: &Vec<StructureInfo>) -> (r: Option<u128>)
    ensures
        r == spec_first_priority_delivery(ss@),
{
    let n = ss.len();
    let mut i: usize = 0;
    proof {
        assert(ss@.skip(0) =~= ss@);
    }
    while i < n
        invariant
            i <= n,
            n == ss@.len(),
            spec_first_priority_delivery(ss@) == spec_first_priority_delivery(ss@.skip(i as int)),
        decreases n - i,
    {
        proof {
            let rest = ss@.skip(i as int);
            assert(rest[0] == ss@[i as int]);
            assert(rest.skip(1) =~= ss@.skip(i as int + 1));
        }
        let k = ss[i].kind;
        if (k == StructureKind::Spawn || k == StructureKind::Extension || k
            == StructureKind::Tower) && ss[i].store_free_energy > 0 {
            return Some(ss[i].id);
        }
        i = i + 1;
    }
    proof {
        assert(ss@.skip(i as int) =~= Seq::<StructureInfo>::empty());
    }
    None
}

/// The last structure of a kind in scan order, if any: a later observation
/// of the same kind supersedes an earlier one.
pub open spec fn spec_last_of_kind(ss: Seq<StructureInfo>, kind: StructureKind) -> Option<
    StructureInfo,
>
    decreases ss.len(),
{
    if ss.len() == 0 {
        None
    } else {
        match spec_last_of_kind(ss.skip(1), kind) {
            Some(s) => Some(s),
            None => if ss[0].kind == kind {
                Some(ss[0])
            } else {
                None
            },
        }
    }
}

fn last_of_kind(ss: &Vec<StructureInfo>, kind: StructureKind) -> (r: Option<StructureInfo>)
    ensures
        r == spec_last_of_kind(ss@, kind),
{
    let n = ss.len();
    let mut i: usize = 0;
    let mut found: Option<StructureInfo> = None;
    proof {
        assert(ss@.take(0) =~= Seq::<StructureInfo>::empty());
    }
    while i < n
        invariant
            i <= n,
            n == ss@.len(),
            found == spec_last_of_kind(ss@.take(i as int), kind),
        decreases n - i,
    {
        if ss[i].kind == kind {
            found = Some(ss[i]);
        }
        i = i + 1;
        proof {
            lemma_last_of_kind_extend(ss@, kind, i as int);
        }
    }
    proof {
        assert(ss@.take(n as int) =~= ss@);
    }
    found
}

/// Appending one structure to a prefix changes its last-of-kind exactly
/// when the appended structure has the kind.
proof fn lemma_last_of_kind_extend(ss: Seq<StructureInfo>, kind: StructureKind, i: int)
    requires
        0 < i <= ss.len(),
    ensures
        spec_last_of_kind(ss.take(i), kind) == if ss[i - 1].kind == kind {
            Some(ss[i - 1])
        } else {
            spec_last_of_kind(ss.take(i - 1), kind)
        },
    decreases i,
{
    let pre = ss.take(i);
    assert(pre[0] == ss[0]);
    if i == 1 {
        assert(pre.skip(1) =~= Seq::<StructureInfo>::empty());
        assert(spec_last_of_kind(Seq::<StructureInfo>::empty(), kind) is None);
        assert(ss.take(0) =~= Seq::<StructureInfo>::empty());
    } else {
        assert(pre.skip(1) =~= ss.subrange(1, i));
        lemma_last_of_kind_shift(ss, kind, 1, i);
        if ss[i - 1].kind != kind {
            let pre1 = ss.take(i - 1);
            assert(pre1[0] == ss[0]);
            assert(pre1.skip(1) =~= ss.subrange(1, i - 1));
            assert(spec_last_of_kind(pre1, kind) == match spec_last_of_kind(
                ss.subrange(1, i - 1),
                kind,
            ) {
                Some(s) => Some(s),
                None => if pre1[0].kind == kind {
                    Some(pre1[0])
                } else {
                    None
                },
            });
        }
    }
}

/// Last-of-kind over a subrange equals last-of-kind computed by walking
/// the subrange from its own front.
proof fn lemma_last_of_kind_shift(ss: Seq<StructureInfo>, kind: StructureKind, lo: int, hi: int)
    requires
        0 <= lo <= hi <= ss.len(),
    ensures
        spec_last_of_kind(ss.subrange(lo, hi), kind) == if lo == hi {
            None::<StructureInfo>
        } else if ss[hi - 1].kind == kind {
            Some(ss[hi - 1])
        } else {
            spec_last_of_kind(ss.subrange(lo, hi - 1), kind)
        },
    decreases hi - lo,
{
    if lo < hi {
        let sub = ss.subrange(lo, hi);
        assert(sub.skip(1) =~= ss.subrange(lo + 1, hi));
        lemma_last_of_kind_shift(ss, kind, lo + 1, hi);
        if lo + 1 == hi {
            assert(ss.subrange(lo, hi - 1) =~= Seq::<StructureInfo>::empty());
        } else {
            assert(ss.subrange(lo, hi - 1).skip(1) =~= ss.subrange(lo + 1, hi - 1));
            lemma_last_of_kind_shift(ss, kind, lo + 1, hi - 1);
        }
    }
}

/// Whether a structure is a spawn or an extension with room for energy —
/// what a startup creep refills.
pub open spec fn refill_target(s: StructureInfo) -> bool {
    (s.kind == StructureKind::Spawn || s.kind == StructureKind::Extension)
        && s.store_free_energy > 0
}

/// The first refill target in scan order, if any.
pub open spec fn spec_first_refill(ss: Seq<StructureInfo>) -> Option<u128>
    decreases ss.len(),
{
    if ss.len() == 0 {
        None
    } else if refill_target(ss[0]) {
        Some(ss[0].id)
    } else {
        spec_first_refill(ss.skip(1))
    }
}

fn first_refill(ss: &Vec<StructureInfo>) -> (r: Option<u128>)
    ensures
        r == spec_first_refill(ss@),
{
    let n = ss.len();
    let mut i: usize = 0;
    proof {
        assert(ss@.skip(0) =~= ss@);
    }
    while i < n
        invariant
            i <= n,
            n == ss@.len(),
            spec_first_refill(ss@) == spec_first_refill(ss@.skip(i as int)),
        decreases n - i,
    {
        proof {
            let rest = ss@.skip(i as int);
            assert(rest[0] == ss@[i as int]);
            assert(rest.skip(1) =~= ss@.skip(i as int + 1));
        }
        let k = ss[i].kind;
        if (k == StructureKind::Spawn || k == StructureKind::Extension) && ss[i].store_free_energy
            > 0 {
            return Some(ss[i].id);
        }
        i = i + 1;
    }
    proof {
        assert(ss@.skip(i as int) =~= Seq::<StructureInfo>::empty());
    }
    None
}

/// What a worker with energy and a repair watermark does: repair the first
/// structure that needs it, else put work into the first construction
/// site, else idle a while.
pub open spec fn spec_find_build_or_repair(
    ss: Seq<StructureInfo>,
    csites: Seq<u128>,
    watermark: u32,
    now: u32,
) -> Task {
    match spec_first_repair_target(ss, watermark) {
        Some(id) => Task::Repair(id),
        None => if csites.len() > 0 {
            Task::Build(csites[0])
        } else {
            Task::IdleUntil(spec_idle_deadline(now))
        },
    }
}

/// Find repair or construction work in the room.
pub fn find_build_or_repair_task(room: &RoomSnapshot, repair_watermark: u32, now: u32) -> (t:
    Task)
    ensures
        t == spec_find_build_or_repair(
            room.structures@,
            room.my_construction_sites@,
            repair_watermark,
            now,
        ),
{
    match first_repair_target(&room.structures, repair_watermark) {
        Some(id) => Task::Repair(id),
        None => {
            if room.my_construction_sites.len() > 0 {
                Task::Build(room.my_construction_sites[0])
            } else {
                Task::IdleUntil(idle_deadline(now))
            }
        },
    }
}

/// How an empty-handed worker finds energy, with the given thresholds:
/// grab a worthwhile pile off the ground, else draw from a buffer, else —
/// when allowed — mine the first active source, else idle a while.
pub open spec fn spec_find_energy(
    resources: Seq<ResourceInfo>,
    structures: Seq<StructureInfo>,
    active_sources: Seq<SourceInfo>,
    pickup_threshold: Option<u32>,
    withdraw_threshold: u32,
    harvest_fallback: bool,
    now: u32,
) -> Task {
    let picked = match pickup_threshold {
        Some(th) => spec_first_pickup(resources, th),
        None => None,
    };
    match picked {
        Some(id) => Task::TakeFromResource(id),
        None => match spec_first_withdraw(structures, withdraw_threshold) {
            Some(id) => Task::TakeFromStructure(id, ResourceKind::Energy),
            None => if harvest_fallback && active_sources.len() > 0 {
                Task::HarvestEnergyUntilFull(active_sources[0].id)
            } else {
                Task::IdleUntil(spec_idle_deadline(now))
            },
        },
    }
}

/// Find energy for a builder or startup creep: worthwhile piles, then
/// buffers, then mining.
pub fn find_energy_or_source(room: &RoomSnapshot, now: u32) -> (t: Task)
    ensures
        t == spec_find_energy(
            room.resources@,
            room.structures@,
            room.active_sources@,
            Some(BUILDER_ENERGY_PICKUP_THRESHOLD),
            BUILDER_ENERGY_WITHDRAW_THRESHOLD,
            true,
            now,
        ),
{
    match first_pickup(&room.resources, BUILDER_ENERGY_PICKUP_THRESHOLD) {
        Some(id) => Task::TakeFromResource(id),
        None => {
            match first_withdraw(&room.structures, BUILDER_ENERGY_WITHDRAW_THRESHOLD) {
                Some(id) => Task::TakeFromStructure(id, ResourceKind::Energy),
                None => {
                    if room.active_sources.len() > 0 {
                        Task::HarvestEnergyUntilFull(room.active_sources[0].id)
                    } else {
                        Task::IdleUntil(idle_deadline(now))
                    }
                },
            }
        },
    }
}

/// Find energy for a hauler: worthwhile piles, then buffers; a hauler
/// never mines.
pub fn find_energy(room: &RoomSnapshot, now: u32) -> (t: Task)
    ensures
        t == spec_find_energy(
            room.resources@,
            room.structures@,
            room.active_sources@,
            Some(HAULER_ENERGY_PICKUP_THRESHOLD),
            HAULER_ENERGY_WITHDRAW_THRESHOLD,
            false,
            now,
        ),
{
    match first_pickup(&room.resources, HAULER_ENERGY_PICKUP_THRESHOLD) {
        Some(id) => Task::TakeFromResource(id),
        None => {
            match first_withdraw(&room.structures, HAULER_ENERGY_WITHDRAW_THRESHOLD) {
                Some(id) => Task::TakeFromStructure(id, ResourceKind::Energy),
                None => Task::IdleUntil(idle_deadline(now)),
            }
        },
    }
}

/// Find energy for an upgrader: buffers above its threshold, else mining.
pub fn find_energy_for_upgrade(room: &RoomSnapshot, now: u32) -> (t: Task)
    ensures
        t == spec_find_energy(
            room.resources@,
            room.structures@,
            room.active_sources@,
            None,
            UPGRADER_ENERGY_WITHDRAW_THRESHOLD,
            true,
            now,
        ),
{
    match first_withdraw(&room.structures, UPGRADER_ENERGY_WITHDRAW_THRESHOLD) {
        Some(id) => Task::TakeFromStructure(id, ResourceKind::Energy),
        None => {
            if room.active_sources.len() > 0 {
                Task::HarvestEnergyUntilFull(room.active_sources[0].id)
            } else {
                Task::IdleUntil(idle_deadline(now))
            }
        },
    }
}

/// Where a loaded hauler delivers: the first spawn, extension or tower
/// with room; else the last-seen terminal while below its energy target;
/// else the last-seen storage; else idle a while.
pub open spec fn spec_find_delivery_target(ss: Seq<StructureInfo>, now: u32) -> Task {
    match spec_first_priority_delivery(ss) {
        Some(id) => Task::DeliverToStructure(id, ResourceKind::Energy),
        None => match spec_last_of_kind(ss, StructureKind::Terminal) {
            Some(t) if t.store_used_energy < TERMINAL_ENERGY_TARGET => Task::DeliverToStructure(
                t.id,
                ResourceKind::Energy,
            ),
            _ => match spec_last_of_kind(ss, StructureKind::Storage) {
                Some(s) => Task::DeliverToStructure(s.id, ResourceKind::Energy),
                None => Task::IdleUntil(spec_idle_deadline(now)),
            },
        },
    }
}

/// Find the structure a loaded hauler should fill next.
pub fn find_delivery_target(room: &RoomSnapshot, now: u32) -> (t: Task)
    ensures
        t == spec_find_delivery_target(room.structures@, now),
{
    match first_priority_delivery(&room.structures) {
        Some(id) => Task::DeliverToStructure(id, ResourceKind::Energy),
        None => {
            let terminal = last_of_kind(&room.structures, StructureKind::Terminal);
            match terminal {
                Some(t) if t.store_used_energy < TERMINAL_ENERGY_TARGET => {
                    Task::DeliverToStructure(t.id, ResourceKind::Energy)
                },
                _ => {
                    match last_of_kind(&room.structures, StructureKind::Storage) {
                        Some(s) => Task::DeliverToStructure(s.id, ResourceKind::Energy),
                        None => Task::IdleUntil(idle_deadline(now)),
                    }
                },
            }
        },
    }
}

/// What a loaded startup creep does: refill the first spawn or extension
/// with room, else repair to the fixed startup watermark, else build, else
/// feed the controller, else idle a while.
pub open spec fn spec_find_startup_task(
    ss: Seq<StructureInfo>,
    csites: Seq<u128>,
    controller: Option<ControllerInfo>,
    now: u32,
) -> Task {
    match spec_first_refill(ss) {
        Some(id) => Task::DeliverToStructure(id, ResourceKind::Energy),
        None => match spec_first_repair_target(ss, STARTUP_REPAIR_WATERMARK) {
            Some(id) => Task::Repair(id),
            None => if csites.len() > 0 {
                Task::Build(csites[0])
            } else {
                match controller {
                    Some(c) => Task::Upgrade(c.id),
                    None => Task::IdleUntil(spec_idle_deadline(now)),
                }
            },
        },
    }
}

/// Find work for a loaded startup creep.
pub fn find_startup_task(room: &RoomSnapshot, now: u32) -> (t: Task)
    ensures
        t == spec_find_startup_task(
            room.structures@,
            room.my_construction_sites@,
            room.controller,
            now,
        ),
{
    match first_refill(&room.structures) {
        Some(id) => Task::DeliverToStructure(id, ResourceKind::Energy),
        None => {
            match first_repair_target(&room.structures, STARTUP_REPAIR_WATERMARK) {
                Some(id) => Task::Repair(id),
                None => {
                    if room.my_construction_sites.len() > 0 {
                        Task::Build(room.my_construction_sites[0])
                    } else {
                        match room.controller {
                            Some(c) => Task::Upgrade(c.id),
                            None => Task::IdleUntil(idle_deadline(now)),
                        }
                    }
                },
            }
        },
    }
}

/// What an upgrader with energy does: feed the controller if there is
/// one, else idle a while.
pub open spec fn spec_find_upgrade_task(controller: Option<ControllerInfo>, now: u32) -> Task {
    match controller {
        Some(c) => Task::Upgrade(c.id),
        None => Task::IdleUntil(spec_idle_deadline(now)),
    }
}

/// Find the upgrade task for a loaded upgrader.
pub fn find_upgrade_task(room: &RoomSnapshot, now: u32) -> (t: Task)
    ensures
        t == spec_find_upgrade_task(room.controller, now),
{
    match room.controller {
        Some(c) => Task::Upgrade(c.id),
        None => Task::IdleUntil(idle_deadline(now)),
    }
}

fn contains_role(roles: &Vec<WorkerRole>, role: &WorkerRole) -> (r: bool)
    ensures
        r == has_role(roles@, *role),
{
    let n = roles.len();
    let mut i: usize = 0;
    while i < n
        invariant
            i <= n,
            n == roles@.len(),
            forall|j: int| 0 <= j < i ==> roles@[j] != *role,
        decreases n - i,
    {
        if roles[i] == *role {
            return true;
        }
        i = i + 1;
    }
    false
}

/// The smallest instance index in `from..count` whose startup role is not
/// yet filled.
pub open spec fn spec_first_missing_startup(
    roles: Seq<WorkerRole>,
    room: RoomId,
    from: int,
    count: int,
) -> Option<u8>
    decreases count - from,
{
    if from >= count || from > 255 {
        None
    } else if !has_role(roles, WorkerRole::Startup(Startup { home_room: room, id: from as u8 })) {
        Some(from as u8)
    } else {
        spec_first_missing_startup(roles, room, from + 1, count)
    }
}

fn first_missing_startup(roles: &Vec<WorkerRole>, room: RoomId, count: u8) -> (r: Option<u8>)
    ensures
        r == spec_first_missing_startup(roles@, room, 0, count as int),
{
    let mut i: u8 = 0;
    while i < count
        invariant
            i <= count,
            spec_first_missing_startup(roles@, room, 0, count as int)
                == spec_first_missing_startup(roles@, room, i as int, count as int),
        decreases count - i,
    {
        if !contains_role(roles, &WorkerRole::Startup(Startup { home_room: room, id: i })) {
            return Some(i);
        }
        i = i + 1;
    }
    None
}

/// The smallest instance index in `from..count` whose hauler role is not
/// yet filled.
pub open spec fn spec_first_missing_hauler(
    roles: Seq<WorkerRole>,
    room: RoomId,
    from: int,
    count: int,
) -> Option<u8>
    decreases count - from,
{
    if from >= count || from > 255 {
        None
    } else if !has_role(roles, WorkerRole::Hauler(Hauler { home_room: room, id: from as u8 })) {
        Some(from as u8)
    } else {
        spec_first_missing_hauler(roles, room, from + 1, count)
    }
}

fn first_missing_hauler(roles: &Vec<WorkerRole>, room: RoomId, count: u8) -> (r: Option<u8>)
    ensures
        r == spec_first_missing_hauler(roles@, room, 0, count as int),
{
    let mut i: u8 = 0;
    while i < count
        invariant
            i <= count,
            spec_first_missing_hauler(roles@, room, 0, count as int) == spec_first_missing_hauler(
                roles@,
                room,
                i as int,
                count as int,
            ),
        decreases count - i,
    {
        if !contains_role(roles, &WorkerRole::Hauler(Hauler { home_room: room, id: i })) {
            return Some(i);
        }
        i = i + 1;
    }
    None
}

/// The smallest instance index in `from..count` whose upgrader role is
/// not yet filled.
pub open spec fn spec_first_missing_upgrader(
    roles: Seq<WorkerRole>,
    room: RoomId,
    from: int,
    count: int,
) -> Option<u8>
    decreases count - from,
{
    if from >= count || from > 255 {
        None
    } else if !has_role(roles, WorkerRole::Upgrader(Upgrader { home_room: room, id: from as u8 })) {
        Some(from as u8)
    } else {
        spec_first_missing_upgrader(roles, room, from + 1, count)
    }
}

fn first_missing_upgrader(roles: &Vec<WorkerRole>, room: RoomId, count: u8) -> (r: Option<u8>)
    ensures
        r == spec_first_missing_upgrader(roles@, room, 0, count as int),
{
    let mut i: u8 = 0;
    while i < count
        invariant
            i <= count,
            spec_first_missing_upgrader(roles@, room, 0, count as int)
                == spec_first_missing_upgrader(roles@, room, i as int, count as int),
        decreases count - i,
    {
        if !contains_role(roles, &WorkerRole::Upgrader(Upgrader { home_room: room, id: i })) {
            return Some(i);
        }
        i = i + 1;
    }
    None
}

/// The position of the first source in scan order without a dedicated
/// harvester.
pub open spec fn spec_first_unfilled_source(roles: Seq<WorkerRole>, sources: Seq<SourceInfo>)
    -> Option<Pos>
    decreases sources.len(),
{
    if sources.len() == 0 {
        None
    } else if !has_role(
        roles,
        WorkerRole::SourceHarvester(SourceHarvester { source_position: sources[0].pos }),
    ) {
        Some(sources[0].pos)
    } else {
        spec_first_unfilled_source(roles, sources.skip(1))
    }
}

fn first_unfilled_source(roles: &Vec<WorkerRole>, sources: &Vec<SourceInfo>) -> (r: Option<Pos>)
    ensures
        r == spec_first_unfilled_source(roles@, sources@),
{
    let n = sources.len();
    let mut i: usize = 0;
    proof {
        assert(sources@.skip(0) =~= sources@);
    }
    while i < n
        invariant
            i <= n,
            n == sources@.len(),
            spec_first_unfilled_source(roles@, sources@) == spec_first_unfilled_source(
                roles@,
                sources@.skip(i as int),
            ),
        decreases n - i,
    {
        proof {
            let rest = sources@.skip(i as int);
            assert(rest[0] == sources@[i as int]);
            assert(rest.skip(1) =~= sources@.skip(i as int + 1));
        }
        if !contains_role(
            roles,
            &WorkerRole::SourceHarvester(SourceHarvester { source_position: sources[i].pos }),
        ) {
            return Some(sources[i].pos);
        }
        i = i + 1;
    }
    proof {
        assert(sources@.skip(i as int) =~= Seq::<SourceInfo>::empty());
    }
    None
}

/// The repair watermark used at each room level.
pub open spec fn spec_repair_watermark(level: u8) -> u32 {
    if level <= 1 {
        REPAIR_WATERMARK_RCL_1
    } else if level == 2 {
        REPAIR_WATERMARK_RCL_2
    } else if level == 3 {
        REPAIR_WATERMARK_RCL_3
    } else if level == 4 {
        REPAIR_WATERMARK_RCL_4
    } else if level == 5 {
        REPAIR_WATERMARK_RCL_5
    } else if level == 6 {
        REPAIR_WATERMARK_RCL_6
    } else if level == 7 {
        REPAIR_WATERMARK_RCL_7
    } else {
        REPAIR_WATERMARK_RCL_8
    }
}

fn repair_watermark_for_level(level: u8) -> (r: u32)
    ensures
        r == spec_repair_watermark(level),
{
    if level <= 1 {
        REPAIR_WATERMARK_RCL_1
    } else if level == 2 {
        REPAIR_WATERMARK_RCL_2
    } else if level == 3 {
        REPAIR_WATERMARK_RCL_3
    } else if level == 4 {
        REPAIR_WATERMARK_RCL_4
    } else if level == 5 {
        REPAIR_WATERMARK_RCL_5
    } else if level == 6 {
        REPAIR_WATERMARK_RCL_6
    } else if level == 7 {
        REPAIR_WATERMARK_RCL_7
    } else {
        REPAIR_WATERMARK_RCL_8
    }
}

/// What a spawn decides to produce next: below room level three, keep the
/// startup population up; from level three, fill each source's dedicated
/// harvester, then a builder when there is construction or repair work,
/// then the hauler and upgrader populations; idle when all are filled.
pub open spec fn spec_spawn_find_task(
    room: RoomId,
    level: u8,
    ss: Seq<StructureInfo>,
    csites: Seq<u128>,
    sources: Seq<SourceInfo>,
    roles: Seq<WorkerRole>,
    now: u32,
) -> Task {
    if level < 3 {
        match spec_first_missing_startup(roles, room, 0, STARTUP_RCL1_COUNT_TARGET as int) {
            Some(i) => Task::SpawnCreep(WorkerRole::Startup(Startup { home_room: room, id: i })),
            None => Task::IdleUntil(spec_idle_deadline(now)),
        }
    } else {
        let watermark = spec_repair_watermark(level);
        match spec_first_unfilled_source(roles, sources) {
            Some(pos) => Task::SpawnCreep(
                WorkerRole::SourceHarvester(SourceHarvester { source_position: pos }),
            ),
            None => {
                let need_builder = csites.len() > 0 || spec_first_repair_target(
                    ss,
                    watermark,
                ) is Some;
                let builder = WorkerRole::Builder(
                    Builder { home_room: room, repair_watermark: watermark },
                );
                if need_builder && !has_role(roles, builder) {
                    Task::SpawnCreep(builder)
                } else {
                    match spec_first_missing_hauler(roles, room, 0, HAULER_COUNT_TARGET as int) {
                        Some(i) => Task::SpawnCreep(
                            WorkerRole::Hauler(Hauler { home_room: room, id: i }),
                        ),
                        None => match spec_first_missing_upgrader(
                            roles,
                            room,
                            0,
                            UPGRADER_COUNT_TARGET as int,
                        ) {
                            Some(i) => Task::SpawnCreep(
                                WorkerRole::Upgrader(Upgrader { home_room: room, id: i }),
                            ),
                            None => Task::IdleUntil(spec_idle_deadline(now)),
                        },
                    }
                }
            },
        }
    }
}

/// Decide which creep, if any, this room's spawn should produce next.
pub fn spawn_find_task(
    room_id: RoomId,
    room: &RoomSnapshot,
    worker_roles: &Vec<WorkerRole>,
    now: u32,
) -> (t: Task)
    requires
        room.controller is Some,
    ensures
        t == spec_spawn_find_task(
            room_id,
            room.controller->Some_0.level,
            room.structures@,
            room.my_construction_sites@,
            room.sources@,
            worker_roles@,
            now,
        ),
{
    let level = match room.controller {
        Some(c) => c.level,
        None => 0,  // excluded by the precondition
    };
    if level < 3 {
        match first_missing_startup(worker_roles, room_id, STARTUP_RCL1_COUNT_TARGET) {
            Some(i) => Task::SpawnCreep(
                WorkerRole::Startup(Startup { home_room: room_id, id: i }),
            ),
            None => Task::IdleUntil(idle_deadline(now)),
        }
    } else {
        let watermark = repair_watermark_for_level(level);
        match first_unfilled_source(worker_roles, &room.sources) {
            Some(pos) => Task::SpawnCreep(
                WorkerRole::SourceHarvester(SourceHarvester { source_position: pos }),
            ),
            None => {
                let need_builder = room.my_construction_sites.len() > 0 || first_repair_target(
                    &room.structures,
                    watermark,
                ).is_some();
                let builder = WorkerRole::Builder(
                    Builder { home_room: room_id, repair_watermark: watermark },
                );
                if need_builder && !contains_role(worker_roles, &builder) {
                    Task::SpawnCreep(builder)
                } else {
                    match first_missing_hauler(worker_roles, room_id, HAULER_COUNT_TARGET) {
                        Some(i) => Task::SpawnCreep(
                            WorkerRole::Hauler(Hauler { home_room: room_id, id: i }),
                        ),
                        None => {
                            match first_missing_upgrader(
                                worker_roles,
                                room_id,
                                UPGRADER_COUNT_TARGET,
                            ) {
                                Some(i) => Task::SpawnCreep(
                                    WorkerRole::Upgrader(Upgrader { home_room: room_id, id: i }),
                                ),
                                None => Task::IdleUntil(idle_deadline(now)),
                            }
                        },
                    }
                }
            },
        }
    }
}

/// Everything a role's task finding reads off the world in one tick,
/// beyond the room snapshot: the clock, the worker's own load, and — for
/// a dedicated harvester — what stands at its fixed position.
#[derive(Debug)]
pub struct FindTaskInput {
    pub now: u32,
    /// Energy the worker currently carries.
    pub store_used_energy: u32,
    /// Snapshot of the worker's home region, when visible.
    pub room: Option<RoomSnapshot>,
    /// The source observable at a dedicated harvester's fixed position.
    pub source_at_position: Option<u128>,
}

/// What a builder picks when its queue runs dry.
pub open spec fn spec_builder_find_task(b: Builder, input: FindTaskInput) -> Task {
    match input.room {
        None => Task::IdleUntil(u32::MAX),
        Some(room) => if input.store_used_energy > 0 {
            spec_find_build_or_repair(
                room.structures@,
                room.my_construction_sites@,
                b.repair_watermark,
                input.now,
            )
        } else {
            spec_find_energy(
                room.resources@,
                room.structures@,
                room.active_sources@,
                Some(BUILDER_ENERGY_PICKUP_THRESHOLD),
                BUILDER_ENERGY_WITHDRAW_THRESHOLD,
                true,
                input.now,
            )
        },
    }
}

/// What an upgrader picks when its queue runs dry.
pub open spec fn spec_upgrader_find_task(input: FindTaskInput) -> Task {
    match input.room {
        None => Task::IdleUntil(u32::MAX),
        Some(room) => if input.store_used_energy > 0 {
            spec_find_upgrade_task(room.controller, input.now)
        } else {
            spec_find_energy(
                room.resources@,
                room.structures@,
                room.active_sources@,
                None,
                UPGRADER_ENERGY_WITHDRAW_THRESHOLD,
                true,
                input.now,
            )
        },
    }
}

/// What a hauler picks when its queue runs dry.
pub open spec fn spec_hauler_find_task(input: FindTaskInput) -> Task {
    match input.room {
        None => Task::IdleUntil(u32::MAX),
        Some(room) => if input.store_used_energy > 0 {
            spec_find_delivery_target(room.structures@, input.now)
        } else {
            spec_find_energy(
                room.resources@,
                room.structures@,
                room.active_sources@,
                Some(HAULER_ENERGY_PICKUP_THRESHOLD),
                HAULER_ENERGY_WITHDRAW_THRESHOLD,
                false,
                input.now,
            )
        },
    }
}

/// What a startup creep picks when its queue runs dry.
pub open spec fn spec_startup_find_task(input: FindTaskInput) -> Task {
    match input.room {
        None => Task::IdleUntil(u32::MAX),
        Some(room) => if input.store_used_energy > 0 {
            spec_find_startup_task(
                room.structures@,
                room.my_construction_sites@,
                room.controller,
                input.now,
            )
        } else {
            spec_find_energy(
                room.resources@,
                room.structures@,
                room.active_sources@,
                Some(BUILDER_ENERGY_PICKUP_THRESHOLD),
                BUILDER_ENERGY_WITHDRAW_THRESHOLD,
                true,
                input.now,
            )
        },
    }
}

/// What a dedicated harvester picks: park on its source and harvest
/// forever, or walk to its fixed position until the source is observable.
pub open spec fn spec_source_harvester_find_task(s: SourceHarvester, input: FindTaskInput)
    -> Task {
    match input.source_at_position {
        Some(id) => Task::HarvestEnergyForever(id),
        None => Task::MoveToPosition(s.source_position, 1),
    }
}

/// One of the body part classes a creep can be assembled from.
#[derive(PartialEq, Eq, Structural, Hash, Debug, Clone, Copy)]
pub enum BodyPart {
    Move,
    Carry,
    Work,
}

/// How many body sets a hauler is scaled to, given the room's energy
/// capacity.
pub open spec fn spec_hauler_multiplier(energy_capacity: u32) -> u32 {
    let m = energy_capacity / HAULER_COST_PER_MULTIPLIER;
    if m < HAULER_MAX_MULTIPLIER {
        m
    } else {
        HAULER_MAX_MULTIPLIER
    }
}

impl WorkerRole {
    /// Pick the next task for a worker of this role whose queue ran dry.
    /// The stationary defensive role has no task finding and the caller
    /// must not ask for it; a spawn must see its own room and controller.
    pub fn find_task(&self, input: &FindTaskInput, worker_roles: &Vec<WorkerRole>) -> (t: Task)
        requires
            !(*self matches WorkerRole::Tower(_)),
            *self matches WorkerRole::Spawn(_) ==> input.room matches Some(r) && r.controller
                is Some,
        ensures
            *self matches WorkerRole::Builder(b) ==> t == spec_builder_find_task(b, *input),
            *self matches WorkerRole::Upgrader(_) ==> t == spec_upgrader_find_task(*input),
            *self matches WorkerRole::Hauler(_) ==> t == spec_hauler_find_task(*input),
            *self matches WorkerRole::SourceHarvester(s) ==> t == spec_source_harvester_find_task(
                s,
                *input,
            ),
            *self matches WorkerRole::Startup(_) ==> t == spec_startup_find_task(*input),
            *self matches WorkerRole::Spawn(p) ==> t == spec_spawn_find_task(
                p.room,
                input.room->Some_0.controller->Some_0.level,
                input.room->Some_0.structures@,
                input.room->Some_0.my_construction_sites@,
                input.room->Some_0.sources@,
                worker_roles@,
                input.now,
            ),
            *self matches WorkerRole::Invalid(_) ==> t == Task::IdleUntil(u32::MAX),
            *self matches WorkerRole::SpawningCreep(_) ==> t == Task::WaitToSpawn,
    {
        match self {
            WorkerRole::Builder(b) => {
                match &input.room {
                    Some(room) => {
                        if input.store_used_energy > 0 {
                            find_build_or_repair_task(room, b.repair_watermark, input.now)
                        } else {
                            find_energy_or_source(room, input.now)
                        }
                    },
                    None => Task::IdleUntil(u32::MAX),
                }
            },
            WorkerRole::Upgrader(_) => {
                match &input.room {
                    Some(room) => {
                        if input.store_used_energy > 0 {
                            find_upgrade_task(room, input.now)
                        } else {
                            find_energy_for_upgrade(room, input.now)
                        }
                    },
                    None => Task::IdleUntil(u32::MAX),
                }
            },
            WorkerRole::Hauler(_) => {
                match &input.room {
                    Some(room) => {
                        if input.store_used_energy > 0 {
                            find_delivery_target(room, input.now)
                        } else {
                            find_energy(room, input.now)
                        }
                    },
                    None => Task::IdleUntil(u32::MAX),
                }
            },
            WorkerRole::SourceHarvester(s) => {
                match input.source_at_position {
                    Some(id) => Task::HarvestEnergyForever(id),
                    None => Task::MoveToPosition(s.source_position, 1),
                }
            },
            WorkerRole::Startup(_) => {
                match &input.room {
                    Some(room) => {
                        if input.store_used_energy > 0 {
                            find_startup_task(room, input.now)
                        } else {
                            find_energy_or_source(room, input.now)
                        }
                    },
                    None => Task::IdleUntil(u32::MAX),
                }
            },
            WorkerRole::Spawn(p) => {
                match &input.room {
                    Some(room) => spawn_find_task(p.room, room, worker_roles, input.now),
                    None => Task::IdleUntil(u32::MAX),  // excluded by the precondition
                }
            },
            WorkerRole::Tower(_) => Task::IdleUntil(u32::MAX),  // excluded by the precondition
            WorkerRole::Invalid(_) => Task::IdleUntil(u32::MAX),
            WorkerRole::SpawningCreep(_) => Task::WaitToSpawn,
        }
    }

    /// The body a freshly spawned creep of this role gets, scaled for
    /// haulers by the room's energy capacity. Only mobile creep roles can
    /// be spawned.
    pub fn get_body_for_creep(&self, energy_capacity: u32) -> (body: Vec<BodyPart>)
        requires
            *self matches WorkerRole::Builder(_) || *self matches WorkerRole::Upgrader(_) || *self
                matches WorkerRole::Hauler(_) || *self matches WorkerRole::SourceHarvester(_)
                || *self matches WorkerRole::Startup(_),
        ensures
            (*self matches WorkerRole::Builder(_) || *self matches WorkerRole::Upgrader(_) || *self
                matches WorkerRole::Startup(_)) ==> body@ == seq![
                BodyPart::Move,
                BodyPart::Move,
                BodyPart::Carry,
                BodyPart::Work,
            ],
            *self matches WorkerRole::SourceHarvester(_) ==> body@ == seq![
                BodyPart::Move,
                BodyPart::Move,
                BodyPart::Move,
                BodyPart::Work,
                BodyPart::Work,
                BodyPart::Work,
                BodyPart::Work,
                BodyPart::Work,
            ],
            *self matches WorkerRole::Hauler(_) ==> body@.len() == 3 * spec_hauler_multiplier(
                energy_capacity,
            ) && forall|i: int|
                0 <= i < body@.len() ==> body@[i] == (if i % 3 == 2 {
                    BodyPart::Move
                } else {
                    BodyPart::Carry
                }),
    {
        match self {
            WorkerRole::Hauler(_) => {
                let quotient = energy_capacity / HAULER_COST_PER_MULTIPLIER;
                let multiplier = if quotient < HAULER_MAX_MULTIPLIER {
                    quotient
                } else {
                    HAULER_MAX_MULTIPLIER
                };
                let mut body: Vec<BodyPart> = Vec::new();
                let mut j: u32 = 0;
                while j < multiplier
                    invariant
                        j <= multiplier,
                        multiplier <= HAULER_MAX_MULTIPLIER,
                        body@.len() == 3 * j,
                        forall|i: int|
                            0 <= i < body@.len() ==> body@[i] == (if i % 3 == 2 {
                                BodyPart::Move
                            } else {
                                BodyPart::Carry
                            }),
                    decreases multiplier - j,
                {
                    body.push(BodyPart::Carry);
                    body.push(BodyPart::Carry);
                    body.push(BodyPart::Move);
                    j = j + 1;
                }
                body
            },
            WorkerRole::SourceHarvester(_) => {
                let mut body: Vec<BodyPart> = Vec::new();
                body.push(BodyPart::Move);
                body.push(BodyPart::Move);
                body.push(BodyPart::Move);
                body.push(BodyPart::Work);
                body.push(BodyPart::Work);
                body.push(BodyPart::Work);
                body.push(BodyPart::Work);
                body.push(BodyPart::Work);
                proof {
                    assert(body@ =~= seq![
                        BodyPart::Move,
                        BodyPart::Move,
                        BodyPart::Move,
                        BodyPart::Work,
                        BodyPart::Work,
                        BodyPart::Work,
                        BodyPart::Work,
                        BodyPart::Work,
                    ]);
                }
                body
            },
            _ => {
                let mut body: Vec<BodyPart> = Vec::new();
                body.push(BodyPart::Move);
                body.push(BodyPart::Move);
                body.push(BodyPart::Carry);
                body.push(BodyPart::Work);
                proof {
                    assert(body@ =~= seq![
                        BodyPart::Move,
                        BodyPart::Move,
                        BodyPart::Carry,
                        BodyPart::Work,
                    ]);
                }
                body
            },
        }
    }
}

} // verus!
