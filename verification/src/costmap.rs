//! The cost-map provider: turns one region's observed contents into the
//! traversal-cost map the path search weighs cells with, for the four
//! fixed profiles (with or without paved-tile preference, with or without
//! avoiding occupied cells).
//!
//! A region with no current visibility simply contributes empty
//! observation lists, which yields the default terrain-only map — a
//! deliberate degraded-information fallback, not an error.

use vstd::prelude::*;

use crate::policy::StructureKind;

verus! {

/// Cost marking a cell impassable.
pub const COST_IMPASSABLE: u8 = 255;

/// Reduced cost of a paved cell, used only when paving is preferred.
pub const COST_ROAD: u8 = 1;

/// Penalty cost of a currently occupied cell, used only when avoiding
/// other agents.
pub const COST_OCCUPIED: u8 = 32;

/// Cells along one edge of a region's cost map.
pub const COST_MAP_EDGE: usize = 50;

/// Cells in a region's cost map.
pub const COST_MAP_CELLS: usize = 2500;

/// One structure as the cost map sees it: where it stands, what it is,
/// and whether it is this bot's own (its own ramparts are passable).
#[derive(PartialEq, Eq, Structural, Hash, Debug, Clone, Copy)]
pub struct CostStructure {
    pub x: u8,
    pub y: u8,
    pub kind: StructureKind,
    pub my: bool,
}

/// One construction site as the cost map sees it.
#[derive(PartialEq, Eq, Structural, Hash, Debug, Clone, Copy)]
pub struct CostSite {
    pub x: u8,
    pub y: u8,
    pub kind: StructureKind,
}

/// Row-major index of an in-region cell.
pub open spec fn cell_index(x: u8, y: u8) -> int {
    y as int * COST_MAP_EDGE as int + x as int
}

/// How one structure marks the map: paved cells get the reduced cost only
/// when paving is preferred and nothing marked the cell yet; containers
/// are walkable; walls and strangers' ramparts are impassable; this bot's
/// own ramparts are walkable; anything else is impassable.
pub open spec fn apply_structure(m: Seq<u8>, s: CostStructure, prefer_roads: bool) -> Seq<u8> {
    let idx = cell_index(s.x, s.y);
    match s.kind {
        StructureKind::Road => if prefer_roads && m[idx] == 0 {
            m.update(idx, COST_ROAD)
        } else {
            m
        },
        StructureKind::Container => m,
        StructureKind::Wall => m.update(idx, COST_IMPASSABLE),
        StructureKind::Rampart => if s.my {
            m
        } else {
            m.update(idx, COST_IMPASSABLE)
        },
        _ => m.update(idx, COST_IMPASSABLE),
    }
}

pub open spec fn apply_structures(m: Seq<u8>, ss: Seq<CostStructure>, prefer_roads: bool) -> Seq<
    u8,
>
    decreases ss.len(),
{
    if ss.len() == 0 {
        m
    } else {
        apply_structures(apply_structure(m, ss[0], prefer_roads), ss.skip(1), prefer_roads)
    }
}

/// How one construction site marks the map: sites whose finished
/// structure is walkable mark nothing; the rest are impassable.
pub open spec fn apply_site(m: Seq<u8>, c: CostSite) -> Seq<u8> {
    match c.kind {
        StructureKind::Container => m,
        StructureKind::Road => m,
        StructureKind::Rampart => m,
        _ => m.update(cell_index(c.x, c.y), COST_IMPASSABLE),
    }
}

pub open spec fn apply_sites(m: Seq<u8>, cs: Seq<CostSite>) -> Seq<u8>
    decreases cs.len(),
{
    if cs.len() == 0 {
        m
    } else {
        apply_sites(apply_site(m, cs[0]), cs.skip(1))
    }
}

pub open spec fn apply_creeps(m: Seq<u8>, cs: Seq<(u8, u8)>) -> Seq<u8>
    decreases cs.len(),
{
    if cs.len() == 0 {
        m
    } else {
        apply_creeps(m.update(cell_index(cs[0].0, cs[0].1), COST_OCCUPIED), cs.skip(1))
    }
}

/// The full cost map one region's observations produce: structures first,
/// then — when avoiding agents — the occupied cells, then construction
/// sites, over an all-default (terrain-only) base.
pub open spec fn spec_cost_map(
    ss: Seq<CostStructure>,
    sites: Seq<CostSite>,
    creeps: Seq<(u8, u8)>,
    prefer_roads: bool,
    avoid_creeps: bool,
) -> Seq<u8> {
    let base = Seq::new(COST_MAP_CELLS as nat, |i: int| 0u8);
    let with_structures = apply_structures(base, ss, prefer_roads);
    let with_creeps = if avoid_creeps {
        apply_creeps(with_structures, creeps)
    } else {
        with_structures
    };
    apply_sites(with_creeps, sites)
}

/// All coordinates of all observations lie inside the region.
pub open spec fn cost_inputs_in_bounds(
    ss: Seq<CostStructure>,
    sites: Seq<CostSite>,
    creeps: Seq<(u8, u8)>,
) -> bool {
    &&& forall|i: int|
        0 <= i < ss.len() ==> (#[trigger] ss[i]).x < COST_MAP_EDGE && ss[i].y < COST_MAP_EDGE
    &&& forall|i: int|
        0 <= i < sites.len() ==> (#[trigger] sites[i]).x < COST_MAP_EDGE && sites[i].y
            < COST_MAP_EDGE
    &&& forall|i: int|
        0 <= i < creeps.len() ==> (#[trigger] creeps[i]).0 < COST_MAP_EDGE && creeps[i].1
            < COST_MAP_EDGE
}

/// Build the traversal-cost map for one region from its observed
/// contents.
pub fn build_cost_map(
    structures: &Vec<CostStructure>,
    construction_sites: &Vec<CostSite>,
    creeps: &Vec<(u8, u8)>,
    prefer_roads: bool,
    avoid_creeps: bool,
) -> (m: Vec<u8>)
    requires
        cost_inputs_in_bounds(structures@, construction_sites@, creeps@),
    ensures
        m@.len() == COST_MAP_CELLS,
        m@ == spec_cost_map(
            structures@,
            construction_sites@,
            creeps@,
            prefer_roads,
            avoid_creeps,
        ),
{
    let ghost base = Seq::new(COST_MAP_CELLS as nat, |i: int| 0u8);
    let mut m: Vec<u8> = Vec::new();
    let mut z: usize = 0;
    while z < COST_MAP_CELLS
        invariant
            z <= COST_MAP_CELLS,
            m@.len() == z,
            forall|k: int| 0 <= k < z ==> m@[k] == 0u8,
        decreases COST_MAP_CELLS - z,
    {
        m.push(0u8);
        z = z + 1;
    }
    proof {
        assert(m@ =~= base);
    }

    let n = structures.len();
    let mut i: usize = 0;
    proof {
        assert(structures@.skip(0) =~= structures@);
    }
    while i < n
        invariant
            i <= n,
            n == structures@.len(),
            m@.len() == COST_MAP_CELLS,
            cost_inputs_in_bounds(structures@, construction_sites@, creeps@),
            apply_structures(base, structures@, prefer_roads) == apply_structures(
                m@,
                structures@.skip(i as int),
                prefer_roads,
            ),
        decreases n - i,
    {
        proof {
            let rest = structures@.skip(i as int);
            assert(rest[0] == structures@[i as int]);
            assert(rest.skip(1) =~= structures@.skip(i as int + 1));
        }
        let ghost m_pre = m@;
        let s = structures[i];
        let idx: usize = (s.y as usize) * COST_MAP_EDGE + (s.x as usize);
        match s.kind {
            StructureKind::Road => {
                if prefer_roads && m[idx] == 0 {
                    m[idx] = COST_ROAD;
                }
            },
            StructureKind::Container => {},
            StructureKind::Wall => {
                m[idx] = COST_IMPASSABLE;
            },
            StructureKind::Rampart => {
                if !s.my {
                    m[idx] = COST_IMPASSABLE;
                }
            },
            _ => {
                m[idx] = COST_IMPASSABLE;
            },
        }
        proof {
            assert(m@ == apply_structure(m_pre, s, prefer_roads));
        }
        i = i + 1;
    }

    let cn = creeps.len();
    let mut c: usize = 0;
    proof {
        assert(creeps@.skip(0) =~= creeps@);
    }
    if avoid_creeps {
        while c < cn
            invariant
                c <= cn,
                cn == creeps@.len(),
                m@.len() == COST_MAP_CELLS,
                cost_inputs_in_bounds(structures@, construction_sites@, creeps@),
                apply_creeps(apply_structures(base, structures@, prefer_roads), creeps@)
                    == apply_creeps(m@, creeps@.skip(c as int)),
            decreases cn - c,
        {
            proof {
                let rest = creeps@.skip(c as int);
                assert(rest[0] == creeps@[c as int]);
                assert(rest.skip(1) =~= creeps@.skip(c as int + 1));
            }
            let (cx, cy) = creeps[c];
            let idx: usize = (cy as usize) * COST_MAP_EDGE + (cx as usize);
            m[idx] = COST_OCCUPIED;
            c = c + 1;
        }
        proof {
            assert(creeps@.skip(c as int) =~= Seq::<(u8, u8)>::empty());
        }
    }

    let sn = construction_sites.len();
    let mut k: usize = 0;
    let ghost before_sites = m@;
    proof {
        assert(construction_sites@.skip(0) =~= construction_sites@);
    }
    while k < sn
        invariant
            k <= sn,
            sn == construction_sites@.len(),
            m@.len() == COST_MAP_CELLS,
            cost_inputs_in_bounds(structures@, construction_sites@, creeps@),
            apply_sites(before_sites, construction_sites@) == apply_sites(
                m@,
                construction_sites@.skip(k as int),
            ),
        decreases sn - k,
    {
        proof {
            let rest = construction_sites@.skip(k as int);
            assert(rest[0] == construction_sites@[k as int]);
            assert(rest.skip(1) =~= construction_sites@.skip(k as int + 1));
        }
        let ghost m_pre = m@;
        let site = construction_sites[k];
        let idx: usize = (site.y as usize) * COST_MAP_EDGE + (site.x as usize);
        match site.kind {
            StructureKind::Container => {},
            StructureKind::Road => {},
            StructureKind::Rampart => {},
            _ => {
                m[idx] = COST_IMPASSABLE;
            },
        }
        proof {
            assert(m@ == apply_site(m_pre, site));
        }
        k = k + 1;
    }
    proof {
        assert(construction_sites@.skip(k as int) =~= Seq::<CostSite>::empty());
        assert(structures@.skip(n as int) =~= Seq::<CostStructure>::empty());
    }
    m
}

/// The cost-map profile for workers indifferent to paving, ignoring other
/// agents.
pub fn callback_standard(structures: &Vec<CostStructure>, construction_sites: &Vec<CostSite>)
    -> (m: Vec<u8>)
    requires
        cost_inputs_in_bounds(structures@, construction_sites@, Seq::<(u8, u8)>::empty()),
    ensures
        m@ == spec_cost_map(
            structures@,
            construction_sites@,
            Seq::<(u8, u8)>::empty(),
            false,
            false,
        ),
{
    let creeps: Vec<(u8, u8)> = Vec::new();
    build_cost_map(structures, construction_sites, &creeps, false, false)
}

/// The cost-map profile for workers that prefer paved cells, ignoring
/// other agents.
pub fn callback_roads(structures: &Vec<CostStructure>, construction_sites: &Vec<CostSite>) -> (m:
    Vec<u8>)
    requires
        cost_inputs_in_bounds(structures@, construction_sites@, Seq::<(u8, u8)>::empty()),
    ensures
        m@ == spec_cost_map(
            structures@,
            construction_sites@,
            Seq::<(u8, u8)>::empty(),
            true,
            false,
        ),
{
    let creeps: Vec<(u8, u8)> = Vec::new();
    build_cost_map(structures, construction_sites, &creeps, true, false)
}

/// The cost-map profile for workers indifferent to paving that avoid
/// occupied cells.
pub fn callback_standard_avoiding_creeps(
    structures: &Vec<CostStructure>,
    construction_sites: &Vec<CostSite>,
    creeps: &Vec<(u8, u8)>,
) -> (m: Vec<u8>)
    requires
        cost_inputs_in_bounds(structures@, construction_sites@, creeps@),
    ensures
        m@ == spec_cost_map(structures@, construction_sites@, creeps@, false, true),
{
    build_cost_map(structures, construction_sites, creeps, false, true)
}

/// The cost-map profile for workers that prefer paved cells and avoid
/// occupied cells.
pub fn callback_roads_avoiding_creeps(
    structures: &Vec<CostStructure>,
    construction_sites: &Vec<CostSite>,
    creeps: &Vec<(u8, u8)>,
) -> (m: Vec<u8>)
    requires
        cost_inputs_in_bounds(structures@, construction_sites@, creeps@),
    ensures
        m@ == spec_cost_map(structures@, construction_sites@, creeps@, true, true),
{
    build_cost_map(structures, construction_sites, creeps, true, true)
}

} // verus!
