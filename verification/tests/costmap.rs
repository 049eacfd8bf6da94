use colony_core::costmap::{
    build_cost_map, callback_roads, callback_standard, callback_standard_avoiding_creeps,
    CostSite, CostStructure, COST_IMPASSABLE, COST_OCCUPIED, COST_ROAD,
};
use colony_core::policy::StructureKind;

fn at(x: u8, y: u8, kind: StructureKind, my: bool) -> CostStructure {
    CostStructure { x, y, kind, my }
}

fn idx(x: u8, y: u8) -> usize {
    y as usize * 50 + x as usize
}

#[test]
fn invisible_region_yields_default_terrain_map() {
    let m = callback_standard(&Vec::new(), &Vec::new());
    assert_eq!(m.len(), 2500);
    assert!(m.iter().all(|&c| c == 0));
}

#[test]
fn walls_are_impassable() {
    let m = callback_standard(&vec![at(3, 4, StructureKind::Wall, false)], &Vec::new());
    assert_eq!(m[idx(3, 4)], COST_IMPASSABLE);
}

#[test]
fn roads_are_ignored_without_paving_preference() {
    let m = callback_standard(&vec![at(3, 4, StructureKind::Road, true)], &Vec::new());
    assert_eq!(m[idx(3, 4)], 0);
}

#[test]
fn roads_are_discounted_with_paving_preference() {
    let m = callback_roads(&vec![at(3, 4, StructureKind::Road, true)], &Vec::new());
    assert_eq!(m[idx(3, 4)], COST_ROAD);
}

#[test]
fn road_does_not_override_earlier_marking() {
    // A wall observed before a road on the same cell keeps the cell
    // impassable.
    let m = callback_roads(
        &vec![
            at(3, 4, StructureKind::Wall, false),
            at(3, 4, StructureKind::Road, true),
        ],
        &Vec::new(),
    );
    assert_eq!(m[idx(3, 4)], COST_IMPASSABLE);
}

#[test]
fn containers_stay_walkable() {
    let m = callback_standard(&vec![at(3, 4, StructureKind::Container, true)], &Vec::new());
    assert_eq!(m[idx(3, 4)], 0);
}

#[test]
fn own_ramparts_walkable_strangers_not() {
    let m = callback_standard(
        &vec![
            at(1, 1, StructureKind::Rampart, true),
            at(2, 2, StructureKind::Rampart, false),
        ],
        &Vec::new(),
    );
    assert_eq!(m[idx(1, 1)], 0);
    assert_eq!(m[idx(2, 2)], COST_IMPASSABLE);
}

#[test]
fn other_structures_block() {
    let m = callback_standard(&vec![at(9, 9, StructureKind::Spawn, true)], &Vec::new());
    assert_eq!(m[idx(9, 9)], COST_IMPASSABLE);
}

#[test]
fn occupied_cells_penalised_only_when_avoiding() {
    let creeps = vec![(7u8, 8u8)];
    let avoiding = callback_standard_avoiding_creeps(&Vec::new(), &Vec::new(), &creeps);
    assert_eq!(avoiding[idx(7, 8)], COST_OCCUPIED);
    let indifferent = build_cost_map(&Vec::new(), &Vec::new(), &creeps, false, false);
    assert_eq!(indifferent[idx(7, 8)], 0);
}

#[test]
fn construction_sites_block_unless_walkable_kind() {
    let sites = vec![
        CostSite { x: 1, y: 1, kind: StructureKind::Extension },
        CostSite { x: 2, y: 2, kind: StructureKind::Road },
        CostSite { x: 3, y: 3, kind: StructureKind::Container },
        CostSite { x: 4, y: 4, kind: StructureKind::Rampart },
    ];
    let m = callback_standard(&Vec::new(), &sites);
    assert_eq!(m[idx(1, 1)], COST_IMPASSABLE);
    assert_eq!(m[idx(2, 2)], 0);
    assert_eq!(m[idx(3, 3)], 0);
    assert_eq!(m[idx(4, 4)], 0);
}
