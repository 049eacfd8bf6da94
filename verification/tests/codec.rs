use colony_core::codec::{decode_role, encode_role};
use colony_core::grid::Pos;
use colony_core::role::{
    Builder, Hauler, Invalid, RoomId, SourceHarvester, Spawn, SpawningCreep, Startup, Tower,
    Upgrader, WorkerRole,
};

fn round_trip(role: WorkerRole) {
    let token = encode_role(&role);
    assert_eq!(decode_role(&token), Some(role));
}

#[test]
fn name_round_trip_builder() {
    round_trip(WorkerRole::Builder(Builder {
        home_room: RoomId { raw: 0x0102 },
        repair_watermark: 10000,
    }));
}

#[test]
fn name_round_trip_upgrader() {
    round_trip(WorkerRole::Upgrader(Upgrader {
        home_room: RoomId { raw: 65535 },
        id: 3,
    }));
}

#[test]
fn name_round_trip_hauler() {
    round_trip(WorkerRole::Hauler(Hauler {
        home_room: RoomId { raw: 0 },
        id: 255,
    }));
}

#[test]
fn name_round_trip_source_harvester() {
    round_trip(WorkerRole::SourceHarvester(SourceHarvester {
        source_position: Pos { x: 1234, y: 4321 },
    }));
}

#[test]
fn name_round_trip_startup() {
    round_trip(WorkerRole::Startup(Startup {
        home_room: RoomId { raw: 77 },
        id: 14,
    }));
}

#[test]
fn name_round_trip_spawn() {
    round_trip(WorkerRole::Spawn(Spawn {
        room: RoomId { raw: 513 },
    }));
}

#[test]
fn name_round_trip_tower() {
    round_trip(WorkerRole::Tower(Tower {
        room: RoomId { raw: 60000 },
    }));
}

#[test]
fn name_round_trip_invalid() {
    round_trip(WorkerRole::Invalid(Invalid {}));
}

#[test]
fn name_round_trip_spawning_creep() {
    round_trip(WorkerRole::SpawningCreep(SpawningCreep {}));
}

#[test]
fn encode_builder_exact_token() {
    let role = WorkerRole::Builder(Builder {
        home_room: RoomId { raw: 0x0102 },
        repair_watermark: 10000,
    });
    // 10000 = 0x2710; fields are fixed-width lowercase hex.
    assert_eq!(encode_role(&role), b"b010200002710".to_vec());
}

#[test]
fn encode_spawn_exact_token() {
    let role = WorkerRole::Spawn(Spawn {
        room: RoomId { raw: 0xbeef },
    });
    assert_eq!(encode_role(&role), b"pbeef".to_vec());
}

#[test]
fn decode_rejects_empty() {
    assert_eq!(decode_role(&Vec::new()), None);
}

#[test]
fn decode_rejects_unknown_tag() {
    assert_eq!(decode_role(&b"q0102".to_vec()), None);
}

#[test]
fn decode_rejects_wrong_length() {
    assert_eq!(decode_role(&b"p010".to_vec()), None);
    assert_eq!(decode_role(&b"p01020".to_vec()), None);
    assert_eq!(decode_role(&b"x0".to_vec()), None);
}

#[test]
fn decode_rejects_non_hex_digit() {
    assert_eq!(decode_role(&b"pzzzz".to_vec()), None);
    assert_eq!(decode_role(&b"b0102000027g0".to_vec()), None);
}
