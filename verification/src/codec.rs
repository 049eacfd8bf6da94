//! Compact text encoding of a worker role, used as the external display
//! name of a freshly spawned mobile agent so identity survives a full state
//! reset.
//!
//! A token is one ASCII tag byte followed by the role's parameters as
//! fixed-width lowercase hex. Decoding rejects anything else; a live agent
//! whose name fails to decode is classified `Invalid` by the registry, not
//! crashed on.

use vstd::prelude::*;

use crate::grid::Pos;
use crate::role::{
    Builder, Hauler, Invalid, RoomId, SourceHarvester, Spawn, SpawningCreep, Startup, Tower,
    Upgrader, WorkerRole,
};

verus! {

pub const TAG_BUILDER: u8 = 98;  // 'b'

pub const TAG_UPGRADER: u8 = 117;  // 'u'

pub const TAG_HAULER: u8 = 104;  // 'h'

pub const TAG_SOURCE_HARVESTER: u8 = 115;  // 's'

pub const TAG_STARTUP: u8 = 116;  // 't'

pub const TAG_SPAWN: u8 = 112;  // 'p'

pub const TAG_TOWER: u8 = 119;  // 'w'

pub const TAG_INVALID: u8 = 120;  // 'x'

pub const TAG_SPAWNING: u8 = 99;  // 'c'

/// The ASCII byte for hex digit `n`.
pub open spec fn hex_digit(n: int) -> u8 {
    if n < 10 {
        (48 + n) as u8
    } else {
        (87 + n) as u8
    }
}

/// The value of ASCII byte `c` as a lowercase hex digit.
pub open spec fn hex_val(c: u8) -> Option<u8> {
    if 48 <= c && c <= 57 {
        Some((c - 48) as u8)
    } else if 97 <= c && c <= 102 {
        Some((c - 87) as u8)
    } else {
        None
    }
}

/// A `u8` as two hex digit bytes, high nibble first.
pub open spec fn hex2(v: u8) -> Seq<u8> {
    seq![hex_digit(v as int / 16), hex_digit(v as int % 16)]
}

/// A `u16` as four hex digit bytes, high byte first.
pub open spec fn hex4(v: u16) -> Seq<u8> {
    hex2((v / 256) as u8) + hex2((v % 256) as u8)
}

/// A `u32` as eight hex digit bytes, high half first.
pub open spec fn hex8(v: u32) -> Seq<u8> {
    hex4((v / 65536) as u16) + hex4((v % 65536) as u16)
}

/// The value of two hex digit bytes, or nothing if either is no digit.
pub open spec fn spec_hex_val2(s: Seq<u8>) -> Option<u8> {
    match (hex_val(s[0]), hex_val(s[1])) {
        (Some(h), Some(l)) => Some((16 * h as int + l as int) as u8),
        _ => None,
    }
}

/// The value of four hex digit bytes.
pub open spec fn spec_hex_val4(s: Seq<u8>) -> Option<u16> {
    match (spec_hex_val2(s.take(2)), spec_hex_val2(s.skip(2))) {
        (Some(h), Some(l)) => Some((256 * h as int + l as int) as u16),
        _ => None,
    }
}

/// The value of eight hex digit bytes.
pub open spec fn spec_hex_val8(s: Seq<u8>) -> Option<u32> {
    match (spec_hex_val4(s.take(4)), spec_hex_val4(s.skip(4))) {
        (Some(h), Some(l)) => Some((65536 * h as int + l as int) as u32),
        _ => None,
    }
}

/// The token that a role encodes to.
pub open spec fn spec_encode_role(r: WorkerRole) -> Seq<u8> {
    match r {
        WorkerRole::Builder(b) => seq![TAG_BUILDER] + hex4(b.home_room.raw) + hex8(
            b.repair_watermark,
        ),
        WorkerRole::Upgrader(u) => seq![TAG_UPGRADER] + hex4(u.home_room.raw) + hex2(u.id),
        WorkerRole::Hauler(h) => seq![TAG_HAULER] + hex4(h.home_room.raw) + hex2(h.id),
        WorkerRole::SourceHarvester(s) => seq![TAG_SOURCE_HARVESTER] + hex4(s.source_position.x)
            + hex4(s.source_position.y),
        WorkerRole::Startup(t) => seq![TAG_STARTUP] + hex4(t.home_room.raw) + hex2(t.id),
        WorkerRole::Spawn(p) => seq![TAG_SPAWN] + hex4(p.room.raw),
        WorkerRole::Tower(w) => seq![TAG_TOWER] + hex4(w.room.raw),
        WorkerRole::Invalid(_) => seq![TAG_INVALID],
        WorkerRole::SpawningCreep(_) => seq![TAG_SPAWNING],
    }
}

/// The role a token decodes to, or nothing if the token is malformed: an
/// unknown tag, a wrong length, or a byte that is no hex digit.
pub open spec fn spec_decode_role(s: Seq<u8>) -> Option<WorkerRole> {
    if s.len() == 0 {
        None
    } else {
        let tag = s[0];
        let body = s.skip(1);
        if tag == TAG_BUILDER {
            if body.len() == 12 {
                match (spec_hex_val4(body.take(4)), spec_hex_val8(body.skip(4))) {
                    (Some(room), Some(w)) => Some(
                        WorkerRole::Builder(
                            Builder { home_room: RoomId { raw: room }, repair_watermark: w },
                        ),
                    ),
                    _ => None,
                }
            } else {
                None
            }
        } else if tag == TAG_UPGRADER {
            match spec_decode_room_and_index(body) {
                Some((room, id)) => Some(WorkerRole::Upgrader(Upgrader { home_room: room, id })),
                None => None,
            }
        } else if tag == TAG_HAULER {
            match spec_decode_room_and_index(body) {
                Some((room, id)) => Some(WorkerRole::Hauler(Hauler { home_room: room, id })),
                None => None,
            }
        } else if tag == TAG_SOURCE_HARVESTER {
            if body.len() == 8 {
                match (spec_hex_val4(body.take(4)), spec_hex_val4(body.skip(4))) {
                    (Some(x), Some(y)) => Some(
                        WorkerRole::SourceHarvester(
                            SourceHarvester { source_position: Pos { x, y } },
                        ),
                    ),
                    _ => None,
                }
            } else {
                None
            }
        } else if tag == TAG_STARTUP {
            match spec_decode_room_and_index(body) {
                Some((room, id)) => Some(WorkerRole::Startup(Startup { home_room: room, id })),
                None => None,
            }
        } else if tag == TAG_SPAWN {
            match spec_decode_room(body) {
                Some(room) => Some(WorkerRole::Spawn(Spawn { room })),
                None => None,
            }
        } else if tag == TAG_TOWER {
            match spec_decode_room(body) {
                Some(room) => Some(WorkerRole::Tower(Tower { room })),
                None => None,
            }
        } else if tag == TAG_INVALID {
            if body.len() == 0 {
                Some(WorkerRole::Invalid(Invalid {  }))
            } else {
                None
            }
        } else if tag == TAG_SPAWNING {
            if body.len() == 0 {
                Some(WorkerRole::SpawningCreep(SpawningCreep {  }))
            } else {
                None
            }
        } else {
            None
        }
    }
}

/// A four-digit region payload.
pub open spec fn spec_decode_room(body: Seq<u8>) -> Option<RoomId> {
    if body.len() == 4 {
        match spec_hex_val4(body) {
            Some(room) => Some(RoomId { raw: room }),
            None => None,
        }
    } else {
        None
    }
}

/// A four-digit region payload followed by a two-digit instance index.
pub open spec fn spec_decode_room_and_index(body: Seq<u8>) -> Option<(RoomId, u8)> {
    if body.len() == 6 {
        match (spec_hex_val4(body.take(4)), spec_hex_val2(body.skip(4))) {
            (Some(room), Some(id)) => Some((RoomId { raw: room }, id)),
            _ => None,
        }
    } else {
        None
    }
}

fn hex_digit_exec(n: u8) -> (c: u8)
    requires
        n < 16,
    ensures
        c == hex_digit(n as int),
{
    if n < 10 {
        48 + n
    } else {
        87 + n
    }
}

fn hex_val_exec(c: u8) -> (r: Option<u8>)
    ensures
        r == hex_val(c),
{
    if 48 <= c && c <= 57 {
        Some(c - 48)
    } else if 97 <= c && c <= 102 {
        Some(c - 87)
    } else {
        None
    }
}

fn push_hex2(out: &mut Vec<u8>, v: u8)
    ensures
        final(out)@ == old(out)@ + hex2(v),
{
    out.push(hex_digit_exec(v / 16));
    out.push(hex_digit_exec(v % 16));
    assert(final(out)@ =~= old(out)@ + hex2(v));
}

fn push_hex4(out: &mut Vec<u8>, v: u16)
    ensures
        final(out)@ == old(out)@ + hex4(v),
{
    push_hex2(out, (v / 256) as u8);
    push_hex2(out, (v % 256) as u8);
    assert(final(out)@ =~= old(out)@ + hex4(v));
}

fn push_hex8(out: &mut Vec<u8>, v: u32)
    ensures
        final(out)@ == old(out)@ + hex8(v),
{
    push_hex4(out, (v / 65536) as u16);
    push_hex4(out, (v % 65536) as u16);
    assert(final(out)@ =~= old(out)@ + hex8(v));
}

/// Encode a role into its display-name token.
pub fn encode_role(role: &WorkerRole) -> (out: Vec<u8>)
    ensures
        out@ == spec_encode_role(*role),
{
    let mut out: Vec<u8> = Vec::new();
    match role {
        WorkerRole::Builder(b) => {
            out.push(TAG_BUILDER);
            push_hex4(&mut out, b.home_room.raw);
            push_hex8(&mut out, b.repair_watermark);
        },
        WorkerRole::Upgrader(u) => {
            out.push(TAG_UPGRADER);
            push_hex4(&mut out, u.home_room.raw);
            push_hex2(&mut out, u.id);
        },
        WorkerRole::Hauler(h) => {
            out.push(TAG_HAULER);
            push_hex4(&mut out, h.home_room.raw);
            push_hex2(&mut out, h.id);
        },
        WorkerRole::SourceHarvester(s) => {
            out.push(TAG_SOURCE_HARVESTER);
            push_hex4(&mut out, s.source_position.x);
            push_hex4(&mut out, s.source_position.y);
        },
        WorkerRole::Startup(t) => {
            out.push(TAG_STARTUP);
            push_hex4(&mut out, t.home_room.raw);
            push_hex2(&mut out, t.id);
        },
        WorkerRole::Spawn(p) => {
            out.push(TAG_SPAWN);
            push_hex4(&mut out, p.room.raw);
        },
        WorkerRole::Tower(w) => {
            out.push(TAG_TOWER);
            push_hex4(&mut out, w.room.raw);
        },
        WorkerRole::Invalid(_) => {
            out.push(TAG_INVALID);
        },
        WorkerRole::SpawningCreep(_) => {
            out.push(TAG_SPAWNING);
        },
    }
    assert(out@ =~= spec_encode_role(*role));
    out
}

fn parse_hex2(s: &Vec<u8>, i: usize) -> (r: Option<u8>)
    requires
        i + 2 <= s@.len(),
    ensures
        r == spec_hex_val2(s@.subrange(i as int, i as int + 2)),
{
    let n = s.len();
    assert(i + 2 <= n);
    let sub = Ghost(s@.subrange(i as int, i as int + 2));
    assert(sub@[0] == s@[i as int] && sub@[1] == s@[i as int + 1]);
    match (hex_val_exec(s[i]), hex_val_exec(s[i + 1])) {
        (Some(h), Some(l)) => Some(16 * h + l),
        _ => None,
    }
}

fn parse_hex4(s: &Vec<u8>, i: usize) -> (r: Option<u16>)
    requires
        i + 4 <= s@.len(),
    ensures
        r == spec_hex_val4(s@.subrange(i as int, i as int + 4)),
{
    let n = s.len();
    assert(i + 4 <= n);
    let sub = Ghost(s@.subrange(i as int, i as int + 4));
    assert(sub@.take(2) =~= s@.subrange(i as int, i as int + 2));
    assert(sub@.skip(2) =~= s@.subrange(i as int + 2, i as int + 4));
    match (parse_hex2(s, i), parse_hex2(s, i + 2)) {
        (Some(h), Some(l)) => Some(256 * (h as u16) + (l as u16)),
        _ => None,
    }
}

fn parse_hex8(s: &Vec<u8>, i: usize) -> (r: Option<u32>)
    requires
        i + 8 <= s@.len(),
    ensures
        r == spec_hex_val8(s@.subrange(i as int, i as int + 8)),
{
    let n = s.len();
    assert(i + 8 <= n);
    let sub = Ghost(s@.subrange(i as int, i as int + 8));
    assert(sub@.take(4) =~= s@.subrange(i as int, i as int + 4));
    assert(sub@.skip(4) =~= s@.subrange(i as int + 4, i as int + 8));
    match (parse_hex4(s, i), parse_hex4(s, i + 4)) {
        (Some(h), Some(l)) => Some(65536 * (h as u32) + (l as u32)),
        _ => None,
    }
}

/// Decode a display-name token back into a role; `None` on any malformed
/// token.
pub fn decode_role(name: &Vec<u8>) -> (r: Option<WorkerRole>)
    ensures
        r == spec_decode_role(name@),
{
    if name.len() == 0 {
        return None;
    }
    let tag = name[0];
    let body_len = name.len() - 1;
    let ghost body = name@.skip(1);
    assert(forall|j: int| 0 <= j < body.len() ==> body[j] == name@[j + 1]);
    if tag == TAG_BUILDER {
        if body_len == 12 {
            assert(body.take(4) =~= name@.subrange(1, 5));
            assert(body.skip(4) =~= name@.subrange(5, 13));
            match (parse_hex4(name, 1), parse_hex8(name, 5)) {
                (Some(room), Some(w)) => Some(
                    WorkerRole::Builder(
                        Builder { home_room: RoomId { raw: room }, repair_watermark: w },
                    ),
                ),
                _ => None,
            }
        } else {
            None
        }
    } else if tag == TAG_UPGRADER {
        match decode_room_and_index(name, body_len) {
            Some((room, id)) => Some(WorkerRole::Upgrader(Upgrader { home_room: room, id })),
            None => None,
        }
    } else if tag == TAG_HAULER {
        match decode_room_and_index(name, body_len) {
            Some((room, id)) => Some(WorkerRole::Hauler(Hauler { home_room: room, id })),
            None => None,
        }
    } else if tag == TAG_SOURCE_HARVESTER {
        if body_len == 8 {
            assert(body.take(4) =~= name@.subrange(1, 5));
            assert(body.skip(4) =~= name@.subrange(5, 9));
            match (parse_hex4(name, 1), parse_hex4(name, 5)) {
                (Some(x), Some(y)) => Some(
                    WorkerRole::SourceHarvester(SourceHarvester { source_position: Pos { x, y } }),
                ),
                _ => None,
            }
        } else {
            None
        }
    } else if tag == TAG_STARTUP {
        match decode_room_and_index(name, body_len) {
            Some((room, id)) => Some(WorkerRole::Startup(Startup { home_room: room, id })),
            None => None,
        }
    } else if tag == TAG_SPAWN {
        match decode_room(name, body_len) {
            Some(room) => Some(WorkerRole::Spawn(Spawn { room })),
            None => None,
        }
    } else if tag == TAG_TOWER {
        match decode_room(name, body_len) {
            Some(room) => Some(WorkerRole::Tower(Tower { room })),
            None => None,
        }
    } else if tag == TAG_INVALID {
        if body_len == 0 {
            Some(WorkerRole::Invalid(Invalid {  }))
        } else {
            None
        }
    } else if tag == TAG_SPAWNING {
        if body_len == 0 {
            Some(WorkerRole::SpawningCreep(SpawningCreep {  }))
        } else {
            None
        }
    } else {
        None
    }
}

fn decode_room(name: &Vec<u8>, body_len: usize) -> (r: Option<RoomId>)
    requires
        name@.len() >= 1,
        body_len == name@.len() - 1,
    ensures
        r == spec_decode_room(name@.skip(1)),
{
    let ghost body = name@.skip(1);
    if body_len == 4 {
        assert(body =~= name@.subrange(1, 5));
        match parse_hex4(name, 1) {
            Some(room) => Some(RoomId { raw: room }),
            None => None,
        }
    } else {
        None
    }
}

fn decode_room_and_index(name: &Vec<u8>, body_len: usize) -> (r: Option<(RoomId, u8)>)
    requires
        name@.len() >= 1,
        body_len == name@.len() - 1,
    ensures
        r == spec_decode_room_and_index(name@.skip(1)),
{
    let ghost body = name@.skip(1);
    if body_len == 6 {
        assert(body.take(4) =~= name@.subrange(1, 5));
        assert(body.skip(4) =~= name@.subrange(5, 7));
        match (parse_hex4(name, 1), parse_hex2(name, 5)) {
            (Some(room), Some(id)) => Some((RoomId { raw: room }, id)),
            _ => None,
        }
    } else {
        None
    }
}

proof fn lemma_hex_digit_val(n: int)
    requires
        0 <= n < 16,
    ensures
        hex_val(hex_digit(n)) == Some(n as u8),
{
}

proof fn lemma_hex2_round(v: u8)
    ensures
        hex2(v).len() == 2,
        spec_hex_val2(hex2(v)) == Some(v),
{
    lemma_hex_digit_val(v as int / 16);
    lemma_hex_digit_val(v as int % 16);
}

proof fn lemma_hex4_round(v: u16)
    ensures
        hex4(v).len() == 4,
        spec_hex_val4(hex4(v)) == Some(v),
{
    lemma_hex2_round((v / 256) as u8);
    lemma_hex2_round((v % 256) as u8);
    assert(hex4(v).take(2) =~= hex2((v / 256) as u8));
    assert(hex4(v).skip(2) =~= hex2((v % 256) as u8));
}

proof fn lemma_hex8_round(v: u32)
    ensures
        hex8(v).len() == 8,
        spec_hex_val8(hex8(v)) == Some(v),
{
    lemma_hex4_round((v / 65536) as u16);
    lemma_hex4_round((v % 65536) as u16);
    assert(hex8(v).take(4) =~= hex4((v / 65536) as u16));
    assert(hex8(v).skip(4) =~= hex4((v % 65536) as u16));
}

/// Encoding any role to its text token and decoding it back yields the
/// original role, embedded parameters included.
pub proof fn lemma_role_token_round_trip(r: WorkerRole)
    ensures
        spec_decode_role(spec_encode_role(r)) == Some(r),
{
    let s = spec_encode_role(r);
    match r {
        WorkerRole::Builder(b) => {
            lemma_hex4_round(b.home_room.raw);
            lemma_hex8_round(b.repair_watermark);
            assert(s.skip(1).take(4) =~= hex4(b.home_room.raw));
            assert(s.skip(1).skip(4) =~= hex8(b.repair_watermark));
        },
        WorkerRole::Upgrader(u) => {
            lemma_hex4_round(u.home_room.raw);
            lemma_hex2_round(u.id);
            assert(s.skip(1).take(4) =~= hex4(u.home_room.raw));
            assert(s.skip(1).skip(4) =~= hex2(u.id));
        },
        WorkerRole::Hauler(h) => {
            lemma_hex4_round(h.home_room.raw);
            lemma_hex2_round(h.id);
            assert(s.skip(1).take(4) =~= hex4(h.home_room.raw));
            assert(s.skip(1).skip(4) =~= hex2(h.id));
        },
        WorkerRole::SourceHarvester(sh) => {
            lemma_hex4_round(sh.source_position.x);
            lemma_hex4_round(sh.source_position.y);
            assert(s.skip(1).take(4) =~= hex4(sh.source_position.x));
            assert(s.skip(1).skip(4) =~= hex4(sh.source_position.y));
        },
        WorkerRole::Startup(t) => {
            lemma_hex4_round(t.home_room.raw);
            lemma_hex2_round(t.id);
            assert(s.skip(1).take(4) =~= hex4(t.home_room.raw));
            assert(s.skip(1).skip(4) =~= hex2(t.id));
        },
        WorkerRole::Spawn(p) => {
            lemma_hex4_round(p.room.raw);
            assert(s.skip(1) =~= hex4(p.room.raw));
        },
        WorkerRole::Tower(w) => {
            lemma_hex4_round(w.room.raw);
            assert(s.skip(1) =~= hex4(w.room.raw));
        },
        WorkerRole::Invalid(_) => {
            assert(s.skip(1).len() == 0);
        },
        WorkerRole::SpawningCreep(_) => {
            assert(s.skip(1).len() == 0);
        },
    }
}

} // verus!
