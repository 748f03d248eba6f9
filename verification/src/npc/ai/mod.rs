//! Behaviour state machines of individual NPC types.

pub mod balcony;
pub mod balrog;
pub mod doctor;
pub mod egg_corridor;
pub mod first_cave;
pub mod hell;
pub mod last_cave;
pub mod mimiga_village;
pub mod misery;
pub mod sand_zone;
pub mod santa;
pub mod toroko;
pub mod wind_fortress;

use vstd::prelude::*;

use crate::common::Direction;
use crate::npc::NPC;

verus! {

/// A coordinate (or speed) within the range entity ticks keep their sums
/// in: an eighth of the `i32` range each way, so that a position plus a
/// speed plus an offset, or the distance between two positions, never
/// leaves `i32`. It is every position on a map of up to 32768 tiles of
/// 16 pixels each way (see `law_map_positions_in_reach`), with room around
/// it.
pub open spec fn npc_coord_ok(v: i32) -> bool {
    -0x1000_0000 <= v <= 0x1000_0000
}

/// Every position on a map up to 32768 tiles of 16 pixels (0x2000 units)
/// across, and up to a map's width to either side of it, is in reach of
/// the entity ticks.
pub proof fn law_map_positions_in_reach(tiles: int, pos: int)
    requires
        0 <= tiles <= 0x8000,
        -tiles * 0x2000 <= pos <= tiles * 0x2000,
    ensures
        npc_coord_ok(pos as i32),
        pos as i32 == pos,
{
}

/// Integer division rounding towards zero, as `/` on machine integers.
pub open spec fn trunc_div(a: int, b: int) -> int {
    if a >= 0 {
        a / b
    } else {
        -((-a) / b)
    }
}

/// `num * v / den` on `i32`, rounding towards zero: a damped speed.
pub fn scale_i32(v: i32, num: i32, den: i32) -> (r: i32)
    requires
        0 < den,
        0 <= num <= den <= 16,
        -0x1000_0000 <= v <= 0x1000_0000,
    ensures
        r == trunc_div(num * v, den as int),
        -0x1000_0000 <= r <= 0x1000_0000,
{
    assert(-0x1_0000_0000 <= num * v <= 0x1_0000_0000) by (nonlinear_arith)
        requires
            0 <= num <= 16,
            -0x1000_0000 <= v <= 0x1000_0000,
    ;
    let t: i64 = num as i64 * v as i64;
    assert(-0x1_0000_0000 <= t <= 0x1_0000_0000) by (nonlinear_arith)
        requires
            t == num * v,
            0 <= num <= 16,
            -0x1000_0000 <= v <= 0x1000_0000,
    ;
    if t >= 0 {
        assert((t as int) / (den as int) <= 0x1000_0000) by (nonlinear_arith)
            requires
                t == num * v,
                0 <= num <= den,
                0 < den,
                t >= 0,
                v <= 0x1000_0000,
        ;
        (t / den as i64) as i32
    } else {
        assert((-t) / (den as int) <= 0x1000_0000) by (nonlinear_arith)
            requires
                t == num * v,
                0 <= num <= den,
                0 < den,
                t < 0,
                -0x1000_0000 <= v,
        ;
        (-((-t) / den as i64)) as i32
    }
}

/// Frame index for a type whose right-facing frames start `k` entries in.
pub open spec fn dir_frame(n: NPC, k: u16) -> u16 {
    if n.direction == Direction::Left {
        n.anim_num
    } else {
        (n.anim_num + k) as u16
    }
}

} // verus!
