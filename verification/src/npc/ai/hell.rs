//! Hell: Numahachi, the Bute that guard the way, the block-throwing
//! Mesa, and the Rolling that run along the walls.

use vstd::prelude::*;

use crate::common::{spec_opposite, spec_vector_x, Direction};
use crate::game_state::{with_smoke, with_sound, with_spawn, DeathSmoke, SharedGameState, StateView};
use crate::npc::ai::balcony::{alive_at, parent_of};
use crate::npc::list::NPCList;
use crate::npc::ai::mimiga_village::ignoring_solidity;
use crate::npc::ai::misery::{clamp, clamp_i32, shootable, tick_counter};
use crate::npc::ai::{dir_frame, npc_coord_ok, scale_i32, trunc_div};
use crate::stage::{spec_change_tile, Stage};
use crate::npc::{
    closest_player, roll, set_alive_spec, spec_animate, with_bits16, Condition, NPCFlag, Player, Rect, COND_EXPLODE_DIE,
    NPC_INVULNERABLE, NPC_SOLID_SOFT, FLAG_HIT_BOTTOM_WALL,
    FLAG_HIT_LEFT_WALL, FLAG_HIT_RIGHT_WALL, FLAG_HIT_TOP_WALL, NPC,
};

verus! {

/// One tick of Numahachi: raised 8 pixels on the first tick, then standing
/// with a slow two-frame animation; gravity, fall speed capped at 3
/// pixels, and the move by his speed.
pub open spec fn numahachi_step(n: NPC) -> NPC {
    let a0 = if n.action_num == 0 { NPC { action_num: 1, y: (n.y - 0x1000) as i32, ..n } } else { n };
    let a1 = if a0.action_num == 1 { NPC { action_num: 2, anim_num: 0, vel_x: 0, ..a0 } } else { a0 };
    let a2 = if a1.action_num == 2 { spec_animate(a1, 50, 0, 1) } else { a1 };
    let vy0 = a2.vel_y + 0x40;
    let vy = if vy0 > 0x5ff { 0x5ff } else { vy0 };
    let m = NPC { vel_y: vy as i32, x: (a2.x + a2.vel_x) as i32, y: (a2.y + vy) as i32, ..a2 };
    NPC { anim_rect: m.anim_num, ..m }
}

/// A speed turned around when it runs into a wall on that side.
pub open spec fn bounced(v: int, hit_low: bool, hit_high: bool) -> int {
    if v < 0 && hit_low {
        -v
    } else if v > 0 && hit_high {
        -v
    } else {
        v
    }
}

/// Whether a waiting Bute sees the player coming: between 272 and 288
/// pixels ahead of it.
pub open spec fn bute_sees(n: NPC, p: Player) -> bool {
    if n.direction == Direction::Left {
        p.x > n.x - 0x24000 && p.x < n.x - 0x22000
    } else {
        p.x < n.x + 0x24000 && p.x > n.x + 0x22000
    }
}

/// One tick of a flying Bute: it waits (0, 1) until the nearest player is
/// in sight; then (10, 11) it becomes shootable and harmful, faces the
/// player and accelerates towards them, bouncing off walls, at most 3
/// pixels a tick each way; below 997 life it turns into a dead Bute.
pub open spec fn bute_step(n: NPC, players: [Player; 2]) -> NPC {
    let p = players[closest_player(n.x, n.y, players) as int];
    let k = n.action_num;
    let a = if k == 0 || k == 1 {
        NPC { action_num: if bute_sees(n, p) { 10 } else { 1 }, ..n }
    } else if k == 10 || k == 11 {
        let b = if k == 10 { NPC { action_num: 11, damage: 5, ..shootable(n, true) } } else { n };
        let c = NPC { direction: if b.x > p.x { Direction::Left } else { Direction::Right }, ..b };
        let vx0 = c.vel_x2 + 0x10 * spec_vector_x(c.direction);
        let vy0 = c.vel_y2 + if c.y > p.y { -0x10int } else { 0x10int };
        let f = c.flags.0;
        let vx1 = bounced(
            bounced(vx0, f & FLAG_HIT_LEFT_WALL != 0, false),
            false,
            f & FLAG_HIT_RIGHT_WALL != 0,
        );
        let vy1 = bounced(
            bounced(vy0, f & FLAG_HIT_TOP_WALL != 0, false),
            false,
            f & FLAG_HIT_BOTTOM_WALL != 0,
        );
        let vx = clamp(vx1, -0x5ff, 0x5ff);
        let vy = clamp(vy1, -0x5ff, 0x5ff);
        let m = spec_animate(
            NPC { vel_x2: vx as i32, vel_y2: vy as i32, x: (c.x + vx) as i32, y: (c.y + vy) as i32, ..c },
            1,
            0,
            1,
        );
        NPC { anim_rect: dir_frame(m, 2), ..m }
    } else {
        n
    };
    if a.life <= 996 { NPC { npc_type: 316, action_num: 0, ..a } } else { a }
}

/// One tick of a dead Bute: it is thrown up and back (sound 50), lands,
/// slides to a stop flapping (frames 1 and 2) and explodes after 50 ticks
/// on the ground; gravity, fall speed capped at 3 pixels, and the move
/// (right-facing frames start 3 in).
pub open spec fn bute_dead_step(n: NPC, st: StateView) -> (NPC, StateView) {
    let (a, st1) = if n.action_num == 0 {
        let b = ignoring_solidity(shootable(n, false), false);
        (
            NPC {
                damage: 0,
                action_num: 1,
                anim_num: 0,
                display_bounds: Rect { top: 0x1800, right: 0x1800, left: 0x1800, ..b.display_bounds },
                vel_y: -0x200i32,
                vel_x: (0x100 * spec_vector_x(spec_opposite(b.direction))) as i32,
                ..b
            },
            with_sound(st, 50),
        )
    } else if n.action_num == 1 && n.flags.0 & FLAG_HIT_BOTTOM_WALL != 0 {
        (NPC { action_num: 2, action_counter: 0, anim_num: 1, anim_counter: 0, ..n }, st)
    } else if n.action_num == 2 {
        let b = spec_animate(NPC { vel_x: trunc_div(8 * n.vel_x, 9) as i32, ..n }, 3, 1, 2);
        let c = tick_counter(b);
        (
            if c.action_counter > 50 {
                NPC { cond: Condition(with_bits16(c.cond.0, COND_EXPLODE_DIE, true)), ..c }
            } else {
                c
            },
            st,
        )
    } else {
        (n, st)
    };
    let vy0 = a.vel_y + 0x20;
    let vy = if vy0 > 0x5ff { 0x5ff } else { vy0 };
    let m = NPC { vel_y: vy as i32, x: (a.x + a.vel_x) as i32, y: (a.y + vy) as i32, ..a };
    (NPC { anim_rect: dir_frame(m, 3), ..m }, st1)
}

/// One tick of a Bute generator: started by the script (10), it sends out
/// a spinning Bute (type 323, from slot 256 on, at its place and facing)
/// every 50 ticks, the first at once, and stops after 351 ticks.
pub open spec fn bute_generator_step(n: NPC, st: StateView) -> (NPC, StateView) {
    let a = if n.action_num == 10 { NPC { action_num: 11, action_counter: 0, ..n } } else { n };
    if a.action_num == 11 {
        let c = tick_counter(a);
        let st1 = if c.action_counter % 50 == 1 {
            with_spawn(st, 0x100, NPC { direction: c.direction, ..alive_at(st, 323, c.x as int, c.y as int) })
        } else {
            st
        };
        (if c.action_counter > 351 { NPC { action_num: 0, ..c } } else { c }, st1)
    } else {
        (a, st)
    }
}

/// One tick of Mesa: standing up (raised 8 pixels) and turning to the
/// nearest player with a slow two-frame animation; a player within 320
/// pixels across and 160 up or down makes her count, and after 51 such
/// ticks she raises a block (type 319, her child, from slot 256 on) for 50
/// ticks, throws it (sound 39) and rests 20 ticks; gravity, fall speed
/// capped at 3 pixels (right-facing frames start 4 in); below 937 life she
/// turns into a dead Mesa.
pub open spec fn mesa_step(n: NPC, st: StateView, players: [Player; 2]) -> (NPC, StateView) {
    let p = players[closest_player(n.x, n.y, players) as int];
    let k = n.action_num;
    let (a, st1) = if k <= 2 {
        let a0 = if k == 0 { NPC { action_num: 1, y: (n.y - 0x1000) as i32, target_x: n.x, ..n } } else { n };
        let a1 = if a0.action_num == 1 { NPC { action_num: 2, vel_x: 0, anim_num: 0, action_counter: 0, ..a0 } } else { a0 };
        let a2 = spec_animate(NPC { direction: if a1.x > p.x { Direction::Left } else { Direction::Right }, ..a1 }, 40, 0, 1);
        let near = p.x > a2.x - 0x28000 && p.x < a2.x + 0x28000 && p.y > a2.y - 0x14000 && p.y < a2.y + 0x14000;
        let a3 = if near {
            let c = tick_counter(a2);
            if c.action_counter > 50 { NPC { action_num: 10, ..c } } else { c }
        } else {
            a2
        };
        (a3, st)
    } else if k == 10 || k == 11 {
        let (b, st0) = if k == 10 {
            (
                NPC { action_num: 11, action_counter: 0, anim_num: 2, ..n },
                with_spawn(st, 0x100, NPC { parent_id: n.id, ..alive_at(st, 319, n.x as int, n.y as int) }),
            )
        } else {
            (n, st)
        };
        let c = tick_counter(b);
        if c.action_counter > 50 {
            (NPC { action_counter: 0, action_num: 12, anim_num: 3, ..c }, with_sound(st0, 39))
        } else {
            (c, st0)
        }
    } else if k == 12 {
        let c = tick_counter(n);
        (if c.action_counter > 20 { NPC { action_num: 1, ..c } } else { c }, st)
    } else {
        (n, st)
    };
    let vy0 = a.vel_y + 0x55;
    let vy = if vy0 > 0x5ff { 0x5ff } else { vy0 };
    let m = NPC { vel_y: vy as i32, x: (a.x + a.vel_x) as i32, y: (a.y + vy) as i32, ..a };
    let r = NPC { anim_rect: dir_frame(m, 4), ..m };
    (if r.life <= 936 { NPC { npc_type: 318, action_num: 0, ..r } } else { r }, st1)
}

/// One tick of a dead Mesa: like a dead Bute, but thrown back at a quarter
/// of the speed, no longer a soft obstacle, with sound 54, and keeping
/// her drawing bounds.
pub open spec fn mesa_dead_step(n: NPC, st: StateView) -> (NPC, StateView) {
    let (a, st1) = if n.action_num == 0 {
        let b = ignoring_solidity(shootable(n, false), false);
        (
            NPC {
                npc_flags: NPCFlag(with_bits16(b.npc_flags.0, NPC_SOLID_SOFT, false)),
                damage: 0,
                action_num: 1,
                anim_num: 0,
                vel_y: -0x200i32,
                vel_x: (0x40 * spec_vector_x(spec_opposite(b.direction))) as i32,
                ..b
            },
            with_sound(st, 54),
        )
    } else if n.action_num == 1 && n.flags.0 & FLAG_HIT_BOTTOM_WALL != 0 {
        (NPC { action_num: 2, action_counter: 0, anim_num: 1, anim_counter: 0, ..n }, st)
    } else if n.action_num == 2 {
        let b = spec_animate(NPC { vel_x: trunc_div(8 * n.vel_x, 9) as i32, ..n }, 3, 1, 2);
        let c = tick_counter(b);
        (
            if c.action_counter > 50 {
                NPC { cond: Condition(with_bits16(c.cond.0, COND_EXPLODE_DIE, true)), ..c }
            } else {
                c
            },
            st,
        )
    } else {
        (n, st)
    };
    let vy0 = a.vel_y + 0x20;
    let vy = if vy0 > 0x5ff { 0x5ff } else { vy0 };
    let m = NPC { vel_y: vy as i32, x: (a.x + a.vel_x) as i32, y: (a.y + vy) as i32, ..a };
    (NPC { anim_rect: dir_frame(m, 3), ..m }, st1)
}

pub open spec fn with_invulnerable(n: NPC, v: bool) -> NPC {
    NPC { npc_flags: NPCFlag(with_bits16(n.npc_flags.0, NPC_INVULNERABLE, v)), ..n }
}

pub open spec fn facing(n: NPC, p: Player) -> Direction {
    if n.x > p.x { Direction::Left } else { Direction::Right }
}

/// One tick of a sword Bute: guarding, untouchable and harmless (0, 1),
/// facing the nearest player until one is within 128 pixels across, 128
/// above or 16 below; then waiting 31 ticks (10, 11) and walking at them
/// at 2 pixels a tick (20, 21), shootable, for up to 51 ticks; within 40
/// pixels across it leaps (sound 30) at half speed (30), swings its sword
/// on the way down (31, 9 damage) and stands 31 ticks after landing (32, 3
/// damage); gravity without a cap (right-facing frames start 5 in); below
/// 997 life it turns into a dead Bute.
pub open spec fn bute_sword_step(n: NPC, st: StateView, players: [Player; 2]) -> (NPC, StateView) {
    let p = players[closest_player(n.x, n.y, players) as int];
    let k = n.action_num;
    let (a, st1) = if k == 0 || k == 1 {
        let b = if k == 0 { NPC { action_num: 1, damage: 0, ..with_invulnerable(shootable(n, false), true) } } else { n };
        let c = NPC { direction: facing(b, p), anim_counter: 0, ..b };
        let sees = p.x > c.x - 0x10000 && p.x < c.x + 0x10000 && p.y > c.y - 0x10000 && p.y < c.y + 0x2000;
        (if sees { NPC { action_num: 10, ..c } } else { c }, st)
    } else if k == 10 || k == 11 {
        let b = if k == 10 {
            NPC {
                action_num: 11,
                vel_x: 0,
                action_counter: 0,
                damage: 0,
                anim_counter: 0,
                ..with_invulnerable(shootable(n, false), true)
            }
        } else {
            n
        };
        let c = tick_counter(b);
        (if c.action_counter > 30 { NPC { action_num: 20, ..c } } else { c }, st)
    } else if k == 20 || k == 21 {
        let b = if k == 20 {
            NPC {
                action_num: 21,
                action_counter: 0,
                damage: 0,
                direction: facing(n, p),
                ..with_invulnerable(shootable(n, true), false)
            }
        } else {
            n
        };
        let c = tick_counter(spec_animate(NPC { vel_x: (0x400 * spec_vector_x(b.direction)) as i32, ..b }, 3, 0, 1));
        let d = if c.action_counter > 50 { NPC { action_num: 10, ..c } } else { c };
        if d.x < p.x + 0x5000 && d.x > p.x - 0x5000 {
            (NPC { vel_y: -0x300i32, vel_x: trunc_div(d.vel_x as int, 2) as i32, anim_num: 2, action_num: 30, ..d }, with_sound(st, 30))
        } else {
            (d, st)
        }
    } else if k == 30 {
        (if n.vel_y > -0x80 { NPC { action_num: 31, anim_counter: 0, anim_num: 3, damage: 9, ..n } } else { n }, st)
    } else if k == 31 {
        let b = if n.anim_counter + 1 > 2 {
            NPC { anim_counter: 0, anim_num: 4, ..n }
        } else {
            NPC { anim_counter: (n.anim_counter + 1) as u16, ..n }
        };
        (
            if b.flags.0 & FLAG_HIT_BOTTOM_WALL != 0 {
                NPC { action_num: 32, action_counter: 0, vel_x: 0, damage: 3, ..b }
            } else {
                b
            },
            st,
        )
    } else if k == 32 {
        let c = tick_counter(n);
        (if c.action_counter > 30 { NPC { action_num: 10, damage: 0, ..c } } else { c }, st)
    } else {
        (n, st)
    };
    let vy = a.vel_y + 0x20;
    let m = NPC { vel_y: vy as i32, x: (a.x + a.vel_x) as i32, y: (a.y + vy) as i32, ..a };
    let r = NPC { anim_rect: dir_frame(m, 5), ..m };
    (if r.life <= 996 { NPC { npc_type: 316, action_num: 0, ..r } } else { r }, st1)
}

/// Whether a waiting archer Bute sees the player: within 160 pixels up or
/// down, and up to 320 pixels ahead of it.
pub open spec fn archer_sees(n: NPC, p: Player) -> bool {
    &&& p.y > n.y - 0x14000 && p.y < n.y + 0x14000
    &&& if n.direction == Direction::Left {
        p.x > n.x - 0x28000 && p.x < n.x
    } else {
        p.x > n.x && p.x < n.x + 0x28000
    }
}

/// One tick of an archer Bute: waiting (0, 1) until it sees the nearest
/// player; aiming for 11 ticks (10, 11), level (frame 1) at a player within
/// 224 pixels across and not 8 above, else upwards (frame 4,
/// `action_counter2` 1); drawing for 31 ticks (20, 21); shooting an arrow
/// (type 312, 3 pixels a tick forward, and as fast upwards when aiming up)
/// and holding for 31 ticks (30, 31); then resting (40) a random 0 to 100
/// ticks short of 151, the count starting over while the player is over
/// 352 pixels across or 240 up or down; right-facing frames start 7 in;
/// below 993 life it turns into a dead Bute.
pub open spec fn bute_archer_step(n: NPC, st: StateView, players: [Player; 2]) -> (NPC, StateView) {
    let p = players[closest_player(n.x, n.y, players) as int];
    let k = n.action_num;
    let (a, st1) = if k == 0 || k == 1 {
        (NPC { action_num: if archer_sees(n, p) { 10 } else { 1 }, ..n }, st)
    } else if k == 10 || k == 11 {
        let level = p.x > n.x - 0x1c000 && p.x < n.x + 0x1c000 && p.y > n.y - 0x1000;
        let b = NPC {
            action_num: 11,
            direction: facing(n, p),
            anim_num: if level { 1 } else { 4 },
            action_counter2: if level { 0 } else { 1 },
            ..n
        };
        let c = tick_counter(b);
        (if c.action_counter > 10 { NPC { action_num: 20, ..c } } else { c }, st)
    } else if k == 20 || k == 21 {
        let b = if k == 20 { NPC { action_num: 21, action_counter: 0, ..n } } else { n };
        let up = b.action_counter2 * 3;
        let c = tick_counter(spec_animate(b, 1, (1 + up) as u16, (2 + up) as u16));
        (if c.action_counter > 30 { NPC { action_num: 30, ..c } } else { c }, st)
    } else if k == 30 || k == 31 {
        let (b, st0) = if k == 30 {
            let arrow = NPC {
                vel_x: (0x600 * spec_vector_x(n.direction)) as i32,
                vel_y: (n.action_counter2 * -0x600) as i32,
                direction: n.direction,
                ..alive_at(st, 312, n.x as int, n.y as int)
            };
            (
                NPC { action_num: 31, action_counter: 0, anim_num: (3 + n.action_counter2 * 3) as u16, ..n },
                with_spawn(st, 0x100, arrow),
            )
        } else {
            (n, st)
        };
        let c = tick_counter(b);
        if c.action_counter > 30 {
            let (r, m) = roll(c, 0, 100);
            (NPC { action_num: 40, action_counter: r as u16, ..m }, st0)
        } else {
            (c, st0)
        }
    } else if k == 40 {
        let c = tick_counter(NPC { anim_num: 0, ..n });
        let d = if c.action_counter > 150 { NPC { action_num: 10, ..c } } else { c };
        let far = p.x < d.x - 0x2c000 || p.x > d.x + 0x2c000 || p.y < d.y - 0x1e000 || p.y > d.y + 0x1e000;
        (if far { NPC { action_num: 40, action_counter: 0, ..d } } else { d }, st)
    } else {
        (n, st)
    };
    let r = NPC { anim_rect: dir_frame(a, 7), ..a };
    (if r.life <= 992 { NPC { npc_type: 316, action_num: 0, ..r } } else { r }, st1)
}

/// Clearing the tile `(tx, ty)` (none when either is negative); a cleared
/// tile leaves three puffs of smoke (type 4, from slot 0 on) at its corner.
pub open spec fn clear_tile_with_smoke(st: StateView, w: usize, tiles: Seq<u8>, tx: int, ty: int, span: int) -> (StateView, Seq<u8>) {
    let (t, hit) = if tx < 0 || ty < 0 { (tiles, false) } else { spec_change_tile(w, tiles, tx as usize, ty as usize, 0) };
    if hit {
        let puff = alive_at(st, 4, tx * span, ty * span);
        (with_spawn(with_spawn(with_spawn(st, 0, puff), 0, puff), 0, puff), t)
    } else {
        (st, t)
    }
}

/// One tick of a Rolling: on the first tick it clears the tile it sits in
/// (tiles `tile_size` pixels wide) and sets off along the wall, left (10)
/// or right (30); it runs left until it hits a wall, up (20) until it
/// hits the ceiling, right (30) to the next wall and down (40) to the
/// floor, speeding up by an eighth of a pixel a tick to at most 2 pixels;
/// a three-frame animation.
pub open spec fn rolling_step(n: NPC, st: StateView, w: usize, tiles: Seq<u8>, tile_size: i32) -> (NPC, StateView, Seq<u8>) {
    let f = n.flags.0;
    let span = tile_size * 0x200;
    let (a, st1, t1) = if n.action_num == 0 {
        let (s, t) = clear_tile_with_smoke(st, w, tiles, trunc_div(n.x as int, span), trunc_div(n.y as int, span), span);
        (NPC { action_num: if n.direction == Direction::Left { 10 } else { 30 }, ..n }, s, t)
    } else if n.action_num == 10 {
        (NPC { vel_x: (n.vel_x - 0x40) as i32, vel_y: 0, action_num: if f & FLAG_HIT_LEFT_WALL != 0 { 20 } else { 10 }, ..n }, st, tiles)
    } else if n.action_num == 20 {
        (NPC { vel_x: 0, vel_y: (n.vel_y - 0x40) as i32, action_num: if f & FLAG_HIT_TOP_WALL != 0 { 30 } else { 20 }, ..n }, st, tiles)
    } else if n.action_num == 30 {
        (NPC { vel_x: (n.vel_x + 0x40) as i32, vel_y: 0, action_num: if f & FLAG_HIT_RIGHT_WALL != 0 { 40 } else { 30 }, ..n }, st, tiles)
    } else if n.action_num == 40 {
        (NPC { vel_x: 0, vel_y: (n.vel_y + 0x40) as i32, action_num: if f & FLAG_HIT_BOTTOM_WALL != 0 { 10 } else { 40 }, ..n }, st, tiles)
    } else {
        (n, st, tiles)
    };
    let vx = clamp(a.vel_x as int, -0x400, 0x400);
    let vy = clamp(a.vel_y as int, -0x400, 0x400);
    let m = spec_animate(NPC { vel_x: vx as i32, vel_y: vy as i32, x: (a.x + vx) as i32, y: (a.y + vy) as i32, ..a }, 1, 0, 2);
    (NPC { anim_rect: m.anim_num, ..m }, st1, t1)
}

/// The tile a coordinate falls in, rounding towards zero as `/` does.
fn tile_coord(v: i32, span: i32) -> (r: i32)
    requires
        span == 0x1000 || span == 0x2000,
        npc_coord_ok(v),
    ensures
        r == trunc_div(v as int, span as int),
        -0x10000 <= r <= 0x10000,
{
    if v >= 0 {
        v / span
    } else {
        -((-v) / span)
    }
}

/// One tick of a Mesa's block: held beside its Mesa (14 pixels behind her,
/// 10 below) while she lifts it, crumbling to smoke if she died; thrown
/// when she lets go, from 4 pixels above her, at 2 pixels a tick forward
/// and upwards (2); it falls with a cap of 3 pixels a tick and breaks into
/// smoke (sound 12) when it lands; a three-frame animation, one frame a
/// tick.
pub open spec fn mesa_block_step(n: NPC, st: StateView, parent: Option<NPC>) -> (NPC, StateView) {
    let (a, st1) = if n.action_num == 0 {
        match parent {
            Some(q) => {
                let b = NPC {
                    y: (q.y + 0x1400) as i32,
                    x: (q.x + 0xe00 * spec_vector_x(spec_opposite(q.direction))) as i32,
                    ..n
                };
                let (c, s) = if q.npc_type == 318 {
                    (set_alive_spec(b, false), with_smoke(st, DeathSmoke { x: b.x, y: b.y, radius: 0, amount: 3 }))
                } else {
                    (b, st)
                };
                if q.anim_num != 2 {
                    (
                        NPC {
                            action_num: 2,
                            action_counter: 0,
                            vel_y: -0x400i32,
                            y: (q.y - 0x800) as i32,
                            vel_x: (0x400 * spec_vector_x(q.direction)) as i32,
                            ..c
                        },
                        s,
                    )
                } else {
                    (c, s)
                }
            },
            None => (n, st),
        }
    } else if n.action_num == 2 {
        let c = tick_counter(n);
        let d = if c.action_counter == 4 { ignoring_solidity(c, false) } else { c };
        let vy0 = d.vel_y + 0x2a;
        let vy = if vy0 > 0x5ff { 0x5ff } else { vy0 };
        let m = NPC { vel_y: vy as i32, x: (d.x + d.vel_x) as i32, y: (d.y + vy) as i32, ..d };
        if m.flags.0 & FLAG_HIT_BOTTOM_WALL != 0 {
            (set_alive_spec(m, false), with_smoke(with_sound(st, 12), DeathSmoke { x: m.x, y: m.y, radius: 0, amount: 3 }))
        } else {
            (m, st)
        }
    } else {
        (n, st)
    };
    let r = spec_animate(a, 0, 0, 2);
    (NPC { anim_rect: r.anim_num, ..r }, st1)
}

impl NPC {
    /// Numahachi; see `numahachi_step`.
    pub fn tick_n337_numahachi(&mut self)
        requires
            npc_coord_ok(old(self).x),
            npc_coord_ok(old(self).y),
            npc_coord_ok(old(self).vel_x),
            npc_coord_ok(old(self).vel_y),
            old(self).anim_counter < u16::MAX,
            old(self).anim_num < u16::MAX,
        ensures
            *final(self) == numahachi_step(*old(self)),
    {
        if self.action_num == 0 {
            self.action_num = 1;
            self.y -= 0x1000;
        }
        if self.action_num == 1 {
            self.action_num = 2;
            self.anim_num = 0;
            self.vel_x = 0;
        }
        if self.action_num == 2 {
            self.animate(50, 0, 1);
        }
        self.vel_y += 0x40;
        self.clamp_fall_speed();
        self.x += self.vel_x;
        self.y += self.vel_y;
        self.anim_rect = self.anim_num;
    }

    /// A flying Bute; see `bute_step`.
    pub fn tick_n309_bute(&mut self, players: &[Player; 2])
        requires
            npc_coord_ok(old(self).x),
            npc_coord_ok(old(self).y),
            npc_coord_ok(old(self).vel_x2),
            npc_coord_ok(old(self).vel_y2),
            old(self).anim_counter < u16::MAX,
            old(self).anim_num <= u16::MAX - 2,
        ensures
            *final(self) == bute_step(*old(self), *players),
    {
        let p = players[self.get_closest_player_idx(players)];
        if self.action_num == 0 || self.action_num == 1 {
            self.action_num = 1;
            let sees = if self.direction == Direction::Left {
                p.x > self.x - 0x24000 && p.x < self.x - 0x22000
            } else {
                p.x < self.x + 0x24000 && p.x > self.x + 0x22000
            };
            if sees {
                self.action_num = 10;
            }
        } else if self.action_num == 10 || self.action_num == 11 {
            if self.action_num == 10 {
                self.action_num = 11;
                self.npc_flags.set_shootable(true);
                self.damage = 5;
            }
            self.face_player(&p);
            self.vel_x2 += 0x10 * self.direction.vector_x();
            self.vel_y2 += if self.y > p.y { -0x10 } else { 0x10 };
            if self.vel_x2 < 0 && self.flags.hit_left_wall() {
                self.vel_x2 = -self.vel_x2;
            }
            if self.vel_x2 > 0 && self.flags.hit_right_wall() {
                self.vel_x2 = -self.vel_x2;
            }
            if self.vel_y2 < 0 && self.flags.hit_top_wall() {
                self.vel_y2 = -self.vel_y2;
            }
            if self.vel_y2 > 0 && self.flags.hit_bottom_wall() {
                self.vel_y2 = -self.vel_y2;
            }
            self.vel_x2 = clamp_i32(self.vel_x2, -0x5ff, 0x5ff);
            self.vel_y2 = clamp_i32(self.vel_y2, -0x5ff, 0x5ff);
            self.x += self.vel_x2;
            self.y += self.vel_y2;
            self.animate(1, 0, 1);
            self.anim_rect = if self.direction == Direction::Left {
                self.anim_num
            } else {
                self.anim_num + 2
            };
        }
        if self.life <= 996 {
            self.npc_type = 316;
            self.action_num = 0;
        }
    }

    /// A dead Bute; see `bute_dead_step`.
    pub fn tick_n316_bute_dead(&mut self, state: &mut SharedGameState)
        requires
            npc_coord_ok(old(self).x),
            npc_coord_ok(old(self).y),
            npc_coord_ok(old(self).vel_x),
            npc_coord_ok(old(self).vel_y),
            old(self).action_num == 0 ==> old(self).direction != Direction::FacingPlayer,
            old(self).action_num == 2 ==> old(self).action_counter < u16::MAX,
            old(self).anim_counter < u16::MAX,
            old(self).anim_num <= u16::MAX - 3,
        ensures
            (*final(self), final(state)@) == bute_dead_step(*old(self), old(state)@),
    {
        if self.action_num == 0 {
            self.npc_flags.set_shootable(false);
            self.npc_flags.set_ignore_solidity(false);
            self.damage = 0;
            self.action_num = 1;
            self.anim_num = 0;
            self.display_bounds.top = 0x1800;
            self.display_bounds.right = 0x1800;
            self.display_bounds.left = 0x1800;
            self.vel_y = -0x200;
            self.vel_x = 0x100 * self.direction.opposite().vector_x();
            state.play_sfx(50);
        } else if self.action_num == 1 && self.flags.hit_bottom_wall() {
            self.action_num = 2;
            self.action_counter = 0;
            self.anim_num = 1;
            self.anim_counter = 0;
        } else if self.action_num == 2 {
            self.vel_x = scale_i32(self.vel_x, 8, 9);
            self.animate(3, 1, 2);
            self.action_counter += 1;
            if self.action_counter > 50 {
                self.cond.set_explode_die(true);
            }
        }
        self.vel_y += 0x20;
        self.clamp_fall_speed();
        self.x += self.vel_x;
        self.y += self.vel_y;
        self.anim_rect = if self.direction == Direction::Left {
            self.anim_num
        } else {
            self.anim_num + 3
        };
    }

    /// A Bute generator; see `bute_generator_step`.
    pub fn tick_n324_bute_generator(&mut self, state: &mut SharedGameState)
        requires
            old(self).action_num == 11 ==> old(self).action_counter < u16::MAX,
        ensures
            (*final(self), final(state)@) == bute_generator_step(*old(self), old(state)@),
    {
        if self.action_num == 10 {
            self.action_num = 11;
            self.action_counter = 0;
        }
        if self.action_num == 11 {
            self.action_counter += 1;
            if self.action_counter % 50 == 1 {
                let mut npc = state.create_npc(323);
                npc.cond.set_alive(true);
                npc.x = self.x;
                npc.y = self.y;
                npc.direction = self.direction;
                state.spawn_npc(0x100, npc);
            }
            if self.action_counter > 351 {
                self.action_num = 0;
            }
        }
    }

    /// Mesa; see `mesa_step`.
    pub fn tick_n317_mesa(&mut self, state: &mut SharedGameState, players: &[Player; 2])
        requires
            npc_coord_ok(old(self).x),
            npc_coord_ok(old(self).y),
            npc_coord_ok(old(self).vel_x),
            npc_coord_ok(old(self).vel_y),
            old(self).action_num == 2 || old(self).action_num == 11 || old(self).action_num == 12
                ==> old(self).action_counter < u16::MAX,
            old(self).anim_counter < u16::MAX,
            old(self).anim_num <= u16::MAX - 4,
        ensures
            (*final(self), final(state)@) == mesa_step(*old(self), old(state)@, *players),
    {
        let p = players[self.get_closest_player_idx(players)];
        if self.action_num <= 2 {
            if self.action_num == 0 {
                self.action_num = 1;
                self.y -= 0x1000;
                self.target_x = self.x;
            }
            if self.action_num == 1 {
                self.action_num = 2;
                self.vel_x = 0;
                self.anim_num = 0;
                self.action_counter = 0;
            }
            self.face_player(&p);
            self.animate(40, 0, 1);
            if p.x > self.x - 0x28000 && p.x < self.x + 0x28000 && p.y > self.y - 0x14000 && p.y < self.y
                + 0x14000 {
                self.action_counter += 1;
                if self.action_counter > 50 {
                    self.action_num = 10;
                }
            }
        } else if self.action_num == 10 || self.action_num == 11 {
            if self.action_num == 10 {
                self.action_num = 11;
                self.action_counter = 0;
                self.anim_num = 2;
                let mut npc = state.create_npc(319);
                npc.cond.set_alive(true);
                npc.x = self.x;
                npc.y = self.y;
                npc.parent_id = self.id;
                state.spawn_npc(0x100, npc);
            }
            self.action_counter += 1;
            if self.action_counter > 50 {
                self.action_counter = 0;
                self.action_num = 12;
                self.anim_num = 3;
                state.play_sfx(39);
            }
        } else if self.action_num == 12 {
            self.action_counter += 1;
            if self.action_counter > 20 {
                self.action_num = 1;
            }
        }
        self.vel_y += 0x55;
        self.clamp_fall_speed();
        self.x += self.vel_x;
        self.y += self.vel_y;
        self.anim_rect = if self.direction == Direction::Left {
            self.anim_num
        } else {
            self.anim_num + 4
        };
        if self.life <= 936 {
            self.npc_type = 318;
            self.action_num = 0;
        }
    }

    /// A dead Mesa; see `mesa_dead_step`.
    pub fn tick_n318_mesa_dead(&mut self, state: &mut SharedGameState)
        requires
            npc_coord_ok(old(self).x),
            npc_coord_ok(old(self).y),
            npc_coord_ok(old(self).vel_x),
            npc_coord_ok(old(self).vel_y),
            old(self).action_num == 0 ==> old(self).direction != Direction::FacingPlayer,
            old(self).action_num == 2 ==> old(self).action_counter < u16::MAX,
            old(self).anim_counter < u16::MAX,
            old(self).anim_num <= u16::MAX - 3,
        ensures
            (*final(self), final(state)@) == mesa_dead_step(*old(self), old(state)@),
    {
        if self.action_num == 0 {
            self.npc_flags.set_shootable(false);
            self.npc_flags.set_ignore_solidity(false);
            self.npc_flags.set_solid_soft(false);
            self.damage = 0;
            self.action_num = 1;
            self.anim_num = 0;
            self.vel_y = -0x200;
            self.vel_x = 0x40 * self.direction.opposite().vector_x();
            state.play_sfx(54);
        } else if self.action_num == 1 && self.flags.hit_bottom_wall() {
            self.action_num = 2;
            self.action_counter = 0;
            self.anim_num = 1;
            self.anim_counter = 0;
        } else if self.action_num == 2 {
            self.vel_x = scale_i32(self.vel_x, 8, 9);
            self.animate(3, 1, 2);
            self.action_counter += 1;
            if self.action_counter > 50 {
                self.cond.set_explode_die(true);
            }
        }
        self.vel_y += 0x20;
        self.clamp_fall_speed();
        self.x += self.vel_x;
        self.y += self.vel_y;
        self.anim_rect = if self.direction == Direction::Left {
            self.anim_num
        } else {
            self.anim_num + 3
        };
    }

    /// A sword Bute; see `bute_sword_step`.
    pub fn tick_n310_bute_sword(&mut self, state: &mut SharedGameState, players: &[Player; 2])
        requires
            npc_coord_ok(old(self).x),
            npc_coord_ok(old(self).y),
            npc_coord_ok(old(self).vel_x),
            npc_coord_ok(old(self).vel_y),
            old(self).action_num == 11 || old(self).action_num == 21 || old(self).action_num == 32
                ==> old(self).action_counter < u16::MAX,
            old(self).anim_counter < u16::MAX,
            old(self).anim_num <= u16::MAX - 5,
            npc_coord_ok(players[0].x),
            npc_coord_ok(players[1].x),
        ensures
            (*final(self), final(state)@) == bute_sword_step(*old(self), old(state)@, *players),
    {
        let p = players[self.get_closest_player_idx(players)];
        if self.action_num == 0 || self.action_num == 1 {
            if self.action_num == 0 {
                self.action_num = 1;
                self.damage = 0;
                self.npc_flags.set_shootable(false);
                self.npc_flags.set_invulnerable(true);
            }
            self.face_player(&p);
            self.anim_counter = 0;
            if p.x > self.x - 0x10000 && p.x < self.x + 0x10000 && p.y > self.y - 0x10000 && p.y < self.y
                + 0x2000 {
                self.action_num = 10;
            }
        } else if self.action_num == 10 || self.action_num == 11 {
            if self.action_num == 10 {
                self.action_num = 11;
                self.vel_x = 0;
                self.action_counter = 0;
                self.damage = 0;
                self.anim_counter = 0;
                self.npc_flags.set_shootable(false);
                self.npc_flags.set_invulnerable(true);
            }
            self.action_counter += 1;
            if self.action_counter > 30 {
                self.action_num = 20;
            }
        } else if self.action_num == 20 || self.action_num == 21 {
            if self.action_num == 20 {
                self.action_num = 21;
                self.action_counter = 0;
                self.damage = 0;
                self.npc_flags.set_shootable(true);
                self.npc_flags.set_invulnerable(false);
                self.face_player(&p);
            }
            self.vel_x = 0x400 * self.direction.vector_x();
            self.animate(3, 0, 1);
            self.action_counter += 1;
            if self.action_counter > 50 {
                self.action_num = 10;
            }
            if self.x < p.x + 0x5000 && self.x > p.x - 0x5000 {
                self.vel_y = -0x300;
                self.vel_x = self.vel_x / 2;
                self.anim_num = 2;
                self.action_num = 30;
                state.play_sfx(30);
            }
        } else if self.action_num == 30 {
            if self.vel_y > -0x80 {
                self.action_num = 31;
                self.anim_counter = 0;
                self.anim_num = 3;
                self.damage = 9;
            }
        } else if self.action_num == 31 {
            self.anim_counter += 1;
            if self.anim_counter > 2 {
                self.anim_counter = 0;
                self.anim_num = 4;
            }
            if self.flags.hit_bottom_wall() {
                self.action_num = 32;
                self.action_counter = 0;
                self.vel_x = 0;
                self.damage = 3;
            }
        } else if self.action_num == 32 {
            self.action_counter += 1;
            if self.action_counter > 30 {
                self.action_num = 10;
                self.damage = 0;
            }
        }
        self.vel_y += 0x20;
        self.x += self.vel_x;
        self.y += self.vel_y;
        self.anim_rect = if self.direction == Direction::Left {
            self.anim_num
        } else {
            self.anim_num + 5
        };
        if self.life <= 996 {
            self.npc_type = 316;
            self.action_num = 0;
        }
    }

    /// An archer Bute; see `bute_archer_step`.
    pub fn tick_n311_bute_archer(&mut self, state: &mut SharedGameState, players: &[Player; 2])
        requires
            npc_coord_ok(old(self).x),
            npc_coord_ok(old(self).y),
            old(self).action_num == 10 || old(self).action_num == 11 || old(self).action_num == 21
                || old(self).action_num == 31 || old(self).action_num == 40 ==> old(self).action_counter < u16::MAX,
            old(self).action_num == 20 || old(self).action_num == 21 || old(self).action_num == 30
                ==> old(self).action_counter2 <= 21000,
            old(self).action_num == 20 || old(self).action_num == 21 ==> old(self).anim_counter < u16::MAX
                && old(self).anim_num < u16::MAX,
            old(self).anim_num <= u16::MAX - 7,
        ensures
            (*final(self), final(state)@) == bute_archer_step(*old(self), old(state)@, *players),
    {
        let p = players[self.get_closest_player_idx(players)];
        if self.action_num == 0 || self.action_num == 1 {
            self.action_num = 1;
            let ahead = if self.direction == Direction::Left {
                p.x > self.x - 0x28000 && p.x < self.x
            } else {
                p.x > self.x && p.x < self.x + 0x28000
            };
            if p.y > self.y - 0x14000 && p.y < self.y + 0x14000 && ahead {
                self.action_num = 10;
            }
        } else if self.action_num == 10 || self.action_num == 11 {
            self.action_num = 11;
            self.face_player(&p);
            if p.x > self.x - 0x1c000 && p.x < self.x + 0x1c000 && p.y > self.y - 0x1000 {
                self.anim_num = 1;
                self.action_counter2 = 0;
            } else {
                self.anim_num = 4;
                self.action_counter2 = 1;
            }
            self.action_counter += 1;
            if self.action_counter > 10 {
                self.action_num = 20;
            }
        } else if self.action_num == 20 || self.action_num == 21 {
            if self.action_num == 20 {
                self.action_num = 21;
                self.action_counter = 0;
            }
            let up = self.action_counter2 * 3;
            self.animate(1, 1 + up, 2 + up);
            self.action_counter += 1;
            if self.action_counter > 30 {
                self.action_num = 30;
            }
        } else if self.action_num == 30 || self.action_num == 31 {
            if self.action_num == 30 {
                self.action_num = 31;
                self.action_counter = 0;
                let mut npc = state.create_npc(312);
                npc.cond.set_alive(true);
                npc.x = self.x;
                npc.y = self.y;
                npc.vel_x = 0x600 * self.direction.vector_x();
                npc.vel_y = self.action_counter2 as i32 * -0x600;
                npc.direction = self.direction;
                state.spawn_npc(0x100, npc);
                self.anim_num = 3 + self.action_counter2 * 3;
            }
            self.action_counter += 1;
            if self.action_counter > 30 {
                self.action_num = 40;
                self.action_counter = self.rng.range(0..100) as u16;
            }
        } else if self.action_num == 40 {
            self.anim_num = 0;
            self.action_counter += 1;
            if self.action_counter > 150 {
                self.action_num = 10;
            }
            if p.x < self.x - 0x2c000 || p.x > self.x + 0x2c000 || p.y < self.y - 0x1e000 || p.y > self.y
                + 0x1e000 {
                self.action_num = 40;
                self.action_counter = 0;
            }
        }
        self.anim_rect = if self.direction == Direction::Left {
            self.anim_num
        } else {
            self.anim_num + 7
        };
        if self.life <= 992 {
            self.npc_type = 316;
            self.action_num = 0;
        }
    }

    fn clear_tile_with_smoke_exec(state: &mut SharedGameState, stage: &mut Stage, tx: i32, ty: i32, span: i32)
        requires
            old(stage).width <= 0xffff,
            span == 0x1000 || span == 0x2000,
            -0x10000 <= tx <= 0x10000,
            -0x10000 <= ty <= 0x10000,
        ensures
            final(stage).width == old(stage).width,
            final(stage).height == old(stage).height,
            (final(state)@, final(stage).tiles@) == clear_tile_with_smoke(
                old(state)@,
                old(stage).width,
                old(stage).tiles@,
                tx as int,
                ty as int,
                span as int,
            ),
    {
        if tx >= 0 && ty >= 0 && stage.change_tile(tx as usize, ty as usize, 0) {
            let mut npc = state.create_npc(4);
            npc.cond.set_alive(true);
            npc.x = tx * span;
            npc.y = ty * span;
            state.spawn_npc(0, npc);
            state.spawn_npc(0, npc);
            state.spawn_npc(0, npc);
        }
    }

    /// A Rolling; see `rolling_step`.
    pub fn tick_n330_rolling(&mut self, state: &mut SharedGameState, stage: &mut Stage, tile_size: i32)
        requires
            npc_coord_ok(old(self).x),
            npc_coord_ok(old(self).y),
            npc_coord_ok(old(self).vel_x),
            npc_coord_ok(old(self).vel_y),
            old(self).anim_counter < u16::MAX,
            old(self).anim_num < u16::MAX,
            old(stage).width <= 0xffff,
            tile_size == 8 || tile_size == 16,
        ensures
            final(stage).width == old(stage).width,
            final(stage).height == old(stage).height,
            (*final(self), final(state)@, final(stage).tiles@) == rolling_step(
                *old(self),
                old(state)@,
                old(stage).width,
                old(stage).tiles@,
                tile_size,
            ),
    {
        let span = tile_size * 0x200;
        if self.action_num == 0 {
            let tx = tile_coord(self.x, span);
            let ty = tile_coord(self.y, span);
            NPC::clear_tile_with_smoke_exec(state, stage, tx, ty, span);
            self.action_num = if self.direction == Direction::Left {
                10
            } else {
                30
            };
        } else if self.action_num == 10 {
            self.vel_x -= 0x40;
            self.vel_y = 0;
            if self.flags.hit_left_wall() {
                self.action_num = 20;
            }
        } else if self.action_num == 20 {
            self.vel_x = 0;
            self.vel_y -= 0x40;
            if self.flags.hit_top_wall() {
                self.action_num = 30;
            }
        } else if self.action_num == 30 {
            self.vel_x += 0x40;
            self.vel_y = 0;
            if self.flags.hit_right_wall() {
                self.action_num = 40;
            }
        } else if self.action_num == 40 {
            self.vel_x = 0;
            self.vel_y += 0x40;
            if self.flags.hit_bottom_wall() {
                self.action_num = 10;
            }
        }
        self.vel_x = clamp_i32(self.vel_x, -0x400, 0x400);
        self.vel_y = clamp_i32(self.vel_y, -0x400, 0x400);
        self.x += self.vel_x;
        self.y += self.vel_y;
        self.animate(1, 0, 2);
        self.anim_rect = self.anim_num;
    }

    /// A Mesa's block; see `mesa_block_step`.
    pub fn tick_n319_mesa_block(&mut self, state: &mut SharedGameState, npc_list: &NPCList)
        requires
            npc_list.wf(),
            npc_coord_ok(old(self).x),
            npc_coord_ok(old(self).y),
            npc_coord_ok(old(self).vel_x),
            npc_coord_ok(old(self).vel_y),
            old(self).action_num == 2 ==> old(self).action_counter < u16::MAX,
            old(self).anim_counter < u16::MAX,
            old(self).anim_num < u16::MAX,
            old(self).action_num == 0 ==> match parent_of(*old(self), npc_list.npcs()) {
                Some(q) => npc_coord_ok(q.x) && npc_coord_ok(q.y) && q.direction != Direction::FacingPlayer,
                None => true,
            },
        ensures
            (*final(self), final(state)@) == mesa_block_step(
                *old(self),
                old(state)@,
                parent_of(*old(self), npc_list.npcs()),
            ),
    {
        if self.action_num == 0 {
            if self.parent_id != 0 && self.parent_id != self.id {
                if let Some(cell) = npc_list.get_npc(self.parent_id as usize) {
                    let parent = *cell.borrow_unmanaged();
                    self.y = parent.y + 0x1400;
                    self.x = parent.x + 0xe00 * parent.direction.opposite().vector_x();
                    if parent.npc_type == 318 {
                        state.create_death_smoke(self.x, self.y, 0, 3);
                        self.cond.set_alive(false);
                    }
                    if parent.anim_num != 2 {
                        self.action_num = 2;
                        self.action_counter = 0;
                        self.vel_y = -0x400;
                        self.y = parent.y - 0x800;
                        self.vel_x = 0x400 * parent.direction.vector_x();
                    }
                }
            }
        } else if self.action_num == 2 {
            self.action_counter += 1;
            if self.action_counter == 4 {
                self.npc_flags.set_ignore_solidity(false);
            }
            self.vel_y += 0x2a;
            self.clamp_fall_speed();
            self.x += self.vel_x;
            self.y += self.vel_y;
            if self.flags.hit_bottom_wall() {
                state.play_sfx(12);
                state.create_death_smoke(self.x, self.y, 0, 3);
                self.cond.set_alive(false);
            }
        }
        self.animate(0, 0, 2);
        self.anim_rect = self.anim_num;
    }
}

} // verus!
