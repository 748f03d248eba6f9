//! The Sand Zone: Polish, the wall-crawler that bursts into babies, the
//! Colons, Jenka and her puppies, the Sun Stone, the tan beetle, the
//! armadillo and the sandcroc.

use vstd::prelude::*;

use crate::common::{spec_opposite, spec_vector_x, Direction};
use crate::game_state::{bullet_count, with_caret, with_smoke, with_sound, with_spawn, BulletCounts, Caret, CaretType, DeathSmoke, SharedGameState, StateView};
use crate::npc::ai::egg_corridor::beetle_fly;
use crate::npc::ai::last_cave::face_player;
use crate::npc::ai::mimiga_village::ignoring_solidity;
use crate::npc::ai::misery::{clamp, clamp_i32, shootable, tick_counter};
use crate::npc::ai::{dir_frame, npc_coord_ok, scale_i32, trunc_div};
use crate::npc::core_boss::fresh;
use crate::rng::{xoro_step, Xoroshiro32PlusPlus};
use crate::npc::{
    closest_player, roll, spec_animate, with_bits16, Condition, NPCFlag, Player, NPC_IGNORE_SOLIDITY, NPC_INTERACTABLE, NPC_INVULNERABLE, NPC_SHOOTABLE, NPC_SOLID_SOFT, COND_ALIVE, FLAG_HIT_BOTTOM_WALL, FLAG_HIT_LEFT_WALL, FLAG_HIT_RIGHT_WALL,
    FLAG_HIT_TOP_WALL, NPC,
};

verus! {

/// One crawling step along a wall: speeding up by 0.0625 pixels along one
/// axis (`on_x`, in direction `sign`); moving into the wall `bounce` it
/// bounces off it at half a pixel and is kicked by `kick` along the other
/// axis; touching the wall `turn` it rounds the corner into state `next`.
pub open spec fn crawl(n: NPC, on_x: bool, sign: int, bounce: u32, kick: int, turn: u32, next: u16) -> NPC {
    let v = (if on_x { n.vel_x as int } else { n.vel_y as int }) + sign * 0x20;
    let moving = if sign > 0 { v > 0 } else { v < 0 };
    let hit = n.flags.0 & bounce != 0;
    let m = if on_x {
        if moving && hit {
            NPC { vel_x: (-sign * 0x100) as i32, vel_y: (n.vel_y + kick) as i32, ..n }
        } else {
            NPC { vel_x: v as i32, ..n }
        }
    } else {
        if moving && hit {
            NPC { vel_x: (n.vel_x + kick) as i32, vel_y: (-sign * 0x100) as i32, ..n }
        } else {
            NPC { vel_y: v as i32, ..n }
        }
    };
    if m.flags.0 & turn != 0 { NPC { action_num: next, ..m } } else { m }
}

/// `k` copies of `npc` asked to be spawned from slot `min_id` on.
pub open spec fn spawn_copies(st: StateView, min_id: u16, npc: NPC, k: nat) -> StateView
    decreases k,
{
    if k == 0 {
        st
    } else {
        with_spawn(spawn_copies(st, min_id, npc, (k - 1) as nat), min_id, npc)
    }
}

/// Polish's crawl: clockwise round the walls from state 2 (along the
/// floor, 2 to 5) or anticlockwise from state 8 (6 to 9); it starts on the
/// clockwise step, turning to state 2 when it faces right and 8 otherwise.
pub open spec fn polish_crawl(n: NPC) -> NPC {
    let k = n.action_num;
    if k <= 2 {
        let b = if k <= 1 { NPC { anim_num: 0, action_num: if n.direction == Direction::Right { 2 } else { 8 }, ..n } } else { n };
        crawl(b, false, 1, FLAG_HIT_BOTTOM_WALL, 0x100, FLAG_HIT_RIGHT_WALL, 3)
    } else if k == 3 {
        crawl(n, true, 1, FLAG_HIT_RIGHT_WALL, -0x100, FLAG_HIT_TOP_WALL, 4)
    } else if k == 4 {
        crawl(n, false, -1, FLAG_HIT_TOP_WALL, -0x100, FLAG_HIT_LEFT_WALL, 5)
    } else if k == 5 {
        crawl(n, true, -1, FLAG_HIT_LEFT_WALL, 0x100, FLAG_HIT_BOTTOM_WALL, 2)
    } else if k == 6 {
        crawl(n, false, 1, FLAG_HIT_BOTTOM_WALL, -0x100, FLAG_HIT_LEFT_WALL, 7)
    } else if k == 7 {
        crawl(n, true, -1, FLAG_HIT_LEFT_WALL, -0x100, FLAG_HIT_TOP_WALL, 8)
    } else if k == 8 {
        crawl(n, false, -1, FLAG_HIT_TOP_WALL, 0x100, FLAG_HIT_RIGHT_WALL, 9)
    } else if k == 9 {
        crawl(n, true, 1, FLAG_HIT_RIGHT_WALL, 0x100, FLAG_HIT_BOTTOM_WALL, 6)
    } else {
        n
    }
}

/// Worn down to 100 life, Polish bursts, in smoke and with a sound, into
/// nine babies (type 45).
pub open spec fn polish_burst(a: NPC, st: StateView) -> (NPC, StateView) {
    if a.life <= 100 {
        let s0 = with_sound(with_smoke(st, DeathSmoke { x: a.x, y: a.y, radius: a.display_bounds.right as usize, amount: 8 }), 25);
        (
            NPC { cond: Condition(with_bits16(a.cond.0, COND_ALIVE, false)), ..a },
            spawn_copies(s0, 0x100, fresh(st, 45, a.x as int, a.y as int), 9),
        )
    } else {
        (a, st)
    }
}

/// One tick of Polish: its crawl; the burst; speed capped at one
/// pixel each way, halved while it is hurt; movement; the crawling frames
/// 1 and 2 in turn; the frame (right-facing frames start 3 in).
pub open spec fn polish_step(n: NPC, st: StateView) -> (NPC, StateView) {
    let (b, s) = polish_burst(polish_crawl(n), st);
    let vx = clamp(b.vel_x as int, -0x200, 0x200);
    let vy = clamp(b.vel_y as int, -0x200, 0x200);
    let (dx, dy) = if b.shock > 0 { (trunc_div(vx, 2), trunc_div(vy, 2)) } else { (vx, vy) };
    let m = NPC { vel_x: vx as i32, vel_y: vy as i32, x: (b.x + dx) as i32, y: (b.y + dy) as i32, ..b };
    let f = if m.action_num > 1 && m.action_num <= 9 {
        NPC { anim_num: if m.anim_num + 1 > 2 { 1 } else { (m.anim_num + 1) as u16 }, ..m }
    } else {
        m
    };
    (NPC { anim_rect: dir_frame(f, 3), ..f }, s)
}

/// Inputs a tick of Polish computes in range on.
pub open spec fn polish_tickable(n: NPC) -> bool {
    &&& npc_coord_ok(n.x)
    &&& npc_coord_ok(n.y)
    &&& npc_coord_ok(n.vel_x)
    &&& npc_coord_ok(n.vel_y)
    &&& n.anim_num <= u16::MAX - 3
}

/// One tick of the tan beetle: flying from wall to wall like the green
/// beetle (1, 3), but resting at a wall until a player is level with it
/// (within 8 pixels up or down) and within 256 pixels ahead of it (2, 4);
/// it first flies leftwards when it faces left and rightwards otherwise; the
/// frame (right-facing frames start 3 in).
pub open spec fn tan_beetle_step(n: NPC, players: [Player; 2]) -> NPC {
    let k = n.action_num;
    let p = players[closest_player(n.x, n.y, players) as int];
    let level = -0x1000 < n.y - p.y < 0x1000;
    let a = if k == 0 {
        NPC { action_num: if n.direction == Direction::Left { 1 } else { 3 }, ..n }
    } else if k == 1 {
        beetle_fly(n, -1, FLAG_HIT_LEFT_WALL, 2, Direction::Right)
    } else if k == 2 {
        if n.x < p.x && n.x > p.x - 0x20000 && level { NPC { action_num: 3, anim_num: 1, anim_counter: 0, ..n } } else { n }
    } else if k == 3 {
        beetle_fly(n, 1, FLAG_HIT_RIGHT_WALL, 4, Direction::Left)
    } else if k == 4 {
        if n.x > p.x && n.x < p.x + 0x20000 && level { NPC { action_num: 1, anim_num: 1, anim_counter: 0, ..n } } else { n }
    } else {
        n
    };
    NPC { anim_rect: dir_frame(a, 3), ..a }
}

/// Inputs a tick of the tan beetle computes in range on.
pub open spec fn tan_beetle_tickable(n: NPC, players: [Player; 2]) -> bool {
    let k = n.action_num;
    &&& npc_coord_ok(n.x)
    &&& npc_coord_ok(n.y)
    &&& npc_coord_ok(n.vel_x)
    &&& npc_coord_ok(players[0].x)
    &&& npc_coord_ok(players[0].y)
    &&& npc_coord_ok(players[1].x)
    &&& npc_coord_ok(players[1].y)
    &&& (k == 1 || k == 3) ==> n.anim_counter < u16::MAX
    &&& n.anim_num <= u16::MAX - 3
}

/// The armadillo's shell: closed (frame 2), shots glance off it.
pub open spec fn armour(n: NPC, closed: bool) -> NPC {
    NPC { npc_flags: NPCFlag(with_bits16(with_bits16(n.npc_flags.0, NPC_SHOOTABLE, !closed), NPC_INVULNERABLE, closed)), ..n }
}

/// One tick of the armadillo: curled up until a player comes within 320
/// pixels across, 160 above or 64 below (0, 1); walking half a pixel a
/// tick, turning at walls, until a Polar Star shot (bullet type 6) is in
/// the air, when it curls up for 100 ticks (10, 20); gravity, fall speed
/// capped at 3 pixels, and the frame (right-facing frames start 3 in).
pub open spec fn armadillo_step(n: NPC, players: [Player; 2], bullets: Seq<usize>) -> NPC {
    let k = n.action_num;
    let a = if k == 0 || k == 1 {
        let b = if k == 0 { armour(NPC { action_num: 1, anim_num: 2, ..n }, true) } else { n };
        let p = players[closest_player(b.x, b.y, players) as int];
        if p.x > b.x - 0x28000 && p.x < b.x + 0x28000 && p.y > b.y - 0x14000 && p.y < b.y + 0x8000 {
            armour(NPC { action_num: 10, ..b }, false)
        } else {
            b
        }
    } else if k == 10 {
        let c0 = (n.anim_counter + 1) as u16;
        let b = if c0 > 4 { NPC { anim_counter: 0, anim_num: (n.anim_num + 1) as u16, ..n } } else { NPC { anim_counter: c0, ..n } };
        let b2 = if b.anim_num > 1 { NPC { anim_num: 0, ..b } } else { b };
        let d1 = if b2.direction == Direction::Left && b2.flags.0 & FLAG_HIT_LEFT_WALL != 0 { NPC { direction: Direction::Right, ..b2 } } else { b2 };
        let d2 = if d1.direction == Direction::Right && d1.flags.0 & FLAG_HIT_RIGHT_WALL != 0 { NPC { direction: Direction::Left, ..d1 } } else { d1 };
        let m = NPC { x: (d2.x + spec_vector_x(d2.direction) * 0x100) as i32, ..d2 };
        if bullet_count(bullets, 6) != 0 { armour(NPC { action_num: 20, action_counter: 0, anim_num: 2, ..m }, true) } else { m }
    } else if k == 20 {
        let c = tick_counter(n);
        if c.action_counter > 100 { armour(NPC { action_num: 10, anim_num: 0, anim_counter: 0, ..c }, false) } else { c }
    } else {
        n
    };
    let vy0 = a.vel_y + 0x40;
    let vy = if vy0 > 0x5ff { 0x5ff } else { vy0 };
    let m = NPC { vel_y: vy as i32, y: (a.y + vy) as i32, ..a };
    NPC { anim_rect: dir_frame(m, 3), ..m }
}

/// Inputs a tick of the armadillo computes in range on.
pub open spec fn armadillo_tickable(n: NPC, players: [Player; 2]) -> bool {
    let k = n.action_num;
    &&& npc_coord_ok(n.x)
    &&& npc_coord_ok(n.y)
    &&& npc_coord_ok(n.vel_y)
    &&& npc_coord_ok(players[0].x)
    &&& npc_coord_ok(players[0].y)
    &&& npc_coord_ok(players[1].x)
    &&& npc_coord_ok(players[1].y)
    &&& k == 10 ==> n.anim_counter < u16::MAX
    &&& k == 20 ==> n.action_counter < u16::MAX
    &&& n.anim_num <= u16::MAX - 3
}

/// Standing and blinking: now and then (a roll of 10 in 0 to 120) the eyes
/// shut (frame 1, state 2) for 9 ticks.
pub open spec fn idle_blink(n: NPC) -> NPC {
    let k = n.action_num;
    if k == 0 || k == 1 {
        let b = if k == 0 { NPC { action_num: 1, anim_num: 0, anim_counter: 0, ..n } } else { n };
        let (r, m) = roll(b, 0i32, 120i32);
        if r == 10 { NPC { action_num: 2, action_counter: 0, anim_num: 1, ..m } } else { m }
    } else if k == 2 {
        let c = tick_counter(n);
        if c.action_counter > 8 { NPC { action_num: 1, anim_num: 0, ..c } } else { c }
    } else {
        n
    }
}

/// Snoring: a Zzz every 101 ticks.
pub open spec fn snore(n: NPC, st: StateView) -> (NPC, StateView) {
    let c = tick_counter(n);
    if c.action_counter > 100 {
        (NPC { action_counter: 0, ..c }, with_caret(st, Caret { x: c.x, y: c.y, ctype: CaretType::Zzz, direction: Direction::Left }))
    } else {
        (c, st)
    }
}

/// One tick of the second Colon: asleep (frame 2) unless facing left;
/// facing left, standing and blinking (frames 0 and 1).
pub open spec fn colon_b_step(n: NPC, st: StateView) -> (NPC, StateView) {
    if n.direction != Direction::Left {
        let (a, s) = snore(n, st);
        (NPC { anim_rect: 2, ..a }, s)
    } else {
        let a = idle_blink(n);
        (NPC { anim_rect: a.anim_num, ..a }, st)
    }
}

/// One tick of the Sun Stone: set in its place (0, 1); sliding a quarter
/// pixel a tick the way it faces, through walls, shaking the room, rumbling
/// every 8 ticks (10, 11); the frame.
pub open spec fn sunstone_step(n: NPC, st: StateView) -> (NPC, StateView) {
    let k = n.action_num;
    let (a, s) = if k == 0 || k == 1 {
        let b = if k == 0 { NPC { action_num: 1, x: (n.x + 0x1000) as i32, y: (n.y + 0x1000) as i32, ..n } } else { n };
        (NPC { anim_num: 0, ..ignoring_solidity(b, false) }, st)
    } else if k == 10 || k == 11 {
        let b = if k == 10 { NPC { action_num: 11, action_counter: 0, anim_num: 1, ..ignoring_solidity(n, true) } } else { n };
        let m = match b.direction {
            Direction::Left => NPC { x: (b.x - 0x80) as i32, ..b },
            Direction::Up => NPC { y: (b.y - 0x80) as i32, ..b },
            Direction::Right => NPC { x: (b.x + 0x80) as i32, ..b },
            Direction::Bottom => NPC { y: (b.y + 0x80) as i32, ..b },
            Direction::FacingPlayer => b,
        };
        let c = tick_counter(m);
        let s0 = StateView { quake_counter: 20, quake_rumble_counter: 20, ..st };
        (c, if c.action_counter % 8 == 0 { with_sound(s0, 26) } else { s0 })
    } else {
        (n, st)
    };
    (NPC { anim_rect: a.anim_num, ..a }, s)
}

/// Whether a player is within `w` pixels across, 32 above or 16 below the
/// entity.
pub open spec fn puppy_near(n: NPC, p: Player, w: int) -> bool {
    n.x - w < p.x && n.x + w > p.x && n.y - 0x4000 < p.y && n.y + 0x2000 > p.y
}

/// One tick of the sitting puppy: sitting and blinking, talkative; wagging
/// its tail (frames 2 and 3) while a player is within 64 pixels, and
/// turning to them within 96 pixels; gravity, fall speed capped at 3
/// pixels, movement and the frame (right-facing frames start 4 in).
pub open spec fn puppy_sitting_step(n: NPC, players: [Player; 2]) -> NPC {
    let k = n.action_num;
    let a = if k == 0 || k == 1 {
        let b = if k == 0 {
            NPC { action_num: 1, anim_num: 0, anim_counter: 0, npc_flags: NPCFlag(with_bits16(n.npc_flags.0, NPC_INTERACTABLE, true)), ..n }
        } else {
            n
        };
        let (r, m) = roll(b, 0i32, 120i32);
        let c = if r == 10 { NPC { action_num: 2, action_counter: 0, anim_num: 1, ..m } } else { m };
        let p = players[closest_player(c.x, c.y, players) as int];
        let d = if puppy_near(c, p, 0x8000) {
            let c0 = (c.anim_counter + 1) as u16;
            let e = if c0 > 3 { NPC { anim_counter: 0, anim_num: (c.anim_num + 1) as u16, ..c } } else { NPC { anim_counter: c0, ..c } };
            if e.anim_num > 3 { NPC { anim_num: 2, ..e } } else { e }
        } else {
            c
        };
        if puppy_near(d, p, 0xc000) { NPC { direction: if d.x <= p.x { Direction::Right } else { Direction::Left }, ..d } } else { d }
    } else if k == 2 {
        let c = tick_counter(n);
        if c.action_counter > 8 { NPC { action_num: 1, anim_num: 0, ..c } } else { c }
    } else {
        n
    };
    let vy0 = a.vel_y + 0x40;
    let vy = if vy0 > 0x5ff { 0x5ff } else { vy0 };
    let m = NPC { vel_y: vy as i32, x: (a.x + a.vel_x) as i32, y: (a.y + vy) as i32, ..a };
    NPC { anim_rect: dir_frame(m, 4), ..m }
}

/// One tick of the running puppy: standing and blinking, turning to a
/// player within 96 pixels, and running off the other way from one within
/// 32 (0 to 2); running, bouncing back off walls at half speed, its frames
/// 4 and 5 on the ground and 5 in the air (10, 11); it can be spoken to
/// only while a player holds the talk button (`talk_pressed`); gravity,
/// fall speed capped at 3 pixels, movement and the frame (right-facing
/// frames start 6 in).
pub open spec fn puppy_running_step(n: NPC, players: [Player; 2], talk_pressed: bool) -> NPC {
    let k = n.action_num;
    let a = if k == 0 || k == 1 || k == 2 {
        let c = idle_blink(n);
        if k == 2 {
            c
        } else {
            let p = players[closest_player(c.x, c.y, players) as int];
            let level = c.y - 0x4000 < p.y && c.y + 0x2000 > p.y;
            let d = if -0xc000 < c.x - p.x < 0xc000 && level {
                NPC { direction: if c.x > p.x { Direction::Left } else { Direction::Right }, ..c }
            } else {
                c
            };
            if -0x4000 < d.x - p.x < 0x4000 && level {
                NPC { action_num: 10, direction: if d.x > p.x { Direction::Right } else { Direction::Left }, ..d }
            } else {
                d
            }
        }
    } else if k == 10 || k == 11 {
        let b = if k == 10 { NPC { action_num: 11, anim_num: 4, anim_counter: 0, ..n } } else { n };
        let c = if b.flags.0 & FLAG_HIT_BOTTOM_WALL != 0 { spec_animate(b, 2, 4, 5) } else { NPC { anim_num: 5, anim_counter: 0, ..b } };
        let d = if c.vel_x < 0 && c.flags.0 & FLAG_HIT_LEFT_WALL != 0 {
            NPC { vel_x: (-trunc_div(1 * c.vel_x, 2)) as i32, direction: Direction::Right, ..c }
        } else {
            c
        };
        let e = if d.vel_x > 0 && d.flags.0 & FLAG_HIT_RIGHT_WALL != 0 {
            NPC { vel_x: (-trunc_div(1 * d.vel_x, 2)) as i32, direction: Direction::Left, ..d }
        } else {
            d
        };
        let f = e.vel_x + spec_vector_x(e.direction) * 0x40;
        let g = if f > 0x5ff { 0x400 } else if f < -0x5ff { -0x400 } else { f };
        NPC { vel_x: g as i32, ..e }
    } else {
        n
    };
    let t = NPC { npc_flags: NPCFlag(with_bits16(a.npc_flags.0, NPC_INTERACTABLE, talk_pressed)), ..a };
    let vy0 = t.vel_y + 0x40;
    let vy = if vy0 > 0x5ff { 0x5ff } else { vy0 };
    let m = NPC { vel_y: vy as i32, x: (t.x + t.vel_x) as i32, y: (t.y + vy) as i32, ..t };
    NPC { anim_rect: dir_frame(m, 6), ..m }
}

/// Inputs a tick of a puppy computes in range on.
pub open spec fn puppy_tickable(n: NPC, players: [Player; 2]) -> bool {
    let k = n.action_num;
    &&& npc_coord_ok(n.x)
    &&& npc_coord_ok(n.y)
    &&& npc_coord_ok(n.vel_x)
    &&& npc_coord_ok(n.vel_y)
    &&& npc_coord_ok(players[0].x)
    &&& npc_coord_ok(players[0].y)
    &&& npc_coord_ok(players[1].x)
    &&& npc_coord_ok(players[1].y)
    &&& k == 2 ==> n.action_counter < u16::MAX
    &&& (k == 1 || k == 11) ==> n.anim_counter < u16::MAX
    &&& n.anim_num <= u16::MAX - 6
}

/// `flags` with the bit `mask` set to `v`.
pub open spec fn flag_set(n: NPC, mask: u16, v: bool) -> NPC {
    NPC { npc_flags: NPCFlag(with_bits16(n.npc_flags.0, mask, v)), ..n }
}

/// One tick of the sandcroc: lurking under the sand, following a player
/// along at 2 pixels a tick (0, 1); when a player stands right above it, it
/// snaps with a sound, harmful on its third frame (2); then it stands, solid
/// and shootable (3), until hit, when it sinks 32 pixels through the floor
/// (4) and lies low 100 ticks before starting over where it was (5); the
/// frame.
pub open spec fn sandcroc_step(n: NPC, st: StateView, players: [Player; 2]) -> (NPC, StateView) {
    let k = n.action_num;
    let (a, s) = if k == 0 || k == 1 {
        let b = if k == 0 {
            let f = flag_set(flag_set(flag_set(flag_set(n, NPC_SHOOTABLE, false), NPC_IGNORE_SOLIDITY, false), NPC_INVULNERABLE, false), NPC_SOLID_SOFT, false);
            NPC { action_num: 1, action_counter: 0, anim_num: 0, target_y: n.y, ..f }
        } else {
            n
        };
        let p = players[closest_player(b.x, b.y, players) as int];
        let (c, s0) = if -0x1000 < b.x - p.x < 0x1000 && p.y > b.y && p.y < b.y + 0x1000 {
            (NPC { action_num: 2, action_counter: 0, ..b }, with_sound(st, 102))
        } else {
            (b, st)
        };
        let dx: int = if p.x > c.x { 0x400 } else if p.x < c.x { -0x400 } else { 0 };
        (NPC { x: (c.x + dx) as i32, ..c }, s0)
    } else if k == 2 {
        let c0 = (n.anim_counter + 1) as u16;
        let b = if c0 > 3 { NPC { anim_num: (n.anim_num + 1) as u16, anim_counter: 0, ..n } } else { NPC { anim_counter: c0, ..n } };
        (if b.anim_num == 3 {
            NPC { damage: 10, ..b }
        } else if b.anim_num == 4 {
            NPC { action_num: 3, action_counter: 0, ..flag_set(b, NPC_SHOOTABLE, true) }
        } else {
            b
        }, st)
    } else if k == 3 {
        let c = tick_counter(NPC { damage: 0, ..flag_set(n, NPC_SOLID_SOFT, true) });
        (if c.shock > 0 { NPC { action_num: 4, action_counter: 0, ..c } } else { c }, st)
    } else if k == 4 {
        let c = tick_counter(NPC { y: (n.y + 0x200) as i32, ..flag_set(n, NPC_IGNORE_SOLIDITY, true) });
        (if c.action_counter == 32 {
            NPC { action_num: 5, action_counter: 0, ..flag_set(flag_set(c, NPC_SOLID_SOFT, false), NPC_SHOOTABLE, false) }
        } else {
            c
        }, st)
    } else if k == 5 {
        (if n.action_counter > 99 { NPC { y: n.target_y, action_num: 0, anim_num: 0, ..n } } else { tick_counter(n) }, st)
    } else {
        (n, st)
    };
    (NPC { anim_rect: a.anim_num, ..a }, s)
}

/// Inputs a tick of the sandcroc computes in range on.
pub open spec fn sandcroc_tickable(n: NPC, players: [Player; 2]) -> bool {
    let k = n.action_num;
    &&& npc_coord_ok(n.x)
    &&& npc_coord_ok(n.y)
    &&& npc_coord_ok(players[0].x)
    &&& npc_coord_ok(players[0].y)
    &&& npc_coord_ok(players[1].x)
    &&& npc_coord_ok(players[1].y)
    &&& k == 2 ==> n.anim_counter < u16::MAX && n.anim_num < u16::MAX
    &&& (k == 3 || k == 4) ==> n.action_counter < u16::MAX
}

impl NPC {
    fn crawl_exec(&mut self, on_x: bool, sign: i32, bounce: u32, kick: i32, turn: u32, next: u16)
        requires
            npc_coord_ok(old(self).vel_x),
            npc_coord_ok(old(self).vel_y),
            sign == 1 || sign == -1,
            kick == 0x100 || kick == -0x100,
        ensures
            *final(self) == crawl(*old(self), on_x, sign as int, bounce, kick as int, turn, next),
            -0x1100_0000 <= final(self).vel_x <= 0x1100_0000,
            -0x1100_0000 <= final(self).vel_y <= 0x1100_0000,
    {
        let v = (if on_x {
            self.vel_x
        } else {
            self.vel_y
        }) + sign * 0x20;
        let moving = if sign > 0 {
            v > 0
        } else {
            v < 0
        };
        let hit = self.flags.0 & bounce != 0;
        if on_x {
            if moving && hit {
                self.vel_x = -sign * 0x100;
                self.vel_y += kick;
            } else {
                self.vel_x = v;
            }
        } else {
            if moving && hit {
                self.vel_x += kick;
                self.vel_y = -sign * 0x100;
            } else {
                self.vel_y = v;
            }
        }
        if self.flags.0 & turn != 0 {
            self.action_num = next;
        }
    }

    fn spawn_copies_exec(state: &mut SharedGameState, min_id: u16, npc: NPC, k: usize)
        ensures
            final(state)@ == spawn_copies(old(state)@, min_id, npc, k as nat),
    {
        let ghost s0 = state@;
        let mut i: usize = 0;
        while i < k
            invariant
                i <= k,
                state@ == spawn_copies(s0, min_id, npc, i as nat),
            decreases k - i,
        {
            state.spawn_npc(min_id, npc);
            i += 1;
        }
    }

    fn polish_crawl_exec(&mut self)
        requires
            polish_tickable(*old(self)),
        ensures
            *final(self) == polish_crawl(*old(self)),
            -0x1100_0000 <= final(self).vel_x <= 0x1100_0000,
            -0x1100_0000 <= final(self).vel_y <= 0x1100_0000,
    {
        match self.action_num {
            0 | 1 | 2 => {
                if self.action_num <= 1 {
                    self.anim_num = 0;
                    self.action_num = if self.direction == Direction::Right {
                        2
                    } else {
                        8
                    };
                }
                self.crawl_exec(false, 1, FLAG_HIT_BOTTOM_WALL, 0x100, FLAG_HIT_RIGHT_WALL, 3);
            },
            3 => self.crawl_exec(true, 1, FLAG_HIT_RIGHT_WALL, -0x100, FLAG_HIT_TOP_WALL, 4),
            4 => self.crawl_exec(false, -1, FLAG_HIT_TOP_WALL, -0x100, FLAG_HIT_LEFT_WALL, 5),
            5 => self.crawl_exec(true, -1, FLAG_HIT_LEFT_WALL, 0x100, FLAG_HIT_BOTTOM_WALL, 2),
            6 => self.crawl_exec(false, 1, FLAG_HIT_BOTTOM_WALL, -0x100, FLAG_HIT_LEFT_WALL, 7),
            7 => self.crawl_exec(true, -1, FLAG_HIT_LEFT_WALL, -0x100, FLAG_HIT_TOP_WALL, 8),
            8 => self.crawl_exec(false, -1, FLAG_HIT_TOP_WALL, 0x100, FLAG_HIT_RIGHT_WALL, 9),
            9 => self.crawl_exec(true, 1, FLAG_HIT_RIGHT_WALL, 0x100, FLAG_HIT_BOTTOM_WALL, 6),
            _ => {},
        }
    }

    fn polish_burst_exec(&mut self, state: &mut SharedGameState)
        ensures
            (*final(self), final(state)@) == polish_burst(*old(self), old(state)@),
    {
        if self.life <= 100 {
            state.create_death_smoke(self.x, self.y, self.display_bounds.right as usize, 8);
            state.play_sfx(25);
            self.cond.set_alive(false);
            let mut npc = state.create_npc(45);
            npc.cond.set_alive(true);
            npc.x = self.x;
            npc.y = self.y;
            NPC::spawn_copies_exec(state, 0x100, npc, 9);
        }
    }

    /// Polish; see `polish_step`.
    pub fn tick_n044_polish(&mut self, state: &mut SharedGameState)
        requires
            polish_tickable(*old(self)),
        ensures
            (*final(self), final(state)@) == polish_step(*old(self), old(state)@),
    {
        self.polish_crawl_exec();
        self.polish_burst_exec(state);
        self.vel_x = clamp_i32(self.vel_x, -0x200, 0x200);
        self.vel_y = clamp_i32(self.vel_y, -0x200, 0x200);
        if self.shock > 0 {
            self.x += scale_i32(self.vel_x, 1, 2);
            self.y += scale_i32(self.vel_y, 1, 2);
        } else {
            self.x += self.vel_x;
            self.y += self.vel_y;
        }
        if self.action_num > 1 && self.action_num <= 9 {
            self.anim_num += 1;
            if self.anim_num > 2 {
                self.anim_num = 1;
            }
        }
        self.anim_rect = if self.direction == Direction::Left {
            self.anim_num
        } else {
            self.anim_num + 3
        };
    }
}

/// Enraged Colon's states before the check on his life: idling, blinking at
/// random and turning to a player near him (0 to 2); waiting a random 0
/// to 50 ticks with his life topped up to 1000 (10, 11); running at the
/// player for a random 0 to 50 ticks, then a harmful hop (13 to 15); thrown
/// back by a hit and lying down for 300 to 400 ticks (20, 21).
pub open spec fn colon_action(n: NPC, players: [Player; 2]) -> NPC {
    let k = n.action_num;
    if k == 0 || k == 1 {
        let b = if k == 0 { NPC { action_num: 1, anim_num: 0, anim_counter: 0, ..n } } else { n };
        let (r, m) = roll(b, 0i32, 120i32);
        let c = if r == 10 { NPC { action_num: 2, action_counter: 0, anim_num: 1, ..m } } else { m };
        let p = players[closest_player(c.x, c.y, players) as int];
        if c.x - 0x4000 < p.x && c.x + 0x4000 > p.x && c.y - 0x4000 < p.y && c.y + 0x2000 > p.y { face_player(c, p) } else { c }
    } else if k == 2 {
        let c = tick_counter(n);
        if c.action_counter > 8 { NPC { action_num: 1, anim_num: 0, ..c } } else { c }
    } else if k == 10 || k == 11 {
        let b = if k == 10 {
            let (r, m) = roll(n, 0i32, 50i32);
            NPC { life: 1000, action_num: 11, action_counter: r as u16, anim_num: 0, damage: 0, ..m }
        } else {
            n
        };
        if b.action_counter != 0 { NPC { action_counter: (b.action_counter - 1) as u16, ..b } } else { NPC { action_num: 13, ..b } }
    } else if k == 13 || k == 14 {
        let b = if k == 13 {
            let (r, m) = roll(n, 0i32, 50i32);
            let c = NPC { action_num: 14, action_counter: r as u16, ..m };
            face_player(c, players[closest_player(c.x, c.y, players) as int])
        } else {
            n
        };
        let a = spec_animate(b, 2, 2, 5);
        let v = NPC { vel_x: (a.vel_x + if a.direction != Direction::Left { 64int } else { -64int }) as i32, ..a };
        if v.action_counter != 0 {
            NPC { action_counter: (v.action_counter - 1) as u16, ..v }
        } else {
            NPC { action_num: 15, anim_num: 2, vel_y: -512i32, damage: 2, ..shootable(v, true) }
        }
    } else if k == 15 {
        if n.flags.0 & FLAG_HIT_BOTTOM_WALL != 0 { NPC { vel_x: 0, action_num: 10, damage: 0, ..shootable(n, true) } } else { n }
    } else if k == 20 {
        if n.flags.0 & FLAG_HIT_BOTTOM_WALL != 0 {
            let (r, m) = roll(n, 300i32, 400i32);
            NPC { vel_x: 0, action_num: 21, damage: 0, anim_num: if n.anim_num == 6 { 8 } else { 9 }, action_counter: r as u16, ..m }
        } else {
            n
        }
    } else if k == 21 {
        if n.action_counter > 0 {
            NPC { action_counter: (n.action_counter - 1) as u16, ..n }
        } else {
            let (r, m) = roll(n, 0i32, 50i32);
            NPC { life: 1000, action_num: 11, action_counter: r as u16, anim_num: 0, ..shootable(m, true) }
        }
    } else {
        n
    }
}

/// One tick of enraged Colon: his state's step; hit while waiting or
/// running (his life no longer 1000), he is thrown back (20) in frame 6 or
/// 7, no longer shootable; gravity, speed capped at about one pixel
/// sideways and 3 falling, movement and the frame (right-facing frames
/// start 10 in).
pub open spec fn colon_enraged_step(n: NPC, players: [Player; 2]) -> NPC {
    let a = colon_action(n, players);
    let b = if a.action_num > 10 && a.action_num < 20 && a.life != 1000 {
        let (r, m) = roll(NPC { action_num: 20, vel_y: -512i32, ..a }, 6i32, 7i32);
        NPC { anim_num: r as u16, ..shootable(m, false) }
    } else {
        a
    };
    let vx = clamp(b.vel_x as int, -0x1ff, 0x1ff);
    let vy0 = b.vel_y + 32;
    let vy = if vy0 > 0x5ff { 0x5ff } else { vy0 };
    let m = NPC { vel_x: vx as i32, vel_y: vy as i32, x: (b.x + vx) as i32, y: (b.y + vy) as i32, ..b };
    NPC { anim_rect: dir_frame(m, 10), ..m }
}

/// Inputs a tick of enraged Colon computes in range on.
pub open spec fn colon_enraged_tickable(n: NPC, players: [Player; 2]) -> bool {
    let k = n.action_num;
    &&& npc_coord_ok(n.x)
    &&& npc_coord_ok(n.y)
    &&& npc_coord_ok(n.vel_x)
    &&& npc_coord_ok(n.vel_y)
    &&& npc_coord_ok(players[0].x)
    &&& npc_coord_ok(players[0].y)
    &&& npc_coord_ok(players[1].x)
    &&& npc_coord_ok(players[1].y)
    &&& k == 2 ==> n.action_counter < u16::MAX
    &&& (k == 13 || k == 14) ==> n.anim_counter < u16::MAX
    &&& n.anim_num <= u16::MAX - 10
}

impl NPC {
    fn colon_action_exec(&mut self, players: &[Player; 2])
        requires
            colon_enraged_tickable(*old(self), *players),
        ensures
            *final(self) == colon_action(*old(self), *players),
            -0x1100_0000 <= final(self).vel_x <= 0x1100_0000,
            npc_coord_ok(final(self).vel_y),
            npc_coord_ok(final(self).x),
            npc_coord_ok(final(self).y),
            final(self).anim_num <= u16::MAX - 10,
    {
        match self.action_num {
            0 | 1 => {
                if self.action_num == 0 {
                    self.action_num = 1;
                    self.anim_num = 0;
                    self.anim_counter = 0;
                }
                if self.rng.range(0..120) == 10 {
                    self.action_num = 2;
                    self.action_counter = 0;
                    self.anim_num = 1;
                }
                let p = players[self.get_closest_player_idx(players)];
                if self.x - 0x4000 < p.x && self.x + 0x4000 > p.x && self.y - 0x4000 < p.y && self.y + 0x2000 > p.y {
                    self.face_player(&p);
                }
            },
            2 => {
                self.action_counter += 1;
                if self.action_counter > 8 {
                    self.action_num = 1;
                    self.anim_num = 0;
                }
            },
            10 | 11 => {
                if self.action_num == 10 {
                    self.life = 1000;
                    self.action_num = 11;
                    self.action_counter = self.rng.range(0..50) as u16;
                    self.anim_num = 0;
                    self.damage = 0;
                }
                if self.action_counter != 0 {
                    self.action_counter -= 1;
                } else {
                    self.action_num = 13;
                }
            },
            13 | 14 => {
                if self.action_num == 13 {
                    self.action_num = 14;
                    self.action_counter = self.rng.range(0..50) as u16;
                    let p = players[self.get_closest_player_idx(players)];
                    self.face_player(&p);
                }
                self.animate(2, 2, 5);
                self.vel_x = if self.direction != Direction::Left {
                    self.vel_x + 64
                } else {
                    self.vel_x - 64
                };
                if self.action_counter != 0 {
                    self.action_counter -= 1;
                } else {
                    self.npc_flags.set_shootable(true);
                    self.action_num = 15;
                    self.anim_num = 2;
                    self.vel_y = -512;
                    self.damage = 2;
                }
            },
            15 => {
                if self.flags.hit_bottom_wall() {
                    self.npc_flags.set_shootable(true);
                    self.vel_x = 0;
                    self.action_num = 10;
                    self.damage = 0;
                }
            },
            20 => {
                if self.flags.hit_bottom_wall() {
                    self.vel_x = 0;
                    self.action_num = 21;
                    self.damage = 0;
                    self.anim_num = if self.anim_num == 6 {
                        8
                    } else {
                        9
                    };
                    self.action_counter = self.rng.range(300..400) as u16;
                }
            },
            21 => {
                if self.action_counter > 0 {
                    self.action_counter -= 1;
                } else {
                    self.npc_flags.set_shootable(true);
                    self.life = 1000;
                    self.action_num = 11;
                    self.action_counter = self.rng.range(0..50) as u16;
                    self.anim_num = 0;
                }
            },
            _ => {},
        }
    }

    /// Enraged Colon; see `colon_enraged_step`.
    pub fn tick_n122_colon_enraged(&mut self, players: &[Player; 2])
        requires
            colon_enraged_tickable(*old(self), *players),
        ensures
            *final(self) == colon_enraged_step(*old(self), *players),
    {
        self.colon_action_exec(players);
        if self.action_num > 10 && self.action_num < 20 && self.life != 1000 {
            self.action_num = 20;
            self.vel_y = -512;
            self.anim_num = self.rng.range(6..7) as u16;
            self.npc_flags.set_shootable(false);
        }
        self.vel_y += 32;
        self.vel_x = clamp_i32(self.vel_x, -0x1ff, 0x1ff);
        self.clamp_fall_speed();
        self.y += self.vel_y;
        self.x += self.vel_x;
        self.anim_rect = if self.direction == Direction::Left {
            self.anim_num
        } else {
            self.anim_num + 10
        };
    }
    /// The tan beetle; see `tan_beetle_step`.
    pub fn tick_n056_tan_beetle(&mut self, players: &[Player; 2])
        requires
            tan_beetle_tickable(*old(self), *players),
        ensures
            *final(self) == tan_beetle_step(*old(self), *players),
    {
        let p = players[self.get_closest_player_idx(players)];
        let level = -0x1000 < self.y - p.y && self.y - p.y < 0x1000;
        match self.action_num {
            0 => {
                self.action_num = if self.direction == Direction::Left {
                    1
                } else {
                    3
                };
            },
            1 => self.beetle_fly_exec(-1, FLAG_HIT_LEFT_WALL, 2, Direction::Right),
            2 => {
                if self.x < p.x && self.x > p.x - 0x20000 && level {
                    self.action_num = 3;
                    self.anim_num = 1;
                    self.anim_counter = 0;
                }
            },
            3 => self.beetle_fly_exec(1, FLAG_HIT_RIGHT_WALL, 4, Direction::Left),
            4 => {
                if self.x > p.x && self.x < p.x + 0x20000 && level {
                    self.action_num = 1;
                    self.anim_num = 1;
                    self.anim_counter = 0;
                }
            },
            _ => {},
        }
        self.anim_rect = if self.direction == Direction::Left {
            self.anim_num
        } else {
            self.anim_num + 3
        };
    }

    fn armour_exec(&mut self, closed: bool)
        ensures
            *final(self) == armour(*old(self), closed),
    {
        self.npc_flags.set_shootable(!closed);
        self.npc_flags.set_invulnerable(closed);
    }

    /// The armadillo; see `armadillo_step`. `bullets` gives the live player
    /// bullets by type.
    pub fn tick_n134_armadillo(&mut self, players: &[Player; 2], bullets: &BulletCounts)
        requires
            armadillo_tickable(*old(self), *players),
        ensures
            *final(self) == armadillo_step(*old(self), *players, bullets@),
    {
        match self.action_num {
            0 | 1 => {
                if self.action_num == 0 {
                    self.action_num = 1;
                    self.anim_num = 2;
                    self.armour_exec(true);
                }
                let p = players[self.get_closest_player_idx(players)];
                if p.x > self.x - 0x28000 && p.x < self.x + 0x28000 && p.y > self.y - 0x14000 && p.y < self.y + 0x8000 {
                    self.action_num = 10;
                    self.armour_exec(false);
                }
            },
            10 => {
                self.anim_counter += 1;
                if self.anim_counter > 4 {
                    self.anim_counter = 0;
                    self.anim_num += 1;
                }
                if self.anim_num > 1 {
                    self.anim_num = 0;
                }
                if self.direction == Direction::Left && self.flags.hit_left_wall() {
                    self.direction = Direction::Right;
                }
                if self.direction == Direction::Right && self.flags.hit_right_wall() {
                    self.direction = Direction::Left;
                }
                self.x += self.direction.vector_x() * 0x100;
                if bullets.count_bullets_type_idx_all(6) != 0 {
                    self.action_num = 20;
                    self.action_counter = 0;
                    self.anim_num = 2;
                    self.armour_exec(true);
                }
            },
            20 => {
                self.action_counter += 1;
                if self.action_counter > 100 {
                    self.action_num = 10;
                    self.anim_num = 0;
                    self.anim_counter = 0;
                    self.armour_exec(false);
                }
            },
            _ => {},
        }
        self.vel_y += 0x40;
        self.clamp_fall_speed();
        self.y += self.vel_y;
        self.anim_rect = if self.direction == Direction::Left {
            self.anim_num
        } else {
            self.anim_num + 3
        };
    }
    fn idle_blink_exec(&mut self)
        requires
            old(self).action_num == 2 ==> old(self).action_counter < u16::MAX,
        ensures
            *final(self) == idle_blink(*old(self)),
    {
        match self.action_num {
            0 | 1 => {
                if self.action_num == 0 {
                    self.action_num = 1;
                    self.anim_num = 0;
                    self.anim_counter = 0;
                }
                if self.rng.range(0..120) == 10 {
                    self.action_num = 2;
                    self.action_counter = 0;
                    self.anim_num = 1;
                }
            },
            2 => {
                self.action_counter += 1;
                if self.action_counter > 8 {
                    self.action_num = 1;
                    self.anim_num = 0;
                }
            },
            _ => {},
        }
    }

    fn snore_exec(&mut self, state: &mut SharedGameState)
        requires
            old(self).action_counter < u16::MAX,
        ensures
            (*final(self), final(state)@) == snore(*old(self), old(state)@),
    {
        self.action_counter += 1;
        if self.action_counter > 100 {
            self.action_counter = 0;
            state.create_caret(self.x, self.y, CaretType::Zzz, Direction::Left);
        }
    }

    /// The first Colon: only its frame, by its facing.
    pub fn tick_n120_colon_a(&mut self)
        ensures
            *final(self) == (NPC { anim_rect: if old(self).direction == Direction::Left { 0 } else { 1 }, ..*old(self) }),
    {
        self.anim_rect = if self.direction == Direction::Left {
            0
        } else {
            1
        };
    }

    /// The second Colon; see `colon_b_step`.
    pub fn tick_n121_colon_b(&mut self, state: &mut SharedGameState)
        requires
            old(self).direction != Direction::Left || old(self).action_num == 2 ==> old(self).action_counter < u16::MAX,
        ensures
            (*final(self), final(state)@) == colon_b_step(*old(self), old(state)@),
    {
        if self.direction != Direction::Left {
            self.anim_rect = 2;
            self.snore_exec(state);
            return;
        }
        self.idle_blink_exec();
        self.anim_rect = self.anim_num;
    }

    /// The sleeping puppy: snoring; its frame by its facing.
    pub fn tick_n131_puppy_sleeping(&mut self, state: &mut SharedGameState)
        requires
            old(self).action_counter < u16::MAX,
        ensures
            ({
                let (a, s) = snore(*old(self), old(state)@);
                &&& *final(self) == (NPC { anim_rect: if a.direction == Direction::Left { 0 } else { 1 }, ..a })
                &&& final(state)@ == s
            }),
    {
        self.snore_exec(state);
        self.anim_rect = if self.direction == Direction::Left {
            0
        } else {
            1
        };
    }

    /// Jenka: standing and blinking (see `idle_blink`); right-facing
    /// frames start 2 in.
    pub fn tick_n133_jenka(&mut self)
        requires
            old(self).action_num == 2 ==> old(self).action_counter < u16::MAX,
            old(self).anim_num <= u16::MAX - 2,
        ensures
            ({
                let a = idle_blink(*old(self));
                *final(self) == (NPC { anim_rect: dir_frame(a, 2), ..a })
            }),
    {
        self.idle_blink_exec();
        self.anim_rect = if self.direction == Direction::Left {
            self.anim_num
        } else {
            self.anim_num + 2
        };
    }

    /// The Sun Stone; see `sunstone_step`.
    pub fn tick_n124_sunstone(&mut self, state: &mut SharedGameState)
        requires
            npc_coord_ok(old(self).x),
            npc_coord_ok(old(self).y),
            old(self).action_num == 11 ==> old(self).action_counter < u16::MAX,
        ensures
            (*final(self), final(state)@) == sunstone_step(*old(self), old(state)@),
    {
        match self.action_num {
            0 | 1 => {
                if self.action_num == 0 {
                    self.action_num = 1;
                    self.x += 0x1000;
                    self.y += 0x1000;
                }
                self.npc_flags.set_ignore_solidity(false);
                self.anim_num = 0;
            },
            10 | 11 => {
                if self.action_num == 10 {
                    self.action_num = 11;
                    self.action_counter = 0;
                    self.anim_num = 1;
                    self.npc_flags.set_ignore_solidity(true);
                }
                match self.direction {
                    Direction::Left => self.x -= 0x80,
                    Direction::Up => self.y -= 0x80,
                    Direction::Right => self.x += 0x80,
                    Direction::Bottom => self.y += 0x80,
                    Direction::FacingPlayer => {},
                }
                self.action_counter += 1;
                state.quake_counter = 20;
                state.quake_rumble_counter = 20;
                if self.action_counter % 8 == 0 {
                    state.play_sfx(26);
                }
            },
            _ => {},
        }
        self.anim_rect = self.anim_num;
    }
    /// The sitting puppy; see `puppy_sitting_step`.
    pub fn tick_n130_puppy_sitting(&mut self, players: &[Player; 2])
        requires
            puppy_tickable(*old(self), *players),
        ensures
            *final(self) == puppy_sitting_step(*old(self), *players),
    {
        match self.action_num {
            0 | 1 => {
                if self.action_num == 0 {
                    self.action_num = 1;
                    self.anim_num = 0;
                    self.anim_counter = 0;
                    self.npc_flags.set_interactable(true);
                }
                if self.rng.range(0..120) == 10 {
                    self.action_num = 2;
                    self.action_counter = 0;
                    self.anim_num = 1;
                }
                let p = players[self.get_closest_player_idx(players)];
                if self.x - 0x8000 < p.x && self.x + 0x8000 > p.x && self.y - 0x4000 < p.y && self.y + 0x2000 > p.y {
                    self.anim_counter += 1;
                    if self.anim_counter > 3 {
                        self.anim_counter = 0;
                        self.anim_num += 1;
                    }
                    if self.anim_num > 3 {
                        self.anim_num = 2;
                    }
                }
                if self.x - 0xc000 < p.x && self.x + 0xc000 > p.x && self.y - 0x4000 < p.y && self.y + 0x2000 > p.y {
                    self.direction = if self.x <= p.x {
                        Direction::Right
                    } else {
                        Direction::Left
                    };
                }
            },
            2 => {
                self.action_counter += 1;
                if self.action_counter > 8 {
                    self.action_num = 1;
                    self.anim_num = 0;
                }
            },
            _ => {},
        }
        self.vel_y += 0x40;
        self.clamp_fall_speed();
        self.x += self.vel_x;
        self.y += self.vel_y;
        self.anim_rect = if self.direction == Direction::Left {
            self.anim_num
        } else {
            self.anim_num + 4
        };
    }

    /// The running puppy; see `puppy_running_step`. `talk_pressed` is
    /// whether either player holds the talk button.
    pub fn tick_n126_puppy_running(&mut self, players: &[Player; 2], talk_pressed: bool)
        requires
            puppy_tickable(*old(self), *players),
        ensures
            *final(self) == puppy_running_step(*old(self), *players, talk_pressed),
    {
        let k = self.action_num;
        if k <= 2 {
            self.idle_blink_exec();
            if k != 2 {
                let p = players[self.get_closest_player_idx(players)];
                let level = self.y - 0x4000 < p.y && self.y + 0x2000 > p.y;
                if -0xc000 < self.x - p.x && self.x - p.x < 0xc000 && level {
                    self.direction = if self.x > p.x {
                        Direction::Left
                    } else {
                        Direction::Right
                    };
                }
                if -0x4000 < self.x - p.x && self.x - p.x < 0x4000 && level {
                    self.action_num = 10;
                    self.direction = if self.x > p.x {
                        Direction::Right
                    } else {
                        Direction::Left
                    };
                }
            }
        } else if k == 10 || k == 11 {
            if self.action_num == 10 {
                self.action_num = 11;
                self.anim_num = 4;
                self.anim_counter = 0;
            }
            if self.flags.hit_bottom_wall() {
                self.animate(2, 4, 5);
            } else {
                self.anim_num = 5;
                self.anim_counter = 0;
            }
            if self.vel_x < 0 && self.flags.hit_left_wall() {
                self.vel_x = -scale_i32(self.vel_x, 1, 2);
                self.direction = Direction::Right;
            }
            if self.vel_x > 0 && self.flags.hit_right_wall() {
                self.vel_x = -scale_i32(self.vel_x, 1, 2);
                self.direction = Direction::Left;
            }
            self.vel_x += self.direction.vector_x() * 0x40;
            if self.vel_x > 0x5ff {
                self.vel_x = 0x400;
            }
            if self.vel_x < -0x5ff {
                self.vel_x = -0x400;
            }
        }
        self.npc_flags.set_interactable(talk_pressed);
        self.vel_y += 0x40;
        self.clamp_fall_speed();
        self.x += self.vel_x;
        self.y += self.vel_y;
        self.anim_rect = if self.direction == Direction::Left {
            self.anim_num
        } else {
            self.anim_num + 6
        };
    }
    /// The sandcroc; see `sandcroc_step`.
    pub fn tick_n047_sandcroc(&mut self, state: &mut SharedGameState, players: &[Player; 2])
        requires
            sandcroc_tickable(*old(self), *players),
        ensures
            (*final(self), final(state)@) == sandcroc_step(*old(self), old(state)@, *players),
    {
        match self.action_num {
            0 | 1 => {
                if self.action_num == 0 {
                    self.action_num = 1;
                    self.action_counter = 0;
                    self.anim_num = 0;
                    self.target_y = self.y;
                    self.npc_flags.set_shootable(false);
                    self.npc_flags.set_ignore_solidity(false);
                    self.npc_flags.set_invulnerable(false);
                    self.npc_flags.set_solid_soft(false);
                }
                let p = players[self.get_closest_player_idx(players)];
                if -0x1000 < self.x - p.x && self.x - p.x < 0x1000 && p.y > self.y && p.y < self.y + 0x1000 {
                    self.action_num = 2;
                    self.action_counter = 0;
                    state.play_sfx(102);
                }
                if p.x > self.x {
                    self.x += 0x400;
                } else if p.x < self.x {
                    self.x -= 0x400;
                }
            },
            2 => {
                self.anim_counter += 1;
                if self.anim_counter > 3 {
                    self.anim_num += 1;
                    self.anim_counter = 0;
                }
                if self.anim_num == 3 {
                    self.damage = 10;
                } else if self.anim_num == 4 {
                    self.action_num = 3;
                    self.action_counter = 0;
                    self.npc_flags.set_shootable(true);
                }
            },
            3 => {
                self.damage = 0;
                self.npc_flags.set_solid_soft(true);
                self.action_counter += 1;
                if self.shock > 0 {
                    self.action_num = 4;
                    self.action_counter = 0;
                }
            },
            4 => {
                self.npc_flags.set_ignore_solidity(true);
                self.y += 0x200;
                self.action_counter += 1;
                if self.action_counter == 32 {
                    self.action_num = 5;
                    self.action_counter = 0;
                    self.npc_flags.set_solid_soft(false);
                    self.npc_flags.set_shootable(false);
                }
            },
            5 => {
                if self.action_counter > 99 {
                    self.y = self.target_y;
                    self.action_num = 0;
                    self.anim_num = 0;
                } else {
                    self.action_counter += 1;
                }
            },
            _ => {},
        }
        self.anim_rect = self.anim_num;
    }
}


/// A speed of 0.5 to 1 pixel a tick, in a random direction: a coin toss
/// for the sign, then a draw of the size.
#[verifier::opaque]
pub open spec fn random_drift(n: NPC) -> (i32, NPC) {
    let (b, s0, s1) = xoro_step(n.rng.s0, n.rng.s1);
    let m = NPC { rng: Xoroshiro32PlusPlus { s0, s1 }, ..n };
    if b & 1 != 0 { roll(m, -0x200i32, -0x100i32) } else { roll(m, 0x100i32, 0x200i32) }
}

/// A speed turned around when it runs into a wall on that side, then held
/// to a pixel a tick.
pub open spec fn bounce_clamp(v: int, hit_low: bool, hit_high: bool) -> int {
    let v1 = if v < 0 && hit_low { -v } else { v };
    let v2 = if v1 > 0 && hit_high { -v1 } else { v1 };
    clamp(v2, -0x200, 0x200)
}

fn bounce_clamp_exec(v: i32, hit_low: bool, hit_high: bool) -> (r: i32)
    requires
        npc_coord_ok(v),
    ensures
        r == bounce_clamp(v as int, hit_low, hit_high),
{
    let mut w = v;
    if w < 0 && hit_low {
        w = -w;
    }
    if w > 0 && hit_high {
        w = -w;
    }
    clamp_i32(w, -0x200, 0x200)
}

/// One tick of a baby (what Polish breaks into): on its first tick it picks
/// a random drift each way; it flutters (frames 1 and 2), bounces off
/// walls, drifts at most a pixel a tick each way, and half as fast while
/// hurt.
pub open spec fn baby_step(n: NPC) -> NPC {
    let a0 = if n.action_num == 0 {
        let (vx, m1) = random_drift(n);
        let (vy, m2) = random_drift(m1);
        NPC { action_num: 2, vel_x: vx, vel_y: vy, vel_x2: vx, vel_y2: vy, ..m2 }
    } else {
        n
    };
    let a1 = if a0.action_num == 1 || a0.action_num == 2 {
        NPC { anim_num: if a0.anim_num + 1 > 2 { 1 } else { (a0.anim_num + 1) as u16 }, ..a0 }
    } else {
        a0
    };
    let f = a1.flags.0;
    let vx = bounce_clamp(a1.vel_x2 as int, f & FLAG_HIT_LEFT_WALL != 0, f & FLAG_HIT_RIGHT_WALL != 0);
    let vy = bounce_clamp(a1.vel_y2 as int, f & FLAG_HIT_TOP_WALL != 0, f & FLAG_HIT_BOTTOM_WALL != 0);
    let (dx, dy) = if a1.shock > 0 { (trunc_div(1 * vx, 2), trunc_div(1 * vy, 2)) } else { (vx, vy) };
    let m = NPC { vel_x2: vx as i32, vel_y2: vy as i32, x: (a1.x + dx) as i32, y: (a1.y + dy) as i32, ..a1 };
    NPC { anim_rect: m.anim_num, ..m }
}

impl NPC {
    fn random_drift_exec(&mut self) -> (r: i32)
        ensures
            (r, *final(self)) == random_drift(*old(self)),
            -0x200 <= r <= 0x200,
            *final(self) == (NPC { rng: final(self).rng, ..*old(self) }),
    {
        proof {
            reveal(random_drift);
        }
        if self.rng.next_u16() & 1 != 0 {
            self.rng.range(-0x200..-0x100)
        } else {
            self.rng.range(0x100..0x200)
        }
    }

    /// A baby; see `baby_step`.
    pub fn tick_n045_baby(&mut self)
        requires
            npc_coord_ok(old(self).x),
            npc_coord_ok(old(self).y),
            npc_coord_ok(old(self).vel_x2),
            npc_coord_ok(old(self).vel_y2),
            old(self).anim_num < u16::MAX,
        ensures
            *final(self) == baby_step(*old(self)),
    {
        if self.action_num == 0 {
            let vx = self.random_drift_exec();
            let vy = self.random_drift_exec();
            self.action_num = 2;
            self.vel_x = vx;
            self.vel_y = vy;
            self.vel_x2 = vx;
            self.vel_y2 = vy;
        }
        if self.action_num == 1 || self.action_num == 2 {
            self.anim_num += 1;
            if self.anim_num > 2 {
                self.anim_num = 1;
            }
        }
        let f = self.flags;
        self.vel_x2 = bounce_clamp_exec(self.vel_x2, f.hit_left_wall(), f.hit_right_wall());
        self.vel_y2 = bounce_clamp_exec(self.vel_y2, f.hit_top_wall(), f.hit_bottom_wall());
        if self.shock > 0 {
            self.x += scale_i32(self.vel_x2, 1, 2);
            self.y += scale_i32(self.vel_y2, 1, 2);
        } else {
            self.x += self.vel_x2;
            self.y += self.vel_y2;
        }
        self.anim_rect = self.anim_num;
    }

    /// Jenka, collapsed: the frame of her facing.
    pub fn tick_n143_jenka_collapsed(&mut self)
        ensures
            *final(self) == (NPC {
                anim_rect: if old(self).direction == Direction::Left { 0 } else { 1 },
                ..*old(self)
            }),
    {
        self.anim_rect = if self.direction == Direction::Left {
            0
        } else {
            1
        };
    }
}


/// One tick of the puppy Quote carries: idle with a blink now and then
/// (1, 2), no longer to be talked to, held 10 pixels above player 1 and 4
/// behind them, facing their way (right-facing frames start 2 in).
pub open spec fn puppy_carried_step(n: NPC, players: [Player; 2]) -> NPC {
    let k = n.action_num;
    let a = if k == 0 || k == 1 {
        let b = if k == 0 {
            NPC {
                action_num: 1,
                anim_num: 0,
                anim_counter: 0,
                npc_flags: NPCFlag(with_bits16(n.npc_flags.0, NPC_INTERACTABLE, false)),
                ..n
            }
        } else {
            n
        };
        let (r, m) = roll(b, 0i32, 120i32);
        if r == 10 { NPC { action_num: 2, action_counter: 0, anim_num: 1, ..m } } else { m }
    } else if k == 2 {
        let c = tick_counter(n);
        if c.action_counter > 8 { NPC { action_num: 1, anim_num: 0, ..c } } else { c }
    } else {
        n
    };
    let p = players[0];
    let m = NPC {
        direction: p.direction,
        y: (p.y - 0x1400) as i32,
        x: (p.x + 0x800 * spec_vector_x(spec_opposite(p.direction))) as i32,
        ..a
    };
    NPC { anim_rect: dir_frame(m, 2), ..m }
}

impl NPC {
    /// The puppy being carried; see `puppy_carried_step`. The frame's
    /// one-pixel bob with the player's steps is the renderer's.
    pub fn tick_n136_puppy_carried(&mut self, players: &[Player; 2])
        requires
            npc_coord_ok(players[0].x),
            npc_coord_ok(players[0].y),
            players[0].direction != Direction::FacingPlayer,
            old(self).action_num == 2 ==> old(self).action_counter < u16::MAX,
            old(self).anim_num <= u16::MAX - 2,
        ensures
            *final(self) == puppy_carried_step(*old(self), *players),
    {
        let k = self.action_num;
        if k == 0 || k == 1 {
            if k == 0 {
                self.action_num = 1;
                self.anim_num = 0;
                self.anim_counter = 0;
                self.npc_flags.set_interactable(false);
            }
            if self.rng.range(0..120) == 10 {
                self.action_num = 2;
                self.action_counter = 0;
                self.anim_num = 1;
            }
        } else if k == 2 {
            self.action_counter += 1;
            if self.action_counter > 8 {
                self.action_num = 1;
                self.anim_num = 0;
            }
        }
        let p = players[0];
        self.direction = p.direction;
        self.y = p.y - 0x1400;
        self.x = p.x + 0x800 * self.direction.opposite().vector_x();
        self.anim_rect = if self.direction == Direction::Left {
            self.anim_num
        } else {
            self.anim_num + 2
        };
    }
}


/// The barking a sitting puppy does at a player within 64 pixels across and
/// 16 up or down: frames 2 to 4, a bark (sound 105) each time frame 4
/// comes round; otherwise it stops barking.
pub open spec fn puppy_bark(b: NPC, st: StateView, p: Player) -> (NPC, StateView) {
    if -0x8000 < b.x - p.x < 0x8000 && -0x2000 < b.y - p.y < 0x2000 {
        let c = spec_animate(b, 4, 2, 4);
        if c.anim_num == 4 && c.anim_counter == 0 { (c, with_sound(st, 105)) } else { (c, st) }
    } else {
        (if b.anim_num == 4 { NPC { anim_num: 2, ..b } } else { b }, st)
    }
}

/// One tick of a barking puppy: idle, blinking now and then and barking at
/// a near player (0 to 2); just idle (10 to 12); barking on cue (100, 101:
/// frames 2 to 4 three more times, then frame 0, a bark at each frame 4);
/// quiet (120); it faces the nearest player unless on cue; gravity, fall
/// speed capped at 3 pixels (right-facing frames start 5 in).
pub open spec fn puppy_barking_step(n: NPC, st: StateView, players: [Player; 2]) -> (NPC, StateView) {
    let p = players[closest_player(n.x, n.y, players) as int];
    let k = n.action_num;
    let (a, st1) = if k == 0 || k == 1 {
        puppy_bark(idle_blink(n), st, p)
    } else if k == 2 {
        (idle_blink(n), st)
    } else if k == 10 || k == 11 {
        let b = if k == 10 { NPC { action_num: 11, anim_num: 0, anim_counter: 0, ..n } } else { n };
        let (r, m) = roll(b, 0i32, 120i32);
        (if r == 10 { NPC { action_num: 12, action_counter: 0, anim_num: 1, ..m } } else { m }, st)
    } else if k == 12 {
        let c = tick_counter(n);
        (if c.action_counter > 8 { NPC { action_num: 11, anim_num: 0, ..c } } else { c }, st)
    } else if k == 100 {
        (NPC { action_num: 101, action_counter2: 0, ..n }, st)
    } else if k == 101 {
        let c = if n.anim_counter + 1 > 4 {
            let f = n.anim_num + 1;
            if f > 4 {
                if n.action_counter2 > 2 {
                    NPC { anim_counter: 0, anim_num: 0, action_counter2: 0, ..n }
                } else {
                    NPC { anim_counter: 0, anim_num: 2, action_counter2: (n.action_counter2 + 1) as u16, ..n }
                }
            } else {
                NPC { anim_counter: 0, anim_num: f as u16, ..n }
            }
        } else {
            NPC { anim_counter: (n.anim_counter + 1) as u16, ..n }
        };
        (c, if c.anim_num == 4 && c.anim_counter == 0 { with_sound(st, 105) } else { st })
    } else if k == 120 {
        (NPC { anim_num: 0, ..n }, st)
    } else {
        (n, st)
    };
    let b = if a.action_num < 100 { NPC { direction: if a.x > p.x { Direction::Left } else { Direction::Right }, ..a } } else { a };
    let vy0 = b.vel_y + 0x40;
    let vy = if vy0 > 0x5ff { 0x5ff } else { vy0 };
    let m = NPC { vel_y: vy as i32, x: (b.x + b.vel_x) as i32, y: (b.y + vy) as i32, ..b };
    (NPC { anim_rect: dir_frame(m, 5), ..m }, st1)
}

impl NPC {
    fn puppy_bark_exec(&mut self, state: &mut SharedGameState, p: &Player)
        requires
            npc_coord_ok(old(self).x),
            npc_coord_ok(old(self).y),
            npc_coord_ok(p.x),
            npc_coord_ok(p.y),
            old(self).anim_counter < u16::MAX,
            old(self).anim_num < u16::MAX,
        ensures
            (*final(self), final(state)@) == puppy_bark(*old(self), old(state)@, *p),
    {
        if -0x8000 < self.x - p.x && self.x - p.x < 0x8000 && -0x2000 < self.y - p.y && self.y - p.y < 0x2000 {
            self.animate(4, 2, 4);
            if self.anim_num == 4 && self.anim_counter == 0 {
                state.play_sfx(105);
            }
        } else if self.anim_num == 4 {
            self.anim_num = 2;
        }
    }

    /// A barking puppy; see `puppy_barking_step`.
    pub fn tick_n132_puppy_barking(&mut self, state: &mut SharedGameState, players: &[Player; 2])
        requires
            npc_coord_ok(old(self).x),
            npc_coord_ok(old(self).y),
            npc_coord_ok(old(self).vel_x),
            npc_coord_ok(old(self).vel_y),
            npc_coord_ok(players[0].x),
            npc_coord_ok(players[0].y),
            npc_coord_ok(players[1].x),
            npc_coord_ok(players[1].y),
            old(self).action_num == 2 || old(self).action_num == 12 ==> old(self).action_counter < u16::MAX,
            old(self).anim_counter < u16::MAX,
            old(self).action_num == 101 ==> old(self).action_counter2 < u16::MAX,
            old(self).anim_num <= u16::MAX - 5,
        ensures
            (*final(self), final(state)@) == puppy_barking_step(*old(self), old(state)@, *players),
    {
        let p = players[self.get_closest_player_idx(players)];
        let k = self.action_num;
        if k == 0 || k == 1 {
            self.idle_blink_exec();
            self.puppy_bark_exec(state, &p);
        } else if k == 2 {
            self.idle_blink_exec();
        } else if k == 10 || k == 11 {
            if k == 10 {
                self.action_num = 11;
                self.anim_num = 0;
                self.anim_counter = 0;
            }
            if self.rng.range(0..120) == 10 {
                self.action_num = 12;
                self.action_counter = 0;
                self.anim_num = 1;
            }
        } else if k == 12 {
            self.action_counter += 1;
            if self.action_counter > 8 {
                self.action_num = 11;
                self.anim_num = 0;
            }
        } else if k == 100 {
            self.action_num = 101;
            self.action_counter2 = 0;
        } else if k == 101 {
            self.anim_counter += 1;
            if self.anim_counter > 4 {
                self.anim_counter = 0;
                self.anim_num += 1;
                if self.anim_num > 4 {
                    if self.action_counter2 > 2 {
                        self.anim_num = 0;
                        self.action_counter2 = 0;
                    } else {
                        self.anim_num = 2;
                        self.action_counter2 += 1;
                    }
                }
            }
            if self.anim_num == 4 && self.anim_counter == 0 {
                state.play_sfx(105);
            }
        } else if k == 120 {
            self.anim_num = 0;
        }
        if self.action_num < 100 {
            self.face_player(&p);
        }
        self.vel_y += 0x40;
        self.clamp_fall_speed();
        self.x += self.vel_x;
        self.y += self.vel_y;
        self.anim_rect = if self.direction == Direction::Left {
            self.anim_num
        } else {
            self.anim_num + 5
        };
    }
}

} // verus!
