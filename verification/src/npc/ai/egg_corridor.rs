//! The Egg Corridor: green critters and beetles, the Basil, the lift, the
//! zombie dragon, and the counter bomb of the ruined corridor.

use vstd::prelude::*;

use crate::common::{spec_vector_x, Direction};
use crate::game_state::{with_aim, with_smoke, with_sound, with_spawn, with_xp_drop, DeathSmoke, SharedGameState, StateView};
use crate::npc::core_boss::fresh;
use crate::npc::ai::first_cave::{critter_step, critter_tickable, critter_waiting};
use crate::npc::ai::misery::{clamp, clamp_i32, shootable, tick_counter};
use crate::npc::ai::{dir_frame, npc_coord_ok, scale_i32, trunc_div};
use crate::npc::{
    closest_player, roll, spec_animate, with_bits16, Condition, Player, Rect, COND_ALIVE, COND_EXPLODE_DIE,
    COND_HIDDEN, FLAG_HIT_BOTTOM_WALL, FLAG_HIT_LEFT_WALL, FLAG_HIT_RIGHT_WALL, NPC,
};

verus! {

/// One crawling step of the green beetle along a wall: speeding up by
/// 0.03 pixels a tick towards `sign`, to at most 2 pixels, moving at half
/// speed while hurt, its wings beating; at the wall `wall` it stops and
/// waits (state `rest`), turned to `back`.
pub open spec fn beetle_fly(n: NPC, sign: int, wall: u32, rest: u16, back: Direction) -> NPC {
    let v0 = n.vel_x + sign * 0x10;
    let v = if sign < 0 { if v0 < -0x400 { -0x400 } else { v0 } } else { if v0 > 0x400 { 0x400 } else { v0 } };
    let dx = if n.shock > 0 { trunc_div(1 * v, 2) } else { v };
    let a = spec_animate(NPC { vel_x: v as i32, x: (n.x + dx) as i32, ..n }, 1, 1, 2);
    if a.flags.0 & wall != 0 { NPC { action_num: rest, action_counter: 0, anim_num: 0, vel_x: 0, direction: back, ..a } } else { a }
}

/// One tick of the green beetle, flying from wall to wall along the
/// corridor: leftwards (1) or rightwards (3), as it first faces; resting a
/// second at each wall (2, 4); the frame (right-facing frames start 5 in).
pub open spec fn green_beetle_step(n: NPC) -> NPC {
    let k = n.action_num;
    let a = if k == 0 {
        NPC { action_num: if n.direction == Direction::Right { 3 } else { 1 }, ..n }
    } else if k == 1 {
        beetle_fly(n, -1, FLAG_HIT_LEFT_WALL, 2, Direction::Right)
    } else if k == 2 || k == 4 {
        let c = tick_counter(n);
        if c.action_counter > 60 { NPC { action_num: if k == 2 { 3 } else { 1 }, anim_counter: 0, anim_num: 1, ..c } } else { c }
    } else if k == 3 {
        beetle_fly(n, 1, FLAG_HIT_RIGHT_WALL, 4, Direction::Left)
    } else {
        n
    };
    NPC { anim_rect: if a.direction == Direction::Left { a.anim_num } else { (a.anim_num + 5) as u16 }, ..a }
}

/// Inputs a tick of the green beetle computes in range on.
pub open spec fn green_beetle_tickable(n: NPC) -> bool {
    let k = n.action_num;
    &&& npc_coord_ok(n.x)
    &&& npc_coord_ok(n.vel_x)
    &&& (k == 1 || k == 3) ==> n.anim_counter < u16::MAX
    &&& (k == 2 || k == 4) ==> n.action_counter < u16::MAX
    &&& n.anim_num <= u16::MAX - 5
}

/// One tick of the Basil, the invulnerable dasher along the floor: it
/// starts under the player (0); it speeds up leftwards (1) or rightwards
/// (2), turning round 192 pixels past the player or at a wall (where it
/// stops); it faces where it moves, at up to 3 pixels a tick, its frames 0
/// and 1 alternating (right-facing frames start 3 in).
pub open spec fn basil_step(n: NPC, players: [Player; 2]) -> NPC {
    let k = n.action_num;
    let p = players[closest_player(n.x, n.y, players) as int];
    let a = if k == 0 {
        NPC { x: p.x, action_num: if n.direction == Direction::Left { 1 } else { 2 }, ..n }
    } else if k == 1 {
        let b = NPC { vel_x: (n.vel_x - 0x40) as i32, ..n };
        let c = if b.x < p.x - 0x18000 { NPC { action_num: 2, ..b } } else { b };
        if c.flags.0 & FLAG_HIT_LEFT_WALL != 0 { NPC { vel_x: 0, action_num: 2, ..c } } else { c }
    } else if k == 2 {
        let b = NPC { vel_x: (n.vel_x + 0x40) as i32, ..n };
        let c = if b.x > p.x + 0x18000 { NPC { action_num: 1, ..b } } else { b };
        if c.flags.0 & FLAG_HIT_RIGHT_WALL != 0 { NPC { vel_x: 0, action_num: 1, ..c } } else { c }
    } else {
        n
    };
    let d = NPC { direction: if a.vel_x < 0 { Direction::Left } else { Direction::Right }, ..a };
    let vx = clamp(d.vel_x as int, -0x5ff, 0x5ff);
    let m = spec_animate(NPC { vel_x: vx as i32, x: (d.x + vx) as i32, ..d }, 1, 0, 1);
    NPC { anim_rect: dir_frame(m, 3), ..m }
}

/// Inputs a tick of the Basil computes in range on.
pub open spec fn basil_tickable(n: NPC, players: [Player; 2]) -> bool {
    &&& npc_coord_ok(n.x)
    &&& npc_coord_ok(n.vel_x)
    &&& npc_coord_ok(players[0].x)
    &&& npc_coord_ok(players[1].x)
    &&& n.anim_counter < u16::MAX
    &&& n.anim_num <= u16::MAX - 3
}

/// The lift resting: after 150 ticks it moves on (state `next`).
pub open spec fn lift_pause(n: NPC, next: u16) -> NPC {
    let c = tick_counter(n);
    if c.action_counter > 150 { NPC { action_num: next, action_counter: 0, ..c } } else { c }
}

/// The lift moving a pixel a tick by `dy` for 64 ticks, then resting
/// (state `next`); its lights blink.
pub open spec fn lift_move(n: NPC, dy: int, next: u16) -> NPC {
    let c = tick_counter(n);
    let d = if c.action_counter > 64 { NPC { action_num: next, action_counter: 0, ..c } } else { NPC { y: (c.y + dy) as i32, ..c } };
    spec_animate(d, 1, 0, 1)
}

/// One tick of the Egg Corridor lift: set half a tile right (0); then a
/// round of resting 150 ticks and moving 64 pixels: up (1, 2), up (3, 4),
/// down (5, 6), down (7, 8); the frame.
pub open spec fn lift_step(n: NPC) -> NPC {
    let k = n.action_num;
    let a = if k == 0 || k == 1 {
        lift_pause(if k == 0 { NPC { x: (n.x + 0x1000) as i32, action_num: 1, anim_num: 0, anim_counter: 1, ..n } } else { n }, 2)
    } else if k == 2 {
        lift_move(n, -0x200, 3)
    } else if k == 3 {
        lift_pause(n, 4)
    } else if k == 4 {
        lift_move(n, -0x200, 5)
    } else if k == 5 {
        lift_pause(n, 6)
    } else if k == 6 {
        lift_move(n, 0x200, 7)
    } else if k == 7 {
        lift_pause(n, 8)
    } else if k == 8 {
        lift_move(n, 0x200, 1)
    } else {
        n
    };
    NPC { anim_rect: a.anim_num, ..a }
}

/// Inputs a tick of the lift computes in range on.
pub open spec fn lift_tickable(n: NPC) -> bool {
    &&& npc_coord_ok(n.x)
    &&& npc_coord_ok(n.y)
    &&& n.action_counter < u16::MAX
    &&& n.anim_counter < u16::MAX
    &&& n.anim_num < u16::MAX
}

/// The zombie dragon worn below 950 life: it stops fighting (100), with a
/// sound, smoke, and its experience (`exp`) dropped where it lies.
pub open spec fn dragon_defeat(n: NPC, st: StateView) -> (NPC, StateView) {
    if n.action_num < 100 && n.life < 950 {
        let s0 = with_smoke(with_sound(st, 72), DeathSmoke { x: n.x, y: n.y, radius: n.display_bounds.right as usize, amount: 8 });
        (NPC { action_num: 100, damage: 0, ..shootable(n, false) }, with_xp_drop(s0, n.x, n.y, n.exp as u32))
    } else {
        (n, st)
    }
}

/// The zombie dragon's fire: five shots (type 202) from its mouth, one
/// every 8 ticks, aimed at where the player stood when it began, each
/// turned by up to 6 game degrees; each sounds unless that player is
/// hidden; after 60 ticks it rests a random 100 to 200 ticks (10).
pub open spec fn dragon_fire(n: NPC, st: StateView, p: Player) -> (NPC, StateView) {
    let b = if n.action_num == 30 { NPC { action_num: 31, action_counter: 0, anim_num: 4, target_x: p.x, target_y: p.y, ..n } } else { n };
    let c = tick_counter(b);
    let (d, s) = if c.action_counter <= 39 && c.action_counter % 8 == 1 {
        let (j, m) = roll(c, -6i32, 6i32);
        let sx = c.x + spec_vector_x(c.direction) * 0x1c00;
        let s1 = with_aim(with_spawn(st, 0x100, fresh(st, 202, sx, c.y as int)), (sx - c.target_x) as i32, (c.y - c.target_y) as i32, j, 1536);
        (m, if p.cond.0 & COND_HIDDEN == 0 { with_sound(s1, 33) } else { s1 })
    } else {
        (c, st)
    };
    if d.action_counter > 60 {
        let (r, m) = roll(d, 100i32, 200i32);
        (NPC { action_num: 10, action_counter3: r as u16, anim_counter: 0, ..m }, s)
    } else {
        (d, s)
    }
}

/// One tick of the zombie dragon: its defeat; resting, mouth shut, until
/// its rest is over and a player is within 112 pixels across (0, 10);
/// opening its mouth for 30 ticks, turned to the player (20, 21); its fire
/// (30, 31); lying dead (100); the frame (right-facing frames start 6 in).
pub open spec fn zombie_dragon_step(n: NPC, st: StateView, players: [Player; 2]) -> (NPC, StateView) {
    let (a0, s0) = dragon_defeat(n, st);
    let p = players[closest_player(a0.x, a0.y, players) as int];
    let k = a0.action_num;
    let (a, s) = if k == 0 || k == 10 {
        let b = if k == 0 { NPC { action_num: 10, action_counter3: 0, ..a0 } } else { a0 };
        let c = spec_animate(b, 30, 0, 1);
        let d = if c.action_counter3 != 0 { NPC { action_counter3: (c.action_counter3 - 1) as u16, ..c } } else { c };
        (if d.action_counter3 == 0 && p.x > d.x - 0xe000 && p.x < d.x + 0xe000 { NPC { action_num: 20, ..d } } else { d }, s0)
    } else if k == 20 || k == 21 {
        let c = tick_counter(if k == 20 { NPC { action_num: 21, action_counter: 0, ..a0 } } else { a0 });
        let d = NPC { anim_num: if c.action_counter & 1 != 0 { 2 } else { 3 }, ..c };
        let e = if d.action_counter > 30 { NPC { action_num: 30, ..d } } else { d };
        (NPC { direction: if p.x >= e.x { Direction::Right } else { Direction::Left }, ..e }, s0)
    } else if k == 30 || k == 31 {
        dragon_fire(a0, s0, p)
    } else if k == 100 {
        (NPC { anim_num: 5, ..a0 }, s0)
    } else {
        (a0, s0)
    };
    (NPC { anim_rect: dir_frame(a, 6), ..a }, s)
}

/// Inputs a tick of the zombie dragon computes in range on.
pub open spec fn zombie_dragon_tickable(n: NPC, players: [Player; 2]) -> bool {
    let k = n.action_num;
    &&& npc_coord_ok(n.x)
    &&& npc_coord_ok(n.y)
    &&& npc_coord_ok(players[0].x)
    &&& npc_coord_ok(players[0].y)
    &&& npc_coord_ok(players[1].x)
    &&& npc_coord_ok(players[1].y)
    &&& k == 31 ==> npc_coord_ok(n.target_x) && npc_coord_ok(n.target_y)
    &&& (k == 0 || k == 10) ==> n.anim_counter < u16::MAX
    &&& (k == 21 || k == 31) ==> n.action_counter < u16::MAX
    &&& n.anim_num <= u16::MAX - 6
}

/// The counter bomb's countdown: a number (type 207) every 60 ticks, 5
/// down to 1 (`tsc_direction` 0 to 4), at tick 300 the blast: a large
/// harmful box, death by explosion, a quake and a sound, and a burst of
/// smoke 128 pixels wide.
pub open spec fn bomb_countdown(n: NPC, st: StateView) -> (NPC, StateView) {
    let t = n.action_counter;
    let number = fresh(st, 207, n.x + 0x2000, n.y + 0x800);
    let (a, s) = if t == 0 || t == 60 || t == 120 || t == 180 || t == 240 {
        (n, with_spawn(st, 0x100, NPC { tsc_direction: t / 60, ..number }))
    } else if t == 300 {
        let s0 = with_sound(StateView { quake_counter: 20, quake_rumble_counter: 20, ..st }, 35);
        (
            NPC {
                hit_bounds: Rect { left: 0x10000, top: 0xc800, right: 0x10000, bottom: 0xc800 },
                damage: 30,
                cond: Condition(with_bits16(n.cond.0, COND_EXPLODE_DIE, true)),
                ..n
            },
            with_smoke(s0, DeathSmoke { x: n.x, y: n.y, radius: 0x10000, amount: 100 }),
        )
    } else {
        (n, st)
    };
    (tick_counter(a), s)
}

/// One tick of the counter bomb: it hangs still for the rest of 50 ticks
/// from a random start (0, 1); it drifts, waiting for a player within 80
/// pixels across or a hit (2); its countdown (3); once started it bobs
/// about its height; it moves; its frames 0 to 2 turn every fifth tick.
pub open spec fn counter_bomb_step(n: NPC, st: StateView, players: [Player; 2]) -> (NPC, StateView) {
    let k = n.action_num;
    let (a, s) = if k == 0 || k == 1 {
        let b = if k == 0 {
            let (r, m) = roll(n, 0i32, 50i32);
            NPC { action_num: 1, target_x: n.x, target_y: n.y, action_counter3: 120, action_counter: r as u16, ..m }
        } else {
            n
        };
        let c = tick_counter(b);
        (if c.action_counter >= 50 { NPC { action_counter: 0, action_num: 2, vel_y: 0x300, ..c } } else { c }, st)
    } else if k == 2 {
        let p = players[closest_player(n.x, n.y, players) as int];
        let b = if p.x > n.x - 0xa000 && p.x < n.x + 0xa000 { NPC { action_counter: 0, action_num: 3, ..n } } else { n };
        (if b.shock > 0 { NPC { action_counter: 0, action_num: 3, ..b } } else { b }, st)
    } else if k == 3 {
        bomb_countdown(n, st)
    } else {
        (n, st)
    };
    let b = if a.action_num > 1 {
        let v1 = if a.target_y < a.y { a.vel_y - 0x10 } else { a.vel_y as int };
        let v2 = if a.target_y > a.y { v1 + 0x10 } else { v1 };
        NPC { vel_y: clamp(v2, -0x100, 0x100) as i32, ..a }
    } else {
        a
    };
    let m = spec_animate(NPC { x: (b.x + b.vel_x) as i32, y: (b.y + b.vel_y) as i32, ..b }, 4, 0, 2);
    (NPC { anim_rect: m.anim_num, ..m }, s)
}

/// Inputs a tick of the counter bomb computes in range on.
pub open spec fn counter_bomb_tickable(n: NPC, players: [Player; 2]) -> bool {
    let k = n.action_num;
    &&& npc_coord_ok(n.x)
    &&& npc_coord_ok(n.y)
    &&& npc_coord_ok(n.vel_x)
    &&& npc_coord_ok(n.vel_y)
    &&& npc_coord_ok(players[0].x)
    &&& npc_coord_ok(players[1].x)
    &&& (k == 1 || k == 3) ==> n.action_counter < u16::MAX
    &&& n.anim_counter < u16::MAX
    &&& n.anim_num < u16::MAX
}

/// One tick of a countdown number: it appears with a sound showing its
/// number (`tsc_direction`) and slides a pixel a tick right for 9 ticks
/// (0, 1), stays 31 ticks and goes (2); the frame is the number's.
pub open spec fn countdown_step(n: NPC, st: StateView) -> (NPC, StateView) {
    let k = n.action_num;
    let (a, s) = if k == 0 || k == 1 {
        let (b, s0) = if k == 0 { (NPC { action_num: 1, anim_num: n.tsc_direction, ..n }, with_sound(st, 43)) } else { (n, st) };
        let c = tick_counter(NPC { x: (b.x + 0x200) as i32, ..b });
        (if c.action_counter > 8 { NPC { action_num: 2, action_counter: 0, ..c } } else { c }, s0)
    } else if k == 2 {
        let c = tick_counter(n);
        (if c.action_counter > 30 { NPC { cond: Condition(with_bits16(c.cond.0, COND_ALIVE, false)), ..c } } else { c }, st)
    } else {
        (n, st)
    };
    (NPC { anim_rect: a.anim_num % 5, ..a }, s)
}

/// One tick of the critter of the ruined Egg Corridor: the green critter,
/// except that once it has watched a player it keeps that frame, that it
/// leaps rightwards unless it faces left, and that its right-facing frames
/// (3 in) are for facing right only.
pub open spec fn ruined_critter_step(n: NPC, st: StateView, players: [Player; 2]) -> (NPC, StateView) {
    let k = n.action_num;
    let (a, s) = if k == 0 || k == 1 {
        (critter_waiting(n, players, 0x6000, 0xa000, 0xa000, false), st)
    } else if k == 2 {
        let c = tick_counter(n);
        if c.action_counter > 8 {
            (
                NPC {
                    action_num: 3,
                    anim_num: 2,
                    vel_y: -0x5ffi32,
                    vel_x: if c.direction == Direction::Left { -0x100i32 } else { 0x100i32 },
                    ..c
                },
                with_sound(st, 30),
            )
        } else {
            (c, st)
        }
    } else if k == 3 && n.flags.0 & FLAG_HIT_BOTTOM_WALL != 0 {
        (NPC { vel_x: 0, anim_num: 0, action_counter: 0, action_num: 1, ..n }, with_sound(st, 23))
    } else {
        (n, st)
    };
    let f = NPC { anim_rect: if a.direction == Direction::Right { (a.anim_num + 3) as u16 } else { a.anim_num }, ..a };
    let vy0 = f.vel_y + 0x40;
    let vy = if vy0 > 0x5ff { 0x5ff } else { vy0 };
    (NPC { vel_y: vy as i32, x: (f.x + f.vel_x) as i32, y: (f.y + vy) as i32, ..f }, s)
}

impl NPC {
    /// The green critter: a hopping critter that leaps at a player within
    /// 48 pixels across and 80 above or below; see `critter_step`.
    pub fn tick_n005_green_critter(&mut self, state: &mut SharedGameState, players: &[Player; 2])
        requires
            critter_tickable(*old(self), *players),
        ensures
            (*final(self), final(state)@) == critter_step(*old(self), old(state)@, *players, 0x6000, 0xa000, 0xa000, true),
    {
        self.hopping_critter_exec(state, players, 0x6000, 0xa000, 0xa000, true);
    }

    /// The critter of the ruined Egg Corridor; see `ruined_critter_step`.
    pub fn tick_n203_critter_destroyed_egg_corridor(&mut self, state: &mut SharedGameState, players: &[Player; 2])
        requires
            critter_tickable(*old(self), *players),
        ensures
            (*final(self), final(state)@) == ruined_critter_step(*old(self), old(state)@, *players),
    {
        match self.action_num {
            0 | 1 => self.critter_waiting_exec(players, 0x6000, 0xa000, 0xa000, false),
            2 => {
                self.action_counter += 1;
                if self.action_counter > 8 {
                    self.action_num = 3;
                    self.anim_num = 2;
                    self.vel_y = -0x5ff;
                    state.play_sfx(30);
                    self.vel_x = if self.direction == Direction::Left {
                        -0x100
                    } else {
                        0x100
                    };
                }
            },
            3 => {
                if self.flags.hit_bottom_wall() {
                    self.vel_x = 0;
                    self.action_counter = 0;
                    self.action_num = 1;
                    self.anim_num = 0;
                    state.play_sfx(23);
                }
            },
            _ => {},
        }
        self.anim_rect = if self.direction == Direction::Right {
            self.anim_num + 3
        } else {
            self.anim_num
        };
        self.vel_y += 0x40;
        self.clamp_fall_speed();
        self.x += self.vel_x;
        self.y += self.vel_y;
    }

    pub(crate) fn beetle_fly_exec(&mut self, sign: i32, wall: u32, rest: u16, back: Direction)
        requires
            sign == 1 || sign == -1,
            npc_coord_ok(old(self).x),
            npc_coord_ok(old(self).vel_x),
            old(self).anim_counter < u16::MAX,
            old(self).anim_num < u16::MAX,
        ensures
            *final(self) == beetle_fly(*old(self), sign as int, wall, rest, back),
    {
        let v0 = self.vel_x + sign * 0x10;
        let v = if sign < 0 {
            if v0 < -0x400 {
                -0x400
            } else {
                v0
            }
        } else {
            if v0 > 0x400 {
                0x400
            } else {
                v0
            }
        };
        self.vel_x = v;
        if self.shock > 0 {
            self.x += scale_i32(v, 1, 2);
        } else {
            self.x += v;
        }
        self.animate(1, 1, 2);
        if self.flags.0 & wall != 0 {
            self.action_num = rest;
            self.action_counter = 0;
            self.anim_num = 0;
            self.vel_x = 0;
            self.direction = back;
        }
    }

    /// The green beetle; see `green_beetle_step`.
    pub fn tick_n006_green_beetle(&mut self)
        requires
            green_beetle_tickable(*old(self)),
        ensures
            *final(self) == green_beetle_step(*old(self)),
    {
        match self.action_num {
            0 => {
                self.action_num = if self.direction == Direction::Right {
                    3
                } else {
                    1
                };
            },
            1 => self.beetle_fly_exec(-1, FLAG_HIT_LEFT_WALL, 2, Direction::Right),
            2 | 4 => {
                self.action_counter += 1;
                if self.action_counter > 60 {
                    self.action_num = if self.action_num == 2 {
                        3
                    } else {
                        1
                    };
                    self.anim_counter = 0;
                    self.anim_num = 1;
                }
            },
            3 => self.beetle_fly_exec(1, FLAG_HIT_RIGHT_WALL, 4, Direction::Left),
            _ => {},
        }
        self.anim_rect = if self.direction == Direction::Left {
            self.anim_num
        } else {
            self.anim_num + 5
        };
    }
    /// The Basil; see `basil_step`.
    pub fn tick_n007_basil(&mut self, players: &[Player; 2])
        requires
            basil_tickable(*old(self), *players),
        ensures
            *final(self) == basil_step(*old(self), *players),
    {
        let p = players[self.get_closest_player_idx(players)];
        match self.action_num {
            0 => {
                self.x = p.x;
                self.action_num = if self.direction == Direction::Left {
                    1
                } else {
                    2
                };
            },
            1 => {
                self.vel_x -= 0x40;
                if self.x < p.x - 0x18000 {
                    self.action_num = 2;
                }
                if self.flags.hit_left_wall() {
                    self.vel_x = 0;
                    self.action_num = 2;
                }
            },
            2 => {
                self.vel_x += 0x40;
                if self.x > p.x + 0x18000 {
                    self.action_num = 1;
                }
                if self.flags.hit_right_wall() {
                    self.vel_x = 0;
                    self.action_num = 1;
                }
            },
            _ => {},
        }
        self.direction = if self.vel_x < 0 {
            Direction::Left
        } else {
            Direction::Right
        };
        self.vel_x = clamp_i32(self.vel_x, -0x5ff, 0x5ff);
        self.x += self.vel_x;
        self.animate(1, 0, 1);
        self.anim_rect = if self.direction == Direction::Left {
            self.anim_num
        } else {
            self.anim_num + 3
        };
    }
    fn lift_move_exec(&mut self, dy: i32, next: u16)
        requires
            lift_tickable(*old(self)),
            dy == 0x200 || dy == -0x200,
        ensures
            *final(self) == lift_move(*old(self), dy as int, next),
    {
        self.action_counter += 1;
        if self.action_counter > 64 {
            self.action_num = next;
            self.action_counter = 0;
        } else {
            self.y += dy;
        }
        self.animate(1, 0, 1);
    }

    fn lift_pause_exec(&mut self, next: u16)
        requires
            old(self).action_counter < u16::MAX,
        ensures
            *final(self) == lift_pause(*old(self), next),
    {
        self.action_counter += 1;
        if self.action_counter > 150 {
            self.action_num = next;
            self.action_counter = 0;
        }
    }

    /// The Egg Corridor lift; see `lift_step`.
    pub fn tick_n025_lift(&mut self)
        requires
            lift_tickable(*old(self)),
        ensures
            *final(self) == lift_step(*old(self)),
    {
        match self.action_num {
            0 | 1 => {
                if self.action_num == 0 {
                    self.x += 0x1000;
                    self.action_num = 1;
                    self.anim_num = 0;
                    self.anim_counter = 1;
                }
                self.lift_pause_exec(2);
            },
            2 => self.lift_move_exec(-0x200, 3),
            3 => self.lift_pause_exec(4),
            4 => self.lift_move_exec(-0x200, 5),
            5 => self.lift_pause_exec(6),
            6 => self.lift_move_exec(0x200, 7),
            7 => self.lift_pause_exec(8),
            8 => self.lift_move_exec(0x200, 1),
            _ => {},
        }
        self.anim_rect = self.anim_num;
    }
    fn dragon_fire_exec(&mut self, state: &mut SharedGameState, p: &Player)
        requires
            old(self).action_num == 30 || old(self).action_num == 31,
            npc_coord_ok(old(self).x),
            npc_coord_ok(old(self).y),
            npc_coord_ok(p.x),
            npc_coord_ok(p.y),
            old(self).action_num == 31 ==> npc_coord_ok(old(self).target_x) && npc_coord_ok(old(self).target_y)
                && old(self).action_counter < u16::MAX,
        ensures
            (*final(self), final(state)@) == dragon_fire(*old(self), old(state)@, *p),
            final(self).anim_num == (if old(self).action_num == 30 { 4 } else { old(self).anim_num }),
    {
        if self.action_num == 30 {
            self.action_num = 31;
            self.action_counter = 0;
            self.anim_num = 4;
            self.target_x = p.x;
            self.target_y = p.y;
        }
        self.action_counter += 1;
        if self.action_counter <= 39 && self.action_counter % 8 == 1 {
            let j = self.rng.range(-6..6);
            let sx = self.x + self.direction.vector_x() * 0x1c00;
            let mut npc = state.create_npc(202);
            npc.cond.set_alive(true);
            npc.x = sx;
            npc.y = self.y;
            state.spawn_npc(0x100, npc);
            state.aim_last_spawn(sx - self.target_x, self.y - self.target_y, j, 1536);
            if !p.cond.hidden() {
                state.play_sfx(33);
            }
        }
        if self.action_counter > 60 {
            self.action_num = 10;
            self.action_counter3 = self.rng.range(100..200) as u16;
            self.anim_counter = 0;
        }
    }

    /// The zombie dragon; see `zombie_dragon_step`.
    pub fn tick_n200_zombie_dragon(&mut self, state: &mut SharedGameState, players: &[Player; 2])
        requires
            zombie_dragon_tickable(*old(self), *players),
        ensures
            (*final(self), final(state)@) == zombie_dragon_step(*old(self), old(state)@, *players),
    {
        if self.action_num < 100 && self.life < 950 {
            self.action_num = 100;
            self.npc_flags.set_shootable(false);
            self.damage = 0;
            state.play_sfx(72);
            state.create_death_smoke(self.x, self.y, self.display_bounds.right as usize, 8);
            state.create_xp_drop(self.x, self.y, self.exp as u32);
        }
        let p = players[self.get_closest_player_idx(players)];
        match self.action_num {
            0 | 10 => {
                if self.action_num == 0 {
                    self.action_num = 10;
                    self.action_counter3 = 0;
                }
                self.animate(30, 0, 1);
                if self.action_counter3 != 0 {
                    self.action_counter3 -= 1;
                }
                if self.action_counter3 == 0 && p.x > self.x - 0xe000 && p.x < self.x + 0xe000 {
                    self.action_num = 20;
                }
            },
            20 | 21 => {
                if self.action_num == 20 {
                    self.action_num = 21;
                    self.action_counter = 0;
                }
                self.action_counter += 1;
                self.anim_num = if (self.action_counter & 1) != 0 {
                    2
                } else {
                    3
                };
                if self.action_counter > 30 {
                    self.action_num = 30;
                }
                self.direction = if p.x >= self.x {
                    Direction::Right
                } else {
                    Direction::Left
                };
            },
            30 | 31 => self.dragon_fire_exec(state, &p),
            100 => {
                self.anim_num = 5;
            },
            _ => {},
        }
        self.anim_rect = if self.direction == Direction::Left {
            self.anim_num
        } else {
            self.anim_num + 6
        };
    }
    fn bomb_countdown_exec(&mut self, state: &mut SharedGameState)
        requires
            npc_coord_ok(old(self).x),
            npc_coord_ok(old(self).y),
            old(self).action_counter < u16::MAX,
        ensures
            (*final(self), final(state)@) == bomb_countdown(*old(self), old(state)@),
    {
        let mut npc = state.create_npc(207);
        npc.cond.set_alive(true);
        npc.x = self.x + 0x2000;
        npc.y = self.y + 0x800;
        let t = self.action_counter;
        if t == 0 || t == 60 || t == 120 || t == 180 || t == 240 {
            npc.tsc_direction = t / 60;
            state.spawn_npc(0x100, npc);
        } else if t == 300 {
            self.hit_bounds.right = 0x10000;
            self.hit_bounds.left = 0x10000;
            self.hit_bounds.top = 0xc800;
            self.hit_bounds.bottom = 0xc800;
            self.damage = 30;
            self.cond.set_explode_die(true);
            state.quake_counter = 20;
            state.quake_rumble_counter = 20;
            state.play_sfx(35);
            state.create_death_smoke(self.x, self.y, 0x10000, 100);
        }
        self.action_counter += 1;
    }

    /// The counter bomb; see `counter_bomb_step`.
    pub fn tick_n206_counter_bomb(&mut self, state: &mut SharedGameState, players: &[Player; 2])
        requires
            counter_bomb_tickable(*old(self), *players),
        ensures
            (*final(self), final(state)@) == counter_bomb_step(*old(self), old(state)@, *players),
    {
        match self.action_num {
            0 | 1 => {
                if self.action_num == 0 {
                    self.action_num = 1;
                    self.target_x = self.x;
                    self.target_y = self.y;
                    self.action_counter3 = 120;
                    self.action_counter = self.rng.range(0..50) as u16;
                }
                self.action_counter += 1;
                if self.action_counter >= 50 {
                    self.action_counter = 0;
                    self.action_num = 2;
                    self.vel_y = 0x300;
                }
            },
            2 => {
                let p = players[self.get_closest_player_idx(players)];
                if p.x > self.x - 0xa000 && p.x < self.x + 0xa000 {
                    self.action_counter = 0;
                    self.action_num = 3;
                }
                if self.shock > 0 {
                    self.action_counter = 0;
                    self.action_num = 3;
                }
            },
            3 => self.bomb_countdown_exec(state),
            _ => {},
        }
        if self.action_num > 1 {
            if self.target_y < self.y {
                self.vel_y -= 0x10;
            }
            if self.target_y > self.y {
                self.vel_y += 0x10;
            }
            self.vel_y = clamp_i32(self.vel_y, -0x100, 0x100);
        }
        self.x += self.vel_x;
        self.y += self.vel_y;
        self.animate(4, 0, 2);
        self.anim_rect = self.anim_num;
    }

    /// A countdown number of the counter bomb; see `countdown_step`.
    pub fn tick_n207_counter_bomb_countdown(&mut self, state: &mut SharedGameState)
        requires
            npc_coord_ok(old(self).x),
            old(self).action_num <= 2 ==> old(self).action_counter < u16::MAX,
        ensures
            (*final(self), final(state)@) == countdown_step(*old(self), old(state)@),
    {
        match self.action_num {
            0 | 1 => {
                if self.action_num == 0 {
                    self.action_num = 1;
                    self.anim_num = self.tsc_direction;
                    state.play_sfx(43);
                }
                self.x += 0x200;
                self.action_counter += 1;
                if self.action_counter > 8 {
                    self.action_num = 2;
                    self.action_counter = 0;
                }
            },
            2 => {
                self.action_counter += 1;
                if self.action_counter > 30 {
                    self.cond.set_alive(false);
                }
            },
            _ => {},
        }
        self.anim_rect = self.anim_num % 5;
    }
}

} // verus!
