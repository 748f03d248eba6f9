//! The First Cave: its critters (and the hopping critter they share with
//! the Egg Corridor), bats and the eye door.

use vstd::prelude::*;

use crate::common::{spec_vector_x, Direction};
use crate::game_state::{with_sound, SharedGameState, StateView};
use crate::npc::ai::last_cave::face_player;
use crate::npc::ai::misery::{clamp, clamp_i32, tick_counter};
use crate::npc::ai::{dir_frame, npc_coord_ok};
use crate::npc::{closest_player, roll, Player, FLAG_HIT_BOTTOM_WALL, NPC};

verus! {

/// States 0 and 1 of a hopping critter: crouching, facing the player; it
/// wakes up over its first 100 ticks (counted in `target_x`); rested for 8
/// ticks it watches a player near it (else, when `settles`, it crouches
/// back down), and leaps when awake and they come within `lx` across, `up`
/// above and `down` below it, or when shot.
pub open spec fn critter_waiting(n: NPC, players: [Player; 2], lx: int, up: int, down: int, settles: bool) -> NPC {
    let b0 = if n.action_num == 0 { NPC { y: (n.y + 0x600) as i32, action_num: 1, anim_num: 0, ..n } } else { n };
    let p = players[closest_player(b0.x, b0.y, players) as int];
    let b1 = face_player(b0, p);
    let b2 = if b1.target_x < 100 { NPC { target_x: (b1.target_x + 1) as i32, ..b1 } } else { b1 };
    let watching = b2.action_counter >= 8 && b2.x - 0xe000 < p.x && b2.x + 0xe000 > p.x && b2.y - 0xa000 < p.y
        && b2.y + 0xa000 > p.y;
    let b3 = if watching {
        NPC { anim_num: 1, ..b2 }
    } else {
        NPC {
            action_counter: if b2.action_counter < 8 { (b2.action_counter + 1) as u16 } else { b2.action_counter },
            anim_num: if settles { 0 } else { b2.anim_num },
            ..b2
        }
    };
    let b4 = if b3.shock > 0 { NPC { action_num: 2, action_counter: 0, anim_num: 0, ..b3 } } else { b3 };
    let close = b4.action_counter >= 8 && b4.target_x >= 100 && b4.x - lx < p.x && b4.x + lx > p.x && b4.y - up < p.y
        && b4.y + down > p.y;
    if close { NPC { action_num: 2, action_counter: 0, anim_num: 0, ..b4 } } else { b4 }
}

/// One tick of a hopping critter: waiting; after 8 ticks of crouching a
/// leap towards where it faces; landing back to waiting; then gravity,
/// fall speed capped at 3 pixels, movement and the frame (right-facing
/// frames start 3 in).
pub open spec fn critter_step(n: NPC, st: StateView, players: [Player; 2], lx: int, up: int, down: int, settles: bool) -> (NPC, StateView) {
    let k = n.action_num;
    let (a, s) = if k == 0 || k == 1 {
        (critter_waiting(n, players, lx, up, down, settles), st)
    } else if k == 2 {
        let c = tick_counter(n);
        if c.action_counter > 8 {
            (
                NPC { action_num: 3, anim_num: 2, vel_x: (spec_vector_x(c.direction) * 0x100) as i32, vel_y: -0x5ffi32, ..c },
                with_sound(st, 30),
            )
        } else {
            (c, st)
        }
    } else if k == 3 && n.flags.0 & FLAG_HIT_BOTTOM_WALL != 0 {
        (NPC { vel_x: 0, anim_num: 0, action_counter: 0, action_num: 1, ..n }, with_sound(st, 23))
    } else {
        (n, st)
    };
    let vy0 = a.vel_y + 0x40;
    let vy = if vy0 > 0x5ff { 0x5ff } else { vy0 };
    let m = NPC { vel_y: vy as i32, x: (a.x + a.vel_x) as i32, y: (a.y + vy) as i32, ..a };
    (NPC { anim_rect: dir_frame(m, 3), ..m }, s)
}

/// Inputs a tick of a hopping critter computes in range on.
pub open spec fn critter_tickable(n: NPC, players: [Player; 2]) -> bool {
    &&& npc_coord_ok(n.x)
    &&& npc_coord_ok(n.y)
    &&& npc_coord_ok(n.vel_x)
    &&& npc_coord_ok(n.vel_y)
    &&& npc_coord_ok(players[0].x)
    &&& npc_coord_ok(players[0].y)
    &&& npc_coord_ok(players[1].x)
    &&& npc_coord_ok(players[1].y)
    &&& n.action_num == 2 ==> n.action_counter < u16::MAX
    &&& n.anim_num <= u16::MAX - 3
}

/// One tick of the First Cave bat: it hangs still for the rest of 50 ticks
/// from a random start (0, 1), then flutters about its height, facing the
/// player (2); it moves, and every other tick shows the next of frames 0
/// to 2 (right-facing frames start 4 in).
pub open spec fn cave_bat_step(n: NPC, players: [Player; 2]) -> NPC {
    let k = n.action_num;
    let a = if k == 0 || k == 1 {
        let b = if k == 0 {
            let (r, m) = roll(n, 0i32, 50i32);
            NPC { target_x: n.x, target_y: n.y, action_num: 1, action_counter: r as u16, ..m }
        } else {
            n
        };
        let c = tick_counter(b);
        if c.action_counter >= 50 { NPC { action_num: 2, action_counter: 0, vel_y: 0x300, ..c } } else { c }
    } else if k == 2 {
        let p = players[closest_player(n.x, n.y, players) as int];
        let b = NPC { direction: if n.x > p.x { Direction::Left } else { Direction::Right }, ..n };
        let v = if b.target_y < b.y { b.vel_y - 0x10 } else if b.target_y > b.y { b.vel_y + 0x10 } else { b.vel_y as int };
        NPC { vel_y: clamp(v, -0x300, 0x300) as i32, ..b }
    } else {
        n
    };
    let m = NPC { x: (a.x + a.vel_x) as i32, y: (a.y + a.vel_y) as i32, ..a };
    let c0 = (m.anim_counter + 1) as u16;
    if c0 > 1 {
        let f = (m.anim_num + 1) as u16;
        let g = if f > 2 { 0u16 } else { f };
        NPC { anim_counter: 0, anim_num: g, anim_rect: if m.direction == Direction::Right { (g + 4) as u16 } else { g }, ..m }
    } else {
        NPC { anim_counter: c0, ..m }
    }
}

/// Inputs a tick of the First Cave bat computes in range on.
pub open spec fn cave_bat_tickable(n: NPC, players: [Player; 2]) -> bool {
    &&& npc_coord_ok(n.x)
    &&& npc_coord_ok(n.y)
    &&& npc_coord_ok(n.vel_x)
    &&& npc_coord_ok(n.vel_y)
    &&& npc_coord_ok(players[0].x)
    &&& npc_coord_ok(players[0].y)
    &&& npc_coord_ok(players[1].x)
    &&& npc_coord_ok(players[1].y)
    &&& n.action_num == 1 ==> n.action_counter < u16::MAX
    &&& n.anim_counter < u16::MAX
    &&& n.anim_num < u16::MAX
}

impl NPC {
    /// The First Cave critter: a hopping critter that leaps at a player
    /// within 64 pixels across, 80 above or 48 below; see `critter_step`.
    pub fn tick_n064_first_cave_critter(&mut self, state: &mut SharedGameState, players: &[Player; 2])
        requires
            critter_tickable(*old(self), *players),
        ensures
            (*final(self), final(state)@) == critter_step(*old(self), old(state)@, *players, 0x8000, 0xa000, 0x6000, true),
    {
        self.hopping_critter_exec(state, players, 0x8000, 0xa000, 0x6000, true);
    }

    /// States 0 and 1 of a hopping critter; see `critter_waiting`.
    pub(crate) fn critter_waiting_exec(&mut self, players: &[Player; 2], lx: i32, up: i32, down: i32, settles: bool)
        requires
            critter_tickable(*old(self), *players),
            old(self).action_num == 0 || old(self).action_num == 1,
            0 <= lx <= 0x10000,
            0 <= up <= 0x10000,
            0 <= down <= 0x10000,
        ensures
            *final(self) == critter_waiting(*old(self), *players, lx as int, up as int, down as int, settles),
    {
        if self.action_num == 0 {
            self.y += 0x600;
            self.action_num = 1;
            self.anim_num = 0;
        }
        let p = players[self.get_closest_player_idx(players)];
        self.face_player(&p);
        if self.target_x < 100 {
            self.target_x += 1;
        }
        if self.action_counter >= 8 && self.x - 0xe000 < p.x && self.x + 0xe000 > p.x && self.y - 0xa000 < p.y
            && self.y + 0xa000 > p.y {
            self.anim_num = 1;
        } else {
            if self.action_counter < 8 {
                self.action_counter += 1;
            }
            if settles {
                self.anim_num = 0;
            }
        }
        if self.shock > 0 {
            self.action_num = 2;
            self.action_counter = 0;
            self.anim_num = 0;
        }
        if self.action_counter >= 8 && self.target_x >= 100 && self.x - lx < p.x && self.x + lx > p.x
            && self.y - up < p.y && self.y + down > p.y {
            self.action_num = 2;
            self.action_counter = 0;
            self.anim_num = 0;
        }
    }

    /// A hopping critter; see `critter_step`.
    pub(crate) fn hopping_critter_exec(
        &mut self,
        state: &mut SharedGameState,
        players: &[Player; 2],
        lx: i32,
        up: i32,
        down: i32,
        settles: bool,
    )
        requires
            critter_tickable(*old(self), *players),
            0 <= lx <= 0x10000,
            0 <= up <= 0x10000,
            0 <= down <= 0x10000,
        ensures
            (*final(self), final(state)@) == critter_step(*old(self), old(state)@, *players, lx as int, up as int, down as int, settles),
    {
        match self.action_num {
            0 | 1 => self.critter_waiting_exec(players, lx, up, down, settles),
            2 => {
                self.action_counter += 1;
                if self.action_counter > 8 {
                    self.action_num = 3;
                    self.anim_num = 2;
                    self.vel_x = self.direction.vector_x() * 0x100;
                    self.vel_y = -0x5ff;
                    state.play_sfx(30);
                }
            },
            3 => {
                if self.flags.hit_bottom_wall() {
                    self.vel_x = 0;
                    self.anim_num = 0;
                    self.action_counter = 0;
                    self.action_num = 1;
                    state.play_sfx(23);
                }
            },
            _ => {},
        }
        self.vel_y += 0x40;
        self.clamp_fall_speed();
        self.x += self.vel_x;
        self.y += self.vel_y;
        self.anim_rect = if self.direction == Direction::Left {
            self.anim_num
        } else {
            self.anim_num + 3
        };
    }

    /// The First Cave bat; see `cave_bat_step`.
    pub fn tick_n065_first_cave_bat(&mut self, players: &[Player; 2])
        requires
            cave_bat_tickable(*old(self), *players),
        ensures
            *final(self) == cave_bat_step(*old(self), *players),
    {
        match self.action_num {
            0 | 1 => {
                if self.action_num == 0 {
                    self.target_x = self.x;
                    self.target_y = self.y;
                    self.action_num = 1;
                    self.action_counter = self.rng.range(0..50) as u16;
                }
                self.action_counter += 1;
                if self.action_counter >= 50 {
                    self.action_num = 2;
                    self.action_counter = 0;
                    self.vel_y = 0x300;
                }
            },
            2 => {
                let p = players[self.get_closest_player_idx(players)];
                self.direction = if self.x > p.x {
                    Direction::Left
                } else {
                    Direction::Right
                };
                if self.target_y < self.y {
                    self.vel_y -= 0x10;
                } else if self.target_y > self.y {
                    self.vel_y += 0x10;
                }
                self.vel_y = clamp_i32(self.vel_y, -0x300, 0x300);
            },
            _ => {},
        }
        self.x += self.vel_x;
        self.y += self.vel_y;
        self.anim_counter += 1;
        if self.anim_counter > 1 {
            self.anim_counter = 0;
            self.anim_num += 1;
            if self.anim_num > 2 {
                self.anim_num = 0;
            }
            self.anim_rect = if self.direction == Direction::Right {
                self.anim_num + 4
            } else {
                self.anim_num
            };
        }
    }
}


/// Whether the nearest player is within 64 pixels of the door's eye each
/// way.
pub open spec fn eye_sees(n: NPC, players: [Player; 2]) -> bool {
    let p = players[closest_player(n.x, n.y, players) as int];
    n.x - 0x8000 < p.x && n.x + 0x8000 > p.x && n.y - 0x8000 < p.y && n.y + 0x8000 > p.y
}

/// One tick of the eye door: closed (0, 1) until a player comes within 64
/// pixels; opening a frame every three ticks (2) up to frame 2; open (3)
/// while the player stays near; closing the same way (4) back to frame 0;
/// frame 3 while hurt.
pub open spec fn eye_door_step(n: NPC, players: [Player; 2]) -> NPC {
    let k = n.action_num;
    let a = if k == 0 || k == 1 {
        let b = NPC { action_num: 1, ..n };
        if eye_sees(b, players) { NPC { action_num: 2, anim_counter: 0, ..b } } else { b }
    } else if k == 2 {
        if n.anim_counter + 1 > 2 {
            let f = (n.anim_num + 1) as u16;
            NPC { anim_counter: 0, anim_num: f, action_num: if f == 2 { 3 } else { 2 }, ..n }
        } else {
            NPC { anim_counter: (n.anim_counter + 1) as u16, ..n }
        }
    } else if k == 3 {
        if !eye_sees(n, players) { NPC { action_num: 4, anim_counter: 0, ..n } } else { n }
    } else if k == 4 {
        if n.anim_counter + 1 > 2 {
            let f = (n.anim_num - 1) as u16;
            NPC { anim_counter: 0, anim_num: f, action_num: if f == 0 { 1 } else { 4 }, ..n }
        } else {
            NPC { anim_counter: (n.anim_counter + 1) as u16, ..n }
        }
    } else {
        n
    };
    NPC { anim_rect: if a.shock > 0 { 3 } else { a.anim_num }, ..a }
}

impl NPC {
    /// The eye door; see `eye_door_step`.
    pub fn tick_n059_eye_door(&mut self, players: &[Player; 2])
        requires
            npc_coord_ok(old(self).x),
            npc_coord_ok(old(self).y),
            old(self).action_num == 2 || old(self).action_num == 4 ==> old(self).anim_counter < u16::MAX,
            old(self).action_num == 2 ==> old(self).anim_num < u16::MAX,
            old(self).action_num == 4 && old(self).anim_counter >= 2 ==> old(self).anim_num > 0,
        ensures
            *final(self) == eye_door_step(*old(self), *players),
    {
        let k = self.action_num;
        if k == 0 || k == 1 {
            self.action_num = 1;
            let p = players[self.get_closest_player_idx(players)];
            if self.x - 0x8000 < p.x && self.x + 0x8000 > p.x && self.y - 0x8000 < p.y && self.y + 0x8000 > p.y {
                self.action_num = 2;
                self.anim_counter = 0;
            }
        } else if k == 2 {
            self.anim_counter += 1;
            if self.anim_counter > 2 {
                self.anim_counter = 0;
                self.anim_num += 1;
                if self.anim_num == 2 {
                    self.action_num = 3;
                }
            }
        } else if k == 3 {
            let p = players[self.get_closest_player_idx(players)];
            if !(self.x - 0x8000 < p.x && self.x + 0x8000 > p.x && self.y - 0x8000 < p.y && self.y + 0x8000 > p.y) {
                self.action_num = 4;
                self.anim_counter = 0;
            }
        } else if k == 4 {
            self.anim_counter += 1;
            if self.anim_counter > 2 {
                self.anim_counter = 0;
                self.anim_num -= 1;
                if self.anim_num == 0 {
                    self.action_num = 1;
                }
            }
        }
        self.anim_rect = if self.shock > 0 {
            3
        } else {
            self.anim_num
        };
    }
}

} // verus!
