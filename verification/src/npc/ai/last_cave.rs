//! The Last Cave: red critters, the bat and lava-drop generators, and the
//! red demon.

use vstd::prelude::*;

use crate::common::Direction;
use crate::game_state::{with_aim, with_smoke, with_sound, with_spawn, with_xp_drop, DeathSmoke, SharedGameState, StateView};
use crate::npc::ai::misery::{shootable, tick_counter};
use crate::npc::ai::{dir_frame, npc_coord_ok, scale_i32, trunc_div};
use crate::npc::core_boss::fresh;
use crate::npc::{closest_player, roll, spec_animate, Player, FLAG_HIT_BOTTOM_WALL, NPC};

verus! {

/// Facing the player: left when the entity is right of them.
pub open spec fn face_player(n: NPC, p: Player) -> NPC {
    NPC { direction: if n.x > p.x { Direction::Left } else { Direction::Right }, ..n }
}

/// States 0 and 1 of the red critter: crouching, facing the player; rested
/// for 8 ticks it watches a player near it, and leaps when they come
/// closer or when shot.
pub open spec fn critter_red_waiting(n: NPC, players: [Player; 2]) -> NPC {
    let b0 = if n.action_num == 0 { NPC { y: (n.y + 0x600) as i32, action_num: 1, anim_num: 0, ..n } } else { n };
    let p = players[closest_player(b0.x, b0.y, players) as int];
    let b1 = face_player(b0, p);
    let watching = b1.action_counter >= 8 && b1.x - 0x12000 < p.x && b1.x + 0x12000 > p.x && b1.y - 0xa000 < p.y
        && b1.y + 0xa000 > p.y;
    let b2 = if watching {
        NPC { anim_num: 1, ..b1 }
    } else {
        NPC { action_counter: if b1.action_counter < 8 { (b1.action_counter + 1) as u16 } else { b1.action_counter }, anim_num: 0, ..b1 }
    };
    let b3 = if b2.shock > 0 { NPC { action_num: 2, action_counter: 0, anim_num: 0, ..b2 } } else { b2 };
    let close = b3.action_counter >= 8 && b3.x - 0xc000 < p.x && b3.x + 0xc000 > p.x && b3.y - 0xa000 < p.y
        && b3.y + 0xc000 > p.y;
    if close { NPC { action_num: 2, action_counter: 0, anim_num: 0, ..b3 } } else { b3 }
}

/// One tick of the red critter: the state's step (waiting; after 8 ticks of
/// crouching a leap towards where it faces; landing back to waiting),
/// gravity, fall speed capped at 3 pixels, movement and the frame
/// (right-facing frames start 3 in).
pub open spec fn critter_red_step(n: NPC, st: StateView, players: [Player; 2]) -> (NPC, StateView) {
    let k = n.action_num;
    let (a, s) = if k == 0 || k == 1 {
        (critter_red_waiting(n, players), st)
    } else if k == 2 {
        let c = tick_counter(n);
        if c.action_counter > 8 {
            (
                NPC {
                    action_num: 3,
                    anim_num: 2,
                    vel_y: -0x5ffi32,
                    vel_x: if c.direction == Direction::Left { -0x200i32 } else { 0x200i32 },
                    ..c
                },
                with_sound(st, 30),
            )
        } else {
            (c, st)
        }
    } else if k == 3 && n.flags.0 & FLAG_HIT_BOTTOM_WALL != 0 {
        (NPC { vel_x: 0, action_counter: 0, action_num: 1, anim_num: 0, ..n }, with_sound(st, 23))
    } else {
        (n, st)
    };
    let vy0 = a.vel_y + 0x55;
    let vy = if vy0 > 0x5ff { 0x5ff } else { vy0 };
    let m = NPC { vel_y: vy as i32, x: (a.x + a.vel_x) as i32, y: (a.y + vy) as i32, ..a };
    (NPC { anim_rect: dir_frame(m, 3), ..m }, s)
}

/// Inputs a tick of the red critter computes in range on.
pub open spec fn critter_red_tickable(n: NPC, players: [Player; 2]) -> bool {
    &&& npc_coord_ok(n.x)
    &&& npc_coord_ok(n.y)
    &&& npc_coord_ok(n.vel_x)
    &&& npc_coord_ok(n.vel_y)
    &&& npc_coord_ok(players[0].x)
    &&& npc_coord_ok(players[0].y)
    &&& npc_coord_ok(players[1].x)
    &&& npc_coord_ok(players[1].y)
    &&& n.action_num == 2 ==> n.action_counter < u16::MAX
    &&& n.anim_num <= u16::MAX - 3
}

/// One tick of the bat generator: it waits a random 0 to 500 ticks, then
/// sends a bat (type 242) its way, up to 32 pixels above or below it, and
/// starts over.
pub open spec fn bat_generator_step(n: NPC, st: StateView) -> (NPC, StateView) {
    let k = n.action_num;
    if k == 0 || k == 1 {
        let b = if k == 0 {
            let (r, m) = roll(n, 0i32, 500i32);
            NPC { action_num: 1, action_counter: r as u16, ..m }
        } else {
            n
        };
        if b.action_counter > 0 {
            (NPC { action_counter: (b.action_counter - 1) as u16, ..b }, st)
        } else {
            let (ry, m) = roll(NPC { action_num: 0, ..b }, -32i32, 32i32);
            (m, with_spawn(st, 0x100, NPC { direction: b.direction, ..fresh(st, 242, b.x as int, b.y + ry * 0x200) }))
        }
    } else {
        (n, st)
    }
}

/// One tick of the lava-drop generator: it waits `event_num` ticks the
/// first time and `flag_num` ticks after each drop; then it swells over
/// four frames of 11 ticks, trembling, and lets a drop (type 244) fall.
/// While it waits it keeps still.
pub open spec fn lava_generator_step(n: NPC, st: StateView) -> (NPC, StateView) {
    let k = n.action_num;
    let (a, s, waiting) = if k == 0 || k == 1 {
        let b = NPC { anim_num: 0, ..if k == 0 { NPC { action_num: 1, target_x: n.x, action_counter: n.event_num, ..n } } else { n } };
        if b.action_counter > 0 {
            (NPC { action_counter: (b.action_counter - 1) as u16, ..b }, st, true)
        } else {
            (NPC { action_num: 10, anim_counter: 0, ..b }, st, false)
        }
    } else if k == 10 {
        let c0 = (n.anim_counter + 1) as u16;
        if c0 > 10 {
            let f = (n.anim_num + 1) as u16;
            if f > 3 {
                (
                    NPC { anim_counter: 0, anim_num: 0, action_num: 1, action_counter: n.flag_num, ..n },
                    with_spawn(st, 0x100, fresh(st, 244, n.x as int, n.y as int)),
                    false,
                )
            } else {
                (NPC { anim_counter: 0, anim_num: f, ..n }, st, false)
            }
        } else {
            (NPC { anim_counter: c0, ..n }, st, false)
        }
    } else {
        (n, st, false)
    };
    if waiting {
        (a, s)
    } else {
        let x = if a.anim_counter & 2 != 0 { a.target_x as int } else { a.target_x + 0x200 };
        (NPC { x: x as i32, anim_rect: a.anim_num, ..a }, s)
    }
}

/// A red demon's shot (type 277) from `(x, y)`, aimed at the player at
/// 4 pixels a tick, with its sound.
pub open spec fn demon_shot(st: StateView, x: int, y: int, p: Player) -> StateView {
    with_sound(with_aim(with_spawn(st, 0x100, fresh(st, 277, x, y)), (x - p.x) as i32, (y - p.y) as i32, 0, 2048), 39)
}

/// States 10 and 11 of the red demon: standing, now shootable, it fires at
/// ticks 30, 40 and 50; after 60 ticks it crouches (20).
pub open spec fn demon_volley(n: NPC, st: StateView, p: Player) -> (NPC, StateView) {
    let a = if n.action_num == 10 { NPC { action_num: 11, anim_num: 3, action_counter: 0, ..shootable(n, true) } } else { n };
    let c = tick_counter(a);
    let t = c.action_counter;
    let (d, s) = if t == 30 || t == 40 || t == 50 {
        (NPC { anim_num: 4, ..c }, demon_shot(st, c.x as int, c.y as int, p))
    } else if t == 34 || t == 44 || t == 54 {
        (NPC { anim_num: 3, ..c }, st)
    } else {
        (c, st)
    };
    (if d.action_counter > 60 { NPC { action_num: 20, action_counter: 0, anim_num: 2, ..d } } else { d }, s)
}

/// State 21 of the red demon: in a leap, firing from its raised hand at
/// ticks 30, 40 and 50; landing shakes the room and it crouches (22).
pub open spec fn demon_leap(n: NPC, st: StateView, p: Player) -> (NPC, StateView) {
    let c = tick_counter(n);
    let t = c.action_counter;
    let (d, s) = if t == 30 || t == 40 || t == 50 {
        (NPC { anim_num: 6, ..c }, demon_shot(st, c.x as int, c.y - 0x1400, p))
    } else if t == 34 || t == 44 {
        (NPC { anim_num: 5, ..c }, st)
    } else {
        (c, st)
    };
    let e = if d.action_counter > 53 { NPC { anim_num: 7, ..d } } else { d };
    if e.flags.0 & FLAG_HIT_BOTTOM_WALL != 0 {
        (
            NPC { action_num: 22, action_counter: 0, anim_num: 2, ..e },
            with_sound(StateView { quake_counter: 10, quake_rumble_counter: 10, ..s }, 26),
        )
    } else {
        (e, s)
    }
}

/// The red demon's states before the movement.
pub open spec fn demon_action(n: NPC, st: StateView, players: [Player; 2]) -> (NPC, StateView) {
    let k = n.action_num;
    let p = players[closest_player(n.x, n.y, players) as int];
    if k == 0 || k == 1 || k == 2 {
        let b0 = if k == 0 { NPC { action_num: 1, y: (n.y - 0x1000) as i32, ..n } } else { n };
        let b1 = if b0.action_num == 1 { NPC { vel_x: 0, action_num: 2, anim_num: 0, ..b0 } } else { b0 };
        let b2 = spec_animate(face_player(b1, players[closest_player(b1.x, b1.y, players) as int]), 20, 0, 1);
        (if b2.shock > 0 { NPC { action_num: 10, ..b2 } } else { b2 }, st)
    } else if k == 10 || k == 11 {
        demon_volley(n, st, p)
    } else if k == 20 {
        let c = tick_counter(n);
        (if c.action_counter > 20 {
            NPC { action_num: 21, action_counter: 0, anim_num: 5, vel_y: -0x5ffi32, vel_x: if c.x < p.x { 0x100i32 } else { -0x100i32 }, ..c }
        } else {
            c
        }, st)
    } else if k == 21 {
        demon_leap(n, st, p)
    } else if k == 22 {
        let c = tick_counter(NPC { vel_x: trunc_div(1 * n.vel_x, 2) as i32, ..n });
        (if c.action_counter > 22 { NPC { action_num: 10, ..c } } else { c }, st)
    } else if k == 50 {
        let a = NPC { damage: 0, ..shootable(n, false) };
        if a.flags.0 & FLAG_HIT_BOTTOM_WALL != 0 {
            let s0 = with_sound(StateView { quake_counter: 10, quake_rumble_counter: 10, ..st }, 72);
            (
                NPC { action_num: 51, action_counter: 0, anim_num: 2, ..a },
                with_smoke(with_xp_drop(s0, a.x, a.y, 19), DeathSmoke { x: a.x, y: a.y, radius: a.display_bounds.right as usize, amount: 8 }),
            )
        } else {
            (a, st)
        }
    } else if k == 51 {
        (NPC { vel_x: trunc_div(7 * n.vel_x, 8) as i32, anim_num: 8, ..n }, st)
    } else {
        (n, st)
    }
}

/// One tick of the red demon: its state (waiting until shot; volleys of
/// three aimed shots; leaps with three more; on defeat, 19 experience and
/// smoke as it lands), gravity, fall speed capped at 3 pixels, movement,
/// facing the player while it fights, and the frame (right-facing frames
/// start 9 in).
pub open spec fn red_demon_step(n: NPC, st: StateView, players: [Player; 2]) -> (NPC, StateView) {
    let (a, s) = demon_action(n, st, players);
    let vy0 = a.vel_y + 0x20;
    let vy = if vy0 > 0x5ff { 0x5ff } else { vy0 };
    let m = NPC { vel_y: vy as i32, x: (a.x + a.vel_x) as i32, y: (a.y + vy) as i32, ..a };
    let q = players[closest_player(m.x, m.y, players) as int];
    let f = if m.action_num < 50 { NPC { direction: if m.x < q.x { Direction::Right } else { Direction::Left }, ..m } } else { m };
    (NPC { anim_rect: dir_frame(f, 9), ..f }, s)
}

/// Inputs a tick of the red demon computes in range on.
pub open spec fn red_demon_tickable(n: NPC, players: [Player; 2]) -> bool {
    let k = n.action_num;
    &&& npc_coord_ok(n.x)
    &&& npc_coord_ok(n.y)
    &&& npc_coord_ok(n.vel_x)
    &&& npc_coord_ok(n.vel_y)
    &&& npc_coord_ok(players[0].x)
    &&& npc_coord_ok(players[0].y)
    &&& npc_coord_ok(players[1].x)
    &&& npc_coord_ok(players[1].y)
    &&& (k == 0 || k == 1 || k == 2) ==> n.anim_counter < u16::MAX
    &&& (k == 11 || k == 20 || k == 21 || k == 22) ==> n.action_counter < u16::MAX
    &&& n.anim_num <= u16::MAX - 9
}

impl NPC {
    /// The red critter; see `critter_red_step`.
    pub fn tick_n241_critter_red(&mut self, state: &mut SharedGameState, players: &[Player; 2])
        requires
            critter_red_tickable(*old(self), *players),
        ensures
            (*final(self), final(state)@) == critter_red_step(*old(self), old(state)@, *players),
    {
        match self.action_num {
            0 | 1 => {
                if self.action_num == 0 {
                    self.y += 0x600;
                    self.action_num = 1;
                    self.anim_num = 0;
                }
                let p = players[self.get_closest_player_idx(players)];
                self.direction = if self.x > p.x {
                    Direction::Left
                } else {
                    Direction::Right
                };
                if self.action_counter >= 8 && self.x - 0x12000 < p.x && self.x + 0x12000 > p.x && self.y - 0xa000 < p.y
                    && self.y + 0xa000 > p.y {
                    self.anim_num = 1;
                } else {
                    if self.action_counter < 8 {
                        self.action_counter += 1;
                    }
                    self.anim_num = 0;
                }
                if self.shock > 0 {
                    self.action_num = 2;
                    self.action_counter = 0;
                    self.anim_num = 0;
                }
                if self.action_counter >= 8 && self.x - 0xc000 < p.x && self.x + 0xc000 > p.x && self.y - 0xa000 < p.y
                    && self.y + 0xc000 > p.y {
                    self.action_num = 2;
                    self.action_counter = 0;
                    self.anim_num = 0;
                }
            },
            2 => {
                self.action_counter += 1;
                if self.action_counter > 8 {
                    self.action_num = 3;
                    self.anim_num = 2;
                    self.vel_y = -0x5ff;
                    state.play_sfx(30);
                    self.vel_x = if self.direction == Direction::Left {
                        -0x200
                    } else {
                        0x200
                    };
                }
            },
            3 => {
                if self.flags.hit_bottom_wall() {
                    self.vel_x = 0;
                    self.action_counter = 0;
                    self.action_num = 1;
                    self.anim_num = 0;
                    state.play_sfx(23);
                }
            },
            _ => {},
        }
        self.vel_y += 0x55;
        self.clamp_fall_speed();
        self.x += self.vel_x;
        self.y += self.vel_y;
        self.anim_rect = if self.direction == Direction::Left {
            self.anim_num
        } else {
            self.anim_num + 3
        };
    }

    /// The bat generator; see `bat_generator_step`.
    pub fn tick_n243_bat_generator(&mut self, state: &mut SharedGameState)
        requires
            npc_coord_ok(old(self).y),
        ensures
            (*final(self), final(state)@) == bat_generator_step(*old(self), old(state)@),
    {
        if self.action_num == 0 || self.action_num == 1 {
            if self.action_num == 0 {
                self.action_num = 1;
                self.action_counter = self.rng.range(0..500) as u16;
            }
            if self.action_counter > 0 {
                self.action_counter -= 1;
            } else {
                self.action_num = 0;
                let mut npc = state.create_npc(242);
                npc.cond.set_alive(true);
                npc.x = self.x;
                npc.y = self.y + self.rng.range(-32..32) * 0x200;
                npc.direction = self.direction;
                state.spawn_npc(0x100, npc);
            }
        }
    }

    /// The lava-drop generator; see `lava_generator_step`.
    pub fn tick_n245_lava_drop_generator(&mut self, state: &mut SharedGameState)
        requires
            npc_coord_ok(old(self).x),
            npc_coord_ok(old(self).target_x),
            old(self).action_num == 10 ==> old(self).anim_counter < u16::MAX && old(self).anim_num < u16::MAX,
        ensures
            (*final(self), final(state)@) == lava_generator_step(*old(self), old(state)@),
    {
        match self.action_num {
            0 | 1 => {
                if self.action_num == 0 {
                    self.action_num = 1;
                    self.target_x = self.x;
                    self.action_counter = self.event_num;
                }
                self.anim_num = 0;
                if self.action_counter > 0 {
                    self.action_counter -= 1;
                    return;
                }
                self.action_num = 10;
                self.anim_counter = 0;
            },
            10 => {
                self.anim_counter += 1;
                if self.anim_counter > 10 {
                    self.anim_counter = 0;
                    self.anim_num += 1;
                    if self.anim_num > 3 {
                        self.anim_num = 0;
                        self.action_num = 1;
                        self.action_counter = self.flag_num;
                        let mut npc = state.create_npc(244);
                        npc.cond.set_alive(true);
                        npc.x = self.x;
                        npc.y = self.y;
                        state.spawn_npc(0x100, npc);
                    }
                }
            },
            _ => {},
        }
        self.x = if (self.anim_counter & 2) != 0 {
            self.target_x
        } else {
            self.target_x + 0x200
        };
        self.anim_rect = self.anim_num;
    }

    fn demon_shot_exec(state: &mut SharedGameState, x: i32, y: i32, p: &Player)
        requires
            npc_coord_ok(x),
            -0x1000_0000 - 0x1400 <= y <= 0x1000_0000,
            npc_coord_ok(p.x),
            npc_coord_ok(p.y),
        ensures
            final(state)@ == demon_shot(old(state)@, x as int, y as int, *p),
    {
        let mut npc = state.create_npc(277);
        npc.cond.set_alive(true);
        npc.x = x;
        npc.y = y;
        state.spawn_npc(0x100, npc);
        state.aim_last_spawn(x - p.x, y - p.y, 0, 2048);
        state.play_sfx(39);
    }

    fn demon_action_exec(&mut self, state: &mut SharedGameState, players: &[Player; 2])
        requires
            red_demon_tickable(*old(self), *players),
        ensures
            (*final(self), final(state)@) == demon_action(*old(self), old(state)@, *players),
            npc_coord_ok(final(self).x),
            -0x1000_0000 - 0x1000 <= final(self).y <= 0x1000_0000,
            npc_coord_ok(final(self).vel_x),
            npc_coord_ok(final(self).vel_y),
            final(self).anim_num <= u16::MAX - 9,
    {
        let p = players[self.get_closest_player_idx(players)];
        match self.action_num {
            0 | 1 | 2 => {
                if self.action_num == 0 {
                    self.action_num = 1;
                    self.y -= 0x1000;
                }
                if self.action_num == 1 {
                    self.vel_x = 0;
                    self.action_num = 2;
                    self.anim_num = 0;
                }
                let q = players[self.get_closest_player_idx(players)];
                self.direction = if self.x > q.x {
                    Direction::Left
                } else {
                    Direction::Right
                };
                self.animate(20, 0, 1);
                if self.shock > 0 {
                    self.action_num = 10;
                }
            },
            10 | 11 => {
                if self.action_num == 10 {
                    self.action_num = 11;
                    self.anim_num = 3;
                    self.action_counter = 0;
                    self.npc_flags.set_shootable(true);
                }
                self.action_counter += 1;
                let t = self.action_counter;
                if t == 30 || t == 40 || t == 50 {
                    self.anim_num = 4;
                    NPC::demon_shot_exec(state, self.x, self.y, &p);
                } else if t == 34 || t == 44 || t == 54 {
                    self.anim_num = 3;
                }
                if self.action_counter > 60 {
                    self.action_num = 20;
                    self.action_counter = 0;
                    self.anim_num = 2;
                }
            },
            20 => {
                self.action_counter += 1;
                if self.action_counter > 20 {
                    self.action_num = 21;
                    self.action_counter = 0;
                    self.anim_num = 5;
                    self.vel_y = -0x5ff;
                    self.vel_x = if self.x < p.x {
                        0x100
                    } else {
                        -0x100
                    };
                }
            },
            21 => {
                self.action_counter += 1;
                let t = self.action_counter;
                if t == 30 || t == 40 || t == 50 {
                    self.anim_num = 6;
                    NPC::demon_shot_exec(state, self.x, self.y - 0x1400, &p);
                } else if t == 34 || t == 44 {
                    self.anim_num = 5;
                }
                if self.action_counter > 53 {
                    self.anim_num = 7;
                }
                if self.flags.hit_bottom_wall() {
                    self.action_num = 22;
                    self.action_counter = 0;
                    self.anim_num = 2;
                    state.quake_counter = 10;
                    state.quake_rumble_counter = 10;
                    state.play_sfx(26);
                }
            },
            22 => {
                self.vel_x = scale_i32(self.vel_x, 1, 2);
                self.action_counter += 1;
                if self.action_counter > 22 {
                    self.action_num = 10;
                }
            },
            50 => {
                self.npc_flags.set_shootable(false);
                self.damage = 0;
                if self.flags.hit_bottom_wall() {
                    self.action_num = 51;
                    self.action_counter = 0;
                    self.anim_num = 2;
                    state.quake_counter = 10;
                    state.quake_rumble_counter = 10;
                    state.play_sfx(72);
                    state.create_xp_drop(self.x, self.y, 19);
                    state.create_death_smoke(self.x, self.y, self.display_bounds.right as usize, 8);
                }
            },
            51 => {
                self.vel_x = scale_i32(self.vel_x, 7, 8);
                self.anim_num = 8;
            },
            _ => {},
        }
    }

    /// The red demon; see `red_demon_step`.
    pub fn tick_n276_red_demon(&mut self, state: &mut SharedGameState, players: &[Player; 2])
        requires
            red_demon_tickable(*old(self), *players),
        ensures
            (*final(self), final(state)@) == red_demon_step(*old(self), old(state)@, *players),
    {
        self.demon_action_exec(state, players);
        self.vel_y += 0x20;
        self.clamp_fall_speed();
        self.x += self.vel_x;
        self.y += self.vel_y;
        if self.action_num < 50 {
            let q = players[self.get_closest_player_idx(players)];
            self.direction = if self.x < q.x {
                Direction::Right
            } else {
                Direction::Left
            };
        }
        self.anim_rect = if self.direction == Direction::Left {
            self.anim_num
        } else {
            self.anim_num + 9
        };
    }
}

} // verus!
