//! Wind Fortress: the G-Clone boss and the Curly clones.

use vstd::prelude::*;

use crate::common::{spec_opposite, spec_vector_x, Direction};
use crate::game_state::{
    with_aim, with_smoke, with_sound, with_spawn, with_type_kill, DeathSmoke, SharedGameState,
    StateView,
};
use crate::npc::ai::balcony::alive_at;
use crate::npc::ai::balrog::capped_fall;
use crate::npc::ai::last_cave::face_player;
use crate::npc::ai::mimiga_village::ignoring_solidity;
use crate::npc::core_boss::fresh;
use crate::npc::ai::misery::{clamp, shootable, spawn_at, tick_counter};
use crate::npc::ai::{dir_frame, npc_coord_ok, scale_i32, trunc_div};
use crate::npc::{
    closest_player, roll, spec_animate, with_bits16, Condition, NPCFlag, Player, COND_ALIVE, COND_EXPLODE_DIE,
    COND_HIDDEN, FLAG_HIT_BOTTOM_WALL, FLAG_HIT_LEFT_WALL, FLAG_HIT_RIGHT_WALL, NPC, NPC_INVULNERABLE,
};

verus! {

pub open spec fn invulnerable(n: NPC) -> NPC {
    NPC { npc_flags: NPCFlag(with_bits16(n.npc_flags.0, NPC_INVULNERABLE, true)), ..n }
}

/// A Curly clone dropped from the top at a random column between 62 and 78.
pub open spec fn gclone_drop_clone(n: NPC, st: StateView) -> (NPC, StateView) {
    let (c, m) = roll(n, 62i32, 78i32);
    (m, with_sound(spawn_at(st, 369, c * 0x2000, 0x1000, Direction::Right), 4))
}

/// A frame step back towards frame 0, every third call.
pub open spec fn close_step(n: NPC) -> NPC {
    let c = (n.anim_counter + 1) as u16;
    if c > 2 {
        NPC { anim_counter: 0, anim_num: if n.anim_num > 0 { (n.anim_num - 1) as u16 } else { 0 }, ..n }
    } else {
        NPC { anim_counter: c, ..n }
    }
}

pub open spec fn wrap_inc(v: u16) -> u16 {
    vstd::wrapping::u16_specs::wrapping_add(v, 1)
}

/// The shell sequence, counted in `action_counter2`: at 300 health the
/// shell closes (shots bounce) and a clone drops; it opens again after 500
/// ticks; the same at 200 health (the clone at 200, the closing at 100).
pub open spec fn gclone_shell(n: NPC, st: StateView) -> (NPC, StateView) {
    let k = n.action_counter2;
    if k == 0 {
        if n.life < 300 {
            gclone_drop_clone(NPC { action_counter2: 1, ..shootable(n, false) }, st)
        } else {
            (n, st)
        }
    } else if k == 1 {
        if n.anim_num <= 2 {
            let c = (n.anim_counter + 1) as u16;
            (
                if c >= 2 {
                    NPC { anim_counter: 0, anim_num: (n.anim_num + 1) as u16, ..n }
                } else {
                    NPC { anim_counter: c, ..n }
                },
                st,
            )
        } else {
            (NPC { anim_num: 2, action_counter2: 2, ..n }, st)
        }
    } else if k == 2 {
        let t = wrap_inc(n.action_counter3);
        if t >= 500 {
            (close_step(NPC { action_counter3: 0, action_counter2: 3, ..n }), st)
        } else {
            (NPC { action_counter3: t, ..n }, st)
        }
    } else if k == 3 {
        if n.anim_num > 0 {
            (close_step(n), st)
        } else {
            (NPC { action_counter2: 4, ..shootable(n, true) }, with_sound(st, 4))
        }
    } else if k == 4 {
        if n.life < 200 {
            gclone_drop_clone(NPC { action_counter2: 5, ..n }, st)
        } else {
            (n, st)
        }
    } else if k == 5 {
        if n.life >= 100 {
            gclone_drop_clone(NPC { action_counter2: 6, ..shootable(n, false) }, st)
        } else {
            (n, st)
        }
    } else if k == 6 {
        (if n.anim_num == 2 { NPC { action_counter2: 7, ..n } } else { spec_animate(n, 2, 0, 2) }, st)
    } else if k == 7 {
        let t = wrap_inc(n.action_counter3);
        let a = NPC { action_counter3: t, ..n };
        if t >= 500 {
            if a.anim_num == 0 {
                (NPC { action_counter2: 9, ..shootable(a, true) }, st)
            } else {
                (close_step(NPC { action_counter2: 8, ..a }), st)
            }
        } else {
            (a, st)
        }
    } else if k == 8 {
        if n.anim_num == 0 {
            (NPC { action_counter2: 9, anim_num: 0, ..shootable(n, true) }, st)
        } else {
            (close_step(n), st)
        }
    } else {
        (n, st)
    }
}

/// The action step of the G-Clone.
pub open spec fn gclone_action(n: NPC, st: StateView, p: Player) -> (NPC, StateView) {
    let k = n.action_num;
    if k == 0 || k == 1 {
        let (a, st) = if k == 0 {
            (
                NPC { x: (n.x - 0x800) as i32, y: (n.y + 0x1400) as i32, action_num: 1, action_counter2: 0, ..n },
                with_sound(st, 29),
            )
        } else {
            (n, st)
        };
        let b = NPC { anim_counter: (a.anim_counter + 1) as u16, ..tick_counter(a) };
        (if b.action_counter >= 50 { NPC { action_num: 100, anim_num: 0, ..b } } else { b }, st)
    } else if k == 100 {
        (NPC { action_num: 101, action_counter: 1, ..invulnerable(n) }, st)
    } else if k == 101 {
        let b = tick_counter(n);
        (if b.action_counter >= 150 { NPC { action_counter: 0, action_num: 110, ..b } } else { b }, st)
    } else if k == 110 {
        let b = tick_counter(n);
        let (c, st) = if b.action_counter > 50 && b.action_counter % 6 == 1 {
            let s1 = spawn_at(st, 11, b.x - 0x3400, b.y - 0x2000, Direction::Left);
            let (j, c) = roll(b, -16i32, 16i32);
            (
                c,
                with_sound(
                    with_aim(s1, (b.x - 0x2000 - p.x) as i32, (b.y - 0x3400 - p.y) as i32, j, 1536),
                    33,
                ),
            )
        } else {
            (b, st)
        };
        (if c.action_counter > 100 { NPC { action_counter: 0, action_num: 101, ..c } } else { c }, st)
    } else if k == 500 || k == 501 {
        let a = if k == 500 {
            NPC { anim_num: 2, action_num: 501, ..invulnerable(n) }
        } else {
            n
        };
        let s1 = StateView { quake_counter: 2, quake_rumble_counter: 2, ..st };
        let b = tick_counter(a);
        let s2 = with_type_kill(if b.action_counter % 20 == 0 { with_sound(s1, 52) } else { s1 }, 369, true);
        let (rx, c) = roll(b, -32i32, 32i32);
        let (ry, d) = roll(c, -48i32, 24i32);
        let s3 = with_smoke(
            s2,
            DeathSmoke {
                x: (d.x + rx * 0x200) as i32,
                y: (d.y + ry * 0x200) as i32,
                radius: d.display_bounds.right as usize,
                amount: 8,
            },
        );
        (if d.action_counter > 100 { NPC { action_num: 510, ..d } } else { d }, s3)
    } else {
        (n, st)
    }
}

/// One tick of the G-Clone: the action step, then while fighting the shell
/// sequence, then the frame.
pub open spec fn gclone_step(n: NPC, st: StateView, players: [Player; 2]) -> (NPC, StateView) {
    let p = players[closest_player(n.x, n.y, players) as int];
    let (a, st) = gclone_action(n, st, p);
    let (b, st) = if a.action_num < 500 {
        gclone_shell(a, st)
    } else {
        (a, st)
    };
    (NPC { anim_rect: b.anim_num, ..b }, st)
}

/// Inputs a G-Clone tick computes in range on.
pub open spec fn gclone_tickable(n: NPC, players: [Player; 2]) -> bool {
    let k = n.action_num;
    &&& npc_coord_ok(n.x)
    &&& npc_coord_ok(n.y)
    &&& npc_coord_ok(players[0].x)
    &&& npc_coord_ok(players[0].y)
    &&& npc_coord_ok(players[1].x)
    &&& npc_coord_ok(players[1].y)
    &&& (k <= 1 || k == 101 || k == 110 || k == 500 || k == 501) ==> n.action_counter < u16::MAX
    &&& n.anim_counter < u16::MAX - 1
    &&& n.anim_num < u16::MAX
}

/// The player thrown out of a Curly clone's grip: set 4 pixels behind it,
/// moving up and away, visible and free again; the clone turns round.
pub open spec fn curly_release(n: NPC, p: Player) -> (NPC, Player) {
    let right = n.direction == Direction::Right;
    (
        NPC {
            direction: spec_opposite(n.direction),
            anim_num: 9,
            action_num: 51,
            action_counter: 1,
            action_counter3: 0,
            ..n
        },
        Player {
            x: (if right { n.x - 0x800 } else { n.x + 0x800 }) as i32,
            y: n.y,
            vel_x: if right { -0x5ffi32 } else { 0x5ffi32 },
            vel_y: -0x400i32,
            direction: if right { Direction::Left } else { Direction::Right },
            cond: Condition(with_bits16(p.cond.0, COND_HIDDEN, false)),
            shock_counter: 0,
            ..p
        },
    )
}

/// States 0, 1 and 10: on the ground, the clone waits until the player has
/// been more than 8 pixels away for 32 ticks.
pub open spec fn curly_wait(n: NPC, st: StateView, p: Player) -> (NPC, StateView) {
    let a = if n.action_num == 0 {
        NPC { anim_num: 0, action_num: 1, event_num: 450, ..n }
    } else {
        n
    };
    if a.action_num == 10 || a.flags.0 & FLAG_HIT_BOTTOM_WALL != 0 {
        let (b, st) = if a.action_num != 10 {
            (NPC { action_counter: 0, anim_num: 3, action_num: 10, ..a }, with_sound(st, 23))
        } else {
            (a, st)
        };
        if b.x - 0x1000 >= p.x || b.x + 0x1000 <= p.x {
            let c = tick_counter(b);
            (if c.action_counter > 32 { NPC { action_num: 11, action_counter: 2, anim_num: 0, ..c } } else { c }, st)
        } else {
            (b, st)
        }
    } else {
        (a, st)
    }
}

/// States 11 and 20: after a pause the clone runs at the player for a
/// random 100 to 150 ticks, at most 2 pixels a tick, then brakes into
/// state 30.
pub open spec fn curly_run(n: NPC, p: Player) -> NPC {
    let a = if n.action_num == 11 {
        let c = tick_counter(n);
        if c.action_counter >= 32 {
            let (r, m) = roll(c, 100i32, 150i32);
            NPC { action_num: 20, action_counter: r as u16, anim_counter: 0, ..m }
        } else {
            c
        }
    } else {
        n
    };
    if a.action_num == 20 || a.action_counter >= 32 {
        let left = a.x >= p.x;
        let v = clamp(a.vel_x + if left { -64int } else { 64int }, -1024, 1024);
        let b = spec_animate(
            NPC { direction: if left { Direction::Left } else { Direction::Right }, vel_x: v as i32, ..a },
            3,
            1,
            2,
        );
        let c = if (left && v > 0) || (!left && v < 0) {
            NPC { anim_counter: 0, ..b }
        } else {
            b
        };
        if c.action_counter <= 1 {
            NPC { anim_num: 3, vel_x: trunc_div(3 * c.vel_x, 4) as i32, action_num: 30, action_counter: 1, ..c }
        } else {
            NPC { action_counter: (c.action_counter - 1) as u16, ..c }
        }
    } else {
        a
    }
}

/// State 30: a crouch of 12 ticks, then a jump: high, or lower and forward,
/// at random.
pub open spec fn curly_jump(n: NPC, st: StateView) -> (NPC, StateView) {
    let c = tick_counter(n);
    if c.action_counter >= 12 {
        let (r, m) = roll(c, 0i32, 10i32);
        let a = if r % 2 != 0 {
            NPC { vel_y: -0x800i32, ..m }
        } else {
            NPC { vel_y: -0x400i32, vel_x: (0x5ff * spec_vector_x(m.direction)) as i32, ..m }
        };
        (NPC { anim_num: 4, damage: 0, action_num: 31, ..a }, with_sound(st, 30))
    } else {
        (c, st)
    }
}

/// State 31: in the air, bouncing off walls, until it lands (state 10).
pub open spec fn curly_airborne(n: NPC) -> NPC {
    if n.action_counter3 == 0 {
        let a = if n.flags.0 & FLAG_HIT_LEFT_WALL != 0 && n.vel_x < 0 {
            NPC { vel_x: -n.vel_x as i32, direction: Direction::Right, ..n }
        } else {
            n
        };
        let b = if a.flags.0 & FLAG_HIT_RIGHT_WALL != 0 && a.vel_x > 0 {
            NPC { vel_x: -a.vel_x as i32, direction: Direction::Left, ..a }
        } else {
            a
        };
        if b.flags.0 & FLAG_HIT_BOTTOM_WALL != 0 {
            NPC { vel_x: 0, damage: 3, anim_num: 3, action_num: 10, ..b }
        } else {
            b
        }
    } else {
        n
    }
}

/// The state that turns a Curly clone back into a plain clone.
pub open spec fn curly_retreat(n: NPC) -> NPC {
    NPC { action_counter2: 77, npc_type: 363, action_num: 0, damage: 0, event_num: 451, ..n }
}

/// The action step of a Curly clone, with the targeted player.
pub open spec fn curly_action(n: NPC, st: StateView, p: Player) -> (NPC, StateView, Player) {
    let k = n.action_num;
    if k == 0 || k == 1 || k == 10 {
        let (a, s) = curly_wait(n, st, p);
        (a, s, p)
    } else if k == 11 || k == 20 {
        (curly_run(n, p), st, p)
    } else if k == 14 {
        let c = tick_counter(n);
        (if c.action_counter >= 40 { NPC { action_num: 11, action_counter: 2, anim_num: 0, ..c } } else { c }, st, p)
    } else if k == 30 {
        let (a, s) = curly_jump(n, st);
        (a, s, p)
    } else if k == 31 {
        (curly_airborne(n), st, p)
    } else if k == 40 || k == 41 {
        if n.flags.0 & FLAG_HIT_BOTTOM_WALL != 0 {
            let a = if k == 40 { NPC { action_num: 41, ..n } } else { n };
            let c = tick_counter(spec_animate(a, 3, 7, 8));
            if c.action_counter > 100 {
                let (d, q) = curly_release(c, p);
                (d, with_sound(st, 25), q)
            } else {
                (c, st, p)
            }
        } else {
            (n, st, p)
        }
    } else if k == 50 {
        let (d, q) = curly_release(n, p);
        (d, with_sound(st, 25), q)
    } else if k == 51 {
        let c = tick_counter(n);
        (if c.action_counter > 30 { NPC { action_num: 10, ..c } } else { c }, st, p)
    } else if k == 200 {
        (curly_retreat(n), st, p)
    } else {
        (n, st, p)
    }
}

/// The grab: in the air, from its third tick on, a clone that comes within
/// 8 pixels of an unshocked player catches them (hidden inside it, shocked
/// for 180 ticks); on the Switch a Quote entity is spawned behind it.
pub open spec fn curly_grab(n: NPC, st: StateView, p: Player) -> (NPC, StateView, Player) {
    if n.action_num == 31 && n.action_counter3 == 0 && p.shock_counter == 0 {
        let b = tick_counter(n);
        if b.action_counter > 2 && b.x - 0x1000 < p.x && b.x + 0x1000 > p.x && b.y - 0x1000 < p.y
            && b.y + 0x1000 > p.y {
            let q = Player { cond: Condition(with_bits16(p.cond.0, COND_HIDDEN, true)), shock_counter: 180, ..p };
            let s = if st.is_switch {
                with_spawn(
                    st,
                    0xAA,
                    NPC { direction: q.direction, parent_id: b.id, action_num: 200, ..alive_at(st, 150, b.x as int, b.y as int) },
                )
            } else {
                st
            };
            (NPC { action_counter3: 1, action_num: 40, action_counter: 0, anim_num: 8, vel_x: 0, ..b }, s, q)
        } else {
            (b, st, p)
        }
    } else {
        (n, st, p)
    }
}

/// One tick of a Curly clone against the targeted player `p`: the action
/// step, the grab, gravity and movement, the frame (right-facing frames
/// start 10 in), and the retreat into a plain clone once its health is down
/// to 900 while the player is free.
pub open spec fn curly_clone_step(n: NPC, st: StateView, p: Player) -> (NPC, StateView, Player) {
    let (a, s1, p1) = curly_action(n, st, p);
    let (b, s2, p2) = curly_grab(a, s1, p1);
    let c = capped_fall(NPC { vel_y: (b.vel_y + 0x40) as i32, ..b });
    let d = NPC { x: (c.x + c.vel_x) as i32, y: (c.y + c.vel_y) as i32, ..c };
    let e = NPC { anim_rect: dir_frame(d, 10), ..d };
    let f = if e.life <= 900 && p2.cond.0 & COND_HIDDEN == 0 {
        NPC { action_counter3: 0, ..curly_retreat(e) }
    } else {
        e
    };
    (f, s2, p2)
}

/// Inputs a Curly clone tick computes in range on.
pub open spec fn curly_clone_tickable(n: NPC, players: [Player; 2]) -> bool {
    let k = n.action_num;
    &&& npc_coord_ok(n.x)
    &&& npc_coord_ok(n.y)
    &&& npc_coord_ok(n.vel_x)
    &&& npc_coord_ok(n.vel_y)
    &&& npc_coord_ok(players[0].x)
    &&& npc_coord_ok(players[0].y)
    &&& npc_coord_ok(players[1].x)
    &&& npc_coord_ok(players[1].y)
    &&& (k == 10 || k == 11 || k == 14 || k == 30 || k == 31 || k == 40 || k == 41 || k == 51)
        ==> n.action_counter < u16::MAX - 1
    &&& (k == 20 || k == 40 || k == 41) ==> n.anim_counter < u16::MAX
    &&& (k == 40 || k == 41 || k == 50) ==> n.direction != Direction::FacingPlayer
    &&& n.anim_num <= u16::MAX - 10
}

impl NPC {
    fn close_step_exec(&mut self)
        requires
            old(self).anim_counter < u16::MAX,
        ensures
            *final(self) == close_step(*old(self)),
    {
        self.anim_counter += 1;
        if self.anim_counter > 2 {
            self.anim_counter = 0;
            self.anim_num = self.anim_num.saturating_sub(1);
        }
    }

    fn gclone_drop_clone_exec(&mut self, state: &mut SharedGameState)
        ensures
            (*final(self), final(state)@) == gclone_drop_clone(*old(self), old(state)@),
    {
        let c = self.rng.range(62..78);
        let mut npc = state.create_npc(369);
        npc.cond.set_alive(true);
        npc.x = c * 0x2000;
        npc.y = 0x1000;
        npc.direction = Direction::Right;
        state.spawn_npc(0x100, npc);
        state.play_sfx(4);
    }

    fn gclone_shell_exec(&mut self, state: &mut SharedGameState)
        requires
            old(self).anim_counter < u16::MAX,
            old(self).anim_num < u16::MAX,
        ensures
            (*final(self), final(state)@) == gclone_shell(*old(self), old(state)@),
    {
        match self.action_counter2 {
            0 => {
                if self.life < 300 {
                    self.action_counter2 = 1;
                    self.npc_flags.set_shootable(false);
                    self.gclone_drop_clone_exec(state);
                }
            },
            1 => {
                if self.anim_num <= 2 {
                    self.anim_counter += 1;
                    if self.anim_counter >= 2 {
                        self.anim_num += 1;
                        self.anim_counter = 0;
                    }
                } else {
                    self.anim_num = 2;
                    self.action_counter2 = 2;
                }
            },
            2 => {
                self.action_counter3 = self.action_counter3.wrapping_add(1);
                if self.action_counter3 >= 500 {
                    self.action_counter3 = 0;
                    self.action_counter2 = 3;
                    self.close_step_exec();
                }
            },
            3 => {
                if self.anim_num > 0 {
                    self.close_step_exec();
                } else {
                    self.action_counter2 = 4;
                    self.npc_flags.set_shootable(true);
                    state.play_sfx(4);
                }
            },
            4 => {
                if self.life < 200 {
                    self.action_counter2 = 5;
                    self.gclone_drop_clone_exec(state);
                }
            },
            5 => {
                if self.life >= 100 {
                    self.action_counter2 = 6;
                    self.npc_flags.set_shootable(false);
                    self.gclone_drop_clone_exec(state);
                }
            },
            6 => {
                if self.anim_num == 2 {
                    self.action_counter2 = 7;
                } else {
                    self.animate(2, 0, 2);
                }
            },
            7 => {
                self.action_counter3 = self.action_counter3.wrapping_add(1);
                if self.action_counter3 >= 500 {
                    self.action_counter2 = 8;
                    if self.anim_num == 0 {
                        self.action_counter2 = 9;
                        self.npc_flags.set_shootable(true);
                    } else {
                        self.close_step_exec();
                    }
                }
            },
            8 => {
                if self.anim_num == 0 {
                    self.action_counter2 = 9;
                    self.npc_flags.set_shootable(true);
                    self.anim_num = 0;
                } else {
                    self.close_step_exec();
                }
            },
            _ => {},
        }
    }

    fn gclone_action_exec(&mut self, state: &mut SharedGameState, p: &Player)
        requires
            npc_coord_ok(old(self).x),
            npc_coord_ok(old(self).y),
            npc_coord_ok(p.x),
            npc_coord_ok(p.y),
            (old(self).action_num <= 1 || old(self).action_num == 101 || old(self).action_num == 110
                || old(self).action_num == 500 || old(self).action_num == 501) ==> old(self).action_counter < u16::MAX,
            old(self).anim_counter < u16::MAX - 1,
        ensures
            (*final(self), final(state)@) == gclone_action(*old(self), old(state)@, *p),
            final(self).anim_counter < u16::MAX,
            final(self).anim_num == old(self).anim_num || final(self).anim_num <= 2,
    {
        match self.action_num {
            0 | 1 => {
                if self.action_num == 0 {
                    state.play_sfx(29);
                    self.x -= 0x800;
                    self.y += 0x1400;
                    self.action_num = 1;
                    self.action_counter2 = 0;
                }
                self.action_counter += 1;
                self.anim_counter += 1;
                if self.action_counter >= 50 {
                    self.action_num = 100;
                    self.anim_num = 0;
                }
            },
            100 => {
                self.npc_flags.set_invulnerable(true);
                self.action_num = 101;
                self.action_counter = 1;
            },
            101 => {
                self.action_counter += 1;
                if self.action_counter >= 150 {
                    self.action_counter = 0;
                    self.action_num = 110;
                }
            },
            110 => {
                self.action_counter += 1;
                if self.action_counter > 50 && self.action_counter % 6 == 1 {
                    let mut npc = state.create_npc(11);
                    npc.cond.set_alive(true);
                    npc.x = self.x - 0x3400;
                    npc.y = self.y - 0x2000;
                    state.spawn_npc(0x100, npc);
                    let j = self.rng.range(-16..16);
                    state.aim_last_spawn(self.x - 0x2000 - p.x, self.y - 0x3400 - p.y, j, 1536);
                    state.play_sfx(33);
                }
                if self.action_counter > 100 {
                    self.action_counter = 0;
                    self.action_num = 101;
                }
            },
            500 | 501 => {
                if self.action_num == 500 {
                    self.anim_num = 2;
                    self.npc_flags.set_invulnerable(true);
                    self.action_num = 501;
                }
                state.quake_counter = 2;
                state.quake_rumble_counter = 2;
                self.action_counter += 1;
                if self.action_counter % 20 == 0 {
                    state.play_sfx(52);
                }
                state.kill_npcs_by_type(369, true);
                let rx = self.rng.range(-32..32);
                let ry = self.rng.range(-48..24);
                state.create_death_smoke(
                    self.x + rx * 0x200,
                    self.y + ry * 0x200,
                    self.display_bounds.right as usize,
                    8,
                );
                if self.action_counter > 100 {
                    self.action_num = 510;
                }
            },
            _ => {},
        }
    }

    /// The G-Clone; see `gclone_step`. Shot velocities are left to the
    /// frame loop through `Aim` requests.
    pub fn tick_n368_gclone(&mut self, state: &mut SharedGameState, players: &[Player; 2])
        requires
            gclone_tickable(*old(self), *players),
        ensures
            (*final(self), final(state)@) == gclone_step(*old(self), old(state)@, *players),
    {
        let idx = self.get_closest_player_idx(players);
        let p = players[idx];
        self.gclone_action_exec(state, &p);
        if self.action_num < 500 {
            self.gclone_shell_exec(state);
        }
        self.anim_rect = self.anim_num;
    }
    fn curly_release_exec(&mut self, state: &mut SharedGameState, p: &mut Player)
        requires
            npc_coord_ok(old(self).x),
            old(self).direction != Direction::FacingPlayer,
        ensures
            (*final(self), *final(p)) == curly_release(*old(self), *old(p)),
            final(state)@ == with_sound(old(state)@, 25),
    {
        state.play_sfx(25);
        p.x = self.x;
        p.y = self.y;
        p.cond.set_hidden(false);
        p.shock_counter = 0;
        if self.direction == Direction::Right {
            p.x -= 0x800;
            p.vel_x = -0x5ff;
            p.vel_y = -0x400;
            p.direction = Direction::Left;
        } else {
            p.x += 0x800;
            p.vel_x = 0x5ff;
            p.vel_y = -0x400;
            p.direction = Direction::Right;
        }
        self.direction = self.direction.opposite();
        self.anim_num = 9;
        self.action_num = 51;
        self.action_counter = 1;
        self.action_counter3 = 0;
    }

    fn curly_wait_exec(&mut self, state: &mut SharedGameState, p: &Player)
        requires
            npc_coord_ok(old(self).x),
            old(self).action_num == 10 ==> old(self).action_counter < u16::MAX,
        ensures
            (*final(self), final(state)@) == curly_wait(*old(self), old(state)@, *p),
    {
        if self.action_num == 0 {
            self.anim_num = 0;
            self.action_num = 1;
            self.event_num = 450;
        }
        if self.action_num == 10 || self.flags.hit_bottom_wall() {
            if self.action_num != 10 {
                state.play_sfx(23);
                self.action_counter = 0;
                self.anim_num = 3;
                self.action_num = 10;
            }
            if self.x - 0x1000 >= p.x || self.x + 0x1000 <= p.x {
                self.action_counter += 1;
                if self.action_counter > 32 {
                    self.action_num = 11;
                    self.action_counter = 2;
                    self.anim_num = 0;
                }
            }
        }
    }

    fn curly_run_exec(&mut self, p: &Player)
        requires
            npc_coord_ok(old(self).vel_x),
            old(self).action_num == 11 || old(self).action_num == 20,
            old(self).action_num == 11 ==> old(self).action_counter < u16::MAX,
            old(self).action_num == 20 ==> old(self).anim_counter < u16::MAX,
            old(self).anim_num < u16::MAX,
        ensures
            *final(self) == curly_run(*old(self), *p),
    {
        if self.action_num == 11 {
            self.action_counter += 1;
            if self.action_counter >= 32 {
                self.action_num = 20;
                let r = self.rng.range(100..150);
                self.action_counter = r as u16;
                self.anim_counter = 0;
            }
        }
        if self.action_num == 20 || self.action_counter >= 32 {
            if self.x >= p.x {
                self.direction = Direction::Left;
                self.vel_x -= 64;
            } else {
                self.direction = Direction::Right;
                self.vel_x += 64;
            }
            if self.vel_x < -1024 {
                self.vel_x = -1024;
            } else if self.vel_x > 1024 {
                self.vel_x = 1024;
            }
            self.animate(3, 1, 2);
            if (self.direction == Direction::Left && self.vel_x > 0) || (self.direction
                == Direction::Right && self.vel_x < 0) {
                self.anim_counter = 0;
            }
            self.action_counter = self.action_counter.saturating_sub(1);
            if self.action_counter == 0 {
                self.anim_num = 3;
                self.vel_x = scale_i32(self.vel_x, 3, 4);
                self.action_num = 30;
                self.action_counter = 1;
            }
        }
    }

    fn curly_jump_exec(&mut self, state: &mut SharedGameState)
        requires
            old(self).action_counter < u16::MAX,
        ensures
            (*final(self), final(state)@) == curly_jump(*old(self), old(state)@),
    {
        self.action_counter += 1;
        if self.action_counter >= 12 {
            if self.rng.range(0..10) % 2 != 0 {
                self.vel_y = -0x800;
            } else {
                self.vel_y = -0x400;
                self.vel_x = 0x5ff * self.direction.vector_x();
            }
            self.anim_num = 4;
            self.damage = 0;
            self.action_num = 31;
            state.play_sfx(30);
        }
    }

    fn curly_airborne_exec(&mut self)
        requires
            npc_coord_ok(old(self).vel_x),
        ensures
            *final(self) == curly_airborne(*old(self)),
    {
        if self.action_counter3 == 0 {
            if self.flags.hit_left_wall() && self.vel_x < 0 {
                self.vel_x = -self.vel_x;
                self.direction = Direction::Right;
            }
            if self.flags.hit_right_wall() && self.vel_x > 0 {
                self.vel_x = -self.vel_x;
                self.direction = Direction::Left;
            }
            if self.flags.hit_bottom_wall() {
                self.vel_x = 0;
                self.damage = 3;
                self.anim_num = 3;
                self.action_num = 10;
            }
        }
    }

    fn curly_action_exec(&mut self, state: &mut SharedGameState, p: &mut Player)
        requires
            curly_clone_tickable(*old(self), [*old(p), *old(p)]),
        ensures
            (*final(self), final(state)@, *final(p)) == curly_action(*old(self), old(state)@, *old(p)),
            npc_coord_ok(final(self).vel_x),
            npc_coord_ok(final(self).vel_y),
            final(self).x == old(self).x,
            final(self).y == old(self).y,
            final(self).action_num == 31 ==> final(self).action_counter < u16::MAX,
            final(self).anim_num <= u16::MAX - 10,
    {
        match self.action_num {
            0 | 1 | 10 => {
                self.curly_wait_exec(state, p);
            },
            11 | 20 => {
                self.curly_run_exec(p);
            },
            14 => {
                self.action_counter += 1;
                if self.action_counter >= 40 {
                    self.action_num = 11;
                    self.action_counter = 2;
                    self.anim_num = 0;
                }
            },
            30 => {
                self.curly_jump_exec(state);
            },
            31 => {
                self.curly_airborne_exec();
            },
            40 | 41 => {
                if self.flags.hit_bottom_wall() {
                    if self.action_num == 40 {
                        self.action_num = 41;
                    }
                    self.animate(3, 7, 8);
                    self.action_counter += 1;
                    if self.action_counter > 100 {
                        self.curly_release_exec(state, p);
                    }
                }
            },
            50 => {
                self.curly_release_exec(state, p);
            },
            51 => {
                self.action_counter += 1;
                if self.action_counter > 30 {
                    self.action_num = 10;
                }
            },
            200 => {
                self.action_counter2 = 77;
                self.npc_type = 363;
                self.action_num = 0;
                self.damage = 0;
                self.event_num = 451;
            },
            _ => {},
        }
    }

    fn curly_grab_exec(&mut self, state: &mut SharedGameState, p: &mut Player)
        requires
            npc_coord_ok(old(self).x),
            npc_coord_ok(old(self).y),
            old(self).action_num == 31 ==> old(self).action_counter < u16::MAX,
        ensures
            (*final(self), final(state)@, *final(p)) == curly_grab(*old(self), old(state)@, *old(p)),
            final(self).vel_x == old(self).vel_x || final(self).vel_x == 0,
            final(self).vel_y == old(self).vel_y,
            final(self).x == old(self).x,
            final(self).y == old(self).y,
            final(self).anim_num == old(self).anim_num || final(self).anim_num == 8,
    {
        if self.action_num == 31 && self.action_counter3 == 0 && p.shock_counter == 0 {
            self.action_counter += 1;
            if self.action_counter > 2 {
                if self.x - 0x1000 < p.x && self.x + 0x1000 > p.x && self.y - 0x1000 < p.y && self.y
                    + 0x1000 > p.y {
                    self.action_counter3 = 1;
                    self.action_num = 40;
                    self.action_counter = 0;
                    self.anim_num = 8;
                    self.vel_x = 0;
                    p.cond.set_hidden(true);
                    p.shock_counter = 180;
                    if state.is_switch {
                        let mut npc = state.create_npc(150);
                        npc.cond.set_alive(true);
                        npc.x = self.x;
                        npc.y = self.y;
                        npc.direction = p.direction;
                        npc.parent_id = self.id;
                        npc.action_num = 200;
                        state.spawn_npc(0xAA, npc);
                    }
                }
            }
        }
    }

    /// A Curly clone; see `curly_clone_step`. It acts on the targeted
    /// player only, whom it may grab and throw.
    pub fn tick_n369_gclone_curly_clone(&mut self, state: &mut SharedGameState, players: &mut [Player; 2])
        requires
            curly_clone_tickable(*old(self), *old(players)),
        ensures
            ({
                let i = closest_player(old(self).x, old(self).y, *old(players)) as int;
                let (n, s, p) = curly_clone_step(*old(self), old(state)@, old(players)[i]);
                &&& *final(self) == n
                &&& final(state)@ == s
                &&& final(players)[i] == p
                &&& final(players)[1 - i] == old(players)[1 - i]
            }),
    {
        let idx = self.get_closest_player_idx(players);
        let mut p = players[idx];
        self.curly_action_exec(state, &mut p);
        self.curly_grab_exec(state, &mut p);
        self.vel_y += 0x40;
        self.clamp_fall_speed();
        self.x += self.vel_x;
        self.y += self.vel_y;
        self.anim_rect = if self.direction == Direction::Left {
            self.anim_num
        } else {
            self.anim_num + 10
        };
        if self.life <= 900 && !p.cond.hidden() {
            self.action_counter2 = 77;
            self.npc_type = 363;
            self.action_num = 0;
            self.damage = 0;
            self.event_num = 451;
            self.action_counter3 = 0;
        }
        if idx == 0 {
            *players = [p, players[1]];
        } else {
            *players = [players[0], p];
        }
    }
}

/// Whether the entity is against the wall it faces.
pub open spec fn walled_ahead(n: NPC) -> bool {
    (n.direction == Direction::Left && n.flags.0 & FLAG_HIT_LEFT_WALL != 0)
        || (n.direction == Direction::Right && n.flags.0 & FLAG_HIT_RIGHT_WALL != 0)
}

/// The Curly clone's states, near a player (`p` the one it targets):
/// standing, now and then turning to walk off (1 to 10) or, level with the
/// player, aiming (5); aiming, blinking, for 30 ticks (5); three fast shots
/// (type 364) ahead, each pushing it half a pixel back (6); walking for a
/// random 25 to 100 ticks, jumping at a wall (10, 11); in the air, turning
/// after 12 ticks against the wall (20); landing (21).
pub open spec fn roaming_clone_action(n: NPC, st: StateView, p: Player) -> (NPC, StateView) {
    let k = n.action_num;
    let hidden = p.cond.0 & COND_HIDDEN != 0;
    if k == 0 {
        (NPC { vel_x: 0, anim_num: 0, action_num: 1, ..n }, st)
    } else if k == 1 {
        let (r1, m1) = roll(n, 0i32, 60i32);
        let a = if r1 == 1 { NPC { direction: spec_opposite(n.direction), action_num: 10, ..m1 } } else { m1 };
        (if a.y > p.y - 0x2000 && a.y < p.y + 0x2000 {
            let (r2, m2) = roll(a, 0i32, 50i32);
            if r2 == 1 { NPC { action_num: 5, ..m2 } } else { m2 }
        } else {
            a
        }, st)
    } else if k == 5 {
        let b = face_player(n, p);
        let c = NPC { anim_num: if b.action_counter % 2 != 0 { 5 } else { 0 }, action_counter: (b.action_counter + 1) as u16, ..b };
        (if c.action_counter >= 30 { NPC { action_counter: 0, anim_num: 0, action_num: 6, ..c } } else { c }, st)
    } else if k == 6 {
        let c = tick_counter(n);
        let (d, s) = if c.action_counter % 4 == 1 {
            let shot = NPC { direction: c.direction, ..fresh(st, 364, c.x + 0x1000 * spec_vector_x(c.direction), c.y + 0x800) };
            (
                NPC { anim_counter: 0, x: (c.x + 0x200 * spec_vector_x(spec_opposite(c.direction))) as i32, ..c },
                with_spawn(st, 0x100, shot),
            )
        } else {
            (c, st)
        };
        (if d.action_counter >= 9 { NPC { action_num: 1, ..d } } else { d }, s)
    } else if k == 10 || k == 11 {
        let b = if k == 10 {
            let (r, m) = roll(n, 25i32, 100i32);
            NPC { action_num: 11, action_counter: r as u16, anim_num: 1, ..m }
        } else {
            n
        };
        let a = spec_animate(b, 2, 0, 1);
        let v = NPC { vel_x: (0x200 * spec_vector_x(a.direction)) as i32, ..a };
        let w = if v.action_counter > 0 {
            NPC { action_counter: (v.action_counter - 1) as u16, ..v }
        } else {
            NPC { action_num: 1, anim_num: 0, vel_x: 0, ..v }
        };
        if walled_ahead(w) {
            let s0 = with_sound(st, 30);
            (NPC { anim_num: 1, vel_y: -0x5ffi32, action_num: 20, ..w }, if hidden { with_sound(s0, 30) } else { s0 })
        } else {
            (w, st)
        }
    } else if k == 20 {
        let a = if walled_ahead(n) {
            let c2 = (n.action_counter2 + 1) as u16;
            NPC { action_counter2: c2, direction: if c2 > 12 { spec_opposite(n.direction) } else { n.direction }, ..n }
        } else {
            NPC { action_counter2: 0, ..n }
        };
        let v = NPC { vel_x: (0x200 * spec_vector_x(a.direction)) as i32, ..a };
        if v.flags.0 & FLAG_HIT_BOTTOM_WALL != 0 {
            (NPC { action_num: 21, action_counter: 0, anim_num: 0, vel_x: 0, ..v }, if hidden { with_sound(st, 23) } else { st })
        } else {
            (v, st)
        }
    } else if k == 21 {
        let c = tick_counter(n);
        (if c.action_counter >= 10 { NPC { action_num: 1, anim_num: 0, action_counter: 0, ..c } } else { c }, st)
    } else {
        (n, st)
    }
}

/// One tick of a Curly clone: nothing while it is over 320 pixels across
/// or 240 up or down from the player it targets; else its state's step,
/// gravity, fall speed capped at 3 pixels, movement, the frame
/// (right-facing frames start 7 in), and, worn down to 970 life, it turns
/// into a dead clone (type 363).
pub open spec fn roaming_clone_step(n: NPC, st: StateView, players: [Player; 2]) -> (NPC, StateView) {
    let p = players[closest_player(n.x, n.y, players) as int];
    if n.x > p.x + 0x28000 || n.x < p.x - 0x28000 || n.y > p.y + 0x1e000 || n.y < p.y - 0x1e000 {
        (n, st)
    } else {
        let (a, s) = roaming_clone_action(n, st, p);
        let vy0 = a.vel_y + 0x40;
        let vy = if vy0 > 0x5ff { 0x5ff } else { vy0 };
        let m = NPC { vel_y: vy as i32, x: (a.x + a.vel_x) as i32, y: (a.y + vy) as i32, ..a };
        let f = NPC { anim_rect: dir_frame(m, 7), ..m };
        (if f.life <= 970 { NPC { npc_type: 363, action_num: 0, ..f } } else { f }, s)
    }
}

/// Inputs a tick of a Curly clone computes in range on.
pub open spec fn roaming_clone_tickable(n: NPC, players: [Player; 2]) -> bool {
    let k = n.action_num;
    &&& npc_coord_ok(n.x)
    &&& npc_coord_ok(n.y)
    &&& npc_coord_ok(n.vel_x)
    &&& npc_coord_ok(n.vel_y)
    &&& npc_coord_ok(players[0].x)
    &&& npc_coord_ok(players[0].y)
    &&& npc_coord_ok(players[1].x)
    &&& npc_coord_ok(players[1].y)
    &&& (k == 5 || k == 6 || k == 21) ==> n.action_counter < u16::MAX
    &&& (k == 10 || k == 11) ==> n.anim_counter < u16::MAX
    &&& k == 20 ==> n.action_counter2 < u16::MAX
    &&& (k == 1 || k == 6 || k == 20) ==> n.direction != Direction::FacingPlayer
    &&& n.anim_num <= u16::MAX - 7
}

impl NPC {
    #[verifier::rlimit(40)]
    #[verifier::spinoff_prover]
    fn roaming_clone_action_exec(&mut self, state: &mut SharedGameState, p: &Player)
        requires
            roaming_clone_tickable(*old(self), [*p, *p]),
        ensures
            (*final(self), final(state)@) == roaming_clone_action(*old(self), old(state)@, *p),
            -0x1000_0000 - 0x200 <= final(self).x <= 0x1000_0000 + 0x200,
            npc_coord_ok(final(self).y),
            npc_coord_ok(final(self).vel_x),
            npc_coord_ok(final(self).vel_y),
            final(self).anim_num <= u16::MAX - 7,
    {
        match self.action_num {
            0 => {
                self.vel_x = 0;
                self.anim_num = 0;
                self.action_num = 1;
            },
            1 => {
                if self.rng.range(0..60) == 1 {
                    self.direction = self.direction.opposite();
                    self.action_num = 10;
                }
                if self.y > p.y - 0x2000 && self.y < p.y + 0x2000 && self.rng.range(0..50) == 1 {
                    self.action_num = 5;
                }
            },
            5 => {
                self.face_player(p);
                self.anim_num = if self.action_counter % 2 != 0 {
                    5
                } else {
                    0
                };
                self.action_counter += 1;
                if self.action_counter >= 30 {
                    self.action_counter = 0;
                    self.anim_num = 0;
                    self.action_num = 6;
                }
            },
            6 => {
                self.action_counter += 1;
                if self.action_counter % 4 == 1 {
                    self.anim_counter = 0;
                    let mut npc = state.create_npc(364);
                    npc.cond.set_alive(true);
                    npc.x = self.x + 0x1000 * self.direction.vector_x();
                    npc.y = self.y + 0x800;
                    npc.direction = self.direction;
                    state.spawn_npc(0x100, npc);
                    self.x += 0x200 * self.direction.opposite().vector_x();
                }
                if self.action_counter >= 9 {
                    self.action_num = 1;
                }
            },
            10 | 11 => {
                if self.action_num == 10 {
                    self.action_num = 11;
                    self.action_counter = self.rng.range(25..100) as u16;
                    self.anim_num = 1;
                }
                self.animate(2, 0, 1);
                self.vel_x = 0x200 * self.direction.vector_x();
                if self.action_counter > 0 {
                    self.action_counter -= 1;
                } else {
                    self.action_num = 1;
                    self.anim_num = 0;
                    self.vel_x = 0;
                }
                if (self.direction == Direction::Left && self.flags.hit_left_wall()) || (self.direction
                    == Direction::Right && self.flags.hit_right_wall()) {
                    self.anim_num = 1;
                    self.vel_y = -0x5ff;
                    self.action_num = 20;
                    state.play_sfx(30);
                    if p.cond.hidden() {
                        state.play_sfx(30);
                    }
                }
            },
            20 => {
                if (self.direction == Direction::Left && self.flags.hit_left_wall()) || (self.direction
                    == Direction::Right && self.flags.hit_right_wall()) {
                    self.action_counter2 += 1;
                    if self.action_counter2 > 12 {
                        self.direction = self.direction.opposite();
                    }
                } else {
                    self.action_counter2 = 0;
                }
                self.vel_x = 0x200 * self.direction.vector_x();
                if self.flags.hit_bottom_wall() {
                    self.action_num = 21;
                    self.action_counter = 0;
                    self.anim_num = 0;
                    self.vel_x = 0;
                    if p.cond.hidden() {
                        state.play_sfx(23);
                    }
                }
            },
            21 => {
                self.action_counter += 1;
                if self.action_counter >= 10 {
                    self.action_num = 1;
                    self.anim_num = 0;
                    self.action_counter = 0;
                }
            },
            _ => {},
        }
    }

    /// A Curly clone; see `roaming_clone_step`.
    pub fn tick_n362_curly_clone(&mut self, state: &mut SharedGameState, players: &[Player; 2])
        requires
            roaming_clone_tickable(*old(self), *players),
        ensures
            (*final(self), final(state)@) == roaming_clone_step(*old(self), old(state)@, *players),
    {
        let p = players[self.get_closest_player_idx(players)];
        if self.x > p.x + 0x28000 || self.x < p.x - 0x28000 || self.y > p.y + 0x1e000 || self.y < p.y - 0x1e000 {
            return;
        }
        self.roaming_clone_action_exec(state, &p);
        self.vel_y += 0x40;
        self.clamp_fall_speed();
        self.x += self.vel_x;
        self.y += self.vel_y;
        self.anim_rect = if self.direction == Direction::Left {
            self.anim_num
        } else {
            self.anim_num + 7
        };
        if self.life <= 970 {
            self.npc_type = 363;
            self.action_num = 0;
        }
    }
}

/// Whether the player is over 320 pixels across or 240 up or down from the
/// entity: Curly clones sleep while they are.
pub open spec fn clone_asleep(n: NPC, p: Player) -> bool {
    n.x > p.x + 0x28000 || n.x < p.x - 0x28000 || n.y > p.y + 0x1e000 || n.y < p.y - 0x1e000
}

/// One tick of a dead Curly clone: knocked back with a cry (0); landing
/// (1); lying, sliding to a stop; when it is the one marked 77
/// (`action_counter2`), after 250 ticks two fresh clones drop in from the
/// top at random columns 62 to 78; any other explodes after 50 ticks (2);
/// gravity, fall speed capped at 3 pixels, movement and the frame
/// (right-facing frames start 7 in).
pub open spec fn dead_clone_step(n: NPC, st: StateView) -> (NPC, StateView) {
    let k = n.action_num;
    let (a, s) = if k == 0 {
        (
            NPC {
                action_num: 1,
                anim_num: 2,
                damage: 0,
                vel_x: (0x100 * spec_vector_x(spec_opposite(n.direction))) as i32,
                vel_y: -0x200i32,
                ..shootable(ignoring_solidity(n, false), false)
            },
            with_sound(st, 53),
        )
    } else if k == 1 {
        (if n.flags.0 & FLAG_HIT_BOTTOM_WALL != 0 { NPC { action_num: 2, anim_num: 3, ..n } } else { n }, st)
    } else if k == 2 {
        let c = tick_counter(NPC { vel_x: trunc_div(8 * n.vel_x, 9) as i32, ..n });
        if c.action_counter2 == 77 && c.action_counter >= 250 {
            let (r1, m1) = roll(NPC { action_num: 3, ..c }, 62i32, 78i32);
            let (r2, m2) = roll(m1, 62i32, 78i32);
            let s1 = with_spawn(st, 0x100, fresh(st, 369, r1 * 0x2000, 0x1000));
            (m2, with_spawn(s1, 0x100, fresh(st, 369, r2 * 0x2000, 0x1000)))
        } else if c.action_counter2 != 77 && c.action_counter >= 50 {
            (NPC { cond: Condition(with_bits16(c.cond.0, COND_EXPLODE_DIE, true)), ..c }, st)
        } else {
            (c, st)
        }
    } else {
        (n, st)
    };
    let vy0 = a.vel_y + 0x20;
    let vy = if vy0 > 0x5ff { 0x5ff } else { vy0 };
    let m = NPC { vel_y: vy as i32, x: (a.x + a.vel_x) as i32, y: (a.y + vy) as i32, ..a };
    (NPC { anim_rect: dir_frame(m, 7), ..m }, s)
}

/// Inputs a tick of a dead Curly clone computes in range on.
pub open spec fn dead_clone_tickable(n: NPC) -> bool {
    let k = n.action_num;
    &&& npc_coord_ok(n.x)
    &&& npc_coord_ok(n.y)
    &&& npc_coord_ok(n.vel_x)
    &&& npc_coord_ok(n.vel_y)
    &&& k == 0 ==> n.direction != Direction::FacingPlayer
    &&& k == 2 ==> n.action_counter < u16::MAX
    &&& n.anim_num <= u16::MAX - 7
}

/// The still Curly clone's states (`p` the player it targets): standing,
/// turned to the player, now and then aiming (0, 1); aiming, blinking, for
/// 30 ticks (5); two shots (type 148) aimed at the player at 3 pixels a
/// tick, turned by up to 6 game degrees (6).
pub open spec fn still_clone_action(n: NPC, st: StateView, p: Player) -> (NPC, StateView) {
    let k = n.action_num;
    if k == 0 {
        (NPC { vel_x: 0, anim_num: 4, action_num: 1, ..n }, st)
    } else if k == 1 {
        let (r, m) = roll(NPC { direction: if n.x > p.x { Direction::Left } else { Direction::Right }, ..n }, 0i32, 70i32);
        (if r == 1 { NPC { action_num: 5, ..m } } else { m }, st)
    } else if k == 5 {
        let b = NPC { vel_x: trunc_div(8 * n.vel_x, 9) as i32, ..n };
        let c = NPC { anim_num: if b.action_counter % 2 == 0 { 6 } else { 4 }, action_counter: (b.action_counter + 1) as u16, ..b };
        (if c.action_counter > 30 { NPC { action_num: 6, action_counter: 0, anim_num: 4, ..c } } else { c }, st)
    } else if k == 6 {
        let c = tick_counter(n);
        let (d, s) = if c.action_counter % 4 == 1 {
            let (j, m) = roll(c, -6i32, 6i32);
            (m, with_aim(with_spawn(st, 0x100, fresh(st, 148, c.x as int, c.y as int)), (c.x - p.x) as i32, (c.y - p.y) as i32, j, 1536))
        } else {
            (c, st)
        };
        (if d.action_counter >= 7 { NPC { action_num: 1, action_counter: 0, ..d } } else { d }, s)
    } else {
        (n, st)
    }
}

/// One tick of the still Curly clone: asleep while far from the player it
/// targets; else its state's step, the frame (right-facing frames start 7
/// in), and, worn down to 970 life, it turns into a dead clone (type 363).
pub open spec fn still_clone_step(n: NPC, st: StateView, players: [Player; 2]) -> (NPC, StateView) {
    let p = players[closest_player(n.x, n.y, players) as int];
    if clone_asleep(n, p) {
        (n, st)
    } else {
        let (a, s) = still_clone_action(n, st, p);
        let f = NPC { anim_rect: dir_frame(a, 7), ..a };
        (if f.life <= 970 { NPC { npc_type: 363, action_num: 0, ..f } } else { f }, s)
    }
}

/// One tick of the zombie Curly clone: asleep while far from the player
/// it targets; else standing until a player is within 128 pixels across
/// and 64 up or down (0), waiting 70 ticks and turning to them (1), then
/// shuffling towards them for a random 25 to 100 ticks, turning back at
/// walls (10, 11); gravity, fall speed capped at 3 pixels, movement, the
/// frame (right-facing frames start 3 in), and, worn down to 970 life, it
/// turns into a dead clone (type 363).
pub open spec fn zombie_clone_step(n: NPC, players: [Player; 2]) -> NPC {
    let p = players[closest_player(n.x, n.y, players) as int];
    if clone_asleep(n, p) {
        n
    } else {
        let k = n.action_num;
        let a = if k == 0 {
            let b = NPC { vel_x: 0, anim_num: 0, ..n };
            if b.x - 0x10000 < p.x && p.x < b.x + 0x10000 && b.y - 0x8000 < p.y && p.y < b.y + 0x8000 {
                NPC { direction: if b.x < p.x { Direction::Right } else { Direction::Left }, anim_num: 1, action_num: 1, action_counter: 1, ..b }
            } else {
                b
            }
        } else if k == 1 {
            let c = tick_counter(n);
            if c.action_counter >= 70 { NPC { direction: if c.x < p.x { Direction::Right } else { Direction::Left }, action_num: 10, ..c } } else { c }
        } else if k == 10 || k == 11 {
            let b = if k == 10 {
                let (r, m) = roll(NPC { action_num: 11, vel_x: (0x40 * spec_vector_x(n.direction)) as i32, ..n }, 25i32, 100i32);
                NPC { action_counter: r as u16, anim_num: 2, ..m }
            } else {
                n
            };
            let a = spec_animate(b, 16, 1, 2);
            let c = if a.action_counter > 0 {
                NPC { action_counter: (a.action_counter - 1) as u16, ..a }
            } else {
                NPC { action_num: 1, action_counter: 70, vel_x: 0, ..a }
            };
            if walled_ahead(c) { NPC { vel_x: (0x40 * spec_vector_x(c.direction)) as i32, direction: spec_opposite(c.direction), ..c } } else { c }
        } else {
            n
        };
        let vy0 = a.vel_y + 0x40;
        let vy = if vy0 > 0x5ff { 0x5ff } else { vy0 };
        let m = NPC { vel_y: vy as i32, x: (a.x + a.vel_x) as i32, y: (a.y + vy) as i32, ..a };
        let f = NPC { anim_rect: dir_frame(m, 3), ..m };
        if f.life <= 970 { NPC { npc_type: 363, action_num: 0, action_counter: 0, ..f } } else { f }
    }
}

/// Inputs a tick of a still or zombie Curly clone computes in range on.
pub open spec fn clone_tickable(n: NPC, players: [Player; 2]) -> bool {
    let k = n.action_num;
    &&& npc_coord_ok(n.x)
    &&& npc_coord_ok(n.y)
    &&& npc_coord_ok(n.vel_x)
    &&& npc_coord_ok(n.vel_y)
    &&& npc_coord_ok(players[0].x)
    &&& npc_coord_ok(players[0].y)
    &&& npc_coord_ok(players[1].x)
    &&& npc_coord_ok(players[1].y)
    &&& (k == 1 || k == 5 || k == 6) ==> n.action_counter < u16::MAX
    &&& (k == 10 || k == 11) ==> n.anim_counter < u16::MAX
    &&& n.anim_num <= u16::MAX - 7
}

/// One tick of a Curly clone's incubator: when a player stands in front of
/// it (16 to 48 pixels the way it faces, within 10 up or down) it breaks,
/// with a sound and a puff of smoke, letting out a zombie clone (type
/// 366); its frame.
pub open spec fn incubator_step(n: NPC, st: StateView, players: [Player; 2]) -> (NPC, StateView) {
    let p = players[closest_player(n.x, n.y, players) as int];
    let ahead = match n.direction {
        Direction::Left => n.x - 0x6000 < p.x && p.x < n.x - 0x2000,
        Direction::Right => n.x + 0x2000 < p.x && p.x < n.x + 0x6000,
        _ => false,
    };
    let a = NPC { anim_rect: 0, ..n };
    if ahead && n.y - 0x1400 < p.y && p.y < n.y + 0x1400 {
        let s0 = with_sound(with_spawn(st, 0x100, fresh(st, 366, n.x as int, n.y as int)), 72);
        (NPC { cond: Condition(with_bits16(a.cond.0, COND_ALIVE, false)), ..a }, with_smoke(s0, DeathSmoke { x: n.x, y: n.y, radius: 0, amount: 1 }))
    } else {
        (a, st)
    }
}

impl NPC {
    /// A dead Curly clone; see `dead_clone_step`.
    pub fn tick_n363_dead_curly_clone(&mut self, state: &mut SharedGameState)
        requires
            dead_clone_tickable(*old(self)),
        ensures
            (*final(self), final(state)@) == dead_clone_step(*old(self), old(state)@),
    {
        match self.action_num {
            0 => {
                self.action_num = 1;
                self.anim_num = 2;
                self.damage = 0;
                self.npc_flags.set_ignore_solidity(false);
                self.npc_flags.set_shootable(false);
                self.vel_x = 0x100 * self.direction.opposite().vector_x();
                self.vel_y = -0x200;
                state.play_sfx(53);
            },
            1 => {
                if self.flags.hit_bottom_wall() {
                    self.action_num = 2;
                    self.anim_num = 3;
                }
            },
            2 => {
                self.vel_x = scale_i32(self.vel_x, 8, 9);
                self.action_counter += 1;
                if self.action_counter2 == 77 && self.action_counter >= 250 {
                    self.action_num = 3;
                    let mut npc = state.create_npc(369);
                    npc.cond.set_alive(true);
                    npc.y = 0x1000;
                    npc.x = self.rng.range(62..78) * 0x2000;
                    state.spawn_npc(0x100, npc);
                    npc.x = self.rng.range(62..78) * 0x2000;
                    state.spawn_npc(0x100, npc);
                } else if self.action_counter2 != 77 && self.action_counter >= 50 {
                    self.cond.set_explode_die(true);
                }
            },
            _ => {},
        }
        self.vel_y += 0x20;
        self.clamp_fall_speed();
        self.x += self.vel_x;
        self.y += self.vel_y;
        self.anim_rect = if self.direction == Direction::Left {
            self.anim_num
        } else {
            self.anim_num + 7
        };
    }

    fn still_clone_action_exec(&mut self, state: &mut SharedGameState, p: &Player)
        requires
            clone_tickable(*old(self), [*p, *p]),
        ensures
            (*final(self), final(state)@) == still_clone_action(*old(self), old(state)@, *p),
            final(self).anim_num <= u16::MAX - 7,
    {
        match self.action_num {
            0 => {
                self.vel_x = 0;
                self.anim_num = 4;
                self.action_num = 1;
            },
            1 => {
                self.direction = if self.x > p.x {
                    Direction::Left
                } else {
                    Direction::Right
                };
                if self.rng.range(0..70) == 1 {
                    self.action_num = 5;
                }
            },
            5 => {
                self.vel_x = scale_i32(self.vel_x, 8, 9);
                self.anim_num = if self.action_counter % 2 == 0 {
                    6
                } else {
                    4
                };
                self.action_counter += 1;
                if self.action_counter > 30 {
                    self.action_num = 6;
                    self.action_counter = 0;
                    self.anim_num = 4;
                }
            },
            6 => {
                self.action_counter += 1;
                if self.action_counter % 4 == 1 {
                    let j = self.rng.range(-6..6);
                    let mut npc = state.create_npc(148);
                    npc.cond.set_alive(true);
                    npc.x = self.x;
                    npc.y = self.y;
                    state.spawn_npc(0x100, npc);
                    state.aim_last_spawn(self.x - p.x, self.y - p.y, j, 1536);
                }
                if self.action_counter >= 7 {
                    self.action_num = 1;
                    self.action_counter = 0;
                }
            },
            _ => {},
        }
    }

    /// The still Curly clone; see `still_clone_step`.
    pub fn tick_n365_still_curly_clone(&mut self, state: &mut SharedGameState, players: &[Player; 2])
        requires
            clone_tickable(*old(self), *players),
        ensures
            (*final(self), final(state)@) == still_clone_step(*old(self), old(state)@, *players),
    {
        let p = players[self.get_closest_player_idx(players)];
        if self.x > p.x + 0x28000 || self.x < p.x - 0x28000 || self.y > p.y + 0x1e000 || self.y < p.y - 0x1e000 {
            return;
        }
        self.still_clone_action_exec(state, &p);
        self.anim_rect = if self.direction == Direction::Left {
            self.anim_num
        } else {
            self.anim_num + 7
        };
        if self.life <= 970 {
            self.npc_type = 363;
            self.action_num = 0;
        }
    }

    /// The zombie Curly clone; see `zombie_clone_step`.
    pub fn tick_n366_zombie_curly_clone(&mut self, players: &[Player; 2])
        requires
            clone_tickable(*old(self), *players),
        ensures
            *final(self) == zombie_clone_step(*old(self), *players),
    {
        let p = players[self.get_closest_player_idx(players)];
        if self.x > p.x + 0x28000 || self.x < p.x - 0x28000 || self.y > p.y + 0x1e000 || self.y < p.y - 0x1e000 {
            return;
        }
        match self.action_num {
            0 => {
                self.vel_x = 0;
                self.anim_num = 0;
                if self.x - 0x10000 < p.x && p.x < self.x + 0x10000 && self.y - 0x8000 < p.y && p.y < self.y + 0x8000 {
                    self.direction = if self.x < p.x {
                        Direction::Right
                    } else {
                        Direction::Left
                    };
                    self.anim_num = 1;
                    self.action_num = 1;
                    self.action_counter = 1;
                }
            },
            1 => {
                self.action_counter += 1;
                if self.action_counter >= 70 {
                    self.direction = if self.x < p.x {
                        Direction::Right
                    } else {
                        Direction::Left
                    };
                    self.action_num = 10;
                }
            },
            10 | 11 => {
                if self.action_num == 10 {
                    self.action_num = 11;
                    self.vel_x = 0x40 * self.direction.vector_x();
                    self.action_counter = self.rng.range(25..100) as u16;
                    self.anim_num = 2;
                }
                self.animate(16, 1, 2);
                if self.action_counter > 0 {
                    self.action_counter -= 1;
                } else {
                    self.action_num = 1;
                    self.action_counter = 70;
                    self.vel_x = 0;
                }
                if (self.direction == Direction::Right && self.flags.hit_right_wall()) || (self.direction
                    == Direction::Left && self.flags.hit_left_wall()) {
                    self.vel_x = 0x40 * self.direction.vector_x();
                    self.direction = self.direction.opposite();
                }
            },
            _ => {},
        }
        self.vel_y += 0x40;
        self.clamp_fall_speed();
        self.x += self.vel_x;
        self.y += self.vel_y;
        self.anim_rect = if self.direction == Direction::Left {
            self.anim_num
        } else {
            self.anim_num + 3
        };
        if self.life <= 970 {
            self.npc_type = 363;
            self.action_num = 0;
            self.action_counter = 0;
        }
    }

    /// A Curly clone's incubator; see `incubator_step`.
    pub fn tick_n367_curly_clone_incubator(&mut self, state: &mut SharedGameState, players: &[Player; 2])
        requires
            npc_coord_ok(old(self).x),
            npc_coord_ok(old(self).y),
        ensures
            (*final(self), final(state)@) == incubator_step(*old(self), old(state)@, *players),
    {
        let p = players[self.get_closest_player_idx(players)];
        let ahead = match self.direction {
            Direction::Left => self.x - 0x6000 < p.x && p.x < self.x - 0x2000,
            Direction::Right => self.x + 0x2000 < p.x && p.x < self.x + 0x6000,
            _ => false,
        };
        if ahead && self.y - 0x1400 < p.y && p.y < self.y + 0x1400 {
            let mut npc = state.create_npc(366);
            npc.cond.set_alive(true);
            npc.x = self.x;
            npc.y = self.y;
            state.spawn_npc(0x100, npc);
            state.play_sfx(72);
            state.create_death_smoke(self.x, self.y, 0, 1);
            self.cond.set_alive(false);
        }
        self.anim_rect = 0;
    }
}

} // verus!
