//! Mimiga Village: its people (the chinfish, Kanpachi, Mrs. Yamashita,
//! Mahin, the cage), the graveyard's gravekeeper and pignons, and Ma
//! Pignon, their boss.

use vstd::prelude::*;

use crate::common::{spec_opposite, spec_vector_x, Direction};
use crate::game_state::{any_bullet_of, with_sound, with_spawn, with_type_kill, BulletCounts, SharedGameState, StateView};
use crate::npc::ai::misery::{clamp, clamp_i32, shootable, tick_counter};
use crate::npc::ai::wind_fortress::invulnerable;
use crate::npc::ai::{dir_frame, npc_coord_ok};
use crate::npc::{
    closest_player, roll, set_alive_spec, spec_animate, table_npc, with_bits16, NPCFlag, Player, Rect,
    FLAG_HIT_BOTTOM_WALL, FLAG_HIT_LEFT_WALL, FLAG_HIT_RIGHT_WALL, NPC, NPC_IGNORE_SOLIDITY,
    NPC_INVULNERABLE,
};

verus! {

/// The bullet types Ma Pignon turns invulnerable against: missiles and
/// the Blade.
pub open spec fn pignon_repelled_types() -> Seq<u16> {
    seq![13u16, 14, 15, 16, 17, 18, 23, 25, 26, 27, 28, 29, 30, 31, 32, 33]
}

pub open spec fn face_towards(n: NPC, p: Player) -> NPC {
    NPC { direction: if n.x > p.x { Direction::Left } else { Direction::Right }, ..n }
}

pub open spec fn ignoring_solidity(n: NPC, v: bool) -> NPC {
    NPC { npc_flags: NPCFlag(with_bits16(n.npc_flags.0, NPC_IGNORE_SOLIDITY, v)), ..n }
}

pub open spec fn guarded(n: NPC, v: bool) -> NPC {
    NPC { npc_flags: NPCFlag(with_bits16(n.npc_flags.0, NPC_INVULNERABLE, v)), ..n }
}

/// Back to hopping after an attack: hurtable again, weaker on touch.
pub open spec fn pignon_recover(n: NPC) -> NPC {
    NPC { action_counter2: 0, action_num: 130, damage: 3, ..guarded(shootable(n, true), false) }
}

/// A falling rock (type 314) or Ma Pignon clone (315) over a random column
/// 4 to 16 tiles into the room.
pub open spec fn pignon_drop(n: NPC, st: StateView, t: u16, y: int) -> (NPC, StateView) {
    let (r, m) = roll(n, 4i32, 16i32);
    let e = set_alive_spec(table_npc(t, st.npc_table), true);
    (m, with_spawn(st, 0x100, NPC { x: ((r + st.tile_offset_x) * 0x2000) as i32, y: y as i32, ..e }))
}

/// Idle (0 to 2) and the hopping fight (100 to 140).
pub open spec fn pignon_hops(n: NPC, st: StateView, p: Player) -> (NPC, StateView) {
    let k = n.action_num;
    if k == 0 || k == 1 {
        let a = if k == 0 { NPC { action_num: 1, anim_num: 0, y: (n.y + 0x800) as i32, ..n } } else { n };
        let (r, b) = roll(NPC { vel_y: (a.vel_y + 0x40) as i32, ..a }, 0i32, 120i32);
        let c = if r == 10 { NPC { action_num: 2, action_counter: 0, anim_num: 1, ..b } } else { b };
        (if p.x > c.x - 0x4000 && p.x < c.x + 0x4000 { face_towards(c, p) } else { c }, st)
    } else if k == 2 {
        let c = tick_counter(n);
        (if c.action_counter > 8 { NPC { action_num: 1, anim_num: 0, ..c } } else { c }, st)
    } else if k == 100 || k == 110 {
        let a = if k == 100 {
            NPC { action_num: 110, action_counter: 0, action_counter2: 0, ..shootable(n, true) }
        } else {
            n
        };
        let c = tick_counter(NPC { damage: 1, anim_num: 0, ..face_towards(a, p) });
        if c.action_counter > 4 {
            let t = (c.action_counter3 + 1) as u16;
            (if t > 12 {
                NPC { action_counter: 0, action_counter3: 0, action_num: 300, ..c }
            } else {
                NPC { action_counter: 0, action_counter3: t, action_num: 120, ..c }
            }, st)
        } else {
            (c, st)
        }
    } else if k == 120 {
        let c = tick_counter(NPC { anim_num: 2, ..n });
        if c.action_counter > 4 {
            let (r, m) = roll(c, -512i32, 512i32);
            (
                NPC {
                    action_num: 130,
                    anim_num: 3,
                    vel_x: (2 * r) as i32,
                    vel_y: -0x800i32,
                    action_counter2: (m.action_counter2 + 1) as u16,
                    ..m
                },
                with_sound(st, 30),
            )
        } else {
            (c, st)
        }
    } else if k == 130 {
        let a = NPC { vel_y: (n.vel_y + 0x80) as i32, ..n };
        let b = if a.y > 0x10000 { ignoring_solidity(a, false) } else { a };
        let c = if (b.vel_x < 0 && b.flags.0 & FLAG_HIT_LEFT_WALL != 0) || (b.vel_x > 0 && b.flags.0
            & FLAG_HIT_RIGHT_WALL != 0) {
            NPC { vel_x: -b.vel_x as i32, ..b }
        } else {
            b
        };
        let d = NPC {
            anim_num: if c.vel_y < -0x200 { 3 } else if c.vel_y > 0x200 { 4 } else { 0 },
            ..face_towards(c, p)
        };
        let e = if d.flags.0 & FLAG_HIT_BOTTOM_WALL != 0 {
            NPC { action_num: 140, action_counter: 0, anim_num: 2, vel_x: 0, ..d }
        } else {
            d
        };
        (if e.action_counter2 > 4 && p.y < e.y + 0x800 {
            NPC { action_num: 200, action_counter: 0, vel_x: 0, vel_y: 0, ..e }
        } else {
            e
        }, st)
    } else {
        let c = tick_counter(NPC { anim_num: 2, ..n });
        (if c.action_counter > 4 { NPC { action_num: 110, ..c } } else { c }, st)
    }
}

/// The charges: along the ground into a wall (200 to 221), raining rocks;
/// up into the ceiling (300 to 331), raining clones.
pub open spec fn pignon_charges(n: NPC, st: StateView, p: Player) -> (NPC, StateView) {
    let k = n.action_num;
    if k == 200 {
        let c = tick_counter(NPC { anim_num: 5, ..n });
        if c.action_counter > 10 {
            (
                NPC {
                    action_num: 210,
                    anim_num: 6,
                    vel_x: (0x5ff * spec_vector_x(c.direction)) as i32,
                    damage: 10,
                    ..guarded(shootable(c, false), true)
                },
                with_sound(st, 25),
            )
        } else {
            (c, st)
        }
    } else if k == 210 {
        let a = spec_animate(n, 1, 6, 7);
        (if (a.vel_x < 0 && a.flags.0 & FLAG_HIT_LEFT_WALL != 0) || (a.vel_x > 0 && a.flags.0
            & FLAG_HIT_RIGHT_WALL != 0) {
            NPC { action_num: 220, ..a }
        } else {
            a
        }, st)
    } else if k == 220 || k == 221 {
        let (a, s) = if k == 220 {
            (
                NPC { action_num: 221, action_counter: 0, damage: 4, ..n },
                StateView { quake_counter: 16, quake_rumble_counter: 16, ..with_sound(st, 26) },
            )
        } else {
            (n, st)
        };
        let c = tick_counter(spec_animate(a, 1, 6, 7));
        let (d, s) = if c.action_counter % 6 == 0 { pignon_drop(c, s, 314, 0x2000) } else { (c, s) };
        (if d.action_counter > 30 { pignon_recover(d) } else { d }, s)
    } else if k == 300 || k == 301 {
        let a = if k == 300 { face_towards(NPC { action_num: 301, anim_num: 9, ..n }, p) } else { n };
        let b = spec_animate(a, 1, 9, 11);
        let c = NPC { vel_x: if b.direction == Direction::Left { -0x400i32 } else { 0x400i32 }, ..b };
        (if p.x > c.x - 0x800 && p.x < c.x + 0x800 {
            NPC { action_num: 310, action_counter: 0, anim_num: 2, vel_x: 0, ..c }
        } else {
            c
        }, st)
    } else if k == 310 {
        let c = tick_counter(NPC { anim_num: 2, ..n });
        if c.action_counter > 4 {
            (
                NPC {
                    action_num: 320,
                    anim_num: 12,
                    vel_y: -0x800i32,
                    damage: 10,
                    ..guarded(shootable(ignoring_solidity(c, true), false), true)
                },
                with_sound(st, 25),
            )
        } else {
            (c, st)
        }
    } else if k == 320 {
        let a = spec_animate(n, 1, 12, 13);
        (if a.y < 0x2000 { NPC { action_num: 330, ..a } } else { a }, st)
    } else {
        let (a, s) = if k == 330 {
            (
                NPC { vel_y: 0, action_num: 331, action_counter: 0, ..n },
                StateView { quake_counter: 16, quake_rumble_counter: 16, ..with_sound(st, 26) },
            )
        } else {
            (n, st)
        };
        let c = tick_counter(spec_animate(a, 1, 12, 13));
        let (d, s) = if c.action_counter % 6 == 0 { pignon_drop(c, s, 315, 0) } else { (c, s) };
        (if d.action_counter > 30 { pignon_recover(d) } else { d }, s)
    }
}

/// Defeated (500 on): shaking in place, the clones cleared away.
pub open spec fn pignon_defeated(n: NPC, st: StateView) -> (NPC, StateView) {
    let (a, s) = if n.action_num == 500 {
        (
            NPC { action_num: 501, action_counter: 0, anim_num: 8, target_x: n.x, damage: 0, ..shootable(n, false) },
            with_type_kill(st, 315, true),
        )
    } else {
        (n, st)
    };
    let c = tick_counter(NPC { vel_y: (a.vel_y + 0x20) as i32, ..a });
    (NPC { x: (c.target_x + if c.action_counter % 2 == 0 { 0x200int } else { 0 }) as i32, ..c }, s)
}

pub open spec fn pignon_hopping(k: u16) -> bool {
    k <= 2 || k == 100 || k == 110 || k == 120 || k == 130 || k == 140
}

pub open spec fn pignon_charging(k: u16) -> bool {
    k == 200 || k == 210 || k == 220 || k == 221 || k == 300 || k == 301 || k == 310 || k == 320 || k == 330
        || k == 331
}

/// One tick of Ma Pignon against the targeted player: the state's step;
/// during the fight, except mid-charge, invulnerable exactly while a
/// missile or the Blade is in flight; falling capped at 3 pixels a tick;
/// movement and the frame (right-facing frames start 14 in).
pub open spec fn ma_pignon_step(
    n: NPC,
    st: StateView,
    players: [Player; 2],
    bullets: Seq<usize>,
) -> (NPC, StateView) {
    let p = players[closest_player(n.x, n.y, players) as int];
    let k = n.action_num;
    let (a, s) = if pignon_hopping(k) {
        pignon_hops(n, st, p)
    } else if pignon_charging(k) {
        pignon_charges(n, st, p)
    } else if k == 500 || k == 501 {
        pignon_defeated(n, st)
    } else {
        (n, st)
    };
    let j = a.action_num;
    let b = if 100 < j < 500 && j != 210 && j != 320 {
        let r = any_bullet_of(bullets, pignon_repelled_types());
        guarded(shootable(a, !r), r)
    } else {
        a
    };
    let c = NPC { vel_y: if b.vel_y > 0x5ff { 0x5ff } else { b.vel_y }, ..b };
    let m = NPC { x: (c.x + c.vel_x) as i32, y: (c.y + c.vel_y) as i32, ..c };
    (NPC { anim_rect: dir_frame(m, 14), ..m }, s)
}

/// Inputs a Ma Pignon tick computes in range on.
pub open spec fn ma_pignon_tickable(n: NPC, players: [Player; 2], tile_offset_x: i32) -> bool {
    &&& pignon_in_range(n)
    &&& npc_coord_ok(players[0].x)
    &&& npc_coord_ok(players[0].y)
    &&& npc_coord_ok(players[1].x)
    &&& npc_coord_ok(players[1].y)
    &&& -0x10000 <= tile_offset_x <= 0x10000
}

/// The entity's part of `ma_pignon_tickable`.
pub open spec fn pignon_in_range(n: NPC) -> bool {
    let k = n.action_num;
    &&& npc_coord_ok(n.x)
    &&& npc_coord_ok(n.y)
    &&& npc_coord_ok(n.vel_x)
    &&& npc_coord_ok(n.vel_y)
    &&& k == 501 ==> npc_coord_ok(n.target_x)
    &&& (k == 2 || k == 110 || k == 120 || k == 140 || k == 200 || k == 221 || k == 310 || k == 331 || k == 501)
        ==> n.action_counter < u16::MAX
    &&& (k == 100 || k == 110) ==> n.action_counter3 < u16::MAX
    &&& k == 120 ==> n.action_counter2 < u16::MAX
    &&& (k == 210 || k == 220 || k == 221 || k == 300 || k == 301 || k == 320 || k == 330 || k == 331)
        ==> n.anim_counter < u16::MAX
    &&& n.anim_num <= u16::MAX - 14
}

impl NPC {
    fn pignon_drop_exec(&mut self, state: &mut SharedGameState, t: u16, y: i32)
        requires
            -0x10000 <= old(state)@.tile_offset_x <= 0x10000,
        ensures
            (*final(self), final(state)@) == pignon_drop(*old(self), old(state)@, t, y as int),
            *final(self) == (NPC { rng: final(self).rng, ..*old(self) }),
    {
        let mut npc = state.create_npc(t);
        npc.cond.set_alive(true);
        npc.x = (self.rng.range(4..16) + state.tile_offset_x) * 0x2000;
        npc.y = y;
        state.spawn_npc(0x100, npc);
    }

    fn pignon_hops_exec(&mut self, state: &mut SharedGameState, p: &Player)
        requires
            pignon_in_range(*old(self)),
            npc_coord_ok(p.x),
            npc_coord_ok(p.y),
            pignon_hopping(old(self).action_num),
        ensures
            (*final(self), final(state)@) == pignon_hops(*old(self), old(state)@, *p),
            -0x1100_0000 <= final(self).x <= 0x1100_0000,
            -0x1100_0000 <= final(self).y <= 0x1100_0000,
            -0x1100_0000 <= final(self).vel_x <= 0x1100_0000,
            -0x1100_0000 <= final(self).vel_y <= 0x1100_0000,
            final(self).anim_num <= u16::MAX - 14,
    {
        match self.action_num {
            0 | 1 => {
                if self.action_num == 0 {
                    self.action_num = 1;
                    self.anim_num = 0;
                    self.y += 0x800;
                }
                self.vel_y += 0x40;
                if self.rng.range(0..120) == 10 {
                    self.action_num = 2;
                    self.action_counter = 0;
                    self.anim_num = 1;
                }
                if p.x > self.x - 0x4000 && p.x < self.x + 0x4000 {
                    self.face_player(p);
                }
            },
            2 => {
                self.action_counter += 1;
                if self.action_counter > 8 {
                    self.action_num = 1;
                    self.anim_num = 0;
                }
            },
            100 | 110 => {
                if self.action_num == 100 {
                    self.action_num = 110;
                    self.action_counter = 0;
                    self.action_counter2 = 0;
                    self.npc_flags.set_shootable(true);
                }
                self.damage = 1;
                self.face_player(p);
                self.anim_num = 0;
                self.action_counter += 1;
                if self.action_counter > 4 {
                    self.action_counter = 0;
                    self.action_num = 120;
                    self.action_counter3 += 1;
                    if self.action_counter3 > 12 {
                        self.action_counter3 = 0;
                        self.action_num = 300;
                    }
                }
            },
            120 => {
                self.anim_num = 2;
                self.action_counter += 1;
                if self.action_counter > 4 {
                    self.action_num = 130;
                    self.anim_num = 3;
                    self.vel_x = 2 * self.rng.range(-512..512);
                    self.vel_y = -0x800;
                    state.play_sfx(30);
                    self.action_counter2 += 1;
                }
            },
            130 => {
                self.vel_y += 0x80;
                if self.y > 0x10000 {
                    self.npc_flags.set_ignore_solidity(false);
                }
                if (self.vel_x < 0 && self.flags.hit_left_wall()) || (self.vel_x > 0 && self.flags.hit_right_wall()) {
                    self.vel_x = -self.vel_x;
                }
                self.face_player(p);
                self.anim_num = if self.vel_y < -0x200 {
                    3
                } else if self.vel_y > 0x200 {
                    4
                } else {
                    0
                };
                if self.flags.hit_bottom_wall() {
                    self.action_num = 140;
                    self.action_counter = 0;
                    self.anim_num = 2;
                    self.vel_x = 0;
                }
                if self.action_counter2 > 4 && p.y < self.y + 0x800 {
                    self.action_num = 200;
                    self.action_counter = 0;
                    self.vel_x = 0;
                    self.vel_y = 0;
                }
            },
            _ => {
                self.anim_num = 2;
                self.action_counter += 1;
                if self.action_counter > 4 {
                    self.action_num = 110;
                }
            },
        }
    }

    fn pignon_charges_exec(&mut self, state: &mut SharedGameState, p: &Player)
        requires
            pignon_in_range(*old(self)),
            npc_coord_ok(p.x),
            -0x10000 <= old(state)@.tile_offset_x <= 0x10000,
            pignon_charging(old(self).action_num),
        ensures
            (*final(self), final(state)@) == pignon_charges(*old(self), old(state)@, *p),
            -0x1100_0000 <= final(self).x <= 0x1100_0000,
            -0x1100_0000 <= final(self).y <= 0x1100_0000,
            -0x1100_0000 <= final(self).vel_x <= 0x1100_0000,
            -0x1100_0000 <= final(self).vel_y <= 0x1100_0000,
            final(self).anim_num <= u16::MAX - 14,
    {
        match self.action_num {
            200 => {
                self.anim_num = 5;
                self.action_counter += 1;
                if self.action_counter > 10 {
                    self.action_num = 210;
                    self.anim_num = 6;
                    self.vel_x = 0x5ff * self.direction.vector_x();
                    state.play_sfx(25);
                    self.npc_flags.set_shootable(false);
                    self.npc_flags.set_invulnerable(true);
                    self.damage = 10;
                }
            },
            210 => {
                self.animate(1, 6, 7);
                if (self.vel_x < 0 && self.flags.hit_left_wall()) || (self.vel_x > 0 && self.flags.hit_right_wall()) {
                    self.action_num = 220;
                }
            },
            220 | 221 => {
                if self.action_num == 220 {
                    self.action_num = 221;
                    self.action_counter = 0;
                    state.quake_counter = 16;
                    state.quake_rumble_counter = 16;
                    state.play_sfx(26);
                    self.damage = 4;
                }
                self.animate(1, 6, 7);
                self.action_counter += 1;
                if self.action_counter % 6 == 0 {
                    self.pignon_drop_exec(state, 314, 0x2000);
                }
                if self.action_counter > 30 {
                    self.action_counter2 = 0;
                    self.action_num = 130;
                    self.npc_flags.set_shootable(true);
                    self.npc_flags.set_invulnerable(false);
                    self.damage = 3;
                }
            },
            300 | 301 => {
                if self.action_num == 300 {
                    self.action_num = 301;
                    self.anim_num = 9;
                    self.face_player(p);
                }
                self.animate(1, 9, 11);
                self.vel_x = if self.direction == Direction::Left {
                    -0x400
                } else {
                    0x400
                };
                if p.x > self.x - 0x800 && p.x < self.x + 0x800 {
                    self.action_num = 310;
                    self.action_counter = 0;
                    self.anim_num = 2;
                    self.vel_x = 0;
                }
            },
            310 => {
                self.anim_num = 2;
                self.action_counter += 1;
                if self.action_counter > 4 {
                    self.action_num = 320;
                    self.anim_num = 12;
                    self.vel_y = -0x800;
                    state.play_sfx(25);
                    self.npc_flags.set_ignore_solidity(true);
                    self.npc_flags.set_shootable(false);
                    self.npc_flags.set_invulnerable(true);
                    self.damage = 10;
                }
            },
            320 => {
                self.animate(1, 12, 13);
                if self.y < 0x2000 {
                    self.action_num = 330;
                }
            },
            _ => {
                if self.action_num == 330 {
                    self.vel_y = 0;
                    self.action_num = 331;
                    self.action_counter = 0;
                    state.quake_counter = 16;
                    state.quake_rumble_counter = 16;
                    state.play_sfx(26);
                }
                self.animate(1, 12, 13);
                self.action_counter += 1;
                if self.action_counter % 6 == 0 {
                    self.pignon_drop_exec(state, 315, 0);
                }
                if self.action_counter > 30 {
                    self.action_counter2 = 0;
                    self.action_num = 130;
                    self.npc_flags.set_shootable(true);
                    self.npc_flags.set_invulnerable(false);
                    self.damage = 3;
                }
            },
        }
    }

    /// Ma Pignon; see `ma_pignon_step`. `bullets` gives the live player
    /// bullets by type.
    pub fn tick_n313_ma_pignon(
        &mut self,
        state: &mut SharedGameState,
        players: &[Player; 2],
        bullets: &BulletCounts,
    )
        requires
            ma_pignon_tickable(*old(self), *players, old(state)@.tile_offset_x),
        ensures
            (*final(self), final(state)@) == ma_pignon_step(*old(self), old(state)@, *players, bullets@),
    {
        let idx = self.get_closest_player_idx(players);
        let p = players[idx];
        let k = self.action_num;
        if k <= 2 || k == 100 || k == 110 || k == 120 || k == 130 || k == 140 {
            self.pignon_hops_exec(state, &p);
        } else if k == 200 || k == 210 || k == 220 || k == 221 || k == 300 || k == 301 || k == 310 || k == 320
            || k == 330 || k == 331 {
            self.pignon_charges_exec(state, &p);
        } else if k == 500 || k == 501 {
            if self.action_num == 500 {
                self.npc_flags.set_shootable(false);
                self.action_num = 501;
                self.action_counter = 0;
                self.anim_num = 8;
                self.target_x = self.x;
                self.damage = 0;
                state.kill_npcs_by_type(315, true);
            }
            self.vel_y += 0x20;
            self.action_counter += 1;
            self.x = self.target_x + if self.action_counter % 2 == 0 {
                0x200
            } else {
                0
            };
        }
        let j = self.action_num;
        if j > 100 && j < 500 && j != 210 && j != 320 {
            let repelled: [u16; 16] = [13, 14, 15, 16, 17, 18, 23, 25, 26, 27, 28, 29, 30, 31, 32, 33];
            proof {
                assert(repelled@ =~= pignon_repelled_types());
            }
            if bullets.any_of_types(&repelled) {
                self.npc_flags.set_shootable(false);
                self.npc_flags.set_invulnerable(true);
            } else {
                self.npc_flags.set_shootable(true);
                self.npc_flags.set_invulnerable(false);
            }
        }
        self.clamp_fall_speed();
        self.x += self.vel_x;
        self.y += self.vel_y;
        self.anim_rect = if self.direction == Direction::Left {
            self.anim_num
        } else {
            self.anim_num + 14
        };
    }
}

/// One tick of the chinfish: bobbing about the height it started at,
/// gliding with its speed, its fins beating (frames 0 and 1) and frame 2
/// while hurt (right-facing frames start 3 in).
pub open spec fn chinfish_step(n: NPC) -> NPC {
    let a0 = if n.action_num == 0 { NPC { action_num: 1, target_x: n.x, target_y: n.y, vel_y: 0x80, ..n } } else { n };
    let a1 = if a0.action_num == 1 {
        let v = a0.vel_y + if a0.target_y < a0.y { -8int } else if a0.target_y > a0.y { 8int } else { 0int };
        NPC { vel_y: clamp(v, -0x100, 0x100) as i32, ..a0 }
    } else {
        a0
    };
    let b = spec_animate(NPC { x: (a1.x + a1.vel_x) as i32, y: (a1.y + a1.vel_y) as i32, ..a1 }, 4, 0, 1);
    let c = if b.shock > 0 { NPC { anim_num: 2, ..b } } else { b };
    NPC { anim_rect: dir_frame(c, 3), ..c }
}

/// One tick of Kanpachi, fishing: he looks up (frame 1) while a player is
/// within 48 pixels across, 48 above or 16 below him.
pub open spec fn kanpachi_step(n: NPC, players: [Player; 2]) -> NPC {
    let a0 = if n.action_num == 0 { NPC { action_num: 1, anim_num: 0, anim_counter: 0, ..n } } else { n };
    let a1 = if a0.action_num == 1 {
        let p = players[closest_player(a0.x, a0.y, players) as int];
        let near = a0.x - 0x6000 < p.x && a0.x + 0x6000 > p.x && a0.y - 0x6000 < p.y && a0.y + 0x2000 > p.y;
        NPC { anim_num: if near { 1 } else { 0 }, ..a0 }
    } else {
        a0
    };
    NPC { anim_rect: a1.anim_num, ..a1 }
}

/// One tick of Mrs. Yamashita: standing and blinking now and then;
/// frame 2 when she faces right.
pub open spec fn yamashita_step(n: NPC) -> NPC {
    let a0 = if n.action_num == 0 { NPC { action_num: 1, anim_num: 0, anim_counter: 0, ..n } } else { n };
    let a1 = if a0.action_num == 1 {
        let (r, m) = roll(a0, 0i32, 120i32);
        if r == 10 { NPC { action_num: 2, action_counter: 0, anim_num: 1, ..m } } else { m }
    } else if a0.action_num == 2 {
        let c = tick_counter(a0);
        if c.action_counter > 8 { NPC { action_num: 1, anim_num: 0, ..c } } else { c }
    } else {
        a0
    };
    NPC { anim_rect: if a1.direction == Direction::Left { a1.anim_num } else { 2 }, ..a1 }
}

/// One tick of Mahin: sitting (0, 1) until the script stands him up;
/// standing and blinking, turning to a player within 32 pixels across, 32
/// above or 16 below (2, 3); gravity, fall speed capped at 3 pixels, the
/// fall, and the frame (right-facing frames start 3 in).
pub open spec fn mahin_step(n: NPC, players: [Player; 2]) -> NPC {
    let k = n.action_num;
    let a = if k == 0 {
        NPC { action_num: 1, anim_num: 2, anim_counter: 0, ..n }
    } else if k == 2 {
        let (r, m) = roll(NPC { anim_num: 0, ..n }, 0i32, 120i32);
        let c = if r == 10 { NPC { action_num: 3, action_counter: 0, anim_num: 1, ..m } } else { m };
        let p = players[closest_player(c.x, c.y, players) as int];
        if c.x - 0x4000 < p.x && c.x + 0x4000 > p.x && c.y - 0x4000 < p.y && c.y + 0x2000 > p.y { face_towards(c, p) } else { c }
    } else if k == 3 {
        let c = tick_counter(n);
        if c.action_counter > 8 { NPC { action_num: 2, anim_num: 0, ..c } } else { c }
    } else {
        n
    };
    let vy0 = a.vel_y + 0x40;
    let vy = if vy0 > 0x5ff { 0x5ff } else { vy0 };
    let m = NPC { vel_y: vy as i32, y: (a.y + vy) as i32, ..a };
    NPC { anim_rect: dir_frame(m, 3), ..m }
}

impl NPC {
    /// The chinfish; see `chinfish_step`.
    pub fn tick_n071_chinfish(&mut self)
        requires
            npc_coord_ok(old(self).x),
            npc_coord_ok(old(self).y),
            npc_coord_ok(old(self).vel_x),
            npc_coord_ok(old(self).vel_y),
            old(self).anim_counter < u16::MAX,
            old(self).anim_num <= u16::MAX - 3,
        ensures
            *final(self) == chinfish_step(*old(self)),
    {
        if self.action_num == 0 {
            self.action_num = 1;
            self.target_x = self.x;
            self.target_y = self.y;
            self.vel_y = 0x80;
        }
        if self.action_num == 1 {
            if self.target_y < self.y {
                self.vel_y -= 8;
            } else if self.target_y > self.y {
                self.vel_y += 8;
            }
            self.vel_y = clamp_i32(self.vel_y, -0x100, 0x100);
        }
        self.x += self.vel_x;
        self.y += self.vel_y;
        self.animate(4, 0, 1);
        if self.shock > 0 {
            self.anim_num = 2;
        }
        self.anim_rect = if self.direction == Direction::Left {
            self.anim_num
        } else {
            self.anim_num + 3
        };
    }

    /// Kanpachi; see `kanpachi_step`.
    pub fn tick_n075_kanpachi(&mut self, players: &[Player; 2])
        requires
            npc_coord_ok(old(self).x),
            npc_coord_ok(old(self).y),
        ensures
            *final(self) == kanpachi_step(*old(self), *players),
    {
        if self.action_num == 0 {
            self.action_num = 1;
            self.anim_num = 0;
            self.anim_counter = 0;
        }
        if self.action_num == 1 {
            let p = players[self.get_closest_player_idx(players)];
            self.anim_num = if self.x - 0x6000 < p.x && self.x + 0x6000 > p.x && self.y - 0x6000 < p.y && self.y
                + 0x2000 > p.y {
                1
            } else {
                0
            };
        }
        self.anim_rect = self.anim_num;
    }

    /// Mrs. Yamashita; see `yamashita_step`.
    pub fn tick_n077_yamashita(&mut self)
        requires
            old(self).action_num == 2 ==> old(self).action_counter < u16::MAX,
        ensures
            *final(self) == yamashita_step(*old(self)),
    {
        if self.action_num == 0 {
            self.action_num = 1;
            self.anim_num = 0;
            self.anim_counter = 0;
        }
        if self.action_num == 1 {
            if self.rng.range(0..120) == 10 {
                self.action_num = 2;
                self.action_counter = 0;
                self.anim_num = 1;
            }
        } else if self.action_num == 2 {
            self.action_counter += 1;
            if self.action_counter > 8 {
                self.action_num = 1;
                self.anim_num = 0;
            }
        }
        self.anim_rect = if self.direction == Direction::Left {
            self.anim_num
        } else {
            2
        };
    }

    /// Mahin; see `mahin_step`.
    pub fn tick_n079_mahin(&mut self, players: &[Player; 2])
        requires
            npc_coord_ok(old(self).x),
            npc_coord_ok(old(self).y),
            npc_coord_ok(old(self).vel_y),
            old(self).action_num == 3 ==> old(self).action_counter < u16::MAX,
            old(self).anim_num <= u16::MAX - 3,
        ensures
            *final(self) == mahin_step(*old(self), *players),
    {
        match self.action_num {
            0 => {
                self.action_num = 1;
                self.anim_num = 2;
                self.anim_counter = 0;
            },
            2 => {
                self.anim_num = 0;
                if self.rng.range(0..120) == 10 {
                    self.action_num = 3;
                    self.action_counter = 0;
                    self.anim_num = 1;
                }
                let p = players[self.get_closest_player_idx(players)];
                if self.x - 0x4000 < p.x && self.x + 0x4000 > p.x && self.y - 0x4000 < p.y && self.y + 0x2000 > p.y {
                    self.face_player(&p);
                }
            },
            3 => {
                self.action_counter += 1;
                if self.action_counter > 8 {
                    self.action_num = 2;
                    self.anim_num = 0;
                }
            },
            _ => {},
        }
        self.vel_y += 0x40;
        self.clamp_fall_speed();
        self.y += self.vel_y;
        self.anim_rect = if self.direction == Direction::Left {
            self.anim_num
        } else {
            self.anim_num + 3
        };
    }

    /// The Mimiga cage: lowered 16 pixels into place, once.
    pub fn tick_n091_mimiga_cage(&mut self)
        requires
            npc_coord_ok(old(self).y),
        ensures
            *final(self) == (if old(self).action_num == 0 {
                NPC { action_num: 1, y: (old(self).y + 0x2000) as i32, anim_rect: 0, ..*old(self) }
            } else {
                *old(self)
            }),
    {
        if self.action_num == 0 {
            self.action_num = 1;
            self.y += 0x2000;
            self.anim_rect = 0;
        }
    }
}


/// The idle choices of a pignon (0, 1): a blink one time in 101, else a
/// turn one time in 151 and a walk one time in 151.
pub open spec fn pignon_idle(b: NPC) -> NPC {
    let (r1, m1) = roll(b, 0i32, 100i32);
    if r1 == 1 {
        NPC { action_num: 2, action_counter: 0, anim_num: 1, ..m1 }
    } else {
        let (r2, m2) = roll(m1, 0i32, 150i32);
        let m3 = if r2 == 1 { NPC { direction: spec_opposite(m2.direction), ..m2 } } else { m2 };
        let (r3, m4) = roll(m3, 0i32, 150i32);
        if r3 == 1 { NPC { action_num: 3, action_counter: 50, anim_num: 0, ..m4 } } else { m4 }
    }
}

/// Whether an idle pignon turns round this tick.
pub open spec fn pignon_turns(b: NPC) -> bool {
    let (r1, m1) = roll(b, 0i32, 100i32);
    r1 != 1 && roll(m1, 0i32, 150i32).0 == 1
}

pub open spec fn pignon_started(n: NPC) -> NPC {
    if n.action_num == 0 { NPC { action_num: 1, anim_num: 0, anim_counter: 0, vel_x: 0, ..n } } else { n }
}

/// One tick of a pignon (the small mushrooms of the graveyard): idle,
/// blinking, turning and setting off now and then (0 to 2); walking for 50
/// ticks at half a pixel a tick, turning at walls (3, 4); knocked up when
/// hurt while idle, blinking or walking (5) until it lands; gravity, fall
/// speed capped at 3 pixels (right-facing frames start 6 in).
pub open spec fn pignon_step(n: NPC) -> NPC {
    let k = n.action_num;
    let f = n.flags.0;
    let a = if k <= 1 {
        pignon_idle(pignon_started(n))
    } else if k == 2 {
        let c = tick_counter(n);
        if c.action_counter > 8 { NPC { action_num: 1, anim_num: 0, ..c } } else { c }
    } else if k == 3 || k == 4 {
        let b = if k == 3 { NPC { action_num: 4, anim_num: 2, anim_counter: 0, ..n } } else { n };
        let t: u16 = if b.action_counter == 0 { 0 } else { (b.action_counter - 1) as u16 };
        let c = spec_animate(NPC { action_counter: t, action_num: if t == 0 { 0 } else { b.action_num }, ..b }, 2, 2, 4);
        let d1 = if f & FLAG_HIT_LEFT_WALL != 0 { Direction::Right } else { c.direction };
        let d2 = if f & FLAG_HIT_RIGHT_WALL != 0 { Direction::Left } else { d1 };
        NPC { direction: d2, vel_x: (spec_vector_x(d2) * 0x100) as i32, ..c }
    } else if k == 5 {
        if f & FLAG_HIT_BOTTOM_WALL != 0 { NPC { action_num: 0, ..n } } else { n }
    } else {
        n
    };
    let s = if a.shock > 0 && (a.action_num == 1 || a.action_num == 2 || a.action_num == 4) {
        NPC { vel_y: -0x200i32, anim_num: 5, action_num: 5, ..a }
    } else {
        a
    };
    let vy0 = s.vel_y + 0x40;
    let vy = if vy0 > 0x5ff { 0x5ff } else { vy0 };
    let m = NPC { vel_y: vy as i32, x: (s.x + s.vel_x) as i32, y: (s.y + vy) as i32, ..s };
    NPC { anim_rect: dir_frame(m, 6), ..m }
}

impl NPC {
    fn pignon_idle_exec(&mut self)
        requires
            pignon_turns(*old(self)) ==> old(self).direction != Direction::FacingPlayer,
        ensures
            *final(self) == pignon_idle(*old(self)),
    {
        if self.rng.range(0..100) == 1 {
            self.action_num = 2;
            self.action_counter = 0;
            self.anim_num = 1;
        } else {
            if self.rng.range(0..150) == 1 {
                self.direction = self.direction.opposite();
            }
            if self.rng.range(0..150) == 1 {
                self.action_num = 3;
                self.action_counter = 50;
                self.anim_num = 0;
            }
        }
    }

    /// A pignon; see `pignon_step`.
    pub fn tick_n069_pignon(&mut self)
        requires
            npc_coord_ok(old(self).x),
            npc_coord_ok(old(self).y),
            npc_coord_ok(old(self).vel_x),
            npc_coord_ok(old(self).vel_y),
            old(self).action_num <= 1 && pignon_turns(pignon_started(*old(self))) ==> old(self).direction
                != Direction::FacingPlayer,
            old(self).action_num == 2 ==> old(self).action_counter < u16::MAX,
            old(self).action_num == 3 || old(self).action_num == 4 ==> old(self).anim_counter < u16::MAX
                && old(self).anim_num < u16::MAX,
            old(self).anim_num <= u16::MAX - 6,
        ensures
            *final(self) == pignon_step(*old(self)),
    {
        let k = self.action_num;
        if k <= 1 {
            if k == 0 {
                self.action_num = 1;
                self.anim_num = 0;
                self.anim_counter = 0;
                self.vel_x = 0;
            }
            self.pignon_idle_exec();
        } else if k == 2 {
            self.action_counter += 1;
            if self.action_counter > 8 {
                self.action_num = 1;
                self.anim_num = 0;
            }
        } else if k == 3 || k == 4 {
            if k == 3 {
                self.action_num = 4;
                self.anim_num = 2;
                self.anim_counter = 0;
            }
            self.action_counter = if self.action_counter == 0 {
                0
            } else {
                self.action_counter - 1
            };
            if self.action_counter == 0 {
                self.action_num = 0;
            }
            self.animate(2, 2, 4);
            if self.flags.hit_left_wall() {
                self.direction = Direction::Right;
            }
            if self.flags.hit_right_wall() {
                self.direction = Direction::Left;
            }
            self.vel_x = self.direction.vector_x() * 0x100;
        } else if k == 5 {
            if self.flags.hit_bottom_wall() {
                self.action_num = 0;
            }
        }
        if self.shock > 0 && (self.action_num == 1 || self.action_num == 2 || self.action_num == 4) {
            self.vel_y = -0x200;
            self.anim_num = 5;
            self.action_num = 5;
        }
        self.vel_y += 0x40;
        self.clamp_fall_speed();
        self.x += self.vel_x;
        self.y += self.vel_y;
        self.anim_rect = if self.direction == Direction::Left {
            self.anim_num
        } else {
            self.anim_num + 6
        };
    }
}


/// One tick of the gravekeeper: waiting, harmless and not shootable (0, 1),
/// facing the nearest player, until one is within 128 pixels across, 48
/// above or 32 below, or he is hurt; then walking at them (2) at half a
/// pixel a tick; within 16 pixels he raises his knife (3, sound 34,
/// shootable, a wider reach), swings it after 41 ticks (4, sound 106, 10
/// damage) and holds it 61 ticks (5); walls stop him; gravity with a cap
/// of 3 pixels (right-facing frames start 7 in).
pub open spec fn gravekeeper_step(n: NPC, st: StateView, players: [Player; 2]) -> (NPC, StateView) {
    let p = players[closest_player(n.x, n.y, players) as int];
    let k = n.action_num;
    let (a, st1) = if k == 0 || k == 1 {
        let b = if k == 0 {
            NPC { damage: 0, action_num: 1, hit_bounds: Rect { left: 0x800, ..n.hit_bounds }, ..shootable(n, false) }
        } else {
            n
        };
        let c0 = NPC { anim_num: 0, ..b };
        let near = -0x10000 < p.x - c0.x < 0x10000 && c0.y - 0x6000 < p.y && c0.y + 0x4000 > p.y;
        let c1 = if near { NPC { anim_counter: 0, action_num: 2, ..c0 } } else { c0 };
        let c2 = if c1.shock > 0 { NPC { anim_num: 1, anim_counter: 0, action_num: 2, ..shootable(c1, false) } } else { c1 };
        (face_towards(c2, p), st)
    } else if k == 2 {
        let b = spec_animate(n, 6, 0, 3);
        let (c, s) = if -0x2000 < p.x - b.x < 0x2000 {
            (
                NPC { hit_bounds: Rect { left: 0x2400, ..b.hit_bounds }, action_counter: 0, action_num: 3, ..shootable(b, true) },
                with_sound(st, 34),
            )
        } else {
            (b, st)
        };
        let d = face_towards(c, p);
        (NPC { vel_x: (spec_vector_x(d.direction) * 0x100) as i32, ..d }, s)
    } else if k == 3 {
        let c = tick_counter(NPC { anim_num: 4, vel_x: 0, ..n });
        if c.action_counter > 40 { (NPC { action_counter: 0, action_num: 4, ..c }, with_sound(st, 106)) } else { (c, st) }
    } else if k == 4 {
        let c = tick_counter(NPC { anim_num: 5, damage: 10, ..n });
        (if c.action_counter > 2 { NPC { action_counter: 0, action_num: 5, ..c } } else { c }, st)
    } else if k == 5 {
        let c = tick_counter(n);
        (NPC { action_num: if c.action_counter > 60 { 0 } else { 5 }, anim_num: 6, ..c }, st)
    } else {
        (n, st)
    };
    let f = a.flags.0;
    let vx0 = if (a.vel_x < 0 && f & FLAG_HIT_LEFT_WALL != 0) || (a.vel_x > 0 && f & FLAG_HIT_RIGHT_WALL != 0) {
        0int
    } else {
        a.vel_x as int
    };
    let vx = clamp(vx0, -0x400, 0x400);
    let vy = clamp(a.vel_y + 0x20, -0x5ff, 0x5ff);
    let m = NPC { vel_x: vx as i32, vel_y: vy as i32, x: (a.x + vx) as i32, y: (a.y + vy) as i32, ..a };
    (NPC { anim_rect: dir_frame(m, 7), ..m }, st1)
}

impl NPC {
    /// The gravekeeper; see `gravekeeper_step`.
    pub fn tick_n080_gravekeeper(&mut self, state: &mut SharedGameState, players: &[Player; 2])
        requires
            npc_coord_ok(old(self).x),
            npc_coord_ok(old(self).y),
            npc_coord_ok(old(self).vel_x),
            npc_coord_ok(old(self).vel_y),
            npc_coord_ok(players[0].x),
            npc_coord_ok(players[1].x),
            old(self).action_num >= 3 && old(self).action_num <= 5 ==> old(self).action_counter < u16::MAX,
            old(self).action_num == 2 ==> old(self).anim_counter < u16::MAX && old(self).anim_num < u16::MAX,
            old(self).anim_num <= u16::MAX - 7,
        ensures
            (*final(self), final(state)@) == gravekeeper_step(*old(self), old(state)@, *players),
    {
        let p = players[self.get_closest_player_idx(players)];
        let k = self.action_num;
        if k == 0 || k == 1 {
            if k == 0 {
                self.npc_flags.set_shootable(false);
                self.damage = 0;
                self.action_num = 1;
                self.hit_bounds.left = 0x800;
            }
            self.anim_num = 0;
            if -0x10000 < p.x - self.x && p.x - self.x < 0x10000 && self.y - 0x6000 < p.y && self.y + 0x4000 > p.y {
                self.anim_counter = 0;
                self.action_num = 2;
            }
            if self.shock > 0 {
                self.anim_num = 1;
                self.anim_counter = 0;
                self.action_num = 2;
                self.npc_flags.set_shootable(false);
            }
            self.face_player(&p);
        } else if k == 2 {
            self.animate(6, 0, 3);
            if -0x2000 < p.x - self.x && p.x - self.x < 0x2000 {
                self.hit_bounds.left = 0x2400;
                self.action_counter = 0;
                self.action_num = 3;
                self.npc_flags.set_shootable(true);
                state.play_sfx(34);
            }
            self.face_player(&p);
            self.vel_x = self.direction.vector_x() * 0x100;
        } else if k == 3 {
            self.anim_num = 4;
            self.vel_x = 0;
            self.action_counter += 1;
            if self.action_counter > 40 {
                self.action_counter = 0;
                self.action_num = 4;
                state.play_sfx(106);
            }
        } else if k == 4 {
            self.anim_num = 5;
            self.damage = 10;
            self.action_counter += 1;
            if self.action_counter > 2 {
                self.action_counter = 0;
                self.action_num = 5;
            }
        } else if k == 5 {
            self.action_counter += 1;
            if self.action_counter > 60 {
                self.action_num = 0;
            }
            self.anim_num = 6;
        }
        if (self.vel_x < 0 && self.flags.hit_left_wall()) || (self.vel_x > 0 && self.flags.hit_right_wall()) {
            self.vel_x = 0;
        }
        self.vel_x = clamp_i32(self.vel_x, -0x400, 0x400);
        self.vel_y = clamp_i32(self.vel_y + 0x20, -0x5ff, 0x5ff);
        self.x += self.vel_x;
        self.y += self.vel_y;
        self.anim_rect = if self.direction == Direction::Left {
            self.anim_num
        } else {
            self.anim_num + 7
        };
    }
}

} // verus!
