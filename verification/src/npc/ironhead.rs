//! Ironhead: the boss of the Waterway, swimming across the screen while
//! the current carries porcupine fish at the player.

use vstd::prelude::*;

use crate::common::Direction;
use crate::game_state::{with_sound, with_spawn, with_type_kill, SharedGameState, StateView};
use crate::npc::ai::misery::{clamp, clamp_i32, shootable, tick_counter};
use crate::npc::ai::npc_coord_ok;
use crate::npc::boss::BossNPC;
use crate::npc::core_boss::{core_puff, core_puffs, fresh};
use crate::npc::{
    closest_player, roll, set_alive_spec, spec_animate, with_bits16, NPCFlag, Player, Rect, NPC,
    NPC_EVENT_WHEN_KILLED, NPC_IGNORE_SOLIDITY, NPC_SHOOTABLE, NPC_SHOW_DAMAGE,
};

verus! {

/// State 0: Ironhead set up at the left of the screen, facing right.
pub open spec fn ironhead_setup(b: NPC) -> NPC {
    NPC {
        exp: 1,
        direction: Direction::Right,
        action_num: 100,
        x: 0x14000,
        y: 0x10000,
        npc_flags: NPCFlag(
            with_bits16(
                with_bits16(
                    with_bits16(with_bits16(b.npc_flags.0, NPC_EVENT_WHEN_KILLED, true), NPC_SHOOTABLE, true),
                    NPC_IGNORE_SOLIDITY,
                    true,
                ),
                NPC_SHOW_DAMAGE,
                true,
            ),
        ),
        size: 3,
        damage: 10,
        event_num: 1000,
        life: 400,
        display_bounds: Rect { left: 0x5000, top: 0x1800, right: 0x3000, bottom: 0x1800 },
        hit_bounds: Rect { left: 0x2000, top: 0x1400, right: 0x2000, bottom: 0x1400 },
        ..set_alive_spec(b, true)
    }
}

/// States 100 and 101: off screen for 50 ticks, sending porcupine fish
/// (type 197) from the right every fourth tick.
pub open spec fn ironhead_waiting(b: NPC, st: StateView) -> (NPC, StateView) {
    let a = if b.action_num == 100 { NPC { action_num: 101, action_counter: 0, ..shootable(b, false) } } else { b };
    let c = tick_counter(a);
    let d = if c.action_counter > 50 { NPC { action_num: 250, action_counter: 0, ..c } } else { c };
    if d.action_counter % 4 == 0 {
        let (rx, m1) = roll(d, 15i32, 18i32);
        let (ry, m2) = roll(m1, 2i32, 13i32);
        let ts = st.tile_size;
        (m2, with_spawn(st, 0x100, fresh(st, 197, rx * ts * 0x200, ry * ts * 0x200)))
    } else {
        (d, st)
    }
}

/// States 250 and 251: a pass across the screen, rightwards level with the
/// player, or leftwards drifting towards them and firing three bubbles
/// (type 198) at ticks 300, 310 and 320; at the far side it turns and waits
/// (100).
pub open spec fn ironhead_pass(b: NPC, st: StateView, p: Player) -> (NPC, StateView) {
    let sb = st.tile_offset_x * 0x2000;
    let right = b.direction == Direction::Right;
    let a = if b.action_num == 250 {
        let (x, y, m) = if right {
            ((0x1e000 - sb) as i32, p.y, b)
        } else {
            let (ry, m1) = roll(b, 2i32, 13i32);
            ((0x5a000 + sb) as i32, (ry * st.tile_size * 0x200) as i32, m1)
        };
        let (vy, m2) = roll(m, -0x200i32, 0x200i32);
        let (vx, m3) = roll(m2, -0x200i32, 0x200i32);
        NPC { action_num: 251, x, y, target_x: x, target_y: y, vel_y: vy, vel_x: vx, ..shootable(m3, true) }
    } else {
        b
    };
    let t = if right {
        NPC { target_x: (a.target_x + 0x400) as i32, ..a }
    } else {
        NPC {
            target_x: (a.target_x - 0x200) as i32,
            target_y: (if a.target_y >= p.y { a.target_y - 0x200 } else { a.target_y + 0x200 }) as i32,
            ..a
        }
    };
    let vx = t.vel_x + if t.x >= t.target_x { -8int } else { 8int };
    let vy = clamp(t.vel_y + if t.y >= t.target_y { -8int } else { 8int }, -0x200, 0x200);
    let m = NPC { vel_x: vx as i32, vel_y: vy as i32, x: (t.x + vx) as i32, y: (t.y + vy) as i32, ..t };
    let e = if right {
        if m.x > 0x5a000 + sb { NPC { direction: Direction::Left, action_num: 100, ..m } } else { m }
    } else if m.x < 0x22000 - sb {
        NPC { direction: Direction::Right, action_num: 100, ..m }
    } else {
        m
    };
    let (f, s) = if e.direction == Direction::Left {
        let c = tick_counter(e);
        if c.action_counter == 300 || c.action_counter == 310 || c.action_counter == 320 {
            let (rx, m1) = roll(c, -3i32, 0i32);
            let (ry, m2) = roll(m1, -3i32, 3i32);
            let bubble = NPC {
                vel_x: (rx * 0x200) as i32,
                vel_y: (ry * 0x200) as i32,
                direction: Direction::Right,
                ..fresh(st, 198, c.x + 0x1400, c.y + 0x200)
            };
            (m2, with_spawn(with_sound(st, 39), 0x100, bubble))
        } else {
            (c, st)
        }
    } else {
        (e, st)
    };
    (spec_animate(f, 2, 0, 7), s)
}

/// States 1000 and 1001: defeated, it shakes, drifts left and smokes; the
/// fish and the bubbles are cleared.
pub open spec fn ironhead_defeated(b: NPC, st: StateView) -> (NPC, StateView) {
    let (a, s) = if b.action_num == 1000 {
        let a0 = NPC { action_num: 1001, anim_num: 8, damage: 0, target_x: b.x, target_y: b.y, ..shootable(b, false) };
        let (m, s0) = core_puffs(a0, StateView { quake_counter: 20, quake_rumble_counter: 20, ..st }, 32);
        (m, with_type_kill(with_type_kill(with_type_kill(s0, 197, true), 271, true), 272, true))
    } else {
        (b, st)
    };
    let tx = a.target_x - 0x200;
    let (rx, m1) = roll(NPC { target_x: tx as i32, ..a }, -1i32, 1i32);
    let (ry, m2) = roll(m1, -1i32, 1i32);
    let c = NPC { x: (tx + rx * 0x200) as i32, y: (m2.target_y + ry * 0x200) as i32, ..m2 };
    if c.action_counter % 4 == 0 { core_puff(c, s, 0x80, 0x40) } else { (c, s) }
}

/// One tick of Ironhead (`ps` its parts): the body's state step, and the
/// frame, which flickers while it is hurt (counted in part 19).
pub open spec fn ironhead_step(ps: Seq<NPC>, hurt: Seq<u8>, st: StateView, players: [Player; 2]) -> (Seq<NPC>, Seq<u8>, StateView) {
    let b = ps[0];
    let k = b.action_num;
    let (a, h, s) = if k == 0 {
        (ironhead_setup(b), hurt.update(0, 54), st)
    } else if k == 100 || k == 101 {
        let (a, s) = ironhead_waiting(b, st);
        (a, hurt, s)
    } else if k == 250 || k == 251 {
        let (a, s) = ironhead_pass(b, st, players[closest_player(b.x, b.y, players) as int]);
        (a, hurt, s)
    } else if k == 1000 || k == 1001 {
        let (a, s) = ironhead_defeated(b, st);
        (a, hurt, s)
    } else {
        (b, hurt, st)
    };
    let f = ps[19];
    let (f2, offset) = if a.shock != 0 {
        let c = (f.action_counter + 1) as u16;
        (NPC { action_counter: c, ..f }, if c & 2 != 0 { 0u16 } else { 9u16 })
    } else {
        (f, 0u16)
    };
    (ps.update(0, NPC { anim_rect: (a.anim_num + offset) as u16, ..a }).update(19, f2), h, s)
}

/// Room for the defeated body to drift one step left and shake by a pixel.
pub open spec fn ironhead_drift_ok(tx: i32, ty: i32) -> bool {
    -0x1000_0000 + 0x400 <= tx <= 0x1000_0000 && -0x1000_0000 + 0x200 <= ty <= 0x1000_0000 - 0x200
}

/// Inputs a tick of Ironhead computes in range on.
pub open spec fn ironhead_tickable(ps: Seq<NPC>, players: [Player; 2], st: StateView) -> bool {
    let b = ps[0];
    let k = b.action_num;
    &&& ps.len() == 20
    &&& npc_coord_ok(b.x)
    &&& npc_coord_ok(b.y)
    &&& npc_coord_ok(b.vel_x)
    &&& npc_coord_ok(b.vel_y)
    &&& npc_coord_ok(b.target_x)
    &&& npc_coord_ok(b.target_y)
    &&& npc_coord_ok(players[0].x)
    &&& npc_coord_ok(players[0].y)
    &&& npc_coord_ok(players[1].x)
    &&& npc_coord_ok(players[1].y)
    &&& 1 <= st.tile_size <= 16
    &&& -0x10000 <= st.tile_offset_x <= 0x10000
    &&& (k == 101 || k == 250 || k == 251) ==> b.action_counter < u16::MAX
    &&& k == 1000 ==> ironhead_drift_ok(b.x, b.y)
    &&& k == 1001 ==> ironhead_drift_ok(b.target_x, b.target_y)
    &&& (k == 250 || k == 251) ==> b.anim_counter < u16::MAX
    &&& b.shock != 0 ==> ps[19].action_counter < u16::MAX
    &&& b.anim_num <= u16::MAX - 9
}

impl BossNPC {
    #[verifier::rlimit(40)]
    #[verifier::spinoff_prover]
    fn ironhead_pass_exec(b: &mut NPC, state: &mut SharedGameState, p: &Player)
        requires
            npc_coord_ok(old(b).x),
            npc_coord_ok(old(b).y),
            npc_coord_ok(old(b).vel_x),
            npc_coord_ok(old(b).vel_y),
            npc_coord_ok(old(b).target_x),
            npc_coord_ok(old(b).target_y),
            npc_coord_ok(p.y),
            1 <= old(state)@.tile_size <= 16,
            -0x10000 <= old(state)@.tile_offset_x <= 0x10000,
            old(b).action_num == 250 || old(b).action_num == 251,
            old(b).action_counter < u16::MAX,
            old(b).anim_counter < u16::MAX,
            old(b).anim_num <= u16::MAX - 9,
        ensures
            (*final(b), final(state)@) == ironhead_pass(*old(b), old(state)@, *p),
            final(b).anim_num <= u16::MAX - 9,
    {
        let sb = state.tile_offset_x * 0x2000;
        let right = b.direction == Direction::Right;
        if b.action_num == 250 {
            b.action_num = 251;
            if right {
                b.x = 0x1e000 - sb;
                b.y = p.y;
            } else {
                b.x = 0x5a000 + sb;
                let ry = b.rng.range(2..13);
                let ts = state.tile_size;
                assert(0 <= ry * ts * 0x200 <= 13 * 16 * 0x200) by (nonlinear_arith)
                    requires
                        2 <= ry <= 13,
                        1 <= ts <= 16,
                ;
                b.y = ry * ts * 0x200;
            }
            b.target_x = b.x;
            b.target_y = b.y;
            b.vel_y = b.rng.range(-0x200..0x200);
            b.vel_x = b.rng.range(-0x200..0x200);
            b.npc_flags.set_shootable(true);
        }
        if right {
            b.target_x += 0x400;
        } else {
            b.target_x -= 0x200;
            if b.target_y >= p.y {
                b.target_y -= 0x200;
            } else {
                b.target_y += 0x200;
            }
        }
        b.vel_x += if b.x >= b.target_x {
            -8
        } else {
            8
        };
        b.vel_y += if b.y >= b.target_y {
            -8
        } else {
            8
        };
        b.vel_y = clamp_i32(b.vel_y, -0x200, 0x200);
        b.x += b.vel_x;
        b.y += b.vel_y;
        if right {
            if b.x > 0x5a000 + sb {
                b.direction = Direction::Left;
                b.action_num = 100;
            }
        } else if b.x < 0x22000 - sb {
            b.direction = Direction::Right;
            b.action_num = 100;
        }
        if b.direction == Direction::Left {
            b.action_counter += 1;
            if b.action_counter == 300 || b.action_counter == 310 || b.action_counter == 320 {
                state.play_sfx(39);
                let mut npc = state.create_npc(198);
                npc.cond.set_alive(true);
                npc.x = b.x + 0x1400;
                npc.y = b.y + 0x200;
                npc.vel_x = b.rng.range(-3..0) * 0x200;
                npc.vel_y = b.rng.range(-3..3) * 0x200;
                npc.direction = Direction::Right;
                state.spawn_npc(0x100, npc);
            }
        }
        b.animate(2, 0, 7);
    }

    fn ironhead_setup_exec(b: &mut NPC)
        ensures
            *final(b) == ironhead_setup(*old(b)),
    {
        b.cond.set_alive(true);
        b.exp = 1;
        b.direction = Direction::Right;
        b.action_num = 100;
        b.x = 0x14000;
        b.y = 0x10000;
        b.npc_flags.set_event_when_killed(true);
        b.npc_flags.set_shootable(true);
        b.npc_flags.set_ignore_solidity(true);
        b.npc_flags.set_show_damage(true);
        b.size = 3;
        b.damage = 10;
        b.event_num = 1000;
        b.life = 400;
        b.display_bounds = Rect { left: 0x5000, top: 0x1800, right: 0x3000, bottom: 0x1800 };
        b.hit_bounds = Rect { left: 0x2000, top: 0x1400, right: 0x2000, bottom: 0x1400 };
    }

    fn ironhead_wait_exec(b: &mut NPC, state: &mut SharedGameState)
        requires
            1 <= old(state)@.tile_size <= 16,
            old(b).action_num == 100 || old(b).action_num == 101,
            old(b).action_num == 101 ==> old(b).action_counter < u16::MAX,
        ensures
            (*final(b), final(state)@) == ironhead_waiting(*old(b), old(state)@),
            final(b).anim_num == old(b).anim_num,
            final(b).shock == old(b).shock,
    {
        if b.action_num == 100 {
            b.action_num = 101;
            b.action_counter = 0;
            b.npc_flags.set_shootable(false);
        }
        b.action_counter += 1;
        if b.action_counter > 50 {
            b.action_num = 250;
            b.action_counter = 0;
        }
        if b.action_counter % 4 == 0 {
            let mut npc = state.create_npc(197);
            npc.cond.set_alive(true);
            let rx = b.rng.range(15..18);
            let ts = state.tile_size;
            assert(0 <= rx * ts * 0x200 <= 18 * 16 * 0x200) by (nonlinear_arith)
                requires
                    15 <= rx <= 18,
                    1 <= ts <= 16,
            ;
            npc.x = rx * ts * 0x200;
            let ry = b.rng.range(2..13);
            assert(0 <= ry * ts * 0x200 <= 13 * 16 * 0x200) by (nonlinear_arith)
                requires
                    2 <= ry <= 13,
                    1 <= ts <= 16,
            ;
            npc.y = ry * ts * 0x200;
            state.spawn_npc(0x100, npc);
        }
    }

    fn ironhead_defeat_exec(b: &mut NPC, state: &mut SharedGameState)
        requires
            old(b).action_num == 1000 || old(b).action_num == 1001,
            old(b).action_num == 1000 ==> ironhead_drift_ok(old(b).x, old(b).y),
            old(b).action_num == 1001 ==> ironhead_drift_ok(old(b).target_x, old(b).target_y),
        ensures
            (*final(b), final(state)@) == ironhead_defeated(*old(b), old(state)@),
            final(b).anim_num == (if old(b).action_num == 1000 { 8 } else { old(b).anim_num }),
            final(b).shock == old(b).shock,
    {
        if b.action_num == 1000 {
            b.action_num = 1001;
            b.anim_num = 8;
            b.npc_flags.set_shootable(false);
            b.damage = 0;
            b.target_x = b.x;
            b.target_y = b.y;
            state.quake_counter = 20;
            state.quake_rumble_counter = 20;
            let ghost b0 = *b;
            let ghost s0 = state@;
            let mut i: usize = 0;
            while i < 32
                invariant
                    i <= 32,
                    *b == (NPC { rng: b.rng, ..b0 }),
                    npc_coord_ok(b0.x),
                    npc_coord_ok(b0.y),
                    state@.npc_table == s0.npc_table,
                    (*b, state@) == core_puffs(b0, s0, i as nat),
                decreases 32 - i,
            {
                b.core_puff_exec(state, 0x80, 0x40);
                i += 1;
            }
            state.kill_npcs_by_type(197, true);
            state.kill_npcs_by_type(271, true);
            state.kill_npcs_by_type(272, true);
        }
        b.target_x -= 0x200;
        b.x = b.target_x + b.rng.range(-1..1) * 0x200;
        b.y = b.target_y + b.rng.range(-1..1) * 0x200;
        if b.action_counter % 4 == 0 {
            b.core_puff_exec(state, 0x80, 0x40);
        }
    }

    /// Ironhead; see `ironhead_step`.
    pub fn tick_b05_ironhead(&mut self, state: &mut SharedGameState, players: &[Player; 2])
        requires
            ironhead_tickable(old(self).parts@, *players, old(state)@),
        ensures
            (final(self).parts@, final(self).hurt_sound@, final(state)@) == ironhead_step(
                old(self).parts@,
                old(self).hurt_sound@,
                old(state)@,
                *players,
            ),
            final(self).boss_type == old(self).boss_type,
            final(self).death_sound == old(self).death_sound,
    {
        let mut b = self.parts[0];
        match b.action_num {
            0 => {
                BossNPC::ironhead_setup_exec(&mut b);
                self.hurt_sound[0] = 54;
            },
            100 | 101 => {
                BossNPC::ironhead_wait_exec(&mut b, state);
            },
            250 | 251 => {
                let idx = b.get_closest_player_idx(players);
                BossNPC::ironhead_pass_exec(&mut b, state, &players[idx]);
            },
            1000 | 1001 => {
                BossNPC::ironhead_defeat_exec(&mut b, state);
            },
            _ => {},
        }
        let mut f = self.parts[19];
        let offset: u16 = if b.shock != 0 {
            f.action_counter += 1;
            if f.action_counter & 2 != 0 {
                0
            } else {
                9
            }
        } else {
            0
        };
        b.anim_rect = b.anim_num + offset;
        self.parts[0] = b;
        self.parts[19] = f;
    }
}

} // verus!
