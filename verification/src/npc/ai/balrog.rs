//! Balrog in cutscenes (idling, jumping off, smashing through ceilings)
//! and in the fight where he shoots missiles and grabs the player.

use vstd::prelude::*;

use crate::common::{spec_opposite, spec_vector_x, Direction};
use crate::game_state::{with_aim, with_player_damage, with_sound, with_spawn, with_type_kill, SharedGameState, StateView};
use crate::npc::core_boss::fresh;
use crate::npc::ai::balcony::alive_at;
use crate::npc::ai::misery::{clamp, clamp_i32, tick_counter};
use crate::npc::ai::{dir_frame, npc_coord_ok, scale_i32, trunc_div};
use crate::npc::{
    closest_player, roll, set_alive_spec, spec_animate, table_npc, with_bits16, Condition, NPCFlag, Player, NPC,
    COND_ALIVE, COND_HIDDEN, FLAG_HIT_BOTTOM_WALL, FLAG_HIT_LEFT_WALL, FLAG_HIT_RIGHT_WALL,
    NPC_IGNORE_SOLIDITY,
};
use crate::stage::{spec_change_tile, Stage};

verus! {

/// On entering a state: when set to face the player, facing the targeted
/// player (right when level with it).
pub open spec fn face_if_asked(n: NPC, players: [Player; 2]) -> NPC {
    if n.direction == Direction::FacingPlayer {
        let p = players[closest_player(n.x, n.y, players) as int];
        NPC {
            direction: if n.x <= p.x {
                Direction::Right
            } else {
                Direction::Left
            },
            ..n
        }
    } else {
        n
    }
}

/// A puff of smoke thrown from within 12 pixels of Balrog, drawn from his
/// generator.
pub open spec fn balrog_puff(n: NPC, st: StateView) -> (NPC, StateView) {
    let (rx, a) = roll(n, -12i32, 12i32);
    let (ry, b) = roll(a, -12i32, 12i32);
    let (vx, c) = roll(b, -0x155i32, 0x155i32);
    let (vy, d) = roll(c, -0x600i32, 0i32);
    let puff = NPC {
        direction: Direction::Left,
        x: (n.x + rx * 0x200) as i32,
        y: (n.y + ry * 0x200) as i32,
        vel_x: vx,
        vel_y: vy,
        ..set_alive_spec(table_npc(4, st.npc_table), true)
    };
    (d, with_spawn(st, 0x100, puff))
}

pub open spec fn balrog_puffs(n: NPC, st: StateView, k: nat) -> (NPC, StateView)
    decreases k,
{
    if k == 0 {
        (n, st)
    } else {
        let (m, s) = balrog_puffs(n, st, (k - 1) as nat);
        balrog_puff(m, s)
    }
}

pub open spec fn shake(n: NPC) -> NPC {
    let c = (n.action_counter2 + 1) as u16;
    NPC {
        action_counter2: c,
        x: (n.x + if c & 0x02 != 0 {
            0x200int
        } else {
            -0x200int
        }) as i32,
        ..n
    }
}

pub open spec fn capped_fall(n: NPC) -> NPC {
    NPC { vel_y: if n.vel_y > 0x5ff { 0x5ff } else { n.vel_y }, ..n }
}

/// Breaking the ceiling tile at `(x, y)` and, when it broke, its
/// neighbours: each broken tile gives three puffs of smoke; the first a
/// sound and a strong quake.
pub open spec fn break_ceiling(st: StateView, w: usize, tiles: Seq<u8>, x: usize, y: usize) -> (StateView, Seq<u8>) {
    let (t1, hit) = spec_change_tile(w, tiles, x, y, 0);
    if y <= 34 && hit {
        let s1 = StateView {
            super_quake_counter: 10,
            super_quake_rumble_counter: 10,
            ..with_sound(st, 44)
        };
        let puff = alive_at(st, 4, x * 0x2000, y * 0x2000);
        let s2 = with_spawn(with_spawn(with_spawn(s1, 0, puff), 0, puff), 0, puff);
        let (t2, hit_l) = if x > 0 {
            spec_change_tile(w, t1, (x - 1) as usize, y, 0)
        } else {
            (t1, false)
        };
        let pl = NPC { x: ((x - 1) * 0x2000) as i32, ..puff };
        let s3 = if x > 0 && hit_l {
            with_spawn(with_spawn(with_spawn(s2, 0, pl), 0, pl), 0, pl)
        } else {
            s2
        };
        let (t3, hit_r) = if x < w {
            spec_change_tile(w, t2, (x + 1) as usize, y, 0)
        } else {
            (t2, false)
        };
        let pr = NPC { x: ((x + 1) * 0x2000) as i32, ..if x > 0 && hit_l { pl } else { puff } };
        let s4 = if x < w && hit_r {
            with_spawn(with_spawn(with_spawn(s3, 0, pr), 0, pr), 0, pr)
        } else {
            s3
        };
        (s4, t3)
    } else if y <= 34 {
        (st, t1)
    } else {
        (st, tiles)
    }
}

/// The tile Balrog is in, limited to the map.
pub open spec fn tile_of(v: i32, size: usize) -> usize {
    clamp(if v < 0 { 0 } else { v / 0x2000 }, 0, size as int) as usize
}

/// The state step of Balrog's cutscene behaviour, before movement.
pub open spec fn balrog_action(
    n: NPC,
    st: StateView,
    players: [Player; 2],
    w: usize,
    h: usize,
    tiles: Seq<u8>,
) -> (NPC, StateView, Seq<u8>) {
    if n.action_num < 40 {
        balrog_action_early(n, st, players, tiles)
    } else {
        balrog_action_late(n, st, players, w, h, tiles)
    }
}

/// States below 40: idling, jumping away, flying off, the tantrum.
pub open spec fn balrog_action_early(
    n: NPC,
    st: StateView,
    players: [Player; 2],
    tiles: Seq<u8>,
) -> (NPC, StateView, Seq<u8>) {
    let k = n.action_num;
    if k == 0 || k == 1 {
        let a = if k == 0 {
            NPC { action_num: 1, anim_num: 0, ..face_if_asked(n, players) }
        } else {
            n
        };
        let (r, b) = roll(a, 0, 100);
        (
            if r == 0 {
                NPC { action_num: 2, action_counter: 0, anim_num: 1, ..b }
            } else {
                b
            },
            st,
            tiles,
        )
    } else if k == 2 {
        let c = tick_counter(n);
        (if c.action_counter > 16 { NPC { action_num: 1, anim_num: 0, ..c } } else { c }, st, tiles)
    } else if k == 10 || k == 11 {
        let a = if k == 10 {
            NPC { action_num: 11, anim_num: 2, action_counter: 0, target_x: 0, ..face_if_asked(n, players) }
        } else {
            n
        };
        let c = tick_counter(a);
        (
            if c.action_counter > 30 {
                NPC {
                    action_num: 12,
                    action_counter: 0,
                    anim_num: 3,
                    vel_y: -0x800i32,
                    npc_flags: NPCFlag(with_bits16(c.npc_flags.0, NPC_IGNORE_SOLIDITY, true)),
                    ..c
                }
            } else {
                c
            },
            st,
            tiles,
        )
    } else if k == 12 {
        let a = if n.flags.0 & FLAG_HIT_LEFT_WALL != 0 || n.flags.0 & FLAG_HIT_RIGHT_WALL != 0 {
            NPC { vel_x: 0, ..n }
        } else {
            n
        };
        if a.y < 0 {
            (
                NPC { npc_type: 0, spritesheet_id: 20, ..a },
                StateView { quake_counter: 30, quake_rumble_counter: 30, ..with_sound(st, 26) },
                tiles,
            )
        } else {
            (a, st, tiles)
        }
    } else if k == 20 || k == 21 {
        let (a, st) = if k == 20 {
            let b = NPC {
                action_num: 21,
                anim_num: 5,
                action_counter: 0,
                action_counter2: 0,
                ..face_if_asked(n, players)
            };
            let (c, s) = balrog_puffs(b, st, 3);
            (c, with_sound(s, 72))
        } else {
            (n, st)
        };
        let b = NPC { target_x: 1, ..a };
        let c = if b.flags.0 & FLAG_HIT_BOTTOM_WALL != 0 {
            tick_counter(b)
        } else {
            b
        };
        let d = shake(c);
        let e = if d.action_counter > 100 {
            NPC { action_num: 11, action_counter: 0, anim_num: 2, ..d }
        } else {
            d
        };
        (capped_fall(NPC { vel_y: (e.vel_y + 0x20) as i32, ..e }), st, tiles)
    } else if k == 30 {
        let c = tick_counter(NPC { anim_num: 4, ..n });
        (if c.action_counter > 100 { NPC { action_num: 0, anim_num: 0, ..c } } else { c }, st, tiles)
    } else {
        (n, st, tiles)
    }
}

/// States from 40 on: laughing, running, vanishing, carried off and
/// smashing through the ceiling.
pub open spec fn balrog_action_late(
    n: NPC,
    st: StateView,
    players: [Player; 2],
    w: usize,
    h: usize,
    tiles: Seq<u8>,
) -> (NPC, StateView, Seq<u8>) {
    let k = n.action_num;
    if k == 40 || k == 41 {
        let a = if k == 40 {
            NPC { action_num: 41, action_counter: 0, anim_num: 5, ..face_if_asked(n, players) }
        } else {
            n
        };
        let c = (a.anim_counter + 1) as u16;
        (NPC { anim_counter: c, anim_num: if c & 0x02 != 0 { 5 } else { 6 }, ..a }, st, tiles)
    } else if k == 42 || k == 43 {
        let a = if k == 42 {
            NPC { action_num: 43, anim_num: 6, action_counter: 0, ..face_if_asked(n, players) }
        } else {
            n
        };
        let c = (a.anim_counter + 1) as u16;
        (NPC { anim_counter: c, anim_num: if c & 0x02 != 0 { 7 } else { 6 }, ..a }, st, tiles)
    } else if k == 50 {
        (NPC { anim_num: 8, vel_x: 0, ..n }, st, tiles)
    } else if k == 60 || k == 61 {
        let a = if k == 60 {
            NPC { action_num: 61, anim_num: 9, anim_counter: 0, ..n }
        } else {
            n
        };
        let c = (a.anim_counter + 1) as u16;
        let (b, st) = if c > 3 {
            let f = (a.anim_num + 1) as u16;
            let st = if f == 10 || f == 11 {
                with_sound(st, 23)
            } else {
                st
            };
            (NPC { anim_counter: 0, anim_num: if f > 12 { 9 } else { f }, ..a }, st)
        } else {
            (NPC { anim_counter: c, ..a }, st)
        };
        (
            NPC {
                vel_x: match b.direction {
                    Direction::Left => -0x200i32,
                    Direction::Right => 0x200i32,
                    _ => 0i32,
                },
                ..b
            },
            st,
            tiles,
        )
    } else if k == 70 || k == 71 {
        let (a, st) = if k == 70 {
            (NPC { action_num: 71, action_counter: 64, anim_num: 13, ..n }, with_sound(st, 29))
        } else {
            (n, st)
        };
        let c = NPC { action_counter: (a.action_counter - 1) as u16, ..a };
        (if c.action_counter == 0 { set_alive_spec(c, false) } else { c }, st, tiles)
    } else if k == 80 || k == 81 {
        let a = if k == 80 {
            NPC { action_num: 81, action_counter2: 0, ..n }
        } else {
            n
        };
        let b = shake(a);
        (NPC { anim_num: 5, vel_x: 0, vel_y: (b.vel_y + 0x20) as i32, ..b }, st, tiles)
    } else if k == 100 || k == 101 {
        let a = if k == 100 {
            NPC { action_num: 101, action_counter: 0, anim_num: 2, ..n }
        } else {
            n
        };
        let c = tick_counter(a);
        if c.action_counter > 20 {
            let b = NPC {
                action_num: 102,
                action_counter: 0,
                anim_num: 3,
                vel_y: -0x800i32,
                npc_flags: NPCFlag(with_bits16(c.npc_flags.0, NPC_IGNORE_SOLIDITY, true)),
                ..c
            };
            let s1 = with_type_kill(with_type_kill(st, 150, false), 117, false);
            let carry = NPC { parent_id: b.id, ..set_alive_spec(table_npc(355, st.npc_table), true) };
            let s2 = with_spawn(s1, 0x100, carry);
            let s3 = if players[1].cond.0 & COND_ALIVE != 0 {
                with_spawn(s2, 0x100, NPC { tsc_direction: 4, ..carry })
            } else {
                s2
            };
            (b, with_spawn(s3, 0x100, NPC { direction: Direction::Up, ..carry }), tiles)
        } else {
            (c, st, tiles)
        }
    } else if k == 102 {
        let x = tile_of(n.x, w);
        let y = tile_of(n.y, h);
        let (s, t) = break_ceiling(st, w, tiles, x, y);
        if n.y < -32 * 0x200 {
            (NPC { npc_type: 0, ..n }, StateView { quake_counter: 30, quake_rumble_counter: 30, ..s }, t)
        } else {
            (n, s, t)
        }
    } else {
        (n, st, tiles)
    }
}

/// One tick of Balrog's cutscene behaviour: the state step, smoke now and
/// then while he is worked up (one chance in eleven a tick), the fall
/// speed cap, movement and the frame. In state 71 the frame is drawn
/// cropped by the renderer from `action_counter`.
pub open spec fn balrog_cutscene_step(
    n: NPC,
    st: StateView,
    players: [Player; 2],
    w: usize,
    h: usize,
    tiles: Seq<u8>,
) -> (NPC, StateView, Seq<u8>) {
    let (a, st, t) = balrog_action(n, st, players, w, h, tiles);
    let (b, st) = if a.target_x != 0 {
        let (r, b) = roll(a, 0, 10);
        if r == 0 {
            balrog_puff(b, st)
        } else {
            (b, st)
        }
    } else {
        (a, st)
    };
    let c = capped_fall(b);
    let m = NPC { x: (c.x + c.vel_x) as i32, y: (c.y + c.vel_y) as i32, ..c };
    (NPC { anim_rect: dir_frame(m, 14), ..m }, st, t)
}

/// `k` ticks of Balrog's cutscene behaviour in a row.
pub open spec fn balrog_cutscene_ticks(
    n: NPC,
    st: StateView,
    players: [Player; 2],
    w: usize,
    h: usize,
    tiles: Seq<u8>,
    k: nat,
) -> (NPC, StateView, Seq<u8>)
    decreases k,
{
    if k == 0 {
        (n, st, tiles)
    } else {
        let (m, s, t) = balrog_cutscene_ticks(n, st, players, w, h, tiles, (k - 1) as nat);
        balrog_cutscene_step(m, s, players, w, h, t)
    }
}

proof fn lemma_balrog_fade_tick(n: NPC, st: StateView, players: [Player; 2], w: usize, h: usize, tiles: Seq<u8>)
    requires
        n.action_num == 70 || (n.action_num == 71 && n.action_counter > 0),
    ensures
        ({
            let m = balrog_cutscene_step(n, st, players, w, h, tiles).0;
            let c = if n.action_num == 70 { 63int } else { n.action_counter - 1 };
            let vy = if n.vel_y > 0x5ff { 0x5ff } else { n.vel_y as int };
            &&& m.action_num == 71
            &&& m.action_counter == c
            &&& m.cond.0 & COND_ALIVE != 0 <==> (n.cond.0 & COND_ALIVE != 0 && c != 0)
            &&& m.vel_x == n.vel_x
            &&& m.vel_y == vy
            &&& m.x == (n.x + n.vel_x) as i32
            &&& m.y == (n.y + vy) as i32
            &&& m.anim_num == if n.action_num == 70 { 13 } else { n.anim_num }
        }),
{
    let x = n.cond.0;
    assert(with_bits16(x, COND_ALIVE, false) & COND_ALIVE == 0) by (bit_vector)
        requires COND_ALIVE == 0x80u16;
}

/// Balrog fading out of a cutscene: from state 70, each tick counts down
/// from 64 (state 71); he is still there after 63 ticks and gone after the
/// 64th, whatever else the ticks meet.
pub proof fn law_balrog_fades_in_64_ticks(
    n: NPC,
    st: StateView,
    players: [Player; 2],
    w: usize,
    h: usize,
    tiles: Seq<u8>,
    k: nat,
)
    requires
        n.action_num == 70,
        n.cond.0 & COND_ALIVE != 0,
        1 <= k <= 64,
    ensures
        ({
            let m = balrog_cutscene_ticks(n, st, players, w, h, tiles, k).0;
            &&& m.action_num == 71
            &&& m.action_counter == 64 - k
            &&& (m.cond.0 & COND_ALIVE != 0 <==> k < 64)
        }),
    decreases k,
{
    if k == 1 {
        assert(balrog_cutscene_ticks(n, st, players, w, h, tiles, 0) == (n, st, tiles));
        lemma_balrog_fade_tick(n, st, players, w, h, tiles);
    } else {
        law_balrog_fades_in_64_ticks(n, st, players, w, h, tiles, (k - 1) as nat);
        let (m, s, t) = balrog_cutscene_ticks(n, st, players, w, h, tiles, (k - 1) as nat);
        lemma_balrog_fade_tick(m, s, players, w, h, t);
    }
}

/// Where Balrog stands while he fades: from state 70 he keeps his speed
/// (falling at most 3 pixels a tick) and moves by it each tick.
proof fn lemma_balrog_fade_path(n: NPC, st: StateView, players: [Player; 2], w: usize, h: usize, tiles: Seq<u8>, j: nat)
    requires
        n.action_num == 70,
        1 <= j <= 64,
        npc_coord_ok(n.x),
        npc_coord_ok(n.y),
        -0x1000_0000 <= n.x + 64 * n.vel_x <= 0x1000_0000,
        -0x1000_0000 <= n.y + 64 * (if n.vel_y > 0x5ff { 0x5ff } else { n.vel_y as int }) <= 0x1000_0000,
    ensures
        ({
            let m = balrog_cutscene_ticks(n, st, players, w, h, tiles, j).0;
            let vy = if n.vel_y > 0x5ff { 0x5ff } else { n.vel_y as int };
            &&& m.action_num == 71
            &&& m.action_counter == 64 - j
            &&& m.anim_num == 13
            &&& m.vel_x == n.vel_x
            &&& m.vel_y == vy
            &&& m.x == n.x + j * n.vel_x
            &&& m.y == n.y + j * vy
        }),
    decreases j,
{
    let vy = if n.vel_y > 0x5ff { 0x5ff } else { n.vel_y as int };
    let x = n.x as int;
    let vx = n.vel_x as int;
    let y = n.y as int;
    if j == 1 {
        assert(balrog_cutscene_ticks(n, st, players, w, h, tiles, 0) == (n, st, tiles));
        lemma_balrog_fade_tick(n, st, players, w, h, tiles);
    } else {
        lemma_balrog_fade_path(n, st, players, w, h, tiles, (j - 1) as nat);
        let (m, s, t) = balrog_cutscene_ticks(n, st, players, w, h, tiles, (j - 1) as nat);
        lemma_balrog_fade_tick(m, s, players, w, h, t);
        let jj = j as int;
        lemma_between(x, vx, jj);
        lemma_between(y, vy, jj);
        assert(x + (jj - 1) * vx + vx == x + jj * vx) by (nonlinear_arith);
        assert(y + (jj - 1) * vy + vy == y + jj * vy) by (nonlinear_arith);
    }
}

/// A point on the way from `a` to `a + 64 * v` stays between the two.
proof fn lemma_between(a: int, v: int, j: int)
    requires
        0 <= j <= 64,
        -0x1000_0000 <= a <= 0x1000_0000,
        -0x1000_0000 <= a + 64 * v <= 0x1000_0000,
    ensures
        -0x1000_0000 <= a + j * v <= 0x1000_0000,
{
    if v >= 0 {
        assert(0 <= j * v <= 64 * v) by (nonlinear_arith)
            requires
                0 <= j <= 64,
                v >= 0,
        ;
    } else {
        assert(64 * v <= j * v <= 0) by (nonlinear_arith)
            requires
                0 <= j <= 64,
                v < 0,
        ;
    }
}

/// Balrog can be ticked through his whole fade: when he starts it in reach
/// and the place 64 ticks of his speed take him to is in reach too, each of
/// the first 63 ticks leaves him ready for the next.
pub proof fn law_balrog_fade_stays_tickable(
    n: NPC,
    st: StateView,
    players: [Player; 2],
    w: usize,
    h: usize,
    tiles: Seq<u8>,
    j: nat,
)
    requires
        balrog_tickable(n, players, w, h),
        n.action_num == 70,
        1 <= j <= 63,
        -0x1000_0000 <= n.x + 64 * n.vel_x <= 0x1000_0000,
        -0x1000_0000 <= n.y + 64 * (if n.vel_y > 0x5ff { 0x5ff } else { n.vel_y as int }) <= 0x1000_0000,
    ensures
        balrog_tickable(balrog_cutscene_ticks(n, st, players, w, h, tiles, j).0, players, w, h),
{
    lemma_balrog_fade_path(n, st, players, w, h, tiles, j);
    let vy = if n.vel_y > 0x5ff { 0x5ff } else { n.vel_y as int };
    lemma_between(n.x as int, n.vel_x as int, j as int);
    lemma_between(n.y as int, vy, j as int);
}

/// Inputs a Balrog cutscene tick computes in range on.
pub open spec fn balrog_tickable(n: NPC, players: [Player; 2], w: usize, h: usize) -> bool {
    let k = n.action_num;
    &&& npc_coord_ok(n.x)
    &&& npc_coord_ok(n.y)
    &&& npc_coord_ok(n.vel_x)
    &&& npc_coord_ok(n.vel_y)
    &&& npc_coord_ok(players[0].x)
    &&& npc_coord_ok(players[0].y)
    &&& npc_coord_ok(players[1].x)
    &&& npc_coord_ok(players[1].y)
    &&& w <= 0xffff
    &&& h <= 0xffff
    &&& (k == 2 || k == 11 || k == 21 || k == 30 || k == 101) ==> n.action_counter < u16::MAX
    &&& (k == 21 || k == 81) ==> n.action_counter2 < u16::MAX
    &&& (k == 40 || k == 41 || k == 42 || k == 43 || k == 61) ==> n.anim_counter < u16::MAX
    &&& k == 61 ==> n.anim_num < u16::MAX
    &&& k == 71 ==> n.action_counter > 0
    &&& n.anim_num <= u16::MAX - 14
}

pub open spec fn with_player(pl: (Player, Player), i: int, q: Player) -> (Player, Player) {
    if i == 0 {
        (q, pl.1)
    } else {
        (pl.0, q)
    }
}

pub open spec fn player_at(pl: (Player, Player), i: int) -> Player {
    if i == 0 {
        pl.0
    } else {
        pl.1
    }
}

pub open spec fn hidden_player(p: Player, v: bool) -> Player {
    Player { cond: Condition(with_bits16(p.cond.0, COND_HIDDEN, v)), ..p }
}

/// Whether the player is within Balrog's grasp.
pub open spec fn in_grasp(n: NPC, p: Player) -> bool {
    n.x - 0x1800 < p.x && n.x + 0x1800 > p.x && n.y - 0x1800 < p.y && n.y + 0x1000 > p.y
}

pub open spec fn face_or_right(n: NPC, p: Player) -> NPC {
    NPC { direction: if n.x <= p.x { Direction::Right } else { Direction::Left }, ..n }
}

pub open spec fn missile_jump(n: NPC) -> NPC {
    NPC { action_num: 4, action_counter: 0, anim_num: 7, vel_y: -0x5ffi32, ..n }
}

/// States 2 and 3: running at the player, stamping every other frame;
/// bumping into walls five times, or on every other run after 25 ticks,
/// he jumps (4); after 75 ticks he stops (9); catching the player (index
/// `i`) he grabs them, hidden inside him, for 5 damage.
pub open spec fn missile_run(n: NPC, st: StateView, pl: (Player, Player), i: int) -> (NPC, StateView, (Player, Player)) {
    let a = if n.action_num == 2 { NPC { action_num: 3, action_counter: 0, anim_num: 1, anim_counter: 0, ..n } } else { n };
    let (b, s) = stamp(a, st);
    let c = NPC { vel_x: (b.vel_x + spec_vector_x(b.direction) * 0x20) as i32, ..b };
    let p = player_at(pl, i);
    if c.action_counter <= 7 || !in_grasp(c, p) {
        let d = tick_counter(c);
        if d.action_counter <= 75 {
            let e = if d.flags.0 & FLAG_HIT_LEFT_WALL != 0 || d.flags.0 & FLAG_HIT_RIGHT_WALL != 0 {
                if d.action_counter2 > 4 { missile_jump(d) } else { NPC { action_counter2: (d.action_counter2 + 1) as u16, ..d } }
            } else {
                NPC { action_counter2: 0, ..d }
            };
            (if e.action_counter3 & 1 == 0 && e.action_counter > 25 { missile_jump(e) } else { e }, s, pl)
        } else {
            (NPC { action_num: 9, anim_num: 0, ..d }, s, pl)
        }
    } else {
        (
            NPC { action_num: 10, anim_num: 5, target_x: i as i32, ..c },
            with_player_damage(s, i as usize, 5),
            with_player(pl, i, hidden_player(p, true)),
        )
    }
}

/// State 4: in the air, facing the player and firing a missile (type
/// 170) every six ticks for 29 ticks; landing shakes the room; catching
/// the player grabs them for 10 damage.
pub open spec fn missile_jumping(n: NPC, st: StateView, pl: (Player, Player), i: int) -> (NPC, StateView, (Player, Player)) {
    let p = player_at(pl, i);
    let c = tick_counter(face_or_right(n, p));
    let s = if c.action_counter <= 29 && c.action_counter % 6 == 1 {
        with_spawn(with_sound(st, 39), 0x100, NPC { x: c.x, y: c.y, direction: c.direction, ..set_alive_spec(table_npc(170, st.npc_table), true) })
    } else {
        st
    };
    let (d, s2) = if c.flags.0 & FLAG_HIT_BOTTOM_WALL != 0 {
        (NPC { action_num: 9, anim_num: 8, ..c }, with_sound(StateView { quake_counter: 30, quake_rumble_counter: 30, ..s }, 26))
    } else {
        (c, s)
    };
    if d.action_counter > 7 && in_grasp(d, p) {
        (NPC { action_num: 10, anim_num: 5, ..d }, with_player_damage(s2, i as usize, 10), with_player(pl, i, hidden_player(p, true)))
    } else {
        (d, s2, pl)
    }
}

/// States 9 to 21: braking; holding the grabbed player (index in
/// `target_x`) inside him for 100 ticks; throwing them out behind him.
pub open spec fn missile_hold(n: NPC, st: StateView, pl: (Player, Player)) -> (NPC, StateView, (Player, Player)) {
    let k = n.action_num;
    let t = n.target_x as int;
    if k == 9 {
        let v = trunc_div(4 * n.vel_x, 5);
        (NPC { vel_x: v as i32, action_num: if v == 0 { 0 } else { 9 }, ..n }, st, pl)
    } else if k == 10 {
        let q = Player { x: n.x, y: n.y, ..player_at(pl, t) };
        let v = trunc_div(4 * n.vel_x, 5);
        let a = NPC { vel_x: v as i32, ..n };
        (if v == 0 { NPC { action_num: 11, action_counter: 0, anim_num: 5, anim_counter: 0, ..a } } else { a }, st, with_player(pl, t, q))
    } else if k == 11 {
        let q = Player { x: n.x, y: n.y, ..player_at(pl, t) };
        let c = tick_counter(spec_animate(n, 2, 5, 6));
        (if c.action_counter > 100 { NPC { action_num: 20, ..c } } else { c }, st, with_player(pl, t, q))
    } else {
        let (a, s, pl2) = if k == 20 {
            let p = hidden_player(player_at(pl, t), false);
            let right = n.direction != Direction::Left;
            let q = Player {
                x: (if right { p.x - 0x800 } else { p.x + 0x800 }) as i32,
                y: (p.y - 0x1000) as i32,
                vel_x: if right { -0x5ffi32 } else { 0x5ffi32 },
                vel_y: -0x200i32,
                direction: if right { Direction::Left } else { Direction::Right },
                ..p
            };
            (
                NPC { direction: if right { Direction::Left } else { Direction::Right }, action_num: 21, action_counter: 0, anim_num: 7, ..n },
                with_sound(st, 25),
                with_player(pl, t, q),
            )
        } else {
            (n, st, pl)
        };
        let c = tick_counter(a);
        (if c.action_counter >= 50 { NPC { action_num: 0, ..c } } else { c }, s, pl2)
    }
}

/// One tick of Balrog shooting missiles: the state's step, gravity, the
/// speed capped at 1.5 pixels sideways and 3 falling, movement and the
/// frame (right-facing frames start 9 in). The players come back as a pair.
pub open spec fn balrog_missiles_step(n: NPC, st: StateView, players: [Player; 2]) -> (NPC, StateView, (Player, Player)) {
    let pl = (players[0], players[1]);
    let i = closest_player(n.x, n.y, players) as int;
    let k = n.action_num;
    let (a, s, pl2) = if k == 0 || k == 1 {
        let b = if k == 0 { face_or_right(NPC { action_num: 1, action_counter: 30, anim_num: 0, ..n }, players[i]) } else { n };
        let t: u16 = if b.action_counter > 0 { (b.action_counter - 1) as u16 } else { 0 };
        (if t == 0 {
            NPC { action_counter: t, action_num: 2, action_counter3: (b.action_counter3 + 1) as u16, ..b }
        } else {
            NPC { action_counter: t, ..b }
        }, st, pl)
    } else if k == 2 || k == 3 {
        missile_run(n, st, pl, i)
    } else if k == 4 {
        missile_jumping(n, st, pl, i)
    } else if k == 9 || k == 10 || k == 11 || k == 20 || k == 21 {
        missile_hold(n, st, pl)
    } else {
        (n, st, pl)
    };
    let vx = clamp(a.vel_x as int, -0x300, 0x300);
    let vy0 = a.vel_y + 0x20;
    let vy = if vy0 > 0x5ff { 0x5ff } else { vy0 };
    let m = NPC { vel_x: vx as i32, vel_y: vy as i32, x: (a.x + vx) as i32, y: (a.y + vy) as i32, ..a };
    (NPC { anim_rect: dir_frame(m, 9), ..m }, s, pl2)
}

/// Inputs a tick of Balrog shooting missiles computes in range on.
pub open spec fn balrog_missiles_tickable(n: NPC, players: [Player; 2]) -> bool {
    let k = n.action_num;
    &&& npc_coord_ok(n.x)
    &&& npc_coord_ok(n.y)
    &&& npc_coord_ok(n.vel_x)
    &&& npc_coord_ok(n.vel_y)
    &&& npc_coord_ok(players[0].x)
    &&& npc_coord_ok(players[0].y)
    &&& npc_coord_ok(players[1].x)
    &&& npc_coord_ok(players[1].y)
    &&& (k == 0 || k == 1) ==> n.action_counter3 < u16::MAX
    &&& (k == 2 || k == 3) ==> (n.anim_counter < u16::MAX && n.action_counter2 < u16::MAX)
    &&& (k == 3 || k == 4 || k == 11 || k == 21) ==> n.action_counter < u16::MAX
    &&& k == 11 ==> n.anim_counter < u16::MAX
    &&& (k == 10 || k == 11 || k == 20 || k == 21) ==> (n.target_x == 0 || n.target_x == 1)
    &&& n.anim_num <= u16::MAX - 9
}

impl NPC {
    fn face_if_asked_exec(&mut self, players: &[Player; 2])
        ensures
            *final(self) == face_if_asked(*old(self), *players),
    {
        if self.direction == Direction::FacingPlayer {
            let idx = self.get_closest_player_idx(players);
            let p = players[idx];
            if self.x <= p.x {
                self.direction = Direction::Right;
            } else {
                self.direction = Direction::Left;
            }
        }
    }

    fn balrog_puff_exec(&mut self, state: &mut SharedGameState)
        requires
            -0x2000_0000 <= old(self).x <= 0x2000_0000,
            -0x2000_0000 <= old(self).y <= 0x2000_0000,
        ensures
            (*final(self), final(state)@) == balrog_puff(*old(self), old(state)@),
            *final(self) == (NPC { rng: final(self).rng, ..*old(self) }),
            final(state)@.npc_table == old(state)@.npc_table,
    {
        let mut npc = state.create_npc(4);
        npc.cond.set_alive(true);
        npc.direction = Direction::Left;
        let rx = self.rng.range(-12..12);
        npc.x = self.x + rx * 0x200;
        let ry = self.rng.range(-12..12);
        npc.y = self.y + ry * 0x200;
        npc.vel_x = self.rng.range(-0x155..0x155);
        npc.vel_y = self.rng.range(-0x600..0);
        state.spawn_npc(0x100, npc);
    }

    fn spawn_puffs_at(state: &mut SharedGameState, npc: NPC, min_id: u16)
        ensures
            final(state)@ == with_spawn(with_spawn(with_spawn(old(state)@, min_id, npc), min_id, npc), min_id, npc),
    {
        state.spawn_npc(min_id, npc);
        state.spawn_npc(min_id, npc);
        state.spawn_npc(min_id, npc);
    }

    fn break_ceiling_exec(state: &mut SharedGameState, stage: &mut Stage, x: usize, y: usize)
        requires
            old(stage).width <= 0xffff,
            x <= 0xffff,
            y <= 0xffff,
        ensures
            final(stage).width == old(stage).width,
            final(stage).height == old(stage).height,
            (final(state)@, final(stage).tiles@) == break_ceiling(old(state)@, old(stage).width, old(stage).tiles@, x, y),
    {
        if y <= 34 && stage.change_tile(x, y, 0) {
            state.play_sfx(44);
            state.super_quake_counter = 10;
            state.super_quake_rumble_counter = 10;
            let mut npc = state.create_npc(4);
            npc.cond.set_alive(true);
            npc.x = x as i32 * 0x2000;
            npc.y = y as i32 * 0x2000;
            NPC::spawn_puffs_at(state, npc, 0);
            if x > 0 && stage.change_tile(x - 1, y, 0) {
                npc.x = (x - 1) as i32 * 0x2000;
                NPC::spawn_puffs_at(state, npc, 0);
            }
            if x < stage.width && stage.change_tile(x + 1, y, 0) {
                npc.x = (x + 1) as i32 * 0x2000;
                NPC::spawn_puffs_at(state, npc, 0);
            }
        }
    }

    fn balrog_early_exec(&mut self, state: &mut SharedGameState, players: &[Player; 2], stage: &Stage)
        requires
            balrog_tickable(*old(self), *players, stage.width, stage.height),
            old(self).action_num < 40,
        ensures
            (*final(self), final(state)@, stage.tiles@) == balrog_action_early(*old(self), old(state)@, *players, stage.tiles@),
            -0x2000_0000 <= final(self).x <= 0x2000_0000,
            -0x2000_0000 <= final(self).y <= 0x2000_0000,
            -0x2000_0000 <= final(self).vel_x <= 0x2000_0000,
            -0x2000_0000 <= final(self).vel_y <= 0x2000_0000,
            final(self).anim_num <= u16::MAX - 14,
    {
        match self.action_num {
            0 | 1 => {
                if self.action_num == 0 {
                    self.face_if_asked_exec(players);
                    self.action_num = 1;
                    self.anim_num = 0;
                }
                if self.rng.range(0..100) == 0 {
                    self.action_num = 2;
                    self.action_counter = 0;
                    self.anim_num = 1;
                }
            },
            2 => {
                self.action_counter += 1;
                if self.action_counter > 16 {
                    self.action_num = 1;
                    self.anim_num = 0;
                }
            },
            10 | 11 => {
                if self.action_num == 10 {
                    self.face_if_asked_exec(players);
                    self.action_num = 11;
                    self.anim_num = 2;
                    self.action_counter = 0;
                    self.target_x = 0;
                }
                self.action_counter += 1;
                if self.action_counter > 30 {
                    self.action_num = 12;
                    self.action_counter = 0;
                    self.anim_num = 3;
                    self.vel_y = -0x800;
                    self.npc_flags.set_ignore_solidity(true);
                }
            },
            12 => {
                if self.flags.hit_left_wall() || self.flags.hit_right_wall() {
                    self.vel_x = 0;
                }
                if self.y < 0 {
                    self.npc_type = 0;
                    self.spritesheet_id = 20;
                    state.play_sfx(26);
                    state.quake_counter = 30;
                    state.quake_rumble_counter = 30;
                }
            },
            20 | 21 => {
                if self.action_num == 20 {
                    self.face_if_asked_exec(players);
                    self.action_num = 21;
                    self.anim_num = 5;
                    self.action_counter = 0;
                    self.action_counter2 = 0;
                    let ghost n0 = *self;
                    let ghost s0 = state@;
                    let mut i: usize = 0;
                    while i < 3
                        invariant
                            i <= 3,
                            *self == (NPC { rng: self.rng, ..n0 }),
                            npc_coord_ok(n0.x),
                            npc_coord_ok(n0.y),
                            state@.npc_table == s0.npc_table,
                            (*self, state@) == balrog_puffs(n0, s0, i as nat),
                        decreases 3 - i,
                    {
                        self.balrog_puff_exec(state);
                        i += 1;
                    }
                    state.play_sfx(72);
                }
                self.target_x = 1;
                if self.flags.hit_bottom_wall() {
                    self.action_counter += 1;
                }
                self.action_counter2 += 1;
                self.x += if self.action_counter2 & 0x02 != 0 {
                    0x200
                } else {
                    -0x200
                };
                if self.action_counter > 100 {
                    self.action_num = 11;
                    self.action_counter = 0;
                    self.anim_num = 2;
                }
                self.vel_y += 0x20;
                self.clamp_fall_speed();
            },
            30 => {
                self.anim_num = 4;
                self.action_counter += 1;
                if self.action_counter > 100 {
                    self.action_num = 0;
                    self.anim_num = 0;
                }
            },
            _ => {},
        }
    }

    fn balrog_late_exec(&mut self, state: &mut SharedGameState, players: &[Player; 2], stage: &mut Stage)
        requires
            balrog_tickable(*old(self), *players, old(stage).width, old(stage).height),
            old(self).action_num >= 40,
        ensures
            final(stage).width == old(stage).width,
            final(stage).height == old(stage).height,
            -0x2000_0000 <= final(self).x <= 0x2000_0000,
            -0x2000_0000 <= final(self).y <= 0x2000_0000,
            -0x2000_0000 <= final(self).vel_x <= 0x2000_0000,
            -0x2000_0000 <= final(self).vel_y <= 0x2000_0000,
            final(self).anim_num <= u16::MAX - 14,
            (*final(self), final(state)@, final(stage).tiles@) == balrog_action_late(
                *old(self),
                old(state)@,
                *players,
                old(stage).width,
                old(stage).height,
                old(stage).tiles@,
            ),
    {
        match self.action_num {
            40 | 41 => {
                if self.action_num == 40 {
                    self.face_if_asked_exec(players);
                    self.action_num = 41;
                    self.action_counter = 0;
                    self.anim_num = 5;
                }
                self.anim_counter += 1;
                self.anim_num = if self.anim_counter & 0x02 != 0 {
                    5
                } else {
                    6
                };
            },
            42 | 43 => {
                if self.action_num == 42 {
                    self.face_if_asked_exec(players);
                    self.action_num = 43;
                    self.anim_num = 6;
                    self.action_counter = 0;
                }
                self.anim_counter += 1;
                self.anim_num = if self.anim_counter & 0x02 != 0 {
                    7
                } else {
                    6
                };
            },
            50 => {
                self.anim_num = 8;
                self.vel_x = 0;
            },
            60 | 61 => {
                if self.action_num == 60 {
                    self.action_num = 61;
                    self.anim_num = 9;
                    self.anim_counter = 0;
                }
                self.anim_counter += 1;
                if self.anim_counter > 3 {
                    self.anim_counter = 0;
                    self.anim_num += 1;
                    if self.anim_num == 10 || self.anim_num == 11 {
                        state.play_sfx(23);
                    }
                    if self.anim_num > 12 {
                        self.anim_num = 9;
                    }
                }
                self.vel_x = match self.direction {
                    Direction::Left => -0x200,
                    Direction::Right => 0x200,
                    _ => 0,
                };
            },
            70 | 71 => {
                if self.action_num == 70 {
                    self.action_num = 71;
                    self.action_counter = 64;
                    self.anim_num = 13;
                    state.play_sfx(29);
                }
                self.action_counter -= 1;
                if self.action_counter == 0 {
                    self.cond.set_alive(false);
                }
            },
            80 | 81 => {
                if self.action_num == 80 {
                    self.action_num = 81;
                    self.action_counter2 = 0;
                }
                self.action_counter2 += 1;
                self.x += if self.action_counter2 & 0x02 != 0 {
                    0x200
                } else {
                    -0x200
                };
                self.anim_num = 5;
                self.vel_x = 0;
                self.vel_y += 0x20;
            },
            100 | 101 => {
                if self.action_num == 100 {
                    self.action_num = 101;
                    self.action_counter = 0;
                    self.anim_num = 2;
                }
                self.action_counter += 1;
                if self.action_counter > 20 {
                    self.action_num = 102;
                    self.action_counter = 0;
                    self.anim_num = 3;
                    self.vel_y = -0x800;
                    self.npc_flags.set_ignore_solidity(true);
                    state.kill_npcs_by_type(150, false);
                    state.kill_npcs_by_type(117, false);
                    let mut npc = state.create_npc(355);
                    npc.cond.set_alive(true);
                    npc.parent_id = self.id;
                    state.spawn_npc(0x100, npc);
                    if players[1].cond.alive() {
                        npc.tsc_direction = 4;
                        state.spawn_npc(0x100, npc);
                        npc.tsc_direction = 0;
                    }
                    npc.direction = Direction::Up;
                    state.spawn_npc(0x100, npc);
                }
            },
            102 => {
                let tx: i32 = if self.x < 0 {
                    0
                } else {
                    self.x / 0x2000
                };
                let ty: i32 = if self.y < 0 {
                    0
                } else {
                    self.y / 0x2000
                };
                let x = clamp_to(tx, stage.width as i32) as usize;
                let y = clamp_to(ty, stage.height as i32) as usize;
                NPC::break_ceiling_exec(state, stage, x, y);
                if self.y < -32 * 0x200 {
                    self.npc_type = 0;
                    state.quake_counter = 30;
                    state.quake_rumble_counter = 30;
                }
            },
            _ => {},
        }
    }

    fn balrog_action_exec(&mut self, state: &mut SharedGameState, players: &[Player; 2], stage: &mut Stage)
        requires
            balrog_tickable(*old(self), *players, old(stage).width, old(stage).height),
        ensures
            final(stage).width == old(stage).width,
            final(stage).height == old(stage).height,
            (*final(self), final(state)@, final(stage).tiles@) == balrog_action(
                *old(self),
                old(state)@,
                *players,
                old(stage).width,
                old(stage).height,
                old(stage).tiles@,
            ),
            -0x2000_0000 <= final(self).x <= 0x2000_0000,
            -0x2000_0000 <= final(self).y <= 0x2000_0000,
            -0x2000_0000 <= final(self).vel_x <= 0x2000_0000,
            -0x2000_0000 <= final(self).vel_y <= 0x2000_0000,
            final(self).anim_num <= u16::MAX - 14,
    {
        if self.action_num < 40 {
            self.balrog_early_exec(state, players, stage);
        } else {
            self.balrog_late_exec(state, players, stage);
        }
    }

    /// Balrog in cutscenes; see `balrog_cutscene_step`.
    pub fn tick_n012_balrog_cutscene(&mut self, state: &mut SharedGameState, players: &[Player; 2], stage: &mut Stage)
        requires
            balrog_tickable(*old(self), *players, old(stage).width, old(stage).height),
        ensures
            final(stage).width == old(stage).width,
            final(stage).height == old(stage).height,
            (*final(self), final(state)@, final(stage).tiles@) == balrog_cutscene_step(
                *old(self),
                old(state)@,
                *players,
                old(stage).width,
                old(stage).height,
                old(stage).tiles@,
            ),
    {
        self.balrog_action_exec(state, players, stage);
        if self.target_x != 0 && self.rng.range(0..10) == 0 {
            self.balrog_puff_exec(state);
        }
        self.clamp_fall_speed();
        self.x += self.vel_x;
        self.y += self.vel_y;
        self.anim_rect = if self.direction == Direction::Left {
            self.anim_num
        } else {
            self.anim_num + 14
        };
    }
}

/// `v` limited to `0..=hi` (`hi` not negative).
fn clamp_to(v: i32, hi: i32) -> (r: i32)
    requires
        0 <= hi,
    ensures
        r == clamp(v as int, 0, hi as int),
{
    if v < 0 {
        0
    } else if v > hi {
        hi
    } else {
        v
    }
}

impl NPC {
    fn missile_run_exec(&mut self, state: &mut SharedGameState, players: &mut [Player; 2], i: usize)
        requires
            balrog_missiles_tickable(*old(self), *old(players)),
            old(self).action_num == 2 || old(self).action_num == 3,
            i < 2,
        ensures
            ({
                let (a, s, pl) = missile_run(*old(self), old(state)@, (old(players)[0], old(players)[1]), i as int);
                &&& *final(self) == a
                &&& final(state)@ == s
                &&& final(players)[0] == pl.0
                &&& final(players)[1] == pl.1
            }),
            npc_coord_ok(final(self).x),
            npc_coord_ok(final(self).y),
            -0x1100_0000 <= final(self).vel_x <= 0x1100_0000,
            npc_coord_ok(final(self).vel_y),
            final(self).anim_num <= u16::MAX - 9,
    {
        if self.action_num == 2 {
            self.action_num = 3;
            self.action_counter = 0;
            self.anim_num = 1;
            self.anim_counter = 0;
        }
        self.anim_counter += 1;
        if self.anim_counter > 3 {
            self.anim_counter = 0;
            self.anim_num += 1;
            if self.anim_num == 2 || self.anim_num == 4 {
                state.play_sfx(23);
            }
            if self.anim_num > 4 {
                self.anim_num = 1;
            }
        }
        self.vel_x += self.direction.vector_x() * 0x20;
        let p = players[i];
        if self.action_counter <= 7 || self.x - 0x1800 >= p.x || self.x + 0x1800 <= p.x || self.y - 0x1800 >= p.y
            || self.y + 0x1000 <= p.y {
            self.action_counter += 1;
            if self.action_counter <= 75 {
                if self.flags.hit_left_wall() || self.flags.hit_right_wall() {
                    if self.action_counter2 > 4 {
                        self.action_num = 4;
                        self.action_counter = 0;
                        self.anim_num = 7;
                        self.vel_y = -0x5ff;
                    } else {
                        self.action_counter2 += 1;
                    }
                } else {
                    self.action_counter2 = 0;
                }
                if self.action_counter3 & 1 == 0 && self.action_counter > 25 {
                    self.action_num = 4;
                    self.action_counter = 0;
                    self.anim_num = 7;
                    self.vel_y = -0x5ff;
                }
            } else {
                self.action_num = 9;
                self.anim_num = 0;
            }
        } else {
            self.action_num = 10;
            self.anim_num = 5;
            self.target_x = i as i32;
            let mut q = p;
            q.cond.set_hidden(true);
            players[i] = q;
            state.damage_player(i, 5);
        }
    }

    fn missile_jumping_exec(&mut self, state: &mut SharedGameState, players: &mut [Player; 2], i: usize)
        requires
            balrog_missiles_tickable(*old(self), *old(players)),
            old(self).action_num == 4,
            i < 2,
        ensures
            ({
                let (a, s, pl) = missile_jumping(*old(self), old(state)@, (old(players)[0], old(players)[1]), i as int);
                &&& *final(self) == a
                &&& final(state)@ == s
                &&& final(players)[0] == pl.0
                &&& final(players)[1] == pl.1
            }),
            npc_coord_ok(final(self).x),
            npc_coord_ok(final(self).y),
            npc_coord_ok(final(self).vel_x),
            npc_coord_ok(final(self).vel_y),
            final(self).anim_num <= u16::MAX - 9,
    {
        let p = players[i];
        self.direction = if self.x <= p.x {
            Direction::Right
        } else {
            Direction::Left
        };
        self.action_counter += 1;
        if self.action_counter <= 29 && self.action_counter % 6 == 1 {
            state.play_sfx(39);
            let mut npc = state.create_npc(170);
            npc.cond.set_alive(true);
            npc.x = self.x;
            npc.y = self.y;
            npc.direction = self.direction;
            state.spawn_npc(0x100, npc);
        }
        if self.flags.hit_bottom_wall() {
            self.action_num = 9;
            self.anim_num = 8;
            state.quake_counter = 30;
            state.quake_rumble_counter = 30;
            state.play_sfx(26);
        }
        if self.action_counter > 7 && self.x - 0x1800 < p.x && self.x + 0x1800 > p.x && self.y - 0x1800 < p.y
            && self.y + 0x1000 > p.y {
            self.action_num = 10;
            self.anim_num = 5;
            let mut q = p;
            q.cond.set_hidden(true);
            players[i] = q;
            state.damage_player(i, 10);
        }
    }

    fn missile_hold_exec(&mut self, state: &mut SharedGameState, players: &mut [Player; 2])
        requires
            balrog_missiles_tickable(*old(self), *old(players)),
            old(self).action_num == 9 || old(self).action_num == 10 || old(self).action_num == 11
                || old(self).action_num == 20 || old(self).action_num == 21,
        ensures
            ({
                let (a, s, pl) = missile_hold(*old(self), old(state)@, (old(players)[0], old(players)[1]));
                &&& *final(self) == a
                &&& final(state)@ == s
                &&& final(players)[0] == pl.0
                &&& final(players)[1] == pl.1
            }),
            npc_coord_ok(final(self).x),
            npc_coord_ok(final(self).y),
            npc_coord_ok(final(self).vel_x),
            npc_coord_ok(final(self).vel_y),
            final(self).anim_num <= u16::MAX - 9,
    {
        match self.action_num {
            9 => {
                self.vel_x = scale_i32(self.vel_x, 4, 5);
                if self.vel_x == 0 {
                    self.action_num = 0;
                }
            },
            10 => {
                let t = self.target_x as usize;
                let mut q = players[t];
                q.x = self.x;
                q.y = self.y;
                players[t] = q;
                self.vel_x = scale_i32(self.vel_x, 4, 5);
                if self.vel_x == 0 {
                    self.action_num = 11;
                    self.action_counter = 0;
                    self.anim_num = 5;
                    self.anim_counter = 0;
                }
            },
            11 => {
                let t = self.target_x as usize;
                let mut q = players[t];
                q.x = self.x;
                q.y = self.y;
                players[t] = q;
                self.animate(2, 5, 6);
                self.action_counter += 1;
                if self.action_counter > 100 {
                    self.action_num = 20;
                }
            },
            _ => {
                let t = self.target_x as usize;
                if self.action_num == 20 {
                    state.play_sfx(25);
                    let mut q = players[t];
                    q.cond.set_hidden(false);
                    if self.direction != Direction::Left {
                        q.x -= 0x800;
                        q.y -= 0x1000;
                        q.vel_x = -0x5ff;
                        q.vel_y = -0x200;
                        q.direction = Direction::Left;
                        self.direction = Direction::Left;
                    } else {
                        q.x += 0x800;
                        q.y -= 0x1000;
                        q.vel_x = 0x5ff;
                        q.vel_y = -0x200;
                        q.direction = Direction::Right;
                        self.direction = Direction::Right;
                    }
                    players[t] = q;
                    self.action_num = 21;
                    self.action_counter = 0;
                    self.anim_num = 7;
                }
                self.action_counter += 1;
                if self.action_counter >= 50 {
                    self.action_num = 0;
                }
            },
        }
    }

    /// Balrog shooting missiles; see `balrog_missiles_step`. He acts on
    /// the player he targets, or the one he holds.
    pub fn tick_n169_balrog_shooting_missiles(&mut self, state: &mut SharedGameState, players: &mut [Player; 2])
        requires
            balrog_missiles_tickable(*old(self), *old(players)),
        ensures
            ({
                let (a, s, pl) = balrog_missiles_step(*old(self), old(state)@, *old(players));
                &&& *final(self) == a
                &&& final(state)@ == s
                &&& final(players)[0] == pl.0
                &&& final(players)[1] == pl.1
            }),
    {
        let i = self.get_closest_player_idx(players);
        match self.action_num {
            0 | 1 => {
                if self.action_num == 0 {
                    self.action_num = 1;
                    self.action_counter = 30;
                    self.anim_num = 0;
                    let p = players[i];
                    self.direction = if self.x <= p.x {
                        Direction::Right
                    } else {
                        Direction::Left
                    };
                }
                self.action_counter = self.action_counter.saturating_sub(1);
                if self.action_counter == 0 {
                    self.action_num = 2;
                    self.action_counter3 += 1;
                }
            },
            2 | 3 => {
                self.missile_run_exec(state, players, i);
            },
            4 => {
                self.missile_jumping_exec(state, players, i);
            },
            9 | 10 | 11 | 20 | 21 => {
                self.missile_hold_exec(state, players);
            },
            _ => {},
        }
        self.vel_y += 0x20;
        self.vel_x = clamp_i32(self.vel_x, -0x300, 0x300);
        self.clamp_fall_speed();
        self.x += self.vel_x;
        self.y += self.vel_y;
        self.anim_rect = if self.direction == Direction::Left {
            self.anim_num
        } else {
            self.anim_num + 9
        };
    }
}

/// The running frames: every fourth tick the next of frames 1 to 4,
/// stamping on frames 2 and 4.
pub open spec fn stamp(a: NPC, st: StateView) -> (NPC, StateView) {
    let c0 = (a.anim_counter + 1) as u16;
    if c0 > 3 {
        let f = (a.anim_num + 1) as u16;
        (NPC { anim_counter: 0, anim_num: if f > 4 { 1 } else { f }, ..a }, if f == 2 || f == 4 { with_sound(st, 23) } else { st })
    } else {
        (NPC { anim_counter: c0, ..a }, st)
    }
}

/// Balrog grabs the player of index `i`: he hides them inside him, for 2
/// damage, and remembers whom he holds in `vel_y2`.
pub open spec fn running_grab(c: NPC, st: StateView, pl: (Player, Player), i: int) -> (NPC, StateView, (Player, Player)) {
    (
        NPC { action_num: 10, anim_num: 5, vel_y2: i as i32, ..c },
        with_player_damage(st, i as usize, 2),
        with_player(pl, i, hidden_player(player_at(pl, i), true)),
    )
}

/// States 2 and 3 of Balrog running: speeding up towards where he faces;
/// past 75 ticks or at a wall he stops (9), on every third run after 25
/// ticks he jumps (4); after 8 ticks, catching the player grabs them.
pub open spec fn running_run(n: NPC, st: StateView, pl: (Player, Player), i: int) -> (NPC, StateView, (Player, Player)) {
    let a = if n.action_num == 2 { NPC { action_num: 3, action_counter: 0, anim_num: 1, anim_counter: 0, ..n } } else { n };
    let (b, s) = stamp(a, st);
    let c = NPC { vel_x: (b.vel_x + spec_vector_x(b.direction) * 0x10) as i32, ..b };
    if c.action_counter >= 8 && in_grasp(c, player_at(pl, i)) {
        running_grab(c, s, pl, i)
    } else {
        let d = tick_counter(c);
        let walled = d.flags.0 & FLAG_HIT_LEFT_WALL != 0 || d.flags.0 & FLAG_HIT_RIGHT_WALL != 0;
        (if walled || d.action_counter > 75 {
            NPC { action_num: 9, anim_num: 0, ..d }
        } else if d.action_counter2 % 3 == 0 && d.action_counter > 25 {
            NPC { action_num: 4, anim_num: 7, vel_y: -0x400i32, ..d }
        } else {
            d
        }, s, pl)
    }
}

/// State 4 of Balrog running: a jump; landing shakes the room (9); after 8
/// ticks, catching the player grabs them.
pub open spec fn running_jump(n: NPC, st: StateView, pl: (Player, Player), i: int) -> (NPC, StateView, (Player, Player)) {
    let (d, s) = if n.flags.0 & FLAG_HIT_BOTTOM_WALL != 0 {
        (NPC { action_num: 9, anim_num: 8, ..n }, with_sound(StateView { quake_counter: 30, quake_rumble_counter: 30, ..st }, 26))
    } else {
        (n, st)
    };
    if d.action_counter >= 8 && in_grasp(d, player_at(pl, i)) {
        running_grab(d, s, pl, i)
    } else {
        (d, s, pl)
    }
}

/// States 9 to 21 of Balrog running: braking; holding the grabbed player
/// (index in `vel_y2`) for 100 ticks; turning round and throwing them out.
pub open spec fn running_hold(n: NPC, st: StateView, pl: (Player, Player)) -> (NPC, StateView, (Player, Player)) {
    let k = n.action_num;
    let t = n.vel_y2 as int;
    if k == 9 {
        let v = trunc_div(4 * n.vel_x, 5);
        (NPC { vel_x: v as i32, action_num: if v == 0 { 0 } else { 9 }, ..n }, st, pl)
    } else if k == 10 {
        let q = Player { x: n.x, y: n.y, ..player_at(pl, t) };
        let v = trunc_div(4 * n.vel_x, 5);
        let a = NPC { vel_x: v as i32, ..n };
        (if v == 0 { NPC { action_num: 11, action_counter: 0, anim_num: 5, anim_counter: 0, ..a } } else { a }, st, with_player(pl, t, q))
    } else if k == 11 {
        let q = Player { x: n.x, y: n.y, ..player_at(pl, t) };
        let c = tick_counter(spec_animate(n, 2, 5, 6));
        (if c.action_counter > 100 { NPC { action_num: 20, ..c } } else { c }, st, with_player(pl, t, q))
    } else {
        let (a, s, pl2) = if k == 20 {
            let p = hidden_player(player_at(pl, t), false);
            let d = spec_opposite(n.direction);
            let q = Player {
                direction: d,
                x: (p.x + 0x800 * spec_vector_x(d)) as i32,
                y: (p.y - 0x1000) as i32,
                vel_x: (0x5ff * spec_vector_x(d)) as i32,
                vel_y: -0x200i32,
                ..p
            };
            (NPC { direction: d, action_num: 21, action_counter: 0, anim_num: 7, ..n }, with_sound(st, 25), with_player(pl, t, q))
        } else {
            (n, st, pl)
        };
        let c = tick_counter(a);
        (if c.action_counter >= 50 { NPC { action_num: 0, ..c } } else { c }, s, pl2)
    }
}

/// One tick of Balrog running at the player (the fight in the Grasstown
/// shelter): the state's step, speed capped at 2 pixels sideways and 3
/// falling, gravity, movement and the frame (right-facing frames start 9
/// in). The players come back as a pair.
pub open spec fn balrog_running_step(n: NPC, st: StateView, players: [Player; 2]) -> (NPC, StateView, (Player, Player)) {
    let pl = (players[0], players[1]);
    let i = closest_player(n.x, n.y, players) as int;
    let k = n.action_num;
    let (a, s, pl2) = if k == 0 || k == 1 {
        let b = if k == 0 { face_or_right(NPC { action_num: 1, anim_num: 0, action_counter: 30, ..n }, players[i]) } else { n };
        (if b.action_counter > 0 {
            NPC { action_counter: (b.action_counter - 1) as u16, ..b }
        } else {
            NPC { action_num: 2, action_counter2: (b.action_counter2 + 1) as u16, ..b }
        }, st, pl)
    } else if k == 2 || k == 3 {
        running_run(n, st, pl, i)
    } else if k == 4 {
        running_jump(n, st, pl, i)
    } else if k == 9 || k == 10 || k == 11 || k == 20 || k == 21 {
        running_hold(n, st, pl)
    } else {
        (n, st, pl)
    };
    let vx = clamp(a.vel_x as int, -0x400, 0x400);
    let vy0 = a.vel_y + 0x20;
    let vy = if vy0 > 0x5ff { 0x5ff } else { vy0 };
    let m = NPC { vel_x: vx as i32, vel_y: vy as i32, x: (a.x + vx) as i32, y: (a.y + vy) as i32, ..a };
    (NPC { anim_rect: dir_frame(m, 9), ..m }, s, pl2)
}

/// Inputs a tick of Balrog running computes in range on.
pub open spec fn balrog_running_tickable(n: NPC, players: [Player; 2]) -> bool {
    let k = n.action_num;
    &&& npc_coord_ok(n.x)
    &&& npc_coord_ok(n.y)
    &&& npc_coord_ok(n.vel_x)
    &&& npc_coord_ok(n.vel_y)
    &&& npc_coord_ok(players[0].x)
    &&& npc_coord_ok(players[0].y)
    &&& npc_coord_ok(players[1].x)
    &&& npc_coord_ok(players[1].y)
    &&& (k == 1 && n.action_counter == 0) ==> n.action_counter2 < u16::MAX
    &&& k == 3 ==> (n.anim_counter < u16::MAX && n.action_counter < u16::MAX)
    &&& k == 11 ==> (n.anim_counter < u16::MAX && n.action_counter < u16::MAX)
    &&& k == 21 ==> n.action_counter < u16::MAX
    &&& (k == 10 || k == 11 || k == 20) ==> (n.vel_y2 == 0 || n.vel_y2 == 1)
    &&& k == 20 ==> n.direction != Direction::FacingPlayer
    &&& n.anim_num <= u16::MAX - 9
}

impl NPC {
    fn running_grab_exec(&mut self, state: &mut SharedGameState, players: &mut [Player; 2], i: usize)
        requires
            i < 2,
        ensures
            ({
                let (a, s, pl) = running_grab(*old(self), old(state)@, (old(players)[0], old(players)[1]), i as int);
                &&& *final(self) == a
                &&& final(state)@ == s
                &&& final(players)[0] == pl.0
                &&& final(players)[1] == pl.1
            }),
    {
        self.action_num = 10;
        self.anim_num = 5;
        self.vel_y2 = i as i32;
        let mut q = players[i];
        q.cond.set_hidden(true);
        players[i] = q;
        state.damage_player(i, 2);
    }

    fn running_run_exec(&mut self, state: &mut SharedGameState, players: &mut [Player; 2], i: usize)
        requires
            balrog_running_tickable(*old(self), *old(players)),
            old(self).action_num == 2 || old(self).action_num == 3,
            i < 2,
        ensures
            ({
                let (a, s, pl) = running_run(*old(self), old(state)@, (old(players)[0], old(players)[1]), i as int);
                &&& *final(self) == a
                &&& final(state)@ == s
                &&& final(players)[0] == pl.0
                &&& final(players)[1] == pl.1
            }),
    {
        if self.action_num == 2 {
            self.action_num = 3;
            self.action_counter = 0;
            self.anim_num = 1;
            self.anim_counter = 0;
        }
        self.anim_counter += 1;
        if self.anim_counter > 3 {
            self.anim_counter = 0;
            self.anim_num += 1;
            if self.anim_num == 2 || self.anim_num == 4 {
                state.play_sfx(23);
            }
            if self.anim_num > 4 {
                self.anim_num = 1;
            }
        }
        self.vel_x += 0x10 * self.direction.vector_x();
        let p = players[i];
        if self.action_counter >= 8 && self.x - 0x1800 < p.x && self.x + 0x1800 > p.x && self.y - 0x1800 < p.y
            && self.y + 0x1000 > p.y {
            self.running_grab_exec(state, players, i);
        } else {
            self.action_counter += 1;
            if (self.flags.hit_left_wall() || self.flags.hit_right_wall()) || self.action_counter > 75 {
                self.action_num = 9;
                self.anim_num = 0;
            } else if self.action_counter2 % 3 == 0 && self.action_counter > 25 {
                self.action_num = 4;
                self.anim_num = 7;
                self.vel_y = -0x400;
            }
        }
    }

    fn running_jump_exec(&mut self, state: &mut SharedGameState, players: &mut [Player; 2], i: usize)
        requires
            balrog_running_tickable(*old(self), *old(players)),
            old(self).action_num == 4,
            i < 2,
        ensures
            ({
                let (a, s, pl) = running_jump(*old(self), old(state)@, (old(players)[0], old(players)[1]), i as int);
                &&& *final(self) == a
                &&& final(state)@ == s
                &&& final(players)[0] == pl.0
                &&& final(players)[1] == pl.1
            }),
    {
        if self.flags.hit_bottom_wall() {
            self.action_num = 9;
            self.anim_num = 8;
            state.quake_counter = 30;
            state.quake_rumble_counter = 30;
            state.play_sfx(26);
        }
        let p = players[i];
        if self.action_counter >= 8 && self.x - 0x1800 < p.x && self.x + 0x1800 > p.x && self.y - 0x1800 < p.y
            && self.y + 0x1000 > p.y {
            self.running_grab_exec(state, players, i);
        }
    }

    fn running_hold_exec(&mut self, state: &mut SharedGameState, players: &mut [Player; 2])
        requires
            balrog_running_tickable(*old(self), *old(players)),
            old(self).action_num == 9 || old(self).action_num == 10 || old(self).action_num == 11
                || old(self).action_num == 20 || old(self).action_num == 21,
        ensures
            ({
                let (a, s, pl) = running_hold(*old(self), old(state)@, (old(players)[0], old(players)[1]));
                &&& *final(self) == a
                &&& final(state)@ == s
                &&& final(players)[0] == pl.0
                &&& final(players)[1] == pl.1
            }),
    {
        match self.action_num {
            9 => {
                self.vel_x = scale_i32(self.vel_x, 4, 5);
                if self.vel_x == 0 {
                    self.action_num = 0;
                }
            },
            10 => {
                let t = self.vel_y2 as usize;
                let mut q = players[t];
                q.x = self.x;
                q.y = self.y;
                players[t] = q;
                self.vel_x = scale_i32(self.vel_x, 4, 5);
                if self.vel_x == 0 {
                    self.action_num = 11;
                    self.action_counter = 0;
                    self.anim_num = 5;
                    self.anim_counter = 0;
                }
            },
            11 => {
                let t = self.vel_y2 as usize;
                let mut q = players[t];
                q.x = self.x;
                q.y = self.y;
                players[t] = q;
                self.animate(2, 5, 6);
                self.action_counter += 1;
                if self.action_counter > 100 {
                    self.action_num = 20;
                }
            },
            _ => {
                if self.action_num == 20 {
                    let t = self.vel_y2 as usize;
                    state.play_sfx(25);
                    let mut q = players[t];
                    q.cond.set_hidden(false);
                    self.direction = self.direction.opposite();
                    q.direction = self.direction;
                    q.x += 0x800 * self.direction.vector_x();
                    q.y -= 0x1000;
                    q.vel_x = 0x5ff * self.direction.vector_x();
                    q.vel_y = -0x200;
                    players[t] = q;
                    self.action_num = 21;
                    self.action_counter = 0;
                    self.anim_num = 7;
                }
                self.action_counter += 1;
                if self.action_counter >= 50 {
                    self.action_num = 0;
                }
            },
        }
    }

    /// Balrog running at the player; see `balrog_running_step`. He acts on
    /// the player he targets, or the one he holds.
    pub fn tick_n068_balrog_running(&mut self, state: &mut SharedGameState, players: &mut [Player; 2])
        requires
            balrog_running_tickable(*old(self), *old(players)),
        ensures
            ({
                let (a, s, pl) = balrog_running_step(*old(self), old(state)@, *old(players));
                &&& *final(self) == a
                &&& final(state)@ == s
                &&& final(players)[0] == pl.0
                &&& final(players)[1] == pl.1
            }),
    {
        let i = self.get_closest_player_idx(players);
        match self.action_num {
            0 | 1 => {
                if self.action_num == 0 {
                    self.action_num = 1;
                    self.anim_num = 0;
                    self.action_counter = 30;
                    let p = players[i];
                    self.direction = if self.x > p.x {
                        Direction::Left
                    } else {
                        Direction::Right
                    };
                }
                if self.action_counter > 0 {
                    self.action_counter -= 1;
                } else {
                    self.action_num = 2;
                    self.action_counter2 += 1;
                }
            },
            2 | 3 => {
                self.running_run_exec(state, players, i);
            },
            4 => {
                self.running_jump_exec(state, players, i);
            },
            9 | 10 | 11 | 20 | 21 => {
                self.running_hold_exec(state, players);
            },
            _ => {},
        }
        self.vel_x = clamp_i32(self.vel_x, -0x400, 0x400);
        self.vel_y += 0x20;
        self.clamp_fall_speed();
        self.x += self.vel_x;
        self.y += self.vel_y;
        self.anim_rect = if self.direction == Direction::Left {
            self.anim_num
        } else {
            self.anim_num + 9
        };
    }
}

/// A shard of rubble (type 33) thrown from within 12 pixels of Balrog as
/// he lands, drawn from his generator.
pub open spec fn hover_shard(n: NPC, st: StateView) -> (NPC, StateView) {
    let (rx, a) = roll(n, -12i32, 12i32);
    let (ry, b) = roll(a, -12i32, 12i32);
    let (vx, c) = roll(b, -0x400i32, 0x400i32);
    let (vy, d) = roll(c, -0x400i32, 0i32);
    let shard = NPC {
        direction: Direction::Left,
        x: (n.x + rx * 0x200) as i32,
        y: (n.y + ry * 0x200) as i32,
        vel_x: vx,
        vel_y: vy,
        ..set_alive_spec(table_npc(33, st.npc_table), true)
    };
    (d, with_spawn(st, 0x100, shard))
}

/// `k` rounds of a puff of smoke and a shard of rubble.
pub open spec fn hover_burst(n: NPC, st: StateView, k: nat) -> (NPC, StateView)
    decreases k,
{
    if k == 0 {
        (n, st)
    } else {
        let (m, s) = hover_burst(n, st, (k - 1) as nat);
        let (m2, s2) = balrog_puff(m, s);
        hover_shard(m2, s2)
    }
}

/// Balrog's states in the hovering fight, before the movement (`p` the
/// player he targets): a pause (0, 1); three energy shots aimed at the
/// player, each turned by up to 16 game degrees (type 11), one every 17
/// ticks (2); a leap towards the player (3, 4); hovering about his height,
/// flapping, for 100 ticks while he has more than 60 life (5); falling,
/// harmful to a player below him, until a landing that shakes the room
/// and throws smoke and rubble (6); a pause (7).
pub open spec fn hover_action(n: NPC, st: StateView, p: Player) -> (NPC, StateView) {
    let k = n.action_num;
    if k == 0 || k == 1 {
        let c = tick_counter(NPC { action_num: 1, ..n });
        (if c.action_counter > 12 { NPC { action_num: 2, action_counter: 0, anim_num: 1, vel_x2: 3, ..c } } else { c }, st)
    } else if k == 2 {
        let c = tick_counter(n);
        if c.action_counter > 16 {
            let (j, m) = roll(NPC { vel_x2: (c.vel_x2 - 1) as i32, action_counter: 0, ..c }, -16i32, 16i32);
            let s = with_sound(
                with_aim(with_spawn(st, 0x100, fresh(st, 11, m.x as int, m.y + 0x800)), (m.x - p.x) as i32, (m.y + 0x800 - p.y) as i32, j, 512),
                39,
            );
            (if m.vel_x2 == 0 { NPC { action_num: 3, action_counter: 0, ..m } } else { m }, s)
        } else {
            (c, st)
        }
    } else if k == 3 {
        let c = tick_counter(n);
        (if c.action_counter > 3 {
            NPC { action_num: 4, action_counter: 0, anim_num: 3, vel_x: trunc_div(p.x - c.x, 100) as i32, vel_y: -0x600i32, ..c }
        } else {
            c
        }, st)
    } else if k == 4 {
        (if n.vel_y > -0x200 {
            if n.life > 60 {
                NPC { action_num: 5, action_counter: 0, anim_num: 4, anim_counter: 0, target_y: n.y, ..n }
            } else {
                NPC { action_num: 6, ..n }
            }
        } else {
            n
        }, st)
    } else if k == 5 {
        let c0 = (n.anim_counter + 1) as u16;
        let (a, s) = if c0 > 1 {
            let f = (n.anim_num + 1) as u16;
            if f > 5 { (NPC { anim_counter: 0, anim_num: 4, ..n }, with_sound(st, 47)) } else { (NPC { anim_counter: 0, anim_num: f, ..n }, st) }
        } else {
            (NPC { anim_counter: c0, ..n }, st)
        };
        let b = tick_counter(a);
        let c = if b.action_counter > 100 { NPC { action_num: 6, anim_num: 3, ..b } } else { b };
        let vy = clamp(c.vel_y + if c.y < c.target_y { 0x40int } else { -0x40int }, -0x200, 0x200);
        (NPC { vel_y: vy as i32, ..c }, s)
    } else if k == 6 {
        let a = NPC { damage: if n.y + 0x2000 < p.y { 10 } else { 0 }, ..n };
        if a.flags.0 & FLAG_HIT_BOTTOM_WALL != 0 {
            let s0 = with_sound(with_sound(st, 25), 26);
            hover_burst(
                NPC { action_num: 7, action_counter: 0, anim_num: 2, damage: 0, ..a },
                StateView { quake_counter: 30, quake_rumble_counter: 30, ..s0 },
                8,
            )
        } else {
            (a, st)
        }
    } else if k == 7 {
        let c = tick_counter(NPC { vel_x: 0, ..n });
        (if c.action_counter > 3 { NPC { action_num: 1, action_counter: 0, ..c } } else { c }, st)
    } else {
        (n, st)
    }
}

/// One tick of Balrog in the hovering fight: his state's step; gravity and
/// facing the player but while hovering; fall speed capped at 3 pixels,
/// movement and the frame (right-facing frames start 6 in).
pub open spec fn balrog_hover_step(n: NPC, st: StateView, players: [Player; 2]) -> (NPC, StateView) {
    let p = players[closest_player(n.x, n.y, players) as int];
    let (a, s) = hover_action(n, st, p);
    let b = if a.action_num != 5 {
        NPC { vel_y: (a.vel_y + 0x33) as i32, direction: if a.x < p.x { Direction::Right } else { Direction::Left }, ..a }
    } else {
        a
    };
    let vy = if b.vel_y > 0x5ff { 0x5ffi32 } else { b.vel_y };
    let m = NPC { vel_y: vy, x: (b.x + b.vel_x) as i32, y: (b.y + vy) as i32, ..b };
    (NPC { anim_rect: dir_frame(m, 6), ..m }, s)
}

/// Inputs a tick of the hovering Balrog computes in range on.
pub open spec fn balrog_hover_tickable(n: NPC, players: [Player; 2]) -> bool {
    let k = n.action_num;
    &&& npc_coord_ok(n.x)
    &&& npc_coord_ok(n.y)
    &&& npc_coord_ok(n.vel_x)
    &&& npc_coord_ok(n.vel_y)
    &&& npc_coord_ok(players[0].x)
    &&& npc_coord_ok(players[0].y)
    &&& npc_coord_ok(players[1].x)
    &&& npc_coord_ok(players[1].y)
    &&& (k == 0 || k == 1 || k == 2 || k == 3 || k == 5 || k == 7) ==> n.action_counter < u16::MAX
    &&& k == 2 ==> n.vel_x2 > i32::MIN
    &&& k == 5 ==> n.anim_counter < u16::MAX
    &&& n.anim_num <= u16::MAX - 6
}

/// `v / d` on `i32`, rounding towards zero.
pub fn div_toward_zero(v: i32, d: i32) -> (r: i32)
    requires
        0 < d,
        -0x4000_0000 <= v <= 0x4000_0000,
    ensures
        r == trunc_div(v as int, d as int),
        -0x4000_0000 <= r <= 0x4000_0000,
{
    if v >= 0 {
        assert(v / d <= v) by (nonlinear_arith)
            requires
                v >= 0,
                d > 0,
        ;
        v / d
    } else {
        let a: i32 = -v;
        assert(a / d <= a) by (nonlinear_arith)
            requires
                a >= 0,
                d > 0,
        ;
        -(a / d)
    }
}

impl NPC {
    fn hover_shard_exec(&mut self, state: &mut SharedGameState)
        requires
            -0x2000_0000 <= old(self).x <= 0x2000_0000,
            -0x2000_0000 <= old(self).y <= 0x2000_0000,
        ensures
            (*final(self), final(state)@) == hover_shard(*old(self), old(state)@),
            *final(self) == (NPC { rng: final(self).rng, ..*old(self) }),
            final(state)@.npc_table == old(state)@.npc_table,
    {
        let mut npc = state.create_npc(33);
        npc.cond.set_alive(true);
        npc.direction = Direction::Left;
        let rx = self.rng.range(-12..12);
        npc.x = self.x + rx * 0x200;
        let ry = self.rng.range(-12..12);
        npc.y = self.y + ry * 0x200;
        npc.vel_x = self.rng.range(-0x400..0x400);
        npc.vel_y = self.rng.range(-0x400..0);
        state.spawn_npc(0x100, npc);
    }

    fn hover_landing_exec(&mut self, state: &mut SharedGameState)
        requires
            npc_coord_ok(old(self).x),
            npc_coord_ok(old(self).y),
        ensures
            (*final(self), final(state)@) == hover_burst(*old(self), old(state)@, 8),
            *final(self) == (NPC { rng: final(self).rng, ..*old(self) }),
    {
        let ghost b0 = *self;
        let ghost s0 = state@;
        let mut i: usize = 0;
        while i < 8
            invariant
                i <= 8,
                *self == (NPC { rng: self.rng, ..b0 }),
                npc_coord_ok(b0.x),
                npc_coord_ok(b0.y),
                (*self, state@) == hover_burst(b0, s0, i as nat),
            decreases 8 - i,
        {
            self.balrog_puff_exec(state);
            self.hover_shard_exec(state);
            i += 1;
        }
    }

    fn hover_action_exec(&mut self, state: &mut SharedGameState, p: &Player)
        requires
            balrog_hover_tickable(*old(self), [*p, *p]),
        ensures
            (*final(self), final(state)@) == hover_action(*old(self), old(state)@, *p),
            npc_coord_ok(final(self).x),
            npc_coord_ok(final(self).y),
            npc_coord_ok(final(self).vel_x),
            npc_coord_ok(final(self).vel_y),
            final(self).anim_num <= u16::MAX - 6,
    {
        match self.action_num {
            0 | 1 => {
                self.action_num = 1;
                self.action_counter += 1;
                if self.action_counter > 12 {
                    self.action_num = 2;
                    self.action_counter = 0;
                    self.anim_num = 1;
                    self.vel_x2 = 3;
                }
            },
            2 => {
                self.action_counter += 1;
                if self.action_counter > 16 {
                    self.vel_x2 -= 1;
                    self.action_counter = 0;
                    let j = self.rng.range(-16..16);
                    let mut npc = state.create_npc(11);
                    npc.cond.set_alive(true);
                    npc.x = self.x;
                    npc.y = self.y + 0x800;
                    state.spawn_npc(0x100, npc);
                    state.aim_last_spawn(self.x - p.x, self.y + 0x800 - p.y, j, 512);
                    state.play_sfx(39);
                    if self.vel_x2 == 0 {
                        self.action_num = 3;
                        self.action_counter = 0;
                    }
                }
            },
            3 => {
                self.action_counter += 1;
                if self.action_counter > 3 {
                    self.action_num = 4;
                    self.action_counter = 0;
                    self.anim_num = 3;
                    self.vel_x = div_toward_zero(p.x - self.x, 100);
                    self.vel_y = -0x600;
                }
            },
            4 => {
                if self.vel_y > -0x200 {
                    if self.life > 60 {
                        self.action_num = 5;
                        self.action_counter = 0;
                        self.anim_num = 4;
                        self.anim_counter = 0;
                        self.target_y = self.y;
                    } else {
                        self.action_num = 6;
                    }
                }
            },
            5 => {
                self.anim_counter += 1;
                if self.anim_counter > 1 {
                    self.anim_counter = 0;
                    self.anim_num += 1;
                    if self.anim_num > 5 {
                        self.anim_num = 4;
                        state.play_sfx(47);
                    }
                }
                self.action_counter += 1;
                if self.action_counter > 100 {
                    self.action_num = 6;
                    self.anim_num = 3;
                }
                self.vel_y += if self.y < self.target_y {
                    0x40
                } else {
                    -0x40
                };
                self.vel_y = clamp_i32(self.vel_y, -0x200, 0x200);
            },
            6 => {
                self.damage = if self.y + 0x2000 < p.y {
                    10
                } else {
                    0
                };
                if self.flags.hit_bottom_wall() {
                    self.action_num = 7;
                    self.action_counter = 0;
                    self.anim_num = 2;
                    self.damage = 0;
                    state.play_sfx(25);
                    state.play_sfx(26);
                    state.quake_counter = 30;
                    state.quake_rumble_counter = 30;
                    self.hover_landing_exec(state);
                }
            },
            7 => {
                self.vel_x = 0;
                self.action_counter += 1;
                if self.action_counter > 3 {
                    self.action_num = 1;
                    self.action_counter = 0;
                }
            },
            _ => {},
        }
    }

    /// Balrog in the hovering fight; see `balrog_hover_step`.
    pub fn tick_n036_balrog_hover(&mut self, state: &mut SharedGameState, players: &[Player; 2])
        requires
            balrog_hover_tickable(*old(self), *players),
        ensures
            (*final(self), final(state)@) == balrog_hover_step(*old(self), old(state)@, *players),
    {
        let p = players[self.get_closest_player_idx(players)];
        self.hover_action_exec(state, &p);
        if self.action_num != 5 {
            self.vel_y += 0x33;
            self.direction = if self.x < p.x {
                Direction::Right
            } else {
                Direction::Left
            };
        }
        self.clamp_fall_speed();
        self.x += self.vel_x;
        self.y += self.vel_y;
        self.anim_rect = if self.direction == Direction::Left {
            self.anim_num
        } else {
            self.anim_num + 6
        };
    }
}


/// One tick of Balrog bursting in: on his first tick 16 puffs of smoke, a
/// crash (sounds 12 and 26) and a quake, and he drops in 10 pixels lower,
/// thrown up a little (1); he falls until he lands (2: another crash and
/// quake), stands up after 17 ticks (3), and blinks now and then (4); fall
/// and rise speeds at most 3 pixels (right-facing frames start 4 in).
pub open spec fn balrog_bust_in_step(n: NPC, st: StateView) -> (NPC, StateView) {
    let k = n.action_num;
    let (a, st1) = if k == 0 || k == 1 {
        let (b, s) = if k == 0 {
            let (m, s0) = balrog_puffs(n, st, 16);
            (
                NPC { y: (m.y + 0x1400) as i32, action_num: 1, anim_num: 3, vel_y: -0x100i32, ..m },
                StateView { quake_counter: 30, quake_rumble_counter: 30, ..with_sound(with_sound(s0, 12), 26) },
            )
        } else {
            (n, st)
        };
        let c = NPC { vel_y: (b.vel_y + 0x10) as i32, ..b };
        if c.vel_y > 0 && c.flags.0 & FLAG_HIT_BOTTOM_WALL != 0 {
            (
                NPC { action_num: 2, anim_num: 2, action_counter: 0, ..c },
                StateView { quake_counter: 30, quake_rumble_counter: 30, ..with_sound(s, 26) },
            )
        } else {
            (c, s)
        }
    } else if k == 2 {
        let c = tick_counter(n);
        (if c.action_counter > 16 { NPC { action_num: 3, anim_num: 0, anim_counter: 0, ..c } } else { c }, st)
    } else if k == 3 {
        let (r, m) = roll(n, 0i32, 100i32);
        (if r == 0 { NPC { action_num: 4, action_counter: 0, anim_num: 1, ..m } } else { m }, st)
    } else if k == 4 {
        let c = tick_counter(n);
        (if c.action_counter > 16 { NPC { action_num: 3, anim_num: 0, ..c } } else { c }, st)
    } else {
        (n, st)
    };
    let vy = clamp(a.vel_y as int, -0x5ff, 0x5ff);
    let m = NPC { vel_y: vy as i32, x: (a.x + a.vel_x) as i32, y: (a.y + vy) as i32, ..a };
    (NPC { anim_rect: dir_frame(m, 4), ..m }, st1)
}

impl NPC {
    /// Balrog bursting in; see `balrog_bust_in_step`.
    pub fn tick_n019_balrog_bust_in(&mut self, state: &mut SharedGameState)
        requires
            npc_coord_ok(old(self).x),
            npc_coord_ok(old(self).y),
            npc_coord_ok(old(self).vel_x),
            npc_coord_ok(old(self).vel_y),
            old(self).action_num == 2 || old(self).action_num == 4 ==> old(self).action_counter < u16::MAX,
            old(self).anim_num <= u16::MAX - 4,
        ensures
            (*final(self), final(state)@) == balrog_bust_in_step(*old(self), old(state)@),
    {
        let k = self.action_num;
        if k == 0 || k == 1 {
            if k == 0 {
                let ghost n0 = *self;
                let ghost s0 = state@;
                let mut i: usize = 0;
                while i < 16
                    invariant
                        i <= 16,
                        *self == (NPC { rng: self.rng, ..n0 }),
                        npc_coord_ok(n0.x),
                        npc_coord_ok(n0.y),
                        (*self, state@) == balrog_puffs(n0, s0, i as nat),
                    decreases 16 - i,
                {
                    self.balrog_puff_exec(state);
                    i += 1;
                }
                state.play_sfx(12);
                state.play_sfx(26);
                state.quake_counter = 30;
                state.quake_rumble_counter = 30;
                self.y += 0x1400;
                self.action_num = 1;
                self.anim_num = 3;
                self.vel_y = -0x100;
            }
            self.vel_y += 0x10;
            if self.vel_y > 0 && self.flags.hit_bottom_wall() {
                self.action_num = 2;
                self.anim_num = 2;
                self.action_counter = 0;
                state.play_sfx(26);
                state.quake_counter = 30;
                state.quake_rumble_counter = 30;
            }
        } else if k == 2 {
            self.action_counter += 1;
            if self.action_counter > 16 {
                self.action_num = 3;
                self.anim_num = 0;
                self.anim_counter = 0;
            }
        } else if k == 3 {
            if self.rng.range(0..100) == 0 {
                self.action_num = 4;
                self.action_counter = 0;
                self.anim_num = 1;
            }
        } else if k == 4 {
            self.action_counter += 1;
            if self.action_counter > 16 {
                self.action_num = 3;
                self.anim_num = 0;
            }
        }
        self.vel_y = clamp_i32(self.vel_y, -0x5ff, 0x5ff);
        self.x += self.vel_x;
        self.y += self.vel_y;
        self.anim_rect = if self.direction == Direction::Left {
            self.anim_num
        } else {
            self.anim_num + 4
        };
    }
}

} // verus!
