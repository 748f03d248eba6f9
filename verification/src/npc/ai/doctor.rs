//! The Doctor: his first form, and the muscle form of the second part of
//! the fight in the Seal Chamber.

use vstd::prelude::*;

use crate::common::{spec_vector_x, Direction};
use crate::game_state::{
    with_angle_aim, with_player_damage, with_sound, with_spawn, with_type_kill, SharedGameState,
    StateView,
};
use crate::npc::ai::balrog::capped_fall;
use crate::npc::ai::mimiga_village::{face_towards, guarded, ignoring_solidity};
use crate::npc::ai::balcony::alive_at;
use crate::npc::ai::misery::{clamp, clamp_i32, shootable, tick_counter};
use crate::npc::ai::{dir_frame, npc_coord_ok, scale_i32, trunc_div};
use crate::npc::{
    closest_player, roll, set_alive_spec, spec_animate, table_npc, with_bits16, NPCFlag, Player, Rect,
    FLAG_HIT_BOTTOM_WALL, FLAG_HIT_LEFT_WALL, FLAG_HIT_RIGHT_WALL, NPC, NPC_REAR_AND_TOP_NOT_HURT,
    NPC_SOLID_SOFT,
};

verus! {

pub open spec fn with_npc_flag(n: NPC, mask: u16, v: bool) -> NPC {
    NPC { npc_flags: NPCFlag(with_bits16(n.npc_flags.0, mask, v)), ..n }
}

/// A red spark (type 270), falling.
pub open spec fn spark(st: StateView) -> NPC {
    NPC { direction: Direction::Bottom, ..set_alive_spec(table_npc(270, st.npc_table), true) }
}

/// One spark of the slam: within 16 pixels, flung in any direction.
pub open spec fn burst_spark(n: NPC, st: StateView) -> (NPC, StateView) {
    let (rx, a) = roll(n, -16i32, 16i32);
    let (ry, b) = roll(a, -16i32, 16i32);
    let (vx, c) = roll(b, -512i32, 512i32);
    let (vy, d) = roll(c, -512i32, 512i32);
    (
        d,
        with_spawn(
            st,
            0xaa,
            NPC {
                x: (n.x + rx * 0x200) as i32,
                y: (n.y + ry * 0x200) as i32,
                vel_x: (3 * vx) as i32,
                vel_y: (3 * vy) as i32,
                ..spark(st)
            },
        ),
    )
}

pub open spec fn burst(n: NPC, st: StateView, k: nat) -> (NPC, StateView)
    decreases k,
{
    if k == 0 {
        (n, st)
    } else {
        let (m, s) = burst(n, st, (k - 1) as nat);
        burst_spark(m, s)
    }
}

/// Spark `i` of the four that rise while he sinks away: the last two go
/// straight up.
pub open spec fn sink_spark(n: NPC, st: StateView, i: int) -> (NPC, StateView) {
    let (rx, a) = roll(n, -0x10i32, 0x10i32);
    let (vy, b) = roll(a, -0x200i32, 0i32);
    let (vx, c) = if i >= 2 { (0i32, b) } else { roll(b, -0x200i32, 0x200i32) };
    (
        c,
        with_spawn(
            st,
            0xaa,
            NPC {
                x: (n.x + rx * 0x200) as i32,
                y: (n.y - trunc_div(0x150 - n.action_counter, 8) * 0x200) as i32,
                vel_y: (2 * vy) as i32,
                vel_x: vx,
                ..spark(st)
            },
        ),
    )
}

pub open spec fn sink_sparks(n: NPC, st: StateView, k: nat) -> (NPC, StateView)
    decreases k,
{
    if k == 0 {
        (n, st)
    } else {
        let (m, s) = sink_sparks(n, st, (k - 1) as nat);
        sink_spark(m, s, k - 1)
    }
}

/// A spark shed while he moves about.
pub open spec fn shed_spark(n: NPC, st: StateView) -> (NPC, StateView) {
    let (rx, a) = roll(n, -0x10i32, 0x10i32);
    let (ry, b) = roll(a, -8i32, 4i32);
    (
        b,
        with_spawn(
            st,
            0x100,
            NPC { x: (n.x + rx * 0x200) as i32, y: (n.y + ry * 0x200) as i32, vel_x: n.vel_x, vel_y: 0, ..spark(st) },
        ),
    )
}

/// States 0 to 8: taking form where the Doctor stood, then a pause.
pub open spec fn doctor_intro(n: NPC, st: StateView, p: Player) -> NPC {
    let k = n.action_num;
    if k <= 2 {
        let a = if k == 0 {
            let d = if st.npc_super_pos.0 > p.x { Direction::Left } else { Direction::Right };
            NPC {
                direction: d,
                x: (st.npc_super_pos.0 + spec_vector_x(d) * 0xc00) as i32,
                y: st.npc_super_pos.1,
                ..n
            }
        } else if k == 1 {
            NPC { action_num: 2, ..n }
        } else {
            n
        };
        let c = tick_counter(NPC { vel_y: (a.vel_y + 0x80) as i32, ..a });
        NPC { anim_num: if c.action_counter & 2 != 0 { 0 } else { 3 }, ..c }
    } else if k == 5 || k == 6 {
        let a = if k == 5 { NPC { action_num: 6, anim_num: 1, anim_counter: 0, ..n } } else { n };
        spec_animate(NPC { vel_y: (a.vel_y + 0x80) as i32, ..a }, 40, 1, 2)
    } else {
        let a = if k == 7 { NPC { action_num: 8, action_counter: 0, anim_num: 3, ..n } } else { n };
        let c = tick_counter(NPC { vel_y: (a.vel_y + 0x40) as i32, ..a });
        if c.action_counter > 40 { NPC { action_num: 10, ..c } } else { c }
    }
}

/// The attack after a stand, by a cycle of ten counted in
/// `action_counter2`: jump (40), teleport (100), charge (30), shots (20),
/// or a hop (15).
pub open spec fn doctor_next_attack(n: NPC) -> NPC {
    let c2: u16 = if n.action_counter2 + 1 > 10 { 0 } else { (n.action_counter2 + 1) as u16 };
    let a = NPC { action_counter2: c2, ..n };
    if c2 == 1 || c2 == 9 {
        NPC { action_num: 40, ..a }
    } else if c2 == 2 || c2 == 7 {
        NPC { action_num: 100, ..a }
    } else if c2 == 3 || c2 == 6 {
        NPC { action_num: 30, ..a }
    } else if c2 == 8 {
        NPC { action_num: 20, ..a }
    } else {
        NPC { action_num: 15, action_counter: 0, ..a }
    }
}

/// States 10 and 11: standing guard. Hurt by 20 since the stand began,
/// he slams the floor when the targeted player (index `i`) stands near
/// him on it: 5 damage, the player knocked away and up, a quake and a
/// burst of 100 sparks. After 30 ticks, or once hurt, the next attack.
pub open spec fn doctor_stand(n: NPC, st: StateView, p: Player, i: usize) -> (NPC, StateView, Player) {
    let a = if n.action_num == 10 {
        NPC { vel_x: 0, action_num: 11, action_counter: 0, anim_num: 1, anim_counter: 0, action_counter3: n.life, ..guarded(n, true) }
    } else {
        n
    };
    let b = face_towards(NPC { vel_y: (a.vel_y + 0x80) as i32, ..a }, p);
    let (c, s, q) = if b.flags.0 & FLAG_HIT_BOTTOM_WALL != 0 {
        if b.life + 20 > b.action_counter3 {
            (spec_animate(b, 10, 1, 2), st, p)
        } else if p.flags.0 & FLAG_HIT_BOTTOM_WALL != 0 && p.x > b.x - 0x6000 && p.x < b.x + 0x6000 {
            let s1 = with_player_damage(
                StateView { quake_counter: 10, quake_rumble_counter: 10, ..with_sound(st, 26) },
                i,
                5,
            );
            let q = Player { vel_y: -0x400i32, vel_x: if b.x > p.x { -0x5ffi32 } else { 0x5ffi32 }, ..p };
            let (m, s2) = burst(NPC { anim_num: 6, ..b }, s1, 100);
            (m, s2, q)
        } else {
            (b, st, p)
        }
    } else {
        (NPC { anim_num: 4, ..b }, st, p)
    };
    let d = tick_counter(c);
    (if d.action_counter > 30 || d.life + 20 < d.action_counter3 { doctor_next_attack(d) } else { d }, s, q)
}

/// Back to the stand after a charge: harmless from the back again.
pub open spec fn charge_over(n: NPC, next: u16) -> NPC {
    NPC {
        action_num: next,
        action_counter: 0,
        damage: 5,
        ..shootable(with_npc_flag(with_npc_flag(n, NPC_REAR_AND_TOP_NOT_HURT, false), NPC_SOLID_SOFT, false), true)
    }
}

/// States 15 to 41: hops, landings, the spray of shots, the charge and
/// the jump that turns into a dive onto the player.
pub open spec fn doctor_moves(n: NPC, st: StateView, p: Player) -> (NPC, StateView) {
    let k = n.action_num;
    if k == 15 {
        let c = face_towards(tick_counter(NPC { anim_num: 3, ..n }), p);
        (if c.action_counter > 20 {
            NPC {
                action_num: 16,
                anim_num: 4,
                anim_counter: 0,
                vel_x: (spec_vector_x(c.direction) * 0x400) as i32,
                vel_y: -0x600i32,
                ..c
            }
        } else {
            c
        }, st)
    } else if k == 16 {
        let a = face_towards(spec_animate(NPC { vel_y: (n.vel_y + 0x40) as i32, ..n }, 1, 4, 5), p);
        (if a.vel_y > 0 && a.flags.0 & FLAG_HIT_BOTTOM_WALL != 0 { NPC { action_num: 17, ..a } } else { a }, st)
    } else if k == 17 || k == 18 {
        let (a, s) = if k == 17 {
            (
                NPC { action_num: 18, action_counter: 0, ..n },
                StateView { quake_counter: 10, quake_rumble_counter: 10, ..with_sound(st, 26) },
            )
        } else {
            (n, st)
        };
        let c = tick_counter(NPC { anim_num: 3, ..a });
        let d = NPC { vel_x: trunc_div(7 * c.vel_x, 8) as i32, vel_y: (c.vel_y + 0x80) as i32, ..c };
        (if d.action_counter > 10 { NPC { action_num: 10, ..d } } else { d }, s)
    } else if k == 20 || k == 21 {
        let a = if k == 20 { NPC { action_num: 21, action_counter: 0, ..n } } else { n };
        let c = tick_counter(NPC { anim_num: 6, ..a });
        let (d, s) = if c.action_counter > 20 && c.action_counter % 3 == 1 {
            let (r1, m1) = roll(c, 256i32, 512i32);
            let (r2, m2) = roll(m1, -512i32, 512i32);
            let shot = NPC {
                x: (c.x + if c.direction == Direction::Left { -0x1000int } else { 0x1000int }) as i32,
                y: (c.y - 0x800) as i32,
                vel_x: (4 * r1 * spec_vector_x(c.direction)) as i32,
                vel_y: r2,
                direction: c.direction,
                ..set_alive_spec(table_npc(269, st.npc_table), true)
            };
            (m2, with_sound(with_spawn(st, 0x100, shot), 39))
        } else {
            (c, st)
        };
        (if d.action_counter > 90 { NPC { action_num: 10, ..d } } else { d }, s)
    } else if k == 30 || k == 31 {
        let a = if k == 30 {
            NPC { action_num: 31, action_counter: 0, ..shootable(with_npc_flag(n, NPC_SOLID_SOFT, true), false) }
        } else {
            n
        };
        let c = tick_counter(NPC { anim_num: 3, ..a });
        if c.action_counter > 20 {
            (
                NPC {
                    action_num: 32,
                    action_counter: 0,
                    anim_num: 7,
                    damage: 10,
                    vel_x: (spec_vector_x(c.direction) * 0x5ff) as i32,
                    ..with_npc_flag(c, NPC_REAR_AND_TOP_NOT_HURT, true)
                },
                with_sound(st, 25),
            )
        } else {
            (c, st)
        }
    } else if k == 32 {
        let c = tick_counter(NPC { vel_y: 0, ..n });
        let d = NPC { anim_num: if c.action_counter & 2 != 0 { 7 } else { 8 }, ..c };
        let e = if d.action_counter > 30 { charge_over(d, 18) } else { d };
        (if e.flags.0 & FLAG_HIT_LEFT_WALL != 0 || e.flags.0 & FLAG_HIT_RIGHT_WALL != 0 { charge_over(e, 15) } else { e }, st)
    } else if k == 40 {
        let c = face_towards(tick_counter(NPC { anim_num: 3, ..n }), p);
        (if c.action_counter > 20 {
            NPC {
                action_num: 41,
                action_counter: 0,
                anim_num: 4,
                vel_y: -0x800i32,
                vel_x: (spec_vector_x(c.direction) * 0x400) as i32,
                ..c
            }
        } else {
            c
        }, st)
    } else {
        let a = spec_animate(NPC { vel_y: (n.vel_y + 0x40) as i32, ..n }, 1, 4, 5);
        let b = if p.y > a.y && p.x > a.x - 0x1000 && p.x < a.x + 0x1000 {
            NPC { action_num: 16, vel_y: 0x5ffi32, vel_x: 0, ..a }
        } else {
            a
        };
        (if b.vel_y > 0 && b.flags.0 & FLAG_HIT_BOTTOM_WALL != 0 { NPC { action_num: 17, ..b } } else { b }, st)
    }
}

/// States 100 to 103: vanishing, reappearing 32 pixels above the player
/// (kept inside the arena), and dropping onto them.
pub open spec fn doctor_teleport(n: NPC, st: StateView, players: [Player; 2], p: Player) -> (NPC, StateView) {
    let k = n.action_num;
    if k == 100 || k == 101 {
        let (a, s) = if k == 100 {
            (
                NPC { action_num: 101, action_counter: 0, damage: 0, ..guarded(shootable(n, false), false) },
                with_sound(st, 29),
            )
        } else {
            (n, st)
        };
        let c = NPC { action_counter: (a.action_counter + 2) as u16, ..a };
        (if c.action_counter > 28 {
            NPC {
                action_num: 102,
                action_counter: 0,
                anim_num: 0,
                target_x: clamp(p.x as int, 0x8000, 0x48000) as i32,
                target_y: if p.y - 0x4000 < 0x8000 { 0x8000i32 } else { (p.y - 0x4000) as i32 },
                ..c
            }
        } else {
            c
        }, s)
    } else if k == 102 {
        let c = tick_counter(n);
        (if c.action_counter > 40 {
            let m = NPC { action_num: 103, action_counter: 28, anim_num: 4, vel_y: 0, x: c.target_x, y: c.target_y, ..c };
            face_towards(m, players[closest_player(m.x, m.y, players) as int])
        } else {
            c
        }, st)
    } else {
        (if n.action_counter > 0 {
            NPC { action_counter: (n.action_counter - 2) as u16, ..n }
        } else {
            NPC { action_num: 16, vel_x: 0, vel_y: -0x200i32, damage: 5, ..guarded(shootable(n, true), true) }
        }, st)
    }
}

/// States 500 to 520: defeated, he falls and shakes; then sinks away
/// (510); at 520 the shared position is moved off the map.
pub open spec fn doctor_end(n: NPC, st: StateView, p: Player) -> (NPC, StateView) {
    let k = n.action_num;
    if k == 500 {
        let a = NPC { anim_num: 4, vel_y: (n.vel_y + 0x20) as i32, vel_x: 0, ..shootable(n, false) };
        (if a.flags.0 & FLAG_HIT_BOTTOM_WALL != 0 {
            face_towards(NPC { action_num: 501, action_counter: 0, target_x: a.x, ..a }, p)
        } else {
            a
        }, with_type_kill(st, 269, true))
    } else if k == 501 {
        let c = tick_counter(NPC { anim_num: 9, ..n });
        (NPC {
            x: if (c.action_counter / 2) % 2 != 0 {
                c.target_x
            } else {
                vstd::wrapping::i32_specs::wrapping_add(c.x, 0x200)
            },
            ..c
        }, st)
    } else if k == 510 || k == 511 {
        let a = if k == 510 {
            NPC {
                action_num: 511,
                action_counter: 0,
                anim_num: 9,
                target_x: n.x,
                y: (n.y + 0x2000) as i32,
                ..ignoring_solidity(n, true)
            }
        } else {
            n
        };
        let c = tick_counter(a);
        let s = StateView { quake_counter: 2, quake_rumble_counter: 2, ..st };
        let s2 = if c.action_counter % 6 == 3 { with_sound(s, 25) } else { s };
        let d = NPC { x: (if c.action_counter & 2 != 0 { c.target_x as int } else { c.target_x + 512 }) as i32, ..c };
        (if d.action_counter > 352 { NPC { action_num: 512, anim_num: 0, ..d } } else { d }, s2)
    } else {
        (NPC { damage: 0, ..n }, StateView { npc_super_pos: (st.npc_super_pos.0, -0x4000i32), ..st })
    }
}

pub open spec fn doctor_acts(k: u16) -> bool {
    k <= 2 || (5 <= k <= 8) || k == 10 || k == 11 || k == 15 || k == 16 || k == 17 || k == 18 || k == 20
        || k == 21 || k == 30 || k == 31 || k == 32 || k == 40 || k == 41 || (100 <= k <= 103) || k == 500
        || k == 501 || k == 510 || k == 511 || k == 520
}

/// The action step, against the targeted player `p` (index `i`).
#[verifier::opaque]
pub open spec fn doctor_action(
    n: NPC,
    st: StateView,
    players: [Player; 2],
    p: Player,
    i: usize,
) -> (NPC, StateView, Player) {
    let k = n.action_num;
    if !doctor_acts(k) {
        (n, st, p)
    } else if k <= 8 {
        (doctor_intro(n, st, p), st, p)
    } else if k <= 11 {
        doctor_stand(n, st, p, i)
    } else if k <= 41 {
        let (a, s) = doctor_moves(n, st, p);
        (a, s, p)
    } else if k <= 103 {
        let (a, s) = doctor_teleport(n, st, players, p);
        (a, s, p)
    } else {
        let (a, s) = doctor_end(n, st, p);
        (a, s, p)
    }
}

/// What the sprite shows of him: sinking into the floor (511) or
/// flickering between places (101, 103).
pub open spec fn doctor_bounds(n: NPC) -> Rect {
    if n.action_num == 511 {
        let h = n.action_counter / 8;
        Rect { top: if h >= 44 { 0u32 } else { ((44 - h) * 0x200) as u32 }, bottom: 0x800, ..n.display_bounds }
    } else if n.action_num == 101 || n.action_num == 103 {
        Rect {
            top: if n.action_counter >= 28 { 0u32 } else { ((28 - n.action_counter) * 0x200) as u32 },
            ..n.display_bounds
        }
    } else {
        Rect { top: 0x3800, ..n.display_bounds }
    }
}

/// The sparks of a tick: four while he sinks, else one a third of the
/// time while he is visible.
pub open spec fn doctor_sparks(m: NPC, st: StateView) -> (NPC, StateView) {
    if m.action_num < 512 {
        if m.action_num >= 510 {
            sink_sparks(m, st, 4)
        } else if m.action_num != 102 && m.action_num != 103 {
            let (r, m2) = roll(m, 0i32, 3i32);
            if r == 2 { shed_spark(m2, st) } else { (m2, st) }
        } else {
            (m, st)
        }
    } else {
        (m, st)
    }
}

/// One tick of the muscle Doctor against the targeted player: the action
/// step; during the fight the shared position follows him (his target
/// while he is away); falling capped at 3 pixels a tick; movement; sparks,
/// four a tick while he sinks, else now and then while he is visible; the
/// frame (right-facing frames start 10 in) and the drawn bounds.
pub open spec fn muscle_doctor_step(n: NPC, st: StateView, players: [Player; 2]) -> (NPC, StateView, Player) {
    let i = closest_player(n.x, n.y, players);
    let (a, s, q) = doctor_action(n, st, players, players[i as int], i);
    let s1 = if 10 < a.action_num <= 500 {
        StateView {
            npc_super_pos: if a.action_num == 102 { (a.target_x, a.target_y) } else { (a.x, a.y) },
            ..s
        }
    } else {
        s
    };
    let b = capped_fall(a);
    let m = NPC { x: (b.x + b.vel_x) as i32, y: (b.y + b.vel_y) as i32, ..b };
    let (c, s2) = doctor_sparks(m, s1);
    (NPC { anim_rect: dir_frame(c, 10), display_bounds: doctor_bounds(c), ..c }, s2, q)
}

/// Inputs a muscle Doctor tick computes in range on; `super_pos` is the
/// shared position he takes form at.
pub open spec fn muscle_doctor_tickable(n: NPC, players: [Player; 2], super_pos: (i32, i32)) -> bool {
    let k = n.action_num;
    &&& npc_coord_ok(n.x)
    &&& npc_coord_ok(n.y)
    &&& npc_coord_ok(n.vel_x)
    &&& npc_coord_ok(n.vel_y)
    &&& npc_coord_ok(players[0].x)
    &&& npc_coord_ok(players[0].y)
    &&& npc_coord_ok(players[1].x)
    &&& npc_coord_ok(players[1].y)
    &&& k == 0 ==> (npc_coord_ok(super_pos.0) && npc_coord_ok(super_pos.1))
    &&& k == 102 ==> (npc_coord_ok(n.target_x) && npc_coord_ok(n.target_y))
    &&& (k == 501 || k == 511) ==> npc_coord_ok(n.target_x)
    &&& (k <= 2 || k == 8 || k == 11 || k == 15 || k == 18 || k == 21 || k == 31 || k == 32 || k == 40 || k
        == 102 || k == 501 || k == 511) ==> n.action_counter < u16::MAX
    &&& k == 101 ==> n.action_counter < u16::MAX - 1
    &&& k == 103 ==> n.action_counter != 1
    &&& (k == 6 || k == 11 || k == 16 || k == 41) ==> n.anim_counter < u16::MAX
    &&& (k == 10 || k == 11) ==> (n.action_counter2 < u16::MAX && n.life <= u16::MAX - 20)
    &&& n.anim_num <= u16::MAX - 10
}

/// The first `k` shots of the Doctor's ring: red bubbles (type 266) sent off
/// every sixteenth of a turn from angle 8.
pub open spec fn ring_shots(st: StateView, shot: NPC, k: nat) -> StateView
    decreases k,
{
    if k == 0 {
        st
    } else {
        let s = ring_shots(st, shot, (k - 1) as nat);
        with_angle_aim(with_spawn(s, 0x100, shot), (8 + 16 * (k - 1)) as u8, 1024)
    }
}

/// One action step of the Doctor's first form against the targeted player
/// `p`: waiting (0 to 2); falling and standing (10, 20), throwing two waves
/// of red crystals (type 264) at tick 80; a ring of red bubbles (30 to
/// 32); teleporting somewhere over the room (100 to 103); defeated (500 on).
pub open spec fn doctor_boss_action(n: NPC, st: StateView, players: [Player; 2], p: Player) -> (NPC, StateView) {
    if n.action_num <= 32 {
        doctor_boss_fight(n, st, p)
    } else {
        doctor_boss_away(n, st, players, p)
    }
}

/// States 0 to 32 of the Doctor's first form.
pub open spec fn doctor_boss_fight(n: NPC, st: StateView, p: Player) -> (NPC, StateView) {
    let k = n.action_num;
    if k == 0 {
        (NPC { action_num: 1, anim_num: 3, y: (n.y + 0x1000) as i32, ..n }, st)
    } else if k == 2 {
        let c = tick_counter(n);
        let d = NPC { anim_num: if c.action_counter & 2 != 0 { 0 } else { 3 }, ..c };
        (if d.action_counter > 50 { NPC { action_num: 10, ..d } } else { d }, st)
    } else if k == 10 {
        let a = NPC { vel_y: (n.vel_y + 0x80) as i32, damage: 3, ..shootable(n, true) };
        (if a.flags.0 & FLAG_HIT_BOTTOM_WALL != 0 {
            face_towards(NPC { action_num: 20, action_counter: 0, anim_num: 0, action_counter3: a.life, ..a }, p)
        } else {
            a
        }, st)
    } else if k == 20 {
        let c = tick_counter(n);
        let c1 = if c.action_counter < 50 && 20 + c.life < c.action_counter3 { NPC { action_counter: 50, ..c } } else { c };
        let d = if c1.action_counter == 50 { NPC { anim_num: 4, ..face_towards(c1, p) } } else { c1 };
        let (e, s) = if d.action_counter == 80 {
            let left = d.direction == Direction::Left;
            let crystal = NPC {
                y: d.y,
                x: (if left { d.x - 0x2000 } else { d.x + 0x2000 }) as i32,
                ..set_alive_spec(table_npc(264, st.npc_table), true)
            };
            let s1 = with_spawn(with_sound(st, 25), 0x100, NPC { tsc_direction: if left { 0 } else { 2 }, ..crystal });
            (NPC { anim_num: 5, ..d }, with_spawn(s1, 0x100, NPC { tsc_direction: if left { 0x400 } else { 0x402 }, ..crystal }))
        } else {
            (d, st)
        };
        let f = if e.action_counter == 120 { NPC { anim_num: 0, ..e } } else { e };
        let g = if f.action_counter > 130 && 50 + f.life < f.action_counter3 { NPC { action_counter: 161, ..f } } else { f };
        (if g.action_counter > 160 { NPC { action_num: 100, anim_num: 0, ..g } } else { g }, s)
    } else if k == 30 || k == 31 {
        let a = if k == 30 {
            NPC { action_num: 31, action_counter: 0, anim_num: 6, target_x: n.x, ..shootable(n, true) }
        } else {
            n
        };
        let c = tick_counter(a);
        let d = NPC { x: (if c.action_counter & 2 != 0 { c.target_x as int } else { c.target_x + 0x200 }) as i32, ..c };
        if d.action_counter > 50 {
            let shot = NPC { x: d.x, y: d.y, ..set_alive_spec(table_npc(266, st.npc_table), true) };
            (NPC { action_num: 32, action_counter: 0, anim_num: 7, ..d }, ring_shots(with_sound(st, 101), shot, 16))
        } else {
            (d, st)
        }
    } else if k == 32 {
        let c = tick_counter(n);
        (if c.action_counter > 50 { NPC { action_num: 100, anim_num: 0, ..c } } else { c }, st)
    } else {
        (n, st)
    }
}

/// States 100 on of the Doctor's first form.
pub open spec fn doctor_boss_away(n: NPC, st: StateView, players: [Player; 2], p: Player) -> (NPC, StateView) {
    let k = n.action_num;
    if k == 100 || k == 101 {
        let (a, s) = if k == 100 {
            (NPC { action_num: 101, damage: 0, action_counter: 0, ..shootable(n, false) }, with_sound(st, 29))
        } else {
            (n, st)
        };
        let c = NPC { action_counter: (a.action_counter + 2) as u16, ..a };
        if c.action_counter > 16 {
            let (rx, m1) = roll(c, 5i32, 35i32);
            let (ry, m2) = roll(m1, 5i32, 7i32);
            (NPC {
                action_num: 102,
                action_counter: 0,
                anim_num: 3,
                target_x: (rx * 0x2000) as i32,
                target_y: (ry * 0x2000) as i32,
                ..m2
            }, s)
        } else {
            (c, s)
        }
    } else if k == 102 {
        let c = tick_counter(n);
        (if c.action_counter > 40 {
            let m = NPC { action_num: 103, action_counter: 16, anim_num: 2, vel_y: 0, x: c.target_x, y: c.target_y, ..c };
            face_towards(m, players[closest_player(m.x, m.y, players) as int])
        } else {
            c
        }, st)
    } else if k == 103 {
        let t: u16 = if n.action_counter >= 2 { (n.action_counter - 2) as u16 } else { 0 };
        let a = NPC { action_counter: t, ..n };
        (if t == 0 {
            let b = NPC { damage: 3, ..shootable(a, true) };
            if b.action_counter2 < 4 {
                NPC { action_num: 10, action_counter2: (b.action_counter2 + 1) as u16, ..b }
            } else {
                NPC { action_num: 30, action_counter2: 0, ..b }
            }
        } else {
            a
        }, st)
    } else if k == 500 {
        let a = NPC { anim_num: 6, vel_y: (n.vel_y + 0x10) as i32, ..shootable(n, false) };
        (if a.flags.0 & FLAG_HIT_BOTTOM_WALL != 0 {
            face_towards(NPC { action_num: 501, action_counter: 0, target_x: a.x, ..a }, p)
        } else {
            a
        }, st)
    } else if k == 501 {
        let c = tick_counter(NPC { anim_num: 8, ..face_towards(n, p) });
        (NPC { x: (if c.action_counter & 2 != 0 { c.target_x as int } else { c.target_x + 0x200 }) as i32, ..c }, st)
    } else {
        (n, st)
    }
}

/// One tick of the Doctor's first form: the action step; the shared
/// position follows him (his target while he is away); falling capped at
/// 3 pixels a tick; movement; the frame (right-facing frames start 9 in)
/// and the drawn bounds, which shrink while he flickers away or back.
pub open spec fn doctor_boss_step(n: NPC, st: StateView, players: [Player; 2]) -> (NPC, StateView) {
    let p = players[closest_player(n.x, n.y, players) as int];
    let (a, s) = doctor_boss_action(n, st, players, p);
    let s1 = if a.action_num == 102 {
        StateView { npc_super_pos: (a.target_x, a.target_y), ..s }
    } else if a.action_num >= 10 {
        StateView { npc_super_pos: (a.x, a.y), ..s }
    } else {
        s
    };
    let b = capped_fall(a);
    let m = NPC { x: (b.x + b.vel_x) as i32, y: (b.y + b.vel_y) as i32, ..b };
    let top: u32 = if m.action_num == 101 || m.action_num == 103 { ((16 - m.action_counter) * 0x200) as u32 } else { 0x2000 };
    (NPC { anim_rect: dir_frame(m, 9), display_bounds: Rect { top, ..m.display_bounds }, ..m }, s1)
}

/// Inputs a tick of the Doctor's first form computes in range on.
pub open spec fn doctor_boss_tickable(n: NPC, players: [Player; 2]) -> bool {
    let k = n.action_num;
    &&& npc_coord_ok(n.x)
    &&& npc_coord_ok(n.y)
    &&& npc_coord_ok(n.vel_x)
    &&& npc_coord_ok(n.vel_y)
    &&& npc_coord_ok(players[0].x)
    &&& npc_coord_ok(players[0].y)
    &&& npc_coord_ok(players[1].x)
    &&& npc_coord_ok(players[1].y)
    &&& (k == 31 || k == 501) ==> npc_coord_ok(n.target_x)
    &&& k == 102 ==> (npc_coord_ok(n.target_x) && npc_coord_ok(n.target_y))
    &&& (k == 2 || k == 20 || k == 31 || k == 32 || k == 102 || k == 501) ==> n.action_counter < u16::MAX
    &&& k == 101 ==> n.action_counter < u16::MAX - 1
    &&& k == 103 ==> (n.action_counter <= 18 && n.action_counter2 < u16::MAX)
    &&& k == 20 ==> n.life <= u16::MAX - 50
    &&& n.anim_num <= u16::MAX - 9
}

/// The bounds the first form's steps keep.
pub open spec fn doctor_boss_near(n: NPC) -> bool {
    &&& -0x1100_0000 <= n.x <= 0x1100_0000
    &&& -0x1100_0000 <= n.y <= 0x1100_0000
    &&& -0x1100_0000 <= n.vel_x <= 0x1100_0000
    &&& -0x1100_0000 <= n.vel_y <= 0x1100_0000
    &&& n.anim_num <= u16::MAX - 9
    &&& (n.action_num == 101 || n.action_num == 103) ==> n.action_counter <= 16
}

/// Bounds every step keeps the entity within, for the movement after it.
pub open spec fn doctor_near(n: NPC) -> bool {
    &&& -0x1100_0000 <= n.x <= 0x1100_0000
    &&& -0x1100_0000 <= n.y <= 0x1100_0000
    &&& -0x1100_0000 <= n.vel_x <= 0x1100_0000
    &&& -0x1100_0000 <= n.vel_y <= 0x1100_0000
    &&& n.anim_num <= u16::MAX - 10
}

impl NPC {
    fn burst_spark_exec(&mut self, state: &mut SharedGameState)
        requires
            npc_coord_ok(old(self).x),
            npc_coord_ok(old(self).y),
        ensures
            (*final(self), final(state)@) == burst_spark(*old(self), old(state)@),
            *final(self) == (NPC { rng: final(self).rng, ..*old(self) }),
            final(state)@.npc_table == old(state)@.npc_table,
    {
        let mut npc = state.create_npc(270);
        npc.cond.set_alive(true);
        npc.direction = Direction::Bottom;
        npc.x = self.x + self.rng.range(-16..16) * 0x200;
        npc.y = self.y + self.rng.range(-16..16) * 0x200;
        npc.vel_x = 3 * self.rng.range(-512..512);
        npc.vel_y = 3 * self.rng.range(-512..512);
        state.spawn_npc(0xaa, npc);
    }

    fn burst_exec(&mut self, state: &mut SharedGameState)
        requires
            npc_coord_ok(old(self).x),
            npc_coord_ok(old(self).y),
        ensures
            (*final(self), final(state)@) == burst(*old(self), old(state)@, 100),
            *final(self) == (NPC { rng: final(self).rng, ..*old(self) }),
    {
        let ghost n0 = *self;
        let ghost s0 = state@;
        let mut i: usize = 0;
        while i < 100
            invariant
                i <= 100,
                *self == (NPC { rng: self.rng, ..n0 }),
                npc_coord_ok(n0.x),
                npc_coord_ok(n0.y),
                state@.npc_table == s0.npc_table,
                (*self, state@) == burst(n0, s0, i as nat),
            decreases 100 - i,
        {
            self.burst_spark_exec(state);
            i += 1;
        }
    }

    fn sink_sparks_exec(&mut self, state: &mut SharedGameState)
        requires
            -0x2400_0000 <= old(self).x <= 0x2400_0000,
            -0x2400_0000 <= old(self).y <= 0x2400_0000,
        ensures
            (*final(self), final(state)@) == sink_sparks(*old(self), old(state)@, 4),
            *final(self) == (NPC { rng: final(self).rng, ..*old(self) }),
    {
        let ghost n0 = *self;
        let ghost s0 = state@;
        let mut npc = state.create_npc(270);
        npc.cond.set_alive(true);
        let mut i: usize = 0;
        while i < 4
            invariant
                i <= 4,
                *self == (NPC { rng: self.rng, ..n0 }),
                -0x2400_0000 <= n0.x <= 0x2400_0000,
                -0x2400_0000 <= n0.y <= 0x2400_0000,
                state@.npc_table == s0.npc_table,
                npc == (NPC {
                    direction: npc.direction,
                    x: npc.x,
                    y: npc.y,
                    vel_x: npc.vel_x,
                    vel_y: npc.vel_y,
                    ..set_alive_spec(table_npc(270, s0.npc_table), true)
                }),
                (*self, state@) == sink_sparks(n0, s0, i as nat),
            decreases 4 - i,
        {
            npc.x = self.x + self.rng.range(-0x10..0x10) * 0x200;
            let drop = scale_i32(0x150 - self.action_counter as i32, 1, 8);
            npc.y = self.y - drop * 0x200;
            npc.vel_y = 2 * self.rng.range(-0x200..0);
            npc.vel_x = if i >= 2 {
                0
            } else {
                self.rng.range(-0x200..0x200)
            };
            npc.direction = Direction::Bottom;
            state.spawn_npc(0xaa, npc);
            i += 1;
        }
    }

    fn shed_spark_exec(&mut self, state: &mut SharedGameState)
        requires
            -0x2400_0000 <= old(self).x <= 0x2400_0000,
            -0x2400_0000 <= old(self).y <= 0x2400_0000,
        ensures
            (*final(self), final(state)@) == shed_spark(*old(self), old(state)@),
            *final(self) == (NPC { rng: final(self).rng, ..*old(self) }),
    {
        let mut npc = state.create_npc(270);
        npc.cond.set_alive(true);
        npc.x = self.x + self.rng.range(-0x10..0x10) * 0x200;
        npc.y = self.y + self.rng.range(-8..4) * 0x200;
        npc.vel_x = self.vel_x;
        npc.vel_y = 0;
        npc.direction = Direction::Bottom;
        state.spawn_npc(0x100, npc);
    }

    fn doctor_intro_exec(&mut self, state: &SharedGameState, p: &Player)
        requires
            muscle_doctor_tickable(*old(self), [*p, *p], state@.npc_super_pos),
            old(self).action_num <= 2 || 5 <= old(self).action_num <= 8,
        ensures
            *final(self) == doctor_intro(*old(self), state@, *p),
            doctor_near(*final(self)),
            final(self).action_num != 102,
    {
        match self.action_num {
            0 | 1 | 2 => {
                if self.action_num == 0 {
                    self.direction = if state.npc_super_pos.0 > p.x {
                        Direction::Left
                    } else {
                        Direction::Right
                    };
                    self.x = state.npc_super_pos.0 + self.direction.vector_x() * 0xc00;
                    self.y = state.npc_super_pos.1;
                }
                if self.action_num == 1 {
                    self.action_num = 2;
                }
                self.vel_y += 0x80;
                self.action_counter += 1;
                self.anim_num = if self.action_counter & 2 != 0 {
                    0
                } else {
                    3
                };
            },
            5 | 6 => {
                if self.action_num == 5 {
                    self.action_num = 6;
                    self.anim_num = 1;
                    self.anim_counter = 0;
                }
                self.vel_y += 0x80;
                self.animate(40, 1, 2);
            },
            _ => {
                if self.action_num == 7 {
                    self.action_num = 8;
                    self.action_counter = 0;
                    self.anim_num = 3;
                }
                self.vel_y += 0x40;
                self.action_counter += 1;
                if self.action_counter > 40 {
                    self.action_num = 10;
                }
            },
        }
    }

    fn doctor_next_attack_exec(&mut self)
        requires
            old(self).action_counter2 < u16::MAX,
        ensures
            *final(self) == doctor_next_attack(*old(self)),
    {
        self.action_counter2 += 1;
        if self.action_counter2 > 10 {
            self.action_counter2 = 0;
        }
        match self.action_counter2 {
            1 | 9 => {
                self.action_num = 40;
            },
            2 | 7 => {
                self.action_num = 100;
            },
            3 | 6 => {
                self.action_num = 30;
            },
            8 => {
                self.action_num = 20;
            },
            _ => {
                self.action_num = 15;
                self.action_counter = 0;
            },
        }
    }

    fn doctor_stand_exec(&mut self, state: &mut SharedGameState, p: &mut Player, i: usize)
        requires
            muscle_doctor_tickable(*old(self), [*old(p), *old(p)], old(state)@.npc_super_pos),
            old(self).action_num == 10 || old(self).action_num == 11,
        ensures
            (*final(self), final(state)@, *final(p)) == doctor_stand(*old(self), old(state)@, *old(p), i),
            doctor_near(*final(self)),
            final(self).action_num != 102,
    {
        if self.action_num == 10 {
            self.npc_flags.set_invulnerable(true);
            self.vel_x = 0;
            self.action_num = 11;
            self.action_counter = 0;
            self.anim_num = 1;
            self.anim_counter = 0;
            self.action_counter3 = self.life;
        }
        self.vel_y += 0x80;
        self.face_player(p);
        if self.flags.hit_bottom_wall() {
            if self.life + 20 > self.action_counter3 {
                self.animate(10, 1, 2);
            } else if p.flags.hit_bottom_wall() && p.x > self.x - 0x6000 && p.x < self.x + 0x6000 {
                self.anim_num = 6;
                state.quake_counter = 10;
                state.quake_rumble_counter = 10;
                state.play_sfx(26);
                state.damage_player(i, 5);
                p.vel_y = -0x400;
                p.vel_x = if self.x > p.x {
                    -0x5ff
                } else {
                    0x5ff
                };
                self.burst_exec(state);
            }
        } else {
            self.anim_num = 4;
        }
        self.action_counter += 1;
        if self.action_counter > 30 || self.life + 20 < self.action_counter3 {
            self.doctor_next_attack_exec();
        }
    }

    fn charge_over_exec(&mut self, next: u16)
        ensures
            *final(self) == charge_over(*old(self), next),
    {
        self.action_num = next;
        self.action_counter = 0;
        self.damage = 5;
        self.npc_flags.set_rear_and_top_not_hurt(false);
        self.npc_flags.set_solid_soft(false);
        self.npc_flags.set_shootable(true);
    }

    fn doctor_moves_exec(&mut self, state: &mut SharedGameState, p: &Player)
        requires
            muscle_doctor_tickable(*old(self), [*p, *p], old(state)@.npc_super_pos),
            15 <= old(self).action_num <= 41,
            doctor_acts(old(self).action_num),
        ensures
            (*final(self), final(state)@) == doctor_moves(*old(self), old(state)@, *p),
            doctor_near(*final(self)),
            final(self).action_num != 102,
    {
        match self.action_num {
            15 => {
                self.anim_num = 3;
                self.action_counter += 1;
                self.face_player(p);
                if self.action_counter > 20 {
                    self.action_num = 16;
                    self.anim_num = 4;
                    self.anim_counter = 0;
                    self.vel_x = self.direction.vector_x() * 0x400;
                    self.vel_y = -0x600;
                }
            },
            16 => {
                self.vel_y += 0x40;
                self.animate(1, 4, 5);
                self.face_player(p);
                if self.vel_y > 0 && self.flags.hit_bottom_wall() {
                    self.action_num = 17;
                }
            },
            17 | 18 => {
                if self.action_num == 17 {
                    self.action_num = 18;
                    self.action_counter = 0;
                    state.quake_counter = 10;
                    state.quake_rumble_counter = 10;
                    state.play_sfx(26);
                }
                self.anim_num = 3;
                self.action_counter += 1;
                self.vel_x = scale_i32(self.vel_x, 7, 8);
                self.vel_y += 0x80;
                if self.action_counter > 10 {
                    self.action_num = 10;
                }
            },
            20 | 21 => {
                if self.action_num == 20 {
                    self.action_num = 21;
                    self.action_counter = 0;
                }
                self.anim_num = 6;
                self.action_counter += 1;
                if self.action_counter > 20 && self.action_counter % 3 == 1 {
                    let mut npc = state.create_npc(269);
                    npc.cond.set_alive(true);
                    npc.x = self.x + if self.direction == Direction::Left {
                        -0x1000
                    } else {
                        0x1000
                    };
                    npc.y = self.y - 0x800;
                    let r = self.rng.range(256..512);
                    let vx = self.direction.vector_x();
                    assert(-2048 <= 4 * r * vx <= 2048) by (nonlinear_arith)
                        requires
                            256 <= r <= 512,
                            -1 <= vx <= 1,
                    ;
                    npc.vel_x = 4 * r * vx;
                    npc.vel_y = self.rng.range(-512..512);
                    npc.direction = self.direction;
                    state.spawn_npc(0x100, npc);
                    state.play_sfx(39);
                }
                if self.action_counter > 90 {
                    self.action_num = 10;
                }
            },
            30 | 31 => {
                if self.action_num == 30 {
                    self.action_num = 31;
                    self.action_counter = 0;
                    self.npc_flags.set_solid_soft(true);
                    self.npc_flags.set_shootable(false);
                }
                self.anim_num = 3;
                self.action_counter += 1;
                if self.action_counter > 20 {
                    self.action_num = 32;
                    self.action_counter = 0;
                    self.anim_num = 7;
                    self.npc_flags.set_rear_and_top_not_hurt(true);
                    self.damage = 10;
                    self.vel_x = self.direction.vector_x() * 0x5ff;
                    state.play_sfx(25);
                }
            },
            32 => {
                self.action_counter += 1;
                self.vel_y = 0;
                self.anim_num = if self.action_counter & 2 != 0 {
                    7
                } else {
                    8
                };
                if self.action_counter > 30 {
                    self.charge_over_exec(18);
                }
                if self.flags.hit_left_wall() || self.flags.hit_right_wall() {
                    self.charge_over_exec(15);
                }
            },
            40 => {
                self.anim_num = 3;
                self.action_counter += 1;
                self.face_player(p);
                if self.action_counter > 20 {
                    self.action_num = 41;
                    self.action_counter = 0;
                    self.anim_num = 4;
                    self.vel_y = -0x800;
                    self.vel_x = self.direction.vector_x() * 0x400;
                }
            },
            _ => {
                self.vel_y += 0x40;
                self.animate(1, 4, 5);
                if p.y > self.y && p.x > self.x - 0x1000 && p.x < self.x + 0x1000 {
                    self.action_num = 16;
                    self.vel_y = 0x5ff;
                    self.vel_x = 0;
                }
                if self.vel_y > 0 && self.flags.hit_bottom_wall() {
                    self.action_num = 17;
                }
            },
        }
    }

    fn doctor_teleport_exec(&mut self, state: &mut SharedGameState, players: &[Player; 2], p: &Player)
        requires
            muscle_doctor_tickable(*old(self), *players, old(state)@.npc_super_pos),
            npc_coord_ok(p.x),
            npc_coord_ok(p.y),
            100 <= old(self).action_num <= 103,
        ensures
            (*final(self), final(state)@) == doctor_teleport(*old(self), old(state)@, *players, *p),
            doctor_near(*final(self)),
            final(self).action_num == 102 ==> npc_coord_ok(final(self).target_x) && npc_coord_ok(final(self).target_y),
    {
        match self.action_num {
            100 | 101 => {
                if self.action_num == 100 {
                    self.action_num = 101;
                    self.action_counter = 0;
                    self.npc_flags.set_shootable(false);
                    self.npc_flags.set_invulnerable(false);
                    self.damage = 0;
                    state.play_sfx(29);
                }
                self.action_counter += 2;
                if self.action_counter > 28 {
                    self.action_num = 102;
                    self.action_counter = 0;
                    self.anim_num = 0;
                    self.target_x = if p.x < 0x8000 {
                        0x8000
                    } else if p.x > 0x48000 {
                        0x48000
                    } else {
                        p.x
                    };
                    self.target_y = p.y - 0x4000;
                    if self.target_y < 0x8000 {
                        self.target_y = 0x8000;
                    }
                }
            },
            102 => {
                self.action_counter += 1;
                if self.action_counter > 40 {
                    self.action_num = 103;
                    self.action_counter = 28;
                    self.anim_num = 4;
                    self.vel_y = 0;
                    self.x = self.target_x;
                    self.y = self.target_y;
                    let idx = self.get_closest_player_idx(players);
                    self.face_player(&players[idx]);
                }
            },
            _ => {
                if self.action_counter > 0 {
                    self.action_counter -= 2;
                } else {
                    self.action_num = 16;
                    self.vel_x = 0;
                    self.vel_y = -0x200;
                    self.npc_flags.set_shootable(true);
                    self.npc_flags.set_invulnerable(true);
                    self.damage = 5;
                }
            },
        }
    }

    fn doctor_end_exec(&mut self, state: &mut SharedGameState, p: &Player)
        requires
            muscle_doctor_tickable(*old(self), [*p, *p], old(state)@.npc_super_pos),
            old(self).action_num == 500 || old(self).action_num == 501 || old(self).action_num == 510
                || old(self).action_num == 511 || old(self).action_num == 520,
        ensures
            (*final(self), final(state)@) == doctor_end(*old(self), old(state)@, *p),
            doctor_near(*final(self)),
            final(self).action_num != 102,
    {
        match self.action_num {
            500 => {
                state.kill_npcs_by_type(269, true);
                self.npc_flags.set_shootable(false);
                self.anim_num = 4;
                self.vel_y += 0x20;
                self.vel_x = 0;
                if self.flags.hit_bottom_wall() {
                    self.action_num = 501;
                    self.action_counter = 0;
                    self.target_x = self.x;
                    self.face_player(p);
                }
            },
            501 => {
                self.anim_num = 9;
                self.action_counter += 1;
                if self.action_counter / 2 % 2 != 0 {
                    self.x = self.target_x;
                } else {
                    self.x = self.x.wrapping_add(0x200);
                }
            },
            510 | 511 => {
                if self.action_num == 510 {
                    self.action_num = 511;
                    self.action_counter = 0;
                    self.anim_num = 9;
                    self.target_x = self.x;
                    self.y += 0x2000;
                    self.npc_flags.set_ignore_solidity(true);
                }
                state.quake_counter = 2;
                state.quake_rumble_counter = 2;
                self.action_counter += 1;
                if self.action_counter % 6 == 3 {
                    state.play_sfx(25);
                }
                self.x = if self.action_counter & 2 != 0 {
                    self.target_x
                } else {
                    self.target_x + 512
                };
                if self.action_counter > 352 {
                    self.action_num = 512;
                    self.anim_num = 0;
                }
            },
            _ => {
                self.damage = 0;
                state.npc_super_pos.1 = -0x4000;
            },
        }
    }

    fn doctor_action_exec(&mut self, state: &mut SharedGameState, all: &[Player; 2], p: &mut Player, i: usize)
        requires
            muscle_doctor_tickable(*old(self), *all, old(state)@.npc_super_pos),
            i < 2,
            *old(p) == all[i as int],
        ensures
            (*final(self), final(state)@, *final(p)) == doctor_action(*old(self), old(state)@, *all, *old(p), i),
            doctor_near(*final(self)),
            final(self).action_num == 102 ==> npc_coord_ok(final(self).target_x) && npc_coord_ok(final(self).target_y),
    {
        proof {
            reveal(doctor_action);
        }
        let k = self.action_num;
        if k <= 2 || (5 <= k && k <= 8) {
            self.doctor_intro_exec(state, p);
        } else if k == 10 || k == 11 {
            self.doctor_stand_exec(state, p, i);
        } else if k == 15 || k == 16 || k == 17 || k == 18 || k == 20 || k == 21 || k == 30 || k == 31 || k
            == 32 || k == 40 || k == 41 {
            self.doctor_moves_exec(state, p);
        } else if 100 <= k && k <= 103 {
            self.doctor_teleport_exec(state, all, p);
        } else if k == 500 || k == 501 || k == 510 || k == 511 || k == 520 {
            self.doctor_end_exec(state, p);
        }
    }

    fn doctor_sparks_exec(&mut self, state: &mut SharedGameState)
        requires
            -0x2400_0000 <= old(self).x <= 0x2400_0000,
            -0x2400_0000 <= old(self).y <= 0x2400_0000,
        ensures
            (*final(self), final(state)@) == doctor_sparks(*old(self), old(state)@),
            *final(self) == (NPC { rng: final(self).rng, ..*old(self) }),
    {
        if self.action_num < 512 {
            if self.action_num >= 510 {
                self.sink_sparks_exec(state);
            } else if self.action_num != 102 && self.action_num != 103 && self.rng.range(0..3) == 2 {
                self.shed_spark_exec(state);
            }
        }
    }

    /// The muscle Doctor; see `muscle_doctor_step`. He acts on the player
    /// he targets only.
    pub fn tick_n267_muscle_doctor(&mut self, state: &mut SharedGameState, players: &mut [Player; 2])
        requires
            muscle_doctor_tickable(*old(self), *old(players), old(state)@.npc_super_pos),
        ensures
            ({
                let i = closest_player(old(self).x, old(self).y, *old(players)) as int;
                let (n, s, p) = muscle_doctor_step(*old(self), old(state)@, *old(players));
                &&& *final(self) == n
                &&& final(state)@ == s
                &&& final(players)[i] == p
                &&& final(players)[1 - i] == old(players)[1 - i]
            }),
    {
        let idx = self.get_closest_player_idx(players);
        let mut p = players[idx];
        let all = *players;
        self.doctor_action_exec(state, &all, &mut p, idx);
        if self.action_num > 10 && self.action_num <= 500 {
            if self.action_num == 102 {
                state.npc_super_pos = (self.target_x, self.target_y);
            } else {
                state.npc_super_pos = (self.x, self.y);
            }
        }
        self.clamp_fall_speed();
        self.x += self.vel_x;
        self.y += self.vel_y;
        self.doctor_sparks_exec(state);
        self.anim_rect = if self.direction == Direction::Left {
            self.anim_num
        } else {
            self.anim_num + 10
        };
        if self.action_num == 511 {
            self.display_bounds.top = (44u32).saturating_sub(self.action_counter as u32 / 8) * 0x200;
            self.display_bounds.bottom = 0x800;
        } else if self.action_num == 101 || self.action_num == 103 {
            self.display_bounds.top = (28u32).saturating_sub(self.action_counter as u32) * 0x200;
        } else {
            self.display_bounds.top = 0x3800;
        }
        if idx == 0 {
            *players = [p, players[1]];
        } else {
            *players = [players[0], p];
        }
    }
}

impl NPC {
    fn doctor_crystals_exec(&self, state: &mut SharedGameState)
        requires
            npc_coord_ok(self.x),
        ensures
            final(state)@ == ({
                let left = self.direction == Direction::Left;
                let crystal = NPC {
                    y: self.y,
                    x: (if left { self.x - 0x2000 } else { self.x + 0x2000 }) as i32,
                    ..set_alive_spec(table_npc(264, old(state)@.npc_table), true)
                };
                let s1 = with_spawn(with_sound(old(state)@, 25), 0x100, NPC { tsc_direction: if left { 0 } else { 2 }, ..crystal });
                with_spawn(s1, 0x100, NPC { tsc_direction: if left { 0x400 } else { 0x402 }, ..crystal })
            }),
    {
        state.play_sfx(25);
        let mut npc = state.create_npc(264);
        npc.cond.set_alive(true);
        npc.y = self.y;
        if self.direction == Direction::Left {
            npc.x = self.x - 0x2000;
            npc.tsc_direction = 0;
            state.spawn_npc(0x100, npc);
            npc.tsc_direction = 0x400;
            state.spawn_npc(0x100, npc);
        } else {
            npc.x = self.x + 0x2000;
            npc.tsc_direction = 2;
            state.spawn_npc(0x100, npc);
            npc.tsc_direction = 0x402;
            state.spawn_npc(0x100, npc);
        }
    }

    fn doctor_ring_exec(&self, state: &mut SharedGameState)
        ensures
            final(state)@ == ring_shots(
                with_sound(old(state)@, 101),
                NPC { x: self.x, y: self.y, ..set_alive_spec(table_npc(266, old(state)@.npc_table), true) },
                16,
            ),
    {
        state.play_sfx(101);
        let ghost s0 = state@;
        let mut npc = state.create_npc(266);
        npc.cond.set_alive(true);
        npc.x = self.x;
        npc.y = self.y;
        let mut j: u8 = 0;
        while j < 16
            invariant
                j <= 16,
                state@ == ring_shots(s0, npc, j as nat),
            decreases 16 - j,
        {
            state.spawn_npc(0x100, npc);
            state.aim_last_spawn_angle(8 + 16 * j, 1024);
            j += 1;
        }
    }

    fn doctor_boss_fight_exec(&mut self, state: &mut SharedGameState, p: &Player)
        requires
            doctor_boss_tickable(*old(self), [*p, *p]),
            old(self).action_num <= 32,
        ensures
            (*final(self), final(state)@) == doctor_boss_fight(*old(self), old(state)@, *p),
            doctor_boss_near(*final(self)),
            final(self).action_num != 102,
    {
        match self.action_num {
            0 => {
                self.action_num = 1;
                self.anim_num = 3;
                self.y += 0x1000;
            },
            2 => {
                self.action_counter += 1;
                self.anim_num = if self.action_counter & 2 != 0 {
                    0
                } else {
                    3
                };
                if self.action_counter > 50 {
                    self.action_num = 10;
                }
            },
            10 => {
                self.vel_y += 0x80;
                self.npc_flags.set_shootable(true);
                self.damage = 3;
                if self.flags.hit_bottom_wall() {
                    self.action_num = 20;
                    self.action_counter = 0;
                    self.anim_num = 0;
                    self.action_counter3 = self.life;
                    self.face_player(p);
                }
            },
            20 => {
                self.action_counter += 1;
                if self.action_counter < 50 && 20 + self.life < self.action_counter3 {
                    self.action_counter = 50;
                }
                if self.action_counter == 50 {
                    self.face_player(p);
                    self.anim_num = 4;
                }
                if self.action_counter == 80 {
                    self.anim_num = 5;
                    self.doctor_crystals_exec(state);
                }
                if self.action_counter == 120 {
                    self.anim_num = 0;
                }
                if self.action_counter > 130 && 50 + self.life < self.action_counter3 {
                    self.action_counter = 161;
                }
                if self.action_counter > 160 {
                    self.action_num = 100;
                    self.anim_num = 0;
                }
            },
            30 | 31 => {
                if self.action_num == 30 {
                    self.action_num = 31;
                    self.action_counter = 0;
                    self.anim_num = 6;
                    self.target_x = self.x;
                    self.npc_flags.set_shootable(true);
                }
                self.action_counter += 1;
                self.x = if self.action_counter & 2 != 0 {
                    self.target_x
                } else {
                    self.target_x + 0x200
                };
                if self.action_counter > 50 {
                    self.action_num = 32;
                    self.action_counter = 0;
                    self.anim_num = 7;
                    self.doctor_ring_exec(state);
                }
            },
            32 => {
                self.action_counter += 1;
                if self.action_counter > 50 {
                    self.action_num = 100;
                    self.anim_num = 0;
                }
            },
            _ => {},
        }
    }

    fn doctor_boss_away_exec(&mut self, state: &mut SharedGameState, players: &[Player; 2], p: &Player)
        requires
            doctor_boss_tickable(*old(self), *players),
            old(self).action_num > 32,
        ensures
            (*final(self), final(state)@) == doctor_boss_away(*old(self), old(state)@, *players, *p),
            doctor_boss_near(*final(self)),
            final(self).action_num == 102 ==> npc_coord_ok(final(self).target_x) && npc_coord_ok(final(self).target_y),
    {
        match self.action_num {
            100 | 101 => {
                if self.action_num == 100 {
                    self.action_num = 101;
                    self.npc_flags.set_shootable(false);
                    self.damage = 0;
                    self.action_counter = 0;
                    state.play_sfx(29);
                }
                self.action_counter += 2;
                if self.action_counter > 16 {
                    self.action_num = 102;
                    self.action_counter = 0;
                    self.anim_num = 3;
                    self.target_x = self.rng.range(5..35) * 0x2000;
                    self.target_y = self.rng.range(5..7) * 0x2000;
                }
            },
            102 => {
                self.action_counter += 1;
                if self.action_counter > 40 {
                    self.action_num = 103;
                    self.action_counter = 16;
                    self.anim_num = 2;
                    self.vel_y = 0;
                    self.x = self.target_x;
                    self.y = self.target_y;
                    let idx = self.get_closest_player_idx(players);
                    self.face_player(&players[idx]);
                }
            },
            103 => {
                self.action_counter = self.action_counter.saturating_sub(2);
                if self.action_counter == 0 {
                    self.npc_flags.set_shootable(true);
                    self.damage = 3;
                    if self.action_counter2 < 4 {
                        self.action_num = 10;
                        self.action_counter2 += 1;
                    } else {
                        self.action_num = 30;
                        self.action_counter2 = 0;
                    }
                }
            },
            500 => {
                self.npc_flags.set_shootable(false);
                self.anim_num = 6;
                self.vel_y += 0x10;
                if self.flags.hit_bottom_wall() {
                    self.action_num = 501;
                    self.action_counter = 0;
                    self.target_x = self.x;
                    self.face_player(p);
                }
            },
            501 => {
                self.face_player(p);
                self.anim_num = 8;
                self.action_counter += 1;
                self.x = if self.action_counter & 2 != 0 {
                    self.target_x
                } else {
                    self.target_x + 0x200
                };
            },
            _ => {},
        }
    }

    /// The Doctor's first form; see `doctor_boss_step`. The ring's shot
    /// velocities are left to the frame loop through `AngleAim` requests.
    pub fn tick_n263_doctor_boss(&mut self, state: &mut SharedGameState, players: &[Player; 2])
        requires
            doctor_boss_tickable(*old(self), *players),
        ensures
            (*final(self), final(state)@) == doctor_boss_step(*old(self), old(state)@, *players),
    {
        let idx = self.get_closest_player_idx(players);
        let p = players[idx];
        if self.action_num <= 32 {
            self.doctor_boss_fight_exec(state, &p);
        } else {
            self.doctor_boss_away_exec(state, players, &p);
        }
        if self.action_num == 102 {
            state.npc_super_pos = (self.target_x, self.target_y);
        } else if self.action_num >= 10 {
            state.npc_super_pos = (self.x, self.y);
        }
        self.clamp_fall_speed();
        self.x += self.vel_x;
        self.y += self.vel_y;
        self.anim_rect = if self.direction == Direction::Left {
            self.anim_num
        } else {
            self.anim_num + 9
        };
        if self.action_num == 101 || self.action_num == 103 {
            self.display_bounds.top = (16 - self.action_counter as u32) * 0x200;
        } else {
            self.display_bounds.top = 0x2000;
        }
    }
}


/// One tick of a two-frame laugh from frame `start`, a frame every six
/// ticks, counting the times it wrapped; after the sixth it goes to state
/// `back_to`.
pub open spec fn blink_cycle(n: NPC, start: u16, back_to: u16) -> NPC {
    if n.anim_counter + 1 > 5 {
        if n.anim_num + 1 > start + 1 {
            let c2 = n.action_counter2 + 1;
            NPC {
                anim_counter: 0,
                anim_num: start,
                action_counter2: c2 as u16,
                action_num: if c2 > 5 { back_to } else { n.action_num },
                ..n
            }
        } else {
            NPC { anim_counter: 0, anim_num: (n.anim_num + 1) as u16, ..n }
        }
    } else {
        NPC { anim_counter: (n.anim_counter + 1) as u16, ..n }
    }
}

/// One tick of the Doctor seen from behind: standing (0, 1; the first tick
/// raises him 8 pixels and clears the shared x position); laughing six
/// times (10, 11, frames 0 and 1); frame 2 (20, 21); raising the red
/// crystal (40, 41: two crystals, type 257, 14 pixels behind and 16 up, the
/// second facing right and placed from slot 170 on); laughing with it six
/// times (50, 51, frames 4 and 5) and back to holding it.
pub open spec fn doctor_facing_away_step(n: NPC, st: StateView) -> (NPC, StateView) {
    let k = n.action_num;
    let (a, st1) = if k == 0 || k == 1 {
        if k == 0 {
            (
                NPC { action_num: 1, y: (n.y - 0x1000) as i32, anim_num: 0, ..n },
                StateView { npc_super_pos: (0i32, st.npc_super_pos.1), ..st },
            )
        } else {
            (NPC { anim_num: 0, ..n }, st)
        }
    } else if k == 10 || k == 11 {
        let b = if k == 10 { NPC { action_num: 11, anim_num: 0, anim_counter: 0, action_counter2: 0, ..n } } else { n };
        (blink_cycle(b, 0, 1), st)
    } else if k == 20 || k == 21 {
        (NPC { action_num: 21, anim_num: 2, ..n }, st)
    } else if k == 40 || k == 41 {
        if k == 40 {
            let crystal = alive_at(st, 257, n.x - 0x1c00, n.y - 0x2000);
            (
                NPC { action_num: 41, anim_num: 4, ..n },
                with_spawn(with_spawn(st, 0x100, crystal), 0xaa, NPC { direction: Direction::Right, ..crystal }),
            )
        } else {
            (NPC { anim_num: 4, ..n }, st)
        }
    } else if k == 50 || k == 51 {
        let b = if k == 50 { NPC { action_num: 51, anim_num: 4, anim_counter: 0, action_counter2: 0, ..n } } else { n };
        (blink_cycle(b, 4, 41), st)
    } else {
        (n, st)
    };
    (NPC { anim_rect: a.anim_num, ..a }, st1)
}

/// One tick of the red crystal: once the shared position is set it drifts
/// towards it, speeding up by a sixth of a pixel a tick to at most 2
/// pixels each way; a two-frame shimmer, frame 2 while moving against its
/// facing.
pub open spec fn red_crystal_step(n: NPC, st: StateView) -> NPC {
    let (tx, ty) = st.npc_super_pos;
    let a0 = if n.action_num == 0 { NPC { action_num: 1, ..n } } else { n };
    let a = if a0.action_num == 1 {
        if tx != 0 { NPC { action_num: 10, ..a0 } } else { a0 }
    } else if a0.action_num == 10 {
        let vx0 = a0.vel_x + if a0.x < tx { 0x55int } else { 0int } - if a0.x > tx { 0x55int } else { 0int };
        let vy0 = a0.vel_y + if a0.y < ty { 0x55int } else { 0int } - if a0.y > ty { 0x55int } else { 0int };
        let vx = clamp(vx0, -0x400, 0x400);
        let vy = clamp(vy0, -0x400, 0x400);
        NPC { vel_x: vx as i32, vel_y: vy as i32, x: (a0.x + vx) as i32, y: (a0.y + vy) as i32, ..a0 }
    } else {
        a0
    };
    let b = spec_animate(a, 3, 0, 1);
    let against = (b.direction == Direction::Left && b.vel_x > 0) || (b.direction == Direction::Right && b.vel_x < 0);
    let c = if against { NPC { anim_num: 2, ..b } } else { b };
    NPC { anim_rect: c.anim_num, ..c }
}

impl NPC {
    /// The Doctor seen from behind; see `doctor_facing_away_step`.
    pub fn tick_n256_doctor_facing_away(&mut self, state: &mut SharedGameState)
        requires
            npc_coord_ok(old(self).x),
            npc_coord_ok(old(self).y),
            old(self).action_num == 11 || old(self).action_num == 51 ==> old(self).anim_counter < u16::MAX
                && old(self).anim_num < u16::MAX && old(self).action_counter2 < u16::MAX,
        ensures
            (*final(self), final(state)@) == doctor_facing_away_step(*old(self), old(state)@),
    {
        let k = self.action_num;
        if k == 0 || k == 1 {
            if k == 0 {
                self.action_num = 1;
                self.y -= 0x1000;
                state.npc_super_pos.0 = 0;
            }
            self.anim_num = 0;
        } else if k == 10 || k == 11 || k == 50 || k == 51 {
            let start: u16 = if k <= 11 { 0 } else { 4 };
            if k == 10 || k == 50 {
                self.action_num = k + 1;
                self.anim_num = start;
                self.anim_counter = 0;
                self.action_counter2 = 0;
            }
            self.anim_counter += 1;
            if self.anim_counter > 5 {
                self.anim_counter = 0;
                self.anim_num += 1;
                if self.anim_num > start + 1 {
                    self.anim_num = start;
                    self.action_counter2 += 1;
                    if self.action_counter2 > 5 {
                        self.action_num = if k <= 11 { 1 } else { 41 };
                    }
                }
            }
        } else if k == 20 || k == 21 {
            self.action_num = 21;
            self.anim_num = 2;
        } else if k == 40 || k == 41 {
            if k == 40 {
                self.action_num = 41;
                let mut npc = state.create_npc(257);
                npc.cond.set_alive(true);
                npc.x = self.x - 0x1c00;
                npc.y = self.y - 0x2000;
                state.spawn_npc(0x100, npc);
                npc.direction = Direction::Right;
                state.spawn_npc(0xaa, npc);
            }
            self.anim_num = 4;
        }
        self.anim_rect = self.anim_num;
    }

    /// The red crystal; see `red_crystal_step`.
    pub fn tick_n257_red_crystal(&mut self, state: &SharedGameState)
        requires
            npc_coord_ok(old(self).x),
            npc_coord_ok(old(self).y),
            npc_coord_ok(old(self).vel_x),
            npc_coord_ok(old(self).vel_y),
            old(self).anim_counter < u16::MAX,
            old(self).anim_num < u16::MAX,
        ensures
            *final(self) == red_crystal_step(*old(self), state@),
    {
        let (tx, ty) = state.npc_super_pos;
        if self.action_num == 0 {
            self.action_num = 1;
        }
        if self.action_num == 1 {
            if tx != 0 {
                self.action_num = 10;
            }
        } else if self.action_num == 10 {
            if self.x < tx {
                self.vel_x += 0x55;
            }
            if self.x > tx {
                self.vel_x -= 0x55;
            }
            if self.y < ty {
                self.vel_y += 0x55;
            }
            if self.y > ty {
                self.vel_y -= 0x55;
            }
            self.vel_x = clamp_i32(self.vel_x, -0x400, 0x400);
            self.vel_y = clamp_i32(self.vel_y, -0x400, 0x400);
            self.x += self.vel_x;
            self.y += self.vel_y;
        }
        self.animate(3, 0, 1);
        if self.direction == Direction::Left && self.vel_x > 0 {
            self.anim_num = 2;
        }
        if self.direction == Direction::Right && self.vel_x < 0 {
            self.anim_num = 2;
        }
        self.anim_rect = self.anim_num;
    }
}

} // verus!
