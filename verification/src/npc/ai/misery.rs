//! Misery: standing in cutscenes, the boss of the Balcony fight, and
//! possessed at the Core.

use vstd::prelude::*;

use crate::common::{spec_opposite, spec_vector_x, Direction};
use crate::game_state::{with_aim, with_sound, with_spawn, with_type_kill, SharedGameState, StateView};
use crate::npc::ai::balcony::alive_at;
use crate::npc::ai::mimiga_village::{face_towards, ignoring_solidity};
use crate::npc::ai::{dir_frame, npc_coord_ok, scale_i32, trunc_div};
use crate::npc::boss::BossNPC;
use crate::stage::Stage;
use crate::npc::{
    closest_player, roll, set_alive_spec, spec_animate, table_npc, with_bits16, NPCFlag, Player, Rect,
    COND_ALIVE, EQUIP_BOOSTER_2_0, NPC, NPC_SHOOTABLE, FLAG_HIT_BOTTOM_WALL,
};

verus! {

/// `v` limited to `lo..=hi`.
pub open spec fn clamp(v: int, lo: int, hi: int) -> int {
    if v < lo {
        lo
    } else if v > hi {
        hi
    } else {
        v
    }
}

pub fn clamp_i32(v: i32, lo: i32, hi: i32) -> (r: i32)
    requires
        lo <= hi,
    ensures
        r == clamp(v as int, lo as int, hi as int),
{
    if v < lo {
        lo
    } else if v > hi {
        hi
    } else {
        v
    }
}

pub open spec fn target_player(n: NPC, players: [Player; 2]) -> Player {
    players[closest_player(n.x, n.y, players) as int]
}

pub open spec fn shootable(n: NPC, v: bool) -> NPC {
    NPC { npc_flags: NPCFlag(with_bits16(n.npc_flags.0, NPC_SHOOTABLE, v)), ..n }
}

/// Drifting up or down towards the target height, at most 2 pixels a tick.
pub open spec fn hover(n: NPC) -> NPC {
    let vy = n.vel_y + if n.y >= n.target_y {
        -0x20int
    } else {
        0x20int
    };
    NPC { vel_y: clamp(vy, -0x200, 0x200) as i32, ..n }
}

/// Facing the targeted player (right when level with it).
pub open spec fn face_right_of(n: NPC, p: Player) -> NPC {
    NPC {
        direction: if p.x >= n.x {
            Direction::Right
        } else {
            Direction::Left
        },
        ..n
    }
}

pub open spec fn tick_counter(n: NPC) -> NPC {
    NPC { action_counter: (n.action_counter + 1) as u16, ..n }
}

/// An alive entity of type `t` spawned at `(x, y)` facing `d`.
pub open spec fn spawn_at(st: StateView, t: u16, x: int, y: int, d: Direction) -> StateView {
    with_spawn(st, 0x100, NPC { direction: d, ..alive_at(st, t, x, y) })
}

/// States 0-2: idle before the fight, blinking now and then.
pub open spec fn misery_idle(n: NPC) -> NPC {
    if n.action_num == 0 || n.action_num == 1 {
        let a = if n.action_num == 0 {
            NPC { action_num: 1, y: (n.y + 0xc00) as i32, target_y: 0x8000, ..n }
        } else {
            n
        };
        let (r, b) = roll(a, 0, 120);
        if r == 10 {
            NPC { action_num: 2, action_counter: 0, anim_num: 1, ..b }
        } else {
            b
        }
    } else {
        let c = tick_counter(n);
        if c.action_counter > 8 {
            NPC { action_num: 1, anim_num: 0, ..c }
        } else {
            c
        }
    }
}

/// States 20-22: fallen, then sitting and blinking.
pub open spec fn misery_down(n: NPC) -> NPC {
    if n.action_num == 20 {
        let a = NPC { vel_x: 0, vel_y: (n.vel_y + 0x40) as i32, ..n };
        if a.flags.0 & FLAG_HIT_BOTTOM_WALL != 0 {
            NPC { action_num: 21, anim_num: 2, ..a }
        } else {
            a
        }
    } else if n.action_num == 21 {
        let (r, b) = roll(n, 0, 120);
        if r == 10 {
            NPC { action_num: 22, action_counter: 0, anim_num: 3, ..b }
        } else {
            b
        }
    } else {
        let c = tick_counter(n);
        if c.action_counter > 8 {
            NPC { action_num: 21, anim_num: 2, ..c }
        } else {
            c
        }
    }
}

/// States 100-101: hovering and facing the player; after 201 ticks or 80
/// points of damage, on to casting.
pub open spec fn misery_hovering(n: NPC, players: [Player; 2]) -> NPC {
    let a = if n.action_num == 100 {
        NPC {
            action_num: 101,
            action_counter: 0,
            anim_num: 0,
            vel_x: 0,
            action_counter2: n.life,
            ..shootable(n, true)
        }
    } else {
        n
    };
    let b = tick_counter(hover(face_right_of(a, target_player(a, players))));
    if b.action_counter > 200 || b.life + 80 <= b.action_counter2 {
        NPC { action_counter: 0, action_num: 110, ..b }
    } else {
        b
    }
}

/// States 110-111: charging for 31 ticks, then every third time the
/// lightning attack, else the bubbles.
pub open spec fn misery_charging(n: NPC) -> NPC {
    let a = if n.action_num == 110 {
        NPC { action_num: 111, action_counter: 0, vel_x: 0, vel_y: 0, ..shootable(n, false) }
    } else {
        n
    };
    let c = tick_counter(a);
    let b = NPC { anim_num: if c.action_counter & 1 != 0 { 5 } else { 6 }, ..c };
    if b.action_counter > 30 {
        let k = (b.action_counter3 + 1) as u16;
        NPC {
            action_counter3: k,
            action_num: if k % 3 == 0 {
                113
            } else {
                112
            },
            action_counter: 0,
            anim_num: 4,
            ..b
        }
    } else {
        b
    }
}

/// State 112: a bubble aimed at the player (turned by a random -4 to 4
/// degrees) every 6 ticks, for 31 ticks.
pub open spec fn misery_bubbles(n: NPC, st: StateView, players: [Player; 2]) -> (NPC, StateView) {
    let a = tick_counter(n);
    let (b, st) = if a.action_counter % 6 == 0 {
        let p = target_player(a, players);
        let (j, b) = roll(a, -4i32, 4i32);
        let st1 = spawn_at(st, 248, b.x as int, b.y + 0x800, Direction::Left);
        (b, with_sound(with_aim(st1, (b.x - p.x) as i32, (b.y - p.y) as i32, j, 2048), 34))
    } else {
        (a, st)
    };
    if b.action_counter > 30 {
        (NPC { action_num: 150, action_counter: 0, ..b }, st)
    } else {
        (b, st)
    }
}

/// State 113: lightning 64 pixels above the player at tick 10.
pub open spec fn misery_lightning(n: NPC, st: StateView, players: [Player; 2]) -> (NPC, StateView) {
    let a = tick_counter(n);
    let st = if a.action_counter == 10 {
        let p = target_player(a, players);
        spawn_at(st, 279, p.x as int, p.y - 0x8000, Direction::Up)
    } else {
        st
    };
    if a.action_counter > 30 {
        (NPC { action_num: 150, action_counter: 0, ..a }, st)
    } else {
        (a, st)
    }
}

/// The bats Misery summons when hurt: two below 340 health, two more
/// below 180.
pub open spec fn misery_bats(n: NPC, st: StateView) -> StateView {
    let bat = NPC { parent_id: n.id, ..alive_at(st, 252, 0, 0) };
    let st1 = if n.life < 340 {
        with_spawn(with_spawn(st, 0x100, bat), 0x100, NPC { tsc_direction: 0x80, ..bat })
    } else {
        st
    };
    if n.life < 180 {
        with_spawn(
            with_spawn(st1, 0x100, NPC { tsc_direction: 0x40, ..bat }),
            0x100,
            NPC { tsc_direction: 0xc0, ..bat },
        )
    } else {
        st1
    }
}

/// States 150-151: vanishing (with puffs where she was and where she will
/// be) and reappearing at a random spot; then hovering again when the
/// player is within 112 pixels sideways, else shooting.
pub open spec fn misery_teleport(n: NPC, st: StateView, players: [Player; 2]) -> (NPC, StateView) {
    let (a, st) = if n.action_num == 150 {
        let b = NPC { action_num: 151, action_counter: 0, anim_num: 7, ..n };
        let st1 = spawn_at(spawn_at(st, 249, b.x as int, b.y as int, Direction::Left), 249, b.x as int, b.y as int, Direction::Right);
        let (tx, c) = roll(b, 9, 31);
        let (ty, d) = roll(c, 5, 7);
        (NPC { target_x: (tx * 0x2000) as i32, target_y: (ty * 0x2000) as i32, ..d }, with_sound(st1, 29))
    } else {
        (n, st)
    };
    let b = tick_counter(a);
    let st = if b.action_counter == 42 {
        spawn_at(
            spawn_at(st, 249, b.target_x + 0x2000, b.target_y as int, Direction::Left),
            249,
            b.target_x - 0x2000,
            b.target_y as int,
            Direction::Right,
        )
    } else {
        st
    };
    if b.action_counter > 50 {
        let c = NPC { action_counter: 0, vel_y: -0x200i32, x: b.target_x, y: b.target_y, ..shootable(b, true) };
        let st = misery_bats(c, st);
        let p = target_player(c, players);
        (
            NPC {
                action_num: if p.x >= c.x - 0xe000 && p.x <= c.x + 0xe000 {
                    100
                } else {
                    160
                },
                ..c
            },
            st,
        )
    } else {
        (b, st)
    }
}

/// States 160-161: hovering and shooting a ball every 24 ticks, for 73
/// ticks.
pub open spec fn misery_shooting(n: NPC, st: StateView, players: [Player; 2]) -> (NPC, StateView) {
    let a = if n.action_num == 160 {
        let b = NPC { action_num: 161, action_counter: 0, anim_num: 4, ..n };
        face_right_of(b, target_player(b, players))
    } else {
        n
    };
    let b = tick_counter(hover(a));
    let st = if b.action_counter % 24 == 0 {
        with_sound(spawn_at(st, 250, b.x as int, b.y + 0x800, Direction::Left), 34)
    } else {
        st
    };
    if b.action_counter > 72 {
        (NPC { action_counter: 0, action_num: 100, ..b }, st)
    } else {
        (b, st)
    }
}

/// States 1000-1001: defeated, shaking in place; the bats are removed and
/// three puffs of smoke spawned.
pub open spec fn misery_defeated(n: NPC, st: StateView) -> (NPC, StateView) {
    let (a, st) = if n.action_num == 1000 {
        let b = NPC {
            action_num: 1001,
            action_counter: 0,
            anim_num: 4,
            target_x: n.x,
            target_y: n.y,
            vel_x: 0,
            vel_y: 0,
            ..shootable(n, false)
        };
        let smoke = alive_at(st, 4, b.x as int, b.y as int);
        let st1 = with_type_kill(st, 252, true);
        (b, with_spawn(with_spawn(with_spawn(st1, 0x100, smoke), 0x100, smoke), 0x100, smoke))
    } else {
        (n, st)
    };
    let b = tick_counter(a);
    (
        NPC {
            x: if b.action_counter & 0x02 != 0 {
                (b.target_x + 0x200) as i32
            } else {
                b.target_x
            },
            ..b
        },
        st,
    )
}

/// One tick of the Misery boss: the state's step, then movement with the
/// speed capped at 2 pixels sideways and 4 vertically, and the frame.
pub open spec fn misery_boss_step(n: NPC, st: StateView, players: [Player; 2]) -> (NPC, StateView) {
    let k = n.action_num;
    let (m, st) = if k <= 2 {
        (misery_idle(n), st)
    } else if k == 20 || k == 21 || k == 22 {
        (misery_down(n), st)
    } else if k == 100 || k == 101 {
        (misery_hovering(n, players), st)
    } else if k == 110 || k == 111 {
        (misery_charging(n), st)
    } else if k == 112 {
        misery_bubbles(n, st, players)
    } else if k == 113 {
        misery_lightning(n, st, players)
    } else if k == 150 || k == 151 {
        misery_teleport(n, st, players)
    } else if k == 160 || k == 161 {
        misery_shooting(n, st, players)
    } else if k == 1000 || k == 1001 {
        misery_defeated(n, st)
    } else if k == 1010 {
        let a = NPC { vel_y: (n.vel_y + 0x10) as i32, ..n };
        (
            if a.flags.0 & FLAG_HIT_BOTTOM_WALL != 0 {
                NPC { action_num: 1020, anim_num: 8, ..a }
            } else {
                a
            },
            st,
        )
    } else {
        (n, st)
    };
    let vx = clamp(m.vel_x as int, -0x200, 0x200);
    let vy = clamp(m.vel_y as int, -0x400, 0x400);
    let moved = NPC { vel_x: vx as i32, vel_y: vy as i32, x: (m.x + vx) as i32, y: (m.y + vy) as i32, ..m };
    (NPC { anim_rect: dir_frame(moved, 9), ..moved }, st)
}

/// Inputs a Misery boss tick computes in range on: coordinates, targets
/// and the players within the map range, speeds within it too, counters
/// that are incremented below their maximum, the damage threshold within
/// 16 bits.
pub open spec fn misery_tickable(n: NPC, players: [Player; 2]) -> bool {
    let k = n.action_num;
    &&& npc_coord_ok(n.x)
    &&& npc_coord_ok(n.y)
    &&& npc_coord_ok(n.vel_x)
    &&& npc_coord_ok(n.vel_y)
    &&& npc_coord_ok(n.target_x)
    &&& npc_coord_ok(n.target_y)
    &&& npc_coord_ok(players[0].x)
    &&& npc_coord_ok(players[0].y)
    &&& npc_coord_ok(players[1].x)
    &&& npc_coord_ok(players[1].y)
    &&& (k == 2 || k == 22 || k == 101 || k == 111 || k == 112 || k == 113 || k == 151 || k == 161
        || k == 1001) ==> n.action_counter < u16::MAX
    &&& k == 111 ==> n.action_counter3 < u16::MAX
    &&& (k == 100 || k == 101) ==> n.life <= u16::MAX - 80
    &&& n.anim_num <= u16::MAX - 9
}

/// The blink on the spot: every so often a frame of closed eyes.
pub open spec fn misery_blink(n: NPC, open_frame: u16, shut_frame: u16, timed: bool) -> NPC {
    let busy = if timed { n.action_counter != 0 } else { n.anim_counter != 0 };
    if busy {
        if timed {
            NPC { action_counter: (n.action_counter - 1) as u16, anim_num: shut_frame, ..n }
        } else {
            NPC { anim_counter: (n.anim_counter - 1) as u16, anim_num: shut_frame, ..n }
        }
    } else {
        let (r, m) = roll(n, 0i32, 100i32);
        NPC { anim_counter: if r == 1 { 30 } else { m.anim_counter }, anim_num: open_frame, ..m }
    }
}

/// States 15 and 16 of Misery: after 30 ticks she summons a bubble (type
/// 66, owned by her) above her; after 50 she blinks (14).
pub open spec fn summon_bubble(n: NPC, st: StateView) -> (NPC, StateView) {
    let b = if n.action_num == 15 { NPC { action_num: 16, action_counter: 0, anim_num: 4, ..n } } else { n };
    let c = tick_counter(b);
    let s1 = if c.action_counter == 30 {
        with_spawn(
            with_sound(st, 21),
            0,
            NPC { x: c.x, y: (c.y - 0x2000) as i32, parent_id: c.id, ..set_alive_spec(table_npc(66, st.npc_table), true) },
        )
    } else {
        st
    };
    (if c.action_counter == 50 { NPC { action_num: 14, ..c } } else { c }, s1)
}

/// States 20 and 21 of Misery: floating up out of the room, passing through
/// walls; gone above its top.
pub open spec fn float_away(n: NPC) -> NPC {
    let b = if n.action_num == 20 { NPC { action_num: 21, anim_num: 0, vel_y: 0, ..ignoring_solidity(n, true) } } else { n };
    let c = NPC { vel_y: (b.vel_y - 0x20) as i32, ..b };
    if c.y < -0x1000 { NPC { cond: crate::npc::Condition(with_bits16(c.cond.0, COND_ALIVE, false)), ..c } } else { c }
}

/// States 25 and 26 of Misery: a spell, cycling frames 5 to 7; at 30 ticks
/// the screen flashes (27).
pub open spec fn spell_flash(n: NPC, st: StateView) -> (NPC, StateView) {
    let b = if n.action_num == 25 { NPC { action_num: 26, action_counter: 0, anim_num: 5, anim_counter: 0, ..n } } else { n };
    let f = (b.anim_num + 1) as u16;
    let c = tick_counter(NPC { anim_num: if f > 7 { 5 } else { f }, ..b });
    if c.action_counter == 30 {
        (NPC { action_num: 27, anim_num: 7, ..c }, StateView { flash_blink: true, ..with_sound(st, 101) })
    } else {
        (c, st)
    }
}

/// One tick of Misery standing (cutscenes): idling and blinking; summoning
/// a bubble (66) for a character (15); floating away (20); a spell with a
/// flash (25); surprised (30); a volley of three shots (type 11) to the
/// right (40); then movement, the eye blinks of states 11 and 14, and the
/// frame (right-facing frames start 9 in).
pub open spec fn misery_standing_step(n: NPC, st: StateView) -> (NPC, StateView) {
    let k = n.action_num;
    let (a, s) = if k == 0 || k == 1 {
        let b = if k == 0 { NPC { action_num: 1, anim_num: 2, ..n } } else { n };
        let (r, c) = roll(b, 0i32, 120i32);
        (if r == 10 { NPC { action_num: 2, action_counter: 0, anim_num: 3, ..c } } else { c }, st)
    } else if k == 2 {
        let c = tick_counter(n);
        (if c.action_counter > 8 { NPC { action_num: 1, anim_num: 2, ..c } } else { c }, st)
    } else if k == 15 || k == 16 {
        summon_bubble(n, st)
    } else if k == 20 || k == 21 {
        (float_away(n), st)
    } else if k == 25 || k == 26 {
        spell_flash(n, st)
    } else if k == 27 {
        let c = tick_counter(n);
        (if c.action_counter == 50 { NPC { action_num: 0, anim_num: 0, ..c } } else { c }, st)
    } else if k == 30 || k == 31 {
        let b = if k == 30 { NPC { action_num: 31, anim_num: 3, anim_counter: 0, ..n } } else { n };
        let t = (b.anim_counter + 1) as u16;
        (if t > 10 { NPC { action_num: 32, anim_num: 4, anim_counter: 0, ..b } } else { NPC { anim_counter: t, ..b } }, st)
    } else if k == 32 {
        let t = (n.anim_counter + 1) as u16;
        (if t > 100 { NPC { anim_counter: t, action_num: 1, anim_num: 2, ..n } } else { NPC { anim_counter: t, ..n } }, st)
    } else if k == 40 || k == 41 {
        let b = if k == 40 { NPC { action_num: 41, action_counter: 0, ..n } } else { n };
        let c = tick_counter(NPC { anim_num: 4, ..b });
        let (d, s1) = if c.action_counter == 30 || c.action_counter == 40 || c.action_counter == 50 {
            let (r, m) = roll(c, -0x200i32, 0i32);
            (
                m,
                with_spawn(
                    with_sound(st, 33),
                    0x100,
                    NPC {
                        x: (c.x + 0x1000) as i32,
                        y: (c.y - 0x1000) as i32,
                        vel_x: 0x600,
                        vel_y: r,
                        ..set_alive_spec(table_npc(11, st.npc_table), true)
                    },
                ),
            )
        } else {
            (c, st)
        };
        (if d.action_counter > 50 { NPC { action_num: 0, ..d } } else { d }, s1)
    } else if k == 50 {
        (NPC { anim_num: 8, ..n }, st)
    } else {
        (n, st)
    };
    let m = NPC { x: (a.x + a.vel_x) as i32, y: (a.y + a.vel_y) as i32, ..a };
    let b = if m.action_num == 11 {
        misery_blink(m, 0, 1, false)
    } else if m.action_num == 14 {
        misery_blink(m, 2, 3, true)
    } else {
        m
    };
    (NPC { anim_rect: dir_frame(b, 9), ..b }, s)
}

/// Inputs a tick of Misery standing computes in range on.
pub open spec fn misery_standing_tickable(n: NPC) -> bool {
    let k = n.action_num;
    &&& npc_coord_ok(n.x)
    &&& npc_coord_ok(n.y)
    &&& npc_coord_ok(n.vel_x)
    &&& npc_coord_ok(n.vel_y)
    &&& (k == 2 || k == 16 || k == 26 || k == 27 || k == 41) ==> n.action_counter < u16::MAX
    &&& (k == 31 || k == 32) ==> n.anim_counter < u16::MAX
    &&& n.anim_num <= u16::MAX - 9
}

/// The shared flag in `npc_super_pos` cleared.
pub open spec fn clear_super_flag(st: StateView) -> StateView {
    StateView { npc_super_pos: (0i32, st.npc_super_pos.1), ..st }
}

/// One of possessed Misery's spells: a bat (289, scattered sideways) or
/// an orb (290, scattered in a column) within 64 pixels of her, kept two
/// tiles inside the room.
pub open spec fn possessed_minion(n: NPC, st: StateView, w: usize, h: usize) -> (NPC, StateView) {
    let wide = n.action_counter3 == 289;
    let (rx, a) = roll(n, if wide { -64i32 } else { -32i32 }, if wide { 64i32 } else { 32i32 });
    let (ry, b) = roll(a, if wide { -32i32 } else { -64i32 }, if wide { 32i32 } else { 64i32 });
    let ts = st.tile_size;
    let x = clamp(n.x + rx * 0x200, 2 * ts * 0x200, (w - 2) * ts * 0x200);
    let y = clamp(n.y + ry * 0x200, 2 * ts * 0x200, (h - 2) * ts * 0x200);
    let e = set_alive_spec(table_npc(n.action_counter3, st.npc_table), true);
    (b, with_spawn(with_sound(st, 39), 0x100, NPC { x: x as i32, y: y as i32, ..e }))
}

/// The heading of a shot of the ring, by the quarter of its cycle.
pub open spec fn ring_angle(q: int, d: Direction) -> u16 {
    if d == Direction::Left {
        if q == 0 { 0xd8 } else if q == 1 { 0xec } else if q == 2 { 0x14 } else { 0x28 }
    } else {
        if q == 0 { 0x58 } else if q == 1 { 0x6c } else if q == 2 { 0x94 } else { 0xa8 }
    }
}

/// States 0 to 21: appearing, waiting, then slowing to a float while
/// facing the player; after 100 ticks the chase begins.
pub open spec fn possessed_calm(n: NPC, st: StateView, p: Player) -> (NPC, StateView) {
    let k = n.action_num;
    if k == 0 || k == 1 {
        let (a, s) = if k == 0 {
            (NPC { action_num: 1, y: (n.y - 0x1000) as i32, ..n }, with_sound(st, 29))
        } else {
            (n, st)
        };
        let c = tick_counter(a);
        (NPC { anim_num: if c.action_counter & 2 != 0 { 9 } else { 0 }, ..c }, s)
    } else if k == 10 {
        (NPC { action_num: 11, anim_num: 9, ..n }, st)
    } else {
        let (a, s) = if k == 20 {
            (NPC { action_num: 21, action_counter: 0, anim_num: 0, anim_counter: 0, ..n }, clear_super_flag(st))
        } else {
            (n, st)
        };
        let b = spec_animate(
            NPC { vel_x: trunc_div(7 * a.vel_x, 8) as i32, vel_y: trunc_div(7 * a.vel_y, 8) as i32, ..a },
            20,
            0,
            1,
        );
        let c = tick_counter(b);
        let d = if c.action_counter > 100 { NPC { action_num: 30, ..c } } else { c };
        (NPC { direction: if p.x > d.x { Direction::Right } else { Direction::Left }, ..d }, s)
    }
}

/// States 30 and 31: drifting towards the Core sideways and the player
/// upright; after 150 ticks, once hurt by 20 or signalled, a spell; after
/// 250 ticks, once the Core has opened, the ring of shots.
pub open spec fn possessed_chase(n: NPC, st: StateView, p: Player, core: NPC) -> (NPC, StateView) {
    let a = if n.action_num == 30 {
        NPC { action_num: 31, action_counter: 0, anim_num: 2, action_counter3: n.life, ..n }
    } else {
        n
    };
    let b = spec_animate(a, 1, 2, 3);
    let c = if b.flags.0 & FLAG_HIT_BOTTOM_WALL != 0 { NPC { vel_y: -0x200i32, ..b } } else { b };
    let vx = clamp(c.vel_x + if c.x > core.x { -0x20int } else { 0x20int }, -0x200, 0x200);
    let vy = clamp(c.vel_y + if c.y > p.y { -0x10int } else { 0x10int }, -0x200, 0x200);
    let d = tick_counter(face_towards(NPC { vel_x: vx as i32, vel_y: vy as i32, ..c }, p));
    let (e, s) = if d.action_counter > 150 && (d.life + 20 < d.action_counter3 || st.npc_super_pos.0 != 0) {
        (NPC { action_num: 40, ..d }, clear_super_flag(st))
    } else {
        (d, st)
    };
    (if core.anim_num != 0 && e.action_counter > 250 { NPC { action_num: 50, ..e } } else { e }, s)
}

/// States 40 and 41: casting bats (player low) or orbs, one every six
/// ticks for 50 ticks.
pub open spec fn possessed_spell(n: NPC, st: StateView, p: Player, w: usize, h: usize) -> (NPC, StateView) {
    let (a, s) = if n.action_num == 40 {
        (
            NPC {
                action_num: 41,
                action_counter: 0,
                vel_x: 0,
                vel_y: 0,
                action_counter3: if p.y >= 0x14000 { 289 } else { 290 },
                ..face_towards(n, p)
            },
            with_sound(st, 103),
        )
    } else {
        (n, st)
    };
    let c = tick_counter(a);
    let d = NPC { anim_num: if c.action_counter & 2 != 0 { 4 } else { 5 }, ..c };
    let (e, s) = if d.action_counter % 6 == 1 { possessed_minion(d, s, w, h) } else { (d, s) };
    (if e.action_counter > 50 { face_towards(NPC { action_num: 42, action_counter: 0, ..e }, p) } else { e }, s)
}

/// States 50 and 51: a ring of shots from her staff, every 24 ticks (10
/// when the player has the Booster 2.0), for 50 ticks.
pub open spec fn possessed_ring(n: NPC, st: StateView, p: Player) -> (NPC, StateView) {
    let (a, s) = if n.action_num == 50 {
        (NPC { action_num: 51, action_counter: 0, vel_x: 0, vel_y: 0, ..face_towards(n, p) }, with_sound(st, 103))
    } else {
        (n, st)
    };
    let c = tick_counter(a);
    let d = NPC { anim_num: if c.action_counter & 2 != 0 { 4 } else { 5 }, ..c };
    let period: int = if p.equip & EQUIP_BOOSTER_2_0 != 0 { 10 } else { 24 };
    let s2 = if (d.action_counter as int) % period == 1 {
        let e = set_alive_spec(table_npc(301, s.npc_table), true);
        with_spawn(
            with_sound(s, 39),
            0x100,
            NPC {
                x: (d.x + 0x1400 * spec_vector_x(spec_opposite(d.direction))) as i32,
                y: d.y,
                tsc_direction: ring_angle((d.action_counter / 6) as int % 4, d.direction),
                ..e
            },
        )
    } else {
        s
    };
    (if d.action_counter > 50 { face_towards(NPC { action_num: 42, action_counter: 0, ..d }, p) } else { d }, s2)
}

/// States 99 to 101: knocked out of the air, she falls to the floor at
/// 0x1b000; the fall makes the Core's frame advance.
pub open spec fn possessed_fall(n: NPC, core: NPC) -> (NPC, NPC) {
    if n.action_num == 99 {
        (NPC { vel_x: 0, vel_y: 0, anim_num: 9, ..shootable(n, false) }, core)
    } else {
        let (a, c0) = if n.action_num == 100 {
            (
                NPC {
                    action_num: 101,
                    anim_num: 9,
                    damage: 0,
                    vel_y: -0x200i32,
                    shock: (n.shock + 50) as u16,
                    hit_bounds: Rect { bottom: 0x1800u32, ..n.hit_bounds },
                    ..ignoring_solidity(shootable(n, false), true)
                },
                NPC { anim_num: (core.anim_num + 1) as u16, ..core },
            )
        } else {
            (n, core)
        };
        let c = NPC { vel_y: (a.vel_y + 0x20) as i32, ..a };
        let floor = 0x1b000 - c.hit_bounds.bottom;
        (if c.y > floor { NPC { y: floor as i32, action_num: 102, anim_num: 10, vel_x: 0, vel_y: 0, ..c } } else { c }, c0)
    }
}

/// The action step of possessed Misery: before state 100 she is knocked
/// down when the Core (`core`, its first part) is gone or her health is
/// under 400.
pub open spec fn possessed_action(
    n: NPC,
    st: StateView,
    p: Player,
    core: NPC,
    w: usize,
    h: usize,
) -> (NPC, StateView, NPC) {
    let a = if n.action_num < 100 && (core.cond.0 & COND_ALIVE == 0 || n.life < 400) {
        NPC { action_num: 100, ..n }
    } else {
        n
    };
    let k = a.action_num;
    if k <= 1 || k == 10 || k == 20 || k == 21 {
        let (b, s) = possessed_calm(a, st, p);
        (b, s, core)
    } else if k == 30 || k == 31 {
        let (b, s) = possessed_chase(a, st, p, core);
        (b, s, core)
    } else if k == 40 || k == 41 {
        let (b, s) = possessed_spell(a, st, p, w, h);
        (b, s, core)
    } else if k == 42 {
        let c = tick_counter(NPC { anim_num: 6, ..a });
        (if c.action_counter > 50 {
            NPC {
                action_num: 30,
                vel_y: -0x200i32,
                vel_x: (spec_vector_x(spec_opposite(c.direction)) * 0x200) as i32,
                ..c
            }
        } else {
            c
        }, st, core)
    } else if k == 50 || k == 51 {
        let (b, s) = possessed_ring(a, st, p);
        (b, s, core)
    } else if k == 99 || k == 100 || k == 101 {
        let (b, c) = possessed_fall(a, core);
        (b, st, c)
    } else {
        (a, st, core)
    }
}

/// One tick of possessed Misery against the targeted player: the action
/// step, movement at half speed sideways while shocked, and the frame
/// (right-facing frames start 11 in). `core` is the Core's first part, `w`
/// and `h` the map's size in tiles.
pub open spec fn misery_possessed_step(
    n: NPC,
    st: StateView,
    players: [Player; 2],
    core: NPC,
    w: usize,
    h: usize,
) -> (NPC, StateView, NPC) {
    let p = players[closest_player(n.x, n.y, players) as int];
    let (a, s, c) = possessed_action(n, st, p, core, w, h);
    let dx = if a.shock > 0 { trunc_div(a.vel_x as int, 2) } else { a.vel_x as int };
    let m = NPC { x: (a.x + dx) as i32, y: (a.y + a.vel_y) as i32, ..a };
    (NPC { anim_rect: dir_frame(m, 11), ..m }, s, c)
}

/// Inputs a tick of possessed Misery computes in range on.
pub open spec fn possessed_tickable(
    n: NPC,
    players: [Player; 2],
    core: NPC,
    w: usize,
    h: usize,
    tile_size: i32,
) -> bool {
    let k = n.action_num;
    &&& npc_coord_ok(n.x)
    &&& npc_coord_ok(n.y)
    &&& npc_coord_ok(n.vel_x)
    &&& npc_coord_ok(n.vel_y)
    &&& npc_coord_ok(players[0].x)
    &&& npc_coord_ok(players[0].y)
    &&& npc_coord_ok(players[1].x)
    &&& npc_coord_ok(players[1].y)
    &&& (k == 40 || k == 41) ==> (4 <= w <= 0x1000 && 4 <= h <= 0x1000 && 1 <= tile_size <= 16)
    &&& (k <= 1 || k == 21 || k == 31 || k == 41 || k == 42 || k == 51) ==> n.action_counter < u16::MAX
    &&& (k == 21 || k == 30 || k == 31) ==> n.anim_counter < u16::MAX
    &&& (k == 30 || k == 31) ==> n.life <= u16::MAX - 20
    &&& (k == 42 || k == 51) ==> n.direction != Direction::FacingPlayer
    &&& k <= 100 ==> (n.shock <= u16::MAX - 50 && core.anim_num < u16::MAX)
    &&& k == 101 ==> n.hit_bounds.bottom <= 0x1000_0000
    &&& n.anim_num <= u16::MAX - 11
}

impl NPC {
    fn misery_bubbles_exec(&mut self, state: &mut SharedGameState, players: &[Player; 2])
        requires
            misery_tickable(*old(self), *players),
            old(self).action_num == 112,
        ensures
            (*final(self), final(state)@) == misery_bubbles(*old(self), old(state)@, *players),
            final(self).x == old(self).x && final(self).y == old(self).y,
            final(self).vel_x == old(self).vel_x && final(self).vel_y == old(self).vel_y,
            final(self).anim_num == old(self).anim_num,
    {
        self.action_counter += 1;
        if self.action_counter % 6 == 0 {
            let idx = self.get_closest_player_idx(players);
            let p = players[idx];
            let jitter = self.rng.range(-4..4);
            let mut npc = state.create_npc(248);
            npc.cond.set_alive(true);
            npc.x = self.x;
            npc.y = self.y + 0x800;
            state.spawn_npc(0x100, npc);
            state.aim_last_spawn(self.x - p.x, self.y - p.y, jitter, 2048);
            state.play_sfx(34);
        }
        if self.action_counter > 30 {
            self.action_num = 150;
            self.action_counter = 0;
        }
    }

    fn spawn_at_exec(state: &mut SharedGameState, t: u16, x: i32, y: i32, d: Direction)
        ensures
            final(state)@ == spawn_at(old(state)@, t, x as int, y as int, d),
    {
        let mut npc = state.create_npc(t);
        npc.cond.set_alive(true);
        npc.x = x;
        npc.y = y;
        npc.direction = d;
        state.spawn_npc(0x100, npc);
    }

    fn misery_teleport_exec(&mut self, state: &mut SharedGameState, players: &[Player; 2])
        requires
            misery_tickable(*old(self), *players),
            old(self).action_num == 150 || old(self).action_num == 151,
        ensures
            (*final(self), final(state)@) == misery_teleport(*old(self), old(state)@, *players),
            npc_coord_ok(final(self).x),
            npc_coord_ok(final(self).y),
            final(self).vel_x == old(self).vel_x,
            final(self).vel_y == old(self).vel_y || final(self).vel_y == -0x200,
            final(self).anim_num <= u16::MAX - 9,
    {
        if self.action_num == 150 {
            self.action_num = 151;
            self.action_counter = 0;
            self.anim_num = 7;
            NPC::spawn_at_exec(state, 249, self.x, self.y, Direction::Left);
            NPC::spawn_at_exec(state, 249, self.x, self.y, Direction::Right);
            let tx = self.rng.range(9..31);
            let ty = self.rng.range(5..7);
            self.target_x = tx * 0x2000;
            self.target_y = ty * 0x2000;
            state.play_sfx(29);
        }
        self.action_counter += 1;
        if self.action_counter == 42 {
            NPC::spawn_at_exec(state, 249, self.target_x + 0x2000, self.target_y, Direction::Left);
            NPC::spawn_at_exec(state, 249, self.target_x - 0x2000, self.target_y, Direction::Right);
        }
        if self.action_counter > 50 {
            self.action_counter = 0;
            self.vel_y = -0x200;
            self.npc_flags.set_shootable(true);
            self.x = self.target_x;
            self.y = self.target_y;
            if self.life < 340 {
                let mut npc = state.create_npc(252);
                npc.cond.set_alive(true);
                npc.parent_id = self.id;
                state.spawn_npc(0x100, npc);
                npc.tsc_direction = 0x80;
                state.spawn_npc(0x100, npc);
            }
            if self.life < 180 {
                let mut npc = state.create_npc(252);
                npc.cond.set_alive(true);
                npc.parent_id = self.id;
                npc.tsc_direction = 0x40;
                state.spawn_npc(0x100, npc);
                npc.tsc_direction = 0xc0;
                state.spawn_npc(0x100, npc);
            }
            let idx = self.get_closest_player_idx(players);
            let p = players[idx];
            self.action_num = if p.x >= self.x - 0xe000 && p.x <= self.x + 0xe000 {
                100
            } else {
                160
            };
        }
    }

    fn hover_exec(&mut self)
        requires
            npc_coord_ok(old(self).vel_y),
        ensures
            *final(self) == hover(*old(self)),
    {
        self.vel_y += if self.y >= self.target_y {
            -0x20
        } else {
            0x20
        };
        self.vel_y = clamp_i32(self.vel_y, -0x200, 0x200);
    }

    fn misery_shooting_exec(&mut self, state: &mut SharedGameState, players: &[Player; 2])
        requires
            misery_tickable(*old(self), *players),
            old(self).action_num == 160 || old(self).action_num == 161,
        ensures
            (*final(self), final(state)@) == misery_shooting(*old(self), old(state)@, *players),
            final(self).x == old(self).x && final(self).y == old(self).y,
            final(self).vel_x == old(self).vel_x,
            -0x200 <= final(self).vel_y <= 0x200,
            final(self).anim_num <= u16::MAX - 9,
    {
        if self.action_num == 160 {
            self.action_num = 161;
            self.action_counter = 0;
            self.anim_num = 4;
            let idx = self.get_closest_player_idx(players);
            let p = players[idx];
            self.direction = if p.x >= self.x {
                Direction::Right
            } else {
                Direction::Left
            };
        }
        self.hover_exec();
        self.action_counter += 1;
        if self.action_counter % 24 == 0 {
            NPC::spawn_at_exec(state, 250, self.x, self.y + 0x800, Direction::Left);
            state.play_sfx(34);
        }
        if self.action_counter > 72 {
            self.action_counter = 0;
            self.action_num = 100;
        }
    }

    fn misery_defeated_exec(&mut self, state: &mut SharedGameState)
        requires
            npc_coord_ok(old(self).x),
            npc_coord_ok(old(self).y),
            npc_coord_ok(old(self).target_x),
            old(self).action_num == 1000 || old(self).action_num == 1001,
            old(self).action_num == 1001 ==> old(self).action_counter < u16::MAX,
        ensures
            (*final(self), final(state)@) == misery_defeated(*old(self), old(state)@),
            -0x2000_0000 <= final(self).x <= 0x2000_0000,
            final(self).y == old(self).y,
            final(self).vel_x == old(self).vel_x || final(self).vel_x == 0,
            final(self).vel_y == old(self).vel_y || final(self).vel_y == 0,
    {
        if self.action_num == 1000 {
            self.npc_flags.set_shootable(false);
            self.action_num = 1001;
            self.action_counter = 0;
            self.anim_num = 4;
            self.target_x = self.x;
            self.target_y = self.y;
            self.vel_x = 0;
            self.vel_y = 0;
            state.kill_npcs_by_type(252, true);
            let mut npc = state.create_npc(4);
            npc.cond.set_alive(true);
            npc.x = self.x;
            npc.y = self.y;
            let ghost st0 = state@;
            let mut i: usize = 0;
            while i < 3
                invariant
                    i <= 3,
                    npc == alive_at(st0, 4, self.x as int, self.y as int),
                    state@ == if i == 0 {
                        st0
                    } else if i == 1 {
                        with_spawn(st0, 0x100, npc)
                    } else if i == 2 {
                        with_spawn(with_spawn(st0, 0x100, npc), 0x100, npc)
                    } else {
                        with_spawn(with_spawn(with_spawn(st0, 0x100, npc), 0x100, npc), 0x100, npc)
                    },
                decreases 3 - i,
            {
                state.spawn_npc(0x100, npc);
                i += 1;
            }
        }
        self.action_counter += 1;
        self.x = if self.action_counter & 0x02 != 0 {
            self.target_x + 0x200
        } else {
            self.target_x
        };
    }

    /// One tick of the Misery boss; see `misery_boss_step`. Bubble
    /// velocities are left to the frame loop through `Aim` requests.
    #[verifier::rlimit(40)]
    #[verifier::spinoff_prover]
    pub fn tick_n247_misery_boss(&mut self, state: &mut SharedGameState, players: &[Player; 2])
        requires
            misery_tickable(*old(self), *players),
        ensures
            (*final(self), final(state)@) == misery_boss_step(*old(self), old(state)@, *players),
    {
        match self.action_num {
            0 | 1 => {
                if self.action_num == 0 {
                    self.action_num = 1;
                    self.y += 0xc00;
                    self.target_y = 0x8000;
                }
                if self.rng.range(0..120) == 10 {
                    self.action_num = 2;
                    self.action_counter = 0;
                    self.anim_num = 1;
                }
            },
            2 => {
                self.action_counter += 1;
                if self.action_counter > 8 {
                    self.action_num = 1;
                    self.anim_num = 0;
                }
            },
            20 => {
                self.vel_x = 0;
                self.vel_y += 0x40;
                if self.flags.hit_bottom_wall() {
                    self.action_num = 21;
                    self.anim_num = 2;
                }
            },
            21 => {
                if self.rng.range(0..120) == 10 {
                    self.action_num = 22;
                    self.action_counter = 0;
                    self.anim_num = 3;
                }
            },
            22 => {
                self.action_counter += 1;
                if self.action_counter > 8 {
                    self.action_num = 21;
                    self.anim_num = 2;
                }
            },
            100 | 101 => {
                if self.action_num == 100 {
                    self.action_num = 101;
                    self.action_counter = 0;
                    self.anim_num = 0;
                    self.vel_x = 0;
                    self.npc_flags.set_shootable(true);
                    self.action_counter2 = self.life;
                }
                let idx = self.get_closest_player_idx(players);
                let p = players[idx];
                if p.x >= self.x {
                    self.direction = Direction::Right;
                } else {
                    self.direction = Direction::Left;
                }
                self.hover_exec();
                self.action_counter += 1;
                if self.action_counter > 200 || (self.life + 80) <= self.action_counter2 {
                    self.action_counter = 0;
                    self.action_num = 110;
                }
            },
            110 | 111 => {
                if self.action_num == 110 {
                    self.action_num = 111;
                    self.action_counter = 0;
                    self.vel_x = 0;
                    self.vel_y = 0;
                    self.npc_flags.set_shootable(false);
                }
                self.action_counter += 1;
                self.anim_num = if (self.action_counter & 1) != 0 {
                    5
                } else {
                    6
                };
                if self.action_counter > 30 {
                    self.action_counter3 += 1;
                    self.action_num = if self.action_counter3 % 3 == 0 {
                        113
                    } else {
                        112
                    };
                    self.action_counter = 0;
                    self.anim_num = 4;
                }
            },
            112 => {
                self.misery_bubbles_exec(state, players);
            },
            113 => {
                self.action_counter += 1;
                if self.action_counter == 10 {
                    let idx = self.get_closest_player_idx(players);
                    let p = players[idx];
                    NPC::spawn_at_exec(state, 279, p.x, p.y - 0x8000, Direction::Up);
                }
                if self.action_counter > 30 {
                    self.action_num = 150;
                    self.action_counter = 0;
                }
            },
            150 | 151 => {
                self.misery_teleport_exec(state, players);
            },
            160 | 161 => {
                self.misery_shooting_exec(state, players);
            },
            1000 | 1001 => {
                self.misery_defeated_exec(state);
            },
            1010 => {
                self.vel_y += 0x10;
                if self.flags.hit_bottom_wall() {
                    self.action_num = 1020;
                    self.anim_num = 8;
                }
            },
            _ => {},
        }
        self.vel_x = clamp_i32(self.vel_x, -0x200, 0x200);
        self.vel_y = clamp_i32(self.vel_y, -0x400, 0x400);
        self.x += self.vel_x;
        self.y += self.vel_y;
        self.anim_rect = if self.direction == Direction::Left {
            self.anim_num
        } else {
            self.anim_num + 9
        };
    }
    fn possessed_calm_exec(&mut self, state: &mut SharedGameState, p: &Player)
        requires
            npc_coord_ok(old(self).x),
            npc_coord_ok(old(self).y),
            npc_coord_ok(old(self).vel_x),
            npc_coord_ok(old(self).vel_y),
            old(self).action_num <= 1 || old(self).action_num == 10 || old(self).action_num == 20
                || old(self).action_num == 21,
            old(self).action_num <= 1 || old(self).action_num == 21 ==> old(self).action_counter < u16::MAX,
            old(self).action_num == 21 ==> old(self).anim_counter < u16::MAX,
            old(self).anim_num <= u16::MAX - 11,
        ensures
            (*final(self), final(state)@) == possessed_calm(*old(self), old(state)@, *p),
    {
        match self.action_num {
            0 | 1 => {
                if self.action_num == 0 {
                    self.action_num = 1;
                    self.y -= 0x1000;
                    state.play_sfx(29);
                }
                self.action_counter += 1;
                self.anim_num = if self.action_counter & 2 != 0 {
                    9
                } else {
                    0
                };
            },
            10 => {
                self.action_num = 11;
                self.anim_num = 9;
            },
            _ => {
                if self.action_num == 20 {
                    self.action_num = 21;
                    self.action_counter = 0;
                    self.anim_num = 0;
                    self.anim_counter = 0;
                    state.npc_super_pos.0 = 0;
                }
                self.vel_x = scale_i32(self.vel_x, 7, 8);
                self.vel_y = scale_i32(self.vel_y, 7, 8);
                self.animate(20, 0, 1);
                self.action_counter += 1;
                if self.action_counter > 100 {
                    self.action_num = 30;
                }
                self.direction = if p.x > self.x {
                    Direction::Right
                } else {
                    Direction::Left
                };
            },
        }
    }

    fn possessed_chase_exec(&mut self, state: &mut SharedGameState, p: &Player, core: &NPC)
        requires
            npc_coord_ok(old(self).vel_x),
            npc_coord_ok(old(self).vel_y),
            old(self).action_num == 30 || old(self).action_num == 31,
            old(self).action_num == 31 ==> old(self).action_counter < u16::MAX,
            old(self).anim_counter < u16::MAX,
            old(self).life <= u16::MAX - 20,
            old(self).anim_num < u16::MAX,
        ensures
            (*final(self), final(state)@) == possessed_chase(*old(self), old(state)@, *p, *core),
    {
        if self.action_num == 30 {
            self.action_num = 31;
            self.action_counter = 0;
            self.anim_num = 2;
            self.action_counter3 = self.life;
        }
        self.animate(1, 2, 3);
        if self.flags.hit_bottom_wall() {
            self.vel_y = -0x200;
        }
        self.vel_x += if self.x > core.x {
            -0x20
        } else {
            0x20
        };
        self.vel_y += if self.y > p.y {
            -0x10
        } else {
            0x10
        };
        self.vel_x = clamp_i32(self.vel_x, -0x200, 0x200);
        self.vel_y = clamp_i32(self.vel_y, -0x200, 0x200);
        self.face_player(p);
        self.action_counter += 1;
        if self.action_counter > 150 && (self.life + 20 < self.action_counter3 || state.npc_super_pos.0 != 0) {
            state.npc_super_pos.0 = 0;
            self.action_num = 40;
        }
        if core.anim_num != 0 && self.action_counter > 250 {
            self.action_num = 50;
        }
    }

    fn possessed_minion_exec(&mut self, state: &mut SharedGameState, w: usize, h: usize)
        requires
            npc_coord_ok(old(self).x),
            npc_coord_ok(old(self).y),
            4 <= w <= 0x1000,
            4 <= h <= 0x1000,
            1 <= old(state)@.tile_size <= 16,
        ensures
            (*final(self), final(state)@) == possessed_minion(*old(self), old(state)@, w, h),
    {
        state.play_sfx(39);
        let mut npc = state.create_npc(self.action_counter3);
        npc.cond.set_alive(true);
        let (rx, ry) = if self.action_counter3 == 289 {
            let rx = self.rng.range(-64..64);
            let ry = self.rng.range(-32..32);
            (rx, ry)
        } else {
            let rx = self.rng.range(-32..32);
            let ry = self.rng.range(-64..64);
            (rx, ry)
        };
        let ts = state.tile_size;
        assert(2 * ts * 0x200 <= (w - 2) * ts * 0x200 <= 0x1000 * 16 * 0x200) by (nonlinear_arith)
            requires
                4 <= w <= 0x1000,
                1 <= ts <= 16,
        ;
        assert(2 * ts * 0x200 <= (h - 2) * ts * 0x200 <= 0x1000 * 16 * 0x200) by (nonlinear_arith)
            requires
                4 <= h <= 0x1000,
                1 <= ts <= 16,
        ;
        npc.x = clamp_i32(self.x + rx * 0x200, 2 * ts * 0x200, (w as i32 - 2) * ts * 0x200);
        npc.y = clamp_i32(self.y + ry * 0x200, 2 * ts * 0x200, (h as i32 - 2) * ts * 0x200);
        state.spawn_npc(0x100, npc);
    }

    fn possessed_spell_exec(&mut self, state: &mut SharedGameState, p: &Player, w: usize, h: usize)
        requires
            npc_coord_ok(old(self).x),
            npc_coord_ok(old(self).y),
            old(self).action_num == 40 || old(self).action_num == 41,
            old(self).action_num == 41 ==> old(self).action_counter < u16::MAX,
            4 <= w <= 0x1000,
            4 <= h <= 0x1000,
            1 <= old(state)@.tile_size <= 16,
        ensures
            (*final(self), final(state)@) == possessed_spell(*old(self), old(state)@, *p, w, h),
    {
        if self.action_num == 40 {
            self.action_num = 41;
            self.action_counter = 0;
            self.vel_x = 0;
            self.vel_y = 0;
            state.play_sfx(103);
            self.face_player(p);
            self.action_counter3 = if p.y >= 0x14000 {
                289
            } else {
                290
            };
        }
        self.action_counter += 1;
        self.anim_num = if self.action_counter & 2 != 0 {
            4
        } else {
            5
        };
        if self.action_counter % 6 == 1 {
            self.possessed_minion_exec(state, w, h);
        }
        if self.action_counter > 50 {
            self.action_num = 42;
            self.action_counter = 0;
            self.face_player(p);
        }
    }

    fn possessed_ring_exec(&mut self, state: &mut SharedGameState, p: &Player)
        requires
            npc_coord_ok(old(self).x),
            old(self).action_num == 50 || old(self).action_num == 51,
            old(self).action_num == 51 ==> old(self).action_counter < u16::MAX,
            old(self).action_num == 51 ==> old(self).direction != Direction::FacingPlayer,
        ensures
            (*final(self), final(state)@) == possessed_ring(*old(self), old(state)@, *p),
    {
        if self.action_num == 50 {
            self.action_num = 51;
            self.action_counter = 0;
            self.vel_x = 0;
            self.vel_y = 0;
            self.face_player(p);
            state.play_sfx(103);
        }
        self.action_counter += 1;
        self.anim_num = if self.action_counter & 2 != 0 {
            4
        } else {
            5
        };
        let period: u16 = if p.equip & EQUIP_BOOSTER_2_0 != 0 {
            10
        } else {
            24
        };
        if self.action_counter % period == 1 {
            state.play_sfx(39);
            let mut npc = state.create_npc(301);
            npc.cond.set_alive(true);
            npc.x = self.x + 0x1400 * self.direction.opposite().vector_x();
            npc.y = self.y;
            let q = (self.action_counter / 6) % 4;
            let left = self.direction == Direction::Left;
            npc.tsc_direction = if left {
                if q == 0 {
                    0xd8
                } else if q == 1 {
                    0xec
                } else if q == 2 {
                    0x14
                } else {
                    0x28
                }
            } else {
                if q == 0 {
                    0x58
                } else if q == 1 {
                    0x6c
                } else if q == 2 {
                    0x94
                } else {
                    0xa8
                }
            };
            state.spawn_npc(0x100, npc);
        }
        if self.action_counter > 50 {
            self.action_num = 42;
            self.action_counter = 0;
            self.face_player(p);
        }
    }

    fn possessed_fall_exec(&mut self, core: &mut NPC)
        requires
            npc_coord_ok(old(self).vel_y),
            old(self).action_num == 99 || old(self).action_num == 100 || old(self).action_num == 101,
            old(self).action_num == 100 ==> (old(self).shock <= u16::MAX - 50 && old(core).anim_num
                < u16::MAX),
            old(self).action_num == 101 ==> old(self).hit_bounds.bottom <= 0x1000_0000,
        ensures
            (*final(self), *final(core)) == possessed_fall(*old(self), *old(core)),
    {
        if self.action_num == 99 {
            self.vel_x = 0;
            self.vel_y = 0;
            self.anim_num = 9;
            self.npc_flags.set_shootable(false);
        } else {
            if self.action_num == 100 {
                self.action_num = 101;
                self.anim_num = 9;
                self.damage = 0;
                self.npc_flags.set_shootable(false);
                self.npc_flags.set_ignore_solidity(true);
                self.vel_y = -0x200;
                self.shock += 50;
                self.hit_bounds.bottom = 0x1800;
                core.anim_num += 1;
            }
            self.vel_y += 0x20;
            let floor: i32 = 0x1b000 - self.hit_bounds.bottom as i32;
            if self.y > floor {
                self.y = floor;
                self.action_num = 102;
                self.anim_num = 10;
                self.vel_x = 0;
                self.vel_y = 0;
            }
        }
    }

    /// Misery possessed at the Core; see `misery_possessed_step`. `boss`
    /// is the Core, `stage` the map.
    #[verifier::rlimit(40)]
    pub fn tick_n283_misery_possessed(
        &mut self,
        state: &mut SharedGameState,
        players: &[Player; 2],
        boss: &mut BossNPC,
        stage: &Stage,
    )
        requires
            possessed_tickable(*old(self), *players, old(boss).parts[0], stage.width, stage.height, old(state)@.tile_size),
        ensures
            ({
                let (n, s, c) = misery_possessed_step(
                    *old(self),
                    old(state)@,
                    *players,
                    old(boss).parts[0],
                    stage.width,
                    stage.height,
                );
                &&& *final(self) == n
                &&& final(state)@ == s
                &&& final(boss).parts@ == old(boss).parts@.update(0, c)
                &&& final(boss).boss_type == old(boss).boss_type
                &&& final(boss).hurt_sound == old(boss).hurt_sound
                &&& final(boss).death_sound == old(boss).death_sound
            }),
    {
        let idx = self.get_closest_player_idx(players);
        let p = players[idx];
        let mut core = boss.parts[0];
        if self.action_num < 100 && (!core.cond.alive() || self.life < 400) {
            self.action_num = 100;
        }
        let k = self.action_num;
        if k <= 1 || k == 10 || k == 20 || k == 21 {
            self.possessed_calm_exec(state, &p);
        } else if k == 30 || k == 31 {
            self.possessed_chase_exec(state, &p, &core);
        } else if k == 40 || k == 41 {
            self.possessed_spell_exec(state, &p, stage.width, stage.height);
        } else if k == 42 {
            self.action_counter += 1;
            self.anim_num = 6;
            if self.action_counter > 50 {
                self.action_num = 30;
                self.vel_y = -0x200;
                self.vel_x = self.direction.opposite().vector_x() * 0x200;
            }
        } else if k == 50 || k == 51 {
            self.possessed_ring_exec(state, &p);
        } else if k == 99 || k == 100 || k == 101 {
            self.possessed_fall_exec(&mut core);
        }
        self.x += if self.shock > 0 {
            self.vel_x / 2
        } else {
            self.vel_x
        };
        self.y += self.vel_y;
        self.anim_rect = if self.direction == Direction::Left {
            self.anim_num
        } else {
            self.anim_num + 11
        };
        boss.parts[0] = core;
    }
}

impl NPC {
    fn misery_blink_exec(&mut self, open_frame: u16, shut_frame: u16, timed: bool)
        ensures
            *final(self) == misery_blink(*old(self), open_frame, shut_frame, timed),
    {
        let busy = if timed {
            self.action_counter != 0
        } else {
            self.anim_counter != 0
        };
        if busy {
            if timed {
                self.action_counter -= 1;
            } else {
                self.anim_counter -= 1;
            }
            self.anim_num = shut_frame;
        } else {
            if self.rng.range(0..100) == 1 {
                self.anim_counter = 30;
            }
            self.anim_num = open_frame;
        }
    }

    fn summon_bubble_exec(&mut self, state: &mut SharedGameState)
        requires
            npc_coord_ok(old(self).y),
            (old(self).action_num == 15 || old(self).action_num == 16),
            old(self).action_num == 16 ==> old(self).action_counter < u16::MAX,
        ensures
            (*final(self), final(state)@) == summon_bubble(*old(self), old(state)@),
    {
        if self.action_num == 15 {
            self.action_num = 16;
            self.action_counter = 0;
            self.anim_num = 4;
        }
        self.action_counter += 1;
        if self.action_counter == 30 {
            state.play_sfx(21);
            let mut npc = state.create_npc(66);
            npc.x = self.x;
            npc.y = self.y - 0x2000;
            npc.parent_id = self.id;
            npc.cond.set_alive(true);
            state.spawn_npc(0, npc);
        }
        if self.action_counter == 50 {
            self.action_num = 14;
        }
    }

    fn float_away_exec(&mut self)
        requires
            npc_coord_ok(old(self).vel_y),
            (old(self).action_num == 20 || old(self).action_num == 21),
        ensures
            *final(self) == float_away(*old(self)),
    {
        if self.action_num == 20 {
            self.action_num = 21;
            self.anim_num = 0;
            self.vel_y = 0;
            self.npc_flags.set_ignore_solidity(true);
        }
        self.vel_y -= 0x20;
        if self.y < -0x1000 {
            self.cond.set_alive(false);
        }
    }

    fn spell_flash_exec(&mut self, state: &mut SharedGameState)
        requires
            (old(self).action_num == 25 || old(self).action_num == 26),
            old(self).action_num == 26 ==> old(self).action_counter < u16::MAX,
            old(self).anim_num < u16::MAX,
        ensures
            (*final(self), final(state)@) == spell_flash(*old(self), old(state)@),
    {
        if self.action_num == 25 {
            self.action_num = 26;
            self.action_counter = 0;
            self.anim_num = 5;
            self.anim_counter = 0;
        }
        self.anim_num += 1;
        if self.anim_num > 7 {
            self.anim_num = 5;
        }
        self.action_counter += 1;
        if self.action_counter == 30 {
            self.action_num = 27;
            self.anim_num = 7;
            state.play_sfx(101);
            state.flash_blink = true;
        }
    }

    /// Misery standing in cutscenes; see `misery_standing_step`.
    pub fn tick_n082_misery_standing(&mut self, state: &mut SharedGameState)
        requires
            misery_standing_tickable(*old(self)),
        ensures
            (*final(self), final(state)@) == misery_standing_step(*old(self), old(state)@),
    {
        match self.action_num {
            0 | 1 => {
                if self.action_num == 0 {
                    self.action_num = 1;
                    self.anim_num = 2;
                }
                if self.rng.range(0..120) == 10 {
                    self.action_num = 2;
                    self.action_counter = 0;
                    self.anim_num = 3;
                }
            },
            2 => {
                self.action_counter += 1;
                if self.action_counter > 8 {
                    self.action_num = 1;
                    self.anim_num = 2;
                }
            },
            15 | 16 => {
                self.summon_bubble_exec(state);
            },
            20 | 21 => {
                self.float_away_exec();
            },
            25 | 26 => {
                self.spell_flash_exec(state);
            },
            27 => {
                self.action_counter += 1;
                if self.action_counter == 50 {
                    self.action_num = 0;
                    self.anim_num = 0;
                }
            },
            30 | 31 => {
                if self.action_num == 30 {
                    self.action_num = 31;
                    self.anim_num = 3;
                    self.anim_counter = 0;
                }
                self.anim_counter += 1;
                if self.anim_counter > 10 {
                    self.action_num = 32;
                    self.anim_num = 4;
                    self.anim_counter = 0;
                }
            },
            32 => {
                self.anim_counter += 1;
                if self.anim_counter > 100 {
                    self.action_num = 1;
                    self.anim_num = 2;
                }
            },
            40 | 41 => {
                if self.action_num == 40 {
                    self.action_num = 41;
                    self.action_counter = 0;
                }
                self.anim_num = 4;
                self.action_counter += 1;
                if self.action_counter == 30 || self.action_counter == 40 || self.action_counter == 50 {
                    state.play_sfx(33);
                    let mut npc = state.create_npc(11);
                    npc.x = self.x + 0x1000;
                    npc.y = self.y - 0x1000;
                    npc.vel_x = 0x600;
                    npc.vel_y = self.rng.range(-0x200..0);
                    npc.cond.set_alive(true);
                    state.spawn_npc(0x100, npc);
                }
                if self.action_counter > 50 {
                    self.action_num = 0;
                }
            },
            50 => {
                self.anim_num = 8;
            },
            _ => {},
        }
        self.x += self.vel_x;
        self.y += self.vel_y;
        if self.action_num == 11 {
            self.misery_blink_exec(0, 1, false);
        } else if self.action_num == 14 {
            self.misery_blink_exec(2, 3, true);
        }
        self.anim_rect = if self.direction == Direction::Left {
            self.anim_num
        } else {
            self.anim_num + 9
        };
    }
}

/// One tick of Misery floating (cutscenes): appearing with a sound and
/// trembling on the spot for 32 ticks (0, 1); bobbing about her height (10,
/// 11); falling to the floor (13); summoning a bubble (15); floating away
/// (20); a spell with a flash (25) that ends in the blinking pose (14);
/// then movement, the eye blinks of states 11 and 14, the frame
/// (right-facing frames start 8 in), and, while appearing, the count of
/// ticks her sprite has been growing in.
pub open spec fn misery_floating_step(n: NPC, st: StateView) -> (NPC, StateView) {
    let k = n.action_num;
    let (a, s) = if k == 0 || k == 1 {
        let (b, s0) = if k == 0 {
            (NPC { action_num: 1, anim_num: 0, target_x: n.x, target_y: n.y, ..n }, with_sound(st, 29))
        } else {
            (n, st)
        };
        let (r, m) = roll(b, -1i32, 1i32);
        let c = tick_counter(NPC { x: (m.target_x + r * 0x200) as i32, ..m });
        (if c.action_counter >= 32 { NPC { action_num: 10, ..c } } else { c }, s0)
    } else if k == 10 || k == 11 {
        let b = if k == 10 { NPC { action_num: 11, action_counter: 0, anim_num: 0, vel_y: 0x200, ..n } } else { n };
        let v1 = if b.target_y < b.y { b.vel_y - 0x10 } else { b.vel_y as int };
        let v2 = if b.target_y > b.y { v1 + 0x10 } else { v1 };
        (NPC { vel_y: clamp(v2, -0x100, 0x100) as i32, ..b }, st)
    } else if k == 13 {
        let vy0 = n.vel_y + 0x40;
        let b = NPC { anim_num: 1, vel_y: if vy0 > 0x5ff { 0x5ffi32 } else { vy0 as i32 }, ..n };
        if b.flags.0 & FLAG_HIT_BOTTOM_WALL != 0 {
            (NPC { vel_y: 0, action_num: 14, anim_num: 2, ..ignoring_solidity(b, true) }, with_sound(st, 23))
        } else {
            (b, st)
        }
    } else if k == 15 || k == 16 {
        summon_bubble(n, st)
    } else if k == 20 || k == 21 {
        (float_away(n), st)
    } else if k == 25 || k == 26 {
        spell_flash(n, st)
    } else if k == 27 {
        let c = tick_counter(n);
        (if c.action_counter == 50 { NPC { action_num: 14, ..c } } else { c }, st)
    } else {
        (n, st)
    };
    let m = NPC { x: (a.x + a.vel_x) as i32, y: (a.y + a.vel_y) as i32, ..a };
    let b = if m.action_num == 11 {
        misery_blink(m, 0, 1, false)
    } else if m.action_num == 14 {
        misery_blink(m, 2, 3, false)
    } else {
        m
    };
    let f = NPC { anim_rect: dir_frame(b, 8), ..b };
    (if f.action_num == 1 && f.anim_counter < 32 { NPC { anim_counter: (f.anim_counter + 1) as u16, ..f } } else { f }, s)
}

/// Inputs a tick of floating Misery computes in range on.
pub open spec fn misery_floating_tickable(n: NPC) -> bool {
    let k = n.action_num;
    &&& npc_coord_ok(n.x)
    &&& npc_coord_ok(n.y)
    &&& npc_coord_ok(n.vel_x)
    &&& npc_coord_ok(n.vel_y)
    &&& k == 1 ==> npc_coord_ok(n.target_x)
    &&& (k == 0 || k == 1 || k == 16 || k == 26 || k == 27) ==> n.action_counter < u16::MAX
    &&& n.anim_num <= u16::MAX - 8
}

impl NPC {
    /// Misery floating in cutscenes; see `misery_floating_step`.
    pub fn tick_n067_misery_floating(&mut self, state: &mut SharedGameState)
        requires
            misery_floating_tickable(*old(self)),
        ensures
            (*final(self), final(state)@) == misery_floating_step(*old(self), old(state)@),
    {
        match self.action_num {
            0 | 1 => {
                if self.action_num == 0 {
                    self.action_num = 1;
                    self.anim_num = 0;
                    self.target_x = self.x;
                    self.target_y = self.y;
                    state.play_sfx(29);
                }
                self.x = self.target_x + self.rng.range(-1..1) * 0x200;
                self.action_counter += 1;
                if self.action_counter >= 32 {
                    self.action_num = 10;
                }
            },
            10 | 11 => {
                if self.action_num == 10 {
                    self.action_num = 11;
                    self.action_counter = 0;
                    self.anim_num = 0;
                    self.vel_y = 0x200;
                }
                if self.target_y < self.y {
                    self.vel_y -= 0x10;
                }
                if self.target_y > self.y {
                    self.vel_y += 0x10;
                }
                self.vel_y = clamp_i32(self.vel_y, -0x100, 0x100);
            },
            13 => {
                self.anim_num = 1;
                self.vel_y += 0x40;
                self.clamp_fall_speed();
                if self.flags.hit_bottom_wall() {
                    state.play_sfx(23);
                    self.vel_y = 0;
                    self.action_num = 14;
                    self.npc_flags.set_ignore_solidity(true);
                    self.anim_num = 2;
                }
            },
            15 | 16 => {
                self.summon_bubble_exec(state);
            },
            20 | 21 => {
                self.float_away_exec();
            },
            25 | 26 => {
                self.spell_flash_exec(state);
            },
            27 => {
                self.action_counter += 1;
                if self.action_counter == 50 {
                    self.action_num = 14;
                }
            },
            _ => {},
        }
        self.x += self.vel_x;
        self.y += self.vel_y;
        if self.action_num == 11 {
            self.misery_blink_exec(0, 1, false);
        } else if self.action_num == 14 {
            self.misery_blink_exec(2, 3, false);
        }
        self.anim_rect = if self.direction == Direction::Left {
            self.anim_num
        } else {
            self.anim_num + 8
        };
        if self.action_num == 1 && self.anim_counter < 32 {
            self.anim_counter += 1;
        }
    }
}

/// One tick of the afterimage Misery leaves as she vanishes: it flies off
/// 2 pixels a tick the way it faces and is gone after 9 ticks; the frame
/// by its facing.
pub open spec fn afterimage_step(n: NPC) -> NPC {
    let c2 = (n.action_counter2 + 1) as u16;
    let a = NPC { action_counter2: c2, cond: if c2 > 8 { crate::npc::Condition(with_bits16(n.cond.0, COND_ALIVE, false)) } else { n.cond }, ..n };
    if a.direction == Direction::Left {
        NPC { x: (a.x - 0x400) as i32, anim_rect: 0, ..a }
    } else {
        NPC { x: (a.x + 0x400) as i32, anim_rect: 1, ..a }
    }
}

/// One tick of Misery's lightning ball: floating after the player, bobbing
/// about its height, until it is right above them (0, 1); then it
/// crackles for 10 ticks and strikes, becoming a bolt of lightning (type
/// 251) with a sound (10, 11); the frame.
pub open spec fn lightning_ball_step(n: NPC, st: StateView, players: [Player; 2]) -> (NPC, StateView) {
    let k = n.action_num;
    if k == 0 || k == 1 {
        let b = if k == 0 { NPC { action_num: 1, target_y: n.y, vel_x: 0, vel_y: -0x200i32, ..n } } else { n };
        let p = players[closest_player(b.x, b.y, players) as int];
        let vx = clamp(b.vel_x + if b.x < p.x { 0x10int } else { -0x10int }, -0x200, 0x200);
        let vy = clamp(b.vel_y + if b.y < b.target_y { 0x20int } else { -0x20int }, -0x200, 0x200);
        let a = spec_animate(NPC { vel_x: vx as i32, vel_y: vy as i32, x: (b.x + vx) as i32, y: (b.y + vy) as i32, ..b }, 2, 0, 1);
        let c = if p.x > a.x - 0x1000 && p.x < a.x + 0x1000 && p.y > a.y { NPC { action_num: 10, ..a } } else { a };
        (NPC { anim_rect: c.anim_num, ..c }, st)
    } else if k == 10 || k == 11 {
        let c = tick_counter(if k == 10 { NPC { action_num: 11, action_counter: 0, ..n } } else { n });
        if c.action_counter > 10 {
            (
                NPC { cond: crate::npc::Condition(with_bits16(c.cond.0, COND_ALIVE, false)), ..c },
                with_sound(with_spawn(st, 0x100, NPC { x: c.x, y: c.y, ..set_alive_spec(table_npc(251, st.npc_table), true) }), 101),
            )
        } else {
            let a = NPC { anim_num: if c.action_counter & 2 != 0 { 2 } else { 1 }, ..c };
            (NPC { anim_rect: a.anim_num, ..a }, st)
        }
    } else {
        (NPC { anim_rect: n.anim_num, ..n }, st)
    }
}

/// Inputs a tick of the lightning ball computes in range on.
pub open spec fn lightning_ball_tickable(n: NPC, players: [Player; 2]) -> bool {
    let k = n.action_num;
    &&& npc_coord_ok(n.x)
    &&& npc_coord_ok(n.y)
    &&& npc_coord_ok(n.vel_x)
    &&& npc_coord_ok(n.vel_y)
    &&& npc_coord_ok(players[0].x)
    &&& npc_coord_ok(players[0].y)
    &&& npc_coord_ok(players[1].x)
    &&& npc_coord_ok(players[1].y)
    &&& (k == 0 || k == 1) ==> n.anim_counter < u16::MAX && n.anim_num < u16::MAX
    &&& k == 11 ==> n.action_counter < u16::MAX
}

impl NPC {
    /// Misery's afterimage as she vanishes; see `afterimage_step`.
    pub fn tick_n249_misery_boss_appearing(&mut self)
        requires
            old(self).action_counter2 < u16::MAX,
            npc_coord_ok(old(self).x),
        ensures
            *final(self) == afterimage_step(*old(self)),
    {
        self.action_counter2 += 1;
        if self.action_counter2 > 8 {
            self.cond.set_alive(false);
        }
        if self.direction == Direction::Left {
            self.x -= 0x400;
            self.anim_rect = 0;
        } else {
            self.x += 0x400;
            self.anim_rect = 1;
        }
    }

    /// Misery's lightning ball; see `lightning_ball_step`.
    pub fn tick_n250_misery_boss_lightning_ball(&mut self, state: &mut SharedGameState, players: &[Player; 2])
        requires
            lightning_ball_tickable(*old(self), *players),
        ensures
            (*final(self), final(state)@) == lightning_ball_step(*old(self), old(state)@, *players),
    {
        match self.action_num {
            0 | 1 => {
                if self.action_num == 0 {
                    self.action_num = 1;
                    self.target_y = self.y;
                    self.vel_x = 0;
                    self.vel_y = -0x200;
                }
                let p = players[self.get_closest_player_idx(players)];
                self.vel_x += if self.x < p.x {
                    0x10
                } else {
                    -0x10
                };
                self.vel_y += if self.y < self.target_y {
                    0x20
                } else {
                    -0x20
                };
                self.vel_x = clamp_i32(self.vel_x, -0x200, 0x200);
                self.vel_y = clamp_i32(self.vel_y, -0x200, 0x200);
                self.x += self.vel_x;
                self.y += self.vel_y;
                self.animate(2, 0, 1);
                if p.x > self.x - 0x1000 && p.x < self.x + 0x1000 && p.y > self.y {
                    self.action_num = 10;
                }
            },
            10 | 11 => {
                if self.action_num == 10 {
                    self.action_num = 11;
                    self.action_counter = 0;
                }
                self.action_counter += 1;
                if self.action_counter > 10 {
                    let mut npc = state.create_npc(251);
                    npc.cond.set_alive(true);
                    npc.x = self.x;
                    npc.y = self.y;
                    state.spawn_npc(0x100, npc);
                    state.play_sfx(101);
                    self.cond.set_alive(false);
                    return;
                }
                self.anim_num = if (self.action_counter & 2) != 0 {
                    2
                } else {
                    1
                };
            },
            _ => {},
        }
        self.anim_rect = self.anim_num;
    }
}

} // verus!
