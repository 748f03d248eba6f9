//! The Core: the boss of the Labyrinth's end. Part 0 is the body, 4 its
//! face and 5 its tail, 1 to 3 and 6 and 7 the small heads around it, 8
//! to 11 its hit boxes; part 19 counts the flashes while it is hurt.

use vstd::prelude::*;

use crate::common::Direction;
use crate::game_state::{
    with_aim, with_sound, with_sound_loop, with_sound_stop, with_spawn, SharedGameState, StateView,
};
use crate::npc::ai::doctor::with_npc_flag;
use crate::npc::ai::mimiga_village::{guarded, ignoring_solidity};
use crate::npc::ai::misery::{clamp, clamp_i32, shootable, tick_counter};
use crate::npc::ai::{npc_coord_ok, trunc_div};
use crate::npc::boss::BossNPC;
use crate::stage::Stage;
use crate::npc::{
    closest_player, roll, set_alive_spec, table_npc, with_bits16, Condition, NPCFlag, Player, Rect,
    COND_DAMAGE_BOSS, COND_INCREASE_ACCELERATION, NPC, NPC_EVENT_WHEN_KILLED, NPC_IGNORE_SOLIDITY,
    NPC_INVULNERABLE, NPC_SHOOTABLE, NPC_SHOW_DAMAGE,
};

verus! {

/// An alive entity of type `t` at `(x, y)`.
pub open spec fn fresh(st: StateView, t: u16, x: int, y: int) -> NPC {
    NPC { x: x as i32, y: y as i32, ..set_alive_spec(table_npc(t, st.npc_table), true) }
}

pub open spec fn set_anim(ps: Seq<NPC>, i: int, a: u16) -> Seq<NPC> {
    ps.update(i, NPC { anim_num: a, ..ps[i] })
}

pub open spec fn set_action(ps: Seq<NPC>, i: int, a: u16) -> Seq<NPC> {
    ps.update(i, NPC { action_num: a, ..ps[i] })
}

pub open spec fn placed(n: NPC, x: int, y: int) -> NPC {
    NPC { x: x as i32, y: y as i32, ..n }
}

/// The shape the hit boxes share before each is sized.
pub open spec fn hitbox_template(n: NPC) -> NPC {
    NPC {
        npc_flags: NPCFlag(with_bits16(with_bits16(0, NPC_IGNORE_SOLIDITY, true), NPC_INVULNERABLE, true)),
        display_bounds: Rect { left: 0, top: 0, ..n.display_bounds },
        hit_bounds: Rect { right: 0x5000, top: 0x2000, bottom: 0x2000, ..n.hit_bounds },
        action_counter2: 0,
        ..set_alive_spec(n, true)
    }
}

pub open spec fn hitbox_shape(t: NPC, right: u32, height: u32, k: u16) -> NPC {
    NPC { hit_bounds: Rect { right, top: height, bottom: height, ..t.hit_bounds }, action_counter2: k, ..t }
}

/// The small head the others are copied from, above and behind the body.
pub open spec fn head_template(n: NPC, body: NPC) -> NPC {
    NPC {
        action_num: 10,
        life: 1000,
        hit_bounds: Rect { right: 0x3000, top: 0x2000, bottom: 0x2000, ..n.hit_bounds },
        display_bounds: Rect { top: 0x2800, left: 0x4000, ..n.display_bounds },
        x: (body.x - 0x1000) as i32,
        y: (body.y - 0x8000) as i32,
        ..guarded(ignoring_solidity(shootable(set_alive_spec(n, true), true), true), true)
    }
}

/// State 0: the Core and its parts put in place.
pub open spec fn core_setup(ps: Seq<NPC>, hurt: Seq<u8>) -> (Seq<NPC>, Seq<u8>) {
    let body = NPC {
        action_num: 10,
        exp: 1,
        npc_flags: NPCFlag(
            with_bits16(
                with_bits16(with_bits16(with_bits16(0, NPC_SHOW_DAMAGE, true), NPC_EVENT_WHEN_KILLED, true), NPC_IGNORE_SOLIDITY, true),
                NPC_INVULNERABLE,
                true,
            ),
        ),
        life: 650,
        x: 0x9a000,
        y: 0x1c000,
        vel_x: 0,
        vel_y: 0,
        event_num: 1000,
        ..set_alive_spec(ps[0], true)
    };
    let hb = hitbox_template(ps[8]);
    let head = head_template(ps[1], body);
    let q = ps.update(0, body).update(4, NPC { action_num: 10, ..set_alive_spec(ps[4], true) }).update(
        5,
        NPC { action_num: 10, ..set_alive_spec(ps[5], true) },
    ).update(8, hb).update(9, hitbox_shape(hb, 0x4800, 0x3000, 1)).update(10, hitbox_shape(hb, 0x5800, 0x1000, 2)).update(
        11,
        NPC { cond: Condition(with_bits16(hb.cond.0, COND_DAMAGE_BOSS, true)), ..hitbox_shape(hb, 0x2800, 0x2800, 3) },
    ).update(1, head).update(2, placed(head, body.x + 0x2000, body.y as int)).update(
        3,
        placed(head, body.x - 0x1000, body.y + 0x8000),
    ).update(6, placed(head, body.x - 0x6000, body.y - 0x4000)).update(7, placed(head, body.x - 0x6000, body.y + 0x4000));
    (Seq::new(q.len(), |i: int| NPC { prev_x: q[i].x, prev_y: q[i].y, ..q[i] }), hurt.update(0, 114).update(1, 54))
}

/// The face and tail flicker while the body is hurt, counted in part 19.
pub open spec fn core_flash(ps: Seq<NPC>) -> Seq<NPC> {
    if ps[0].shock > 0 {
        let fc = (ps[19].action_counter3 + 1) as u16;
        let a: u16 = if fc & 2 != 0 { 0 } else { 1 };
        set_anim(set_anim(ps.update(19, NPC { action_counter3: fc, ..ps[19] }), 4, a), 5, a)
    } else {
        set_anim(set_anim(ps, 4, 0), 5, 0)
    }
}

/// The mouth closing after an attack phase: back to state 200.
pub open spec fn core_close(ps: Seq<NPC>, body: NPC) -> Seq<NPC> {
    set_anim(set_anim(ps.update(0, NPC { action_num: 200, ..body }), 4, 2), 5, 0)
}

/// States 200 and 201: closed, drifting after the player; after 400 ticks
/// it opens, three times out of four to shoot wisps (210), else to pull
/// the player towards it (220).
pub open spec fn core_closed(ps: Seq<NPC>, st: StateView, players: [Player; 2]) -> (Seq<NPC>, StateView, bool) {
    let c = ps[0];
    let (q, s) = if c.action_num == 200 {
        (
            ps.update(0, NPC { action_num: 201, action_counter: 0, ..c }).update(11, shootable(ps[11], false)),
            with_sound_stop(
                with_sound_stop(with_sound_stop(StateView { npc_super_pos: (st.npc_super_pos.0, 0i32), ..st }, 40), 41),
                58,
            ),
        )
    } else {
        (ps, st)
    };
    let p = players[closest_player(c.x, c.y, players) as int];
    let a = tick_counter(NPC { target_x: p.x, target_y: p.y, ..q[0] });
    if a.action_counter > 400 {
        let c2 = (a.action_counter2 + 1) as u16;
        let b = if c2 < 4 {
            NPC { action_counter2: c2, action_num: 210, ..a }
        } else {
            NPC { action_counter2: 0, action_num: 220, ..a }
        };
        (set_anim(set_anim(q.update(0, b), 4, 0), 5, 0), with_sound(s, 115), true)
    } else {
        (q.update(0, a), s, false)
    }
}

/// States 210 and 211: open, shooting wisps (type 179) from its mouth for
/// 200 ticks and telling Curly where to aim; it closes after 400 ticks or
/// once hurt by 200.
pub open spec fn core_wisps(ps: Seq<NPC>, st: StateView, players: [Player; 2]) -> (Seq<NPC>, StateView, bool) {
    let c = ps[0];
    let q = if c.action_num == 210 {
        ps.update(0, NPC { action_num: 211, action_counter: 0, action_counter3: c.life, ..c }).update(
            11,
            shootable(ps[11], true),
        )
    } else {
        ps
    };
    let p = players[closest_player(c.x, c.y, players) as int];
    let q1 = core_flash(q.update(0, NPC { target_x: p.x, target_y: p.y, ..q[0] }));
    let a = tick_counter(q1[0]);
    let (a2, s) = if a.action_counter % 100 == 1 {
        let (r, m) = roll(a, 80i32, 100i32);
        (m, StateView { npc_curly_counter: r as u16, npc_curly_target: (q1[11].x, q1[11].y), ..st })
    } else {
        (a, st)
    };
    let (a3, s2) = if a2.action_counter < 200 && a2.action_counter % 20 == 1 {
        let (rx, m1) = roll(a2, -48i32, -16i32);
        let (ry, m2) = roll(m1, -64i32, 64i32);
        (m2, with_spawn(s, 0x100, fresh(s, 179, a2.x + rx * 0x200, a2.y + ry * 0x200)))
    } else {
        (a2, s)
    };
    if a3.action_counter > 400 || (a3.life as int) < a3.action_counter3 as int - 200 {
        (core_close(q1, a3), s2, true)
    } else {
        (q1.update(0, a3), s2, false)
    }
}

/// A player pulled towards the Core by its current.
pub open spec fn pulled(p: Player) -> Player {
    Player {
        vel_x: (p.vel_x - 0x20) as i32,
        cond: Condition(with_bits16(p.cond.0, COND_INCREASE_ACCELERATION, true)),
        ..p
    }
}

/// States 220 and 221: open with a roaring current that pulls both players
/// towards it and fills the room with bubbles (type 199); giant balls
/// (218) at the player at ticks 300, 350 and 400; closed after 400.
pub open spec fn core_current(ps: Seq<NPC>, st: StateView, players: [Player; 2]) -> (
    Seq<NPC>,
    StateView,
    (Player, Player),
    bool,
) {
    let c = ps[0];
    let (q, s) = if c.action_num == 220 {
        (
            ps.update(0, NPC { action_num: 221, action_counter: 0, ..c }).update(11, shootable(ps[11], true)),
            StateView {
                quake_counter: 100,
                quake_rumble_counter: 100,
                npc_super_pos: (st.npc_super_pos.0, 1i32),
                ..with_sound_loop(with_sound_loop(st, 40, 1000), 41, 1100)
            },
        )
    } else {
        (ps, st)
    };
    let a = tick_counter(q[0]);
    let p = players[closest_player(c.x, c.y, players) as int];
    let (rx, m1) = roll(a, -50i32, 150i32);
    let (ry, m2) = roll(m1, -160i32, 160i32);
    let s1 = with_spawn(s, 0x100, fresh(s, 199, p.x + rx * 0x400, p.y + ry * 0x200));
    let pl = (pulled(players[0]), pulled(players[1]));
    let q1 = core_flash(q.update(0, m2));
    let b = q1[0];
    if b.action_counter == 300 || b.action_counter == 350 || b.action_counter == 400 {
        let s2 = with_spawn(with_sound(s1, 101), 0x100, fresh(s1, 218, b.x - 0x5000, b.y as int));
        (q1, with_aim(s2, (b.x - p.x) as i32, (b.y - p.y) as i32, 0, 1536), pl, false)
    } else if b.action_counter > 400 {
        (core_close(q1, b), s1, pl, true)
    } else {
        (q1, s1, pl, false)
    }
}

/// A puff of smoke (type 4) from within `sx` pixels sideways and `sy`
/// upright of the body.
pub open spec fn core_puff(c: NPC, st: StateView, sx: i32, sy: i32) -> (NPC, StateView) {
    let (rx, a) = roll(c, (-sx) as i32, sx);
    let (ry, b) = roll(a, (-sy) as i32, sy);
    let (vx, d) = roll(b, -0x80i32, 0x80i32);
    let (vy, e) = roll(d, -0x80i32, 0x80i32);
    (
        e,
        with_spawn(
            st,
            0x100,
            NPC { vel_x: (vx * 0x200) as i32, vel_y: (vy * 0x200) as i32, ..fresh(st, 4, c.x + rx * 0x200, c.y + ry * 0x200) },
        ),
    )
}

pub open spec fn core_puffs(c: NPC, st: StateView, k: nat) -> (NPC, StateView)
    decreases k,
{
    if k == 0 {
        (c, st)
    } else {
        let (m, s) = core_puffs(c, st, (k - 1) as nat);
        core_puff(m, s, 0x80, 0x40)
    }
}

/// Parts 0 to 11 neither invulnerable nor shootable.
pub open spec fn disarmed(ps: Seq<NPC>) -> Seq<NPC> {
    Seq::new(ps.len(), |i: int| if i < 12 { shootable(guarded(ps[i], false), false) } else { ps[i] })
}

/// States 500 and 501: defeated, it shakes, drifts to the middle of the
/// room and smokes; the small heads fly off (200).
pub open spec fn core_defeated(ps: Seq<NPC>, st: StateView) -> (Seq<NPC>, StateView) {
    let (q, s) = if ps[0].action_num == 500 { core_defeat_start(ps, st) } else { (ps, st) };
    let a = tick_counter(q[0]);
    let (b, s2) = if a.action_counter & 0x0f != 0 { core_puff(a, s, 0x40, 0x20) } else { (a, s) };
    let x1 = b.x + if b.action_counter & 0x02 == 0 { 0x200int } else { -0x200int };
    let x2 = x1 + if x1 < 0x7e000 { 0x80int } else { -0x80int };
    let y2 = b.y + if b.y < 0x16000 { 0x80int } else { -0x80int };
    (q.update(0, NPC { x: x2 as i32, y: y2 as i32, ..b }), s2)
}

/// The moment of defeat: the mouth shut, the heads sent off, a quake, the
/// roar stopped, 32 puffs of smoke, and nothing left to hurt or guard.
pub open spec fn core_defeat_start(ps: Seq<NPC>, st: StateView) -> (Seq<NPC>, StateView) {
    let c = ps[0];
    {
        let a = NPC { action_num: 501, action_counter: 0, vel_x: 0, vel_y: 0, ..c };
        let q0 = set_action(
            set_action(set_action(set_action(set_action(set_anim(set_anim(ps, 4, 2), 5, 0), 1, 200), 2, 200), 3, 200), 6, 200),
            7,
            200,
        );
        let s0 = with_sound_stop(
            with_sound_stop(with_sound_stop(StateView { quake_counter: 20, quake_rumble_counter: 20, ..st }, 40), 41),
            58,
        );
        let (m, s1) = core_puffs(a, s0, 32);
        (disarmed(q0.update(0, m)), s1)
    }
}

/// States 600 and 601: the face and tail crumble away and the hit boxes
/// can be hurt; the body shakes.
pub open spec fn core_crumbling(ps: Seq<NPC>) -> Seq<NPC> {
    let c = ps[0];
    let q = if c.action_num == 600 {
        let q0 = set_action(set_action(ps.update(0, NPC { action_num: 601, ..c }), 4, 50), 5, 50);
        q0.update(8, guarded(q0[8], false)).update(9, guarded(q0[9], false)).update(10, guarded(q0[10], false)).update(
            11,
            guarded(q0[11], false),
        )
    } else {
        ps
    };
    let a = tick_counter(q[0]);
    q.update(0, NPC { x: (a.x + if a.action_counter & 2 == 0 { 0x800int } else { -0x800int }) as i32, ..a })
}

/// The body's state step; the flag says that the mouth slammed shut.
#[verifier::opaque]
pub open spec fn core_action(ps: Seq<NPC>, hurt: Seq<u8>, st: StateView, players: [Player; 2]) -> (
    Seq<NPC>,
    Seq<u8>,
    StateView,
    (Player, Player),
    bool,
) {
    let k = ps[0].action_num;
    let pl = (players[0], players[1]);
    if k == 0 {
        let (q, h) = core_setup(ps, hurt);
        (q, h, st, pl, false)
    } else if k == 200 || k == 201 {
        let (q, s, f) = core_closed(ps, st, players);
        (q, hurt, s, pl, f)
    } else if k == 210 || k == 211 {
        let (q, s, f) = core_wisps(ps, st, players);
        (q, hurt, s, pl, f)
    } else if k == 220 || k == 221 {
        let (q, s, p, f) = core_current(ps, st, players);
        (q, hurt, s, p, f)
    } else if k == 500 || k == 501 {
        let (q, s) = core_defeated(ps, st);
        (q, hurt, s, pl, false)
    } else if k == 600 || k == 601 {
        (core_crumbling(ps), hurt, st, pl, false)
    } else {
        (ps, hurt, st, pl, false)
    }
}

/// A chip of the mouth (type 4) thrown from the face as it slams shut.
pub open spec fn core_chip(c: NPC, face: NPC, st: StateView) -> (NPC, StateView) {
    let (rx, a) = roll(c, -32i32, 16i32);
    let (vx, b) = roll(a, -0x200i32, 0x200i32);
    let (vy, d) = roll(b, -0x100i32, 0x100i32);
    (d, with_spawn(st, 0x100, NPC { vel_x: vx, vel_y: vy, ..fresh(st, 4, face.x + rx * 0x200, face.y as int) }))
}

pub open spec fn core_chips(c: NPC, face: NPC, st: StateView, k: nat) -> (NPC, StateView)
    decreases k,
{
    if k == 0 {
        (c, st)
    } else {
        let (m, s) = core_chips(c, face, st, (k - 1) as nat);
        core_chip(m, face, s)
    }
}

/// The mouth slamming shut: a quake, eight chips, and the small heads
/// sent out (100).
pub open spec fn core_slam(ps: Seq<NPC>, st: StateView) -> (Seq<NPC>, StateView) {
    let s = with_sound(StateView { quake_counter: 20, quake_rumble_counter: 20, ..st }, 26);
    let q = set_action(set_action(set_action(set_action(set_action(ps, 1, 100), 2, 100), 3, 100), 6, 100), 7, 100);
    let (m, s2) = core_chips(q[0], q[4], s, 8);
    (q.update(0, m), s2)
}

/// While fighting (200 to 299): a small head sent to attack at ticks 80,
/// 110, 140, 170 and 200; the body steered 160 pixels ahead of its target.
pub open spec fn core_steer(ps: Seq<NPC>) -> Seq<NPC> {
    let c = ps[0];
    if 200 <= c.action_num < 300 {
        let t = c.action_counter;
        let q = if t == 80 {
            set_action(ps, 1, 120)
        } else if t == 110 {
            set_action(ps, 2, 120)
        } else if t == 140 {
            set_action(ps, 3, 120)
        } else if t == 170 {
            set_action(ps, 6, 120)
        } else if t == 200 {
            set_action(ps, 7, 120)
        } else {
            ps
        };
        let vx1 = c.vel_x + if c.x < c.target_x + 0x14000 { 4int } else { 0int };
        let vx2 = vx1 - if c.x > c.target_x + 0x14000 { 4int } else { 0int };
        let vy1 = c.vel_y + if c.y < c.target_y { 4int } else { 0int };
        let vy2 = vy1 - if c.y > c.target_y { 4int } else { 0int };
        q.update(0, NPC { vel_x: vx2 as i32, vel_y: vy2 as i32, ..c })
    } else {
        ps
    }
}

/// The body's movement, at most a quarter pixel a tick each way.
pub open spec fn core_drift(c: NPC) -> NPC {
    let vx = clamp(c.vel_x as int, -0x80, 0x80);
    let vy = clamp(c.vel_y as int, -0x80, 0x80);
    NPC { vel_x: vx as i32, vel_y: vy as i32, x: (c.x + vx) as i32, y: (c.y + vy) as i32, ..c }
}

/// The face (part 4) or tail (part 5) following the body at `dx`; when
/// crumbling (50) it shrinks over 112 ticks into its broken frame.
pub open spec fn core_end_part(part: NPC, body: NPC, dx: int, frame: u16, broken: u16, left: u32, rect: u16) -> NPC {
    let k = part.action_num;
    let a = if k == 10 || k == 11 {
        let b = if k == 10 {
            NPC {
                action_num: 11,
                anim_num: frame,
                display_bounds: Rect { left, top: 0x7000, ..part.display_bounds },
                ..ignoring_solidity(part, true)
            }
        } else {
            part
        };
        NPC { x: (body.x + dx) as i32, y: body.y, ..b }
    } else if k == 50 || k == 51 {
        let b = if k == 50 { NPC { action_num: 51, action_counter: 112, ..part } } else { part };
        let cnt = (b.action_counter - 1) as u16;
        let d = if cnt == 0 {
            NPC { action_counter: cnt, action_num: 100, anim_num: broken, ..b }
        } else {
            NPC { action_counter: cnt, ..b }
        };
        NPC { x: (body.x + dx) as i32, y: body.y, ..d }
    } else if k == 100 {
        NPC { anim_num: broken, ..part }
    } else {
        part
    };
    NPC { anim_rect: (rect + a.anim_num) as u16, ..a }
}

/// A sixteenth of the way to the head's target.
pub open spec fn approach(n: NPC) -> NPC {
    NPC {
        x: (n.x + trunc_div(n.target_x - n.x, 16)) as i32,
        y: (n.y + trunc_div(n.target_y - n.y, 16)) as i32,
        ..n
    }
}

/// One tick of a small head, with the body `base` (whose generator places
/// it when it is sent out): idle (10), sent out near the body (100), a
/// flicker (120), a lunge ahead firing two blades (type 178) at the player
/// (130), drifting (140), and flying off to the right when the Core is
/// beaten (200). Hurt heads are pushed back 2 pixels.
pub open spec fn core_head(part: NPC, base: NPC, st: StateView, players: [Player; 2], w: usize) -> (NPC, NPC, StateView) {
    let p0 = NPC { life: 1000, ..part };
    let k = p0.action_num;
    let (a, b, s) = if k == 10 {
        (NPC { anim_num: 2, ..shootable(p0, false) }, base, st)
    } else if k == 100 || k == 101 {
        let (q, b2) = if k == 100 {
            let (rx, m1) = roll(base, -128i32, 32i32);
            let (ry, m2) = roll(m1, -64i32, 64i32);
            (
                NPC {
                    action_num: 101,
                    anim_num: 2,
                    action_counter: 0,
                    target_x: (base.x + rx * 0x200) as i32,
                    target_y: (base.y + ry * 0x200) as i32,
                    ..shootable(p0, true)
                },
                m2,
            )
        } else {
            (p0, base)
        };
        let c = tick_counter(approach(q));
        (if c.action_counter > 50 { NPC { anim_num: 0, ..c } } else { c }, b2, st)
    } else if k == 120 || k == 121 {
        let q = if k == 120 { NPC { action_num: 121, action_counter: 0, ..p0 } } else { p0 };
        let c = tick_counter(q);
        let d = NPC { anim_num: if (c.action_counter / 2) & 1 != 0 { 0 } else { 1 }, ..c };
        (if d.action_counter > 20 { NPC { action_num: 130, ..d } } else { d }, base, st)
    } else if k == 130 || k == 131 {
        let q = if k == 130 {
            let (rx, m1) = roll(p0, 24i32, 48i32);
            let (ry, m2) = roll(m1, -4i32, 4i32);
            NPC {
                action_num: 131,
                anim_num: 2,
                action_counter: 0,
                target_x: (p0.x + rx * 0x200) as i32,
                target_y: (p0.y + ry * 0x200) as i32,
                ..m2
            }
        } else {
            p0
        };
        let c = tick_counter(approach(q));
        let d = if c.action_counter > 50 { NPC { action_num: 140, anim_num: 0, ..c } } else { c };
        if d.action_counter == 1 || d.action_counter == 3 {
            let p = players[closest_player(d.x, d.y, players) as int];
            let (j, e) = roll(d, -2i32, 2i32);
            let s1 = with_aim(with_spawn(st, 0x100, fresh(st, 178, d.x as int, d.y as int)), (d.x - p.x) as i32, (d.y - p.y) as i32, j, 1024);
            (e, base, with_sound(s1, 39))
        } else {
            (d, base, st)
        }
    } else if k == 140 {
        (approach(p0), base, st)
    } else if k == 200 || k == 201 {
        let q = if k == 200 { NPC { action_num: 201, anim_num: 2, vel_x: 0, vel_y: 0, ..p0 } } else { p0 };
        let v = q.vel_x + 32;
        let m = NPC { vel_x: v as i32, x: (q.x + v) as i32, ..q };
        (if m.x > w * 0x2000 + 0x4000 { set_alive_spec(m, false) } else { m }, base, st)
    } else {
        (p0, base, st)
    };
    let f = if a.shock > 0 { NPC { target_x: (a.target_x + 1024) as i32, ..a } } else { a };
    (NPC { anim_rect: (7 + f.anim_num) as u16, ..f }, b, s)
}

/// A hit box placed on the body by its kind (`action_counter2`).
pub open spec fn core_hitbox(part: NPC, body: NPC) -> NPC {
    let k = part.action_counter2;
    if k == 0 {
        placed(part, body.x as int, body.y - 0x4000)
    } else if k == 1 {
        placed(part, body.x + 0x3800, body.y as int)
    } else if k == 2 {
        placed(part, body.x + 0x800, body.y + 0x4000)
    } else if k == 3 {
        placed(part, body.x - 0x3800, body.y + 0x800)
    } else {
        part
    }
}

/// Small head `i` ticked against the current body.
#[verifier::opaque]
pub open spec fn head_ticked(ps: Seq<NPC>, st: StateView, i: int, players: [Player; 2], w: usize) -> (Seq<NPC>, StateView) {
    let (a, b, s) = core_head(ps[i], ps[0], st, players, w);
    (ps.update(i, a).update(0, b), s)
}

/// The parts after the body moved: face, tail, the five small heads in
/// turn, then the hit boxes.
pub open spec fn core_parts(ps: Seq<NPC>, st: StateView, players: [Player; 2], w: usize) -> (Seq<NPC>, StateView) {
    let q = ps.update(4, core_end_part(ps[4], ps[0], -0x4800, 2, 3, 0x4800, 0)).update(
        5,
        core_end_part(ps[5], ps[0], 0x5800, 0, 2, 0x5800, 4),
    );
    let (q1, s1) = head_ticked(q, st, 1, players, w);
    let (q2, s2) = head_ticked(q1, s1, 2, players, w);
    let (q3, s3) = head_ticked(q2, s2, 3, players, w);
    let (q6, s6) = head_ticked(q3, s3, 6, players, w);
    let (q7, s7) = head_ticked(q6, s6, 7, players, w);
    let b = q7[0];
    (
        q7.update(8, core_hitbox(q7[8], b)).update(9, core_hitbox(q7[9], b)).update(10, core_hitbox(q7[10], b)).update(
            11,
            core_hitbox(q7[11], b),
        ),
        s7,
    )
}

/// One tick of the Core (`ps` its parts, `hurt` their hurt sounds) in a
/// room `w` tiles wide: the body's state step; the slam of its mouth; the
/// steering and movement; then the parts. The players' new state is
/// returned as a pair.
pub open spec fn core_step(ps: Seq<NPC>, hurt: Seq<u8>, st: StateView, players: [Player; 2], w: usize) -> (
    Seq<NPC>,
    Seq<u8>,
    StateView,
    (Player, Player),
) {
    let (q, h, s, pl, slam) = core_action(ps, hurt, st, players);
    let (q1, s1) = if slam { core_slam(q, s) } else { (q, s) };
    let q2 = core_steer(q1);
    let q3 = q2.update(0, core_drift(q2[0]));
    let (q4, s4) = core_parts(q3, s1, players, w);
    (q4, h, s4, pl)
}

proof fn lemma_core_action_len(ps: Seq<NPC>, hurt: Seq<u8>, st: StateView, players: [Player; 2])
    requires
        ps.len() == 20,
    ensures
        core_action(ps, hurt, st, players).0.len() == 20,
{
    reveal(core_action);
    lemma_len_setup(ps, hurt);
    lemma_len_closed(ps, st, players);
    lemma_len_wisps(ps, st, players);
    lemma_len_current(ps, st, players);
    lemma_len_defeated(ps, st);
    lemma_len_crumbling(ps);
}

proof fn lemma_len_setup(ps: Seq<NPC>, hurt: Seq<u8>)
    requires
        ps.len() == 20,
    ensures
        core_setup(ps, hurt).0.len() == 20,
{
}

proof fn lemma_len_closed(ps: Seq<NPC>, st: StateView, players: [Player; 2])
    requires
        ps.len() == 20,
    ensures
        core_closed(ps, st, players).0.len() == 20,
{
}

proof fn lemma_len_wisps(ps: Seq<NPC>, st: StateView, players: [Player; 2])
    requires
        ps.len() == 20,
    ensures
        core_wisps(ps, st, players).0.len() == 20,
{
}

proof fn lemma_len_current(ps: Seq<NPC>, st: StateView, players: [Player; 2])
    requires
        ps.len() == 20,
    ensures
        core_current(ps, st, players).0.len() == 20,
{
}

proof fn lemma_len_defeated(ps: Seq<NPC>, st: StateView)
    requires
        ps.len() == 20,
    ensures
        core_defeated(ps, st).0.len() == 20,
{
}

proof fn lemma_len_crumbling(ps: Seq<NPC>)
    requires
        ps.len() == 20,
    ensures
        core_crumbling(ps).len() == 20,
{
}

proof fn lemma_head_ticked_keeps(ps: Seq<NPC>, st: StateView, i: int, players: [Player; 2], w: usize)
    requires
        ps.len() == 20,
        0 < i < 8,
    ensures
        ({
            let q = head_ticked(ps, st, i, players, w).0;
            &&& q.len() == 20
            &&& forall|j: int| 8 <= j < 20 ==> #[trigger] q[j] == ps[j]
            &&& q[0] == (NPC { rng: q[0].rng, ..ps[0] })
        }),
{
    reveal(head_ticked);
}

/// Hit boxes 8 to 11 have the same kinds in `a` and `b`.
pub open spec fn kinds_kept(a: Seq<NPC>, b: Seq<NPC>) -> bool {
    forall|j: int| 8 <= j < 12 ==> #[trigger] b[j].action_counter2 == a[j].action_counter2
}

/// Hit box `8 + k` is of kind `k`, for each of the four.
pub open spec fn kinds_in_place(q: Seq<NPC>) -> bool {
    &&& q[8].action_counter2 == 0
    &&& q[9].action_counter2 == 1
    &&& q[10].action_counter2 == 2
    &&& q[11].action_counter2 == 3
}

proof fn lemma_kinds_closed(ps: Seq<NPC>, st: StateView, players: [Player; 2])
    requires
        ps.len() == 20,
    ensures
        kinds_kept(ps, core_closed(ps, st, players).0),
{
}

proof fn lemma_kinds_wisps(ps: Seq<NPC>, st: StateView, players: [Player; 2])
    requires
        ps.len() == 20,
    ensures
        kinds_kept(ps, core_wisps(ps, st, players).0),
{
}

proof fn lemma_kinds_current(ps: Seq<NPC>, st: StateView, players: [Player; 2])
    requires
        ps.len() == 20,
    ensures
        kinds_kept(ps, core_current(ps, st, players).0),
{
}

proof fn lemma_kinds_defeated(ps: Seq<NPC>, st: StateView)
    requires
        ps.len() == 20,
    ensures
        kinds_kept(ps, core_defeated(ps, st).0),
{
}

proof fn lemma_kinds_crumbling(ps: Seq<NPC>)
    requires
        ps.len() == 20,
    ensures
        kinds_kept(ps, core_crumbling(ps)),
{
}

proof fn lemma_kinds_setup(ps: Seq<NPC>, hurt: Seq<u8>)
    requires
        ps.len() == 20,
    ensures
        kinds_in_place(core_setup(ps, hurt).0),
{
}

/// The body's state step sets the hit boxes' kinds when it sets the Core up,
/// and keeps them otherwise.
proof fn lemma_core_action_kinds(ps: Seq<NPC>, hurt: Seq<u8>, st: StateView, players: [Player; 2])
    requires
        ps.len() == 20,
    ensures
        ps[0].action_num == 0 ==> kinds_in_place(core_action(ps, hurt, st, players).0),
        ps[0].action_num != 0 ==> kinds_kept(ps, core_action(ps, hurt, st, players).0),
{
    reveal(core_action);
    lemma_kinds_setup(ps, hurt);
    lemma_kinds_closed(ps, st, players);
    lemma_kinds_wisps(ps, st, players);
    lemma_kinds_current(ps, st, players);
    lemma_kinds_defeated(ps, st);
    lemma_kinds_crumbling(ps);
}

/// Whatever the Core does in a tick, its body ends it moving at most a
/// quarter pixel a tick each way; the tick keeps the kinds of hit boxes 8
/// to 11 (0 to 3, in `action_counter2`), or sets them so when it sets the
/// Core up; and each hit box of kind `k` sits where that kind goes on the
/// body: above it, right of it, below it, left of it.
pub proof fn law_core_body_and_hit_boxes(ps: Seq<NPC>, hurt: Seq<u8>, st: StateView, players: [Player; 2], w: usize)
    requires
        ps.len() == 20,
    ensures
        ({
            let r = core_step(ps, hurt, st, players, w).0;
            let b = r[0];
            &&& -0x80 <= b.vel_x <= 0x80
            &&& -0x80 <= b.vel_y <= 0x80
            &&& ps[0].action_num == 0 ==> kinds_in_place(r)
            &&& ps[0].action_num != 0 ==> kinds_kept(ps, r)
            &&& r[8].action_counter2 == 0 ==> r[8].x == b.x && r[8].y == (b.y - 0x4000) as i32
            &&& r[9].action_counter2 == 1 ==> r[9].x == (b.x + 0x3800) as i32 && r[9].y == b.y
            &&& r[10].action_counter2 == 2 ==> r[10].x == (b.x + 0x800) as i32 && r[10].y == (b.y + 0x4000) as i32
            &&& r[11].action_counter2 == 3 ==> r[11].x == (b.x - 0x3800) as i32 && r[11].y == (b.y + 0x800) as i32
        }),
{
    let (q, h, s, pl, slam) = core_action(ps, hurt, st, players);
    lemma_core_action_len(ps, hurt, st, players);
    lemma_core_action_kinds(ps, hurt, st, players);
    let (q1, s1) = if slam { core_slam(q, s) } else { (q, s) };
    let q2 = core_steer(q1);
    let q3 = q2.update(0, core_drift(q2[0]));
    assert(q1.len() == 20);
    assert(q3.len() == 20);
    assert(kinds_kept(q, q3));
    let qa = q3.update(4, core_end_part(q3[4], q3[0], -0x4800, 2, 3, 0x4800, 0)).update(
        5,
        core_end_part(q3[5], q3[0], 0x5800, 0, 2, 0x5800, 4),
    );
    lemma_head_ticked_keeps(qa, s1, 1, players, w);
    let (q1h, s1h) = head_ticked(qa, s1, 1, players, w);
    lemma_head_ticked_keeps(q1h, s1h, 2, players, w);
    let (q2h, s2h) = head_ticked(q1h, s1h, 2, players, w);
    lemma_head_ticked_keeps(q2h, s2h, 3, players, w);
    let (q3h, s3h) = head_ticked(q2h, s2h, 3, players, w);
    lemma_head_ticked_keeps(q3h, s3h, 6, players, w);
    let (q6h, s6h) = head_ticked(q3h, s3h, 6, players, w);
    lemma_head_ticked_keeps(q6h, s6h, 7, players, w);
    let (q7, s7) = head_ticked(q6h, s6h, 7, players, w);
    assert(q7[0].vel_x == q3[0].vel_x && q7[0].vel_y == q3[0].vel_y);
}

pub open spec fn part_in_range(n: NPC) -> bool {
    &&& npc_coord_ok(n.x)
    &&& npc_coord_ok(n.y)
    &&& npc_coord_ok(n.vel_x)
    &&& npc_coord_ok(n.vel_y)
    &&& npc_coord_ok(n.target_x)
    &&& npc_coord_ok(n.target_y)
}

pub open spec fn near_range(v: i32) -> bool {
    -0x1100_0000 <= v <= 0x1100_0000
}

pub open spec fn wide_range(v: i32) -> bool {
    -0x1200_0000 <= v <= 0x1200_0000
}

/// Parts 1 to 11 within the map range.
pub open spec fn parts_in_range(ps: Seq<NPC>) -> bool {
    forall|i: int| 1 <= i < 12 ==> #[trigger] part_in_range(ps[i])
}

/// The bounds the body keeps while its parts are ticked.
pub open spec fn body_range(v: i32) -> bool {
    -0x1180_0000 <= v <= 0x1180_0000
}

/// A small head whose counter can still advance.
pub open spec fn head_ok(h: NPC) -> bool {
    &&& (h.action_num == 101 || h.action_num == 121 || h.action_num == 131) ==> h.action_counter < u16::MAX
    &&& h.anim_num <= u16::MAX - 7
}

/// The face or tail, with a crumbling counter that can still count down.
pub open spec fn end_ok(n: NPC) -> bool {
    &&& n.action_num == 51 ==> n.action_counter > 0
    &&& n.anim_num <= u16::MAX - 4
}

pub open spec fn body_ok(b: NPC) -> bool {
    &&& near_range(b.x)
    &&& near_range(b.y)
    &&& npc_coord_ok(b.vel_x)
    &&& npc_coord_ok(b.vel_y)
    &&& near_range(b.target_x)
    &&& near_range(b.target_y)
}

/// What each phase of a tick keeps of the parts: in range, and with
/// counters that the next steps can advance.
pub open spec fn core_ready(ps: Seq<NPC>) -> bool {
    &&& ps.len() == 20
    &&& parts_in_range(ps)
    &&& body_ok(ps[0])
    &&& forall|i: int| #[trigger] is_small_head(i) ==> head_ok(ps[i])
    &&& end_ok(ps[4])
    &&& end_ok(ps[5])
}

proof fn lemma_setup_ready(ps: Seq<NPC>, hurt: Seq<u8>)
    requires
        core_ready(ps),
    ensures
        core_ready(core_setup(ps, hurt).0),
{
    let q = core_setup(ps, hurt).0;
    assert(is_small_head(1));
    assert(head_ok(ps[1]));
    assert(part_in_range(ps[1]));
    assert(part_in_range(ps[8]));
    assert forall|j: int| 1 <= j < 12 implies #[trigger] part_in_range(q[j]) by {
        if j == 1 || j == 2 || j == 3 || j == 6 || j == 7 {
            assert(part_in_range(ps[1]));
        } else if 8 <= j {
            assert(part_in_range(ps[8]));
        } else {
            assert(part_in_range(ps[j]));
        }
    }
    assert forall|j: int| #[trigger] is_small_head(j) implies head_ok(q[j]) by {
    }
}

proof fn lemma_disarmed_ready(ps: Seq<NPC>)
    requires
        core_ready(ps),
    ensures
        core_ready(disarmed(ps)),
{
    let q = disarmed(ps);
    assert forall|j: int| 1 <= j < 12 implies #[trigger] part_in_range(q[j]) by {
        assert(part_in_range(ps[j]));
    }
    assert forall|j: int| #[trigger] is_small_head(j) implies head_ok(q[j]) by {
        assert(head_ok(ps[j]));
    }
}

proof fn lemma_ready_update(ps: Seq<NPC>, i: int, n: NPC)
    requires
        core_ready(ps),
        0 <= i < 20,
        i == 0 ==> body_ok(n),
        1 <= i < 12 ==> part_in_range(n),
        is_small_head(i) ==> head_ok(n),
        (i == 4 || i == 5) ==> end_ok(n),
    ensures
        core_ready(ps.update(i, n)),
{
    let q = ps.update(i, n);
    assert forall|j: int| 1 <= j < 12 implies #[trigger] part_in_range(q[j]) by {
        if j != i {
            assert(part_in_range(ps[j]));
        }
    }
    assert forall|j: int| #[trigger] is_small_head(j) implies head_ok(q[j]) by {
        if j != i {
            assert(head_ok(ps[j]));
        }
    }
}

pub open spec fn is_small_head(i: int) -> bool {
    i == 1 || i == 2 || i == 3 || i == 6 || i == 7
}

/// Inputs a tick of the Core computes in range on.
pub open spec fn core_tickable(ps: Seq<NPC>, players: [Player; 2], w: usize) -> bool {
    let k = ps[0].action_num;
    &&& ps.len() == 20
    &&& forall|i: int| 0 <= i < 12 ==> #[trigger] part_in_range(ps[i])
    &&& npc_coord_ok(players[0].x)
    &&& npc_coord_ok(players[0].y)
    &&& npc_coord_ok(players[0].vel_x)
    &&& npc_coord_ok(players[1].x)
    &&& npc_coord_ok(players[1].y)
    &&& npc_coord_ok(players[1].vel_x)
    &&& w <= 0xffff
    &&& (k == 201 || k == 211 || k == 221 || k == 501 || k == 600 || k == 601) ==> ps[0].action_counter < u16::MAX
    &&& k == 201 ==> ps[0].action_counter2 < u16::MAX
    &&& (k == 210 || k == 211 || k == 220 || k == 221) ==> ps[19].action_counter3 < u16::MAX
    &&& forall|i: int| #[trigger] is_small_head(i) ==> {
        let h = ps[i];
        &&& (h.action_num == 101 || h.action_num == 121 || h.action_num == 131) ==> h.action_counter < u16::MAX
        &&& h.anim_num <= u16::MAX - 7
    }
    &&& ps[4].action_num == 51 ==> ps[4].action_counter > 0
    &&& ps[5].action_num == 51 ==> ps[5].action_counter > 0
    &&& ps[4].anim_num <= u16::MAX - 4
    &&& ps[5].anim_num <= u16::MAX - 4
}

impl BossNPC {
    fn core_setup_exec(&mut self)
        requires
            core_ready(old(self).parts@),
        ensures
            core_ready(final(self).parts@),
            (final(self).parts@, final(self).hurt_sound@) == core_setup(old(self).parts@, old(self).hurt_sound@),
            final(self).boss_type == old(self).boss_type,
            final(self).death_sound == old(self).death_sound,
    {
        let mut body = self.parts[0];
        body.action_num = 10;
        body.exp = 1;
        body.cond.set_alive(true);
        body.npc_flags.0 = 0;
        body.npc_flags.set_show_damage(true);
        body.npc_flags.set_event_when_killed(true);
        body.npc_flags.set_ignore_solidity(true);
        body.npc_flags.set_invulnerable(true);
        body.life = 650;
        self.hurt_sound[0] = 114;
        body.x = 0x9a000;
        body.y = 0x1c000;
        body.vel_x = 0;
        body.vel_y = 0;
        body.event_num = 1000;
        self.parts[0] = body;
        let mut face = self.parts[4];
        face.cond.set_alive(true);
        face.action_num = 10;
        self.parts[4] = face;
        let mut tail = self.parts[5];
        tail.cond.set_alive(true);
        tail.action_num = 10;
        self.parts[5] = tail;
        let mut hb = self.parts[8];
        hb.cond.set_alive(true);
        hb.npc_flags.0 = 0;
        hb.npc_flags.set_ignore_solidity(true);
        hb.npc_flags.set_invulnerable(true);
        hb.display_bounds.left = 0;
        hb.display_bounds.top = 0;
        hb.hit_bounds.right = 0x5000;
        hb.hit_bounds.top = 0x2000;
        hb.hit_bounds.bottom = 0x2000;
        hb.action_counter2 = 0;
        self.parts[8] = hb;
        let mut hb9 = hb;
        hb9.hit_bounds.right = 0x4800;
        hb9.hit_bounds.top = 0x3000;
        hb9.hit_bounds.bottom = 0x3000;
        hb9.action_counter2 = 1;
        self.parts[9] = hb9;
        let mut hb10 = hb;
        hb10.hit_bounds.right = 0x5800;
        hb10.hit_bounds.top = 0x1000;
        hb10.hit_bounds.bottom = 0x1000;
        hb10.action_counter2 = 2;
        self.parts[10] = hb10;
        let mut hb11 = hb;
        hb11.cond.set_damage_boss(true);
        hb11.hit_bounds.right = 0x2800;
        hb11.hit_bounds.top = 0x2800;
        hb11.hit_bounds.bottom = 0x2800;
        hb11.action_counter2 = 3;
        self.parts[11] = hb11;
        let mut head = self.parts[1];
        head.cond.set_alive(true);
        head.action_num = 10;
        head.npc_flags.set_shootable(true);
        head.npc_flags.set_ignore_solidity(true);
        head.npc_flags.set_invulnerable(true);
        head.life = 1000;
        self.hurt_sound[1] = 54;
        head.hit_bounds.right = 0x3000;
        head.hit_bounds.top = 0x2000;
        head.hit_bounds.bottom = 0x2000;
        head.display_bounds.top = 0x2800;
        head.display_bounds.left = 0x4000;
        head.x = body.x - 0x1000;
        head.y = body.y - 0x8000;
        self.parts[1] = head;
        let mut h2 = head;
        h2.x = body.x + 0x2000;
        h2.y = body.y;
        self.parts[2] = h2;
        let mut h3 = head;
        h3.x = body.x - 0x1000;
        h3.y = body.y + 0x8000;
        self.parts[3] = h3;
        let mut h6 = head;
        h6.x = body.x - 0x6000;
        h6.y = body.y - 0x4000;
        self.parts[6] = h6;
        let mut h7 = head;
        h7.x = body.x - 0x6000;
        h7.y = body.y + 0x4000;
        self.parts[7] = h7;
        let ghost q = self.parts@;
        let mut i: usize = 0;
        while i < 20
            invariant
                i <= 20,
                q.len() == 20,
                self.parts@.len() == 20,
                forall|j: int| 0 <= j < i ==> self.parts@[j] == (NPC { prev_x: q[j].x, prev_y: q[j].y, ..q[j] }),
                forall|j: int| i <= j < 20 ==> self.parts@[j] == q[j],
                self.hurt_sound@ == old(self).hurt_sound@.update(0, 114).update(1, 54),
                self.boss_type == old(self).boss_type,
                self.death_sound == old(self).death_sound,
            decreases 20 - i,
        {
            let mut p = self.parts[i];
            p.prev_x = p.x;
            p.prev_y = p.y;
            self.parts[i] = p;
            i += 1;
        }
        assert(self.parts@ =~= Seq::new(q.len(), |j: int| NPC { prev_x: q[j].x, prev_y: q[j].y, ..q[j] }));
        proof {
            lemma_setup_ready(old(self).parts@, old(self).hurt_sound@);
        }
    }

    fn core_flash_exec(&mut self)
        requires
            old(self).parts[0].shock > 0 ==> old(self).parts[19].action_counter3 < u16::MAX,
        ensures
            final(self).parts@ == core_flash(old(self).parts@),
            core_ready(old(self).parts@) ==> core_ready(final(self).parts@),
            final(self).hurt_sound == old(self).hurt_sound,
            final(self).boss_type == old(self).boss_type,
            final(self).death_sound == old(self).death_sound,
    {
        let a: u16 = if self.parts[0].shock > 0 {
            let mut flash = self.parts[19];
            flash.action_counter3 += 1;
            proof {
                if core_ready(self.parts@) {
                    lemma_ready_update(self.parts@, 19, flash);
                }
            }
            self.parts[19] = flash;
            if flash.action_counter3 & 2 != 0 {
                0
            } else {
                1
            }
        } else {
            0
        };
        self.set_part_anim(4, a);
        self.set_part_anim(5, a);
    }

    fn set_part_anim(&mut self, i: usize, a: u16)
        requires
            i < 20,
        ensures
            final(self).parts@ == set_anim(old(self).parts@, i as int, a),
            core_ready(old(self).parts@) && (i == 4 || i == 5) && a <= 2 ==> core_ready(final(self).parts@),
            final(self).hurt_sound == old(self).hurt_sound,
            final(self).boss_type == old(self).boss_type,
            final(self).death_sound == old(self).death_sound,
    {
        let mut p = self.parts[i];
        p.anim_num = a;
        proof {
            if core_ready(self.parts@) && (i == 4 || i == 5) && a <= 2 {
                assert(part_in_range(self.parts@[i as int]));
                lemma_ready_update(self.parts@, i as int, p);
            }
        }
        self.parts[i] = p;
    }

    fn set_part_action(&mut self, i: usize, a: u16)
        requires
            i < 20,
        ensures
            final(self).parts@ == set_action(old(self).parts@, i as int, a),
            core_ready(old(self).parts@) && (i == 0 || i >= 8 || (is_small_head(i as int) && (a == 100 || a == 120
                || a == 200)) || ((i == 4 || i == 5) && a == 50)) ==> core_ready(final(self).parts@),
            final(self).hurt_sound == old(self).hurt_sound,
            final(self).boss_type == old(self).boss_type,
            final(self).death_sound == old(self).death_sound,
    {
        let mut p = self.parts[i];
        p.action_num = a;
        proof {
            if core_ready(self.parts@) && (i == 0 || i >= 8 || (is_small_head(i as int) && (a == 100 || a == 120
                || a == 200)) || ((i == 4 || i == 5) && a == 50)) {
                if 1 <= i < 12 {
                    assert(part_in_range(self.parts@[i as int]));
                }
                if is_small_head(i as int) {
                    assert(head_ok(self.parts@[i as int]));
                }
                lemma_ready_update(self.parts@, i as int, p);
            }
        }
        self.parts[i] = p;
    }

    fn set_part_shootable(&mut self, i: usize, v: bool)
        requires
            i < 20,
        ensures
            final(self).parts@ == old(self).parts@.update(i as int, shootable(old(self).parts@[i as int], v)),
            core_ready(old(self).parts@) ==> core_ready(final(self).parts@),
            final(self).hurt_sound == old(self).hurt_sound,
            final(self).boss_type == old(self).boss_type,
            final(self).death_sound == old(self).death_sound,
    {
        let mut p = self.parts[i];
        p.npc_flags.set_shootable(v);
        proof {
            if core_ready(self.parts@) {
                if 1 <= i < 12 {
                    assert(part_in_range(self.parts@[i as int]));
                }
                if is_small_head(i as int) {
                    assert(head_ok(self.parts@[i as int]));
                }
                lemma_ready_update(self.parts@, i as int, p);
            }
        }
        self.parts[i] = p;
    }

    fn core_closed_exec(&mut self, state: &mut SharedGameState, players: &[Player; 2]) -> (slam: bool)
        requires
            npc_coord_ok(players[0].x),
            npc_coord_ok(players[0].y),
            npc_coord_ok(players[1].x),
            npc_coord_ok(players[1].y),
            core_ready(old(self).parts@),
            old(self).parts[0].action_num == 200 || old(self).parts[0].action_num == 201,
            old(self).parts[0].action_num == 201 ==> old(self).parts[0].action_counter < u16::MAX
                && old(self).parts[0].action_counter2 < u16::MAX,
        ensures
            core_ready(final(self).parts@),
            (final(self).parts@, final(state)@, slam) == core_closed(old(self).parts@, old(state)@, *players),
            final(self).hurt_sound == old(self).hurt_sound,
            final(self).boss_type == old(self).boss_type,
            final(self).death_sound == old(self).death_sound,
    {
        let idx = self.parts[0].get_closest_player_idx(players);
        if self.parts[0].action_num == 200 {
            let mut body = self.parts[0];
            body.action_num = 201;
            body.action_counter = 0;
            proof {
                lemma_ready_update(self.parts@, 0, body);
            }
            self.parts[0] = body;
            self.set_part_shootable(11, false);
            state.npc_super_pos.1 = 0;
            state.stop_sfx(40);
            state.stop_sfx(41);
            state.stop_sfx(58);
        }
        let mut body = self.parts[0];
        body.target_x = players[idx].x;
        body.target_y = players[idx].y;
        body.action_counter += 1;
        if body.action_counter > 400 {
            body.action_counter2 += 1;
            state.play_sfx(115);
            if body.action_counter2 < 4 {
                body.action_num = 210;
            } else {
                body.action_counter2 = 0;
                body.action_num = 220;
            }
            proof {
                lemma_ready_update(self.parts@, 0, body);
            }
            self.parts[0] = body;
            self.set_part_anim(4, 0);
            self.set_part_anim(5, 0);
            true
        } else {
            proof {
                lemma_ready_update(self.parts@, 0, body);
            }
            self.parts[0] = body;
            false
        }
    }

    fn core_wisps_exec(&mut self, state: &mut SharedGameState, players: &[Player; 2]) -> (slam: bool)
        requires
            npc_coord_ok(players[0].x),
            npc_coord_ok(players[0].y),
            npc_coord_ok(players[1].x),
            npc_coord_ok(players[1].y),
            core_ready(old(self).parts@),
            old(self).parts[0].action_num == 210 || old(self).parts[0].action_num == 211,
            old(self).parts[0].action_num == 211 ==> old(self).parts[0].action_counter < u16::MAX,
            old(self).parts[19].action_counter3 < u16::MAX,
            npc_coord_ok(old(self).parts[0].x),
            npc_coord_ok(old(self).parts[0].y),
        ensures
            core_ready(final(self).parts@),
            (final(self).parts@, final(state)@, slam) == core_wisps(old(self).parts@, old(state)@, *players),
            final(self).hurt_sound == old(self).hurt_sound,
            final(self).boss_type == old(self).boss_type,
            final(self).death_sound == old(self).death_sound,
    {
        let idx = self.parts[0].get_closest_player_idx(players);
        if self.parts[0].action_num == 210 {
            let mut body = self.parts[0];
            body.action_num = 211;
            body.action_counter = 0;
            body.action_counter3 = body.life;
            proof {
                lemma_ready_update(self.parts@, 0, body);
            }
            self.parts[0] = body;
            self.set_part_shootable(11, true);
        }
        let mut body = self.parts[0];
        body.target_x = players[idx].x;
        body.target_y = players[idx].y;
        proof {
                lemma_ready_update(self.parts@, 0, body);
            }
            self.parts[0] = body;
        self.core_flash_exec();
        let mut body = self.parts[0];
        body.action_counter += 1;
        if body.action_counter % 100 == 1 {
            state.npc_curly_counter = body.rng.range(80..100) as u16;
            state.npc_curly_target = (self.parts[11].x, self.parts[11].y);
        }
        if body.action_counter < 200 && body.action_counter % 20 == 1 {
            let mut npc = state.create_npc(179);
            npc.cond.set_alive(true);
            npc.x = body.x + body.rng.range(-48..-16) * 0x200;
            npc.y = body.y + body.rng.range(-64..64) * 0x200;
            state.spawn_npc(0x100, npc);
        }
        if body.action_counter > 400 || (body.life as i32) < body.action_counter3 as i32 - 200 {
            body.action_num = 200;
            proof {
                lemma_ready_update(self.parts@, 0, body);
            }
            self.parts[0] = body;
            self.set_part_anim(4, 2);
            self.set_part_anim(5, 0);
            true
        } else {
            proof {
                lemma_ready_update(self.parts@, 0, body);
            }
            self.parts[0] = body;
            false
        }
    }

    fn core_current_exec(&mut self, state: &mut SharedGameState, players: &mut [Player; 2]) -> (slam: bool)
        requires
            core_ready(old(self).parts@),
            old(self).parts[0].action_num == 220 || old(self).parts[0].action_num == 221,
            old(self).parts[0].action_num == 221 ==> old(self).parts[0].action_counter < u16::MAX,
            old(self).parts[19].action_counter3 < u16::MAX,
            npc_coord_ok(old(self).parts[0].x),
            npc_coord_ok(old(self).parts[0].y),
            npc_coord_ok(old(players)[0].x),
            npc_coord_ok(old(players)[0].y),
            npc_coord_ok(old(players)[0].vel_x),
            npc_coord_ok(old(players)[1].x),
            npc_coord_ok(old(players)[1].y),
            npc_coord_ok(old(players)[1].vel_x),
        ensures
            core_ready(final(self).parts@),
            ({
                let (q, s, pl, f) = core_current(old(self).parts@, old(state)@, *old(players));
                &&& final(self).parts@ == q
                &&& final(state)@ == s
                &&& final(players)[0] == pl.0
                &&& final(players)[1] == pl.1
                &&& slam == f
            }),
            final(self).hurt_sound == old(self).hurt_sound,
            final(self).boss_type == old(self).boss_type,
            final(self).death_sound == old(self).death_sound,
    {
        let all = *players;
        let idx = self.parts[0].get_closest_player_idx(&all);
        if self.parts[0].action_num == 220 {
            let mut body = self.parts[0];
            body.action_num = 221;
            body.action_counter = 0;
            proof {
                lemma_ready_update(self.parts@, 0, body);
            }
            self.parts[0] = body;
            self.set_part_shootable(11, true);
            state.loop_sfx_freq(40, 1000);
            state.loop_sfx_freq(41, 1100);
            state.quake_counter = 100;
            state.quake_rumble_counter = 100;
            state.npc_super_pos.1 = 1;
        }
        let mut body = self.parts[0];
        body.action_counter += 1;
        let p = all[idx];
        let mut npc = state.create_npc(199);
        npc.cond.set_alive(true);
        npc.x = p.x + body.rng.range(-50..150) * 0x400;
        npc.y = p.y + body.rng.range(-160..160) * 0x200;
        state.spawn_npc(0x100, npc);
        let mut p0 = all[0];
        p0.vel_x -= 0x20;
        p0.cond.set_increase_acceleration(true);
        let mut p1 = all[1];
        p1.vel_x -= 0x20;
        p1.cond.set_increase_acceleration(true);
        *players = [p0, p1];
        proof {
                lemma_ready_update(self.parts@, 0, body);
            }
            self.parts[0] = body;
        self.core_flash_exec();
        let mut body = self.parts[0];
        if body.action_counter == 300 || body.action_counter == 350 || body.action_counter == 400 {
            state.play_sfx(101);
            let mut npc = state.create_npc(218);
            npc.cond.set_alive(true);
            npc.x = body.x - 0x5000;
            npc.y = body.y;
            state.spawn_npc(0x100, npc);
            state.aim_last_spawn(body.x - p.x, body.y - p.y, 0, 1536);
            false
        } else if body.action_counter > 400 {
            body.action_num = 200;
            proof {
                lemma_ready_update(self.parts@, 0, body);
            }
            self.parts[0] = body;
            self.set_part_anim(4, 2);
            self.set_part_anim(5, 0);
            true
        } else {
            false
        }
    }
}

impl NPC {
    pub(crate) fn core_puff_exec(&mut self, state: &mut SharedGameState, sx: i32, sy: i32)
        requires
            npc_coord_ok(old(self).x),
            npc_coord_ok(old(self).y),
            0 <= sx <= 0x80,
            0 <= sy <= 0x80,
        ensures
            (*final(self), final(state)@) == core_puff(*old(self), old(state)@, sx, sy),
            *final(self) == (NPC { rng: final(self).rng, ..*old(self) }),
            final(state)@.npc_table == old(state)@.npc_table,
    {
        let mut npc = state.create_npc(4);
        npc.cond.set_alive(true);
        npc.x = self.x + self.rng.range(-sx..sx) * 0x200;
        npc.y = self.y + self.rng.range(-sy..sy) * 0x200;
        npc.vel_x = self.rng.range(-0x80..0x80) * 0x200;
        npc.vel_y = self.rng.range(-0x80..0x80) * 0x200;
        state.spawn_npc(0x100, npc);
    }

    fn core_chip_exec(&mut self, face: &NPC, state: &mut SharedGameState)
        requires
            npc_coord_ok(face.x),
        ensures
            (*final(self), final(state)@) == core_chip(*old(self), *face, old(state)@),
            *final(self) == (NPC { rng: final(self).rng, ..*old(self) }),
            final(state)@.npc_table == old(state)@.npc_table,
    {
        let mut npc = state.create_npc(4);
        npc.cond.set_alive(true);
        npc.y = face.y;
        npc.x = face.x + self.rng.range(-32..16) * 0x200;
        npc.vel_x = self.rng.range(-0x200..0x200);
        npc.vel_y = self.rng.range(-0x100..0x100);
        state.spawn_npc(0x100, npc);
    }

    fn core_end_part_exec(&mut self, body: &NPC, dx: i32, frame: u16, broken: u16, left: u32, rect: u16)
        requires
            body_range(body.x),
            -0x6000 <= dx <= 0x6000,
            old(self).action_num == 51 ==> old(self).action_counter > 0,
            old(self).anim_num <= u16::MAX - rect,
            frame <= 3,
            broken <= 3,
            rect <= 4,
        ensures
            *final(self) == core_end_part(*old(self), *body, dx as int, frame, broken, left, rect),
    {
        match self.action_num {
            10 | 11 => {
                if self.action_num == 10 {
                    self.action_num = 11;
                    self.anim_num = frame;
                    self.npc_flags.set_ignore_solidity(true);
                    self.display_bounds.left = left;
                    self.display_bounds.top = 0x7000;
                }
                self.x = body.x + dx;
                self.y = body.y;
            },
            50 | 51 => {
                if self.action_num == 50 {
                    self.action_num = 51;
                    self.action_counter = 112;
                }
                self.action_counter -= 1;
                if self.action_counter == 0 {
                    self.action_num = 100;
                    self.anim_num = broken;
                }
                self.x = body.x + dx;
                self.y = body.y;
            },
            100 => {
                self.anim_num = broken;
            },
            _ => {},
        }
        self.anim_rect = rect + self.anim_num;
    }

    fn approach_exec(&mut self)
        requires
            wide_range(old(self).x),
            wide_range(old(self).y),
            wide_range(old(self).target_x),
            wide_range(old(self).target_y),
        ensures
            *final(self) == approach(*old(self)),
            wide_range(final(self).x),
            wide_range(final(self).y),
    {
        let x = self.x;
        let tx = self.target_x;
        let y = self.y;
        let ty = self.target_y;
        assert(-0x1200_0000 <= x + trunc_div(tx - x, 16) <= 0x1200_0000) by (nonlinear_arith)
            requires
                -0x1200_0000 <= x <= 0x1200_0000,
                -0x1200_0000 <= tx <= 0x1200_0000,
        ;
        assert(-0x1200_0000 <= y + trunc_div(ty - y, 16) <= 0x1200_0000) by (nonlinear_arith)
            requires
                -0x1200_0000 <= y <= 0x1200_0000,
                -0x1200_0000 <= ty <= 0x1200_0000,
        ;
        self.x = x + (tx - x) / 16;
        self.y = y + (ty - y) / 16;
    }

    fn core_head_exec(&mut self, base: &mut NPC, state: &mut SharedGameState, players: &[Player; 2], w: usize)
        requires
            npc_coord_ok(old(self).x),
            npc_coord_ok(old(self).y),
            npc_coord_ok(old(self).vel_x),
            npc_coord_ok(old(self).target_x),
            npc_coord_ok(old(self).target_y),
            body_range(old(base).x),
            body_range(old(base).y),
            npc_coord_ok(players[0].x),
            npc_coord_ok(players[0].y),
            npc_coord_ok(players[1].x),
            npc_coord_ok(players[1].y),
            w <= 0xffff,
            (old(self).action_num == 101 || old(self).action_num == 121 || old(self).action_num == 131)
                ==> old(self).action_counter < u16::MAX,
            old(self).anim_num <= u16::MAX - 7,
        ensures
            (*final(self), *final(base), final(state)@) == core_head(*old(self), *old(base), old(state)@, *players, w),
            *final(base) == (NPC { rng: final(base).rng, ..*old(base) }),
    {
        self.life = 1000;
        match self.action_num {
            10 => {
                self.anim_num = 2;
                self.npc_flags.set_shootable(false);
            },
            100 | 101 => {
                if self.action_num == 100 {
                    self.action_num = 101;
                    self.anim_num = 2;
                    self.action_counter = 0;
                    self.target_x = base.x + base.rng.range(-128..32) * 0x200;
                    self.target_y = base.y + base.rng.range(-64..64) * 0x200;
                    self.npc_flags.set_shootable(true);
                }
                self.approach_exec();
                self.action_counter += 1;
                if self.action_counter > 50 {
                    self.anim_num = 0;
                }
            },
            120 | 121 => {
                if self.action_num == 120 {
                    self.action_num = 121;
                    self.action_counter = 0;
                }
                self.action_counter += 1;
                if (self.action_counter / 2) & 1 != 0 {
                    self.anim_num = 0;
                } else {
                    self.anim_num = 1;
                }
                if self.action_counter > 20 {
                    self.action_num = 130;
                }
            },
            130 | 131 => {
                if self.action_num == 130 {
                    self.action_num = 131;
                    self.anim_num = 2;
                    self.action_counter = 0;
                    self.target_x = self.x + self.rng.range(24..48) * 0x200;
                    self.target_y = self.y + self.rng.range(-4..4) * 0x200;
                }
                self.approach_exec();
                self.action_counter += 1;
                if self.action_counter > 50 {
                    self.action_num = 140;
                    self.anim_num = 0;
                }
                if self.action_counter == 1 || self.action_counter == 3 {
                    let idx = self.get_closest_player_idx(players);
                    let p = players[idx];
                    let mut npc = state.create_npc(178);
                    npc.cond.set_alive(true);
                    npc.x = self.x;
                    npc.y = self.y;
                    state.spawn_npc(0x100, npc);
                    let j = self.rng.range(-2..2);
                    state.aim_last_spawn(self.x - p.x, self.y - p.y, j, 1024);
                    state.play_sfx(39);
                }
            },
            140 => {
                self.approach_exec();
            },
            200 | 201 => {
                if self.action_num == 200 {
                    self.action_num = 201;
                    self.anim_num = 2;
                    self.vel_x = 0;
                    self.vel_y = 0;
                }
                self.vel_x += 32;
                self.x += self.vel_x;
                if self.x > (w as i32 * 0x2000) + 0x4000 {
                    self.cond.set_alive(false);
                }
            },
            _ => {},
        }
        if self.shock > 0 {
            self.target_x += 1024;
        }
        self.anim_rect = 7 + self.anim_num;
    }
}

impl BossNPC {
    fn core_defeat_start_exec(&mut self, state: &mut SharedGameState)
        requires
            core_ready(old(self).parts@),
            npc_coord_ok(old(self).parts[0].x),
            npc_coord_ok(old(self).parts[0].y),
        ensures
            core_ready(final(self).parts@),
            (final(self).parts@, final(state)@) == core_defeat_start(old(self).parts@, old(state)@),
            final(self).parts[0].x == old(self).parts[0].x,
            final(self).parts[0].y == old(self).parts[0].y,
            final(self).parts[0].action_counter == 0,
            final(self).hurt_sound == old(self).hurt_sound,
            final(self).boss_type == old(self).boss_type,
            final(self).death_sound == old(self).death_sound,
    {
        let mut body = self.parts[0];
        body.action_num = 501;
        body.action_counter = 0;
        body.vel_x = 0;
        body.vel_y = 0;
        self.set_part_anim(4, 2);
        self.set_part_anim(5, 0);
        self.set_part_action(1, 200);
        self.set_part_action(2, 200);
        self.set_part_action(3, 200);
        self.set_part_action(6, 200);
        self.set_part_action(7, 200);
        state.quake_counter = 20;
        state.quake_rumble_counter = 20;
        state.stop_sfx(40);
        state.stop_sfx(41);
        state.stop_sfx(58);
        let ghost b0 = body;
        let ghost s0 = state@;
        let mut i: usize = 0;
        while i < 32
            invariant
                i <= 32,
                body == (NPC { rng: body.rng, ..b0 }),
                npc_coord_ok(b0.x),
                npc_coord_ok(b0.y),
                state@.npc_table == s0.npc_table,
                (body, state@) == core_puffs(b0, s0, i as nat),
            decreases 32 - i,
        {
            body.core_puff_exec(state, 0x80, 0x40);
            i += 1;
        }
        proof {
                lemma_ready_update(self.parts@, 0, body);
            }
            self.parts[0] = body;
        let ghost q = self.parts@;
        let mut j: usize = 0;
        while j < 12
            invariant
                j <= 12,
                q.len() == 20,
                self.parts@.len() == 20,
                forall|k: int| 0 <= k < j ==> self.parts@[k] == shootable(guarded(q[k], false), false),
                forall|k: int| j <= k < 20 ==> self.parts@[k] == q[k],
                self.hurt_sound == old(self).hurt_sound,
                self.boss_type == old(self).boss_type,
                self.death_sound == old(self).death_sound,
            decreases 12 - j,
        {
            let mut p = self.parts[j];
            p.npc_flags.set_invulnerable(false);
            p.npc_flags.set_shootable(false);
            self.parts[j] = p;
            j += 1;
        }
        assert(self.parts@ =~= disarmed(q));
        proof {
            lemma_disarmed_ready(q);
        }
    }

    fn core_defeated_exec(&mut self, state: &mut SharedGameState)
        requires
            core_ready(old(self).parts@),
            old(self).parts[0].action_num == 500 || old(self).parts[0].action_num == 501,
            old(self).parts[0].action_num == 501 ==> old(self).parts[0].action_counter < u16::MAX,
            npc_coord_ok(old(self).parts[0].x),
            npc_coord_ok(old(self).parts[0].y),
        ensures
            core_ready(final(self).parts@),
            (final(self).parts@, final(state)@) == core_defeated(old(self).parts@, old(state)@),
            final(self).hurt_sound == old(self).hurt_sound,
            final(self).boss_type == old(self).boss_type,
            final(self).death_sound == old(self).death_sound,
    {
        if self.parts[0].action_num == 500 {
            self.core_defeat_start_exec(state);
        }
        let mut body = self.parts[0];
        body.action_counter += 1;
        if body.action_counter & 0x0f != 0 {
            body.core_puff_exec(state, 0x40, 0x20);
        }
        body.x += if body.action_counter & 0x02 == 0 {
            0x200
        } else {
            -0x200
        };
        body.x += if body.x < 0x7e000 {
            0x80
        } else {
            -0x80
        };
        body.y += if body.y < 0x16000 {
            0x80
        } else {
            -0x80
        };
        proof {
                lemma_ready_update(self.parts@, 0, body);
            }
            self.parts[0] = body;
    }

    fn core_crumbling_exec(&mut self)
        requires
            core_ready(old(self).parts@),
            old(self).parts[0].action_num == 600 || old(self).parts[0].action_num == 601,
            old(self).parts[0].action_counter < u16::MAX,
            npc_coord_ok(old(self).parts[0].x),
        ensures
            core_ready(final(self).parts@),
            final(self).parts@ == core_crumbling(old(self).parts@),
            final(self).hurt_sound == old(self).hurt_sound,
            final(self).boss_type == old(self).boss_type,
            final(self).death_sound == old(self).death_sound,
    {
        if self.parts[0].action_num == 600 {
            self.set_part_action(0, 601);
            self.set_part_action(4, 50);
            self.set_part_action(5, 50);
            let mut i: usize = 8;
            while i < 12
                invariant
                    8 <= i <= 12,
                    self.parts@.len() == 20,
                    ({
                        let q0 = set_action(set_action(old(self).parts@.update(0, NPC { action_num: 601, ..old(self).parts@[0] }), 4, 50), 5, 50);
                        &&& forall|k: int| 8 <= k < i ==> self.parts@[k] == guarded(q0[k], false)
                        &&& forall|k: int| (0 <= k < 8 || i <= k < 20) ==> self.parts@[k] == q0[k]
                    }),
                    core_ready(self.parts@),
                    self.hurt_sound == old(self).hurt_sound,
                    self.boss_type == old(self).boss_type,
                    self.death_sound == old(self).death_sound,
                decreases 12 - i,
            {
                let mut p = self.parts[i];
                p.npc_flags.set_invulnerable(false);
                proof {
                    assert(part_in_range(self.parts@[i as int]));
                    lemma_ready_update(self.parts@, i as int, p);
                }
                self.parts[i] = p;
                i += 1;
            }
            proof {
                let q0 = set_action(set_action(old(self).parts@.update(0, NPC { action_num: 601, ..old(self).parts@[0] }), 4, 50), 5, 50);
                assert(self.parts@ =~= q0.update(8, guarded(q0[8], false)).update(9, guarded(q0[9], false)).update(10, guarded(q0[10], false)).update(11, guarded(q0[11], false)));
            }
        }
        let mut body = self.parts[0];
        body.action_counter += 1;
        body.x += if body.action_counter & 2 == 0 {
            0x800
        } else {
            -0x800
        };
        proof {
            lemma_ready_update(self.parts@, 0, body);
        }
        self.parts[0] = body;
    }

    fn core_slam_exec(&mut self, state: &mut SharedGameState)
        requires
            core_ready(old(self).parts@),
        ensures
            core_ready(final(self).parts@),
            (final(self).parts@, final(state)@) == core_slam(old(self).parts@, old(state)@),
            final(self).hurt_sound == old(self).hurt_sound,
            final(self).boss_type == old(self).boss_type,
            final(self).death_sound == old(self).death_sound,
    {
        proof {
            assert(part_in_range(self.parts@[4]));
            assert(is_small_head(1) && is_small_head(2) && is_small_head(3) && is_small_head(6) && is_small_head(7));
        }
        state.quake_counter = 20;
        state.quake_rumble_counter = 20;
        state.play_sfx(26);
        self.set_part_action(1, 100);
        self.set_part_action(2, 100);
        self.set_part_action(3, 100);
        self.set_part_action(6, 100);
        self.set_part_action(7, 100);
        let face = self.parts[4];
        let mut body = self.parts[0];
        let ghost b0 = body;
        let ghost s0 = state@;
        let mut i: usize = 0;
        while i < 8
            invariant
                i <= 8,
                body == (NPC { rng: body.rng, ..b0 }),
                npc_coord_ok(face.x),
                state@.npc_table == s0.npc_table,
                (body, state@) == core_chips(b0, face, s0, i as nat),
            decreases 8 - i,
        {
            body.core_chip_exec(&face, state);
            i += 1;
        }
        proof {
                lemma_ready_update(self.parts@, 0, body);
            }
            self.parts[0] = body;
    }
}

impl BossNPC {
    fn core_head_at(&mut self, i: usize, state: &mut SharedGameState, players: &[Player; 2], w: usize)
        requires
            is_small_head(i as int),
            part_in_range(old(self).parts[i as int]),
            body_range(old(self).parts[0].x),
            body_range(old(self).parts[0].y),
            npc_coord_ok(players[0].x),
            npc_coord_ok(players[0].y),
            npc_coord_ok(players[1].x),
            npc_coord_ok(players[1].y),
            w <= 0xffff,
            ({
                let h = old(self).parts[i as int];
                &&& (h.action_num == 101 || h.action_num == 121 || h.action_num == 131) ==> h.action_counter < u16::MAX
                &&& h.anim_num <= u16::MAX - 7
            }),
        ensures
            (final(self).parts@, final(state)@) == head_ticked(old(self).parts@, old(state)@, i as int, *players, w),
            final(self).parts[0] == (NPC { rng: final(self).parts[0].rng, ..old(self).parts[0] }),
            forall|j: int| 0 < j < 20 && j != i ==> final(self).parts[j] == old(self).parts[j],
            final(self).hurt_sound == old(self).hurt_sound,
            final(self).boss_type == old(self).boss_type,
            final(self).death_sound == old(self).death_sound,
    {
        proof {
            reveal(head_ticked);
        }
        let mut part = self.parts[i];
        let mut base = self.parts[0];
        part.core_head_exec(&mut base, state, players, w);
        self.parts[i] = part;
        self.parts[0] = base;
    }

    #[verifier::rlimit(40)]
    fn core_parts_exec(&mut self, state: &mut SharedGameState, players: &[Player; 2], w: usize)
        requires
            parts_in_range(old(self).parts@),
            body_range(old(self).parts[0].x),
            body_range(old(self).parts[0].y),
            npc_coord_ok(players[0].x),
            npc_coord_ok(players[0].y),
            npc_coord_ok(players[1].x),
            npc_coord_ok(players[1].y),
            w <= 0xffff,
            forall|i: int| #[trigger] is_small_head(i) ==> {
                let h = old(self).parts[i];
                &&& (h.action_num == 101 || h.action_num == 121 || h.action_num == 131) ==> h.action_counter < u16::MAX
                &&& h.anim_num <= u16::MAX - 7
            },
            old(self).parts[4].action_num == 51 ==> old(self).parts[4].action_counter > 0,
            old(self).parts[5].action_num == 51 ==> old(self).parts[5].action_counter > 0,
            old(self).parts[4].anim_num <= u16::MAX - 4,
            old(self).parts[5].anim_num <= u16::MAX - 4,
        ensures
            (final(self).parts@, final(state)@) == core_parts(old(self).parts@, old(state)@, *players, w),
            final(self).hurt_sound == old(self).hurt_sound,
            final(self).boss_type == old(self).boss_type,
            final(self).death_sound == old(self).death_sound,
    {
        let body = self.parts[0];
        let mut face = self.parts[4];
        face.core_end_part_exec(&body, -0x4800, 2, 3, 0x4800, 0);
        self.parts[4] = face;
        let mut tail = self.parts[5];
        tail.core_end_part_exec(&body, 0x5800, 0, 2, 0x5800, 4);
        self.parts[5] = tail;
        assert(is_small_head(1) && is_small_head(2) && is_small_head(3) && is_small_head(6) && is_small_head(7));
        assert(part_in_range(old(self).parts@[1]) && part_in_range(old(self).parts@[2]) && part_in_range(old(self).parts@[3])
            && part_in_range(old(self).parts@[6]) && part_in_range(old(self).parts@[7]));
        self.core_head_at(1, state, players, w);
        self.core_head_at(2, state, players, w);
        self.core_head_at(3, state, players, w);
        self.core_head_at(6, state, players, w);
        self.core_head_at(7, state, players, w);
        let body = self.parts[0];
        let mut i: usize = 8;
        let ghost q7 = self.parts@;
        while i < 12
            invariant
                8 <= i <= 12,
                q7.len() == 20,
                self.parts@.len() == 20,
                body == q7[0],
                forall|k: int| 8 <= k < i ==> self.parts@[k] == core_hitbox(q7[k], body),
                forall|k: int| (0 <= k < 8 || i <= k < 20) ==> self.parts@[k] == q7[k],
                body_range(body.x),
                body_range(body.y),
                self.hurt_sound == old(self).hurt_sound,
                self.boss_type == old(self).boss_type,
                self.death_sound == old(self).death_sound,
            decreases 12 - i,
        {
            let mut hb = self.parts[i];
            match hb.action_counter2 {
                0 => {
                    hb.x = body.x;
                    hb.y = body.y - 0x4000;
                },
                1 => {
                    hb.x = body.x + 0x3800;
                    hb.y = body.y;
                },
                2 => {
                    hb.x = body.x + 0x800;
                    hb.y = body.y + 0x4000;
                },
                3 => {
                    hb.x = body.x - 0x3800;
                    hb.y = body.y + 0x800;
                },
                _ => {},
            }
            self.parts[i] = hb;
            i += 1;
        }
        assert(self.parts@ =~= q7.update(8, core_hitbox(q7[8], body)).update(9, core_hitbox(q7[9], body)).update(10, core_hitbox(q7[10], body)).update(11, core_hitbox(q7[11], body)));
    }
}

impl BossNPC {
    fn core_action_exec(&mut self, state: &mut SharedGameState, players: &mut [Player; 2], w: usize) -> (slam: bool)
        requires
            core_tickable(old(self).parts@, *old(players), w),
        ensures
            ({
                let (q, h, s, pl, f) = core_action(old(self).parts@, old(self).hurt_sound@, old(state)@, *old(players));
                &&& final(self).parts@ == q
                &&& final(self).hurt_sound@ == h
                &&& final(state)@ == s
                &&& final(players)[0] == pl.0
                &&& final(players)[1] == pl.1
                &&& slam == f
            }),
            core_ready(final(self).parts@),
            final(self).boss_type == old(self).boss_type,
            final(self).death_sound == old(self).death_sound,
    {
        proof {
            reveal(core_action);
            assert forall|i: int| 1 <= i < 12 implies #[trigger] part_in_range(self.parts@[i]) by {
                assert(part_in_range(self.parts@[i]));
            }
            assert(part_in_range(self.parts@[0]));
        }
        let all = *players;
        let k = self.parts[0].action_num;
        if k == 0 {
            self.core_setup_exec();
            false
        } else if k == 200 || k == 201 {
            self.core_closed_exec(state, &all)
        } else if k == 210 || k == 211 {
            self.core_wisps_exec(state, &all)
        } else if k == 220 || k == 221 {
            self.core_current_exec(state, players)
        } else if k == 500 || k == 501 {
            self.core_defeated_exec(state);
            false
        } else if k == 600 || k == 601 {
            self.core_crumbling_exec();
            false
        } else {
            false
        }
    }
}

impl BossNPC {
    /// The Core; see `core_step`. `stage` is the room, whose width bounds
    /// the heads' flight.
    #[verifier::rlimit(40)]
    pub fn tick_b04_core(&mut self, state: &mut SharedGameState, players: &mut [Player; 2], stage: &Stage)
        requires
            core_tickable(old(self).parts@, *old(players), stage.width),
        ensures
            ({
                let (q, h, s, pl) = core_step(old(self).parts@, old(self).hurt_sound@, old(state)@, *old(players), stage.width);
                &&& final(self).parts@ == q
                &&& final(self).hurt_sound@ == h
                &&& final(state)@ == s
                &&& final(players)[0] == pl.0
                &&& final(players)[1] == pl.1
                &&& final(self).boss_type == old(self).boss_type
                &&& final(self).death_sound == old(self).death_sound
            }),
    {
        let all = *players;
        let slam = self.core_action_exec(state, players, stage.width);
        if slam {
            self.core_slam_exec(state);
        }
        let ghost after_slam = self.parts@;
        let mut body = self.parts[0];
        if body.action_num >= 200 && body.action_num < 300 {
            let t = body.action_counter;
            if t == 80 {
                self.set_part_action(1, 120);
            } else if t == 110 {
                self.set_part_action(2, 120);
            } else if t == 140 {
                self.set_part_action(3, 120);
            } else if t == 170 {
                self.set_part_action(6, 120);
            } else if t == 200 {
                self.set_part_action(7, 120);
            }
            if body.x < body.target_x + 0x14000 {
                body.vel_x += 4;
            }
            if body.x > body.target_x + 0x14000 {
                body.vel_x -= 4;
            }
            if body.y < body.target_y {
                body.vel_y += 4;
            }
            if body.y > body.target_y {
                body.vel_y -= 4;
            }
        }
        assert(self.parts@ == core_steer(after_slam).update(0, self.parts@[0]));
        assert(body == core_steer(after_slam)[0]);
        body.vel_x = clamp_i32(body.vel_x, -0x80, 0x80);
        body.vel_y = clamp_i32(body.vel_y, -0x80, 0x80);
        body.x += body.vel_x;
        body.y += body.vel_y;
        assert(body == core_drift(core_steer(after_slam)[0]));
        self.parts[0] = body;
        assert(self.parts@ == core_steer(after_slam).update(0, core_drift(core_steer(after_slam)[0])));
        let ghost before_parts = self.parts@;
        let ghost st_before = state@;
        self.core_parts_exec(state, &all, stage.width);
        assert((self.parts@, state@) == core_parts(before_parts, st_before, all, stage.width));
    }
}

} // verus!
