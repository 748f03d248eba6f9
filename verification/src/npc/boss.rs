//! Multi-part boss entities and the Heavy Press fight.

use vstd::prelude::*;

use crate::common::Direction;
use crate::game_state::{
    with_smoke, with_sound, with_spawn, with_type_kill, DeathSmoke, SharedGameState, StateView,
};
use crate::npc::{
    empty_npc, roll, spec_animate, seeded_rng, set_alive_spec, table_npc, with_bits16, Condition, NPCFlag, Rect,
    COND_ALIVE, COND_DAMAGE_BOSS, COND_DRS_BOSS, NPC, NPC_EVENT_WHEN_KILLED,
    NPC_IGNORE_SOLIDITY, NPC_INVULNERABLE, NPC_SHOOTABLE, NPC_SHOW_DAMAGE, NPC_SOLID_HARD,
};
use crate::rng::mix_seed_exec;
use crate::stage::{spec_change_tile, Stage};

verus! {

/// A boss made of up to twenty parts; part 0 is the body.
pub struct BossNPC {
    pub boss_type: u16,
    pub parts: [NPC; 20],
    pub hurt_sound: [u8; 20],
    pub death_sound: [u8; 20],
}

/// A part of a fresh boss: empty and marked as a boss part.
pub open spec fn boss_part() -> NPC {
    NPC { cond: Condition(with_bits16(0, COND_DRS_BOSS, true)), ..empty_npc() }
}

impl BossNPC {
    /// A boss of no type whose body is alive.
    pub fn new() -> (r: BossNPC)
        ensures
            r.boss_type == 0,
            r.parts@[0] == set_alive_spec(boss_part(), true),
            forall|i: int| 1 <= i < 20 ==> #[trigger] r.parts@[i] == boss_part(),
            forall|i: int| 0 <= i < 20 ==> #[trigger] r.hurt_sound@[i] == 0,
            forall|i: int| 0 <= i < 20 ==> #[trigger] r.death_sound@[i] == 0,
    {
        let mut part = NPC::empty();
        part.cond.set_drs_boss(true);
        let mut parts = [part;20];
        parts[0].cond.set_alive(true);
        BossNPC { boss_type: 0, parts, hurt_sound: [0u8;20], death_sound: [0u8;20] }
    }

    /// Seeds the generator of each part from the seed and the part's index.
    pub fn init_rng(&mut self, seed: i32)
        ensures
            final(self).boss_type == old(self).boss_type,
            final(self).hurt_sound == old(self).hurt_sound,
            final(self).death_sound == old(self).death_sound,
            forall|i: int|
                0 <= i < 20 ==> #[trigger] final(self).parts@[i] == (NPC {
                    rng: seeded_rng(seed, i as u32),
                    ..old(self).parts@[i]
                }),
    {
        let mut i: usize = 0;
        while i < 20
            invariant
                i <= 20,
                self.boss_type == old(self).boss_type,
                self.hurt_sound == old(self).hurt_sound,
                self.death_sound == old(self).death_sound,
                forall|k: int|
                    0 <= k < 20 ==> #[trigger] self.parts@[k] == if k < i {
                        NPC { rng: seeded_rng(seed, k as u32), ..old(self).parts@[k] }
                    } else {
                        old(self).parts@[k]
                    },
            decreases 20 - i,
        {
            let st = mix_seed_exec(seed, i as u32);
            let mut part = self.parts[i];
            part.rng.load_state(st);
            self.parts[i] = part;
            i += 1;
        }
    }
}

/// The Heavy Press state that one tick reads and writes.
pub struct PressState {
    pub p0: NPC,
    pub p1: NPC,
    pub p2: NPC,
    pub p3: NPC,
    pub p4: NPC,
    pub hurt0: u8,
    pub st: StateView,
    pub tiles: Seq<u8>,
}

/// Body set-up: placed at the origin, alive, with its fight stats.
pub open spec fn press_setup(p: NPC) -> NPC {
    NPC {
        action_num: 10,
        cond: Condition(with_bits16(p.cond.0, COND_ALIVE, true)),
        exp: 1,
        direction: Direction::Right,
        x: 0,
        y: 0,
        display_bounds: Rect { left: 0x5000, top: 0x7800, right: 0x5000, bottom: 0x7800 },
        hit_bounds: Rect { left: 0x6200, top: 0x7800, right: 0x5000, bottom: 0x6000 },
        npc_flags: NPCFlag(
            with_bits16(
                with_bits16(
                    with_bits16(
                        with_bits16(p.npc_flags.0, NPC_IGNORE_SOLIDITY, true),
                        NPC_SOLID_HARD,
                        true,
                    ),
                    NPC_EVENT_WHEN_KILLED,
                    true,
                ),
                NPC_SHOW_DAMAGE,
                true,
            ),
        ),
        size: 3,
        damage: 10,
        event_num: 1000,
        life: 700,
        ..p
    }
}

/// A puff of smoke at a random point around the body (x within 40 pixels,
/// y within 60), drawn from the body's generator.
pub open spec fn press_random_smoke(p: NPC, st: StateView) -> (NPC, StateView) {
    let (rx, p1) = roll(p, -40i32, 40i32);
    let (ry, p2) = roll(p1, -60i32, 60i32);
    (p2, with_smoke(st, DeathSmoke { x: (p.x + rx * 0x200) as i32, y: (p.y + ry * 0x200) as i32, radius: 1, amount: 1 }))
}

/// The first `k` pieces of rubble dropped on landing.
pub open spec fn press_rubble(p: NPC, st: StateView, k: nat) -> (NPC, StateView)
    decreases k,
{
    if k == 0 {
        (p, st)
    } else {
        let (q, s) = press_rubble(p, st, (k - 1) as nat);
        let (r, q2) = roll(q, -40i32, 40i32);
        let npc = NPC {
            x: (p.x + r * 0x200) as i32,
            y: (p.y + 0x7800) as i32,
            ..table_npc(4, st.npc_table)
        };
        (q2, with_spawn(s, 0x100, npc))
    }
}

/// The first `k` of the five wall blocks of row `row` broken while the
/// body loses health.
pub open spec fn press_wall(
    width: usize,
    tiles: Seq<u8>,
    st: StateView,
    row: u16,
    k: nat,
) -> (Seq<u8>, StateView)
    decreases k,
{
    if k == 0 {
        (tiles, st)
    } else {
        let (t, s) = press_wall(width, tiles, st, row, (k - 1) as nat);
        let i = (k - 1) as usize;
        let (t2, changed) = spec_change_tile(width, t, (i + 8) as usize, row as usize, 0);
        let smoke = DeathSmoke {
            x: ((i + 8) * 0x2000) as i32,
            y: (row * 0x2000) as i32,
            radius: 0,
            amount: (4 + if changed {
                3int
            } else {
                0int
            }) as usize,
        };
        (t2, with_sound(with_smoke(s, smoke), 12))
    }
}

/// The first `k` of the seven floor blocks broken when the body crashes
/// through row 14.
pub open spec fn press_floor(width: usize, tiles: Seq<u8>, st: StateView, k: nat) -> (
    Seq<u8>,
    StateView,
)
    decreases k,
{
    if k == 0 {
        (tiles, st)
    } else {
        let (t, s) = press_floor(width, tiles, st, (k - 1) as nat);
        let i = (k - 1) as usize;
        let (t2, _) = spec_change_tile(width, t, (i + 7) as usize, 14, 0);
        let smoke = DeathSmoke { x: ((i + 7) * 0x2000) as i32, y: 0x1C000, radius: 0, amount: 3 };
        (t2, with_sound(with_smoke(s, smoke), 12))
    }
}

/// A fight spawn: an alive entity of type `t` from the table.
pub open spec fn press_spawn(st: StateView, t: u16, x: i32, y: i32, d: Direction) -> StateView {
    with_spawn(
        st,
        0x100,
        NPC { x, y, direction: d, ..set_alive_spec(table_npc(t, st.npc_table), true) },
    )
}

/// States 20 and 21: the body sits destroyed at the bottom, smoking.
pub open spec fn press_destroyed(s: PressState) -> PressState {
    let a = if s.p0.action_num == 20 {
        PressState {
            p0: NPC {
                action_num: 21,
                damage: 0,
                x: (0x14000 + s.st.tile_offset_x * 0x2000) as i32,
                y: 0x33A00,
                npc_flags: NPCFlag(with_bits16(s.p0.npc_flags.0, NPC_SOLID_HARD, false)),
                ..s.p0
            },
            p1: set_alive_spec(s.p1, false),
            p2: set_alive_spec(s.p2, false),
            ..s
        }
    } else {
        s
    };
    let p0 = NPC { action_counter: (a.p0.action_counter + 1) as u16, ..a.p0 };
    if p0.action_counter % 16 == 0 {
        let (q, st) = press_random_smoke(p0, a.st);
        PressState { p0: q, st, ..a }
    } else {
        PressState { p0, ..a }
    }
}

/// States 30 and 31: the body drops from the top until it lands.
pub open spec fn press_dropping(s: PressState) -> PressState {
    let p = if s.p0.action_num == 30 {
        NPC {
            action_num: 31,
            anim_num: 2,
            x: (0x14000 + s.st.tile_offset_x * 0x2000) as i32,
            y: 0x8000,
            ..s.p0
        }
    } else {
        s.p0
    };
    let p = NPC { y: (p.y + 0x800) as i32, ..p };
    if p.y >= 0x33A00 {
        let p = NPC { y: 0x33A00, anim_num: 0, action_num: 20, ..p };
        let (q, st) = press_rubble(p, with_sound(s.st, 44), 5);
        PressState { p0: q, st, ..s }
    } else {
        PressState { p0: p, ..s }
    }
}

/// Entering the fight: the arms and the weak spot appear, and the first
/// lightning is spawned.
pub open spec fn press_fight_start(s: PressState) -> PressState {
    let p1 = NPC {
        cond: Condition(with_bits16(s.p1.cond.0, COND_ALIVE, true)),
        npc_flags: NPCFlag(
            with_bits16(
                with_bits16(s.p1.npc_flags.0, NPC_INVULNERABLE, true),
                NPC_IGNORE_SOLIDITY,
                true,
            ),
        ),
        hit_bounds: Rect { left: 0x1C00, top: 0x1000, right: 0x1C00, bottom: 0x1000 },
        ..s.p1
    };
    let p3 = NPC {
        cond: Condition(
            with_bits16(with_bits16(s.p3.cond.0, COND_ALIVE, true), COND_DAMAGE_BOSS, true),
        ),
        npc_flags: NPCFlag(with_bits16(s.p3.npc_flags.0, NPC_SHOOTABLE, true)),
        hit_bounds: Rect { left: 0xC00, top: 0x1000, right: 0xC00, bottom: 0x1000 },
        ..s.p3
    };
    let p0 = NPC { action_num: 101, action_counter3: 9, action_counter: 0, ..s.p0 };
    PressState {
        p0,
        p1,
        p2: p1,
        p3,
        st: press_spawn(s.st, 325, s.p0.x, (s.p0.y + 0x7800) as i32, Direction::Left),
        ..s
    }
}

/// States 100 and 101: the fight. Each 70 points of health lost break a
/// row of wall; walkers and lightning are spawned on a 300-tick cycle.
pub open spec fn press_fighting(width: usize, s: PressState) -> PressState {
    let a = if s.p0.action_num == 100 {
        press_fight_start(s)
    } else {
        s
    };
    let b = if a.p0.action_counter3 > 1 && a.p0.life < a.p0.action_counter3 * 70 {
        let row = (a.p0.action_counter3 - 1) as u16;
        let (tiles, st) = press_wall(width, a.tiles, a.st, row, 5);
        PressState { p0: NPC { action_counter3: row, ..a.p0 }, tiles, st, ..a }
    } else {
        a
    };
    let p0 = NPC { action_counter: (b.p0.action_counter + 1) as u16, ..b.p0 };
    let c = p0.action_counter;
    if c == 181 || c == 341 {
        PressState { p0, st: press_spawn(b.st, 323, 0x6000, 0x1E000, Direction::Up), ..b }
    } else if c == 101 || c == 261 {
        PressState { p0, st: press_spawn(b.st, 323, 0x22000, 0x1E000, Direction::Up), ..b }
    } else if c >= 400 {
        PressState {
            p0: NPC { action_counter: 100, ..p0 },
            st: press_spawn(b.st, 325, p0.x, (p0.y + 0x7800) as i32, Direction::Left),
            ..b
        }
    } else {
        PressState { p0, ..b }
    }
}

/// States 500 and 501: defeated, the body shakes and smokes, then falls.
pub open spec fn press_defeated(s: PressState) -> PressState {
    let a = if s.p0.action_num == 500 {
        PressState {
            p3: NPC {
                npc_flags: NPCFlag(with_bits16(s.p3.npc_flags.0, NPC_SHOOTABLE, false)),
                ..s.p3
            },
            p0: NPC { action_num: 501, action_counter: 0, action_counter2: 0, ..s.p0 },
            st: with_type_kill(with_type_kill(s.st, 325, true), 330, true),
            ..s
        }
    } else {
        s
    };
    let p0 = NPC { action_counter: (a.p0.action_counter + 1) as u16, ..a.p0 };
    let (p0, st) = if p0.action_counter % 16 == 0 {
        press_random_smoke(p0, with_sound(a.st, 12))
    } else {
        (p0, a.st)
    };
    let p0 = if p0.action_counter == 95 {
        NPC { anim_num: 1, ..p0 }
    } else if p0.action_counter == 98 {
        NPC { anim_num: 2, ..p0 }
    } else if p0.action_counter > 100 {
        NPC { action_num: 510, ..p0 }
    } else {
        p0
    };
    PressState { p0, st, ..a }
}

/// State 510: falling, crashing once through the floor of row 14.
pub open spec fn press_falling(width: usize, s: PressState) -> PressState {
    let vy = s.p0.vel_y + 64;
    let p0 = NPC { vel_y: vy as i32, damage: 127, y: (s.p0.y + vy) as i32, ..s.p0 };
    let a = if p0.action_counter2 == 0 && p0.y > 0x14000 {
        let (tiles, st) = press_floor(width, s.tiles, s.st, 7);
        PressState {
            p0: NPC { action_counter2: 1, vel_y: -0x200i32, damage: 0, ..p0 },
            tiles,
            st,
            ..s
        }
    } else {
        PressState { p0, ..s }
    };
    if a.p0.y > 0x3C000 {
        PressState { p0: NPC { action_num: 520, ..a.p0 }, ..a }
    } else {
        a
    }
}

/// The action step of one tick, before the parts follow the body.
pub open spec fn press_action(width: usize, s: PressState) -> PressState {
    let n = s.p0.action_num;
    if n == 0 {
        PressState { p0: press_setup(s.p0), hurt0: 54, ..s }
    } else if n == 5 {
        PressState {
            p0: NPC { action_num: 6, x: 0, y: 0, ..s.p0 },
            p1: set_alive_spec(s.p1, false),
            p2: set_alive_spec(s.p2, false),
            ..s
        }
    } else if n == 10 {
        PressState { p0: NPC { action_num: 11, x: 0x14000, y: 0x9400, ..s.p0 }, ..s }
    } else if n == 20 || n == 21 {
        press_destroyed(s)
    } else if n == 30 || n == 31 {
        press_dropping(s)
    } else if n == 100 || n == 101 {
        press_fighting(width, s)
    } else if n == 500 || n == 501 {
        press_defeated(s)
    } else if n == 510 {
        press_falling(width, s)
    } else {
        s
    }
}

/// One tick of the Heavy Press: the action step, then the arms and weak
/// spot follow the body, and the body's frame is picked (flashing while
/// it is hit).
pub open spec fn press_tick(width: usize, s: PressState) -> PressState {
    let a = press_action(width, s);
    let p0 = a.p0;
    let p1 = NPC { x: (p0.x - 0x3000) as i32, y: (p0.y + 0x6800) as i32, ..a.p1 };
    let p2 = NPC { x: (p0.x + 0x3000) as i32, y: (p0.y + 0x6800) as i32, ..a.p2 };
    let p3 = NPC { x: p0.x, y: (p0.y + 0x5000) as i32, ..a.p3 };
    let p4 = if p0.shock != 0 {
        NPC { action_counter: (a.p4.action_counter + 1) as u16, ..a.p4 }
    } else {
        a.p4
    };
    let offset: int = if p0.shock != 0 && p4.action_counter & 0x02 == 0 {
        3
    } else {
        0
    };
    PressState {
        p0: NPC { anim_rect: (p0.anim_num + offset) as u16, ..p0 },
        p1,
        p2,
        p3,
        p4,
        ..a
    }
}

pub open spec fn press_coord_ok(v: i32) -> bool {
    -0x1000_0000 <= v <= 0x1000_0000
}

/// Inputs on which a tick stays within the integer ranges it computes in:
/// coordinates within the map range, counters that are incremented below
/// their maximum, and a health threshold that fits in 16 bits.
pub open spec fn heavy_press_tickable(parts: Seq<NPC>, tile_offset_x: i32) -> bool {
    &&& parts.len() == 20
    &&& press_action_ok(parts[0], tile_offset_x)
    &&& parts[0].shock != 0 ==> parts[4].action_counter < u16::MAX
}

/// The body's part of `heavy_press_tickable`.
pub open spec fn press_action_ok(p0: NPC, tile_offset_x: i32) -> bool {
    let n = p0.action_num;
    &&& press_coord_ok(p0.x)
    &&& press_coord_ok(p0.y)
    &&& press_coord_ok(p0.vel_y)
    &&& -0x4000 <= tile_offset_x <= 0x4000
    &&& (n == 20 || n == 21 || n == 101 || n == 501) ==> p0.action_counter < u16::MAX
    &&& p0.anim_num <= u16::MAX - 3
    &&& n == 101 ==> p0.action_counter3 <= 936
}

/// The action step does not look at the fifth part.
proof fn lemma_press_action_frame(w: usize, s: PressState)
    ensures
        press_action(w, s) == (PressState {
            p4: s.p4,
            ..press_action(w, PressState { p4: empty_npc(), ..s })
        }),
{
}

/// The parts, state and map a branch reads and writes.
pub open spec fn ps(p0: NPC, p1: NPC, p2: NPC, p3: NPC, st: StateView, tiles: Seq<u8>) -> PressState {
    PressState { p0, p1, p2, p3, p4: empty_npc(), hurt0: 0, st, tiles }
}

pub open spec fn press_state_of(parts: Seq<NPC>, hurt0: u8, st: StateView, tiles: Seq<u8>) -> PressState {
    PressState { p0: parts[0], p1: parts[1], p2: parts[2], p3: parts[3], p4: parts[4], hurt0, st, tiles }
}

/// The Heavy Press lightning: crackles for 51 ticks, then strikes (with a
/// sound and smoke below it) and fades out, disappearing past frame 6.
pub open spec fn lightning_step(n: NPC, st: StateView) -> (NPC, StateView) {
    if n.action_num == 0 || n.action_num == 1 {
        let (a, st) = if n.action_num == 0 {
            (NPC { action_num: 1, ..n }, with_sound(st, 29))
        } else {
            (n, st)
        };
        let b = spec_animate(a, 0, 0, 2);
        let c = NPC { action_counter: (b.action_counter + 1) as u16, ..b };
        let (m, st) = if c.action_counter > 50 {
            (
                NPC {
                    action_num: 10,
                    anim_counter: 0,
                    anim_num: 3,
                    damage: 10,
                    display_bounds: Rect { left: 0x1000, top: 0x1800, ..c.display_bounds },
                    ..c
                },
                with_smoke(
                    with_sound(st, 101),
                    DeathSmoke { x: c.x, y: (c.y + 0xA800) as i32, radius: 0, amount: 3 },
                ),
            )
        } else {
            (c, st)
        };
        (NPC { anim_rect: m.anim_num, ..m }, st)
    } else if n.action_num == 10 {
        let a = spec_animate(n, 2, 3, 7);
        if a.anim_num > 6 {
            (set_alive_spec(a, false), st)
        } else {
            (NPC { anim_rect: a.anim_num, ..a }, st)
        }
    } else {
        (NPC { anim_rect: n.anim_num, ..n }, st)
    }
}

impl NPC {
    /// The Heavy Press lightning; see `lightning_step`.
    pub fn tick_n325_heavy_press_lightning(&mut self, state: &mut SharedGameState)
        requires
            press_coord_ok(old(self).y),
            old(self).anim_counter < u16::MAX,
            old(self).anim_num < u16::MAX,
            old(self).action_num <= 1 ==> old(self).action_counter < u16::MAX,
        ensures
            (*final(self), final(state)@) == lightning_step(*old(self), old(state)@),
    {
        match self.action_num {
            0 | 1 => {
                if self.action_num == 0 {
                    self.action_num = 1;
                    state.play_sfx(29);
                }
                self.animate(0, 0, 2);
                self.action_counter += 1;
                if self.action_counter > 50 {
                    self.action_num = 10;
                    self.anim_counter = 0;
                    self.anim_num = 3;
                    self.damage = 10;
                    self.display_bounds.left = 0x1000;
                    self.display_bounds.top = 0x1800;
                    state.play_sfx(101);
                    state.create_death_smoke(self.x, self.y + 0xA800, 0, 3);
                }
            },
            10 => {
                self.animate(2, 3, 7);
                if self.anim_num > 6 {
                    self.cond.set_alive(false);
                    return;
                }
            },
            _ => {},
        }
        self.anim_rect = self.anim_num;
    }
}

impl BossNPC {
    /// One tick of the Heavy Press; see `press_tick`.
    pub fn tick_b08_heavy_press(&mut self, state: &mut SharedGameState, stage: &mut Stage)
        requires
            heavy_press_tickable(old(self).parts@, old(state)@.tile_offset_x),
        ensures
            final(self).boss_type == old(self).boss_type,
            final(self).death_sound == old(self).death_sound,
            final(stage).width == old(stage).width,
            ({
                let s = press_tick(
                    old(stage).width,
                    press_state_of(
                        old(self).parts@,
                        old(self).hurt_sound@[0],
                        old(state)@,
                        old(stage).tiles@,
                    ),
                );
                &&& final(self).parts@ == old(self).parts@.update(0, s.p0).update(1, s.p1).update(
                    2,
                    s.p2,
                ).update(3, s.p3).update(4, s.p4)
                &&& final(self).hurt_sound@ == old(self).hurt_sound@.update(0, s.hurt0)
                &&& final(state)@ == s.st
                &&& final(stage).tiles@ == s.tiles
            }),
    {
        let mut p0 = self.parts[0];
        let mut p1 = self.parts[1];
        let mut p2 = self.parts[2];
        let mut p3 = self.parts[3];
        let mut p4 = self.parts[4];
        let mut hurt0 = self.hurt_sound[0];
        proof {
            lemma_press_action_frame(
                stage.width,
                press_state_of(self.parts@, self.hurt_sound@[0], state@, stage.tiles@),
            );
        }
        press_action_exec(&mut p0, &mut p1, &mut p2, &mut p3, &mut hurt0, state, stage);
        self.hurt_sound[0] = hurt0;
        p1.x = p0.x - 0x3000;
        p1.y = p0.y + 0x6800;
        p2.x = p0.x + 0x3000;
        p2.y = p0.y + 0x6800;
        p3.x = p0.x;
        p3.y = p0.y + 0x5000;
        let mut anim_offset: u16 = 0;
        if p0.shock != 0 {
            p4.action_counter += 1;
            if p4.action_counter & 0x02 == 0 {
                anim_offset = 3;
            }
        }
        p0.anim_rect = p0.anim_num + anim_offset;
        self.parts[0] = p0;
        self.parts[1] = p1;
        self.parts[2] = p2;
        self.parts[3] = p3;
        self.parts[4] = p4;
    }
}

fn press_action_exec(
    p0: &mut NPC,
    p1: &mut NPC,
    p2: &mut NPC,
    p3: &mut NPC,
    hurt0: &mut u8,
    state: &mut SharedGameState,
    stage: &mut Stage,
)
    requires
        press_action_ok(*old(p0), old(state)@.tile_offset_x),
    ensures
        final(stage).width == old(stage).width,
        -0x3000_0000 <= final(p0).x <= 0x3000_0000,
        -0x3000_0000 <= final(p0).y <= 0x3000_0000,
        final(p0).shock == old(p0).shock,
        final(p0).anim_num <= u16::MAX - 3,
        ({
            let s = press_action(
                old(stage).width,
                PressState { p0: *old(p0), p1: *old(p1), p2: *old(p2), p3: *old(p3), p4: empty_npc(), hurt0: *old(hurt0), st: old(state)@, tiles: old(stage).tiles@ },
            );
            &&& *final(p0) == s.p0
            &&& *final(p1) == s.p1
            &&& *final(p2) == s.p2
            &&& *final(p3) == s.p3
            &&& *final(hurt0) == s.hurt0
            &&& final(state)@ == s.st
            &&& final(stage).tiles@ == s.tiles
        }),
{
        match p0.action_num {
            0 => {
                p0.action_num = 10;
                p0.cond.set_alive(true);
                p0.exp = 1;
                p0.direction = Direction::Right;
                p0.x = 0;
                p0.y = 0;
                p0.display_bounds = Rect { left: 0x5000, top: 0x7800, right: 0x5000, bottom: 0x7800 };
                p0.hit_bounds = Rect { left: 0x6200, top: 0x7800, right: 0x5000, bottom: 0x6000 };
                *hurt0 = 54;
                p0.npc_flags.set_ignore_solidity(true);
                p0.npc_flags.set_solid_hard(true);
                p0.npc_flags.set_event_when_killed(true);
                p0.npc_flags.set_show_damage(true);
                p0.size = 3;
                p0.damage = 10;
                p0.event_num = 1000;
                p0.life = 700;
            },
            5 => {
                p0.action_num = 6;
                p0.x = 0;
                p0.y = 0;
                p1.cond.set_alive(false);
                p2.cond.set_alive(false);
            },
            10 => {
                p0.action_num = 11;
                p0.x = 0x14000;
                p0.y = 0x9400;
            },
            20 | 21 => {
                press_destroyed_exec(p0, p1, p2, state);
            },
            30 | 31 => {
                press_dropping_exec(p0, state);
            },
            100 | 101 => {
                press_fighting_exec(p0, p1, p2, p3, state, stage);
            },
            500 | 501 => {
                press_defeated_exec(p0, p3, state);
            },
            510 => {
                press_falling_exec(p0, state, stage);
            },
            _ => {},
        }
}

fn press_smoke(p0: &mut NPC, state: &mut SharedGameState)
    requires
        press_coord_ok(old(p0).x),
        press_coord_ok(old(p0).y),
    ensures
        (*final(p0), final(state)@) == press_random_smoke(*old(p0), old(state)@),
        final(p0).x == old(p0).x,
        final(p0).y == old(p0).y,
        final(state).npc_table@ == old(state).npc_table@,
{
    let rx = p0.rng.range(-40..40);
    let ry = p0.rng.range(-60..60);
    state.create_death_smoke(p0.x + rx * 0x200, p0.y + ry * 0x200, 1, 1);
}

fn press_drop_rubble(p0: &mut NPC, state: &mut SharedGameState)
    requires
        press_coord_ok(old(p0).x),
        press_coord_ok(old(p0).y),
    ensures
        (*final(p0), final(state)@) == press_rubble(*old(p0), old(state)@, 5),
        *final(p0) == (NPC { rng: final(p0).rng, ..*old(p0) }),
{
    let ghost p_init = *p0;
    let ghost s_init = state@;
    let mut k: usize = 0;
    while k < 5
        invariant
            k <= 5,
            *p0 == (NPC { rng: p0.rng, ..p_init }),
            press_coord_ok(p_init.x),
            press_coord_ok(p_init.y),
            state@.npc_table == s_init.npc_table,
            (*p0, state@) == press_rubble(p_init, s_init, k as nat),
        decreases 5 - k,
    {
        let mut npc = state.create_npc(4);
        let r = p0.rng.range(-40..40);
        npc.x = p0.x + r * 0x200;
        npc.y = p0.y + 0x7800;
        state.spawn_npc(0x100, npc);
        k += 1;
    }
}

fn press_break_wall(state: &mut SharedGameState, stage: &mut Stage, row: u16)
    requires
        row <= 936,
    ensures
        final(stage).width == old(stage).width,
        (final(stage).tiles@, final(state)@) == press_wall(
            old(stage).width,
            old(stage).tiles@,
            old(state)@,
            row,
            5,
        ),
{
    let ghost t_init = stage.tiles@;
    let ghost s_init = state@;
    let mut i: usize = 0;
    while i < 5
        invariant
            i <= 5,
            row <= 936,
            stage.width == old(stage).width,
            (stage.tiles@, state@) == press_wall(stage.width, t_init, s_init, row, i as nat),
        decreases 5 - i,
    {
        let changed = stage.change_tile(i + 8, row as usize, 0);
        let extra: usize = if changed {
            3
        } else {
            0
        };
        state.create_death_smoke((i as i32 + 8) * 0x2000, row as i32 * 0x2000, 0, 4 + extra);
        state.play_sfx(12);
        i += 1;
    }
}

fn press_break_floor(state: &mut SharedGameState, stage: &mut Stage)
    ensures
        final(stage).width == old(stage).width,
        (final(stage).tiles@, final(state)@) == press_floor(
            old(stage).width,
            old(stage).tiles@,
            old(state)@,
            7,
        ),
{
    let ghost t_init = stage.tiles@;
    let ghost s_init = state@;
    let mut i: usize = 0;
    while i < 7
        invariant
            i <= 7,
            stage.width == old(stage).width,
            (stage.tiles@, state@) == press_floor(stage.width, t_init, s_init, i as nat),
        decreases 7 - i,
    {
        stage.change_tile(i + 7, 14, 0);
        state.create_death_smoke((i as i32 + 7) * 0x2000, 0x1C000, 0, 3);
        state.play_sfx(12);
        i += 1;
    }
}

fn press_destroyed_exec(p0: &mut NPC, p1: &mut NPC, p2: &mut NPC, state: &mut SharedGameState)
    requires
        press_coord_ok(old(p0).x),
        press_coord_ok(old(p0).y),
        -0x4000 <= old(state)@.tile_offset_x <= 0x4000,
        old(p0).action_counter < u16::MAX,
        old(p0).action_num == 20 || old(p0).action_num == 21,
    ensures
        final(p0).shock == old(p0).shock,
        final(p0).anim_num == old(p0).anim_num || final(p0).anim_num <= 2,
        -0x3000_0000 <= final(p0).x <= 0x3000_0000,
        -0x3000_0000 <= final(p0).y <= 0x3000_0000,
        ({
            let s = press_destroyed(ps(*old(p0), *old(p1), *old(p2), empty_npc(), old(state)@, Seq::empty()));
            *final(p0) == s.p0 && *final(p1) == s.p1 && *final(p2) == s.p2 && final(state)@ == s.st
        }),
{
    if p0.action_num == 20 {
        p0.action_num = 21;
        p0.damage = 0;
        p0.x = 0x14000 + state.tile_offset_x * 0x2000;
        p0.y = 0x33A00;
        p0.npc_flags.set_solid_hard(false);
        p1.cond.set_alive(false);
        p2.cond.set_alive(false);
    }
    p0.action_counter += 1;
    if p0.action_counter % 16 == 0 {
        press_smoke(p0, state);
    }
}

fn press_dropping_exec(p0: &mut NPC, state: &mut SharedGameState)
    requires
        press_coord_ok(old(p0).x),
        press_coord_ok(old(p0).y),
        -0x4000 <= old(state)@.tile_offset_x <= 0x4000,
        old(p0).action_num == 30 || old(p0).action_num == 31,
    ensures
        final(p0).shock == old(p0).shock,
        final(p0).anim_num == old(p0).anim_num || final(p0).anim_num <= 2,
        -0x3000_0000 <= final(p0).x <= 0x3000_0000,
        -0x3000_0000 <= final(p0).y <= 0x3000_0000,
        ({
            let s = press_dropping(ps(*old(p0), empty_npc(), empty_npc(), empty_npc(), old(state)@, Seq::empty()));
            *final(p0) == s.p0 && final(state)@ == s.st
        }),
{
    if p0.action_num == 30 {
        p0.action_num = 31;
        p0.anim_num = 2;
        p0.x = 0x14000 + state.tile_offset_x * 0x2000;
        p0.y = 0x8000;
    }
    p0.y += 0x800;
    if p0.y >= 0x33A00 {
        p0.y = 0x33A00;
        p0.anim_num = 0;
        p0.action_num = 20;
        state.play_sfx(44);
        press_drop_rubble(p0, state);
    }
}

fn press_fighting_exec(
    p0: &mut NPC,
    p1: &mut NPC,
    p2: &mut NPC,
    p3: &mut NPC,
    state: &mut SharedGameState,
    stage: &mut Stage,
)
    requires
        press_coord_ok(old(p0).x),
        press_coord_ok(old(p0).y),
        old(p0).action_num == 100 || old(p0).action_num == 101,
        old(p0).action_num == 101 ==> old(p0).action_counter3 <= 936,
        old(p0).action_num == 101 ==> old(p0).action_counter < u16::MAX,
    ensures
        final(p0).shock == old(p0).shock,
        final(p0).anim_num == old(p0).anim_num || final(p0).anim_num <= 2,
        -0x3000_0000 <= final(p0).x <= 0x3000_0000,
        -0x3000_0000 <= final(p0).y <= 0x3000_0000,
        final(stage).width == old(stage).width,
        ({
            let s = press_fighting(old(stage).width, ps(*old(p0), *old(p1), *old(p2), *old(p3), old(state)@, old(stage).tiles@));
            *final(p0) == s.p0 && *final(p1) == s.p1 && *final(p2) == s.p2 && *final(p3) == s.p3
                && final(state)@ == s.st && final(stage).tiles@ == s.tiles
        }),
{
    if p0.action_num == 100 {
        p0.action_num = 101;
        p0.action_counter3 = 9;
        p0.action_counter = 0;
        p1.cond.set_alive(true);
        p1.npc_flags.set_invulnerable(true);
        p1.npc_flags.set_ignore_solidity(true);
        p1.hit_bounds = Rect { left: 0x1C00, top: 0x1000, right: 0x1C00, bottom: 0x1000 };
        *p2 = *p1;
        p3.cond.set_alive(true);
        p3.cond.set_damage_boss(true);
        p3.npc_flags.set_shootable(true);
        p3.hit_bounds = Rect { left: 0xC00, top: 0x1000, right: 0xC00, bottom: 0x1000 };
        press_spawn_exec(state, 325, p0.x, p0.y + 0x7800, Direction::Left);
    }
    if p0.action_counter3 > 1 && p0.life < p0.action_counter3 * 70 {
        p0.action_counter3 -= 1;
        press_break_wall(state, stage, p0.action_counter3);
    }
    p0.action_counter += 1;
    if p0.action_counter == 181 || p0.action_counter == 341 {
        press_spawn_exec(state, 323, 0x6000, 0x1E000, Direction::Up);
    } else if p0.action_counter == 101 || p0.action_counter == 261 {
        press_spawn_exec(state, 323, 0x22000, 0x1E000, Direction::Up);
    } else if p0.action_counter >= 400 {
        p0.action_counter = 100;
        press_spawn_exec(state, 325, p0.x, p0.y + 0x7800, Direction::Left);
    }
}

fn press_defeated_exec(p0: &mut NPC, p3: &mut NPC, state: &mut SharedGameState)
    requires
        press_coord_ok(old(p0).x),
        press_coord_ok(old(p0).y),
        old(p0).action_num == 500 || old(p0).action_num == 501,
        old(p0).action_num == 501 ==> old(p0).action_counter < u16::MAX,
    ensures
        final(p0).shock == old(p0).shock,
        final(p0).anim_num == old(p0).anim_num || final(p0).anim_num <= 2,
        -0x3000_0000 <= final(p0).x <= 0x3000_0000,
        -0x3000_0000 <= final(p0).y <= 0x3000_0000,
        ({
            let s = press_defeated(ps(*old(p0), empty_npc(), empty_npc(), *old(p3), old(state)@, Seq::empty()));
            *final(p0) == s.p0 && *final(p3) == s.p3 && final(state)@ == s.st
        }),
{
    if p0.action_num == 500 {
        p3.npc_flags.set_shootable(false);
        p0.action_num = 501;
        p0.action_counter = 0;
        p0.action_counter2 = 0;
        state.kill_npcs_by_type(325, true);
        state.kill_npcs_by_type(330, true);
    }
    p0.action_counter += 1;
    if p0.action_counter % 16 == 0 {
        state.play_sfx(12);
        press_smoke(p0, state);
    }
    if p0.action_counter == 95 {
        p0.anim_num = 1;
    } else if p0.action_counter == 98 {
        p0.anim_num = 2;
    } else if p0.action_counter > 100 {
        p0.action_num = 510;
    }
}

fn press_falling_exec(p0: &mut NPC, state: &mut SharedGameState, stage: &mut Stage)
    requires
        press_coord_ok(old(p0).y),
        press_coord_ok(old(p0).vel_y),
        press_coord_ok(old(p0).x),
        old(p0).action_num == 510,
    ensures
        final(p0).shock == old(p0).shock,
        final(p0).anim_num == old(p0).anim_num || final(p0).anim_num <= 2,
        -0x3000_0000 <= final(p0).x <= 0x3000_0000,
        -0x3000_0000 <= final(p0).y <= 0x3000_0000,
        final(stage).width == old(stage).width,
        ({
            let s = press_falling(old(stage).width, ps(*old(p0), empty_npc(), empty_npc(), empty_npc(), old(state)@, old(stage).tiles@));
            *final(p0) == s.p0 && final(state)@ == s.st && final(stage).tiles@ == s.tiles
        }),
{
    p0.vel_y += 64;
    p0.damage = 127;
    p0.y += p0.vel_y;
    if p0.action_counter2 == 0 && p0.y > 0x14000 {
        p0.action_counter2 = 1;
        p0.vel_y = -0x200;
        p0.damage = 0;
        press_break_floor(state, stage);
    }
    if p0.y > 0x3C000 {
        p0.action_num = 520;
    }
}

fn press_spawn_exec(state: &mut SharedGameState, t: u16, x: i32, y: i32, d: Direction)
    ensures
        final(state)@ == press_spawn(old(state)@, t, x, y, d),
{
    let mut npc = state.create_npc(t);
    npc.cond.set_alive(true);
    npc.x = x;
    npc.y = y;
    npc.direction = d;
    state.spawn_npc(0x100, npc);
}

} // verus!
