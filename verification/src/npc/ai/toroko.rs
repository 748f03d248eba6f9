//! Toroko: playing in Mimiga Village, running about with her stick, and
//! frenzied by the red flower in the Sand Zone boss fight.

use vstd::prelude::*;

use crate::common::{spec_opposite, spec_vector_x, Direction};
use crate::game_state::{bullet_count, with_sound, with_spawn, BulletCounts, SharedGameState, StateView};
use crate::npc::ai::balcony::face;
use crate::npc::ai::last_cave::face_player;
use crate::npc::ai::mimiga_village::ignoring_solidity;
use crate::npc::ai::misery::{clamp, clamp_i32, shootable, tick_counter};
use crate::npc::ai::{dir_frame, npc_coord_ok, scale_i32, trunc_div};
use crate::npc::{
    closest_player, roll, set_alive_spec, table_npc, with_bits16, NPCFlag, Player, COND_ALIVE,
    FLAG_HIT_BOTTOM_WALL, FLAG_HIT_LEFT_WALL, FLAG_HIT_RIGHT_WALL, NPC, NPC_INTERACTABLE,
};

verus! {

/// A puff of smoke thrown from within 12 pixels of Toroko, drawn from her
/// generator.
pub open spec fn toroko_puff(n: NPC, st: StateView) -> (NPC, StateView) {
    let (rx, a) = roll(n, -12i32, 12i32);
    let (ry, b) = roll(a, -12i32, 12i32);
    let (vy, c) = roll(b, -0x600i32, 0i32);
    let (vx, d) = roll(c, -0x155i32, 0x155i32);
    let puff = NPC {
        x: (n.x + rx * 0x200) as i32,
        y: (n.y + ry * 0x200) as i32,
        vel_x: vx,
        vel_y: vy,
        ..set_alive_spec(table_npc(4, st.npc_table), true)
    };
    (d, with_spawn(st, 0x100, puff))
}

pub open spec fn toroko_puffs(n: NPC, st: StateView, k: nat) -> (NPC, StateView)
    decreases k,
{
    if k == 0 {
        (n, st)
    } else {
        let (m, s) = toroko_puffs(n, st, (k - 1) as nat);
        toroko_puff(m, s)
    }
}

/// The flower's block, thrown by Toroko, as a child of hers.
pub open spec fn toroko_block(n: NPC, st: StateView) -> StateView {
    with_spawn(st, 0, NPC { parent_id: n.id, ..set_alive_spec(table_npc(141, st.npc_table), true) })
}

/// The frame step back and forth between 9 and 10.
pub open spec fn flicker(n: NPC, last: u16, first: u16) -> NPC {
    NPC { anim_num: if n.anim_num + 1 > last { first } else { (n.anim_num + 1) as u16 }, ..n }
}

/// A landing: a thud and a short quake.
pub open spec fn thud(st: StateView) -> StateView {
    StateView { quake_counter: 20, quake_rumble_counter: 20, ..with_sound(st, 26) }
}

/// The fight's states (10 to 52): standing, jumping at the player, throwing
/// blocks; she jumps when the player fires a missile (type 6) or more
/// than three Polar Star shots (type 3).
pub open spec fn toroko_fight(
    n: NPC,
    st: StateView,
    players: [Player; 2],
    bullets: Seq<usize>,
) -> (NPC, StateView) {
    let k = n.action_num;
    if k == 10 || k == 11 {
        let a = if k == 10 {
            let (r, m) = roll(n, 20i32, 130i32);
            NPC { action_num: 11, anim_num: 0, anim_counter: 0, action_counter: r as u16, vel_x: 0, ..m }
        } else {
            n
        };
        let b = face(a, players);
        let c0 = (b.anim_counter + 1) as u16;
        let c = if c0 > 4 {
            NPC { anim_counter: 0, anim_num: (b.anim_num + 1) as u16, ..b }
        } else {
            NPC { anim_counter: c0, ..b }
        };
        let d = if c.anim_num > 1 { NPC { anim_num: 0, ..c } } else { c };
        let e = if bullet_count(bullets, 6) != 0 || bullet_count(bullets, 3) > 3 {
            NPC { action_num: 20, ..d }
        } else {
            d
        };
        if e.action_counter != 0 {
            (NPC { action_counter: (e.action_counter - 1) as u16, ..e }, st)
        } else {
            let (r, f) = roll(e, 0i32, 99i32);
            (NPC { action_num: if r % 2 != 0 { 20 } else { 50 }, ..f }, st)
        }
    } else if k == 20 || k == 21 {
        let a = if k == 20 { NPC { action_num: 21, anim_num: 2, action_counter: 0, ..n } } else { n };
        let c = tick_counter(a);
        (if c.action_counter > 10 {
            NPC {
                action_num: 22,
                action_counter: 0,
                anim_num: 3,
                vel_y: -0x5ffi32,
                vel_x: if c.direction != Direction::Left { 0x200i32 } else { -0x200i32 },
                ..c
            }
        } else {
            c
        }, st)
    } else if k == 22 {
        let c = tick_counter(n);
        if c.action_counter > 10 {
            (NPC { action_num: 23, action_counter: 0, anim_num: 6, ..c }, toroko_block(c, st))
        } else {
            (c, st)
        }
    } else if k == 23 {
        let c = tick_counter(n);
        (face(if c.action_counter > 30 { NPC { action_num: 24, action_counter: 0, anim_num: 7, ..c } } else { c }, players), st)
    } else if k == 24 {
        let c = tick_counter(n);
        (if c.action_counter > 3 { NPC { action_num: 25, anim_num: 3, ..c } } else { c }, st)
    } else if k == 25 {
        if n.flags.0 & FLAG_HIT_BOTTOM_WALL != 0 {
            (NPC { action_num: 26, action_counter: 0, anim_num: 2, ..n }, thud(st))
        } else {
            (n, st)
        }
    } else if k == 26 {
        let c = tick_counter(NPC { vel_x: trunc_div(8 * n.vel_x, 9) as i32, ..n });
        (if c.action_counter > 20 { NPC { action_num: 10, anim_num: 0, ..c } } else { c }, st)
    } else if k == 50 || k == 51 {
        let (a, s) = if k == 50 {
            let a = NPC { action_num: 51, action_counter: 0, anim_num: 4, ..n };
            (a, toroko_block(a, st))
        } else {
            (n, st)
        };
        let c = tick_counter(a);
        (face(if c.action_counter > 30 { NPC { action_num: 52, action_counter: 0, anim_num: 5, ..c } } else { c }, players), s)
    } else {
        let c = tick_counter(n);
        (if c.action_counter > 3 { NPC { action_num: 10, anim_num: 0, ..c } } else { c }, st)
    }
}

/// The waking (0 to 3) and the defeat (100 on): she drops, lies still,
/// turns back into herself; 140 is her vanishing in smoke.
pub open spec fn toroko_scripted(n: NPC, st: StateView) -> (NPC, StateView) {
    let k = n.action_num;
    if k == 0 || k == 1 {
        let a = if k == 0 {
            NPC {
                action_num: 1,
                anim_num: 9,
                action_counter: 0,
                npc_flags: NPCFlag(with_bits16(n.npc_flags.0, NPC_INTERACTABLE, false)),
                ..n
            }
        } else {
            n
        };
        let c = tick_counter(a);
        (if c.action_counter > 50 { NPC { action_num: 2, action_counter: 0, anim_num: 8, ..c } } else { c }, st)
    } else if k == 2 {
        let c = tick_counter(flicker(n, 10, 9));
        (if c.action_counter > 50 { NPC { action_num: 3, action_counter: 0, anim_num: 0, ..c } } else { c }, st)
    } else if k == 3 {
        let c = tick_counter(n);
        (if c.action_counter > 50 { NPC { action_num: 10, ..shootable(c, true) } } else { c }, st)
    } else if k == 100 {
        toroko_puffs(NPC { anim_num: 3, action_num: 101, damage: 0, ..shootable(n, false) }, st, 8)
    } else if k == 101 {
        if n.flags.0 & FLAG_HIT_BOTTOM_WALL != 0 {
            (NPC { action_num: 102, action_counter: 0, anim_num: 2, ..n }, thud(st))
        } else {
            (n, st)
        }
    } else if k == 102 {
        let c = tick_counter(NPC { vel_x: trunc_div(8 * n.vel_x, 9) as i32, ..n });
        (if c.action_counter > 50 { NPC { action_num: 103, action_counter: 0, anim_num: 10, ..c } } else { c }, st)
    } else if k == 103 {
        let c = tick_counter(n);
        (if c.action_counter > 50 { NPC { anim_num: 9, action_num: 104, action_counter: 0, ..c } } else { c }, st)
    } else if k == 104 {
        let c = tick_counter(flicker(n, 10, 9));
        (if c.action_counter > 100 { NPC { action_counter: 0, anim_num: 9, action_num: 105, ..c } } else { c }, st)
    } else if k == 105 {
        let c = tick_counter(n);
        (if c.action_counter > 50 { NPC { anim_counter: 0, action_num: 106, anim_num: 11, ..c } } else { c }, st)
    } else if k == 106 {
        let c0 = (n.anim_counter + 1) as u16;
        let a = if c0 > 50 {
            NPC { anim_counter: 0, anim_num: (n.anim_num + 1) as u16, ..n }
        } else {
            NPC { anim_counter: c0, ..n }
        };
        (if a.anim_num > 12 { NPC { anim_num: 12, ..a } } else { a }, st)
    } else {
        let (a, s) = if k == 140 {
            (NPC { action_num: 141, action_counter: 0, anim_num: 12, ..n }, with_sound(st, 29))
        } else {
            (n, st)
        };
        let c = tick_counter(flicker(a, 13, 12));
        if c.action_counter > 100 {
            let (d, s2) = toroko_puffs(c, s, 4);
            (NPC { cond: crate::npc::Condition(with_bits16(d.cond.0, COND_ALIVE, false)), ..d }, s2)
        } else {
            (c, s)
        }
    }
}

/// Whether a state belongs to the fight proper.
pub open spec fn toroko_fighting(k: u16) -> bool {
    (10 <= k <= 11) || (20 <= k <= 26) || (50 <= k <= 52)
}

/// Whether a state is one Toroko acts in.
pub open spec fn toroko_known(k: u16) -> bool {
    k <= 3 || toroko_fighting(k) || (100 <= k <= 106) || k == 140 || k == 141
}

/// One tick of the frenzied Toroko: the state's step; while she lies
/// defeated, a puff every ninth tick; gravity capped at 3 pixels a tick;
/// movement and the frame (right-facing frames start 14 in).
pub open spec fn toroko_frenzied_step(
    n: NPC,
    st: StateView,
    players: [Player; 2],
    bullets: Seq<usize>,
) -> (NPC, StateView) {
    let (a, s1) = if toroko_fighting(n.action_num) {
        toroko_fight(n, st, players, bullets)
    } else if toroko_known(n.action_num) {
        toroko_scripted(n, st)
    } else {
        (n, st)
    };
    let (b, s2) = if 100 < a.action_num <= 104 && a.action_counter % 9 == 0 {
        toroko_puff(a, s1)
    } else {
        (a, s1)
    };
    let vy = clamp(b.vel_y + 0x20, -0x5ff, 0x5ff);
    let m = NPC { vel_y: vy as i32, x: (b.x + b.vel_x) as i32, y: (b.y + vy) as i32, ..b };
    (NPC { anim_rect: dir_frame(m, 14), ..m }, s2)
}


/// The frenzied Toroko moves only by her speed: whatever her state, a tick
/// leaves her falling or rising at most 3 pixels a tick, and her new
/// position is her old one moved by her new speed.
pub proof fn law_toroko_moves_by_her_speed(n: NPC, st: StateView, players: [Player; 2], bullets: Seq<usize>)
    ensures
        ({
            let m = toroko_frenzied_step(n, st, players, bullets).0;
            &&& -0x5ff <= m.vel_y <= 0x5ff
            &&& m.x == (n.x + m.vel_x) as i32
            &&& m.y == (n.y + m.vel_y) as i32
        }),
{
    let (a, s1) = if toroko_fighting(n.action_num) {
        toroko_fight(n, st, players, bullets)
    } else if toroko_known(n.action_num) {
        toroko_scripted(n, st)
    } else {
        (n, st)
    };
    if toroko_fighting(n.action_num) {
        lemma_fight_keeps_place(n, st, players, bullets);
    } else if toroko_known(n.action_num) {
        lemma_scripted_keeps_place(n, st);
    }
    assert(a.x == n.x && a.y == n.y);
}

proof fn lemma_puffs_keep_place(n: NPC, st: StateView, k: nat)
    ensures
        toroko_puffs(n, st, k).0.x == n.x,
        toroko_puffs(n, st, k).0.y == n.y,
    decreases k,
{
    if k > 0 {
        lemma_puffs_keep_place(n, st, (k - 1) as nat);
    }
}

proof fn lemma_fight_keeps_place(n: NPC, st: StateView, players: [Player; 2], bullets: Seq<usize>)
    ensures
        toroko_fight(n, st, players, bullets).0.x == n.x,
        toroko_fight(n, st, players, bullets).0.y == n.y,
{
}

proof fn lemma_scripted_keeps_place(n: NPC, st: StateView)
    ensures
        toroko_scripted(n, st).0.x == n.x,
        toroko_scripted(n, st).0.y == n.y,
{
    lemma_puffs_keep_place(NPC { anim_num: 3, action_num: 101, damage: 0, ..shootable(n, false) }, st, 8);
    let a = if n.action_num == 140 { NPC { action_num: 141, action_counter: 0, anim_num: 12, ..n } } else { n };
    let s = if n.action_num == 140 { with_sound(st, 29) } else { st };
    lemma_puffs_keep_place(tick_counter(flicker(a, 13, 12)), s, 4);
}

/// Inputs a tick of the frenzied Toroko computes in range on.
pub open spec fn toroko_tickable(n: NPC, players: [Player; 2]) -> bool {
    &&& toroko_in_range(n)
    &&& npc_coord_ok(players[0].x)
    &&& npc_coord_ok(players[0].y)
    &&& npc_coord_ok(players[1].x)
    &&& npc_coord_ok(players[1].y)
}

/// The entity's part of `toroko_tickable`.
pub open spec fn toroko_in_range(n: NPC) -> bool {
    let k = n.action_num;
    &&& npc_coord_ok(n.x)
    &&& npc_coord_ok(n.y)
    &&& npc_coord_ok(n.vel_x)
    &&& npc_coord_ok(n.vel_y)
    &&& (k == 1 || k == 2 || k == 3 || k == 21 || k == 22 || k == 23 || k == 24 || k == 26 || k == 51 || k == 52
        || k == 102 || k == 103 || k == 104 || k == 105 || k == 141) ==> n.action_counter < u16::MAX
    &&& (k == 11 || k == 106) ==> n.anim_counter < u16::MAX
    &&& n.anim_num <= u16::MAX - 14
}

impl NPC {
    fn toroko_puff_exec(&mut self, state: &mut SharedGameState)
        requires
            npc_coord_ok(old(self).x),
            npc_coord_ok(old(self).y),
        ensures
            (*final(self), final(state)@) == toroko_puff(*old(self), old(state)@),
            *final(self) == (NPC { rng: final(self).rng, ..*old(self) }),
            final(state)@.npc_table == old(state)@.npc_table,
    {
        let mut npc = state.create_npc(4);
        npc.cond.set_alive(true);
        npc.x = self.x + self.rng.range(-12..12) * 0x200;
        npc.y = self.y + self.rng.range(-12..12) * 0x200;
        npc.vel_y = self.rng.range(-0x600..0);
        npc.vel_x = self.rng.range(-0x155..0x155);
        state.spawn_npc(0x100, npc);
    }

    fn toroko_puffs_exec(&mut self, state: &mut SharedGameState, count: usize)
        requires
            npc_coord_ok(old(self).x),
            npc_coord_ok(old(self).y),
        ensures
            (*final(self), final(state)@) == toroko_puffs(*old(self), old(state)@, count as nat),
            *final(self) == (NPC { rng: final(self).rng, ..*old(self) }),
    {
        let ghost n0 = *self;
        let ghost s0 = state@;
        let mut i: usize = 0;
        while i < count
            invariant
                i <= count,
                *self == (NPC { rng: self.rng, ..n0 }),
                npc_coord_ok(n0.x),
                npc_coord_ok(n0.y),
                state@.npc_table == s0.npc_table,
                (*self, state@) == toroko_puffs(n0, s0, i as nat),
            decreases count - i,
        {
            self.toroko_puff_exec(state);
            i += 1;
        }
    }

    fn toroko_block_exec(&self, state: &mut SharedGameState)
        ensures
            final(state)@ == toroko_block(*self, old(state)@),
    {
        let mut npc = state.create_npc(141);
        npc.cond.set_alive(true);
        npc.parent_id = self.id;
        state.spawn_npc(0, npc);
    }

    fn thud_exec(state: &mut SharedGameState)
        ensures
            final(state)@ == thud(old(state)@),
    {
        state.play_sfx(26);
        state.quake_counter = 20;
        state.quake_rumble_counter = 20;
    }

    fn flicker_exec(&mut self, last: u16, first: u16)
        requires
            old(self).anim_num < u16::MAX,
        ensures
            *final(self) == flicker(*old(self), last, first),
    {
        self.anim_num += 1;
        if self.anim_num > last {
            self.anim_num = first;
        }
    }

    fn toroko_fight_exec(
        &mut self,
        state: &mut SharedGameState,
        players: &[Player; 2],
        bullets: &BulletCounts,
    )
        requires
            toroko_tickable(*old(self), *players),
            toroko_fighting(old(self).action_num),
        ensures
            (*final(self), final(state)@) == toroko_fight(*old(self), old(state)@, *players, bullets@),
            npc_coord_ok(final(self).x),
            npc_coord_ok(final(self).y),
            npc_coord_ok(final(self).vel_x),
            npc_coord_ok(final(self).vel_y),
            final(self).anim_num <= u16::MAX - 14,
    {
        match self.action_num {
            10 | 11 => {
                if self.action_num == 10 {
                    self.action_num = 11;
                    self.anim_num = 0;
                    self.anim_counter = 0;
                    self.action_counter = self.rng.range(20..130) as u16;
                    self.vel_x = 0;
                }
                let idx = self.get_closest_player_idx(players);
                self.face_player(&players[idx]);
                self.anim_counter += 1;
                if self.anim_counter > 4 {
                    self.anim_counter = 0;
                    self.anim_num += 1;
                }
                if self.anim_num > 1 {
                    self.anim_num = 0;
                }
                if bullets.count_bullets_type_idx_all(6) != 0 || bullets.count_bullets_type_idx_all(3) > 3 {
                    self.action_num = 20;
                }
                if self.action_counter != 0 {
                    self.action_counter -= 1;
                } else if self.rng.range(0..99) % 2 != 0 {
                    self.action_num = 20;
                } else {
                    self.action_num = 50;
                }
            },
            20 | 21 => {
                if self.action_num == 20 {
                    self.action_num = 21;
                    self.anim_num = 2;
                    self.action_counter = 0;
                }
                self.action_counter += 1;
                if self.action_counter > 10 {
                    self.action_num = 22;
                    self.action_counter = 0;
                    self.anim_num = 3;
                    self.vel_y = -0x5ff;
                    if self.direction != Direction::Left {
                        self.vel_x = 0x200;
                    } else {
                        self.vel_x = -0x200;
                    }
                }
            },
            22 => {
                self.action_counter += 1;
                if self.action_counter > 10 {
                    self.action_num = 23;
                    self.action_counter = 0;
                    self.anim_num = 6;
                    self.toroko_block_exec(state);
                }
            },
            23 => {
                self.action_counter += 1;
                if self.action_counter > 30 {
                    self.action_num = 24;
                    self.action_counter = 0;
                    self.anim_num = 7;
                }
                let idx = self.get_closest_player_idx(players);
                self.face_player(&players[idx]);
            },
            24 => {
                self.action_counter += 1;
                if self.action_counter > 3 {
                    self.action_num = 25;
                    self.anim_num = 3;
                }
            },
            25 => {
                if self.flags.hit_bottom_wall() {
                    self.action_num = 26;
                    self.action_counter = 0;
                    self.anim_num = 2;
                    NPC::thud_exec(state);
                }
            },
            26 => {
                self.vel_x = scale_i32(self.vel_x, 8, 9);
                self.action_counter += 1;
                if self.action_counter > 20 {
                    self.action_num = 10;
                    self.anim_num = 0;
                }
            },
            50 | 51 => {
                if self.action_num == 50 {
                    self.action_num = 51;
                    self.action_counter = 0;
                    self.anim_num = 4;
                    self.toroko_block_exec(state);
                }
                self.action_counter += 1;
                if self.action_counter > 30 {
                    self.action_num = 52;
                    self.action_counter = 0;
                    self.anim_num = 5;
                }
                let idx = self.get_closest_player_idx(players);
                self.face_player(&players[idx]);
            },
            _ => {
                self.action_counter += 1;
                if self.action_counter > 3 {
                    self.action_num = 10;
                    self.anim_num = 0;
                }
            },
        }
    }

    fn toroko_scripted_exec(&mut self, state: &mut SharedGameState)
        requires
            toroko_in_range(*old(self)),
            toroko_known(old(self).action_num),
            !toroko_fighting(old(self).action_num),
        ensures
            (*final(self), final(state)@) == toroko_scripted(*old(self), old(state)@),
            npc_coord_ok(final(self).x),
            npc_coord_ok(final(self).y),
            npc_coord_ok(final(self).vel_x),
            npc_coord_ok(final(self).vel_y),
            final(self).anim_num <= u16::MAX - 14,
    {
        match self.action_num {
            0 | 1 => {
                if self.action_num == 0 {
                    self.action_num = 1;
                    self.anim_num = 9;
                    self.action_counter = 0;
                    self.npc_flags.set_interactable(false);
                }
                self.action_counter += 1;
                if self.action_counter > 50 {
                    self.action_num = 2;
                    self.action_counter = 0;
                    self.anim_num = 8;
                }
            },
            2 => {
                self.flicker_exec(10, 9);
                self.action_counter += 1;
                if self.action_counter > 50 {
                    self.action_num = 3;
                    self.action_counter = 0;
                    self.anim_num = 0;
                }
            },
            3 => {
                self.action_counter += 1;
                if self.action_counter > 50 {
                    self.action_num = 10;
                    self.npc_flags.set_shootable(true);
                }
            },
            100 => {
                self.anim_num = 3;
                self.action_num = 101;
                self.npc_flags.set_shootable(false);
                self.damage = 0;
                self.toroko_puffs_exec(state, 8);
            },
            101 => {
                if self.flags.hit_bottom_wall() {
                    self.action_num = 102;
                    self.action_counter = 0;
                    self.anim_num = 2;
                    NPC::thud_exec(state);
                }
            },
            102 => {
                self.vel_x = scale_i32(self.vel_x, 8, 9);
                self.action_counter += 1;
                if self.action_counter > 50 {
                    self.action_num = 103;
                    self.action_counter = 0;
                    self.anim_num = 10;
                }
            },
            103 => {
                self.action_counter += 1;
                if self.action_counter > 50 {
                    self.anim_num = 9;
                    self.action_num = 104;
                    self.action_counter = 0;
                }
            },
            104 => {
                self.flicker_exec(10, 9);
                self.action_counter += 1;
                if self.action_counter > 100 {
                    self.action_counter = 0;
                    self.anim_num = 9;
                    self.action_num = 105;
                }
            },
            105 => {
                self.action_counter += 1;
                if self.action_counter > 50 {
                    self.anim_counter = 0;
                    self.action_num = 106;
                    self.anim_num = 11;
                }
            },
            106 => {
                self.anim_counter += 1;
                if self.anim_counter > 50 {
                    self.anim_counter = 0;
                    self.anim_num += 1;
                }
                if self.anim_num > 12 {
                    self.anim_num = 12;
                }
            },
            _ => {
                if self.action_num == 140 {
                    self.action_num = 141;
                    self.action_counter = 0;
                    self.anim_num = 12;
                    state.play_sfx(29);
                }
                self.flicker_exec(13, 12);
                self.action_counter += 1;
                if self.action_counter > 100 {
                    self.toroko_puffs_exec(state, 4);
                    self.cond.set_alive(false);
                }
            },
        }
    }

    /// Toroko frenzied; see `toroko_frenzied_step`. `bullets` gives the
    /// live player bullets by type.
    pub fn tick_n140_toroko_frenzied(
        &mut self,
        state: &mut SharedGameState,
        players: &[Player; 2],
        bullets: &BulletCounts,
    )
        requires
            toroko_tickable(*old(self), *players),
        ensures
            (*final(self), final(state)@) == toroko_frenzied_step(*old(self), old(state)@, *players, bullets@),
    {
        let k = self.action_num;
        if (10 <= k && k <= 11) || (20 <= k && k <= 26) || (50 <= k && k <= 52) {
            self.toroko_fight_exec(state, players, bullets);
        } else if k <= 3 || (100 <= k && k <= 106) || k == 140 || k == 141 {
            self.toroko_scripted_exec(state);
        }
        if self.action_num > 100 && self.action_num <= 104 && self.action_counter % 9 == 0 {
            self.toroko_puff_exec(state);
        }
        self.vel_y += 0x20;
        if self.vel_y < -0x5ff {
            self.vel_y = -0x5ff;
        } else if self.vel_y > 0x5ff {
            self.vel_y = 0x5ff;
        }
        self.x += self.vel_x;
        self.y += self.vel_y;
        self.anim_rect = if self.direction == Direction::Left {
            self.anim_num
        } else {
            self.anim_num + 14
        };
    }
}

/// Toroko's running frames: every third tick the next of frames 1 to 4.
pub open spec fn toroko_frames(a: NPC) -> NPC {
    let c0 = (a.anim_counter + 1) as u16;
    let b = if c0 > 2 { NPC { anim_counter: 0, anim_num: (a.anim_num + 1) as u16, ..a } } else { NPC { anim_counter: c0, ..a } };
    if b.anim_num > 4 { NPC { anim_num: 1, ..b } } else { b }
}

/// Speed `v` towards where the entity faces.
pub open spec fn ahead(n: NPC, v: i32) -> i32 {
    if n.direction == Direction::Left { (-v) as i32 } else { v }
}

/// Toroko's states before the movement: standing and blinking at random,
/// turning to a player who comes near (0, 1, 2); running, turned round by
/// walls (3, 4); jumping while running until she lands (6, 7); a hop (8,
/// 9); knocked down, lying where she lands until spoken to (10 to 12).
pub open spec fn village_toroko_action(n: NPC, st: StateView, players: [Player; 2]) -> (NPC, StateView) {
    let k = n.action_num;
    let hit_bottom = n.flags.0 & FLAG_HIT_BOTTOM_WALL != 0;
    if k == 0 || k == 1 {
        let b = if k == 0 { NPC { action_num: 1, anim_num: 0, anim_counter: 0, vel_x: 0, ..n } } else { n };
        let (r, m) = roll(b, 0i32, 120i32);
        let c = if r == 10 { NPC { action_num: 2, action_counter: 0, anim_num: 1, ..m } } else { m };
        let p = players[closest_player(c.x, c.y, players) as int];
        let near = c.x - 0x2000 < p.x && c.x + 0x2000 > p.x && c.y - 0x2000 < p.y && c.y + 0x2000 > p.y;
        (if near { face_player(c, p) } else { c }, st)
    } else if k == 2 {
        let c = tick_counter(n);
        (if c.action_counter > 8 { NPC { action_num: 1, anim_num: 0, ..c } } else { c }, st)
    } else if k == 3 || k == 4 {
        let a = toroko_frames(if k == 3 { NPC { action_num: 4, anim_num: 1, anim_counter: 0, ..n } } else { n });
        let b = if a.flags.0 & FLAG_HIT_LEFT_WALL != 0 { NPC { direction: Direction::Right, ..a } } else { a };
        let c = if b.flags.0 & FLAG_HIT_RIGHT_WALL != 0 { NPC { direction: Direction::Left, ..b } } else { b };
        (NPC { vel_x: ahead(c, 0x400), ..c }, st)
    } else if k == 6 || k == 7 {
        let a = toroko_frames(
            if k == 6 { NPC { action_num: 7, action_counter: 0, anim_num: 1, anim_counter: 0, vel_y: -0x400i32, ..n } } else { n },
        );
        let b = NPC { vel_x: ahead(a, 0x100), ..a };
        let c = if b.action_counter != 0 && hit_bottom { NPC { action_num: 3, ..b } } else { b };
        (tick_counter(c), st)
    } else if k == 8 || k == 9 {
        let a = if k == 8 { NPC { anim_num: 1, action_counter: 0, action_num: 9, vel_y: -0x200i32, ..n } } else { n };
        let c = if a.action_counter != 0 && hit_bottom { NPC { action_num: 0, ..a } } else { a };
        (tick_counter(c), st)
    } else if k == 10 {
        (NPC { action_num: 11, anim_num: 6, vel_y: -0x400i32, vel_x: ahead(n, 0x100), ..n }, with_sound(st, 50))
    } else if k == 11 {
        let c = if n.action_counter != 0 && hit_bottom {
            NPC { action_num: 12, anim_num: 7, npc_flags: NPCFlag(with_bits16(n.npc_flags.0, NPC_INTERACTABLE, true)), ..n }
        } else {
            n
        };
        (tick_counter(c), st)
    } else if k == 12 {
        (NPC { vel_x: 0, ..n }, st)
    } else {
        (n, st)
    }
}

/// One tick of Toroko in Mimiga Village: her state's step, gravity, speed
/// capped at 2 pixels sideways and 3 falling, movement and the frame
/// (right-facing frames start 8 in).
pub open spec fn village_toroko_step(n: NPC, st: StateView, players: [Player; 2]) -> (NPC, StateView) {
    let (a, s) = village_toroko_action(n, st, players);
    let vx = clamp(a.vel_x as int, -0x400, 0x400);
    let vy0 = a.vel_y + 0x40;
    let vy = if vy0 > 0x5ff { 0x5ff } else { vy0 };
    let m = NPC { vel_x: vx as i32, vel_y: vy as i32, x: (a.x + vx) as i32, y: (a.y + vy) as i32, ..a };
    (NPC { anim_rect: dir_frame(m, 8), ..m }, s)
}

/// Inputs a tick of Toroko computes in range on.
pub open spec fn village_toroko_tickable(n: NPC, players: [Player; 2]) -> bool {
    let k = n.action_num;
    &&& npc_coord_ok(n.x)
    &&& npc_coord_ok(n.y)
    &&& npc_coord_ok(n.vel_x)
    &&& npc_coord_ok(n.vel_y)
    &&& npc_coord_ok(players[0].x)
    &&& npc_coord_ok(players[0].y)
    &&& npc_coord_ok(players[1].x)
    &&& npc_coord_ok(players[1].y)
    &&& (k == 2 || k == 7 || k == 9 || k == 11) ==> n.action_counter < u16::MAX
    &&& (k == 4 || k == 7) ==> n.anim_counter < u16::MAX
    &&& n.anim_num <= u16::MAX - 8
}

impl NPC {
    fn toroko_frames_exec(&mut self)
        requires
            old(self).anim_counter < u16::MAX,
            old(self).anim_num < u16::MAX,
        ensures
            *final(self) == toroko_frames(*old(self)),
    {
        self.anim_counter += 1;
        if self.anim_counter > 2 {
            self.anim_counter = 0;
            self.anim_num += 1;
        }
        if self.anim_num > 4 {
            self.anim_num = 1;
        }
    }

    fn village_toroko_action_exec(&mut self, state: &mut SharedGameState, players: &[Player; 2])
        requires
            village_toroko_tickable(*old(self), *players),
        ensures
            (*final(self), final(state)@) == village_toroko_action(*old(self), old(state)@, *players),
    {
        match self.action_num {
            0 | 1 => {
                if self.action_num == 0 {
                    self.action_num = 1;
                    self.anim_num = 0;
                    self.anim_counter = 0;
                    self.vel_x = 0;
                }
                if self.rng.range(0..120) == 10 {
                    self.action_num = 2;
                    self.action_counter = 0;
                    self.anim_num = 1;
                }
                let p = players[self.get_closest_player_idx(players)];
                if self.x - 0x2000 < p.x && self.x + 0x2000 > p.x && self.y - 0x2000 < p.y && self.y + 0x2000 > p.y {
                    self.direction = if self.x > p.x {
                        Direction::Left
                    } else {
                        Direction::Right
                    };
                }
            },
            2 => {
                self.action_counter += 1;
                if self.action_counter > 8 {
                    self.action_num = 1;
                    self.anim_num = 0;
                }
            },
            3 | 4 => {
                if self.action_num == 3 {
                    self.action_num = 4;
                    self.anim_num = 1;
                    self.anim_counter = 0;
                }
                self.toroko_frames_exec();
                if self.flags.hit_left_wall() {
                    self.direction = Direction::Right;
                    self.vel_x = 0x200;
                }
                if self.flags.hit_right_wall() {
                    self.direction = Direction::Left;
                    self.vel_x = -0x200;
                }
                self.vel_x = if self.direction == Direction::Left {
                    -0x400
                } else {
                    0x400
                };
            },
            6 | 7 => {
                if self.action_num == 6 {
                    self.action_num = 7;
                    self.action_counter = 0;
                    self.anim_num = 1;
                    self.anim_counter = 0;
                    self.vel_y = -0x400;
                }
                self.toroko_frames_exec();
                self.vel_x = if self.direction == Direction::Left {
                    -0x100
                } else {
                    0x100
                };
                if self.action_counter != 0 && self.flags.hit_bottom_wall() {
                    self.action_num = 3;
                }
                self.action_counter += 1;
            },
            8 | 9 => {
                if self.action_num == 8 {
                    self.anim_num = 1;
                    self.action_counter = 0;
                    self.action_num = 9;
                    self.vel_y = -0x200;
                }
                if self.action_counter != 0 && self.flags.hit_bottom_wall() {
                    self.action_num = 0;
                }
                self.action_counter += 1;
            },
            10 => {
                self.action_num = 11;
                self.anim_num = 6;
                self.vel_y = -0x400;
                state.play_sfx(50);
                self.vel_x = if self.direction == Direction::Left {
                    -0x100
                } else {
                    0x100
                };
            },
            11 => {
                if self.action_counter != 0 && self.flags.hit_bottom_wall() {
                    self.action_num = 12;
                    self.anim_num = 7;
                    self.npc_flags.set_interactable(true);
                }
                self.action_counter += 1;
            },
            12 => {
                self.vel_x = 0;
            },
            _ => {},
        }
    }

    /// Toroko in Mimiga Village; see `village_toroko_step`.
    pub fn tick_n060_toroko(&mut self, state: &mut SharedGameState, players: &[Player; 2])
        requires
            village_toroko_tickable(*old(self), *players),
        ensures
            (*final(self), final(state)@) == village_toroko_step(*old(self), old(state)@, *players),
    {
        self.village_toroko_action_exec(state, players);
        self.vel_y += 0x40;
        self.vel_x = clamp_i32(self.vel_x, -0x400, 0x400);
        self.clamp_fall_speed();
        self.x += self.vel_x;
        self.y += self.vel_y;
        self.anim_rect = if self.direction == Direction::Left {
            self.anim_num
        } else {
            self.anim_num + 8
        };
    }
}

/// The frames of Toroko with her stick: every third tick the next of
/// frames 0 to 3.
pub open spec fn stick_frames(a: NPC) -> NPC {
    let c0 = (a.anim_counter + 1) as u16;
    if c0 > 2 {
        let f = (a.anim_num + 1) as u16;
        NPC { anim_counter: 0, anim_num: if f > 3 { 0 } else { f }, ..a }
    } else {
        NPC { anim_counter: c0, ..a }
    }
}

/// Toroko with her stick, before the movement: jumping in (0, 1), solid
/// again once she falls; running about, turning every 10 ticks after 50
/// and shootable after 35 (2, 3); hit, knocked off her feet (4) until she
/// lands, then lying there to be spoken to (5).
pub open spec fn stick_action(n: NPC) -> NPC {
    let k = n.action_num;
    let hit_bottom = n.flags.0 & FLAG_HIT_BOTTOM_WALL != 0;
    if k == 0 || k == 1 {
        let b = if k == 0 { NPC { action_num: 1, action_counter: 0, anim_counter: 0, vel_y: -0x400i32, ..n } } else { n };
        let b1 = if b.vel_y > 0 { ignoring_solidity(b, false) } else { b };
        let v = NPC { vel_x: (0x100 * spec_vector_x(b1.direction)) as i32, ..stick_frames(b1) };
        tick_counter(if v.action_counter != 0 && hit_bottom { NPC { action_num: 2, ..v } } else { v })
    } else if k == 2 || k == 3 {
        let b = if k == 2 { NPC { action_num: 3, action_counter: 0, anim_num: 0, anim_counter: 0, ..n } } else { n };
        let c = tick_counter(stick_frames(b));
        let d = if c.action_counter > 50 {
            NPC { action_counter: 40, vel_x: (-c.vel_x) as i32, direction: spec_opposite(c.direction), ..c }
        } else {
            c
        };
        let e = if d.action_counter > 35 { shootable(d, true) } else { d };
        let f = NPC { vel_x: (e.vel_x + 0x40 * spec_vector_x(e.direction)) as i32, ..e };
        if f.shock > 0 { NPC { action_num: 4, anim_num: 4, vel_y: -0x400i32, damage: 0, ..shootable(f, false) } } else { f }
    } else if k == 4 {
        let v = NPC { vel_x: (0x100 * spec_vector_x(n.direction)) as i32, ..n };
        tick_counter(if v.action_counter != 0 && hit_bottom {
            NPC { action_num: 5, npc_flags: NPCFlag(with_bits16(v.npc_flags.0, NPC_INTERACTABLE, true)), ..v }
        } else {
            v
        })
    } else if k == 5 {
        NPC { vel_x: 0, anim_num: 5, ..n }
    } else {
        n
    }
}

/// One tick of Toroko with her stick: her state's step, gravity, speed
/// capped at 2 pixels sideways and 3 falling, movement and the frame
/// (right-facing frames start 6 in).
pub open spec fn toroko_stick_step(n: NPC) -> NPC {
    let a = stick_action(n);
    let vx = clamp(a.vel_x as int, -0x400, 0x400);
    let vy0 = a.vel_y + 0x40;
    let vy = if vy0 > 0x5ff { 0x5ff } else { vy0 };
    let m = NPC { vel_x: vx as i32, vel_y: vy as i32, x: (a.x + vx) as i32, y: (a.y + vy) as i32, ..a };
    NPC { anim_rect: dir_frame(m, 6), ..m }
}

/// Inputs a tick of Toroko with her stick computes in range on.
pub open spec fn toroko_stick_tickable(n: NPC) -> bool {
    let k = n.action_num;
    &&& npc_coord_ok(n.x)
    &&& npc_coord_ok(n.y)
    &&& npc_coord_ok(n.vel_x)
    &&& npc_coord_ok(n.vel_y)
    &&& (k == 1 || k == 3 || k == 4) ==> n.action_counter < u16::MAX
    &&& (k == 1 || k == 3) ==> n.anim_counter < u16::MAX
    &&& (k == 3 && n.action_counter >= 50) ==> n.direction != Direction::FacingPlayer
    &&& n.anim_num <= u16::MAX - 6
}

impl NPC {
    fn stick_frames_exec(&mut self)
        requires
            old(self).anim_counter < u16::MAX,
            old(self).anim_num < u16::MAX,
        ensures
            *final(self) == stick_frames(*old(self)),
    {
        self.anim_counter += 1;
        if self.anim_counter > 2 {
            self.anim_counter = 0;
            self.anim_num += 1;
            if self.anim_num > 3 {
                self.anim_num = 0;
            }
        }
    }

    fn stick_action_exec(&mut self)
        requires
            toroko_stick_tickable(*old(self)),
        ensures
            *final(self) == stick_action(*old(self)),
    {
        match self.action_num {
            0 | 1 => {
                if self.action_num == 0 {
                    self.action_num = 1;
                    self.action_counter = 0;
                    self.anim_counter = 0;
                    self.vel_y = -0x400;
                }
                if self.vel_y > 0 {
                    self.npc_flags.set_ignore_solidity(false);
                }
                self.stick_frames_exec();
                self.vel_x = 0x100 * self.direction.vector_x();
                if self.action_counter != 0 && self.flags.hit_bottom_wall() {
                    self.action_num = 2;
                }
                self.action_counter += 1;
            },
            2 | 3 => {
                if self.action_num == 2 {
                    self.action_num = 3;
                    self.action_counter = 0;
                    self.anim_num = 0;
                    self.anim_counter = 0;
                }
                self.stick_frames_exec();
                self.action_counter += 1;
                if self.action_counter > 50 {
                    self.action_counter = 40;
                    self.vel_x = -self.vel_x;
                    self.direction = self.direction.opposite();
                }
                if self.action_counter > 35 {
                    self.npc_flags.set_shootable(true);
                }
                self.vel_x += 0x40 * self.direction.vector_x();
                if self.shock > 0 {
                    self.action_num = 4;
                    self.anim_num = 4;
                    self.vel_y = -0x400;
                    self.npc_flags.set_shootable(false);
                    self.damage = 0;
                }
            },
            4 => {
                self.vel_x = 0x100 * self.direction.vector_x();
                if self.action_counter != 0 && self.flags.hit_bottom_wall() {
                    self.action_num = 5;
                    self.npc_flags.set_interactable(true);
                }
                self.action_counter += 1;
            },
            5 => {
                self.vel_x = 0;
                self.anim_num = 5;
            },
            _ => {},
        }
    }

    /// Toroko with her stick; see `toroko_stick_step`.
    pub fn tick_n063_toroko_stick(&mut self)
        requires
            toroko_stick_tickable(*old(self)),
        ensures
            *final(self) == toroko_stick_step(*old(self)),
    {
        self.stick_action_exec();
        self.vel_y += 0x40;
        self.vel_x = clamp_i32(self.vel_x, -0x400, 0x400);
        self.clamp_fall_speed();
        self.x += self.vel_x;
        self.y += self.vel_y;
        self.anim_rect = if self.direction == Direction::Left {
            self.anim_num
        } else {
            self.anim_num + 6
        };
    }
}


/// One tick of Toroko teleporting in: she shimmers into view over 64 ticks
/// (1: the sound of teleporting, flickering half a pixel sideways every
/// other two ticks); then (2) falls, legs kicking (frames 2 and 3), and
/// lands (4, sound 23); standing (10, 11) she blinks now and then (12);
/// gravity, fall speed capped at 3 pixels, once she has appeared
/// (right-facing frames start 5 in). How much of her the shimmer shows is
/// the renderer's.
pub open spec fn toroko_teleport_step(n: NPC, st: StateView) -> (NPC, StateView) {
    let k = n.action_num;
    let (a, st1) = if k == 0 || k == 1 {
        let (b, s) = if k == 0 {
            (NPC { action_num: 1, anim_num: 0, anim_counter: 0, target_x: n.x, ..n }, with_sound(st, 29))
        } else {
            (n, st)
        };
        let c = tick_counter(b);
        (if c.action_counter == 64 { NPC { action_num: 2, action_counter: 0, ..c } } else { c }, s)
    } else if k == 2 {
        let b = if n.anim_counter + 1 > 2 {
            NPC { anim_counter: 0, anim_num: (n.anim_num + 1) as u16, ..n }
        } else {
            NPC { anim_counter: (n.anim_counter + 1) as u16, ..n }
        };
        let c = if b.anim_num > 3 { NPC { anim_num: 2, ..b } } else { b };
        if c.flags.0 & FLAG_HIT_BOTTOM_WALL != 0 {
            (NPC { action_num: 4, action_counter: 0, anim_num: 4, ..c }, with_sound(st, 23))
        } else {
            (c, st)
        }
    } else if k == 10 || k == 11 {
        let b = if k == 10 { NPC { action_num: 11, anim_num: 0, anim_counter: 0, ..n } } else { n };
        let (r, m) = roll(b, 0i32, 120i32);
        (if r == 10 { NPC { action_num: 12, action_counter: 0, anim_num: 1, ..m } } else { m }, st)
    } else if k == 12 {
        let c = tick_counter(n);
        (if c.action_counter > 8 { NPC { action_num: 11, anim_num: 0, ..c } } else { c }, st)
    } else {
        (n, st)
    };
    let m = if a.action_num > 1 {
        let vy0 = a.vel_y + 0x20;
        let vy = if vy0 > 0x5ff { 0x5ff } else { vy0 };
        NPC { vel_y: vy as i32, y: (a.y + vy) as i32, ..a }
    } else {
        a
    };
    let r = NPC { anim_rect: dir_frame(m, 5), ..m };
    (
        if r.action_num == 1 {
            NPC { x: if (r.action_counter / 2) & 1u16 != 0 { r.target_x } else { (r.target_x + 512) as i32 }, ..r }
        } else {
            r
        },
        st1,
    )
}

impl NPC {
    /// Toroko teleporting in; see `toroko_teleport_step`.
    pub fn tick_n144_toroko_teleporting_in(&mut self, state: &mut SharedGameState)
        requires
            npc_coord_ok(old(self).x),
            npc_coord_ok(old(self).y),
            npc_coord_ok(old(self).vel_y),
            npc_coord_ok(old(self).target_x),
            old(self).action_num <= 1 || old(self).action_num == 12 ==> old(self).action_counter < u16::MAX,
            old(self).action_num == 2 ==> old(self).anim_counter < u16::MAX,
            old(self).anim_num <= u16::MAX - 5,
        ensures
            (*final(self), final(state)@) == toroko_teleport_step(*old(self), old(state)@),
    {
        let k = self.action_num;
        if k == 0 || k == 1 {
            if k == 0 {
                self.action_num = 1;
                self.anim_num = 0;
                self.anim_counter = 0;
                self.target_x = self.x;
                state.play_sfx(29);
            }
            self.action_counter += 1;
            if self.action_counter == 64 {
                self.action_num = 2;
                self.action_counter = 0;
            }
        } else if k == 2 {
            self.anim_counter += 1;
            if self.anim_counter > 2 {
                self.anim_counter = 0;
                self.anim_num += 1;
            }
            if self.anim_num > 3 {
                self.anim_num = 2;
            }
            if self.flags.hit_bottom_wall() {
                self.action_num = 4;
                self.action_counter = 0;
                self.anim_num = 4;
                state.play_sfx(23);
            }
        } else if k == 10 || k == 11 {
            if k == 10 {
                self.action_num = 11;
                self.anim_num = 0;
                self.anim_counter = 0;
            }
            if self.rng.range(0..120) == 10 {
                self.action_num = 12;
                self.action_counter = 0;
                self.anim_num = 1;
            }
        } else if k == 12 {
            self.action_counter += 1;
            if self.action_counter > 8 {
                self.action_num = 11;
                self.anim_num = 0;
            }
        }
        if self.action_num > 1 {
            self.vel_y += 0x20;
            self.clamp_fall_speed();
            self.y += self.vel_y;
        }
        self.anim_rect = if self.direction == Direction::Left {
            self.anim_num
        } else {
            self.anim_num + 5
        };
        if self.action_num == 1 {
            self.x = if (self.action_counter / 2) & 1 != 0 {
                self.target_x
            } else {
                self.target_x + 512
            };
        }
    }
}

} // verus!
