//! Non-player characters: the entity record, its flag words, the parts of
//! the game state an NPC's behaviour reads and writes, and the shared
//! movement helpers used by the behaviour state machines.

pub mod ai;
pub mod boss;
pub mod core_boss;
pub mod ironhead;
pub mod list;

use vstd::prelude::*;

use crate::common::Direction;
use crate::rng::{mix_seed, mix_seed_exec, state_of_seed, Xoroshiro32PlusPlus};

verus! {

/// `bits` with the bits of `mask` set (`v`) or cleared (`!v`).
pub open spec fn with_bits16(bits: u16, mask: u16, v: bool) -> u16 {
    if v {
        bits | mask
    } else {
        bits & !mask
    }
}

fn set_bits16(bits: u16, mask: u16, v: bool) -> (r: u16)
    ensures
        r == with_bits16(bits, mask, v),
{
    if v {
        bits | mask
    } else {
        bits & !mask
    }
}

pub const COND_INTERACTED: u16 = 0x01;
pub const COND_HIDDEN: u16 = 0x02;
pub const COND_EXPLODE_DIE: u16 = 0x08;
pub const COND_DAMAGE_BOSS: u16 = 0x10;
pub const COND_INCREASE_ACCELERATION: u16 = 0x20;
pub const COND_ALIVE: u16 = 0x80;
pub const COND_DRS_BOSS: u16 = 0x8000;

/// Condition word of an entity.
#[derive(Clone, Copy, Debug, PartialEq, Eq)]
pub struct Condition(pub u16);

impl Condition {
    pub fn alive(&self) -> (r: bool)
        ensures
            r == (self.0 & COND_ALIVE != 0),
    {
        self.0 & COND_ALIVE != 0
    }

    pub fn set_alive(&mut self, v: bool)
        ensures
            final(self).0 == with_bits16(old(self).0, COND_ALIVE, v),
    {
        self.0 = set_bits16(self.0, COND_ALIVE, v);
    }

    pub fn hidden(&self) -> (r: bool)
        ensures
            r == (self.0 & COND_HIDDEN != 0),
    {
        self.0 & COND_HIDDEN != 0
    }

    pub fn set_hidden(&mut self, v: bool)
        ensures
            final(self).0 == with_bits16(old(self).0, COND_HIDDEN, v),
    {
        self.0 = set_bits16(self.0, COND_HIDDEN, v);
    }

    pub fn set_interacted(&mut self, v: bool)
        ensures
            final(self).0 == with_bits16(old(self).0, COND_INTERACTED, v),
    {
        self.0 = set_bits16(self.0, COND_INTERACTED, v);
    }

    pub fn set_explode_die(&mut self, v: bool)
        ensures
            final(self).0 == with_bits16(old(self).0, COND_EXPLODE_DIE, v),
    {
        self.0 = set_bits16(self.0, COND_EXPLODE_DIE, v);
    }

    pub fn set_damage_boss(&mut self, v: bool)
        ensures
            final(self).0 == with_bits16(old(self).0, COND_DAMAGE_BOSS, v),
    {
        self.0 = set_bits16(self.0, COND_DAMAGE_BOSS, v);
    }

    pub fn set_increase_acceleration(&mut self, v: bool)
        ensures
            final(self).0 == with_bits16(old(self).0, COND_INCREASE_ACCELERATION, v),
    {
        self.0 = set_bits16(self.0, COND_INCREASE_ACCELERATION, v);
    }

    pub fn set_drs_boss(&mut self, v: bool)
        ensures
            final(self).0 == with_bits16(old(self).0, COND_DRS_BOSS, v),
    {
        self.0 = set_bits16(self.0, COND_DRS_BOSS, v);
    }
}

pub const FLAG_HIT_LEFT_WALL: u32 = 0x01;
pub const FLAG_HIT_TOP_WALL: u32 = 0x02;
pub const FLAG_HIT_RIGHT_WALL: u32 = 0x04;
pub const FLAG_HIT_BOTTOM_WALL: u32 = 0x08;

/// Collision flags an entity picked up during the last physics step.
#[derive(Clone, Copy, Debug, PartialEq, Eq)]
pub struct Flag(pub u32);

impl Flag {
    pub fn hit_left_wall(&self) -> (r: bool)
        ensures
            r == (self.0 & FLAG_HIT_LEFT_WALL != 0),
    {
        self.0 & FLAG_HIT_LEFT_WALL != 0
    }

    pub fn hit_top_wall(&self) -> (r: bool)
        ensures
            r == (self.0 & FLAG_HIT_TOP_WALL != 0),
    {
        self.0 & FLAG_HIT_TOP_WALL != 0
    }

    pub fn hit_right_wall(&self) -> (r: bool)
        ensures
            r == (self.0 & FLAG_HIT_RIGHT_WALL != 0),
    {
        self.0 & FLAG_HIT_RIGHT_WALL != 0
    }

    pub fn hit_bottom_wall(&self) -> (r: bool)
        ensures
            r == (self.0 & FLAG_HIT_BOTTOM_WALL != 0),
    {
        self.0 & FLAG_HIT_BOTTOM_WALL != 0
    }
}

/// The equipment bit of the Booster 2.0.
pub const EQUIP_BOOSTER_2_0: u16 = 0x20;

pub const NPC_SOLID_SOFT: u16 = 0x01;
pub const NPC_INVULNERABLE: u16 = 0x04;
pub const NPC_IGNORE_SOLIDITY: u16 = 0x08;
pub const NPC_SHOOTABLE: u16 = 0x20;
pub const NPC_REAR_AND_TOP_NOT_HURT: u16 = 0x80;
pub const NPC_SOLID_HARD: u16 = 0x40;
pub const NPC_EVENT_WHEN_KILLED: u16 = 0x200;
pub const NPC_INTERACTABLE: u16 = 0x2000;
pub const NPC_SHOW_DAMAGE: u16 = 0x8000;

/// Behaviour flags of an entity, as stored in the NPC table.
#[derive(Clone, Copy, Debug, PartialEq, Eq)]
pub struct NPCFlag(pub u16);

impl NPCFlag {
    pub fn shootable(&self) -> (r: bool)
        ensures
            r == (self.0 & NPC_SHOOTABLE != 0),
    {
        self.0 & NPC_SHOOTABLE != 0
    }

    pub fn set_solid_soft(&mut self, v: bool)
        ensures
            final(self).0 == with_bits16(old(self).0, NPC_SOLID_SOFT, v),
    {
        self.0 = set_bits16(self.0, NPC_SOLID_SOFT, v);
    }

    pub fn set_invulnerable(&mut self, v: bool)
        ensures
            final(self).0 == with_bits16(old(self).0, NPC_INVULNERABLE, v),
    {
        self.0 = set_bits16(self.0, NPC_INVULNERABLE, v);
    }

    pub fn set_ignore_solidity(&mut self, v: bool)
        ensures
            final(self).0 == with_bits16(old(self).0, NPC_IGNORE_SOLIDITY, v),
    {
        self.0 = set_bits16(self.0, NPC_IGNORE_SOLIDITY, v);
    }

    pub fn set_shootable(&mut self, v: bool)
        ensures
            final(self).0 == with_bits16(old(self).0, NPC_SHOOTABLE, v),
    {
        self.0 = set_bits16(self.0, NPC_SHOOTABLE, v);
    }

    pub fn set_rear_and_top_not_hurt(&mut self, v: bool)
        ensures
            final(self).0 == with_bits16(old(self).0, NPC_REAR_AND_TOP_NOT_HURT, v),
    {
        self.0 = set_bits16(self.0, NPC_REAR_AND_TOP_NOT_HURT, v);
    }

    pub fn set_solid_hard(&mut self, v: bool)
        ensures
            final(self).0 == with_bits16(old(self).0, NPC_SOLID_HARD, v),
    {
        self.0 = set_bits16(self.0, NPC_SOLID_HARD, v);
    }

    pub fn set_event_when_killed(&mut self, v: bool)
        ensures
            final(self).0 == with_bits16(old(self).0, NPC_EVENT_WHEN_KILLED, v),
    {
        self.0 = set_bits16(self.0, NPC_EVENT_WHEN_KILLED, v);
    }

    pub fn set_interactable(&mut self, v: bool)
        ensures
            final(self).0 == with_bits16(old(self).0, NPC_INTERACTABLE, v),
    {
        self.0 = set_bits16(self.0, NPC_INTERACTABLE, v);
    }

    pub fn set_show_damage(&mut self, v: bool)
        ensures
            final(self).0 == with_bits16(old(self).0, NPC_SHOW_DAMAGE, v),
    {
        self.0 = set_bits16(self.0, NPC_SHOW_DAMAGE, v);
    }
}

/// Bounding box offsets from an entity's position, in 1/512 pixel units.
#[derive(Clone, Copy, Debug, PartialEq, Eq)]
pub struct Rect {
    pub left: u32,
    pub top: u32,
    pub right: u32,
    pub bottom: u32,
}

pub open spec fn zero_rect() -> Rect {
    Rect { left: 0, top: 0, right: 0, bottom: 0 }
}

/// An entity of the current stage. Positions and velocities are in 1/512
/// pixel units; `anim_rect` is the index of the frame in the type's sprite
/// table.
#[derive(Clone, Copy, Debug, PartialEq, Eq)]
pub struct NPC {
    pub id: u16,
    pub npc_type: u16,
    pub x: i32,
    pub y: i32,
    pub vel_x: i32,
    pub vel_y: i32,
    pub vel_x2: i32,
    pub vel_y2: i32,
    pub target_x: i32,
    pub target_y: i32,
    pub exp: u16,
    pub size: u8,
    pub shock: u16,
    pub life: u16,
    pub damage: u16,
    pub spritesheet_id: u16,
    pub cond: Condition,
    pub flags: Flag,
    pub npc_flags: NPCFlag,
    pub direction: Direction,
    pub tsc_direction: u16,
    pub parent_id: u16,
    pub action_num: u16,
    pub anim_num: u16,
    pub flag_num: u16,
    pub event_num: u16,
    pub action_counter: u16,
    pub action_counter2: u16,
    pub action_counter3: u16,
    pub anim_counter: u16,
    pub anim_rect: u16,
    pub display_bounds: Rect,
    pub hit_bounds: Rect,
    pub rng: Xoroshiro32PlusPlus,
    /// The position at the previous tick, for drawing between ticks.
    pub prev_x: i32,
    pub prev_y: i32,
}

/// The entity an empty slot holds: everything zero, facing left.
pub open spec fn empty_npc() -> NPC {
    NPC {
        id: 0,
        npc_type: 0,
        x: 0,
        y: 0,
        vel_x: 0,
        vel_y: 0,
        vel_x2: 0,
        vel_y2: 0,
        target_x: 0,
        target_y: 0,
        exp: 0,
        size: 0,
        shock: 0,
        life: 0,
        damage: 0,
        spritesheet_id: 0,
        cond: Condition(0),
        flags: Flag(0),
        npc_flags: NPCFlag(0),
        direction: Direction::Left,
        tsc_direction: 0,
        parent_id: 0,
        action_num: 0,
        anim_num: 0,
        flag_num: 0,
        event_num: 0,
        action_counter: 0,
        action_counter2: 0,
        action_counter3: 0,
        anim_counter: 0,
        anim_rect: 0,
        display_bounds: zero_rect(),
        hit_bounds: zero_rect(),
        rng: Xoroshiro32PlusPlus { s0: 0, s1: 0 },
        prev_x: 0,
        prev_y: 0,
    }
}

/// The frame step of `animate`: count up, and past `speed` ticks move to
/// the next frame, wrapping from past `end` back to `start`.
pub open spec fn spec_animate(n: NPC, speed: u16, start: u16, end: u16) -> NPC {
    if n.anim_counter + 1 > speed {
        NPC {
            anim_counter: 0,
            anim_num: if n.anim_num + 1 > end { start } else { (n.anim_num + 1) as u16 },
            ..n
        }
    } else {
        NPC { anim_counter: (n.anim_counter + 1) as u16, ..n }
    }
}

/// A draw from `lo..=hi` of the entity's generator, and the entity after it.
pub open spec fn roll(n: NPC, lo: i32, hi: i32) -> (i32, NPC) {
    let (r, s0, s1) = crate::rng::xoro_range(n.rng.s0, n.rng.s1, lo, hi);
    (r, NPC { rng: Xoroshiro32PlusPlus { s0, s1 }, ..n })
}

pub open spec fn set_alive_spec(n: NPC, v: bool) -> NPC {
    NPC { cond: Condition(with_bits16(n.cond.0, COND_ALIVE, v)), ..n }
}

/// The rng state an entity in slot `index` starts with.
pub open spec fn seeded_rng(seed: i32, index: u32) -> Xoroshiro32PlusPlus {
    let (s0, s1) = state_of_seed(mix_seed(seed, index));
    Xoroshiro32PlusPlus { s0, s1 }
}

/// Whether a player can be targeted: present and not hidden.
pub open spec fn player_targetable(p: Player) -> bool {
    p.cond.0 & COND_ALIVE != 0 && p.cond.0 & COND_HIDDEN == 0
}

pub open spec fn sq_dist(ax: i32, ay: i32, bx: i32, by: i32) -> int {
    (ax - bx) * (ax - bx) + (ay - by) * (ay - by)
}

/// Index of the targetable player nearest to `(x, y)`, the first on a tie;
/// 0 when neither can be targeted.
pub open spec fn closest_player(x: i32, y: i32, players: [Player; 2]) -> usize {
    let p0 = players[0];
    let p1 = players[1];
    if player_targetable(p1) && (!player_targetable(p0) || sq_dist(x, y, p1.x, p1.y) < sq_dist(
        x,
        y,
        p0.x,
        p0.y,
    )) {
        1
    } else {
        0
    }
}

/// A player as seen by NPC behaviour.
#[derive(Clone, Copy, Debug, PartialEq, Eq)]
pub struct Player {
    pub x: i32,
    pub y: i32,
    pub vel_x: i32,
    pub vel_y: i32,
    pub cond: Condition,
    pub flags: Flag,
    pub direction: Direction,
    /// Ticks of invulnerability left after a hit.
    pub shock_counter: u8,
    /// Equipment bits; see `EQUIP_BOOSTER_2_0`.
    pub equip: u16,
}

fn sq_dist_exec(ax: i32, ay: i32, bx: i32, by: i32) -> (r: i128)
    ensures
        r == sq_dist(ax, ay, bx, by),
{
    let dx: i128 = ax as i128 - bx as i128;
    let dy: i128 = ay as i128 - by as i128;
    assert(dx * dx <= 0x1_0000_0000_0000_0000) by (nonlinear_arith)
        requires
            -0x1_0000_0000 <= dx <= 0x1_0000_0000,
    ;
    assert(dy * dy <= 0x1_0000_0000_0000_0000) by (nonlinear_arith)
        requires
            -0x1_0000_0000 <= dy <= 0x1_0000_0000,
    ;
    assert(dx * dx >= 0) by (nonlinear_arith);
    assert(dy * dy >= 0) by (nonlinear_arith);
    dx * dx + dy * dy
}

impl NPC {
    /// An empty slot's entity.
    pub fn empty() -> (r: NPC)
        ensures
            r == empty_npc(),
    {
        NPC {
            id: 0,
            npc_type: 0,
            x: 0,
            y: 0,
            vel_x: 0,
            vel_y: 0,
            vel_x2: 0,
            vel_y2: 0,
            target_x: 0,
            target_y: 0,
            exp: 0,
            size: 0,
            shock: 0,
            life: 0,
            damage: 0,
            spritesheet_id: 0,
            cond: Condition(0),
            flags: Flag(0),
            npc_flags: NPCFlag(0),
            direction: Direction::Left,
            tsc_direction: 0,
            parent_id: 0,
            action_num: 0,
            anim_num: 0,
            flag_num: 0,
            event_num: 0,
            action_counter: 0,
            action_counter2: 0,
            action_counter3: 0,
            anim_counter: 0,
            anim_rect: 0,
            display_bounds: Rect { left: 0, top: 0, right: 0, bottom: 0 },
            hit_bounds: Rect { left: 0, top: 0, right: 0, bottom: 0 },
            rng: Xoroshiro32PlusPlus { s0: 0, s1: 0 },
            prev_x: 0,
            prev_y: 0,
        }
    }

    /// An entity of the given type with the table's stats for it.
    pub fn create(npc_type: u16, table: &NPCTable) -> (r: NPC)
        ensures
            r == table_npc(npc_type, table@),
    {
        let mut npc = NPC::empty();
        npc.npc_type = npc_type;
        if (npc_type as usize) < table.entries.len() {
            let e = table.entries[npc_type as usize];
            npc.npc_flags = e.npc_flags;
            npc.spritesheet_id = e.spritesheet_id as u16;
            npc.life = e.life;
            npc.size = e.size;
            npc.damage = e.damage;
            npc.exp = e.experience;
            npc.display_bounds = e.display_bounds;
            npc.hit_bounds = e.hit_bounds;
        } else {
            npc.size = 2;
        }
        npc
    }

    /// Seeds the entity's generator from the list seed and its slot.
    pub fn init_rng(&mut self, seed: i32)
        ensures
            *final(self) == (NPC { rng: seeded_rng(seed, old(self).id as u32), ..*old(self) }),
    {
        let st = mix_seed_exec(seed, self.id as u32);
        self.rng.load_state(st);
    }

    /// Advances the animation counter; see `spec_animate`.
    pub fn animate(&mut self, anim_speed: u16, start_frame: u16, end_frame: u16)
        requires
            old(self).anim_counter < u16::MAX,
            old(self).anim_num < u16::MAX,
        ensures
            *final(self) == spec_animate(*old(self), anim_speed, start_frame, end_frame),
    {
        self.anim_counter += 1;
        if self.anim_counter > anim_speed {
            self.anim_counter = 0;
            self.anim_num += 1;
            if self.anim_num > end_frame {
                self.anim_num = start_frame;
            }
        }
    }

    /// Index of the player this entity targets; see `closest_player`.
    pub fn get_closest_player_idx(&self, players: &[Player; 2]) -> (r: usize)
        ensures
            r == closest_player(self.x, self.y, *players),
    {
        let p0 = players[0];
        let p1 = players[1];
        let t0 = p0.cond.alive() && !p0.cond.hidden();
        let t1 = p1.cond.alive() && !p1.cond.hidden();
        if t1 && (!t0 || sq_dist_exec(self.x, self.y, p1.x, p1.y) < sq_dist_exec(
            self.x,
            self.y,
            p0.x,
            p0.y,
        )) {
            1
        } else {
            0
        }
    }

    /// Turns towards the targeted player.
    pub fn face_player(&mut self, player: &Player)
        ensures
            *final(self) == (NPC {
                direction: if old(self).x > player.x {
                    Direction::Left
                } else {
                    Direction::Right
                },
                ..*old(self)
            }),
    {
        self.direction = if self.x > player.x {
            Direction::Left
        } else {
            Direction::Right
        };
    }

    /// Caps the falling speed at `0x5ff`.
    pub fn clamp_fall_speed(&mut self)
        ensures
            *final(self) == (NPC {
                vel_y: if old(self).vel_y > 0x5ff {
                    0x5ff
                } else {
                    old(self).vel_y
                },
                ..*old(self)
            }),
    {
        if self.vel_y > 0x5ff {
            self.vel_y = 0x5ff;
        }
    }
}

/// Stats of one NPC type.
#[derive(Clone, Copy, Debug, PartialEq, Eq)]
pub struct NPCTableEntry {
    pub npc_flags: NPCFlag,
    pub life: u16,
    pub spritesheet_id: u8,
    pub size: u8,
    pub experience: u16,
    pub damage: u16,
    pub display_bounds: Rect,
    pub hit_bounds: Rect,
}

/// Stats of all NPC types, indexed by type.
pub struct NPCTable {
    pub entries: Vec<NPCTableEntry>,
}

impl View for NPCTable {
    type V = Seq<NPCTableEntry>;

    open spec fn view(&self) -> Seq<NPCTableEntry> {
        self.entries@
    }
}

/// An entity of type `t` with the stats the table has for it; size 2 and
/// no stats for a type the table lacks.
pub open spec fn table_npc(t: u16, table: Seq<NPCTableEntry>) -> NPC {
    if (t as int) < table.len() {
        let e = table[t as int];
        NPC {
            npc_type: t,
            npc_flags: e.npc_flags,
            spritesheet_id: e.spritesheet_id as u16,
            life: e.life,
            size: e.size,
            damage: e.damage,
            exp: e.experience,
            display_bounds: e.display_bounds,
            hit_bounds: e.hit_bounds,
            ..empty_npc()
        }
    } else {
        NPC { npc_type: t, size: 2, ..empty_npc() }
    }
}

} // verus!
