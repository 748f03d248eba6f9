//! The parts of the shared game state that entity behaviour reads and
//! writes. Sounds, carets, smoke, spawns, type kills and player damage are
//! requests that the frame loop carries out after the entities have been
//! ticked; they are kept in the order they were made.

use vstd::prelude::*;

use crate::common::Direction;
use crate::npc::{NPCTable, NPCTableEntry, NPC};

verus! {

/// Kinds of short-lived visual effects.
#[derive(Clone, Copy, Debug, PartialEq, Eq)]
pub enum CaretType {
    Bubble,
    ProjectileDissipation,
    Shoot,
    Exhaust,
    Zzz,
    LittleParticles,
}

/// A request for a visual effect.
#[derive(Clone, Copy, Debug, PartialEq, Eq)]
pub struct Caret {
    pub x: i32,
    pub y: i32,
    pub ctype: CaretType,
    pub direction: Direction,
}

/// A request for a burst of smoke around a point.
#[derive(Clone, Copy, Debug, PartialEq, Eq)]
pub struct DeathSmoke {
    pub x: i32,
    pub y: i32,
    pub radius: usize,
    pub amount: usize,
}

/// The aim of a spawned projectile whose velocity the frame loop works out:
/// `speed` (in 1/512 pixels a tick) away from the angle of `(dx, dy)`,
/// turned by `jitter` game degrees.
#[derive(Clone, Copy, Debug, PartialEq, Eq)]
pub struct Aim {
    /// Index of the spawn request it belongs to.
    pub spawn: usize,
    pub dx: i32,
    pub dy: i32,
    pub jitter: i32,
    pub speed: i32,
}

/// A request to give the spawn at index `spawn` the velocity of `speed`
/// away from the angle `angle`, in 1/256 turns.
#[derive(Clone, Copy, Debug, PartialEq, Eq)]
pub struct AngleAim {
    pub spawn: usize,
    pub angle: u8,
    pub speed: i32,
}

/// Mathematical view of `SharedGameState`.
pub struct StateView {
    pub sounds: Seq<u8>,
    pub sound_stops: Seq<u8>,
    pub sound_loops: Seq<(u8, u32)>,
    pub carets: Seq<Caret>,
    pub smoke: Seq<DeathSmoke>,
    pub xp_drops: Seq<(i32, i32, u32)>,
    pub spawns: Seq<(u16, NPC)>,
    pub type_kills: Seq<(u16, bool)>,
    pub aims: Seq<Aim>,
    pub angle_aims: Seq<AngleAim>,
    pub player_damage: Seq<(usize, u16)>,
    pub quake_counter: u16,
    pub quake_rumble_counter: u16,
    pub super_quake_counter: u16,
    pub super_quake_rumble_counter: u16,
    pub tile_offset_x: i32,
    pub npc_table: Seq<NPCTableEntry>,
    pub is_switch: bool,
    pub npc_super_pos: (i32, i32),
    pub npc_curly_counter: u16,
    pub npc_curly_target: (i32, i32),
    pub tile_size: i32,
    pub flash_blink: bool,
}

pub open spec fn with_sound(v: StateView, id: u8) -> StateView {
    StateView { sounds: v.sounds.push(id), ..v }
}

pub open spec fn with_sound_stop(v: StateView, id: u8) -> StateView {
    StateView { sound_stops: v.sound_stops.push(id), ..v }
}

pub open spec fn with_sound_loop(v: StateView, id: u8, freq: u32) -> StateView {
    StateView { sound_loops: v.sound_loops.push((id, freq)), ..v }
}

pub open spec fn with_caret(v: StateView, c: Caret) -> StateView {
    StateView { carets: v.carets.push(c), ..v }
}

pub open spec fn with_smoke(v: StateView, s: DeathSmoke) -> StateView {
    StateView { smoke: v.smoke.push(s), ..v }
}

pub open spec fn with_xp_drop(v: StateView, x: i32, y: i32, amount: u32) -> StateView {
    StateView { xp_drops: v.xp_drops.push((x, y, amount)), ..v }
}

pub open spec fn with_spawn(v: StateView, min_id: u16, npc: NPC) -> StateView {
    StateView { spawns: v.spawns.push((min_id, npc)), ..v }
}

pub open spec fn with_aim(v: StateView, dx: i32, dy: i32, jitter: i32, speed: i32) -> StateView {
    StateView { aims: v.aims.push(Aim { spawn: (v.spawns.len() - 1) as usize, dx, dy, jitter, speed }), ..v }
}

pub open spec fn with_player_damage(v: StateView, player: usize, hp: u16) -> StateView {
    StateView { player_damage: v.player_damage.push((player, hp)), ..v }
}

pub open spec fn with_angle_aim(v: StateView, angle: u8, speed: i32) -> StateView {
    StateView { angle_aims: v.angle_aims.push(AngleAim { spawn: (v.spawns.len() - 1) as usize, angle, speed }), ..v }
}

pub open spec fn with_type_kill(v: StateView, npc_type: u16, smoke: bool) -> StateView {
    StateView { type_kills: v.type_kills.push((npc_type, smoke)), ..v }
}

/// The game state that entity behaviour sees.
pub struct SharedGameState {
    pub sounds: Vec<u8>,
    /// Looping sounds to stop.
    pub sound_stops: Vec<u8>,
    /// Sounds to loop, with the playback rate in 1/2205 of the normal one.
    pub sound_loops: Vec<(u8, u32)>,
    pub carets: Vec<Caret>,
    pub smoke: Vec<DeathSmoke>,
    /// Experience dropped as `(x, y, amount)`.
    pub xp_drops: Vec<(i32, i32, u32)>,
    pub spawns: Vec<(u16, NPC)>,
    pub type_kills: Vec<(u16, bool)>,
    pub aims: Vec<Aim>,
    pub angle_aims: Vec<AngleAim>,
    /// Damage to deal to players, by index and amount.
    pub player_damage: Vec<(usize, u16)>,
    pub quake_counter: u16,
    pub quake_rumble_counter: u16,
    pub super_quake_counter: u16,
    pub super_quake_rumble_counter: u16,
    pub tile_offset_x: i32,
    pub npc_table: NPCTable,
    /// Whether the game runs with the Switch edition's rules.
    pub is_switch: bool,
    /// A position and flag that a few bosses share with their helpers.
    pub npc_super_pos: (i32, i32),
    /// The ticks that Curly keeps aiming, and the point she aims at.
    pub npc_curly_counter: u16,
    pub npc_curly_target: (i32, i32),
    /// Size of a map tile in pixels.
    pub tile_size: i32,
    /// A request to blink the screen flash.
    pub flash_blink: bool,
}

impl View for SharedGameState {
    type V = StateView;

    open spec fn view(&self) -> StateView {
        StateView {
            sounds: self.sounds@,
            sound_stops: self.sound_stops@,
            sound_loops: self.sound_loops@,
            carets: self.carets@,
            smoke: self.smoke@,
            xp_drops: self.xp_drops@,
            spawns: self.spawns@,
            type_kills: self.type_kills@,
            aims: self.aims@,
            angle_aims: self.angle_aims@,
            player_damage: self.player_damage@,
            quake_counter: self.quake_counter,
            quake_rumble_counter: self.quake_rumble_counter,
            super_quake_counter: self.super_quake_counter,
            super_quake_rumble_counter: self.super_quake_rumble_counter,
            tile_offset_x: self.tile_offset_x,
            npc_table: self.npc_table@,
            is_switch: self.is_switch,
            npc_super_pos: self.npc_super_pos,
            npc_curly_counter: self.npc_curly_counter,
            npc_curly_target: self.npc_curly_target,
            tile_size: self.tile_size,
            flash_blink: self.flash_blink,
        }
    }
}

impl SharedGameState {
    /// A state with no pending requests.
    pub fn new(npc_table: NPCTable, tile_offset_x: i32) -> (r: Self)
        ensures
            r@.sounds.len() == 0,
            r@.sound_stops.len() == 0,
            r@.sound_loops.len() == 0,
            r@.carets.len() == 0,
            r@.smoke.len() == 0,
            r@.xp_drops.len() == 0,
            r@.spawns.len() == 0,
            r@.type_kills.len() == 0,
            r@.aims.len() == 0,
            r@.angle_aims.len() == 0,
            r@.player_damage.len() == 0,
            r@.quake_counter == 0,
            r@.quake_rumble_counter == 0,
            r@.super_quake_counter == 0,
            r@.super_quake_rumble_counter == 0,
            r@.tile_offset_x == tile_offset_x,
            r@.npc_table == npc_table@,
            !r@.is_switch,
            r@.npc_super_pos == (0i32, 0i32),
            r@.npc_curly_counter == 0,
            r@.npc_curly_target == (0i32, 0i32),
            r@.tile_size == 16,
            !r@.flash_blink,
    {
        SharedGameState {
            sounds: Vec::new(),
            sound_stops: Vec::new(),
            sound_loops: Vec::new(),
            carets: Vec::new(),
            smoke: Vec::new(),
            xp_drops: Vec::new(),
            spawns: Vec::new(),
            type_kills: Vec::new(),
            aims: Vec::new(),
            angle_aims: Vec::new(),
            player_damage: Vec::new(),
            quake_counter: 0,
            quake_rumble_counter: 0,
            super_quake_counter: 0,
            super_quake_rumble_counter: 0,
            tile_offset_x,
            npc_table,
            is_switch: false,
            npc_super_pos: (0, 0),
            npc_curly_counter: 0,
            npc_curly_target: (0, 0),
            tile_size: 16,
            flash_blink: false,
        }
    }

    /// Requests a sound effect.
    pub fn play_sfx(&mut self, id: u8)
        ensures
            final(self)@ == with_sound(old(self)@, id),
    {
        self.sounds.push(id);
    }

    /// Stops a looping sound.
    pub fn stop_sfx(&mut self, id: u8)
        ensures
            final(self)@ == with_sound_stop(old(self)@, id),
    {
        self.sound_stops.push(id);
    }

    /// Starts a sound looping at `freq` / 2205 of its normal rate.
    pub fn loop_sfx_freq(&mut self, id: u8, freq: u32)
        ensures
            final(self)@ == with_sound_loop(old(self)@, id, freq),
    {
        self.sound_loops.push((id, freq));
    }

    /// Requests a visual effect.
    pub fn create_caret(&mut self, x: i32, y: i32, ctype: CaretType, direction: Direction)
        ensures
            final(self)@ == with_caret(old(self)@, Caret { x, y, ctype, direction }),
    {
        self.carets.push(Caret { x, y, ctype, direction });
    }

    /// Requests experience worth `amount` dropped at a point.
    pub fn create_xp_drop(&mut self, x: i32, y: i32, amount: u32)
        ensures
            final(self)@ == with_xp_drop(old(self)@, x, y, amount),
    {
        self.xp_drops.push((x, y, amount));
    }

    /// Requests `amount` puffs of smoke within `radius` of a point.
    pub fn create_death_smoke(&mut self, x: i32, y: i32, radius: usize, amount: usize)
        ensures
            final(self)@ == with_smoke(old(self)@, DeathSmoke { x, y, radius, amount }),
    {
        self.smoke.push(DeathSmoke { x, y, radius, amount });
    }

    /// Requests that `npc` be placed in the first free slot from `min_id` on.
    pub fn spawn_npc(&mut self, min_id: u16, npc: NPC)
        ensures
            final(self)@ == with_spawn(old(self)@, min_id, npc),
    {
        self.spawns.push((min_id, npc));
    }

    /// Asks for the velocity of the last spawn request to be aimed; see `Aim`.
    pub fn aim_last_spawn(&mut self, dx: i32, dy: i32, jitter: i32, speed: i32)
        requires
            old(self)@.spawns.len() > 0,
        ensures
            final(self)@ == with_aim(old(self)@, dx, dy, jitter, speed),
    {
        let i = self.spawns.len() - 1;
        self.aims.push(Aim { spawn: i, dx, dy, jitter, speed });
    }

    /// Requests that a player take `hp` damage, with the knock-back,
    /// shock and sound that a hit brings.
    pub fn damage_player(&mut self, player: usize, hp: u16)
        ensures
            final(self)@ == with_player_damage(old(self)@, player, hp),
    {
        self.player_damage.push((player, hp));
    }

    /// Asks for the last spawn request to be sent off at a fixed angle; see
    /// `AngleAim`.
    pub fn aim_last_spawn_angle(&mut self, angle: u8, speed: i32)
        requires
            old(self)@.spawns.len() > 0,
        ensures
            final(self)@ == with_angle_aim(old(self)@, angle, speed),
    {
        let i = self.spawns.len() - 1;
        self.angle_aims.push(AngleAim { spawn: i, angle, speed });
    }

    /// Requests that every live entity of a type be removed, with smoke or not.
    pub fn kill_npcs_by_type(&mut self, npc_type: u16, smoke: bool)
        ensures
            final(self)@ == with_type_kill(old(self)@, npc_type, smoke),
    {
        self.type_kills.push((npc_type, smoke));
    }

    /// An entity of the given type with the table's stats.
    pub fn create_npc(&self, npc_type: u16) -> (r: NPC)
        ensures
            r == crate::npc::table_npc(npc_type, self@.npc_table),
    {
        NPC::create(npc_type, &self.npc_table)
    }
}

/// The number of live player bullets of each type, indexed by type: what
/// entity behaviour reads of the bullet manager.
pub struct BulletCounts {
    pub by_type: Vec<usize>,
}

/// Live bullets of type `t`; types past the end have none.
pub open spec fn bullet_count(b: Seq<usize>, t: int) -> int {
    if 0 <= t < b.len() {
        b[t] as int
    } else {
        0
    }
}

/// Whether any bullet of one of `types` is live.
pub open spec fn any_bullet_of(b: Seq<usize>, types: Seq<u16>) -> bool {
    exists|i: int| 0 <= i < types.len() && bullet_count(b, types[i] as int) > 0
}

impl View for BulletCounts {
    type V = Seq<usize>;

    open spec fn view(&self) -> Seq<usize> {
        self.by_type@
    }
}

impl BulletCounts {
    /// Live bullets of one type, for both players.
    pub fn count_bullets_type_idx_all(&self, type_idx: u16) -> (r: usize)
        ensures
            r == bullet_count(self@, type_idx as int),
    {
        if (type_idx as usize) < self.by_type.len() {
            self.by_type[type_idx as usize]
        } else {
            0
        }
    }

    /// Whether a bullet of any of the given types is live.
    pub fn any_of_types(&self, types: &[u16]) -> (r: bool)
        ensures
            r == any_bullet_of(self@, types@),
    {
        let mut i: usize = 0;
        while i < types.len()
            invariant
                i <= types.len(),
                forall|j: int| 0 <= j < i ==> bullet_count(self@, types@[j] as int) == 0,
            decreases types.len() - i,
        {
            if self.count_bullets_type_idx_all(types[i]) > 0 {
                return true;
            }
            i += 1;
        }
        false
    }
}

} // verus!
