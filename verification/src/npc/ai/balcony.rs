//! Balcony: the helicopter, its blades and the caged characters.

use vstd::prelude::*;

use crate::common::Direction;
use crate::game_state::{with_spawn, SharedGameState, StateView};
use crate::npc::ai::{dir_frame, npc_coord_ok};
use crate::npc::list::NPCList;
use crate::npc::{closest_player, roll, set_alive_spec, table_npc, Player, NPC};

verus! {

/// An alive entity of type `t` from the table at `(x, y)`.
pub open spec fn alive_at(st: StateView, t: u16, x: int, y: int) -> NPC {
    NPC { x: x as i32, y: y as i32, ..set_alive_spec(table_npc(t, st.npc_table), true) }
}

/// The helicopter: on set-up it spawns its two blades (the rear one facing
/// right); states 30 and 40 bring in the passengers.
pub open spec fn helicopter_step(n: NPC, st: StateView) -> (NPC, StateView) {
    let (m, st) = if n.action_num == 0 {
        let blade = NPC { parent_id: n.id, ..alive_at(st, 255, n.x + 0x2400, n.y - 0x7200) };
        let rear = NPC {
            x: (n.x - 0x4000) as i32,
            y: (n.y - 0x6800) as i32,
            direction: Direction::Right,
            ..blade
        };
        (NPC { action_num: 1, ..n }, with_spawn(with_spawn(st, 0x100, blade), 0x100, rear))
    } else if n.action_num == 20 {
        (NPC { action_num: 21, action_counter: 0, action_counter2: 60, ..n }, st)
    } else if n.action_num == 30 {
        (
            NPC { action_num: 21, ..n },
            with_spawn(st, 0x100, alive_at(st, 223, n.x - 0x1600, n.y - 0x1c00)),
        )
    } else if n.action_num == 40 {
        let st1 = with_spawn(st, 0x100, alive_at(st, 223, n.x - 0x1200, n.y - 0x1c00));
        let st2 = with_spawn(st1, 0x100, alive_at(st, 40, n.x - 0x2c00, n.y - 0x1c00));
        let st3 = with_spawn(st2, 0x100, alive_at(st, 223, n.x - 0x4600, n.y - 0x1c00));
        (NPC { action_num: 21, ..n }, st3)
    } else {
        (n, st)
    };
    (NPC { anim_rect: if m.direction == Direction::Left { 0 } else { 1 }, ..m }, st)
}

/// The entity a blade is attached to: none when it has no parent or is its
/// own parent.
pub open spec fn parent_of(n: NPC, npcs: Seq<NPC>) -> Option<NPC> {
    if n.parent_id == 0 || n.parent_id == n.id || n.parent_id as int >= npcs.len() {
        None
    } else {
        Some(npcs[n.parent_id as int])
    }
}

/// The helicopter blades: sized by their side on set-up, spinning once the
/// helicopter reaches state 20.
pub open spec fn blades_step(n: NPC, parent: Option<NPC>) -> NPC {
    let m = if n.action_num == 0 || n.action_num == 1 {
        let a = if n.action_num == 0 {
            let w: u32 = if n.direction == Direction::Left {
                0x7000
            } else {
                0x5000
            };
            NPC {
                action_num: 1,
                display_bounds: crate::npc::Rect { left: w, right: w, ..n.display_bounds },
                ..n
            }
        } else {
            n
        };
        match parent {
            Some(p) => if p.action_num >= 20 {
                NPC { action_num: 10, ..a }
            } else {
                a
            },
            None => a,
        }
    } else if n.action_num == 10 || n.action_num == 11 {
        NPC {
            action_num: 11,
            anim_num: if n.anim_num + 1 > 3 {
                0
            } else {
                (n.anim_num + 1) as u16
            },
            ..n
        }
    } else {
        n
    };
    NPC { anim_rect: dir_frame(m, 4), ..m }
}

/// Shovel Brigade in the cage: blinks now and then, faces the player, and
/// in state 10 spawns a heart above itself.
pub open spec fn shovel_brigade_caged_step(n: NPC, st: StateView, players: [Player; 2]) -> (
    NPC,
    StateView,
) {
    let (m, st) = if n.action_num == 0 || n.action_num == 1 {
        let a = if n.action_num == 0 {
            NPC {
                x: (n.x + 0x200) as i32,
                y: (n.y - 0x400) as i32,
                action_num: 1,
                anim_num: 0,
                anim_counter: 0,
                ..n
            }
        } else {
            n
        };
        let (r, b) = roll(a, 0, 160);
        (
            if r == 1 {
                NPC { action_num: 2, action_counter: 0, anim_num: 1, ..b }
            } else {
                b
            },
            st,
        )
    } else if n.action_num == 2 {
        (blink_wait(n, 12), st)
    } else if n.action_num == 10 {
        (
            NPC { action_num: 11, anim_num: 2, ..n },
            with_spawn(st, 0x100, alive_at(st, 87, n.x as int, n.y - 0x2000)),
        )
    } else {
        (n, st)
    };
    let f = face(m, players);
    (NPC { anim_rect: dir_frame(f, 3), ..f }, st)
}

/// Eyes closed: after `ticks` more ticks they open again.
pub open spec fn blink_wait(n: NPC, ticks: u16) -> NPC {
    let c = (n.action_counter + 1) as u16;
    if c > ticks {
        NPC { action_counter: c, action_num: 1, anim_num: 0, ..n }
    } else {
        NPC { action_counter: c, ..n }
    }
}

/// Turned towards the player it targets.
pub open spec fn face(n: NPC, players: [Player; 2]) -> NPC {
    let p = players[closest_player(n.x, n.y, players) as int];
    NPC {
        direction: if n.x > p.x {
            Direction::Left
        } else {
            Direction::Right
        },
        ..n
    }
}

/// Chie and Chaco in the cage: shifted left on set-up, blink now and then,
/// face the player.
pub open spec fn caged_left_step(n: NPC, players: [Player; 2]) -> NPC {
    let m = if n.action_num == 0 || n.action_num == 1 {
        let a = if n.action_num == 0 {
            NPC {
                x: (n.x - 0x200) as i32,
                y: (n.y - 0x400) as i32,
                action_num: 1,
                action_counter: 0,
                anim_num: 0,
                ..n
            }
        } else {
            n
        };
        let (r, b) = roll(a, 0, 160);
        if r == 1 {
            NPC { action_num: 2, action_counter: 0, anim_num: 1, ..b }
        } else {
            b
        }
    } else if n.action_num == 2 {
        blink_wait(n, 12)
    } else {
        n
    };
    let f = face(m, players);
    NPC { anim_rect: dir_frame(f, 2), ..f }
}

/// Inputs the caged characters' ticks compute in range on.
pub open spec fn caged_tickable(n: NPC, players: [Player; 2]) -> bool {
    &&& npc_coord_ok(n.x)
    &&& npc_coord_ok(n.y)
    &&& n.action_num == 2 ==> n.action_counter < u16::MAX
    &&& n.anim_num <= u16::MAX - 3
}

impl NPC {
    /// The helicopter; see `helicopter_step`.
    pub fn tick_n254_helicopter(&mut self, state: &mut SharedGameState)
        requires
            npc_coord_ok(old(self).x),
            npc_coord_ok(old(self).y),
        ensures
            (*final(self), final(state)@) == helicopter_step(*old(self), old(state)@),
            final(state).npc_table@ == old(state).npc_table@,
    {
        match self.action_num {
            0 => {
                self.action_num = 1;
                let mut npc = state.create_npc(255);
                npc.cond.set_alive(true);
                npc.x = self.x + 0x2400;
                npc.y = self.y - 0x7200;
                npc.parent_id = self.id;
                state.spawn_npc(0x100, npc);
                npc.x = self.x - 0x4000;
                npc.y = self.y - 0x6800;
                npc.direction = Direction::Right;
                state.spawn_npc(0x100, npc);
            },
            20 => {
                self.action_num = 21;
                self.action_counter = 0;
                self.action_counter2 = 60;
            },
            30 => {
                self.action_num = 21;
                let mut npc = state.create_npc(223);
                npc.cond.set_alive(true);
                npc.x = self.x - 0x1600;
                npc.y = self.y - 0x1c00;
                state.spawn_npc(0x100, npc);
            },
            40 => {
                self.action_num = 21;
                let mut npc = state.create_npc(223);
                npc.cond.set_alive(true);
                npc.x = self.x - 0x1200;
                npc.y = self.y - 0x1c00;
                state.spawn_npc(0x100, npc);
                let mut npc = state.create_npc(40);
                npc.cond.set_alive(true);
                npc.x = self.x - 0x2c00;
                npc.y = self.y - 0x1c00;
                state.spawn_npc(0x100, npc);
                let mut npc = state.create_npc(223);
                npc.cond.set_alive(true);
                npc.x = self.x - 0x4600;
                npc.y = self.y - 0x1c00;
                state.spawn_npc(0x100, npc);
            },
            _ => {},
        }
        self.anim_rect = if self.direction == Direction::Left {
            0
        } else {
            1
        };
    }

    /// The helicopter blades; see `blades_step`.
    pub fn tick_n255_helicopter_blades(&mut self, npc_list: &NPCList)
        requires
            npc_list.wf(),
            old(self).anim_num <= u16::MAX - 4,
        ensures
            *final(self) == blades_step(*old(self), parent_of(*old(self), npc_list.npcs())),
    {
        match self.action_num {
            0 | 1 => {
                if self.action_num == 0 {
                    self.action_num = 1;
                    if self.direction == Direction::Left {
                        self.display_bounds.left = 0x7000;
                        self.display_bounds.right = 0x7000;
                    } else {
                        self.display_bounds.left = 0x5000;
                        self.display_bounds.right = 0x5000;
                    }
                }
                if self.parent_id != 0 && self.parent_id != self.id {
                    if let Some(parent) = npc_list.get_npc(self.parent_id as usize) {
                        if parent.borrow_unmanaged().action_num >= 20 {
                            self.action_num = 10;
                        }
                    }
                }
            },
            10 | 11 => {
                self.action_num = 11;
                self.anim_num += 1;
                if self.anim_num > 3 {
                    self.anim_num = 0;
                }
            },
            _ => {},
        }
        self.anim_rect = if self.direction == Direction::Left {
            self.anim_num
        } else {
            self.anim_num + 4
        };
    }

    /// Shovel Brigade in the cage; see `shovel_brigade_caged_step`.
    pub fn tick_n260_shovel_brigade_caged(&mut self, state: &mut SharedGameState, players: &[Player; 2])
        requires
            caged_tickable(*old(self), *players),
        ensures
            (*final(self), final(state)@) == shovel_brigade_caged_step(
                *old(self),
                old(state)@,
                *players,
            ),
    {
        match self.action_num {
            0 | 1 => {
                if self.action_num == 0 {
                    self.x += 0x200;
                    self.y -= 0x400;
                    self.action_num = 1;
                    self.anim_num = 0;
                    self.anim_counter = 0;
                }
                if self.rng.range(0..160) == 1 {
                    self.action_num = 2;
                    self.action_counter = 0;
                    self.anim_num = 1;
                }
            },
            2 => {
                self.action_counter += 1;
                if self.action_counter > 12 {
                    self.action_num = 1;
                    self.anim_num = 0;
                }
            },
            10 => {
                self.action_num = 11;
                self.anim_num = 2;
                let mut npc = state.create_npc(87);
                npc.cond.set_alive(true);
                npc.x = self.x;
                npc.y = self.y - 0x2000;
                state.spawn_npc(0x100, npc);
            },
            _ => {},
        }
        let idx = self.get_closest_player_idx(players);
        self.face_player(&players[idx]);
        self.anim_rect = if self.direction == Direction::Left {
            self.anim_num
        } else {
            self.anim_num + 3
        };
    }

    /// Chie in the cage; see `caged_left_step`.
    pub fn tick_n261_chie_caged(&mut self, players: &[Player; 2])
        requires
            caged_tickable(*old(self), *players),
        ensures
            *final(self) == caged_left_step(*old(self), *players),
    {
        self.tick_caged_left(players);
    }

    /// Chaco in the cage; see `caged_left_step`.
    pub fn tick_n262_chaco_caged(&mut self, players: &[Player; 2])
        requires
            caged_tickable(*old(self), *players),
        ensures
            *final(self) == caged_left_step(*old(self), *players),
    {
        self.tick_caged_left(players);
    }

    fn tick_caged_left(&mut self, players: &[Player; 2])
        requires
            caged_tickable(*old(self), *players),
        ensures
            *final(self) == caged_left_step(*old(self), *players),
    {
        match self.action_num {
            0 | 1 => {
                if self.action_num == 0 {
                    self.x -= 0x200;
                    self.y -= 0x400;
                    self.action_num = 1;
                    self.action_counter = 0;
                    self.anim_num = 0;
                }
                if self.rng.range(0..160) == 1 {
                    self.action_num = 2;
                    self.action_counter = 0;
                    self.anim_num = 1;
                }
            },
            2 => {
                self.action_counter += 1;
                if self.action_counter > 12 {
                    self.action_num = 1;
                    self.anim_num = 0;
                }
            },
            _ => {},
        }
        let idx = self.get_closest_player_idx(players);
        self.face_player(&players[idx]);
        self.anim_rect = if self.direction == Direction::Left {
            self.anim_num
        } else {
            self.anim_num + 2
        };
    }
}

} // verus!
