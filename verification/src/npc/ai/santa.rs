//! Santa and Chaco: idle villagers that blink, turn to a nearby player and
//! walk when the script tells them to.

use vstd::prelude::*;

use crate::common::{spec_vector_x, Direction};
use crate::game_state::{with_caret, Caret, CaretType, SharedGameState, StateView};
use crate::npc::ai::{dir_frame, npc_coord_ok};
use crate::npc::ai::balcony::blink_wait;
use crate::npc::{closest_player, roll, spec_animate, Player, NPC};

verus! {

/// Turned towards the targeted player when that player is within 32 pixels
/// sideways, less than 32 pixels above and less than 16 below.
pub open spec fn turn_to_near_player(n: NPC, players: [Player; 2]) -> NPC {
    let p = players[closest_player(n.x, n.y, players) as int];
    let dx = n.x - p.x;
    if (if dx < 0 { -dx } else { dx }) < 0x4000 && n.y - 0x4000 < p.y && n.y + 0x2000 > p.y {
        NPC {
            direction: if n.x > p.x {
                Direction::Left
            } else {
                Direction::Right
            },
            ..n
        }
    } else {
        n
    }
}

/// Walking one pixel a tick in the facing direction, cycling frames 2-5.
pub open spec fn villager_walk(n: NPC) -> NPC {
    let a = if n.action_num == 3 {
        NPC { action_num: 4, anim_num: 2, anim_counter: 0, ..n }
    } else {
        n
    };
    let b = spec_animate(a, 4, 2, 5);
    NPC { x: (b.x + spec_vector_x(b.direction) * 0x200) as i32, ..b }
}

/// Santa: blinks with chance 1/121 a tick, turns to a near player, walks in
/// states 3-4, stands with frame 6 in state 5.
pub open spec fn santa_step(n: NPC, players: [Player; 2]) -> NPC {
    let m = if n.action_num == 0 || n.action_num == 1 {
        let a = if n.action_num == 0 {
            NPC { action_num: 1, anim_num: 0, anim_counter: 0, ..n }
        } else {
            n
        };
        let (r, b) = roll(a, 0, 120);
        let c = if r == 0 {
            NPC { action_num: 2, action_counter: 0, anim_num: 1, ..b }
        } else {
            b
        };
        turn_to_near_player(c, players)
    } else if n.action_num == 2 {
        blink_wait(n, 8)
    } else if n.action_num == 3 || n.action_num == 4 {
        villager_walk(n)
    } else if n.action_num == 5 {
        NPC { anim_num: 6, ..n }
    } else {
        n
    };
    NPC { anim_rect: dir_frame(m, 7), ..m }
}

/// Santa in the cage: shifted right on set-up and blinks now and then.
pub open spec fn santa_caged_step(n: NPC) -> NPC {
    let m = if n.action_num == 0 || n.action_num == 1 {
        let a = if n.action_num == 0 {
            NPC {
                action_num: 1,
                action_counter: 0,
                anim_num: 0,
                x: (n.x + 0x200) as i32,
                y: (n.y - 0x400) as i32,
                ..n
            }
        } else {
            n
        };
        let (r, b) = roll(a, 0, 160);
        if r == 10 {
            NPC { action_num: 2, action_counter: 0, anim_num: 1, ..b }
        } else {
            b
        }
    } else if n.action_num == 2 {
        blink_wait(n, 12)
    } else {
        n
    };
    NPC { anim_rect: dir_frame(m, 2), ..m }
}

/// Chaco: like Santa, and asleep in state 10, snoring every 201 ticks.
pub open spec fn chaco_step(n: NPC, st: StateView, players: [Player; 2]) -> (NPC, StateView) {
    let (m, st) = if n.action_num == 0 || n.action_num == 1 {
        let a = if n.action_num == 0 {
            NPC { action_num: 1, action_counter: 0, anim_counter: 0, ..n }
        } else {
            n
        };
        let (r, b) = roll(a, 0, 120);
        let c = if r == 10 {
            NPC { action_num: 2, action_counter: 0, anim_num: 1, ..b }
        } else {
            b
        };
        (turn_to_near_player(c, players), st)
    } else if n.action_num == 2 {
        (blink_wait(n, 8), st)
    } else if n.action_num == 3 || n.action_num == 4 {
        (villager_walk(n), st)
    } else if n.action_num == 10 {
        let c = (n.action_counter + 1) as u16;
        if c > 200 {
            (
                NPC { anim_num: 6, action_counter: 0, ..n },
                with_caret(
                    st,
                    Caret { x: n.x, y: n.y, ctype: CaretType::Zzz, direction: Direction::Left },
                ),
            )
        } else {
            (NPC { anim_num: 6, action_counter: c, ..n }, st)
        }
    } else {
        (n, st)
    };
    (NPC { anim_rect: dir_frame(m, 7), ..m }, st)
}

/// Inputs the villagers' ticks compute in range on.
pub open spec fn villager_tickable(n: NPC, players: [Player; 2]) -> bool {
    &&& npc_coord_ok(n.x)
    &&& npc_coord_ok(n.y)
    &&& npc_coord_ok(players[0].x)
    &&& npc_coord_ok(players[0].y)
    &&& npc_coord_ok(players[1].x)
    &&& npc_coord_ok(players[1].y)
    &&& (n.action_num == 2 || n.action_num == 10) ==> n.action_counter < u16::MAX
    &&& n.anim_counter < u16::MAX
    &&& n.anim_num <= u16::MAX - 7
}

impl NPC {
    fn turn_to_near_player_exec(&mut self, players: &[Player; 2])
        requires
            npc_coord_ok(old(self).x),
            npc_coord_ok(old(self).y),
            npc_coord_ok(players[0].x),
            npc_coord_ok(players[0].y),
            npc_coord_ok(players[1].x),
            npc_coord_ok(players[1].y),
        ensures
            *final(self) == turn_to_near_player(*old(self), *players),
    {
        let idx = self.get_closest_player_idx(players);
        let p = players[idx];
        let dx = self.x - p.x;
        let adx = if dx < 0 {
            -dx
        } else {
            dx
        };
        if adx < 0x4000 && self.y - 0x4000 < p.y && self.y + 0x2000 > p.y {
            self.direction = if self.x > p.x {
                Direction::Left
            } else {
                Direction::Right
            };
        }
    }

    fn villager_walk_exec(&mut self)
        requires
            npc_coord_ok(old(self).x),
            old(self).anim_counter < u16::MAX,
            old(self).anim_num < u16::MAX,
            old(self).action_num == 3 || old(self).action_num == 4,
        ensures
            *final(self) == villager_walk(*old(self)),
    {
        if self.action_num == 3 {
            self.action_num = 4;
            self.anim_num = 2;
            self.anim_counter = 0;
        }
        self.animate(4, 2, 5);
        self.x += self.direction.vector_x() * 0x200;
    }

    /// Santa; see `santa_step`.
    pub fn tick_n040_santa(&mut self, players: &[Player; 2])
        requires
            villager_tickable(*old(self), *players),
        ensures
            *final(self) == santa_step(*old(self), *players),
    {
        match self.action_num {
            0 | 1 => {
                if self.action_num == 0 {
                    self.action_num = 1;
                    self.anim_num = 0;
                    self.anim_counter = 0;
                }
                if self.rng.range(0..120) == 0 {
                    self.action_num = 2;
                    self.action_counter = 0;
                    self.anim_num = 1;
                }
                self.turn_to_near_player_exec(players);
            },
            2 => {
                self.action_counter += 1;
                if self.action_counter > 8 {
                    self.action_num = 1;
                    self.anim_num = 0;
                }
            },
            3 | 4 => {
                self.villager_walk_exec();
            },
            5 => {
                self.anim_num = 6;
            },
            _ => {},
        }
        self.anim_rect = if self.direction == Direction::Left {
            self.anim_num
        } else {
            self.anim_num + 7
        };
    }

    /// Santa in the cage; see `santa_caged_step`.
    pub fn tick_n307_santa_caged(&mut self)
        requires
            npc_coord_ok(old(self).x),
            npc_coord_ok(old(self).y),
            old(self).action_num == 2 ==> old(self).action_counter < u16::MAX,
            old(self).anim_num <= u16::MAX - 2,
        ensures
            *final(self) == santa_caged_step(*old(self)),
    {
        match self.action_num {
            0 | 1 => {
                if self.action_num == 0 {
                    self.action_num = 1;
                    self.action_counter = 0;
                    self.anim_num = 0;
                    self.x += 0x200;
                    self.y -= 0x400;
                }
                if self.rng.range(0..160) == 10 {
                    self.action_num = 2;
                    self.action_counter = 0;
                    self.anim_num = 1;
                }
            },
            2 => {
                self.action_counter += 1;
                if self.action_counter > 12 {
                    self.action_num = 1;
                    self.anim_num = 0;
                }
            },
            _ => {},
        }
        self.anim_rect = if self.direction == Direction::Left {
            self.anim_num
        } else {
            self.anim_num + 2
        };
    }

    /// Chaco; see `chaco_step`.
    pub fn tick_n093_chaco(&mut self, state: &mut SharedGameState, players: &[Player; 2])
        requires
            villager_tickable(*old(self), *players),
        ensures
            (*final(self), final(state)@) == chaco_step(*old(self), old(state)@, *players),
    {
        match self.action_num {
            0 | 1 => {
                if self.action_num == 0 {
                    self.action_num = 1;
                    self.action_counter = 0;
                    self.anim_counter = 0;
                }
                if self.rng.range(0..120) == 10 {
                    self.action_num = 2;
                    self.action_counter = 0;
                    self.anim_num = 1;
                }
                self.turn_to_near_player_exec(players);
            },
            2 => {
                self.action_counter += 1;
                if self.action_counter > 8 {
                    self.action_num = 1;
                    self.anim_num = 0;
                }
            },
            3 | 4 => {
                self.villager_walk_exec();
            },
            10 => {
                self.anim_num = 6;
                self.action_counter += 1;
                if self.action_counter > 200 {
                    self.action_counter = 0;
                    state.create_caret(self.x, self.y, CaretType::Zzz, Direction::Left);
                }
            },
            _ => {},
        }
        self.anim_rect = if self.direction == Direction::Left {
            self.anim_num
        } else {
            self.anim_num + 7
        };
    }
}

/// A villager walking on cue (states 3 and 4) moves one pixel (0x200) the
/// way it faces each tick: left when facing left, right when facing
/// right; it keeps its height and facing and stays in state 4. This holds
/// for Santa and for Chaco.
pub proof fn law_villagers_walk_the_way_they_face(n: NPC, st: StateView, players: [Player; 2])
    requires
        n.action_num == 3 || n.action_num == 4,
        npc_coord_ok(n.x),
    ensures
        ({
            let a = santa_step(n, players);
            let b = chaco_step(n, st, players).0;
            &&& a.x == n.x + if n.direction == Direction::Left { -0x200int } else if n.direction == Direction::Right { 0x200int } else { 0int }
            &&& b.x == a.x
            &&& a.y == n.y && b.y == n.y
            &&& a.direction == n.direction && b.direction == n.direction
            &&& a.action_num == 4 && b.action_num == 4
            &&& chaco_step(n, st, players).1 == st
        }),
{
}

} // verus!
