//! The stage's NPC slots: a fixed number of slots, a high-water mark of the
//! slots ever used, and the seed every spawned entity's generator is
//! derived from.

use vstd::prelude::*;

use crate::common::{direction_index, Direction};
use crate::npc::{empty_npc, seeded_rng, COND_ALIVE, NPC};

verus! {

/// Number of NPC slots in a stage.
pub const NPC_LIST_MAX_CAP: usize = 512;

/// One slot of the list.
pub struct NPCCell(pub NPC);

impl NPCCell {
    /// The slot's entity, read while the token is held.
    pub fn borrow<'a>(&'a self, _token: &'a NPCAccessToken) -> (r: &'a NPC)
        ensures
            *r == self.0,
    {
        &self.0
    }

    /// The slot's entity, read without the token.
    pub fn borrow_unmanaged(&self) -> (r: &NPC)
        ensures
            *r == self.0,
    {
        &self.0
    }

    /// The slot's entity, for writing while the token is held.
    pub fn borrow_mut<'a>(&'a mut self, _token: &'a mut NPCAccessToken) -> (r: &'a mut NPC)
        ensures
            *r == old(self).0,
            final(self).0 == *final(r),
    {
        &mut self.0
    }

    /// The slot's entity, for writing without the token.
    pub fn borrow_mut_unmanaged(&mut self) -> (r: &mut NPC)
        ensures
            *r == old(self).0,
            final(self).0 == *final(r),
    {
        &mut self.0
    }
}

/// Proof of exclusive access to the list's slots, handed out by `NPCList::new`.
pub struct NPCAccessToken {
    _private: (),
}

/// Why an entity could not be placed.
#[derive(Clone, Copy, Debug, PartialEq, Eq)]
pub enum SpawnError {
    /// The requested slot is past the last one.
    IdOutOfBounds,
    /// Every slot from the requested one on holds a live entity.
    NoFreeSlot,
}

pub open spec fn npc_alive(n: NPC) -> bool {
    n.cond.0 & COND_ALIVE != 0
}

/// The entity an empty slot `idx` holds.
pub open spec fn slot_empty(idx: int) -> NPC {
    NPC { id: idx as u16, ..empty_npc() }
}

/// `npc` as placed in slot `id` of a list seeded with `seed`: it takes the
/// slot number as id, its facing as script direction unless one was set,
/// and a generator seeded for the slot.
pub open spec fn placed(npc: NPC, id: u16, seed: i32) -> NPC {
    NPC {
        id: id,
        tsc_direction: if npc.tsc_direction == 0 {
            direction_index(npc.direction) as u16
        } else {
            npc.tsc_direction
        },
        rng: seeded_rng(seed, id as u32),
        ..npc
    }
}

/// Number of live entities in `s`.
pub open spec fn alive_count(s: Seq<NPC>) -> nat
    decreases s.len(),
{
    if s.len() == 0 {
        0
    } else {
        alive_count(s.drop_last()) + if npc_alive(s.last()) {
            1nat
        } else {
            0nat
        }
    }
}

/// Whether slot `j` is the first one from `min_id` on without a live entity.
pub open spec fn first_free_from(s: Seq<NPC>, min_id: int, j: int) -> bool {
    &&& min_id <= j < s.len()
    &&& !npc_alive(s[j])
    &&& forall|k: int| min_id <= k < j ==> npc_alive(#[trigger] s[k])
}

pub open spec fn has_free_from(s: Seq<NPC>, min_id: int) -> bool {
    exists|j: int| min_id <= j < s.len() && !npc_alive(#[trigger] s[j])
}

proof fn lemma_alive_count_update(s: Seq<NPC>, j: int, x: NPC)
    requires
        0 <= j < s.len(),
    ensures
        alive_count(s.update(j, x)) + (if npc_alive(s[j]) {
            1int
        } else {
            0int
        }) == alive_count(s) + (if npc_alive(x) {
            1int
        } else {
            0int
        }),
    decreases s.len(),
{
    let t = s.update(j, x);
    if j == s.len() - 1 {
        assert(t.drop_last() =~= s.drop_last());
    } else {
        assert(t.drop_last() =~= s.drop_last().update(j, x));
        lemma_alive_count_update(s.drop_last(), j, x);
    }
}

/// Spawning a live entity adds exactly one live entity to the list, and
/// one that is not alive leaves the number unchanged: the slot it goes to
/// held no live entity.
pub proof fn law_spawn_adds_one_alive(s: Seq<NPC>, min_id: int, j: int, npc: NPC, seed: i32)
    requires
        first_free_from(s, min_id, j),
        0 <= min_id,
    ensures
        alive_count(s.update(j, placed(npc, j as u16, seed))) == alive_count(s) + if npc_alive(
            npc,
        ) {
            1nat
        } else {
            0nat
        },
{
    lemma_alive_count_update(s, j, placed(npc, j as u16, seed));
}

/// `f` may turn `before` into `after` and ask to go on.
pub open spec fn went_on<B, F: Fn(NPC) -> (NPC, Option<B>)>(f: F, before: NPC, after: NPC) -> bool {
    call_ensures(f, (before,), (after, None::<B>))
}

/// `f` may turn `before` into `after` and ask to stop with the error of `r`.
pub open spec fn stopped_at<B, F: Fn(NPC) -> (NPC, Option<B>)>(f: F, before: NPC, after: NPC, r: Result<(), B>) -> bool {
    r matches Err(b) && call_ensures(f, (before,), (after, Some(b)))
}

/// Every live entity before slot `k` went through `f`, which asked to go
/// on; every other slot but `k` is unchanged.
pub open spec fn walked_to<B, F: Fn(NPC) -> (NPC, Option<B>)>(f: F, before: Seq<NPC>, after: Seq<NPC>, k: int) -> bool {
    forall|i: int|
        0 <= i < NPC_LIST_MAX_CAP && i != k ==> if i < k && npc_alive(before[i]) {
            went_on(f, before[i], #[trigger] after[i])
        } else {
            after[i] == before[i]
        }
}

/// The stage's NPC slots.
pub struct NPCList {
    npcs: Vec<NPCCell>,
    max_npc: u16,
    seed: i32,
}

impl NPCList {
    /// The entities of all slots.
    pub closed spec fn npcs(&self) -> Seq<NPC> {
        self.npcs@.map_values(|c: NPCCell| c.0)
    }

    /// One past the highest slot ever filled since the last clear.
    pub closed spec fn max_npc(&self) -> u16 {
        self.max_npc
    }

    pub closed spec fn seed(&self) -> i32 {
        self.seed
    }

    pub closed spec fn wf(&self) -> bool {
        &&& self.npcs@.len() == NPC_LIST_MAX_CAP
        &&& self.max_npc <= NPC_LIST_MAX_CAP
    }

    /// An empty list: every slot holds an empty entity numbered after it.
    pub fn new() -> (r: (NPCList, NPCAccessToken))
        ensures
            r.0.wf(),
            r.0.max_npc() == 0,
            r.0.seed() == 0,
            r.0.npcs().len() == NPC_LIST_MAX_CAP,
            forall|i: int| 0 <= i < NPC_LIST_MAX_CAP ==> #[trigger] r.0.npcs()[i] == slot_empty(i),
    {
        let mut npcs: Vec<NPCCell> = Vec::new();
        let mut idx: usize = 0;
        while idx < NPC_LIST_MAX_CAP
            invariant
                idx <= NPC_LIST_MAX_CAP,
                npcs@.len() == idx,
                forall|i: int| 0 <= i < idx ==> #[trigger] npcs@[i].0 == slot_empty(i),
            decreases NPC_LIST_MAX_CAP - idx,
        {
            let mut npc = NPC::empty();
            npc.id = idx as u16;
            npcs.push(NPCCell(npc));
            idx += 1;
        }
        let map = NPCList { npcs, max_npc: 0, seed: 0 };
        (map, NPCAccessToken { _private: () })
    }

    /// Sets the seed that entities spawned from now on are seeded from.
    pub fn set_rng_seed(&mut self, seed: i32)
        requires
            old(self).wf(),
        ensures
            final(self).wf(),
            final(self).seed() == seed,
            final(self).npcs() == old(self).npcs(),
            final(self).max_npc() == old(self).max_npc(),
    {
        self.seed = seed;
    }

    /// Places `npc` in slot `id`, whatever it held; see `placed`.
    pub fn spawn_at_slot(&mut self, id: u16, npc: NPC) -> (r: Result<(), SpawnError>)
        requires
            old(self).wf(),
        ensures
            final(self).wf(),
            final(self).seed() == old(self).seed(),
            (id as int) < NPC_LIST_MAX_CAP <==> r is Ok,
            r is Err ==> r == Err::<(), SpawnError>(SpawnError::IdOutOfBounds) && *final(self)
                == *old(self),
            r is Ok ==> final(self).npcs() == old(self).npcs().update(
                id as int,
                placed(npc, id, old(self).seed()),
            ) && final(self).max_npc() == if old(self).max_npc() <= id {
                (id + 1) as u16
            } else {
                old(self).max_npc()
            },
    {
        if id as usize >= self.npcs.len() {
            return Err(SpawnError::IdOutOfBounds);
        }
        self.place(id, npc);
        Ok(())
    }

    fn place(&mut self, id: u16, npc: NPC)
        requires
            old(self).wf(),
            (id as int) < NPC_LIST_MAX_CAP,
        ensures
            final(self).wf(),
            final(self).seed() == old(self).seed(),
            final(self).npcs() == old(self).npcs().update(id as int, placed(npc, id, old(self).seed())),
            final(self).max_npc() == if old(self).max_npc() <= id {
                (id + 1) as u16
            } else {
                old(self).max_npc()
            },
    {
        let mut npc = npc;
        npc.id = id;
        if npc.tsc_direction == 0 {
            npc.tsc_direction = npc.direction.index() as u16;
        }
        npc.init_rng(self.seed);
        self.npcs.set(id as usize, NPCCell(npc));
        if self.max_npc <= id {
            self.max_npc = id + 1;
        }
        proof {
            assert(self.npcs() =~= old(self).npcs().update(
                id as int,
                placed(npc, id, old(self).seed()),
            ));
        }
    }

    /// Places `npc` in the first slot from `min_id` on that holds no live
    /// entity; see `placed`.
    pub fn spawn(&mut self, min_id: u16, npc: NPC) -> (r: Result<(), SpawnError>)
        requires
            old(self).wf(),
        ensures
            final(self).wf(),
            final(self).seed() == old(self).seed(),
            r == Err::<(), SpawnError>(SpawnError::IdOutOfBounds) <==> (min_id as int)
                >= NPC_LIST_MAX_CAP,
            r == Err::<(), SpawnError>(SpawnError::NoFreeSlot) <==> (min_id as int)
                < NPC_LIST_MAX_CAP && !has_free_from(old(self).npcs(), min_id as int),
            r is Err ==> *final(self) == *old(self),
            r is Ok ==> exists|j: int|
                #![trigger old(self).npcs()[j]]
                first_free_from(old(self).npcs(), min_id as int, j) && final(self).npcs()
                    == old(self).npcs().update(j, placed(npc, j as u16, old(self).seed()))
                    && final(self).max_npc() == if old(self).max_npc() <= j {
                    (j + 1) as u16
                } else {
                    old(self).max_npc()
                },
    {
        if min_id as usize >= self.npcs.len() {
            return Err(SpawnError::IdOutOfBounds);
        }
        let mut id: u16 = min_id;
        while (id as usize) < self.npcs.len()
            invariant
                self.wf(),
                *self == *old(self),
                min_id <= id <= NPC_LIST_MAX_CAP,
                forall|k: int| min_id <= k < id ==> npc_alive(#[trigger] self.npcs()[k]),
            decreases NPC_LIST_MAX_CAP - id,
        {
            assert(self.npcs()[id as int] == self.npcs@[id as int].0);
            if !self.npcs[id as usize].0.cond.alive() {
                proof {
                    assert(first_free_from(old(self).npcs(), min_id as int, id as int));
                }
                self.place(id, npc);
                return Ok(());
            }
            id += 1;
        }
        proof {
            assert forall|j: int| min_id <= j < old(self).npcs().len() implies npc_alive(
                #[trigger] old(self).npcs()[j],
            ) by {}
        }
        Err(SpawnError::NoFreeSlot)
    }

    /// The slot `id`, if there is one.
    pub fn get_npc(&self, id: usize) -> (r: Option<&NPCCell>)
        requires
            self.wf(),
        ensures
            self.npcs().len() == NPC_LIST_MAX_CAP,
            (id < NPC_LIST_MAX_CAP) == (r is Some),
            r is Some ==> r.unwrap().0 == self.npcs()[id as int],
    {
        if id < self.npcs.len() {
            Some(&self.npcs[id])
        } else {
            None
        }
    }

    /// Replaces the entity of slot `id` as it is, without placing it anew.
    pub fn set_npc(&mut self, id: usize, npc: NPC)
        requires
            old(self).wf(),
            id < NPC_LIST_MAX_CAP,
        ensures
            final(self).wf(),
            final(self).npcs() == old(self).npcs().update(id as int, npc),
            final(self).max_npc() == old(self).max_npc(),
            final(self).seed() == old(self).seed(),
    {
        self.npcs.set(id, NPCCell(npc));
        proof {
            assert(self.npcs() =~= old(self).npcs().update(id as int, npc));
        }
    }

    /// The slots up to the high-water mark.
    pub fn iter(&self) -> (r: &[NPCCell])
        requires
            self.wf(),
        ensures
            r@.len() == self.max_npc(),
            forall|i: int| 0 <= i < r@.len() ==> (#[trigger] r@[i]).0 == self.npcs()[i],
    {
        vstd::slice::slice_subrange(self.npcs.as_slice(), 0, self.max_npc as usize)
    }

    /// A walk over the live entities up to the high-water mark.
    pub fn iter_alive<'a>(&'a self, _token: &'a NPCAccessToken) -> (r: NPCListAliveIterator<'a>)
        requires
            self.wf(),
        ensures
            r.index() == 0,
            r.list() == self,
    {
        NPCListAliveIterator::new(self, _token)
    }

    /// Empties every slot up to the high-water mark and resets the mark.
    pub fn clear(&mut self, _token: &mut NPCAccessToken)
        requires
            old(self).wf(),
        ensures
            final(self).wf(),
            final(self).max_npc() == 0,
            final(self).seed() == old(self).seed(),
            final(self).npcs().len() == NPC_LIST_MAX_CAP,
            forall|i: int|
                0 <= i < NPC_LIST_MAX_CAP ==> #[trigger] final(self).npcs()[i] == if i < old(
                    self,
                ).max_npc() {
                    slot_empty(i)
                } else {
                    old(self).npcs()[i]
                },
    {
        let max = self.max_npc as usize;
        let mut idx: usize = 0;
        while idx < max
            invariant
                self.wf(),
                max == old(self).max_npc(),
                idx <= max,
                self.max_npc == old(self).max_npc,
                self.seed == old(self).seed,
                forall|i: int|
                    0 <= i < NPC_LIST_MAX_CAP ==> #[trigger] self.npcs()[i] == if i < idx {
                        slot_empty(i)
                    } else {
                        old(self).npcs()[i]
                    },
            decreases max - idx,
        {
            let mut npc = NPC::empty();
            npc.id = idx as u16;
            let ghost prev = self.npcs();
            self.npcs.set(idx, NPCCell(npc));
            assert(self.npcs() =~= prev.update(idx as int, slot_empty(idx as int)));
            idx += 1;
        }
        assert(idx == old(self).max_npc());
        let ghost before = self.npcs();
        self.max_npc = 0;
        assert(self.npcs() == before);
    }

    /// Hands each live entity up to the high-water mark to `f`, in slot
    /// order, and stores what `f` makes of it; other slots stay as they are.
    pub fn for_each_alive_mut<F: Fn(NPC) -> NPC>(&mut self, _token: &mut NPCAccessToken, f: F)
        requires
            old(self).wf(),
            forall|i: int|
                0 <= i < old(self).max_npc() && npc_alive(#[trigger] old(self).npcs()[i]) ==> call_requires(
                    f,
                    (old(self).npcs()[i],),
                ),
        ensures
            final(self).wf(),
            final(self).max_npc() == old(self).max_npc(),
            final(self).seed() == old(self).seed(),
            final(self).npcs().len() == old(self).npcs().len(),
            forall|i: int|
                0 <= i < NPC_LIST_MAX_CAP ==> if i < old(self).max_npc() && npc_alive(old(self).npcs()[i]) {
                    call_ensures(f, (old(self).npcs()[i],), #[trigger] final(self).npcs()[i])
                } else {
                    final(self).npcs()[i] == old(self).npcs()[i]
                },
    {
        let max = self.max_npc as usize;
        let mut idx: usize = 0;
        while idx < max
            invariant
                self.wf(),
                max == old(self).max_npc(),
                idx <= max,
                self.max_npc == old(self).max_npc,
                self.seed == old(self).seed,
                self.npcs().len() == NPC_LIST_MAX_CAP,
                old(self).npcs().len() == NPC_LIST_MAX_CAP,
                forall|i: int|
                    0 <= i < old(self).max_npc() && npc_alive(#[trigger] old(self).npcs()[i]) ==> call_requires(
                        f,
                        (old(self).npcs()[i],),
                    ),
                forall|i: int|
                    0 <= i < NPC_LIST_MAX_CAP ==> if i < idx && npc_alive(old(self).npcs()[i]) {
                        call_ensures(f, (old(self).npcs()[i],), #[trigger] self.npcs()[i])
                    } else {
                        self.npcs()[i] == old(self).npcs()[i]
                    },
            decreases max - idx,
        {
            let npc = self.npcs[idx].0;
            assert(self.npcs()[idx as int] == npc);
            assert(npc == old(self).npcs()[idx as int]);
            if npc.cond.alive() {
                let next = f(npc);
                let ghost prev = self.npcs();
                self.npcs.set(idx, NPCCell(next));
                assert(self.npcs() =~= prev.update(idx as int, next));
            }
            idx += 1;
        }
    }

    /// Like `for_each_alive_mut`, but `f` may ask to stop by giving back a
    /// value beside the entity: the walk then ends after storing that
    /// entity, and the value is returned as the error; `Ok` when every live
    /// entity was visited.
    pub fn try_for_each_alive_mut<B, F: Fn(NPC) -> (NPC, Option<B>)>(
        &mut self,
        _token: &mut NPCAccessToken,
        f: F,
    ) -> (r: Result<(), B>)
        requires
            old(self).wf(),
            forall|i: int|
                0 <= i < old(self).max_npc() && npc_alive(#[trigger] old(self).npcs()[i]) ==> call_requires(
                    f,
                    (old(self).npcs()[i],),
                ),
        ensures
            final(self).wf(),
            final(self).max_npc() == old(self).max_npc(),
            final(self).seed() == old(self).seed(),
            final(self).npcs().len() == old(self).npcs().len(),
            r is Ok ==> forall|i: int|
                0 <= i < NPC_LIST_MAX_CAP ==> if i < old(self).max_npc() && npc_alive(old(self).npcs()[i]) {
                    went_on(f, old(self).npcs()[i], #[trigger] final(self).npcs()[i])
                } else {
                    final(self).npcs()[i] == old(self).npcs()[i]
                },
            r is Err ==> exists|k: int|
                0 <= k < old(self).max_npc() && npc_alive(old(self).npcs()[k]) && #[trigger] stopped_at(
                    f,
                    old(self).npcs()[k],
                    final(self).npcs()[k],
                    r,
                ) && walked_to(f, old(self).npcs(), final(self).npcs(), k),
    {
        let max = self.max_npc as usize;
        let mut idx: usize = 0;
        while idx < max
            invariant
                self.wf(),
                max == old(self).max_npc(),
                idx <= max,
                self.max_npc == old(self).max_npc,
                self.seed == old(self).seed,
                self.npcs().len() == NPC_LIST_MAX_CAP,
                old(self).npcs().len() == NPC_LIST_MAX_CAP,
                forall|i: int|
                    0 <= i < old(self).max_npc() && npc_alive(#[trigger] old(self).npcs()[i]) ==> call_requires(
                        f,
                        (old(self).npcs()[i],),
                    ),
                forall|i: int|
                    0 <= i < NPC_LIST_MAX_CAP ==> if i < idx && npc_alive(old(self).npcs()[i]) {
                        went_on(f, old(self).npcs()[i], #[trigger] self.npcs()[i])
                    } else {
                        self.npcs()[i] == old(self).npcs()[i]
                    },
            decreases max - idx,
        {
            let npc = self.npcs[idx].0;
            assert(self.npcs()[idx as int] == npc);
            assert(npc == old(self).npcs()[idx as int]);
            if npc.cond.alive() {
                let (next, stop) = f(npc);
                let ghost prev = self.npcs();
                self.npcs.set(idx, NPCCell(next));
                assert(self.npcs() =~= prev.update(idx as int, next));
                match stop {
                    Some(b) => {
                        let r: Result<(), B> = Err(b);
                        assert(stopped_at(f, old(self).npcs()[idx as int], self.npcs()[idx as int], r));
                        assert(walked_to(f, old(self).npcs(), self.npcs(), idx as int));
                        return r;
                    },
                    None => {
                        assert(went_on(f, old(self).npcs()[idx as int], self.npcs()[idx as int]));
                    },
                }
            }
            idx += 1;
        }
        Ok(())
    }

    /// One past the highest slot filled since the last clear.
    pub fn current_capacity(&self) -> (r: u16)
        ensures
            r == self.max_npc(),
    {
        self.max_npc
    }

    /// Number of slots.
    pub fn max_capacity(&self) -> (r: u16)
        ensures
            r == NPC_LIST_MAX_CAP,
    {
        NPC_LIST_MAX_CAP as u16
    }
}

/// A walk over the live entities of a list, up to its high-water mark.
pub struct NPCListAliveIterator<'a> {
    index: u16,
    map: &'a NPCList,
}

impl<'a> NPCListAliveIterator<'a> {
    pub closed spec fn index(&self) -> u16 {
        self.index
    }

    pub closed spec fn list(&self) -> &'a NPCList {
        self.map
    }

    /// Live entities of the slots the walk has not passed yet.
    pub open spec fn remaining(&self) -> Seq<NPC> {
        let m = self.list().max_npc() as int;
        let i = self.index() as int;
        if i < m {
            self.list().npcs().subrange(i, m)
        } else {
            Seq::empty()
        }
    }

    pub fn new(map: &'a NPCList, _token: &'a NPCAccessToken) -> (r: NPCListAliveIterator<'a>)
        ensures
            r.index() == 0,
            r.list() == map,
    {
        NPCListAliveIterator { index: 0, map }
    }

    /// The next live entity, if any is left.
    pub fn next(&mut self) -> (r: Option<&'a NPC>)
        requires
            old(self).list().wf(),
        ensures
            final(self).list() == old(self).list(),
            match r {
                Some(n) => exists|j: int|
                    #![trigger old(self).list().npcs()[j]]
                    old(self).index() <= j < old(self).list().max_npc() && npc_alive(
                        old(self).list().npcs()[j],
                    ) && *n == old(self).list().npcs()[j] && final(self).index() == j + 1 && forall|
                        k: int,
                    |
                        old(self).index() <= k < j ==> !npc_alive(
                            #[trigger] old(self).list().npcs()[k],
                        ),
                None => forall|k: int|
                    old(self).index() <= k < old(self).list().max_npc() ==> !npc_alive(
                        #[trigger] old(self).list().npcs()[k],
                    ),
            },
    {
        let map = self.map;
        let max = map.max_npc;
        while self.index < max
            invariant
                self.map == map,
                map == old(self).map,
                map.wf(),
                max == map.max_npc(),
                old(self).index() <= self.index,
                forall|k: int|
                    old(self).index() <= k < self.index ==> !npc_alive(#[trigger] map.npcs()[k]),
            decreases max - self.index,
        {
            let i = self.index;
            self.index = i + 1;
            let cell = &map.npcs[i as usize];
            assert(map.npcs()[i as int] == cell.0);
            if cell.0.cond.alive() {
                assert(old(self).list().npcs()[i as int] == cell.0);
                return Some(&cell.0);
            }
        }
        None
    }

    /// Number of live entities left in the walk.
    pub fn count(self) -> (r: usize)
        requires
            self.list().wf(),
        ensures
            r == alive_count(self.remaining()),
    {
        let map = self.map;
        let max = map.max_npc as usize;
        let start = self.index as usize;
        if start >= max {
            return 0;
        }
        let mut n: usize = 0;
        let mut i: usize = start;
        while i < max
            invariant
                map.wf(),
                max == map.max_npc(),
                start <= i <= max,
                n == alive_count(map.npcs().subrange(start as int, i as int)),
                n <= i - start,
            decreases max - i,
        {
            proof {
                let s = map.npcs().subrange(start as int, (i + 1) as int);
                assert(s.drop_last() =~= map.npcs().subrange(start as int, i as int));
            }
            assert(map.npcs()[i as int] == map.npcs@[i as int].0);
            if map.npcs[i].0.cond.alive() {
                n += 1;
            }
            i += 1;
        }
        n
    }
}

} // verus!
