//! The per-entity pseudo random generator (xoroshiro32++) and the seed
//! mixing used to give each NPC slot its own stream.

use vstd::prelude::*;

verus! {

/// Rotation of a 16-bit word to the left by `k` (0 < k < 16).
pub open spec fn rotl16(x: u16, k: u16) -> u16 {
    ((x << k) | (x >> ((16 - k) as u16))) as u16
}

/// Rotation of a 32-bit word to the left by `k` (0 < k < 32).
pub open spec fn rotl32(x: u32, k: u32) -> u32 {
    ((x << k) | (x >> ((32 - k) as u32))) as u32
}

/// One step of xoroshiro32++: the output word and the next state.
pub open spec fn xoro_step(s0: u16, s1: u16) -> (u16, u16, u16) {
    let out = vstd::wrapping::u16_specs::wrapping_add(
        rotl16(vstd::wrapping::u16_specs::wrapping_add(s0, s1), 9),
        s0,
    );
    let t = s1 ^ s0;
    let n0 = rotl16(s0, 13) ^ t ^ ((t << 5u16) as u16);
    let n1 = rotl16(t, 10);
    (out, n0, n1)
}

/// Two steps combined into a 32-bit word (first output in the high half),
/// with the state after both steps.
pub open spec fn xoro_next_u32(s0: u16, s1: u16) -> (u32, u16, u16) {
    let (a, m0, m1) = xoro_step(s0, s1);
    let (b, n0, n1) = xoro_step(m0, m1);
    ((((a as u32) << 16u32) | (b as u32)) as u32, n0, n1)
}

/// A draw from `start..=end` (both ends included, as the game's own
/// `Random(min, max)`) and the state after it.
pub open spec fn xoro_range(s0: u16, s1: u16, start: i32, end: i32) -> (i32, u16, u16)
    recommends
        start <= end,
{
    let (v, n0, n1) = xoro_next_u32(s0, s1);
    let span: int = end - start + 1;
    ((start + (v as int) % span) as i32, n0, n1)
}

/// The state a seed word is loaded as: low half first.
pub open spec fn state_of_seed(seed: u32) -> (u16, u16) {
    ((seed % 0x10000) as u16, (seed / 0x10000) as u16)
}

/// Absolute value of a seed as an unsigned word (`i32::MIN` gives `2^31`).
pub open spec fn seed_abs(seed: i32) -> u32 {
    if seed >= 0 {
        seed as u32
    } else {
        (-(seed as int)) as u32
    }
}

/// The state word an entity in slot `index` gets from the list seed.
pub open spec fn mix_seed(seed: i32, index: u32) -> u32 {
    let a = vstd::wrapping::u32_specs::wrapping_add(seed_abs(seed), index);
    let b = vstd::wrapping::u32_specs::wrapping_add(a, 3271284409u32);
    let c = rotl32(b, 5);
    let d = vstd::wrapping::u32_specs::wrapping_mul(c, 3815776271u32);
    let e = rotl32(d, 23);
    vstd::wrapping::u32_specs::wrapping_sub(e, 2626817629u32)
}

/// xoroshiro32++ generator state.
#[derive(Clone, Copy, Debug, PartialEq, Eq)]
pub struct Xoroshiro32PlusPlus {
    pub s0: u16,
    pub s1: u16,
}

fn rot16(x: u16, k: u16) -> (r: u16)
    requires
        0 < k < 16,
    ensures
        r == rotl16(x, k),
{
    (x << k) | (x >> (16 - k))
}

fn rot32(x: u32, k: u32) -> (r: u32)
    requires
        0 < k < 32,
    ensures
        r == rotl32(x, k),
{
    (x << k) | (x >> (32 - k))
}

/// Seed word for an entity in slot `index` of a list seeded with `seed`.
pub fn mix_seed_exec(seed: i32, index: u32) -> (r: u32)
    ensures
        r == mix_seed(seed, index),
{
    let abs: u32 = if seed >= 0 {
        seed as u32
    } else {
        (0u32).wrapping_sub(seed as u32)
    };
    proof {
        if seed < 0 {
            assert((0u32).wrapping_sub(seed as u32) == (-(seed as int)) as u32) by (bit_vector)
                requires
                    seed < 0i32,
            ;
        }
    }
    let a = abs.wrapping_add(index);
    let b = a.wrapping_add(3271284409u32);
    let c = rot32(b, 5);
    let d = c.wrapping_mul(3815776271u32);
    let e = rot32(d, 23);
    e.wrapping_sub(2626817629u32)
}

impl Xoroshiro32PlusPlus {
    /// A generator loaded with the given state word.
    pub fn new(seed: u32) -> (r: Self)
        ensures
            (r.s0, r.s1) == state_of_seed(seed),
    {
        Xoroshiro32PlusPlus { s0: (seed % 0x10000) as u16, s1: (seed / 0x10000) as u16 }
    }

    /// Replaces the state with the given state word.
    pub fn load_state(&mut self, saved_state: u32)
        ensures
            (final(self).s0, final(self).s1) == state_of_seed(saved_state),
    {
        self.s0 = (saved_state % 0x10000) as u16;
        self.s1 = (saved_state / 0x10000) as u16;
    }

    /// Next 16-bit output.
    pub fn next_u16(&mut self) -> (r: u16)
        ensures
            (r, final(self).s0, final(self).s1) == xoro_step(old(self).s0, old(self).s1),
    {
        let s0 = self.s0;
        let s1 = self.s1;
        let out = rot16(s0.wrapping_add(s1), 9).wrapping_add(s0);
        let t = s1 ^ s0;
        self.s0 = rot16(s0, 13) ^ t ^ (t << 5u16);
        self.s1 = rot16(t, 10);
        out
    }

    /// Next 32-bit output, made of two 16-bit outputs.
    pub fn next_u32(&mut self) -> (r: u32)
        ensures
            (r, final(self).s0, final(self).s1) == xoro_next_u32(old(self).s0, old(self).s1),
    {
        let a = self.next_u16();
        let b = self.next_u16();
        ((a as u32) << 16u32) | (b as u32)
    }

    /// A value from `range.start` to `range.end`, both included.
    pub fn range(&mut self, range: core::ops::Range<i32>) -> (r: i32)
        requires
            range.start <= range.end,
        ensures
            (r, final(self).s0, final(self).s1) == xoro_range(
                old(self).s0,
                old(self).s1,
                range.start,
                range.end,
            ),
            range.start <= r <= range.end,
    {
        let start = range.start;
        let end = range.end;
        let v = self.next_u32();
        let span: u64 = (end as i64 - start as i64 + 1) as u64;
        let off: u64 = (v as u64) % span;
        (start as i64 + off as i64) as i32
    }
}

} // verus!
