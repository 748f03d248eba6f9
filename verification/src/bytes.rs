//! Fixed-width integer encoding in little- and big-endian byte order, and a
//! reader over a byte slice that behaves as an in-memory cursor.

use vstd::prelude::*;

verus! {

pub open spec fn le16(x: u16) -> Seq<u8> {
    seq![(x & 0xff) as u8, ((x >> 8u16) & 0xff) as u8]
}

pub open spec fn le32(x: u32) -> Seq<u8> {
    seq![(x & 0xff) as u8, ((x >> 8u32) & 0xff) as u8, ((x >> 16u32) & 0xff) as u8, ((x >> 24u32) & 0xff) as u8]
}

pub open spec fn be32(x: u32) -> Seq<u8> {
    seq![((x >> 24u32) & 0xff) as u8, ((x >> 16u32) & 0xff) as u8, ((x >> 8u32) & 0xff) as u8, (x & 0xff) as u8]
}

pub open spec fn le64(x: u64) -> Seq<u8> {
    le32((x & 0xffff_ffff) as u32) + le32((x >> 32u64) as u32)
}

pub open spec fn be64(x: u64) -> Seq<u8> {
    be32((x >> 32u64) as u32) + be32((x & 0xffff_ffff) as u32)
}

pub open spec fn zeros(n: nat) -> Seq<u8> {
    Seq::new(n, |i: int| 0u8)
}

/// The little-endian `u16` at `p`.
pub open spec fn u16_le(s: Seq<u8>, p: int) -> u16 {
    ((s[p] as u16) | ((s[p + 1] as u16) << 8u16)) as u16
}

/// The little-endian `u32` at `p`.
pub open spec fn u32_le(s: Seq<u8>, p: int) -> u32 {
    ((s[p] as u32) | ((s[p + 1] as u32) << 8u32) | ((s[p + 2] as u32) << 16u32) | ((s[p + 3] as u32) << 24u32)) as u32
}

/// The big-endian `u32` at `p`.
pub open spec fn u32_be(s: Seq<u8>, p: int) -> u32 {
    (((s[p] as u32) << 24u32) | ((s[p + 1] as u32) << 16u32) | ((s[p + 2] as u32) << 8u32) | (s[p + 3] as u32)) as u32
}

/// The little-endian `u64` at `p`.
pub open spec fn u64_le(s: Seq<u8>, p: int) -> u64 {
    (u32_le(s, p) as u64 | ((u32_le(s, p + 4) as u64) << 32u64)) as u64
}

/// The big-endian `u64` at `p`.
pub open spec fn u64_be(s: Seq<u8>, p: int) -> u64 {
    (((u32_be(s, p) as u64) << 32u64) | u32_be(s, p + 4) as u64) as u64
}

pub proof fn lemma_le16(s: Seq<u8>, p: int, x: u16)
    requires
        0 <= p,
        p + 2 <= s.len(),
        s.subrange(p, p + 2) == le16(x),
    ensures
        u16_le(s, p) == x,
{
    assert(s[p] == le16(x)[0]);
    assert(s[p + 1] == le16(x)[1]);
    assert((((x & 0xff) as u8) as u16 | ((((x >> 8u16) & 0xff) as u8) as u16) << 8u16) == x) by (bit_vector);
}

pub proof fn lemma_le32(s: Seq<u8>, p: int, x: u32)
    requires
        0 <= p,
        p + 4 <= s.len(),
        s.subrange(p, p + 4) == le32(x),
    ensures
        u32_le(s, p) == x,
{
    assert(s[p] == le32(x)[0]);
    assert(s[p + 1] == le32(x)[1]);
    assert(s[p + 2] == le32(x)[2]);
    assert(s[p + 3] == le32(x)[3]);
    assert((((x & 0xff) as u8) as u32 | ((((x >> 8u32) & 0xff) as u8) as u32) << 8u32
        | ((((x >> 16u32) & 0xff) as u8) as u32) << 16u32 | ((((x >> 24u32) & 0xff) as u8) as u32) << 24u32) == x)
        by (bit_vector);
}

pub proof fn lemma_be32(s: Seq<u8>, p: int, x: u32)
    requires
        0 <= p,
        p + 4 <= s.len(),
        s.subrange(p, p + 4) == be32(x),
    ensures
        u32_be(s, p) == x,
{
    assert(s[p] == be32(x)[0]);
    assert(s[p + 1] == be32(x)[1]);
    assert(s[p + 2] == be32(x)[2]);
    assert(s[p + 3] == be32(x)[3]);
    assert((((((x >> 24u32) & 0xff) as u8) as u32) << 24u32 | ((((x >> 16u32) & 0xff) as u8) as u32) << 16u32
        | ((((x >> 8u32) & 0xff) as u8) as u32) << 8u32 | (((x & 0xff) as u8) as u32)) == x) by (bit_vector);
}

pub proof fn lemma_le64(s: Seq<u8>, p: int, x: u64)
    requires
        0 <= p,
        p + 8 <= s.len(),
        s.subrange(p, p + 8) == le64(x),
    ensures
        u64_le(s, p) == x,
{
    let lo = (x & 0xffff_ffff) as u32;
    let hi = (x >> 32u64) as u32;
    let w = s.subrange(p, p + 8);
    assert(w.subrange(0, 4) =~= le32(lo));
    assert(w.subrange(4, 8) =~= le32(hi));
    assert(s.subrange(p, p + 4) =~= w.subrange(0, 4));
    assert(s.subrange(p + 4, p + 8) =~= w.subrange(4, 8));
    lemma_le32(s, p, lo);
    lemma_le32(s, p + 4, hi);
    assert(((((x & 0xffff_ffff) as u32) as u64) | ((((x >> 32u64) as u32) as u64) << 32u64)) == x) by (bit_vector);
}

pub proof fn lemma_be64(s: Seq<u8>, p: int, x: u64)
    requires
        0 <= p,
        p + 8 <= s.len(),
        s.subrange(p, p + 8) == be64(x),
    ensures
        u64_be(s, p) == x,
{
    let hi = (x >> 32u64) as u32;
    let lo = (x & 0xffff_ffff) as u32;
    let w = s.subrange(p, p + 8);
    assert(w.subrange(0, 4) =~= be32(hi));
    assert(w.subrange(4, 8) =~= be32(lo));
    assert(s.subrange(p, p + 4) =~= w.subrange(0, 4));
    assert(s.subrange(p + 4, p + 8) =~= w.subrange(4, 8));
    lemma_be32(s, p, hi);
    lemma_be32(s, p + 4, lo);
    assert(((((x >> 32u64) as u32) as u64) << 32u64 | (((x & 0xffff_ffff) as u32) as u64)) == x) by (bit_vector);
}

pub fn push_u8(out: &mut Vec<u8>, x: u8)
    ensures
        final(out)@ == old(out)@ + seq![x],
{
    out.push(x);
    assert(out@ =~= old(out)@ + seq![x]);
}

pub fn push_u16_le(out: &mut Vec<u8>, x: u16)
    ensures
        final(out)@ == old(out)@ + le16(x),
{
    out.push((x & 0xff) as u8);
    out.push(((x >> 8u16) & 0xff) as u8);
    assert(out@ =~= old(out)@ + le16(x));
}

pub fn push_u32_le(out: &mut Vec<u8>, x: u32)
    ensures
        final(out)@ == old(out)@ + le32(x),
{
    out.push((x & 0xff) as u8);
    out.push(((x >> 8u32) & 0xff) as u8);
    out.push(((x >> 16u32) & 0xff) as u8);
    out.push(((x >> 24u32) & 0xff) as u8);
    assert(out@ =~= old(out)@ + le32(x));
}

pub fn push_u32_be(out: &mut Vec<u8>, x: u32)
    ensures
        final(out)@ == old(out)@ + be32(x),
{
    out.push(((x >> 24u32) & 0xff) as u8);
    out.push(((x >> 16u32) & 0xff) as u8);
    out.push(((x >> 8u32) & 0xff) as u8);
    out.push((x & 0xff) as u8);
    assert(out@ =~= old(out)@ + be32(x));
}

pub fn push_u64_le(out: &mut Vec<u8>, x: u64)
    ensures
        final(out)@ == old(out)@ + le64(x),
{
    push_u32_le(out, (x & 0xffff_ffff) as u32);
    push_u32_le(out, (x >> 32u64) as u32);
    assert(out@ =~= old(out)@ + le64(x));
}

pub fn push_u64_be(out: &mut Vec<u8>, x: u64)
    ensures
        final(out)@ == old(out)@ + be64(x),
{
    push_u32_be(out, (x >> 32u64) as u32);
    push_u32_be(out, (x & 0xffff_ffff) as u32);
    assert(out@ =~= old(out)@ + be64(x));
}

pub fn push_zeros(out: &mut Vec<u8>, n: usize)
    ensures
        final(out)@ == old(out)@ + zeros(n as nat),
{
    let mut i: usize = 0;
    while i < n
        invariant
            i <= n,
            out@ == old(out)@ + zeros(i as nat),
        decreases n - i,
    {
        out.push(0u8);
        i = i + 1;
        assert(out@ =~= old(out)@ + zeros(i as nat));
    }
}

pub fn push_slice(out: &mut Vec<u8>, bytes: &[u8])
    ensures
        final(out)@ == old(out)@ + bytes@,
{
    let mut i: usize = 0;
    while i < bytes.len()
        invariant
            i <= bytes@.len(),
            out@ == old(out)@ + bytes@.take(i as int),
        decreases bytes@.len() - i,
    {
        out.push(bytes[i]);
        i = i + 1;
        assert(out@ =~= old(out)@ + bytes@.take(i as int));
    }
    assert(bytes@.take(i as int) =~= bytes@);
}

/// A read position over a byte slice. A read that does not fit in what is
/// left fails and leaves the position at the end, as an in-memory cursor's
/// `read_exact` does.
pub struct ByteReader<'a> {
    pub data: &'a [u8],
    pub pos: usize,
}

impl<'a> ByteReader<'a> {
    pub open spec fn wf(&self) -> bool {
        self.pos <= self.data@.len()
    }

    pub fn new(data: &'a [u8]) -> (res: ByteReader<'a>)
        ensures
            res.data@ == data@,
            res.pos == 0,
            res.wf(),
    {
        ByteReader { data, pos: 0 }
    }

    fn fits(&self, n: usize) -> (res: bool)
        requires
            self.wf(),
        ensures
            res == (self.pos + n <= self.data@.len()),
    {
        n <= self.data.len() - self.pos
    }

    pub fn read_u8(&mut self) -> (res: Option<u8>)
        requires
            old(self).wf(),
        ensures
            final(self).wf(),
            final(self).data == old(self).data,
            old(self).pos + 1 <= old(self).data@.len() ==> res == Some(old(self).data@[old(self).pos as int])
                && final(self).pos == old(self).pos + 1,
            old(self).pos + 1 > old(self).data@.len() ==> res is None && final(self).pos == old(self).data@.len(),
    {
        if self.fits(1) {
            let b = self.data[self.pos];
            self.pos = self.pos + 1;
            Some(b)
        } else {
            self.pos = self.data.len();
            None
        }
    }

    pub fn read_u16_le(&mut self) -> (res: Option<u16>)
        requires
            old(self).wf(),
        ensures
            final(self).wf(),
            final(self).data == old(self).data,
            old(self).pos + 2 <= old(self).data@.len() ==> res == Some(u16_le(old(self).data@, old(self).pos as int))
                && final(self).pos == old(self).pos + 2,
            old(self).pos + 2 > old(self).data@.len() ==> res is None && final(self).pos == old(self).data@.len(),
    {
        if self.fits(2) {
            let p = self.pos;
            let v = (self.data[p] as u16) | ((self.data[p + 1] as u16) << 8u16);
            self.pos = p + 2;
            Some(v)
        } else {
            self.pos = self.data.len();
            None
        }
    }

    pub fn read_u32_le(&mut self) -> (res: Option<u32>)
        requires
            old(self).wf(),
        ensures
            final(self).wf(),
            final(self).data == old(self).data,
            old(self).pos + 4 <= old(self).data@.len() ==> res == Some(u32_le(old(self).data@, old(self).pos as int))
                && final(self).pos == old(self).pos + 4,
            old(self).pos + 4 > old(self).data@.len() ==> res is None && final(self).pos == old(self).data@.len(),
    {
        if self.fits(4) {
            let p = self.pos;
            let v = (self.data[p] as u32) | ((self.data[p + 1] as u32) << 8u32) | ((self.data[p + 2] as u32)
                << 16u32) | ((self.data[p + 3] as u32) << 24u32);
            self.pos = p + 4;
            Some(v)
        } else {
            self.pos = self.data.len();
            None
        }
    }

    pub fn read_u32_be(&mut self) -> (res: Option<u32>)
        requires
            old(self).wf(),
        ensures
            final(self).wf(),
            final(self).data == old(self).data,
            old(self).pos + 4 <= old(self).data@.len() ==> res == Some(u32_be(old(self).data@, old(self).pos as int))
                && final(self).pos == old(self).pos + 4,
            old(self).pos + 4 > old(self).data@.len() ==> res is None && final(self).pos == old(self).data@.len(),
    {
        if self.fits(4) {
            let p = self.pos;
            let v = ((self.data[p] as u32) << 24u32) | ((self.data[p + 1] as u32) << 16u32) | ((self.data[p + 2]
                as u32) << 8u32) | (self.data[p + 3] as u32);
            self.pos = p + 4;
            Some(v)
        } else {
            self.pos = self.data.len();
            None
        }
    }

    pub fn read_u64_le(&mut self) -> (res: Option<u64>)
        requires
            old(self).wf(),
        ensures
            final(self).wf(),
            final(self).data == old(self).data,
            old(self).pos + 8 <= old(self).data@.len() ==> res == Some(u64_le(old(self).data@, old(self).pos as int))
                && final(self).pos == old(self).pos + 8,
            old(self).pos + 8 > old(self).data@.len() ==> res is None && final(self).pos == old(self).data@.len(),
    {
        if self.fits(8) {
            let lo = self.read_u32_le().unwrap();
            let hi = self.read_u32_le().unwrap();
            Some((lo as u64) | ((hi as u64) << 32u64))
        } else {
            self.pos = self.data.len();
            None
        }
    }

    pub fn read_u64_be(&mut self) -> (res: Option<u64>)
        requires
            old(self).wf(),
        ensures
            final(self).wf(),
            final(self).data == old(self).data,
            old(self).pos + 8 <= old(self).data@.len() ==> res == Some(u64_be(old(self).data@, old(self).pos as int))
                && final(self).pos == old(self).pos + 8,
            old(self).pos + 8 > old(self).data@.len() ==> res is None && final(self).pos == old(self).data@.len(),
    {
        if self.fits(8) {
            let hi = self.read_u32_be().unwrap();
            let lo = self.read_u32_be().unwrap();
            Some(((hi as u64) << 32u64) | (lo as u64))
        } else {
            self.pos = self.data.len();
            None
        }
    }

    /// Skips `n` bytes; fails (moving to the end) when fewer are left.
    pub fn skip_exact(&mut self, n: usize) -> (res: bool)
        requires
            old(self).wf(),
        ensures
            final(self).wf(),
            final(self).data == old(self).data,
            res == (old(self).pos + n <= old(self).data@.len()),
            res ==> final(self).pos == old(self).pos + n,
            !res ==> final(self).pos == old(self).data@.len(),
    {
        let len = self.data.len();
        if self.fits(n) {
            self.pos = self.pos + n;
            true
        } else {
            self.pos = self.data.len();
            false
        }
    }

    /// Reads as many of `n` bytes as are left, as an in-memory cursor's
    /// `read` does; returns how many were read.
    pub fn skip_up_to(&mut self, n: usize) -> (res: usize)
        requires
            old(self).wf(),
        ensures
            final(self).wf(),
            final(self).data == old(self).data,
            res == (if old(self).pos + n <= old(self).data@.len() { n as int } else {
                old(self).data@.len() - old(self).pos
            }),
            final(self).pos == old(self).pos + res,
    {
        let len = self.data.len();
        let k = if self.fits(n) { n } else { len - self.pos };
        self.pos = self.pos + k;
        k
    }
}

/// The byte orders, as numbers: a little-endian word is its first byte
/// plus 256 times the next, and so on; a big-endian one the other way
/// round; writing a word little-endian gives its bytes lowest first.
pub proof fn law_byte_order(s: Seq<u8>, p: int, x: u32, y: u16)
    requires
        0 <= p,
        p + 4 <= s.len(),
    ensures
        u32_le(s, p) == s[p] + 256 * s[p + 1] + 65536 * s[p + 2] + 16777216 * s[p + 3],
        u32_be(s, p) == 16777216 * s[p] + 65536 * s[p + 1] + 256 * s[p + 2] + s[p + 3],
        u16_le(s, p) == s[p] + 256 * s[p + 1],
        le32(x) == seq![(x % 256) as u8, (x / 256 % 256) as u8, (x / 65536 % 256) as u8, (x / 16777216) as u8],
        le16(y) == seq![(y % 256) as u8, (y / 256) as u8],
{
    let (a, b, c, d) = (s[p], s[p + 1], s[p + 2], s[p + 3]);
    assert(((a as u32) | ((b as u32) << 8u32) | ((c as u32) << 16u32) | ((d as u32) << 24u32)) as u32 == a + 256 * b
        + 65536 * c + 16777216 * d) by (bit_vector);
    assert((((a as u32) << 24u32) | ((b as u32) << 16u32) | ((c as u32) << 8u32) | (d as u32)) as u32 == 16777216 * a
        + 65536 * b + 256 * c + d) by (bit_vector);
    assert(((a as u16) | ((b as u16) << 8u16)) as u16 == a + 256 * b) by (bit_vector);
    assert((x & 0xff) as u8 == (x % 256) as u8 && ((x >> 8u32) & 0xff) as u8 == (x / 256 % 256) as u8 && ((x >> 16u32)
        & 0xff) as u8 == (x / 65536 % 256) as u8 && ((x >> 24u32) & 0xff) as u8 == (x / 16777216) as u8) by (bit_vector);
    assert((y & 0xff) as u8 == (y % 256) as u8 && ((y >> 8u16) & 0xff) as u8 == (y / 256) as u8) by (bit_vector);
}

} // verus!
