//! Text-script (TSC) byte utilities: decryption, tokenising helpers and the
//! variable-length integer encoding used by compiled script bytecode.

use vstd::prelude::*;

verus! {

/// Errors produced while tokenising a script.
#[derive(Clone, Copy, Debug, PartialEq, Eq)]
pub enum ScriptError {
    /// A byte other than the expected one was found.
    Expected { expected: u8, found: u8 },
    /// The script ended before the token was complete.
    UnexpectedEnd,
}

/// The key that decrypts a script: the byte in the middle of the buffer,
/// or 7 when that byte is zero.
pub open spec fn tsc_key(buf: Seq<u8>) -> u8
    recommends buf.len() > 0,
{
    let k = buf[buf.len() as int / 2];
    if k == 0 { 7 } else { k }
}

/// The plaintext of an encrypted script: every byte but the middle one is
/// reduced (mod 256) by the key; the middle byte is kept.
pub open spec fn spec_decrypt_tsc(buf: Seq<u8>) -> Seq<u8>
    recommends buf.len() > 0,
{
    Seq::new(buf.len(), |i: int|
        if i == buf.len() as int / 2 { buf[i] } else { vstd::wrapping::u8_specs::wrapping_sub(buf[i], tsc_key(buf)) })
}

/// Decrypts a TSC script in place.
pub fn decrypt_tsc(buf: &mut Vec<u8>)
    requires
        old(buf).len() > 0,
    ensures
        final(buf)@ == spec_decrypt_tsc(old(buf)@),
{
    let half = buf.len() / 2;
    let key = if buf[half] == 0 { 7u8 } else { buf[half] };
    let ghost orig = buf@;
    let mut idx: usize = 0;
    while idx < buf.len()
        invariant
            buf.len() == orig.len(),
            half == orig.len() / 2,
            key == tsc_key(orig),
            idx <= buf.len(),
            forall|i: int| 0 <= i < idx ==> buf@[i] == spec_decrypt_tsc(orig)[i],
            forall|i: int| idx <= i < buf.len() ==> buf@[i] == orig[i],
        decreases buf.len() - idx,
    {
        if idx != half {
            let b = buf[idx].wrapping_sub(key);
            buf.set(idx, b);
        }
        idx = idx + 1;
    }
    assert(buf@ =~= spec_decrypt_tsc(orig));
}

/// A read position over the bytes of a script; `next` and `peek` behave
/// like those of a peekable byte iterator.
pub struct ByteStream<'a> {
    pub data: &'a [u8],
    pub pos: usize,
}

impl<'a> ByteStream<'a> {
    /// The bytes that are still to be read.
    pub open spec fn rest(&self) -> Seq<u8> {
        self.data@.subrange(self.pos as int, self.data@.len() as int)
    }

    pub open spec fn wf(&self) -> bool {
        self.pos <= self.data@.len()
    }

    /// Starts reading at the beginning of `data`.
    pub fn new(data: &'a [u8]) -> (res: ByteStream<'a>)
        ensures
            res.data@ == data@,
            res.pos == 0,
    {
        ByteStream { data, pos: 0 }
    }

    /// Returns the next byte without consuming it.
    pub fn peek(&self) -> (res: Option<u8>)
        requires
            self.wf(),
        ensures
            res == (if self.pos < self.data@.len() { Some(self.data@[self.pos as int]) } else { None::<u8> }),
    {
        if self.pos < self.data.len() {
            Some(self.data[self.pos])
        } else {
            None
        }
    }

    /// Consumes and returns the next byte.
    pub fn next(&mut self) -> (res: Option<u8>)
        requires
            old(self).wf(),
        ensures
            final(self).wf(),
            final(self).data == old(self).data,
            old(self).pos < old(self).data@.len() ==> res == Some(old(self).data@[old(self).pos as int])
                && final(self).pos == old(self).pos + 1,
            old(self).pos >= old(self).data@.len() ==> res is None && final(self).pos == old(self).pos,
    {
        if self.pos < self.data.len() {
            let b = self.data[self.pos];
            self.pos = self.pos + 1;
            Some(b)
        } else {
            None
        }
    }
}

/// Consumes one byte and checks that it is `expect`.
pub fn expect_char(expect: u8, iter: &mut ByteStream) -> (res: Result<(), ScriptError>)
    requires
        old(iter).wf(),
    ensures
        final(iter).wf(),
        final(iter).data == old(iter).data,
        old(iter).pos < old(iter).data@.len() ==> {
            let found = old(iter).data@[old(iter).pos as int];
            &&& final(iter).pos == old(iter).pos + 1
            &&& res == (if found == expect { Ok::<(), ScriptError>(()) } else {
                Err(ScriptError::Expected { expected: expect, found })
            })
        },
        old(iter).pos >= old(iter).data@.len() ==> final(iter).pos == old(iter).pos
            && res == Err::<(), ScriptError>(ScriptError::UnexpectedEnd),
{
    match iter.next() {
        Some(n) => {
            if n == expect {
                Ok(())
            } else {
                Err(ScriptError::Expected { expected: expect, found: n })
            }
        },
        None => Err(ScriptError::UnexpectedEnd),
    }
}

/// Advances to the next occurrence of `expect` without consuming it.
pub fn skip_until(expect: u8, iter: &mut ByteStream) -> (res: Result<(), ScriptError>)
    requires
        old(iter).wf(),
    ensures
        final(iter).wf(),
        final(iter).data == old(iter).data,
        old(iter).pos <= final(iter).pos,
        forall|i: int| old(iter).pos <= i < final(iter).pos ==> #[trigger] old(iter).data@[i] != expect,
        res is Ok <==> final(iter).pos < old(iter).data@.len(),
        res is Ok ==> old(iter).data@[final(iter).pos as int] == expect,
        res is Err ==> res == Err::<(), ScriptError>(ScriptError::UnexpectedEnd)
            && final(iter).pos == old(iter).data@.len(),
{
    let ghost start = iter.pos;
    while iter.pos < iter.data.len()
        invariant
            iter.wf(),
            iter.data == old(iter).data,
            start == old(iter).pos,
            start <= iter.pos,
            forall|i: int| start <= i < iter.pos ==> #[trigger] iter.data@[i] != expect,
        decreases iter.data@.len() - iter.pos,
    {
        if iter.data[iter.pos] == expect {
            return Ok(());
        }
        iter.pos = iter.pos + 1;
    }
    Err(ScriptError::UnexpectedEnd)
}

/// The value of one digit of a TSC number: the byte minus `'0'`, mod 256.
pub open spec fn digit_value(b: u8) -> int {
    vstd::wrapping::u8_specs::wrapping_sub(b, 48u8) as int
}

/// The value of a 4-digit TSC number; digits are not range-checked.
pub open spec fn spec_tsc_number(s: Seq<u8>) -> int
    recommends s.len() >= 4,
{
    1000 * digit_value(s[0]) + 100 * digit_value(s[1]) + 10 * digit_value(s[2]) + digit_value(s[3])
}

/// Reads a 4-digit TSC number. Deliberately accepts any byte as a digit.
pub fn read_number(iter: &mut ByteStream) -> (res: Result<i32, ScriptError>)
    requires
        old(iter).wf(),
    ensures
        final(iter).wf(),
        final(iter).data == old(iter).data,
        old(iter).rest().len() >= 4 ==> final(iter).pos == old(iter).pos + 4
            && res == Ok::<i32, ScriptError>(spec_tsc_number(old(iter).rest()) as i32),
        old(iter).rest().len() < 4 ==> final(iter).pos == old(iter).data@.len()
            && res == Err::<i32, ScriptError>(ScriptError::UnexpectedEnd),
{
    let ghost rest = iter.rest();
    let mut result: i32 = 0;
    let mut k: usize = 0;
    while k < 4
        invariant
            iter.wf(),
            iter.data == old(iter).data,
            k <= 4,
            rest == old(iter).rest(),
            k <= rest.len(),
            iter.pos == old(iter).pos + k,
            result == (if k == 0 { 0 } else if k == 1 { 1000 * digit_value(rest[0]) } else if k == 2 {
                1000 * digit_value(rest[0]) + 100 * digit_value(rest[1])
            } else if k == 3 {
                1000 * digit_value(rest[0]) + 100 * digit_value(rest[1]) + 10 * digit_value(rest[2])
            } else {
                spec_tsc_number(rest)
            }),
        decreases 4 - k,
    {
        match iter.next() {
            Some(v) => {
                let d = v.wrapping_sub(48u8) as i32;
                let w: i32 = if k == 0 { 1000 } else if k == 1 { 100 } else if k == 2 { 10 } else { 1 };
                assert(0 <= d < 256);
                result = result + w * d;
                proof {
                    assert(rest[k as int] == v);
                }
            },
            None => {
                return Err(ScriptError::UnexpectedEnd);
            },
        }
        k = k + 1;
    }
    Ok(result)
}


/// Zig-zag form of a signed value: the bits rotated left by one, so that the
/// sign lands in the lowest bit.
pub open spec fn zigzag(val: i32) -> u32 {
    ((val as u32) >> 31u32) ^ ((val as u32) << 1u32)
}

/// Inverse of [`zigzag`].
pub open spec fn unzigzag(x: u32) -> i32 {
    ((x << 31u32) ^ (x >> 1u32)) as i32
}

/// Number of 7-bit groups a value is written with (at least one).
pub open spec fn varint_len(x: u32) -> nat {
    if x < 0x80 { 1 } else if x < 0x4000 { 2 } else if x < 0x20_0000 { 3 } else if x < 0x1000_0000 { 4 } else { 5 }
}

/// Byte `o` of the variable-length encoding: 7 bits of the value, with the
/// high bit set on every byte but the last.
pub open spec fn varint_byte(x: u32, o: nat) -> u8 {
    let low = ((x >> (7 * o) as u32) & 0x7f) as u8;
    if o + 1 < varint_len(x) { low | 0x80 } else { low }
}

/// The variable-length encoding of an unsigned value, low groups first.
pub open spec fn varint_bytes(x: u32) -> Seq<u8> {
    Seq::new(varint_len(x), |o: int| varint_byte(x, o as nat))
}

/// The encoding that [`put_varint`] appends for a signed value.
pub open spec fn spec_varint(val: i32) -> Seq<u8> {
    varint_bytes(zigzag(val))
}

/// Decoding state after reading bytes `o..` of `s` with `acc` accumulated:
/// the value and the number of bytes read in all, or `None` when the bytes
/// run out first. At most five bytes are read.
pub open spec fn varint_decode_from(s: Seq<u8>, o: nat, acc: u32) -> Option<(u32, nat)>
    decreases 5 - o,
{
    if o >= 5 {
        Some((acc, o))
    } else if s.len() <= o {
        None
    } else {
        let n = s[o as int];
        let acc2 = acc | (((n & 0x7f) as u32) << (7 * o) as u32);
        if n & 0x80 == 0 { Some((acc2, o + 1)) } else { varint_decode_from(s, o + 1, acc2) }
    }
}

/// Decodes a variable-length value from the front of `s`.
pub open spec fn varint_decode(s: Seq<u8>) -> Option<(u32, nat)> {
    varint_decode_from(s, 0, 0)
}

proof fn lemma_zigzag_roundtrip(v: i32)
    ensures
        unzigzag(zigzag(v)) == v,
{
    let u = v as u32;
    assert(((((u >> 31u32) ^ (u << 1u32)) << 31u32) ^ (((u >> 31u32) ^ (u << 1u32)) >> 1u32)) == u)
        by (bit_vector);
    assert(((v as u32) as i32) == v) by (bit_vector);
}

proof fn lemma_varint_step(x: u32, o: u32)
    requires
        o < 4,
    ensures
        (x >> ((7 * o) as u32)) >> 7u32 == x >> ((7 * (o + 1)) as u32),
{
    if o == 0 {
        assert((x >> 0u32) >> 7u32 == x >> 7u32) by (bit_vector);
    } else if o == 1 {
        assert((x >> 7u32) >> 7u32 == x >> 14u32) by (bit_vector);
    } else if o == 2 {
        assert((x >> 14u32) >> 7u32 == x >> 21u32) by (bit_vector);
    } else {
        assert((x >> 21u32) >> 7u32 == x >> 28u32) by (bit_vector);
    }
}

proof fn lemma_varint_len_shift(x: u32, o: u32)
    requires
        1 <= o < 5,
    ensures
        (x >> ((7 * o) as u32) == 0) <==> (o as nat >= varint_len(x)),
{
    if o == 1 {
        assert((x >> 7u32 == 0) <==> x < 0x80) by (bit_vector);
    } else if o == 2 {
        assert((x >> 14u32 == 0) <==> x < 0x4000) by (bit_vector);
    } else if o == 3 {
        assert((x >> 21u32 == 0) <==> x < 0x20_0000) by (bit_vector);
    } else {
        assert((x >> 28u32 == 0) <==> x < 0x1000_0000) by (bit_vector);
    }
}

/// Appends the variable-length encoding of `val` to `out`.
pub fn put_varint(val: i32, out: &mut Vec<u8>)
    ensures
        final(out)@ == old(out)@ + spec_varint(val),
{
    let ghost z = zigzag(val);
    let mut x = ((val as u32) >> 31u32) ^ ((val as u32) << 1u32);
    let ghost start = out@;
    let mut o: u32 = 0;
    proof {
        assert(z >> 0u32 == z) by (bit_vector);
    }
    loop
        invariant_except_break
            z == zigzag(val),
            o < 5,
            (o as nat) < varint_len(z),
            x == z >> ((7 * o) as u32),
            out@ == start + varint_bytes(z).take(o as int),
        ensures
            out@ == start + varint_bytes(z),
        decreases 5 - o,
    {
        let mut n = (x & 0x7f) as u8;
        let ghost low = n;
        x = x >> 7u32;
        proof {
            if o < 4 {
                lemma_varint_step(z, o);
                lemma_varint_len_shift(z, (o + 1) as u32);
            } else {
                assert((z >> 28u32) >> 7u32 == 0) by (bit_vector);
                assert(7 * o == 28);
            }
        }
        if x != 0 {
            n = n | 0x80;
        }
        proof {
            assert(n == varint_byte(z, o as nat));
        }
        out.push(n);
        proof {
            assert(varint_bytes(z).take(o + 1) =~= varint_bytes(z).take(o as int).push(n));
        }
        if x == 0 {
            proof {
                assert(varint_bytes(z).take(o + 1) =~= varint_bytes(z));
            }
            break;
        }
        o = o + 1;
    }
}

proof fn lemma_varint_roundtrip(x: u32, rest: Seq<u8>)
    ensures
        varint_decode(varint_bytes(x) + rest) == Some((x, varint_len(x))),
{
    let s = varint_bytes(x) + rest;
    reveal_with_fuel(varint_decode_from, 6);
    let b0 = varint_byte(x, 0);
    let b1 = varint_byte(x, 1);
    let b2 = varint_byte(x, 2);
    let b3 = varint_byte(x, 3);
    let b4 = varint_byte(x, 4);
    assert(s[0] == b0);
    assert(x >> 0u32 == x) by (bit_vector);
    if x < 0x80 {
        assert(x < 0x80 ==> ((x & 0x7f) as u8) & 0x80 == 0 && (0u32 | ((((x & 0x7f) as u8) & 0x7f) as u32) << 0u32) == x)
            by (bit_vector);
    } else if x < 0x4000 {
        assert(s[1] == b1);
        assert(0x80 <= x < 0x4000 ==> {
            let c0 = ((x & 0x7f) as u8) | 0x80;
            let c1 = ((x >> 7u32) & 0x7f) as u8;
            &&& c0 & 0x80 != 0
            &&& c1 & 0x80 == 0
            &&& ((0u32 | (((c0 & 0x7f) as u32) << 0u32)) | (((c1 & 0x7f) as u32) << 7u32)) == x
        }) by (bit_vector);
    } else if x < 0x20_0000 {
        assert(s[1] == b1);
        assert(s[2] == b2);
        assert(0x4000 <= x < 0x20_0000 ==> {
            let c0 = ((x & 0x7f) as u8) | 0x80;
            let c1 = (((x >> 7u32) & 0x7f) as u8) | 0x80;
            let c2 = ((x >> 14u32) & 0x7f) as u8;
            &&& c0 & 0x80 != 0
            &&& c1 & 0x80 != 0
            &&& c2 & 0x80 == 0
            &&& (((0u32 | (((c0 & 0x7f) as u32) << 0u32)) | (((c1 & 0x7f) as u32) << 7u32)) | (((c2 & 0x7f) as u32) << 14u32)) == x
        }) by (bit_vector);
    } else if x < 0x1000_0000 {
        assert(s[1] == b1);
        assert(s[2] == b2);
        assert(s[3] == b3);
        assert(0x20_0000 <= x < 0x1000_0000 ==> {
            let c0 = ((x & 0x7f) as u8) | 0x80;
            let c1 = (((x >> 7u32) & 0x7f) as u8) | 0x80;
            let c2 = (((x >> 14u32) & 0x7f) as u8) | 0x80;
            let c3 = ((x >> 21u32) & 0x7f) as u8;
            &&& c0 & 0x80 != 0
            &&& c1 & 0x80 != 0
            &&& c2 & 0x80 != 0
            &&& c3 & 0x80 == 0
            &&& ((((0u32 | (((c0 & 0x7f) as u32) << 0u32)) | (((c1 & 0x7f) as u32) << 7u32)) | (((c2 & 0x7f) as u32) << 14u32)) | (((c3 & 0x7f) as u32) << 21u32)) == x
        }) by (bit_vector);
    } else {
        assert(s[1] == b1);
        assert(s[2] == b2);
        assert(s[3] == b3);
        assert(s[4] == b4);
        assert(0x1000_0000 <= x ==> {
            let c0 = ((x & 0x7f) as u8) | 0x80;
            let c1 = (((x >> 7u32) & 0x7f) as u8) | 0x80;
            let c2 = (((x >> 14u32) & 0x7f) as u8) | 0x80;
            let c3 = (((x >> 21u32) & 0x7f) as u8) | 0x80;
            let c4 = ((x >> 28u32) & 0x7f) as u8;
            &&& c0 & 0x80 != 0
            &&& c1 & 0x80 != 0
            &&& c2 & 0x80 != 0
            &&& c3 & 0x80 != 0
            &&& c4 & 0x80 == 0
            &&& (((((0u32 | (((c0 & 0x7f) as u32) << 0u32)) | (((c1 & 0x7f) as u32) << 7u32)) | (((c2 & 0x7f) as u32) << 14u32)) | (((c3 & 0x7f) as u32) << 21u32)) | (((c4 & 0x7f) as u32) << 28u32)) == x
        }) by (bit_vector);
    }
}

/// Reads a variable-length signed value, as written by [`put_varint`].
pub fn read_varint(iter: &mut ByteStream) -> (res: Result<i32, ScriptError>)
    requires
        old(iter).wf(),
    ensures
        final(iter).wf(),
        final(iter).data == old(iter).data,
        match varint_decode(old(iter).rest()) {
            Some((r, k)) => res == Ok::<i32, ScriptError>(unzigzag(r)) && final(iter).pos == old(iter).pos + k,
            None => res == Err::<i32, ScriptError>(ScriptError::UnexpectedEnd)
                && final(iter).pos == old(iter).data@.len(),
        },
{
    let ghost rest = iter.rest();
    let mut result: u32 = 0;
    let mut o: u32 = 0;
    while o < 5
        invariant_except_break
            varint_decode(rest) == varint_decode_from(rest, o as nat, result),
        invariant
            iter.wf(),
            iter.data == old(iter).data,
            rest == old(iter).rest(),
            o <= 5,
            iter.pos == old(iter).pos + o,
            o <= rest.len(),
        ensures
            varint_decode(rest) == Some((result, o as nat)),
        decreases 5 - o,
    {
        let n = match iter.next() {
            Some(n) => n,
            None => {
                return Err(ScriptError::UnexpectedEnd);
            },
        };
        proof {
            assert(rest[o as int] == n);
        }
        result = result | (((n & 0x7f) as u32) << (o * 7));
        proof {
            assert(o * 7 == 7 * o);
        }
        if n & 0x80 == 0 {
            o = o + 1;
            break;
        }
        o = o + 1;
    }
    Ok(((result << 31u32) ^ (result >> 1u32)) as i32)
}

/// Reads a variable-length signed value from a cursor over compiled bytecode;
/// behaves as [`read_varint`].
pub fn read_cur_varint(cursor: &mut ByteStream) -> (res: Result<i32, ScriptError>)
    requires
        old(cursor).wf(),
    ensures
        final(cursor).wf(),
        final(cursor).data == old(cursor).data,
        match varint_decode(old(cursor).rest()) {
            Some((r, k)) => res == Ok::<i32, ScriptError>(unzigzag(r)) && final(cursor).pos == old(cursor).pos + k,
            None => res is Err,
        },
{
    read_varint(cursor)
}

/// Every signed value survives [`put_varint`] followed by [`read_varint`],
/// whatever bytes follow the encoding.
pub proof fn law_varint_roundtrip(val: i32, rest: Seq<u8>)
    ensures
        varint_decode(spec_varint(val) + rest) == Some((zigzag(val), varint_len(zigzag(val)))),
        unzigzag(zigzag(val)) == val,
{
    lemma_varint_roundtrip(zigzag(val), rest);
    lemma_zigzag_roundtrip(val);
}

/// Text encodings a script's strings can be stored in.
#[derive(Clone, Copy, Debug, PartialEq, Eq)]
pub enum TextScriptEncoding {
    UTF8,
    ShiftJIS,
    UTF16BE,
    UTF16LE,
}

/// The characters `encoding_rs` decodes `bytes` to in `encoding`, without
/// byte-order-mark handling and with malformed sequences replaced.
pub uninterp spec fn decoded_text(encoding: TextScriptEncoding, bytes: Seq<u8>) -> Seq<char>;

/// Decodes `bytes` with `encoding_rs::Encoding::decode_without_bom_handling`
/// of the matching encoding; the characters are `decoded_text` of the
/// arguments. Inputs near `usize::MAX` bytes, on which the crate panics
/// when sizing its buffer, are left out.
#[verifier::external_body]
fn decode_text(encoding: TextScriptEncoding, bytes: &[u8]) -> (r: Vec<char>)
    requires
        bytes@.len() <= usize::MAX / 8,
    ensures
        r@ == decoded_text(encoding, bytes@),
{
    let enc: &'static encoding_rs::Encoding = match encoding {
        TextScriptEncoding::UTF8 => encoding_rs::UTF_8,
        TextScriptEncoding::ShiftJIS => encoding_rs::SHIFT_JIS,
        TextScriptEncoding::UTF16BE => encoding_rs::UTF_16BE,
        TextScriptEncoding::UTF16LE => encoding_rs::UTF_16LE,
    };
    enc.decode_without_bom_handling(bytes).0.chars().collect()
}

/// Variable-length codes of each character's scalar value, in order.
pub open spec fn varints_of(cs: Seq<char>) -> Seq<u8>
    decreases cs.len(),
{
    if cs.len() == 0 {
        Seq::empty()
    } else {
        varints_of(cs.drop_last()) + spec_varint(cs.last() as u32 as i32)
    }
}

/// A compiled string: its character count, then each character.
pub open spec fn spec_put_chars(cs: Seq<char>) -> Seq<u8> {
    spec_varint(cs.len() as i32) + varints_of(cs)
}

/// Appends a compiled string of the given characters; see `spec_put_chars`.
pub fn put_chars(chars: &Vec<char>, out: &mut Vec<u8>)
    ensures
        final(out)@ == old(out)@ + spec_put_chars(chars@),
{
    let mut tmp: Vec<u8> = Vec::new();
    let mut i: usize = 0;
    while i < chars.len()
        invariant
            i <= chars@.len(),
            tmp@ == varints_of(chars@.take(i as int)),
        decreases chars@.len() - i,
    {
        let c = chars[i];
        put_varint(c as u32 as i32, &mut tmp);
        proof {
            assert(chars@.take((i + 1) as int).drop_last() =~= chars@.take(i as int));
        }
        i += 1;
    }
    assert(chars@.take(chars@.len() as int) =~= chars@);
    put_varint(chars.len() as i32, out);
    let ghost mid = out@;
    out.append(&mut tmp);
    assert(out@ =~= old(out)@ + spec_put_chars(chars@));
}

/// Compiles the pending string bytes in `buffer` into `out` and empties
/// the buffer; nothing happens when the buffer is empty.
pub fn put_string(buffer: &mut Vec<u8>, out: &mut Vec<u8>, encoding: TextScriptEncoding)
    requires
        old(buffer)@.len() <= usize::MAX / 8,
    ensures
        old(buffer)@.len() == 0 ==> final(buffer)@ == old(buffer)@ && final(out)@ == old(out)@,
        old(buffer)@.len() > 0 ==> final(buffer)@.len() == 0 && final(out)@ == old(out)@
            + spec_put_chars(decoded_text(encoding, old(buffer)@)),
{
    if buffer.len() == 0 {
        return;
    }
    let chars = decode_text(encoding, buffer.as_slice());
    buffer.clear();
    put_chars(&chars, out);
}

} // verus!
