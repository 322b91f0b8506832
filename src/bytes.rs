//! Big-endian two's-complement integers on the wire.
use vstd::prelude::*;

use crate::error::Error;

verus! {

/// What every decoder promises of its result `r` on `input`: where the parser
/// `expected` accepts, `r` holds the same value and the bytes after the ones
/// consumed; where it rejects, `r` is the same error.
pub open spec fn agrees<'a, X: View>(
    r: Result<(&'a [u8], X), Error>,
    input: Seq<u8>,
    expected: Result<(X::V, nat), Error>,
) -> bool {
    match expected {
        Ok((v, n)) => {
            &&& r matches Ok((rest, x))
            &&& x@ == v
            &&& n <= input.len()
            &&& rest@ == input.skip(n as int)
        },
        Err(e) => r == Err::<(&'a [u8], X), Error>(e),
    }
}

/// The error for a read of `needed` bytes from `s`, which holds fewer.
pub open spec fn truncated(needed: nat, s: Seq<u8>) -> Error {
    Error::TruncatedInput { needed: needed as usize, had: s.len() as usize }
}

/// The value of a big-endian two's-complement halfword `hi, lo`.
pub open spec fn i16_of(hi: u8, lo: u8) -> int {
    let u = hi as int * 0x100 + lo as int;
    if u >= 0x8000 { u - 0x1_0000 } else { u }
}

/// The value of a big-endian two's-complement word `b0, b1, b2, b3`.
pub open spec fn i32_of(b0: u8, b1: u8, b2: u8, b3: u8) -> int {
    let u = b0 as int * 0x100_0000 + b1 as int * 0x1_0000 + b2 as int * 0x100 + b3 as int;
    if u >= 0x8000_0000 { u - 0x1_0000_0000 } else { u }
}

/// The halfword at offset `i` of `s`.
pub open spec fn be_i16(s: Seq<u8>, i: int) -> i16 {
    i16_of(s[i], s[i + 1]) as i16
}

/// The word at offset `i` of `s`.
pub open spec fn be_i32(s: Seq<u8>, i: int) -> i32 {
    i32_of(s[i], s[i + 1], s[i + 2], s[i + 3]) as i32
}

/// The two bytes that encode `v`.
pub open spec fn i16_bytes(v: i16) -> Seq<u8> {
    let u: int = if v < 0 { v + 0x1_0000 } else { v as int };
    seq![(u / 0x100) as u8, (u % 0x100) as u8]
}

/// The four bytes that encode `v`.
pub open spec fn i32_bytes(v: i32) -> Seq<u8> {
    let u: int = if v < 0 { v + 0x1_0000_0000 } else { v as int };
    seq![
        (u / 0x100_0000) as u8,
        (u / 0x1_0000 % 0x100) as u8,
        (u / 0x100 % 0x100) as u8,
        (u % 0x100) as u8,
    ]
}

/// A halfword used as a count: the wire holds it unsigned.
pub open spec fn count_of(v: i16) -> nat {
    if v < 0 { (v + 0x1_0000) as nat } else { v as nat }
}

pub proof fn lemma_i16_round_trip(v: i16, s: Seq<u8>, i: int)
    requires
        0 <= i,
        i + 2 <= s.len(),
        s.subrange(i, i + 2) == i16_bytes(v),
    ensures
        be_i16(s, i) == v,
{
    assert(s[i] == i16_bytes(v)[0]);
    assert(s[i + 1] == i16_bytes(v)[1]);
}

pub proof fn lemma_i32_round_trip(v: i32, s: Seq<u8>, i: int)
    requires
        0 <= i,
        i + 4 <= s.len(),
        s.subrange(i, i + 4) == i32_bytes(v),
    ensures
        be_i32(s, i) == v,
{
    assert(s[i] == i32_bytes(v)[0]);
    assert(s[i + 1] == i32_bytes(v)[1]);
    assert(s[i + 2] == i32_bytes(v)[2]);
    assert(s[i + 3] == i32_bytes(v)[3]);
}

/// Reads the halfword at offset `i`.
pub fn read_i16(b: &[u8], i: usize) -> (r: i16)
    requires
        i + 2 <= b@.len(),
    ensures
        r == be_i16(b@, i as int),
{
    let u: u32 = (b[i] as u32) * 0x100 + (b[i + 1] as u32);
    if u >= 0x8000 {
        (u as i32 - 0x1_0000) as i16
    } else {
        u as i16
    }
}

/// Reads the word at offset `i`.
pub fn read_i32(b: &[u8], i: usize) -> (r: i32)
    requires
        i + 4 <= b@.len(),
    ensures
        r == be_i32(b@, i as int),
{
    let u: u64 = (b[i] as u64) * 0x100_0000 + (b[i + 1] as u64) * 0x1_0000 + (b[i + 2] as u64)
        * 0x100 + (b[i + 3] as u64);
    if u >= 0x8000_0000 {
        (u as i64 - 0x1_0000_0000) as i32
    } else {
        u as i32
    }
}

/// Reads a halfword count: its value as an unsigned 16-bit number.
pub fn count_from(v: i16) -> (r: usize)
    ensures
        r == count_of(v),
{
    if v < 0 {
        (v as i32 + 0x1_0000) as usize
    } else {
        v as usize
    }
}

} // verus!
