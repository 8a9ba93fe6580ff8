//! Big-endian (network byte order) encoding and decoding of the integer
//! widths the protocol uses, as explicit per-byte arithmetic.  The wire
//! layout is never produced by reinterpreting in-memory records: every
//! field is written and read byte by byte, so the result is independent
//! of host endianness and struct layout.

use vstd::prelude::*;

verus! {

/// The two big-endian bytes of a 16-bit integer.
pub open spec fn spec_u16_be(x: u16) -> Seq<u8> {
    seq![(x >> 8) as u8, x as u8]
}

/// The four big-endian bytes of a 32-bit integer.
pub open spec fn spec_u32_be(x: u32) -> Seq<u8> {
    seq![(x >> 24) as u8, (x >> 16) as u8, (x >> 8) as u8, x as u8]
}

/// The eight big-endian bytes of a 64-bit integer.
pub open spec fn spec_u64_be(x: u64) -> Seq<u8> {
    seq![
        (x >> 56) as u8,
        (x >> 48) as u8,
        (x >> 40) as u8,
        (x >> 32) as u8,
        (x >> 24) as u8,
        (x >> 16) as u8,
        (x >> 8) as u8,
        x as u8,
    ]
}

/// The 16-bit integer read from two big-endian bytes.
pub open spec fn spec_u16_from_be(b: Seq<u8>) -> u16
    recommends
        b.len() == 2,
{
    (((b[0] as u16) << 8) | (b[1] as u16)) as u16
}

/// The 32-bit integer read from four big-endian bytes.
pub open spec fn spec_u32_from_be(b: Seq<u8>) -> u32
    recommends
        b.len() == 4,
{
    (((b[0] as u32) << 24) | ((b[1] as u32) << 16) | ((b[2] as u32) << 8) | (b[3] as u32)) as u32
}

/// The 64-bit integer read from eight big-endian bytes.
pub open spec fn spec_u64_from_be(b: Seq<u8>) -> u64
    recommends
        b.len() == 8,
{
    (((b[0] as u64) << 56) | ((b[1] as u64) << 48) | ((b[2] as u64) << 40) | ((b[3] as u64) << 32)
        | ((b[4] as u64) << 24) | ((b[5] as u64) << 16) | ((b[6] as u64) << 8) | (b[7] as u64)) as u64
}

/// Reading back the bytes of a 16-bit integer yields the integer.
pub proof fn lemma_u16_be_round_trip(x: u16)
    ensures
        spec_u16_from_be(spec_u16_be(x)) == x,
{
    assert((((((x >> 8) as u8) as u16) << 8) | ((x as u8) as u16)) as u16 == x) by (bit_vector);
}

/// Reading back the bytes of a 32-bit integer yields the integer.
pub proof fn lemma_u32_be_round_trip(x: u32)
    ensures
        spec_u32_from_be(spec_u32_be(x)) == x,
{
    assert((((((x >> 24) as u8) as u32) << 24) | ((((x >> 16) as u8) as u32) << 16) | ((((x
        >> 8) as u8) as u32) << 8) | ((x as u8) as u32)) as u32 == x) by (bit_vector);
}

/// Reading back the bytes of a 64-bit integer yields the integer.
pub proof fn lemma_u64_be_round_trip(x: u64)
    ensures
        spec_u64_from_be(spec_u64_be(x)) == x,
{
    assert((((((x >> 56) as u8) as u64) << 56) | ((((x >> 48) as u8) as u64) << 48) | ((((x
        >> 40) as u8) as u64) << 40) | ((((x >> 32) as u8) as u64) << 32) | ((((x
        >> 24) as u8) as u64) << 24) | ((((x >> 16) as u8) as u64) << 16) | ((((x
        >> 8) as u8) as u64) << 8) | ((x as u8) as u64)) as u64 == x) by (bit_vector);
}

/// Appends the two big-endian bytes of `x`.
pub fn push_u16_be(out: &mut Vec<u8>, x: u16)
    ensures
        final(out)@ == old(out)@ + spec_u16_be(x),
{
    out.push((x >> 8) as u8);
    out.push(x as u8);
    assert(out@ =~= old(out)@ + spec_u16_be(x));
}

/// Appends the four big-endian bytes of `x`.
pub fn push_u32_be(out: &mut Vec<u8>, x: u32)
    ensures
        final(out)@ == old(out)@ + spec_u32_be(x),
{
    out.push((x >> 24) as u8);
    out.push((x >> 16) as u8);
    out.push((x >> 8) as u8);
    out.push(x as u8);
    assert(out@ =~= old(out)@ + spec_u32_be(x));
}

/// Appends the eight big-endian bytes of `x`.
pub fn push_u64_be(out: &mut Vec<u8>, x: u64)
    ensures
        final(out)@ == old(out)@ + spec_u64_be(x),
{
    out.push((x >> 56) as u8);
    out.push((x >> 48) as u8);
    out.push((x >> 40) as u8);
    out.push((x >> 32) as u8);
    out.push((x >> 24) as u8);
    out.push((x >> 16) as u8);
    out.push((x >> 8) as u8);
    out.push(x as u8);
    assert(out@ =~= old(out)@ + spec_u64_be(x));
}

/// Reads the 16-bit big-endian integer at `off`.
pub fn read_u16_be(b: &Vec<u8>, off: usize) -> (r: u16)
    requires
        off + 2 <= b@.len(),
    ensures
        r == spec_u16_from_be(b@.subrange(off as int, off + 2)),
{
    // binding the length as a usize lets the index sums be known to fit
    let n: usize = b.len();
    let r: u16 = (((b[off] as u16) << 8) | (b[off + 1] as u16)) as u16;
    proof {
        let s = b@.subrange(off as int, off + 2);
        assert(s[0] == b@[off as int] && s[1] == b@[off + 1]);
    }
    r
}

/// Reads the 32-bit big-endian integer at `off`.
pub fn read_u32_be(b: &Vec<u8>, off: usize) -> (r: u32)
    requires
        off + 4 <= b@.len(),
    ensures
        r == spec_u32_from_be(b@.subrange(off as int, off + 4)),
{
    let n: usize = b.len();
    let r: u32 = (((b[off] as u32) << 24) | ((b[off + 1] as u32) << 16) | ((b[off + 2] as u32)
        << 8) | (b[off + 3] as u32)) as u32;
    proof {
        let s = b@.subrange(off as int, off + 4);
        assert(s[0] == b@[off as int] && s[1] == b@[off + 1] && s[2] == b@[off + 2] && s[3] == b@[
            off + 3]);
    }
    r
}

/// Reads the 64-bit big-endian integer at `off`.
pub fn read_u64_be(b: &Vec<u8>, off: usize) -> (r: u64)
    requires
        off + 8 <= b@.len(),
    ensures
        r == spec_u64_from_be(b@.subrange(off as int, off + 8)),
{
    let n: usize = b.len();
    let r: u64 = (((b[off] as u64) << 56) | ((b[off + 1] as u64) << 48) | ((b[off + 2] as u64)
        << 40) | ((b[off + 3] as u64) << 32) | ((b[off + 4] as u64) << 24) | ((b[off + 5] as u64)
        << 16) | ((b[off + 6] as u64) << 8) | (b[off + 7] as u64)) as u64;
    proof {
        let s = b@.subrange(off as int, off + 8);
        assert(s[0] == b@[off as int] && s[1] == b@[off + 1] && s[2] == b@[off + 2] && s[3] == b@[
            off + 3] && s[4] == b@[off + 4] && s[5] == b@[off + 5] && s[6] == b@[off + 6] && s[7]
            == b@[off + 7]);
    }
    r
}

} // verus!
