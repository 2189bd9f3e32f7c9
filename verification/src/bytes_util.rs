//! Multi-byte reads and writes over a byte sequence, stated as plain
//! arithmetic. The container's header fields are little-endian; the
//! ticket record inside it is big-endian.

use vstd::arithmetic::div_mod::lemma_fundamental_div_mod_converse;
use vstd::prelude::*;

verus! {

/// The value of the 2 bytes of `b` starting at `i`, least significant
/// byte first.
pub open spec fn le_u16(b: Seq<u8>, i: int) -> u16
    recommends
        0 <= i,
        i + 2 <= b.len(),
{
    (b[i] + b[i + 1] * 0x100) as u16
}

/// The value of the 4 bytes of `b` starting at `i`, least significant
/// byte first.
pub open spec fn le_u32(b: Seq<u8>, i: int) -> u32
    recommends
        0 <= i,
        i + 4 <= b.len(),
{
    (b[i] + b[i + 1] * 0x100 + b[i + 2] * 0x10000 + b[i + 3] * 0x1000000) as u32
}

/// The value of the 8 bytes of `b` starting at `i`, least significant
/// byte first.
pub open spec fn le_u64(b: Seq<u8>, i: int) -> u64
    recommends
        0 <= i,
        i + 8 <= b.len(),
{
    (b[i] + b[i + 1] * 0x100 + b[i + 2] * 0x10000 + b[i + 3] * 0x1000000 + b[i + 4] * 0x100000000
        + b[i + 5] * 0x10000000000 + b[i + 6] * 0x1000000000000 + b[i + 7]
        * 0x100000000000000) as u64
}

/// The 2-byte little-endian encoding of `x`.
pub open spec fn u16_le_bytes(x: u16) -> Seq<u8> {
    seq![(x % 0x100) as u8, ((x / 0x100) % 0x100) as u8]
}

/// The 4-byte little-endian encoding of `x`.
pub open spec fn u32_le_bytes(x: u32) -> Seq<u8> {
    seq![
        (x % 0x100) as u8,
        ((x / 0x100) % 0x100) as u8,
        ((x / 0x10000) % 0x100) as u8,
        ((x / 0x1000000) % 0x100) as u8,
    ]
}

/// The 8-byte little-endian encoding of `x`.
pub open spec fn u64_le_bytes(x: u64) -> Seq<u8> {
    seq![
        (x % 0x100) as u8,
        ((x / 0x100) % 0x100) as u8,
        ((x / 0x10000) % 0x100) as u8,
        ((x / 0x1000000) % 0x100) as u8,
        ((x / 0x100000000) % 0x100) as u8,
        ((x / 0x10000000000) % 0x100) as u8,
        ((x / 0x1000000000000) % 0x100) as u8,
        ((x / 0x100000000000000) % 0x100) as u8,
    ]
}

/// The unsigned value of the 4 bytes of `b` starting at `i`, most
/// significant byte first.
pub open spec fn be_u32(b: Seq<u8>, i: int) -> int
    recommends
        0 <= i,
        i + 4 <= b.len(),
{
    b[i] * 0x1000000 + b[i + 1] * 0x10000 + b[i + 2] * 0x100 + b[i + 3]
}

/// The unsigned value of the 8 bytes of `b` starting at `i`, most
/// significant byte first.
pub open spec fn be_u64(b: Seq<u8>, i: int) -> int
    recommends
        0 <= i,
        i + 8 <= b.len(),
{
    b[i] * 0x100000000000000 + b[i + 1] * 0x1000000000000 + b[i + 2] * 0x10000000000 + b[i + 3]
        * 0x100000000 + b[i + 4] * 0x1000000 + b[i + 5] * 0x10000 + b[i + 6] * 0x100 + b[i + 7]
}

/// Reads the little-endian `u16` that starts at byte `i`.
pub fn read_le_u16(bytes: &[u8], i: usize) -> (r: u16)
    requires
        i + 2 <= bytes@.len(),
    ensures
        r == le_u16(bytes@, i as int),
{
    bytes[i] as u16 + (bytes[i + 1] as u16) * 0x100
}

/// Reads the little-endian `u32` that starts at byte `i`.
pub fn read_le_u32(bytes: &[u8], i: usize) -> (r: u32)
    requires
        i + 4 <= bytes@.len(),
    ensures
        r == le_u32(bytes@, i as int),
{
    bytes[i] as u32 + (bytes[i + 1] as u32) * 0x100 + (bytes[i + 2] as u32) * 0x10000 + (bytes[i
        + 3] as u32) * 0x1000000
}

/// Reads the little-endian `u64` that starts at byte `i`.
pub fn read_le_u64(bytes: &[u8], i: usize) -> (r: u64)
    requires
        i + 8 <= bytes@.len(),
    ensures
        r == le_u64(bytes@, i as int),
{
    bytes[i] as u64 + (bytes[i + 1] as u64) * 0x100 + (bytes[i + 2] as u64) * 0x10000 + (bytes[i
        + 3] as u64) * 0x1000000 + (bytes[i + 4] as u64) * 0x100000000 + (bytes[i
        + 5] as u64) * 0x10000000000 + (bytes[i + 6] as u64) * 0x1000000000000 + (bytes[i
        + 7] as u64) * 0x100000000000000
}

/// Appends the 2-byte little-endian encoding of `x` to `out`.
pub fn write_le_u16(out: &mut Vec<u8>, x: u16)
    ensures
        final(out)@ == old(out)@ + u16_le_bytes(x),
{
    out.push((x % 0x100) as u8);
    out.push(((x / 0x100) % 0x100) as u8);
    proof {
        assert(out@ =~= old(out)@ + u16_le_bytes(x));
    }
}

/// Appends the 4-byte little-endian encoding of `x` to `out`.
pub fn write_le_u32(out: &mut Vec<u8>, x: u32)
    ensures
        final(out)@ == old(out)@ + u32_le_bytes(x),
{
    out.push((x % 0x100) as u8);
    out.push(((x / 0x100) % 0x100) as u8);
    out.push(((x / 0x10000) % 0x100) as u8);
    out.push(((x / 0x1000000) % 0x100) as u8);
    proof {
        assert(out@ =~= old(out)@ + u32_le_bytes(x));
    }
}

/// Appends the 8-byte little-endian encoding of `x` to `out`.
pub fn write_le_u64(out: &mut Vec<u8>, x: u64)
    ensures
        final(out)@ == old(out)@ + u64_le_bytes(x),
{
    out.push((x % 0x100) as u8);
    out.push(((x / 0x100) % 0x100) as u8);
    out.push(((x / 0x10000) % 0x100) as u8);
    out.push(((x / 0x1000000) % 0x100) as u8);
    out.push(((x / 0x100000000) % 0x100) as u8);
    out.push(((x / 0x10000000000) % 0x100) as u8);
    out.push(((x / 0x1000000000000) % 0x100) as u8);
    out.push(((x / 0x100000000000000) % 0x100) as u8);
    proof {
        assert(out@ =~= old(out)@ + u64_le_bytes(x));
    }
}

/// Reads the big-endian `u32` that starts at byte `i`.
pub fn read_be_u32(bytes: &[u8], i: usize) -> (r: u32)
    requires
        i + 4 <= bytes@.len(),
    ensures
        r == be_u32(bytes@, i as int),
{
    (bytes[i] as u32) * 0x1000000 + (bytes[i + 1] as u32) * 0x10000 + (bytes[i + 2] as u32) * 0x100
        + (bytes[i + 3] as u32)
}

/// Reads the big-endian `u64` that starts at byte `i`.
pub fn read_be_u64(bytes: &[u8], i: usize) -> (r: u64)
    requires
        i + 8 <= bytes@.len(),
    ensures
        r == be_u64(bytes@, i as int),
{
    (bytes[i] as u64) * 0x100000000000000 + (bytes[i + 1] as u64) * 0x1000000000000 + (bytes[i
        + 2] as u64) * 0x10000000000 + (bytes[i + 3] as u64) * 0x100000000 + (bytes[i
        + 4] as u64) * 0x1000000 + (bytes[i + 5] as u64) * 0x10000 + (bytes[i + 6] as u64) * 0x100
        + (bytes[i + 7] as u64)
}

/// Law: little-endian decoding inverts little-endian encoding — the
/// 2 bytes at `i` re-encode to themselves.
pub proof fn lemma_le_u16_round_trip(b: Seq<u8>, i: int)
    requires
        0 <= i,
        i + 2 <= b.len(),
    ensures
        u16_le_bytes(le_u16(b, i)) == b.subrange(i, i + 2),
{
    assert(u16_le_bytes(le_u16(b, i)) =~= b.subrange(i, i + 2));
}

/// Law: little-endian decoding inverts little-endian encoding — the
/// 4 bytes at `i` re-encode to themselves.
pub proof fn lemma_le_u32_round_trip(b: Seq<u8>, i: int)
    requires
        0 <= i,
        i + 4 <= b.len(),
    ensures
        u32_le_bytes(le_u32(b, i)) == b.subrange(i, i + 4),
{
    let n: int = b[i] + b[i + 1] * 0x100 + b[i + 2] * 0x10000 + b[i + 3] * 0x1000000;
    let q1: int = b[i + 1] + b[i + 2] * 0x100 + b[i + 3] * 0x10000;
    let q2: int = b[i + 2] + b[i + 3] * 0x100;
    let q3: int = b[i + 3] as int;
    assert(le_u32(b, i) == n);
    lemma_fundamental_div_mod_converse(n, 0x100, q1, b[i] as int);
    lemma_fundamental_div_mod_converse(q1, 0x100, q2, b[i + 1] as int);
    lemma_fundamental_div_mod_converse(n, 0x10000, q2, b[i] + b[i + 1] * 0x100);
    lemma_fundamental_div_mod_converse(q2, 0x100, q3, b[i + 2] as int);
    lemma_fundamental_div_mod_converse(n, 0x1000000, q3, b[i] + b[i + 1] * 0x100 + b[i + 2] * 0x10000);
    lemma_fundamental_div_mod_converse(q3, 0x100, 0, b[i + 3] as int);
    assert(u32_le_bytes(le_u32(b, i)) =~= b.subrange(i, i + 4));
}

/// Law: little-endian decoding inverts little-endian encoding — the
/// 8 bytes at `i` re-encode to themselves.
pub proof fn lemma_le_u64_round_trip(b: Seq<u8>, i: int)
    requires
        0 <= i,
        i + 8 <= b.len(),
    ensures
        u64_le_bytes(le_u64(b, i)) == b.subrange(i, i + 8),
{
    let n: int = b[i] + b[i + 1] * 0x100 + b[i + 2] * 0x10000 + b[i + 3] * 0x1000000 + b[i + 4]
        * 0x100000000 + b[i + 5] * 0x10000000000 + b[i + 6] * 0x1000000000000 + b[i + 7]
        * 0x100000000000000;
    let q1: int = b[i + 1] + b[i + 2] * 0x100 + b[i + 3] * 0x10000 + b[i + 4] * 0x1000000 + b[i + 5]
        * 0x100000000 + b[i + 6] * 0x10000000000 + b[i + 7] * 0x1000000000000;
    let q2: int = b[i + 2] + b[i + 3] * 0x100 + b[i + 4] * 0x10000 + b[i + 5] * 0x1000000 + b[i + 6]
        * 0x100000000 + b[i + 7] * 0x10000000000;
    let q3: int = b[i + 3] + b[i + 4] * 0x100 + b[i + 5] * 0x10000 + b[i + 6] * 0x1000000 + b[i + 7]
        * 0x100000000;
    let q4: int = b[i + 4] + b[i + 5] * 0x100 + b[i + 6] * 0x10000 + b[i + 7] * 0x1000000;
    let q5: int = b[i + 5] + b[i + 6] * 0x100 + b[i + 7] * 0x10000;
    let q6: int = b[i + 6] + b[i + 7] * 0x100;
    let q7: int = b[i + 7] as int;
    assert(le_u64(b, i) == n);
    lemma_fundamental_div_mod_converse(n, 0x100, q1, b[i] as int);
    lemma_fundamental_div_mod_converse(q1, 0x100, q2, b[i + 1] as int);
    lemma_fundamental_div_mod_converse(n, 0x10000, q2, b[i] + b[i + 1] * 0x100);
    lemma_fundamental_div_mod_converse(q2, 0x100, q3, b[i + 2] as int);
    lemma_fundamental_div_mod_converse(n, 0x1000000, q3, b[i] + b[i + 1] * 0x100 + b[i + 2] * 0x10000);
    lemma_fundamental_div_mod_converse(q3, 0x100, q4, b[i + 3] as int);
    lemma_fundamental_div_mod_converse(
        n,
        0x100000000,
        q4,
        b[i] + b[i + 1] * 0x100 + b[i + 2] * 0x10000 + b[i + 3] * 0x1000000,
    );
    lemma_fundamental_div_mod_converse(q4, 0x100, q5, b[i + 4] as int);
    lemma_fundamental_div_mod_converse(
        n,
        0x10000000000,
        q5,
        b[i] + b[i + 1] * 0x100 + b[i + 2] * 0x10000 + b[i + 3] * 0x1000000 + b[i + 4] * 0x100000000,
    );
    lemma_fundamental_div_mod_converse(q5, 0x100, q6, b[i + 5] as int);
    lemma_fundamental_div_mod_converse(
        n,
        0x1000000000000,
        q6,
        b[i] + b[i + 1] * 0x100 + b[i + 2] * 0x10000 + b[i + 3] * 0x1000000 + b[i + 4] * 0x100000000
            + b[i + 5] * 0x10000000000,
    );
    lemma_fundamental_div_mod_converse(q6, 0x100, q7, b[i + 6] as int);
    lemma_fundamental_div_mod_converse(
        n,
        0x100000000000000,
        q7,
        b[i] + b[i + 1] * 0x100 + b[i + 2] * 0x10000 + b[i + 3] * 0x1000000 + b[i + 4] * 0x100000000
            + b[i + 5] * 0x10000000000 + b[i + 6] * 0x1000000000000,
    );
    lemma_fundamental_div_mod_converse(q7, 0x100, 0, b[i + 7] as int);
    assert(u64_le_bytes(le_u64(b, i)) =~= b.subrange(i, i + 8));
}

} // verus!
