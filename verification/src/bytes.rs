//! Unsigned 64-bit amounts as eight bytes, least significant byte first.

use vstd::prelude::*;

verus! {

/// The amount that eight bytes stand for, least significant byte first.
pub open spec fn u64_from_le(s: Seq<u8>) -> u64
    recommends
        s.len() == 8,
{
    (s[0] as int + s[1] as int * 0x100 + s[2] as int * 0x1_0000 + s[3] as int * 0x100_0000
        + s[4] as int * 0x1_0000_0000 + s[5] as int * 0x100_0000_0000 + s[6] as int
        * 0x1_0000_0000_0000 + s[7] as int * 0x100_0000_0000_0000) as u64
}

/// The eight bytes that stand for an amount, least significant byte first.
pub open spec fn u64_to_le(x: u64) -> Seq<u8> {
    seq![
        (x % 0x100) as u8,
        (x / 0x100 % 0x100) as u8,
        (x / 0x1_0000 % 0x100) as u8,
        (x / 0x100_0000 % 0x100) as u8,
        (x / 0x1_0000_0000 % 0x100) as u8,
        (x / 0x100_0000_0000 % 0x100) as u8,
        (x / 0x1_0000_0000_0000 % 0x100) as u8,
        (x / 0x100_0000_0000_0000 % 0x100) as u8,
    ]
}

/// Decoding the bytes of an amount gives the amount back.
pub proof fn lemma_u64_le_round_trip(x: u64)
    ensures
        u64_to_le(x).len() == 8,
        u64_from_le(u64_to_le(x)) == x,
{
    assert(x == x % 0x100 + (x / 0x100 % 0x100) * 0x100 + (x / 0x1_0000 % 0x100) * 0x1_0000 + (x
        / 0x100_0000 % 0x100) * 0x100_0000 + (x / 0x1_0000_0000 % 0x100) * 0x1_0000_0000 + (x
        / 0x100_0000_0000 % 0x100) * 0x100_0000_0000 + (x / 0x1_0000_0000_0000 % 0x100)
        * 0x1_0000_0000_0000 + (x / 0x100_0000_0000_0000 % 0x100) * 0x100_0000_0000_0000)
        by (bit_vector);
}

/// Encoding the amount of eight bytes gives the bytes back.
pub proof fn lemma_le_u64_round_trip(s: Seq<u8>)
    requires
        s.len() == 8,
    ensures
        u64_to_le(u64_from_le(s)) == s,
{
    let (b0, b1, b2, b3, b4, b5, b6, b7) = (s[0], s[1], s[2], s[3], s[4], s[5], s[6], s[7]);
    let x = u64_from_le(s);
    assert(x == b0 + b1 * 0x100 + b2 * 0x1_0000 + b3 * 0x100_0000 + b4 * 0x1_0000_0000 + b5
        * 0x100_0000_0000 + b6 * 0x1_0000_0000_0000 + b7 * 0x100_0000_0000_0000);
    assert(x == b0 + b1 * 0x100 + b2 * 0x1_0000 + b3 * 0x100_0000 + b4 * 0x1_0000_0000 + b5
        * 0x100_0000_0000 + b6 * 0x1_0000_0000_0000 + b7 * 0x100_0000_0000_0000 ==> x % 0x100
        == b0 && x / 0x100 % 0x100 == b1 && x / 0x1_0000 % 0x100 == b2 && x / 0x100_0000 % 0x100
        == b3 && x / 0x1_0000_0000 % 0x100 == b4 && x / 0x100_0000_0000 % 0x100 == b5 && x
        / 0x1_0000_0000_0000 % 0x100 == b6 && x / 0x100_0000_0000_0000 % 0x100 == b7)
        by (bit_vector);
}

/// Reads the amount in the eight bytes of `input` that start at `at`.
pub fn read_u64_le(input: &[u8], at: usize) -> (x: u64)
    requires
        at + 8 <= input@.len(),
    ensures
        x == u64_from_le(input@.subrange(at as int, at + 8)),
{
    let b0: u64 = input[at] as u64;
    let b1: u64 = input[at + 1] as u64;
    let b2: u64 = input[at + 2] as u64;
    let b3: u64 = input[at + 3] as u64;
    let b4: u64 = input[at + 4] as u64;
    let b5: u64 = input[at + 5] as u64;
    let b6: u64 = input[at + 6] as u64;
    let b7: u64 = input[at + 7] as u64;
    b0 + b1 * 0x100 + b2 * 0x1_0000 + b3 * 0x100_0000 + b4 * 0x1_0000_0000 + b5
        * 0x100_0000_0000 + b6 * 0x1_0000_0000_0000 + b7 * 0x100_0000_0000_0000
}

/// Appends the eight bytes of `x` to `out`.
pub fn write_u64_le(out: &mut Vec<u8>, x: u64)
    ensures
        final(out)@ == old(out)@ + u64_to_le(x),
{
    out.push((x % 0x100) as u8);
    out.push((x / 0x100 % 0x100) as u8);
    out.push((x / 0x1_0000 % 0x100) as u8);
    out.push((x / 0x100_0000 % 0x100) as u8);
    out.push((x / 0x1_0000_0000 % 0x100) as u8);
    out.push((x / 0x100_0000_0000 % 0x100) as u8);
    out.push((x / 0x1_0000_0000_0000 % 0x100) as u8);
    out.push((x / 0x100_0000_0000_0000 % 0x100) as u8);
}

} // verus!
