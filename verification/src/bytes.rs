//! Little-endian integers and byte copies.

use vstd::prelude::*;

verus! {

/// The number that four bytes spell, least significant byte first.
pub open spec fn le_u32(b0: u8, b1: u8, b2: u8, b3: u8) -> int {
    b0 as int + 256 * (b1 as int) + 65536 * (b2 as int) + 16777216 * (b3 as int)
}

/// The four bytes that spell `n`, least significant byte first.
pub open spec fn le_bytes(n: int) -> Seq<u8> {
    seq![
        (n % 256) as u8,
        ((n / 256) % 256) as u8,
        ((n / 65536) % 256) as u8,
        ((n / 16777216) % 256) as u8,
    ]
}

/// The number that the four bytes of `s` from `at` on spell.
pub open spec fn le_u32_at(s: Seq<u8>, at: int) -> int {
    le_u32(s[at], s[at + 1], s[at + 2], s[at + 3])
}

/// Spelling a number that fits in 32 bits and reading it back gives the number.
pub proof fn lemma_le_round_trip(n: int)
    requires
        0 <= n <= u32::MAX,
    ensures
        le_bytes(n).len() == 4,
        le_u32_at(le_bytes(n), 0) == n,
{
}

/// Reads four bytes as a number, least significant byte first.
pub fn u32_from_le(b0: u8, b1: u8, b2: u8, b3: u8) -> (n: u32)
    ensures
        n as int == le_u32(b0, b1, b2, b3),
{
    (b0 as u32) + 256 * (b1 as u32) + 65536 * (b2 as u32) + 16777216 * (b3 as u32)
}

/// Copies the bytes of `src` from `from` up to, not including, `to`.
pub fn copy_range(src: &[u8], from: usize, to: usize) -> (out: Vec<u8>)
    requires
        from <= to <= src@.len(),
    ensures
        out@ == src@.subrange(from as int, to as int),
{
    let mut out: Vec<u8> = Vec::new();
    let mut i: usize = from;
    while i < to
        invariant
            from <= i <= to <= src@.len(),
            out@ == src@.subrange(from as int, i as int),
        decreases to - i,
    {
        out.push(src[i]);
        i = i + 1;
        assert(out@ =~= src@.subrange(from as int, i as int));
    }
    out
}

} // verus!
