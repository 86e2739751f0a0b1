//! Mathematical model of the checksum: a bit-at-a-time definition of the
//! reflected CRC-32 with the IEEE 802.3 polynomial, and the lemmas that make
//! incremental (chunked) folding equal to whole-buffer folding.

use vstd::prelude::*;

verus! {

/// The IEEE 802.3 generator polynomial in reflected (bit-reversed) form.
pub const POLY: u32 = 0xEDB8_8320;

/// One step of the reflected shift-register: shift out the lowest bit and,
/// if it was set, fold the polynomial back in.
pub open spec fn crc_step(c: u32) -> u32 {
    if c & 1 == 1 {
        (c >> 1) ^ POLY
    } else {
        c >> 1
    }
}

/// `n` register steps in a row.
pub open spec fn crc_steps(c: u32, n: nat) -> u32
    decreases n,
{
    if n == 0 {
        c
    } else {
        crc_step(crc_steps(c, (n - 1) as nat))
    }
}

/// Absorb one byte: xor it into the low end of the register, then run the
/// register for its eight bits.
pub open spec fn crc_byte(c: u32, b: u8) -> u32 {
    crc_steps(c ^ (b as u32), 8)
}

/// Absorb a byte sequence into the raw (uncomplemented) register, front to
/// back.
pub open spec fn crc_raw(c: u32, s: Seq<u8>) -> u32
    decreases s.len(),
{
    if s.len() == 0 {
        c
    } else {
        crc_raw(crc_byte(c, s[0]), s.skip(1))
    }
}

/// The checksum in the running-value convention every public operation uses:
/// complement the start, absorb the bytes, complement the result. With start
/// 0 this is the standard CRC-32 of `s`.
pub open spec fn crc32_of(start: u32, s: Seq<u8>) -> u32 {
    crc_raw(start ^ 0xFFFF_FFFFu32, s) ^ 0xFFFF_FFFFu32
}

/// Complementing twice gives the value back.
proof fn lemma_xor_all_ones_twice(x: u32)
    ensures
        (x ^ 0xFFFF_FFFFu32) ^ 0xFFFF_FFFFu32 == x,
{
    assert((x ^ 0xFFFF_FFFFu32) ^ 0xFFFF_FFFFu32 == x) by (bit_vector);
}

/// The empty input leaves any starting value unchanged.
pub proof fn lemma_crc32_empty(start: u32, s: Seq<u8>)
    requires
        s.len() == 0,
    ensures
        crc32_of(start, s) == start,
{
    lemma_xor_all_ones_twice(start);
}

/// Raw absorption distributes over concatenation.
proof fn lemma_crc_raw_concat(c: u32, a: Seq<u8>, b: Seq<u8>)
    ensures
        crc_raw(c, a + b) == crc_raw(crc_raw(c, a), b),
    decreases a.len(),
{
    if a.len() == 0 {
        assert(a + b =~= b);
    } else {
        assert((a + b)[0] == a[0]);
        assert((a + b).skip(1) =~= a.skip(1) + b);
        lemma_crc_raw_concat(crc_byte(c, a[0]), a.skip(1), b);
    }
}

/// Chunk combination: folding `a` and then `b`, carrying the running value
/// from one call into the next, equals folding the concatenation `a + b` in
/// one call. This is what makes the streaming accumulator agree with the
/// one-shot entry points.
pub proof fn lemma_chunk_combination(start: u32, a: Seq<u8>, b: Seq<u8>)
    ensures
        crc32_of(crc32_of(start, a), b) == crc32_of(start, a + b),
{
    lemma_xor_all_ones_twice(crc_raw(start ^ 0xFFFF_FFFFu32, a));
    lemma_crc_raw_concat(start ^ 0xFFFF_FFFFu32, a, b);
}

/// The concatenation of an ordered sequence of chunks.
pub open spec fn concat_chunks(chunks: Seq<Seq<u8>>) -> Seq<u8>
    decreases chunks.len(),
{
    if chunks.len() == 0 {
        Seq::empty()
    } else {
        chunks[0] + concat_chunks(chunks.skip(1))
    }
}

/// The running value after folding each chunk in order, starting at `start`.
pub open spec fn fold_chunks(start: u32, chunks: Seq<Seq<u8>>) -> u32
    decreases chunks.len(),
{
    if chunks.len() == 0 {
        start
    } else {
        fold_chunks(crc32_of(start, chunks[0]), chunks.skip(1))
    }
}

/// Chunk combination for any number of chunks, zero included: folding a
/// sequence of chunks one after the other equals folding their concatenation
/// as a single buffer.
pub proof fn lemma_fold_chunks(start: u32, chunks: Seq<Seq<u8>>)
    ensures
        fold_chunks(start, chunks) == crc32_of(start, concat_chunks(chunks)),
    decreases chunks.len(),
{
    if chunks.len() == 0 {
        lemma_crc32_empty(start, concat_chunks(chunks));
    } else {
        lemma_fold_chunks(crc32_of(start, chunks[0]), chunks.skip(1));
        lemma_chunk_combination(start, chunks[0], concat_chunks(chunks.skip(1)));
    }
}

} // verus!
