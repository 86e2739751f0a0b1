//! CRC-32 (IEEE 802.3 polynomial) checksums, computed incrementally and in
//! fused copy-while-checksum form.
//!
//! The accumulator value passed between calls follows the zlib convention:
//! the complement is applied on entry and on exit of every folding step, so a
//! checksum started at [`CRC32_INITIAL_VALUE`] and fed a buffer yields the
//! standard CRC-32 of that buffer, and a finished value can be fed back in as
//! the starting value for a continuation.

use vstd::prelude::*;

mod braid;
mod fold;
mod model;

pub use fold::Crc32Fold;

pub use model::crc32_of;
pub use model::crc_raw;
pub use model::crc_byte;
pub use model::crc_step;
pub use model::crc_steps;
pub use model::POLY;
pub use model::concat_chunks;
pub use model::fold_chunks;
pub use model::lemma_crc32_empty;
pub use model::lemma_chunk_combination;
pub use model::lemma_fold_chunks;

verus! {

/// Starting value for a fresh checksum: under the complemented running-value
/// convention, the empty input maps every start to itself, and this start
/// yields the standard CRC-32 of whatever is folded in.
pub const CRC32_INITIAL_VALUE: u32 = 0;

/// One-shot checksum of `buf`, chained from `start`.
///
/// Short inputs go straight to the table-method backend, longer ones through
/// an accumulator that may pick a faster backend; the routing threshold is a
/// performance choice only, and the result is the modelled checksum either
/// way.
pub fn crc32(buf: &[u8], start: u32) -> (r: u32)
    ensures
        r == crc32_of(start, buf@),
{
    /* For lens < 64, the table method is faster: backend selection and setup
     * overhead is not amortized below that size. */
    if buf.len() < 64 {
        return crc32_braid(buf, start);
    }

    let mut crc_state = Crc32Fold::new_with_initial(start);
    crc_state.fold(buf, start);
    crc_state.finish()
}

/// One-shot checksum of `buf`, chained from `start`, forcing the
/// table-method path whatever the input length.
pub fn crc32_braid(buf: &[u8], start: u32) -> (r: u32)
    ensures
        r == crc32_of(start, buf@),
{
    braid::update(start, buf)
}

/// One-shot fused copy and checksum: writes `buf` into the first
/// `buf.len()` bytes of `dst` (which may be longer; the rest is left as it
/// was) and returns the checksum of `buf` started at the canonical initial
/// value. Unlike [`crc32`], this entry point takes no caller-supplied start.
pub fn crc32_copy(dst: &mut [u8], buf: &[u8]) -> (r: u32)
    requires
        old(dst)@.len() >= buf@.len(),
    ensures
        r == crc32_of(CRC32_INITIAL_VALUE, buf@),
        final(dst)@.len() == old(dst)@.len(),
        final(dst)@.subrange(0, buf@.len() as int) == buf@,
        final(dst)@.skip(buf@.len() as int) == old(dst)@.skip(buf@.len() as int),
{
    /* Same size-based routing as `crc32`. */
    if buf.len() < 64 {
        fold::copy_prefix(dst, buf);
        return crc32_braid(buf, CRC32_INITIAL_VALUE);
    }

    let mut crc_state = Crc32Fold::new();
    crc_state.fold_copy(dst, buf);
    crc_state.finish()
}

} // verus!
