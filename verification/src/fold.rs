//! The incremental accumulator: holds the running checksum value across any
//! number of `fold` / `fold_copy` calls and concludes with `finish`.
//!
//! Backend choice is a performance decision only and is never observable in
//! the result, so a build of this crate without the hardware-gated backends
//! (which need feature probing and intrinsics outside what can be verified
//! here) routes every call through the table-method backend; the contracts
//! below pin the result that every backend must produce.

use vstd::prelude::*;

use crate::CRC32_INITIAL_VALUE;
use crate::braid;
use crate::model::crc32_of;

verus! {

/// Incremental CRC-32 accumulator. Its view is the current running value,
/// which is the checksum of everything folded so far, chained from the
/// starting value the accumulator was constructed with.
#[derive(Debug, Clone, Copy)]
pub struct Crc32Fold {
    value: u32,
}

impl View for Crc32Fold {
    type V = u32;

    closed spec fn view(&self) -> u32 {
        self.value
    }
}

/// Write the first `src.len()` bytes of `dst`, making them equal to `src`
/// and leaving the rest of `dst` as it was. Until a byte has been written by
/// this loop it is never read.
pub(crate) fn copy_prefix(dst: &mut [u8], src: &[u8])
    requires
        old(dst)@.len() >= src@.len(),
    ensures
        final(dst)@.len() == old(dst)@.len(),
        final(dst)@.subrange(0, src@.len() as int) == src@,
        final(dst)@.skip(src@.len() as int) == old(dst)@.skip(src@.len() as int),
{
    let mut i: usize = 0;
    while i < src.len()
        invariant
            i <= src@.len(),
            dst@.len() == old(dst)@.len(),
            src@.len() <= dst@.len(),
            forall|j: int| 0 <= j < i ==> dst@[j] == src@[j],
            forall|j: int| i <= j < dst@.len() ==> dst@[j] == old(dst)@[j],
        decreases src@.len() - i,
    {
        dst[i] = src[i];
        i = i + 1;
    }
    assert(dst@.subrange(0, src@.len() as int) =~= src@);
    assert(dst@.skip(src@.len() as int) =~= old(dst)@.skip(src@.len() as int));
}

impl Crc32Fold {
    /// A fresh accumulator at the canonical starting value.
    pub fn new() -> (r: Self)
        ensures
            r@ == CRC32_INITIAL_VALUE,
    {
        Self::new_with_initial(CRC32_INITIAL_VALUE)
    }

    /// A fresh accumulator at the given starting value. The starting value is
    /// authoritative for the whole lifetime of the accumulator: later calls
    /// chain from the running value held inside.
    pub fn new_with_initial(initial: u32) -> (r: Self)
        ensures
            r@ == initial,
    {
        Crc32Fold { value: initial }
    }

    /// Fold `src` into the running value. The `_start` argument is accepted
    /// for interface compatibility and ignored: only the value given at
    /// construction seeds the checksum, and every later call continues from
    /// the value the accumulator already holds.
    pub fn fold(&mut self, src: &[u8], _start: u32)
        ensures
            final(self)@ == crc32_of(old(self)@, src@),
    {
        self.value = braid::update(self.value, src);
    }

    /// Fold `src` into the running value and at the same time write it into
    /// the first `src.len()` bytes of `dst`, which may be longer; the rest of
    /// `dst` is left untouched. No byte of `dst` is read before this call has
    /// written it, and the checksum is the same as a `fold` of `src` alone.
    pub fn fold_copy(&mut self, dst: &mut [u8], src: &[u8])
        requires
            old(dst)@.len() >= src@.len(),
        ensures
            final(self)@ == crc32_of(old(self)@, src@),
            final(dst)@.len() == old(dst)@.len(),
            final(dst)@.subrange(0, src@.len() as int) == src@,
            final(dst)@.skip(src@.len() as int) == old(dst)@.skip(src@.len() as int),
    {
        self.fold(src, 0);
        copy_prefix(dst, src);
    }

    /// Conclude this checksum: no backend state is pending in this build, so
    /// the result is the running value itself.
    pub fn finish(self) -> (r: u32)
        ensures
            r == self@,
    {
        self.value
    }
}

impl Default for Crc32Fold {
    /// Same as [`Crc32Fold::new`].
    fn default() -> (r: Self)
        ensures
            r@ == CRC32_INITIAL_VALUE,
    {
        Self::new()
    }
}

} // verus!
