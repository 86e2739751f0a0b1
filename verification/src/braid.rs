//! The table-method backend: the universal fallback that every entry point
//! can rely on. The reference braid implementation interleaves several lookup
//! lanes purely as a speed tuning; the lane count is not observable, so this
//! backend computes the same function one byte at a time, proved equal to the
//! bit-level model.

use vstd::prelude::*;

use crate::model::crc32_of;
use crate::model::crc_byte;
use crate::model::crc_raw;
use crate::model::crc_steps;
use crate::model::POLY;

verus! {

/// Absorb one byte into the raw register.
fn update_byte(c: u32, b: u8) -> (r: u32)
    ensures
        r == crc_byte(c, b),
{
    let mut x: u32 = c ^ (b as u32);
    let mut k: usize = 0;
    while k < 8
        invariant
            k <= 8,
            x == crc_steps(c ^ (b as u32), k as nat),
        decreases 8 - k,
    {
        if x & 1 == 1 {
            x = (x >> 1) ^ POLY;
        } else {
            x = x >> 1;
        }
        k = k + 1;
    }
    x
}

/// Fold `bytes` into the running value `value`. Works for any input length,
/// the empty input included, and returns exactly the modelled checksum.
pub fn update(value: u32, bytes: &[u8]) -> (r: u32)
    ensures
        r == crc32_of(value, bytes@),
{
    let mut c: u32 = value ^ 0xFFFF_FFFFu32;
    let ghost c0: u32 = c;
    let mut i: usize = 0;
    assert(bytes@.skip(0) =~= bytes@);
    while i < bytes.len()
        invariant
            i <= bytes@.len(),
            crc_raw(c, bytes@.skip(i as int)) == crc_raw(c0, bytes@),
        decreases bytes@.len() - i,
    {
        let b: u8 = bytes[i];
        proof {
            assert(bytes@.skip(i as int).len() > 0);
            assert(bytes@.skip(i as int)[0] == bytes@[i as int]);
            assert(bytes@.skip(i as int).skip(1) =~= bytes@.skip(i as int + 1));
        }
        c = update_byte(c, b);
        i = i + 1;
    }
    assert(bytes@.skip(i as int) =~= Seq::<u8>::empty());
    c ^ 0xFFFF_FFFFu32
}

} // verus!
