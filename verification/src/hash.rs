//! The hash functions: three byte-sequence hashes over a range and a stride,
//! and the adapters that feed them text and 16-bit code units.

use crate::foreign::{build_entropy, utf16_units};
use crate::sampling::{lemma_sample_count_bound, lemma_walk_step, next_index, sampled};
use crate::util::{min, spec_min};
use core::ops::Range;
use vstd::prelude::*;
use widestring::Utf16Str;

pub use self::djb2 as hash_bytes_impl;

verus! {

/// The value every fixed-seed hash starts from.
pub const HASH_SEED: u32 = 3581;

/// Product of two 32-bit values, reduced modulo 2^32.
pub open spec fn mul32(x: u32, y: u32) -> u32 {
    ((x * y) % 0x1_0000_0000) as u32
}

/// Sum of two 32-bit values, reduced modulo 2^32.
pub open spec fn add32(x: u32, y: u32) -> u32 {
    ((x + y) % 0x1_0000_0000) as u32
}

/// The low 32 bits of an integer: its residue modulo 2^32.
pub open spec fn low32(x: int) -> u32 {
    (x % 0x1_0000_0000) as u32
}

/// `x` rotated left by four bits.
pub open spec fn rotl4(x: u32) -> u32 {
    (x << 4) | (x >> 28)
}

/// `x` rotated right by twenty-four bits.
pub open spec fn rotr24(x: u32) -> u32 {
    (x >> 24) | (x << 8)
}

/// One step of the rotate-mask hash: rotate the accumulator left by four
/// bits and add the byte; fold the top four bits back in, twenty-four bits
/// lower, where any is set; then clear the top four bits in every case.
pub open spec fn elf_step(acc: u32, byte: u8) -> u32 {
    let mixed = add32(rotl4(acc), byte as u32);
    let high = mixed & 0xF000_0000;
    let folded = if high != 0 {
        mixed ^ rotr24(high)
    } else {
        mixed
    };
    folded & !high
}

/// The rotate-mask hash of a whole byte string, started from `init`.
pub open spec fn elf_of(init: u32, bytes: Seq<u8>) -> u32 {
    bytes.fold_left(init, |acc: u32, b: u8| elf_step(acc, b))
}

/// Where the rotate-mask hash starts: the seed times the range length times
/// the sequence length, each product reduced modulo 2^32. A range whose end
/// lies before its start has the length `end - start` modulo 2^32.
pub open spec fn elf_init(seed: u32, len: int, start: int, end: int) -> u32 {
    mul32(mul32(seed, low32(end - start)), low32(len))
}

/// The rotate-mask hash of the bytes of `s` that a walk over `[start, end)`
/// with stride `step` visits, for a given seed.
pub open spec fn spec_seeded_elf(seed: u32, s: Seq<u8>, start: int, end: int, step: int) -> u32 {
    elf_of(elf_init(seed, s.len() as int, start, end), sampled(s, start, end, step))
}

fn rotate_left_4(x: u32) -> (r: u32)
    ensures
        r == rotl4(x),
{
    (x << 4) | (x >> 28)
}

fn rotate_right_24(x: u32) -> (r: u32)
    ensures
        r == rotr24(x),
{
    (x >> 24) | (x << 8)
}

/// The low 32 bits of a machine word.
fn low32_of(x: usize) -> (r: u32)
    ensures
        r == low32(x as int),
{
    let wide: u64 = x as u64;
    assert(wide as u32 == wide % 0x1_0000_0000) by (bit_vector);
    #[verifier::truncate]
    (wide as u32)
}

/// The low 32 bits of `end - start`, also where `end` is the smaller.
fn low32_of_difference(start: usize, end: usize) -> (r: u32)
    ensures
        r == low32(end - start),
{
    let d: usize = end.wrapping_sub(start);
    low32_of(d)
}

/// One step of the multiply-xor hash: the accumulator times 33, reduced
/// modulo 2^32, xor the byte.
pub open spec fn djb2_step(acc: u32, byte: u8) -> u32 {
    mul32(acc, 33) ^ (byte as u32)
}

/// The multiply-xor hash of a whole byte string.
pub open spec fn djb2_of(bytes: Seq<u8>) -> u32 {
    bytes.fold_left(HASH_SEED, |acc: u32, b: u8| djb2_step(acc, b))
}

/// The multiply-xor hash of the bytes of `s` that a walk over `[start, end)`
/// with stride `step` visits.
pub open spec fn spec_djb2(s: Seq<u8>, start: int, end: int, step: int) -> u32 {
    djb2_of(sampled(s, start, end, step))
}

/// One step of the multiply-add hash: the accumulator times 65599 plus the
/// byte, both reduced modulo 2^32.
pub open spec fn sdbm_step(acc: u32, byte: u8) -> u32 {
    add32(mul32(acc, 65599), byte as u32)
}

/// The multiply-add hash of a whole byte string.
pub open spec fn sdbm_of(bytes: Seq<u8>) -> u32 {
    bytes.fold_left(HASH_SEED, |acc: u32, b: u8| sdbm_step(acc, b))
}

/// The multiply-add hash of the bytes of `s` that a walk over `[start, end)`
/// with stride `step` visits.
pub open spec fn spec_sdbm(s: Seq<u8>, start: int, end: int, step: int) -> u32 {
    sdbm_of(sampled(s, start, end, step))
}

/// The multiply-xor hash of a byte sequence over a range and a stride.
///
/// Starts from 3581 and, for each index `range.start`, `range.start + step`,
/// .. below both `s.len()` and `range.end`, multiplies the accumulator by 33
/// modulo 2^32 and xors the byte in. The result depends on the arguments
/// alone. A range that starts at or behind its clipped end gives 3581.
pub fn djb2(s: &[u8], range: Range<usize>, step: usize) -> (result: u32)
    requires
        step >= 1,
    ensures
        result == spec_djb2(s@, range.start as int, range.end as int, step as int),
{
    let limit: usize = min(s.len(), range.end);
    let ghost bytes = sampled(s@, range.start as int, range.end as int, step as int);
    let ghost mut k: int = 0;
    let mut result: u32 = HASH_SEED;
    let mut i: usize = range.start;
    proof {
        lemma_sample_count_bound(range.start as int, limit as int, step as int, 0);
    }
    while i < limit
        invariant
            step >= 1,
            limit == spec_min(s.len() as int, range.end as int),
            bytes == sampled(s@, range.start as int, range.end as int, step as int),
            0 <= k <= bytes.len(),
            k < bytes.len() ==> i == range.start + k * step,
            k == bytes.len() ==> i >= limit,
            result == djb2_of(bytes.take(k)),
        decreases bytes.len() - k,
    {
        proof {
            lemma_walk_step(s@, range.start as int, range.end as int, step as int, k);
        }
        result = result.wrapping_mul(33) ^ (s[i] as u32);
        i = next_index(i, step, limit);
        proof {
            k = k + 1;
        }
    }
    proof {
        lemma_sample_count_bound(range.start as int, limit as int, step as int, k);
        assert(bytes.take(k) =~= bytes);
    }
    result
}

/// The multiply-add hash of a byte sequence over a range and a stride.
///
/// Starts from 3581 and, for each index `range.start`, `range.start + step`,
/// .. below both `s.len()` and `range.end`, multiplies the accumulator by
/// 65599 and adds the byte, both modulo 2^32.
pub fn sdbm(s: &[u8], range: Range<usize>, step: usize) -> (result: u32)
    requires
        step >= 1,
    ensures
        result == spec_sdbm(s@, range.start as int, range.end as int, step as int),
{
    let limit: usize = min(s.len(), range.end);
    let ghost bytes = sampled(s@, range.start as int, range.end as int, step as int);
    let ghost mut k: int = 0;
    let mut result: u32 = HASH_SEED;
    let mut i: usize = range.start;
    proof {
        lemma_sample_count_bound(range.start as int, limit as int, step as int, 0);
    }
    while i < limit
        invariant
            step >= 1,
            limit == spec_min(s.len() as int, range.end as int),
            bytes == sampled(s@, range.start as int, range.end as int, step as int),
            0 <= k <= bytes.len(),
            k < bytes.len() ==> i == range.start + k * step,
            k == bytes.len() ==> i >= limit,
            result == sdbm_of(bytes.take(k)),
        decreases bytes.len() - k,
    {
        proof {
            lemma_walk_step(s@, range.start as int, range.end as int, step as int, k);
        }
        result = result.wrapping_mul(65599).wrapping_add(s[i] as u32);
        i = next_index(i, step, limit);
        proof {
            k = k + 1;
        }
    }
    proof {
        lemma_sample_count_bound(range.start as int, limit as int, step as int, k);
        assert(bytes.take(k) =~= bytes);
    }
    result
}

/// The rotate-mask hash with the seed handed in.
///
/// Equal arguments give equal fingerprints, whatever the build.
pub fn seeded_elf_with(seed: u32, s: &[u8], range: Range<usize>, step: usize) -> (result: u32)
    requires
        step >= 1,
    ensures
        result == spec_seeded_elf(seed, s@, range.start as int, range.end as int, step as int),
{
    let limit: usize = min(s.len(), range.end);
    let init: u32 = seed.wrapping_mul(low32_of_difference(range.start, range.end)).wrapping_mul(
        low32_of(s.len()),
    );
    let ghost bytes = sampled(s@, range.start as int, range.end as int, step as int);
    let ghost mut k: int = 0;
    let mut result: u32 = init;
    let mut i: usize = range.start;
    proof {
        lemma_sample_count_bound(range.start as int, limit as int, step as int, 0);
    }
    while i < limit
        invariant
            step >= 1,
            limit == spec_min(s.len() as int, range.end as int),
            bytes == sampled(s@, range.start as int, range.end as int, step as int),
            0 <= k <= bytes.len(),
            k < bytes.len() ==> i == range.start + k * step,
            k == bytes.len() ==> i >= limit,
            result == elf_of(init, bytes.take(k)),
        decreases bytes.len() - k,
    {
        proof {
            lemma_walk_step(s@, range.start as int, range.end as int, step as int, k);
        }
        result = rotate_left_4(result).wrapping_add(s[i] as u32);
        let high: u32 = result & 0xF000_0000;
        if high != 0 {
            result ^= rotate_right_24(high);
        }
        result &= !high;
        i = next_index(i, step, limit);
        proof {
            k = k + 1;
        }
    }
    proof {
        lemma_sample_count_bound(range.start as int, limit as int, step as int, k);
        assert(bytes.take(k) =~= bytes);
    }
    result
}

/// The rotate-mask hash, seeded by the build.
///
/// The seed is drawn from the build's entropy, so fingerprints of one build
/// need not match those of another. Whatever the seed is, the result is the
/// rotate-mask hash of the sampled bytes for that seed.
pub fn seeded_elf(s: &[u8], range: Range<usize>, step: usize) -> (result: u32)
    requires
        step >= 1,
    ensures
        exists|seed: u32|
            result == #[trigger] spec_seeded_elf(
                seed,
                s@,
                range.start as int,
                range.end as int,
                step as int,
            ),
{
    let entropy: u64 = build_entropy("seeded_elf");
    let seed: u32 = #[verifier::truncate]
    (entropy as u32);
    seeded_elf_with(seed, s, range, step)
}

/// The bytes of a sequence of 16-bit code units, two for each unit, the low
/// byte first.
pub open spec fn wide_bytes(units: Seq<u16>) -> Seq<u8> {
    Seq::new(
        2 * units.len(),
        |i: int|
            if i % 2 == 0 {
                (units[i / 2] % 256) as u8
            } else {
                (units[i / 2] / 256) as u8
            },
    )
}

/// The multiply-xor hash of every second byte of the code units' bytes,
/// within the byte range `[start, end)`.
pub open spec fn spec_wide_hash(units: Seq<u16>, start: int, end: int) -> u32 {
    spec_djb2(wide_bytes(units), start, end, 2)
}

/// The multiply-xor hash of text: of the bytes of its UTF-8 encoding within
/// `[start, end)`.
pub open spec fn spec_hash(text: Seq<char>, start: int, end: int) -> u32 {
    spec_djb2(vstd::utf8::encode_utf8(text), start, end, 1)
}

/// The hash of text that skips its first two bytes.
pub open spec fn spec_nt_hash(text: Seq<char>) -> u32 {
    spec_hash(text, 2, vstd::utf8::encode_utf8(text).len() as int)
}

/// The multiply-xor hash of 16-bit code units, read as bytes.
///
/// Each code unit stands for two bytes, the low byte first, whatever the
/// byte order of the machine. `range` counts bytes, not code units, and the
/// stride is 2: a range that starts at an even index visits the low byte of
/// each unit.
pub fn wide_hash(s: &[u16], range: Range<usize>) -> (result: u32)
    ensures
        result == spec_wide_hash(s@, range.start as int, range.end as int),
{
    let limit: usize = match s.len().checked_mul(2) {
        Some(byte_len) => min(byte_len, range.end),
        None => range.end,
    };
    let ghost all = wide_bytes(s@);
    let ghost bytes = sampled(all, range.start as int, range.end as int, 2);
    let ghost mut k: int = 0;
    let mut result: u32 = HASH_SEED;
    let mut i: usize = range.start;
    proof {
        lemma_sample_count_bound(range.start as int, limit as int, 2, 0);
    }
    while i < limit
        invariant
            limit == spec_min(all.len() as int, range.end as int),
            all == wide_bytes(s@),
            bytes == sampled(all, range.start as int, range.end as int, 2),
            0 <= k <= bytes.len(),
            k < bytes.len() ==> i == range.start + k * 2,
            k == bytes.len() ==> i >= limit,
            result == djb2_of(bytes.take(k)),
        decreases bytes.len() - k,
    {
        proof {
            lemma_walk_step(all, range.start as int, range.end as int, 2, k);
        }
        let unit: u16 = s[i / 2];
        let byte: u8 = if i % 2 == 0 {
            (unit % 256) as u8
        } else {
            (unit / 256) as u8
        };
        result = result.wrapping_mul(33) ^ (byte as u32);
        i = next_index(i, 2, limit);
        proof {
            k = k + 1;
        }
    }
    proof {
        lemma_sample_count_bound(range.start as int, limit as int, 2, k);
        assert(bytes.take(k) =~= bytes);
    }
    result
}

/// The multiply-xor hash of a UTF-16 string: of the low byte of each of its
/// code units.
pub fn hash_utf16str(s: &Utf16Str) -> (result: u32)
    ensures
        result == spec_wide_hash(utf16_units(s), 0, usize::MAX as int),
{
    wide_hash(s.as_slice(), 0..usize::MAX)
}

/// The multiply-xor hash of text, over a range of the bytes of its UTF-8
/// encoding, every byte of the range.
pub fn hash(s: &str, range: Range<usize>) -> (result: u32)
    ensures
        result == spec_hash(s@, range.start as int, range.end as int),
{
    djb2(s.as_bytes(), range, 1)
}

/// The hash of a name that ignores its first two bytes, so that names which
/// differ in a two-letter prefix only share a fingerprint.
pub fn nt_hash(s: &str) -> (result: u32)
    ensures
        result == spec_nt_hash(s@),
{
    let bytes: &[u8] = s.as_bytes();
    djb2(bytes, 2..bytes.len(), 1)
}

} // verus!
