//! Laws of the hash functions, proved over their specifications.

use crate::hash::{
    elf_init, spec_djb2, spec_hash, spec_nt_hash, spec_sdbm, spec_seeded_elf, spec_wide_hash,
    wide_bytes, HASH_SEED,
};
use crate::sampling::{lemma_sample_count_bound, lemma_walk_step, sample_count, sampled};
use crate::util::spec_min;
use vstd::prelude::*;
use vstd::utf8::{encode_utf8, is_ascii_chars, is_ascii_chars_encode_utf8};

verus! {

/// The hashes are functions of the bytes they visit: two walks that visit
/// the same bytes in the same order give the same fingerprint, and so do
/// two calls with equal arguments. For the seeded hash the seed, the
/// sequence length and the range have to be equal too.
pub proof fn lemma_equal_samples_equal_fingerprint(
    seed: u32,
    a: Seq<u8>,
    b: Seq<u8>,
    start: int,
    end: int,
    step: int,
    other_start: int,
    other_end: int,
    other_step: int,
)
    requires
        sampled(a, start, end, step) == sampled(b, other_start, other_end, other_step),
    ensures
        spec_djb2(a, start, end, step) == spec_djb2(b, other_start, other_end, other_step),
        spec_sdbm(a, start, end, step) == spec_sdbm(b, other_start, other_end, other_step),
        a.len() == b.len() && start == other_start && end == other_end ==> spec_seeded_elf(
            seed,
            a,
            start,
            end,
            step,
        ) == spec_seeded_elf(seed, b, other_start, other_end, other_step),
{
}

/// The sample count is the quotient of the distance to the limit by the
/// stride, rounded up: the least number of strides that cover the distance.
pub proof fn lemma_sample_count_is_ceiling(start: int, limit: int, step: int)
    requires
        step >= 1,
        start <= limit,
    ensures
        (sample_count(start, limit, step) - 1) * step < limit - start,
        limit - start <= sample_count(start, limit, step) * step,
{
    let n = sample_count(start, limit, step) as int;
    lemma_sample_count_bound(start, limit, step, n);
    if n >= 1 {
        lemma_sample_count_bound(start, limit, step, n - 1);
    } else {
        assert((n - 1) * step < 0) by (nonlinear_arith)
            requires
                n == 0,
                step >= 1,
        ;
    }
}

/// The `k`-th byte of a walk is the byte of `s` at index `start + k * step`,
/// and that index lies inside `s` and below `end`.
pub open spec fn visits(s: Seq<u8>, start: int, end: int, step: int, k: int) -> bool {
    &&& 0 <= start + k * step < spec_min(s.len() as int, end)
    &&& sampled(s, start, end, step)[k] == s[start + k * step]
}

/// A walk reads as many bytes as the sample count says, each at an index of
/// its arithmetic progression, and never at or behind the clipped end,
/// whatever the stride.
pub proof fn lemma_walk_stays_below_clipped_end(s: Seq<u8>, start: int, end: int, step: int)
    requires
        start >= 0,
        step >= 1,
    ensures
        sampled(s, start, end, step).len() == sample_count(
            start,
            spec_min(s.len() as int, end),
            step,
        ),
        forall|k: int|
            0 <= k < sampled(s, start, end, step).len() ==> #[trigger] visits(
                s,
                start,
                end,
                step,
                k,
            ),
{
    assert forall|k: int| 0 <= k < sampled(s, start, end, step).len() implies #[trigger] visits(
        s,
        start,
        end,
        step,
        k,
    ) by {
        lemma_walk_step(s, start, end, step, k);
    }
}

/// A range that starts at or behind its clipped end is empty, and the hash
/// of an empty range is the value the hash starts from: 3581 for the two
/// fixed-seed hashes, the initial accumulator for the seeded one.
pub proof fn lemma_empty_range_gives_seed(seed: u32, s: Seq<u8>, start: int, end: int, step: int)
    requires
        start >= spec_min(s.len() as int, end),
    ensures
        sampled(s, start, end, step).len() == 0,
        spec_djb2(s, start, end, step) == HASH_SEED,
        spec_sdbm(s, start, end, step) == HASH_SEED,
        spec_seeded_elf(seed, s, start, end, step) == elf_init(seed, s.len() as int, start, end),
{
}

/// A walk with stride 1 whose end is not clipped visits the whole tail of
/// the sequence from `start` on.
pub proof fn lemma_unit_stride_visits_tail(s: Seq<u8>, start: int, end: int)
    requires
        0 <= start <= s.len(),
        end >= s.len(),
    ensures
        sampled(s, start, end, 1) == s.skip(start),
{
    assert(sampled(s, start, end, 1) =~= s.skip(start));
}

/// Two texts that begin with two one-byte characters each and agree behind
/// them have the same prefix-insensitive hash.
pub proof fn lemma_nt_hash_ignores_prefix(a: Seq<char>, b: Seq<char>)
    requires
        a.len() >= 2,
        b.len() >= 2,
        is_ascii_chars(a.take(2)),
        is_ascii_chars(b.take(2)),
        a.skip(2) == b.skip(2),
    ensures
        spec_nt_hash(a) == spec_nt_hash(b),
{
    lemma_encoding_behind_ascii_prefix(a);
    lemma_encoding_behind_ascii_prefix(b);
    lemma_unit_stride_visits_tail(encode_utf8(a), 2, encode_utf8(a).len() as int);
    lemma_unit_stride_visits_tail(encode_utf8(b), 2, encode_utf8(b).len() as int);
}

/// Behind a prefix of two one-byte characters, the encoding of a text is the
/// encoding of the rest of the text.
proof fn lemma_encoding_behind_ascii_prefix(a: Seq<char>)
    requires
        a.len() >= 2,
        is_ascii_chars(a.take(2)),
    ensures
        encode_utf8(a).len() >= 2,
        encode_utf8(a).skip(2) == encode_utf8(a.skip(2)),
{
    let rest = a.drop_first();
    assert(a.take(2)[0] == a[0] && a.take(2)[1] == a[1]);
    assert(rest.drop_first() =~= a.skip(2));
    assert(encode_utf8(rest) == vstd::utf8::encode_scalar(rest[0] as u32) + encode_utf8(
        rest.drop_first(),
    ));
    assert(encode_utf8(a).skip(2) =~= encode_utf8(a.skip(2)));
}

/// The code units of a text whose every character fits one unit: the
/// character's number, unit for character.
pub open spec fn unit_per_char(text: Seq<char>) -> Seq<u16> {
    Seq::new(text.len(), |i: int| text[i] as u16)
}

/// For ASCII text, the wide hash of its code units equals the hash of the
/// text, where both ranges start at the first byte and neither end is
/// clipped.
pub proof fn lemma_wide_hash_matches_ascii_text(text: Seq<char>, wide_end: int, end: int)
    requires
        is_ascii_chars(text),
        wide_end >= 2 * text.len(),
        end >= text.len(),
    ensures
        spec_wide_hash(unit_per_char(text), 0, wide_end) == spec_hash(text, 0, end),
{
    let units = unit_per_char(text);
    let wide = sampled(wide_bytes(units), 0, wide_end, 2);
    let narrow = sampled(encode_utf8(text), 0, end, 1);
    is_ascii_chars_encode_utf8(text);
    lemma_walk_stays_below_clipped_end(wide_bytes(units), 0, wide_end, 2);
    lemma_walk_stays_below_clipped_end(encode_utf8(text), 0, end, 1);
    assert forall|k: int| 0 <= k < text.len() implies wide[k] == narrow[k] by {
        assert('\0' <= text[k] <= '\u{7f}');
    }
    assert(wide =~= narrow);
}

} // verus!
