//! What this crate takes on trust: from the crates it links against, and
//! from the parts of the standard library that come without a specification.
//!
//! Verus does not look inside these items. Each states what the code behind
//! it does, and no more than that code's source or documentation shows.

use vstd::prelude::*;

verus! {

/// `widestring::Utf16Str`: a string slice of UTF-16 code units. Opaque here;
/// its code units are reached through `Utf16Str::as_slice`.
#[verifier::external_type_specification]
#[verifier::external_body]
pub struct ExUtf16Str(widestring::Utf16Str);

/// The code units that a `widestring::Utf16Str` holds, first to last.
pub uninterp spec fn utf16_units(s: &widestring::Utf16Str) -> Seq<u16>;

/// `widestring::Utf16Str::as_slice` borrows the string's code units as they
/// lie in the string, without copying or changing them.
pub assume_specification[ widestring::Utf16Str::as_slice ](s: &widestring::Utf16Str) -> (units:
    &[u16])
    ensures
        units@ == utf16_units(s),
;

/// `widestring::error::Utf16Error`: why a sequence of code units is not
/// UTF-16. Opaque here.
#[verifier::external_type_specification]
#[verifier::external_body]
pub struct ExUtf16Error(widestring::error::Utf16Error);

/// A code unit of the surrogate range, which stands for no character alone.
pub open spec fn is_surrogate(unit: u16) -> bool {
    0xD800 <= unit <= 0xDFFF
}

/// A code unit that opens a surrogate pair.
pub open spec fn is_high_surrogate(unit: u16) -> bool {
    0xD800 <= unit <= 0xDBFF
}

/// A code unit that closes a surrogate pair.
pub open spec fn is_low_surrogate(unit: u16) -> bool {
    0xDC00 <= unit <= 0xDFFF
}

/// Well-formed UTF-16: every surrogate is part of a pair, a high one
/// directly followed by a low one.
pub open spec fn well_formed_utf16(units: Seq<u16>) -> bool
    decreases units.len(),
{
    if units.len() == 0 {
        true
    } else if !is_surrogate(units[0]) {
        well_formed_utf16(units.skip(1))
    } else if is_high_surrogate(units[0]) && units.len() >= 2 && is_low_surrogate(units[1]) {
        well_formed_utf16(units.skip(2))
    } else {
        false
    }
}

/// `widestring::Utf16Str::from_slice` decodes the code units from the first
/// on and fails at the first surrogate that is not part of a pair; where
/// there is none it hands the same code units back as a string.
pub assume_specification[ widestring::Utf16Str::from_slice ](s: &[u16]) -> (checked: Result<
    &widestring::Utf16Str,
    widestring::error::Utf16Error,
>)
    ensures
        checked is Ok <==> well_formed_utf16(s@),
        checked matches Ok(text) ==> utf16_units(text) == s@,
;

/// The characters that well-formed UTF-16 code units stand for, in order:
/// what `widestring::Utf16Str::chars` yields for a string of these units.
pub uninterp spec fn utf16_text(units: Seq<u16>) -> Seq<char>;

/// Calls `widestring::Utf16Str::chars` and collects the characters it
/// yields, in the order in which it yields them. The iterator stops with a
/// panic at a surrogate outside a pair, so the units must be well-formed.
#[verifier::external_body]
pub(crate) fn chars_of(s: &widestring::Utf16Str) -> (text: Vec<char>)
    requires
        well_formed_utf16(utf16_units(s)),
    ensures
        text@ == utf16_text(utf16_units(s)),
{
    s.chars().collect()
}

/// The whole milliseconds that a `Duration` holds: what
/// `Duration::as_millis` returns for it.
pub uninterp spec fn duration_millis(d: core::time::Duration) -> nat;

/// `Duration::as_millis` returns the number of whole milliseconds that the
/// duration holds.
pub assume_specification[ core::time::Duration::as_millis ](d: &core::time::Duration) -> (millis:
    u128)
    ensures
        millis == duration_millis(*d),
;

/// The duration of a number of milliseconds: what `Duration::from_millis`
/// returns for it.
pub uninterp spec fn duration_of_millis(millis: u64) -> core::time::Duration;

/// `Duration::from_millis` makes the duration of the given number of
/// milliseconds, which holds that many whole milliseconds.
pub assume_specification[ core::time::Duration::from_millis ](millis: u64) -> (d:
    core::time::Duration)
    ensures
        d == duration_of_millis(millis),
        duration_millis(d) == millis,
;

/// The characters that `char::to_lowercase` yields for `c`: the lowercase
/// mapping of `c` in the Unicode tables of the standard library, one
/// character or more.
pub uninterp spec fn lowercase(c: char) -> Seq<char>;

/// Calls `char::to_lowercase` and collects the characters it yields, in
/// the order in which it yields them.
#[verifier::external_body]
pub(crate) fn lowercase_of(c: char) -> (lowered: Vec<char>)
    ensures
        lowered@ == lowercase(c),
{
    c.to_lowercase().collect()
}

/// Calls `obfstr::entropy`, which mixes a hash of `site` with a seed that is
/// fixed when the program is built and may differ from build to build.
/// Nothing is claimed of the value that comes back.
#[verifier::external_body]
pub(crate) fn build_entropy(site: &str) -> (entropy: u64) {
    obfstr::entropy(site)
}

} // verus!
