//! Small helpers shared by the hash functions.

use crate::foreign::{chars_of, lowercase, lowercase_of, utf16_text, well_formed_utf16};
use widestring::Utf16Str;
use vstd::prelude::*;

verus! {

/// The smaller of two lengths or indices, as a mathematical integer.
pub open spec fn spec_min(x: int, y: int) -> int {
    if x < y {
        x
    } else {
        y
    }
}

/// Returns the smaller of `x` and `y`.
///
/// Used to clip a requested end index to a sequence length, so it is total:
/// `min(len, usize::MAX)` is `len`.
pub fn min(x: usize, y: usize) -> (m: usize)
    ensures
        m == spec_min(x as int, y as int),
        m <= x,
        m <= y,
        m == x || m == y,
{
    if x < y {
        x
    } else {
        y
    }
}

/// Two characters with the same lowercase mapping.
pub open spec fn same_ignoring_case(x: char, y: char) -> bool {
    lowercase(x) == lowercase(y)
}

/// Two character sequences agree, case aside, as far as both reach: at every
/// position that both have, the two characters have the same lowercase
/// mapping. The longer one's tail is not looked at.
pub open spec fn agree_ignoring_case(a: Seq<char>, b: Seq<char>) -> bool {
    forall|i: int| 0 <= i < a.len() && i < b.len() ==> #[trigger] same_ignoring_case(a[i], b[i])
}

/// Whether two character strings are the same: as long as each other, with
/// the same character at every position.
pub fn same_chars(a: &[char], b: &[char]) -> (same: bool)
    ensures
        same == (a@ == b@),
{
    if a.len() != b.len() {
        return false;
    }
    let mut i: usize = 0;
    while i < a.len()
        invariant
            a@.len() == b@.len(),
            0 <= i <= a@.len(),
            forall|j: int| 0 <= j < i ==> a@[j] == b@[j],
        decreases a@.len() - i,
    {
        if a[i] != b[i] {
            return false;
        }
        i += 1;
    }
    assert(a@ =~= b@);
    true
}

/// Comparison of characters that ignores case.
pub trait EqIgnoreAsciiCase<Other = Self> {
    /// Whether `self` and `other` agree, case aside, as far as both reach.
    fn eq_ignore_ascii_case(self, other: Other) -> bool;
}

impl EqIgnoreAsciiCase<Vec<char>> for Vec<char> {
    /// Compares the lowercase mappings of the characters of `self` and
    /// `other`, position by position, up to the end of the shorter one.
    fn eq_ignore_ascii_case(self, other: Vec<char>) -> (equal: bool)
        ensures
            equal == agree_ignoring_case(self@, other@),
    {
        let n: usize = min(self.len(), other.len());
        let mut i: usize = 0;
        while i < n
            invariant
                n == spec_min(self@.len() as int, other@.len() as int),
                0 <= i <= n,
                forall|j: int| 0 <= j < i ==> #[trigger] same_ignoring_case(self@[j], other@[j]),
            decreases n - i,
        {
            let left: Vec<char> = lowercase_of(self[i]);
            let right: Vec<char> = lowercase_of(other[i]);
            if !same_chars(left.as_slice(), right.as_slice()) {
                assert(!same_ignoring_case(self@[i as int], other@[i as int]));
                return false;
            }
            i += 1;
        }
        true
    }
}

/// A counted string of 16-bit code units, as a system interface hands it
/// out. The units are meant to be UTF-16, but nothing has checked that.
pub struct UnicodeString {
    units: Vec<u16>,
}

impl Clone for UnicodeString {
    /// A string of the same code units.
    fn clone(&self) -> (copy: Self)
        ensures
            copy@ == self@,
    {
        UnicodeString { units: self.units.clone() }
    }
}

impl View for UnicodeString {
    type V = Seq<u16>;

    closed spec fn view(&self) -> Seq<u16> {
        self.units@
    }
}

impl UnicodeString {
    /// A string of the given code units.
    pub fn new(units: Vec<u16>) -> (s: Self)
        ensures
            s@ == units@,
    {
        UnicodeString { units }
    }

    /// The code units of the string.
    pub fn as_slice(&self) -> (units: &[u16])
        ensures
            units@ == self@,
    {
        self.units.as_slice()
    }
}

impl EqIgnoreAsciiCase<Vec<char>> for UnicodeString {
    /// Whether the string is well-formed UTF-16 and its characters agree
    /// with `other`, case aside, as far as both reach. A string that is not
    /// well-formed agrees with nothing.
    fn eq_ignore_ascii_case(self, other: Vec<char>) -> (equal: bool)
        ensures
            equal == (well_formed_utf16(self@) && agree_ignoring_case(utf16_text(self@), other@)),
    {
        match Utf16Str::from_slice(self.units.as_slice()) {
            Ok(text) => chars_of(text).eq_ignore_ascii_case(other),
            Err(_) => false,
        }
    }
}

} // verus!
