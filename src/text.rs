//! Text helpers: case folding and substring search.

use vstd::prelude::*;
use vstd::string::StrSliceExecFns;

verus! {

/// The lowercase form of a string, as `str::to_lowercase` computes it.
pub uninterp spec fn lower_of(s: Seq<char>) -> Seq<char>;

/// `needle` occurs in `hay` as a contiguous run of characters.
pub open spec fn has_infix(hay: Seq<char>, needle: Seq<char>) -> bool {
    exists|i: int|
        0 <= i && i + needle.len() <= hay.len() && #[trigger] hay.subrange(i, i + needle.len())
            == needle
}

/// Relies on `str::to_lowercase`: its result depends on the characters alone,
/// and the empty string stays empty.
#[verifier::external_body]
pub(crate) fn lowercase(s: &str) -> (r: String)
    ensures
        r@ == lower_of(s@),
        s@.len() == 0 ==> r@.len() == 0,
{
    s.to_lowercase()
}

/// Whether `needle` occurs in `hay` at position `i`.
fn occurs_at(hay: &str, needle: &str, i: usize, hay_len: usize, needle_len: usize) -> (r: bool)
    requires
        hay_len == hay@.len(),
        needle_len == needle@.len(),
        i + needle_len <= hay_len,
    ensures
        r == (hay@.subrange(i as int, i + needle_len) == needle@),
{
    let mut j: usize = 0;
    while j < needle_len
        invariant
            hay_len == hay@.len(),
            needle_len == needle@.len(),
            i + needle_len <= hay_len,
            j <= needle_len,
            forall|k: int| 0 <= k < j ==> hay@[i + k] == needle@[k],
        decreases needle_len - j,
    {
        if hay.get_char(i + j) != needle.get_char(j) {
            assert(hay@.subrange(i as int, i + needle_len)[j as int] != needle@[j as int]);
            return false;
        }
        j = j + 1;
    }
    assert(hay@.subrange(i as int, i + needle_len) =~= needle@);
    true
}

/// Whether `needle` occurs in `hay` as a contiguous run of characters.
pub fn contains_infix(hay: &str, needle: &str) -> (r: bool)
    ensures
        r == has_infix(hay@, needle@),
{
    let hay_len = hay.unicode_len();
    let needle_len = needle.unicode_len();
    if needle_len > hay_len {
        return false;
    }
    let last = hay_len - needle_len;
    let mut i: usize = 0;
    while i <= last
        invariant
            hay_len == hay@.len(),
            needle_len == needle@.len(),
            last == hay_len - needle_len,
            i <= last + 1,
            forall|k: int|
                0 <= k < i ==> #[trigger] hay@.subrange(k, k + needle_len) != needle@,
        decreases last + 1 - i,
    {
        if occurs_at(hay, needle, i, hay_len, needle_len) {
            assert(hay@.subrange(i as int, i + needle@.len()) == needle@);
            return true;
        }
        if i == last {
            return false;
        }
        i = i + 1;
    }
    false
}

/// Whether `name` contains `query`, both taken in lowercase.
pub fn name_matches(name: &str, query: &str) -> (r: bool)
    ensures
        r == has_infix(lower_of(name@), lower_of(query@)),
{
    let n = lowercase(name);
    let q = lowercase(query);
    contains_infix(n.as_str(), q.as_str())
}

} // verus!
