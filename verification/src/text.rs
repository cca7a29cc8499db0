//! Text predicates over character sequences: equality and substring search.

use vstd::prelude::*;

verus! {

/// `needle` stands in `hay` starting at position `at`.
pub open spec fn occurs_at(needle: Seq<char>, hay: Seq<char>, at: int) -> bool {
    &&& 0 <= at
    &&& at + needle.len() <= hay.len()
    &&& hay.subrange(at, at + needle.len()) =~= needle
}

/// `needle` stands somewhere in `hay` as a contiguous run of characters.
pub open spec fn occurs_in(needle: Seq<char>, hay: Seq<char>) -> bool {
    exists|at: int| occurs_at(needle, hay, at)
}

/// The characters of `text`, in order.
pub fn chars_of(text: &str) -> (chars: Vec<char>)
    ensures
        chars@ == text@,
{
    let mut chars: Vec<char> = Vec::new();
    for c in it: text.chars()
        invariant
            it.seq() == text@,
            chars@ == text@.take(it.index()),
    {
        chars.push(c);
    }
    chars
}

/// Whether `needle` stands in `hay` at position `at`.
fn found_at(needle: &Vec<char>, hay: &Vec<char>, at: usize) -> (found: bool)
    requires
        at + needle@.len() <= hay@.len() <= usize::MAX,
    ensures
        found == occurs_at(needle@, hay@, at as int),
{
    let width: usize = needle.len();
    let mut k: usize = 0;
    while k < width
        invariant
            width == needle@.len(),
            at + width <= hay@.len() <= usize::MAX,
            k <= width,
            forall|j: int| 0 <= j < k ==> hay@[at + j] == needle@[j],
        decreases width - k,
    {
        if hay[at + k] != needle[k] {
            assert(hay@.subrange(at as int, at + needle@.len())[k as int] != needle@[k as int]);
            return false;
        }
        k += 1;
    }
    assert(hay@.subrange(at as int, at + needle@.len()) =~= needle@);
    true
}

/// Whether `needle` stands somewhere in `hay`, as `str::contains` decides it
/// for a string pattern. The empty needle stands in every text.
pub fn contains(hay: &str, needle: &str) -> (found: bool)
    ensures
        found == occurs_in(needle@, hay@),
{
    let hay_chars = chars_of(hay);
    let needle_chars = chars_of(needle);
    if needle_chars.len() > hay_chars.len() {
        return false;
    }
    let last: usize = hay_chars.len() - needle_chars.len();
    let mut at: usize = 0;
    loop
        invariant
            hay_chars@ == hay@,
            needle_chars@ == needle@,
            last + needle@.len() == hay@.len() <= usize::MAX,
            at <= last,
            forall|i: int| 0 <= i < at ==> !occurs_at(needle@, hay@, i),
        decreases last - at,
    {
        if found_at(&needle_chars, &hay_chars, at) {
            return true;
        }
        if at == last {
            return false;
        }
        at += 1;
    }
}

/// Whether two texts hold the same characters.
pub fn same_text(left: &str, right: &str) -> (same: bool)
    ensures
        same == (left@ == right@),
{
    let left_chars = chars_of(left);
    let right_chars = chars_of(right);
    if left_chars.len() != right_chars.len() {
        return false;
    }
    let found = found_at(&left_chars, &right_chars, 0);
    proof {
        if found {
            assert(right@.subrange(0, left@.len() as int) =~= right@);
        }
        if left@ == right@ {
            assert(right@.subrange(0, left@.len() as int) =~= left@);
        }
    }
    found
}

} // verus!
