//! Text helpers: characters of a string, and containment that ignores ASCII case.

use vstd::prelude::*;

verus! {

/// `c` with an ASCII capital letter replaced by its small letter.
pub open spec fn fold(c: char) -> char {
    if 'A' <= c <= 'Z' {
        ((c as u8) + 32) as u8 as char
    } else {
        c
    }
}

/// `needle` stands in `hay` at offset `k`, ASCII case ignored.
pub open spec fn occurs_at(hay: Seq<char>, needle: Seq<char>, k: int) -> bool {
    &&& 0 <= k
    &&& k + needle.len() <= hay.len()
    &&& forall|j: int| 0 <= j < needle.len() ==> fold(hay[k + j]) == fold(#[trigger] needle[j])
}

/// `needle` stands somewhere in `hay`, ASCII case ignored. The empty needle
/// stands in every text.
pub open spec fn contains_folded(hay: Seq<char>, needle: Seq<char>) -> bool {
    exists|k: int| occurs_at(hay, needle, k)
}

/// The characters of `s`, one by one.
pub fn chars_of(s: &str) -> (out: Vec<char>)
    ensures
        out@ == s@,
{
    let mut out: Vec<char> = Vec::new();
    for c in it: s.chars()
        invariant
            out@ == it.seq().take(it.index()),
    {
        out.push(c);
    }
    out
}

/// Executable form of [`fold`].
pub fn fold_case(c: char) -> (r: char)
    ensures
        r == fold(c),
{
    if 'A' <= c && c <= 'Z' {
        ((c as u8) + 32u8) as char
    } else {
        c
    }
}

/// Whether `needle` stands in `hay` at offset `k`, ASCII case ignored.
fn matches_at(hay: &Vec<char>, needle: &Vec<char>, k: usize) -> (r: bool)
    requires
        k + needle.len() <= hay.len(),
    ensures
        r == occurs_at(hay@, needle@, k as int),
{
    let mut j: usize = 0;
    while j < needle.len()
        invariant
            j <= needle.len(),
            k + needle.len() <= hay.len(),
            forall|i: int| 0 <= i < j ==> fold(hay@[k + i]) == fold(#[trigger] needle@[i]),
        decreases needle.len() - j,
    {
        if fold_case(hay[k + j]) != fold_case(needle[j]) {
            return false;
        }
        j += 1;
    }
    true
}

/// Whether `needle` stands somewhere in `hay`, ASCII case ignored.
pub fn contains_ignoring_case(hay: &Vec<char>, needle: &Vec<char>) -> (r: bool)
    ensures
        r == contains_folded(hay@, needle@),
{
    if needle.len() > hay.len() {
        return false;
    }
    let last: usize = hay.len() - needle.len();
    let mut k: usize = 0;
    while k <= last
        invariant
            last == hay.len() - needle.len(),
            k <= last + 1,
            forall|i: int| 0 <= i < k ==> !occurs_at(hay@, needle@, i),
        decreases last + 1 - k,
    {
        if matches_at(hay, needle, k) {
            return true;
        }
        k += 1;
    }
    false
}

} // verus!
