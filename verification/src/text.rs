//! Case-insensitive substring matching on process names.

use vstd::prelude::*;

verus! {

/// The lowercase form of a string, as `str::to_lowercase` computes it.
pub uninterp spec fn lowercase(s: Seq<char>) -> Seq<char>;

/// The characters of each string of a list.
pub open spec fn texts(strings: Seq<String>) -> Seq<Seq<char>> {
    strings.map_values(|s: String| s@)
}

/// The characters of each string slice of a list.
pub open spec fn strs(strings: Seq<&str>) -> Seq<Seq<char>> {
    strings.map_values(|s: &str| s@)
}

/// `needle` stands in `hay` from position `at` on.
pub open spec fn occurs_at(needle: Seq<char>, hay: Seq<char>, at: int) -> bool {
    &&& 0 <= at
    &&& at + needle.len() <= hay.len()
    &&& hay.subrange(at, at + needle.len()) == needle
}

/// `needle` is a contiguous part of `hay`.
pub open spec fn occurs_in(needle: Seq<char>, hay: Seq<char>) -> bool {
    exists|at: int| occurs_at(needle, hay, at)
}

/// One of `needles` is a contiguous part of `hay`.
pub open spec fn any_occurs_in(needles: Seq<Seq<char>>, hay: Seq<char>) -> bool {
    exists|k: int| 0 <= k < needles.len() && occurs_in(#[trigger] needles[k], hay)
}

/// `name` holds one of `patterns` when the case of letters is ignored.
pub open spec fn matches_ignoring_case(name: Seq<char>, patterns: Seq<Seq<char>>) -> bool {
    any_occurs_in(patterns.map_values(|pattern: Seq<char>| lowercase(pattern)), lowercase(name))
}

/// Calls `str::to_lowercase`. Trusted: the result is the lowercase form of
/// the argument, a function of the argument's characters alone.
#[verifier::external_body]
fn to_lowercase(s: &str) -> (lowered: String)
    ensures
        lowered@ == lowercase(s@),
{
    s.to_lowercase()
}

/// Calls `str::contains` with a string pattern. Trusted: the result says
/// whether the pattern is a contiguous part of the string.
#[verifier::external_body]
fn contains(hay: &str, needle: &str) -> (found: bool)
    ensures
        found == occurs_in(needle@, hay@),
{
    hay.contains(needle)
}

/// Whether one of `needles` is a contiguous part of `hay`, letter for
/// letter.
pub fn contains_any(hay: &str, needles: &Vec<String>) -> (found: bool)
    ensures
        found == any_occurs_in(texts(needles@), hay@),
{
    let mut k: usize = 0;
    while k < needles.len()
        invariant
            k <= needles@.len(),
            forall|j: int| 0 <= j < k ==> !occurs_in(#[trigger] texts(needles@)[j], hay@),
        decreases needles@.len() - k,
    {
        if contains(hay, needles[k].as_str()) {
            assert(occurs_in(texts(needles@)[k as int], hay@));
            return true;
        }
        k += 1;
    }
    false
}

/// The lowercase form of each string of a list.
pub fn lowercase_all(strings: &Vec<&str>) -> (lowered: Vec<String>)
    ensures
        lowered@.len() == strings@.len(),
        forall|k: int| 0 <= k < strings@.len() ==> (#[trigger] lowered@[k])@ == lowercase(strings@[k]@),
{
    let mut lowered: Vec<String> = Vec::new();
    let mut k: usize = 0;
    while k < strings.len()
        invariant
            k <= strings@.len(),
            lowered@.len() == k,
            forall|j: int| 0 <= j < k ==> (#[trigger] lowered@[j])@ == lowercase(strings@[j]@),
        decreases strings@.len() - k,
    {
        lowered.push(to_lowercase(strings[k]));
        k += 1;
    }
    lowered
}

/// Whether `name` holds one of `patterns`, ignoring the case of letters.
pub fn contains_ignoring_case(name: &str, patterns: &Vec<&str>) -> (found: bool)
    ensures
        found == matches_ignoring_case(name@, strs(patterns@)),
{
    let lowered_name = to_lowercase(name);
    let lowered_patterns = lowercase_all(patterns);
    assert(texts(lowered_patterns@) =~= strs(patterns@).map_values(
        |pattern: Seq<char>| lowercase(pattern),
    ));
    contains_any(lowered_name.as_str(), &lowered_patterns)
}

} // verus!
