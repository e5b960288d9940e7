//! Text predicates that the probes apply to vendor files and metadata replies.

use vstd::prelude::*;

verus! {

/// `needle` occurs in `haystack`, starting at offset `at`.
pub open spec fn occurs_at(haystack: Seq<char>, needle: Seq<char>, at: int) -> bool {
    &&& 0 <= at
    &&& at + needle.len() <= haystack.len()
    &&& haystack.subrange(at, at + needle.len()) == needle
}

/// `needle` occurs somewhere in `haystack`.
pub open spec fn occurs_in(haystack: Seq<char>, needle: Seq<char>) -> bool {
    exists|at: int| occurs_at(haystack, needle, at)
}

/// `text` begins with `prefix`.
pub open spec fn begins_with(text: Seq<char>, prefix: Seq<char>) -> bool {
    &&& prefix.len() <= text.len()
    &&& text.subrange(0, prefix.len() as int) == prefix
}

/// One of `marks` occurs somewhere in `text`.
pub open spec fn mentions_one_of(text: Seq<char>, marks: Seq<&'static str>) -> bool {
    exists|i: int| 0 <= i < marks.len() && occurs_in(text, (#[trigger] marks[i])@)
}

/// The lowercase equivalent of `text` under the Unicode case mapping that
/// `str::to_lowercase` applies.
pub uninterp spec fn lowercase(text: Seq<char>) -> Seq<char>;

/// `str::contains` with a string pattern: true exactly when the pattern
/// matches a sub-slice of the text. Trusted, not proved.
#[verifier::external_body]
pub(crate) fn contains(haystack: &str, needle: &str) -> (found: bool)
    ensures
        found == occurs_in(haystack@, needle@),
{
    haystack.contains(needle)
}

/// `str::starts_with` with a string pattern: true exactly when the pattern
/// matches a prefix of the text. Trusted, not proved.
#[verifier::external_body]
pub(crate) fn starts_with(text: &str, prefix: &str) -> (found: bool)
    ensures
        found == begins_with(text@, prefix@),
{
    text.starts_with(prefix)
}

/// `str::to_lowercase`: the lowercase equivalent of the text as a new
/// string. The mapping itself is only named, by `lowercase`. Trusted, not
/// proved.
#[verifier::external_body]
pub(crate) fn to_lowercase(text: &str) -> (lowered: String)
    ensures
        lowered@ == lowercase(text@),
{
    text.to_lowercase()
}

/// Whether one of `marks` occurs somewhere in `text`.
pub fn mentions_any(text: &str, marks: &[&'static str]) -> (found: bool)
    ensures
        found == mentions_one_of(text@, marks@),
{
    let mut i: usize = 0;
    while i < marks.len()
        invariant
            i <= marks@.len(),
            forall|j: int| 0 <= j < i ==> !occurs_in(text@, (#[trigger] marks@[j])@),
        decreases marks@.len() - i,
    {
        if contains(text, marks[i]) {
            return true;
        }
        i += 1;
    }
    false
}

} // verus!
