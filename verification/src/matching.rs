//! Searching text without regard to letter case.

use vstd::prelude::*;

verus! {

/// The lower-case form of a text, as `str::to_lowercase` computes it.
pub uninterp spec fn lowercase(s: Seq<char>) -> Seq<char>;

/// `str::to_lowercase` returns the lower-case form of the whole string,
/// which depends on the string alone; the lower-case form of the empty
/// string is empty.
pub assume_specification[ str::to_lowercase ](s: &str) -> (lower: String)
    ensures
        lower@ == lowercase(s@),
        s@.len() == 0 ==> lower@.len() == 0,
;

/// Whether `needle` occurs in `hay` as a run of consecutive characters.
/// The empty text occurs in every text.
pub open spec fn is_substring(needle: Seq<char>, hay: Seq<char>) -> bool {
    exists|at: int| occurs_at(needle, hay, at)
}

/// Whether `needle` occurs in `hay` starting at index `at`.
pub open spec fn occurs_at(needle: Seq<char>, hay: Seq<char>, at: int) -> bool {
    0 <= at <= hay.len() - needle.len() && hay.subrange(at, at + needle.len()) == needle
}

/// `str::contains`, given a string as its pattern, says whether the pattern
/// occurs in the string as a run of consecutive characters.
#[verifier::external_body]
fn str_contains(hay: &str, needle: &str) -> (found: bool)
    ensures
        found == is_substring(needle@, hay@),
{
    hay.contains(needle)
}

/// Whether `keyword` occurs in `content` when letter case is ignored.
pub open spec fn keyword_matches(content: Seq<char>, keyword: Seq<char>) -> bool {
    is_substring(lowercase(keyword), lowercase(content))
}

/// Tests `content` for a keyword that is already in lower case.
pub fn contains_lowered(content: &str, lowered_keyword: &str) -> (found: bool)
    ensures
        found == is_substring(lowered_keyword@, lowercase(content@)),
{
    let lowered = content.to_lowercase();
    str_contains(lowered.as_str(), lowered_keyword)
}

/// Tests `content` for `keyword`, ignoring letter case.
pub fn contains_ignoring_case(content: &str, keyword: &str) -> (found: bool)
    ensures
        found == keyword_matches(content@, keyword@),
{
    let lowered_keyword = keyword.to_lowercase();
    contains_lowered(content, lowered_keyword.as_str())
}

/// The empty keyword matches every content.
pub proof fn lemma_empty_keyword_matches(content: Seq<char>, keyword: Seq<char>)
    requires
        lowercase(keyword).len() == 0,
    ensures
        keyword_matches(content, keyword),
{
    let hay = lowercase(content);
    assert(hay.subrange(0, 0) == lowercase(keyword));
    assert(occurs_at(lowercase(keyword), hay, 0));
}

} // verus!
