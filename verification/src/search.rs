//! Searching the snapshot: a container is found by a query when the query,
//! in lower case, occurs in its name or in its image, in lower case.

use vstd::prelude::*;
use vstd::string::*;
use crate::container::ContainerInfo;

verus! {

/// The lower-case form of a text, as the standard library's
/// `str::to_lowercase` gives it.
pub uninterp spec fn lowercase_of(text: Seq<char>) -> Seq<char>;

/// Calls `str::to_lowercase`. What it returns depends on the text alone (it
/// follows the Unicode tables and no locale); nothing else is claimed of it
/// here than that the result is the one named [`lowercase_of`].
#[verifier::external_body]
fn lowercase(text: &str) -> (lower: String)
    ensures
        lower@ == lowercase_of(text@),
{
    text.to_lowercase()
}

/// Whether `needle` stands in `haystack` from position `at` on.
pub open spec fn occurs_at(needle: Seq<char>, haystack: Seq<char>, at: int) -> bool {
    0 <= at && at + needle.len() <= haystack.len() && haystack.subrange(
        at,
        at + needle.len(),
    ) == needle
}

/// Whether `needle` occurs somewhere in `haystack`. The empty text occurs
/// in every text.
pub open spec fn occurs_in(needle: Seq<char>, haystack: Seq<char>) -> bool {
    exists|at: int| occurs_at(needle, haystack, at)
}

/// The characters of a text.
pub fn chars_of(text: &str) -> (chars: Vec<char>)
    ensures
        chars@ == text@,
{
    let count = text.unicode_len();
    let mut chars: Vec<char> = Vec::new();
    let mut i: usize = 0;
    while i < count
        invariant
            i <= count,
            count == text@.len(),
            chars@ == text@.take(i as int),
        decreases count - i,
    {
        chars.push(text.get_char(i));
        assert(chars@ =~= text@.take(i + 1));
        i += 1;
    }
    assert(text@.take(count as int) =~= text@);
    chars
}

/// Whether `needle` stands in `haystack` from position `at` on.
fn stands_at(needle: &Vec<char>, haystack: &Vec<char>, at: usize) -> (found: bool)
    requires
        at + needle.len() <= haystack.len(),
    ensures
        found == occurs_at(needle@, haystack@, at as int),
{
    let mut k: usize = 0;
    while k < needle.len()
        invariant
            k <= needle.len(),
            at + needle.len() <= haystack.len(),
            forall|j: int| 0 <= j < k ==> haystack@[at + j] == needle@[j],
        decreases needle.len() - k,
    {
        if haystack[at + k] != needle[k] {
            assert(haystack@.subrange(at as int, at + needle@.len())[k as int]
                != needle@[k as int]);
            return false;
        }
        k += 1;
    }
    assert(haystack@.subrange(at as int, at + needle@.len()) =~= needle@);
    true
}

/// Whether `needle` occurs somewhere in `haystack`.
pub fn contains_chars(haystack: &Vec<char>, needle: &Vec<char>) -> (found: bool)
    ensures
        found == occurs_in(needle@, haystack@),
{
    if needle.len() > haystack.len() {
        assert(!occurs_in(needle@, haystack@));
        return false;
    }
    if needle.len() == 0 {
        assert(haystack@.subrange(0, 0) =~= needle@);
        assert(occurs_at(needle@, haystack@, 0));
        return true;
    }
    let places = haystack.len() - needle.len() + 1;
    let mut at: usize = 0;
    while at < places
        invariant
            at <= places,
            places == haystack.len() - needle.len() + 1,
            needle.len() <= haystack.len(),
            forall|earlier: int| 0 <= earlier < at ==> !occurs_at(needle@, haystack@, earlier),
        decreases places - at,
    {
        if stands_at(needle, haystack, at) {
            return true;
        }
        at += 1;
    }
    assert forall|any: int| !occurs_at(needle@, haystack@, any) by {
        if 0 <= any && any + needle@.len() <= haystack@.len() {
            assert(any < at);
        }
    }
    false
}

/// Whether a query finds a container, all three texts given in lower case:
/// the empty query finds every container, another one those in whose name
/// or image it occurs.
pub open spec fn query_finds(name: Seq<char>, image: Seq<char>, query: Seq<char>) -> bool {
    query.len() == 0 || occurs_in(query, name) || occurs_in(query, image)
}

/// Whether a query finds a container, whatever the case of the letters.
pub open spec fn search_finds(container: ContainerInfo, query: Seq<char>) -> bool {
    query_finds(
        lowercase_of(container.name@),
        lowercase_of(container.image@),
        lowercase_of(query),
    )
}

/// Whether a query finds a container, all three texts given in lower case.
pub fn matches_lowered(name: &str, image: &str, query: &str) -> (found: bool)
    ensures
        found == query_finds(name@, image@, query@),
{
    if query.is_empty() {
        return true;
    }
    let wanted = chars_of(query);
    contains_chars(&chars_of(name), &wanted) || contains_chars(&chars_of(image), &wanted)
}

/// Whether a query finds a container, whatever the case of the letters.
pub fn matches_search(container: &ContainerInfo, query: &str) -> (found: bool)
    ensures
        found == search_finds(*container, query@),
{
    let name = lowercase(container.name.as_str());
    let image = lowercase(container.image.as_str());
    let wanted = lowercase(query);
    matches_lowered(name.as_str(), image.as_str(), wanted.as_str())
}

} // verus!
