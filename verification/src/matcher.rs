//! Selection of peripherals by their advertised name.

use vstd::prelude::*;

verus! {

/// The name filter of a standard run.
pub const DEFAULT_NAME_FILTER: &'static str = "Amazfit GTS 4 Mini";

/// `needle` occurs in `haystack` as a run of consecutive, equal characters.
/// Upper and lower case are different characters; the empty needle occurs in
/// every haystack.
pub open spec fn is_substring(needle: Seq<char>, haystack: Seq<char>) -> bool {
    exists|at: int| occurs_at(needle, haystack, at)
}

/// `needle` fills the positions `at .. at + needle.len()` of `haystack`.
pub open spec fn occurs_at(needle: Seq<char>, haystack: Seq<char>, at: int) -> bool {
    &&& 0 <= at
    &&& at + needle.len() <= haystack.len()
    &&& haystack.subrange(at, at + needle.len()) == needle
}

/// The characters of a string, in order.
fn chars_of(s: &str) -> (chars: Vec<char>)
    ensures
        chars@ == s@,
{
    let mut chars: Vec<char> = Vec::new();
    for c in it: s.chars()
        invariant
            chars@ == it.seq().take(it.index() as int),
    {
        chars.push(c);
    }
    chars
}

/// Tells whether `needle` fills the positions of `haystack` that start at `at`.
fn occurs_at_position(needle: &Vec<char>, haystack: &Vec<char>, at: usize) -> (found: bool)
    requires
        at + needle.len() <= haystack.len(),
    ensures
        found == occurs_at(needle@, haystack@, at as int),
{
    let mut k: usize = 0;
    while k < needle.len()
        invariant
            k <= needle.len(),
            at + needle.len() <= haystack.len(),
            forall|j: int| 0 <= j < k ==> haystack@[at + j] == needle@[j],
        decreases needle.len() - k,
    {
        if haystack[at + k] != needle[k] {
            assert(haystack@.subrange(at as int, at + needle.len())[k as int] != needle@[k as int]);
            return false;
        }
        k += 1;
    }
    assert(haystack@.subrange(at as int, at + needle.len()) =~= needle@);
    true
}

/// Tells whether `needle` occurs in `haystack`, comparing character by
/// character.
pub fn contains(haystack: &str, needle: &str) -> (found: bool)
    ensures
        found == is_substring(needle@, haystack@),
{
    let hay = chars_of(haystack);
    let pat = chars_of(needle);
    if pat.len() > hay.len() {
        return false;
    }
    let last: usize = hay.len() - pat.len();
    let mut at: usize = 0;
    while at < last
        invariant
            at <= last,
            last == hay.len() - pat.len(),
            pat.len() <= hay.len(),
            hay@ == haystack@,
            pat@ == needle@,
            forall|i: int| 0 <= i < at ==> !occurs_at(pat@, hay@, i),
        decreases last - at,
    {
        if occurs_at_position(&pat, &hay, at) {
            return true;
        }
        at += 1;
    }
    occurs_at_position(&pat, &hay, last)
}

/// The name substring that makes a peripheral eligible for connection.
#[derive(Clone, Debug, PartialEq, Eq)]
pub struct MatchFilter {
    pub needle: String,
}

impl MatchFilter {
    /// A filter for names that contain `needle`.
    pub fn new(needle: &str) -> (filter: MatchFilter)
        ensures
            filter.needle@ == needle@,
    {
        MatchFilter { needle: needle.to_owned() }
    }

    /// The filter accepts an advertised name that contains the needle, and
    /// never a missing name.
    pub open spec fn accepts(&self, name: Option<String>) -> bool {
        name matches Some(n) && is_substring(self.needle@, n@)
    }

    /// Tells whether a peripheral with this advertised name is eligible.
    pub fn matches(&self, name: &Option<String>) -> (eligible: bool)
        ensures
            eligible == self.accepts(*name),
    {
        match name {
            Some(n) => contains(n.as_str(), self.needle.as_str()),
            None => false,
        }
    }
}

/// A peripheral without an advertised name is never eligible, whatever the
/// filter.
pub proof fn lemma_unnamed_never_matches(filter: MatchFilter)
    ensures
        !filter.accepts(None),
{
}

/// A filter accepts a name exactly when the name splits into a prefix, the
/// needle and a suffix.
pub proof fn lemma_accepts_iff_split(filter: MatchFilter, name: String)
    ensures
        filter.accepts(Some(name)) <==> exists|before: Seq<char>, after: Seq<char>|
            name@ == before + filter.needle@ + after,
{
    let needle = filter.needle@;
    if filter.accepts(Some(name)) {
        let at = choose|at: int| occurs_at(needle, name@, at);
        let before = name@.subrange(0, at);
        let after = name@.subrange(at + needle.len(), name@.len() as int);
        assert(name@ =~= before + needle + after);
    }
    if exists|before: Seq<char>, after: Seq<char>| name@ == before + needle + after {
        let (before, after) = choose|before: Seq<char>, after: Seq<char>|
            name@ == before + needle + after;
        assert(name@.subrange(before.len() as int, (before.len() + needle.len()) as int) =~= needle);
        assert(occurs_at(needle, name@, before.len() as int));
    }
}

/// Matching is exact, character for character: a name as long as the needle
/// is accepted only where it is the needle itself, so no change of case or of
/// any other character goes through.
pub proof fn lemma_match_is_exact(filter: MatchFilter, name: String)
    requires
        name@.len() == filter.needle@.len(),
    ensures
        filter.accepts(Some(name)) <==> name@ == filter.needle@,
{
    let needle = filter.needle@;
    if filter.accepts(Some(name)) {
        let at = choose|at: int| occurs_at(needle, name@, at);
        assert(at == 0);
        assert(name@.subrange(0, name@.len() as int) =~= name@);
    }
    if name@ == needle {
        assert(name@.subrange(0, needle.len() as int) =~= needle);
        assert(occurs_at(needle, name@, 0));
    }
}

} // verus!
