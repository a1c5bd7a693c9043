use vstd::prelude::*;

verus! {

/// `pat` stands in `text` at index `at`.
pub open spec fn occurs_at(text: Seq<char>, pat: Seq<char>, at: int) -> bool {
    &&& 0 <= at
    &&& at + pat.len() <= text.len()
    &&& text.subrange(at, at + pat.len()) == pat
}

/// `at` is the first index at or after `from` where `pat` stands in `text`.
pub open spec fn first_occurrence(text: Seq<char>, pat: Seq<char>, from: int, at: int) -> bool {
    &&& from <= at
    &&& occurs_at(text, pat, at)
    &&& forall|j: int| from <= j < at ==> !occurs_at(text, pat, j)
}

/// `pat` stands nowhere in `text` at or after `from`.
pub open spec fn no_occurrence(text: Seq<char>, pat: Seq<char>, from: int) -> bool {
    forall|j: int| from <= j ==> !occurs_at(text, pat, j)
}

/// The places where a scan from `from` finds `pat`: the scan goes left to
/// right and, after a match, goes on behind its last character, so the
/// matches do not overlap. An empty pattern is found nowhere.
pub open spec fn occurrences_from(text: Seq<char>, pat: Seq<char>, from: int) -> Seq<int>
    decreases text.len() - from,
{
    if pat.len() == 0 || from < 0 || from + pat.len() > text.len() {
        Seq::empty()
    } else if occurs_at(text, pat, from) {
        seq![from] + occurrences_from(text, pat, from + pat.len())
    } else {
        occurrences_from(text, pat, from + 1)
    }
}

/// A scan that starts before the first match finds what a scan from that
/// match finds.
pub proof fn lemma_occurrences_skip_to_first(text: Seq<char>, pat: Seq<char>, from: int, at: int)
    requires
        0 <= from,
        pat.len() > 0,
        first_occurrence(text, pat, from, at),
    ensures
        occurrences_from(text, pat, from) == seq![at] + occurrences_from(
            text,
            pat,
            at + pat.len(),
        ),
    decreases at - from,
{
    if from < at {
        lemma_occurrences_skip_to_first(text, pat, from + 1, at);
    }
}

/// A scan behind the last match finds nothing.
pub proof fn lemma_occurrences_none(text: Seq<char>, pat: Seq<char>, from: int)
    requires
        0 <= from,
        no_occurrence(text, pat, from),
    ensures
        occurrences_from(text, pat, from) == Seq::<int>::empty(),
    decreases text.len() - from,
{
    if pat.len() > 0 && from + pat.len() <= text.len() {
        lemma_occurrences_none(text, pat, from + 1);
    }
}

/// Every place that a scan reports lies at or after its start and is one
/// where the pattern stands.
pub proof fn lemma_occurrences_are_matches(text: Seq<char>, pat: Seq<char>, from: int)
    ensures
        forall|k: int|
            0 <= k < occurrences_from(text, pat, from).len() ==> {
                &&& from <= #[trigger] occurrences_from(text, pat, from)[k]
                &&& occurs_at(text, pat, occurrences_from(text, pat, from)[k])
            },
    decreases text.len() - from,
{
    let found = occurrences_from(text, pat, from);
    if pat.len() == 0 || from < 0 || from + pat.len() > text.len() {
    } else if occurs_at(text, pat, from) {
        let rest = occurrences_from(text, pat, from + pat.len());
        lemma_occurrences_are_matches(text, pat, from + pat.len());
        assert forall|k: int| 0 <= k < found.len() implies from <= #[trigger] found[k]
            && occurs_at(text, pat, found[k]) by {
            if k > 0 {
                assert(found[k] == rest[k - 1]);
            }
        }
    } else {
        let rest = occurrences_from(text, pat, from + 1);
        lemma_occurrences_are_matches(text, pat, from + 1);
        assert(found == rest);
        assert forall|k: int| 0 <= k < found.len() implies from <= #[trigger] found[k]
            && occurs_at(text, pat, found[k]) by {
            assert(found[k] == rest[k]);
        }
    }
}

/// Tells whether `pat` stands in `text` at index `at`.
pub fn matches_at(text: &Vec<char>, pat: &Vec<char>, at: usize) -> (found: bool)
    ensures
        found == occurs_at(text@, pat@, at as int),
{
    if at > text.len() || pat.len() > text.len() - at {
        return false;
    }
    let mut k: usize = 0;
    while k < pat.len()
        invariant
            k <= pat@.len(),
            at + pat@.len() <= text@.len() <= usize::MAX,
            text@.subrange(at as int, at + k) == pat@.take(k as int),
        decreases pat@.len() - k,
    {
        if text[at + k] != pat[k] {
            assert(text@.subrange(at as int, at + pat@.len())[k as int] != pat@[k as int]);
            return false;
        }
        k = k + 1;
        assert(text@.subrange(at as int, at + k) =~= text@.subrange(at as int, at + k - 1).push(
            text@[at + k - 1],
        ));
        assert(pat@.take(k as int) =~= pat@.take(k - 1).push(pat@[k - 1]));
    }
    assert(pat@.take(pat@.len() as int) =~= pat@);
    true
}

/// Looks for the first place at or after `from` where `pat` stands in
/// `text`. An empty pattern stands everywhere up to the end of the text.
pub fn find_from(text: &Vec<char>, pat: &Vec<char>, from: usize) -> (place: Option<usize>)
    ensures
        match place {
            Some(at) => first_occurrence(text@, pat@, from as int, at as int),
            None => no_occurrence(text@, pat@, from as int),
        },
{
    if pat.len() > text.len() {
        return None;
    }
    let last: usize = text.len() - pat.len();
    let mut at: usize = from;
    while at <= last
        invariant
            from <= at,
            last == text@.len() - pat@.len(),
            forall|j: int| from <= j < at ==> !occurs_at(text@, pat@, j),
        decreases last - at,
    {
        if matches_at(text, pat, at) {
            return Some(at);
        }
        if at == last {
            return None;
        }
        at = at + 1;
    }
    None
}

/// The first index at or after `from` where `pat` stands in `text`, found
/// by trying each index in turn; `None` where it stands at none.
pub open spec fn first_match_from(text: Seq<char>, pat: Seq<char>, from: int) -> Option<int>
    decreases text.len() - from + 1,
{
    if from < 0 || from + pat.len() > text.len() {
        None
    } else if occurs_at(text, pat, from) {
        Some(from)
    } else {
        first_match_from(text, pat, from + 1)
    }
}

/// The first place where `pat` stands in `text`.
pub open spec fn first_match(text: Seq<char>, pat: Seq<char>) -> Option<int> {
    first_match_from(text, pat, 0)
}

/// Trying each index in turn finds the first occurrence.
pub proof fn lemma_first_match_found(text: Seq<char>, pat: Seq<char>, from: int, at: int)
    requires
        0 <= from,
        first_occurrence(text, pat, from, at),
    ensures
        first_match_from(text, pat, from) == Some(at),
    decreases at - from,
{
    if from < at {
        lemma_first_match_found(text, pat, from + 1, at);
    }
}

/// Trying each index in turn finds nothing where there is no occurrence.
pub proof fn lemma_first_match_none(text: Seq<char>, pat: Seq<char>, from: int)
    requires
        0 <= from,
        no_occurrence(text, pat, from),
    ensures
        first_match_from(text, pat, from).is_none(),
    decreases text.len() - from + 1,
{
    if from + pat.len() <= text.len() {
        lemma_first_match_none(text, pat, from + 1);
    }
}

/// Looks for the first place where `pat` stands in `text`. An empty
/// pattern stands at the very start.
pub fn find(text: &Vec<char>, pat: &Vec<char>) -> (place: Option<usize>)
    ensures
        match place {
            Some(at) => first_match(text@, pat@) == Some(at as int),
            None => first_match(text@, pat@).is_none(),
        },
{
    let place = find_from(text, pat, 0);
    proof {
        match place {
            Some(at) => lemma_first_match_found(text@, pat@, 0, at as int),
            None => lemma_first_match_none(text@, pat@, 0),
        }
    }
    place
}

} // verus!
