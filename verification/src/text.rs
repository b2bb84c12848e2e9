use vstd::prelude::*;

verus! {

/// True when `pat` occurs as a contiguous run of `text` starting at index `i`.
pub open spec fn occurs_at(text: Seq<char>, pat: Seq<char>, i: int) -> bool {
    &&& 0 <= i
    &&& i + pat.len() <= text.len()
    &&& text.subrange(i, i + pat.len() as int) == pat
}

/// True when `pat` occurs somewhere in `text`.
pub open spec fn contains_seq(text: Seq<char>, pat: Seq<char>) -> bool {
    exists|i: int| occurs_at(text, pat, i)
}

/// Index of the first occurrence of `pat` in `text` at or after position `k`,
/// or `None` when there is none.
pub open spec fn find_from(text: Seq<char>, pat: Seq<char>, k: int) -> Option<int>
    decreases text.len() + 1 - k,
{
    if k < 0 || k + pat.len() > text.len() {
        None
    } else if text.subrange(k, k + pat.len() as int) == pat {
        Some(k)
    } else {
        find_from(text, pat, k + 1)
    }
}

/// Index of the first occurrence of `pat` in `text`.
pub open spec fn find_first(text: Seq<char>, pat: Seq<char>) -> Option<int> {
    find_from(text, pat, 0)
}

/// `find_from` returns the least occurrence index at or after `k`, and `None`
/// exactly when no occurrence starts at or after `k`.
pub proof fn lemma_find_from_props(text: Seq<char>, pat: Seq<char>, k: int)
    requires
        k >= 0,
    ensures
        match find_from(text, pat, k) {
            Some(i) => {
                &&& k <= i
                &&& occurs_at(text, pat, i)
                &&& forall|j: int| k <= j < i ==> !occurs_at(text, pat, j)
            },
            None => forall|j: int| j >= k ==> !occurs_at(text, pat, j),
        },
    decreases text.len() + 1 - k,
{
    if k + pat.len() > text.len() {
        assert(forall|j: int| j >= k ==> !occurs_at(text, pat, j)) by {
            assert forall|j: int| j >= k implies !occurs_at(text, pat, j) by {
                assert(j + pat.len() > text.len());
            }
        }
    } else if text.subrange(k, k + pat.len() as int) == pat {
    } else {
        lemma_find_from_props(text, pat, k + 1);
        assert(!occurs_at(text, pat, k));
    }
}

/// First occurrences are unique: the characterization in
/// `lemma_find_from_props` pins down `find_first` exactly.
pub proof fn lemma_find_first_is(text: Seq<char>, pat: Seq<char>, i: int)
    requires
        occurs_at(text, pat, i),
        forall|j: int| 0 <= j < i ==> !occurs_at(text, pat, j),
    ensures
        find_first(text, pat) == Some(i),
{
    lemma_find_from_props(text, pat, 0);
}

/// The Unicode lowercasing of a text, as `str::to_lowercase` computes it:
/// a function of the characters alone.
pub uninterp spec fn lower_of(s: Seq<char>) -> Seq<char>;

/// Relies on `str::to_lowercase`: the Unicode lowercase mapping of the
/// string, depending on its characters alone; an empty string stays empty.
#[verifier::external_body]
pub(crate) fn to_lowercase(s: &str) -> (r: String)
    ensures
        r@ == lower_of(s@),
        s@.len() == 0 ==> r@.len() == 0,
{
    s.to_lowercase()
}

/// Case-insensitive containment: `pat` occurs in `text` once both are
/// lowercased.
pub open spec fn contains_folded(text: Seq<char>, pat: Seq<char>) -> bool {
    contains_seq(lower_of(text), lower_of(pat))
}

/// Whether `pat` occurs in `text` starting at character index `i`.
fn match_at(text: &str, pat: &str, i: usize, text_len: usize, pat_len: usize) -> (r: bool)
    requires
        text_len == text@.len(),
        pat_len == pat@.len(),
        i + pat_len <= text_len,
    ensures
        r == occurs_at(text@, pat@, i as int),
{
    let mut k: usize = 0;
    while k < pat_len
        invariant
            text_len == text@.len(),
            pat_len == pat@.len(),
            i + pat_len <= text_len,
            0 <= k <= pat_len,
            forall|j: int| 0 <= j < k ==> text@[i + j] == pat@[j],
        decreases pat_len - k,
    {
        if text.get_char(i + k) != pat.get_char(k) {
            assert(text@.subrange(i as int, i + pat@.len() as int)[k as int] != pat@[k as int]);
            return false;
        }
        k += 1;
    }
    assert(text@.subrange(i as int, i + pat@.len() as int) =~= pat@);
    true
}

/// Index of the first occurrence of `pat` in `text`, scanning character by
/// character, as `str::find` does for its literal-pattern form.
pub fn find_str(text: &str, pat: &str) -> (r: Option<usize>)
    ensures
        match r {
            Some(i) => find_first(text@, pat@) == Some(i as int),
            None => find_first(text@, pat@) is None,
        },
{
    let text_len = text.unicode_len();
    let pat_len = pat.unicode_len();
    if pat_len > text_len {
        proof {
            lemma_find_from_props(text@, pat@, 0);
        }
        return None;
    }
    if pat_len == 0 {
        proof {
            assert(text@.subrange(0, 0) =~= pat@);
            lemma_find_first_is(text@, pat@, 0);
        }
        return Some(0);
    }
    let mut i: usize = 0;
    while i <= text_len - pat_len
        invariant
            text_len == text@.len(),
            pat_len == pat@.len(),
            0 < pat_len <= text_len,
            0 <= i <= text_len - pat_len + 1,
            forall|j: int| 0 <= j < i ==> !occurs_at(text@, pat@, j),
        decreases text_len - pat_len + 1 - i,
    {
        if match_at(text, pat, i, text_len, pat_len) {
            proof {
                lemma_find_first_is(text@, pat@, i as int);
            }
            return Some(i);
        }
        i += 1;
    }
    proof {
        lemma_find_from_props(text@, pat@, 0);
    }
    None
}

/// Whether `pat` occurs anywhere in `text`.
pub fn contains_str(text: &str, pat: &str) -> (r: bool)
    ensures
        r == contains_seq(text@, pat@),
{
    let found = find_str(text, pat);
    proof {
        lemma_find_from_props(text@, pat@, 0);
    }
    match found {
        Some(i) => {
            assert(occurs_at(text@, pat@, i as int));
            true
        },
        None => false,
    }
}

} // verus!
