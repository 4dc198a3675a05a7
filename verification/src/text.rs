//! Searching and comparing strings by character, and the facts about first
//! and last occurrences that the searches rest on.

use vstd::prelude::*;

verus! {

/// An index that holds `c` with no `c` before it is the first occurrence.
pub proof fn lemma_first_occurrence<A>(s: Seq<A>, c: A, i: int)
    requires
        0 <= i < s.len(),
        s[i] == c,
        forall|j: int| 0 <= j < i ==> s[j] != c,
    ensures
        s.index_of_first(c) == Some(i),
{
    s.index_of_first_ensures(c);
    assert(s.contains(c));
}

/// An index that holds `c` with no `c` after it is the last occurrence.
pub proof fn lemma_last_occurrence<A>(s: Seq<A>, c: A, i: int)
    requires
        0 <= i < s.len(),
        s[i] == c,
        forall|j: int| i < j < s.len() ==> s[j] != c,
    ensures
        s.index_of_last(c) == Some(i),
{
    s.index_of_last_ensures(c);
    assert(s.contains(c));
}

/// A sequence in which `c` stands nowhere has no occurrence of it.
pub proof fn lemma_no_occurrence<A>(s: Seq<A>, c: A)
    requires
        forall|j: int| 0 <= j < s.len() ==> s[j] != c,
    ensures
        !s.contains(c),
        s.index_of_first(c) is None,
        s.index_of_last(c) is None,
{
    s.index_of_first_ensures(c);
    s.index_of_last_ensures(c);
}

/// Position of the first `c` in `s`, counted in characters.
pub fn find_char(s: &str, c: char) -> (r: Option<usize>)
    ensures
        r is Some <==> s@.contains(c),
        match r {
            Some(i) => s@.index_of_first(c) == Some(i as int),
            None => s@.index_of_first(c) is None,
        },
{
    let n: usize = s.unicode_len();
    let mut i: usize = 0;
    while i < n
        invariant
            n == s@.len(),
            i <= n,
            forall|j: int| 0 <= j < i ==> s@[j] != c,
        decreases n - i,
    {
        if s.get_char(i) == c {
            proof {
                lemma_first_occurrence(s@, c, i as int);
            }
            return Some(i);
        }
        i += 1;
    }
    proof {
        lemma_no_occurrence(s@, c);
    }
    None
}

/// Position of the last `c` in `s`, counted in characters.
pub fn rfind_char(s: &str, c: char) -> (r: Option<usize>)
    ensures
        r is Some <==> s@.contains(c),
        match r {
            Some(i) => s@.index_of_last(c) == Some(i as int),
            None => s@.index_of_last(c) is None,
        },
{
    let n: usize = s.unicode_len();
    let mut i: usize = n;
    while i > 0
        invariant
            n == s@.len(),
            i <= n,
            forall|j: int| i <= j < n ==> s@[j] != c,
        decreases i,
    {
        i -= 1;
        if s.get_char(i) == c {
            proof {
                lemma_last_occurrence(s@, c, i as int);
            }
            return Some(i);
        }
    }
    proof {
        lemma_no_occurrence(s@, c);
    }
    None
}

/// Whether `s` ends with `suffix`, character for character.
pub fn ends_with(s: &str, suffix: &str) -> (r: bool)
    ensures
        r == suffix@.is_suffix_of(s@),
{
    let n: usize = s.unicode_len();
    let m: usize = suffix.unicode_len();
    if m > n {
        return false;
    }
    let start: usize = n - m;
    let mut k: usize = 0;
    while k < m
        invariant
            n == s@.len(),
            m == suffix@.len(),
            m <= n,
            start == n - m,
            k <= m,
            forall|j: int| 0 <= j < k ==> s@[start + j] == suffix@[j],
        decreases m - k,
    {
        if s.get_char(start + k) != suffix.get_char(k) {
            assert(s@.subrange(start as int, n as int)[k as int] != suffix@[k as int]);
            return false;
        }
        k += 1;
    }
    assert(suffix@ =~= s@.subrange(start as int, n as int));
    true
}

} // verus!
