//! Facts about sequences that several modules use.

use vstd::prelude::*;

verus! {

/// Where `x` first occurs in `s`, if it occurs at all.
pub open spec fn first_index_of<T>(s: Seq<T>, x: T) -> Option<int>
    decreases s.len(),
{
    if s.len() == 0 {
        None
    } else if s[0] == x {
        Some(0int)
    } else {
        match first_index_of(s.drop_first(), x) {
            Some(i) => Some(i + 1),
            None => None,
        }
    }
}

/// `first_index_of` names the least position that holds `x`, and is `None`
/// exactly when `x` does not occur.
pub proof fn lemma_first_index_of<T>(s: Seq<T>, x: T)
    ensures
        match first_index_of(s, x) {
            Some(i) => 0 <= i < s.len() && s[i] == x && forall|j: int| 0 <= j < i ==> s[j] != x,
            None => forall|j: int| 0 <= j < s.len() ==> s[j] != x,
        },
    decreases s.len(),
{
    if s.len() > 0 && s[0] != x {
        let t = s.drop_first();
        lemma_first_index_of(t, x);
        match first_index_of(t, x) {
            Some(i) => {
                assert forall|j: int| 0 <= j < i + 1 implies s[j] != x by {
                    if j > 0 {
                        assert(s[j] == t[j - 1]);
                    }
                }
            },
            None => {
                assert forall|j: int| 0 <= j < s.len() implies s[j] != x by {
                    if j > 0 {
                        assert(s[j] == t[j - 1]);
                    }
                }
            },
        }
    }
}

/// A position that holds `x` with no `x` before it is the first one.
pub proof fn lemma_first_index_is<T>(s: Seq<T>, x: T, i: int)
    requires
        0 <= i < s.len(),
        s[i] == x,
        forall|j: int| 0 <= j < i ==> s[j] != x,
    ensures
        first_index_of(s, x) == Some(i),
{
    lemma_first_index_of(s, x);
}

/// No occurrence of `x` means there is no first one.
pub proof fn lemma_first_index_none<T>(s: Seq<T>, x: T)
    requires
        forall|j: int| 0 <= j < s.len() ==> s[j] != x,
    ensures
        first_index_of(s, x) is None,
{
    lemma_first_index_of(s, x);
}

/// Where `x` last occurs in `s`, if it occurs at all.
pub open spec fn last_index_of<T>(s: Seq<T>, x: T) -> Option<int>
    decreases s.len(),
{
    if s.len() == 0 {
        None
    } else if s.last() == x {
        Some(s.len() - 1)
    } else {
        last_index_of(s.drop_last(), x)
    }
}

/// `last_index_of` names the greatest position that holds `x`, and is
/// `None` exactly when `x` does not occur.
pub proof fn lemma_last_index_of<T>(s: Seq<T>, x: T)
    ensures
        match last_index_of(s, x) {
            Some(i) => 0 <= i < s.len() && s[i] == x && forall|j: int|
                i < j < s.len() ==> s[j] != x,
            None => forall|j: int| 0 <= j < s.len() ==> s[j] != x,
        },
    decreases s.len(),
{
    if s.len() > 0 && s.last() != x {
        let t = s.drop_last();
        lemma_last_index_of(t, x);
        match last_index_of(t, x) {
            Some(i) => {
                assert forall|j: int| i < j < s.len() implies s[j] != x by {
                    if j < t.len() {
                        assert(s[j] == t[j]);
                    }
                }
            },
            None => {
                assert forall|j: int| 0 <= j < s.len() implies s[j] != x by {
                    if j < t.len() {
                        assert(s[j] == t[j]);
                    }
                }
            },
        }
    }
}

/// A position that holds `x` with no `x` after it is the last one.
pub proof fn lemma_last_index_is<T>(s: Seq<T>, x: T, i: int)
    requires
        0 <= i < s.len(),
        s[i] == x,
        forall|j: int| i < j < s.len() ==> s[j] != x,
    ensures
        last_index_of(s, x) == Some(i),
{
    lemma_last_index_of(s, x);
}

/// No occurrence of `x` means there is no last one.
pub proof fn lemma_last_index_none<T>(s: Seq<T>, x: T)
    requires
        forall|j: int| 0 <= j < s.len() ==> s[j] != x,
    ensures
        last_index_of(s, x) is None,
{
    lemma_last_index_of(s, x);
}

} // verus!
