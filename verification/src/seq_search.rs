//! The first position in a sequence at which a predicate holds.
use vstd::prelude::*;

verus! {

/// The first position at or after `start` at which `pred` holds, if any.
pub open spec fn first_match_from<T>(s: Seq<T>, pred: spec_fn(T) -> bool, start: int) -> Option<int>
    decreases s.len() - start,
{
    if start < 0 || start >= s.len() {
        None
    } else if pred(s[start]) {
        Some(start)
    } else {
        first_match_from(s, pred, start + 1)
    }
}

/// The first position of `s` at which `pred` holds, if any.
pub open spec fn first_match<T>(s: Seq<T>, pred: spec_fn(T) -> bool) -> Option<int> {
    first_match_from(s, pred, 0)
}

/// `first_match_from` names the least position at or after `start` where `pred` holds,
/// and is `None` exactly when there is none.
pub proof fn lemma_first_match_from<T>(s: Seq<T>, pred: spec_fn(T) -> bool, start: int)
    requires
        0 <= start,
    ensures
        match first_match_from(s, pred, start) {
            Some(i) => start <= i < s.len() && pred(s[i]) && forall|j: int|
                start <= j < i ==> !pred(#[trigger] s[j]),
            None => forall|j: int| start <= j < s.len() ==> !pred(#[trigger] s[j]),
        },
    decreases s.len() - start,
{
    if start < s.len() && !pred(s[start]) {
        lemma_first_match_from(s, pred, start + 1);
    }
}

/// `first_match` names the least position where `pred` holds, and is `None` exactly
/// when there is none.
pub proof fn lemma_first_match<T>(s: Seq<T>, pred: spec_fn(T) -> bool)
    ensures
        match first_match(s, pred) {
            Some(i) => 0 <= i < s.len() && pred(s[i]) && forall|j: int|
                0 <= j < i ==> !pred(#[trigger] s[j]),
            None => forall|j: int| 0 <= j < s.len() ==> !pred(#[trigger] s[j]),
        },
{
    lemma_first_match_from(s, pred, 0);
}

/// A position where `pred` holds and before which it never does is the first match.
pub proof fn lemma_first_match_at<T>(s: Seq<T>, pred: spec_fn(T) -> bool, i: int)
    requires
        0 <= i < s.len(),
        pred(s[i]),
        forall|j: int| 0 <= j < i ==> !pred(#[trigger] s[j]),
    ensures
        first_match(s, pred) == Some(i),
{
    lemma_first_match(s, pred);
    if first_match(s, pred) != Some(i) {
        match first_match(s, pred) {
            Some(k) => {
                if k < i {
                    assert(!pred(s[k]));
                } else {
                    assert(!pred(s[i]));
                }
            },
            None => {
                assert(!pred(s[i]));
            },
        }
    }
}

/// Where `pred` holds nowhere, there is no first match.
pub proof fn lemma_first_match_none<T>(s: Seq<T>, pred: spec_fn(T) -> bool)
    requires
        forall|j: int| 0 <= j < s.len() ==> !pred(#[trigger] s[j]),
    ensures
        first_match(s, pred) is None,
{
    lemma_first_match(s, pred);
    if let Some(k) = first_match(s, pred) {
        assert(!pred(s[k]));
    }
}

/// The first match in `s.push(x)`: that of `s`, else the new last position where `x`
/// matches.
pub proof fn lemma_first_match_push<T>(s: Seq<T>, x: T, pred: spec_fn(T) -> bool)
    ensures
        first_match(s.push(x), pred) == if first_match(s, pred) is Some {
            first_match(s, pred)
        } else if pred(x) {
            Some(s.len() as int)
        } else {
            None
        },
{
    let t = s.push(x);
    lemma_first_match(s, pred);
    match first_match(s, pred) {
        Some(i) => {
            assert(t[i] == s[i]);
            assert forall|j: int| 0 <= j < i implies !pred(#[trigger] t[j]) by {
                assert(t[j] == s[j]);
            }
            lemma_first_match_at(t, pred, i);
        },
        None => {
            if pred(x) {
                assert forall|j: int| 0 <= j < s.len() implies !pred(#[trigger] t[j]) by {
                    assert(t[j] == s[j]);
                }
                lemma_first_match_at(t, pred, s.len() as int);
            } else {
                assert forall|j: int| 0 <= j < t.len() implies !pred(#[trigger] t[j]) by {
                    if j < s.len() {
                        assert(t[j] == s[j]);
                    }
                }
                lemma_first_match_none(t, pred);
            }
        },
    }
}

/// Appending keeps an existing first match.
pub proof fn lemma_first_match_append<T>(s: Seq<T>, t: Seq<T>, pred: spec_fn(T) -> bool)
    requires
        first_match(s, pred) is Some,
    ensures
        first_match(s + t, pred) == first_match(s, pred),
{
    lemma_first_match(s, pred);
    let i = first_match(s, pred)->Some_0;
    let u = s + t;
    assert(u[i] == s[i]);
    assert forall|j: int| 0 <= j < i implies !pred(#[trigger] u[j]) by {
        assert(u[j] == s[j]);
    }
    lemma_first_match_at(u, pred, i);
}

/// Two sequences of equal length on which `pred` agrees position by position have the
/// same first match.
pub proof fn lemma_first_match_same<T>(s: Seq<T>, t: Seq<T>, pred: spec_fn(T) -> bool)
    requires
        s.len() == t.len(),
        forall|j: int| 0 <= j < s.len() ==> pred(#[trigger] s[j]) == pred(t[j]),
    ensures
        first_match(s, pred) == first_match(t, pred),
{
    lemma_first_match(s, pred);
    match first_match(s, pred) {
        Some(i) => {
            assert forall|j: int| 0 <= j < i implies !pred(#[trigger] t[j]) by {
                assert(pred(s[j]) == pred(t[j]));
            }
            assert(pred(s[i]) == pred(t[i]));
            lemma_first_match_at(t, pred, i);
        },
        None => {
            assert forall|j: int| 0 <= j < t.len() implies !pred(#[trigger] t[j]) by {
                assert(pred(s[j]) == pred(t[j]));
            }
            lemma_first_match_none(t, pred);
        },
    }
}

} // verus!

verus! {

/// The position of the last element of `s` on which `pred` holds.
pub open spec fn last_match<T>(s: Seq<T>, pred: spec_fn(T) -> bool) -> Option<int>
    decreases s.len(),
{
    if s.len() == 0 {
        None
    } else if pred(s.last()) {
        Some(s.len() - 1)
    } else {
        last_match(s.drop_last(), pred)
    }
}

/// The last match in `s.push(x)`: the new last position where `pred(x)` holds, else that
/// of `s`.
pub proof fn lemma_last_match_push<T>(s: Seq<T>, x: T, pred: spec_fn(T) -> bool)
    ensures
        last_match(s.push(x), pred) == if pred(x) {
            Some(s.len() as int)
        } else {
            last_match(s, pred)
        },
{
    assert(s.push(x).drop_last() =~= s);
}

/// A last match is a position of `s` where `pred` holds.
pub proof fn lemma_last_match<T>(s: Seq<T>, pred: spec_fn(T) -> bool)
    ensures
        last_match(s, pred) matches Some(i) ==> 0 <= i < s.len() && pred(s[i]),
    decreases s.len(),
{
    if s.len() > 0 && !pred(s.last()) {
        lemma_last_match(s.drop_last(), pred);
    }
}

/// A position where `pred` holds and after which it never does is the last match.
pub proof fn lemma_last_match_at<T>(s: Seq<T>, pred: spec_fn(T) -> bool, k: int)
    requires
        0 <= k < s.len(),
        pred(s[k]),
        forall|j: int| k < j < s.len() ==> !pred(#[trigger] s[j]),
    ensures
        last_match(s, pred) == Some(k),
    decreases s.len(),
{
    if k < s.len() - 1 {
        assert(!pred(s[s.len() - 1]));
        let d = s.drop_last();
        assert forall|j: int| k < j < d.len() implies !pred(#[trigger] d[j]) by {
            assert(d[j] == s[j]);
        }
        assert(d[k] == s[k]);
        lemma_last_match_at(d, pred, k);
    }
}

/// Where `pred` holds nowhere, there is no last match.
pub proof fn lemma_last_match_none<T>(s: Seq<T>, pred: spec_fn(T) -> bool)
    requires
        forall|j: int| 0 <= j < s.len() ==> !pred(#[trigger] s[j]),
    ensures
        last_match(s, pred) is None,
    decreases s.len(),
{
    if s.len() > 0 {
        let d = s.drop_last();
        assert forall|j: int| 0 <= j < d.len() implies !pred(#[trigger] d[j]) by {
            assert(d[j] == s[j]);
        }
        assert(!pred(s[s.len() - 1]));
        lemma_last_match_none(d, pred);
    }
}

} // verus!
