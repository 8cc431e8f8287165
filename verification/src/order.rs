//! The order of texts: lexicographic, character by character.

use std::cmp::Ordering;
use vstd::prelude::*;

verus! {

/// `a` comes before `b`, and position `k` decides it: the two agree on the
/// first `k` characters, and there `a` ends while `b` goes on, or `a` has the
/// smaller character.
pub open spec fn decided_at(a: Seq<char>, b: Seq<char>, k: int) -> bool {
    &&& 0 <= k <= a.len()
    &&& k < b.len()
    &&& forall|i: int| 0 <= i < k ==> a[i] == b[i]
    &&& (k == a.len() || a[k] < b[k])
}

/// `a` comes strictly before `b` in lexicographic order.
pub open spec fn precedes(a: Seq<char>, b: Seq<char>) -> bool {
    exists|k: int| decided_at(a, b, k)
}

/// How `a` stands to `b` in lexicographic order.
pub open spec fn text_order(a: Seq<char>, b: Seq<char>) -> Ordering {
    if a == b {
        Ordering::Equal
    } else if precedes(a, b) {
        Ordering::Less
    } else {
        Ordering::Greater
    }
}

/// No text comes before itself.
pub proof fn lemma_precedes_irreflexive(a: Seq<char>)
    ensures
        !precedes(a, a),
{
}

/// Of two texts at most one comes before the other.
pub proof fn lemma_precedes_asymmetric(a: Seq<char>, b: Seq<char>)
    requires
        precedes(a, b),
    ensures
        !precedes(b, a),
{
    let k = choose|k: int| decided_at(a, b, k);
    if precedes(b, a) {
        let j = choose|j: int| decided_at(b, a, j);
        if j < k {
            assert(a[j] == b[j]);
        } else if k < j {
            assert(b[k] == a[k]);
        }
    }
}

/// If `a` comes before `b` and `b` before `c`, then `a` comes before `c`.
pub proof fn lemma_precedes_transitive(a: Seq<char>, b: Seq<char>, c: Seq<char>)
    requires
        precedes(a, b),
        precedes(b, c),
    ensures
        precedes(a, c),
{
    let k = choose|k: int| decided_at(a, b, k);
    let j = choose|j: int| decided_at(b, c, j);
    let m = if k <= j { k } else { j };
    assert forall|i: int| 0 <= i < m implies a[i] == c[i] by {
        assert(a[i] == b[i]);
        assert(b[i] == c[i]);
    }
    if k < j {
        assert(b[k] == c[k]);
    } else if j < k {
        assert(a[j] == b[j]);
    }
    assert(decided_at(a, c, m));
}

/// Two texts that agree on their first `n` characters are equal, or one of
/// them comes before the other.
proof fn lemma_decide_from(a: Seq<char>, b: Seq<char>, n: int)
    requires
        0 <= n <= a.len(),
        n <= b.len(),
        forall|i: int| 0 <= i < n ==> a[i] == b[i],
    ensures
        a == b || precedes(a, b) || precedes(b, a),
    decreases a.len() - n,
{
    if n == a.len() {
        if n == b.len() {
            assert(a =~= b);
        } else {
            assert(decided_at(a, b, n));
        }
    } else if n == b.len() {
        assert(decided_at(b, a, n));
    } else if a[n] < b[n] {
        assert(decided_at(a, b, n));
    } else if b[n] < a[n] {
        assert(decided_at(b, a, n));
    } else {
        assert(a[n] == b[n]);
        lemma_decide_from(a, b, n + 1);
    }
}

/// Any two texts are equal, or one of them comes before the other.
pub proof fn lemma_precedes_total(a: Seq<char>, b: Seq<char>)
    ensures
        a == b || precedes(a, b) || precedes(b, a),
{
    lemma_decide_from(a, b, 0);
}

/// Swapping the two texts turns the order round.
pub proof fn lemma_text_order_reverse(a: Seq<char>, b: Seq<char>)
    ensures
        text_order(b, a) == match text_order(a, b) {
            Ordering::Less => Ordering::Greater,
            Ordering::Equal => Ordering::Equal,
            Ordering::Greater => Ordering::Less,
        },
{
    lemma_precedes_total(a, b);
    if precedes(a, b) {
        lemma_precedes_asymmetric(a, b);
        lemma_precedes_irreflexive(a);
    }
    if precedes(b, a) {
        lemma_precedes_asymmetric(b, a);
        lemma_precedes_irreflexive(a);
    }
}

/// `str`'s `==`. The contract claims that two slices are equal exactly when
/// they hold the same characters.
#[verifier::external_body]
pub(crate) fn same_text(a: &str, b: &str) -> (r: bool)
    ensures
        r == (a@ == b@),
{
    a == b
}

/// `str`'s `Ord::cmp`. The contract claims that it orders two slices
/// lexicographically by their characters, each character by its code point.
#[verifier::external_body]
pub(crate) fn compare_text(a: &str, b: &str) -> (r: Ordering)
    ensures
        r == text_order(a@, b@),
{
    a.cmp(b)
}

} // verus!
