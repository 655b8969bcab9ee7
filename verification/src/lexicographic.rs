//! Strict lexicographic order on character sequences, by Unicode scalar value.
use vstd::prelude::*;

verus! {

/// `a` and `b` agree on their first `k` characters, and at position `k`
/// either `a` has ended while `b` goes on, or both go on and `a`'s character
/// has the smaller scalar value.
pub open spec fn precedes_at(a: Seq<char>, b: Seq<char>, k: int) -> bool {
    &&& 0 <= k <= a.len()
    &&& k <= b.len()
    &&& forall|i: int| 0 <= i < k ==> a[i] == b[i]
    &&& ((k == a.len() && k < b.len()) || (k < a.len() && k < b.len() && (a[k] as u32) < (b[k]
        as u32)))
}

/// `a` comes strictly before `b` in lexicographic order.
pub open spec fn char_seq_lt(a: Seq<char>, b: Seq<char>) -> bool {
    exists|k: int| #[trigger] precedes_at(a, b, k)
}

/// A common prefix followed by a smaller character (or the end of `a`)
/// places `a` before `b`.
pub proof fn lemma_precedes_at(a: Seq<char>, b: Seq<char>, k: int)
    requires
        precedes_at(a, b, k),
    ensures
        char_seq_lt(a, b),
{
}

/// Nothing comes strictly before itself: the order separates distinct sequences.
pub proof fn lemma_lt_distinct(a: Seq<char>, b: Seq<char>)
    requires
        char_seq_lt(a, b),
    ensures
        a != b,
{
    let k = choose|k: int| #[trigger] precedes_at(a, b, k);
    if a == b {
        assert(a.len() == b.len());
        if k < a.len() {
            assert(a[k] == b[k]);
        }
    }
}

/// The order is transitive.
pub proof fn lemma_lt_transitive(a: Seq<char>, b: Seq<char>, c: Seq<char>)
    requires
        char_seq_lt(a, b),
        char_seq_lt(b, c),
    ensures
        char_seq_lt(a, c),
{
    let k1 = choose|k: int| #[trigger] precedes_at(a, b, k);
    let k2 = choose|k: int| #[trigger] precedes_at(b, c, k);
    if k1 <= k2 {
        if k1 == k2 && k1 < a.len() {
            assert(b[k1] == c[k1] || (b[k1] as u32) < (c[k1] as u32));
        }
        assert(forall|i: int| 0 <= i < k1 ==> a[i] == b[i] && b[i] == c[i]);
        assert(precedes_at(a, c, k1));
    } else {
        assert(a[k2] == b[k2]);
        assert(forall|i: int| 0 <= i < k2 ==> a[i] == b[i] && b[i] == c[i]);
        assert(precedes_at(a, c, k2));
    }
}

/// Dropping a common prefix keeps the order.
pub proof fn lemma_lt_drop_common_prefix(a: Seq<char>, b: Seq<char>, n: int)
    requires
        char_seq_lt(a, b),
        0 <= n <= a.len(),
        n <= b.len(),
        a.take(n) == b.take(n),
    ensures
        char_seq_lt(a.skip(n), b.skip(n)),
{
    let k = choose|k: int| #[trigger] precedes_at(a, b, k);
    if k < n {
        assert(a[k] == a.take(n)[k] && b[k] == b.take(n)[k]);
    }
    assert(precedes_at(a.skip(n), b.skip(n), k - n));
}

} // verus!
