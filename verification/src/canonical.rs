//! The canonical order of two keys.
//!
//! A value that two parties derive from both their public keys must not
//! depend on which of the two a party calls its own. So the keys are put in
//! lexicographic order before anything is derived from them.

use vstd::prelude::*;

verus! {

/// Whether `a` comes before `b` in lexicographic order of bytes, or equals
/// it. A proper prefix comes before what it is a prefix of.
pub open spec fn precedes(a: Seq<u8>, b: Seq<u8>) -> bool
    decreases a.len(),
{
    if a.len() == 0 {
        true
    } else if b.len() == 0 {
        false
    } else if a[0] != b[0] {
        a[0] < b[0]
    } else {
        precedes(a.drop_first(), b.drop_first())
    }
}

/// The two keys, the one that precedes the other first.
pub open spec fn canonical_pair(a: Seq<u8>, b: Seq<u8>) -> (Seq<u8>, Seq<u8>) {
    if precedes(a, b) {
        (a, b)
    } else {
        (b, a)
    }
}

/// Of any two byte strings one precedes the other.
pub proof fn lemma_precedes_total(a: Seq<u8>, b: Seq<u8>)
    ensures
        precedes(a, b) || precedes(b, a),
    decreases a.len(),
{
    if a.len() > 0 && b.len() > 0 && a[0] == b[0] {
        lemma_precedes_total(a.drop_first(), b.drop_first());
    }
}

/// Two byte strings that precede each other are equal.
pub proof fn lemma_precedes_antisymmetric(a: Seq<u8>, b: Seq<u8>)
    requires
        precedes(a, b),
        precedes(b, a),
    ensures
        a == b,
    decreases a.len(),
{
    if a.len() == 0 || b.len() == 0 {
        assert(a =~= b);
    } else {
        lemma_precedes_antisymmetric(a.drop_first(), b.drop_first());
        assert(a =~= seq![a[0]] + a.drop_first());
        assert(b =~= seq![b[0]] + b.drop_first());
    }
}

/// The canonical pair does not depend on the order in which the two keys
/// are given.
pub proof fn lemma_canonical_pair_symmetric(a: Seq<u8>, b: Seq<u8>)
    ensures
        canonical_pair(a, b) == canonical_pair(b, a),
{
    lemma_precedes_total(a, b);
    if precedes(a, b) && precedes(b, a) {
        lemma_precedes_antisymmetric(a, b);
    }
}

/// Dropping a common first part does not change which of the two precedes
/// the other.
proof fn lemma_precedes_after_common(a: Seq<u8>, b: Seq<u8>, n: int)
    requires
        0 <= n <= a.len(),
        n <= b.len(),
        forall|i: int| 0 <= i < n ==> a[i] == b[i],
    ensures
        precedes(a, b) == precedes(a.skip(n), b.skip(n)),
    decreases n,
{
    if n == 0 {
        assert(a.skip(0) =~= a);
        assert(b.skip(0) =~= b);
    } else {
        lemma_precedes_after_common(a.drop_first(), b.drop_first(), n - 1);
        assert(a.drop_first().skip(n - 1) =~= a.skip(n));
        assert(b.drop_first().skip(n - 1) =~= b.skip(n));
    }
}

/// Whether `a` precedes `b`.
pub fn comes_first(a: &[u8], b: &[u8]) -> (r: bool)
    ensures
        r == precedes(a@, b@),
{
    let mut i: usize = 0;
    while i < a.len() && i < b.len()
        invariant
            i <= a@.len(),
            i <= b@.len(),
            forall|k: int| 0 <= k < i ==> a@[k] == b@[k],
        decreases a@.len() - i,
    {
        if a[i] != b[i] {
            proof {
                lemma_precedes_after_common(a@, b@, i as int);
            }
            return a[i] < b[i];
        }
        i = i + 1;
    }
    proof {
        lemma_precedes_after_common(a@, b@, i as int);
    }
    i == a.len()
}

/// The two keys in canonical order.
pub fn in_canonical_order(a: Vec<u8>, b: Vec<u8>) -> (r: (Vec<u8>, Vec<u8>))
    ensures
        (r.0@, r.1@) == canonical_pair(a@, b@),
{
    if comes_first(a.as_slice(), b.as_slice()) {
        (a, b)
    } else {
        (b, a)
    }
}

} // verus!
