//! The order of texts: by their bytes, the first difference deciding.

use vstd::prelude::*;

verus! {

/// Whether one byte string stands before another.
pub open spec fn stands_before(a: Seq<u8>, b: Seq<u8>) -> bool
    decreases a.len(),
{
    if b.len() == 0 {
        false
    } else if a.len() == 0 {
        true
    } else if a[0] != b[0] {
        a[0] < b[0]
    } else {
        stands_before(a.skip(1), b.skip(1))
    }
}

/// Nothing stands before itself.
pub proof fn nothing_precedes_itself(a: Seq<u8>)
    ensures
        !stands_before(a, a),
    decreases a.len(),
{
    if a.len() > 0 {
        nothing_precedes_itself(a.skip(1));
    }
}

/// Of two different byte strings one stands before the other.
pub proof fn order_is_total(a: Seq<u8>, b: Seq<u8>)
    ensures
        a == b || stands_before(a, b) || stands_before(b, a),
    decreases a.len(),
{
    if a.len() == 0 && b.len() == 0 {
        assert(a =~= b);
    } else if a.len() > 0 && b.len() > 0 && a[0] == b[0] {
        order_is_total(a.skip(1), b.skip(1));
        if a.skip(1) == b.skip(1) {
            assert forall|i: int| 0 <= i < a.len() implies a.len() == b.len() && a[i] == b[i] by {
                assert(a.skip(1).len() == b.skip(1).len());
                if i > 0 {
                    assert(a.skip(1)[i - 1] == b.skip(1)[i - 1]);
                }
            }
            assert(a.skip(1).len() == b.skip(1).len());
            assert(a =~= b);
        }
    }
}

/// What stands before something stands before all that it stands before.
pub proof fn order_is_transitive(a: Seq<u8>, b: Seq<u8>, c: Seq<u8>)
    requires
        stands_before(a, b),
        stands_before(b, c),
    ensures
        stands_before(a, c),
    decreases a.len(),
{
    if a.len() > 0 && a[0] == b[0] && b[0] == c[0] {
        order_is_transitive(a.skip(1), b.skip(1), c.skip(1));
    }
}

/// Whether one byte string stands before another.
pub fn precedes(a: &[u8], b: &[u8]) -> (yes: bool)
    ensures
        yes == stands_before(a@, b@),
{
    let mut i: usize = 0;
    proof {
        assert(a@.skip(0) =~= a@);
        assert(b@.skip(0) =~= b@);
    }
    while i < a.len() && i < b.len()
        invariant
            i <= a@.len(),
            i <= b@.len(),
            stands_before(a@, b@) == stands_before(a@.skip(i as int), b@.skip(i as int)),
        decreases a@.len() - i,
    {
        if a[i] != b[i] {
            return a[i] < b[i];
        }
        proof {
            assert(a@.skip(i as int).skip(1) =~= a@.skip(i + 1));
            assert(b@.skip(i as int).skip(1) =~= b@.skip(i + 1));
        }
        i = i + 1;
    }
    i < b.len()
}

} // verus!
