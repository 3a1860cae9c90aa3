//! Lexicographic comparison of byte sequences.

use vstd::prelude::*;

verus! {

use core::cmp::Ordering;

/// Lexicographic order on byte sequences: the first differing byte decides;
/// a proper prefix comes before every sequence it is a prefix of.
pub open spec fn lex_cmp_spec(a: Seq<u8>, b: Seq<u8>) -> Ordering
    decreases a.len(),
{
    if a.len() == 0 && b.len() == 0 {
        Ordering::Equal
    } else if a.len() == 0 {
        Ordering::Less
    } else if b.len() == 0 {
        Ordering::Greater
    } else if a[0] < b[0] {
        Ordering::Less
    } else if a[0] > b[0] {
        Ordering::Greater
    } else {
        lex_cmp_spec(a.skip(1), b.skip(1))
    }
}

/// Compares two byte slices in lexicographic order.
pub fn lex_cmp_bytes(a: &[u8], b: &[u8]) -> (r: Ordering)
    ensures
        r == lex_cmp_spec(a@, b@),
{
    let alen = a.len();
    let blen = b.len();
    let min: usize = if alen < blen {
        alen
    } else {
        blen
    };
    let mut i: usize = 0;
    proof {
        assert(a@.skip(0) =~= a@);
        assert(b@.skip(0) =~= b@);
    }
    while i < min
        invariant
            i <= min,
            min == if alen < blen { alen } else { blen },
            alen == a@.len(),
            blen == b@.len(),
            lex_cmp_spec(a@, b@) == lex_cmp_spec(a@.skip(i as int), b@.skip(i as int)),
        decreases min - i,
    {
        let x = a[i];
        let y = b[i];
        proof {
            assert(a@.skip(i as int)[0] == a@[i as int]);
            assert(b@.skip(i as int)[0] == b@[i as int]);
        }
        if x < y {
            return Ordering::Less;
        }
        if x > y {
            return Ordering::Greater;
        }
        proof {
            assert(a@.skip(i as int).skip(1) =~= a@.skip(i + 1));
            assert(b@.skip(i as int).skip(1) =~= b@.skip(i + 1));
        }
        i = i + 1;
    }
    if alen == blen {
        proof {
            assert(a@.skip(i as int).len() == 0);
            assert(b@.skip(i as int).len() == 0);
        }
        Ordering::Equal
    } else if alen < blen {
        proof {
            assert(a@.skip(i as int).len() == 0);
            assert(b@.skip(i as int).len() > 0);
        }
        Ordering::Less
    } else {
        proof {
            assert(b@.skip(i as int).len() == 0);
            assert(a@.skip(i as int).len() > 0);
        }
        Ordering::Greater
    }
}

/// Tests two byte slices for equality of content.
pub fn bytes_equal(a: &[u8], b: &[u8]) -> (r: bool)
    ensures
        r == (a@ == b@),
{
    if a.len() != b.len() {
        return false;
    }
    let mut i: usize = 0;
    while i < a.len()
        invariant
            i <= a@.len(),
            a@.len() == b@.len(),
            forall|j: int| 0 <= j < i ==> a@[j] == b@[j],
        decreases a@.len() - i,
    {
        if a[i] != b[i] {
            return false;
        }
        i = i + 1;
    }
    proof {
        assert(a@ =~= b@);
    }
    true
}

/// Two byte sequences compare as equal exactly when they are the same sequence:
/// the lexicographic order never conflates distinct contents.
pub proof fn lemma_lex_cmp_equal_iff(a: Seq<u8>, b: Seq<u8>)
    ensures
        lex_cmp_spec(a, b) == Ordering::Equal <==> a == b,
    decreases a.len(),
{
    if a.len() == 0 && b.len() == 0 {
        assert(a =~= b);
    } else if a.len() == 0 || b.len() == 0 {
        assert(a.len() != b.len());
    } else if a[0] == b[0] {
        lemma_lex_cmp_equal_iff(a.skip(1), b.skip(1));
        if a.skip(1) == b.skip(1) {
            assert forall|i: int| 0 <= i < a.len() implies a[i] == b[i] by {
                if i >= 1 {
                    assert(a.skip(1)[i - 1] == a[i]);
                    assert(b.skip(1)[i - 1] == b[i]);
                }
            }
            assert(a =~= b);
        }
        if a == b {
            assert(a.skip(1) == b.skip(1));
        }
    } else {
        assert(a[0] != b[0]);
    }
}

/// A proper prefix comes strictly before the sequence it is a prefix of.
pub proof fn lemma_lex_cmp_proper_prefix(a: Seq<u8>, b: Seq<u8>)
    requires
        a.len() < b.len(),
        a == b.take(a.len() as int),
    ensures
        lex_cmp_spec(a, b) == Ordering::Less,
    decreases a.len(),
{
    if a.len() == 0 {
    } else {
        assert(a[0] == b[0]) by {
            assert(b.take(a.len() as int)[0] == b[0]);
        }
        assert(a.skip(1) == b.skip(1).take(a.len() - 1)) by {
            assert(a.skip(1) =~= b.skip(1).take(a.len() - 1)) by {
                assert(forall|i: int|
                    0 <= i < a.len() - 1 ==> #[trigger] a.skip(1)[i] == b[i + 1]);
            }
        }
        lemma_lex_cmp_proper_prefix(a.skip(1), b.skip(1));
    }
}

} // verus!
