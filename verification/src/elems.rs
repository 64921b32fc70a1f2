//! Element-wise specifications shared by the fixed-capacity containers.

use vstd::prelude::*;

use core::cmp::Ordering;
use vstd::std_specs::cmp::PartialEqSpec;
use vstd::std_specs::cmp::PartialOrdSpec;

verus! {

/// Every slot of `s` holds exactly the value `v`.
pub open spec fn uniformly_filled<T>(s: Seq<T>, v: T) -> bool {
    forall|i: int| 0 <= i < s.len() ==> s[i] == v
}

/// Every slot of `s` holds a value that `T::default` could have returned.
pub open spec fn default_filled<T: Default>(s: Seq<T>) -> bool {
    forall|i: int| 0 <= i < s.len() ==> call_ensures(T::default, (), s[i])
}

/// The slots of `a` and `b` agree element by element, under the element
/// type's own notion of equality.
pub open spec fn elementwise_eq<T: PartialEq>(a: Seq<T>, b: Seq<T>) -> bool {
    a.len() == b.len() && forall|i: int| 0 <= i < a.len() ==> a[i].eq_spec(&b[i])
}

/// Lexicographic comparison of two sequences, under the element type's own
/// ordering: the first pair of unequal slots decides; if one sequence is a
/// prefix of the other, the shorter one is smaller.
pub open spec fn lex_cmp<T: PartialOrd>(a: Seq<T>, b: Seq<T>) -> Option<Ordering>
    decreases a.len(), b.len(),
{
    if a.len() == 0 && b.len() == 0 {
        Some(Ordering::Equal)
    } else if a.len() == 0 {
        Some(Ordering::Less)
    } else if b.len() == 0 {
        Some(Ordering::Greater)
    } else {
        match a[0].partial_cmp_spec(&b[0]) {
            Some(Ordering::Equal) => lex_cmp(a.drop_first(), b.drop_first()),
            c => c,
        }
    }
}

/// A prefix of slots that compare as equal does not influence the
/// lexicographic comparison: it is decided by the remainders alone.
pub proof fn lemma_lex_cmp_skip<T: PartialOrd>(a: Seq<T>, b: Seq<T>, k: int)
    requires
        a.len() == b.len(),
        0 <= k <= a.len(),
        forall|i: int| 0 <= i < k ==> a[i].partial_cmp_spec(&b[i]) == Some(Ordering::Equal),
    ensures
        lex_cmp(a, b) == lex_cmp(a.skip(k), b.skip(k)),
    decreases k,
{
    if k == 0 {
        assert(a.skip(0) =~= a);
        assert(b.skip(0) =~= b);
    } else {
        let at = a.drop_first();
        let bt = b.drop_first();
        assert(forall|i: int|
            0 <= i < k - 1 ==> at[i].partial_cmp_spec(&bt[i]) == Some(Ordering::Equal));
        lemma_lex_cmp_skip(at, bt, k - 1);
        assert(at.skip(k - 1) =~= a.skip(k));
        assert(bt.skip(k - 1) =~= b.skip(k));
    }
}

/// Default-construction determinism: whenever the element type's contract
/// determines its default value uniquely, any two default-filled views of
/// the same capacity are equal slot for slot.
pub proof fn lemma_default_deterministic<T: Default>(a: Seq<T>, b: Seq<T>)
    requires
        a.len() == b.len(),
        default_filled(a),
        default_filled(b),
        forall|d1: T, d2: T|
            call_ensures(T::default, (), d1) && call_ensures(T::default, (), d2) ==> d1 == d2,
    ensures
        a == b,
{
    assert(a =~= b);
}

/// Relies on std's indexing operator for arrays: `&mut a[i]` borrows slot
/// `i` in place; writing through the borrow changes that slot and no other.
#[verifier::external_body]
pub(crate) fn array_slot_mut<T, const N: usize>(storage: &mut [T; N], i: usize) -> (element: &mut
    T)
    requires
        i < N,
    ensures
        *element == old(storage)@[i as int],
        final(storage)@ == old(storage)@.update(i as int, *final(element)),
{
    &mut storage[i]
}

} // verus!
