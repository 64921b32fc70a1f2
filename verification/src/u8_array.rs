//! An array with one always-present slot for every `u8` value.

use vstd::prelude::*;

use core::cmp::Ordering;
use vstd::std_specs::cmp::PartialEqSpec;
use vstd::std_specs::cmp::PartialOrdSpec;

use crate::elems::default_filled;
use crate::elems::elementwise_eq;
use crate::elems::lemma_lex_cmp_skip;
use crate::elems::lex_cmp;
use crate::elems::uniformly_filled;

verus! {

broadcast use vstd::array::group_array_axioms;

/// A container with exactly 256 slots of `T`, one per representable `u8`.
///
/// The backing storage is a fixed-length array whose length equals the
/// number of `u8` values, so indexed access is total: every index names a
/// valid slot and no access can fail.
#[derive(Debug, Hash)]
pub struct U8IndexableArray<T> {
    storage: [T; 256],
}

impl<T> View for U8IndexableArray<T> {
    type V = Seq<T>;

    closed spec fn view(&self) -> Seq<T> {
        self.storage@
    }
}

impl<T: Copy> U8IndexableArray<T> {
    /// Builds an array whose 256 slots all hold `default_value`.
    pub fn new_with_default_value(default_value: T) -> (result: U8IndexableArray<T>)
        ensures
            result@.len() == 256,
            uniformly_filled(result@, default_value),
    {
        Self { storage: [default_value; 256] }
    }

    /// Copies the 256 slots into a vector, in slot order.
    pub fn to_vec(&self) -> (v: Vec<T>)
        ensures
            v@ == self@,
    {
        let mut v: Vec<T> = Vec::new();
        let mut idx: usize = 0;
        while idx < 256
            invariant
                idx <= 256,
                self@.len() == 256,
                v@.len() == idx,
                forall|j: int| 0 <= j < idx ==> v@[j] == self@[j],
            decreases 256 - idx,
        {
            v.push(self.storage[idx]);
            idx += 1;
        }
        proof {
            assert(v@ =~= self@);
        }
        v
    }

    /// Consumes the array and yields its 256 slots as owned values, in slot
    /// order.
    pub fn into_vec(self) -> (v: Vec<T>)
        ensures
            v@ == self@,
    {
        self.to_vec()
    }
}

impl<T> U8IndexableArray<T> {
    /// Total lookup: every `u8` names a valid slot, so there is no
    /// precondition and no failure path.
    pub fn get(&self, index: u8) -> (element: &T)
        ensures
            *element == self@[index as int],
    {
        &self.storage[index as usize]
    }

    /// Total in-place update: stores `value` in the slot named by `index`
    /// and leaves every other slot unchanged.
    pub fn set(&mut self, index: u8, value: T)
        ensures
            final(self)@ == old(self)@.update(index as int, value),
    {
        self.storage[index as usize] = value;
    }

    /// Total mutable lookup: borrows the slot named by `index` exclusively;
    /// the caller may overwrite it, and no other slot can change through it.
    pub fn get_mut(&mut self, index: u8) -> (element: &mut T)
        ensures
            *element == old(self)@[index as int],
            final(self)@ == old(self)@.update(index as int, *final(element)),
    {
        crate::elems::array_slot_mut(&mut self.storage, index as usize)
    }

    /// Borrows the whole storage as a contiguous slice in slot order.
    pub fn as_slice(&self) -> (s: &[T])
        ensures
            s@ == self@,
    {
        self.storage.as_slice()
    }

    /// Borrows the whole storage as a mutable contiguous slice in slot
    /// order; writes through the slice are writes to the matching slots.
    pub fn as_mut_slice(&mut self) -> (s: &mut [T])
        ensures
            s@ == old(self)@,
            final(s)@ == final(self)@,
            final(self)@.len() == 256,
    {
        vstd::array::ref_mut_array_unsizing_coercion(&mut self.storage)
    }

    /// The capacity invariant: the view always has exactly 256 slots, and
    /// every representable `u8` index names one of them.
    pub proof fn lemma_total_indexing(&self, index: u8)
        ensures
            self@.len() == 256,
            0 <= (index as int) && (index as int) < self@.len(),
    {
    }
}

impl<T: Default + Copy> Default for U8IndexableArray<T> {
    /// Builds an array whose 256 slots all hold the element type's default
    /// value: every slot satisfies the contract of `T::default`, and all
    /// slots are equal to one another.
    fn default() -> (result: Self)
        ensures
            result@.len() == 256,
            default_filled(result@),
            forall|i: int, j: int|
                0 <= i < result@.len() && 0 <= j < result@.len() ==> result@[i] == result@[j],
    {
        Self::new_with_default_value(T::default())
    }
}

impl<T: Clone> Clone for U8IndexableArray<T> {
    /// Duplicates the array slot by slot: the copy has the same capacity,
    /// and each of its slots is a clone of the matching original slot.
    fn clone(&self) -> (result: Self)
        ensures
            result@.len() == self@.len(),
            forall|i: int| 0 <= i < self@.len() ==> cloned::<T>(self@[i], result@[i]),
    {
        U8IndexableArray { storage: self.storage.clone() }
    }
}

impl<T: Copy> Copy for U8IndexableArray<T> {}

impl<T: PartialEq> PartialEq for U8IndexableArray<T> {
    /// Structural comparison of the full 256-slot sequence, element by
    /// element in slot order.
    fn eq(&self, other: &Self) -> (r: bool) {
        let mut idx: usize = 0;
        while idx < 256
            invariant
                idx <= 256,
                self@.len() == 256,
                other@.len() == 256,
                T::obeys_eq_spec() ==> forall|j: int| 0 <= j < idx ==> self@[j].eq_spec(&other@[j]),
            decreases 256 - idx,
        {
            let x = &self.storage[idx];
            let y = &other.storage[idx];
            if !x.eq(y) {
                return false;
            }
            idx += 1;
        }
        true
    }
}

impl<T: PartialEq> vstd::std_specs::cmp::PartialEqSpecImpl for U8IndexableArray<T> {
    open spec fn obeys_eq_spec() -> bool {
        T::obeys_eq_spec()
    }

    open spec fn eq_spec(&self, other: &Self) -> bool {
        elementwise_eq(self@, other@)
    }
}

impl<T: Eq> Eq for U8IndexableArray<T> {}

impl<T: PartialOrd> PartialOrd for U8IndexableArray<T> {
    /// Lexicographic comparison of the two 256-slot sequences: the first
    /// pair of slots that the element ordering does not consider equal
    /// decides the result.
    fn partial_cmp(&self, other: &Self) -> (r: Option<Ordering>) {
        let mut idx: usize = 0;
        while idx < 256
            invariant
                idx <= 256,
                self@.len() == 256,
                other@.len() == 256,
                T::obeys_partial_cmp_spec() ==> forall|j: int|
                    0 <= j < idx ==> self@[j].partial_cmp_spec(&other@[j]) == Some(Ordering::Equal),
            decreases 256 - idx,
        {
            let x = &self.storage[idx];
            let y = &other.storage[idx];
            let c = x.partial_cmp(y);
            match c {
                Some(Ordering::Equal) => {
                    idx += 1;
                },
                _ => {
                    proof {
                        if T::obeys_partial_cmp_spec() {
                            lemma_lex_cmp_skip(self@, other@, idx as int);
                        }
                    }
                    return c;
                },
            }
        }
        proof {
            if T::obeys_partial_cmp_spec() {
                lemma_lex_cmp_skip(self@, other@, 256);
            }
        }
        Some(Ordering::Equal)
    }
}

impl<T: PartialOrd> vstd::std_specs::cmp::PartialOrdSpecImpl for U8IndexableArray<T> {
    open spec fn obeys_partial_cmp_spec() -> bool {
        T::obeys_partial_cmp_spec()
    }

    open spec fn partial_cmp_spec(&self, other: &Self) -> Option<Ordering> {
        lex_cmp(self@, other@)
    }
}


/// Write/read round-trip over a 256-slot view: after storing `v` at
/// `index`, the slot named by `index` holds `v`, and the slot named by any
/// other index is unchanged.
pub proof fn lemma_u8_write_read_round_trip<T>(s: Seq<T>, index: u8, other: u8, v: T)
    requires
        s.len() == 256,
    ensures
        s.update(index as int, v)[index as int] == v,
        other != index ==> s.update(index as int, v)[other as int] == s[other as int],
{
}

/// Distinct `u8` indices always name distinct slots: indexing never
/// aliases.
pub proof fn lemma_u8_no_aliasing(i: u8, j: u8)
    ensures
        i != j ==> i as int != j as int,
{
}

/// The slot position that a `u8` index names.
pub open spec fn u8_slot(i: u8) -> int {
    i as int
}

/// The set of slot positions reachable through some `u8` index.
pub open spec fn u8_reachable_slots() -> Set<int> {
    Set::new(|n: int| exists|i: u8| u8_slot(i) == n)
}

/// Full coverage: the slot positions reachable through `u8` indices are
/// exactly the 256 valid positions, so exactly 256 distinct slots are
/// reachable, none unreachable and none shared.
pub proof fn lemma_u8_full_coverage()
    ensures
        u8_reachable_slots() =~= vstd::set_lib::set_int_range(0, 256),
        u8_reachable_slots().len() == 256,
{
    let reachable = u8_reachable_slots();
    assert forall|n: int| 0 <= n < 256 implies reachable.contains(n) by {
        let i = n as u8;
        assert(u8_slot(i) == n);
    }
    vstd::set_lib::lemma_int_range(0, 256);
    assert(reachable =~= vstd::set_lib::set_int_range(0, 256));
}

} // verus!
