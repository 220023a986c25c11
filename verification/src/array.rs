//! The child array of a list array: a typed sequence of nullable slots.

use vstd::prelude::*;
use std::sync::Arc;
use crate::sources::share;
use crate::datatypes::ArrowDataType;

verus! {

/// A typed sequence of nullable 64-bit slots, a window on shared storage: slicing and
/// cloning share it.
pub struct DynArray {
    dtype: ArrowDataType,
    slots: Arc<Vec<Option<i64>>>,
    offset: usize,
    length: usize,
}

impl View for DynArray {
    type V = Seq<Option<i64>>;

    closed spec fn view(&self) -> Seq<Option<i64>> {
        self.slots@.subrange(self.offset as int, self.offset + self.length)
    }
}

impl DynArray {
    #[verifier::type_invariant]
    closed spec fn inv(self) -> bool {
        self.offset + self.length <= self.slots@.len()
    }

    /// The type of the array.
    pub closed spec fn data_type(&self) -> ArrowDataType {
        self.dtype
    }

    /// An array of the given type holding the given slots.
    pub fn from_slots(dtype: ArrowDataType, slots: Vec<Option<i64>>) -> (r: DynArray)
        ensures
            r.data_type() == dtype,
            r@ == slots@,
    {
        let length = slots.len();
        assert(slots@.subrange(0, length as int) =~= slots@);
        DynArray { dtype, slots: Arc::new(slots), offset: 0, length }
    }

    /// The type of the array.
    pub fn dtype(&self) -> (r: &ArrowDataType)
        ensures
            *r == self.data_type(),
    {
        &self.dtype
    }

    /// The number of slots.
    pub fn len(&self) -> (r: usize)
        ensures
            r == self@.len(),
    {
        proof {
            use_type_invariant(self);
        }
        self.length
    }

    /// The slot at position `i`.
    pub fn get(&self, i: usize) -> (r: Option<i64>)
        requires
            i < self@.len(),
        ensures
            r == self@[i as int],
    {
        proof {
            use_type_invariant(self);
        }
        let _total = self.slots.len();
        self.slots[self.offset + i]
    }

    /// The slots `offset .. offset + length`, of the same type, sharing the storage.
    pub fn sliced(&self, offset: usize, length: usize) -> (r: DynArray)
        requires
            offset + length <= self@.len(),
        ensures
            r.data_type() == self.data_type(),
            r@ == self@.subrange(offset as int, offset + length),
    {
        proof {
            use_type_invariant(self);
        }
        let _total = self.slots.len();
        let r = DynArray {
            dtype: self.dtype.clone(),
            slots: share(&self.slots),
            offset: self.offset + offset,
            length,
        };
        assert(r@ =~= self@.subrange(offset as int, offset + length));
        r
    }

    /// The slots before `offset` and the slots from `offset` on, both of the same type,
    /// sharing the storage.
    pub fn split_at(&self, offset: usize) -> (r: (DynArray, DynArray))
        requires
            offset <= self@.len(),
        ensures
            r.0.data_type() == self.data_type(),
            r.1.data_type() == self.data_type(),
            r.0@ == self@.subrange(0, offset as int),
            r.1@ == self@.subrange(offset as int, self@.len() as int),
    {
        let n = self.len();
        let lhs = self.sliced(0, offset);
        let rhs = self.sliced(offset, n - offset);
        (lhs, rhs)
    }
}

impl Clone for DynArray {
    /// Another array of the same slots and type, sharing the storage.
    fn clone(&self) -> (r: Self)
        ensures
            r@ == self@,
            r.data_type() == self.data_type(),
    {
        let n = self.len();
        let r = self.sliced(0, n);
        assert(r@ =~= self@);
        r
    }
}

/// An array of the given type with no slots.
pub fn new_empty_array(dtype: ArrowDataType) -> (r: DynArray)
    ensures
        r.data_type() == dtype,
        r@ == Seq::<Option<i64>>::empty(),
{
    DynArray::from_slots(dtype, Vec::new())
}

/// An array of the given type with `length` null slots.
pub fn new_null_array(dtype: ArrowDataType, length: usize) -> (r: DynArray)
    ensures
        r.data_type() == dtype,
        r@ == Seq::new(length as nat, |_i: int| None::<i64>),
{
    let mut slots: Vec<Option<i64>> = Vec::new();
    let mut i: usize = 0;
    while i < length
        invariant
            i <= length,
            slots@ == Seq::new(i as nat, |_i: int| None::<i64>),
        decreases length - i,
    {
        slots.push(None);
        i = i + 1;
    }
    DynArray::from_slots(dtype, slots)
}

} // verus!
