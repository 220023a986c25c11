//! A validity mask: one bit per slot, `true` for a valid slot.

use vstd::prelude::*;
use std::sync::Arc;
use crate::sources::share;

verus! {

/// The number of `false` bits in a sequence.
pub open spec fn count_unset(bits: Seq<bool>) -> nat
    decreases bits.len(),
{
    if bits.len() == 0 {
        0
    } else {
        count_unset(bits.drop_last()) + if bits.last() {
            0nat
        } else {
            1nat
        }
    }
}

/// No bit is unset exactly when every bit is set.
pub proof fn lemma_count_unset_zero(bits: Seq<bool>)
    ensures
        (count_unset(bits) == 0) <==> (forall|i: int| 0 <= i < bits.len() ==> #[trigger] bits[i]),
    decreases bits.len(),
{
    if bits.len() > 0 {
        lemma_count_unset_zero(bits.drop_last());
        if count_unset(bits) == 0 {
            assert forall|i: int| 0 <= i < bits.len() implies #[trigger] bits[i] by {
                if i < bits.len() - 1 {
                    assert(bits.drop_last()[i] == bits[i]);
                }
            }
        }
        if forall|i: int| 0 <= i < bits.len() ==> #[trigger] bits[i] {
            assert(bits[bits.len() - 1]);
            assert forall|i: int| 0 <= i < bits.drop_last().len() implies #[trigger] bits.drop_last()[i] by {
                assert(bits[i]);
            }
        }
    }
}

/// A sequence of bits, a window on shared storage: slicing and cloning share it.
pub struct Bitmap {
    bits: Arc<Vec<bool>>,
    offset: usize,
    length: usize,
}

impl View for Bitmap {
    type V = Seq<bool>;

    closed spec fn view(&self) -> Seq<bool> {
        self.bits@.subrange(self.offset as int, self.offset + self.length)
    }
}

impl Bitmap {
    #[verifier::type_invariant]
    closed spec fn inv(self) -> bool {
        self.offset + self.length <= self.bits@.len()
    }

    /// A bitmap holding the given bits.
    pub fn from_bools(bits: Vec<bool>) -> (r: Bitmap)
        ensures
            r@ == bits@,
    {
        let length = bits.len();
        assert(bits@.subrange(0, length as int) =~= bits@);
        Bitmap { bits: Arc::new(bits), offset: 0, length }
    }

    /// A bitmap of `length` unset bits.
    pub fn new_zeroed(length: usize) -> (r: Bitmap)
        ensures
            r@ == Seq::new(length as nat, |_i: int| false),
    {
        let mut bits: Vec<bool> = Vec::new();
        let mut i: usize = 0;
        while i < length
            invariant
                i <= length,
                bits@ == Seq::new(i as nat, |_i: int| false),
            decreases length - i,
        {
            bits.push(false);
            i = i + 1;
        }
        Self::from_bools(bits)
    }

    /// The number of bits.
    pub fn len(&self) -> (r: usize)
        ensures
            r == self@.len(),
    {
        proof {
            use_type_invariant(self);
        }
        self.length
    }

    /// The bit at position `i`.
    pub fn get_bit(&self, i: usize) -> (r: bool)
        requires
            i < self@.len(),
        ensures
            r == self@[i as int],
    {
        proof {
            use_type_invariant(self);
        }
        let _total = self.bits.len();
        self.bits[self.offset + i]
    }

    /// The number of unset bits.
    pub fn unset_bits(&self) -> (r: usize)
        ensures
            r == count_unset(self@),
    {
        proof {
            use_type_invariant(self);
        }
        let total = self.bits.len();
        let mut count: usize = 0;
        let mut i: usize = 0;
        while i < self.length
            invariant
                i <= self.length,
                total == self.bits@.len(),
                self.offset + self.length <= self.bits@.len(),
                count == count_unset(self@.subrange(0, i as int)),
                count <= i,
            decreases self.length - i,
        {
            assert(self@.subrange(0, i + 1).drop_last() =~= self@.subrange(0, i as int));
            assert(self@[i as int] == self.bits@[self.offset + i]);
            if !self.bits[self.offset + i] {
                count = count + 1;
            }
            i = i + 1;
        }
        assert(self@.subrange(0, i as int) =~= self@);
        count
    }

    /// The bits `offset .. offset + length`, sharing the storage.
    pub fn sliced(&self, offset: usize, length: usize) -> (r: Bitmap)
        requires
            offset + length <= self@.len(),
        ensures
            r@ == self@.subrange(offset as int, offset + length),
    {
        proof {
            use_type_invariant(self);
        }
        let _total = self.bits.len();
        let r = Bitmap { bits: share(&self.bits), offset: self.offset + offset, length };
        assert(r@ =~= self@.subrange(offset as int, offset + length));
        r
    }

    /// The bits before `offset` and the bits from `offset` on, sharing the storage.
    pub fn split_at(&self, offset: usize) -> (r: (Bitmap, Bitmap))
        requires
            offset <= self@.len(),
        ensures
            r.0@ == self@.subrange(0, offset as int),
            r.1@ == self@.subrange(offset as int, self@.len() as int),
    {
        let n = self.len();
        let lhs = self.sliced(0, offset);
        let rhs = self.sliced(offset, n - offset);
        (lhs, rhs)
    }
}

impl Clone for Bitmap {
    /// Another bitmap of the same bits, sharing the storage.
    fn clone(&self) -> (r: Self)
        ensures
            r@ == self@,
    {
        let n = self.len();
        let r = self.sliced(0, n);
        assert(r@ =~= self@);
        r
    }
}

} // verus!
