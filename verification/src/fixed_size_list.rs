//! An array whose every slot is either null or a list of exactly `size` child items.

use vstd::prelude::*;
use vstd::arithmetic::div_mod::{
    lemma_fundamental_div_mod,
    lemma_mod_multiples_basic,
    lemma_div_multiples_vanish,
};
use vstd::arithmetic::mul::lemma_mul_is_commutative;
use crate::array::{DynArray, new_empty_array, new_null_array};
use crate::bitmap::{Bitmap, count_unset, lemma_count_unset_zero};
use crate::datatypes::{
    ArrowDataType,
    Field,
    logical_type,
    same_dtype,
    shape,
    lemma_same_dtype_reflexive,
    lemma_same_dtype_is_structural,
};

verus! {

/// Why a fixed-size list array could not be built.
#[derive(Debug, PartialEq, Eq, Structural, Clone, Copy)]
pub enum FixedSizeListError {
    /// The data type is not a fixed-size list.
    ExpectedFixedSizeList,
    /// The child field's type differs from the values' type.
    ChildTypeMismatch,
    /// The number of values is not a multiple of the list size.
    ValuesNotMultipleOfSize,
    /// The number of values divided by the size differs from the given length.
    LengthMismatch,
    /// A list size of zero was given together with values.
    ZeroWidthWithValues,
    /// The validity mask's length differs from the given length.
    ValidityLengthMismatch,
}

/// The child field and list size of a fixed-size list type, seen through extension types.
pub open spec fn child_and_size(dt: ArrowDataType) -> Option<(Field, usize)> {
    match logical_type(dt) {
        ArrowDataType::FixedSizeList(f, s) => Some((*f, s)),
        _ => None,
    }
}

/// The list size of a fixed-size list type (zero for any other type).
pub open spec fn list_size(dt: ArrowDataType) -> usize {
    match child_and_size(dt) {
        Some((_, s)) => s,
        None => 0,
    }
}

/// Whether a fixed-size list type's child field has the given type.
pub open spec fn child_has_dtype(dt: ArrowDataType, values_dtype: ArrowDataType) -> bool {
    match child_and_size(dt) {
        Some((f, _)) => same_dtype(f.dtype, values_dtype),
        None => false,
    }
}

/// The first check that building an array from these parts fails, if any.
pub open spec fn try_new_error(
    dtype: ArrowDataType,
    length: nat,
    values_dtype: ArrowDataType,
    values_len: nat,
    validity_len: Option<nat>,
) -> Option<FixedSizeListError> {
    match child_and_size(dtype) {
        None => Some(FixedSizeListError::ExpectedFixedSizeList),
        Some((child, size)) => if !same_dtype(child.dtype, values_dtype) {
            Some(FixedSizeListError::ChildTypeMismatch)
        } else if size != 0 && values_len % (size as nat) != 0 {
            Some(FixedSizeListError::ValuesNotMultipleOfSize)
        } else if size != 0 && values_len / (size as nat) != length {
            Some(FixedSizeListError::LengthMismatch)
        } else if size == 0 && values_len != 0 {
            Some(FixedSizeListError::ZeroWidthWithValues)
        } else if validity_len is Some && validity_len->0 != length {
            Some(FixedSizeListError::ValidityLengthMismatch)
        } else {
            None
        },
    }
}

/// The bits of an optional bitmap.
pub open spec fn opt_bits(validity: Option<Bitmap>) -> Option<Seq<bool>> {
    match validity {
        Some(b) => Some(b@),
        None => None,
    }
}

/// The length of an optional bitmap.
pub open spec fn opt_len(validity: Option<Bitmap>) -> Option<nat> {
    match validity {
        Some(b) => Some(b@.len()),
        None => None,
    }
}

/// The abstract content of a fixed-size list array.
pub struct FixedSizeListView {
    pub size: nat,
    pub length: nat,
    pub dtype: ArrowDataType,
    pub values_dtype: ArrowDataType,
    pub values: Seq<Option<i64>>,
    pub validity: Option<Seq<bool>>,
}

impl FixedSizeListView {
    /// The structural invariant: the type describes the child values and their count.
    pub open spec fn wf(self) -> bool {
        &&& child_and_size(self.dtype) is Some
        &&& list_size(self.dtype) == self.size
        &&& child_has_dtype(self.dtype, self.values_dtype)
        &&& self.values.len() == self.length * self.size
        &&& self.validity is Some ==> self.validity->0.len() == self.length
    }

    /// Whether slot `i` is valid (not null).
    pub open spec fn is_valid(self, i: int) -> bool {
        match self.validity {
            None => true,
            Some(bits) => bits[i],
        }
    }

    /// The child items of slot `i`.
    pub open spec fn list_at(self, i: int) -> Seq<Option<i64>> {
        self.values.subrange(i * self.size, i * self.size + self.size)
    }

    /// The slots: `None` for a null slot, the list otherwise.
    pub open spec fn logical(self) -> Seq<Option<Seq<Option<i64>>>> {
        Seq::new(
            self.length,
            |i: int|
                if self.is_valid(i) {
                    Some(self.list_at(i))
                } else {
                    None
                },
        )
    }

    /// The view after slicing to `offset .. offset + length`: an all-valid mask is dropped.
    pub open spec fn sliced(self, offset: nat, length: nat) -> FixedSizeListView {
        FixedSizeListView {
            size: self.size,
            length,
            dtype: self.dtype,
            values_dtype: self.values_dtype,
            values: self.values.subrange((offset * self.size) as int, ((offset + length) * self.size) as int),
            validity: match self.validity {
                None => None,
                Some(bits) => {
                    let s = bits.subrange(offset as int, (offset + length) as int);
                    if count_unset(s) > 0 {
                        Some(s)
                    } else {
                        None
                    }
                },
            },
        }
    }

    /// The first `offset` slots.
    pub open spec fn split_lhs(self, offset: nat) -> FixedSizeListView {
        FixedSizeListView {
            size: self.size,
            length: offset,
            dtype: self.dtype,
            values_dtype: self.values_dtype,
            values: self.values.subrange(0, (offset * self.size) as int),
            validity: match self.validity {
                None => None,
                Some(bits) => Some(bits.subrange(0, offset as int)),
            },
        }
    }

    /// The slots from `offset` on.
    pub open spec fn split_rhs(self, offset: nat) -> FixedSizeListView {
        FixedSizeListView {
            size: self.size,
            length: (self.length - offset) as nat,
            dtype: self.dtype,
            values_dtype: self.values_dtype,
            values: self.values.subrange((offset * self.size) as int, self.values.len() as int),
            validity: match self.validity {
                None => None,
                Some(bits) => Some(bits.subrange(offset as int, bits.len() as int)),
            },
        }
    }
}

/// For a positive size, a count is a whole multiple `length` of the size exactly when
/// dividing leaves no remainder and gives `length`.
pub proof fn lemma_exact_division(len: int, size: int, length: int)
    requires
        size > 0,
        len >= 0,
        length >= 0,
    ensures
        (len % size == 0 && len / size == length) <==> len == length * size,
{
    lemma_fundamental_div_mod(len, size);
    lemma_mul_is_commutative(size, len / size);
    lemma_mul_is_commutative(size, length);
    if len == length * size {
        lemma_mod_multiples_basic(length, size);
        lemma_div_multiples_vanish(length, size);
    }
}

/// The items of slot `i` of `length` slots of `size` items lie within the values.
pub proof fn lemma_slot_bounds(i: int, size: int, length: int)
    requires
        0 <= i < length,
        size >= 0,
    ensures
        0 <= i * size,
        i * size + size <= length * size,
{
    assert(0 <= i * size) by (nonlinear_arith)
        requires
            0 <= i,
            size >= 0,
    ;
    assert(i * size + size <= length * size) by (nonlinear_arith)
        requires
            i + 1 <= length,
            size >= 0,
    ;
}

/// A list array: each slot is null or a list of exactly `size` items of the child type.
pub struct FixedSizeListArray {
    size: usize,
    length: usize,
    dtype: ArrowDataType,
    values: DynArray,
    validity: Option<Bitmap>,
}

impl View for FixedSizeListArray {
    type V = FixedSizeListView;

    closed spec fn view(&self) -> FixedSizeListView {
        FixedSizeListView {
            size: self.size as nat,
            length: self.length as nat,
            dtype: self.dtype,
            values_dtype: self.values.data_type(),
            values: self.values@,
            validity: opt_bits(self.validity),
        }
    }
}

impl Clone for FixedSizeListArray {
    /// A copy of the array.
    fn clone(&self) -> (r: Self)
        ensures
            r@ == self@,
    {
        proof {
            use_type_invariant(self);
        }
        let validity = match &self.validity {
            Some(b) => Some(b.clone()),
            None => None,
        };
        FixedSizeListArray {
            size: self.size,
            length: self.length,
            dtype: self.dtype.clone(),
            values: self.values.clone(),
            validity,
        }
    }
}

impl FixedSizeListArray {
    #[verifier::type_invariant]
    closed spec fn inv(self) -> bool {
        self@.wf()
    }

    /// Creates a new array from its type, length, child values and validity.
    ///
    /// Fails exactly when `try_new_error` names a failing check, and with that error.
    pub fn try_new(
        dtype: ArrowDataType,
        length: usize,
        values: DynArray,
        validity: Option<Bitmap>,
    ) -> (r: Result<Self, FixedSizeListError>)
        ensures
            match r {
                Ok(a) => {
                    &&& try_new_error(
                        dtype,
                        length as nat,
                        values.data_type(),
                        values@.len(),
                        opt_len(validity),
                    ) is None
                    &&& a@.size == list_size(dtype)
                    &&& a@.length == length
                    &&& a@.dtype == dtype
                    &&& a@.values_dtype == values.data_type()
                    &&& a@.values == values@
                    &&& a@.validity == opt_bits(validity)
                    &&& a@.wf()
                },
                Err(e) => try_new_error(
                    dtype,
                    length as nat,
                    values.data_type(),
                    values@.len(),
                    opt_len(validity),
                ) == Some(e),
            },
    {
        let size: usize;
        let child_matches: bool;
        match Self::try_child_and_size(&dtype) {
            Ok((child, s)) => {
                size = s;
                child_matches = child.dtype.eq_dtype(values.dtype());
            },
            Err(e) => {
                return Err(e);
            },
        }
        if !child_matches {
            return Err(FixedSizeListError::ChildTypeMismatch);
        }
        let values_len = values.len();
        if !(size == 0 || values_len % size == 0) {
            return Err(FixedSizeListError::ValuesNotMultipleOfSize);
        }
        if !(size == 0 || values_len / size == length) {
            return Err(FixedSizeListError::LengthMismatch);
        }
        if !(size != 0 || values_len == 0) {
            return Err(FixedSizeListError::ZeroWidthWithValues);
        }
        let bad_validity = match &validity {
            Some(v) => v.len() != length,
            None => false,
        };
        if bad_validity {
            return Err(FixedSizeListError::ValidityLengthMismatch);
        }
        proof {
            if size > 0 {
                lemma_exact_division(values_len as int, size as int, length as int);
            }
        }
        Ok(FixedSizeListArray { size, length, dtype, values, validity })
    }

    /// Checks the structural invariant; every array passes.
    pub fn has_invariants(&self) -> (r: bool)
        ensures
            r,
            self@.wf(),
    {
        proof {
            use_type_invariant(self);
        }
        let values_len = self.values.len();
        let has_valid_length = (self.size == 0 && values_len == 0) || (self.size > 0
            && values_len % self.size == 0 && values_len / self.size == self.length);
        let has_valid_validity = match &self.validity {
            Some(v) => v.len() == self.length,
            None => true,
        };
        proof {
            if self.size > 0 {
                lemma_exact_division(values_len as int, self.size as int, self.length as int);
            } else {
                assert(self.length * self.size == 0) by (nonlinear_arith)
                    requires
                        self.size == 0,
                ;
            }
        }
        has_valid_length && has_valid_validity
    }

    /// Like `try_new`, for parts that pass every check.
    pub fn new(
        dtype: ArrowDataType,
        length: usize,
        values: DynArray,
        validity: Option<Bitmap>,
    ) -> (r: Self)
        requires
            try_new_error(dtype, length as nat, values.data_type(), values@.len(), opt_len(validity))
                is None,
        ensures
            r@.size == list_size(dtype),
            r@.length == length,
            r@.dtype == dtype,
            r@.values_dtype == values.data_type(),
            r@.values == values@,
            r@.validity == opt_bits(validity),
            r@.wf(),
    {
        match Self::try_new(dtype, length, values, validity) {
            Ok(a) => a,
            Err(_) => {
                vstd::pervasive::unreached()
            },
        }
    }

    /// The number of child items per slot.
    pub fn size(&self) -> (r: usize)
        ensures
            r == self@.size,
    {
        self.size
    }

    /// The number of slots.
    pub fn len(&self) -> (r: usize)
        ensures
            r == self@.length,
    {
        self.length
    }

    /// The data type of the array.
    pub fn dtype(&self) -> (r: &ArrowDataType)
        ensures
            *r == self@.dtype,
    {
        &self.dtype
    }

    /// The optional validity mask.
    pub fn validity(&self) -> (r: Option<&Bitmap>)
        ensures
            match r {
                Some(b) => self@.validity == Some(b@),
                None => self@.validity is None,
            },
    {
        match &self.validity {
            Some(b) => Some(b),
            None => None,
        }
    }

    /// The child values of all slots, one after the other.
    pub fn values(&self) -> (r: &DynArray)
        ensures
            r@ == self@.values,
            r.data_type() == self@.values_dtype,
    {
        &self.values
    }

    /// An empty array of a fixed-size list type.
    pub fn new_empty(dtype: ArrowDataType) -> (r: Self)
        requires
            child_and_size(dtype) is Some,
        ensures
            r@.length == 0,
            r@.dtype == dtype,
            r@.values.len() == 0,
            r@.validity is None,
            r@.logical() == Seq::<Option<Seq<Option<i64>>>>::empty(),
            r@.wf(),
    {
        let child_dtype = Self::get_child_and_size(&dtype).0.dtype().clone();
        proof {
            lemma_same_dtype_reflexive(child_dtype);
        }
        let values = new_empty_array(child_dtype);
        let r = Self::new(dtype, 0, values, None);
        assert(r@.logical() =~= Seq::<Option<Seq<Option<i64>>>>::empty());
        r
    }

    /// An array of `length` null slots of a fixed-size list type.
    pub fn new_null(dtype: ArrowDataType, length: usize) -> (r: Self)
        requires
            child_and_size(dtype) is Some,
            length * list_size(dtype) <= usize::MAX,
        ensures
            r@.length == length,
            r@.dtype == dtype,
            r@.values == Seq::new((length * r@.size) as nat, |_i: int| None::<i64>),
            r@.validity == Some(Seq::new(length as nat, |_i: int| false)),
            r@.logical() == Seq::new(length as nat, |_i: int| None::<Seq<Option<i64>>>),
            r@.wf(),
    {
        let (field, size) = Self::get_child_and_size(&dtype);
        let child_dtype = field.dtype().clone();
        proof {
            lemma_same_dtype_reflexive(child_dtype);
        }
        let n = length * size;
        let values = new_null_array(child_dtype, n);
        proof {
            if size > 0 {
                lemma_exact_division(n as int, size as int, length as int);
            } else {
                assert(n == 0) by (nonlinear_arith)
                    requires
                        n == length * size,
                        size == 0,
                ;
            }
        }
        let validity = Bitmap::new_zeroed(length);
        assert(opt_len(Some(validity)) == Some(length as nat));
        let r = Self::new(dtype, length, values, Some(validity));
        assert(r@.logical() =~= Seq::new(length as nat, |_i: int| None::<Seq<Option<i64>>>));
        r
    }

    /// The number of null slots: the unset bits of the validity mask, none without one.
    pub fn null_count(&self) -> (r: usize)
        ensures
            r == match self@.validity {
                Some(bits) => count_unset(bits),
                None => 0,
            },
    {
        match &self.validity {
            Some(b) => b.unset_bits(),
            None => 0,
        }
    }

    /// Whether slot `i` is null.
    pub fn is_null(&self, i: usize) -> (r: bool)
        requires
            i < self@.length,
        ensures
            r == !self@.is_valid(i as int),
    {
        proof {
            use_type_invariant(self);
        }
        match &self.validity {
            Some(b) => !b.get_bit(i),
            None => false,
        }
    }

    /// The child items of slot `i`, whether or not the slot is null.
    pub fn value(&self, i: usize) -> (r: DynArray)
        requires
            i < self@.length,
        ensures
            r@ == self@.list_at(i as int),
            r.data_type() == self@.values_dtype,
    {
        proof {
            use_type_invariant(self);
            lemma_slot_bounds(i as int, self.size as int, self.length as int);
        }
        let _n = self.values.len();
        self.values.sliced(i * self.size, self.size)
    }

    /// The child items of slot `i`; the caller keeps `i` below the length.
    pub fn value_unchecked(&self, i: usize) -> (r: DynArray)
        requires
            i < self@.length,
        ensures
            r@ == self@.list_at(i as int),
            r.data_type() == self@.values_dtype,
    {
        self.value(i)
    }

    /// The child items of slot `i`, or `None` where the slot is null.
    pub fn get(&self, i: usize) -> (r: Option<DynArray>)
        requires
            i < self@.length,
        ensures
            r is Some == self@.is_valid(i as int),
            r matches Some(a) ==> a@ == self@.list_at(i as int) && a.data_type() == self@.values_dtype,
            match r {
                Some(a) => self@.logical()[i as int] == Some(a@),
                None => self@.logical()[i as int] is None,
            },
    {
        if !self.is_null(i) {
            Some(self.value_unchecked(i))
        } else {
            None
        }
    }

    /// The child field and list size of a fixed-size list type.
    pub fn try_child_and_size(dtype: &ArrowDataType) -> (r: Result<(&Field, usize), FixedSizeListError>)
        ensures
            match r {
                Ok((f, s)) => child_and_size(*dtype) == Some((*f, s)),
                Err(e) => child_and_size(*dtype) is None && e
                    == FixedSizeListError::ExpectedFixedSizeList,
            },
    {
        match dtype.to_logical_type() {
            ArrowDataType::FixedSizeList(child, size) => Ok((&**child, *size)),
            _ => Err(FixedSizeListError::ExpectedFixedSizeList),
        }
    }

    /// The child field and list size of a type known to be a fixed-size list.
    pub fn get_child_and_size(dtype: &ArrowDataType) -> (r: (&Field, usize))
        requires
            child_and_size(*dtype) is Some,
        ensures
            child_and_size(*dtype) == Some((*r.0, r.1)),
    {
        match Self::try_child_and_size(dtype) {
            Ok(cs) => cs,
            Err(_) => {
                vstd::pervasive::unreached()
            },
        }
    }
}


impl FixedSizeListArray {
    /// Restricts the array to the slots `offset .. offset + length`; a validity mask
    /// with no null slot left is dropped.
    pub fn slice(&mut self, offset: usize, length: usize)
        requires
            offset + length <= old(self)@.length,
        ensures
            final(self)@ == old(self)@.sliced(offset as nat, length as nat),
            final(self)@.logical() == old(self)@.logical().subrange(
                offset as int,
                offset + length,
            ),
            final(self)@.wf(),
    {
        self.slice_unchecked(offset, length)
    }

    /// Restricts the array to the slots `offset .. offset + length`; the caller keeps
    /// the range within the array.
    pub fn slice_unchecked(&mut self, offset: usize, length: usize)
        requires
            offset + length <= old(self)@.length,
        ensures
            final(self)@ == old(self)@.sliced(offset as nat, length as nat),
            final(self)@.logical() == old(self)@.logical().subrange(
                offset as int,
                offset + length,
            ),
            final(self)@.wf(),
    {
        proof {
            use_type_invariant(&*self);
            lemma_slice_logical(self@, offset as nat, length as nat);
        }
        let validity = match &self.validity {
            Some(bitmap) => {
                let sliced = bitmap.sliced(offset, length);
                if sliced.unset_bits() > 0 {
                    Some(sliced)
                } else {
                    None
                }
            },
            None => None,
        };
        let size = self.size;
        let _n = self.values.len();
        proof {
            lemma_range_bounds(offset as int, length as int, size as int, self.length as int);
        }
        let values = self.values.sliced(offset * size, length * size);
        let dtype = self.dtype.clone();
        *self = FixedSizeListArray { size, length, dtype, values, validity };
    }

    /// The array restricted to the slots `offset .. offset + length`.
    pub fn sliced(self, offset: usize, length: usize) -> (r: Self)
        requires
            offset + length <= self@.length,
        ensures
            r@ == self@.sliced(offset as nat, length as nat),
            r@.logical() == self@.logical().subrange(offset as int, offset + length),
            r@.wf(),
    {
        let mut a = self;
        a.slice(offset, length);
        a
    }

    /// The array restricted to the slots `offset .. offset + length`; the caller keeps
    /// the range within the array.
    pub fn sliced_unchecked(self, offset: usize, length: usize) -> (r: Self)
        requires
            offset + length <= self@.length,
        ensures
            r@ == self@.sliced(offset as nat, length as nat),
            r@.logical() == self@.logical().subrange(offset as int, offset + length),
            r@.wf(),
    {
        let mut a = self;
        a.slice_unchecked(offset, length);
        a
    }

    /// Replaces the validity mask, which must have one bit per slot.
    pub fn set_validity(&mut self, validity: Option<Bitmap>)
        requires
            opt_len(validity) matches Some(n) ==> n == old(self)@.length,
        ensures
            final(self)@ == (FixedSizeListView { validity: opt_bits(validity), ..old(self)@ }),
            final(self)@.wf(),
    {
        proof {
            use_type_invariant(&*self);
        }
        let dtype = self.dtype.clone();
        let values = self.values.sliced(0, self.values.len());
        proof {
            assert(values@ =~= self.values@);
        }
        *self = FixedSizeListArray { size: self.size, length: self.length, dtype, values, validity };
    }

    /// The array with the validity mask replaced; the mask must have one bit per slot.
    pub fn with_validity(self, validity: Option<Bitmap>) -> (r: Self)
        requires
            opt_len(validity) matches Some(n) ==> n == self@.length,
        ensures
            r@ == (FixedSizeListView { validity: opt_bits(validity), ..self@ }),
            r@.wf(),
    {
        let mut a = self;
        a.set_validity(validity);
        a
    }

    /// Whether the array can be split at `offset`.
    pub fn check_bound(&self, offset: usize) -> (r: bool)
        ensures
            r == (offset <= self@.length),
    {
        offset <= self.length
    }

    /// The first `offset` slots and the rest, as two arrays; the caller keeps `offset`
    /// within the array.
    pub fn _split_at_unchecked(&self, offset: usize) -> (r: (Self, Self))
        requires
            offset <= self@.length,
        ensures
            r.0@ == self@.split_lhs(offset as nat),
            r.1@ == self@.split_rhs(offset as nat),
            r.0@.logical() + r.1@.logical() == self@.logical(),
            r.0@.wf(),
            r.1@.wf(),
    {
        proof {
            use_type_invariant(self);
            lemma_split_logical(self@, offset as nat);
        }
        let size = self.size;
        let _n = self.values.len();
        proof {
            lemma_range_bounds(0, offset as int, size as int, self.length as int);
        }
        let (lhs_values, rhs_values) = self.values.split_at(offset * size);
        let (lhs_validity, rhs_validity) = match &self.validity {
            Some(b) => {
                let (l, r) = b.split_at(offset);
                (Some(l), Some(r))
            },
            None => (None, None),
        };
        (
            FixedSizeListArray {
                dtype: self.dtype.clone(),
                length: offset,
                values: lhs_values,
                validity: lhs_validity,
                size,
            },
            FixedSizeListArray {
                dtype: self.dtype.clone(),
                length: self.length - offset,
                values: rhs_values,
                validity: rhs_validity,
                size,
            },
        )
    }

    /// The first `offset` slots and the rest, as two arrays.
    pub fn split_at(&self, offset: usize) -> (r: (Self, Self))
        requires
            offset <= self@.length,
        ensures
            r.0@ == self@.split_lhs(offset as nat),
            r.1@ == self@.split_rhs(offset as nat),
            r.0@.logical() + r.1@.logical() == self@.logical(),
            r.0@.wf(),
            r.1@.wf(),
    {
        self._split_at_unchecked(offset)
    }

    /// A fixed-size list type of `size` items of the given type, in a nullable field
    /// named "item".
    pub fn default_datatype(dtype: ArrowDataType, size: usize) -> (r: ArrowDataType)
        ensures
            r matches ArrowDataType::FixedSizeList(f, s) && s == size && f.dtype == dtype
                && f.is_nullable && f.name@ == "item"@,
            list_size(r) == size,
    {
        let field = Box::new(Field::new(String::from_str("item"), dtype, true));
        ArrowDataType::FixedSizeList(field, size)
    }
}

/// Slots `offset .. offset + length` of `total` slots of `size` items cover the items
/// `offset * size .. (offset + length) * size`, within the `total * size` items.
pub proof fn lemma_range_bounds(offset: int, length: int, size: int, total: int)
    requires
        0 <= offset,
        0 <= length,
        0 <= size,
        offset + length <= total,
    ensures
        0 <= offset * size,
        offset * size + length * size == (offset + length) * size,
        (offset + length) * size <= total * size,
        0 <= length * size,
{
    assert(0 <= offset * size && 0 <= length * size) by (nonlinear_arith)
        requires
            0 <= offset,
            0 <= length,
            0 <= size,
    ;
    assert(offset * size + length * size == (offset + length) * size) by (nonlinear_arith);
    assert((offset + length) * size <= total * size) by (nonlinear_arith)
        requires
            offset + length <= total,
            0 <= size,
    ;
}

/// Slicing keeps the structural invariant, and the slots of the sliced array are the
/// slots `offset .. offset + length` of the original.
pub proof fn lemma_slice_logical(v: FixedSizeListView, offset: nat, length: nat)
    requires
        v.wf(),
        offset + length <= v.length,
    ensures
        v.sliced(offset, length).wf(),
        v.sliced(offset, length).logical() == v.logical().subrange(
            offset as int,
            (offset + length) as int,
        ),
{
    let w = v.sliced(offset, length);
    let size = v.size as int;
    lemma_range_bounds(offset as int, length as int, size, v.length as int);
    assert(w.values.len() == length * v.size);
    if let Some(bits) = v.validity {
        let s = bits.subrange(offset as int, (offset + length) as int);
        lemma_count_unset_zero(s);
    }
    assert forall|i: int| 0 <= i < length implies #[trigger] w.logical()[i] == v.logical()[offset
        + i] by {
        lemma_slot_bounds(i, size, length as int);
        lemma_slot_bounds(offset + i, size, v.length as int);
        assert((offset + i) * size == offset * size + i * size) by (nonlinear_arith);
        assert(w.list_at(i) =~= v.list_at(offset + i));
        if let Some(bits) = v.validity {
            let s = bits.subrange(offset as int, (offset + length) as int);
            assert(s[i] == bits[offset + i]);
        }
        assert(w.is_valid(i) == v.is_valid(offset + i));
    }
    assert(w.logical() =~= v.logical().subrange(offset as int, (offset + length) as int));
}

/// Splitting keeps the structural invariant in both parts, and their slots, one after
/// the other, are the slots of the original.
pub proof fn lemma_split_logical(v: FixedSizeListView, offset: nat)
    requires
        v.wf(),
        offset <= v.length,
    ensures
        v.split_lhs(offset).wf(),
        v.split_rhs(offset).wf(),
        v.split_lhs(offset).logical() + v.split_rhs(offset).logical() == v.logical(),
{
    let l = v.split_lhs(offset);
    let r = v.split_rhs(offset);
    let size = v.size as int;
    lemma_range_bounds(0, offset as int, size, v.length as int);
    lemma_range_bounds(offset as int, (v.length - offset) as int, size, v.length as int);
    assert forall|i: int| 0 <= i < v.length implies #[trigger] (l.logical() + r.logical())[i]
        == v.logical()[i] by {
        lemma_slot_bounds(i, size, v.length as int);
        if i < offset {
            lemma_slot_bounds(i, size, offset as int);
            assert(l.list_at(i) =~= v.list_at(i));
            assert(l.is_valid(i) == v.is_valid(i));
        } else {
            let j = i - offset;
            lemma_slot_bounds(j, size, (v.length - offset) as int);
            assert(i * size == offset * size + j * size) by (nonlinear_arith)
                requires
                    j == i - offset,
            ;
            assert(r.list_at(j) =~= v.list_at(i));
            assert(r.is_valid(j) == v.is_valid(i));
        }
    }
    assert(l.logical() + r.logical() =~= v.logical());
}

/// An array's child field has exactly the type of its values, at every level.
pub proof fn lemma_child_type_is_values_type(v: FixedSizeListView)
    requires
        v.wf(),
    ensures
        child_and_size(v.dtype) matches Some((f, _)) && shape(f.dtype) == shape(v.values_dtype),
{
    let (f, _) = child_and_size(v.dtype).unwrap();
    lemma_same_dtype_is_structural(f.dtype, v.values_dtype);
}

/// Building succeeds only where the child field has exactly the type of the values.
pub proof fn lemma_try_new_checks_child_type(
    dtype: ArrowDataType,
    length: nat,
    values_dtype: ArrowDataType,
    values_len: nat,
    validity_len: Option<nat>,
)
    requires
        try_new_error(dtype, length, values_dtype, values_len, validity_len) is None,
    ensures
        child_and_size(dtype) matches Some((f, _)) && shape(f.dtype) == shape(values_dtype),
{
    let (f, _) = child_and_size(dtype).unwrap();
    lemma_same_dtype_is_structural(f.dtype, values_dtype);
}

} // verus!
