use polars_lite::array::{new_null_array, DynArray};
use polars_lite::bitmap::Bitmap;
use polars_lite::datatypes::{ArrowDataType, ExtensionType, Field};
use polars_lite::fixed_size_list::{FixedSizeListArray, FixedSizeListError};

fn item_field(dtype: ArrowDataType) -> Box<Field> {
    Box::new(Field::new("item".to_string(), dtype, true))
}

fn list_type(size: usize) -> ArrowDataType {
    ArrowDataType::FixedSizeList(item_field(ArrowDataType::Int64), size)
}

fn ints(values: &[Option<i64>]) -> DynArray {
    DynArray::from_slots(ArrowDataType::Int64, values.to_vec())
}

fn slots(a: &DynArray) -> Vec<Option<i64>> {
    (0..a.len()).map(|i| a.get(i)).collect()
}

fn bits(b: &Bitmap) -> Vec<bool> {
    (0..b.len()).map(|i| b.get_bit(i)).collect()
}

/// Slots of the array: None for a null slot, the items otherwise.
fn logical(a: &FixedSizeListArray) -> Vec<Option<Vec<Option<i64>>>> {
    (0..a.len()).map(|i| a.get(i).map(|v| slots(&v))).collect()
}

fn six() -> DynArray {
    ints(&[Some(1), Some(2), Some(3), None, Some(5), Some(6)])
}

#[test]
fn try_new_builds_array() {
    let validity = Bitmap::from_bools(vec![true, false, true]);
    let a = FixedSizeListArray::try_new(list_type(2), 3, six(), Some(validity)).unwrap();
    assert_eq!(a.size(), 2);
    assert_eq!(a.len(), 3);
    assert!(a.has_invariants());
    assert_eq!(slots(a.values()), vec![Some(1), Some(2), Some(3), None, Some(5), Some(6)]);
    assert_eq!(bits(a.validity().unwrap()), vec![true, false, true]);
    assert_eq!(a.null_count(), 1);
    assert_eq!(
        logical(&a),
        vec![Some(vec![Some(1), Some(2)]), None, Some(vec![Some(5), Some(6)])]
    );
}

#[test]
fn try_new_rejects_other_type() {
    let r = FixedSizeListArray::try_new(ArrowDataType::Int64, 3, six(), None);
    assert_eq!(r.err(), Some(FixedSizeListError::ExpectedFixedSizeList));
}

#[test]
fn try_new_rejects_child_type_mismatch() {
    let values = DynArray::from_slots(ArrowDataType::Int32, vec![None, None]);
    let r = FixedSizeListArray::try_new(list_type(2), 1, values, None);
    assert_eq!(r.err(), Some(FixedSizeListError::ChildTypeMismatch));
}

#[test]
fn try_new_rejects_values_not_multiple() {
    let r = FixedSizeListArray::try_new(list_type(4), 1, six(), None);
    assert_eq!(r.err(), Some(FixedSizeListError::ValuesNotMultipleOfSize));
}

#[test]
fn try_new_rejects_length_mismatch() {
    let r = FixedSizeListArray::try_new(list_type(2), 2, six(), None);
    assert_eq!(r.err(), Some(FixedSizeListError::LengthMismatch));
}

#[test]
fn try_new_rejects_zero_width_with_values() {
    let r = FixedSizeListArray::try_new(list_type(0), 6, six(), None);
    assert_eq!(r.err(), Some(FixedSizeListError::ZeroWidthWithValues));
}

#[test]
fn try_new_rejects_validity_length() {
    let validity = Bitmap::from_bools(vec![true, true]);
    let r = FixedSizeListArray::try_new(list_type(2), 3, six(), Some(validity));
    assert_eq!(r.err(), Some(FixedSizeListError::ValidityLengthMismatch));
}

#[test]
fn try_new_zero_width_any_length() {
    let a = FixedSizeListArray::try_new(list_type(0), 5, ints(&[]), None).unwrap();
    assert_eq!(a.len(), 5);
    assert_eq!(logical(&a), vec![Some(vec![]); 5]);
}

#[test]
fn try_new_sees_through_extension_type() {
    let ext = ArrowDataType::Extension(Box::new(ExtensionType {
        name: "pairs".to_string(),
        inner: list_type(3),
        metadata: None,
    }));
    let a = FixedSizeListArray::try_new(ext, 2, six(), None).unwrap();
    assert_eq!(a.size(), 3);
    assert_eq!(
        logical(&a),
        vec![Some(vec![Some(1), Some(2), Some(3)]), Some(vec![None, Some(5), Some(6)])]
    );
}

#[test]
fn new_empty_has_no_slots() {
    let a = FixedSizeListArray::new_empty(list_type(3));
    assert_eq!(a.len(), 0);
    assert_eq!(a.values().len(), 0);
    assert!(a.validity().is_none());
    assert_eq!(a.values().dtype().eq_dtype(&ArrowDataType::Int64), true);
}

#[test]
fn new_null_is_all_null() {
    let a = FixedSizeListArray::new_null(list_type(2), 3);
    assert_eq!(a.len(), 3);
    assert_eq!(slots(a.values()), vec![None; 6]);
    assert_eq!(bits(a.validity().unwrap()), vec![false; 3]);
    assert_eq!(logical(&a), vec![None, None, None]);
    assert_eq!(a.null_count(), 3);
    for i in 0..3 {
        assert!(a.is_null(i));
    }
}

#[test]
fn value_ignores_validity() {
    let validity = Bitmap::from_bools(vec![true, false, true]);
    let a = FixedSizeListArray::new(list_type(2), 3, six(), Some(validity));
    assert_eq!(slots(&a.value(1)), vec![Some(3), None]);
    assert_eq!(slots(&a.value_unchecked(2)), vec![Some(5), Some(6)]);
    assert!(a.get(1).is_none());
    assert_eq!(slots(&a.get(0).unwrap()), vec![Some(1), Some(2)]);
}

#[test]
fn slice_keeps_slots_in_range() {
    let validity = Bitmap::from_bools(vec![true, false, true]);
    let mut a = FixedSizeListArray::new(list_type(2), 3, six(), Some(validity));
    let before = logical(&a);
    a.slice(1, 2);
    assert_eq!(a.len(), 2);
    assert_eq!(logical(&a), before[1..3].to_vec());
    assert_eq!(slots(a.values()), vec![Some(3), None, Some(5), Some(6)]);
    assert_eq!(bits(a.validity().unwrap()), vec![false, true]);
}

#[test]
fn slice_drops_all_valid_mask() {
    let validity = Bitmap::from_bools(vec![true, false, true]);
    let a = FixedSizeListArray::new(list_type(2), 3, six(), Some(validity));
    let b = a.sliced(2, 1);
    assert!(b.validity().is_none());
    assert_eq!(logical(&b), vec![Some(vec![Some(5), Some(6)])]);
    let c = FixedSizeListArray::new(list_type(2), 3, six(), None).sliced_unchecked(0, 0);
    assert_eq!(c.len(), 0);
}

#[test]
fn split_at_concatenates_back() {
    let validity = Bitmap::from_bools(vec![false, true, true]);
    let a = FixedSizeListArray::new(list_type(2), 3, six(), Some(validity));
    assert!(a.check_bound(3));
    assert!(!a.check_bound(4));
    let (l, r) = a.split_at(1);
    assert_eq!(l.len(), 1);
    assert_eq!(r.len(), 2);
    let mut joined = logical(&l);
    joined.extend(logical(&r));
    assert_eq!(joined, logical(&a));
    assert_eq!(bits(l.validity().unwrap()), vec![false]);
    assert_eq!(bits(r.validity().unwrap()), vec![true, true]);
    let (l2, r2) = a._split_at_unchecked(3);
    assert_eq!(l2.len(), 3);
    assert_eq!(r2.len(), 0);
}

#[test]
fn with_validity_replaces_mask() {
    let a = FixedSizeListArray::new(list_type(2), 3, six(), None);
    let b = a.with_validity(Some(Bitmap::from_bools(vec![false, false, true])));
    assert_eq!(logical(&b), vec![None, None, Some(vec![Some(5), Some(6)])]);
    let mut c = b;
    c.set_validity(None);
    assert_eq!(logical(&c).iter().filter(|s| s.is_some()).count(), 3);
}

#[test]
fn default_datatype_names_item() {
    let dt = FixedSizeListArray::default_datatype(ArrowDataType::Boolean, 4);
    match &dt {
        ArrowDataType::FixedSizeList(f, s) => {
            assert_eq!(*s, 4);
            assert_eq!(f.name, "item");
            assert!(f.is_nullable);
            assert!(f.dtype.eq_dtype(&ArrowDataType::Boolean));
        },
        _ => panic!("not a fixed-size list type"),
    }
    let (child, size) = FixedSizeListArray::get_child_and_size(&dt);
    assert_eq!(size, 4);
    assert_eq!(child.name, "item");
    assert!(FixedSizeListArray::try_child_and_size(&ArrowDataType::Utf8View).is_err());
}

#[test]
fn bitmap_counts_unset_bits() {
    let b = Bitmap::from_bools(vec![true, false, false, true]);
    assert_eq!(b.unset_bits(), 2);
    assert_eq!(Bitmap::new_zeroed(3).unset_bits(), 3);
    assert_eq!(bits(&b.sliced(1, 2)), vec![false, false]);
    let (l, r) = b.split_at(3);
    assert_eq!(bits(&l), vec![true, false, false]);
    assert_eq!(bits(&r), vec![true]);
}

#[test]
fn null_array_and_dtype_equality() {
    let a = new_null_array(ArrowDataType::UInt32, 2);
    assert_eq!(slots(&a), vec![None, None]);
    assert!(list_type(2).eq_dtype(&list_type(2).clone()));
    assert!(!list_type(2).eq_dtype(&list_type(3)));
    let ext = ArrowDataType::Extension(Box::new(ExtensionType {
        name: "e".to_string(),
        inner: ArrowDataType::Int64,
        metadata: Some("m".to_string()),
    }));
    assert!(ext.to_logical_type().eq_dtype(&ArrowDataType::Int64));
    assert!(!ext.eq_dtype(&ArrowDataType::Int64));
}

#[test]
fn clone_keeps_slots() {
    let validity = Bitmap::from_bools(vec![true, false, true]);
    let a = FixedSizeListArray::new(list_type(2), 3, six(), Some(validity));
    let b = a.clone();
    assert_eq!(logical(&a), logical(&b));
    assert_eq!(b.size(), 2);
    assert!(b.dtype().eq_dtype(&list_type(2)));
}
