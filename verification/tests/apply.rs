use polars_lite::apply::{
    list_item, output_kind, ApplyError, InferStep, MapColumn, OutputInference, OutputKind,
    RowOutput, RowsOutput, SeriesOutput, TypeTests,
};
use polars_lite::frame::{get_iters, get_iters_skip, DataFrame};

#[test]
fn inference_skips_leading_nones() {
    let mut inf = OutputInference::new(4);
    assert_eq!(inf.next_row(), Some(0));
    assert_eq!(inf.observe(OutputKind::NoneValue), InferStep::Continue);
    assert_eq!(inf.next_row(), Some(1));
    assert_eq!(inf.observe(OutputKind::NoneValue), InferStep::Continue);
    assert_eq!(inf.observe(OutputKind::Int), InferStep::Dispatch(OutputKind::Int, 2));
}

#[test]
fn inference_errors() {
    let mut inf = OutputInference::new(2);
    assert_eq!(
        inf.observe(OutputKind::ListOrTuple),
        InferStep::Fail(ApplyError::ListOutputInvalid)
    );
    assert_eq!(inf.observe(OutputKind::Other), InferStep::Fail(ApplyError::UndeterminedOutput));
    let mut all_none = OutputInference::new(1);
    assert_eq!(all_none.observe(OutputKind::NoneValue), InferStep::Continue);
    assert_eq!(all_none.next_row(), None);
    assert_eq!(all_none.finish(), ApplyError::UndeterminedOutput);
}

#[test]
fn column_with_first_value() {
    let mut col = MapColumn::begin(2, Some(true), 5);
    let mut row = col.next_row();
    assert_eq!(row, Some(3));
    let results = [Some(false), None];
    for r in results {
        col = col.push(r);
        row = col.next_row();
    }
    assert_eq!(row, None);
    let out = col.finish();
    assert_eq!(out.name, "map");
    assert_eq!(out.values, vec![None, None, Some(true), Some(false), None]);
}

#[test]
fn column_without_first_value_calls_that_row_again() {
    let mut col = MapColumn::<i64>::begin(1, None, 3);
    assert_eq!(col.next_row(), Some(1));
    col = col.push(Some(4));
    col = col.push(Some(5));
    assert_eq!(col.next_row(), None);
    assert_eq!(col.finish().values, vec![None, Some(4), Some(5)]);
}

#[test]
fn column_all_null() {
    let col = MapColumn::<String>::begin(3, None, 3);
    assert_eq!(col.next_row(), None);
    let out = col.finish();
    assert_eq!(out.name, "map");
    assert_eq!(out.values, vec![None, None, None]);
}

#[test]
fn column_all_null_ignores_first_value() {
    let col = MapColumn::begin(3, Some(1), 3);
    assert_eq!(col.next_row(), None);
    let out = col.finish();
    assert_eq!(out.name, "map");
    assert_eq!(out.values, vec![None, None, None]);
}

#[test]
fn list_items() {
    assert_eq!(list_item(SeriesOutput::Series(3)), Ok(Some(3)));
    assert_eq!(list_item::<i32>(SeriesOutput::NoneValue), Ok(None));
    assert_eq!(list_item::<i32>(SeriesOutput::Other), Err(ApplyError::NotASeries));
}

#[test]
fn rows_collect_and_infer() {
    let mut rows = RowsOutput::begin(1, vec![1, 2], 1, 4);
    assert_eq!(rows.null_row_width(), 2);
    assert_eq!(rows.next_row(), Some(2));
    rows = rows.push(RowOutput::NoneValue).ok().unwrap();
    assert_eq!(rows.schema_rows(), &[Some(vec![1, 2]), None]);
    rows = rows.push(RowOutput::Tuple(vec![5, 6])).ok().unwrap();
    assert_eq!(rows.next_row(), None);
    assert_eq!(rows.schema_rows(), &[Some(vec![1, 2]), None]);
    assert_eq!(rows.finish(), vec![None, Some(vec![1, 2]), None, Some(vec![5, 6])]);
}

#[test]
fn rows_reject_non_tuples() {
    let rows = RowsOutput::begin(0, vec![1], 10, 2);
    assert_eq!(rows.push(RowOutput::Other).err(), Some(ApplyError::ExpectedTuple));
}

#[test]
fn frame_rows_and_cursors() {
    assert!(DataFrame::new(vec![vec![1, 2], vec![3]], 2).is_none());
    let df = DataFrame::new(vec![vec![1, 2, 3], vec![4, 5, 6]], 3).unwrap();
    assert_eq!(df.height(), 3);
    assert_eq!(df.num_columns(), 2);
    assert_eq!(df.row(1), vec![&2, &5]);
    let mut all = get_iters(&df);
    assert_eq!(all.next(), Some(vec![&1, &4]));
    let mut skipped = get_iters_skip(&df, 2);
    assert_eq!(skipped.next(), Some(vec![&3, &6]));
    assert_eq!(skipped.next(), None);
}

fn tests_none() -> TypeTests {
    TypeTests {
        is_none: false,
        is_bool: false,
        is_float: false,
        is_int: false,
        is_str: false,
        has_series: false,
        converts_to_row: false,
        is_list_or_tuple: false,
    }
}

#[test]
fn output_kinds_in_order() {
    assert_eq!(output_kind(&tests_none()), OutputKind::Other);
    assert_eq!(output_kind(&TypeTests { is_bool: true, is_int: true, ..tests_none() }), OutputKind::Bool);
    assert_eq!(output_kind(&TypeTests { is_int: true, ..tests_none() }), OutputKind::Int);
    assert_eq!(output_kind(&TypeTests { is_float: true, ..tests_none() }), OutputKind::Float);
    assert_eq!(output_kind(&TypeTests { is_str: true, ..tests_none() }), OutputKind::Str);
    assert_eq!(
        output_kind(&TypeTests { has_series: true, converts_to_row: true, ..tests_none() }),
        OutputKind::Series
    );
    assert_eq!(
        output_kind(&TypeTests { converts_to_row: true, is_list_or_tuple: true, ..tests_none() }),
        OutputKind::Row
    );
    assert_eq!(
        output_kind(&TypeTests { is_list_or_tuple: true, ..tests_none() }),
        OutputKind::ListOrTuple
    );
    assert_eq!(output_kind(&TypeTests { is_none: true, is_str: true, ..tests_none() }), OutputKind::NoneValue);
}
