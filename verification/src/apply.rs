//! The decisions of applying a row-wise function to a table: inferring the output type
//! from the first non-null result, and assembling the output column or rows.
//!
//! Calling the function is the caller's part: it hands each call's result in.

use vstd::prelude::*;

verus! {

/// What a call of the function returned, as far as choosing the output type goes.
#[derive(Debug, PartialEq, Eq, Structural, Clone, Copy)]
pub enum OutputKind {
    NoneValue,
    Bool,
    Float,
    Int,
    Str,
    /// An object that carries a series.
    Series,
    /// A tuple that converts to a row of values.
    Row,
    /// A list, or a tuple that does not convert to a row.
    ListOrTuple,
    Other,
}

/// The outcomes of the type tests on a call's result.
pub struct TypeTests {
    pub is_none: bool,
    pub is_bool: bool,
    pub is_float: bool,
    pub is_int: bool,
    pub is_str: bool,
    /// The result carries a series.
    pub has_series: bool,
    /// The result converts to a row of values.
    pub converts_to_row: bool,
    pub is_list_or_tuple: bool,
}

/// The kind of a result: the first test that holds, in the order None, bool, float,
/// int, string, series, row, list or tuple (a bool is also an int, so it comes first).
pub open spec fn kind_of(t: TypeTests) -> OutputKind {
    if t.is_none {
        OutputKind::NoneValue
    } else if t.is_bool {
        OutputKind::Bool
    } else if t.is_float {
        OutputKind::Float
    } else if t.is_int {
        OutputKind::Int
    } else if t.is_str {
        OutputKind::Str
    } else if t.has_series {
        OutputKind::Series
    } else if t.converts_to_row {
        OutputKind::Row
    } else if t.is_list_or_tuple {
        OutputKind::ListOrTuple
    } else {
        OutputKind::Other
    }
}

/// The kind of a result, from the outcomes of its type tests.
pub fn output_kind(t: &TypeTests) -> (r: OutputKind)
    ensures
        r == kind_of(*t),
{
    if t.is_none {
        OutputKind::NoneValue
    } else if t.is_bool {
        OutputKind::Bool
    } else if t.is_float {
        OutputKind::Float
    } else if t.is_int {
        OutputKind::Int
    } else if t.is_str {
        OutputKind::Str
    } else if t.has_series {
        OutputKind::Series
    } else if t.converts_to_row {
        OutputKind::Row
    } else if t.is_list_or_tuple {
        OutputKind::ListOrTuple
    } else {
        OutputKind::Other
    }
}

/// Why applying the function failed.
#[derive(Debug, PartialEq, Eq, Structural, Clone, Copy)]
pub enum ApplyError {
    /// The function returned a list; a series is expected for list output.
    ListOutputInvalid,
    /// No call returned a value of a known output type.
    UndeterminedOutput,
    /// A call returned neither a series nor None where series were expected.
    NotASeries,
    /// A call returned neither a tuple nor None where rows were expected.
    ExpectedTuple,
}

/// What to do after a call's result was seen during output type inference.
#[derive(Debug, PartialEq, Eq, Structural, Clone, Copy)]
pub enum InferStep {
    /// The result was None: call the function on the next row.
    Continue,
    /// The output type is known: build the output of that kind, with the given number
    /// of leading null results.
    Dispatch(OutputKind, usize),
    /// Stop with an error.
    Fail(ApplyError),
}

/// The step taken on a result of the given kind after `null_count` None results.
pub open spec fn infer_step(kind: OutputKind, null_count: usize) -> InferStep {
    match kind {
        OutputKind::NoneValue => InferStep::Continue,
        OutputKind::ListOrTuple => InferStep::Fail(ApplyError::ListOutputInvalid),
        OutputKind::Other => InferStep::Fail(ApplyError::UndeterminedOutput),
        _ => InferStep::Dispatch(kind, null_count),
    }
}

/// Output type inference: the function is called on rows 0, 1, ... until a call
/// returns something other than None.
pub struct OutputInference {
    height: usize,
    null_count: usize,
}

impl OutputInference {
    #[verifier::type_invariant]
    closed spec fn inv(self) -> bool {
        self.null_count <= self.height
    }

    /// The number of rows of the table.
    pub closed spec fn rows(self) -> nat {
        self.height as nat
    }

    /// The number of None results so far; it is also the row called next.
    pub closed spec fn nulls(self) -> nat {
        self.null_count as nat
    }

    /// Starts inference over a table of `height` rows.
    pub fn new(height: usize) -> (r: OutputInference)
        ensures
            r.rows() == height,
            r.nulls() == 0,
    {
        OutputInference { height, null_count: 0 }
    }

    /// The row to call the function on next, if any is left.
    pub fn next_row(&self) -> (r: Option<usize>)
        ensures
            if self.nulls() < self.rows() {
                r == Some(self.nulls() as usize)
            } else {
                r is None
            },
    {
        proof {
            use_type_invariant(self);
        }
        if self.null_count < self.height {
            Some(self.null_count)
        } else {
            None
        }
    }

    /// Takes in the result of the call on the next row.
    pub fn observe(&mut self, kind: OutputKind) -> (r: InferStep)
        requires
            old(self).nulls() < old(self).rows(),
        ensures
            r == infer_step(kind, old(self).nulls() as usize),
            kind == OutputKind::NoneValue ==> r == InferStep::Continue,
            (kind != OutputKind::NoneValue && kind != OutputKind::ListOrTuple && kind
                != OutputKind::Other) ==> r == InferStep::Dispatch(kind, old(self).nulls() as usize),
            final(self).rows() == old(self).rows(),
            final(self).nulls() == old(self).nulls() + if kind == OutputKind::NoneValue {
                1nat
            } else {
                0nat
            },
    {
        match kind {
            OutputKind::NoneValue => {
                self.null_count = self.null_count + 1;
                InferStep::Continue
            },
            OutputKind::ListOrTuple => InferStep::Fail(ApplyError::ListOutputInvalid),
            OutputKind::Other => InferStep::Fail(ApplyError::UndeterminedOutput),
            _ => InferStep::Dispatch(kind, self.null_count),
        }
    }

    /// The error once every row gave None.
    pub fn finish(&self) -> (r: ApplyError)
        ensures
            r == ApplyError::UndeterminedOutput,
    {
        ApplyError::UndeterminedOutput
    }
}

/// `n` null results.
pub open spec fn nulls<T>(n: nat) -> Seq<Option<T>> {
    Seq::new(n, |_i: int| None::<T>)
}

/// The start of an output column: the leading nulls and the first value, if known.
pub open spec fn column_prefix<T>(init_null_count: nat, first_value: Option<T>) -> Seq<Option<T>> {
    nulls(init_null_count) + match first_value {
        Some(v) => seq![Some(v)],
        None => Seq::<Option<T>>::empty(),
    }
}

/// The rows still to be called once the leading nulls and the first value are known.
pub open spec fn first_pending_row<T>(init_null_count: nat, first_value: Option<T>) -> nat {
    init_null_count + if first_value is Some {
        1nat
    } else {
        0nat
    }
}

/// The name of every output column of a row-wise function.
pub open spec fn output_name() -> Seq<char> {
    "map"@
}

/// A named column of nullable values.
pub struct Column<T> {
    pub name: String,
    pub values: Vec<Option<T>>,
}

/// An output column being built from the results of calls on rows.
pub struct MapColumn<T> {
    height: usize,
    values: Vec<Option<T>>,
}

impl<T> MapColumn<T> {
    #[verifier::type_invariant]
    closed spec fn inv(self) -> bool {
        self.values@.len() <= self.height
    }

    /// The number of rows of the table.
    pub closed spec fn rows(self) -> nat {
        self.height as nat
    }

    /// The row called next.
    pub closed spec fn position(self) -> nat {
        self.values@.len()
    }

    /// The column built so far.
    pub closed spec fn column(self) -> Seq<Option<T>> {
        self.values@
    }

    /// Starts a column after `init_null_count` None results, with the first value where
    /// it was extracted. If every row gave None, the column is all null and complete, and
    /// the first value is ignored.
    pub fn begin(init_null_count: usize, first_value: Option<T>, height: usize) -> (r: MapColumn<T>)
        requires
            init_null_count <= height,
        ensures
            r.rows() == height,
            init_null_count == height ==> r.column() == nulls::<T>(height as nat) && r.position()
                == height,
            init_null_count < height ==> r.column() == column_prefix(
                init_null_count as nat,
                first_value,
            ) && r.position() == first_pending_row(init_null_count as nat, first_value),
    {
        let mut values: Vec<Option<T>> = Vec::new();
        let mut i: usize = 0;
        while i < init_null_count
            invariant
                i <= init_null_count,
                values@ == nulls::<T>(i as nat),
            decreases init_null_count - i,
        {
            values.push(None);
            i = i + 1;
        }
        if init_null_count == height {
            return MapColumn { height, values };
        }
        let ghost first = first_value;
        match first_value {
            Some(v) => values.push(Some(v)),
            None => {},
        }
        assert(values@ =~= column_prefix(init_null_count as nat, first));
        MapColumn { height, values }
    }

    /// The row to call the function on next, if any is left.
    pub fn next_row(&self) -> (r: Option<usize>)
        ensures
            if self.position() < self.rows() {
                r == Some(self.position() as usize)
            } else {
                r is None
            },
    {
        proof {
            use_type_invariant(self);
        }
        if self.values.len() < self.height {
            Some(self.values.len())
        } else {
            None
        }
    }

    /// Appends the result of the call on the next row.
    pub fn push(self, value: Option<T>) -> (r: MapColumn<T>)
        requires
            self.position() < self.rows(),
        ensures
            r.rows() == self.rows(),
            r.position() == self.position() + 1,
            r.column() == self.column().push(value),
    {
        let MapColumn { height, mut values } = self;
        values.push(value);
        MapColumn { height, values }
    }

    /// The complete column, named "map", one value per row.
    pub fn finish(self) -> (r: Column<T>)
        requires
            self.position() == self.rows(),
        ensures
            r.name@ == output_name(),
            r.values@ == self.column(),
            r.values@.len() == self.rows(),
    {
        proof {
            use_type_invariant(&self);
        }
        Column { name: String::from_str("map"), values: self.values }
    }
}

/// What a call returned where a series is expected.
pub enum SeriesOutput<S> {
    Series(S),
    NoneValue,
    Other,
}

/// The value for a list column: the series, null for None, an error otherwise.
pub fn list_item<S>(out: SeriesOutput<S>) -> (r: Result<Option<S>, ApplyError>)
    ensures
        match out {
            SeriesOutput::Series(s) => r == Ok::<Option<S>, ApplyError>(Some(s)),
            SeriesOutput::NoneValue => r == Ok::<Option<S>, ApplyError>(None),
            SeriesOutput::Other => r == Err::<Option<S>, ApplyError>(ApplyError::NotASeries),
        },
{
    match out {
        SeriesOutput::Series(s) => Ok(Some(s)),
        SeriesOutput::NoneValue => Ok(None),
        SeriesOutput::Other => Err(ApplyError::NotASeries),
    }
}

/// What a call returned where rows are expected.
pub enum RowOutput<V> {
    NoneValue,
    Tuple(Vec<V>),
    Other,
}

/// Output rows being collected: `None` stands for a null row, as wide as the first row.
pub struct RowsOutput<V> {
    height: usize,
    init_null_count: usize,
    width: usize,
    inference_size: usize,
    rows: Vec<Option<Vec<V>>>,
}

impl<V> RowsOutput<V> {
    #[verifier::type_invariant]
    closed spec fn inv(self) -> bool {
        &&& self.init_null_count < self.height
        &&& self.init_null_count < self.rows@.len() <= self.height
    }

    /// The number of rows of the table.
    pub closed spec fn rows(self) -> nat {
        self.height as nat
    }

    /// The row called next.
    pub closed spec fn position(self) -> nat {
        self.rows@.len()
    }

    /// The number of leading null rows.
    pub closed spec fn leading_nulls(self) -> nat {
        self.init_null_count as nat
    }

    /// The number of values of a null row.
    pub closed spec fn null_width(self) -> nat {
        self.width as nat
    }

    /// The number of rows after the first non-null one that take part in schema inference.
    pub closed spec fn inference_rows(self) -> nat {
        self.inference_size as nat
    }

    /// The rows collected so far.
    pub closed spec fn collected(self) -> Seq<Option<Vec<V>>> {
        self.rows@
    }

    /// Starts collecting after `init_null_count` None results and the first row.
    pub fn begin(
        init_null_count: usize,
        first_value: Vec<V>,
        inference_size: usize,
        height: usize,
    ) -> (r: RowsOutput<V>)
        requires
            init_null_count < height,
        ensures
            r.rows() == height,
            r.leading_nulls() == init_null_count,
            r.null_width() == first_value@.len(),
            r.inference_rows() == inference_size,
            r.position() == init_null_count + 1,
            r.collected() == nulls::<Vec<V>>(init_null_count as nat).push(Some(first_value)),
    {
        let width = first_value.len();
        let mut rows: Vec<Option<Vec<V>>> = Vec::new();
        let mut i: usize = 0;
        while i < init_null_count
            invariant
                i <= init_null_count,
                rows@ == nulls::<Vec<V>>(i as nat),
            decreases init_null_count - i,
        {
            rows.push(None);
            i = i + 1;
        }
        let ghost first = first_value;
        rows.push(Some(first_value));
        assert(rows@ == nulls::<Vec<V>>(init_null_count as nat).push(Some(first)));
        RowsOutput { height, init_null_count, width, inference_size, rows }
    }

    /// The number of values of a null row: the width of the first row.
    pub fn null_row_width(&self) -> (r: usize)
        ensures
            r == self.null_width(),
    {
        self.width
    }

    /// The row to call the function on next, if any is left.
    pub fn next_row(&self) -> (r: Option<usize>)
        ensures
            if self.position() < self.rows() {
                r == Some(self.position() as usize)
            } else {
                r is None
            },
    {
        proof {
            use_type_invariant(self);
        }
        if self.rows.len() < self.height {
            Some(self.rows.len())
        } else {
            None
        }
    }

    /// Takes in the result of the call on the next row: None adds a null row, a tuple
    /// adds its values as a row, anything else is an error that leaves the rows as they are.
    pub fn push(self, out: RowOutput<V>) -> (r: Result<RowsOutput<V>, ApplyError>)
        requires
            self.position() < self.rows(),
        ensures
            match out {
                RowOutput::NoneValue => r matches Ok(n) && n.collected() == self.collected().push(
                    None,
                ) && n.same_shape(self),
                RowOutput::Tuple(t) => r matches Ok(n) && n.collected() == self.collected().push(
                    Some(t),
                ) && n.same_shape(self),
                RowOutput::Other => r is Err && r->Err_0 == ApplyError::ExpectedTuple,
            },
    {
        proof {
            use_type_invariant(&self);
        }
        let row = match out {
            RowOutput::NoneValue => None,
            RowOutput::Tuple(t) => Some(t),
            RowOutput::Other => {
                return Err(ApplyError::ExpectedTuple);
            },
        };
        let RowsOutput { height, init_null_count, width, inference_size, mut rows } = self;
        rows.push(row);
        Ok(RowsOutput { height, init_null_count, width, inference_size, rows })
    }

    /// Whether two collections are for the same table, leading nulls, width and
    /// inference size.
    pub closed spec fn same_shape(self, other: RowsOutput<V>) -> bool {
        &&& self.height == other.height
        &&& self.init_null_count == other.init_null_count
        &&& self.width == other.width
        &&& self.inference_size == other.inference_size
    }

    /// The rows the schema is inferred from: the first non-null row and up to
    /// `inference_size` rows after it, as far as they were collected.
    pub fn schema_rows(&self) -> (r: &[Option<Vec<V>>])
        ensures
            r@ == self.collected().subrange(
                self.leading_nulls() as int,
                vstd::math::min(
                    (self.leading_nulls() + 1 + self.inference_rows()) as int,
                    self.collected().len() as int,
                ),
            ),
    {
        proof {
            use_type_invariant(self);
        }
        let start = self.init_null_count;
        let len = self.rows.len();
        let end = if len - start - 1 < self.inference_size {
            len
        } else {
            start + 1 + self.inference_size
        };
        let all = self.rows.as_slice();
        slice_range(all, start, end)
    }

    /// All rows, one per row of the table: the leading null rows, the first row, then
    /// the results of the calls.
    pub fn finish(self) -> (r: Vec<Option<Vec<V>>>)
        requires
            self.position() == self.rows(),
        ensures
            r@ == self.collected(),
            r@.len() == self.rows(),
    {
        proof {
            use_type_invariant(&self);
        }
        self.rows
    }
}

/// The elements `start .. end` of a slice.
fn slice_range<T>(s: &[T], start: usize, end: usize) -> (r: &[T])
    requires
        start <= end <= s@.len(),
    ensures
        r@ == s@.subrange(start as int, end as int),
{
    &s[start..end]
}

/// The output type is that of the first result that is not None: a result of a known
/// output kind (bool, float, int, string, series or row) dispatches to that very kind,
/// with the number of None results before it; only a None result continues, and only
/// a list or tuple that is no row, or an unknown result, fails.
pub proof fn lemma_first_result_sets_output_type(kind: OutputKind, null_count: usize)
    ensures
        (kind == OutputKind::Bool || kind == OutputKind::Float || kind == OutputKind::Int || kind
            == OutputKind::Str || kind == OutputKind::Series || kind == OutputKind::Row) ==> infer_step(
            kind,
            null_count,
        ) == InferStep::Dispatch(kind, null_count),
        (infer_step(kind, null_count) == InferStep::Continue) <==> kind == OutputKind::NoneValue,
        (infer_step(kind, null_count) == InferStep::Fail(ApplyError::ListOutputInvalid)) <==> kind
            == OutputKind::ListOrTuple,
        infer_step(kind, null_count) matches InferStep::Dispatch(k, n) ==> k == kind && n
            == null_count,
{
}

/// A result that is a bool (and so also an int) gives a boolean output; a result that
/// converts to a row, and is none of the scalar kinds and no series, gives rows output.
pub proof fn lemma_result_tests_set_output_type(t: TypeTests, null_count: usize)
    ensures
        (!t.is_none && t.is_bool) ==> infer_step(kind_of(t), null_count) == InferStep::Dispatch(
            OutputKind::Bool,
            null_count,
        ),
        (!t.is_none && !t.is_bool && !t.is_float && !t.is_int && !t.is_str && !t.has_series
            && t.converts_to_row) ==> infer_step(kind_of(t), null_count) == InferStep::Dispatch(
            OutputKind::Row,
            null_count,
        ),
{
}

} // verus!
