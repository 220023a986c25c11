//! A table of equally long columns, read row by row.

use vstd::prelude::*;

verus! {

/// A table: columns of values, all `height` long.
pub struct DataFrame<V> {
    columns: Vec<Vec<V>>,
    height: usize,
}

impl<V> DataFrame<V> {
    #[verifier::type_invariant]
    closed spec fn inv(self) -> bool {
        forall|c: int| 0 <= c < self.columns@.len() ==> #[trigger] self.columns@[c]@.len() == self.height
    }

    /// The number of rows.
    pub closed spec fn rows(self) -> nat {
        self.height as nat
    }

    /// The number of columns.
    pub closed spec fn width(self) -> nat {
        self.columns@.len()
    }

    /// The value in column `c` of row `i`.
    pub closed spec fn cell(self, i: int, c: int) -> V {
        self.columns@[c]@[i]
    }

    /// A table of the given columns, if all of them are `height` long.
    pub fn new(columns: Vec<Vec<V>>, height: usize) -> (r: Option<DataFrame<V>>)
        ensures
            r is Some == (forall|c: int| 0 <= c < columns@.len() ==> #[trigger] columns@[c]@.len()
                == height),
            r matches Some(df) ==> df.rows() == height && df.width() == columns@.len() && (forall|
                i: int,
                c: int,
            | 0 <= i < height && 0 <= c < columns@.len() ==> #[trigger] df.cell(i, c)
                == columns@[c]@[i]),
    {
        let mut k: usize = 0;
        while k < columns.len()
            invariant
                k <= columns@.len(),
                forall|c: int| 0 <= c < k ==> #[trigger] columns@[c]@.len() == height,
            decreases columns@.len() - k,
        {
            if columns[k].len() != height {
                return None;
            }
            k = k + 1;
        }
        Some(DataFrame { columns, height })
    }

    /// The number of rows.
    pub fn height(&self) -> (r: usize)
        ensures
            r == self.rows(),
    {
        self.height
    }

    /// The number of columns.
    pub fn num_columns(&self) -> (r: usize)
        ensures
            r == self.width(),
    {
        self.columns.len()
    }

    /// The values of row `i`, one per column.
    pub fn row(&self, i: usize) -> (r: Vec<&V>)
        requires
            i < self.rows(),
        ensures
            r@.len() == self.width(),
            forall|c: int| 0 <= c < self.width() ==> *#[trigger] r@[c] == self.cell(i as int, c),
    {
        proof {
            use_type_invariant(self);
        }
        let mut out: Vec<&V> = Vec::new();
        let mut c: usize = 0;
        while c < self.columns.len()
            invariant
                c <= self.columns@.len(),
                i < self.height,
                forall|k: int| 0 <= k < self.columns@.len() ==> #[trigger] self.columns@[k]@.len()
                    == self.height,
                out@.len() == c,
                forall|k: int| 0 <= k < c ==> *#[trigger] out@[k] == self.columns@[k]@[i as int],
            decreases self.columns@.len() - c,
        {
            out.push(&self.columns[c][i]);
            c = c + 1;
        }
        out
    }
}

/// Walks the rows of a table from a given row on, as the per-column iterators do.
pub struct RowCursor<'a, V> {
    df: &'a DataFrame<V>,
    next: usize,
}

impl<'a, V> RowCursor<'a, V> {
    /// The table walked.
    pub closed spec fn table(self) -> DataFrame<V> {
        *self.df
    }

    /// The row that comes next.
    pub closed spec fn position(self) -> nat {
        self.next as nat
    }

    /// The values of the next row, one per column, if a row is left.
    pub fn next(&mut self) -> (r: Option<Vec<&'a V>>)
        ensures
            final(self).table() == old(self).table(),
            old(self).position() < old(self).table().rows() ==> {
                &&& final(self).position() == old(self).position() + 1
                &&& r matches Some(row) && row@.len() == old(self).table().width() && forall|c: int|
                    0 <= c < old(self).table().width() ==> *#[trigger] row@[c] == old(
                    self,
                ).table().cell(old(self).position() as int, c)
            },
            old(self).position() >= old(self).table().rows() ==> r is None && final(self).position()
                == old(self).position(),
    {
        let df: &'a DataFrame<V> = self.df;
        if self.next < df.height() {
            let row = df.row(self.next);
            self.next = self.next + 1;
            Some(row)
        } else {
            None
        }
    }
}

/// Walks all rows of the table, from the first.
pub fn get_iters<V>(df: &DataFrame<V>) -> (r: RowCursor<'_, V>)
    ensures
        r.table() == *df,
        r.position() == 0,
{
    RowCursor { df, next: 0 }
}

/// Walks the rows of the table from row `n` on.
pub fn get_iters_skip<V>(df: &DataFrame<V>, n: usize) -> (r: RowCursor<'_, V>)
    ensures
        r.table() == *df,
        r.position() == n,
{
    RowCursor { df, next: n }
}

} // verus!
