//! A materialized result row and how a column of it is found.

use std::sync::Arc;
use vstd::prelude::*;
use crate::error::{Error, ErrorModel};
use crate::value::{values_view, HostValue, SpinSqliteValueRef, ValueModel};

verus! {

/// The characters of each of a run of column names.
pub open spec fn names_view(names: Seq<String>) -> Seq<Seq<char>> {
    Seq::new(names.len(), |i: int| names[i]@)
}

/// `i` is where `name` first stands in `columns`.
pub open spec fn is_first_occurrence(columns: Seq<Seq<char>>, name: Seq<char>, i: int) -> bool {
    &&& 0 <= i < columns.len()
    &&& columns[i] == name
    &&& forall|j: int| 0 <= j < i ==> columns[j] != name
}

/// The position a name resolves to: its first occurrence, if it has one.
pub open spec fn column_position(columns: Seq<Seq<char>>, name: Seq<char>) -> Option<int> {
    if exists|i: int| is_first_occurrence(columns, name, i) {
        Some(choose|i: int| is_first_occurrence(columns, name, i))
    } else {
        None
    }
}

/// A name has at most one first occurrence, and that is its position.
pub proof fn lemma_position_is_first_occurrence(columns: Seq<Seq<char>>, name: Seq<char>, i: int)
    requires
        is_first_occurrence(columns, name, i),
    ensures
        column_position(columns, name) == Some(i),
{
    let k = choose|k: int| is_first_occurrence(columns, name, k);
    assert(is_first_occurrence(columns, name, k));
    if k < i {
        assert(columns[k] != name);
    }
    if i < k {
        assert(columns[i] != name);
    }
}

/// A name that stands nowhere has no position.
pub proof fn lemma_position_of_absent_name(columns: Seq<Seq<char>>, name: Seq<char>)
    requires
        forall|j: int| 0 <= j < columns.len() ==> columns[j] != name,
    ensures
        column_position(columns, name) is None,
{
}

/// When a name heads several columns, a lookup by that name resolves to the
/// earliest of them.
pub proof fn lemma_first_occurrence_wins(
    columns: Seq<Seq<char>>,
    name: Seq<char>,
    earliest: int,
    later: int,
)
    requires
        0 <= earliest < later < columns.len(),
        columns[earliest] == name,
        columns[later] == name,
        forall|j: int| 0 <= j < earliest ==> columns[j] != name,
    ensures
        column_position(columns, name) == Some(earliest),
{
    lemma_position_is_first_occurrence(columns, name, earliest);
}

/// One tuple of a result: the column names of the result, shared by all its
/// rows, and this row's values in column order.
///
/// A row always has exactly one value per column.
#[derive(Debug)]
pub struct SpinSqliteRow {
    columns: Arc<Vec<String>>,
    values: Vec<HostValue>,
}

/// Something a column of a row can be addressed by.
pub trait ColumnIndex {
    /// The ordinal that `self` stands for in a row with these column names,
    /// or the reason it stands for none.
    spec fn position(&self, columns: Seq<Seq<char>>) -> Result<int, ErrorModel>;

    fn index(&self, row: &SpinSqliteRow) -> (r: Result<usize, Error>)
        ensures
            match self.position(row.column_names()) {
                Ok(i) => r matches Ok(j) && j == i,
                Err(e) => r matches Err(x) && x@ == e,
            },
    ;
}

/// Another handle on the same shared column names.
///
/// Trusted: `Arc::clone` of std, which returns a pointer to the same
/// allocation, so the vector seen through it is the one seen through
/// `columns`.
#[verifier::external_body]
pub(crate) fn share_columns(columns: &Arc<Vec<String>>) -> (r: Arc<Vec<String>>)
    ensures
        r == *columns,
{
    Arc::clone(columns)
}

impl SpinSqliteRow {
    #[verifier::type_invariant]
    spec fn one_value_per_column(self) -> bool {
        self.columns@.len() == self.values@.len()
    }

    /// The names of the columns, in column order.
    pub closed spec fn column_names(&self) -> Seq<Seq<char>> {
        names_view(self.columns@)
    }

    /// The values, in column order.
    pub closed spec fn values(&self) -> Seq<ValueModel> {
        values_view(self.values@)
    }

    /// Puts `values` under `columns`.  There is a row only when there is
    /// exactly one value per column.
    pub fn new(columns: Arc<Vec<String>>, values: Vec<HostValue>) -> (r: Option<Self>)
        ensures
            r is Some <==> values@.len() == columns@.len(),
            r matches Some(row) ==> row.column_names() == names_view(columns@) && row.values()
                == values_view(values@),
    {
        if values.len() == columns.len() {
            Some(SpinSqliteRow { columns, values })
        } else {
            None
        }
    }

    /// The number of columns, which is also the number of values: every row
    /// has exactly one value per column.
    pub fn len(&self) -> (n: usize)
        ensures
            self.values().len() == self.column_names().len(),
            n == self.values().len(),
    {
        proof {
            use_type_invariant(self);
        }
        self.values.len()
    }

    /// The shared column names.
    pub fn shared_column_names(&self) -> (r: &Arc<Vec<String>>)
        ensures
            names_view(r@) == self.column_names(),
    {
        &self.columns
    }

    /// Looks a column up by ordinal or by name and lends out its value.
    ///
    /// An ordinal must be below the number of columns; a name resolves to
    /// the first column that bears it.
    pub fn try_get_raw<I: ColumnIndex>(&self, index: I) -> (r: Result<SpinSqliteValueRef<'_>, Error>)
        ensures
            match index.position(self.column_names()) {
                Ok(i) => if 0 <= i < self.values().len() {
                    r matches Ok(v) && v@ == self.values()[i]
                } else {
                    r matches Err(e) && e@ == (ErrorModel::IndexOutOfBounds {
                        index: i,
                        len: self.values().len() as int,
                    })
                },
                Err(e) => r matches Err(x) && x@ == e,
            },
    {
        let uindex = match index.index(self) {
            Ok(i) => i,
            Err(e) => {
                return Err(e);
            },
        };
        if uindex >= self.values.len() {
            return Err(Error::IndexOutOfBounds { index: uindex, len: self.values.len() });
        }
        let val = &self.values[uindex];
        Ok(SpinSqliteValueRef::new(val))
    }
}

impl ColumnIndex for usize {
    open spec fn position(&self, columns: Seq<Seq<char>>) -> Result<int, ErrorModel> {
        if *self < columns.len() {
            Ok(*self as int)
        } else {
            Err(ErrorModel::IndexOutOfBounds { index: *self as int, len: columns.len() as int })
        }
    }

    fn index(&self, row: &SpinSqliteRow) -> (r: Result<usize, Error>) {
        let len = row.len();
        if *self < len {
            Ok(*self)
        } else {
            Err(Error::IndexOutOfBounds { index: *self, len })
        }
    }
}

impl<'a> ColumnIndex for &'a str {
    open spec fn position(&self, columns: Seq<Seq<char>>) -> Result<int, ErrorModel> {
        match column_position(columns, self@) {
            Some(i) => Ok(i),
            None => Err(ErrorModel::ColumnNotFound(self@)),
        }
    }

    fn index(&self, row: &SpinSqliteRow) -> (r: Result<usize, Error>) {
        let wanted = (*self).to_owned();
        let columns = row.shared_column_names();
        let mut i: usize = 0;
        while i < columns.len()
            invariant
                i <= columns@.len(),
                wanted@ == self@,
                names_view(columns@) == row.column_names(),
                forall|j: int| 0 <= j < i ==> row.column_names()[j] != self@,
            decreases columns@.len() - i,
        {
            if columns[i] == wanted {
                proof {
                    lemma_position_is_first_occurrence(row.column_names(), self@, i as int);
                }
                return Ok(i);
            }
            i += 1;
        }
        proof {
            lemma_position_of_absent_name(row.column_names(), self@);
        }
        Err(Error::ColumnNotFound(wanted))
    }
}

} // verus!
