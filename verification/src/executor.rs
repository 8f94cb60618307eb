//! What becomes of the host's answer to a statement.
//!
//! The host runs a statement in one call and hands back every row at once.
//! The functions here take over from there: they turn the answer into what
//! each of the three ways of running a statement yields.

use std::sync::Arc;
use vstd::prelude::*;
use crate::arguments::SpinSqliteArgs;
use crate::row::{names_view, share_columns, SpinSqliteRow};
use crate::value::{values_view, HostValue, ValueModel};

verus! {

/// The acknowledgement that a statement ran.  The host tells neither how
/// many rows a statement touched nor which row it inserted last, so there is
/// nothing to carry.
#[derive(Clone, Copy, Debug, Default, PartialEq, Eq, Structural)]
pub struct SpinSqliteQR {}

impl SpinSqliteQR {
    /// Folds further acknowledgements into this one, which stays as it is.
    pub fn extend(&mut self, _others: Vec<SpinSqliteQR>)
        ensures
            *final(self) == *old(self),
    {
    }
}

/// One element of what a row-returning statement yields.
#[derive(Debug)]
pub enum FetchItem {
    /// The statement, or a part of it, ran without giving rows.
    Done(SpinSqliteQR),
    /// The next row.
    Row(SpinSqliteRow),
}

/// The contents of each of a run of rows of values.
pub open spec fn rows_view(rows: Seq<Vec<HostValue>>) -> Seq<Seq<ValueModel>> {
    Seq::new(rows.len(), |i: int| values_view(rows[i]@))
}

/// Every row has as many values as there are columns.
pub open spec fn is_rectangular(columns: Seq<String>, rows: Seq<Vec<HostValue>>) -> bool {
    forall|i: int| 0 <= i < rows.len() ==> (#[trigger] rows[i])@.len() == columns.len()
}

/// The host's answer to a statement: the column names and, in the host's
/// order, the rows, each with one value per column.
#[derive(Debug)]
pub struct ResultSet {
    columns: Vec<String>,
    rows: Vec<Vec<HostValue>>,
}

impl ResultSet {
    #[verifier::type_invariant]
    spec fn rectangular(self) -> bool {
        is_rectangular(self.columns@, self.rows@)
    }

    /// The names of the columns, in column order.
    pub closed spec fn column_names(&self) -> Seq<Seq<char>> {
        names_view(self.columns@)
    }

    /// The rows, in the host's order.
    pub closed spec fn rows(&self) -> Seq<Seq<ValueModel>> {
        rows_view(self.rows@)
    }

    /// Takes an answer as the host gave it.  It is accepted only when every
    /// row has one value per column.
    pub fn new(columns: Vec<String>, rows: Vec<Vec<HostValue>>) -> (r: Option<Self>)
        ensures
            r is Some <==> is_rectangular(columns@, rows@),
            r matches Some(answer) ==> answer.column_names() == names_view(columns@)
                && answer.rows() == rows_view(rows@),
    {
        let width = columns.len();
        let mut i: usize = 0;
        while i < rows.len()
            invariant
                i <= rows@.len(),
                width == columns@.len(),
                forall|j: int| 0 <= j < i ==> (#[trigger] rows@[j])@.len() == width,
            decreases rows@.len() - i,
        {
            if rows[i].len() != width {
                return None;
            }
            i += 1;
        }
        Some(ResultSet { columns, rows })
    }
}

/// The values to hand to the host with a statement: those that were bound,
/// or none where no buffer was given.
pub fn arguments_or_empty(arguments: Option<SpinSqliteArgs>) -> (r: SpinSqliteArgs)
    ensures
        r@ == match arguments {
            Some(bound) => bound@,
            None => Seq::<ValueModel>::empty(),
        },
{
    match arguments {
        Some(bound) => bound,
        None => SpinSqliteArgs::default(),
    }
}

/// The rows of an answer, in the host's order, each under the answer's
/// column names, which all of them share.  Nothing but rows is yielded.
pub fn fetch_many(result: ResultSet) -> (items: Vec<FetchItem>)
    ensures
        items@.len() == result.rows().len(),
        forall|i: int|
            0 <= i < items@.len() ==> (#[trigger] items@[i] matches FetchItem::Row(row)
                && row.column_names() == result.column_names() && row.values()
                == result.rows()[i]),
{
    proof {
        use_type_invariant(&result);
    }
    let columns = Arc::new(result.columns);
    let rows = result.rows;
    let ghost all_rows = rows@;
    let mut items: Vec<FetchItem> = Vec::new();
    for values in it: rows
        invariant
            it.seq() == all_rows,
            is_rectangular(columns@, all_rows),
            items@.len() == it.index(),
            forall|i: int|
                0 <= i < items@.len() ==> (#[trigger] items@[i] matches FetchItem::Row(row)
                    && row.column_names() == names_view(columns@) && row.values() == values_view(
                    all_rows[i]@,
                )),
    {
        let row = SpinSqliteRow::new(share_columns(&columns), values).unwrap();
        items.push(FetchItem::Row(row));
    }
    items
}

/// Acknowledges that the statement ran.  Rows that the host gave are
/// dropped.
pub fn execute(_result: ResultSet) -> (r: SpinSqliteQR)
    ensures
        r == (SpinSqliteQR {  }),
{
    SpinSqliteQR {  }
}

/// The first row of an answer under the answer's column names, or nothing
/// where the answer has no row.  Further rows are dropped.
pub fn fetch_optional(result: ResultSet) -> (r: Option<SpinSqliteRow>)
    ensures
        match r {
            Some(row) => result.rows().len() > 0 && row.column_names() == result.column_names()
                && row.values() == result.rows()[0],
            None => result.rows().len() == 0,
        },
{
    proof {
        use_type_invariant(&result);
    }
    let columns = Arc::new(result.columns);
    let mut rows = result.rows;
    if rows.len() == 0 {
        None
    } else {
        let values = rows.swap_remove(0);
        SpinSqliteRow::new(columns, values)
    }
}

} // verus!
