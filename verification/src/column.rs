//! The description of one column of a result.

use vstd::prelude::*;
use crate::type_info::SpinSqliteTypeInfo;

verus! {

/// A column: where it stands, what it is called and what it holds.
///
/// The host does not describe the columns of a result beyond their names,
/// so the driver itself never produces one.
#[derive(Debug)]
pub struct SpinSqliteColumn {
    ordinal: usize,
    name: String,
    type_info: SpinSqliteTypeInfo,
}

/// The mathematical content of a [`SpinSqliteColumn`].
pub struct ColumnModel {
    pub ordinal: int,
    pub name: Seq<char>,
    pub type_info: SpinSqliteTypeInfo,
}

impl View for SpinSqliteColumn {
    type V = ColumnModel;

    closed spec fn view(&self) -> ColumnModel {
        ColumnModel { ordinal: self.ordinal as int, name: self.name@, type_info: self.type_info }
    }
}

impl SpinSqliteColumn {
    /// Describes the column at `ordinal`.
    pub fn new(ordinal: usize, name: String, type_info: SpinSqliteTypeInfo) -> (r: Self)
        ensures
            r@ == (ColumnModel { ordinal: ordinal as int, name: name@, type_info }),
    {
        SpinSqliteColumn { ordinal, name, type_info }
    }

    /// The position of the column in its result, from zero.
    pub fn ordinal(&self) -> (r: usize)
        ensures
            r == self@.ordinal,
    {
        self.ordinal
    }

    /// The name of the column.
    pub fn name(&self) -> (r: &str)
        ensures
            r@ == self@.name,
    {
        self.name.as_str()
    }

    /// The descriptor of what the column holds.
    pub fn type_info(&self) -> (r: &SpinSqliteTypeInfo)
        ensures
            *r == self@.type_info,
    {
        &self.type_info
    }
}

} // verus!
