//! The five storage classes a host value can have.

use vstd::prelude::*;

verus! {

/// Type descriptor of a column or value: one inhabitant per variant of the
/// host's value union.
#[derive(Clone, Copy, Debug, PartialEq, Eq, Structural)]
pub enum SpinSqliteTypeInfo {
    Int,
    Blob,
    Real,
    Text,
    Null,
}

impl SpinSqliteTypeInfo {
    /// The display name of each descriptor.
    pub open spec fn name_spec(self) -> Seq<char> {
        match self {
            SpinSqliteTypeInfo::Blob => "BINARY"@,
            SpinSqliteTypeInfo::Int => "INT"@,
            SpinSqliteTypeInfo::Null => "NULL"@,
            SpinSqliteTypeInfo::Real => "REAL"@,
            SpinSqliteTypeInfo::Text => "TEXT"@,
        }
    }

    /// True only for the `Null` descriptor.
    pub fn is_null(&self) -> (r: bool)
        ensures
            r <==> *self == SpinSqliteTypeInfo::Null,
    {
        match self {
            SpinSqliteTypeInfo::Null => true,
            _ => false,
        }
    }

    /// The display name: `"INT"`, `"BINARY"`, `"REAL"`, `"TEXT"` or `"NULL"`.
    pub fn name(&self) -> (r: &'static str)
        ensures
            r@ == self.name_spec(),
    {
        match self {
            SpinSqliteTypeInfo::Blob => "BINARY",
            SpinSqliteTypeInfo::Int => "INT",
            SpinSqliteTypeInfo::Null => "NULL",
            SpinSqliteTypeInfo::Real => "REAL",
            SpinSqliteTypeInfo::Text => "TEXT",
        }
    }
}

} // verus!
