//! Prepared statements, which this driver does not provide.

use vstd::prelude::*;

verus! {

/// A prepared statement.  The driver prepares none, so no value of this
/// type ever comes out of it; the type is there for the interfaces that
/// name it.
#[derive(Debug, Default)]
pub struct SpinSqliteStmt {}

} // verus!
