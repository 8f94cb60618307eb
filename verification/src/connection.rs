//! The connection: the owner of a host handle, and what the driver answers
//! to the requests that do not reach the host.

use vstd::prelude::*;
use crate::column::SpinSqliteColumn;
use crate::error::{Error, ErrorModel};
use crate::statement::SpinSqliteStmt;
use crate::type_info::SpinSqliteTypeInfo;

verus! {

/// The name under which the driver presents itself.
pub const NAME: &'static str = "Spin SQLite";

/// The URL schemes that select this driver.
pub const URL_SCHEMES: [&'static str; 1] = ["spin-sqlite"];

/// A connection that owns the handle `C` the host gave for one database.
///
/// The host keeps the database open for as long as the handle lives and the
/// driver buffers nothing, so closing, pinging and flushing have nothing to
/// do.  Transactions, prepared statements and descriptions of statements
/// are not provided.
#[derive(Debug)]
pub struct SqlxConnection<C>(C);

impl<C> View for SqlxConnection<C> {
    type V = C;

    /// The handle.
    closed spec fn view(&self) -> C {
        self.0
    }
}

impl<C> SqlxConnection<C> {
    /// Takes ownership of a handle.
    pub fn new(conn: C) -> (r: Self)
        ensures
            r@ == conn,
    {
        Self(conn)
    }

    /// The handle, for talking to the host.
    pub fn handle(&self) -> (r: &C)
        ensures
            *r == self@,
    {
        &self.0
    }

    /// Gives the connection up.  Always succeeds.
    pub fn close(self) -> (r: Result<(), Error>)
        ensures
            r is Ok,
    {
        Ok(())
    }

    /// Gives the connection up without any farewell.  Always succeeds.
    pub fn close_hard(self) -> (r: Result<(), Error>)
        ensures
            r is Ok,
    {
        Ok(())
    }

    /// Checks that the connection is alive.  Always succeeds.
    pub fn ping(&mut self) -> (r: Result<(), Error>)
        ensures
            r is Ok,
            final(self)@ == old(self)@,
    {
        Ok(())
    }

    /// Starts a transaction: not provided.
    pub fn begin(&mut self) -> (r: Result<(), Error>)
        ensures
            r matches Err(e) && e@ == ErrorModel::Unsupported,
            final(self)@ == old(self)@,
    {
        Err(Error::Unsupported)
    }

    /// Commits the open transaction: not provided.
    pub fn commit(&mut self) -> (r: Result<(), Error>)
        ensures
            r matches Err(e) && e@ == ErrorModel::Unsupported,
            final(self)@ == old(self)@,
    {
        Err(Error::Unsupported)
    }

    /// Rolls the open transaction back: not provided.
    pub fn rollback(&mut self) -> (r: Result<(), Error>)
        ensures
            r matches Err(e) && e@ == ErrorModel::Unsupported,
            final(self)@ == old(self)@,
    {
        Err(Error::Unsupported)
    }

    /// Marks the open transaction for rollback.  There never is one, so
    /// nothing happens.
    pub fn start_rollback(&mut self)
        ensures
            final(self)@ == old(self)@,
    {
    }

    /// Releases spare buffer space.  The driver has no buffers, so nothing
    /// happens.
    pub fn shrink_buffers(&mut self)
        ensures
            final(self)@ == old(self)@,
    {
    }

    /// Sends what is buffered.  Always succeeds.
    pub fn flush(&mut self) -> (r: Result<(), Error>)
        ensures
            r is Ok,
            final(self)@ == old(self)@,
    {
        Ok(())
    }

    /// Whether anything waits to be flushed: never.
    pub fn should_flush(&self) -> (r: bool)
        ensures
            !r,
    {
        false
    }

    /// Prepares a statement: not provided.
    pub fn prepare_with(&self, _sql: &str, _parameters: &[SpinSqliteTypeInfo]) -> (r: Result<
        SpinSqliteStmt,
        Error,
    >)
        ensures
            r matches Err(e) && e@ == ErrorModel::Unsupported,
    {
        Err(Error::Unsupported)
    }

    /// Describes the columns a statement would give: not provided.
    pub fn describe(&self, _sql: &str) -> (r: Result<Vec<SpinSqliteColumn>, Error>)
        ensures
            r matches Err(e) && e@ == ErrorModel::Unsupported,
    {
        Err(Error::Unsupported)
    }
}

} // verus!
