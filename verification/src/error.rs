//! What the driver reports when it cannot do what was asked.

use vstd::prelude::*;

verus! {

/// Why a host value could not be read as the scalar that was asked for.
#[derive(Clone, Copy, Debug, PartialEq, Eq, Structural)]
pub enum DecodeError {
    /// The value is of another variant than the scalar maps to.
    TypeMismatch,
    /// The variant is right, the value is not one the scalar has.
    ValueError,
    /// The number does not fit the scalar.
    RangeError,
}

impl DecodeError {
    /// The text shown for each error.
    pub open spec fn message_spec(self) -> Seq<char> {
        match self {
            DecodeError::TypeMismatch => "bad type"@,
            DecodeError::ValueError => "bad value"@,
            DecodeError::RangeError => "bad value"@,
        }
    }

    /// A short description: `"bad type"` for a mismatch of variants,
    /// `"bad value"` for a value the scalar does not have or cannot hold.
    pub fn message(&self) -> (r: &'static str)
        ensures
            r@ == self.message_spec(),
    {
        match self {
            DecodeError::TypeMismatch => "bad type",
            DecodeError::ValueError => "bad value",
            DecodeError::RangeError => "bad value",
        }
    }
}

/// A failure of the driver itself.
#[derive(Debug, PartialEq, Eq)]
pub enum Error {
    /// The host refused to open the database; carries the host's message.
    Connection(String),
    /// A row was asked for an ordinal at or past its number of columns.
    IndexOutOfBounds { index: usize, len: usize },
    /// A row was asked for a column name it does not have.
    ColumnNotFound(String),
    /// A URL without a host component was given as connection options.
    BadUrl,
    /// The operation is not provided by this driver.
    Unsupported,
}

/// The mathematical content of an [`Error`].
pub enum ErrorModel {
    Connection(Seq<char>),
    IndexOutOfBounds { index: int, len: int },
    ColumnNotFound(Seq<char>),
    BadUrl,
    Unsupported,
}

impl View for Error {
    type V = ErrorModel;

    open spec fn view(&self) -> ErrorModel {
        match *self {
            Error::Connection(message) => ErrorModel::Connection(message@),
            Error::IndexOutOfBounds { index, len } => ErrorModel::IndexOutOfBounds {
                index: index as int,
                len: len as int,
            },
            Error::ColumnNotFound(name) => ErrorModel::ColumnNotFound(name@),
            Error::BadUrl => ErrorModel::BadUrl,
            Error::Unsupported => ErrorModel::Unsupported,
        }
    }
}

} // verus!
