//! Driver core that binds a generic asynchronous SQL interface to the SQLite
//! primitive of a WebAssembly component host.
//!
//! The crate holds the parts of the driver that decide something: the value
//! taxonomy, the scalar codecs, the arguments buffer, row indexing, the
//! connection options and the shaping of a host answer into rows.  Talking to
//! the host itself is left to the embedding component.

pub mod arguments;
pub mod column;
pub mod connection;
pub mod convert;
pub mod error;
pub mod executor;
pub mod options;
pub mod row;
pub mod statement;
pub mod type_info;
pub mod value;

pub use arguments::SpinSqliteArgs;
pub use column::{ColumnModel, SpinSqliteColumn};
pub use connection::{SqlxConnection, NAME, URL_SCHEMES};
pub use convert::{into_or_err, Decode, Encode, IsNull, RealBits, Type};
pub use error::{DecodeError, Error, ErrorModel};
pub use executor::{arguments_or_empty, execute, fetch_many, fetch_optional, FetchItem, ResultSet, SpinSqliteQR};
pub use options::SqlxConnectionOptions;
pub use row::{ColumnIndex, SpinSqliteRow};
pub use statement::SpinSqliteStmt;
pub use type_info::SpinSqliteTypeInfo;
pub use value::{HostValue, SpinSqliteValue, SpinSqliteValueRef, ValueModel};
