//! Classification of the error codes that `getaddrinfo` and `getnameinfo`
//! return, with the message and the generic I/O error that go with them.
pub mod diagnostic;
pub mod error;
pub mod kind;
pub mod table;

pub use diagnostic::Diagnostic;
pub use error::LookupError;
pub use kind::LookupErrorKind;
pub use table::{GaiTable, PosixCodes};
