use vstd::prelude::*;

use crate::type_info::AnyTypeInfoKind;

verus! {

/// The error surface of the library.
///
/// Every fallible operation reports one of these categories; callers
/// inspect the category (and its structured context), never a
/// backend-internal structure.
#[derive(Debug, PartialEq, Eq)]
pub enum Error {
    /// The connection string could not be parsed into options.
    UrlParseError,
    /// The network or handshake step of establishing a session failed.
    ConnectError,
    /// Graceful shutdown of a session was impossible.
    CloseError,
    /// A liveness probe found the session no longer usable.
    ConnectionLostError,
    /// A canonical value reference carried a kind the target
    /// representation does not decode.
    UnexpectedKindError { expected: AnyTypeInfoKind, actual: AnyTypeInfoKind },
    /// Bytes or text were present but not a valid instance of the target
    /// representation.
    ConversionError { reason: String },
}

} // verus!
