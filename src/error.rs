use vstd::prelude::*;

verus! {

/// The ways an operation of the client can fail.
#[derive(Debug)]
pub enum Error {
    /// The HTTP exchange itself failed (connection, TLS, transport timeout).
    Transport(String),
    /// A body is not JSON, or does not have the shape of the expected resource;
    /// the message names what was expected.
    Decode(String),
    /// A well-formed response lacks the named top-level field.
    MissingField(String),
    /// The server did not confirm an operation that needs confirmation.
    OperationFailed(String),
    /// An address built from the base URL and a path did not parse as a URL.
    InvalidUrl(String),
}

} // verus!
