use vstd::prelude::*;

verus! {

/// The ways a call to the API can fail.
#[derive(Debug, PartialEq, Eq)]
pub enum ApiError {
    /// The system clock reads a time before the Unix epoch; no nonce can be made.
    Clock,
    /// The secret key cannot key the MAC.
    Key,
    /// The HTTP method is not one of GET, POST and DELETE.
    UnsupportedMethod,
    /// An authenticated call on a client that holds no keys.
    MissingCredentials,
    /// The path and parameters do not make a valid URL.
    InvalidUrl,
    /// The connection or the exchange of bytes failed.
    Transport(String),
    /// The server answered with a 4xx or 5xx status.
    ApiStatus { status: u16, body: String },
    /// The body does not have the expected shape.
    Decode(String),
}

} // verus!
