//! The ways a request can fail.
use vstd::prelude::*;

use crate::response::Response;

verus! {

/// The errors that a request can end in. Where an underlying fault was
/// reported, its message is kept.
#[derive(Debug, Clone, PartialEq, Eq)]
pub enum Error {
    /// Composing text failed.
    FormatError { error: String },
    /// The response body could not be decoded into the wanted type.
    DeserializationError {
        error: String,
        /// The text that was handed to the decoder.
        text: String,
    },
    /// A value could not be flattened into a query string.
    SerializeQueryError { error: String },
    /// A value could not be encoded as the request body.
    SerializeBodyError { error: String },
    /// The request could not be built (an illegal header, URI or method).
    HttpError { error: String },
    /// The transport failed.
    NetworkError { error: String },
    /// The server answered with a status other than 200.
    RequestNotOk { status: u32, body: String },
}

/// A result whose error is the library's own.
pub type Result<T> = core::result::Result<T, Error>;

impl Error {
    /// A decoding failure, with the text that failed to decode.
    pub fn new_deserialization_error(error: String, text: String) -> (r: Self)
        ensures
            r == (Error::DeserializationError { error, text }),
    {
        Error::DeserializationError { error, text }
    }

    /// The error for a response whose status is not 200.
    pub fn new_request_not_ok(response: Response) -> (r: Self)
        ensures
            r == (Error::RequestNotOk { status: response.status, body: response.body }),
    {
        Error::RequestNotOk { status: response.status, body: response.body }
    }

    /// A failure to flatten a value into a query string.
    pub fn new_serialize_query_error(error: String) -> (r: Self)
        ensures
            r == (Error::SerializeQueryError { error }),
    {
        Error::SerializeQueryError { error }
    }

    /// A failure to encode the request body.
    pub fn new_serialize_body_error(error: String) -> (r: Self)
        ensures
            r == (Error::SerializeBodyError { error }),
    {
        Error::SerializeBodyError { error }
    }
}

} // verus!
