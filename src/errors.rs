use vstd::prelude::*;

verus! {

#[verifier::external_type_specification]
#[verifier::external_body]
pub struct ExInvalidHeaderValue(http::header::InvalidHeaderValue);

#[verifier::external_type_specification]
#[verifier::external_body]
pub struct ExJsonError(serde_json::Error);

/// Error that can occur when creating a client.
#[derive(Debug)]
pub enum StartupError {
    /// The TLS connector could not be started; holds its description.
    Tls(String),
    /// The token is not a legal header value; holds the token as given.
    InvalidToken(http::header::InvalidHeaderValue, String),
}

/// Why a response body could not be read as the expected JSON.
#[derive(Debug)]
pub enum JsonError {
    /// serde_json refused the body, as JSON or as the expected shape.
    Decode(serde_json::Error),
    /// The document lacks a string member; holds the JSON pointer to it.
    Missing(String),
}

/// Error that can occur when running a request.
#[derive(Debug)]
pub enum RequestError {
    /// The outgoing request could not be built.
    Http(String),
    /// The transport failed (connection, I/O).
    Transport(String),
    /// The response status is not a success; holds the status and the body.
    Status { status: u16, bytes: Vec<u8> },
    /// The response body is not the expected JSON; holds the body.
    Json { error: JsonError, bytes: Vec<u8> },
    /// The server answered with an application error object.
    Server { code: String, message: String },
}

} // verus!
