//! Client library for the PushBullet HTTP API.
//!
//! The library prepares every request (URL, headers, JSON body, multipart
//! framing) and classifies every response into a typed result or a
//! [`RequestError`]. Sending the requests is left to the caller's transport.
pub mod client;
pub mod errors;
pub mod json;
pub mod multipart;
pub mod push;

pub use client::{Client, Method, Request, TransferRequest, UploadRequestResponse, UploadSlot};
pub use errors::{JsonError, RequestError, StartupError};
pub use json::Document;
pub use push::{PushData, PushTarget};
