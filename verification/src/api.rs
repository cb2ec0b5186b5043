//! The errors that requests are answered with.

use vstd::prelude::*;

verus! {

/// A refusal of a part of a request, with the status and the text that it is answered with.
#[derive(Debug)]
pub struct Rejection {
    pub status: u16,
    pub message: String,
}

/// Why a request failed.
#[derive(Debug)]
pub enum ApiError {
    ExtensionRejection(Rejection),
    FromStr(String),
    JsonRejection(Rejection),
    /// The content type of the request is not a media type.
    MalformedContentType,
    /// The request has no content type.
    MissingContentType,
    MultipartRejection(Rejection),
    PathRejection(Rejection),
    QueryRejection(Rejection),
    /// The request has a content type that is not accepted, given without its parameters.
    UnsupportedContentType(String),
}

} // verus!
