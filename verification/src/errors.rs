//! Typed errors of the API, each with the HTTP status it is answered with.
use vstd::prelude::*;

verus! {

/// An error answered to an API caller.
pub enum AppError {
    /// Malformed or incomplete request (400).
    BadRequest(String),
    /// Unknown video or share token (404).
    NotFound(String),
    /// The request conflicts with the video's state (409).
    Conflict(String),
    /// The upload is larger than the limit (413).
    PayloadTooLarge(String),
    /// The MIME type or file extension is not accepted (415).
    UnsupportedMedia(String),
    /// A storage or unexpected failure (500).
    Internal(String),
}

impl AppError {
    /// The HTTP status code of the error, as a number.
    pub open spec fn spec_status_code(&self) -> u16 {
        match self {
            AppError::BadRequest(_) => 400,
            AppError::NotFound(_) => 404,
            AppError::Conflict(_) => 409,
            AppError::PayloadTooLarge(_) => 413,
            AppError::UnsupportedMedia(_) => 415,
            AppError::Internal(_) => 500,
        }
    }

    /// The text carried by the error.
    pub open spec fn spec_message(&self) -> Seq<char> {
        match self {
            AppError::BadRequest(m) => m@,
            AppError::NotFound(m) => m@,
            AppError::Conflict(m) => m@,
            AppError::PayloadTooLarge(m) => m@,
            AppError::UnsupportedMedia(m) => m@,
            AppError::Internal(m) => m@,
        }
    }

    /// The HTTP status code the error is answered with.
    pub fn status_code(&self) -> (code: u16)
        ensures
            code == self.spec_status_code(),
    {
        match self {
            AppError::BadRequest(_) => 400,
            AppError::NotFound(_) => 404,
            AppError::Conflict(_) => 409,
            AppError::PayloadTooLarge(_) => 413,
            AppError::UnsupportedMedia(_) => 415,
            AppError::Internal(_) => 500,
        }
    }

    /// The text carried by the error.
    pub fn message(&self) -> (m: &str)
        ensures
            m@ == self.spec_message(),
    {
        match self {
            AppError::BadRequest(m) => m.as_str(),
            AppError::NotFound(m) => m.as_str(),
            AppError::Conflict(m) => m.as_str(),
            AppError::PayloadTooLarge(m) => m.as_str(),
            AppError::UnsupportedMedia(m) => m.as_str(),
            AppError::Internal(m) => m.as_str(),
        }
    }
}

} // verus!
