//! Status codes of the device protocol.

use vstd::prelude::*;

verus! {

/// The status codes that a device replies with.
#[allow(non_camel_case_types)]
#[derive(Debug, Clone, Copy, PartialEq, Eq, Structural)]
pub enum StatusCode {
    OK,
    BAD_REQUEST,
    FORBIDDEN,
    NOT_FOUND,
    TOO_MANY_REQUESTS,
    REQUEST_HEADER_FIELDS_TOO_LARGE,
    INTERNAL_SERVER_ERROR,
    INSUFFICIENT_STORAGE,
}

impl StatusCode {
    /// The numeric code.
    pub open spec fn code(self) -> u16 {
        match self {
            StatusCode::OK => 200,
            StatusCode::BAD_REQUEST => 400,
            StatusCode::FORBIDDEN => 403,
            StatusCode::NOT_FOUND => 404,
            StatusCode::TOO_MANY_REQUESTS => 429,
            StatusCode::REQUEST_HEADER_FIELDS_TOO_LARGE => 431,
            StatusCode::INTERNAL_SERVER_ERROR => 500,
            StatusCode::INSUFFICIENT_STORAGE => 507,
        }
    }

    /// The reason phrase that follows the code in a status line.
    pub open spec fn reason_spec(self) -> &'static str {
        match self {
            StatusCode::OK => "OK",
            StatusCode::BAD_REQUEST => "Bad Request",
            StatusCode::FORBIDDEN => "Forbidden",
            StatusCode::NOT_FOUND => "Not Found",
            StatusCode::TOO_MANY_REQUESTS => "Too Many Requests",
            StatusCode::REQUEST_HEADER_FIELDS_TOO_LARGE => "Request Header Fields Too Large",
            StatusCode::INTERNAL_SERVER_ERROR => "Internal Server Error",
            StatusCode::INSUFFICIENT_STORAGE => "Insufficient Storage",
        }
    }

    /// The numeric code.
    pub fn as_u16(&self) -> (c: u16)
        ensures
            c == self.code(),
            100 <= c <= 999,
    {
        match self {
            StatusCode::OK => 200,
            StatusCode::BAD_REQUEST => 400,
            StatusCode::FORBIDDEN => 403,
            StatusCode::NOT_FOUND => 404,
            StatusCode::TOO_MANY_REQUESTS => 429,
            StatusCode::REQUEST_HEADER_FIELDS_TOO_LARGE => 431,
            StatusCode::INTERNAL_SERVER_ERROR => 500,
            StatusCode::INSUFFICIENT_STORAGE => 507,
        }
    }

    /// Whether the code is in `200..=299`.
    pub fn is_success(&self) -> (b: bool)
        ensures
            b == (200 <= self.code() <= 299),
    {
        matches!(self, StatusCode::OK)
    }

    /// The reason phrase that follows the code in a status line.
    pub fn reason(&self) -> (r: &'static str)
        ensures
            r == self.reason_spec(),
    {
        match self {
            StatusCode::OK => "OK",
            StatusCode::BAD_REQUEST => "Bad Request",
            StatusCode::FORBIDDEN => "Forbidden",
            StatusCode::NOT_FOUND => "Not Found",
            StatusCode::TOO_MANY_REQUESTS => "Too Many Requests",
            StatusCode::REQUEST_HEADER_FIELDS_TOO_LARGE => "Request Header Fields Too Large",
            StatusCode::INTERNAL_SERVER_ERROR => "Internal Server Error",
            StatusCode::INSUFFICIENT_STORAGE => "Insufficient Storage",
        }
    }
}

} // verus!
