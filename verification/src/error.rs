//! The error type shared by every fallible operation of the library.

use vstd::prelude::*;
use vstd::string::*;

verus! {

/// Everything that can go wrong while building or running requests.
///
/// Each variant carries the text that follows its fixed prefix in
/// [`RurlError::message`].
#[derive(Debug)]
pub enum RurlError {
    /// The HTTP request failed (network error, timeout, ...).
    RequestError(String),
    /// The URL is not well formed.
    InvalidUrl(String),
    /// The HTTP method is not a valid method token.
    InvalidMethod(String),
    /// A header line is not of the form `Name: Value`.
    InvalidHeader(String),
    /// A file could not be read.
    FileError(String),
    /// A JSON document could not be parsed.
    JsonError(String),
    /// A dataset could not be loaded or holds nothing.
    DatasetError(String),
    /// A performance test could not be carried out.
    PerfError(String),
}

impl RurlError {
    /// The text the variant carries.
    pub open spec fn detail(self) -> Seq<char> {
        match self {
            RurlError::RequestError(s) => s@,
            RurlError::InvalidUrl(s) => s@,
            RurlError::InvalidMethod(s) => s@,
            RurlError::InvalidHeader(s) => s@,
            RurlError::FileError(s) => s@,
            RurlError::JsonError(s) => s@,
            RurlError::DatasetError(s) => s@,
            RurlError::PerfError(s) => s@,
        }
    }

    /// The fixed text that introduces each kind of error.
    pub open spec fn prefix(self) -> Seq<char> {
        match self {
            RurlError::RequestError(_) => "HTTP request failed: "@,
            RurlError::InvalidUrl(_) => "Invalid URL: "@,
            RurlError::InvalidMethod(_) => "Invalid method: "@,
            RurlError::InvalidHeader(_) => "Invalid header format: "@,
            RurlError::FileError(_) => "File read error: "@,
            RurlError::JsonError(_) => "JSON parse error: "@,
            RurlError::DatasetError(_) => "Dataset error: "@,
            RurlError::PerfError(_) => "Performance test error: "@,
        }
    }

    /// The human-readable message: the prefix followed by the detail.
    pub open spec fn message(self) -> Seq<char> {
        self.prefix() + self.detail()
    }

    /// Renders the error as text.
    pub fn to_string(&self) -> (r: String)
        ensures
            r@ == self.message(),
    {
        match self {
            RurlError::RequestError(s) => String::from_str("HTTP request failed: ").concat(s.as_str()),
            RurlError::InvalidUrl(s) => String::from_str("Invalid URL: ").concat(s.as_str()),
            RurlError::InvalidMethod(s) => String::from_str("Invalid method: ").concat(s.as_str()),
            RurlError::InvalidHeader(s) => String::from_str("Invalid header format: ").concat(
                s.as_str(),
            ),
            RurlError::FileError(s) => String::from_str("File read error: ").concat(s.as_str()),
            RurlError::JsonError(s) => String::from_str("JSON parse error: ").concat(s.as_str()),
            RurlError::DatasetError(s) => String::from_str("Dataset error: ").concat(s.as_str()),
            RurlError::PerfError(s) => String::from_str("Performance test error: ").concat(
                s.as_str(),
            ),
        }
    }
}

} // verus!
