//! HTTP responses as plain data, and what is read off their status.

use vstd::prelude::*;
use vstd::string::*;
use std::time::Duration;
use crate::json::{display_body, displayed_body};
use crate::text::{decimal_of, optional_text, push_decimal};

verus! {

/// The reason phrase that `reqwest` knows for a status code, if it knows
/// one.
pub uninterp spec fn canonical_reason_of(status: u16) -> Option<Seq<char>>;

/// `StatusCode::canonical_reason` of the `reqwest::StatusCode` with this
/// number: the standard reason phrase, where the number is a status code
/// and has one. It depends on the number alone.
#[verifier::external_body]
fn canonical_reason(status: u16) -> (r: Option<String>)
    ensures
        optional_text(r) == canonical_reason_of(status),
{
    reqwest::StatusCode::from_u16(status).ok().and_then(|code| code.canonical_reason()).map(
        |reason| reason.to_string(),
    )
}

/// The class of a status code, by which its line is coloured.
#[derive(Debug, Clone, Copy, PartialEq, Eq, Structural)]
pub enum StatusClass {
    /// 200 to 299.
    Success,
    /// 400 to 499.
    ClientError,
    /// 500 to 599.
    ServerError,
    /// Any other code.
    Other,
}

/// The class of a status code.
pub open spec fn class_of(status: u16) -> StatusClass {
    if 200 <= status < 300 {
        StatusClass::Success
    } else if 400 <= status < 500 {
        StatusClass::ClientError
    } else if 500 <= status < 600 {
        StatusClass::ServerError
    } else {
        StatusClass::Other
    }
}

/// The reason phrase shown for a status code: the standard one, or nothing.
pub open spec fn reason_of(status: u16) -> Seq<char> {
    match canonical_reason_of(status) {
        Some(reason) => reason,
        None => Seq::<char>::empty(),
    }
}

/// The status line of a response: `HTTP/1.1`, the status code in decimal
/// and its reason phrase, with one space between them.
pub open spec fn status_line_of(status: u16) -> Seq<char> {
    ("HTTP/1.1 "@ + decimal_of(status as nat)).push(' ') + reason_of(status)
}

/// An HTTP response and the time it took to arrive.
#[derive(Debug)]
pub struct HttpResponse {
    /// The status code.
    pub status: u16,
    /// The response headers, as received.
    pub headers: Vec<(String, String)>,
    /// The response body.
    pub body: String,
    /// The time it took to receive the response.
    pub duration: Duration,
}

impl HttpResponse {
    /// A response with the given status, headers, body and duration.
    pub fn new(status: u16, headers: Vec<(String, String)>, body: String, duration: Duration) -> (r:
        Self)
        ensures
            r.status == status,
            r.headers == headers,
            r.body == body,
            r.duration == duration,
    {
        HttpResponse { status, headers, body, duration }
    }

    /// Whether the status is a success (2xx).
    pub fn is_success(&self) -> (r: bool)
        ensures
            r == (200 <= self.status < 300),
    {
        200 <= self.status && self.status < 300
    }

    /// The class of the status, by which the status line is coloured.
    pub fn status_class(&self) -> (r: StatusClass)
        ensures
            r == class_of(self.status),
    {
        if 200 <= self.status && self.status < 300 {
            StatusClass::Success
        } else if 400 <= self.status && self.status < 500 {
            StatusClass::ClientError
        } else if 500 <= self.status && self.status < 600 {
            StatusClass::ServerError
        } else {
            StatusClass::Other
        }
    }

    /// The reason phrase that is shown: the one found, or nothing where
    /// none was found.
    pub fn reason_or_empty(found: Option<String>) -> (r: String)
        ensures
            r@ == match found {
                Some(reason) => reason@,
                None => Seq::<char>::empty(),
            },
    {
        match found {
            Some(reason) => reason,
            None => String::new(),
        }
    }

    /// The status line for a status code and its reason phrase: the
    /// protocol, the code in decimal and the phrase, with one space between
    /// them.
    pub fn status_line_with(status: u16, reason: &str) -> (r: String)
        ensures
            r@ == ("HTTP/1.1 "@ + decimal_of(status as nat)).push(' ') + reason@,
    {
        let mut line = String::from_str("HTTP/1.1 ");
        push_decimal(&mut line, status as u64);
        line.push(' ');
        line.append(reason);
        proof {
            assert(line@ =~= ("HTTP/1.1 "@ + decimal_of(status as nat)).push(' ') + reason@);
        }
        line
    }

    /// The standard reason phrase of the status; empty where there is none.
    pub fn reason(&self) -> (r: String)
        ensures
            r@ == reason_of(self.status),
    {
        Self::reason_or_empty(canonical_reason(self.status))
    }

    /// The status line: the protocol, the status code and its reason
    /// phrase.
    pub fn status_line(&self) -> (r: String)
        ensures
            r@ == status_line_of(self.status),
    {
        let reason = self.reason();
        Self::status_line_with(self.status, reason.as_str())
    }

    /// The body as it is shown: indented where it is a JSON document, else
    /// as it is.
    pub fn display_body(&self) -> (r: String)
        ensures
            r@ == displayed_body(self.body@),
    {
        display_body(self.body.as_str())
    }
}

} // verus!
