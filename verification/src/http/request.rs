//! Building HTTP requests: method, URL, headers, body, timeout and redirect
//! policy.

use vstd::prelude::*;
use vstd::string::*;
use std::time::Duration;
use crate::error::RurlError;
use crate::http::headers::Headers;
use crate::json::{display_body, displayed_body};
use crate::text::{
    chars_of, copy_text, find_char, first_index, optional_text, string_from, texts_of, trim_bounds,
    trimmed, uppercase_of,
};
use crate::time::duration_nanos;

verus! {

/// Whether a character may stand in the name of an HTTP method: an ASCII
/// letter or digit, or one of ``!#$%&'*+-.^_`|~``.
pub open spec fn is_method_char(c: char) -> bool {
    ||| 'a' <= c <= 'z'
    ||| 'A' <= c <= 'Z'
    ||| '0' <= c <= '9'
    ||| c == '!'
    ||| c == '#'
    ||| c == '$'
    ||| c == '%'
    ||| c == '&'
    ||| c == '\''
    ||| c == '*'
    ||| c == '+'
    ||| c == '-'
    ||| c == '.'
    ||| c == '^'
    ||| c == '_'
    ||| c == '`'
    ||| c == '|'
    ||| c == '~'
}

/// Whether a text is the name of an HTTP method: it is not empty and holds
/// method characters only.
pub open spec fn is_method_token(text: Seq<char>) -> bool {
    &&& text.len() > 0
    &&& forall|i: int| 0 <= i < text.len() ==> is_method_char(#[trigger] text[i])
}

/// Parsing a text as a `reqwest::Method`: says whether the text is accepted
/// as a method. It is accepted where it is not empty and each of its bytes
/// is one of the method characters, of whatever length it is.
#[verifier::external_body]
fn parses_as_method(text: &str) -> (r: bool)
    ensures
        r == is_method_token(text@),
{
    text.parse::<reqwest::Method>().is_ok()
}

/// How many redirects are followed when they are followed at all.
pub const MAX_REDIRECTS: usize = 10;

/// The seconds a request may take unless another timeout is set.
pub const DEFAULT_TIMEOUT_SECS: u64 = 30;

/// An HTTP request, ready to be sent.
#[derive(Debug)]
pub struct HttpRequest {
    /// The HTTP method, in upper case (GET, POST, PUT, DELETE, ...).
    pub method: String,
    /// The target URL.
    pub url: String,
    /// The request headers.
    pub headers: Headers,
    /// The request body, if any.
    pub body: Option<String>,
    /// How long the request may take.
    pub timeout: Duration,
    /// Whether HTTP redirects are followed.
    pub follow_redirects: bool,
}

/// What a request holds, as mathematical values.
pub struct HttpRequestView {
    pub method: Seq<char>,
    pub url: Seq<char>,
    pub headers: Map<Seq<char>, Seq<char>>,
    pub body: Option<Seq<char>>,
    pub timeout: Duration,
    pub follow_redirects: bool,
}

impl View for HttpRequest {
    type V = HttpRequestView;

    open spec fn view(&self) -> HttpRequestView {
        HttpRequestView {
            method: self.method@,
            url: self.url@,
            headers: self.headers@,
            body: optional_text(self.body),
            timeout: self.timeout,
            follow_redirects: self.follow_redirects,
        }
    }
}

/// Decides on a method from its upper-case form `upper` and from whether
/// that is a method: the upper-case form is taken where it is one, and the
/// text as it was `given` is reported as `InvalidMethod` where it is not.
pub fn checked_method(given: &str, upper: String, valid: bool) -> (r: Result<String, RurlError>)
    ensures
        match r {
            Ok(m) => valid && m@ == upper@,
            Err(e) => !valid && e is InvalidMethod && e.detail() == given@,
        },
{
    if valid {
        Ok(upper)
    } else {
        Err(RurlError::InvalidMethod(String::from_str(given)))
    }
}

/// Reads an HTTP method given in any case: its upper-case form, where that
/// is a method. Otherwise the text is reported as `InvalidMethod`.
pub fn parse_method(method: &str) -> (r: Result<String, RurlError>)
    ensures
        match r {
            Ok(m) => is_method_token(uppercase_of(method@)) && m@ == uppercase_of(method@),
            Err(e) => !is_method_token(uppercase_of(method@)) && e is InvalidMethod && e.detail()
                == method@,
        },
{
    let upper = method.to_uppercase();
    let valid = parses_as_method(upper.as_str());
    checked_method(method, upper, valid)
}

/// The name and value that a header line `Name: Value` stands for: the text
/// before the first colon and the text after it, each without surrounding
/// whitespace. A line without a colon stands for nothing.
pub open spec fn parse_header_line(line: Seq<char>) -> Option<(Seq<char>, Seq<char>)> {
    let colon = first_index(line, ':');
    if colon < line.len() {
        Some((trimmed(line.take(colon)), trimmed(line.skip(colon + 1))))
    } else {
        None
    }
}

/// Whether line `i` is the first that has no colon.
pub open spec fn is_first_malformed(lines: Seq<String>, i: int) -> bool {
    &&& 0 <= i < lines.len()
    &&& parse_header_line(lines[i]@) is None
    &&& forall|j: int| 0 <= j < i ==> parse_header_line(#[trigger] lines[j]@) is Some
}

/// Whether every line has a colon.
pub open spec fn all_well_formed(lines: Seq<String>) -> bool {
    forall|i: int| 0 <= i < lines.len() ==> parse_header_line(#[trigger] lines[i]@) is Some
}

/// The headers that result from setting, in order, what each line stands
/// for. Lines that stand for nothing set nothing.
pub open spec fn with_header_lines(
    headers: Map<Seq<char>, Seq<char>>,
    lines: Seq<Seq<char>>,
) -> Map<Seq<char>, Seq<char>>
    decreases lines.len(),
{
    if lines.len() == 0 {
        headers
    } else {
        let before = with_header_lines(headers, lines.drop_last());
        match parse_header_line(lines.last()) {
            Some((name, value)) => before.insert(name, value),
            None => before,
        }
    }
}

/// Splits a header line into name and value.
pub fn split_header_line(line: &str) -> (r: Option<(String, String)>)
    ensures
        match r {
            Some((name, value)) => parse_header_line(line@) == Some((name@, value@)),
            None => parse_header_line(line@) is None,
        },
{
    let chars = chars_of(line);
    let n = chars.len();
    let colon = find_char(&chars, 0, n, ':');
    assert(chars@.subrange(0, n as int) =~= chars@);
    if colon < n {
        let (a, b) = trim_bounds(&chars, 0, colon);
        let (c, d) = trim_bounds(&chars, colon + 1, n);
        assert(chars@.subrange(0, colon as int) =~= line@.take(colon as int));
        assert(chars@.subrange(colon + 1, n as int) =~= line@.skip(colon + 1));
        Some((string_from(&chars, a, b), string_from(&chars, c, d)))
    } else {
        None
    }
}

impl HttpRequest {
    /// A GET request for `url` without headers or body, with a timeout of
    /// thirty seconds, following redirects.
    pub fn new(url: &str) -> (r: Self)
        ensures
            r@.method == "GET"@,
            r@.url == url@,
            r@.headers == Map::<Seq<char>, Seq<char>>::empty(),
            r@.body is None,
            duration_nanos(r@.timeout) == DEFAULT_TIMEOUT_SECS * 1_000_000_000,
            r@.follow_redirects,
    {
        HttpRequest {
            method: String::from_str("GET"),
            url: String::from_str(url),
            headers: Headers::new(),
            body: None,
            timeout: Duration::from_secs(DEFAULT_TIMEOUT_SECS),
            follow_redirects: true,
        }
    }

    /// Sets the HTTP method, given in any case. A text whose upper-case form
    /// is not a method is reported as `InvalidMethod`.
    pub fn method(self, method: &str) -> (r: Result<Self, RurlError>)
        ensures
            match r {
                Ok(q) => is_method_token(uppercase_of(method@)) && q@ == (HttpRequestView {
                    method: uppercase_of(method@),
                    ..self@
                }),
                Err(e) => !is_method_token(uppercase_of(method@)) && e is InvalidMethod
                    && e.detail() == method@,
            },
    {
        match parse_method(method) {
            Ok(upper) => {
                let mut request = self;
                request.method = upper;
                Ok(request)
            },
            Err(e) => Err(e),
        }
    }

    /// Sets one header, replacing the value the name had.
    pub fn header(self, key: &str, value: &str) -> (r: Self)
        ensures
            r@ == (HttpRequestView { headers: self@.headers.insert(key@, value@), ..self@ }),
    {
        let mut request = self;
        request.headers.insert(String::from_str(key), String::from_str(value));
        request
    }

    /// Sets the headers given as lines of the form `Name: Value`, in order.
    /// The first line without a colon is reported as `InvalidHeader`.
    pub fn headers_from_strings(self, headers: &[String]) -> (r: Result<Self, RurlError>)
        ensures
            match r {
                Ok(q) => {
                    &&& all_well_formed(headers@)
                    &&& q@ == (HttpRequestView {
                        headers: with_header_lines(self@.headers, texts_of(headers@)),
                        ..self@
                    })
                },
                Err(e) => {
                    &&& e is InvalidHeader
                    &&& exists|i: int|
                        #[trigger] is_first_malformed(headers@, i) && e.detail() == headers@[i]@
                },
            },
    {
        let mut request = self;
        let mut i: usize = 0;
        proof {
            assert(texts_of(headers@).take(0) =~= Seq::<Seq<char>>::empty());
        }
        while i < headers.len()
            invariant
                i <= headers@.len(),
                forall|j: int| 0 <= j < i ==> parse_header_line(#[trigger] headers@[j]@) is Some,
                request@ == (HttpRequestView {
                    headers: with_header_lines(self@.headers, texts_of(headers@).take(i as int)),
                    ..self@
                }),
            decreases headers@.len() - i,
        {
            match split_header_line(headers[i].as_str()) {
                Some((name, value)) => {
                    proof {
                        let lines = texts_of(headers@);
                        assert(lines.take(i + 1).drop_last() =~= lines.take(i as int));
                        assert(lines.take(i + 1).last() == headers@[i as int]@);
                    }
                    request.headers.insert(name, value);
                },
                None => {
                    assert(is_first_malformed(headers@, i as int));
                    return Err(RurlError::InvalidHeader(headers[i].clone()));
                },
            }
            i += 1;
        }
        proof {
            let lines = texts_of(headers@);
            assert(lines.take(lines.len() as int) =~= lines);
        }
        Ok(request)
    }

    /// Sets the request body.
    pub fn body(self, body: &str) -> (r: Self)
        ensures
            r@ == (HttpRequestView { body: Some(body@), ..self@ }),
    {
        let mut request = self;
        request.body = Some(String::from_str(body));
        request
    }

    /// Sets the request timeout.
    pub fn timeout(self, timeout: Duration) -> (r: Self)
        ensures
            r@ == (HttpRequestView { timeout: timeout, ..self@ }),
    {
        let mut request = self;
        request.timeout = timeout;
        request
    }

    /// Sets whether HTTP redirects are followed.
    pub fn follow_redirects(self, follow: bool) -> (r: Self)
        ensures
            r@ == (HttpRequestView { follow_redirects: follow, ..self@ }),
    {
        let mut request = self;
        request.follow_redirects = follow;
        request
    }

    /// The body as it is shown: indented where it is a JSON document, else
    /// as it is; nothing where there is no body.
    pub fn display_body(&self) -> (r: Option<String>)
        ensures
            optional_text(r) == match self@.body {
                Some(body) => Some(displayed_body(body)),
                None => None,
            },
    {
        match &self.body {
            Some(body) => Some(display_body(body.as_str())),
            None => None,
        }
    }

    /// How many redirects may be followed: up to ten where redirects are
    /// followed, none at all where they are not.
    pub fn redirect_limit(&self) -> (r: Option<usize>)
        ensures
            r == if self@.follow_redirects {
                Some(MAX_REDIRECTS)
            } else {
                None::<usize>
            },
    {
        if self.follow_redirects {
            Some(MAX_REDIRECTS)
        } else {
            None
        }
    }
}

impl Clone for HttpRequest {
    fn clone(&self) -> (r: Self)
        ensures
            r@ == self@,
    {
        HttpRequest {
            method: self.method.clone(),
            url: self.url.clone(),
            headers: self.headers.clone(),
            body: copy_text(&self.body),
            timeout: self.timeout,
            follow_redirects: self.follow_redirects,
        }
    }
}

} // verus!
