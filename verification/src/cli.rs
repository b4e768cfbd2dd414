//! The command line of the client, as parsed values, and what follows from
//! it.

use vstd::prelude::*;
use vstd::string::*;
use std::path::PathBuf;
use std::time::Duration;
use crate::error::RurlError;
use crate::http::request::{
    all_well_formed, is_first_malformed, is_method_token, with_header_lines, HttpRequest,
};
use crate::text::{optional_text, texts_of, uppercase_of};
use crate::time::duration_nanos;

verus! {

/// A path in the file system.
#[verifier::external_type_specification]
#[verifier::external_body]
pub struct ExPathBuf(PathBuf);

/// The arguments of one invocation.
#[derive(Debug)]
pub struct Cli {
    /// The target URL.
    pub url: String,
    /// The HTTP method (`-X`, default GET).
    pub method: String,
    /// Header lines `Name: Value` (`-H`, any number).
    pub headers: Vec<String>,
    /// The request body given inline (`-d`).
    pub data: Option<String>,
    /// The file the request body is read from (`-f`).
    pub body_file: Option<PathBuf>,
    /// Whether response headers are shown (`-i`).
    pub include_headers: bool,
    /// Whether redirects are followed (`-L`).
    pub follow_redirects: bool,
    /// Whether requests and responses are printed in detail (`-v`).
    pub verbose: bool,
    /// The request timeout in seconds (`--timeout`, default 30).
    pub timeout: u64,
    /// The dataset file of a performance test (`--perf`).
    pub perf_file: Option<PathBuf>,
    /// The bound on concurrent requests (`-c`, default 1).
    pub concurrency: usize,
    /// The number of requests (`-n`, default 1).
    pub total_requests: usize,
    /// The format of the performance report (`--output`, default text).
    pub output_format: String,
}

impl Cli {
    /// Whether a performance test is asked for: a dataset file is given,
    /// or more than one request, or more than one at a time.
    pub fn is_perf_mode(&self) -> (r: bool)
        ensures
            r == (self.perf_file is Some || self.total_requests > 1 || self.concurrency > 1),
    {
        self.perf_file.is_some() || self.total_requests > 1 || self.concurrency > 1
    }

    /// The file whose content is to replace the body of the base request:
    /// the body file, unless a body is given inline.
    pub fn body_source(&self) -> (r: Option<&PathBuf>)
        ensures
            r == match (self.data, self.body_file) {
                (None, Some(file)) => Some(&file),
                _ => None,
            },
    {
        match (&self.data, &self.body_file) {
            (None, Some(file)) => Some(file),
            _ => None,
        }
    }

    /// The request that the arguments describe: method, URL, header lines,
    /// timeout and redirect policy as given, and the inline data as body.
    /// A method that is none is reported first, then the first header line
    /// without a colon.
    pub fn base_request(&self) -> (r: Result<HttpRequest, RurlError>)
        ensures
            match r {
                Ok(q) => {
                    &&& is_method_token(uppercase_of(self.method@))
                    &&& all_well_formed(self.headers@)
                    &&& q@.method == uppercase_of(self.method@)
                    &&& q@.url == self.url@
                    &&& q@.headers == with_header_lines(
                        Map::<Seq<char>, Seq<char>>::empty(),
                        texts_of(self.headers@),
                    )
                    &&& q@.body == optional_text(self.data)
                    &&& duration_nanos(q@.timeout) == self.timeout * 1_000_000_000
                    &&& q@.follow_redirects == self.follow_redirects
                },
                Err(e) => if is_method_token(uppercase_of(self.method@)) {
                    &&& e is InvalidHeader
                    &&& exists|i: int|
                        #[trigger] is_first_malformed(self.headers@, i) && e.detail()
                            == self.headers@[i]@
                } else {
                    e is InvalidMethod && e.detail() == self.method@
                },
            },
    {
        let request = match HttpRequest::new(self.url.as_str()).method(self.method.as_str()) {
            Ok(q) => q,
            Err(e) => {
                return Err(e);
            },
        };
        let request = match request.headers_from_strings(self.headers.as_slice()) {
            Ok(q) => q,
            Err(e) => {
                return Err(e);
            },
        };
        let request = request.timeout(Duration::from_secs(self.timeout)).follow_redirects(
            self.follow_redirects,
        );
        match &self.data {
            Some(data) => Ok(request.body(data.as_str())),
            None => Ok(request),
        }
    }
}

} // verus!
