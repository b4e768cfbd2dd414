//! Running a performance test: building each request from the base request
//! and a dataset entry, and dispatching the planned requests under a bound
//! on how many are in flight.

use vstd::prelude::*;
use vstd::string::*;
use crate::error::RurlError;
use crate::http::request::{is_method_token, parse_method, HttpRequest, HttpRequestView};
use crate::perf::dataset::{DatasetEntry, DatasetEntryView};
use crate::text::{
    chars_of, copy_text, optional_text, starts_with, string_from, uppercase_of, without_trailing,
};

verus! {

/// The settings of a performance test.
pub struct PerfRunner {
    base_url: String,
    base_request: HttpRequest,
    concurrency: usize,
    total_requests: usize,
    verbose: bool,
}

/// What a runner holds, as mathematical values.
pub struct PerfRunnerView {
    pub base_url: Seq<char>,
    pub base_request: HttpRequestView,
    pub concurrency: nat,
    pub total_requests: nat,
    pub verbose: bool,
}

impl View for PerfRunner {
    type V = PerfRunnerView;

    closed spec fn view(&self) -> PerfRunnerView {
        PerfRunnerView {
            base_url: self.base_url@,
            base_request: self.base_request@,
            concurrency: self.concurrency as nat,
            total_requests: self.total_requests as nat,
            verbose: self.verbose,
        }
    }
}

/// Whether a path is an absolute URL: whether it begins with `http://` or
/// `https://`.
pub open spec fn is_absolute(path: Seq<char>) -> bool {
    "http://"@.is_prefix_of(path) || "https://"@.is_prefix_of(path)
}

/// The URL of a request: the path where it is an absolute URL, else the
/// base URL without trailing slashes followed by the path; the base URL
/// where there is no path.
pub open spec fn resolved_url(base_url: Seq<char>, path: Option<Seq<char>>) -> Seq<char> {
    match path {
        None => base_url,
        Some(p) => if is_absolute(p) {
            p
        } else {
            without_trailing(base_url, '/') + p
        },
    }
}

/// The headers of a request: those of the base request, overridden by
/// those of the entry.
pub open spec fn merged_headers(
    base: Map<Seq<char>, Seq<char>>,
    entry: Option<Map<Seq<char>, Seq<char>>>,
) -> Map<Seq<char>, Seq<char>> {
    match entry {
        Some(h) => base.union_prefer_right(h),
        None => base,
    }
}

/// The request made from an entry and the given method: URL, headers and
/// body of the entry take precedence over those of the base request, from
/// which timeout and redirect policy are taken.
pub open spec fn assembled_request(
    runner: PerfRunnerView,
    entry: DatasetEntryView,
    method: Seq<char>,
) -> HttpRequestView {
    HttpRequestView {
        method: method,
        url: resolved_url(runner.base_url, entry.path),
        headers: merged_headers(runner.base_request.headers, entry.headers),
        body: match entry.body {
            Some(b) => Some(b),
            None => runner.base_request.body,
        },
        timeout: runner.base_request.timeout,
        follow_redirects: runner.base_request.follow_redirects,
    }
}

/// Whether a request can be made from an entry: whether the upper-case
/// form of its method is a method.
pub open spec fn is_valid_entry(entry: DatasetEntryView) -> bool {
    is_method_token(uppercase_of(entry.method))
}

/// The request made from an entry, its method in upper case.
pub open spec fn built_request(runner: PerfRunnerView, entry: DatasetEntryView) -> HttpRequestView {
    assembled_request(runner, entry, uppercase_of(entry.method))
}

/// Resolves the URL of a request from the base URL and the path of an
/// entry.
pub fn resolve_url(base_url: &str, path: &Option<String>) -> (r: String)
    ensures
        r@ == resolved_url(base_url@, optional_text(*path)),
{
    match path {
        None => String::from_str(base_url),
        Some(p) => {
            let path_chars = chars_of(p.as_str());
            let http = chars_of("http://");
            let https = chars_of("https://");
            if starts_with(&path_chars, &http) || starts_with(&path_chars, &https) {
                p.clone()
            } else {
                let base = chars_of(base_url);
                let mut end: usize = base.len();
                proof {
                    assert(base@.subrange(0, base@.len() as int) =~= base@);
                }
                while end > 0 && base[end - 1] == '/'
                    invariant
                        end <= base.len(),
                        without_trailing(base@, '/') == without_trailing(
                            base@.subrange(0, end as int),
                            '/',
                        ),
                    decreases end,
                {
                    assert(base@.subrange(0, end as int).drop_last() =~= base@.subrange(
                        0,
                        end - 1,
                    ));
                    end -= 1;
                }
                string_from(&base, 0, end).concat(p.as_str())
            }
        },
    }
}

impl PerfRunner {
    /// A runner for `total_requests` requests to `base_url`, at most
    /// `concurrency` of them in flight at a time, each made from
    /// `base_request` and a dataset entry.
    pub fn new(
        base_url: String,
        base_request: HttpRequest,
        concurrency: usize,
        total_requests: usize,
        verbose: bool,
    ) -> (r: Self)
        ensures
            r@ == (PerfRunnerView {
                base_url: base_url@,
                base_request: base_request@,
                concurrency: concurrency as nat,
                total_requests: total_requests as nat,
                verbose: verbose,
            }),
    {
        PerfRunner { base_url, base_request, concurrency, total_requests, verbose }
    }

    /// The bound on the requests in flight.
    pub fn concurrency(&self) -> (r: usize)
        ensures
            r == self@.concurrency,
    {
        self.concurrency
    }

    /// The number of requests to make.
    pub fn total_requests(&self) -> (r: usize)
        ensures
            r == self@.total_requests,
    {
        self.total_requests
    }

    /// Whether requests and responses are printed in detail.
    pub fn verbose(&self) -> (r: bool)
        ensures
            r == self@.verbose,
    {
        self.verbose
    }

    /// Makes the request for an entry with the given method, which is taken
    /// as it is.
    pub fn assemble_request(&self, entry: &DatasetEntry, method: String) -> (r: HttpRequest)
        ensures
            r@ == assembled_request(self@, entry@, method@),
    {
        let url = resolve_url(self.base_url.as_str(), &entry.path);
        let mut headers = self.base_request.headers.clone();
        match &entry.headers {
            Some(h) => {
                headers.extend_from(h);
            },
            None => {},
        }
        let body = match entry.get_body_string() {
            Some(b) => Some(b),
            None => copy_text(&self.base_request.body),
        };
        HttpRequest {
            method,
            url,
            headers,
            body,
            timeout: self.base_request.timeout,
            follow_redirects: self.base_request.follow_redirects,
        }
    }

    /// Makes the request for an entry: URL, headers and body of the entry
    /// take precedence over those of the base request. An entry whose
    /// method is not one is reported as `InvalidMethod`.
    pub fn build_request(&self, entry: &DatasetEntry) -> (r: Result<HttpRequest, RurlError>)
        ensures
            match r {
                Ok(q) => is_valid_entry(entry@) && q@ == built_request(self@, entry@),
                Err(e) => !is_valid_entry(entry@) && e is InvalidMethod && e.detail()
                    == entry@.method,
            },
    {
        match parse_method(entry.method.as_str()) {
            Ok(method) => Ok(self.assemble_request(entry, method)),
            Err(e) => Err(e),
        }
    }
}

} // verus!
