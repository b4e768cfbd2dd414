//! The settings of the client that carries requests out.

use vstd::prelude::*;

verus! {

/// The client that carries requests out.
#[derive(Debug, Clone, Copy)]
pub struct HttpClient {
    verbose: bool,
}

impl HttpClient {
    /// Whether requests and responses are printed in detail.
    pub closed spec fn spec_verbose(&self) -> bool {
        self.verbose
    }

    /// A client that prints requests and responses in detail if `verbose`
    /// is set.
    pub fn new(verbose: bool) -> (r: Self)
        ensures
            r.verbose() == verbose,
    {
        Self { verbose }
    }

    /// Whether requests and responses are printed in detail.
    #[verifier::when_used_as_spec(spec_verbose)]
    pub fn verbose(&self) -> (r: bool)
        ensures
            r == self.verbose(),
    {
        self.verbose
    }
}

} // verus!
