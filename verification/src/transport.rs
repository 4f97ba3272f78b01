//! The abstract capability the runtime drives the wire through.

use crate::error::Error;
use crate::response::LambdaAPIResponse;
use vstd::prelude::*;

verus! {

/// An HTTP backend: issues GET and POST requests with an optional body
/// and optional headers, and yields a response or a transport error.
/// Nothing is promised of the network, so the methods carry no
/// contract; every caller in the runtime states what holds whatever
/// comes back. The backend, not the caller, chooses timeouts: the poll
/// for the next invocation must be allowed to block effectively
/// without bound.
pub trait Transport: Sized {
    type Response: LambdaAPIResponse;

    fn get(&self, url: &str, body: Option<&str>, headers: Option<(Vec<&str>, Vec<&str>)>) -> Result<
        Self::Response,
        Error,
    >;

    fn post(&self, url: &str, body: Option<&str>, headers: Option<(Vec<&str>, Vec<&str>)>) -> Result<
        Self::Response,
        Error,
    >;
}

} // verus!
