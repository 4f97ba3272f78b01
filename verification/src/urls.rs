//! The wire endpoints, built from the control-plane base address, the
//! protocol version and, where one is needed, the request id.

use vstd::prelude::*;
use vstd::string::{StrSliceExecFns, StringExecFns};

verus! {

/// Strips a single leading path separator, if present, from a protocol
/// version string.
pub open spec fn spec_normalize_version(v: Seq<char>) -> Seq<char> {
    if v.len() > 0 && v[0] == '/' {
        v.subrange(1, v.len() as int)
    } else {
        v
    }
}

/// The URL polled for the next invocation.
pub open spec fn spec_next_invocation_url(base: Seq<char>, version: Seq<char>) -> Seq<char> {
    "http://"@ + base + "/"@ + version + "/runtime/invocation/next"@
}

/// The URL a successful invocation's output is posted to.
pub open spec fn spec_invocation_response_url(
    base: Seq<char>,
    version: Seq<char>,
    request_id: Seq<char>,
) -> Seq<char> {
    "http://"@ + base + "/"@ + version + "/runtime/invocation/"@ + request_id + "/response"@
}

/// The URL a failed invocation's diagnostic is posted to.
pub open spec fn spec_invocation_error_url(
    base: Seq<char>,
    version: Seq<char>,
    request_id: Seq<char>,
) -> Seq<char> {
    "http://"@ + base + "/"@ + version + "/runtime/invocation/"@ + request_id + "/error"@
}

/// The URL an initialization failure is posted to.
pub open spec fn spec_init_error_url(base: Seq<char>, version: Seq<char>) -> Seq<char> {
    "http://"@ + base + "/"@ + version + "/runtime/init/error"@
}

/// Normalizes the protocol version string used to build invocation
/// URLs: one leading path separator is dropped, anything else is kept
/// as given.
pub fn format_version_string(version: &str) -> (r: String)
    ensures
        r@ == spec_normalize_version(version@),
{
    let len = version.unicode_len();
    if len > 0 && version.get_char(0) == '/' {
        String::from_str(version.substring_char(1, len))
    } else {
        String::from_str(version)
    }
}

/// Builds the poll URL.
pub fn next_invocation_url(base: &str, version: &str) -> (r: String)
    ensures
        r@ == spec_next_invocation_url(base@, version@),
{
    let mut url = String::from_str("http://");
    url.append(base);
    url.append("/");
    url.append(version);
    url.append("/runtime/invocation/next");
    proof {
        assert(url@ =~= spec_next_invocation_url(base@, version@));
    }
    url
}

/// Builds the URL an invocation's output is reported to.
pub fn invocation_response_url(base: &str, version: &str, request_id: &str) -> (r: String)
    ensures
        r@ == spec_invocation_response_url(base@, version@, request_id@),
{
    let mut url = String::from_str("http://");
    url.append(base);
    url.append("/");
    url.append(version);
    url.append("/runtime/invocation/");
    url.append(request_id);
    url.append("/response");
    proof {
        assert(url@ =~= spec_invocation_response_url(base@, version@, request_id@));
    }
    url
}

/// Builds the URL an invocation's failure is reported to.
pub fn invocation_error_url(base: &str, version: &str, request_id: &str) -> (r: String)
    ensures
        r@ == spec_invocation_error_url(base@, version@, request_id@),
{
    let mut url = String::from_str("http://");
    url.append(base);
    url.append("/");
    url.append(version);
    url.append("/runtime/invocation/");
    url.append(request_id);
    url.append("/error");
    proof {
        assert(url@ =~= spec_invocation_error_url(base@, version@, request_id@));
    }
    url
}

/// Builds the URL an initialization failure is reported to.
pub fn init_error_url(base: &str, version: &str) -> (r: String)
    ensures
        r@ == spec_init_error_url(base@, version@),
{
    let mut url = String::from_str("http://");
    url.append(base);
    url.append("/");
    url.append(version);
    url.append("/runtime/init/error");
    proof {
        assert(url@ =~= spec_init_error_url(base@, version@));
    }
    url
}

/// Law: a version string without a leading separator normalizes to
/// itself, the same string with one leading separator normalizes to
/// the same value, and both therefore build the identical poll URL.
pub proof fn lemma_version_normalization(base: Seq<char>, v: Seq<char>)
    requires
        v.len() == 0 || v[0] != '/',
    ensures
        spec_normalize_version(v) == v,
        spec_normalize_version(seq!['/'] + v) == v,
        spec_next_invocation_url(base, spec_normalize_version(seq!['/'] + v))
            == spec_next_invocation_url(base, spec_normalize_version(v)),
{
    assert(spec_normalize_version(seq!['/'] + v) =~= v);
}

} // verus!
