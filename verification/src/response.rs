//! The read contract over one control-plane response, the concrete
//! response value the transport hands back, and the single
//! classification rule applied to every response: below 400 passes
//! through, 400-499 becomes a recoverable error carrying status and
//! body, 500-599 is a container fault and always fatal.

use crate::error::{spec_container_err, Error};
use crate::parse::{parse_u64, spec_parse_u64};
use vstd::prelude::*;

verus! {

pub const AWS_REQ_ID: &'static str = "Lambda-Runtime-Aws-Request-Id";

pub const AWS_DEADLINE_MS: &'static str = "Lambda-Runtime-Deadline-Ms";

pub const AWS_FUNC_ARN: &'static str = "Lambda-Runtime-Invoked-Function-Arn";

pub const AWS_TRACE_ID: &'static str = "Lambda-Runtime-Trace-Id";

pub const AWS_CLIENT_CTX: &'static str = "Lambda-Runtime-Client-Context";

pub const AWS_COG_ID: &'static str = "Lambda-Runtime-Cognito-Identity";

pub const AWS_FUNC_ERR_TYPE: &'static str = "Lambda-Runtime-Function-Error-Type";

/// A read-only view over one response from the control plane: the
/// status code, the protocol-reserved headers and a body obtainable
/// exactly once.
pub trait LambdaAPIResponse: Sized {
    spec fn status_spec(&self) -> u16;

    spec fn body_spec(&self) -> Seq<char>;

    spec fn request_id_spec(&self) -> Option<Seq<char>>;

    spec fn deadline_spec(&self) -> Option<u64>;

    spec fn function_arn_spec(&self) -> Option<Seq<char>>;

    spec fn trace_id_spec(&self) -> Option<Seq<char>>;

    spec fn client_context_spec(&self) -> Option<Seq<char>>;

    spec fn cognito_identity_spec(&self) -> Option<Seq<char>>;

    /// Consumes the response and yields its body; reading the body may
    /// itself fail at the transport.
    fn get_body(self) -> (r: Result<String, Error>)
        ensures
            r matches Ok(b) ==> b@ == self.body_spec(),
    ;

    fn get_status_code(&self) -> (r: u16)
        ensures
            r == self.status_spec(),
    ;

    fn get_aws_request_id(&self) -> (r: Option<&str>)
        ensures
            r.deep_view() == self.request_id_spec(),
    ;

    /// The deadline header, already read as milliseconds since the
    /// epoch; absent when the header is absent or not a number.
    fn get_deadline(&self) -> (r: Option<u64>)
        ensures
            r == self.deadline_spec(),
    ;

    fn get_invoked_function_arn(&self) -> (r: Option<&str>)
        ensures
            r.deep_view() == self.function_arn_spec(),
    ;

    fn get_x_ray_tracing_id(&self) -> (r: Option<&str>)
        ensures
            r.deep_view() == self.trace_id_spec(),
    ;

    fn get_client_context(&self) -> (r: Option<&str>)
        ensures
            r.deep_view() == self.client_context_spec(),
    ;

    fn get_cognito_identity(&self) -> (r: Option<&str>)
        ensures
            r.deep_view() == self.cognito_identity_spec(),
    ;

    /// Whether the status lies in the success range.
    fn is_success(&self) -> (r: bool)
        ensures
            r == (200 <= self.status_spec() <= 299),
    {
        let status = self.get_status_code();
        200 <= status && status <= 299
    }

    /// Whether the status lies in the client-error range.
    fn is_client_err(&self) -> (r: bool)
        ensures
            r == (400 <= self.status_spec() <= 499),
    {
        let status = self.get_status_code();
        400 <= status && status <= 499
    }

    /// Whether the status lies in the server-error range.
    fn is_server_err(&self) -> (r: bool)
        ensures
            r == (500 <= self.status_spec() <= 599),
    {
        let status = self.get_status_code();
        500 <= status && status <= 599
    }

    /// Whether the status lies in either error range.
    fn is_err(&self) -> (r: bool)
        ensures
            r == (400 <= self.status_spec() <= 599),
    {
        let status = self.get_status_code();
        400 <= status && status <= 599
    }
}

/// A response held as plain values: what any transport backend reduces
/// its own response type to before the runtime loop reads it. Header
/// values are kept as received; the deadline is parsed on demand.
#[derive(Clone, Debug)]
pub struct Response {
    pub status: u16,
    pub request_id: Option<String>,
    pub deadline_ms: Option<String>,
    pub function_arn: Option<String>,
    pub trace_id: Option<String>,
    pub client_context: Option<String>,
    pub cognito_identity: Option<String>,
    pub body: String,
}

/// Borrows the contents of an optional owned string.
fn opt_as_str(field: &Option<String>) -> (r: Option<&str>)
    ensures
        r.deep_view() == field.deep_view(),
{
    match field {
        Some(s) => Some(s.as_str()),
        None => None,
    }
}

impl LambdaAPIResponse for Response {
    open spec fn status_spec(&self) -> u16 {
        self.status
    }

    open spec fn body_spec(&self) -> Seq<char> {
        self.body@
    }

    open spec fn request_id_spec(&self) -> Option<Seq<char>> {
        self.request_id.deep_view()
    }

    open spec fn deadline_spec(&self) -> Option<u64> {
        match self.deadline_ms {
            Some(ms) => spec_parse_u64(ms@),
            None => None,
        }
    }

    open spec fn function_arn_spec(&self) -> Option<Seq<char>> {
        self.function_arn.deep_view()
    }

    open spec fn trace_id_spec(&self) -> Option<Seq<char>> {
        self.trace_id.deep_view()
    }

    open spec fn client_context_spec(&self) -> Option<Seq<char>> {
        self.client_context.deep_view()
    }

    open spec fn cognito_identity_spec(&self) -> Option<Seq<char>> {
        self.cognito_identity.deep_view()
    }

    fn get_body(self) -> (r: Result<String, Error>) {
        Ok(self.body)
    }

    fn get_status_code(&self) -> (r: u16) {
        self.status
    }

    fn get_aws_request_id(&self) -> (r: Option<&str>) {
        opt_as_str(&self.request_id)
    }

    fn get_deadline(&self) -> (r: Option<u64>) {
        match &self.deadline_ms {
            Some(ms) => parse_u64(ms.as_str()),
            None => None,
        }
    }

    fn get_invoked_function_arn(&self) -> (r: Option<&str>) {
        opt_as_str(&self.function_arn)
    }

    fn get_x_ray_tracing_id(&self) -> (r: Option<&str>) {
        opt_as_str(&self.trace_id)
    }

    fn get_client_context(&self) -> (r: Option<&str>) {
        opt_as_str(&self.client_context)
    }

    fn get_cognito_identity(&self) -> (r: Option<&str>) {
        opt_as_str(&self.cognito_identity)
    }
}

/// The three ways the runtime reacts to a status code.
#[derive(Clone, Copy, Debug, PartialEq, Eq, Structural)]
pub enum StatusClass {
    /// The response passes through to its caller.
    Success,
    /// A client error: recoverable, the body is surfaced as the
    /// diagnostic.
    ClientError,
    /// A server error: the execution environment itself is taken as
    /// broken, and the process must abort.
    ServerError,
}

/// The classification rule applied after every transport call.
pub open spec fn spec_classify(status: u16) -> StatusClass {
    if 400 <= status <= 499 {
        StatusClass::ClientError
    } else if 500 <= status <= 599 {
        StatusClass::ServerError
    } else {
        StatusClass::Success
    }
}

/// Classifies one status code.
pub fn classify_status(status: u16) -> (c: StatusClass)
    ensures
        c == spec_classify(status),
{
    if 400 <= status && status <= 499 {
        StatusClass::ClientError
    } else if 500 <= status && status <= 599 {
        StatusClass::ServerError
    } else {
        StatusClass::Success
    }
}

/// Applies the classification rule to a fresh response: passes a
/// successful one through unchanged, turns a client error into a
/// recoverable `Error` carrying status and body, and turns a server
/// error into the fatal container fault — with no report attempted
/// here or anywhere on that path.
pub fn handle_response<R: LambdaAPIResponse>(resp: R) -> (r: Result<R, Error>)
    ensures
        match r {
            Ok(out) => out == resp && spec_classify(resp.status_spec()) is Success,
            Err(e) => {
                &&& !(spec_classify(resp.status_spec()) is Success)
                &&& (e.is_fatal_spec() <==> spec_classify(resp.status_spec()) is ServerError)
                &&& e.status_spec() == Some(resp.status_spec())
                &&& (spec_classify(resp.status_spec()) is ServerError ==> e.text()
                    == spec_container_err())
                &&& (spec_classify(resp.status_spec()) is ClientError ==> e.text()
                    == resp.body_spec() || e.text() == Seq::<char>::empty())
            },
        },
{
    let status = resp.get_status_code();
    match classify_status(status) {
        StatusClass::Success => Ok(resp),
        StatusClass::ClientError => {
            let msg = match resp.get_body() {
                Ok(b) => b,
                Err(_) => String::new(),
            };
            Err(Error::with_status(status, msg))
        },
        StatusClass::ServerError => Err(Error::container(status)),
    }
}

} // verus!
