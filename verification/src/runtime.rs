//! The runtime loop's state machine: bootstrap, one-time handler
//! initialization, and the poll-execute-report cycle.
//!
//! The cycle body is verified here; the endless repetition of that
//! body, and turning a fatal error into a process exit, belong to the
//! thin driver around the library, which keeps calling `run_cycle`
//! until it yields a fatal error.

use crate::context::{
    EventContext, InvocationView, LambdaContext, LambdaContextSetter, RuntimeEnvVars,
};
use crate::env::EnvSink;
use crate::error::Error;
use crate::handler::EventHandler;
use crate::response::{handle_response, spec_classify, LambdaAPIResponse, StatusClass,
    AWS_FUNC_ERR_TYPE};
use crate::transport::Transport;
use crate::urls::{
    format_version_string, init_error_url, invocation_error_url, invocation_response_url,
    next_invocation_url, spec_normalize_version,
};
use vstd::prelude::*;
use vstd::string::StringExecFns;

verus! {

/// What one turn of the poll-execute-report cycle did.
#[derive(Clone, Copy, Debug, PartialEq, Eq, Structural)]
pub enum CycleReport {
    /// The poll failed recoverably (a transport error or a client
    /// error): nothing was invoked, the loop polls again.
    PollFailed,
    /// The poll looked successful but carried no request id: a
    /// protocol violation, reported in place of invoking the handler.
    MissingRequestId,
    /// The event body could not be read from the poll response:
    /// treated like a transport failure, the loop polls again.
    BodyUnavailable,
    /// The handler ran exactly once for the polled invocation;
    /// `reported` tells whether the control plane accepted the
    /// resulting report.
    Invoked { reported: bool },
}

/// The diagnostic that ends the process after a failed
/// initialization: the handler's own message, and, when reporting it
/// to the control plane failed too, that failure beside it.
pub open spec fn spec_init_failure_text(
    init_msg: Seq<char>,
    report_msg: Option<Seq<char>>,
) -> Seq<char> {
    match report_msg {
        Some(rm) => "Failed to report initialization error. Error: "@ + init_msg
            + ", AWS Error: "@ + rm,
        None => "Initialization Error: "@ + init_msg,
    }
}

/// Whether `t` is an initialization-failure diagnostic for some pair
/// of messages.
pub open spec fn is_init_failure_text(t: Seq<char>) -> bool {
    exists|init_msg: Seq<char>, report_msg: Option<Seq<char>>|
        t == spec_init_failure_text(init_msg, report_msg)
}

/// Builds the fatal error that ends the process after a failed
/// initialization.
fn compose_init_failure(init_msg: &str, report_msg: Option<&str>) -> (e: Error)
    ensures
        e.is_fatal_spec(),
        e.status_spec() is None,
        e.text() == spec_init_failure_text(init_msg@, report_msg.deep_view()),
{
    match report_msg {
        Some(rm) => {
            let mut msg = String::from_str("Failed to report initialization error. Error: ");
            msg.append(init_msg);
            msg.append(", AWS Error: ");
            msg.append(rm);
            proof {
                assert(msg@ =~= spec_init_failure_text(init_msg@, report_msg.deep_view()));
            }
            Error::fatal(msg)
        },
        None => {
            let mut msg = String::from_str("Initialization Error: ");
            msg.append(init_msg);
            proof {
                assert(msg@ =~= spec_init_failure_text(init_msg@, report_msg.deep_view()));
            }
            Error::fatal(msg)
        },
    }
}

/// The default runtime: a context, the normalized protocol version,
/// the control-plane base address, and the three capabilities it
/// orchestrates.
pub struct DefaultRuntime<T: Transport, H: EventHandler, S: EnvSink> {
    context: EventContext,
    version: String,
    api_base: String,
    transport: T,
    handler: H,
    sink: S,
    invocations: Ghost<nat>,
    initializations: Ghost<nat>,
}

impl<T: Transport, H: EventHandler, S: EnvSink> DefaultRuntime<T, H, S> {
    /// The context as it currently stands.
    pub closed spec fn context_spec(&self) -> EventContext {
        self.context
    }

    /// The normalized protocol version used in every URL.
    pub closed spec fn version_spec(&self) -> Seq<char> {
        self.version@
    }

    /// The control-plane base address used in every URL.
    pub closed spec fn api_base_spec(&self) -> Seq<char> {
        self.api_base@
    }

    /// How many times the handler's `on_event` has run under this
    /// runtime. The counter is ghost instrumentation kept next to the
    /// one call site: every contract below pins how it may grow, so
    /// that one invocation per successfully polled event is a checked
    /// statement, not a convention.
    pub closed spec fn invocations_spec(&self) -> nat {
        self.invocations@
    }

    /// How many times the handler's `initialize` has run under this
    /// runtime: ghost instrumentation like `invocations_spec`, so
    /// that one-time setup stays a checked statement. `run_init` is
    /// the one place it grows.
    pub closed spec fn initializations_spec(&self) -> nat {
        self.initializations@
    }

    /// Builds a runtime over the given capabilities. The control-plane
    /// base address must be present in the configuration: its absence
    /// is a fatal configuration error, there being no invocation yet
    /// to report it against.
    pub fn new(version: &str, context: EventContext, transport: T, handler: H, sink: S) -> (r:
        Result<Self, Error>)
        ensures
            match r {
                Ok(rt) => {
                    &&& context.config_view().runtime_api matches Some(api) && rt.api_base_spec()
                        == api
                    &&& rt.version_spec() == spec_normalize_version(version@)
                    &&& rt.context_spec() == context
                    &&& rt.invocations_spec() == 0
                    &&& rt.initializations_spec() == 0
                },
                Err(e) => {
                    &&& context.config_view().runtime_api is None
                    &&& e.is_fatal_spec()
                    &&& e.text() == "Failed getting API base URL from env vars"@
                },
            },
    {
        let api_base = match context.get_runtime_api() {
            Some(v) => String::from_str(v),
            None => {
                return Err(
                    Error::fatal(String::from_str("Failed getting API base URL from env vars")),
                );
            },
        };
        let formatted_version = format_version_string(version);
        Ok(
            DefaultRuntime {
                context,
                version: formatted_version,
                api_base,
                transport,
                handler,
                sink,
                invocations: Ghost(0),
                initializations: Ghost(0),
            },
        )
    }

    /// A read-only view of the current context, as handed to the
    /// handler during an invocation.
    pub fn context(&self) -> (r: &EventContext)
        ensures
            r == self.context_spec(),
    {
        &self.context
    }

    /// Polls the control plane for the next invocation. On a
    /// successful, non-error response every mutable context field is
    /// overwritten with exactly the value extracted from that
    /// response's reserved headers, the trace id is mirrored into the
    /// environment sink, and the immutable configuration is untouched;
    /// on any failure the context keeps its previous state.
    pub fn next_invocation(&mut self) -> (r: Result<T::Response, Error>)
        ensures
            match r {
                Ok(resp) => {
                    &&& spec_classify(resp.status_spec()) is Success
                    &&& final(self).context_spec().config_view()
                        == old(self).context_spec().config_view()
                    &&& final(self).context_spec().invocation_view() == (InvocationView {
                        trace_id: resp.trace_id_spec(),
                        deadline: resp.deadline_spec(),
                        function_arn: resp.function_arn_spec(),
                        request_id: resp.request_id_spec(),
                        cognito_identity: resp.cognito_identity_spec(),
                        client_context: resp.client_context_spec(),
                    })
                    &&& final(self).version_spec() == old(self).version_spec()
                    &&& final(self).api_base_spec() == old(self).api_base_spec()
                    &&& final(self).invocations_spec() == old(self).invocations_spec()
                    &&& final(self).initializations_spec() == old(self).initializations_spec()
                },
                Err(e) => *final(self) == *old(self),
            },
    {
        let url = next_invocation_url(self.api_base.as_str(), self.version.as_str());
        let resp = match self.transport.get(url.as_str(), None, None) {
            Ok(re) => re,
            Err(e) => {
                return Err(e);
            },
        };
        let resp = match handle_response(resp) {
            Ok(re) => re,
            Err(e) => {
                return Err(e);
            },
        };
        let rid = resp.get_aws_request_id();
        self.context.set_aws_request_id(rid);
        let cc = resp.get_client_context();
        self.context.set_client_context(cc);
        let cog = resp.get_cognito_identity();
        self.context.set_cognito_identity(cog);
        let dl = resp.get_deadline();
        self.context.set_deadline(dl);
        let arn = resp.get_invoked_function_arn();
        self.context.set_invoked_function_arn(arn);
        let tid = resp.get_x_ray_tracing_id();
        self.sink.set_trace_id(tid);
        let tid = resp.get_x_ray_tracing_id();
        self.context.set_trace_id(tid);
        Ok(resp)
    }

    /// Posts one already-serialized output to the response endpoint
    /// for `request_id`, then applies the classification rule to what
    /// came back.
    fn post_response(&self, request_id: &str, serialized: &str) -> (r: Result<T::Response, Error>)
        ensures
            r matches Ok(resp) ==> spec_classify(resp.status_spec()) is Success,
    {
        let url = invocation_response_url(
            self.api_base.as_str(),
            self.version.as_str(),
            request_id,
        );
        let resp = match self.transport.post(url.as_str(), Some(serialized), None) {
            Ok(re) => re,
            Err(e) => {
                return Err(e);
            },
        };
        handle_response(resp)
    }

    /// Serializes the output of a successful invocation and posts it
    /// to the response endpoint for `request_id`, then applies the
    /// classification rule to what came back.
    pub fn invocation_response(&self, request_id: &str, response: &H::EventOutput) -> (r: Result<
        T::Response,
        Error,
    >)
        ensures
            r matches Ok(resp) ==> spec_classify(resp.status_spec()) is Success,
    {
        let serialized = match H::serialize_output(response) {
            Ok(ser) => ser,
            Err(err) => {
                let mut msg = String::from_str("Failed serializing output to JSON. ");
                msg.append(err.message());
                return Err(Error::new(msg));
            },
        };
        self.post_response(request_id, serialized.as_str())
    }

    /// Reports an initialization failure (or a protocol violation
    /// found before any invocation could be attributed) to the init
    /// error endpoint, with the optional error-type header and the
    /// caller-supplied diagnostic as the body.
    pub fn initialization_error(&self, error_type: Option<&str>, error_req: Option<&str>) -> (r:
        Result<T::Response, Error>)
        ensures
            r matches Ok(resp) ==> spec_classify(resp.status_spec()) is Success,
    {
        let url = init_error_url(self.api_base.as_str(), self.version.as_str());
        let sent = match error_type {
            Some(et) => {
                let keys: Vec<&str> = vec![AWS_FUNC_ERR_TYPE];
                let values: Vec<&str> = vec![et];
                self.transport.post(url.as_str(), error_req, Some((keys, values)))
            },
            None => self.transport.post(url.as_str(), error_req, None),
        };
        let resp = match sent {
            Ok(re) => re,
            Err(e) => {
                return Err(e);
            },
        };
        handle_response(resp)
    }

    /// Reports a failed invocation to the error endpoint for
    /// `request_id`, with the optional error-type header and the
    /// caller-supplied diagnostic as the body.
    pub fn invocation_error(
        &self,
        request_id: &str,
        error_type: Option<&str>,
        error_req: Option<&str>,
    ) -> (r: Result<T::Response, Error>)
        ensures
            r matches Ok(resp) ==> spec_classify(resp.status_spec()) is Success,
    {
        let url = invocation_error_url(self.api_base.as_str(), self.version.as_str(), request_id);
        let sent = match error_type {
            Some(et) => {
                let keys: Vec<&str> = vec![AWS_FUNC_ERR_TYPE];
                let values: Vec<&str> = vec![et];
                self.transport.post(url.as_str(), error_req, Some((keys, values)))
            },
            None => self.transport.post(url.as_str(), error_req, None),
        };
        let resp = match sent {
            Ok(re) => re,
            Err(e) => {
                return Err(e);
            },
        };
        handle_response(resp)
    }

    /// Runs the handler's one-time setup, exactly once per call. On
    /// failure the error is reported best-effort to the init error
    /// endpoint and a fatal error comes back either way —
    /// initialization failure always ends the process, whether or not
    /// the report got through — carrying the handler's diagnostic,
    /// and the report failure beside it when there was one. The
    /// context is untouched.
    pub fn run_init(&mut self) -> (r: Option<Error>)
        ensures
            final(self).context_spec() == old(self).context_spec(),
            final(self).version_spec() == old(self).version_spec(),
            final(self).api_base_spec() == old(self).api_base_spec(),
            final(self).invocations_spec() == old(self).invocations_spec(),
            final(self).initializations_spec() == old(self).initializations_spec() + 1,
            r matches Some(e) ==> {
                &&& e.is_fatal_spec()
                &&& e.status_spec() is None
                &&& is_init_failure_text(e.text())
            },
    {
        let init_result = self.handler.initialize();
        self.initializations = Ghost(self.initializations@ + 1);
        match init_result {
            Ok(_) => None,
            Err(init_err) => {
                let reported = self.initialization_error(
                    Some("Runtime.InitError"),
                    Some(init_err.message()),
                );
                match reported {
                    Err(report_err) => Some(
                        compose_init_failure(init_err.message(), Some(report_err.message())),
                    ),
                    Ok(_) => Some(compose_init_failure(init_err.message(), None)),
                }
            },
        }
    }

    /// One turn of the cycle: poll, classify, update the context,
    /// invoke the handler at most once, and report the outcome — the
    /// serialized output to the response endpoint, a handler failure
    /// or an output that would not serialize to the error endpoint.
    /// A fatal error — a server error on any call — comes back as
    /// `Err` and the caller must stop; everything else yields a report
    /// of what happened and the loop may poll again. The immutable
    /// configuration survives every path unchanged.
    pub fn run_cycle(&mut self) -> (r: Result<CycleReport, Error>)
        ensures
            final(self).context_spec().config_view() == old(self).context_spec().config_view(),
            final(self).version_spec() == old(self).version_spec(),
            final(self).api_base_spec() == old(self).api_base_spec(),
            final(self).initializations_spec() == old(self).initializations_spec(),
            r matches Ok(rep) ==> final(self).invocations_spec() == old(
                self,
            ).invocations_spec() + (if rep matches CycleReport::Invoked { .. } {
                1nat
            } else {
                0nat
            }),
            r is Err ==> old(self).invocations_spec() <= final(self).invocations_spec() <= old(
                self,
            ).invocations_spec() + 1,
            r matches Err(e) ==> e.is_fatal_spec(),
            r matches Ok(rep) ==> match rep {
                CycleReport::PollFailed => final(self).context_spec() == old(self).context_spec(),
                CycleReport::MissingRequestId =>
                    final(self).context_spec().invocation_view().request_id is None,
                CycleReport::BodyUnavailable =>
                    final(self).context_spec().invocation_view().request_id is Some,
                CycleReport::Invoked { .. } =>
                    final(self).context_spec().invocation_view().request_id is Some,
            },
    {
        let polled = self.next_invocation();
        let resp = match polled {
            Err(e) => {
                if e.is_fatal() {
                    return Err(e);
                }
                return Ok(CycleReport::PollFailed);
            },
            Ok(re) => re,
        };
        let request_id = match self.context.get_aws_request_id() {
            Some(rid) => rid,
            None => {
                let reported = self.initialization_error(Some("Runtime.MissingRequestId"), None);
                if let Err(e) = reported {
                    if e.is_fatal() {
                        return Err(e);
                    }
                }
                return Ok(CycleReport::MissingRequestId);
            },
        };
        let event = match resp.get_body() {
            Ok(b) => b,
            Err(_) => {
                return Ok(CycleReport::BodyUnavailable);
            },
        };
        let outcome = self.handler.on_event(event.as_str(), &self.context);
        self.invocations = Ghost(self.invocations@ + 1);
        let reported = match outcome {
            Ok(out) => match H::serialize_output(&out) {
                Ok(ser) => self.post_response(request_id, ser.as_str()),
                Err(enc_err) => {
                    // An output that cannot be encoded is this
                    // invocation's failure and is reported as such.
                    let mut msg = String::from_str("Failed serializing output to JSON. ");
                    msg.append(enc_err.message());
                    self.invocation_error(request_id, Some(msg.as_str()), Some(msg.as_str()))
                },
            },
            Err(err) => self.invocation_error(
                request_id,
                Some(err.message()),
                Some(err.message()),
            ),
        };
        match reported {
            Ok(_) => Ok(CycleReport::Invoked { reported: true }),
            Err(e) => {
                if e.is_fatal() {
                    Err(e)
                } else {
                    Ok(CycleReport::Invoked { reported: false })
                }
            },
        }
    }
}

} // verus!
