use rtlambda::context::{EventContext, LambdaContext, RuntimeEnvVars};
use rtlambda::env::EnvSink;
use rtlambda::error::Error;
use rtlambda::handler::EventHandler;
use rtlambda::response::Response;
use rtlambda::runtime::{CycleReport, DefaultRuntime};
use rtlambda::transport::Transport;
use std::cell::RefCell;
use std::collections::VecDeque;
use std::rc::Rc;

#[derive(Clone, Debug, PartialEq, Eq)]
struct CallRecord {
    method: String,
    url: String,
    body: Option<String>,
    headers: Option<(Vec<String>, Vec<String>)>,
}

/// A transport that replays a fixed script of responses and records
/// every request it was asked to make.
struct ScriptedTransport {
    calls: Rc<RefCell<Vec<CallRecord>>>,
    script: RefCell<VecDeque<Result<Response, String>>>,
}

impl ScriptedTransport {
    fn new(script: Vec<Result<Response, String>>) -> (Self, Rc<RefCell<Vec<CallRecord>>>) {
        let calls = Rc::new(RefCell::new(Vec::new()));
        let transport = ScriptedTransport {
            calls: Rc::clone(&calls),
            script: RefCell::new(script.into_iter().collect()),
        };
        (transport, calls)
    }

    fn record(
        &self,
        method: &str,
        url: &str,
        body: Option<&str>,
        headers: Option<(Vec<&str>, Vec<&str>)>,
    ) -> Result<Response, Error> {
        self.calls.borrow_mut().push(CallRecord {
            method: method.to_string(),
            url: url.to_string(),
            body: body.map(|b| b.to_string()),
            headers: headers.map(|(keys, values)| {
                (
                    keys.iter().map(|k| k.to_string()).collect(),
                    values.iter().map(|v| v.to_string()).collect(),
                )
            }),
        });
        match self.script.borrow_mut().pop_front() {
            Some(Ok(resp)) => Ok(resp),
            Some(Err(msg)) => Err(Error::new(msg)),
            None => Err(Error::new("script exhausted".to_string())),
        }
    }
}

impl Transport for ScriptedTransport {
    type Response = Response;

    fn get(
        &self,
        url: &str,
        body: Option<&str>,
        headers: Option<(Vec<&str>, Vec<&str>)>,
    ) -> Result<Response, Error> {
        self.record("GET", url, body, headers)
    }

    fn post(
        &self,
        url: &str,
        body: Option<&str>,
        headers: Option<(Vec<&str>, Vec<&str>)>,
    ) -> Result<Response, Error> {
        self.record("POST", url, body, headers)
    }
}

/// A handler that records every event it sees and answers from a
/// fixed plan.
struct TestHandler {
    init_error: Option<String>,
    event_error: Option<String>,
    output: String,
    events: Rc<RefCell<Vec<String>>>,
}

impl TestHandler {
    fn ok(output: &str) -> (Self, Rc<RefCell<Vec<String>>>) {
        TestHandler::build(None, None, output)
    }

    fn failing_on_event(msg: &str) -> (Self, Rc<RefCell<Vec<String>>>) {
        TestHandler::build(None, Some(msg.to_string()), "")
    }

    fn failing_init(msg: &str) -> (Self, Rc<RefCell<Vec<String>>>) {
        TestHandler::build(Some(msg.to_string()), None, "")
    }

    fn build(
        init_error: Option<String>,
        event_error: Option<String>,
        output: &str,
    ) -> (Self, Rc<RefCell<Vec<String>>>) {
        let events = Rc::new(RefCell::new(Vec::new()));
        let handler = TestHandler {
            init_error,
            event_error,
            output: output.to_string(),
            events: Rc::clone(&events),
        };
        (handler, events)
    }
}

impl EventHandler for TestHandler {
    type EventOutput = String;

    fn initialize(&mut self) -> Result<(), Error> {
        match &self.init_error {
            Some(msg) => Err(Error::new(msg.clone())),
            None => Ok(()),
        }
    }

    fn on_event(&mut self, event: &str, _context: &EventContext) -> Result<String, Error> {
        self.events.borrow_mut().push(event.to_string());
        match &self.event_error {
            Some(msg) => Err(Error::new(msg.clone())),
            None => Ok(self.output.clone()),
        }
    }

    fn serialize_output(output: &String) -> Result<String, Error> {
        Ok(output.clone())
    }
}

/// A sink that records every trace id written to it.
struct RecordingSink {
    writes: Rc<RefCell<Vec<Option<String>>>>,
}

impl RecordingSink {
    fn new() -> (Self, Rc<RefCell<Vec<Option<String>>>>) {
        let writes = Rc::new(RefCell::new(Vec::new()));
        let sink = RecordingSink {
            writes: Rc::clone(&writes),
        };
        (sink, writes)
    }
}

impl EnvSink for RecordingSink {
    fn set_trace_id(&mut self, id: Option<&str>) {
        self.writes.borrow_mut().push(id.map(|s| s.to_string()));
    }
}

fn base_context() -> EventContext {
    let mut ctx = EventContext::default();
    ctx.runtime_api = Some("alpha:9001".to_string());
    ctx.region = Some("eu-west-1".to_string());
    ctx.function_name = Some("demo".to_string());
    ctx
}

fn poll_response(status: u16, request_id: Option<&str>, body: &str) -> Response {
    Response {
        status,
        request_id: request_id.map(|s| s.to_string()),
        deadline_ms: None,
        function_arn: None,
        trace_id: None,
        client_context: None,
        cognito_identity: None,
        body: body.to_string(),
    }
}

fn accepted() -> Response {
    poll_response(202, None, "")
}

#[test]
fn missing_api_base_is_a_fatal_configuration_error() {
    let (transport, _) = ScriptedTransport::new(vec![]);
    let (handler, _) = TestHandler::ok("{}");
    let (sink, _) = RecordingSink::new();
    let err = DefaultRuntime::new("2018-06-01", EventContext::default(), transport, handler, sink)
        .err()
        .unwrap();
    assert!(err.is_fatal());
    assert_eq!(err.message(), "Failed getting API base URL from env vars");
}

#[test]
fn successful_poll_copies_every_reserved_header_into_the_context() {
    let mut polled = poll_response(200, Some("rid-1"), "{\"x\":1}");
    polled.deadline_ms = Some("123456".to_string());
    polled.function_arn = Some("arn:aws:lambda:demo".to_string());
    polled.trace_id = Some("trace-7".to_string());
    polled.client_context = Some("cc-1".to_string());
    polled.cognito_identity = Some("cog-1".to_string());
    let (transport, calls) = ScriptedTransport::new(vec![Ok(polled)]);
    let (handler, _) = TestHandler::ok("{}");
    let (sink, writes) = RecordingSink::new();
    let mut rt =
        DefaultRuntime::new("2018-06-01", base_context(), transport, handler, sink).unwrap();

    let resp = rt.next_invocation().unwrap();
    assert_eq!(resp.status, 200);

    let ctx = rt.context();
    assert_eq!(ctx.get_aws_request_id(), Some("rid-1"));
    assert_eq!(ctx.get_deadline(), Some(123456));
    assert_eq!(ctx.get_invoked_function_arn(), Some("arn:aws:lambda:demo"));
    assert_eq!(ctx.get_trace_id(), Some("trace-7"));
    assert_eq!(ctx.get_client_context(), Some("cc-1"));
    assert_eq!(ctx.get_cognito_identity(), Some("cog-1"));
    // The immutable configuration is untouched by a poll.
    assert_eq!(ctx.get_runtime_api(), Some("alpha:9001"));
    assert_eq!(ctx.get_region(), Some("eu-west-1"));
    assert_eq!(ctx.get_function_name(), Some("demo"));
    // The trace id went to the side channel, before the handler runs.
    assert_eq!(writes.borrow().as_slice(), &[Some("trace-7".to_string())]);
    // And the poll went to the right URL.
    assert_eq!(
        calls.borrow()[0].url,
        "http://alpha:9001/2018-06-01/runtime/invocation/next"
    );
    assert_eq!(calls.borrow()[0].method, "GET");
}

#[test]
fn a_second_poll_overwrites_the_previous_invocation_data() {
    let mut first = poll_response(200, Some("rid-1"), "a");
    first.trace_id = Some("trace-1".to_string());
    first.deadline_ms = Some("111".to_string());
    let second = poll_response(200, Some("rid-2"), "b");
    let (transport, _) = ScriptedTransport::new(vec![Ok(first), Ok(second)]);
    let (handler, _) = TestHandler::ok("{}");
    let (sink, _) = RecordingSink::new();
    let mut rt =
        DefaultRuntime::new("2018-06-01", base_context(), transport, handler, sink).unwrap();
    rt.next_invocation().unwrap();
    rt.next_invocation().unwrap();
    let ctx = rt.context();
    assert_eq!(ctx.get_aws_request_id(), Some("rid-2"));
    assert_eq!(ctx.get_trace_id(), None);
    assert_eq!(ctx.get_deadline(), None);
}

#[test]
fn a_polled_event_reaches_the_handler_and_its_output_is_reported() {
    let (transport, calls) = ScriptedTransport::new(vec![
        Ok(poll_response(202, Some("abc-123"), "{\"x\":1}")),
        Ok(accepted()),
    ]);
    let (handler, events) = TestHandler::ok("{\"ok\":true}");
    let (sink, _) = RecordingSink::new();
    let mut rt =
        DefaultRuntime::new("2018-06-01", base_context(), transport, handler, sink).unwrap();

    let report = rt.run_cycle().unwrap();
    assert_eq!(report, CycleReport::Invoked { reported: true });
    // The handler saw exactly the polled body, exactly once.
    assert_eq!(events.borrow().as_slice(), &["{\"x\":1}".to_string()]);
    // The output went to the response endpoint of that request id.
    let recorded = calls.borrow();
    assert_eq!(recorded.len(), 2);
    assert_eq!(recorded[1].method, "POST");
    assert_eq!(
        recorded[1].url,
        "http://alpha:9001/2018-06-01/runtime/invocation/abc-123/response"
    );
    assert_eq!(recorded[1].body, Some("{\"ok\":true}".to_string()));
}

#[test]
fn version_strings_with_and_without_separator_poll_the_same_url() {
    for version in ["2018-06-01", "/2018-06-01"] {
        let (transport, calls) = ScriptedTransport::new(vec![]);
        let (handler, _) = TestHandler::ok("{}");
        let (sink, _) = RecordingSink::new();
        let mut rt =
            DefaultRuntime::new(version, base_context(), transport, handler, sink).unwrap();
        let _ = rt.run_cycle();
        assert_eq!(
            calls.borrow()[0].url,
            "http://alpha:9001/2018-06-01/runtime/invocation/next"
        );
    }
}

#[test]
fn handler_runs_at_most_once_per_cycle_and_not_without_a_request_id() {
    // A nominal success without a request id: a protocol violation,
    // reported to the init error endpoint, and the handler never runs.
    let (transport, calls) = ScriptedTransport::new(vec![
        Ok(poll_response(200, None, "{\"x\":1}")),
        Ok(accepted()),
    ]);
    let (handler, events) = TestHandler::ok("{}");
    let (sink, _) = RecordingSink::new();
    let mut rt =
        DefaultRuntime::new("2018-06-01", base_context(), transport, handler, sink).unwrap();
    let report = rt.run_cycle().unwrap();
    assert_eq!(report, CycleReport::MissingRequestId);
    assert_eq!(events.borrow().len(), 0);
    let recorded = calls.borrow();
    assert_eq!(recorded.len(), 2);
    assert_eq!(
        recorded[1].url,
        "http://alpha:9001/2018-06-01/runtime/init/error"
    );
    assert_eq!(
        recorded[1].headers,
        Some((
            vec!["Lambda-Runtime-Function-Error-Type".to_string()],
            vec!["Runtime.MissingRequestId".to_string()]
        ))
    );
}

#[test]
fn transport_failures_on_poll_are_retried_not_fatal() {
    let (transport, _) = ScriptedTransport::new(vec![Err("connection refused".to_string())]);
    let (handler, events) = TestHandler::ok("{}");
    let (sink, _) = RecordingSink::new();
    let mut rt =
        DefaultRuntime::new("2018-06-01", base_context(), transport, handler, sink).unwrap();
    let report = rt.run_cycle().unwrap();
    assert_eq!(report, CycleReport::PollFailed);
    assert_eq!(events.borrow().len(), 0);
}

#[test]
fn client_errors_on_poll_are_recoverable() {
    let (transport, _) =
        ScriptedTransport::new(vec![Ok(poll_response(429, None, "slow down"))]);
    let (handler, events) = TestHandler::ok("{}");
    let (sink, _) = RecordingSink::new();
    let mut rt =
        DefaultRuntime::new("2018-06-01", base_context(), transport, handler, sink).unwrap();
    let report = rt.run_cycle().unwrap();
    assert_eq!(report, CycleReport::PollFailed);
    assert_eq!(events.borrow().len(), 0);
}

#[test]
fn a_server_error_on_poll_aborts_without_any_report() {
    let (transport, calls) =
        ScriptedTransport::new(vec![Ok(poll_response(500, None, "broken"))]);
    let (handler, events) = TestHandler::ok("{}");
    let (sink, _) = RecordingSink::new();
    let mut rt =
        DefaultRuntime::new("2018-06-01", base_context(), transport, handler, sink).unwrap();
    let fatal = rt.run_cycle().unwrap_err();
    assert!(fatal.is_fatal());
    assert_eq!(fatal.status(), Some(500));
    assert_eq!(fatal.message(), "Container error. Non-recoverable state.");
    // No handler invocation and no report call of any kind.
    assert_eq!(events.borrow().len(), 0);
    let recorded = calls.borrow();
    assert_eq!(recorded.len(), 1);
    assert_eq!(recorded[0].method, "GET");
}

#[test]
fn a_handler_error_is_posted_to_the_error_endpoint_and_the_loop_goes_on() {
    let (transport, calls) = ScriptedTransport::new(vec![
        Ok(poll_response(202, Some("id-9"), "evt")),
        Ok(accepted()),
    ]);
    let (handler, events) = TestHandler::failing_on_event("boom");
    let (sink, _) = RecordingSink::new();
    let mut rt =
        DefaultRuntime::new("2018-06-01", base_context(), transport, handler, sink).unwrap();
    let report = rt.run_cycle().unwrap();
    // The cycle ends in a report, not in termination.
    assert_eq!(report, CycleReport::Invoked { reported: true });
    assert_eq!(events.borrow().len(), 1);
    let recorded = calls.borrow();
    assert_eq!(recorded.len(), 2);
    assert_eq!(
        recorded[1].url,
        "http://alpha:9001/2018-06-01/runtime/invocation/id-9/error"
    );
    // The rendered error text travels as both body and error-type header.
    assert_eq!(recorded[1].body, Some("boom".to_string()));
    assert_eq!(
        recorded[1].headers,
        Some((
            vec!["Lambda-Runtime-Function-Error-Type".to_string()],
            vec!["boom".to_string()]
        ))
    );
}

#[test]
fn a_server_error_on_the_report_is_fatal() {
    let (transport, _) = ScriptedTransport::new(vec![
        Ok(poll_response(202, Some("id-1"), "evt")),
        Ok(poll_response(500, None, "")),
    ]);
    let (handler, _) = TestHandler::ok("{}");
    let (sink, _) = RecordingSink::new();
    let mut rt =
        DefaultRuntime::new("2018-06-01", base_context(), transport, handler, sink).unwrap();
    let fatal = rt.run_cycle().unwrap_err();
    assert!(fatal.is_fatal());
}

#[test]
fn a_client_error_on_the_report_is_swallowed() {
    let (transport, _) = ScriptedTransport::new(vec![
        Ok(poll_response(202, Some("id-1"), "evt")),
        Ok(poll_response(400, None, "bad report")),
    ]);
    let (handler, _) = TestHandler::ok("{}");
    let (sink, _) = RecordingSink::new();
    let mut rt =
        DefaultRuntime::new("2018-06-01", base_context(), transport, handler, sink).unwrap();
    let report = rt.run_cycle().unwrap();
    assert_eq!(report, CycleReport::Invoked { reported: false });
}

#[test]
fn initialization_failure_posts_once_to_init_error_and_is_always_fatal() {
    // The report is accepted: still fatal.
    let (transport, calls) = ScriptedTransport::new(vec![Ok(accepted())]);
    let (handler, _) = TestHandler::failing_init("init broke");
    let (sink, _) = RecordingSink::new();
    let mut rt =
        DefaultRuntime::new("2018-06-01", base_context(), transport, handler, sink).unwrap();
    let fatal = rt.run_init().unwrap();
    assert!(fatal.is_fatal());
    assert_eq!(fatal.message(), "Initialization Error: init broke");
    let recorded = calls.borrow();
    assert_eq!(recorded.len(), 1);
    assert_eq!(recorded[0].method, "POST");
    assert_eq!(
        recorded[0].url,
        "http://alpha:9001/2018-06-01/runtime/init/error"
    );
    assert_eq!(recorded[0].body, Some("init broke".to_string()));
    assert_eq!(
        recorded[0].headers,
        Some((
            vec!["Lambda-Runtime-Function-Error-Type".to_string()],
            vec!["Runtime.InitError".to_string()]
        ))
    );
}

#[test]
fn initialization_failure_is_fatal_even_when_the_report_fails() {
    let (transport, calls) = ScriptedTransport::new(vec![Err("no route".to_string())]);
    let (handler, _) = TestHandler::failing_init("init broke");
    let (sink, _) = RecordingSink::new();
    let mut rt =
        DefaultRuntime::new("2018-06-01", base_context(), transport, handler, sink).unwrap();
    let fatal = rt.run_init().unwrap();
    assert!(fatal.is_fatal());
    assert_eq!(
        fatal.message(),
        "Failed to report initialization error. Error: init broke, AWS Error: no route"
    );
    assert_eq!(calls.borrow().len(), 1);
}

#[test]
fn successful_initialization_reports_nothing() {
    let (transport, calls) = ScriptedTransport::new(vec![]);
    let (handler, _) = TestHandler::ok("{}");
    let (sink, _) = RecordingSink::new();
    let mut rt =
        DefaultRuntime::new("2018-06-01", base_context(), transport, handler, sink).unwrap();
    assert!(rt.run_init().is_none());
    assert_eq!(calls.borrow().len(), 0);
}

struct Unserializable {
    events: Rc<RefCell<Vec<String>>>,
}

impl EventHandler for Unserializable {
    type EventOutput = String;

    fn initialize(&mut self) -> Result<(), Error> {
        Ok(())
    }

    fn on_event(&mut self, event: &str, _context: &EventContext) -> Result<String, Error> {
        self.events.borrow_mut().push(event.to_string());
        Ok("raw".to_string())
    }

    fn serialize_output(_output: &String) -> Result<String, Error> {
        Err(Error::new("cannot encode".to_string()))
    }
}

#[test]
fn serialization_failure_is_reported_as_the_invocations_failure() {
    let (transport, calls) = ScriptedTransport::new(vec![
        Ok(poll_response(202, Some("id-2"), "evt")),
        Ok(accepted()),
    ]);
    let events = Rc::new(RefCell::new(Vec::new()));
    let handler = Unserializable {
        events: Rc::clone(&events),
    };
    let (sink, _) = RecordingSink::new();
    let mut rt =
        DefaultRuntime::new("2018-06-01", base_context(), transport, handler, sink).unwrap();
    let report = rt.run_cycle().unwrap();
    // The loop goes on: the failure is recoverable, but it is reported.
    assert_eq!(report, CycleReport::Invoked { reported: true });
    assert_eq!(events.borrow().len(), 1);
    let recorded = calls.borrow();
    assert_eq!(recorded.len(), 2);
    assert_eq!(recorded[1].method, "POST");
    assert_eq!(
        recorded[1].url,
        "http://alpha:9001/2018-06-01/runtime/invocation/id-2/error"
    );
    assert_eq!(
        recorded[1].body,
        Some("Failed serializing output to JSON. cannot encode".to_string())
    );
    assert_eq!(
        recorded[1].headers,
        Some((
            vec!["Lambda-Runtime-Function-Error-Type".to_string()],
            vec!["Failed serializing output to JSON. cannot encode".to_string()]
        ))
    );
}

#[test]
fn invocation_response_posts_the_serialized_output() {
    let (transport, calls) = ScriptedTransport::new(vec![Ok(accepted())]);
    let (handler, _) = TestHandler::ok("{}");
    let (sink, _) = RecordingSink::new();
    let rt = DefaultRuntime::new("2018-06-01", base_context(), transport, handler, sink).unwrap();
    let out = "{\"answer\":42}".to_string();
    let resp = rt.invocation_response("abc-123", &out).unwrap();
    assert_eq!(resp.status, 202);
    let recorded = calls.borrow();
    assert_eq!(recorded.len(), 1);
    assert_eq!(recorded[0].method, "POST");
    assert_eq!(
        recorded[0].url,
        "http://alpha:9001/2018-06-01/runtime/invocation/abc-123/response"
    );
    assert_eq!(recorded[0].body, Some("{\"answer\":42}".to_string()));
}

#[test]
fn each_successful_poll_yields_exactly_one_invocation() {
    let (transport, _) = ScriptedTransport::new(vec![
        Ok(poll_response(202, Some("rid-1"), "one")),
        Ok(accepted()),
        Ok(poll_response(202, Some("rid-2"), "two")),
        Ok(accepted()),
    ]);
    let (handler, events) = TestHandler::ok("{}");
    let (sink, _) = RecordingSink::new();
    let mut rt =
        DefaultRuntime::new("2018-06-01", base_context(), transport, handler, sink).unwrap();
    assert_eq!(
        rt.run_cycle().unwrap(),
        CycleReport::Invoked { reported: true }
    );
    assert_eq!(
        rt.run_cycle().unwrap(),
        CycleReport::Invoked { reported: true }
    );
    assert_eq!(
        events.borrow().as_slice(),
        &["one".to_string(), "two".to_string()]
    );
}
