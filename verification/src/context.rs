//! The invocation context: immutable process-lifetime configuration,
//! read once at startup from the execution environment, layered under
//! the mutable per-invocation metadata that the runtime loop overwrites
//! after every successful poll.

use crate::env::InitializationType;
use crate::error::Error;
use vstd::prelude::*;
use vstd::string::StringExecFns;

verus! {

/// The immutable, process-lifetime part of a context: one abstract
/// field per environment-sourced configuration value. Nothing may
/// change any of these after startup.
pub struct ConfigView {
    pub handler: Option<Seq<char>>,
    pub region: Option<Seq<char>>,
    pub default_region: Option<Seq<char>>,
    pub execution_env: Option<Seq<char>>,
    pub function_name: Option<Seq<char>>,
    pub function_memory_size: Option<usize>,
    pub function_version: Option<Seq<char>>,
    pub initialization_type: InitializationType,
    pub log_group_name: Option<Seq<char>>,
    pub log_stream_name: Option<Seq<char>>,
    pub access_key: Option<Seq<char>>,
    pub access_key_id: Option<Seq<char>>,
    pub secret_access_key: Option<Seq<char>>,
    pub session_token: Option<Seq<char>>,
    pub runtime_api: Option<Seq<char>>,
    pub task_root: Option<Seq<char>>,
    pub runtime_dir: Option<Seq<char>>,
    pub tz: Option<Seq<char>>,
}

/// The mutable, per-invocation part of a context: absent before the
/// first successful poll, overwritten by the runtime loop after every
/// successful poll, and never written by the event handler.
pub struct InvocationView {
    pub trace_id: Option<Seq<char>>,
    pub deadline: Option<u64>,
    pub function_arn: Option<Seq<char>>,
    pub request_id: Option<Seq<char>>,
    pub cognito_identity: Option<Seq<char>>,
    pub client_context: Option<Seq<char>>,
}

/// Read access to the configuration the execution environment sets once
/// at process start, plus the per-event tracing id. The driver around
/// the runtime fills these values in; they are abstracted by
/// `config_view` and `invocation_view`, over which every contract of
/// this library speaks.
pub trait RuntimeEnvVars {
    spec fn config_view(&self) -> ConfigView;

    spec fn invocation_view(&self) -> InvocationView;

    fn get_handler(&self) -> (r: Option<&str>)
        ensures
            r.deep_view() == self.config_view().handler,
    ;

    fn get_region(&self) -> (r: Option<&str>)
        ensures
            r.deep_view() == self.config_view().region,
    ;

    fn get_trace_id(&self) -> (r: Option<&str>)
        ensures
            r.deep_view() == self.invocation_view().trace_id,
    ;

    fn get_execution_env(&self) -> (r: Option<&str>)
        ensures
            r.deep_view() == self.config_view().execution_env,
    ;

    fn get_function_name(&self) -> (r: Option<&str>)
        ensures
            r.deep_view() == self.config_view().function_name,
    ;

    fn get_function_memory_size(&self) -> (r: Option<usize>)
        ensures
            r == self.config_view().function_memory_size,
    ;

    fn get_function_version(&self) -> (r: Option<&str>)
        ensures
            r.deep_view() == self.config_view().function_version,
    ;

    fn get_initialization_type(&self) -> (r: InitializationType)
        ensures
            r == self.config_view().initialization_type,
    ;

    fn get_log_group_name(&self) -> (r: Option<&str>)
        ensures
            r.deep_view() == self.config_view().log_group_name,
    ;

    fn get_log_stream_name(&self) -> (r: Option<&str>)
        ensures
            r.deep_view() == self.config_view().log_stream_name,
    ;

    fn get_access_key(&self) -> (r: Option<&str>)
        ensures
            r.deep_view() == self.config_view().access_key,
    ;

    fn get_access_key_id(&self) -> (r: Option<&str>)
        ensures
            r.deep_view() == self.config_view().access_key_id,
    ;

    fn get_secret_access_key(&self) -> (r: Option<&str>)
        ensures
            r.deep_view() == self.config_view().secret_access_key,
    ;

    fn get_session_token(&self) -> (r: Option<&str>)
        ensures
            r.deep_view() == self.config_view().session_token,
    ;

    fn get_runtime_api(&self) -> (r: Option<&str>)
        ensures
            r.deep_view() == self.config_view().runtime_api,
    ;

    fn get_task_root(&self) -> (r: Option<&str>)
        ensures
            r.deep_view() == self.config_view().task_root,
    ;

    fn get_runtime_dir(&self) -> (r: Option<&str>)
        ensures
            r.deep_view() == self.config_view().runtime_dir,
    ;

    fn get_tz(&self) -> (r: Option<&str>)
        ensures
            r.deep_view() == self.config_view().tz,
    ;

    /// Records that the tracing id changed with a new incoming event;
    /// every other part of the context keeps its value.
    fn set_trace_id(&mut self, new_id: Option<&str>)
        ensures
            final(self).config_view() == old(self).config_view(),
            final(self).invocation_view() == (InvocationView {
                trace_id: new_id.deep_view(),
                ..old(self).invocation_view()
            }),
    ;
}

/// The per-invocation data a handler may read while it processes one
/// event, together with the remaining-time computation over the
/// deadline the control plane supplied.
pub trait LambdaContext: RuntimeEnvVars {
    fn get_deadline(&self) -> (r: Option<u64>)
        ensures
            r == self.invocation_view().deadline,
    ;

    fn get_invoked_function_arn(&self) -> (r: Option<&str>)
        ensures
            r.deep_view() == self.invocation_view().function_arn,
    ;

    fn get_aws_request_id(&self) -> (r: Option<&str>)
        ensures
            r.deep_view() == self.invocation_view().request_id,
    ;

    fn get_cognito_identity(&self) -> (r: Option<&str>)
        ensures
            r.deep_view() == self.invocation_view().cognito_identity,
    ;

    fn get_client_context(&self) -> (r: Option<&str>)
        ensures
            r.deep_view() == self.invocation_view().client_context,
    ;

    /// The time budget left for the current invocation: the distance
    /// from the wall clock `now_ms` to the recorded deadline, both in
    /// milliseconds since the epoch. Fails with one distinct diagnostic
    /// when no invocation is in flight and with another when the
    /// deadline has already elapsed.
    fn get_remaining_time_ms(&self, now_ms: u64) -> (r: Result<u64, Error>)
        ensures
            match self.invocation_view().deadline {
                None => {
                    &&& r matches Err(e)
                    &&& e.text() == "Missing deadline info"@
                    &&& !e.is_fatal_spec()
                },
                Some(dl) => if now_ms <= dl {
                    r matches Ok(left) && left == dl - now_ms
                } else {
                    &&& r matches Err(e)
                    &&& e.text() == "Duration error"@
                    &&& !e.is_fatal_spec()
                },
            },
    {
        match self.get_deadline() {
            Some(dl) => if now_ms <= dl {
                Ok(dl - now_ms)
            } else {
                Err(Error::new(String::from_str("Duration error")))
            },
            None => Err(Error::new(String::from_str("Missing deadline info"))),
        }
    }
}

/// Write access to the per-invocation data, for the runtime loop alone:
/// it overwrites these fields right after each successful poll, before
/// the handler runs. Each setter leaves the configuration and every
/// other per-invocation field untouched.
pub trait LambdaContextSetter: RuntimeEnvVars {
    fn set_deadline(&mut self, dl: Option<u64>)
        ensures
            final(self).config_view() == old(self).config_view(),
            final(self).invocation_view() == (InvocationView {
                deadline: dl,
                ..old(self).invocation_view()
            }),
    ;

    fn set_invoked_function_arn(&mut self, arn: Option<&str>)
        ensures
            final(self).config_view() == old(self).config_view(),
            final(self).invocation_view() == (InvocationView {
                function_arn: arn.deep_view(),
                ..old(self).invocation_view()
            }),
    ;

    fn set_aws_request_id(&mut self, request_id: Option<&str>)
        ensures
            final(self).config_view() == old(self).config_view(),
            final(self).invocation_view() == (InvocationView {
                request_id: request_id.deep_view(),
                ..old(self).invocation_view()
            }),
    ;

    fn set_cognito_identity(&mut self, identity: Option<&str>)
        ensures
            final(self).config_view() == old(self).config_view(),
            final(self).invocation_view() == (InvocationView {
                cognito_identity: identity.deep_view(),
                ..old(self).invocation_view()
            }),
    ;

    fn set_client_context(&mut self, ctx: Option<&str>)
        ensures
            final(self).config_view() == old(self).config_view(),
            final(self).invocation_view() == (InvocationView {
                client_context: ctx.deep_view(),
                ..old(self).invocation_view()
            }),
    ;
}

/// An owned context: the environment-sourced configuration plus the
/// data of the invocation currently in flight, if any.
#[derive(Clone, Debug)]
pub struct EventContext {
    pub handler: Option<String>,
    pub region: Option<String>,
    pub default_region: Option<String>,
    pub execution_env: Option<String>,
    pub function_name: Option<String>,
    pub function_memory_size: Option<usize>,
    pub function_version: Option<String>,
    pub initialization_type: InitializationType,
    pub log_group_name: Option<String>,
    pub log_stream_name: Option<String>,
    pub access_key: Option<String>,
    pub access_key_id: Option<String>,
    pub secret_access_key: Option<String>,
    pub session_token: Option<String>,
    pub runtime_api: Option<String>,
    pub task_root: Option<String>,
    pub runtime_dir: Option<String>,
    pub tz: Option<String>,
    pub trace_id: Option<String>,
    pub deadline: Option<u64>,
    pub function_arn: Option<String>,
    pub request_id: Option<String>,
    pub cognito_id: Option<String>,
    pub client_context: Option<String>,
}

/// The context every field of which is still unset.
pub open spec fn spec_blank_context() -> EventContext {
    EventContext {
        handler: None,
        region: None,
        default_region: None,
        execution_env: None,
        function_name: None,
        function_memory_size: None,
        function_version: None,
        initialization_type: InitializationType::Unknown,
        log_group_name: None,
        log_stream_name: None,
        access_key: None,
        access_key_id: None,
        secret_access_key: None,
        session_token: None,
        runtime_api: None,
        task_root: None,
        runtime_dir: None,
        tz: None,
        trace_id: None,
        deadline: None,
        function_arn: None,
        request_id: None,
        cognito_id: None,
        client_context: None,
    }
}

impl Default for EventContext {
    /// A context with nothing set: the driver fills the configuration
    /// from the environment before handing it to the runtime.
    fn default() -> (r: Self)
        ensures
            r == spec_blank_context(),
    {
        EventContext {
            handler: None,
            region: None,
            default_region: None,
            execution_env: None,
            function_name: None,
            function_memory_size: None,
            function_version: None,
            initialization_type: InitializationType::Unknown,
            log_group_name: None,
            log_stream_name: None,
            access_key: None,
            access_key_id: None,
            secret_access_key: None,
            session_token: None,
            runtime_api: None,
            task_root: None,
            runtime_dir: None,
            tz: None,
            trace_id: None,
            deadline: None,
            function_arn: None,
            request_id: None,
            cognito_id: None,
            client_context: None,
        }
    }
}

/// Borrows the contents of an optional owned string.
fn opt_as_str(field: &Option<String>) -> (r: Option<&str>)
    ensures
        r.deep_view() == field.deep_view(),
{
    match field {
        Some(s) => Some(s.as_str()),
        None => None,
    }
}

/// Copies an optional borrowed string into an owned one.
fn opt_to_owned(value: Option<&str>) -> (r: Option<String>)
    ensures
        r.deep_view() == value.deep_view(),
{
    match value {
        Some(s) => Some(String::from_str(s)),
        None => None,
    }
}

impl EventContext {
    /// The region the environment fell back to when no explicit region
    /// was configured.
    pub fn get_aws_default_region(&self) -> (r: Option<&str>)
        ensures
            r.deep_view() == self.config_view().default_region,
    {
        opt_as_str(&self.default_region)
    }
}

impl RuntimeEnvVars for EventContext {
    open spec fn config_view(&self) -> ConfigView {
        ConfigView {
            handler: self.handler.deep_view(),
            region: self.region.deep_view(),
            default_region: self.default_region.deep_view(),
            execution_env: self.execution_env.deep_view(),
            function_name: self.function_name.deep_view(),
            function_memory_size: self.function_memory_size,
            function_version: self.function_version.deep_view(),
            initialization_type: self.initialization_type,
            log_group_name: self.log_group_name.deep_view(),
            log_stream_name: self.log_stream_name.deep_view(),
            access_key: self.access_key.deep_view(),
            access_key_id: self.access_key_id.deep_view(),
            secret_access_key: self.secret_access_key.deep_view(),
            session_token: self.session_token.deep_view(),
            runtime_api: self.runtime_api.deep_view(),
            task_root: self.task_root.deep_view(),
            runtime_dir: self.runtime_dir.deep_view(),
            tz: self.tz.deep_view(),
        }
    }

    open spec fn invocation_view(&self) -> InvocationView {
        InvocationView {
            trace_id: self.trace_id.deep_view(),
            deadline: self.deadline,
            function_arn: self.function_arn.deep_view(),
            request_id: self.request_id.deep_view(),
            cognito_identity: self.cognito_id.deep_view(),
            client_context: self.client_context.deep_view(),
        }
    }

    fn get_handler(&self) -> (r: Option<&str>) {
        opt_as_str(&self.handler)
    }

    fn get_region(&self) -> (r: Option<&str>) {
        opt_as_str(&self.region)
    }

    fn get_trace_id(&self) -> (r: Option<&str>) {
        opt_as_str(&self.trace_id)
    }

    fn get_execution_env(&self) -> (r: Option<&str>) {
        opt_as_str(&self.execution_env)
    }

    fn get_function_name(&self) -> (r: Option<&str>) {
        opt_as_str(&self.function_name)
    }

    fn get_function_memory_size(&self) -> (r: Option<usize>) {
        self.function_memory_size
    }

    fn get_function_version(&self) -> (r: Option<&str>) {
        opt_as_str(&self.function_version)
    }

    fn get_initialization_type(&self) -> (r: InitializationType) {
        self.initialization_type
    }

    fn get_log_group_name(&self) -> (r: Option<&str>) {
        opt_as_str(&self.log_group_name)
    }

    fn get_log_stream_name(&self) -> (r: Option<&str>) {
        opt_as_str(&self.log_stream_name)
    }

    fn get_access_key(&self) -> (r: Option<&str>) {
        opt_as_str(&self.access_key)
    }

    fn get_access_key_id(&self) -> (r: Option<&str>) {
        opt_as_str(&self.access_key_id)
    }

    fn get_secret_access_key(&self) -> (r: Option<&str>) {
        opt_as_str(&self.secret_access_key)
    }

    fn get_session_token(&self) -> (r: Option<&str>) {
        opt_as_str(&self.session_token)
    }

    fn get_runtime_api(&self) -> (r: Option<&str>) {
        opt_as_str(&self.runtime_api)
    }

    fn get_task_root(&self) -> (r: Option<&str>) {
        opt_as_str(&self.task_root)
    }

    fn get_runtime_dir(&self) -> (r: Option<&str>) {
        opt_as_str(&self.runtime_dir)
    }

    fn get_tz(&self) -> (r: Option<&str>) {
        opt_as_str(&self.tz)
    }

    fn set_trace_id(&mut self, new_id: Option<&str>) {
        self.trace_id = opt_to_owned(new_id);
    }
}

impl LambdaContext for EventContext {
    fn get_deadline(&self) -> (r: Option<u64>) {
        self.deadline
    }

    fn get_invoked_function_arn(&self) -> (r: Option<&str>) {
        opt_as_str(&self.function_arn)
    }

    fn get_aws_request_id(&self) -> (r: Option<&str>) {
        opt_as_str(&self.request_id)
    }

    fn get_cognito_identity(&self) -> (r: Option<&str>) {
        opt_as_str(&self.cognito_id)
    }

    fn get_client_context(&self) -> (r: Option<&str>) {
        opt_as_str(&self.client_context)
    }
}

impl LambdaContextSetter for EventContext {
    fn set_deadline(&mut self, dl: Option<u64>) {
        self.deadline = dl;
    }

    fn set_invoked_function_arn(&mut self, arn: Option<&str>) {
        self.function_arn = opt_to_owned(arn);
    }

    fn set_aws_request_id(&mut self, request_id: Option<&str>) {
        self.request_id = opt_to_owned(request_id);
    }

    fn set_cognito_identity(&mut self, identity: Option<&str>) {
        self.cognito_id = opt_to_owned(identity);
    }

    fn set_client_context(&mut self, ctx: Option<&str>) {
        self.client_context = opt_to_owned(ctx);
    }
}

} // verus!
