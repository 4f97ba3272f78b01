//! The library's error type.
//!
//! An `Error` carries a diagnostic text, the HTTP status it was derived
//! from (when it reflects a control-plane reply) and a fatality mark.
//! A fatal error signals a container fault: the driver around the
//! runtime is expected to terminate the process, there is no recovery.

use vstd::prelude::*;
use vstd::string::StringExecFns;

verus! {

/// The diagnostic text attached to every container fault.
pub open spec fn spec_container_err() -> Seq<char> {
    "Container error. Non-recoverable state."@
}

/// An error surfaced by the runtime: a message, an optional HTTP status
/// and a mark that tells recoverable conditions from fatal ones.
#[derive(Clone, Debug)]
pub struct Error {
    msg: String,
    status: Option<u16>,
    fatal: bool,
}

impl Error {
    /// The diagnostic text of this error.
    pub closed spec fn text(&self) -> Seq<char> {
        self.msg@
    }

    /// The HTTP status this error was derived from, if any.
    pub closed spec fn status_spec(&self) -> Option<u16> {
        self.status
    }

    /// Whether this error is a container fault, from which the process
    /// must not try to recover.
    pub closed spec fn is_fatal_spec(&self) -> bool {
        self.fatal
    }

    /// A recoverable error carrying only a message.
    pub fn new(msg: String) -> (r: Self)
        ensures
            r.text() == msg@,
            r.status_spec() is None,
            !r.is_fatal_spec(),
    {
        Error { msg, status: None, fatal: false }
    }

    /// A recoverable error with an empty message.
    pub fn empty() -> (r: Self)
        ensures
            r.text() == Seq::<char>::empty(),
            r.status_spec() is None,
            !r.is_fatal_spec(),
    {
        Error { msg: String::new(), status: None, fatal: false }
    }

    /// A recoverable error carrying the status of a control-plane reply
    /// and the diagnostic body that came with it.
    pub fn with_status(status: u16, msg: String) -> (r: Self)
        ensures
            r.text() == msg@,
            r.status_spec() == Some(status),
            !r.is_fatal_spec(),
    {
        Error { msg, status: Some(status), fatal: false }
    }

    /// A fatal error carrying only a message.
    pub fn fatal(msg: String) -> (r: Self)
        ensures
            r.text() == msg@,
            r.status_spec() is None,
            r.is_fatal_spec(),
    {
        Error { msg, status: None, fatal: true }
    }

    /// The container fault raised by a server-error status on any
    /// control-plane call.
    pub fn container(status: u16) -> (r: Self)
        ensures
            r.text() == spec_container_err(),
            r.status_spec() == Some(status),
            r.is_fatal_spec(),
    {
        Error {
            msg: String::from_str("Container error. Non-recoverable state."),
            status: Some(status),
            fatal: true,
        }
    }

    /// The diagnostic text, for rendering by the surrounding driver.
    pub fn message(&self) -> (r: &str)
        ensures
            r@ == self.text(),
    {
        self.msg.as_str()
    }

    /// The status of the control-plane reply this error reflects, if any.
    pub fn status(&self) -> (r: Option<u16>)
        ensures
            r == self.status_spec(),
    {
        self.status
    }

    /// Whether the surrounding driver must terminate the process.
    pub fn is_fatal(&self) -> (r: bool)
        ensures
            r == self.is_fatal_spec(),
    {
        self.fatal
    }
}

} // verus!
