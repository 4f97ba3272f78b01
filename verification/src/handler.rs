//! The contract the user-supplied event handler implements.

use crate::context::EventContext;
use crate::error::Error;
use vstd::prelude::*;

verus! {

/// User logic with a one-time setup step and a per-event step. The
/// output type is the handler's own; turning it into the textual
/// interchange form posted to the control plane is an external
/// capability the implementation supplies through `serialize_output`.
/// Failures are rendered through [`Error::message`].
pub trait EventHandler: Sized {
    type EventOutput;

    /// Sets up whatever the handler reuses across the life of the
    /// process; runs exactly once, before the first poll.
    fn initialize(&mut self) -> Result<(), Error>;

    /// Processes one incoming event; invoked exactly once per
    /// successfully polled invocation, with the raw event body and a
    /// read-only view of the current context.
    fn on_event(&mut self, event: &str, context: &EventContext) -> Result<
        Self::EventOutput,
        Error,
    >;

    /// Encodes one output value as the text posted back to the control
    /// plane.
    fn serialize_output(output: &Self::EventOutput) -> Result<String, Error>;
}

} // verus!
