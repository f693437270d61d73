//! What the extension of a cloud function decides: it waits for each
//! invocation to be done and then has the telemetry flushed.

use crate::text::joined;
use vstd::prelude::*;

verus! {

/// What the platform tells an extension next.
#[derive(Debug, Clone, PartialEq, Eq)]
pub enum NextEvent {
    /// The function is invoked.
    Invoke,
    /// Anything else, as the platform describes it.
    Other(String),
}

/// Why the extension failed.
#[derive(Debug)]
pub enum LamdbaExtensionError {
    /// The telemetry could not be flushed, with the reason.
    TraceError(String),
    /// The channel that tells of a request that is done is closed.
    ChannelError,
    /// The platform told of an event that the extension did not ask for.
    UnsupportedEvent(String),
}

impl LamdbaExtensionError {
    /// The error in words.
    pub open spec fn text(self) -> Seq<char> {
        match self {
            LamdbaExtensionError::TraceError(_) => "failed to flush logs and telemetry"@,
            LamdbaExtensionError::ChannelError => "failed to notify telemetry channel about done request"@,
            LamdbaExtensionError::UnsupportedEvent(event) => "unsupported event type for extension: "@
                + event@,
        }
    }

    /// The error in words.
    pub fn to_string(&self) -> (out: String)
        ensures
            out@ == self.text(),
    {
        match self {
            LamdbaExtensionError::TraceError(_) => "failed to flush logs and telemetry".to_owned(),
            LamdbaExtensionError::ChannelError => "failed to notify telemetry channel about done request".to_owned(),
            LamdbaExtensionError::UnsupportedEvent(event) => joined(
                "unsupported event type for extension: ",
                event.as_str(),
            ),
        }
    }
}

/// What the extension does once it has waited for a request to be done.
#[derive(Debug, Clone, Copy, PartialEq, Eq, Structural)]
pub enum AfterWait {
    /// The request is done: flush the telemetry.
    Flush,
    /// The channel is closed, so the function shuts down: do nothing.
    Stop,
}

/// Accepts the event of an invocation, the only one that the extension asks
/// for, and refuses any other with its description.
pub fn check_event(event: NextEvent) -> (checked: Result<(), LamdbaExtensionError>)
    ensures
        match event {
            NextEvent::Invoke => checked is Ok,
            NextEvent::Other(described) => checked is Err && checked->Err_0
                == LamdbaExtensionError::UnsupportedEvent(described),
        },
{
    match event {
        NextEvent::Invoke => Ok(()),
        NextEvent::Other(described) => Err(LamdbaExtensionError::UnsupportedEvent(described)),
    }
}

/// What to do once the wait for a request is over: flush where a request was
/// told to be done, stop where the channel was closed instead.
pub fn after_wait(received: Option<()>) -> (next: AfterWait)
    ensures
        next == if received is Some {
            AfterWait::Flush
        } else {
            AfterWait::Stop
        },
{
    match received {
        Some(()) => AfterWait::Flush,
        None => AfterWait::Stop,
    }
}

} // verus!
