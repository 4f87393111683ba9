//! The structured error type of the bridge.
//!
//! Every fallible operation of the library reports one of these variants.
//! At the script boundary the structure is flattened: only the message text
//! crosses over, so [`SdlError::message`] pins down the exact text of each
//! variant.

use vstd::prelude::*;
use vstd::string::StringExecFns;

verus! {

/// A failure of the bridge: a missing precondition, a rejected backend
/// call, an invalid script-supplied name, or broken shared access.
#[derive(Debug, Clone, PartialEq, Eq)]
pub enum SdlError {
    /// A drawing, clear or present operation ran before a drawing surface
    /// existed.
    CanvasNotInitialized,
    /// An input-query operation ran before the event source existed.
    EventPumpNotInitialized,
    /// The backend rejected an operation; the payload is the backend's own
    /// message.
    Backend(String),
    /// An unrecognized key name was supplied; the payload is that name.
    UnsupportedKey(String),
    /// An unrecognized mouse-button name was supplied; the payload is that
    /// name.
    UnsupportedMouseButton(String),
    /// A random-range request whose lower bound exceeds its upper bound.
    /// The sampler itself would abort on such a range, so the bridge
    /// rejects it as a validation error instead.
    EmptyRandomRange,
    /// The shared, exclusive-access wrapper around the hardware context was
    /// found broken; the payload is the access layer's message. Every call
    /// after the first such failure reports it again.
    Poisoned(String),
}

impl SdlError {
    /// The exact text that reaches the script for each variant.
    pub open spec fn spec_message(self) -> Seq<char> {
        match self {
            SdlError::CanvasNotInitialized => "Canvas not initialized"@,
            SdlError::EventPumpNotInitialized => "Event pump not initialized"@,
            SdlError::Backend(m) => m@,
            SdlError::UnsupportedKey(k) => "Unsupported key: "@ + k@,
            SdlError::UnsupportedMouseButton(b) => "Unsupported mouse button: "@ + b@,
            SdlError::EmptyRandomRange => "Invalid random range: min exceeds max"@,
            SdlError::Poisoned(m) => m@,
        }
    }

    /// Renders the error as the descriptive string the script sees.
    pub fn message(&self) -> (r: String)
        ensures
            r@ == self.spec_message(),
    {
        match self {
            SdlError::CanvasNotInitialized => "Canvas not initialized".to_owned(),
            SdlError::EventPumpNotInitialized => "Event pump not initialized".to_owned(),
            SdlError::Backend(m) => m.clone(),
            SdlError::UnsupportedKey(k) => {
                let mut s = "Unsupported key: ".to_owned();
                s.append(k.as_str());
                s
            },
            SdlError::UnsupportedMouseButton(b) => {
                let mut s = "Unsupported mouse button: ".to_owned();
                s.append(b.as_str());
                s
            },
            SdlError::EmptyRandomRange => "Invalid random range: min exceeds max".to_owned(),
            SdlError::Poisoned(m) => m.clone(),
        }
    }
}

} // verus!
