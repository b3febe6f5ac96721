//! Teardown diagnostics.
//!
//! Destructors cannot fail outward: when a destroy entry point reports a
//! non-success status (or is absent from a loaded function table), the wrapper
//! swallows the failure and yields one of these records for the embedding
//! code's diagnostic log. Making the channel a value keeps it testable.

use vstd::prelude::*;

verus! {

/// A teardown failure that was deliberately not propagated.
#[derive(Clone, Copy, PartialEq, Eq, Structural, Debug)]
pub enum Diagnostic {
    /// The driver refused to destroy a context.
    ContextDestroyFailed,
    /// The driver refused to destroy a stream.
    StreamDestroyFailed,
    /// The encoder library refused to destroy an encode session.
    EncoderDestroyFailed,
    /// The encoder function table has no destroy entry point, so the session
    /// handle could not be released.
    EncoderDestroyUnsupported,
}

impl Diagnostic {
    /// A fixed log line for this record.
    pub fn message(&self) -> &'static str {
        match self {
            Diagnostic::ContextDestroyFailed => "Failed to destroy cuda context.",
            Diagnostic::StreamDestroyFailed => "Failed to destroy cuda stream.",
            Diagnostic::EncoderDestroyFailed => "Failed to destroy encoder.",
            Diagnostic::EncoderDestroyUnsupported => {
                "Encoder destroy entry point not supported."
            },
        }
    }
}

} // verus!
