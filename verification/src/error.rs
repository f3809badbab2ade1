//! The error type shared by metadata extraction and the platform probes.

use vstd::prelude::*;

verus! {

/// A recoverable detection failure, carrying a human-readable message that
/// names the missing signal.
#[derive(Debug, Clone, PartialEq, Eq)]
pub struct OpenTelemetryError {
    message: String,
}

impl View for OpenTelemetryError {
    type V = Seq<char>;

    closed spec fn view(&self) -> Seq<char> {
        self.message@
    }
}

impl OpenTelemetryError {
    /// Wrap a message in an error value.
    pub fn new(message: &str) -> (r: Self)
        ensures
            r@ == message@,
    {
        Self { message: message.to_owned() }
    }

    /// The message the error was built with.
    pub fn message(&self) -> (r: &str)
        ensures
            r@ == self@,
    {
        self.message.as_str()
    }
}

} // verus!
