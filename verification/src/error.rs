//! The one recoverable failure of an access, and the text of the fatal one.

use vstd::prelude::*;
use vstd::string::StringExecFns;

verus! {

/// What a fatal access says before it names the error.
pub const ACCESS_FAILURE: &'static str =
    "cannot access a Thread Local Storage value during or after destruction";

/// A slot could not be read: its initializer failed, or its teardown has begun.
#[derive(Clone, Copy, Debug, PartialEq, Eq, Structural)]
pub struct AccessError;

impl AccessError {
    /// The debug rendering of the error, as a sequence of characters.
    pub open spec fn debug_view(&self) -> Seq<char> {
        "AccessError"@
    }

    /// The message of a fatal access that ran into this error: the fixed
    /// text, a colon and a space, then the rendering of the error.
    pub open spec fn failure_view(&self) -> Seq<char> {
        ACCESS_FAILURE@ + ": "@ + self.debug_view()
    }

    /// Renders the error for diagnostics.
    pub fn debug_text(&self) -> (text: String)
        ensures
            text@ == self.debug_view(),
    {
        String::from_str("AccessError")
    }

    /// Builds the message with which an access that must not fail gives up.
    pub fn failure_message(&self) -> (message: String)
        ensures
            message@ == self.failure_view(),
    {
        let rendered = self.debug_text();
        String::from_str(ACCESS_FAILURE).concat(": ").concat(rendered.as_str())
    }
}

} // verus!
