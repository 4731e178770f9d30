//! Errors that cross the operation boundary as flat messages.
use vstd::prelude::*;

verus! {

/// The category of a failure, as seen by the caller of an operation.
#[derive(Clone, Copy, Debug, PartialEq, Eq, Structural)]
pub enum ErrorKind {
    /// Malformed or missing parameters, a path traversal attempt, a wrong extension.
    Parameter,
    /// The session is not configured, or no mod is open.
    State,
    /// A candidate configuration did not pass its smoke test.
    ConfigTest,
    /// An unknown operation, mod or schema.
    NotFound,
    /// A disk or network failure.
    Io,
}

/// A failure with its category and a descriptive message.
#[derive(Clone, Debug)]
pub struct Error {
    pub kind: ErrorKind,
    pub message: String,
}

impl Error {
    pub fn new(kind: ErrorKind, msg: &str) -> (r: Error)
        ensures
            r.kind == kind,
            r.message@ == msg@,
    {
        Error { kind, message: msg.to_string() }
    }

    /// Prefixes the message with `context` and `": "`, keeping the kind.
    pub fn with_context(self, context: &str) -> (r: Error)
        ensures
            r.kind == self.kind,
            r.message@ == context@ + ": "@ + self.message@,
    {
        let mut message = context.to_string();
        message.append(": ");
        message.append(self.message.as_str());
        Error { kind: self.kind, message }
    }

    /// The message that the caller sees.
    pub fn to_message(&self) -> (r: String)
        ensures
            r@ == self.message@,
    {
        self.message.clone()
    }
}

} // verus!
