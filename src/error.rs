use vstd::prelude::*;
use vstd::string::*;

verus! {

/// The classes of failure that end a request or prevent the start.
#[derive(Clone, Copy, Debug, PartialEq, Eq, Structural)]
pub enum ErrorKind {
    /// A bearer token could not be obtained for a required scope.
    Authentication,
    /// The network failed while talking to an upstream.
    Transport,
    /// The staging directory or file could not be created, sized or written.
    Staging,
    /// The publishing tool failed or could not be started.
    Publish,
    /// The configuration or an upstream response cannot be used as it is.
    Misconfiguration,
}

/// An error of the proxy: its class and a readable description.
///
/// Every such error is rendered as an internal-server-error response whose
/// body is the description.
#[derive(Debug)]
pub struct Error {
    pub kind: ErrorKind,
    pub message: String,
}

pub const INTERNAL_SERVER_ERROR: u16 = 500;

impl Clone for Error {
    fn clone(&self) -> (r: Self)
        ensures
            r == *self,
    {
        Error { kind: self.kind, message: self.message.clone() }
    }
}

impl Error {
    /// An error of class `kind` described by `message`.
    pub fn new(kind: ErrorKind, message: &str) -> (r: Error)
        ensures
            r.kind == kind,
            r.message@ == message@,
    {
        Error { kind, message: String::from_str(message) }
    }

    /// An error of class `kind`, described by `context`, then `": "`, then
    /// the description of its cause.
    pub fn with_cause(kind: ErrorKind, context: &str, cause: &str) -> (r: Error)
        ensures
            r.kind == kind,
            r.message@ == context@ + ": "@ + cause@,
    {
        let mut message = String::from_str(context);
        message.append(": ");
        message.append(cause);
        Error { kind, message }
    }

    /// The status of the response that renders this error.
    pub fn status_code(&self) -> (r: u16)
        ensures
            r == INTERNAL_SERVER_ERROR,
    {
        INTERNAL_SERVER_ERROR
    }

    /// The body of the response that renders this error: its description.
    pub fn response_body(&self) -> (r: String)
        ensures
            r@ == self.message@,
    {
        self.message.clone()
    }
}

} // verus!
