//! The one error type of the client, and whether retrying can help.
use vstd::prelude::*;
use vstd::string::*;
use crate::text::{decimal_text, push_decimal};

verus! {

/// The structured error that the service returns.
#[derive(Debug, Clone)]
pub struct LobError {
    pub message: String,
    pub status_code: i32,
}

/// The envelope around an error that the service returns.
#[derive(Debug, Clone)]
pub struct LobErrorResponse {
    pub error: LobError,
}

/// A failure of the exchange itself (connection, protocol, timeout).
#[derive(Debug, Clone)]
pub struct TransportError {
    /// The HTTP status captured with the failure, if there was one.
    pub status: Option<u16>,
    pub message: String,
}

/// What went wrong.
#[derive(Debug, Clone)]
pub enum ErrorKind {
    /// The service answered with a structured error.
    Remote(LobError),
    /// The exchange with the service failed.
    Transport(TransportError),
    /// A value could not be encoded or decoded locally.
    Serialization(String),
    /// The request breaks a rule that is checked before anything is sent.
    BadRequest(String),
}

/// An error of the client.
#[derive(Debug, Clone)]
pub struct Error {
    kind: ErrorKind,
}

impl View for Error {
    type V = ErrorKind;

    closed spec fn view(&self) -> ErrorKind {
        self.kind
    }
}

/// Whether retrying the same request may succeed: a remote error unless its
/// status is a client error, a transport failure unless its status is 400,
/// and never a local encoding or validation failure.
pub open spec fn retryable(k: ErrorKind) -> bool {
    match k {
        ErrorKind::Remote(e) => !(400 <= e.status_code < 500),
        ErrorKind::Transport(t) => match t.status {
            None => true,
            Some(c) => c != 400,
        },
        ErrorKind::Serialization(_) => false,
        ErrorKind::BadRequest(_) => false,
    }
}

/// The text of a number that may be negative.
pub open spec fn signed_text(n: int) -> Seq<char> {
    if n < 0 {
        "-"@ + decimal_text((-n) as nat)
    } else {
        decimal_text(n as nat)
    }
}

/// The readable description of an error.
pub open spec fn error_text(k: ErrorKind) -> Seq<char> {
    match k {
        ErrorKind::Remote(e) => "Lob error - status_code: "@ + signed_text(e.status_code as int)
            + ", message: "@ + e.message@,
        ErrorKind::Transport(t) => "Lob error (transport) - "@ + t.message@,
        ErrorKind::Serialization(m) => "Lob error (serialization) - "@ + m@,
        ErrorKind::BadRequest(m) => "Lob error (bad request) - "@ + m@,
    }
}

impl Error {
    /// A request that breaks a rule checked before sending.
    pub fn bad_request(msg: &str) -> (r: Error)
        ensures
            r@ is BadRequest,
            r@->BadRequest_0@ == msg@,
    {
        Error { kind: ErrorKind::BadRequest(String::from_str(msg)) }
    }

    /// A structured error returned by the service.
    pub fn remote(e: LobError) -> (r: Error)
        ensures
            r@ == ErrorKind::Remote(e),
    {
        Error { kind: ErrorKind::Remote(e) }
    }

    /// A failed exchange, with the status captured with it.
    pub fn transport(status: Option<u16>, message: String) -> (r: Error)
        ensures
            r@ == ErrorKind::Transport(TransportError { status, message }),
    {
        Error { kind: ErrorKind::Transport(TransportError { status, message }) }
    }

    /// A local encoding or decoding failure.
    pub fn serialization(message: String) -> (r: Error)
        ensures
            r@ == ErrorKind::Serialization(message),
    {
        Error { kind: ErrorKind::Serialization(message) }
    }

    /// What went wrong.
    pub fn kind(&self) -> (r: &ErrorKind)
        ensures
            *r == self@,
    {
        &self.kind
    }

    /// Whether retrying the same request may ever succeed.
    pub fn is_retryable(&self) -> (r: bool)
        ensures
            r == retryable(self@),
    {
        match &self.kind {
            ErrorKind::Remote(e) => !(e.status_code >= 400 && e.status_code < 500),
            ErrorKind::Transport(t) => match t.status {
                None => true,
                Some(c) => c != 400,
            },
            ErrorKind::Serialization(_) => false,
            ErrorKind::BadRequest(_) => false,
        }
    }

    /// A readable description of the error.
    pub fn to_text(&self) -> (r: String)
        ensures
            r@ == error_text(self@),
    {
        match &self.kind {
            ErrorKind::Remote(e) => {
                let mut s = String::from_str("Lob error - status_code: ");
                push_signed(&mut s, e.status_code);
                s.append(", message: ");
                s.append(e.message.as_str());
                s
            },
            ErrorKind::Transport(t) => {
                let mut s = String::from_str("Lob error (transport) - ");
                s.append(t.message.as_str());
                s
            },
            ErrorKind::Serialization(m) => {
                let mut s = String::from_str("Lob error (serialization) - ");
                s.append(m.as_str());
                s
            },
            ErrorKind::BadRequest(m) => {
                let mut s = String::from_str("Lob error (bad request) - ");
                s.append(m.as_str());
                s
            },
        }
    }
}

impl From<LobError> for Error {
    fn from(e: LobError) -> (r: Error)
        ensures
            r@ == ErrorKind::Remote(e),
    {
        Error { kind: ErrorKind::Remote(e) }
    }
}

impl vstd::std_specs::convert::FromSpecImpl<LobError> for Error {
    open spec fn obeys_from_spec() -> bool {
        true
    }

    closed spec fn from_spec(e: LobError) -> Error {
        Error { kind: ErrorKind::Remote(e) }
    }
}

/// Client errors from the service are final and server errors are not; a
/// failed exchange with no status may be retried; local encoding and
/// validation failures never can succeed on retry.
pub proof fn lemma_retry_policy(e: LobError, t: TransportError, m: String)
    ensures
        (e.status_code == 404 ==> !retryable(ErrorKind::Remote(e))),
        (e.status_code == 500 ==> retryable(ErrorKind::Remote(e))),
        (t.status is None ==> retryable(ErrorKind::Transport(t))),
        !retryable(ErrorKind::BadRequest(m)),
        !retryable(ErrorKind::Serialization(m)),
{
}

fn push_signed(out: &mut String, n: i32)
    ensures
        final(out)@ == old(out)@ + signed_text(n as int),
{
    if n < 0 {
        out.append("-");
        let m: u64 = (0 - (n as i64)) as u64;
        push_decimal(out, m);
    } else {
        push_decimal(out, n as u64);
    }
}

} // verus!
