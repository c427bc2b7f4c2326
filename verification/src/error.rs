//! The closed taxonomy of failures and the classification of error responses.

use reqwest::Error as TransportFailure;
use vstd::prelude::*;
use vstd::string::StringExecFns;
use vstd::std_specs::convert::FromSpecImpl;

verus! {

/// What went wrong, independent of where the failure came from.
#[derive(Debug, Copy, Clone, PartialEq, Eq, Structural)]
#[non_exhaustive]
pub enum ErrorKind {
    BadAuthToken,
    ExpiredAuthToken,
    BadBucketId,
    BadRequest,
    Unauthorized,
    Unsupported,
    TransactionCapExceeded,
    Connect,
    Timeout,
    Deserialize,
    Unknown,
}

/// The kind that the service's error code stands for, if the code is a known one.
pub open spec fn kind_of_code(code: Seq<char>) -> Option<ErrorKind> {
    if code == "bad_auth_token"@ {
        Some(ErrorKind::BadAuthToken)
    } else if code == "expired_auth_token"@ {
        Some(ErrorKind::ExpiredAuthToken)
    } else if code == "bad_bucket_id"@ {
        Some(ErrorKind::BadBucketId)
    } else if code == "bad_request"@ {
        Some(ErrorKind::BadRequest)
    } else if code == "unauthorized"@ {
        Some(ErrorKind::Unauthorized)
    } else if code == "unsupported"@ {
        Some(ErrorKind::Unsupported)
    } else if code == "transaction_cap_exceeded"@ {
        Some(ErrorKind::TransactionCapExceeded)
    } else {
        None
    }
}

/// The kind under which an error response is reported: that of its code, or
/// `Unknown` for a code outside the table.
pub open spec fn kind_of_code_or_unknown(code: Seq<char>) -> ErrorKind {
    match kind_of_code(code) {
        Some(kind) => kind,
        None => ErrorKind::Unknown,
    }
}

/// The structured body that the service sends with a client or server error status.
#[derive(Debug)]
pub struct ErrorResponse {
    pub status: u16,
    pub code: String,
    pub message: String,
}

impl Clone for ErrorResponse {
    fn clone(&self) -> (copy: ErrorResponse)
        ensures
            copy == *self,
    {
        ErrorResponse {
            status: self.status,
            code: self.code.clone(),
            message: self.message.clone(),
        }
    }
}

/// An error code that the table of known codes does not hold.
#[derive(Debug)]
pub struct UnknownErrorCode(pub String);

impl Clone for UnknownErrorCode {
    fn clone(&self) -> (copy: UnknownErrorCode)
        ensures
            copy == *self,
    {
        UnknownErrorCode(self.0.clone())
    }
}

impl UnknownErrorCode {
    /// The code as the service sent it.
    pub fn code(&self) -> (code: &str)
        ensures
            code@ == self.0@,
    {
        self.0.as_str()
    }

    /// The fixed text that describes this condition.
    pub fn description(&self) -> (text: String)
        ensures
            text@ == "unknown error code"@,
    {
        String::from_str("unknown error code")
    }
}

fn is_code(code: &String, known: &str) -> (same: bool)
    ensures
        same == (code@ == known@),
{
    *code == String::from_str(known)
}

impl ErrorKind {
    /// Looks a code up in the table of known codes.
    pub fn from_code(code: &str) -> (found: Option<ErrorKind>)
        ensures
            found == kind_of_code(code@),
    {
        let code = String::from_str(code);
        if is_code(&code, "bad_auth_token") {
            Some(ErrorKind::BadAuthToken)
        } else if is_code(&code, "expired_auth_token") {
            Some(ErrorKind::ExpiredAuthToken)
        } else if is_code(&code, "bad_bucket_id") {
            Some(ErrorKind::BadBucketId)
        } else if is_code(&code, "bad_request") {
            Some(ErrorKind::BadRequest)
        } else if is_code(&code, "unauthorized") {
            Some(ErrorKind::Unauthorized)
        } else if is_code(&code, "unsupported") {
            Some(ErrorKind::Unsupported)
        } else if is_code(&code, "transaction_cap_exceeded") {
            Some(ErrorKind::TransactionCapExceeded)
        } else {
            None
        }
    }

    /// The kind that the response's code stands for. A code outside the table
    /// comes back as the error, unchanged.
    pub fn try_from(res: ErrorResponse) -> (found: Result<ErrorKind, UnknownErrorCode>)
        ensures
            match kind_of_code(res.code@) {
                Some(kind) => found == Ok::<ErrorKind, UnknownErrorCode>(kind),
                None => found == Err::<ErrorKind, UnknownErrorCode>(UnknownErrorCode(res.code)),
            },
    {
        match ErrorKind::from_code(res.code.as_str()) {
            Some(kind) => Ok(kind),
            None => Err(UnknownErrorCode(res.code)),
        }
    }
}

/// A classified failure: its kind, and the message that goes with it.
#[derive(Debug)]
pub struct Error {
    kind: ErrorKind,
    message: String,
}

/// What an `Error` holds, as plain values.
pub struct ErrorView {
    pub kind: ErrorKind,
    pub message: Seq<char>,
}

impl View for Error {
    type V = ErrorView;

    closed spec fn view(&self) -> ErrorView {
        ErrorView { kind: self.kind, message: self.message@ }
    }
}

impl Error {
    pub fn kind(&self) -> (kind: ErrorKind)
        ensures
            kind == self@.kind,
    {
        self.kind
    }

    pub fn message(&self) -> (message: &str)
        ensures
            message@ == self@.message,
    {
        self.message.as_str()
    }

    /// The text shown for this error: its message.
    pub fn to_string(&self) -> (text: String)
        ensures
            text@ == self@.message,
    {
        self.message.clone()
    }
}

/// Classifies an error response of the service. The error carries the kind that
/// the code stands for, `Unknown` for a code outside the table, and always the
/// service's own message. For a code outside the table the code is handed back
/// as well, so that the caller can record it as a diagnostic.
pub fn classify(res: ErrorResponse) -> (out: (Error, Option<UnknownErrorCode>))
    ensures
        out.0@ == (ErrorView {
            kind: kind_of_code_or_unknown(res.code@),
            message: res.message@,
        }),
        kind_of_code(res.code@) is Some ==> out.1 is None,
        kind_of_code(res.code@) is None ==> out.1 == Some(UnknownErrorCode(res.code)),
{
    let message = res.message.clone();
    match ErrorKind::try_from(res) {
        Ok(kind) => (Error { kind, message }, None),
        Err(unknown) => (Error { kind: ErrorKind::Unknown, message }, Some(unknown)),
    }
}

impl From<ErrorResponse> for Error {
    fn from(res: ErrorResponse) -> (e: Error)
        ensures
            e@ == (ErrorView {
                kind: kind_of_code_or_unknown(res.code@),
                message: res.message@,
            }),
    {
        let kind = match ErrorKind::from_code(res.code.as_str()) {
            Some(kind) => kind,
            None => ErrorKind::Unknown,
        };
        Error { kind, message: res.message }
    }
}

impl FromSpecImpl<ErrorResponse> for Error {
    open spec fn obeys_from_spec() -> bool {
        true
    }

    closed spec fn from_spec(res: ErrorResponse) -> Error {
        Error { kind: kind_of_code_or_unknown(res.code@), message: res.message }
    }
}

/// `reqwest::Error`, the failure of a request that never produced a usable
/// response. Nothing inside it is visible here.
#[verifier::external_type_specification]
#[verifier::external_body]
pub struct ExTransportError(TransportFailure);

/// What `reqwest::Error::is_connect` answers for a transport failure.
pub uninterp spec fn connect_flag(err: TransportFailure) -> bool;

/// What `reqwest::Error::is_timeout` answers for a transport failure.
pub uninterp spec fn timeout_flag(err: TransportFailure) -> bool;

/// What `reqwest::Error::is_decode` answers for a transport failure.
pub uninterp spec fn decode_flag(err: TransportFailure) -> bool;

/// `reqwest::Error::is_connect` walks the error's chain of sources for a
/// connection failure. Its answer depends on the error alone; nothing more is
/// claimed of it.
pub assume_specification[ TransportFailure::is_connect ](err: &TransportFailure) -> (yes: bool)
    ensures
        yes == connect_flag(*err),
;

/// `reqwest::Error::is_timeout` walks the error's chain of sources for a
/// timeout. Its answer depends on the error alone; nothing more is claimed of
/// it.
pub assume_specification[ TransportFailure::is_timeout ](err: &TransportFailure) -> (yes: bool)
    ensures
        yes == timeout_flag(*err),
;

/// `reqwest::Error::is_decode` tells whether the error is of the kind that
/// reports a body that could not be decoded. Its answer depends on the error
/// alone; nothing more is claimed of it.
pub assume_specification[ TransportFailure::is_decode ](err: &TransportFailure) -> (yes: bool)
    ensures
        yes == decode_flag(*err),
;

/// The kind of a transport failure, from what the transport says of it. A
/// connection failure goes before a timeout, a timeout before a failure to decode.
pub open spec fn transport_kind(connect: bool, timeout: bool, decode: bool) -> ErrorKind {
    if connect {
        ErrorKind::Connect
    } else if timeout {
        ErrorKind::Timeout
    } else if decode {
        ErrorKind::Deserialize
    } else {
        ErrorKind::Unknown
    }
}

/// Whether a kind is one of those that a transport failure is reported under.
pub open spec fn is_transport_kind(kind: ErrorKind) -> bool {
    kind == ErrorKind::Connect || kind == ErrorKind::Timeout || kind == ErrorKind::Deserialize
        || kind == ErrorKind::Unknown
}

/// The kind under which a transport failure is reported, by the transport's
/// three answers for it.
pub open spec fn kind_of_transport(err: TransportFailure) -> ErrorKind {
    transport_kind(connect_flag(err), timeout_flag(err), decode_flag(err))
}

/// The fixed message that goes with a transport failure of the given kind.
pub open spec fn transport_message(kind: ErrorKind) -> Seq<char> {
    match kind {
        ErrorKind::Connect => "could not connect"@,
        ErrorKind::Timeout => "timed out"@,
        ErrorKind::Deserialize => "invalid or malformed response"@,
        _ => "unknown error related to communication"@,
    }
}

/// The error that reports a transport failure: its kind by the transport's
/// answers, with the fixed message of that kind.
pub open spec fn transport_error(err: TransportFailure) -> ErrorView {
    ErrorView { kind: kind_of_transport(err), message: transport_message(kind_of_transport(err)) }
}

impl ErrorKind {
    /// The kind of a transport failure, given the transport's three answers.
    pub fn from_transport_flags(connect: bool, timeout: bool, decode: bool) -> (kind: ErrorKind)
        ensures
            kind == transport_kind(connect, timeout, decode),
    {
        if connect {
            return ErrorKind::Connect;
        }
        if timeout {
            return ErrorKind::Timeout;
        }
        if decode {
            return ErrorKind::Deserialize;
        }
        ErrorKind::Unknown
    }

    /// The kind of a transport failure: Connect if the transport reports a
    /// connection failure, else Timeout if it reports a timeout, else
    /// Deserialize if it reports a body that could not be decoded, else Unknown.
    pub fn from_transport(err: &TransportFailure) -> (kind: ErrorKind)
        ensures
            kind == kind_of_transport(*err),
            is_transport_kind(kind),
    {
        let connect = err.is_connect();
        let timeout = err.is_timeout();
        let decode = err.is_decode();
        ErrorKind::from_transport_flags(connect, timeout, decode)
    }
}

impl Error {
    /// The error that reports a transport failure of the given kind: the kind
    /// itself, with the fixed message that belongs to it.
    pub fn of_transport_kind(kind: ErrorKind) -> (e: Error)
        ensures
            e@ == (ErrorView { kind, message: transport_message(kind) }),
    {
        let message = match kind {
            ErrorKind::Connect => "could not connect",
            ErrorKind::Timeout => "timed out",
            ErrorKind::Deserialize => "invalid or malformed response",
            _ => "unknown error related to communication",
        };
        Error { kind, message: String::from_str(message) }
    }

    /// Classifies a transport failure. No response body is consulted: the
    /// message is the fixed one of the kind.
    pub fn from_transport(err: TransportFailure) -> (e: Error)
        ensures
            e@ == transport_error(err),
            is_transport_kind(e@.kind),
    {
        Error::of_transport_kind(ErrorKind::from_transport(&err))
    }
}

} // verus!
