use vstd::prelude::*;

verus! {

/// The stable kinds of structured errors that the service surfaces to its
/// callers, one per failure class.
#[derive(Clone, Copy, Debug, PartialEq, Eq, Structural)]
pub enum ErrorKind {
    /// The requested device name is not registered.
    NotFound,
    /// No session was ever acquired for the device and immediate acquisition
    /// failed as well.
    Unauthenticated,
    /// The device reported an expired session; retried once internally before
    /// being surfaced.
    SessionExpired,
    /// An absolute property value outside its domain range, or a malformed
    /// hue/saturation pairing.
    InvalidArgument,
    /// The operation is not supported by the device's class.
    Unimplemented,
    /// An underlying protocol or transport failure.
    Internal,
}

/// A structured error: a stable kind together with a human-readable message.
#[derive(Clone, Debug)]
pub struct Error {
    pub kind: ErrorKind,
    pub message: String,
}

impl Error {
    pub fn new(kind: ErrorKind, message: String) -> (r: Error)
        ensures
            r.kind == kind,
            r.message == message,
    {
        Error { kind, message }
    }

    pub fn not_found(message: String) -> (r: Error)
        ensures
            r.kind == ErrorKind::NotFound,
            r.message == message,
    {
        Error { kind: ErrorKind::NotFound, message }
    }

    pub fn unauthenticated(message: String) -> (r: Error)
        ensures
            r.kind == ErrorKind::Unauthenticated,
            r.message == message,
    {
        Error { kind: ErrorKind::Unauthenticated, message }
    }

    pub fn session_expired(message: String) -> (r: Error)
        ensures
            r.kind == ErrorKind::SessionExpired,
            r.message == message,
    {
        Error { kind: ErrorKind::SessionExpired, message }
    }

    pub fn invalid_argument(message: String) -> (r: Error)
        ensures
            r.kind == ErrorKind::InvalidArgument,
            r.message == message,
    {
        Error { kind: ErrorKind::InvalidArgument, message }
    }

    pub fn unimplemented(message: String) -> (r: Error)
        ensures
            r.kind == ErrorKind::Unimplemented,
            r.message == message,
    {
        Error { kind: ErrorKind::Unimplemented, message }
    }

    pub fn internal(message: String) -> (r: Error)
        ensures
            r.kind == ErrorKind::Internal,
            r.message == message,
    {
        Error { kind: ErrorKind::Internal, message }
    }
}

/// A failure reported by the external device handler, modelled as the parts
/// the coordination logic reads: the failure class and its message.
#[derive(Clone, Debug)]
pub enum HandlerError {
    /// The device rejected the request because the session has expired.
    SessionTimeout,
    /// Any other device-protocol error response.
    Tapo(String),
    /// A request field failed the device library's validation.
    Validation(String),
    /// A serialization or deserialization failure.
    Serde(String),
    /// An HTTP transport failure.
    Http(String),
    /// The device could not be found on the network.
    DeviceNotFound,
    /// Any other failure of the device library.
    Other(String),
}

/// What the per-kind mapping of a handler failure to a structured error
/// yields, kind by kind.
pub open spec fn spec_map_handler_err(err: HandlerError) -> ErrorKind {
    match err {
        HandlerError::SessionTimeout => ErrorKind::SessionExpired,
        HandlerError::Tapo(_) => ErrorKind::Internal,
        HandlerError::Validation(_) => ErrorKind::InvalidArgument,
        HandlerError::Serde(_) => ErrorKind::Internal,
        HandlerError::Http(_) => ErrorKind::Internal,
        HandlerError::DeviceNotFound => ErrorKind::NotFound,
        HandlerError::Other(_) => ErrorKind::Internal,
    }
}

impl HandlerError {
    /// Map a device-handler failure to the structured error surfaced by the
    /// service, preserving the message where one is carried.
    pub fn into_error(self) -> (r: Error)
        ensures
            r.kind == spec_map_handler_err(self),
    {
        match self {
            HandlerError::SessionTimeout => Error::session_expired(String::from_str(
                "Session has expired",
            )),
            HandlerError::Tapo(message) => Error::internal(message),
            HandlerError::Validation(message) => Error::invalid_argument(message),
            HandlerError::Serde(message) => Error::internal(message),
            HandlerError::Http(message) => Error::internal(message),
            HandlerError::DeviceNotFound => Error::not_found(String::from_str(
                "Device not found",
            )),
            HandlerError::Other(message) => Error::internal(message),
        }
    }
}

/// Recognizing the distinguished "session expired" failure on an error, an
/// optional error or a whole result.
pub trait TapoErrorExt {
    /// Whether the value carries a session-expiry failure.
    spec fn spec_session_timeout(&self) -> bool;

    fn is_session_timeout(&self) -> (r: bool)
        ensures
            r == self.spec_session_timeout(),
    ;
}

impl TapoErrorExt for HandlerError {
    open spec fn spec_session_timeout(&self) -> bool {
        self is SessionTimeout
    }

    fn is_session_timeout(&self) -> (r: bool) {
        matches!(self, HandlerError::SessionTimeout)
    }
}

impl TapoErrorExt for Option<HandlerError> {
    open spec fn spec_session_timeout(&self) -> bool {
        match self {
            Some(err) => err.spec_session_timeout(),
            None => false,
        }
    }

    fn is_session_timeout(&self) -> (r: bool) {
        match self {
            Some(err) => err.is_session_timeout(),
            None => false,
        }
    }
}

impl<T> TapoErrorExt for Result<T, HandlerError> {
    open spec fn spec_session_timeout(&self) -> bool {
        match self {
            Ok(_) => false,
            Err(err) => err.spec_session_timeout(),
        }
    }

    fn is_session_timeout(&self) -> (r: bool) {
        match self {
            Ok(_) => false,
            Err(err) => err.is_session_timeout(),
        }
    }
}

} // verus!
