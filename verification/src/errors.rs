//! Error taxonomy: authorization failures, callback failures, and request
//! pipeline failures are surfaced as typed results and never swallowed.

use vstd::prelude::*;

verus! {

/// Failure of an authorization attempt.
#[derive(Debug, Clone, PartialEq, Eq, Structural)]
pub enum AuthError {
    /// The provider could not be reached; the caller may retry.
    Transport,
    /// The provider returned an error or a malformed success payload.
    Rejected,
    /// The token is expired and no refresh path exists; a full
    /// re-authorization is required.
    Expired,
    /// The callback never arrived within the caller's deadline.
    TimedOut,
}

/// Failure of one installed-app callback exchange.
#[derive(Debug, Clone, PartialEq, Eq)]
pub enum InstalledAppError {
    /// The callback carried an `error` query parameter; the message is the
    /// parameter's value.
    ProviderError { msg: String },
    /// The `state` query parameter was absent or did not match the value the
    /// listener was armed with.
    MismatchedState,
    /// A callback arrived after the completion slot was already consumed.
    AlreadyReceived,
    /// The listener was abandoned without any callback arriving.
    NeverReceived,
}

/// Failure of one request through the pipeline.
#[derive(Debug, Clone, PartialEq, Eq)]
pub enum RequestError {
    /// No credential was held, or the held credential was expired and could
    /// not be refreshed.
    Unauthorized,
    /// The server answered with a non-success status.
    ServerRejected { status: u16, body: String },
    /// The response body could not be parsed as JSON.
    MalformedResponse { body: String },
    /// The request never completed at the transport level.
    Transport,
}

/// A JSON value that could not be read as a given shape.
#[derive(Debug, Clone, PartialEq, Eq)]
pub struct ParseError {
    /// The shape the JSON was read as.
    pub thing_type: String,
    /// The JSON text that was rejected.
    pub json: String,
}

/// The mathematical value of an `InstalledAppError`.
pub enum InstalledAppErrorV {
    /// The callback carried an `error` parameter with this message.
    ProviderError { msg: Seq<char> },
    /// The `state` parameter was absent or did not match.
    MismatchedState,
    /// A callback arrived after the slot was consumed.
    AlreadyReceived,
    /// No callback ever arrived.
    NeverReceived,
}

impl View for InstalledAppError {
    type V = InstalledAppErrorV;

    open spec fn view(&self) -> InstalledAppErrorV {
        match self {
            InstalledAppError::ProviderError { msg } => InstalledAppErrorV::ProviderError {
                msg: msg@,
            },
            InstalledAppError::MismatchedState => InstalledAppErrorV::MismatchedState,
            InstalledAppError::AlreadyReceived => InstalledAppErrorV::AlreadyReceived,
            InstalledAppError::NeverReceived => InstalledAppErrorV::NeverReceived,
        }
    }
}

/// The mathematical value of a `RequestError`.
pub enum RequestErrorV {
    /// No usable credential.
    Unauthorized,
    /// The server answered with this non-success status and body.
    ServerRejected { status: u16, body: Seq<char> },
    /// The body was not JSON.
    MalformedResponse { body: Seq<char> },
    /// The request never completed.
    Transport,
}

impl View for RequestError {
    type V = RequestErrorV;

    open spec fn view(&self) -> RequestErrorV {
        match self {
            RequestError::Unauthorized => RequestErrorV::Unauthorized,
            RequestError::ServerRejected { status, body } => RequestErrorV::ServerRejected {
                status: *status,
                body: body@,
            },
            RequestError::MalformedResponse { body } => RequestErrorV::MalformedResponse {
                body: body@,
            },
            RequestError::Transport => RequestErrorV::Transport,
        }
    }
}

} // verus!
