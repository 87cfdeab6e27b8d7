//! The failures that a backend operation or the control loop can report.

use vstd::prelude::*;

verus! {

/// A failure of a backend operation or of reading the forwarded port.
///
/// The variants that stand for a failure of the transport, of the file system
/// or of reading a number carry the failure's description as text.
#[derive(Debug)]
pub enum Error {
    /// The backend rejected the credentials.
    Authorization,
    /// The backend answered, but not with what the operation expects.
    AppResponse(String),
    /// A response body is malformed or does not have the expected shape.
    ParsingFailure(String),
    /// The file that holds the forwarded port does not exist.
    PortPath(String),
    /// The backend accepted a new port, but reports another one.
    PortUpdate(String),
    /// The file that holds the forwarded port cannot be read.
    IO(String),
    /// The forwarded port is not written as a 16-bit unsigned number.
    ParseInt(String),
    /// The request did not get through to the backend.
    Reqwest(String),
}

/// The mathematical value of an [`Error`].
pub enum ErrorView {
    Authorization,
    AppResponse(Seq<char>),
    ParsingFailure(Seq<char>),
    PortPath(Seq<char>),
    PortUpdate(Seq<char>),
    IO(Seq<char>),
    ParseInt(Seq<char>),
    Reqwest(Seq<char>),
}

/// The kinds of failure that callers tell apart.
#[derive(Debug, Clone, Copy, PartialEq, Eq, Structural)]
pub enum ErrorKind {
    /// Network, timeout or connection failure.
    TransportFailure,
    /// Malformed or schema-mismatched response body.
    DecodeFailure,
    /// Credentials rejected by the backend.
    AuthorizationRejected,
    /// Unexpected but well-formed answer of the backend.
    ApplicationResponseFailure,
    /// The applied port does not match the one read back.
    PortVerificationMismatch,
    /// The forwarded-port file is missing, unreadable or unparsable.
    PortSourceUnavailable,
}

impl View for Error {
    type V = ErrorView;

    open spec fn view(&self) -> ErrorView {
        match self {
            Error::Authorization => ErrorView::Authorization,
            Error::AppResponse(d) => ErrorView::AppResponse(d@),
            Error::ParsingFailure(d) => ErrorView::ParsingFailure(d@),
            Error::PortPath(d) => ErrorView::PortPath(d@),
            Error::PortUpdate(d) => ErrorView::PortUpdate(d@),
            Error::IO(d) => ErrorView::IO(d@),
            Error::ParseInt(d) => ErrorView::ParseInt(d@),
            Error::Reqwest(d) => ErrorView::Reqwest(d@),
        }
    }
}

impl ErrorView {
    /// The kind of failure that the error stands for.
    pub open spec fn kind(self) -> ErrorKind {
        match self {
            ErrorView::Authorization => ErrorKind::AuthorizationRejected,
            ErrorView::AppResponse(_) => ErrorKind::ApplicationResponseFailure,
            ErrorView::ParsingFailure(_) => ErrorKind::DecodeFailure,
            ErrorView::PortPath(_) => ErrorKind::PortSourceUnavailable,
            ErrorView::PortUpdate(_) => ErrorKind::PortVerificationMismatch,
            ErrorView::IO(_) => ErrorKind::PortSourceUnavailable,
            ErrorView::ParseInt(_) => ErrorKind::PortSourceUnavailable,
            ErrorView::Reqwest(_) => ErrorKind::TransportFailure,
        }
    }

    /// The line that describes the error to a reader of the log.
    pub open spec fn message(self) -> Seq<char> {
        match self {
            ErrorView::Authorization => "Authorization request unsuccessful"@,
            ErrorView::AppResponse(d) => "Unsuccessful response: "@ + d,
            ErrorView::ParsingFailure(d) => "Parsing failed: "@ + d,
            ErrorView::PortPath(d) => "Port forward path not accessible: "@ + d,
            ErrorView::PortUpdate(d) => "Port update unsuccessful: "@ + d,
            ErrorView::IO(d) => "IO Error: "@ + d,
            ErrorView::ParseInt(d) => "Parse Integer Error: "@ + d,
            ErrorView::Reqwest(d) => "Reqwest Error: "@ + d,
        }
    }
}

impl Clone for Error {
    fn clone(&self) -> (r: Error)
        ensures
            r@ == self@,
    {
        match self {
            Error::Authorization => Error::Authorization,
            Error::AppResponse(d) => Error::AppResponse(d.clone()),
            Error::ParsingFailure(d) => Error::ParsingFailure(d.clone()),
            Error::PortPath(d) => Error::PortPath(d.clone()),
            Error::PortUpdate(d) => Error::PortUpdate(d.clone()),
            Error::IO(d) => Error::IO(d.clone()),
            Error::ParseInt(d) => Error::ParseInt(d.clone()),
            Error::Reqwest(d) => Error::Reqwest(d.clone()),
        }
    }
}

impl Error {
    /// The kind of failure that the error stands for.
    pub fn kind(&self) -> (k: ErrorKind)
        ensures
            k == self@.kind(),
    {
        match self {
            Error::Authorization => ErrorKind::AuthorizationRejected,
            Error::AppResponse(_) => ErrorKind::ApplicationResponseFailure,
            Error::ParsingFailure(_) => ErrorKind::DecodeFailure,
            Error::PortPath(_) => ErrorKind::PortSourceUnavailable,
            Error::PortUpdate(_) => ErrorKind::PortVerificationMismatch,
            Error::IO(_) => ErrorKind::PortSourceUnavailable,
            Error::ParseInt(_) => ErrorKind::PortSourceUnavailable,
            Error::Reqwest(_) => ErrorKind::TransportFailure,
        }
    }

    /// The line that describes the error to a reader of the log.
    pub fn to_string(&self) -> (text: String)
        ensures
            text@ == self@.message(),
    {
        match self {
            Error::Authorization => String::from_str("Authorization request unsuccessful"),
            Error::AppResponse(d) => String::from_str("Unsuccessful response: ").concat(d.as_str()),
            Error::ParsingFailure(d) => String::from_str("Parsing failed: ").concat(d.as_str()),
            Error::PortPath(d) => String::from_str("Port forward path not accessible: ").concat(
                d.as_str(),
            ),
            Error::PortUpdate(d) => String::from_str("Port update unsuccessful: ").concat(
                d.as_str(),
            ),
            Error::IO(d) => String::from_str("IO Error: ").concat(d.as_str()),
            Error::ParseInt(d) => String::from_str("Parse Integer Error: ").concat(d.as_str()),
            Error::Reqwest(d) => String::from_str("Reqwest Error: ").concat(d.as_str()),
        }
    }
}

/// The view of a result that carries nothing on success.
pub open spec fn outcome_view(r: Result<(), Error>) -> Result<(), ErrorView> {
    match r {
        Ok(_) => Ok(()),
        Err(e) => Err(e@),
    }
}

} // verus!
