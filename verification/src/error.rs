//! Errors of the store, and the mapping from gRPC statuses to them.
use bytes::Bytes;
use tonic::metadata::errors::InvalidMetadataValue;
use tonic::metadata::MetadataMap;
use tonic::transport::Error as TransportError;
use vstd::prelude::*;

verus! {

/// The name under which the store reports generic errors.
pub const STORE: &'static str = "GCSRapid";

/// The canonical gRPC status codes.
#[derive(Clone, Copy, Debug, PartialEq, Eq, Structural)]
pub enum Code {
    Success,
    Cancelled,
    Unknown,
    InvalidArgument,
    DeadlineExceeded,
    NotFound,
    AlreadyExists,
    PermissionDenied,
    ResourceExhausted,
    FailedPrecondition,
    Aborted,
    OutOfRange,
    Unimplemented,
    Internal,
    Unavailable,
    DataLoss,
    Unauthenticated,
}

/// The status with which a gRPC call or a stream of messages failed.
#[derive(Debug)]
pub struct Status {
    pub code: Code,
    pub message: String,
    /// Further details, in a form that the server chooses.
    pub details: Bytes,
    pub metadata: MetadataMap,
}

/// What lies behind an [`Error`].
#[derive(Debug)]
pub enum Source {
    /// The server, or the transport on its behalf, answered with a status.
    Status(Status),
    /// A protocol rule was broken; the text says which.
    Message(String),
    /// The bearer token holds a character that no metadata value may hold.
    InvalidMetadataValue(InvalidMetadataValue),
    /// The endpoint is no valid URI or names no valid host, or the connection
    /// to it could not be set up.
    Transport(TransportError),
    /// The request stream no longer takes messages.
    RequestStreamClosed,
}

/// An error of the store. Some kinds arise only in what the caller provides:
/// the credentials, the inner store and the conditions of a read. They are
/// handed on as they are.
#[derive(Debug)]
pub enum Error {
    Generic { store: &'static str, source: Source },
    NotFound { path: String, source: Source },
    InvalidPath { source: Source },
    JoinError { source: Source },
    NotSupported { source: Source },
    AlreadyExists { path: String, source: Source },
    Precondition { path: String, source: Source },
    NotModified { path: String, source: Source },
    NotImplemented { operation: String, implementer: String },
    PermissionDenied { path: String, source: Source },
    Unauthenticated { path: String, source: Source },
    UnknownConfigurationKey { store: &'static str, key: String },
}

/// The mathematical value of a [`Status`].
pub struct StatusView {
    pub code: Code,
    pub message: Seq<char>,
    pub details: Bytes,
    pub metadata: MetadataMap,
}

/// The mathematical value of a [`Source`].
pub enum SourceView {
    Status(StatusView),
    Message(Seq<char>),
    InvalidMetadataValue(InvalidMetadataValue),
    Transport(TransportError),
    RequestStreamClosed,
}

/// The mathematical value of an [`Error`].
pub enum ErrorView {
    Generic { store: Seq<char>, source: SourceView },
    NotFound { path: Seq<char>, source: SourceView },
    InvalidPath { source: SourceView },
    JoinError { source: SourceView },
    NotSupported { source: SourceView },
    AlreadyExists { path: Seq<char>, source: SourceView },
    Precondition { path: Seq<char>, source: SourceView },
    NotModified { path: Seq<char>, source: SourceView },
    NotImplemented { operation: Seq<char>, implementer: Seq<char> },
    PermissionDenied { path: Seq<char>, source: SourceView },
    Unauthenticated { path: Seq<char>, source: SourceView },
    UnknownConfigurationKey { store: Seq<char>, key: Seq<char> },
}

impl View for Status {
    type V = StatusView;

    open spec fn view(&self) -> StatusView {
        StatusView {
            code: self.code,
            message: self.message@,
            details: self.details,
            metadata: self.metadata,
        }
    }
}

impl View for Source {
    type V = SourceView;

    open spec fn view(&self) -> SourceView {
        match self {
            Source::Status(status) => SourceView::Status(status@),
            Source::Message(text) => SourceView::Message(text@),
            Source::InvalidMetadataValue(error) => SourceView::InvalidMetadataValue(*error),
            Source::Transport(error) => SourceView::Transport(*error),
            Source::RequestStreamClosed => SourceView::RequestStreamClosed,
        }
    }
}

impl View for Error {
    type V = ErrorView;

    open spec fn view(&self) -> ErrorView {
        match self {
            Error::Generic { store, source } => ErrorView::Generic { store: store@, source: source@ },
            Error::NotFound { path, source } => ErrorView::NotFound { path: path@, source: source@ },
            Error::InvalidPath { source } => ErrorView::InvalidPath { source: source@ },
            Error::JoinError { source } => ErrorView::JoinError { source: source@ },
            Error::NotSupported { source } => ErrorView::NotSupported { source: source@ },
            Error::AlreadyExists { path, source } => ErrorView::AlreadyExists {
                path: path@,
                source: source@,
            },
            Error::Precondition { path, source } => ErrorView::Precondition {
                path: path@,
                source: source@,
            },
            Error::NotModified { path, source } => ErrorView::NotModified {
                path: path@,
                source: source@,
            },
            Error::NotImplemented { operation, implementer } => ErrorView::NotImplemented {
                operation: operation@,
                implementer: implementer@,
            },
            Error::PermissionDenied { path, source } => ErrorView::PermissionDenied {
                path: path@,
                source: source@,
            },
            Error::Unauthenticated { path, source } => ErrorView::Unauthenticated {
                path: path@,
                source: source@,
            },
            Error::UnknownConfigurationKey { store, key } => ErrorView::UnknownConfigurationKey {
                store: store@,
                key: key@,
            },
        }
    }
}

/// An error that no more specific variant covers.
pub open spec fn generic_error(source: SourceView) -> ErrorView {
    ErrorView::Generic { store: STORE@, source }
}

/// The error that a failed call on `path` is reported as.
pub open spec fn grpc_error(status: StatusView, path: Seq<char>) -> ErrorView {
    let source = SourceView::Status(status);
    match status.code {
        Code::NotFound => ErrorView::NotFound { path, source },
        Code::AlreadyExists => ErrorView::AlreadyExists { path, source },
        Code::FailedPrecondition => ErrorView::Precondition { path, source },
        Code::Aborted => ErrorView::Precondition { path, source },
        Code::PermissionDenied => ErrorView::PermissionDenied { path, source },
        Code::Unauthenticated => ErrorView::Unauthenticated { path, source },
        _ => generic_error(source),
    }
}

/// The error with which a failed call on `path` is reported.
pub fn map_grpc_error(status: Status, path: &str) -> (error: Error)
    ensures
        error@ == grpc_error(status@, path@),
        match status.code {
            Code::NotFound => error matches Error::NotFound { path: named, source } && named@ == path@
                && source == Source::Status(status),
            Code::AlreadyExists => error matches Error::AlreadyExists { path: named, source } && named@ == path@
                && source == Source::Status(status),
            Code::FailedPrecondition => error matches Error::Precondition { path: named, source } && named@ == path@
                && source == Source::Status(status),
            Code::Aborted => error matches Error::Precondition { path: named, source } && named@ == path@
                && source == Source::Status(status),
            Code::PermissionDenied => error matches Error::PermissionDenied { path: named, source } && named@ == path@
                && source == Source::Status(status),
            Code::Unauthenticated => error matches Error::Unauthenticated { path: named, source } && named@ == path@
                && source == Source::Status(status),
            _ => error matches Error::Generic { store, source } && store@ == "GCSRapid"@ && source
                == Source::Status(status),
        },
{
    match status.code {
        Code::NotFound => Error::NotFound {
            path: path.to_string(),
            source: Source::Status(status),
        },
        Code::AlreadyExists => Error::AlreadyExists {
            path: path.to_string(),
            source: Source::Status(status),
        },
        Code::FailedPrecondition | Code::Aborted => Error::Precondition {
            path: path.to_string(),
            source: Source::Status(status),
        },
        Code::PermissionDenied => Error::PermissionDenied {
            path: path.to_string(),
            source: Source::Status(status),
        },
        Code::Unauthenticated => Error::Unauthenticated {
            path: path.to_string(),
            source: Source::Status(status),
        },
        _ => Error::Generic { store: STORE, source: Source::Status(status) },
    }
}

/// A generic error with the given cause.
pub fn generic(source: Source) -> (error: Error)
    ensures
        error@ == generic_error(source@),
        error == (Error::Generic { store: STORE, source }),
{
    Error::Generic { store: STORE, source }
}

/// What lies behind an error, if it has a cause.
pub open spec fn error_source(error: ErrorView) -> Option<SourceView> {
    match error {
        ErrorView::Generic { source, .. } => Some(source),
        ErrorView::NotFound { source, .. } => Some(source),
        ErrorView::InvalidPath { source } => Some(source),
        ErrorView::JoinError { source } => Some(source),
        ErrorView::NotSupported { source } => Some(source),
        ErrorView::AlreadyExists { source, .. } => Some(source),
        ErrorView::Precondition { source, .. } => Some(source),
        ErrorView::NotModified { source, .. } => Some(source),
        ErrorView::NotImplemented { .. } => None,
        ErrorView::PermissionDenied { source, .. } => Some(source),
        ErrorView::Unauthenticated { source, .. } => Some(source),
        ErrorView::UnknownConfigurationKey { .. } => None,
    }
}

/// However a failed call is reported, its status is kept.
pub proof fn law_error_keeps_status(status: StatusView, path: Seq<char>)
    ensures
        error_source(grpc_error(status, path)) == Some(SourceView::Status(status)),
{
}

/// The code of a status decides the kind of the error, and the error names the
/// path and keeps the status.
pub proof fn law_code_decides_error(error: Error, status: Status, path: Seq<char>)
    requires
        error@ == grpc_error(status@, path),
    ensures
        match status.code {
            Code::NotFound => error matches Error::NotFound { path: named, source: Source::Status(kept) }
                && named@ == path && kept.code == status.code && kept.message@ == status.message@
                && kept.details == status.details && kept.metadata == status.metadata,
            Code::AlreadyExists => error matches Error::AlreadyExists { path: named, source: Source::Status(kept) }
                && named@ == path && kept.code == status.code && kept.message@ == status.message@
                && kept.details == status.details && kept.metadata == status.metadata,
            Code::FailedPrecondition => error matches Error::Precondition { path: named, source: Source::Status(kept) }
                && named@ == path && kept.code == status.code && kept.message@ == status.message@
                && kept.details == status.details && kept.metadata == status.metadata,
            Code::Aborted => error matches Error::Precondition { path: named, source: Source::Status(kept) }
                && named@ == path && kept.code == status.code && kept.message@ == status.message@
                && kept.details == status.details && kept.metadata == status.metadata,
            Code::PermissionDenied => error matches Error::PermissionDenied { path: named, source: Source::Status(kept) }
                && named@ == path && kept.code == status.code && kept.message@ == status.message@
                && kept.details == status.details && kept.metadata == status.metadata,
            Code::Unauthenticated => error matches Error::Unauthenticated { path: named, source: Source::Status(kept) }
                && named@ == path && kept.code == status.code && kept.message@ == status.message@
                && kept.details == status.details && kept.metadata == status.metadata,
            _ => error matches Error::Generic { store, source: Source::Status(kept) } && store@
                == "GCSRapid"@ && kept.code == status.code && kept.message@ == status.message@
                && kept.details == status.details && kept.metadata == status.metadata,
        },
{
}

/// A generic error names the store and keeps its cause.
pub proof fn law_generic_error_keeps_cause(
    error: Error,
    text: Seq<char>,
    failure: TransportError,
)
    ensures
        error@ == generic_error(SourceView::Message(text)) ==> {
            &&& error matches Error::Generic { store, source: Source::Message(message) }
            &&& store@ == "GCSRapid"@
            &&& message@ == text
        },
        error@ == generic_error(SourceView::Transport(failure)) ==> {
            &&& error matches Error::Generic { store, source: Source::Transport(kept) }
            &&& store@ == "GCSRapid"@
            &&& kept == failure
        },
        error@ == generic_error(SourceView::RequestStreamClosed) ==> {
            &&& error matches Error::Generic { store, source: Source::RequestStreamClosed }
            &&& store@ == "GCSRapid"@
        },
{
}

} // verus!
