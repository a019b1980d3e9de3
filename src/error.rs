//! Errors of the library, as plain values.
use vstd::prelude::*;
use vstd::string::StringExecFns;

verus! {

/// Kind of an operating-system I/O failure, as far as the library tells them apart.
#[derive(Debug, Clone, Copy, PartialEq, Eq, Structural)]
pub enum IoErrorKind {
    NotFound,
    PermissionDenied,
    Other,
}

/// An I/O failure: its kind and the system's description of it.
#[derive(Debug)]
pub struct IoFailure {
    pub kind: IoErrorKind,
    pub message: String,
}

impl IoFailure {
    pub fn new(kind: IoErrorKind, message: String) -> (r: Self)
        ensures
            r.kind == kind && r.message == message,
    {
        IoFailure { kind, message }
    }
}

/// The errors of the library.
#[derive(Debug)]
pub enum RsduError {
    Io(IoFailure),
    PermissionDenied { path: String, source: IoFailure },
    PathNotFound { path: String },
    InvalidPath { path: String, reason: String },
    ScanError { path: String, message: String },
    ImportError(String),
    ExportError(String),
    ConfigError(String),
    UiError(String),
    ParseError(String),
    CompressionError(String),
    ThreadError(String),
    FileSystemError(String),
    UserCancelled,
    FeatureNotAvailable(String),
    Internal(String),
}

/// Result of the library's fallible operations.
pub type Result<T> = core::result::Result<T, RsduError>;

impl RsduError {
    pub open spec fn spec_is_recoverable(&self) -> bool {
        self is PermissionDenied || self is PathNotFound || self is ScanError
    }

    /// Whether a scan can go on after this error.
    pub fn is_recoverable(&self) -> (r: bool)
        ensures
            r == self.spec_is_recoverable(),
    {
        matches!(
            self,
            RsduError::PermissionDenied { .. } | RsduError::PathNotFound { .. } | RsduError::ScanError { .. }
        )
    }

    /// The path that the error concerns, if any.
    pub fn path(&self) -> (r: Option<&String>)
        ensures
            r == (match self {
                RsduError::PermissionDenied { path, .. } => Some(path),
                RsduError::PathNotFound { path } => Some(path),
                RsduError::InvalidPath { path, .. } => Some(path),
                RsduError::ScanError { path, .. } => Some(path),
                _ => None::<&String>,
            }),
    {
        match self {
            RsduError::PermissionDenied { path, .. } => Some(path),
            RsduError::PathNotFound { path } => Some(path),
            RsduError::InvalidPath { path, .. } => Some(path),
            RsduError::ScanError { path, .. } => Some(path),
            _ => None,
        }
    }

    pub fn permission_denied(path: String, source: IoFailure) -> (r: Self)
        ensures
            r == (RsduError::PermissionDenied { path, source }),
    {
        RsduError::PermissionDenied { path, source }
    }

    pub fn path_not_found(path: String) -> (r: Self)
        ensures
            r == (RsduError::PathNotFound { path }),
    {
        RsduError::PathNotFound { path }
    }

    pub fn invalid_path(path: String, reason: String) -> (r: Self)
        ensures
            r == (RsduError::InvalidPath { path, reason }),
    {
        RsduError::InvalidPath { path, reason }
    }

    pub fn scan_error(path: String, message: String) -> (r: Self)
        ensures
            r == (RsduError::ScanError { path, message }),
    {
        RsduError::ScanError { path, message }
    }

    /// The human-readable description of the error.
    pub fn message(&self) -> (r: String)
        ensures
            self is ConfigError ==> r@ == "Configuration error: "@ + self->ConfigError_0@,
            self is PathNotFound ==> r@ == "Path not found: '"@ + self->PathNotFound_path@ + "'"@,
    {
        match self {
            RsduError::Io(e) => <String as StringExecFns>::from_str("IO error: ").concat(e.message.as_str()),
            RsduError::PermissionDenied { path, source } => <String as StringExecFns>::from_str(
                "Permission denied accessing '",
            ).concat(path.as_str()).concat("': ").concat(source.message.as_str()),
            RsduError::PathNotFound { path } => <String as StringExecFns>::from_str("Path not found: '").concat(
                path.as_str(),
            ).concat("'"),
            RsduError::InvalidPath { path, reason } => <String as StringExecFns>::from_str(
                "Invalid path: '",
            ).concat(path.as_str()).concat("' - ").concat(reason.as_str()),
            RsduError::ScanError { path, message } => <String as StringExecFns>::from_str(
                "Scan error in '",
            ).concat(path.as_str()).concat("': ").concat(message.as_str()),
            RsduError::ImportError(m) => <String as StringExecFns>::from_str("Import error: ").concat(m.as_str()),
            RsduError::ExportError(m) => <String as StringExecFns>::from_str("Export error: ").concat(m.as_str()),
            RsduError::ConfigError(m) => <String as StringExecFns>::from_str("Configuration error: ").concat(
                m.as_str(),
            ),
            RsduError::UiError(m) => <String as StringExecFns>::from_str("UI error: ").concat(m.as_str()),
            RsduError::ParseError(m) => <String as StringExecFns>::from_str("Parse error: ").concat(m.as_str()),
            RsduError::CompressionError(m) => <String as StringExecFns>::from_str("Compression error: ").concat(
                m.as_str(),
            ),
            RsduError::ThreadError(m) => <String as StringExecFns>::from_str("Thread error: ").concat(m.as_str()),
            RsduError::FileSystemError(m) => <String as StringExecFns>::from_str("File system error: ").concat(
                m.as_str(),
            ),
            RsduError::UserCancelled => <String as StringExecFns>::from_str("User cancelled operation"),
            RsduError::FeatureNotAvailable(m) => <String as StringExecFns>::from_str(
                "Feature not available: ",
            ).concat(m.as_str()),
            RsduError::Internal(m) => <String as StringExecFns>::from_str("Internal error: ").concat(m.as_str()),
        }
    }
}

/// An I/O failure on `path` as an error of the library: permission and
/// not-found failures get their own variants.
pub fn io_error_with_path(error: IoFailure, path: String) -> (r: RsduError)
    ensures
        error.kind is PermissionDenied ==> r == (RsduError::PermissionDenied { path, source: error }),
        error.kind is NotFound ==> r == (RsduError::PathNotFound { path }),
        error.kind is Other ==> r == RsduError::Io(error),
{
    match error.kind {
        IoErrorKind::PermissionDenied => RsduError::permission_denied(path, error),
        IoErrorKind::NotFound => RsduError::path_not_found(path),
        IoErrorKind::Other => RsduError::Io(error),
    }
}

/// Adding a path to the error of a failed I/O operation.
pub trait ResultExt<T>: Sized {
    fn with_path(self, path: String) -> Result<T>;
}

impl<T> ResultExt<T> for core::result::Result<T, IoFailure> {
    fn with_path(self, path: String) -> (r: Result<T>) {
        match self {
            Ok(v) => Ok(v),
            Err(e) => Err(io_error_with_path(e, path)),
        }
    }
}

} // verus!
