//! Errors reported by the backend.

use vstd::prelude::*;

verus! {

/// The kind of an [`Error`].
#[derive(Debug, Clone, Copy, PartialEq, Eq)]
pub enum ErrorKind {
    /// The requested display is not available.
    NotFound,
    /// Failed to perform resource initialization.
    InitializationFailed,
    /// A resource is in use or could not be accessed.
    BadAccess,
    /// An argument to a call was not valid.
    BadAttribute,
    /// The context is not valid.
    BadContext,
    /// The config is not valid.
    BadConfig,
    /// The current surface of the calling thread is no longer valid.
    BadCurrentSurface,
    /// The display is not valid.
    BadDisplay,
    /// The surface is not valid.
    BadSurface,
    /// The pbuffer is not valid.
    BadPbuffer,
    /// The pixmap is not valid.
    BadPixmap,
    /// Arguments are inconsistent.
    BadMatch,
    /// One or more arguments were invalid.
    BadParameter,
    /// The native pixmap is not valid.
    BadNativePixmap,
    /// The native window is not valid.
    BadNativeWindow,
    /// The context was lost.
    ContextLost,
    /// The operation is not supported; the text says which.
    NotSupported(&'static str),
    /// The host ran out of memory.
    OutOfMemory,
    /// Any other error.
    Misc,
}

/// An error: its kind and, when the host reported one, the host's raw code.
#[derive(Debug, Clone, PartialEq, Eq)]
pub struct Error {
    /// The raw code of the host call that failed, if any.
    pub raw_code: Option<i64>,
    /// The host's message, if any.
    pub raw_os_message: Option<String>,
    /// The kind of the error.
    pub kind: ErrorKind,
}

/// The result of the fallible operations of this crate.
pub type Result<T> = core::result::Result<T, Error>;

/// The error that carries `kind` and no raw code.
pub open spec fn error_of_kind(kind: ErrorKind) -> Error {
    Error { raw_code: None, raw_os_message: None, kind }
}

/// The error `NotSupported(what)` with no raw code.
pub open spec fn not_supported(what: &'static str) -> Error {
    error_of_kind(ErrorKind::NotSupported(what))
}

impl Error {
    /// Creates an error of `kind` with an optional raw host code and host
    /// message.
    pub fn new(raw_code: Option<i64>, raw_os_message: Option<String>, kind: ErrorKind) -> (e:
        Error)
        ensures
            e == (Error { raw_code, raw_os_message, kind }),
    {
        Error { raw_code, raw_os_message, kind }
    }

    /// Creates an error of `kind` with no raw code.
    pub fn from_kind(kind: ErrorKind) -> (e: Error)
        ensures
            e == error_of_kind(kind),
    {
        Error { raw_code: None, raw_os_message: None, kind }
    }

    /// The raw host code carried by this error.
    pub fn raw_code(&self) -> (r: Option<i64>)
        ensures
            r == self.raw_code,
    {
        self.raw_code
    }

    /// The host's message carried by this error.
    pub fn raw_os_message(&self) -> (r: Option<&str>)
        ensures
            r matches Some(m) ==> self.raw_os_message matches Some(o) && m@ == o@,
            r is None <==> self.raw_os_message is None,
    {
        match &self.raw_os_message {
            Some(m) => Some(m.as_str()),
            None => None,
        }
    }

    /// The kind of this error.
    pub fn error_kind(&self) -> (r: ErrorKind)
        ensures
            r == self.kind,
    {
        self.kind
    }

    /// Whether this error says that something is not supported.
    pub fn not_supported(&self) -> (r: bool)
        ensures
            r == (self.kind is NotSupported),
    {
        match self.kind {
            ErrorKind::NotSupported(_) => true,
            _ => false,
        }
    }
}

} // verus!
