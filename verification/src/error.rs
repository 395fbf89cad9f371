//! Errors of the X11 backend.
use vstd::prelude::*;

verus! {

/// The kinds of error.
#[derive(Clone, Copy, Debug, PartialEq, Eq, Structural)]
pub enum ErrorKind {
    RootWindowNotFound,
    StringConversion,
    IntConversion,
    XConnection,
    XReply,
}

impl ErrorKind {
    /// The name of the kind, as it is shown.
    pub fn name(&self) -> (r: &'static str)
        ensures
            r == match self {
                ErrorKind::RootWindowNotFound => "RootWindowNotFound",
                ErrorKind::StringConversion => "StringConversion",
                ErrorKind::IntConversion => "IntConversion",
                ErrorKind::XConnection => "XConnection",
                ErrorKind::XReply => "XReply",
            },
    {
        match self {
            ErrorKind::RootWindowNotFound => "RootWindowNotFound",
            ErrorKind::StringConversion => "StringConversion",
            ErrorKind::IntConversion => "IntConversion",
            ErrorKind::XConnection => "XConnection",
            ErrorKind::XReply => "XReply",
        }
    }
}

/// Where an error comes from.
#[derive(Clone, Copy, Debug, PartialEq, Eq, Structural)]
pub enum ErrorSource {
    /// A string with an interior nul byte.
    Nul,
    /// Bytes that are not UTF-8.
    FromUtf8,
    /// A C string that is not UTF-8.
    IntoString,
    /// A string that is not a number.
    ParseInt,
    /// A number out of the range of its type.
    TryFromInt,
    /// The connection to the X server failed.
    XConnection,
    /// The X server's reply could not be had.
    XReply,
    /// The X server's reply or a new id could not be had.
    XReplyOrId,
}

/// An error of this backend: its kind and a message.
#[derive(Clone, Copy, Debug)]
pub struct BackendError {
    pub msg: &'static str,
    pub kind: ErrorKind,
}

/// The kind and message of an error from a source.
pub open spec fn source_error(source: ErrorSource) -> BackendError {
    match source {
        ErrorSource::Nul => BackendError { msg: "Unable to parse nul terminated string", kind: ErrorKind::StringConversion },
        ErrorSource::FromUtf8 => BackendError { msg: "Unable to parse utf-8 string", kind: ErrorKind::StringConversion },
        ErrorSource::IntoString => BackendError { msg: "Unable to convert value into String", kind: ErrorKind::StringConversion },
        ErrorSource::ParseInt => BackendError { msg: "Unable to parse int with given base", kind: ErrorKind::StringConversion },
        ErrorSource::TryFromInt => BackendError { msg: "Unable to parse int from a value", kind: ErrorKind::IntConversion },
        ErrorSource::XConnection => BackendError { msg: "Error in connection to the X server", kind: ErrorKind::XConnection },
        ErrorSource::XReply => BackendError { msg: "Error when parsing reply", kind: ErrorKind::XReply },
        ErrorSource::XReplyOrId => BackendError { msg: "Error when parsing reply", kind: ErrorKind::XReply },
    }
}

impl BackendError {
    /// The error that an error of a source becomes.
    pub fn from_source(source: ErrorSource) -> (r: BackendError)
        ensures
            r == source_error(source),
    {
        match source {
            ErrorSource::Nul => BackendError { msg: "Unable to parse nul terminated string", kind: ErrorKind::StringConversion },
            ErrorSource::FromUtf8 => BackendError { msg: "Unable to parse utf-8 string", kind: ErrorKind::StringConversion },
            ErrorSource::IntoString => BackendError { msg: "Unable to convert value into String", kind: ErrorKind::StringConversion },
            ErrorSource::ParseInt => BackendError { msg: "Unable to parse int with given base", kind: ErrorKind::StringConversion },
            ErrorSource::TryFromInt => BackendError { msg: "Unable to parse int from a value", kind: ErrorKind::IntConversion },
            ErrorSource::XConnection => BackendError { msg: "Error in connection to the X server", kind: ErrorKind::XConnection },
            ErrorSource::XReply => BackendError { msg: "Error when parsing reply", kind: ErrorKind::XReply },
            ErrorSource::XReplyOrId => BackendError { msg: "Error when parsing reply", kind: ErrorKind::XReply },
        }
    }

    /// The error for a number out of the range of its type.
    pub fn int_conversion() -> (r: BackendError)
        ensures
            r == source_error(ErrorSource::TryFromInt),
    {
        Self::from_source(ErrorSource::TryFromInt)
    }

    /// The error for a display without a root window that answers.
    pub fn root_window_not_found() -> (r: BackendError)
        ensures
            r == (BackendError { msg: "No root window", kind: ErrorKind::RootWindowNotFound }),
    {
        BackendError { msg: "No root window", kind: ErrorKind::RootWindowNotFound }
    }
}

} // verus!
