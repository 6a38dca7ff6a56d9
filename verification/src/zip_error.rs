//! The error that every parser of this crate returns.

use crate::io::IoError;
use vstd::prelude::*;
use vstd::std_specs::convert::FromSpecImpl;
use vstd::string::*;

verus! {

/// Why reading a ZIP structure failed.
#[derive(Debug, Clone, PartialEq, Eq)]
pub enum ZipReadError {
    /// A read or a seek on the input failed.
    IOError(IoError),
    /// The bytes are not a valid ZIP archive; `reason` says what is wrong.
    InvalidZipArchive { reason: String },
    /// The archive is well formed but uses a feature that is not
    /// implemented here; `reason` names it.
    UnsupportedZipArchive { reason: String },
}

/// What a [`ZipReadError`] holds, each reason as a sequence of characters.
pub enum ZipReadErrorView {
    IOError(IoError),
    InvalidZipArchive { reason: Seq<char> },
    UnsupportedZipArchive { reason: Seq<char> },
}

impl View for ZipReadError {
    type V = ZipReadErrorView;

    open spec fn view(&self) -> ZipReadErrorView {
        match self {
            ZipReadError::IOError(e) => ZipReadErrorView::IOError(*e),
            ZipReadError::InvalidZipArchive { reason } => ZipReadErrorView::InvalidZipArchive {
                reason: reason@,
            },
            ZipReadError::UnsupportedZipArchive {
                reason,
            } => ZipReadErrorView::UnsupportedZipArchive { reason: reason@ },
        }
    }
}

/// The text that describes an input failure.
pub open spec fn io_error_text(e: IoError) -> Seq<char> {
    match e {
        IoError::UnexpectedEof => "unexpected end of file"@,
        IoError::InvalidInput => "invalid input parameter"@,
        IoError::Other => "other os error"@,
    }
}

impl ZipReadErrorView {
    /// The text of the message: for an input failure its own description,
    /// for the other two a fixed sentence followed by the reason.
    pub open spec fn message(self) -> Seq<char> {
        match self {
            ZipReadErrorView::IOError(e) => io_error_text(e),
            ZipReadErrorView::InvalidZipArchive { reason } => {
                "the file seems not to be a valid ZIP archive because: "@ + reason
            },
            ZipReadErrorView::UnsupportedZipArchive { reason } => {
                "this ZIP archive is not supported because: "@ + reason
            },
        }
    }
}

impl ZipReadError {
    /// The message as a string.
    pub fn to_string(&self) -> (s: String)
        ensures
            s@ == self@.message(),
    {
        match self {
            ZipReadError::IOError(e) => match e {
                IoError::UnexpectedEof => String::from_str("unexpected end of file"),
                IoError::InvalidInput => String::from_str("invalid input parameter"),
                IoError::Other => String::from_str("other os error"),
            },
            ZipReadError::InvalidZipArchive { reason } => {
                String::from_str("the file seems not to be a valid ZIP archive because: ").concat(
                    reason.as_str(),
                )
            },
            ZipReadError::UnsupportedZipArchive { reason } => {
                String::from_str("this ZIP archive is not supported because: ").concat(
                    reason.as_str(),
                )
            },
        }
    }

    /// An invalid-archive error with the given reason.
    pub fn invalid(reason: &str) -> (e: ZipReadError)
        ensures
            e@ == (ZipReadErrorView::InvalidZipArchive { reason: reason@ }),
    {
        ZipReadError::InvalidZipArchive { reason: String::from_str(reason) }
    }

    /// An unsupported-archive error with the given reason.
    pub fn unsupported(reason: &str) -> (e: ZipReadError)
        ensures
            e@ == (ZipReadErrorView::UnsupportedZipArchive { reason: reason@ }),
    {
        ZipReadError::UnsupportedZipArchive { reason: String::from_str(reason) }
    }
}

impl From<IoError> for ZipReadError {
    fn from(source: IoError) -> (e: ZipReadError) {
        ZipReadError::IOError(source)
    }
}

impl FromSpecImpl<IoError> for ZipReadError {
    open spec fn obeys_from_spec() -> bool {
        true
    }

    open spec fn from_spec(source: IoError) -> ZipReadError {
        ZipReadError::IOError(source)
    }
}

} // verus!
