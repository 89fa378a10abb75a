//! Failures of the container codec.

use vstd::prelude::*;
use vstd::string::*;

verus! {

/// The kind of a failure, without its cause.
#[derive(Clone, Copy, Debug, PartialEq, Eq, Structural)]
pub enum ErrorKind {
    Truncated,
    BadMagic,
    UnknownSaveType,
    LengthMismatch,
    CompressionFailure,
    TreeDecodeFailure,
    TreeEncodeFailure,
    UnsupportedSaveType,
    Io,
}

/// Why a container could not be decoded or encoded.
///
/// The variants that wrap a failure of a collaborator carry its message.
#[derive(Debug, PartialEq, Eq)]
pub enum FormatError {
    /// Fewer bytes than a header.
    Truncated,
    /// Bytes 8 to 10 are not `PlZ`.
    BadMagic,
    /// Byte 11 names no save type.
    UnknownSaveType,
    /// A declared length differs from the length found.
    LengthMismatch,
    /// zlib refused the data.
    CompressionFailure(String),
    /// The save-tree codec could not produce a tree, or the tree no document.
    TreeDecodeFailure(String),
    /// The document is no tree, or the save-tree codec could not write it.
    TreeEncodeFailure(String),
    /// The encoder does not write this save type.
    UnsupportedSaveType,
    /// The file system refused, or there was no file to turn to. The
    /// cause is the whole message.
    Io(String),
}

/// The mathematical value of a [`FormatError`].
pub ghost enum FormatFailure {
    Truncated,
    BadMagic,
    UnknownSaveType,
    LengthMismatch,
    CompressionFailure(Seq<char>),
    TreeDecodeFailure(Seq<char>),
    TreeEncodeFailure(Seq<char>),
    UnsupportedSaveType,
    Io(Seq<char>),
}

impl View for FormatError {
    type V = FormatFailure;

    open spec fn view(&self) -> FormatFailure {
        match *self {
            FormatError::Truncated => FormatFailure::Truncated,
            FormatError::BadMagic => FormatFailure::BadMagic,
            FormatError::UnknownSaveType => FormatFailure::UnknownSaveType,
            FormatError::LengthMismatch => FormatFailure::LengthMismatch,
            FormatError::CompressionFailure(cause) => FormatFailure::CompressionFailure(cause@),
            FormatError::TreeDecodeFailure(cause) => FormatFailure::TreeDecodeFailure(cause@),
            FormatError::TreeEncodeFailure(cause) => FormatFailure::TreeEncodeFailure(cause@),
            FormatError::UnsupportedSaveType => FormatFailure::UnsupportedSaveType,
            FormatError::Io(cause) => FormatFailure::Io(cause@),
        }
    }
}

impl FormatFailure {
    pub open spec fn kind(self) -> ErrorKind {
        match self {
            FormatFailure::Truncated => ErrorKind::Truncated,
            FormatFailure::BadMagic => ErrorKind::BadMagic,
            FormatFailure::UnknownSaveType => ErrorKind::UnknownSaveType,
            FormatFailure::LengthMismatch => ErrorKind::LengthMismatch,
            FormatFailure::CompressionFailure(_) => ErrorKind::CompressionFailure,
            FormatFailure::TreeDecodeFailure(_) => ErrorKind::TreeDecodeFailure,
            FormatFailure::TreeEncodeFailure(_) => ErrorKind::TreeEncodeFailure,
            FormatFailure::UnsupportedSaveType => ErrorKind::UnsupportedSaveType,
            FormatFailure::Io(_) => ErrorKind::Io,
        }
    }

    /// The collaborator's message; empty where the kind says it all.
    pub open spec fn cause(self) -> Seq<char> {
        match self {
            FormatFailure::CompressionFailure(cause) => cause,
            FormatFailure::TreeDecodeFailure(cause) => cause,
            FormatFailure::TreeEncodeFailure(cause) => cause,
            FormatFailure::Io(cause) => cause,
            _ => Seq::empty(),
        }
    }

    /// The fixed text of each kind, which the message starts with.
    pub open spec fn headline(self) -> Seq<char> {
        match self {
            FormatFailure::Truncated => "File is shorter than the container header"@,
            FormatFailure::BadMagic => "Invalid magic bytes"@,
            FormatFailure::UnknownSaveType => "Invalid save type"@,
            FormatFailure::LengthMismatch => "Declared length does not match the data"@,
            FormatFailure::CompressionFailure(_) => "Compression failed: "@,
            FormatFailure::TreeDecodeFailure(_) => "Failed to read save: "@,
            FormatFailure::TreeEncodeFailure(_) => "Failed to write save: "@,
            FormatFailure::UnsupportedSaveType => "Save type is not supported for writing"@,
            FormatFailure::Io(_) => Seq::empty(),
        }
    }

    /// What a user is shown: the headline, then the cause.
    pub open spec fn message(self) -> Seq<char> {
        self.headline() + self.cause()
    }
}

/// A result with its error taken by its view.
pub open spec fn outcome<T>(r: Result<T, FormatError>) -> Result<T, FormatFailure> {
    match r {
        Ok(v) => Ok(v),
        Err(e) => Err(e@),
    }
}

/// A result of bytes with both sides taken by their views.
pub open spec fn bytes_outcome(r: Result<Vec<u8>, FormatError>) -> Result<Seq<u8>, FormatFailure> {
    match r {
        Ok(v) => Ok(v@),
        Err(e) => Err(e@),
    }
}

/// A result of text with both sides taken by their views.
pub open spec fn text_outcome(r: Result<String, FormatError>) -> Result<Seq<char>, FormatFailure> {
    match r {
        Ok(v) => Ok(v@),
        Err(e) => Err(e@),
    }
}

/// A collaborator's outcome on the way in, as the codec reports it: its
/// failure is a `TreeDecodeFailure`.
pub open spec fn spec_decode_failure<T>(r: Result<T, Seq<char>>) -> Result<T, FormatFailure> {
    match r {
        Ok(v) => Ok(v),
        Err(message) => Err(FormatFailure::TreeDecodeFailure(message)),
    }
}

/// A collaborator's outcome on the way out, as the codec reports it: its
/// failure is a `TreeEncodeFailure`.
pub open spec fn spec_encode_failure<T>(r: Result<T, Seq<char>>) -> Result<T, FormatFailure> {
    match r {
        Ok(v) => Ok(v),
        Err(message) => Err(FormatFailure::TreeEncodeFailure(message)),
    }
}

/// A collaborator's outcome with its message taken by its view.
pub open spec fn spec_raw<T>(r: Result<T, String>) -> Result<T, Seq<char>> {
    match r {
        Ok(v) => Ok(v),
        Err(message) => Err(message@),
    }
}

/// Reports a collaborator's outcome on the way in.
pub fn decode_failure<T>(r: Result<T, String>) -> (out: Result<T, FormatError>)
    ensures
        outcome(out) == spec_decode_failure(spec_raw(r)),
{
    match r {
        Ok(v) => Ok(v),
        Err(message) => Err(FormatError::TreeDecodeFailure(message)),
    }
}

/// Reports a collaborator's outcome on the way out.
pub fn encode_failure<T>(r: Result<T, String>) -> (out: Result<T, FormatError>)
    ensures
        outcome(out) == spec_encode_failure(spec_raw(r)),
{
    match r {
        Ok(v) => Ok(v),
        Err(message) => Err(FormatError::TreeEncodeFailure(message)),
    }
}

impl FormatError {
    pub fn kind(&self) -> (k: ErrorKind)
        ensures
            k == self@.kind(),
    {
        match self {
            FormatError::Truncated => ErrorKind::Truncated,
            FormatError::BadMagic => ErrorKind::BadMagic,
            FormatError::UnknownSaveType => ErrorKind::UnknownSaveType,
            FormatError::LengthMismatch => ErrorKind::LengthMismatch,
            FormatError::CompressionFailure(_) => ErrorKind::CompressionFailure,
            FormatError::TreeDecodeFailure(_) => ErrorKind::TreeDecodeFailure,
            FormatError::TreeEncodeFailure(_) => ErrorKind::TreeEncodeFailure,
            FormatError::UnsupportedSaveType => ErrorKind::UnsupportedSaveType,
            FormatError::Io(_) => ErrorKind::Io,
        }
    }

    /// The human-readable cause of the failure.
    pub fn message(&self) -> (text: String)
        ensures
            text@ == self@.message(),
    {
        match self {
            FormatError::Truncated => String::from_str("File is shorter than the container header"),
            FormatError::BadMagic => String::from_str("Invalid magic bytes"),
            FormatError::UnknownSaveType => String::from_str("Invalid save type"),
            FormatError::LengthMismatch => String::from_str(
                "Declared length does not match the data",
            ),
            FormatError::CompressionFailure(cause) => String::from_str(
                "Compression failed: ",
            ).concat(cause.as_str()),
            FormatError::TreeDecodeFailure(cause) => String::from_str(
                "Failed to read save: ",
            ).concat(cause.as_str()),
            FormatError::TreeEncodeFailure(cause) => String::from_str(
                "Failed to write save: ",
            ).concat(cause.as_str()),
            FormatError::UnsupportedSaveType => String::from_str(
                "Save type is not supported for writing",
            ),
            FormatError::Io(cause) => {
                assert(self@.message() =~= cause@);
                String::from_str(cause.as_str())
            },
        }
    }
}

} // verus!
