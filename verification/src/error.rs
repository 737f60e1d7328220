use vstd::prelude::*;

verus! {

/// A low-level reason for a failure to decode a wire-format message.
#[derive(Clone, Copy, Debug, PartialEq, Eq, Structural)]
pub enum WireError {
    /// The data ended in the middle of a varint, a fixed-width value or a
    /// length-delimited payload.
    Truncated,
    /// A field key carried a wire type this format does not use, or a zero
    /// field number.
    InvalidKey,
    /// A field was encoded with a wire type that does not fit its declared
    /// type.
    UnexpectedWireType,
    /// A string field did not hold valid UTF-8.
    InvalidUtf8,
    /// A required field was missing from a message.
    MissingRequiredField,
    /// A compressed payload was not a valid zlib stream.
    Zlib,
}

/// An error that occurs when decoding a blob.
#[derive(Clone, Copy, Debug, PartialEq, Eq, Structural)]
#[non_exhaustive]
pub enum BlobError {
    /// Header size could not be decoded to a u32.
    InvalidHeaderSize,
    /// Blob header is bigger than `MAX_BLOB_HEADER_SIZE`.
    HeaderTooBig {
        /// Blob header size in bytes.
        size: u64,
    },
    /// Blob content is bigger than `MAX_BLOB_MESSAGE_SIZE`.
    MessageTooBig {
        /// Blob content size in bytes.
        size: u64,
    },
    /// The blob is empty because the `raw` and `zlib-data` fields are missing.
    Empty,
}

/// The specific type of an error.
#[derive(Clone, Debug)]
#[non_exhaustive]
pub enum ErrorKind {
    /// An error of the underlying byte source.
    Io,
    /// An error that occurs when decoding a wire-format message.
    Protobuf {
        /// What went wrong while decoding.
        err: WireError,
        /// Which message was being decoded.
        location: &'static str,
    },
    /// The stringtable contains an entry at `index` that could not be decoded
    /// to a valid UTF-8 string.
    StringtableUtf8 {
        /// The offending stringtable index.
        index: usize,
    },
    /// An element contains an out-of-bounds index to the stringtable.
    StringtableIndexOutOfBounds {
        /// The offending stringtable index.
        index: usize,
    },
    /// An error that occurs when decoding `Blob`s.
    Blob(BlobError),
}

/// An error that can occur when reading PBF data.
///
/// The view of an `Error` is its `ErrorKind`.
#[derive(Clone, Debug)]
pub struct Error(Box<ErrorKind>);

impl View for Error {
    type V = ErrorKind;

    closed spec fn view(&self) -> ErrorKind {
        *self.0
    }
}

impl Error {
    /// Return the specific type of this error.
    pub fn kind(&self) -> (r: &ErrorKind)
        ensures
            *r == self@,
    {
        &self.0
    }

    /// Unwrap this error into its underlying type.
    pub fn into_kind(self) -> (r: ErrorKind)
        ensures
            r == self@,
    {
        *self.0
    }
}

pub(crate) fn new_error(kind: ErrorKind) -> (r: Error)
    ensures
        r@ == kind,
{
    Error(Box::new(kind))
}

pub(crate) fn new_blob_error(kind: BlobError) -> (r: Error)
    ensures
        r@ == ErrorKind::Blob(kind),
{
    Error(Box::new(ErrorKind::Blob(kind)))
}

pub(crate) fn new_protobuf_error(err: WireError, location: &'static str) -> (r: Error)
    ensures
        r@ == (ErrorKind::Protobuf { err, location }),
{
    Error(Box::new(ErrorKind::Protobuf { err, location }))
}

pub(crate) fn err_index_out_of_bounds<T>(index: usize) -> (r: Result<T>)
    ensures
        r matches Err(e) && e@ == (ErrorKind::StringtableIndexOutOfBounds { index }),
{
    Err(new_error(ErrorKind::StringtableIndexOutOfBounds { index }))
}

/// A type alias for `Result<T, Error>`.
pub type Result<T> = core::result::Result<T, Error>;

} // verus!
