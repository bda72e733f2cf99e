use vstd::prelude::*;

verus! {

/// A terminal decoding failure. Every sub-component surfaces its error upward
/// unchanged; a failure at any point discards all work accumulated so far.
#[derive(Debug, PartialEq)]
pub enum Error {
    /// The underlying byte stream ended before the requested bytes were read.
    IoError,
    /// A Utf8 constant-pool entry's payload was not valid UTF-8; carries the
    /// offending payload bytes.
    Utf8DecodeError(Vec<u8>),
    /// The first four bytes of the stream did not match the ClassFile magic
    /// number; carries the four observed bytes.
    InvalidMagic([u8; 4]),
    /// A constant-pool tag byte matched none of the recognized discriminants;
    /// carries the offending byte.
    InvalidConstantPoolItemTag(u8),
}

/// The mathematical shape of an [`Error`], with byte payloads as sequences.
pub enum ErrorView {
    IoError,
    Utf8DecodeError(Seq<u8>),
    InvalidMagic(Seq<u8>),
    InvalidConstantPoolItemTag(u8),
}

impl View for Error {
    type V = ErrorView;

    open spec fn view(&self) -> ErrorView {
        match self {
            Error::IoError => ErrorView::IoError,
            Error::Utf8DecodeError(bytes) => ErrorView::Utf8DecodeError(bytes@),
            Error::InvalidMagic(magic) => ErrorView::InvalidMagic(magic@),
            Error::InvalidConstantPoolItemTag(tag) => ErrorView::InvalidConstantPoolItemTag(*tag),
        }
    }
}

} // verus!
