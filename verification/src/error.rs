use vstd::prelude::*;

verus! {

/// A typed decode failure. Any failure aborts the whole decode immediately;
/// no partial result is ever handed out.
#[derive(Debug, Clone, PartialEq, Eq)]
pub enum ParseError {
    /// The input ended before the 12-byte file identifier could be read.
    NoHeader,
    /// The file identifier matches the console-container marker: this decoder
    /// declines to unwrap that container.
    XboxContainer,
    /// The 12 identifier bytes match neither the save magic nor the
    /// console-container marker; the offending bytes are carried for diagnostics.
    BadFileID([u8; 12]),
    /// The input ended in the middle of a primitive read.
    UnexpectedEOF,
    /// A structurally reachable region whose decoding is an open extension
    /// seam: refused deterministically rather than skipped by guesswork.
    UnsupportedFeature,
}

/// The mathematical shape of a [`ParseError`]: the offending identifier bytes
/// are carried as a sequence.
pub enum SpecParseError {
    NoHeader,
    XboxContainer,
    BadFileID(Seq<u8>),
    UnexpectedEOF,
    UnsupportedFeature,
}

impl View for ParseError {
    type V = SpecParseError;

    open spec fn view(&self) -> SpecParseError {
        match self {
            ParseError::NoHeader => SpecParseError::NoHeader,
            ParseError::XboxContainer => SpecParseError::XboxContainer,
            ParseError::BadFileID(b) => SpecParseError::BadFileID(b@),
            ParseError::UnexpectedEOF => SpecParseError::UnexpectedEOF,
            ParseError::UnsupportedFeature => SpecParseError::UnsupportedFeature,
        }
    }
}

pub type ParseResult<T> = core::result::Result<T, ParseError>;

} // verus!
