//! The ways in which extraction can fail.

use vstd::prelude::*;

verus! {

/// Why a whole input file yields nothing.
#[derive(Clone, Debug, PartialEq, Eq)]
pub enum ExtractError {
    /// The input is not an ELF object that can be parsed. Where the input
    /// starts as an ELF object does and the parser rejects it, this holds
    /// the parser's own words; it holds `None` where the input does not
    /// start with the ELF signature.
    NotRecognizedFormat(Option<String>),
}

/// Mathematical value of an [`ExtractError`].
pub enum ExtractErrorView {
    NotRecognizedFormat(Option<Seq<char>>),
}

impl View for ExtractError {
    type V = ExtractErrorView;

    open spec fn view(&self) -> ExtractErrorView {
        match self {
            ExtractError::NotRecognizedFormat(Some(detail)) => ExtractErrorView::NotRecognizedFormat(
                Some(detail@),
            ),
            ExtractError::NotRecognizedFormat(None) => ExtractErrorView::NotRecognizedFormat(None),
        }
    }
}

/// Why one recognized section yields no output. A failure of this kind is
/// confined to its section: the other sections of the file are unaffected.
#[derive(Clone, Copy, Debug, PartialEq, Eq)]
pub enum SectionError {
    /// The byte range that the section header declares does not lie within
    /// the input.
    SectionOutOfRange,
    /// The section is stored compressed, but the object's header does not
    /// give the word size that determines the compression header's length.
    CompressionContextUnavailable,
    /// The section is stored compressed, and it is too short to hold its
    /// compression header or what follows the header is not a complete,
    /// well-formed zlib stream.
    DecompressionFailure,
}

} // verus!
