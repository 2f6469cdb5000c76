//! The text of the diagnostics that a caller prints.

use vstd::prelude::*;
use vstd::string::StringExecFns;
use crate::error::{ExtractError, ExtractErrorView, SectionError};
use crate::extract::{SectionFailure, SectionFailureView};

verus! {

/// What is said of a section that failed with `error`.
pub open spec fn failure_text(error: SectionError) -> Seq<char> {
    match error {
        SectionError::SectionOutOfRange => " is out of range"@,
        SectionError::CompressionContextUnavailable => " is compressed, but the word size of the object is unknown"@,
        SectionError::DecompressionFailure => " does not hold a complete zlib stream"@,
    }
}

/// The diagnostic for a section of the input file `file` that failed.
pub open spec fn failure_message_text(failure: SectionFailureView, file: Seq<char>) -> Seq<char> {
    "Section "@ + failure.section_name + " in "@ + file + failure_text(failure.error)
}

/// The diagnostic for an input file `file` that yields nothing: the
/// parser's own words where it gave any, and else that the file is not an
/// ELF object.
pub open spec fn not_recognized_text(error: ExtractErrorView, file: Seq<char>) -> Seq<char> {
    match error {
        ExtractErrorView::NotRecognizedFormat(Some(detail)) => detail,
        ExtractErrorView::NotRecognizedFormat(None) => file + " not an elf"@,
    }
}

/// Words the diagnostic for a section of the input file `file` that could
/// not be extracted.
pub fn failure_message(failure: &SectionFailure, file: &str) -> (r: String)
    ensures
        r@ == failure_message_text(failure@, file@),
{
    let tail = match failure.error {
        SectionError::SectionOutOfRange => " is out of range",
        SectionError::CompressionContextUnavailable => " is compressed, but the word size of the object is unknown",
        SectionError::DecompressionFailure => " does not hold a complete zlib stream",
    };
    "Section ".to_owned().concat(failure.section_name.as_str()).concat(" in ").concat(file).concat(
        tail,
    )
}

/// Words the diagnostic for an input file `file` that yields nothing.
pub fn not_recognized_message(error: &ExtractError, file: &str) -> (r: String)
    ensures
        r@ == not_recognized_text(error@, file@),
{
    match error {
        ExtractError::NotRecognizedFormat(Some(detail)) => detail.as_str().to_owned(),
        ExtractError::NotRecognizedFormat(None) => file.to_owned().concat(" not an elf"),
    }
}

} // verus!
