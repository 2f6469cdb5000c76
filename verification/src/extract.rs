//! Extraction of the debug sections of one input file.

use vstd::prelude::*;
use vstd::slice::{slice_subrange, slice_to_vec};
use vstd::string::StringExecFns;
use crate::elf::{read_object, read_object_model};
use crate::error::{ExtractError, ExtractErrorView, SectionError};
use crate::object::{ParsedObject, ParsedObjectView, Section, SectionView, WordSize};
use crate::plan::{plan_section, section_plan, SectionPlan};
use crate::zlib::{decompress, zlib_inflated};

verus! {

/// The contents of one section, ready to be written to a file.
#[derive(Clone, Debug, PartialEq, Eq)]
pub struct ExtractedSection {
    /// The section's name.
    pub section_name: String,
    /// The name of the file to write, within the output directory.
    pub file_name: String,
    /// The bytes to write.
    pub data: Vec<u8>,
}

/// Mathematical value of an [`ExtractedSection`].
pub struct ExtractedSectionView {
    pub section_name: Seq<char>,
    pub file_name: Seq<char>,
    pub data: Seq<u8>,
}

impl View for ExtractedSection {
    type V = ExtractedSectionView;

    open spec fn view(&self) -> ExtractedSectionView {
        ExtractedSectionView {
            section_name: self.section_name@,
            file_name: self.file_name@,
            data: self.data@,
        }
    }
}

/// A recognized section that could not be extracted, and why.
#[derive(Clone, Debug, PartialEq, Eq)]
pub struct SectionFailure {
    /// The section's name.
    pub section_name: String,
    pub error: SectionError,
}

/// Mathematical value of a [`SectionFailure`].
pub struct SectionFailureView {
    pub section_name: Seq<char>,
    pub error: SectionError,
}

impl View for SectionFailure {
    type V = SectionFailureView;

    open spec fn view(&self) -> SectionFailureView {
        SectionFailureView { section_name: self.section_name@, error: self.error }
    }
}

/// What became of one section.
#[derive(Clone, Debug, PartialEq, Eq)]
pub enum SectionOutcome {
    /// The section is not one to extract. Nothing is written or reported.
    Skipped,
    /// The section's contents are to be written.
    Extracted(ExtractedSection),
    /// The section yields no file. The failure is to be reported.
    Failed(SectionFailure),
}

/// Mathematical value of a [`SectionOutcome`].
pub enum SectionOutcomeView {
    Skipped,
    Extracted(ExtractedSectionView),
    Failed(SectionFailureView),
}

impl View for SectionOutcome {
    type V = SectionOutcomeView;

    open spec fn view(&self) -> SectionOutcomeView {
        match self {
            SectionOutcome::Skipped => SectionOutcomeView::Skipped,
            SectionOutcome::Extracted(extracted) => SectionOutcomeView::Extracted(extracted@),
            SectionOutcome::Failed(failure) => SectionOutcomeView::Failed(failure@),
        }
    }
}

/// What became of the sections of one input file: one outcome for each entry
/// of the section header table, in table order.
#[derive(Clone, Debug, PartialEq, Eq)]
pub struct FileReport {
    pub outcomes: Vec<SectionOutcome>,
}

/// Mathematical value of a [`FileReport`].
pub struct FileReportView {
    pub outcomes: Seq<SectionOutcomeView>,
}

impl View for FileReport {
    type V = FileReportView;

    open spec fn view(&self) -> FileReportView {
        FileReportView {
            outcomes: Seq::new(self.outcomes@.len(), |i: int| self.outcomes@[i]@),
        }
    }
}

/// The name of the file that receives a section: the input file's base name
/// with the section's name appended, nothing between them.
pub open spec fn output_name(base_name: Seq<char>, section_name: Seq<char>) -> Seq<char> {
    base_name + section_name
}

/// The outcome that hands out `data` as the contents of the section
/// `section_name` of the input file `base_name`.
pub open spec fn extracted(
    base_name: Seq<char>,
    section_name: Seq<char>,
    data: Seq<u8>,
) -> SectionOutcomeView {
    SectionOutcomeView::Extracted(
        ExtractedSectionView {
            section_name,
            file_name: output_name(base_name, section_name),
            data,
        },
    )
}

/// The outcome that reports `error` for the section `section_name`.
pub open spec fn failed(section_name: Seq<char>, error: SectionError) -> SectionOutcomeView {
    SectionOutcomeView::Failed(SectionFailureView { section_name, error })
}

/// The outcome of a compressed section, given what its zlib stream inflates
/// to.
pub open spec fn inflation_outcome(
    base_name: Seq<char>,
    section_name: Seq<char>,
    inflated: Option<Seq<u8>>,
) -> SectionOutcomeView {
    match inflated {
        Some(data) => extracted(base_name, section_name, data),
        None => failed(section_name, SectionError::DecompressionFailure),
    }
}

/// The outcome of carrying out `plan` for the section `section_name` on the
/// input `buffer`.
pub open spec fn plan_outcome(
    buffer: Seq<u8>,
    base_name: Seq<char>,
    section_name: Seq<char>,
    plan: SectionPlan,
) -> SectionOutcomeView {
    match plan {
        SectionPlan::Skip => SectionOutcomeView::Skipped,
        SectionPlan::Reject(error) => failed(section_name, error),
        SectionPlan::Copy { offset, size } => extracted(
            base_name,
            section_name,
            buffer.subrange(offset as int, offset + size),
        ),
        SectionPlan::Inflate { offset, size, header_len } => inflation_outcome(
            base_name,
            section_name,
            zlib_inflated(buffer.subrange(offset + header_len, offset + size)),
        ),
    }
}

/// The outcome of `section` in the input `buffer`, whose header declares
/// `word_size`.
pub open spec fn section_outcome(
    buffer: Seq<u8>,
    section: SectionView,
    word_size: Option<WordSize>,
    base_name: Seq<char>,
) -> SectionOutcomeView {
    match section.name {
        Some(name) => plan_outcome(
            buffer,
            base_name,
            name,
            section_plan(section, buffer.len(), word_size),
        ),
        None => SectionOutcomeView::Skipped,
    }
}

/// The report on the input `buffer` that parses to `object`.
pub open spec fn report_model(
    buffer: Seq<u8>,
    object: ParsedObjectView,
    base_name: Seq<char>,
) -> FileReportView {
    FileReportView {
        outcomes: Seq::new(
            object.sections.len(),
            |i: int| section_outcome(buffer, object.sections[i], object.word_size, base_name),
        ),
    }
}

/// What [`extract_from_buffer`] returns for an input of these bytes.
pub open spec fn extraction_model(buffer: Seq<u8>, base_name: Seq<char>) -> Result<
    FileReportView,
    ExtractErrorView,
> {
    match read_object_model(buffer) {
        Ok(object) => Ok(report_model(buffer, object, base_name)),
        Err(e) => Err(e),
    }
}

/// Names the file that receives the section `section_name` of the input
/// file whose base name is `base_name`.
pub fn output_file_name(base_name: &str, section_name: &str) -> (r: String)
    ensures
        r@ == output_name(base_name@, section_name@),
{
    base_name.to_owned().concat(section_name)
}

/// Builds the outcome of a compressed section from what inflating its zlib
/// stream gave.
pub fn conclude_inflation(
    base_name: &str,
    section_name: &str,
    inflated: Result<Vec<u8>, SectionError>,
) -> (r: SectionOutcome)
    ensures
        r@ == inflation_outcome(
            base_name@,
            section_name@,
            match inflated {
                Ok(data) => Some(data@),
                Err(_) => None,
            },
        ),
{
    match inflated {
        Ok(data) => SectionOutcome::Extracted(
            ExtractedSection {
                section_name: section_name.to_owned(),
                file_name: output_file_name(base_name, section_name),
                data,
            },
        ),
        Err(_) => SectionOutcome::Failed(
            SectionFailure {
                section_name: section_name.to_owned(),
                error: SectionError::DecompressionFailure,
            },
        ),
    }
}

/// Extracts one section: decides what is to be done with it and does it.
pub fn extract_section(
    buffer: &[u8],
    section: &Section,
    word_size: Option<WordSize>,
    base_name: &str,
) -> (r: SectionOutcome)
    ensures
        r@ == section_outcome(buffer@, section@, word_size, base_name@),
{
    let name = match &section.name {
        Some(name) => name.as_str(),
        None => return SectionOutcome::Skipped,
    };
    match plan_section(section, buffer.len(), word_size) {
        SectionPlan::Skip => SectionOutcome::Skipped,
        SectionPlan::Reject(error) => SectionOutcome::Failed(
            SectionFailure { section_name: name.to_owned(), error },
        ),
        SectionPlan::Copy { offset, size } => {
            let bytes = slice_subrange(buffer, offset as usize, (offset + size) as usize);
            SectionOutcome::Extracted(
                ExtractedSection {
                    section_name: name.to_owned(),
                    file_name: output_file_name(base_name, name),
                    data: slice_to_vec(bytes),
                },
            )
        },
        SectionPlan::Inflate { offset, size, header_len } => {
            let stream = slice_subrange(
                buffer,
                offset as usize + header_len,
                (offset + size) as usize,
            );
            conclude_inflation(base_name, name, decompress(stream))
        },
    }
}

/// Extracts the debug sections of an input that has been parsed already.
///
/// The sections are taken in table order, each on its own: a section that
/// fails is reported in its place and the sections after it are extracted
/// all the same.
pub fn extract_sections(buffer: &[u8], object: &ParsedObject, base_name: &str) -> (r: FileReport)
    ensures
        r@ == report_model(buffer@, object@, base_name@),
{
    let mut outcomes: Vec<SectionOutcome> = Vec::new();
    let mut i: usize = 0;
    while i < object.sections.len()
        invariant
            i <= object.sections@.len(),
            outcomes@.len() == i,
            forall|j: int|
                0 <= j < i ==> (#[trigger] outcomes@[j])@ == section_outcome(
                    buffer@,
                    object.sections@[j]@,
                    object.word_size,
                    base_name@,
                ),
        decreases object.sections@.len() - i,
    {
        let outcome = extract_section(buffer, &object.sections[i], object.word_size, base_name);
        outcomes.push(outcome);
        i += 1;
    }
    let report = FileReport { outcomes };
    assert(report@.outcomes =~= report_model(buffer@, object@, base_name@).outcomes);
    report
}

/// Extracts the debug sections of the input file whose bytes are `buffer`
/// and whose base name is `base_name`.
///
/// Fails with `NotRecognizedFormat` exactly when the input does not start
/// with the ELF signature or does not parse as an ELF object; no section is
/// extracted then.
pub fn extract_from_buffer(buffer: &[u8], base_name: &str) -> (r: Result<FileReport, ExtractError>)
    ensures
        match r {
            Ok(report) => extraction_model(buffer@, base_name@) == Ok::<
                FileReportView,
                ExtractErrorView,
            >(report@),
            Err(e) => extraction_model(buffer@, base_name@) == Err::<
                FileReportView,
                ExtractErrorView,
            >(e@),
        },
{
    match read_object(buffer) {
        Ok(object) => Ok(extract_sections(buffer, &object, base_name)),
        Err(e) => Err(e),
    }
}

} // verus!
