//! Properties of extraction, stated over the models that the contracts of
//! the extracting functions use.

use vstd::prelude::*;
use crate::classify::is_recognized_name;
use crate::elf::{has_elf_signature, parsed_elf};
use crate::error::{ExtractErrorView, SectionError};
use crate::extract::{
    extracted, extraction_model, failed, report_model, section_outcome, FileReportView,
    SectionOutcomeView,
};
use crate::object::{ParsedObjectView, WordSize};
use crate::plan::{compression_header_len, in_range, is_compressed, is_wanted};
use crate::zlib::zlib_inflated;

verus! {

/// A report holds one outcome for each entry of the section header table,
/// and the outcome at an index is that of the section at that index: the
/// table's order is kept.
pub proof fn law_one_outcome_per_section(
    buffer: Seq<u8>,
    object: ParsedObjectView,
    base_name: Seq<char>,
)
    ensures
        report_model(buffer, object, base_name).outcomes.len() == object.sections.len(),
        forall|i: int|
            0 <= i < object.sections.len() ==> #[trigger] report_model(
                buffer,
                object,
                base_name,
            ).outcomes[i] == section_outcome(
                buffer,
                object.sections[i],
                object.word_size,
                base_name,
            ),
{
}

/// A recognized section that is not stored compressed and whose byte range
/// lies within the input is extracted, and the bytes handed out are exactly
/// those of its range in the input.
pub proof fn law_uncompressed_section_is_copied(
    buffer: Seq<u8>,
    object: ParsedObjectView,
    base_name: Seq<char>,
    i: int,
)
    requires
        0 <= i < object.sections.len(),
        is_wanted(object.sections[i]),
        in_range(object.sections[i].header, buffer.len()),
        !is_compressed(object.sections[i].header.flags),
    ensures
        report_model(buffer, object, base_name).outcomes[i] == extracted(
            base_name,
            object.sections[i].name->0,
            buffer.subrange(
                object.sections[i].header.offset as int,
                object.sections[i].header.offset + object.sections[i].header.size,
            ),
        ),
{
}

/// A recognized section that is stored compressed, whose byte range lies
/// within the input and holds the compression header, is extracted exactly
/// when the bytes after the header inflate, and the bytes handed out are
/// what they inflate to. Where they do not inflate, the failure is reported.
pub proof fn law_compressed_section_is_inflated(
    buffer: Seq<u8>,
    object: ParsedObjectView,
    base_name: Seq<char>,
    i: int,
    word_size: WordSize,
)
    requires
        0 <= i < object.sections.len(),
        is_wanted(object.sections[i]),
        in_range(object.sections[i].header, buffer.len()),
        is_compressed(object.sections[i].header.flags),
        object.word_size == Some(word_size),
        compression_header_len(word_size) <= object.sections[i].header.size,
    ensures
        ({
            let header = object.sections[i].header;
            let name = object.sections[i].name->0;
            let stream = buffer.subrange(
                header.offset + compression_header_len(word_size),
                header.offset + header.size,
            );
            report_model(buffer, object, base_name).outcomes[i] == match zlib_inflated(stream) {
                Some(data) => extracted(base_name, name, data),
                None => failed(name, SectionError::DecompressionFailure),
            }
        }),
{
}

/// A section whose name does not resolve, or resolves to a name that is not
/// one of the recognized names, is skipped: it gives neither an output nor a
/// report of a failure.
pub proof fn law_unrecognized_section_is_skipped(
    buffer: Seq<u8>,
    object: ParsedObjectView,
    base_name: Seq<char>,
    i: int,
)
    requires
        0 <= i < object.sections.len(),
        !is_wanted(object.sections[i]),
    ensures
        report_model(buffer, object, base_name).outcomes[i] == SectionOutcomeView::Skipped,
{
}

/// Every output comes from a section with a recognized name whose byte
/// range lies within the input. It carries that section's name, and its
/// file name is the base name followed by the section's name.
pub proof fn law_outputs_come_from_recognized_sections(
    buffer: Seq<u8>,
    object: ParsedObjectView,
    base_name: Seq<char>,
    i: int,
)
    requires
        0 <= i < object.sections.len(),
        report_model(buffer, object, base_name).outcomes[i] is Extracted,
    ensures
        ({
            let output = report_model(buffer, object, base_name).outcomes[i]->Extracted_0;
            &&& object.sections[i].name == Some(output.section_name)
            &&& is_recognized_name(output.section_name)
            &&& output.file_name == base_name + output.section_name
            &&& in_range(object.sections[i].header, buffer.len())
        }),
{
}

/// A recognized section whose declared byte range does not lie within the
/// input gives no output: it is reported as out of range.
pub proof fn law_out_of_range_section_is_reported(
    buffer: Seq<u8>,
    object: ParsedObjectView,
    base_name: Seq<char>,
    i: int,
)
    requires
        0 <= i < object.sections.len(),
        is_wanted(object.sections[i]),
        !in_range(object.sections[i].header, buffer.len()),
    ensures
        report_model(buffer, object, base_name).outcomes[i] == failed(
            object.sections[i].name->0,
            SectionError::SectionOutOfRange,
        ),
{
}

/// The outcome of a section does not depend on the other sections of the
/// file: whatever stands in the rest of the table, a section that fails
/// included, the section at an index has the same outcome.
pub proof fn law_sections_are_independent(
    buffer: Seq<u8>,
    object: ParsedObjectView,
    other: ParsedObjectView,
    base_name: Seq<char>,
    i: int,
)
    requires
        0 <= i < object.sections.len(),
        i < other.sections.len(),
        object.sections[i] == other.sections[i],
        object.word_size == other.word_size,
    ensures
        report_model(buffer, object, base_name).outcomes[i] == report_model(
            buffer,
            other,
            base_name,
        ).outcomes[i],
{
}

/// An input that does not start with the ELF signature, or that the parser
/// does not make an ELF object of, gives no report, and so no output:
/// extraction fails with `NotRecognizedFormat`. Every other input gives a
/// report.
pub proof fn law_unparsable_input_gives_no_output(buffer: Seq<u8>, base_name: Seq<char>)
    ensures
        !has_elf_signature(buffer) ==> extraction_model(buffer, base_name) == Err::<
            FileReportView,
            ExtractErrorView,
        >(ExtractErrorView::NotRecognizedFormat(None)),
        has_elf_signature(buffer) && parsed_elf(buffer) is Err ==> extraction_model(
            buffer,
            base_name,
        ) == Err::<FileReportView, ExtractErrorView>(
            ExtractErrorView::NotRecognizedFormat(parsed_elf(buffer)->Err_0),
        ),
        has_elf_signature(buffer) && parsed_elf(buffer) is Ok ==> extraction_model(
            buffer,
            base_name,
        ) is Ok,
{
}

} // verus!
