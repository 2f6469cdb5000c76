//! Reading ELF objects with the `goblin` crate.
//!
//! Everything that is taken on trust from `goblin` is declared in this file.
//! A parsed `goblin::elf::Elf` is opaque to the verifier; what the library
//! reads out of it is named by the uninterpreted functions below, and
//! [`read_object`] copies it into a [`ParsedObject`].

use vstd::prelude::*;
use goblin::elf::Elf;
use crate::error::{ExtractError, ExtractErrorView};
use crate::object::{ParsedObject, ParsedObjectView, Section, SectionHeader, SectionView, WordSize};
use crate::plan::compression_header_len;

verus! {

/// `goblin::elf::Elf`, the result of parsing an ELF object.
#[verifier::external_type_specification]
#[verifier::external_body]
pub struct ExElf<'a>(Elf<'a>);

/// What `goblin::Object::parse` makes of bytes that start with the ELF
/// signature: the ELF object, or the text of the parser's error, or `None`
/// for an object of another format.
pub uninterp spec fn parsed_elf(bytes: Seq<u8>) -> Result<Elf<'static>, Option<Seq<char>>>;

/// The entries of `elf.section_headers`, in table order.
pub uninterp spec fn elf_section_headers(elf: Elf) -> Seq<SectionHeader>;

/// The text that `elf.shdr_strtab` holds at `name_offset`, or `None` where
/// the offset lies outside the table or the bytes there are not valid UTF-8.
pub uninterp spec fn elf_section_name(elf: Elf, name_offset: usize) -> Option<Seq<char>>;

/// The word size that `elf.header` declares, or `None` where its class byte
/// is neither that of a 32-bit nor that of a 64-bit object.
pub uninterp spec fn elf_word_size(elf: Elf) -> Option<WordSize>;

/// Whether `bytes` start as an ELF object must: with at least the sixteen
/// bytes by which the parser tells the formats apart, the first four of
/// which are the ELF signature, `0x7f` and the letters `ELF`.
pub open spec fn has_elf_signature(bytes: Seq<u8>) -> bool {
    &&& bytes.len() >= 16
    &&& bytes[0] == 0x7f
    &&& bytes[1] == 0x45
    &&& bytes[2] == 0x4c
    &&& bytes[3] == 0x46
}

/// Calls `goblin::Object::parse`, on bytes that start with the ELF
/// signature only: the parser then goes on to its ELF parser and to no
/// other. On other bytes it may try its archive, Mach-O or PE parser, of
/// which the first is known to panic on some inputs.
///
/// Trusted: on such bytes the parser returns; its outcome depends on the
/// bytes alone and is named [`parsed_elf`]. An error is handed on as its
/// text, an object of another format as `None`. This rests on a `usize` of
/// 64 bits: with a narrower one, sums of offsets in the ELF parser are
/// not known to stay in range.
#[verifier::external_body]
fn parse_elf<'a>(buffer: &'a [u8]) -> (r: Result<Elf<'a>, Option<String>>)
    requires
        has_elf_signature(buffer@),
    ensures
        match r {
            Ok(elf) => parsed_elf(buffer@) == Ok::<Elf, Option<Seq<char>>>(elf),
            Err(Some(detail)) => parsed_elf(buffer@) == Err::<Elf, Option<Seq<char>>>(
                Some(detail@),
            ),
            Err(None) => parsed_elf(buffer@) == Err::<Elf, Option<Seq<char>>>(None),
        },
{
    match goblin::Object::parse(buffer) {
        Ok(goblin::Object::Elf(elf)) => Ok(elf),
        Ok(_) => Err(None),
        Err(e) => Err(Some(e.to_string())),
    }
}

/// Reads the length of `elf.section_headers`.
///
/// Trusted: it is the length of [`elf_section_headers`].
#[verifier::external_body]
fn section_count(elf: &Elf) -> (r: usize)
    ensures
        r == elf_section_headers(*elf).len(),
{
    elf.section_headers.len()
}

/// Reads the fields `sh_name`, `sh_offset`, `sh_size` and `sh_flags` of the
/// entry at `index` of `elf.section_headers`.
///
/// Trusted: the result is the entry of [`elf_section_headers`] at `index`.
#[verifier::external_body]
fn section_header(elf: &Elf, index: usize) -> (r: SectionHeader)
    requires
        index < elf_section_headers(*elf).len(),
    ensures
        r == elf_section_headers(*elf)[index as int],
{
    let header = &elf.section_headers[index];
    SectionHeader {
        name_offset: header.sh_name,
        offset: header.sh_offset,
        size: header.sh_size,
        flags: header.sh_flags,
    }
}

/// Calls `goblin::strtab::Strtab::get` on `elf.shdr_strtab`.
///
/// Trusted: the result depends on the object and the offset alone and is
/// named [`elf_section_name`]. Both an offset outside the table and bytes
/// that are not valid UTF-8 give `None`.
#[verifier::external_body]
#[allow(deprecated)]
fn section_name(elf: &Elf, name_offset: usize) -> (r: Option<String>)
    ensures
        match r {
            Some(name) => elf_section_name(*elf, name_offset) == Some(name@),
            None => elf_section_name(*elf, name_offset) is None,
        },
{
    match elf.shdr_strtab.get(name_offset) {
        Some(Ok(name)) => Some(name.to_string()),
        _ => None,
    }
}

/// Calls `goblin::elf::Header::container` on `elf.header`.
///
/// Trusted: the result depends on the object alone and is named
/// [`elf_word_size`]. `Container::Little` is a 32-bit object,
/// `Container::Big` a 64-bit one; an error gives `None`.
#[verifier::external_body]
fn word_size(elf: &Elf) -> (r: Option<WordSize>)
    ensures
        r == elf_word_size(*elf),
{
    match elf.header.container() {
        Ok(goblin::container::Container::Little) => Some(WordSize::Bits32),
        Ok(goblin::container::Container::Big) => Some(WordSize::Bits64),
        Err(_) => None,
    }
}

/// Calls `goblin::elf::compression_header::CompressionHeader::size`.
///
/// Trusted: the compression header takes 12 bytes in a 32-bit object and 24
/// bytes in a 64-bit one. The byte order handed over has no part in it.
#[verifier::external_body]
pub(crate) fn compression_header_size(word_size: WordSize) -> (r: usize)
    ensures
        r == compression_header_len(word_size),
{
    let ctx = match word_size {
        WordSize::Bits32 => goblin::container::Ctx::new(
            goblin::container::Container::Little,
            scroll::Endian::Little,
        ),
        WordSize::Bits64 => {
            goblin::container::Ctx::new(goblin::container::Container::Big, scroll::Endian::Big)
        },
    };
    goblin::elf::compression_header::CompressionHeader::size(ctx)
}

/// Reads the constant `goblin::elf::section_header::SHF_COMPRESSED`.
///
/// Trusted: it is the single bit `0x800`.
#[verifier::external_body]
pub(crate) fn compressed_flag() -> (r: u64)
    ensures
        r == 0x800,
{
    goblin::elf::section_header::SHF_COMPRESSED as u64
}

/// The section that the header `header` of `elf` describes.
pub open spec fn section_model(elf: Elf, header: SectionHeader) -> SectionView {
    SectionView { header, name: elf_section_name(elf, header.name_offset) }
}

/// What extraction reads of `elf`.
pub open spec fn object_model(elf: Elf) -> ParsedObjectView {
    ParsedObjectView {
        word_size: elf_word_size(elf),
        sections: Seq::new(
            elf_section_headers(elf).len(),
            |i: int| section_model(elf, elf_section_headers(elf)[i]),
        ),
    }
}

/// What [`read_object`] returns for an input of these bytes.
pub open spec fn read_object_model(bytes: Seq<u8>) -> Result<ParsedObjectView, ExtractErrorView> {
    if !has_elf_signature(bytes) {
        Err(ExtractErrorView::NotRecognizedFormat(None))
    } else {
        match parsed_elf(bytes) {
            Ok(elf) => Ok(object_model(elf)),
            Err(detail) => Err(ExtractErrorView::NotRecognizedFormat(detail)),
        }
    }
}

/// Tells whether `buffer` starts with the ELF signature and is long enough
/// for the parser to tell its format.
pub fn starts_with_elf_signature(buffer: &[u8]) -> (r: bool)
    ensures
        r == has_elf_signature(buffer@),
{
    buffer.len() >= 16 && buffer[0] == 0x7f && buffer[1] == 0x45 && buffer[2] == 0x4c
        && buffer[3] == 0x46
}

/// Parses `buffer` as an ELF object and resolves the name of every section.
///
/// Fails with `NotRecognizedFormat` exactly when the buffer does not start
/// with the ELF signature, in which case the parser is not called, or the
/// parser does not make an ELF object of it.
pub fn read_object(buffer: &[u8]) -> (r: Result<ParsedObject, ExtractError>)
    ensures
        match r {
            Ok(object) => read_object_model(buffer@) == Ok::<ParsedObjectView, ExtractErrorView>(
                object@,
            ),
            Err(e) => read_object_model(buffer@) == Err::<ParsedObjectView, ExtractErrorView>(e@),
        },
{
    if !starts_with_elf_signature(buffer) {
        return Err(ExtractError::NotRecognizedFormat(None));
    }
    let elf = match parse_elf(buffer) {
        Ok(elf) => elf,
        Err(detail) => return Err(ExtractError::NotRecognizedFormat(detail)),
    };
    let count = section_count(&elf);
    let mut sections: Vec<Section> = Vec::new();
    let mut i: usize = 0;
    while i < count
        invariant
            i <= count,
            count == elf_section_headers(elf).len(),
            sections@.len() == i,
            forall|j: int|
                0 <= j < i ==> (#[trigger] sections@[j])@ == section_model(
                    elf,
                    elf_section_headers(elf)[j],
                ),
        decreases count - i,
    {
        let header = section_header(&elf, i);
        let name = section_name(&elf, header.name_offset);
        sections.push(Section { header, name });
        i += 1;
    }
    let object = ParsedObject { word_size: word_size(&elf), sections };
    assert(object@.sections =~= object_model(elf).sections);
    Ok(object)
}

} // verus!
