//! The decision of what to do with one section.

use vstd::prelude::*;
use crate::classify::{is_debug_section, is_recognized_name};
use crate::elf::{compressed_flag, compression_header_size};
use crate::error::SectionError;
use crate::object::{Section, SectionHeader, SectionView, WordSize};

verus! {

/// What is to be done with a section.
#[derive(Clone, Copy, Debug, PartialEq, Eq)]
pub enum SectionPlan {
    /// The section is passed over without a trace: its name does not
    /// resolve or is not a recognized one.
    Skip,
    /// The section is recognized but cannot be extracted.
    Reject(SectionError),
    /// The `size` bytes of the input from `offset` on are the output.
    Copy { offset: u64, size: u64 },
    /// Of the `size` bytes of the input from `offset` on, the first
    /// `header_len` are the compression header and the rest is a zlib stream
    /// that inflates to the output.
    Inflate { offset: u64, size: u64, header_len: usize },
}

/// Whether a section's name resolves to one of the recognized names.
pub open spec fn is_wanted(section: SectionView) -> bool {
    section.name matches Some(name) && is_recognized_name(name)
}

/// Whether the byte range that `header` declares lies within an input of
/// `buffer_len` bytes.
pub open spec fn in_range(header: SectionHeader, buffer_len: nat) -> bool {
    header.offset + header.size <= buffer_len
}

/// Whether the flag bits mark the section as stored compressed: whether
/// the bit `0x800` is set in them.
pub open spec fn is_compressed(flags: u64) -> bool {
    flags & 0x800 != 0
}

/// The number of bytes that the compression header takes at the start of a
/// compressed section.
pub open spec fn compression_header_len(word_size: WordSize) -> nat {
    match word_size {
        WordSize::Bits32 => 12,
        WordSize::Bits64 => 24,
    }
}

/// The plan for `section` in an input of `buffer_len` bytes whose header
/// declares `word_size`.
pub open spec fn section_plan(
    section: SectionView,
    buffer_len: nat,
    word_size: Option<WordSize>,
) -> SectionPlan {
    let header = section.header;
    if !is_wanted(section) {
        SectionPlan::Skip
    } else if !in_range(header, buffer_len) {
        SectionPlan::Reject(SectionError::SectionOutOfRange)
    } else if !is_compressed(header.flags) {
        SectionPlan::Copy { offset: header.offset, size: header.size }
    } else {
        match word_size {
            None => SectionPlan::Reject(SectionError::CompressionContextUnavailable),
            Some(word_size) => if header.size < compression_header_len(word_size) {
                SectionPlan::Reject(SectionError::DecompressionFailure)
            } else {
                SectionPlan::Inflate {
                    offset: header.offset,
                    size: header.size,
                    header_len: compression_header_len(word_size) as usize,
                }
            },
        }
    }
}

/// Whether a plan can be carried out on an input of `buffer_len` bytes: the
/// bytes it names lie within the input, and the compression header within
/// those bytes.
pub open spec fn plan_fits(plan: SectionPlan, buffer_len: nat) -> bool {
    match plan {
        SectionPlan::Skip => true,
        SectionPlan::Reject(_) => true,
        SectionPlan::Copy { offset, size } => offset + size <= buffer_len,
        SectionPlan::Inflate { offset, size, header_len } => {
            &&& offset + size <= buffer_len
            &&& header_len <= size
        },
    }
}

/// Tells whether a section is one to extract.
pub fn section_is_wanted(section: &Section) -> (r: bool)
    ensures
        r == is_wanted(section@),
{
    match &section.name {
        Some(name) => is_debug_section(name.as_str()),
        None => false,
    }
}

/// Tells whether the byte range that `header` declares lies within an input
/// of `buffer_len` bytes. The sum of offset and size is computed without
/// wrapping: a range whose end is not representable is out of range.
pub fn section_in_range(header: &SectionHeader, buffer_len: usize) -> (r: bool)
    ensures
        r == in_range(*header, buffer_len as nat),
{
    match header.offset.checked_add(header.size) {
        Some(end) => end <= buffer_len as u64,
        None => false,
    }
}

/// Tells whether the flag bits mark a section as stored compressed.
pub fn section_is_compressed(flags: u64) -> (r: bool)
    ensures
        r == is_compressed(flags),
{
    flags & compressed_flag() != 0
}

/// Decides what is to be done with `section`.
pub fn plan_section(section: &Section, buffer_len: usize, word_size: Option<WordSize>) -> (plan:
    SectionPlan)
    ensures
        plan == section_plan(section@, buffer_len as nat, word_size),
        plan_fits(plan, buffer_len as nat),
{
    let header = section.header;
    if !section_is_wanted(section) {
        return SectionPlan::Skip;
    }
    if !section_in_range(&header, buffer_len) {
        return SectionPlan::Reject(SectionError::SectionOutOfRange);
    }
    if !section_is_compressed(header.flags) {
        return SectionPlan::Copy { offset: header.offset, size: header.size };
    }
    match word_size {
        None => SectionPlan::Reject(SectionError::CompressionContextUnavailable),
        Some(word_size) => {
            let header_len = compression_header_size(word_size);
            if header.size < header_len as u64 {
                SectionPlan::Reject(SectionError::DecompressionFailure)
            } else {
                SectionPlan::Inflate { offset: header.offset, size: header.size, header_len }
            }
        },
    }
}

} // verus!
