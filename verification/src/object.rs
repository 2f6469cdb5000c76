//! The parts of a parsed object file that extraction reads, as plain values.

use vstd::prelude::*;

verus! {

/// The word size that an object file declares in its header.
#[derive(Clone, Copy, Debug, PartialEq, Eq)]
pub enum WordSize {
    Bits32,
    Bits64,
}

/// One entry of the section header table.
#[derive(Clone, Copy, Debug, PartialEq, Eq)]
pub struct SectionHeader {
    /// Offset of the section's name in the section name string table.
    pub name_offset: usize,
    /// Offset of the section's first byte in the file.
    pub offset: u64,
    /// Number of bytes that the section occupies in the file.
    pub size: u64,
    /// The section's flag bits.
    pub flags: u64,
}

/// A section header together with the name that the string table gives it.
#[derive(Clone, Debug, PartialEq, Eq)]
pub struct Section {
    pub header: SectionHeader,
    /// `None` when the name offset does not resolve to valid text.
    pub name: Option<String>,
}

/// Mathematical value of a [`Section`].
pub struct SectionView {
    pub header: SectionHeader,
    pub name: Option<Seq<char>>,
}

impl View for Section {
    type V = SectionView;

    open spec fn view(&self) -> SectionView {
        SectionView {
            header: self.header,
            name: match self.name {
                Some(name) => Some(name@),
                None => None,
            },
        }
    }
}

/// What extraction needs to know of an object file: the word size from its
/// header, if the header states one, and its sections in table order.
#[derive(Clone, Debug, PartialEq, Eq)]
pub struct ParsedObject {
    pub word_size: Option<WordSize>,
    pub sections: Vec<Section>,
}

/// Mathematical value of a [`ParsedObject`].
pub struct ParsedObjectView {
    pub word_size: Option<WordSize>,
    pub sections: Seq<SectionView>,
}

impl View for ParsedObject {
    type V = ParsedObjectView;

    open spec fn view(&self) -> ParsedObjectView {
        ParsedObjectView {
            word_size: self.word_size,
            sections: Seq::new(self.sections@.len(), |i: int| self.sections@[i]@),
        }
    }
}

} // verus!
