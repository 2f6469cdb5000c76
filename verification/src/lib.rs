//! Extraction of debug sections from ELF object files.
//!
//! An input file is handed over as a byte buffer. The library parses it,
//! walks the section header table in table order, picks the sections whose
//! name is one of the recognized debug section names, and yields for each of
//! them either its contents (inflated where the section is stored compressed)
//! together with the name of the file to write them to, or the reason why
//! the section could not be extracted. Reading inputs and writing outputs is
//! left to the caller.

pub mod classify;
pub mod elf;
pub mod error;
pub mod extract;
pub mod laws;
pub mod message;
pub mod object;
pub mod plan;
pub mod text;
pub mod zlib;
