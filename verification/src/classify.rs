//! Decides which section names denote debug sections of interest.

use vstd::prelude::*;
use crate::text::same_text;

verus! {

/// The closed set of section names that are extracted.
pub open spec fn recognized_names() -> Set<Seq<char>> {
    set![
        ".debug_abbrev"@,
        ".debug_info"@,
        ".debug_loc"@,
        ".debug_line"@,
        ".debug_str"@,
    ]
}

/// Whether `name` is, character for character, one of the recognized names.
pub open spec fn is_recognized_name(name: Seq<char>) -> bool {
    recognized_names().contains(name)
}

/// Tells whether a section of this name is extracted.
pub fn is_debug_section(name: &str) -> (r: bool)
    ensures
        r == is_recognized_name(name@),
{
    same_text(name, ".debug_abbrev") || same_text(name, ".debug_info")
        || same_text(name, ".debug_loc") || same_text(name, ".debug_line")
        || same_text(name, ".debug_str")
}

} // verus!
