use dwarf_extractor::classify::is_debug_section;
use dwarf_extractor::text::same_text;

#[test]
fn the_five_names_are_recognized() {
    assert!(is_debug_section(".debug_abbrev"));
    assert!(is_debug_section(".debug_info"));
    assert!(is_debug_section(".debug_loc"));
    assert!(is_debug_section(".debug_line"));
    assert!(is_debug_section(".debug_str"));
}

#[test]
fn other_sections_are_not_recognized() {
    assert!(!is_debug_section(".text"));
    assert!(!is_debug_section(".data"));
    assert!(!is_debug_section(".shstrtab"));
    assert!(!is_debug_section(".debug_ranges"));
    assert!(!is_debug_section(".debug_frame"));
    assert!(!is_debug_section(""));
}

#[test]
fn a_prefix_or_an_extension_of_a_name_is_not_recognized() {
    assert!(!is_debug_section(".debug"));
    assert!(!is_debug_section(".debug_"));
    assert!(!is_debug_section(".debug_inf"));
    assert!(!is_debug_section(".debug_info "));
    assert!(!is_debug_section(".debug_info.dwo"));
    assert!(!is_debug_section(".debug_line_str"));
    assert!(!is_debug_section("debug_info"));
    assert!(!is_debug_section("x.debug_info"));
    assert!(!is_debug_section(".zdebug_info"));
}

#[test]
fn names_are_case_sensitive() {
    assert!(!is_debug_section(".DEBUG_INFO"));
    assert!(!is_debug_section(".Debug_info"));
    assert!(!is_debug_section(".debug_Str"));
}

#[test]
fn same_text_compares_by_content() {
    assert!(same_text("", ""));
    assert!(same_text(".debug_loc", ".debug_loc"));
    assert!(!same_text(".debug_loc", ".debug_lod"));
    assert!(!same_text(".debug_loc", ".debug_lo"));
    assert!(!same_text("a", ""));
    assert!(same_text("gr\u{fc}n", "gr\u{fc}n"));
    assert!(!same_text("gr\u{fc}n", "grun"));
}
