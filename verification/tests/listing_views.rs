use damsel_core::listing::{
    contains_case_insensitive, select_imports, select_relocations, select_sections,
    select_symbols, sort_imports, sort_sections, ImportSort, RelocationSort, SectionSort,
    SymbolSort,
};
use damsel_core::model::{Import, Relocation, Section, Symbol, SymbolKind};
use damsel_core::web::{
    api_error_status, choose_default_section, disasm_args_for_target, suggest_symbols,
    DisasmWindow, TargetKind,
};

fn section(segment: &str, name: &str, address: u64, size: u64, executable: bool) -> Section {
    Section {
        segment_name: segment.to_string(),
        name: name.to_string(),
        address,
        size,
        file_offset: None,
        file_size: size,
        kind: "regular".to_string(),
        executable,
    }
}

fn symbol(name: &str, address: u64, defined: bool, section: Option<&str>) -> Symbol {
    Symbol {
        name: name.to_string(),
        address,
        size: 4,
        kind: SymbolKind::Text,
        defined,
        global: true,
        weak: false,
        section: section.map(str::to_string),
    }
}

fn import(name: &str, dylib: &str, address: Option<u64>, lazy: bool) -> Import {
    Import {
        name: name.to_string(),
        dylib: dylib.to_string(),
        address,
        offset: None,
        addend: 0,
        is_lazy: lazy,
        is_weak: false,
    }
}

#[test]
fn case_insensitive_search_ignores_ascii_case() {
    assert!(contains_case_insensitive("__TEXT", "text"));
    assert!(contains_case_insensitive("anything", ""));
    assert!(!contains_case_insensitive("__DATA", "text"));
}

#[test]
fn section_sort_is_stable_for_equal_keys() {
    let sections = vec![
        section("__TEXT", "__b", 0x2000, 8, true),
        section("__TEXT", "__a", 0x1000, 8, true),
        section("__DATA", "__c", 0x1000, 4, false),
    ];
    let mut sorted = sections.clone();
    sort_sections(&mut sorted, SectionSort::Address);
    let by_address: Vec<String> = sorted.iter().map(|s| s.name.clone()).collect();
    assert_eq!(by_address, vec!["__a", "__c", "__b"]);
    let mut sorted = sections.clone();
    sort_sections(&mut sorted, SectionSort::Size);
    let by_size: Vec<String> = sorted.iter().map(|s| s.name.clone()).collect();
    assert_eq!(by_size, vec!["__c", "__b", "__a"]);
    let mut sorted = sections;
    sort_sections(&mut sorted, SectionSort::Name);
    let by_name: Vec<String> = sorted.iter().map(|s| s.full_name()).collect();
    assert_eq!(by_name, vec!["__DATA:__c", "__TEXT:__a", "__TEXT:__b"]);
}

#[test]
fn section_selection_filters_then_sorts() {
    let sections = vec![
        section("__TEXT", "__text", 0x3000, 8, true),
        section("__DATA", "__data", 0x1000, 8, false),
        section("__TEXT", "__stubs", 0x2000, 8, true),
    ];
    let kept = select_sections(sections.clone(), true, Some("text".to_string()), None, Some(SectionSort::Address));
    let names: Vec<String> = kept.iter().map(|s| s.name.clone()).collect();
    assert_eq!(names, vec!["__stubs", "__text"]);
    let named = select_sections(sections, false, None, Some("DAT".to_string()), None);
    assert_eq!(named.len(), 1);
    assert_eq!(named[0].name, "__data");
}

#[test]
fn symbol_selection_requires_a_matching_section_when_filtered() {
    let symbols = vec![
        symbol("_b", 2, true, Some("__TEXT:__text")),
        symbol("_a", 1, false, None),
        symbol("_c", 3, true, Some("__DATA:__data")),
    ];
    let in_text = select_symbols(symbols.clone(), false, false, Some("TEXT".to_string()), None, None);
    assert_eq!(in_text.len(), 1);
    assert_eq!(in_text[0].name, "_b");
    let defined = select_symbols(symbols, true, false, None, None, Some(SymbolSort::Name));
    let names: Vec<String> = defined.iter().map(|s| s.name.clone()).collect();
    assert_eq!(names, vec!["_b", "_c"]);
}

#[test]
fn import_sorting_by_library_then_name() {
    let imports = vec![
        import("_write", "libSystem", Some(0x20), false),
        import("_objc_msgSend", "libobjc", None, true),
        import("_read", "libSystem", Some(0x10), true),
    ];
    let mut sorted = imports.clone();
    sort_imports(&mut sorted, ImportSort::Dylib);
    let names: Vec<String> = sorted.iter().map(|i| i.name.clone()).collect();
    assert_eq!(names, vec!["_read", "_write", "_objc_msgSend"]);
    let mut by_address = imports.clone();
    sort_imports(&mut by_address, ImportSort::Address);
    let names: Vec<String> = by_address.iter().map(|i| i.name.clone()).collect();
    assert_eq!(names, vec!["_objc_msgSend", "_read", "_write"]);
    let lazy_resolved = select_imports(imports, None, None, true, false, true, None);
    assert_eq!(lazy_resolved.len(), 1);
    assert_eq!(lazy_resolved[0].name, "_read");
}

#[test]
fn relocation_selection_by_section_and_sort() {
    let relocation = |section: &str, address: u64, size: u8| Relocation {
        section: section.to_string(),
        address,
        size,
        kind: "branch26".to_string(),
        encoding: "arm64".to_string(),
        target: "_f".to_string(),
        addend: 0,
    };
    let relocations = vec![
        relocation("__text", 8, 4),
        relocation("__data", 4, 8),
        relocation("__text", 4, 4),
    ];
    let kept = select_relocations(relocations, Some("TEXT".to_string()), Some(RelocationSort::Section));
    let addresses: Vec<u64> = kept.iter().map(|r| r.address).collect();
    assert_eq!(addresses, vec![4, 8]);
}

#[test]
fn default_section_prefers_text_then_executable_then_first() {
    let text = vec![section("__TEXT", "__stubs", 1, 1, true), section("__TEXT", "__text", 2, 1, true)];
    assert_eq!(choose_default_section(&text), Some("__TEXT:__text".to_string()));
    let code = vec![section("__DATA", "__data", 1, 1, false), section("__TEXT", "__stubs", 2, 1, true)];
    assert_eq!(choose_default_section(&code), Some("__TEXT:__stubs".to_string()));
    let data = vec![section("__DATA", "__data", 1, 1, false)];
    assert_eq!(choose_default_section(&data), Some("__DATA:__data".to_string()));
    assert_eq!(choose_default_section(&Vec::new()), None);
}

#[test]
fn suggestions_put_prefix_matches_first_and_drop_repeats() {
    let symbols = vec![
        symbol("_main_helper", 1, true, None),
        symbol("main", 2, true, None),
        symbol("Main", 3, true, None),
        symbol("main", 4, true, None),
        symbol("other", 5, true, None),
    ];
    let found = suggest_symbols(&symbols, Some("  main ".to_string()), None);
    assert_eq!(found, vec!["main", "Main", "main", "_main_helper"]);
    let repeated = vec![symbol("ab", 1, true, None), symbol("ab", 2, true, None)];
    assert_eq!(suggest_symbols(&repeated, Some("a".to_string()), None), vec!["ab"]);
    assert!(suggest_symbols(&symbols, Some("   ".to_string()), None).is_empty());
    assert!(suggest_symbols(&symbols, None, Some(5)).is_empty());
    assert_eq!(suggest_symbols(&symbols, Some("MAIN".to_string()), Some(0)).len(), 1);
    assert_eq!(suggest_symbols(&symbols, Some("o".to_string()), Some(2)).len(), 1);
}

#[test]
fn browser_targets_become_flags() {
    let window = DisasmWindow {
        from: Some(0x10),
        to: Some(0x20),
        bytes: None,
        limit: Some(3),
    };
    let section_args = disasm_args_for_target(TargetKind::Section, "__text".to_string(), window).unwrap();
    assert_eq!(section_args.section.as_deref(), Some("__text"));
    assert_eq!(section_args.from, Some(0x10));
    let address_args = disasm_args_for_target(TargetKind::Address, "0x40".to_string(), window).unwrap();
    assert_eq!(address_args.addr, Some(0x40));
    assert_eq!(address_args.from, None);
    assert_eq!(address_args.limit, Some(3));
    let error = disasm_args_for_target(TargetKind::Address, "zz".to_string(), window).unwrap_err();
    assert_eq!(error.code, "invalid_args");
    assert_eq!(
        error.message,
        "invalid address value `zz`: invalid digit found in string"
    );
    assert_eq!(api_error_status("image_not_found"), 404);
    assert_eq!(api_error_status("invalid_args"), 400);
}

#[test]
fn every_suggestion_names_a_matching_symbol() {
    let symbols = vec![
        symbol("_objc_msgSend", 1, true, None),
        symbol("MSG_helper", 2, true, None),
        symbol("printf", 3, true, None),
        symbol("_msg", 4, true, None),
        symbol("_msg", 5, true, None),
    ];
    let found = suggest_symbols(&symbols, Some(" Msg ".to_string()), Some(3));
    assert!(found.len() <= 3);
    for name in &found {
        assert!(name.to_lowercase().contains("msg"), "{name}");
        assert!(symbols.iter().any(|s| &s.name == name));
    }
    for pair in found.windows(2) {
        assert_ne!(pair[0], pair[1]);
    }
    assert_eq!(found, vec!["MSG_helper", "_msg", "_objc_msgSend"]);
}
