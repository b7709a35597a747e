use damsel_core::dyld::{
    dyld_json, export_json, filter_dyld_view, import_binding_json, stub_entry_json, DyldSortKey,
    DyldViewOptions,
};
use damsel_core::cli::{ExportFlagFilter, ExportKindFilter};
use damsel_core::{
    DyldMetadata, ExportFlags, ExportKind, ExportedSymbol, ImportBindingKind, ImportBindingRecord, ImportBindingSource,
    StubEntry, StubHelperEntry, StubKind,
};

const NO_FLAGS: ExportFlags = ExportFlags {
    raw_bits: 0,
    kind_bits: 0,
    is_weak_definition: false,
    is_reexport: false,
    is_stub_and_resolver: false,
    is_thread_local: false,
    is_absolute: false,
    unknown_bits: 0,
};

const WEAK: ExportFlags = ExportFlags {
    raw_bits: 4,
    kind_bits: 0,
    is_weak_definition: true,
    is_reexport: false,
    is_stub_and_resolver: false,
    is_thread_local: false,
    is_absolute: false,
    unknown_bits: 0,
};

fn export(name: &str, address: u64, kind: ExportKind, flags: ExportFlags) -> ExportedSymbol {
    ExportedSymbol {
        name: name.to_string(),
        address: Some(address),
        raw_flags: "regular".to_string(),
        flags,
        kind,
        reexport_target: None,
        resolver_target: None,
    }
}

fn binding(name: &str, dylib: &str, address: u64, ordinal: u32, source: ImportBindingSource) -> ImportBindingRecord {
    ImportBindingRecord {
        dylib: dylib.to_string(),
        name: name.to_string(),
        address: Some(address),
        offset: Some(0x10),
        addend: 0,
        ordinal: Some(ordinal),
        symbol_index: Some(2),
        binding_kind: ImportBindingKind::Lazy,
        source,
        is_weak: false,
    }
}

fn stub(name: &str, dylib: &str, address: u64, helper: Option<u64>, ordinal: u32) -> StubEntry {
    StubEntry {
        stub_address: address,
        section: Some("__TEXT:__stubs".to_string()),
        pointer_section: Some("__DATA:__la_symbol_ptr".to_string()),
        pointer_address: Some(address + 0x1000),
        helper_address: helper,
        binding_ordinal: Some(ordinal),
        stub_kind: StubKind::Lazy,
        dylib: Some(dylib.to_string()),
        name: Some(name.to_string()),
        source: ImportBindingSource::Stub,
    }
}

fn helper(name: &str, dylib: &str, address: u64, ordinal: u32) -> StubHelperEntry {
    StubHelperEntry {
        helper_address: address,
        target_stub: None,
        stub_section: None,
        pointer_address: None,
        pointer_section: None,
        binding_ordinal: Some(ordinal),
        dylib: Some(dylib.to_string()),
        name: Some(name.to_string()),
    }
}

fn sample() -> DyldMetadata {
    DyldMetadata {
        imported_dylibs: vec!["/usr/lib/libSystem.B.dylib".to_string(), "/usr/lib/libobjc.A.dylib".to_string()],
        rpaths: vec![],
        exported_symbols: vec![
            export("_main", 0x3000, ExportKind::Regular, NO_FLAGS),
            export("_helper", 0x1000, ExportKind::Regular, NO_FLAGS),
        ],
        function_starts: vec![0x1000, 0x3000],
        import_bindings: vec![
            binding("_puts", "/usr/lib/libSystem.B.dylib", 0x5010, 1, ImportBindingSource::IndirectSymbol),
            binding("_objc_msgSend", "/usr/lib/libobjc.A.dylib", 0x5000, 2, ImportBindingSource::ChainedFixup),
            binding("_exit", "/usr/lib/libSystem.B.dylib", 0x5008, 1, ImportBindingSource::Stub),
        ],
        stubs: vec![
            stub("_puts", "/usr/lib/libSystem.B.dylib", 0x4010, Some(0x4110), 1),
            stub("_objc_msgSend", "/usr/lib/libobjc.A.dylib", 0x4000, Some(0x4100), 2),
        ],
        stub_helpers: vec![
            helper("_puts", "/usr/lib/libSystem.B.dylib", 0x4110, 1),
            helper("_objc_msgSend", "/usr/lib/libobjc.A.dylib", 0x4100, 2),
            helper("_abort", "/usr/lib/libSystem.B.dylib", 0x4120, 1),
        ],
        has_rebases: true,
        has_binds: false,
        has_chained_fixups: true,
    }
}

#[test]
fn dyld_view_sorts_by_address_by_default() {
    let dyld = sample();
    let view = filter_dyld_view(&dyld, &DyldViewOptions::all());
    let exports: Vec<_> = view.exports.iter().map(|e| e.name.as_str()).collect();
    assert_eq!(exports, vec!["_helper", "_main"]);
    let bindings: Vec<_> = view.import_bindings.iter().map(|b| b.name.as_str()).collect();
    assert_eq!(bindings, vec!["_objc_msgSend", "_exit", "_puts"]);
    let stubs: Vec<_> = view.stubs.iter().map(|s| s.stub_address).collect();
    assert_eq!(stubs, vec![0x4000, 0x4010]);
    assert_eq!(view.stub_helpers.len(), 3);
}

#[test]
fn dyld_filters_restrict_helpers_to_kept_stubs() {
    let dyld = sample();
    let mut options = DyldViewOptions::all();
    options.dylib_filter = Some("libsystem".to_string());
    options.sort = Some(DyldSortKey::Name);
    let view = filter_dyld_view(&dyld, &options);
    let bindings: Vec<_> = view.import_bindings.iter().map(|b| b.name.as_str()).collect();
    assert_eq!(bindings, vec!["_exit", "_puts"]);
    let helpers: Vec<_> = view.stub_helpers.iter().map(|h| h.helper_address).collect();
    assert_eq!(helpers, vec![0x4110]);

    let mut options = DyldViewOptions::all();
    options.sort = Some(DyldSortKey::Source);
    let view = filter_dyld_view(&dyld, &options);
    let bindings: Vec<_> = view.import_bindings.iter().map(|b| b.name.as_str()).collect();
    assert_eq!(bindings, vec!["_objc_msgSend", "_puts", "_exit"]);
}

#[test]
fn dyld_json_lists_shown_parts() {
    let dyld = sample();
    let mut options = DyldViewOptions::all();
    options.show_exports = false;
    options.ordinal_filter = Some(2);
    let rendered = dyld_json(&dyld, &options).render(false);
    let value: serde_json::Value = serde_json::from_str(&rendered).unwrap();
    assert_eq!(value["has_rebases"], true);
    assert_eq!(value["ordinal_filter"], 2);
    assert!(value["exports"].as_array().unwrap().is_empty());
    assert_eq!(value["included_sections"].as_array().unwrap().len(), 6);
    assert_eq!(value["import_bindings"][0]["name"], "_objc_msgSend");
    assert_eq!(value["stub_helpers"][0]["helper_address"], 0x4100);
    assert_eq!(value["function_starts"][1], 0x3000);

    assert_eq!(
        import_binding_json(&dyld.import_bindings[0]).render(false),
        r#"{"dylib":"/usr/lib/libSystem.B.dylib","name":"_puts","address":20496,"offset":16,"addend":0,"source":"IndirectSymbol","ordinal":1,"symbol_index":2,"binding_kind":"Lazy","is_weak":false}"#
    );
    assert_eq!(
        stub_entry_json(&dyld.stubs[1]).render(false),
        r#"{"stub_address":16384,"section":"__TEXT:__stubs","pointer_address":20480,"pointer_section":"__DATA:__la_symbol_ptr","helper_address":16640,"binding_ordinal":2,"stub_kind":"Lazy","dylib":"/usr/lib/libobjc.A.dylib","name":"_objc_msgSend","source":"Stub"}"#
    );
}

#[test]
fn dyld_text_lists_kept_records() {
    let dyld = sample();
    let mut options = DyldViewOptions::all();
    options.name_filter = Some("puts".to_string());
    options.show_function_starts = false;
    let lines = damsel_core::dyld::dyld_text_lines(&dyld, &options);
    assert_eq!(
        lines[0],
        "dyld: dylibs=2 rpaths=0 exports=2 function_starts=2 bindings=1 stubs=1 helpers=1 rebases=true binds=false chained_fixups=true"
    );
    assert_eq!(lines[1], "active_filters: name=puts");
    assert_eq!(lines[2], "dylibs:");
    assert_eq!(lines[3], "  /usr/lib/libSystem.B.dylib");
    assert!(lines.contains(&"import_bindings (1/3):".to_string()));
    assert!(lines.contains(&format!(
        "  {:>18} {:>18} {:<30} {:<24} addend=0 kind=Lazy source=IndirectSymbol ordinal=1 symidx=2 weak=false",
        "0x5010", "0x10", "/usr/lib/libSystem.B.dylib", "_puts"
    )));
    assert!(lines.contains(&format!(
        "  {:>18} section=__TEXT:__stubs ptr_section=__DATA:__la_symbol_ptr ptr=0x5010 helper=0x4110 ordinal=1 kind=Lazy /usr/lib/libSystem.B.dylib:_puts source=Stub",
        "0x4010"
    )));
    assert!(lines.contains(&format!(
        "  {:>18} stub=- stub_section=- ptr_section=- ptr=- ordinal=1 /usr/lib/libSystem.B.dylib:_puts",
        "0x4110"
    )));
    assert!(!lines.iter().any(|l| l.starts_with("function_starts")));
}

#[test]
fn dyld_export_filters_keep_matching_exports() {
    let mut dyld = sample();
    dyld.exported_symbols.push(export("_weak_thing", 0x2000, ExportKind::WeakDefinition, WEAK));
    dyld.exported_symbols.push(export("_other_weak", 0x2800, ExportKind::Regular, WEAK));

    let mut options = DyldViewOptions::all();
    options.export_kind_filter = Some(ExportKindFilter::WeakDefinition);
    let view = filter_dyld_view(&dyld, &options);
    let exports: Vec<_> = view.exports.iter().map(|e| e.name.as_str()).collect();
    assert_eq!(exports, vec!["_weak_thing"]);

    let mut options = DyldViewOptions::all();
    options.export_flag_filter = Some(ExportFlagFilter::WeakDefinition);
    let view = filter_dyld_view(&dyld, &options);
    let exports: Vec<_> = view.exports.iter().map(|e| e.name.as_str()).collect();
    assert_eq!(exports, vec!["_weak_thing", "_other_weak"]);
    // Export filters leave bindings, stubs and helpers alone.
    assert_eq!(view.import_bindings.len(), 3);
    assert_eq!(view.stub_helpers.len(), 3);

    options.export_kind_filter = Some(ExportKindFilter::Regular);
    let view = filter_dyld_view(&dyld, &options);
    let exports: Vec<_> = view.exports.iter().map(|e| e.name.as_str()).collect();
    assert_eq!(exports, vec!["_other_weak"]);

    let lines = damsel_core::dyld::dyld_text_lines(&dyld, &options);
    assert_eq!(lines[1], "active_filters: export_kind=Regular export_flag=WeakDefinition");
}

#[test]
fn dyld_json_carries_export_filters_in_key_order() {
    let dyld = sample();
    let mut options = DyldViewOptions::all();
    options.show_dylibs = false;
    options.show_rpaths = false;
    options.show_exports = false;
    options.show_function_starts = false;
    options.show_stubs = false;
    options.show_helpers = false;
    let rendered = dyld_json(&dyld, &options).render(false);
    let keys: Vec<String> = match serde_json::from_str::<serde_json::Value>(&rendered).unwrap() {
        serde_json::Value::Object(map) => map.keys().cloned().collect(),
        _ => panic!("not an object"),
    };
    let expected = [
        "has_rebases",
        "has_binds",
        "has_chained_fixups",
        "included_sections",
        "name_filter",
        "dylib_filter",
        "source_filter",
        "binding_kind_filter",
        "stub_kind_filter",
        "export_kind_filter",
        "export_flag_filter",
        "ordinal_filter",
        "dylibs",
        "rpaths",
        "exports",
        "function_starts",
        "import_bindings",
        "stubs",
        "stub_helpers",
    ];
    let mut sorted_expected: Vec<String> = expected.iter().map(|k| k.to_string()).collect();
    sorted_expected.sort();
    let mut sorted_keys = keys.clone();
    sorted_keys.sort();
    assert_eq!(sorted_keys, sorted_expected);
    assert!(rendered.starts_with(r#"{"has_rebases":true,"has_binds":false,"has_chained_fixups":true,"included_sections":["import_bindings"],"name_filter":null,"dylib_filter":null,"source_filter":null,"binding_kind_filter":null,"stub_kind_filter":null,"export_kind_filter":null,"export_flag_filter":null,"ordinal_filter":null,"dylibs":[],"rpaths":[],"exports":[],"function_starts":[]"#));

    options.export_kind_filter = Some(ExportKindFilter::StubAndResolver);
    options.export_flag_filter = Some(ExportFlagFilter::ThreadLocal);
    let value: serde_json::Value = serde_json::from_str(&dyld_json(&dyld, &options).render(false)).unwrap();
    assert_eq!(value["export_kind_filter"], "StubAndResolver");
    assert_eq!(value["export_flag_filter"], "ThreadLocal");
}

#[test]
fn export_json_and_line_show_kind_flags_and_targets() {
    let reexport = ExportedSymbol {
        name: "_alias".to_string(),
        address: None,
        raw_flags: "0x8".to_string(),
        flags: ExportFlags {
            raw_bits: 0x28,
            kind_bits: 0,
            is_weak_definition: false,
            is_reexport: true,
            is_stub_and_resolver: false,
            is_thread_local: false,
            is_absolute: true,
            unknown_bits: 0x20,
        },
        kind: ExportKind::Reexport { dylib: "/usr/lib/libB.dylib".to_string(), symbol: Some("_target".to_string()) },
        reexport_target: Some(("/usr/lib/libB.dylib".to_string(), Some("_target".to_string()))),
        resolver_target: None,
    };
    assert_eq!(
        export_json(&reexport).render(false),
        r#"{"name":"_alias","address":null,"raw_flags":"0x8","flags":{"raw_bits":40,"kind_bits":0,"is_weak_definition":false,"is_reexport":true,"is_stub_and_resolver":false,"is_thread_local":false,"is_absolute":true,"unknown_bits":32,"flag_names":["Reexport","Absolute"]},"kind":{"type":"reexport","dylib":"/usr/lib/libB.dylib","symbol":"_target"},"reexport_target":{"dylib":"/usr/lib/libB.dylib","symbol":"_target"},"resolver_target":null}"#
    );

    let resolver = ExportedSymbol {
        name: "_resolved".to_string(),
        address: Some(0x3100),
        raw_flags: "0x10".to_string(),
        flags: NO_FLAGS,
        kind: ExportKind::StubAndResolver { stub_address: Some(0x3100), resolver_address: Some(0x3200) },
        reexport_target: None,
        resolver_target: Some(0x3200),
    };
    let value: serde_json::Value = serde_json::from_str(&export_json(&resolver).render(false)).unwrap();
    assert_eq!(value["kind"]["type"], "stub_and_resolver");
    assert_eq!(value["kind"]["resolver_address"], 0x3200);
    assert_eq!(value["resolver_target"], 0x3200);
    assert!(value["flags"]["flag_names"].as_array().unwrap().is_empty());

    let mut dyld = sample();
    dyld.exported_symbols = vec![reexport, resolver];
    let mut options = DyldViewOptions::for_parts(false, false, true, false, false, false, false);
    options.export_kind_filter = Some(ExportKindFilter::Reexport);
    let lines = damsel_core::dyld::dyld_text_lines(&dyld, &options);
    assert!(lines.contains(&"exports (1/2):".to_string()));
    assert!(lines.contains(&format!(
        "  {:>18} raw=0x8 flags=Reexport|Absolute kind=Reexport reexport=/usr/lib/libB.dylib:_target resolver=- _alias",
        "-"
    )));
    assert!(!lines.iter().any(|l| l.starts_with("import_bindings")));
}
