use damsel_core::report::{annotation_json, reference_json, reference_to_text};
use damsel_core::{
    Annotation, ImportBindingKind, ImportBindingRecord, ImportBindingSource, Reference, Relocation,
    StubEntry, StubKind, TableSlotEncoding,
};

#[test]
fn constructs_indirect_control_flow_reference_variants() {
    let call = Reference::IndirectCall {
        via: "x16".to_string(),
    };
    let branch = Reference::IndirectBranch {
        via: "x17".to_string(),
    };

    assert!(matches!(call, Reference::IndirectCall { ref via } if via == "x16"));
    assert!(matches!(branch, Reference::IndirectBranch { ref via } if via == "x17"));
}

#[test]
fn reference_from_binding_preserves_fields() {
    let binding = ImportBindingRecord {
        dylib: "/usr/lib/libSystem.B.dylib".to_string(),
        name: "_puts".to_string(),
        address: Some(0x1010),
        offset: Some(0x24),
        addend: -4,
        ordinal: Some(1),
        symbol_index: Some(3),
        binding_kind: ImportBindingKind::ChainedFixup,
        source: ImportBindingSource::ChainedFixup,
        is_weak: true,
    };

    let reference = Reference::from_binding(&binding);
    assert!(matches!(
        reference,
        Reference::ImportBinding {
            ref dylib,
            ref name,
            address: Some(0x1010),
            offset: Some(0x24),
            addend: -4,
            binding_kind: ImportBindingKind::ChainedFixup,
            source: ImportBindingSource::ChainedFixup,
            is_weak: true,
        } if dylib == "/usr/lib/libSystem.B.dylib" && name == "_puts"
    ));
}

#[test]
fn reference_from_stub_preserves_fields() {
    let stub = StubEntry {
        stub_address: 0x2000,
        section: Some("__TEXT:__stubs".to_string()),
        pointer_section: Some("__DATA_CONST:__got".to_string()),
        pointer_address: Some(0x2010),
        helper_address: None,
        binding_ordinal: Some(1),
        stub_kind: StubKind::NonLazy,
        dylib: Some("/usr/lib/libSystem.B.dylib".to_string()),
        name: Some("_puts".to_string()),
        source: ImportBindingSource::Stub,
    };

    let reference = Reference::from_stub(&stub);
    assert!(matches!(
        reference,
        Reference::Stub {
            stub_address: 0x2000,
            section: Some(ref section),
            pointer_address: Some(0x2010),
            ref dylib,
            ref name,
            source: ImportBindingSource::Stub,
            ..
        } if section == "__TEXT:__stubs"
            && dylib.as_deref() == Some("/usr/lib/libSystem.B.dylib")
            && name.as_deref() == Some("_puts")
    ));
}

#[test]
fn reference_from_stub_helper_preserves_fields() {
    let helper = damsel_core::StubHelperEntry {
        helper_address: 0x2100,
        target_stub: Some(0x2000),
        stub_section: Some("__TEXT:__stubs".to_string()),
        pointer_address: Some(0x2010),
        pointer_section: Some("__DATA_CONST:__la_symbol_ptr".to_string()),
        binding_ordinal: Some(1),
        dylib: Some("/usr/lib/libSystem.B.dylib".to_string()),
        name: Some("_puts".to_string()),
    };

    let reference = Reference::from_stub_helper(&helper);
    assert!(matches!(
        reference,
        Reference::StubHelper {
            helper_address: 0x2100,
            target_stub: Some(0x2000),
            pointer_address: Some(0x2010),
            ref dylib,
            ref name,
            ..
        } if dylib.as_deref() == Some("/usr/lib/libSystem.B.dylib")
            && name.as_deref() == Some("_puts")
    ));
}

#[test]
fn constructs_annotation_evidence_from_helpers() {
    let binding = ImportBindingRecord {
        dylib: "/usr/lib/libSystem.B.dylib".to_string(),
        name: "_puts".to_string(),
        address: Some(0x1010),
        offset: Some(0x24),
        addend: 7,
        ordinal: Some(1),
        symbol_index: Some(3),
        binding_kind: ImportBindingKind::NonLazy,
        source: ImportBindingSource::IndirectSymbol,
        is_weak: false,
    };
    let relocation = Relocation {
        section: "__TEXT:__text".to_string(),
        address: 0x3004,
        size: 8,
        kind: "Absolute".to_string(),
        encoding: "Generic".to_string(),
        target: "absolute".to_string(),
        addend: 1,
    };

    let binding_evidence = Annotation::import_binding_evidence(&binding);
    let relocation_evidence = Annotation::relocation_evidence(&relocation);

    assert!(matches!(
        binding_evidence,
        Annotation::ImportBindingEvidence {
            ref dylib,
            ref name,
            address: Some(0x1010),
            offset: Some(0x24),
            addend: 7,
            binding_kind: ImportBindingKind::NonLazy,
            source: ImportBindingSource::IndirectSymbol,
        } if dylib == "/usr/lib/libSystem.B.dylib" && name == "_puts"
    ));
    assert!(matches!(
        relocation_evidence,
        Annotation::RelocationEvidence {
            address: 0x3004,
            ref kind,
            ref encoding,
            ref target,
            addend: 1,
        } if kind == "Absolute" && encoding == "Generic" && target == "absolute"
    ));
}

#[test]
fn display_for_indirect_control_flow_annotation() {
    let annotation = Annotation::IndirectControlFlow {
        kind: "call".to_string(),
        via: "x16".to_string(),
    };
    assert_eq!(annotation.to_text(), "indirect call via x16");
}

#[test]
fn display_for_import_binding_annotation_includes_expected_fields() {
    let annotation = Annotation::ImportBinding {
        dylib: "/usr/lib/libSystem.B.dylib".to_string(),
        name: "_puts".to_string(),
        address: Some(0x1010),
        offset: Some(0x24),
        addend: -2,
        binding_kind: ImportBindingKind::ChainedFixup,
        source: ImportBindingSource::ChainedFixup,
    };
    assert_eq!(
        annotation.to_text(),
        "binding /usr/lib/libSystem.B.dylib:_puts addr=0x1010 off=0x24 addend=-2 kind=ChainedFixup source=ChainedFixup"
    );
}

#[test]
fn display_for_import_binding_evidence_annotation_uses_evidence_prefix() {
    let annotation = Annotation::ImportBindingEvidence {
        dylib: "/usr/lib/libSystem.B.dylib".to_string(),
        name: "_puts".to_string(),
        address: None,
        offset: None,
        addend: 0,
        binding_kind: ImportBindingKind::NonLazy,
        source: ImportBindingSource::Other,
    };
    assert_eq!(
        annotation.to_text(),
        "binding-evidence /usr/lib/libSystem.B.dylib:_puts addr=- off=- addend=0 kind=NonLazy source=Other"
    );
}

#[test]
fn display_for_relocation_evidence_annotation_uses_reloc_evidence_prefix() {
    let annotation = Annotation::RelocationEvidence {
        address: 0x3004,
        kind: "Absolute".to_string(),
        encoding: "Generic".to_string(),
        target: "absolute".to_string(),
        addend: 11,
    };
    assert_eq!(
        annotation.to_text(),
        "reloc-evidence kind=Absolute encoding=Generic target=absolute addend=11 addr=0x3004"
    );
}

#[test]
fn evidence_variants_are_constructible() {
    let binding = ImportBindingRecord {
        dylib: "/usr/lib/libSystem.B.dylib".to_string(),
        name: "_puts".to_string(),
        address: Some(0x2000),
        offset: Some(0x10),
        addend: 0,
        ordinal: Some(1),
        symbol_index: Some(2),
        binding_kind: ImportBindingKind::ChainedFixup,
        source: ImportBindingSource::ChainedFixup,
        is_weak: false,
    };
    let stub = damsel_core::StubEntry {
        stub_address: 0x3000,
        section: Some("__TEXT:__stubs".to_string()),
        pointer_section: Some("__DATA_CONST:__got".to_string()),
        pointer_address: Some(0x3010),
        helper_address: None,
        binding_ordinal: Some(1),
        stub_kind: StubKind::NonLazy,
        dylib: Some(binding.dylib.clone()),
        name: Some(binding.name.clone()),
        source: ImportBindingSource::Stub,
    };
    let relocation = Relocation {
        section: "__TEXT:__text".to_string(),
        address: 0x1004,
        size: 8,
        kind: "Absolute".to_string(),
        encoding: "Generic".to_string(),
        target: "absolute".to_string(),
        addend: 0,
    };

    let reference_binding = Reference::from_binding(&binding);
    let reference_stub = Reference::from_stub(&stub);
    let annotation_binding = Annotation::import_binding_evidence(&binding);
    let annotation_reloc = Annotation::relocation_evidence(&relocation);

    assert!(matches!(reference_binding, Reference::ImportBinding { .. }));
    assert!(matches!(reference_stub, Reference::Stub { .. }));
    assert!(matches!(
        annotation_binding,
        Annotation::ImportBindingEvidence { .. }
    ));
    assert!(matches!(
        annotation_reloc,
        Annotation::RelocationEvidence { .. }
    ));
}

#[test]
fn rendered_references_and_notes_keep_their_fields() {
    let binding = Reference::ImportBinding {
        dylib: "/usr/lib/libSystem.B.dylib".to_string(),
        name: "_puts".to_string(),
        address: None,
        offset: Some(0x24),
        addend: -4,
        binding_kind: ImportBindingKind::ChainedFixup,
        source: ImportBindingSource::ChainedFixup,
        is_weak: true,
    };
    assert_eq!(
        reference_json(&binding).render(false),
        r#"{"type":"import_binding","name":"_puts","dylib":"/usr/lib/libSystem.B.dylib","address":null,"offset":36,"addend":-4,"binding_kind":"ChainedFixup","source":"ChainedFixup","is_weak":true}"#
    );
    assert_eq!(
        reference_to_text(&binding),
        "import-binding /usr/lib/libSystem.B.dylib:_puts addr=- off=0x24 addend=-4 kind=ChainedFixup source=ChainedFixup weak=true"
    );
    let call = Reference::IndirectCall { via: "x16".to_string() };
    assert_eq!(reference_json(&call).render(false), r#"{"type":"indirect_call","via":"x16"}"#);
    assert_eq!(reference_to_text(&call), "indirect-call via x16");
    let helper = Reference::StubHelper {
        helper_address: 0x2100,
        target_stub: Some(0x2000),
        stub_section: None,
        pointer_address: Some(0x2010),
        pointer_section: Some("__DATA:__la_symbol_ptr".to_string()),
        binding_ordinal: Some(3),
        dylib: None,
        name: Some("_puts".to_string()),
    };
    assert_eq!(
        reference_json(&helper).render(false),
        r#"{"type":"stub_helper","helper_address":8448,"target_stub":8192,"stub_section":null,"pointer_address":8208,"pointer_section":"__DATA:__la_symbol_ptr","binding_ordinal":3,"dylib":null,"name":"_puts"}"#
    );
    assert_eq!(
        reference_to_text(&helper),
        "stub-helper 0x2100 stub=0x2000 stub_section=- ptr=0x2010 ptr_section=__DATA:__la_symbol_ptr ordinal=3 -:_puts"
    );
    let slot = Annotation::TableSlotResolved {
        table_base: 0x8000,
        slot_address: 0x8008,
        index_register: "x9".to_string(),
        element_size: 4,
        encoding: TableSlotEncoding::Relative32,
        target: 0x1234,
    };
    assert_eq!(
        annotation_json(&slot).render(false),
        r#"{"type":"table_slot_resolved","table_base":32768,"slot_address":32776,"index_register":"x9","element_size":4,"encoding":"relative32","target":4660}"#
    );
    let flow = Annotation::IndirectControlFlow { kind: "branch".to_string(), via: "x17".to_string() };
    assert_eq!(
        annotation_json(&flow).render(false),
        r#"{"type":"indirect_control_flow","kind":"branch","via":"x17"}"#
    );
}
