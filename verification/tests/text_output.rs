use damsel_core::cli::ErrorResponse;
use damsel_core::compat::{HostArchitecture, HostPlatform};
use damsel_core::disasm::DisassemblyExecution;
use damsel_core::doctor::{
    evaluate_doctor_report, DoctorContext, DoctorTools, HashToolStatus, ToolStatus,
};
use damsel_core::model::{
    Annotation, DecodedInstruction, Import, Operand, Reference, Relocation, Section, Symbol,
    SymbolKind,
};
use damsel_core::plain::{
    disassembly_text_lines, doctor_text_lines, error_line, import_line, instruction_line,
    relocation_line, section_line, symbol_line,
};
use damsel_core::report::DisassemblyRenderOptions;

#[test]
fn listing_lines_are_aligned() {
    let section = Section {
        segment_name: "__TEXT".to_string(),
        name: "__text".to_string(),
        address: 0x1000,
        size: 0x20,
        file_offset: Some(0),
        file_size: 0x20,
        kind: "regular".to_string(),
        executable: true,
    };
    assert_eq!(
        section_line(&section),
        format!("{:>#18x} {:>#8x} {:<8} {:<18} {}", 0x1000, 0x20, "exec", "__TEXT", "__text")
    );
    let symbol = Symbol {
        name: "_main".to_string(),
        address: 0x1008,
        size: 4,
        kind: SymbolKind::Text,
        defined: false,
        global: false,
        weak: false,
        section: Some("__TEXT:__text".to_string()),
    };
    assert_eq!(
        symbol_line(&symbol),
        format!(
            "{:>#18x} {:>#8x} {:<8} {:<6} {:<5} {}{}",
            0x1008, 4, "text", "undef", "loc", "_main", " [__TEXT:__text]"
        )
    );
    let import = Import {
        name: "_puts".to_string(),
        dylib: "/usr/lib/libSystem.B.dylib".to_string(),
        address: None,
        offset: None,
        addend: 0,
        is_lazy: true,
        is_weak: false,
    };
    assert_eq!(
        import_line(&import),
        format!(
            "{:>#18} {:<5} {:<5} {:<30} {}",
            "-", "lazy", "-", "/usr/lib/libSystem.B.dylib", "_puts"
        )
    );
    let relocation = Relocation {
        section: "__text".to_string(),
        address: 0x1004,
        size: 4,
        kind: "branch26".to_string(),
        encoding: "arm64".to_string(),
        target: "_puts".to_string(),
        addend: -8,
    };
    assert_eq!(
        relocation_line(&relocation),
        format!(
            "{:>#18x} {:<24} {:<3} {:<18} {:<18} {} addend={}",
            0x1004, "__text", 4, "branch26", "arm64", "_puts", -8
        )
    );
}

#[test]
fn error_lines_show_details_when_present() {
    let mut error = ErrorResponse {
        code: "load_error",
        message: "cannot read".to_string(),
        details: None,
    };
    assert_eq!(error_line(&error), "error [load_error]: cannot read");
    error.details = Some("eof".to_string());
    assert_eq!(error_line(&error), "error [load_error]: cannot read (eof)");
}

#[test]
fn doctor_text_lists_capabilities_tools_and_issues() {
    let missing = ToolStatus {
        detected: false,
        usable: false,
        path: None,
    };
    let context = DoctorContext {
        host_platform: HostPlatform::Windows,
        host_architecture: HostArchitecture::X86_64,
        target_triple: Some("x86_64-pc-windows-msvc".to_string()),
        tools: DoctorTools {
            xcrun: missing.clone(),
            clang: missing.clone(),
            strip: missing.clone(),
            python3: missing.clone(),
            nm: missing.clone(),
            sdk_path_probe: missing.clone(),
            hash_tools: HashToolStatus {
                sha256sum: missing.clone(),
                shasum: missing.clone(),
                openssl: missing.clone(),
            },
            selected_hash_tool: None,
        },
    };
    let report = evaluate_doctor_report(&context);
    let lines = doctor_text_lines(&report);
    assert_eq!(lines[0], "host_os: windows");
    assert_eq!(lines[1], "host_architecture: x86_64");
    assert_eq!(lines[2], "target_triple: x86_64-pc-windows-msvc");
    assert_eq!(lines[4], "capabilities:");
    assert!(lines.contains(&"  nm: detected=no usable=no path=-".to_string()));
    assert!(lines.contains(&"  selected_hash_tool: none".to_string()));
    assert!(lines.contains(&"issues:".to_string()));
    assert!(lines
        .iter()
        .any(|line| line.starts_with("  - host_not_ci_verified: ")));
}

#[test]
fn disassembly_lines_carry_opcode_and_comments() {
    let instruction = DecodedInstruction {
        address: 0x1000,
        size: 4,
        opcode: 0x94000000,
        mnemonic: "bl".to_string(),
        operands: vec![Operand::Label(0x1000)],
        references: vec![Reference::Call { target: 0x1000 }],
        annotations: vec![Annotation::Note("range start".to_string())],
    };
    let options = DisassemblyRenderOptions {
        include_annotations: true,
        include_references: true,
        include_values: false,
    };
    assert_eq!(
        instruction_line(&instruction, options),
        format!(
            "{:>#18x}  {:08x}  {} ; {}",
            0x1000, 0x94000000u32, "bl 0x1000", "range start | ref call 0x1000"
        )
    );
    let quiet = DisassemblyRenderOptions {
        include_annotations: false,
        include_references: false,
        include_values: false,
    };
    let mut small = instruction.clone();
    small.opcode = 0x1f;
    assert_eq!(
        instruction_line(&small, quiet),
        format!("{:>#18x}  {:08x}  {}", 0x1000, 0x1fu32, "bl 0x1000")
    );
    let execution = DisassemblyExecution {
        target: "_main".to_string(),
        start_address: 0x1000,
        bytes_len: 4,
        decoded_bytes: 4,
        end_address: 0x1004,
        instruction_count: 1,
        stop_reason: "EndOfInput".to_string(),
        window_end: None,
        instructions: vec![instruction],
    };
    let lines = disassembly_text_lines(&execution, quiet);
    assert_eq!(
        lines[0],
        "target: _main start=0x1000 end=0x1004 bytes=0x4 decoded=0x4 instructions=1 stop=EndOfInput"
    );
    assert_eq!(lines.len(), 2);
}
