use damsel_core::model::DisassemblyRequest;
use std::path::PathBuf;

use damsel_core::cli::{
    apply_limit, cache_export_matches_flag, collection_metadata, matches_cache_export_kind,
    normalize_limit, CliRunError, ExportFlagFilter, ExportKindFilter,
};
use damsel_core::disasm::{
    filter_instructions, finish_disassembly, infer_bytes_len, normalize_instruction_limit,
    plan_disassembly, request_limit, DisasmFlagArgs, DisasmPlan,
};
use damsel_core::model::{
    Architecture, BinaryFormat, DecodedInstruction, DisassemblyTarget, DyldMetadata, Endianness,
    ObjcMetadata, Section, SliceInfo, Symbol, SymbolKind,
};
use damsel_core::parse::parse_address;
use damsel_core::{BinaryImage, DisassemblyLimit};

fn section(segment: &str, name: &str, address: u64, size: u64, executable: bool) -> Section {
    Section {
        segment_name: segment.to_string(),
        name: name.to_string(),
        address,
        size,
        file_offset: Some(address - 0x1000),
        file_size: size,
        kind: "regular".to_string(),
        executable,
    }
}

fn symbol(name: &str, address: u64) -> Symbol {
    Symbol {
        name: name.to_string(),
        address,
        size: 8,
        kind: SymbolKind::Text,
        defined: true,
        global: true,
        weak: false,
        section: Some("__TEXT:__text".to_string()),
    }
}

fn image() -> BinaryImage {
    BinaryImage::new(
        PathBuf::from("/tmp/sample"),
        BinaryFormat::MachO,
        Architecture::Arm64,
        Endianness::Little,
        Some(0x1000),
        None,
        SliceInfo {
            offset: 0,
            size: 0x40,
            is_universal: false,
            cpu_subtype: 0,
        },
        Vec::new(),
        vec![
            section("__TEXT", "__text", 0x1000, 0x20, true),
            section("__DATA", "__data", 0x1020, 0x20, false),
        ],
        vec![symbol("_main", 0x1008), symbol("_helper", 0x1010)],
        Vec::new(),
        Vec::new(),
        ObjcMetadata::default(),
        DyldMetadata::default(),
        (0u8..0x40).collect(),
    )
}

fn args() -> DisasmFlagArgs {
    DisasmFlagArgs {
        symbol: None,
        addr: None,
        section: None,
        count: None,
        limit: None,
        bytes: None,
        from: None,
        to: None,
    }
}

fn refused(result: Result<DisasmPlan, CliRunError>) -> (String, String) {
    let error = result.expect_err("plan is refused");
    (error.code.to_string(), error.message)
}

#[test]
fn instruction_limit_accepts_equal_flags_and_refuses_conflicts() {
    assert_eq!(normalize_instruction_limit(Some(3), Some(3)).unwrap(), Some(3));
    assert_eq!(normalize_instruction_limit(None, Some(4)).unwrap(), Some(4));
    assert_eq!(normalize_instruction_limit(None, None).unwrap(), None);
    let differ = normalize_instruction_limit(Some(3), Some(4)).unwrap_err();
    assert_eq!(differ.code, "invalid_args");
    assert_eq!(
        differ.message,
        "`--count` and `--limit` cannot differ when both are provided"
    );
    let zero = normalize_instruction_limit(Some(0), None).unwrap_err();
    assert_eq!(zero.message, "instruction limit must be greater than 0");
}

#[test]
fn plan_uses_symbol_address_and_count() {
    let mut flags = args();
    flags.symbol = Some("_main".to_string());
    flags.count = Some(2);
    let plan = plan_disassembly(&image(), flags).expect("plan");
    assert_eq!(plan.decode_target, DisassemblyTarget::Symbol("_main".to_string()));
    assert_eq!(plan.window_start, 0x1008);
    assert_eq!(plan.max_instructions, Some(2));
    assert_eq!(plan.limit, Some(DisassemblyLimit::Instructions(2)));
    assert_eq!(plan.window_end, None);
}

#[test]
fn plan_turns_a_byte_window_into_an_instruction_bound() {
    let mut flags = args();
    flags.addr = Some(0x1004);
    flags.bytes = Some(9);
    let plan = plan_disassembly(&image(), flags).expect("plan");
    assert_eq!(plan.window_start, 0x1004);
    assert_eq!(plan.window_end, Some(0x100d));
    assert_eq!(plan.max_instructions, Some(3));
    assert_eq!(plan.limit, Some(DisassemblyLimit::Bytes(9)));
    assert_eq!(request_limit(&plan), DisassemblyLimit::Bytes(9));
}

#[test]
fn plan_moves_the_target_to_from_for_a_section() {
    let mut flags = args();
    flags.section = Some("__text".to_string());
    flags.from = Some(0x1010);
    flags.to = Some(0x1018);
    let plan = plan_disassembly(&image(), flags).expect("plan");
    assert_eq!(plan.decode_target, DisassemblyTarget::Address(0x1010));
    assert_eq!(plan.window_end, Some(0x1018));
    assert_eq!(plan.max_instructions, Some(2));
}

#[test]
fn plan_refusals_carry_their_codes_and_messages() {
    let mut flags = args();
    flags.addr = Some(0x1000);
    flags.bytes = Some(4);
    flags.count = Some(1);
    assert_eq!(
        refused(plan_disassembly(&image(), flags)),
        (
            "invalid_args".to_string(),
            "`--bytes` cannot be combined with `--count` or `--limit`".to_string()
        )
    );
    let mut flags = args();
    flags.addr = Some(0x1000);
    flags.bytes = Some(4);
    flags.count = Some(1);
    match plan_disassembly(&image(), flags) {
        Err(e) => assert!(e.details.is_none()),
        Ok(_) => panic!("expected a refusal"),
    }

    let mut flags = args();
    flags.addr = Some(0x1000);
    flags.bytes = Some(4);
    flags.to = Some(0x2000);
    assert_eq!(
        refused(plan_disassembly(&image(), flags)).1,
        "`--to` cannot be combined with `--bytes`"
    );

    let mut flags = args();
    flags.addr = Some(0x1000);
    flags.limit = Some(4);
    flags.to = Some(0x2000);
    assert_eq!(
        refused(plan_disassembly(&image(), flags)).1,
        "`--to` cannot be combined with `--count` or `--limit`"
    );

    let mut flags = args();
    flags.addr = Some(0x1000);
    flags.bytes = Some(0);
    assert_eq!(
        refused(plan_disassembly(&image(), flags)).1,
        "`--bytes` must be greater than 0"
    );

    let mut flags = args();
    flags.symbol = Some("_missing".to_string());
    assert_eq!(
        refused(plan_disassembly(&image(), flags)),
        ("symbol_not_found".to_string(), "symbol not found: _missing".to_string())
    );

    let mut flags = args();
    flags.section = Some("__nothere".to_string());
    assert_eq!(
        refused(plan_disassembly(&image(), flags)),
        ("section_not_found".to_string(), "section not found: __nothere".to_string())
    );

    let mut flags = args();
    flags.addr = Some(0x1000);
    flags.from = Some(0x1004);
    assert_eq!(
        refused(plan_disassembly(&image(), flags)).1,
        "`--from` must match `--addr` when both are provided"
    );

    let mut flags = args();
    flags.addr = Some(0x1000);
    flags.to = Some(0x1000);
    assert_eq!(
        refused(plan_disassembly(&image(), flags)).1,
        "`--to` must be greater than the decode start"
    );

    let mut flags = args();
    flags.addr = Some(u64::MAX - 1);
    flags.bytes = Some(8);
    assert_eq!(
        refused(plan_disassembly(&image(), flags)).1,
        "decode window overflows address space"
    );
}

fn instruction(address: u64) -> DecodedInstruction {
    DecodedInstruction {
        address,
        size: 4,
        opcode: 0xd503201f,
        mnemonic: "nop".to_string(),
        operands: Vec::new(),
        references: Vec::new(),
        annotations: Vec::new(),
    }
}

#[test]
fn window_filter_keeps_instructions_inside_the_window_in_order() {
    let decoded = vec![instruction(0x0ffc), instruction(0x1000), instruction(0x1004), instruction(0x1008)];
    let kept = filter_instructions(decoded, 0x1000, Some(0x1008));
    let addresses: Vec<u64> = kept.iter().map(|d| d.address).collect();
    assert_eq!(addresses, vec![0x1000, 0x1004]);
    let open = filter_instructions(vec![instruction(0x0ffc), instruction(0x2000)], 0x1000, None);
    assert_eq!(open.len(), 1);
}

#[test]
fn covered_bytes_follow_the_window_or_the_last_instruction() {
    let list = vec![instruction(0x1000), instruction(0x1004)];
    assert_eq!(infer_bytes_len(0x1000, Some(0x1010), &list), 0x10);
    assert_eq!(infer_bytes_len(0x1000, None, &list), 8);
    assert_eq!(infer_bytes_len(0x1000, None, &Vec::new()), 0);
    assert_eq!(infer_bytes_len(0x2000, Some(0x1000), &list), 0);
}

#[test]
fn finished_listing_counts_and_ends_after_the_last_instruction() {
    let plan = DisasmPlan {
        decode_target: DisassemblyTarget::Address(0x1000),
        max_instructions: None,
        limit: None,
        window_start: 0x1000,
        window_end: None,
    };
    let execution = finish_disassembly(
        &plan,
        "0x1000".to_string(),
        12,
        "EndOfInput".to_string(),
        vec![instruction(0x0ff8), instruction(0x1000), instruction(0x1004)],
    );
    assert_eq!(execution.instruction_count, 2);
    assert_eq!(execution.end_address, 0x1008);
    assert_eq!(execution.bytes_len, 8);
    assert_eq!(execution.decoded_bytes, 12);
    assert_eq!(request_limit(&plan), DisassemblyLimit::Unlimited);
}

#[test]
fn addresses_parse_as_hex_or_decimal_with_integer_parser_messages() {
    assert_eq!(parse_address("0x10"), Ok(16));
    assert_eq!(parse_address("  42\t"), Ok(42));
    assert_eq!(parse_address("0xFF"), Ok(255));
    assert_eq!(parse_address("+7"), Ok(7));
    assert_eq!(
        parse_address(""),
        Err("cannot parse integer from empty string".to_string())
    );
    assert_eq!(
        parse_address("0x"),
        Err("cannot parse integer from empty string".to_string())
    );
    assert_eq!(
        parse_address("0xzz"),
        Err("invalid digit found in string".to_string())
    );
    assert_eq!(parse_address("-1"), Err("invalid digit found in string".to_string()));
    assert_eq!(
        parse_address("18446744073709551616"),
        Err("number too large to fit in target type".to_string())
    );
    assert_eq!(parse_address("18446744073709551615"), Ok(u64::MAX));
    for text in ["0", "12", "0x0", "0xdeadbeef", "99999", "+1", "- 1", "1 2", "0x1g"] {
        let expected = match text.trim().strip_prefix("0x") {
            Some(rest) => u64::from_str_radix(rest, 16).map_err(|e| e.to_string()),
            None => text.trim().parse::<u64>().map_err(|e| e.to_string()),
        };
        assert_eq!(parse_address(text), expected, "{text}");
    }
}

#[test]
fn shared_limits_and_export_filters() {
    let zero = normalize_limit(Some(0), "--limit").unwrap_err();
    assert_eq!(zero.message, "--limit must be greater than 0");
    assert_eq!(normalize_limit(Some(5), "--limit").unwrap(), Some(5));
    let metadata = collection_metadata(10, Some(3));
    assert_eq!((metadata.total, metadata.returned, metadata.truncated), (10, 3, true));
    let all = collection_metadata(2, Some(3));
    assert_eq!((all.returned, all.truncated), (2, false));
    assert_eq!(apply_limit(vec![1, 2, 3], 2), vec![1, 2]);
    assert_eq!(apply_limit(vec![1, 2, 3], 5), vec![1, 2, 3]);
    assert!(matches_cache_export_kind("stub-and-resolver", ExportKindFilter::StubAndResolver));
    assert!(!matches_cache_export_kind("regular", ExportKindFilter::Absolute));
    assert!(cache_export_matches_flag("weak=true,reexport=false", ExportFlagFilter::WeakDefinition));
    assert!(!cache_export_matches_flag("weak=true,reexport=false", ExportFlagFilter::Reexport));
    let error = CliRunError::command("decode_error", "bad bytes");
    assert_eq!(error.to_text(), "decode_error: bad bytes");
    let mut detailed = CliRunError::invalid_args("oops");
    detailed.details = Some("more".to_string());
    assert_eq!(detailed.to_text(), "invalid_args: oops (more)");
    assert_eq!(detailed.to_error_response().details, Some("more".to_string()));
}

#[test]
fn printed_addresses_read_back() {
    for n in [0u64, 1, 9, 10, 15, 16, 255, 0x1000_0000, 0xdead_beef_cafe, u64::MAX] {
        assert_eq!(parse_address(&format!("{n:#x}")), Ok(n));
        assert_eq!(parse_address(&n.to_string()), Ok(n));
        assert_eq!(parse_address(&format!(" \t{n}\n ")), Ok(n));
        assert_eq!(parse_address(&format!("  {n:#x}\t")), Ok(n));
    }
}

#[test]
fn disassembly_v2_range_helpers_work() {
    let legacy = DisassemblyRequest::legacy(DisassemblyTarget::Address(0x1000), Some(8));
    let ranged = legacy.to_v2().with_range(Some(0x1000..0x1010));
    assert!(ranged.has_valid_range());
    assert!(ranged.range_contains(0x1008));
    assert!(!ranged.range_contains(0x2000));

    let invalid = ranged.with_range(Some(0x1010..0x1010));
    assert!(!invalid.has_valid_range());
}
