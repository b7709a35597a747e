use damsel_core::decode::{
    decode_aarch64, decode_listing, derive_references, map_operand, opcode_from_bytes, DecodeError,
    RawDetail, RawInstruction, RawOperand, RawRegister,
};
use damsel_core::model::{Annotation, Operand, Reference};

fn named(id: u16, name: &str) -> RawRegister {
    RawRegister {
        id,
        name: Some(name.to_string()),
    }
}

fn raw(address: u64, mnemonic: Option<&str>, operands: Vec<RawOperand>) -> RawInstruction {
    RawInstruction {
        address,
        bytes: vec![0x00, 0x04, 0x00, 0x91],
        mnemonic: mnemonic.map(str::to_string),
        detail: Ok(RawDetail {
            writeback: false,
            operands,
        }),
    }
}

fn lower(text: &str) -> Vec<char> {
    text.to_ascii_lowercase().chars().collect()
}

#[test]
fn operands_follow_the_mnemonic() {
    assert_eq!(
        map_operand(&RawOperand::Immediate(0x2000), &lower("b"), false),
        Operand::Label(0x2000)
    );
    assert_eq!(
        map_operand(&RawOperand::Immediate(0x2000), &lower("adrp"), false),
        Operand::Label(0x2000)
    );
    assert_eq!(
        map_operand(&RawOperand::Immediate(-4), &lower("cbz"), false),
        Operand::ImmediateSigned(-4)
    );
    assert_eq!(
        map_operand(&RawOperand::Immediate(1), &lower("add"), false),
        Operand::ImmediateUnsigned(1)
    );
    assert_eq!(
        map_operand(&RawOperand::Cimm(3), &lower("sys"), false),
        Operand::ImmediateSigned(3)
    );
    assert_eq!(
        map_operand(&RawOperand::Float("1.5".to_string()), &lower("fmov"), false),
        Operand::Other("#1.5".to_string())
    );
    assert_eq!(
        map_operand(&RawOperand::Invalid, &lower("udf"), false),
        Operand::Other("<invalid>".to_string())
    );
    assert_eq!(
        map_operand(
            &RawOperand::Register(RawRegister { id: 5, name: None }),
            &lower("mov"),
            false
        ),
        Operand::Register("RegId(5)".to_string())
    );
    assert_eq!(
        map_operand(
            &RawOperand::Memory {
                base: named(1, "sp"),
                index: None,
                displacement: -16,
            },
            &lower("str"),
            true
        ),
        Operand::Memory {
            base: "sp".to_string(),
            index: None,
            displacement: -16,
            writeback: Some("!".to_string()),
        }
    );
}

#[test]
fn references_come_from_non_negative_immediates() {
    let operands = vec![
        RawOperand::Register(named(1, "x0")),
        RawOperand::Immediate(-8),
        RawOperand::Immediate(0x40),
    ];
    assert_eq!(
        derive_references(&lower("BL"), &operands),
        vec![Reference::Call { target: 0x40 }]
    );
    assert_eq!(
        derive_references(&lower("tbnz"), &operands),
        vec![Reference::Branch { target: 0x40 }]
    );
    assert_eq!(
        derive_references(&lower("adr"), &operands),
        vec![Reference::Page { target: 0x40 }]
    );
    assert_eq!(
        derive_references(&lower("ldr"), &operands),
        vec![Reference::Data { target: 0x40 }]
    );
}

#[test]
fn opcodes_are_little_endian_and_zero_padded() {
    assert_eq!(opcode_from_bytes(&vec![0x1f, 0x20, 0x03, 0xd5]), 0xd503201f);
    assert_eq!(opcode_from_bytes(&vec![0x01, 0x02]), 0x0201);
    assert_eq!(opcode_from_bytes(&Vec::new()), 0);
    assert_eq!(opcode_from_bytes(&vec![1, 2, 3, 4, 5]), 0x04030201);
}

#[test]
fn listings_decode_up_to_the_limit_and_stop_at_a_failed_detail() {
    let listing = vec![
        raw(0x1000, None, Vec::new()),
        RawInstruction {
            address: 0x1004,
            bytes: vec![0; 4],
            mnemonic: Some("udf".to_string()),
            detail: Err("boom".to_string()),
        },
    ];
    let first = decode_listing(&listing, 0x1000, Some(1)).expect("first decodes");
    assert_eq!(first.len(), 1);
    assert_eq!(first[0].mnemonic, "unknown");
    assert_eq!(first[0].opcode, 0x91000400);
    assert_eq!(
        first[0].annotations,
        vec![Annotation::Note("range start".to_string())]
    );
    assert_eq!(
        decode_listing(&listing, 0x1000, None),
        Err(DecodeError::InvalidInstruction("boom".to_string()))
    );
    let elsewhere = decode_listing(&listing, 0x2000, Some(1)).expect("decodes");
    assert!(elsewhere[0].annotations.is_empty());
    let long = RawInstruction {
        address: 0,
        bytes: vec![0; 300],
        mnemonic: Some("nop".to_string()),
        detail: Ok(RawDetail {
            writeback: false,
            operands: Vec::new(),
        }),
    };
    assert_eq!(decode_listing(&vec![long], 0, None).unwrap()[0].size, 4);
}

#[test]
fn decode_errors_have_messages() {
    assert_eq!(
        DecodeError::InvalidInstruction("x".to_string()).to_text(),
        "invalid instruction stream: x"
    );
    assert_eq!(
        DecodeError::UnsupportedArchitecture.to_text(),
        "unsupported architecture for decoder"
    );
}

#[test]
fn capstone_reports_registers_memory_and_immediates() {
    let add = decode_aarch64(&[0x00, 0x04, 0x00, 0x91], 0x1000, None).expect("add decodes");
    assert_eq!(add[0].mnemonic, "add");
    assert_eq!(
        add[0].operands,
        vec![
            Operand::Register("x0".to_string()),
            Operand::Register("x0".to_string()),
            Operand::ImmediateUnsigned(1),
        ]
    );
    assert_eq!(add[0].references, vec![Reference::Data { target: 1 }]);
    assert_eq!(add[0].render(), "add x0, x0, #0x1");
    assert_eq!(add[0].size, 4);
    assert_eq!(add[0].opcode, 0x91000400);

    let load = decode_aarch64(&[0x01, 0x04, 0x40, 0xf9], 0x2000, None).expect("ldr decodes");
    assert_eq!(load[0].mnemonic, "ldr");
    assert_eq!(
        load[0].operands,
        vec![
            Operand::Register("x1".to_string()),
            Operand::Memory {
                base: "x0".to_string(),
                index: None,
                displacement: 8,
                writeback: None,
            },
        ]
    );

    let store = decode_aarch64(&[0xe1, 0x0f, 0x1f, 0xf8], 0x3000, None).expect("str decodes");
    assert!(store[0].operands.iter().any(|op| matches!(
        op,
        Operand::Memory { writeback: Some(mark), displacement: -16, .. } if mark == "!"
    )));

    let mrs = decode_aarch64(&[0x40, 0xd0, 0x3b, 0xd5], 0x4000, None).expect("mrs decodes");
    assert_eq!(mrs[0].mnemonic, "mrs");
    assert_eq!(mrs[0].operands.len(), 2);
    assert_eq!(mrs[0].operands[0], Operand::Register("x0".to_string()));
    assert!(matches!(&mrs[0].operands[1], Operand::Other(text) if !text.is_empty()));

    let calls = decode_aarch64(&[0x02, 0x00, 0x00, 0x94], 0x5000, None).expect("bl decodes");
    assert_eq!(calls[0].operands, vec![Operand::Label(0x5008)]);
    assert_eq!(calls[0].references, vec![Reference::Call { target: 0x5008 }]);
}
