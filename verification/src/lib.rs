//! Typed model, AArch64 decoding and host-compatibility policy for a static
//! Mach-O analysis tool.

pub mod cli;
pub mod compat;
pub mod decode;
pub mod disasm;
pub mod doctor;
pub mod dyld;
pub mod image;
pub mod info;
pub mod json;
pub mod json_read;
pub mod listing;
pub mod model;
pub mod objc;
pub mod parse;
pub mod plain;
pub mod probe;
pub mod report;
pub mod sort;
pub mod text;
pub mod web;

pub use compat::{
    CapabilityStatus, CompatibilityCapability, CompatibilityCapabilityRole,
    CompatibilityHostClass, CompatibilityHostRule, CompatibilityIssue, CompatibilityPolicy,
    CompatibilityToolRequirement, HostArchitecture, HostPlatform,
};
pub use decode::{
    decode_aarch64, decode_aarch64_v2, decode_aarch64_with_limit, DecodeError, DisassemblyOptions,
};
pub use disasm::DisassemblyLimit;
pub use image::BinaryImage;
pub use model::{
    Annotation, Architecture, BinaryFormat, DecodedInstruction, DisassemblyRequest,
    DisassemblyResult, DisassemblyTarget, DyldMetadata, Endianness, ExportFlags, ExportKind,
    ExportedSymbol, Import, ImportBindingKind, ImportBindingRecord, ImportBindingSource,
    ObjcMetadata, Operand, Reference, Relocation, Section, Segment, SliceDescriptor, SliceInfo,
    StubEntry, StubHelperEntry, StubKind, Symbol, SymbolKind, TableSlotEncoding,
};
