//! The typed model of a loaded Mach-O image and of decoded instructions,
//! with the textual renderings the listings print.

use vstd::prelude::*;
use vstd::slice::slice_subrange;
use vstd::string::StringExecFns;

use crate::objc::{ObjcCategoryRecord, ObjcClassRecord, ObjcPointerRef, ObjcProtocolRecord};
use crate::text::{
    decimal, hex, push_char, push_digits, push_hex, signed_decimal, signed_decimal_string,
    twos_complement, twos_complement_exec,
};

verus! {

/// The path type of std, carried through unchanged.
#[verifier::external_type_specification]
#[verifier::external_body]
pub struct ExPathBuf(std::path::PathBuf);

/// The container format of a loaded binary.
#[derive(Debug, Clone, Copy, PartialEq, Eq, Structural)]
pub enum BinaryFormat {
    MachO,
}

/// The CPU architecture of a loaded slice.
#[derive(Debug, Clone, Copy, PartialEq, Eq, Structural)]
pub enum Architecture {
    Arm64,
    Arm64e,
}

/// The name of an architecture.
pub open spec fn architecture_name(a: Architecture) -> Seq<char> {
    match a {
        Architecture::Arm64 => "arm64"@,
        Architecture::Arm64e => "arm64e"@,
    }
}

impl Architecture {
    /// The architecture's name.
    pub fn as_str(self) -> (r: &'static str)
        ensures
            r@ == architecture_name(self),
    {
        match self {
            Architecture::Arm64 => "arm64",
            Architecture::Arm64e => "arm64e",
        }
    }
}

/// Byte order of a loaded slice.
#[derive(Debug, Clone, Copy, PartialEq, Eq, Structural)]
pub enum Endianness {
    Little,
    Big,
}

/// Where the analysed slice lies in the file.
#[derive(Debug, Clone, PartialEq, Eq)]
pub struct SliceInfo {
    pub offset: u64,
    pub size: u64,
    pub is_universal: bool,
    pub cpu_subtype: u32,
}

/// One slice the file holds: where it lies, its architecture, and whether
/// it is the one analysed.
#[derive(Debug, Clone, Copy, PartialEq, Eq, Structural)]
pub struct SliceDescriptor {
    pub offset: u64,
    pub size: u64,
    pub is_universal: bool,
    pub cpu_subtype: u32,
    pub architecture: Architecture,
    pub selected: bool,
}

impl SliceDescriptor {
    /// Whether the slice's bytes hold the file offset.
    pub fn contains_file_offset(&self, offset: u64) -> (r: bool)
        ensures
            r == (self.offset <= offset && offset < self.offset + self.size),
    {
        self.offset <= offset && offset - self.offset < self.size
    }
}

/// A segment of a loaded image.
#[derive(Debug, Clone, PartialEq, Eq)]
pub struct Segment {
    pub name: String,
    pub address: u64,
    pub size: u64,
    pub file_offset: u64,
    pub file_size: u64,
    pub readable: bool,
    pub writable: bool,
    pub executable: bool,
}

/// A section of a loaded image.
#[derive(Debug, Clone, PartialEq, Eq)]
pub struct Section {
    pub segment_name: String,
    pub name: String,
    pub address: u64,
    pub size: u64,
    pub file_offset: Option<u64>,
    pub file_size: u64,
    pub kind: String,
    pub executable: bool,
}

/// `segment:name`, the qualified name of a section.
pub open spec fn section_full_name(segment_name: Seq<char>, name: Seq<char>) -> Seq<char> {
    segment_name + seq![':'] + name
}

impl Section {
    /// The section's qualified name, `segment:name`.
    pub fn full_name(&self) -> (r: String)
        ensures
            r@ == section_full_name(self.segment_name@, self.name@),
    {
        let mut out = self.segment_name.clone();
        push_char(&mut out, ':');
        out.append(self.name.as_str());
        out
    }
}

/// What a symbol names.
#[derive(Debug, Clone, PartialEq, Eq)]
pub enum SymbolKind {
    Text,
    Data,
    Section,
    File,
    Label,
    Unknown(String),
}

/// The name of a symbol kind.
pub open spec fn symbol_kind_text(k: SymbolKind) -> Seq<char> {
    match k {
        SymbolKind::Text => "text"@,
        SymbolKind::Data => "data"@,
        SymbolKind::Section => "section"@,
        SymbolKind::File => "file"@,
        SymbolKind::Label => "label"@,
        SymbolKind::Unknown(v) => v@,
    }
}

impl SymbolKind {
    /// The kind's name.
    pub fn to_text(&self) -> (r: String)
        ensures
            r@ == symbol_kind_text(*self),
    {
        match self {
            SymbolKind::Text => String::from_str("text"),
            SymbolKind::Data => String::from_str("data"),
            SymbolKind::Section => String::from_str("section"),
            SymbolKind::File => String::from_str("file"),
            SymbolKind::Label => String::from_str("label"),
            SymbolKind::Unknown(v) => v.clone(),
        }
    }
}

/// A symbol of a loaded image.
#[derive(Debug, Clone, PartialEq, Eq)]
pub struct Symbol {
    pub name: String,
    pub address: u64,
    pub size: u64,
    pub kind: SymbolKind,
    pub defined: bool,
    pub global: bool,
    pub weak: bool,
    pub section: Option<String>,
}

/// A symbol imported from a dynamic library.
#[derive(Debug, Clone, PartialEq, Eq)]
pub struct Import {
    pub name: String,
    pub dylib: String,
    pub address: Option<u64>,
    pub offset: Option<u64>,
    pub addend: i64,
    pub is_lazy: bool,
    pub is_weak: bool,
}

/// A relocation entry.
#[derive(Debug, Clone, PartialEq, Eq)]
pub struct Relocation {
    pub section: String,
    pub address: u64,
    pub size: u8,
    pub kind: String,
    pub encoding: String,
    pub target: String,
    pub addend: i64,
}

/// What an export is, as its kind bits say, with what each kind points to.
#[derive(Debug, Clone, PartialEq, Eq)]
pub enum ExportKind {
    Regular,
    Reexport { dylib: String, symbol: Option<String> },
    Resolver { resolver_address: Option<u64> },
    StubAndResolver { stub_address: Option<u64>, resolver_address: Option<u64> },
    WeakDefinition,
    Absolute,
    ThreadLocal,
    Unknown(String),
}

/// The flag word of an export, split into its kind bits, the flags it
/// sets and the bits no flag names.
#[derive(Debug, Clone, Copy, PartialEq, Eq, Structural)]
pub struct ExportFlags {
    pub raw_bits: u64,
    pub kind_bits: u64,
    pub is_weak_definition: bool,
    pub is_reexport: bool,
    pub is_stub_and_resolver: bool,
    pub is_thread_local: bool,
    pub is_absolute: bool,
    pub unknown_bits: u64,
}

/// A symbol the image exports: its name and address, its flags as the
/// image prints them and as a flag word, its kind, and where a re-export or
/// resolver leads.
#[derive(Debug, Clone, PartialEq, Eq)]
pub struct ExportedSymbol {
    pub name: String,
    pub address: Option<u64>,
    pub raw_flags: String,
    pub flags: ExportFlags,
    pub kind: ExportKind,
    pub reexport_target: Option<(String, Option<String>)>,
    pub resolver_target: Option<u64>,
}

/// Objective-C metadata found in the image.
#[derive(Debug, Clone, PartialEq, Eq, Default)]
pub struct ObjcMetadata {
    pub class_names: Vec<String>,
    pub selector_names: Vec<String>,
    pub method_names: Vec<String>,
    pub image_info_flags: Option<u32>,
    pub classes: Vec<ObjcClassRecord>,
    pub protocols: Vec<ObjcProtocolRecord>,
    pub categories: Vec<ObjcCategoryRecord>,
    pub pointer_refs: Vec<ObjcPointerRef>,
}

/// Dynamic-linker metadata found in the image.
#[derive(Debug, Clone, PartialEq, Eq, Default)]
pub struct DyldMetadata {
    pub imported_dylibs: Vec<String>,
    pub rpaths: Vec<String>,
    pub exported_symbols: Vec<ExportedSymbol>,
    pub function_starts: Vec<u64>,
    pub import_bindings: Vec<ImportBindingRecord>,
    pub stubs: Vec<StubEntry>,
    pub stub_helpers: Vec<StubHelperEntry>,
    pub has_rebases: bool,
    pub has_binds: bool,
    pub has_chained_fixups: bool,
}

/// An operand of a decoded instruction.
#[derive(Debug, Clone, PartialEq, Eq)]
pub enum Operand {
    Register(String),
    ImmediateSigned(i64),
    ImmediateUnsigned(u64),
    FloatingImmediate(u32),
    Label(u64),
    Memory { base: String, index: Option<String>, displacement: i64, writeback: Option<String> },
    ShiftedRegister { register: String, shift: String },
    QualifiedRegister { register: String, qualifier: char },
    MultiRegister(Vec<String>),
    SystemRegister(String),
    Condition(String),
    Name(String),
    Other(String),
}

/// The items joined with a separator between neighbours.
pub open spec fn join(items: Seq<Seq<char>>, sep: Seq<char>) -> Seq<char>
    decreases items.len(),
{
    if items.len() == 0 {
        Seq::empty()
    } else if items.len() == 1 {
        items[0]
    } else {
        join(items.drop_last(), sep) + sep + items.last()
    }
}

/// The characters of each string.
pub open spec fn string_views(items: Seq<String>) -> Seq<Seq<char>> {
    items.map_values(|s: String| s@)
}

/// `#` followed by the hexadecimal form of a value.
pub open spec fn immediate(n: nat) -> Seq<char> {
    seq!['#'] + hex(n)
}

/// How an operand is printed in a listing.
pub open spec fn operand_text(op: Operand) -> Seq<char> {
    match op {
        Operand::Register(reg) => reg@,
        Operand::ImmediateSigned(v) => immediate(twos_complement(v)),
        Operand::ImmediateUnsigned(v) => immediate(v as nat),
        Operand::FloatingImmediate(bits) => immediate(bits as nat),
        Operand::Label(target) => hex(target as nat),
        Operand::Memory { base, index, displacement, writeback } => {
            let with_index = match index {
                Some(i) => seq!['['] + base@ + seq![',', ' '] + i@,
                None => seq!['['] + base@,
            };
            let with_disp = if displacement != 0 {
                with_index + seq![',', ' '] + immediate(twos_complement(displacement))
            } else {
                with_index
            };
            match writeback {
                Some(w) => with_disp + seq![']'] + w@,
                None => with_disp + seq![']'],
            }
        },
        Operand::ShiftedRegister { register, shift } => register@ + seq![',', ' '] + shift@,
        Operand::QualifiedRegister { register, qualifier } => register@ + seq!['.', qualifier],
        Operand::MultiRegister(regs) => seq!['{'] + join(string_views(regs@), seq![',', ' '])
            + seq!['}'],
        Operand::SystemRegister(reg) => reg@,
        Operand::Condition(cond) => cond@,
        Operand::Name(value) => value@,
        Operand::Other(value) => value@,
    }
}

/// Appends the strings joined by `, `.
pub fn push_joined(out: &mut String, items: &Vec<String>)
    ensures
        final(out)@ == old(out)@ + join(string_views(items@), seq![',', ' ']),
{
    let ghost views = string_views(items@);
    let mut i: usize = 0;
    while i < items.len()
        invariant
            i <= items@.len(),
            views == string_views(items@),
            views.len() == items@.len(),
            out@ == old(out)@ + join(views.take(i as int), seq![',', ' ']),
        decreases items@.len() - i,
    {
        let ghost before = out@;
        if i > 0 {
            push_char(out, ',');
            push_char(out, ' ');
        }
        out.append(items[i].as_str());
        assert(views.take(i + 1).drop_last() =~= views.take(i as int));
        if i == 0 {
            assert(views.take(1) =~= seq![views[0]]);
        }
        assert(out@ =~= old(out)@ + join(views.take(i + 1), seq![',', ' ']));
        i = i + 1;
    }
    assert(views.take(items@.len() as int) =~= views);
}

impl Operand {
    /// Appends the operand as printed in a listing.
    pub fn write_text(&self, out: &mut String)
        ensures
            final(out)@ == old(out)@ + operand_text(*self),
    {
        match self {
            Operand::Register(reg) => out.append(reg.as_str()),
            Operand::ImmediateSigned(value) => {
                push_char(out, '#');
                push_hex(out, twos_complement_exec(*value));
            },
            Operand::ImmediateUnsigned(value) => {
                push_char(out, '#');
                push_hex(out, *value);
            },
            Operand::FloatingImmediate(bits) => {
                push_char(out, '#');
                push_hex(out, *bits as u64);
            },
            Operand::Label(target) => push_hex(out, *target),
            Operand::Memory { base, index, displacement, writeback } => {
                push_char(out, '[');
                out.append(base.as_str());
                match index {
                    Some(i) => {
                        push_char(out, ',');
                        push_char(out, ' ');
                        out.append(i.as_str());
                    },
                    None => {},
                }
                if *displacement != 0 {
                    push_char(out, ',');
                    push_char(out, ' ');
                    push_char(out, '#');
                    push_hex(out, twos_complement_exec(*displacement));
                }
                push_char(out, ']');
                match writeback {
                    Some(w) => out.append(w.as_str()),
                    None => {},
                }
            },
            Operand::ShiftedRegister { register, shift } => {
                out.append(register.as_str());
                push_char(out, ',');
                push_char(out, ' ');
                out.append(shift.as_str());
            },
            Operand::QualifiedRegister { register, qualifier } => {
                out.append(register.as_str());
                push_char(out, '.');
                push_char(out, *qualifier);
            },
            Operand::MultiRegister(registers) => {
                push_char(out, '{');
                push_joined(out, registers);
                push_char(out, '}');
            },
            Operand::SystemRegister(reg) => out.append(reg.as_str()),
            Operand::Condition(cond) => out.append(cond.as_str()),
            Operand::Name(value) => out.append(value.as_str()),
            Operand::Other(value) => out.append(value.as_str()),
        }
        assert(out@ =~= old(out)@ + operand_text(*self));
    }

    /// The operand as printed in a listing.
    pub fn to_text(&self) -> (r: String)
        ensures
            r@ == operand_text(*self),
    {
        let mut out = String::new();
        self.write_text(&mut out);
        assert(out@ =~= operand_text(*self));
        out
    }
}

/// How a symbol import is bound.
#[derive(Debug, Clone, Copy, PartialEq, Eq, Structural)]
pub enum ImportBindingKind {
    Lazy,
    NonLazy,
    ChainedFixup,
}

/// Where the loader metadata for an import binding came from.
#[derive(Debug, Clone, Copy, PartialEq, Eq, Structural)]
pub enum ImportBindingSource {
    ChainedFixup,
    IndirectSymbol,
    Stub,
    Other,
}

/// Whether a stub is bound lazily.
#[derive(Debug, Clone, Copy, PartialEq, Eq, Structural)]
pub enum StubKind {
    Lazy,
    NonLazy,
}

/// How the entries of a resolved jump table are stored.
#[derive(Debug, Clone, Copy, PartialEq, Eq, Structural)]
pub enum TableSlotEncoding {
    Absolute64,
    Relative32,
}

/// The name of a binding kind, as its variant is written.
pub open spec fn binding_kind_name(k: ImportBindingKind) -> Seq<char> {
    match k {
        ImportBindingKind::Lazy => "Lazy"@,
        ImportBindingKind::NonLazy => "NonLazy"@,
        ImportBindingKind::ChainedFixup => "ChainedFixup"@,
    }
}

/// The name of a binding source, as its variant is written.
pub open spec fn binding_source_name(k: ImportBindingSource) -> Seq<char> {
    match k {
        ImportBindingSource::ChainedFixup => "ChainedFixup"@,
        ImportBindingSource::IndirectSymbol => "IndirectSymbol"@,
        ImportBindingSource::Stub => "Stub"@,
        ImportBindingSource::Other => "Other"@,
    }
}

/// The name of a stub kind, as its variant is written.
pub open spec fn stub_kind_name(k: StubKind) -> Seq<char> {
    match k {
        StubKind::Lazy => "Lazy"@,
        StubKind::NonLazy => "NonLazy"@,
    }
}

/// The printed name of a table encoding.
pub open spec fn table_encoding_name(e: TableSlotEncoding) -> Seq<char> {
    match e {
        TableSlotEncoding::Absolute64 => "absolute64"@,
        TableSlotEncoding::Relative32 => "relative32"@,
    }
}

impl ImportBindingKind {
    /// The variant's name.
    pub fn name(&self) -> (r: &'static str)
        ensures
            r@ == binding_kind_name(*self),
    {
        match self {
            ImportBindingKind::Lazy => "Lazy",
            ImportBindingKind::NonLazy => "NonLazy",
            ImportBindingKind::ChainedFixup => "ChainedFixup",
        }
    }
}

impl ImportBindingSource {
    /// The variant's name.
    pub fn name(&self) -> (r: &'static str)
        ensures
            r@ == binding_source_name(*self),
    {
        match self {
            ImportBindingSource::ChainedFixup => "ChainedFixup",
            ImportBindingSource::IndirectSymbol => "IndirectSymbol",
            ImportBindingSource::Stub => "Stub",
            ImportBindingSource::Other => "Other",
        }
    }
}

impl StubKind {
    /// The variant's name.
    pub fn name(&self) -> (r: &'static str)
        ensures
            r@ == stub_kind_name(*self),
    {
        match self {
            StubKind::Lazy => "Lazy",
            StubKind::NonLazy => "NonLazy",
        }
    }
}

impl TableSlotEncoding {
    /// The encoding's printed name.
    pub fn to_text(&self) -> (r: &'static str)
        ensures
            r@ == table_encoding_name(*self),
    {
        match self {
            TableSlotEncoding::Absolute64 => "absolute64",
            TableSlotEncoding::Relative32 => "relative32",
        }
    }
}

/// One import binding from the loader metadata.
#[derive(Debug, Clone, PartialEq, Eq)]
pub struct ImportBindingRecord {
    pub dylib: String,
    pub name: String,
    pub address: Option<u64>,
    pub offset: Option<u64>,
    pub addend: i64,
    pub ordinal: Option<u32>,
    pub symbol_index: Option<u32>,
    pub binding_kind: ImportBindingKind,
    pub source: ImportBindingSource,
    pub is_weak: bool,
}

/// One symbol stub.
#[derive(Debug, Clone, PartialEq, Eq)]
pub struct StubEntry {
    pub stub_address: u64,
    pub section: Option<String>,
    pub pointer_section: Option<String>,
    pub pointer_address: Option<u64>,
    pub helper_address: Option<u64>,
    pub binding_ordinal: Option<u32>,
    pub stub_kind: StubKind,
    pub dylib: Option<String>,
    pub name: Option<String>,
    pub source: ImportBindingSource,
}

/// One entry of the lazy-binding helper section.
#[derive(Debug, Clone, PartialEq, Eq)]
pub struct StubHelperEntry {
    pub helper_address: u64,
    pub target_stub: Option<u64>,
    pub stub_section: Option<String>,
    pub pointer_address: Option<u64>,
    pub pointer_section: Option<String>,
    pub binding_ordinal: Option<u32>,
    pub dylib: Option<String>,
    pub name: Option<String>,
}

/// A cross-reference an instruction makes.
#[derive(Debug, Clone, PartialEq, Eq)]
pub enum Reference {
    Call { target: u64 },
    Branch { target: u64 },
    IndirectCall { via: String },
    IndirectBranch { via: String },
    Page { target: u64 },
    Data { target: u64 },
    Import { name: String, dylib: String, address: Option<u64> },
    ImportBinding {
        dylib: String,
        name: String,
        address: Option<u64>,
        offset: Option<u64>,
        addend: i64,
        binding_kind: ImportBindingKind,
        source: ImportBindingSource,
        is_weak: bool,
    },
    Stub {
        stub_address: u64,
        section: Option<String>,
        pointer_section: Option<String>,
        pointer_address: Option<u64>,
        helper_address: Option<u64>,
        binding_ordinal: Option<u32>,
        stub_kind: StubKind,
        dylib: Option<String>,
        name: Option<String>,
        source: ImportBindingSource,
    },
    StubHelper {
        helper_address: u64,
        target_stub: Option<u64>,
        stub_section: Option<String>,
        pointer_address: Option<u64>,
        pointer_section: Option<String>,
        binding_ordinal: Option<u32>,
        dylib: Option<String>,
        name: Option<String>,
    },
    RelocationEvidence { address: u64, kind: String, encoding: String, target: String, addend: i64 },
}

/// A note attached to an instruction.
#[derive(Debug, Clone, PartialEq, Eq)]
pub enum Annotation {
    Symbol(String),
    TargetSymbol { address: u64, name: String },
    Import { dylib: String, name: String },
    IndirectControlFlow { kind: String, via: String },
    Relocation { address: u64, kind: String, encoding: String, target: String, addend: i64 },
    ImportBinding {
        dylib: String,
        name: String,
        address: Option<u64>,
        offset: Option<u64>,
        addend: i64,
        binding_kind: ImportBindingKind,
        source: ImportBindingSource,
    },
    ImportBindingEvidence {
        dylib: String,
        name: String,
        address: Option<u64>,
        offset: Option<u64>,
        addend: i64,
        binding_kind: ImportBindingKind,
        source: ImportBindingSource,
    },
    JumpTableCandidate { base: u64, index_register: String, element_size: u8 },
    RelocationEvidence { address: u64, kind: String, encoding: String, target: String, addend: i64 },
    TableSlotResolved {
        table_base: u64,
        slot_address: u64,
        index_register: String,
        element_size: u8,
        encoding: TableSlotEncoding,
        target: u64,
    },
    Note(String),
}

/// The characters of an optional string.
pub open spec fn opt_text(o: Option<String>) -> Option<Seq<char>> {
    match o {
        Some(s) => Some(s@),
        None => None,
    }
}

/// An optional address in hexadecimal, `-` when absent.
pub open spec fn opt_hex_text(o: Option<u64>) -> Seq<char> {
    match o {
        Some(v) => hex(v as nat),
        None => "-"@,
    }
}

/// An optional text, `-` when absent.
pub open spec fn opt_str_text(o: Option<String>) -> Seq<char> {
    match o {
        Some(s) => s@,
        None => "-"@,
    }
}

/// The fields of a binding as an annotation prints them.
pub open spec fn binding_fields_text(
    dylib: Seq<char>,
    name: Seq<char>,
    address: Option<u64>,
    offset: Option<u64>,
    addend: i64,
    binding_kind: ImportBindingKind,
    source: ImportBindingSource,
) -> Seq<char> {
    dylib + seq![':'] + name + " addr="@ + opt_hex_text(address) + " off="@ + opt_hex_text(offset)
        + " addend="@ + signed_decimal(addend as int) + " kind="@ + binding_kind_name(binding_kind)
        + " source="@ + binding_source_name(source)
}

/// The fields of a relocation as an annotation prints them.
pub open spec fn relocation_fields_text(
    address: u64,
    kind: Seq<char>,
    encoding: Seq<char>,
    target: Seq<char>,
    addend: i64,
) -> Seq<char> {
    "kind="@ + kind + " encoding="@ + encoding + " target="@ + target + " addend="@ + signed_decimal(
        addend as int,
    ) + " addr="@ + hex(address as nat)
}

/// How an annotation is printed. The binding, evidence and indirect-flow
/// forms are the documented ones; relocations print like relocation
/// evidence without the prefix, and the jump-table forms list their fields.
pub open spec fn annotation_text(a: Annotation) -> Seq<char> {
    match a {
        Annotation::Symbol(name) => "symbol "@ + name@,
        Annotation::TargetSymbol { address, name } => "target "@ + name@ + seq![' ', '('] + hex(
            address as nat,
        ) + seq![')'],
        Annotation::Import { dylib, name } => "import "@ + dylib@ + seq![':'] + name@,
        Annotation::IndirectControlFlow { kind, via } => "indirect "@ + kind@ + " via "@ + via@,
        Annotation::Relocation { address, kind, encoding, target, addend } => "reloc "@
            + relocation_fields_text(address, kind@, encoding@, target@, addend),
        Annotation::ImportBinding { dylib, name, address, offset, addend, binding_kind, source } =>
            "binding "@ + binding_fields_text(
            dylib@,
            name@,
            address,
            offset,
            addend,
            binding_kind,
            source,
        ),
        Annotation::ImportBindingEvidence {
            dylib,
            name,
            address,
            offset,
            addend,
            binding_kind,
            source,
        } => "binding-evidence "@ + binding_fields_text(
            dylib@,
            name@,
            address,
            offset,
            addend,
            binding_kind,
            source,
        ),
        Annotation::JumpTableCandidate { base, index_register, element_size } => "jump-table base="@
            + hex(base as nat) + " index="@ + index_register@ + " element_size="@ + decimal(
            element_size as nat,
        ),
        Annotation::RelocationEvidence { address, kind, encoding, target, addend } =>
            "reloc-evidence "@ + relocation_fields_text(address, kind@, encoding@, target@, addend),
        Annotation::TableSlotResolved {
            table_base,
            slot_address,
            index_register,
            element_size,
            encoding,
            target,
        } => "table-slot base="@ + hex(table_base as nat) + " slot="@ + hex(slot_address as nat)
            + " index="@ + index_register@ + " element_size="@ + decimal(element_size as nat)
            + " encoding="@ + table_encoding_name(encoding) + " target="@ + hex(target as nat),
        Annotation::Note(note) => note@,
    }
}

/// Appends an optional address in hexadecimal, `-` when absent.
pub fn push_opt_hex(out: &mut String, o: Option<u64>)
    ensures
        final(out)@ == old(out)@ + opt_hex_text(o),
{
    match o {
        Some(v) => push_hex(out, v),
        None => {
            push_char(out, '-');
            proof {
                reveal_strlit("-");
            }
            assert(final(out)@ =~= old(out)@ + "-"@);
        },
    }
}

/// Appends an optional text, `-` when absent.
pub fn push_opt_str(out: &mut String, o: &Option<String>)
    ensures
        final(out)@ == old(out)@ + opt_str_text(*o),
{
    match o {
        Some(s) => push_str(out, s.as_str()),
        None => {
            push_char(out, '-');
            proof {
                reveal_strlit("-");
            }
            assert(final(out)@ =~= old(out)@ + "-"@);
        },
    }
}

/// Appends text `s`.
pub fn push_str(out: &mut String, s: &str)
    ensures
        final(out)@ == old(out)@ + s@,
{
    out.append(s);
}

/// Appends the fields of a binding (see `binding_fields_text`).
fn push_binding_fields(
    out: &mut String,
    dylib: &String,
    name: &String,
    address: Option<u64>,
    offset: Option<u64>,
    addend: i64,
    binding_kind: ImportBindingKind,
    source: ImportBindingSource,
)
    ensures
        final(out)@ == old(out)@ + binding_fields_text(
            dylib@,
            name@,
            address,
            offset,
            addend,
            binding_kind,
            source,
        ),
{
    push_str(out, dylib.as_str());
    push_char(out, ':');
    push_str(out, name.as_str());
    push_str(out, " addr=");
    push_opt_hex(out, address);
    push_str(out, " off=");
    push_opt_hex(out, offset);
    push_str(out, " addend=");
    let a = signed_decimal_string(addend);
    push_str(out, a.as_str());
    push_str(out, " kind=");
    push_str(out, binding_kind.name());
    push_str(out, " source=");
    push_str(out, source.name());
    assert(final(out)@ =~= old(out)@ + binding_fields_text(
        dylib@,
        name@,
        address,
        offset,
        addend,
        binding_kind,
        source,
    ));
}

/// Appends the fields of a relocation (see `relocation_fields_text`).
fn push_relocation_fields(
    out: &mut String,
    address: u64,
    kind: &String,
    encoding: &String,
    target: &String,
    addend: i64,
)
    ensures
        final(out)@ == old(out)@ + relocation_fields_text(address, kind@, encoding@, target@, addend),
{
    push_str(out, "kind=");
    push_str(out, kind.as_str());
    push_str(out, " encoding=");
    push_str(out, encoding.as_str());
    push_str(out, " target=");
    push_str(out, target.as_str());
    push_str(out, " addend=");
    let a = signed_decimal_string(addend);
    push_str(out, a.as_str());
    push_str(out, " addr=");
    push_hex(out, address);
    assert(final(out)@ =~= old(out)@ + relocation_fields_text(
        address,
        kind@,
        encoding@,
        target@,
        addend,
    ));
}

impl Annotation {
    /// The annotation as printed.
    pub fn to_text(&self) -> (r: String)
        ensures
            r@ == annotation_text(*self),
    {
        let mut out = String::new();
        match self {
            Annotation::Symbol(name) => {
                push_str(&mut out, "symbol ");
                push_str(&mut out, name.as_str());
            },
            Annotation::TargetSymbol { address, name } => {
                push_str(&mut out, "target ");
                push_str(&mut out, name.as_str());
                push_char(&mut out, ' ');
                push_char(&mut out, '(');
                push_hex(&mut out, *address);
                push_char(&mut out, ')');
            },
            Annotation::Import { dylib, name } => {
                push_str(&mut out, "import ");
                push_str(&mut out, dylib.as_str());
                push_char(&mut out, ':');
                push_str(&mut out, name.as_str());
            },
            Annotation::IndirectControlFlow { kind, via } => {
                push_str(&mut out, "indirect ");
                push_str(&mut out, kind.as_str());
                push_str(&mut out, " via ");
                push_str(&mut out, via.as_str());
            },
            Annotation::Relocation { address, kind, encoding, target, addend } => {
                push_str(&mut out, "reloc ");
                push_relocation_fields(&mut out, *address, kind, encoding, target, *addend);
            },
            Annotation::ImportBinding { dylib, name, address, offset, addend, binding_kind, source } => {
                push_str(&mut out, "binding ");
                push_binding_fields(&mut out, dylib, name, *address, *offset, *addend, *binding_kind, *source);
            },
            Annotation::ImportBindingEvidence {
                dylib,
                name,
                address,
                offset,
                addend,
                binding_kind,
                source,
            } => {
                push_str(&mut out, "binding-evidence ");
                push_binding_fields(&mut out, dylib, name, *address, *offset, *addend, *binding_kind, *source);
            },
            Annotation::JumpTableCandidate { base, index_register, element_size } => {
                push_str(&mut out, "jump-table base=");
                push_hex(&mut out, *base);
                push_str(&mut out, " index=");
                push_str(&mut out, index_register.as_str());
                push_str(&mut out, " element_size=");
                push_digits(&mut out, *element_size as u64, 10);
            },
            Annotation::RelocationEvidence { address, kind, encoding, target, addend } => {
                push_str(&mut out, "reloc-evidence ");
                push_relocation_fields(&mut out, *address, kind, encoding, target, *addend);
            },
            Annotation::TableSlotResolved {
                table_base,
                slot_address,
                index_register,
                element_size,
                encoding,
                target,
            } => {
                push_str(&mut out, "table-slot base=");
                push_hex(&mut out, *table_base);
                push_str(&mut out, " slot=");
                push_hex(&mut out, *slot_address);
                push_str(&mut out, " index=");
                push_str(&mut out, index_register.as_str());
                push_str(&mut out, " element_size=");
                push_digits(&mut out, *element_size as u64, 10);
                push_str(&mut out, " encoding=");
                push_str(&mut out, encoding.to_text());
                push_str(&mut out, " target=");
                push_hex(&mut out, *target);
            },
            Annotation::Note(note) => {
                push_str(&mut out, note.as_str());
            },
        }
        assert(out@ =~= annotation_text(*self));
        out
    }

    /// The evidence a binding record gives an instruction.
    pub fn import_binding_evidence(binding: &ImportBindingRecord) -> (r: Annotation)
        ensures
            r matches Annotation::ImportBindingEvidence {
                dylib,
                name,
                address,
                offset,
                addend,
                binding_kind,
                source,
            } && dylib@ == binding.dylib@ && name@ == binding.name@ && address == binding.address
                && offset == binding.offset && addend == binding.addend && binding_kind
                == binding.binding_kind && source == binding.source,
    {
        Annotation::ImportBindingEvidence {
            dylib: binding.dylib.clone(),
            name: binding.name.clone(),
            address: binding.address,
            offset: binding.offset,
            addend: binding.addend,
            binding_kind: binding.binding_kind,
            source: binding.source,
        }
    }

    /// The evidence a relocation gives an instruction.
    pub fn relocation_evidence(relocation: &Relocation) -> (r: Annotation)
        ensures
            r matches Annotation::RelocationEvidence { address, kind, encoding, target, addend }
                && address == relocation.address && kind@ == relocation.kind@ && encoding@
                == relocation.encoding@ && target@ == relocation.target@ && addend
                == relocation.addend,
    {
        Annotation::RelocationEvidence {
            address: relocation.address,
            kind: relocation.kind.clone(),
            encoding: relocation.encoding.clone(),
            target: relocation.target.clone(),
            addend: relocation.addend,
        }
    }
}

/// A copy of an optional string.
pub fn copy_opt_string(o: &Option<String>) -> (r: Option<String>)
    ensures
        opt_text(r) == opt_text(*o),
{
    match o {
        Some(s) => Some(s.clone()),
        None => None,
    }
}

impl Reference {
    /// The reference an import binding makes.
    pub fn from_binding(binding: &ImportBindingRecord) -> (r: Reference)
        ensures
            r matches Reference::ImportBinding {
                dylib,
                name,
                address,
                offset,
                addend,
                binding_kind,
                source,
                is_weak,
            } && dylib@ == binding.dylib@ && name@ == binding.name@ && address == binding.address
                && offset == binding.offset && addend == binding.addend && binding_kind
                == binding.binding_kind && source == binding.source && is_weak == binding.is_weak,
    {
        Reference::ImportBinding {
            dylib: binding.dylib.clone(),
            name: binding.name.clone(),
            address: binding.address,
            offset: binding.offset,
            addend: binding.addend,
            binding_kind: binding.binding_kind,
            source: binding.source,
            is_weak: binding.is_weak,
        }
    }

    /// The reference a stub makes.
    pub fn from_stub(stub: &StubEntry) -> (r: Reference)
        ensures
            r matches Reference::Stub {
                stub_address,
                section,
                pointer_section,
                pointer_address,
                helper_address,
                binding_ordinal,
                stub_kind,
                dylib,
                name,
                source,
            } && stub_address == stub.stub_address && opt_text(section) == opt_text(stub.section)
                && opt_text(pointer_section) == opt_text(stub.pointer_section) && pointer_address
                == stub.pointer_address && helper_address == stub.helper_address && binding_ordinal
                == stub.binding_ordinal && stub_kind == stub.stub_kind && opt_text(dylib) == opt_text(
                stub.dylib,
            ) && opt_text(name) == opt_text(stub.name) && source == stub.source,
    {
        Reference::Stub {
            stub_address: stub.stub_address,
            section: copy_opt_string(&stub.section),
            pointer_section: copy_opt_string(&stub.pointer_section),
            pointer_address: stub.pointer_address,
            helper_address: stub.helper_address,
            binding_ordinal: stub.binding_ordinal,
            stub_kind: stub.stub_kind,
            dylib: copy_opt_string(&stub.dylib),
            name: copy_opt_string(&stub.name),
            source: stub.source,
        }
    }

    /// The reference a lazy-binding helper entry makes.
    pub fn from_stub_helper(helper: &StubHelperEntry) -> (r: Reference)
        ensures
            r matches Reference::StubHelper {
                helper_address,
                target_stub,
                stub_section,
                pointer_address,
                pointer_section,
                binding_ordinal,
                dylib,
                name,
            } && helper_address == helper.helper_address && target_stub == helper.target_stub
                && opt_text(stub_section) == opt_text(helper.stub_section) && pointer_address
                == helper.pointer_address && opt_text(pointer_section) == opt_text(
                helper.pointer_section,
            ) && binding_ordinal == helper.binding_ordinal && opt_text(dylib) == opt_text(
                helper.dylib,
            ) && opt_text(name) == opt_text(helper.name),
    {
        Reference::StubHelper {
            helper_address: helper.helper_address,
            target_stub: helper.target_stub,
            stub_section: copy_opt_string(&helper.stub_section),
            pointer_address: helper.pointer_address,
            pointer_section: copy_opt_string(&helper.pointer_section),
            binding_ordinal: helper.binding_ordinal,
            dylib: copy_opt_string(&helper.dylib),
            name: copy_opt_string(&helper.name),
        }
    }
}

/// One decoded instruction with its operands, references and notes.
#[derive(Debug, Clone, PartialEq, Eq)]
pub struct DecodedInstruction {
    pub address: u64,
    pub size: u8,
    pub opcode: u32,
    pub mnemonic: String,
    pub operands: Vec<Operand>,
    pub references: Vec<Reference>,
    pub annotations: Vec<Annotation>,
}

/// The printed form of each operand.
pub open spec fn operand_texts(ops: Seq<Operand>) -> Seq<Seq<char>> {
    ops.map_values(|op: Operand| operand_text(op))
}

/// An instruction as printed: the mnemonic, then the operands joined by `, `.
pub open spec fn instruction_text(mnemonic: Seq<char>, operands: Seq<Operand>) -> Seq<char> {
    if operands.len() == 0 {
        mnemonic
    } else {
        mnemonic + seq![' '] + join(operand_texts(operands), seq![',', ' '])
    }
}

impl DecodedInstruction {
    /// The instruction as printed in a listing.
    pub fn render(&self) -> (r: String)
        ensures
            r@ == instruction_text(self.mnemonic@, self.operands@),
    {
        if self.operands.len() == 0 {
            return self.mnemonic.clone();
        }
        let mut out = self.mnemonic.clone();
        push_char(&mut out, ' ');
        let ghost head = out@;
        let ghost texts = operand_texts(self.operands@);
        let mut i: usize = 0;
        while i < self.operands.len()
            invariant
                i <= self.operands@.len(),
                texts == operand_texts(self.operands@),
                texts.len() == self.operands@.len(),
                out@ == head + join(texts.take(i as int), seq![',', ' ']),
            decreases self.operands@.len() - i,
        {
            if i > 0 {
                push_char(&mut out, ',');
                push_char(&mut out, ' ');
            }
            self.operands[i].write_text(&mut out);
            assert(texts.take(i + 1).drop_last() =~= texts.take(i as int));
            if i == 0 {
                assert(texts.take(1) =~= seq![texts[0]]);
            }
            assert(out@ =~= head + join(texts.take(i + 1), seq![',', ' ']));
            i = i + 1;
        }
        assert(texts.take(self.operands@.len() as int) =~= texts);
        out
    }
}

/// What a disassembly request starts from.
#[derive(Debug, Clone, PartialEq, Eq)]
pub enum DisassemblyTarget {
    Symbol(String),
    Address(u64),
    Section(String),
}

/// A request to disassemble part of an image.
#[derive(Debug, Clone, PartialEq, Eq)]
pub struct DisassemblyRequest {
    pub target: DisassemblyTarget,
    pub max_instructions: Option<usize>,
}

/// The outcome of a disassembly request.
#[derive(Debug, Clone, PartialEq, Eq)]
pub struct DisassemblyResult {
    pub target: String,
    pub start_address: u64,
    pub bytes_len: usize,
    pub instructions: Vec<DecodedInstruction>,
}


/// A memory operand with an index register is printed as `[`, the base,
/// `, ` and the index, then either `, ` and the displacement or the closing
/// bracket.
pub proof fn lemma_memory_text_shows_index(op: Operand)
    requires
        op matches Operand::Memory { index: Some(_), .. },
    ensures
        match op {
            Operand::Memory { base, index: Some(i), displacement, .. } => {
                let head = seq!['['] + base@ + seq![',', ' '] + i@;
                let t = operand_text(op);
                &&& t.len() > head.len()
                &&& t.subrange(0, head.len() as int) == head
                &&& t[head.len() as int] == if displacement != 0 {
                    ','
                } else {
                    ']'
                }
            },
            _ => true,
        },
{
    match op {
        Operand::Memory { base, index: Some(i), displacement, writeback } => {
            let head = seq!['['] + base@ + seq![',', ' '] + i@;
            let t = operand_text(op);
            let rest = if displacement != 0 {
                seq![',', ' '] + immediate(twos_complement(displacement))
            } else {
                seq![]
            } + seq![']'] + match writeback {
                Some(w) => w@,
                None => seq![],
            };
            assert(t =~= head + rest);
            assert(t.subrange(0, head.len() as int) =~= head);
            assert(t[head.len() as int] == rest[0]);
        },
        _ => {},
    }
}


/// A memory operand is printed as `[`, the base, `, ` and the index when
/// there is one, then `, #` and the displacement when it is not zero, then
/// `]` and the write-back mark when there is one.
pub proof fn lemma_memory_text_shape(op: Operand)
    requires
        op is Memory,
    ensures
        match op {
            Operand::Memory { base, index, displacement, writeback } => {
                let head = seq!['['] + base@ + match index {
                    Some(i) => seq![',', ' '] + i@,
                    None => seq![],
                };
                let tail = seq![']'] + match writeback {
                    Some(w) => w@,
                    None => seq![],
                };
                let t = operand_text(op);
                &&& t.len() >= head.len() + tail.len()
                &&& t.subrange(0, head.len() as int) == head
                &&& t.subrange(t.len() - tail.len(), t.len() as int) == tail
                &&& (displacement == 0 <==> t.len() == head.len() + tail.len())
                &&& (displacement != 0 ==> t[head.len() as int] == ',' && t[head.len() + 1int] == ' '
                    && t[head.len() + 2int] == '#')
            },
            _ => true,
        },
{
    match op {
        Operand::Memory { base, index, displacement, writeback } => {
            let head = seq!['['] + base@ + match index {
                Some(i) => seq![',', ' '] + i@,
                None => seq![],
            };
            let tail = seq![']'] + match writeback {
                Some(w) => w@,
                None => seq![],
            };
            let disp = if displacement != 0 {
                seq![',', ' '] + immediate(twos_complement(displacement))
            } else {
                seq![]
            };
            let t = operand_text(op);
            assert(t =~= head + disp + tail);
            assert(t.subrange(0, head.len() as int) =~= head);
            assert(t.subrange(t.len() - tail.len(), t.len() as int) =~= tail);
            if displacement != 0 {
                assert(t[head.len() as int] == disp[0]);
                assert(t[head.len() + 1int] == disp[1]);
                assert(t[head.len() + 2int] == disp[2]);
            }
        },
        _ => {},
    }
}

} // verus!
