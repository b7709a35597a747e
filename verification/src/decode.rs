//! AArch64 decoding. capstone disassembles the bytes; the library reads what
//! capstone reports into plain records, then turns each record into a typed
//! instruction with its operands, the references its immediates make and the
//! notes a listing shows.

use capstone::arch::arm64::ArchMode;
use capstone::arch::arm64::Arm64OperandType::{
    Barrier, Cimm, Fp, Imm, Invalid, Mem, Prefetch, Pstate, Reg, RegMrs, RegMsr, SMEIndex, Sys,
    SVCR,
};
use capstone::arch::{ArchDetail, BuildsCapstone, DetailsArchInsn};
use capstone::{Capstone, Insn, Instructions, RegId};
use vstd::prelude::*;
use vstd::slice::slice_subrange;

use crate::disasm::DisassemblyLimit;
use crate::model::{Annotation, DecodedInstruction, Operand, Reference};
use crate::text::{ascii_lower, ascii_lower_vec, decimal, decimal_string, push_char};

verus! {

#[verifier::external_type_specification]
#[verifier::external_body]
pub struct ExCapstone(Capstone);

#[verifier::external_type_specification]
#[verifier::external_body]
pub struct ExInstructions<'a>(Instructions<'a>);

#[verifier::external_type_specification]
#[verifier::external_body]
pub struct ExInsn<'a>(Insn<'a>);

/// The kind of an AArch64 operand as capstone classifies it, with the
/// register ids and numbers it carries.
#[derive(Debug, Clone, Copy, PartialEq, Eq, Structural)]
pub enum OperandShape {
    Register(u16),
    Immediate(i64),
    Memory(u16, u16, i32),
    Float,
    Cimm(i64),
    SystemRegister,
    Other,
    Invalid,
}

/// One operand as capstone reports it: its shape, and for the shapes that
/// capstone only describes (floating values, system registers and the
/// other named operations) the description.
pub struct CapstoneOperand {
    pub shape: OperandShape,
    pub text: Seq<char>,
}

/// The detail capstone records for an instruction.
pub struct CapstoneDetail {
    pub writeback: bool,
    pub operands: Seq<CapstoneOperand>,
}

/// One instruction as capstone reports it.
pub struct CapstoneInsn {
    pub address: u64,
    pub bytes: Seq<u8>,
    pub mnemonic: Option<Seq<char>>,
    pub detail: Result<CapstoneDetail, Seq<char>>,
}

/// What capstone's AArch64 decoder (ARM mode, detail on) reports for `bytes`
/// placed at `start_address`: each instruction it decodes, in order.
pub uninterp spec fn capstone_arm64_listing(bytes: Seq<u8>, start_address: u64) -> Seq<CapstoneInsn>;

/// The instructions held by a capstone `Instructions` collection.
pub uninterp spec fn disassembled(insns: Instructions) -> Seq<CapstoneInsn>;

/// The name capstone's AArch64 decoder gives a register id, if any.
pub uninterp spec fn capstone_arm64_register_name(id: u16) -> Option<Seq<char>>;

/// The characters of an optional string.
pub open spec fn opt_chars(o: Option<String>) -> Option<Seq<char>> {
    match o {
        Some(s) => Some(s@),
        None => None,
    }
}

/// `capstone::Capstone::new().arm64()` in ARM mode with instruction detail,
/// built; a build error comes back as its message. Claimed: the build
/// succeeds (the AArch64 architecture is compiled in, and the mode and
/// detail option are valid for it).
#[verifier::external_body]
fn arm64_decoder() -> (r: Result<Capstone, String>)
    ensures
        r is Ok,
{
    Capstone::new().arm64().mode(ArchMode::Arm).detail(true).build().map_err(|err| err.to_string())
}

/// What capstone's AArch64 decoder reports for `bytes` at `start_address`
/// always looks like this: every instruction takes four bytes and they
/// follow one another from the start of `bytes` (decoding stops at the
/// first word it cannot decode, or when fewer than four bytes are left),
/// each decoded instruction has its detail, and, when no address wraps
/// past `u64::MAX`, instruction `k` sits at `start_address + 4k`.
pub open spec fn arm64_listing_shape(listing: Seq<CapstoneInsn>, bytes: Seq<u8>, start_address: u64) -> bool {
    &&& 4 * listing.len() <= bytes.len()
    &&& forall|k: int|
        0 <= k < listing.len() ==> (#[trigger] listing[k]).bytes == bytes.subrange(4 * k, 4 * k + 4)
            && listing[k].detail is Ok
    &&& start_address + bytes.len() <= u64::MAX ==> forall|k: int|
        0 <= k < listing.len() ==> (#[trigger] listing[k]).address == start_address + 4 * k
}

/// `Capstone::disasm_all`. Claimed: it succeeds (capstone reports an error
/// only when memory runs out); the collection holds what the AArch64
/// decoder reports for these bytes at this address (the only decoder this
/// library builds is `arm64_decoder`'s); its first instruction, if any,
/// sits at `start_address` (capstone documents the address argument as the
/// address of the first instruction); and the report has the fixed-width
/// shape of `arm64_listing_shape`.
#[verifier::external_body]
fn disassemble<'a>(cs: &'a Capstone, bytes: &[u8], start_address: u64) -> (r: Result<
    Instructions<'a>,
    String,
>)
    ensures
        r is Ok,
        r matches Ok(insns) ==> disassembled(insns) == capstone_arm64_listing(bytes@, start_address),
        r matches Ok(insns) ==> disassembled(insns).len() > 0 ==> disassembled(insns)[0].address
            == start_address,
        r matches Ok(insns) ==> arm64_listing_shape(disassembled(insns), bytes@, start_address),
{
    cs.disasm_all(bytes, start_address).map_err(|err| err.to_string())
}

/// The number of instructions in the collection (`len` of the slice it
/// dereferences to).
#[verifier::external_body]
fn instruction_count(insns: &Instructions) -> (r: usize)
    ensures
        r == disassembled(*insns).len(),
{
    insns.len()
}

/// `Insn::address` of the instruction at index `i`.
#[verifier::external_body]
fn instruction_address(insns: &Instructions, i: usize) -> (r: u64)
    requires
        i < disassembled(*insns).len(),
    ensures
        r == disassembled(*insns)[i as int].address,
{
    insns[i].address()
}

/// `Insn::bytes` of the instruction at index `i`, copied.
#[verifier::external_body]
fn instruction_bytes(insns: &Instructions, i: usize) -> (r: Vec<u8>)
    requires
        i < disassembled(*insns).len(),
    ensures
        r@ == disassembled(*insns)[i as int].bytes,
{
    insns[i].bytes().to_vec()
}

/// `Insn::mnemonic` of the instruction at index `i`, copied.
#[verifier::external_body]
fn instruction_mnemonic(insns: &Instructions, i: usize) -> (r: Option<String>)
    requires
        i < disassembled(*insns).len(),
    ensures
        opt_chars(r) == disassembled(*insns)[i as int].mnemonic,
{
    insns[i].mnemonic().map(|text| text.to_string())
}

/// `Capstone::insn_detail` of the instruction at index `i`: whether it
/// writes back, and how many operands it has; an error comes back as its
/// message.
#[verifier::external_body]
fn instruction_detail(cs: &Capstone, insns: &Instructions, i: usize) -> (r: Result<(bool, usize), String>)
    requires
        i < disassembled(*insns).len(),
    ensures
        match disassembled(*insns)[i as int].detail {
            Ok(d) => r matches Ok((w, n)) && w == d.writeback && n == d.operands.len(),
            Err(m) => r matches Err(e) && e@ == m,
        },
{
    let detail = cs.insn_detail(&insns[i]).map_err(|err| err.to_string())?;
    let ArchDetail::Arm64Detail(arm64) = detail.arch_detail();
    Ok((arm64.writeback(), arm64.operands().count()))
}

/// The kind of operand `j` of instruction `i`, from its AArch64 detail.
#[verifier::external_body]
fn operand_shape(cs: &Capstone, insns: &Instructions, i: usize, j: usize) -> (r: Option<OperandShape>)
    requires
        i < disassembled(*insns).len(),
        disassembled(*insns)[i as int].detail is Ok,
        j < disassembled(*insns)[i as int].detail->Ok_0.operands.len(),
    ensures
        r == Some(disassembled(*insns)[i as int].detail->Ok_0.operands[j as int].shape),
{
    let detail = cs.insn_detail(&insns[i]).ok()?;
    let ArchDetail::Arm64Detail(arm64) = detail.arch_detail();
    Some(match arm64.operands().nth(j)?.op_type {
        Reg(reg) => OperandShape::Register(reg.0),
        Imm(value) => OperandShape::Immediate(value),
        Mem(mem) => OperandShape::Memory(mem.base().0, mem.index().0, mem.disp()),
        Fp(_) => OperandShape::Float,
        Cimm(value) => OperandShape::Cimm(value),
        RegMrs(_) | RegMsr(_) => OperandShape::SystemRegister,
        Pstate(_) | Sys(_) | Prefetch(_) | Barrier(_) | SVCR(_) | SMEIndex(_) => OperandShape::Other,
        Invalid => OperandShape::Invalid,
    })
}

/// How capstone describes operand `j` of instruction `i`: the printed
/// floating value, or the debug form of a system register or other named
/// operation; empty for the other kinds.
#[verifier::external_body]
fn operand_text(cs: &Capstone, insns: &Instructions, i: usize, j: usize) -> (r: Option<String>)
    requires
        i < disassembled(*insns).len(),
        disassembled(*insns)[i as int].detail is Ok,
        j < disassembled(*insns)[i as int].detail->Ok_0.operands.len(),
    ensures
        opt_chars(r) == Some(disassembled(*insns)[i as int].detail->Ok_0.operands[j as int].text),
{
    let detail = cs.insn_detail(&insns[i]).ok()?;
    let ArchDetail::Arm64Detail(arm64) = detail.arch_detail();
    Some(match arm64.operands().nth(j)?.op_type {
        Fp(value) => value.to_string(),
        RegMrs(sysreg) | RegMsr(sysreg) => format!("{sysreg:?}"),
        Pstate(value) => format!("{value:?}"),
        Sys(value) => format!("{value:?}"),
        Prefetch(value) => format!("{value:?}"),
        Barrier(value) => format!("{value:?}"),
        SVCR(value) => format!("{value:?}"),
        SMEIndex(value) => format!("{value:?}"),
        Reg(_) | Imm(_) | Mem(_) | Cimm(_) | Invalid => String::new(),
    })
}

/// `Capstone::reg_name` of a register id.
#[verifier::external_body]
fn register_name(cs: &Capstone, id: u16) -> (r: Option<String>)
    ensures
        opt_chars(r) == capstone_arm64_register_name(id),
{
    cs.reg_name(RegId(id))
}

/// A register as a listing holds it: capstone's id and, when capstone has
/// one, its name.
#[derive(Debug, Clone, PartialEq, Eq)]
pub struct RawRegister {
    pub id: u16,
    pub name: Option<String>,
}

/// An operand as a listing holds it, before it is read into the model.
#[derive(Debug, Clone, PartialEq, Eq)]
pub enum RawOperand {
    Register(RawRegister),
    Immediate(i64),
    Memory { base: RawRegister, index: Option<String>, displacement: i32 },
    Float(String),
    Cimm(i64),
    SystemRegister(String),
    Other(String),
    Invalid,
}

/// The detail a listing holds for an instruction.
#[derive(Debug, Clone, PartialEq, Eq)]
pub struct RawDetail {
    pub writeback: bool,
    pub operands: Vec<RawOperand>,
}

/// One instruction as a listing holds it: where it sits, its bytes, its
/// mnemonic and its detail, or the message of the error that stood in for
/// the detail.
#[derive(Debug, PartialEq, Eq)]
pub struct RawInstruction {
    pub address: u64,
    pub bytes: Vec<u8>,
    pub mnemonic: Option<String>,
    pub detail: Result<RawDetail, String>,
}

/// A register, as characters.
pub struct RegisterView {
    pub id: u16,
    pub name: Option<Seq<char>>,
}

/// An operand, as characters and numbers.
pub enum OperandView {
    Register(RegisterView),
    Immediate(i64),
    Memory(RegisterView, Option<Seq<char>>, i32),
    Float(Seq<char>),
    Cimm(i64),
    SystemRegister(Seq<char>),
    Other(Seq<char>),
    Invalid,
}

/// An instruction's detail, as characters and numbers.
pub struct DetailView {
    pub writeback: bool,
    pub operands: Seq<OperandView>,
}

/// An instruction of a listing, as characters and numbers.
pub struct InstructionView {
    pub address: u64,
    pub bytes: Seq<u8>,
    pub mnemonic: Option<Seq<char>>,
    pub detail: Result<DetailView, Seq<char>>,
}

impl View for RawRegister {
    type V = RegisterView;

    open spec fn view(&self) -> RegisterView {
        RegisterView { id: self.id, name: opt_chars(self.name) }
    }
}

impl View for RawOperand {
    type V = OperandView;

    open spec fn view(&self) -> OperandView {
        match *self {
            RawOperand::Register(r) => OperandView::Register(r@),
            RawOperand::Immediate(v) => OperandView::Immediate(v),
            RawOperand::Memory { base, index, displacement } => OperandView::Memory(
                base@,
                opt_chars(index),
                displacement,
            ),
            RawOperand::Float(t) => OperandView::Float(t@),
            RawOperand::Cimm(v) => OperandView::Cimm(v),
            RawOperand::SystemRegister(t) => OperandView::SystemRegister(t@),
            RawOperand::Other(t) => OperandView::Other(t@),
            RawOperand::Invalid => OperandView::Invalid,
        }
    }
}

/// The views of a sequence of operands.
pub open spec fn operand_views(ops: Seq<RawOperand>) -> Seq<OperandView> {
    ops.map_values(|o: RawOperand| o@)
}

impl View for RawDetail {
    type V = DetailView;

    open spec fn view(&self) -> DetailView {
        DetailView { writeback: self.writeback, operands: operand_views(self.operands@) }
    }
}

impl View for RawInstruction {
    type V = InstructionView;

    open spec fn view(&self) -> InstructionView {
        InstructionView {
            address: self.address,
            bytes: self.bytes@,
            mnemonic: opt_chars(self.mnemonic),
            detail: match self.detail {
                Ok(d) => Ok(d@),
                Err(m) => Err(m@),
            },
        }
    }
}

/// The views of a sequence of listing instructions.
pub open spec fn listing_views(listing: Seq<RawInstruction>) -> Seq<InstructionView> {
    listing.map_values(|r: RawInstruction| r@)
}

/// A register id with the name the AArch64 decoder gives it.
pub open spec fn named_register(id: u16) -> RegisterView {
    RegisterView { id, name: capstone_arm64_register_name(id) }
}

/// An operand capstone reports, with its registers named.
pub open spec fn capstone_operand_view(o: CapstoneOperand) -> OperandView {
    match o.shape {
        OperandShape::Register(id) => OperandView::Register(named_register(id)),
        OperandShape::Immediate(v) => OperandView::Immediate(v),
        OperandShape::Memory(base, index, disp) => OperandView::Memory(
            named_register(base),
            capstone_arm64_register_name(index),
            disp,
        ),
        OperandShape::Float => OperandView::Float(o.text),
        OperandShape::Cimm(v) => OperandView::Cimm(v),
        OperandShape::SystemRegister => OperandView::SystemRegister(o.text),
        OperandShape::Other => OperandView::Other(o.text),
        OperandShape::Invalid => OperandView::Invalid,
    }
}

/// An instruction capstone reports, with its registers named.
pub open spec fn capstone_view(c: CapstoneInsn) -> InstructionView {
    InstructionView {
        address: c.address,
        bytes: c.bytes,
        mnemonic: c.mnemonic,
        detail: match c.detail {
            Ok(d) => Ok(
                DetailView {
                    writeback: d.writeback,
                    operands: d.operands.map_values(|o: CapstoneOperand| capstone_operand_view(o)),
                },
            ),
            Err(m) => Err(m),
        },
    }
}

/// The listing capstone reports for `bytes` at `start_address`, with its
/// registers named.
pub open spec fn capstone_listing(bytes: Seq<u8>, start_address: u64) -> Seq<InstructionView> {
    capstone_arm64_listing(bytes, start_address).map_values(|c: CapstoneInsn| capstone_view(c))
}

/// Reads operand `j` of instruction `i` out of capstone's report.
fn read_operand(cs: &Capstone, insns: &Instructions, i: usize, j: usize) -> (r: RawOperand)
    requires
        i < disassembled(*insns).len(),
        disassembled(*insns)[i as int].detail is Ok,
        j < disassembled(*insns)[i as int].detail->Ok_0.operands.len(),
    ensures
        r@ == capstone_operand_view(disassembled(*insns)[i as int].detail->Ok_0.operands[j as int]),
{
    let shape = match operand_shape(cs, insns, i, j) {
        Some(shape) => shape,
        None => return RawOperand::Invalid,
    };
    match shape {
        OperandShape::Register(id) => RawOperand::Register(RawRegister { id, name: register_name(cs, id) }),
        OperandShape::Immediate(v) => RawOperand::Immediate(v),
        OperandShape::Memory(base, index, displacement) => RawOperand::Memory {
            base: RawRegister { id: base, name: register_name(cs, base) },
            index: register_name(cs, index),
            displacement,
        },
        OperandShape::Cimm(v) => RawOperand::Cimm(v),
        OperandShape::Invalid => RawOperand::Invalid,
        OperandShape::Float | OperandShape::SystemRegister | OperandShape::Other => {
            let text = match operand_text(cs, insns, i, j) {
                Some(t) => t,
                None => return RawOperand::Invalid,
            };
            match shape {
                OperandShape::Float => RawOperand::Float(text),
                OperandShape::SystemRegister => RawOperand::SystemRegister(text),
                _ => RawOperand::Other(text),
            }
        },
    }
}

/// Reads the first `limit` instructions (or all, when there are fewer) out
/// of capstone's report.
fn read_listing(cs: &Capstone, insns: &Instructions, limit: usize) -> (r: Vec<RawInstruction>)
    ensures
        r@.len() == if disassembled(*insns).len() < limit { disassembled(*insns).len() } else { limit as nat },
        forall|i: int| 0 <= i < r@.len() ==> #[trigger] r@[i]@ == capstone_view(disassembled(*insns)[i]),
{
    let count = instruction_count(insns);
    let n = if count < limit { count } else { limit };
    let mut listing: Vec<RawInstruction> = Vec::new();
    let mut i: usize = 0;
    while i < n
        invariant
            n <= disassembled(*insns).len(),
            n == if disassembled(*insns).len() < limit { disassembled(*insns).len() } else { limit as nat },
            i <= n,
            listing@.len() == i,
            forall|k: int| 0 <= k < i ==> #[trigger] listing@[k]@ == capstone_view(disassembled(*insns)[k]),
        decreases n - i,
    {
        let ghost c = disassembled(*insns)[i as int];
        let address = instruction_address(insns, i);
        let bytes = instruction_bytes(insns, i);
        let mnemonic = instruction_mnemonic(insns, i);
        let detail = match instruction_detail(cs, insns, i) {
            Ok((writeback, op_count)) => {
                let ghost d = c.detail->Ok_0;
                let mut operands: Vec<RawOperand> = Vec::new();
                let mut j: usize = 0;
                while j < op_count
                    invariant
                        i < disassembled(*insns).len(),
                        c == disassembled(*insns)[i as int],
                        c.detail is Ok,
                        d == c.detail->Ok_0,
                        op_count == d.operands.len(),
                        j <= op_count,
                        operands@.len() == j,
                        forall|k: int| 0 <= k < j ==> #[trigger] operands@[k]@ == capstone_operand_view(d.operands[k]),
                    decreases op_count - j,
                {
                    let op = read_operand(cs, insns, i, j);
                    operands.push(op);
                    j = j + 1;
                }
                assert(operand_views(operands@) =~= d.operands.map_values(|o: CapstoneOperand| capstone_operand_view(o)));
                Ok(RawDetail { writeback, operands })
            },
            Err(message) => Err(message),
        };
        let raw = RawInstruction { address, bytes, mnemonic, detail };
        assert(raw@ == capstone_view(c));
        listing.push(raw);
        i = i + 1;
    }
    listing
}

/// Why decoding fails.
#[derive(Debug, Clone, PartialEq, Eq)]
pub enum DecodeError {
    UnsupportedArchitecture,
    InvalidInstruction(String),
}

/// The message of a decoding error.
pub open spec fn decode_error_text(e: DecodeError) -> Seq<char> {
    match e {
        DecodeError::UnsupportedArchitecture => "unsupported architecture for decoder"@,
        DecodeError::InvalidInstruction(m) => "invalid instruction stream: "@ + m@,
    }
}

impl DecodeError {
    /// The error's message.
    pub fn to_text(&self) -> (r: String)
        ensures
            r@ == decode_error_text(*self),
    {
        match self {
            DecodeError::UnsupportedArchitecture => String::from_str(
                "unsupported architecture for decoder",
            ),
            DecodeError::InvalidInstruction(m) => {
                let mut out = String::from_str("invalid instruction stream: ");
                out.append(m.as_str());
                out
            },
        }
    }
}

/// capstone's debug form of a register id: `RegId(` and the id in decimal,
/// then `)`.
pub open spec fn register_debug(id: u16) -> Seq<char> {
    seq!['R', 'e', 'g', 'I', 'd', '('] + decimal(id as nat) + seq![')']
}

/// How a register is printed: its name, or its debug form when it has none.
pub open spec fn register_text(r: RegisterView) -> Seq<char> {
    match r.name {
        Some(n) => n,
        None => register_debug(r.id),
    }
}

/// The mnemonic of an instruction, `unknown` when capstone gives none.
pub open spec fn mnemonic_text(m: Option<Seq<char>>) -> Seq<char> {
    match m {
        Some(t) => t,
        None => "unknown"@,
    }
}

/// Mnemonics whose non-negative immediates are addresses: those starting
/// with `b`, and `adr` and `adrp`.
pub open spec fn is_label_mnemonic(l: Seq<char>) -> bool {
    ||| (l.len() > 0 && l[0] == 'b')
    ||| l == seq!['a', 'd', 'r']
    ||| l == seq!['a', 'd', 'r', 'p']
}

/// Mnemonics of branches: those starting with `b`, `cb` or `tb`.
pub open spec fn is_branch_mnemonic(l: Seq<char>) -> bool {
    ||| (l.len() > 0 && l[0] == 'b')
    ||| (l.len() > 1 && l[0] == 'c' && l[1] == 'b')
    ||| (l.len() > 1 && l[0] == 't' && l[1] == 'b')
}

/// The reference a non-negative immediate `target` makes in an instruction
/// with lower-case mnemonic `l`.
pub open spec fn reference_for(l: Seq<char>, target: u64) -> Reference {
    if l == seq!['b', 'l'] {
        Reference::Call { target }
    } else if l == seq!['a', 'd', 'r'] || l == seq!['a', 'd', 'r', 'p'] {
        Reference::Page { target }
    } else if is_branch_mnemonic(l) {
        Reference::Branch { target }
    } else {
        Reference::Data { target }
    }
}

/// The references an operand makes: one for a non-negative immediate,
/// none otherwise.
pub open spec fn operand_references(l: Seq<char>, op: OperandView) -> Seq<Reference> {
    match op {
        OperandView::Immediate(v) => if v >= 0 {
            seq![reference_for(l, v as u64)]
        } else {
            seq![]
        },
        _ => seq![],
    }
}

/// The references the operands make, in operand order.
pub open spec fn references_of(l: Seq<char>, ops: Seq<OperandView>) -> Seq<Reference>
    decreases ops.len(),
{
    if ops.len() == 0 {
        seq![]
    } else {
        references_of(l, ops.drop_last()) + operand_references(l, ops.last())
    }
}

/// Mnemonics of calls through a register: `blr` and its
/// pointer-authenticating forms.
pub open spec fn is_indirect_call_mnemonic(l: Seq<char>) -> bool {
    ||| l == "blr"@
    ||| l == "blraa"@
    ||| l == "blrab"@
    ||| l == "blraaz"@
    ||| l == "blrabz"@
}

/// Mnemonics of branches through a register: `br` and its
/// pointer-authenticating forms.
pub open spec fn is_indirect_branch_mnemonic(l: Seq<char>) -> bool {
    ||| l == "br"@
    ||| l == "braa"@
    ||| l == "brab"@
    ||| l == "braaz"@
    ||| l == "brabz"@
}

/// The register an indirect call or branch goes through: its first
/// operand, when that is a register.
pub open spec fn indirect_via(l: Seq<char>, ops: Seq<OperandView>) -> Option<Seq<char>> {
    if (is_indirect_call_mnemonic(l) || is_indirect_branch_mnemonic(l)) && ops.len() > 0
        && ops[0] is Register {
        Some(register_text(ops[0]->Register_0))
    } else {
        None
    }
}

/// The references an instruction makes: first, for a call or branch
/// through a register, an indirect call or branch via that register; then
/// those of its immediates (`references_of`).
pub open spec fn references_from(rs: Seq<Reference>, l: Seq<char>, ops: Seq<OperandView>) -> bool {
    match indirect_via(l, ops) {
        Some(via) => {
            &&& rs.len() >= 1
            &&& if is_indirect_call_mnemonic(l) {
                rs[0] matches Reference::IndirectCall { via: v } && v@ == via
            } else {
                rs[0] matches Reference::IndirectBranch { via: v } && v@ == via
            }
            &&& rs.drop_first() == references_of(l, ops)
        },
        None => rs == references_of(l, ops),
    }
}

/// `op` is how the model reads operand `raw` of an instruction with
/// lower-case mnemonic `l` and write-back flag `writeback`.
pub open spec fn operand_from(op: Operand, raw: OperandView, l: Seq<char>, writeback: bool) -> bool {
    match raw {
        OperandView::Register(r) => op matches Operand::Register(s) && s@ == register_text(r),
        OperandView::Immediate(v) => if is_label_mnemonic(l) && v >= 0 {
            op == Operand::Label(v as u64)
        } else if v < 0 {
            op == Operand::ImmediateSigned(v)
        } else {
            op == Operand::ImmediateUnsigned(v as u64)
        },
        OperandView::Memory(base, index, displacement) => match op {
            Operand::Memory { base: b, index: i, displacement: d, writeback: w } => {
                &&& b@ == register_text(base)
                &&& opt_chars(i) == index
                &&& d == displacement as i64
                &&& opt_chars(w) == if writeback {
                    Some("!"@)
                } else {
                    None
                }
            },
            _ => false,
        },
        OperandView::Float(t) => op matches Operand::Other(s) && s@ == "#"@ + t,
        OperandView::Cimm(v) => op == Operand::ImmediateSigned(v),
        OperandView::SystemRegister(t) => op matches Operand::SystemRegister(s) && s@ == t,
        OperandView::Other(t) => op matches Operand::Other(s) && s@ == t,
        OperandView::Invalid => op matches Operand::Other(s) && s@ == "<invalid>"@,
    }
}

/// The size recorded for an instruction of `len` bytes: the length, or 4
/// when it does not fit in a byte.
pub open spec fn instruction_size(len: nat) -> u8 {
    if len <= 255 {
        len as u8
    } else {
        4
    }
}

/// Byte `k` of `bytes`, zero past the end.
pub open spec fn byte_or_zero(bytes: Seq<u8>, k: int) -> int {
    if k < bytes.len() {
        bytes[k] as int
    } else {
        0
    }
}

/// The first four bytes (zero-padded) read as a little-endian word.
pub open spec fn opcode_of(bytes: Seq<u8>) -> int {
    byte_or_zero(bytes, 0) + byte_or_zero(bytes, 1) * 0x100 + byte_or_zero(bytes, 2) * 0x1_0000
        + byte_or_zero(bytes, 3) * 0x100_0000
}

/// The notes of an instruction: `range start` on the one at the start
/// address, none elsewhere.
pub open spec fn notes_for(a: Seq<Annotation>, at_start: bool) -> bool {
    if at_start {
        &&& a.len() == 1
        &&& a[0] matches Annotation::Note(n) && n@ == "range start"@
    } else {
        a.len() == 0
    }
}

/// `d` carries what the model reads from listing instruction `raw`: its
/// address, size, opcode, mnemonic, operands and references (everything
/// but the notes); there is nothing to read when the detail is an error.
pub open spec fn decoded_body(d: DecodedInstruction, raw: InstructionView) -> bool {
    match raw.detail {
        Ok(detail) => {
            let m = mnemonic_text(raw.mnemonic);
            let l = ascii_lower(m);
            &&& d.address == raw.address
            &&& d.size == instruction_size(raw.bytes.len())
            &&& d.opcode == opcode_of(raw.bytes)
            &&& d.mnemonic@ == m
            &&& d.operands@.len() == detail.operands.len()
            &&& forall|k: int|
                0 <= k < detail.operands.len() ==> operand_from(
                    #[trigger] d.operands@[k],
                    detail.operands[k],
                    l,
                    detail.writeback,
                )
            &&& references_from(d.references@, l, detail.operands)
        },
        Err(_) => false,
    }
}

/// `d` is the model's reading of listing instruction `raw` in a range that
/// starts at `start_address`, notes included.
pub open spec fn decoded_from(d: DecodedInstruction, raw: InstructionView, start_address: u64) -> bool {
    decoded_body(d, raw) && notes_for(d.annotations@, raw.address == start_address)
}

/// How many instructions of a listing of `len` are decoded under an
/// optional limit.
pub open spec fn decode_count(len: nat, max_instructions: Option<usize>) -> nat {
    match max_instructions {
        Some(m) => if len < m {
            len
        } else {
            m as nat
        },
        None => if len < usize::MAX {
            len
        } else {
            usize::MAX as nat
        },
    }
}

/// `v` decodes the first `decode_count` instructions of `listing`, in order.
pub open spec fn decodes_to(
    v: Seq<DecodedInstruction>,
    listing: Seq<InstructionView>,
    start_address: u64,
    max_instructions: Option<usize>,
) -> bool {
    &&& v.len() == decode_count(listing.len(), max_instructions)
    &&& forall|i: int| 0 <= i < v.len() ==> decoded_from(#[trigger] v[i], listing[i], start_address)
}

/// Instruction `i` is the first of the first `n` whose detail is an error.
pub open spec fn first_failure(listing: Seq<InstructionView>, n: nat, i: int) -> bool {
    &&& 0 <= i < n
    &&& i < listing.len()
    &&& listing[i].detail is Err
    &&& forall|j: int| 0 <= j < i ==> (#[trigger] listing[j].detail) is Ok
}

/// The decoding of a listing: the instructions, or the error of the first
/// one whose detail failed.
pub open spec fn decode_outcome(
    r: Result<Vec<DecodedInstruction>, DecodeError>,
    listing: Seq<InstructionView>,
    start_address: u64,
    max_instructions: Option<usize>,
) -> bool {
    match r {
        Ok(v) => decodes_to(v@, listing, start_address, max_instructions),
        Err(e) => exists|i: int|
            first_failure(listing, decode_count(listing.len(), max_instructions), i) && (e matches DecodeError::InvalidInstruction(m)
                && listing[i].detail == Err::<DetailView, Seq<char>>(m@)),
    }
}

/// The printed register.
fn register_string(r: &RawRegister) -> (s: String)
    ensures
        s@ == register_text(r@),
{
    match &r.name {
        Some(n) => n.clone(),
        None => {
            let mut out = String::from_str("RegId(");
            let digits = decimal_string(r.id as u64);
            out.append(digits.as_str());
            push_char(&mut out, ')');
            proof {
                reveal_strlit("RegId(");
            }
            assert(out@ =~= register_debug(r.id));
            out
        },
    }
}

/// Whether `v` holds exactly the given characters.
fn chars_are(v: &Vec<char>, expected: &[char]) -> (r: bool)
    ensures
        r == (v@ == expected@),
{
    if v.len() != expected.len() {
        return false;
    }
    let mut i: usize = 0;
    while i < v.len()
        invariant
            v@.len() == expected@.len(),
            i <= v@.len(),
            forall|k: int| 0 <= k < i ==> v@[k] == expected@[k],
        decreases v@.len() - i,
    {
        if v[i] != expected[i] {
            return false;
        }
        i = i + 1;
    }
    assert(v@ =~= expected@);
    true
}

/// Whether `v` starts with the two characters `a` and `b`.
fn starts_with_two(v: &Vec<char>, a: char, b: char) -> (r: bool)
    ensures
        r == (v@.len() > 1 && v@[0] == a && v@[1] == b),
{
    v.len() > 1 && v[0] == a && v[1] == b
}

/// Whether the lower-case mnemonic is `adr` or `adrp`.
fn is_page_mnemonic(l: &Vec<char>) -> (r: bool)
    ensures
        r == (l@ == seq!['a', 'd', 'r'] || l@ == seq!['a', 'd', 'r', 'p']),
{
    let adr = ['a', 'd', 'r'];
    let adrp = ['a', 'd', 'r', 'p'];
    let r = chars_are(l, &adr) || chars_are(l, &adrp);
    assert(adr@ == seq!['a', 'd', 'r']);
    assert(adrp@ == seq!['a', 'd', 'r', 'p']);
    r
}

/// Reads one operand into the model.
pub fn map_operand(raw: &RawOperand, lower: &Vec<char>, writeback: bool) -> (op: Operand)
    ensures
        operand_from(op, raw@, lower@, writeback),
{
    match raw {
        RawOperand::Register(r) => Operand::Register(register_string(r)),
        RawOperand::Immediate(v) => {
            let label = (lower.len() > 0 && lower[0] == 'b') || is_page_mnemonic(lower);
            if label && *v >= 0 {
                Operand::Label(*v as u64)
            } else if *v < 0 {
                Operand::ImmediateSigned(*v)
            } else {
                Operand::ImmediateUnsigned(*v as u64)
            }
        },
        RawOperand::Memory { base, index, displacement } => {
            let index_name = match index {
                Some(i) => Some(i.clone()),
                None => None,
            };
            let mark = if writeback {
                Some(String::from_str("!"))
            } else {
                None
            };
            Operand::Memory {
                base: register_string(base),
                index: index_name,
                displacement: *displacement as i64,
                writeback: mark,
            }
        },
        RawOperand::Float(t) => {
            let mut out = String::from_str("#");
            out.append(t.as_str());
            Operand::Other(out)
        },
        RawOperand::Cimm(v) => Operand::ImmediateSigned(*v),
        RawOperand::SystemRegister(t) => Operand::SystemRegister(t.clone()),
        RawOperand::Other(t) => Operand::Other(t.clone()),
        RawOperand::Invalid => Operand::Other(String::from_str("<invalid>")),
    }
}

/// The reference a non-negative immediate makes.
fn reference_to(lower: &Vec<char>, target: u64) -> (r: Reference)
    ensures
        r == reference_for(lower@, target),
{
    let bl = ['b', 'l'];
    assert(bl@ == seq!['b', 'l']);
    if chars_are(lower, &bl) {
        Reference::Call { target }
    } else if is_page_mnemonic(lower) {
        Reference::Page { target }
    } else if (lower.len() > 0 && lower[0] == 'b') || starts_with_two(lower, 'c', 'b')
        || starts_with_two(lower, 't', 'b') {
        Reference::Branch { target }
    } else {
        Reference::Data { target }
    }
}

/// Whether the lower-case mnemonic is a call through a register.
fn indirect_call_mnemonic(l: &Vec<char>) -> (r: bool)
    ensures
        r == is_indirect_call_mnemonic(l@),
{
    let a = ['b', 'l', 'r'];
    let b = ['b', 'l', 'r', 'a', 'a'];
    let c = ['b', 'l', 'r', 'a', 'b'];
    let d = ['b', 'l', 'r', 'a', 'a', 'z'];
    let e = ['b', 'l', 'r', 'a', 'b', 'z'];
    proof {
        reveal_strlit("blr");
        reveal_strlit("blraa");
        reveal_strlit("blrab");
        reveal_strlit("blraaz");
        reveal_strlit("blrabz");
    }
    assert(a@ =~= "blr"@);
    assert(b@ =~= "blraa"@);
    assert(c@ =~= "blrab"@);
    assert(d@ =~= "blraaz"@);
    assert(e@ =~= "blrabz"@);
    chars_are(l, &a) || chars_are(l, &b) || chars_are(l, &c) || chars_are(l, &d) || chars_are(l, &e)
}

/// Whether the lower-case mnemonic is a branch through a register.
fn indirect_branch_mnemonic(l: &Vec<char>) -> (r: bool)
    ensures
        r == is_indirect_branch_mnemonic(l@),
{
    let a = ['b', 'r'];
    let b = ['b', 'r', 'a', 'a'];
    let c = ['b', 'r', 'a', 'b'];
    let d = ['b', 'r', 'a', 'a', 'z'];
    let e = ['b', 'r', 'a', 'b', 'z'];
    proof {
        reveal_strlit("br");
        reveal_strlit("braa");
        reveal_strlit("brab");
        reveal_strlit("braaz");
        reveal_strlit("brabz");
    }
    assert(a@ =~= "br"@);
    assert(b@ =~= "braa"@);
    assert(c@ =~= "brab"@);
    assert(d@ =~= "braaz"@);
    assert(e@ =~= "brabz"@);
    chars_are(l, &a) || chars_are(l, &b) || chars_are(l, &c) || chars_are(l, &d) || chars_are(l, &e)
}

/// The references an instruction makes (see `references_from`): an
/// indirect call or branch through its register operand, then one for each
/// non-negative immediate, in operand order.
pub fn derive_references(lower: &Vec<char>, operands: &Vec<RawOperand>) -> (r: Vec<Reference>)
    ensures
        references_from(r@, lower@, operand_views(operands@)),
{
    let ghost views = operand_views(operands@);
    let mut references: Vec<Reference> = Vec::new();
    let call = indirect_call_mnemonic(lower);
    let branch = indirect_branch_mnemonic(lower);
    if (call || branch) && operands.len() > 0 {
        match &operands[0] {
            RawOperand::Register(reg) => {
                let via = register_string(reg);
                if call {
                    references.push(Reference::IndirectCall { via });
                } else {
                    references.push(Reference::IndirectBranch { via });
                }
            },
            _ => {},
        }
    }
    let ghost prefix = references@;
    assert(prefix.len() <= 1);
    let mut i: usize = 0;
    while i < operands.len()
        invariant
            i <= operands@.len(),
            views == operand_views(operands@),
            references@ == prefix + references_of(lower@, views.take(i as int)),
        decreases operands@.len() - i,
    {
        assert(views.take(i + 1).drop_last() =~= views.take(i as int));
        assert(views.take(i + 1).last() == operands@[i as int]@);
        match &operands[i] {
            RawOperand::Immediate(v) => {
                if *v >= 0 {
                    references.push(reference_to(lower, *v as u64));
                }
            },
            _ => {},
        }
        assert(references@ =~= prefix + references_of(lower@, views.take(i + 1)));
        i = i + 1;
    }
    assert(views.take(operands@.len() as int) =~= views);
    assert(references@.drop_first() =~= references_of(lower@, views) || prefix.len() == 0);
    references
}

/// The first four bytes (zero-padded) as a little-endian word.
pub fn opcode_from_bytes(bytes: &Vec<u8>) -> (r: u32)
    ensures
        r == opcode_of(bytes@),
{
    let b0: u32 = if bytes.len() > 0 { bytes[0] as u32 } else { 0 };
    let b1: u32 = if bytes.len() > 1 { bytes[1] as u32 } else { 0 };
    let b2: u32 = if bytes.len() > 2 { bytes[2] as u32 } else { 0 };
    let b3: u32 = if bytes.len() > 3 { bytes[3] as u32 } else { 0 };
    b0 + b1 * 0x100 + b2 * 0x1_0000 + b3 * 0x100_0000
}

/// Reads one listing instruction into the model; the error of its detail
/// when that failed.
pub fn decode_instruction(raw: &RawInstruction, start_address: u64) -> (r: Result<
    DecodedInstruction,
    DecodeError,
>)
    ensures
        match raw@.detail {
            Ok(_) => r matches Ok(d) && decoded_from(d, raw@, start_address),
            Err(m) => r matches Err(DecodeError::InvalidInstruction(e)) && e@ == m,
        },
{
    let detail = match &raw.detail {
        Ok(d) => d,
        Err(m) => return Err(DecodeError::InvalidInstruction(m.clone())),
    };
    let mnemonic = match &raw.mnemonic {
        Some(m) => m.clone(),
        None => String::from_str("unknown"),
    };
    let lower = ascii_lower_vec(mnemonic.as_str());
    let mut operands: Vec<Operand> = Vec::new();
    let mut k: usize = 0;
    while k < detail.operands.len()
        invariant
            k <= detail.operands@.len(),
            operands@.len() == k,
            forall|j: int|
                0 <= j < k ==> operand_from(
                    #[trigger] operands@[j],
                    detail.operands@[j]@,
                    lower@,
                    detail.writeback,
                ),
        decreases detail.operands@.len() - k,
    {
        let op = map_operand(&detail.operands[k], &lower, detail.writeback);
        operands.push(op);
        k = k + 1;
    }
    let references = derive_references(&lower, &detail.operands);
    let mut annotations: Vec<Annotation> = Vec::new();
    if raw.address == start_address {
        annotations.push(Annotation::Note(String::from_str("range start")));
    }
    let len = raw.bytes.len();
    let size: u8 = if len <= 255 { len as u8 } else { 4 };
    let opcode = opcode_from_bytes(&raw.bytes);
    let d = DecodedInstruction {
        address: raw.address,
        size,
        opcode,
        mnemonic,
        operands,
        references,
        annotations,
    };
    assert(raw@.detail == Ok::<DetailView, Seq<char>>(detail@));
    Ok(d)
}

/// Decodes the first `max_instructions` instructions of a listing (all of
/// them when no limit is given), stopping at the first whose detail failed.
pub fn decode_listing(
    listing: &Vec<RawInstruction>,
    start_address: u64,
    max_instructions: Option<usize>,
) -> (r: Result<Vec<DecodedInstruction>, DecodeError>)
    ensures
        decode_outcome(r, listing_views(listing@), start_address, max_instructions),
{
    let ghost views = listing_views(listing@);
    let limit = match max_instructions {
        Some(m) => m,
        None => usize::MAX,
    };
    let n = if listing.len() < limit { listing.len() } else { limit };
    assert(n == decode_count(views.len(), max_instructions));
    let mut instructions: Vec<DecodedInstruction> = Vec::new();
    let mut i: usize = 0;
    while i < n
        invariant
            views == listing_views(listing@),
            n == decode_count(views.len(), max_instructions),
            n <= listing@.len(),
            i <= n,
            instructions@.len() == i,
            forall|j: int| 0 <= j < i ==> (#[trigger] views[j].detail) is Ok,
            forall|j: int|
                0 <= j < i ==> decoded_from(#[trigger] instructions@[j], views[j], start_address),
        decreases n - i,
    {
        assert(views[i as int] == listing@[i as int]@);
        match decode_instruction(&listing[i], start_address) {
            Ok(d) => instructions.push(d),
            Err(e) => {
                assert(first_failure(views, n as nat, i as int));
                return Err(e);
            },
        }
        i = i + 1;
    }
    Ok(instructions)
}

/// The limit on how many instructions are read: the given one, or no limit.
fn instruction_limit(max_instructions: Option<usize>) -> (r: usize)
    ensures
        r == match max_instructions {
            Some(m) => m,
            None => usize::MAX,
        },
{
    match max_instructions {
        Some(m) => m,
        None => usize::MAX,
    }
}

/// Every decoded instruction is four bytes wide: instruction `k` holds
/// bytes `4k` to `4k + 4` as its opcode (little-endian) and, when no
/// address wraps, sits at `start_address + 4k`.
pub open spec fn fixed_width(v: Seq<DecodedInstruction>, bytes: Seq<u8>, start_address: u64) -> bool {
    &&& 4 * v.len() <= bytes.len()
    &&& forall|k: int|
        0 <= k < v.len() ==> (#[trigger] v[k]).size == 4 && v[k].opcode == opcode_of(
            bytes.subrange(4 * k, 4 * k + 4),
        )
    &&& start_address + bytes.len() <= u64::MAX ==> forall|k: int|
        0 <= k < v.len() ==> (#[trigger] v[k]).address == start_address + 4 * k
}

/// A limit only cuts decoding short: with a limit of `n` the decoding holds
/// the first `n` instructions (all, when there are fewer) of the same
/// listing the unlimited decoding reads, each read the same way: the same
/// address, size, opcode and mnemonic, as many operands and notes.
pub proof fn lemma_limit_is_prefix(
    limited: Seq<DecodedInstruction>,
    full: Seq<DecodedInstruction>,
    listing: Seq<InstructionView>,
    start_address: u64,
    n: usize,
)
    requires
        decodes_to(limited, listing, start_address, Some(n)),
        decodes_to(full, listing, start_address, None),
        listing.len() < usize::MAX,
    ensures
        limited.len() == if full.len() < n {
            full.len()
        } else {
            n as nat
        },
        forall|i: int|
            0 <= i < limited.len() ==> i < full.len() && decoded_from(
                #[trigger] limited[i],
                listing[i],
                start_address,
            ) && decoded_from(full[i], listing[i], start_address),
        forall|i: int|
            0 <= i < limited.len() ==> {
                &&& (#[trigger] limited[i]).address == full[i].address
                &&& limited[i].size == full[i].size
                &&& limited[i].opcode == full[i].opcode
                &&& limited[i].mnemonic@ == full[i].mnemonic@
                &&& limited[i].operands@.len() == full[i].operands@.len()
                &&& limited[i].annotations@.len() == full[i].annotations@.len()
            },
{
    assert forall|i: int| 0 <= i < limited.len() implies {
        &&& (#[trigger] limited[i]).address == full[i].address
        &&& limited[i].size == full[i].size
        &&& limited[i].opcode == full[i].opcode
        &&& limited[i].mnemonic@ == full[i].mnemonic@
        &&& limited[i].operands@.len() == full[i].operands@.len()
        &&& limited[i].annotations@.len() == full[i].annotations@.len()
    } by {
        assert(decoded_from(limited[i], listing[i], start_address));
        assert(decoded_from(full[i], listing[i], start_address));
    }
}

/// Decodes AArch64 machine code placed at `start_address`: at most
/// `max_instructions` instructions (all that capstone decodes when no limit
/// is given), each with its operands, references and notes.
pub fn decode_aarch64(bytes: &[u8], start_address: u64, max_instructions: Option<usize>) -> (r:
    Result<Vec<DecodedInstruction>, DecodeError>)
    ensures
        r matches Ok(v) ==> decodes_to(
            v@,
            capstone_listing(bytes@, start_address),
            start_address,
            max_instructions,
        ),
        r is Ok,
        r matches Ok(v) ==> fixed_width(v@, bytes@, start_address),
        r matches Ok(v) ==> (max_instructions matches Some(m) ==> v@.len() <= m),
        r matches Ok(v) ==> (v@.len() > 0 ==> notes_for(v@[0].annotations@, true)),
{
    let cs = match arm64_decoder() {
        Ok(cs) => cs,
        Err(m) => return Err(DecodeError::InvalidInstruction(m)),
    };
    let insns = match disassemble(&cs, bytes, start_address) {
        Ok(insns) => insns,
        Err(m) => return Err(DecodeError::InvalidInstruction(m)),
    };
    let limit = instruction_limit(max_instructions);
    let listing = read_listing(&cs, &insns, limit);
    let ghost full = capstone_listing(bytes@, start_address);
    let ghost views = listing_views(listing@);
    assert(full.len() == disassembled(insns).len());
    assert(views.len() == decode_count(full.len(), max_instructions));
    assert forall|i: int| 0 <= i < views.len() implies #[trigger] views[i] == full[i] by {
        assert(listing@[i]@ == capstone_view(disassembled(insns)[i]));
    }
    let r = decode_listing(&listing, start_address, max_instructions);
    let ghost raw = disassembled(insns);
    assert forall|i: int| 0 <= i < views.len() implies (#[trigger] views[i]).detail is Ok by {
        assert(views[i] == full[i]);
        assert(raw[i].detail is Ok);
    }
    match &r {
        Ok(v) => {
            assert forall|k: int| 0 <= k < v@.len() implies (#[trigger] v@[k]).size == 4
                && v@[k].opcode == opcode_of(bytes@.subrange(4 * k, 4 * k + 4)) by {
                assert(views[k] == full[k]);
                assert(decoded_from(v@[k], full[k], start_address));
                assert(raw[k].bytes == bytes@.subrange(4 * k, 4 * k + 4));
            }
            proof {
                if start_address + bytes@.len() <= u64::MAX {
                    assert forall|k: int| 0 <= k < v@.len() implies (#[trigger] v@[k]).address
                        == start_address + 4 * k by {
                        assert(views[k] == full[k]);
                        assert(decoded_from(v@[k], full[k], start_address));
                        assert(raw[k].address == start_address + 4 * k);
                    }
                }
            }
            assert(decode_count(views.len(), max_instructions) == views.len());
            assert forall|i: int| 0 <= i < v@.len() implies decoded_from(
                #[trigger] v@[i],
                full[i],
                start_address,
            ) by {
                assert(views[i] == full[i]);
            }
            if v.len() > 0 {
                assert(decoded_from(v@[0], full[0], start_address));
                assert(full[0].address == disassembled(insns)[0].address);
            }
        },
        Err(e) => {
            proof {
                let i = choose|i: int|
                    first_failure(views, decode_count(views.len(), max_instructions), i);
                assert(views[i].detail is Ok);
            }
        },
    }
    r
}

/// What decoding attaches to each instruction besides its operands.
#[derive(Debug, Clone, Copy, PartialEq, Eq, Structural)]
pub struct DisassemblyOptions {
    pub include_annotations: bool,
    pub include_value_flow: bool,
}

impl Default for DisassemblyOptions {
    /// Notes on, value flow off.
    fn default() -> (r: DisassemblyOptions)
        ensures
            r.include_annotations,
            !r.include_value_flow,
    {
        DisassemblyOptions { include_annotations: true, include_value_flow: false }
    }
}

/// The bytes a limit lets decoding see: the first `b` under a byte limit,
/// all of them otherwise.
pub open spec fn limited_bytes(bytes: Seq<u8>, limit: DisassemblyLimit) -> Seq<u8> {
    match limit {
        DisassemblyLimit::Bytes(b) => if b < bytes.len() {
            bytes.take(b as int)
        } else {
            bytes
        },
        _ => bytes,
    }
}

/// The instruction count a limit allows, if it limits instructions.
pub open spec fn limited_count(limit: DisassemblyLimit) -> Option<usize> {
    match limit {
        DisassemblyLimit::Instructions(n) => Some(n),
        _ => None,
    }
}

/// `v` decodes the first instructions of `listing` as a limit allows, with
/// the `range start` note only when notes are asked for.
pub open spec fn decodes_with(
    v: Seq<DecodedInstruction>,
    listing: Seq<InstructionView>,
    start_address: u64,
    max_instructions: Option<usize>,
    include_annotations: bool,
) -> bool {
    &&& v.len() == decode_count(listing.len(), max_instructions)
    &&& forall|i: int|
        0 <= i < v.len() ==> {
            &&& decoded_body(#[trigger] v[i], listing[i])
            &&& if include_annotations {
                notes_for(v[i].annotations@, listing[i].address == start_address)
            } else {
                v[i].annotations@.len() == 0
            }
        }
}

/// Decodes AArch64 machine code placed at `start_address` under a limit:
/// at most so many instructions, only the first so many bytes, or all;
/// notes are left off unless the options ask for them.
pub fn decode_aarch64_with_limit(
    bytes: &[u8],
    start_address: u64,
    limit: DisassemblyLimit,
    options: DisassemblyOptions,
) -> (r: Result<Vec<DecodedInstruction>, DecodeError>)
    ensures
        r matches Ok(v) ==> decodes_with(
            v@,
            capstone_listing(limited_bytes(bytes@, limit), start_address),
            start_address,
            limited_count(limit),
            options.include_annotations,
        ),
        r is Ok,
        r matches Ok(v) ==> fixed_width(v@, limited_bytes(bytes@, limit), start_address),
{
    let (window, max_instructions) = match limit {
        DisassemblyLimit::Bytes(b) => {
            let end = if b < bytes.len() { b } else { bytes.len() };
            let window = slice_subrange(bytes, 0, end);
            assert(window@ == limited_bytes(bytes@, limit));
            (window, None)
        },
        DisassemblyLimit::Instructions(n) => (bytes, Some(n)),
        DisassemblyLimit::Unlimited => (bytes, None),
    };
    let decoded = match decode_aarch64(window, start_address, max_instructions) {
        Ok(v) => v,
        Err(e) => return Err(e),
    };
    let ghost listing = capstone_listing(window@, start_address);
    if options.include_annotations {
        return Ok(decoded);
    }
    let ghost all = decoded@;
    let mut out: Vec<DecodedInstruction> = Vec::new();
    for d in it: decoded.into_iter()
        invariant
            it.seq() == all,
            all.len() == decode_count(listing.len(), max_instructions),
            forall|i: int| 0 <= i < all.len() ==> decoded_from(#[trigger] all[i], listing[i], start_address),
            out@.len() == it.index(),
            fixed_width(all, window@, start_address),
            forall|i: int|
                0 <= i < out@.len() ==> (#[trigger] out@[i]).address == all[i].address
                    && out@[i].size == all[i].size && out@[i].opcode == all[i].opcode,
            forall|i: int|
                0 <= i < out@.len() ==> decoded_body(#[trigger] out@[i], listing[i])
                    && out@[i].annotations@.len() == 0,
    {
        let ghost k = it.index() as int;
        assert(decoded_from(all[k], listing[k], start_address));
        let mut plain = d;
        plain.annotations = Vec::new();
        out.push(plain);
    }
    assert forall|k: int| 0 <= k < out@.len() implies (#[trigger] out@[k]).size == 4
        && out@[k].opcode == opcode_of(window@.subrange(4 * k, 4 * k + 4)) by {
        assert(all[k].size == 4);
    }
    proof {
        if start_address + window@.len() <= u64::MAX {
            assert forall|k: int| 0 <= k < out@.len() implies (#[trigger] out@[k]).address
                == start_address + 4 * k by {
                assert(all[k].address == start_address + 4 * k);
            }
        }
    }
    Ok(out)
}

/// The same as `decode_aarch64_with_limit`.
pub fn decode_aarch64_v2(
    bytes: &[u8],
    start_address: u64,
    limit: DisassemblyLimit,
    options: DisassemblyOptions,
) -> (r: Result<Vec<DecodedInstruction>, DecodeError>)
    ensures
        r matches Ok(v) ==> decodes_with(
            v@,
            capstone_listing(limited_bytes(bytes@, limit), start_address),
            start_address,
            limited_count(limit),
            options.include_annotations,
        ),
        r is Ok,
        r matches Ok(v) ==> fixed_width(v@, limited_bytes(bytes@, limit), start_address),
{
    decode_aarch64_with_limit(bytes, start_address, limit, options)
}


/// Each reference of `references_of(l, ops)` is the reference of one
/// non-negative immediate of `ops`, and each such immediate makes one.
proof fn lemma_references_of_members(l: Seq<char>, ops: Seq<OperandView>)
    ensures
        forall|j: int|
            0 <= j < references_of(l, ops).len() ==> exists|k: int|
                0 <= k < ops.len() && ops[k] is Immediate && ops[k]->Immediate_0 >= 0
                    && #[trigger] references_of(l, ops)[j] == reference_for(l, ops[k]->Immediate_0 as u64),
        forall|k: int|
            0 <= k < ops.len() && (#[trigger] ops[k]) is Immediate && ops[k]->Immediate_0 >= 0
                ==> references_of(l, ops).contains(reference_for(l, ops[k]->Immediate_0 as u64)),
    decreases ops.len(),
{
    if ops.len() > 0 {
        let front = ops.drop_last();
        lemma_references_of_members(l, front);
        let a = references_of(l, front);
        let b = operand_references(l, ops.last());
        let r = references_of(l, ops);
        assert(r == a + b);
        assert forall|j: int| 0 <= j < r.len() implies exists|k: int|
            0 <= k < ops.len() && ops[k] is Immediate && ops[k]->Immediate_0 >= 0
                && #[trigger] r[j] == reference_for(l, ops[k]->Immediate_0 as u64) by {
            if j < a.len() {
                assert(r[j] == a[j]);
                let k = choose|k: int|
                    0 <= k < front.len() && front[k] is Immediate && front[k]->Immediate_0 >= 0
                        && #[trigger] a[j] == reference_for(l, front[k]->Immediate_0 as u64);
                assert(ops[k] == front[k]);
            } else {
                assert(r[j] == b[j - a.len()]);
                assert(ops[ops.len() - 1] == ops.last());
            }
        }
        assert forall|k: int|
            0 <= k < ops.len() && (#[trigger] ops[k]) is Immediate && ops[k]->Immediate_0 >= 0
                implies r.contains(reference_for(l, ops[k]->Immediate_0 as u64)) by {
            let t = reference_for(l, ops[k]->Immediate_0 as u64);
            if k < front.len() {
                assert(front[k] == ops[k]);
                let j = choose|j: int| 0 <= j < a.len() && a[j] == t;
                assert(r[j] == a[j]);
            } else {
                assert(ops.last() == ops[k]);
                assert(b == seq![t]);
                assert(r[a.len() as int] == t);
            }
        }
    }
}

/// Calls and branches through a register have mnemonics starting `br` or
/// `blr`.
proof fn lemma_not_indirect(l: Seq<char>)
    ensures
        is_indirect_call_mnemonic(l) || is_indirect_branch_mnemonic(l) ==> l.len() >= 2 && l[0] == 'b'
            && (l[1] == 'r' || (l.len() >= 3 && l[1] == 'l' && l[2] == 'r')),
{
    reveal_strlit("blr");
    reveal_strlit("blraa");
    reveal_strlit("blrab");
    reveal_strlit("blraaz");
    reveal_strlit("blrabz");
    reveal_strlit("br");
    reveal_strlit("braa");
    reveal_strlit("brab");
    reveal_strlit("braaz");
    reveal_strlit("brabz");
}

/// When an instruction is no call or branch through a register and each
/// immediate target `t` makes `f(t)`, its references are exactly those:
/// each is `f` of a non-negative immediate, and each such immediate makes
/// one.
proof fn lemma_references_all_of(rs: Seq<Reference>, l: Seq<char>, ops: Seq<OperandView>, f: spec_fn(u64) -> Reference)
    requires
        !is_indirect_call_mnemonic(l),
        !is_indirect_branch_mnemonic(l),
        references_from(rs, l, ops),
        forall|t: u64| #[trigger] reference_for(l, t) == f(t),
    ensures
        forall|j: int|
            0 <= j < rs.len() ==> exists|k: int|
                0 <= k < ops.len() && ops[k] is Immediate && ops[k]->Immediate_0 >= 0
                    && #[trigger] rs[j] == f(ops[k]->Immediate_0 as u64),
        forall|k: int|
            0 <= k < ops.len() && (#[trigger] ops[k]) is Immediate && ops[k]->Immediate_0 >= 0
                ==> rs.contains(f(ops[k]->Immediate_0 as u64)),
{
    assert(indirect_via(l, ops) is None);
    assert(rs == references_of(l, ops));
    lemma_references_of_members(l, ops);
    assert forall|j: int| 0 <= j < rs.len() implies exists|k: int|
        0 <= k < ops.len() && ops[k] is Immediate && ops[k]->Immediate_0 >= 0
            && #[trigger] rs[j] == f(ops[k]->Immediate_0 as u64) by {
        let k = choose|k: int|
            0 <= k < ops.len() && ops[k] is Immediate && ops[k]->Immediate_0 >= 0
                && #[trigger] references_of(l, ops)[j] == reference_for(l, ops[k]->Immediate_0 as u64);
        assert(reference_for(l, ops[k]->Immediate_0 as u64) == f(ops[k]->Immediate_0 as u64));
    }
    assert forall|k: int|
        0 <= k < ops.len() && (#[trigger] ops[k]) is Immediate && ops[k]->Immediate_0 >= 0
            implies rs.contains(f(ops[k]->Immediate_0 as u64)) by {
        assert(reference_for(l, ops[k]->Immediate_0 as u64) == f(ops[k]->Immediate_0 as u64));
    }
}

/// A compare-and-branch instruction (lower-case mnemonic starting with
/// `cb`, as `cbz` and `cbnz`) makes only branch references, one to each of
/// its non-negative immediate operands.
pub proof fn lemma_compare_branch_references(rs: Seq<Reference>, l: Seq<char>, ops: Seq<OperandView>)
    requires
        l.len() >= 2,
        l[0] == 'c',
        l[1] == 'b',
        references_from(rs, l, ops),
    ensures
        forall|j: int| 0 <= j < rs.len() ==> (#[trigger] rs[j]) is Branch,
        forall|k: int|
            0 <= k < ops.len() && (#[trigger] ops[k]) is Immediate && ops[k]->Immediate_0 >= 0
                ==> rs.contains((Reference::Branch { target: ops[k]->Immediate_0 as u64 })),
{
    lemma_not_indirect(l);
    lemma_references_all_of(rs, l, ops, |t: u64| (Reference::Branch { target: t }));
}

/// A test-and-branch instruction (lower-case mnemonic starting with `tb`,
/// as `tbz` and `tbnz`) makes only branch references, one to each of its
/// non-negative immediate operands.
pub proof fn lemma_test_branch_references(rs: Seq<Reference>, l: Seq<char>, ops: Seq<OperandView>)
    requires
        l.len() >= 2,
        l[0] == 't',
        l[1] == 'b',
        references_from(rs, l, ops),
    ensures
        forall|j: int| 0 <= j < rs.len() ==> (#[trigger] rs[j]) is Branch,
        forall|k: int|
            0 <= k < ops.len() && (#[trigger] ops[k]) is Immediate && ops[k]->Immediate_0 >= 0
                ==> rs.contains((Reference::Branch { target: ops[k]->Immediate_0 as u64 })),
{
    lemma_not_indirect(l);
    lemma_references_all_of(rs, l, ops, |t: u64| (Reference::Branch { target: t }));
}

/// A direct branch (lower-case mnemonic starting with `b`, other than
/// `bl` and the register forms starting `br` or `blr`) makes only branch
/// references, one to each of its non-negative immediate operands.
pub proof fn lemma_direct_branch_references(rs: Seq<Reference>, l: Seq<char>, ops: Seq<OperandView>)
    requires
        l.len() >= 1,
        l[0] == 'b',
        l != seq!['b', 'l'],
        !(l.len() >= 2 && l[1] == 'r'),
        !(l.len() >= 3 && l[1] == 'l' && l[2] == 'r'),
        references_from(rs, l, ops),
    ensures
        forall|j: int| 0 <= j < rs.len() ==> (#[trigger] rs[j]) is Branch,
        forall|k: int|
            0 <= k < ops.len() && (#[trigger] ops[k]) is Immediate && ops[k]->Immediate_0 >= 0
                ==> rs.contains((Reference::Branch { target: ops[k]->Immediate_0 as u64 })),
{
    lemma_not_indirect(l);
    lemma_references_all_of(rs, l, ops, |t: u64| (Reference::Branch { target: t }));
}

/// A direct call (`bl`) makes only call references, one to each of its
/// non-negative immediate operands.
pub proof fn lemma_call_references(rs: Seq<Reference>, l: Seq<char>, ops: Seq<OperandView>)
    requires
        l == seq!['b', 'l'],
        references_from(rs, l, ops),
    ensures
        forall|j: int| 0 <= j < rs.len() ==> (#[trigger] rs[j]) is Call,
        forall|k: int|
            0 <= k < ops.len() && (#[trigger] ops[k]) is Immediate && ops[k]->Immediate_0 >= 0
                ==> rs.contains((Reference::Call { target: ops[k]->Immediate_0 as u64 })),
{
    lemma_not_indirect(l);
    lemma_references_all_of(rs, l, ops, |t: u64| (Reference::Call { target: t }));
}

/// `adr` and `adrp` make only page references, one to each of their
/// non-negative immediate operands.
pub proof fn lemma_page_references(rs: Seq<Reference>, l: Seq<char>, ops: Seq<OperandView>)
    requires
        l == seq!['a', 'd', 'r'] || l == seq!['a', 'd', 'r', 'p'],
        references_from(rs, l, ops),
    ensures
        forall|j: int| 0 <= j < rs.len() ==> (#[trigger] rs[j]) is Page,
        forall|k: int|
            0 <= k < ops.len() && (#[trigger] ops[k]) is Immediate && ops[k]->Immediate_0 >= 0
                ==> rs.contains((Reference::Page { target: ops[k]->Immediate_0 as u64 })),
{
    lemma_not_indirect(l);
    lemma_references_all_of(rs, l, ops, |t: u64| (Reference::Page { target: t }));
}

/// Any other instruction (lower-case mnemonic starting with neither `b`,
/// `cb` nor `tb`, and not `adr` or `adrp`) makes only data references, one
/// to each of its non-negative immediate operands.
pub proof fn lemma_data_references(rs: Seq<Reference>, l: Seq<char>, ops: Seq<OperandView>)
    requires
        !(l.len() >= 1 && l[0] == 'b'),
        !(l.len() >= 2 && l[0] == 'c' && l[1] == 'b'),
        !(l.len() >= 2 && l[0] == 't' && l[1] == 'b'),
        l != seq!['a', 'd', 'r'],
        l != seq!['a', 'd', 'r', 'p'],
        references_from(rs, l, ops),
    ensures
        forall|j: int| 0 <= j < rs.len() ==> (#[trigger] rs[j]) is Data,
        forall|k: int|
            0 <= k < ops.len() && (#[trigger] ops[k]) is Immediate && ops[k]->Immediate_0 >= 0
                ==> rs.contains((Reference::Data { target: ops[k]->Immediate_0 as u64 })),
{
    lemma_not_indirect(l);
    lemma_references_all_of(rs, l, ops, |t: u64| (Reference::Data { target: t }));
}

} // verus!
