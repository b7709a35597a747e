//! Planning a disassembly from command-line flags (the target, the decode
//! window and the instruction limit), and shaping what the decoder returns
//! into the listing the commands print.

use vstd::prelude::*;

use crate::cli::{error_is, CliRunError};
use crate::image::{
    first_found, lemma_found_first_is_first_found, section_matches, BinaryImage,
};
use crate::decode::DisassemblyOptions;
use crate::model::{DecodedInstruction, DisassemblyRequest, DisassemblyTarget, Section, Symbol};
use std::ops::Range;
use crate::text::{chars_vec, push_chars, string_of};

verus! {

/// How far a disassembly runs.
#[derive(Debug, Clone, Copy, PartialEq, Eq, Structural)]
pub enum DisassemblyLimit {
    Instructions(usize),
    Bytes(usize),
    Unlimited,
}

/// The disassembly flags of the command line.
#[derive(Debug, Clone, PartialEq, Eq)]
pub struct DisasmFlagArgs {
    pub symbol: Option<String>,
    pub addr: Option<u64>,
    pub section: Option<String>,
    pub count: Option<usize>,
    pub limit: Option<usize>,
    pub bytes: Option<usize>,
    pub from: Option<u64>,
    pub to: Option<u64>,
}

/// What to decode, how much, and the address window of the listing.
#[derive(Debug, Clone, PartialEq, Eq)]
pub struct DisasmPlan {
    pub decode_target: DisassemblyTarget,
    pub max_instructions: Option<usize>,
    pub limit: Option<DisassemblyLimit>,
    pub window_start: u64,
    pub window_end: Option<u64>,
}

/// A disassembly target, as characters and numbers.
pub enum TargetView {
    Symbol(Seq<char>),
    Address(u64),
    Section(Seq<char>),
}

/// The view of a target.
pub open spec fn target_view(t: DisassemblyTarget) -> TargetView {
    match t {
        DisassemblyTarget::Symbol(s) => TargetView::Symbol(s@),
        DisassemblyTarget::Address(a) => TargetView::Address(a),
        DisassemblyTarget::Section(s) => TargetView::Section(s@),
    }
}

/// The outcome of planning: a plan, or an error code and message.
pub enum PlanOutcome {
    Planned {
        target: TargetView,
        max_instructions: Option<usize>,
        limit: Option<DisassemblyLimit>,
        window_start: u64,
        window_end: Option<u64>,
    },
    Refused { code: Seq<char>, message: Seq<char> },
}

/// The view of a planning result.
pub open spec fn plan_outcome(r: Result<DisasmPlan, CliRunError>) -> PlanOutcome {
    match r {
        Ok(p) => PlanOutcome::Planned {
            target: target_view(p.decode_target),
            max_instructions: p.max_instructions,
            limit: p.limit,
            window_start: p.window_start,
            window_end: p.window_end,
        },
        Err(e) => PlanOutcome::Refused { code: e.code@, message: e.message@ },
    }
}

/// A refusal for invalid arguments.
pub open spec fn invalid(message: Seq<char>) -> PlanOutcome {
    PlanOutcome::Refused { code: "invalid_args"@, message }
}

/// The instruction limit from `--count` and `--limit`: either one, the same
/// value twice, or none; an error message when they differ or one is zero.
pub open spec fn instruction_limit_of(count: Option<usize>, limit: Option<usize>) -> Result<
    Option<usize>,
    Seq<char>,
> {
    match (count, limit) {
        (Some(left), Some(right)) if left != right => Err(
            "`--count` and `--limit` cannot differ when both are provided"@,
        ),
        (Some(left), _) if left == 0 => Err("instruction limit must be greater than 0"@),
        (_, Some(right)) if right == 0 => Err("instruction limit must be greater than 0"@),
        (Some(value), _) => Ok(Some(value)),
        (_, Some(value)) => Ok(Some(value)),
        (None, None) => Ok(None),
    }
}

/// `a - b`, or zero when `b` is larger.
pub open spec fn saturating_sub(a: u64, b: u64) -> u64 {
    if a >= b {
        (a - b) as u64
    } else {
        0
    }
}

/// The number of bytes a window spans, as a length.
pub open spec fn window_length(start: u64, end: u64) -> usize {
    saturating_sub(end, start) as usize
}

/// How many whole or partial four-byte instructions fit in `bytes`.
pub open spec fn instructions_for_bytes(bytes: usize) -> usize {
    if bytes + 3 > usize::MAX {
        (usize::MAX / 4) as usize
    } else {
        ((bytes + 3) / 4) as usize
    }
}

/// The plan once the base target and its address are known: the window and
/// limits that the flags ask for.
pub open spec fn plan_window(
    args: DisasmFlagArgs,
    limit: Option<usize>,
    base_target: TargetView,
    base_start: u64,
) -> PlanOutcome {
    if args.addr is Some && args.from is Some && args.addr != args.from {
        invalid("`--from` must match `--addr` when both are provided"@)
    } else {
        let start = match args.from {
            Some(f) => f,
            None => base_start,
        };
        if args.to is Some && args.to->0 <= start {
            invalid("`--to` must be greater than the decode start"@)
        } else if args.to is None && args.bytes is Some && start + args.bytes->0 > u64::MAX {
            invalid("decode window overflows address space"@)
        } else {
            let end: Option<u64> = match args.to {
                Some(t) => Some(t),
                None => match args.bytes {
                    Some(b) => Some((start + b) as u64),
                    None => None,
                },
            };
            PlanOutcome::Planned {
                target: if args.from is Some {
                    TargetView::Address(start)
                } else {
                    base_target
                },
                max_instructions: match limit {
                    Some(l) => Some(l),
                    None => match end {
                        Some(e) => Some(instructions_for_bytes(window_length(start, e))),
                        None => None,
                    },
                },
                limit: match limit {
                    Some(l) => Some(DisassemblyLimit::Instructions(l)),
                    None => match end {
                        Some(e) => Some(DisassemblyLimit::Bytes(window_length(start, e))),
                        None => None,
                    },
                },
                window_start: start,
                window_end: end,
            }
        }
    }
}

/// The plan the flags ask for on this image, or why they are refused.
pub open spec fn planned(image: BinaryImage, args: DisasmFlagArgs) -> PlanOutcome {
    match instruction_limit_of(args.count, args.limit) {
        Err(message) => invalid(message),
        Ok(limit) => if args.bytes is Some && limit is Some {
            invalid("`--bytes` cannot be combined with `--count` or `--limit`"@)
        } else if args.to is Some && args.bytes is Some {
            invalid("`--to` cannot be combined with `--bytes`"@)
        } else if args.to is Some && limit is Some {
            invalid("`--to` cannot be combined with `--count` or `--limit`"@)
        } else if args.bytes == Some(0usize) {
            invalid("`--bytes` must be greater than 0"@)
        } else {
            match args.symbol {
                Some(name) => match first_found(image.symbols@, |s: Symbol| s.name@ == name@) {
                    Some(entry) => plan_window(args, limit, TargetView::Symbol(name@), entry.address),
                    None => PlanOutcome::Refused {
                        code: "symbol_not_found"@,
                        message: "symbol not found: "@ + name@,
                    },
                },
                None => match args.addr {
                    Some(addr) => plan_window(args, limit, TargetView::Address(addr), addr),
                    None => {
                        let name = args.section->0;
                        match first_found(image.sections@, |s: Section| section_matches(s, name@)) {
                            Some(entry) => plan_window(
                                args,
                                limit,
                                TargetView::Section(name@),
                                entry.address,
                            ),
                            None => PlanOutcome::Refused {
                                code: "section_not_found"@,
                                message: "section not found: "@ + name@,
                            },
                        }
                    },
                },
            }
        },
    }
}

/// The instruction limit from `--count` and `--limit`.
pub fn normalize_instruction_limit(count: Option<usize>, limit: Option<usize>) -> (r: Result<
    Option<usize>,
    CliRunError,
>)
    ensures
        match instruction_limit_of(count, limit) {
            Ok(l) => r == Ok::<Option<usize>, CliRunError>(l),
            Err(m) => r matches Err(e) && error_is(e, "invalid_args"@, m),
        },
{
    match (count, limit) {
        (Some(left), Some(right)) if left != right => Err(
            CliRunError::invalid_args(
                "`--count` and `--limit` cannot differ when both are provided",
            ),
        ),
        (Some(0), _) | (_, Some(0)) => Err(
            CliRunError::invalid_args("instruction limit must be greater than 0"),
        ),
        (Some(value), _) => Ok(Some(value)),
        (_, Some(value)) => Ok(Some(value)),
        (None, None) => Ok(None),
    }
}

/// The window and limits, once the base target and its address are known.
fn plan_from_base(
    args: &DisasmFlagArgs,
    limit: Option<usize>,
    base_target: DisassemblyTarget,
    base_start: u64,
) -> (r: Result<DisasmPlan, CliRunError>)
    ensures
        plan_outcome(r) == plan_window(*args, limit, target_view(base_target), base_start),
        r matches Err(e) ==> e.details is None,
{
    if let (Some(addr), Some(from)) = (args.addr, args.from) {
        if addr != from {
            return Err(
                CliRunError::invalid_args("`--from` must match `--addr` when both are provided"),
            );
        }
    }
    let window_start = match args.from {
        Some(f) => f,
        None => base_start,
    };
    if let Some(to) = args.to {
        if to <= window_start {
            return Err(CliRunError::invalid_args("`--to` must be greater than the decode start"));
        }
    }
    let window_end = if let Some(to) = args.to {
        Some(to)
    } else if let Some(bytes) = args.bytes {
        match window_start.checked_add(bytes as u64) {
            Some(end) => Some(end),
            None => {
                return Err(CliRunError::invalid_args("decode window overflows address space"));
            },
        }
    } else {
        None
    };
    let max_instructions = if let Some(l) = limit {
        Some(l)
    } else if let Some(end) = window_end {
        let window_bytes = end.saturating_sub(window_start) as usize;
        Some(window_bytes.saturating_add(3) / 4)
    } else {
        None
    };
    let request_limit = if let Some(l) = limit {
        Some(DisassemblyLimit::Instructions(l))
    } else if let Some(end) = window_end {
        Some(DisassemblyLimit::Bytes(end.saturating_sub(window_start) as usize))
    } else {
        None
    };
    let decode_target = if args.from.is_some() {
        DisassemblyTarget::Address(window_start)
    } else {
        base_target
    };
    Ok(DisasmPlan {
        decode_target,
        max_instructions,
        limit: request_limit,
        window_start,
        window_end,
    })
}

/// The plan for disassembling part of an image: the decode target (a
/// symbol, an address or a section, moved to `--from` when given), the
/// instruction limit, and the `--from`..`--to` or `--bytes` window; or why
/// the flags are refused. One of `--symbol`, `--addr` and `--section` is
/// given.
pub fn plan_disassembly(image: &BinaryImage, args: DisasmFlagArgs) -> (r: Result<
    DisasmPlan,
    CliRunError,
>)
    requires
        args.symbol is Some || args.addr is Some || args.section is Some,
    ensures
        plan_outcome(r) == planned(*image, args),
        r matches Err(e) ==> e.details is None,
{
    let limit = match normalize_instruction_limit(args.count, args.limit) {
        Ok(l) => l,
        Err(e) => return Err(e),
    };
    if args.bytes.is_some() && limit.is_some() {
        return Err(
            CliRunError::invalid_args("`--bytes` cannot be combined with `--count` or `--limit`"),
        );
    }
    if args.to.is_some() && args.bytes.is_some() {
        return Err(CliRunError::invalid_args("`--to` cannot be combined with `--bytes`"));
    }
    if args.to.is_some() && limit.is_some() {
        return Err(
            CliRunError::invalid_args("`--to` cannot be combined with `--count` or `--limit`"),
        );
    }
    if args.bytes == Some(0usize) {
        return Err(CliRunError::invalid_args("`--bytes` must be greater than 0"));
    }
    if let Some(symbol) = &args.symbol {
        match image.symbol_by_name(symbol.as_str()) {
            Some(entry) => {
                proof {
                    lemma_found_first_is_first_found(
                        image.symbols@,
                        |s: Symbol| s.name@ == symbol@,
                        Some(*entry),
                    );
                }
                let address = entry.address;
                let target = DisassemblyTarget::Symbol(symbol.clone());
                plan_from_base(&args, limit, target, address)
            },
            None => {
                proof {
                    lemma_found_first_is_first_found(
                        image.symbols@,
                        |s: Symbol| s.name@ == symbol@,
                        None,
                    );
                }
                let mut message = string_of("symbol not found: ");
                push_chars(&mut message, &chars_vec(symbol.as_str()));
                Err(CliRunError::command("symbol_not_found", message.as_str()))
            },
        }
    } else if let Some(addr) = args.addr {
        plan_from_base(&args, limit, DisassemblyTarget::Address(addr), addr)
    } else {
        let name = args.section.as_ref().unwrap();
        match image.section_by_name(name.as_str()) {
            Some(entry) => {
                proof {
                    lemma_found_first_is_first_found(
                        image.sections@,
                        |s: Section| section_matches(s, name@),
                        Some(*entry),
                    );
                }
                let address = entry.address;
                let target = DisassemblyTarget::Section(name.clone());
                plan_from_base(&args, limit, target, address)
            },
            None => {
                proof {
                    lemma_found_first_is_first_found(
                        image.sections@,
                        |s: Section| section_matches(s, name@),
                        None,
                    );
                }
                let mut message = string_of("section not found: ");
                push_chars(&mut message, &chars_vec(name.as_str()));
                Err(CliRunError::command("section_not_found", message.as_str()))
            },
        }
    }
}

/// The address lies in the window: at or after `from`, and before `to`
/// when there is an end.
pub open spec fn in_window(address: u64, from: u64, to: Option<u64>) -> bool {
    address >= from && match to {
        Some(end) => address < end,
        None => true,
    }
}

/// The instructions that lie in the window, in their order.
pub open spec fn window_filter(s: Seq<DecodedInstruction>, from: u64, to: Option<u64>) -> Seq<
    DecodedInstruction,
>
    decreases s.len(),
{
    if s.len() == 0 {
        s
    } else {
        let rest = window_filter(s.drop_last(), from, to);
        if in_window(s.last().address, from, to) {
            rest.push(s.last())
        } else {
            rest
        }
    }
}

/// Every instruction the window keeps lies in the window, and none is
/// added: the kept ones are at most as many as were given.
pub proof fn lemma_window_filter_in_window(s: Seq<DecodedInstruction>, from: u64, to: Option<u64>)
    ensures
        forall|i: int|
            0 <= i < window_filter(s, from, to).len() ==> in_window(
                #[trigger] window_filter(s, from, to)[i].address,
                from,
                to,
            ),
        window_filter(s, from, to).len() <= s.len(),
    decreases s.len(),
{
    if s.len() > 0 {
        lemma_window_filter_in_window(s.drop_last(), from, to);
    }
}

/// The decoded instructions that lie in the window `from`..`to`.
pub fn filter_instructions(instructions: Vec<DecodedInstruction>, from: u64, to: Option<u64>) -> (r:
    Vec<DecodedInstruction>)
    ensures
        r@ == window_filter(instructions@, from, to),
{
    let ghost all = instructions@;
    let mut kept: Vec<DecodedInstruction> = Vec::new();
    for instruction in it: instructions.into_iter()
        invariant
            it.seq() == all,
            kept@ == window_filter(all.take(it.index() as int), from, to),
    {
        let ghost k = it.index() as int;
        assert(all.take(k + 1).drop_last() =~= all.take(k));
        assert(all.take(k + 1).last() == instruction);
        let keep = instruction.address >= from && match to {
            Some(end) => instruction.address < end,
            None => true,
        };
        if keep {
            kept.push(instruction);
        }
    }
    assert(all.take(all.len() as int) =~= all);
    kept
}

/// The end of the last instruction, clamped at the top of the space.
pub open spec fn instruction_end(d: DecodedInstruction) -> u64 {
    if d.address + d.size > u64::MAX {
        u64::MAX
    } else {
        (d.address + d.size) as u64
    }
}

/// The length of the bytes a listing covers from `start`: up to the end of
/// the window when there is one, else up to the end of the last
/// instruction, else nothing.
pub open spec fn covered_bytes(start: u64, range_end: Option<u64>, instructions: Seq<DecodedInstruction>) -> usize {
    match range_end {
        Some(end) => window_length(start, end),
        None => if instructions.len() == 0 {
            0
        } else {
            window_length(start, instruction_end(instructions.last()))
        },
    }
}

/// How many bytes a listing covers from `start` (see `covered_bytes`).
pub fn infer_bytes_len(start: u64, range_end: Option<u64>, instructions: &Vec<DecodedInstruction>) -> (r:
    usize)
    ensures
        r == covered_bytes(start, range_end, instructions@),
{
    if let Some(end) = range_end {
        return end.saturating_sub(start) as usize;
    }
    if instructions.len() == 0 {
        return 0;
    }
    let last = &instructions[instructions.len() - 1];
    let end = last.address.saturating_add(last.size as u64);
    end.saturating_sub(start) as usize
}

/// The limit a decode request carries: the planned one, else the planned
/// instruction count, else none.
pub open spec fn request_limit_of(plan: DisasmPlan) -> DisassemblyLimit {
    match plan.limit {
        Some(l) => l,
        None => match plan.max_instructions {
            Some(m) => DisassemblyLimit::Instructions(m),
            None => DisassemblyLimit::Unlimited,
        },
    }
}

/// The limit a decode request for this plan carries.
pub fn request_limit(plan: &DisasmPlan) -> (r: DisassemblyLimit)
    ensures
        r == request_limit_of(*plan),
{
    match plan.limit {
        Some(l) => l,
        None => match plan.max_instructions {
            Some(m) => DisassemblyLimit::Instructions(m),
            None => DisassemblyLimit::Unlimited,
        },
    }
}

/// A finished disassembly, as the commands print it.
#[derive(Debug, Clone, PartialEq, Eq)]
pub struct DisassemblyExecution {
    pub target: String,
    pub start_address: u64,
    pub bytes_len: usize,
    pub decoded_bytes: usize,
    pub end_address: u64,
    pub instruction_count: usize,
    pub stop_reason: String,
    pub window_end: Option<u64>,
    pub instructions: Vec<DecodedInstruction>,
}

/// The listing for a plan from what the decoder returned: the instructions
/// in the window, the bytes they cover, where they end and how many there
/// are.
pub fn finish_disassembly(
    plan: &DisasmPlan,
    target: String,
    decoded_bytes: usize,
    stop_reason: String,
    decoded: Vec<DecodedInstruction>,
) -> (r: DisassemblyExecution)
    ensures
        r.instructions@ == window_filter(decoded@, plan.window_start, plan.window_end),
        r.target == target,
        r.start_address == plan.window_start,
        r.bytes_len == covered_bytes(plan.window_start, plan.window_end, r.instructions@),
        r.decoded_bytes == decoded_bytes,
        r.end_address == if r.instructions@.len() == 0 {
            plan.window_start
        } else {
            instruction_end(r.instructions@.last())
        },
        r.instruction_count == r.instructions@.len(),
        r.stop_reason == stop_reason,
        r.window_end == plan.window_end,
        forall|i: int|
            0 <= i < r.instructions@.len() ==> in_window(
                #[trigger] r.instructions@[i].address,
                plan.window_start,
                plan.window_end,
            ),
{
    let instructions = filter_instructions(decoded, plan.window_start, plan.window_end);
    proof {
        lemma_window_filter_in_window(decoded@, plan.window_start, plan.window_end);
    }
    let bytes_len = match plan.window_end {
        Some(end) => end.saturating_sub(plan.window_start) as usize,
        None => infer_bytes_len(plan.window_start, None, &instructions),
    };
    let end_address = if instructions.len() == 0 {
        plan.window_start
    } else {
        let last = &instructions[instructions.len() - 1];
        last.address.saturating_add(last.size as u64)
    };
    let instruction_count = instructions.len();
    DisassemblyExecution {
        target,
        start_address: plan.window_start,
        bytes_len,
        decoded_bytes,
        end_address,
        instruction_count,
        stop_reason,
        window_end: plan.window_end,
        instructions,
    }
}

/// A disassembly request with an optional address range, a limit and the
/// decoding options.
#[derive(Debug)]
pub struct DisassemblyRequestV2 {
    pub target: DisassemblyTarget,
    pub range: Option<Range<u64>>,
    pub limit: DisassemblyLimit,
    pub options: DisassemblyOptions,
}

impl DisassemblyRequest {
    /// A request for a target with an optional instruction limit.
    pub fn legacy(target: DisassemblyTarget, max_instructions: Option<usize>) -> (r: DisassemblyRequest)
        ensures
            r.target == target,
            r.max_instructions == max_instructions,
    {
        DisassemblyRequest { target, max_instructions }
    }

    /// The same request in the ranged form: no range, the instruction limit
    /// (unlimited when there is none) and the default options.
    pub fn to_v2(self) -> (r: DisassemblyRequestV2)
        ensures
            r.target == self.target,
            r.range is None,
            r.limit == match self.max_instructions {
                Some(n) => DisassemblyLimit::Instructions(n),
                None => DisassemblyLimit::Unlimited,
            },
            r.options.include_annotations,
            !r.options.include_value_flow,
    {
        let limit = match self.max_instructions {
            Some(n) => DisassemblyLimit::Instructions(n),
            None => DisassemblyLimit::Unlimited,
        };
        DisassemblyRequestV2 {
            target: self.target,
            range: None,
            limit,
            options: DisassemblyOptions { include_annotations: true, include_value_flow: false },
        }
    }
}

impl DisassemblyRequestV2 {
    /// The same request with the given range.
    pub fn with_range(self, range: Option<Range<u64>>) -> (r: DisassemblyRequestV2)
        ensures
            r.target == self.target,
            r.range == range,
            r.limit == self.limit,
            r.options == self.options,
    {
        DisassemblyRequestV2 { target: self.target, range, limit: self.limit, options: self.options }
    }

    /// Whether the range, if any, holds at least one address.
    pub fn has_valid_range(&self) -> (r: bool)
        ensures
            r == match self.range {
                Some(rg) => rg.start < rg.end,
                None => true,
            },
    {
        match &self.range {
            Some(rg) => rg.start < rg.end,
            None => true,
        }
    }

    /// Whether `address` lies in the range (every address does when there
    /// is none).
    pub fn range_contains(&self, address: u64) -> (r: bool)
        ensures
            r == match self.range {
                Some(rg) => rg.start <= address < rg.end,
                None => true,
            },
    {
        match &self.range {
            Some(rg) => rg.start <= address && address < rg.end,
            None => true,
        }
    }
}

} // verus!
