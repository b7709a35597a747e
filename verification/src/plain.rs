//! The plain-text forms of the commands' output: one aligned line per
//! section, symbol, import, relocation or instruction, the doctor report
//! and error lines.

use vstd::prelude::*;

use crate::cli::ErrorResponse;
use crate::compat::{architecture_text, platform_text, status_text, CompatibilityIssue};
use crate::disasm::DisassemblyExecution;
use crate::doctor::{CapabilityReport, DoctorReport, ToolStatus};
use crate::model::{
    annotation_text, instruction_text, join, string_views, symbol_kind_text, Annotation, DecodedInstruction, Import,
    Reference, Relocation, Section, Symbol,
};
use crate::report::{reference_text, reference_to_text, DisassemblyRenderOptions};
use crate::text::{
    chars_vec, decimal, decimal_string, digits, hex, push_char, push_chars, push_digits, push_hex,
    signed_decimal, signed_decimal_string, string_of,
};

verus! {

/// `n` copies of `c`.
pub open spec fn repeat(c: char, n: nat) -> Seq<char>
    decreases n,
{
    if n == 0 {
        seq![]
    } else {
        repeat(c, (n - 1) as nat).push(c)
    }
}

/// `s` right-aligned in a field of `width` characters.
pub open spec fn align_right(s: Seq<char>, width: nat) -> Seq<char> {
    if s.len() < width {
        repeat(' ', (width - s.len()) as nat) + s
    } else {
        s
    }
}

/// `s` left-aligned in a field of `width` characters.
pub open spec fn align_left(s: Seq<char>, width: nat) -> Seq<char> {
    if s.len() < width {
        s + repeat(' ', (width - s.len()) as nat)
    } else {
        s
    }
}

/// `s` zero-padded on the left to `width` characters.
pub open spec fn zero_padded(s: Seq<char>, width: nat) -> Seq<char> {
    if s.len() < width {
        repeat('0', (width - s.len()) as nat) + s
    } else {
        s
    }
}

/// Appends `n` copies of `c`.
fn push_repeat(out: &mut String, c: char, n: usize)
    ensures
        final(out)@ == old(out)@ + repeat(c, n as nat),
{
    let mut i: usize = 0;
    while i < n
        invariant
            i <= n,
            out@ == old(out)@ + repeat(c, i as nat),
        decreases n - i,
    {
        push_char(out, c);
        i = i + 1;
    }
}

/// Appends `s` right-aligned in `width` characters.
pub(crate) fn push_right(out: &mut String, s: &str, width: usize)
    ensures
        final(out)@ == old(out)@ + align_right(s@, width as nat),
{
    let chars = chars_vec(s);
    if chars.len() < width {
        push_repeat(out, ' ', width - chars.len());
    }
    push_chars(out, &chars);
}

/// Appends `s` left-aligned in `width` characters.
pub(crate) fn push_left(out: &mut String, s: &str, width: usize)
    ensures
        final(out)@ == old(out)@ + align_left(s@, width as nat),
{
    let chars = chars_vec(s);
    push_chars(out, &chars);
    if chars.len() < width {
        push_repeat(out, ' ', width - chars.len());
    }
}

/// `0x` and the hexadecimal digits of `n`, as a string.
fn hex_string(n: u64) -> (r: String)
    ensures
        r@ == hex(n as nat),
{
    let mut out = String::new();
    push_hex(&mut out, n);
    out
}

/// A section line: address and size in hexadecimal, `exec` or `-`, the
/// segment and the name.
pub open spec fn section_line_text(s: Section) -> Seq<char> {
    align_right(hex(s.address as nat), 18) + seq![' '] + align_right(hex(s.size as nat), 8) + seq![' ']
        + align_left(if s.executable { "exec"@ } else { "-"@ }, 8) + seq![' '] + align_left(
        s.segment_name@,
        18,
    ) + seq![' '] + s.name@
}

/// A section as a listing line.
pub fn section_line(s: &Section) -> (r: String)
    ensures
        r@ == section_line_text(*s),
{
    let mut out = String::new();
    push_right(&mut out, hex_string(s.address).as_str(), 18);
    push_char(&mut out, ' ');
    push_right(&mut out, hex_string(s.size).as_str(), 8);
    push_char(&mut out, ' ');
    push_left(&mut out, if s.executable { "exec" } else { "-" }, 8);
    push_char(&mut out, ' ');
    push_left(&mut out, s.segment_name.as_str(), 18);
    push_char(&mut out, ' ');
    out.append(s.name.as_str());
    out
}

/// A symbol line: address and size in hexadecimal, the kind, `def` or
/// `undef`, `glob` or `loc`, the name and, when known, ` [section]`.
pub open spec fn symbol_line_text(s: Symbol) -> Seq<char> {
    align_right(hex(s.address as nat), 18) + seq![' '] + align_right(hex(s.size as nat), 8) + seq![' ']
        + align_left(symbol_kind_text(s.kind), 8) + seq![' '] + align_left(
        if s.defined { "def"@ } else { "undef"@ },
        6,
    ) + seq![' '] + align_left(if s.global { "glob"@ } else { "loc"@ }, 5) + seq![' '] + s.name@
        + match s.section {
        Some(sec) => " ["@ + sec@ + seq![']'],
        None => seq![],
    }
}

/// A symbol as a listing line.
pub fn symbol_line(s: &Symbol) -> (r: String)
    ensures
        r@ == symbol_line_text(*s),
{
    let mut out = String::new();
    push_right(&mut out, hex_string(s.address).as_str(), 18);
    push_char(&mut out, ' ');
    push_right(&mut out, hex_string(s.size).as_str(), 8);
    push_char(&mut out, ' ');
    push_left(&mut out, s.kind.to_text().as_str(), 8);
    push_char(&mut out, ' ');
    push_left(&mut out, if s.defined { "def" } else { "undef" }, 6);
    push_char(&mut out, ' ');
    push_left(&mut out, if s.global { "glob" } else { "loc" }, 5);
    push_char(&mut out, ' ');
    out.append(s.name.as_str());
    match &s.section {
        Some(sec) => {
            out.append(" [");
            out.append(sec.as_str());
            push_char(&mut out, ']');
        },
        None => {},
    }
    out
}

/// An import line: the address in hexadecimal (or `-`), `lazy` or `-`,
/// `weak` or `-`, the library and the name.
pub open spec fn import_line_text(s: Import) -> Seq<char> {
    align_right(
        match s.address {
            Some(a) => hex(a as nat),
            None => "-"@,
        },
        18,
    ) + seq![' '] + align_left(if s.is_lazy { "lazy"@ } else { "-"@ }, 5) + seq![' '] + align_left(
        if s.is_weak { "weak"@ } else { "-"@ },
        5,
    ) + seq![' '] + align_left(s.dylib@, 30) + seq![' '] + s.name@
}

/// An import as a listing line.
pub fn import_line(s: &Import) -> (r: String)
    ensures
        r@ == import_line_text(*s),
{
    let mut out = String::new();
    let address = match s.address {
        Some(a) => hex_string(a),
        None => string_of("-"),
    };
    push_right(&mut out, address.as_str(), 18);
    push_char(&mut out, ' ');
    push_left(&mut out, if s.is_lazy { "lazy" } else { "-" }, 5);
    push_char(&mut out, ' ');
    push_left(&mut out, if s.is_weak { "weak" } else { "-" }, 5);
    push_char(&mut out, ' ');
    push_left(&mut out, s.dylib.as_str(), 30);
    push_char(&mut out, ' ');
    out.append(s.name.as_str());
    out
}

/// A relocation line: the address in hexadecimal, the section, the size,
/// the kind, the encoding, the target and `addend=` with the addend.
pub open spec fn relocation_line_text(s: Relocation) -> Seq<char> {
    align_right(hex(s.address as nat), 18) + seq![' '] + align_left(s.section@, 24) + seq![' ']
        + align_left(decimal(s.size as nat), 3) + seq![' '] + align_left(s.kind@, 18) + seq![' ']
        + align_left(s.encoding@, 18) + seq![' '] + s.target@ + " addend="@ + signed_decimal(
        s.addend as int,
    )
}

/// A relocation as a listing line.
pub fn relocation_line(s: &Relocation) -> (r: String)
    ensures
        r@ == relocation_line_text(*s),
{
    let mut out = String::new();
    push_right(&mut out, hex_string(s.address).as_str(), 18);
    push_char(&mut out, ' ');
    push_left(&mut out, s.section.as_str(), 24);
    push_char(&mut out, ' ');
    push_left(&mut out, decimal_string(s.size as u64).as_str(), 3);
    push_char(&mut out, ' ');
    push_left(&mut out, s.kind.as_str(), 18);
    push_char(&mut out, ' ');
    push_left(&mut out, s.encoding.as_str(), 18);
    push_char(&mut out, ' ');
    out.append(s.target.as_str());
    out.append(" addend=");
    out.append(signed_decimal_string(s.addend).as_str());
    out
}

/// How an error is shown on the terminal: `error [code]: message`, then
/// ` (details)` when there are details.
pub open spec fn error_line_text(e: ErrorResponse) -> Seq<char> {
    "error ["@ + e.code@ + "]: "@ + e.message@ + match e.details {
        Some(d) => " ("@ + d@ + seq![')'],
        None => seq![],
    }
}

/// An error as a terminal line.
pub fn error_line(e: &ErrorResponse) -> (r: String)
    ensures
        r@ == error_line_text(*e),
{
    let mut out = string_of("error [");
    out.append(e.code);
    out.append("]: ");
    out.append(e.message.as_str());
    match &e.details {
        Some(d) => {
            out.append(" (");
            out.append(d.as_str());
            push_char(&mut out, ')');
        },
        None => {},
    }
    out
}

/// The views of a sequence of strings.
pub open spec fn line_views(lines: Seq<String>) -> Seq<Seq<char>> {
    lines.map_values(|l: String| l@)
}

/// An issue line at the given indentation: `- code: message`.
pub open spec fn issue_line_text(indent: Seq<char>, issue: CompatibilityIssue) -> Seq<char> {
    indent + "- "@ + issue.code@ + ": "@ + issue.message@
}

/// The lines of one capability: `  name: status`, then one line per reason.
pub open spec fn capability_lines(name: Seq<char>, report: CapabilityReport) -> Seq<Seq<char>> {
    seq!["  "@ + name + ": "@ + status_text(report.status)] + report.reasons@.map_values(
        |i: CompatibilityIssue| issue_line_text("    "@, i),
    )
}

/// `yes` or `no`.
pub open spec fn yes_no(b: bool) -> Seq<char> {
    if b {
        "yes"@
    } else {
        "no"@
    }
}

/// The line of one tool: whether it was found, whether it works, and where.
pub open spec fn tool_line_text(name: Seq<char>, t: ToolStatus) -> Seq<char> {
    "  "@ + name + ": detected="@ + yes_no(t.detected) + " usable="@ + yes_no(t.usable) + " path="@
        + match t.path {
        Some(p) => p@,
        None => "-"@,
    }
}

/// The lines of the doctor report: the host, the overall status, each
/// capability with its reasons, each tool, the chosen hash tool and the
/// issues.
pub open spec fn doctor_lines(r: DoctorReport) -> Seq<Seq<char>> {
    seq![
        "host_os: "@ + platform_text(r.host_platform@),
        "host_architecture: "@ + architecture_text(r.host_architecture@),
        "target_triple: "@ + match r.target_triple {
            Some(t) => t@,
            None => "-"@,
        },
        "overall_status: "@ + status_text(r.overall_status),
        "capabilities:"@,
    ] + capability_lines("macho_analysis"@, r.macho_analysis) + capability_lines(
        "fixture_rebuild"@,
        r.fixture_rebuild,
    ) + capability_lines("fixture_drift_check"@, r.fixture_drift_check) + capability_lines(
        "bench_compile"@,
        r.bench_compile,
    ) + capability_lines("bench_runtime"@, r.bench_runtime) + capability_lines(
        "benchmark"@,
        r.benchmark,
    ) + seq![
        "tools:"@,
        tool_line_text("xcrun"@, r.tools.xcrun),
        tool_line_text("strip"@, r.tools.strip),
        tool_line_text("clang"@, r.tools.clang),
        tool_line_text("python3"@, r.tools.python3),
        tool_line_text("nm"@, r.tools.nm),
        tool_line_text("sdk_path_probe"@, r.tools.sdk_path_probe),
        tool_line_text("sha256sum"@, r.tools.hash_tools.sha256sum),
        tool_line_text("shasum"@, r.tools.hash_tools.shasum),
        tool_line_text("openssl"@, r.tools.hash_tools.openssl),
        "  selected_hash_tool: "@ + match r.tools.selected_hash_tool {
            Some(t) => t@,
            None => "none"@,
        },
    ] + if r.issues@.len() == 0 {
        seq!["issues: none"@]
    } else {
        seq!["issues:"@] + r.issues@.map_values(|i: CompatibilityIssue| issue_line_text("  "@, i))
    }
}

/// Appends an issue line.
fn push_issue_line(lines: &mut Vec<String>, indent: &str, issue: &CompatibilityIssue)
    ensures
        line_views(final(lines)@) == line_views(old(lines)@).push(issue_line_text(indent@, *issue)),
{
    let mut out = string_of(indent);
    out.append("- ");
    out.append(issue.code);
    out.append(": ");
    out.append(issue.message.as_str());
    let ghost before = lines@;
    lines.push(out);
    assert(line_views(lines@) =~= line_views(before).push(issue_line_text(indent@, *issue)));
}

/// Appends the lines of one capability.
fn push_capability_lines(lines: &mut Vec<String>, name: &str, report: &CapabilityReport)
    ensures
        line_views(final(lines)@) == line_views(old(lines)@) + capability_lines(name@, *report),
{
    let mut head = string_of("  ");
    head.append(name);
    head.append(": ");
    head.append(report.status.as_str());
    let ghost start = lines@;
    lines.push(head);
    assert(line_views(lines@) =~= line_views(start) + seq!["  "@ + name@ + ": "@ + status_text(report.status)]);
    let ghost first = line_views(lines@);
    let ghost reasons = report.reasons@.map_values(|i: CompatibilityIssue| issue_line_text("    "@, i));
    let mut k: usize = 0;
    while k < report.reasons.len()
        invariant
            k <= report.reasons@.len(),
            reasons == report.reasons@.map_values(|i: CompatibilityIssue| issue_line_text("    "@, i)),
            line_views(lines@) == first + reasons.take(k as int),
        decreases report.reasons@.len() - k,
    {
        push_issue_line(lines, "    ", &report.reasons[k]);
        assert(reasons.take(k + 1) =~= reasons.take(k as int).push(reasons[k as int]));
        k = k + 1;
    }
    assert(reasons.take(reasons.len() as int) =~= reasons);
    assert(line_views(lines@) =~= line_views(start) + capability_lines(name@, *report));
}

/// Appends the line of one tool.
fn push_tool_line(lines: &mut Vec<String>, name: &str, t: &ToolStatus)
    ensures
        line_views(final(lines)@) == line_views(old(lines)@).push(tool_line_text(name@, *t)),
{
    let mut out = string_of("  ");
    out.append(name);
    out.append(": detected=");
    out.append(if t.detected { "yes" } else { "no" });
    out.append(" usable=");
    out.append(if t.usable { "yes" } else { "no" });
    out.append(" path=");
    match &t.path {
        Some(p) => out.append(p.as_str()),
        None => out.append("-"),
    }
    let ghost before = lines@;
    lines.push(out);
    assert(line_views(lines@) =~= line_views(before).push(tool_line_text(name@, *t)));
}

/// Appends a line.
fn push_line(lines: &mut Vec<String>, text: &str)
    ensures
        line_views(final(lines)@) == line_views(old(lines)@).push(text@),
{
    let ghost before = lines@;
    lines.push(string_of(text));
    assert(line_views(lines@) =~= line_views(before).push(text@));
}

/// Appends a line made of a label and a value.
fn push_labelled(lines: &mut Vec<String>, label: &str, value: &str)
    ensures
        line_views(final(lines)@) == line_views(old(lines)@).push(label@ + value@),
{
    let mut out = string_of(label);
    out.append(value);
    let ghost before = lines@;
    lines.push(out);
    assert(line_views(lines@) =~= line_views(before).push(label@ + value@));
}

/// The doctor report as text lines (see `doctor_lines`).
#[verifier::rlimit(100)]
pub fn doctor_text_lines(r: &DoctorReport) -> (lines: Vec<String>)
    ensures
        line_views(lines@) == doctor_lines(*r),
{
    let mut lines: Vec<String> = Vec::new();
    assert(line_views(lines@) =~= Seq::<Seq<char>>::empty());
    push_labelled(&mut lines, "host_os: ", r.host_platform.to_text().as_str());
    push_labelled(&mut lines, "host_architecture: ", r.host_architecture.to_text().as_str());
    let triple = match &r.target_triple {
        Some(t) => t.as_str(),
        None => "-",
    };
    push_labelled(&mut lines, "target_triple: ", triple);
    push_labelled(&mut lines, "overall_status: ", r.overall_status.as_str());
    push_line(&mut lines, "capabilities:");
    push_capability_lines(&mut lines, "macho_analysis", &r.macho_analysis);
    push_capability_lines(&mut lines, "fixture_rebuild", &r.fixture_rebuild);
    push_capability_lines(&mut lines, "fixture_drift_check", &r.fixture_drift_check);
    push_capability_lines(&mut lines, "bench_compile", &r.bench_compile);
    push_capability_lines(&mut lines, "bench_runtime", &r.bench_runtime);
    push_capability_lines(&mut lines, "benchmark", &r.benchmark);
    push_line(&mut lines, "tools:");
    push_tool_line(&mut lines, "xcrun", &r.tools.xcrun);
    push_tool_line(&mut lines, "strip", &r.tools.strip);
    push_tool_line(&mut lines, "clang", &r.tools.clang);
    push_tool_line(&mut lines, "python3", &r.tools.python3);
    push_tool_line(&mut lines, "nm", &r.tools.nm);
    push_tool_line(&mut lines, "sdk_path_probe", &r.tools.sdk_path_probe);
    push_tool_line(&mut lines, "sha256sum", &r.tools.hash_tools.sha256sum);
    push_tool_line(&mut lines, "shasum", &r.tools.hash_tools.shasum);
    push_tool_line(&mut lines, "openssl", &r.tools.hash_tools.openssl);
    let selected = match &r.tools.selected_hash_tool {
        Some(t) => t.as_str(),
        None => "none",
    };
    push_labelled(&mut lines, "  selected_hash_tool: ", selected);
    if r.issues.len() == 0 {
        push_line(&mut lines, "issues: none");
    } else {
        push_line(&mut lines, "issues:");
        let ghost head = line_views(lines@);
        let ghost issue_lines = r.issues@.map_values(|i: CompatibilityIssue| issue_line_text("  "@, i));
        let mut k: usize = 0;
        while k < r.issues.len()
            invariant
                k <= r.issues@.len(),
                issue_lines == r.issues@.map_values(|i: CompatibilityIssue| issue_line_text("  "@, i)),
                line_views(lines@) == head + issue_lines.take(k as int),
            decreases r.issues@.len() - k,
        {
            push_issue_line(&mut lines, "  ", &r.issues[k]);
            assert(issue_lines.take(k + 1) =~= issue_lines.take(k as int).push(issue_lines[k as int]));
            k = k + 1;
        }
        assert(issue_lines.take(issue_lines.len() as int) =~= issue_lines);
    }
    assert(line_views(lines@) =~= doctor_lines(*r));
    lines
}

/// The header line of a disassembly: the target, where it starts and
/// ends (the window's end when there is one), the byte counts, the number
/// of instructions and why decoding stopped.
pub open spec fn disassembly_header_text(e: DisassemblyExecution) -> Seq<char> {
    "target: "@ + e.target@ + " start="@ + hex(e.start_address as nat) + " end="@ + hex(
        match e.window_end {
            Some(end) => end as nat,
            None => e.end_address as nat,
        },
    ) + " bytes="@ + hex(e.bytes_len as nat) + " decoded="@ + hex(e.decoded_bytes as nat)
        + " instructions="@ + decimal(e.instruction_count as nat) + " stop="@ + e.stop_reason@
}

/// The comments on an instruction line: its notes and references, as the
/// options ask.
pub open spec fn instruction_comments(d: DecodedInstruction, options: DisassemblyRenderOptions) -> Seq<
    Seq<char>,
> {
    (if options.include_annotations {
        d.annotations@.map_values(|a: Annotation| annotation_text(a))
    } else {
        seq![]
    }) + (if options.include_references {
        d.references@.map_values(|x: Reference| "ref "@ + reference_text(x))
    } else {
        seq![]
    })
}

/// An instruction line: the address, the opcode as eight hexadecimal
/// digits, the instruction as printed and, when there are any, ` ; ` and
/// the comments separated by ` | `.
pub open spec fn instruction_line_text(d: DecodedInstruction, options: DisassemblyRenderOptions) -> Seq<char> {
    let comments = instruction_comments(d, options);
    align_right(hex(d.address as nat), 18) + "  "@ + zero_padded(digits(d.opcode as nat, 16), 8) + "  "@
        + instruction_text(d.mnemonic@, d.operands@) + if comments.len() == 0 {
        seq![]
    } else {
        " ; "@ + join(comments, " | "@)
    }
}

/// Appends the strings joined by `sep`.
fn push_joined_by(out: &mut String, items: &Vec<String>, sep: &str)
    ensures
        final(out)@ == old(out)@ + join(string_views(items@), sep@),
{
    let ghost views = string_views(items@);
    let mut i: usize = 0;
    while i < items.len()
        invariant
            i <= items@.len(),
            views == string_views(items@),
            views.len() == items@.len(),
            out@ == old(out)@ + join(views.take(i as int), sep@),
        decreases items@.len() - i,
    {
        if i > 0 {
            out.append(sep);
        }
        out.append(items[i].as_str());
        assert(views.take(i + 1).drop_last() =~= views.take(i as int));
        if i == 0 {
            assert(views.take(1) =~= seq![views[0]]);
        }
        assert(out@ =~= old(out)@ + join(views.take(i + 1), sep@));
        i = i + 1;
    }
    assert(views.take(items@.len() as int) =~= views);
}

/// The comments on an instruction line (see `instruction_comments`).
fn comments_of(d: &DecodedInstruction, options: DisassemblyRenderOptions) -> (r: Vec<String>)
    ensures
        string_views(r@) == instruction_comments(*d, options),
{
    let mut comments: Vec<String> = Vec::new();
    if options.include_annotations {
        let mut i: usize = 0;
        while i < d.annotations.len()
            invariant
                i <= d.annotations@.len(),
                string_views(comments@) == d.annotations@.take(i as int).map_values(
                    |a: Annotation| annotation_text(a),
                ),
            decreases d.annotations@.len() - i,
        {
            let ghost before = comments@;
            comments.push(d.annotations[i].to_text());
            assert(string_views(comments@) =~= string_views(before).push(
                annotation_text(d.annotations@[i as int]),
            ));
            assert(d.annotations@.take(i + 1).map_values(|a: Annotation| annotation_text(a))
                =~= d.annotations@.take(i as int).map_values(|a: Annotation| annotation_text(a)).push(
                annotation_text(d.annotations@[i as int]),
            ));
            i = i + 1;
        }
        assert(d.annotations@.take(d.annotations@.len() as int) =~= d.annotations@);
    }
    let ghost notes = string_views(comments@);
    if options.include_references {
        let mut k: usize = 0;
        while k < d.references.len()
            invariant
                k <= d.references@.len(),
                string_views(comments@) == notes + d.references@.take(k as int).map_values(
                    |x: Reference| "ref "@ + reference_text(x),
                ),
            decreases d.references@.len() - k,
        {
            let mut line = string_of("ref ");
            line.append(reference_to_text(&d.references[k]).as_str());
            let ghost before = comments@;
            comments.push(line);
            assert(string_views(comments@) =~= string_views(before).push(
                "ref "@ + reference_text(d.references@[k as int]),
            ));
            assert(d.references@.take(k + 1).map_values(|x: Reference| "ref "@ + reference_text(x))
                =~= d.references@.take(k as int).map_values(
                |x: Reference| "ref "@ + reference_text(x),
            ).push("ref "@ + reference_text(d.references@[k as int])));
            k = k + 1;
        }
        assert(d.references@.take(d.references@.len() as int) =~= d.references@);
    }
    assert(string_views(comments@) =~= instruction_comments(*d, options));
    comments
}

/// An instruction as a listing line (see `instruction_line_text`).
pub fn instruction_line(d: &DecodedInstruction, options: DisassemblyRenderOptions) -> (r: String)
    ensures
        r@ == instruction_line_text(*d, options),
{
    let mut out = String::new();
    push_right(&mut out, hex_string(d.address).as_str(), 18);
    out.append("  ");
    let mut opcode = String::new();
    push_digits(&mut opcode, d.opcode as u64, 16);
    let opcode_chars = chars_vec(opcode.as_str());
    if opcode_chars.len() < 8 {
        push_repeat(&mut out, '0', 8 - opcode_chars.len());
    }
    push_chars(&mut out, &opcode_chars);
    out.append("  ");
    out.append(d.render().as_str());
    let comments = comments_of(d, options);
    if comments.len() > 0 {
        out.append(" ; ");
        push_joined_by(&mut out, &comments, " | ");
    }
    out
}

/// The disassembly as text lines: the header, then one line per
/// instruction.
pub fn disassembly_text_lines(e: &DisassemblyExecution, options: DisassemblyRenderOptions) -> (lines:
    Vec<String>)
    ensures
        line_views(lines@) == seq![disassembly_header_text(*e)] + e.instructions@.map_values(
            |d: DecodedInstruction| instruction_line_text(d, options),
        ),
{
    let mut header = string_of("target: ");
    header.append(e.target.as_str());
    header.append(" start=");
    push_hex(&mut header, e.start_address);
    header.append(" end=");
    let end = match e.window_end {
        Some(w) => w,
        None => e.end_address,
    };
    push_hex(&mut header, end);
    header.append(" bytes=");
    push_hex(&mut header, e.bytes_len as u64);
    header.append(" decoded=");
    push_hex(&mut header, e.decoded_bytes as u64);
    header.append(" instructions=");
    header.append(decimal_string(e.instruction_count as u64).as_str());
    header.append(" stop=");
    header.append(e.stop_reason.as_str());
    let mut lines: Vec<String> = Vec::new();
    lines.push(header);
    let ghost first = line_views(lines@);
    assert(first =~= seq![disassembly_header_text(*e)]);
    let ghost body = e.instructions@.map_values(|d: DecodedInstruction| instruction_line_text(d, options));
    let mut i: usize = 0;
    while i < e.instructions.len()
        invariant
            i <= e.instructions@.len(),
            body == e.instructions@.map_values(|d: DecodedInstruction| instruction_line_text(d, options)),
            line_views(lines@) == first + body.take(i as int),
        decreases e.instructions@.len() - i,
    {
        let ghost before = lines@;
        lines.push(instruction_line(&e.instructions[i], options));
        assert(line_views(lines@) =~= line_views(before).push(body[i as int]));
        assert(body.take(i + 1) =~= body.take(i as int).push(body[i as int]));
        i = i + 1;
    }
    assert(body.take(body.len() as int) =~= body);
    lines
}

} // verus!
