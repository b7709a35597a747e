//! The JSON documents the commands print: the envelope around every reply,
//! errors, the doctor report, and the section, symbol, import, relocation
//! and disassembly listings.

use vstd::prelude::*;

use crate::cli::ErrorResponse;
use crate::compat::{architecture_text, platform_text, status_text, CompatibilityIssue};
use crate::disasm::DisassemblyExecution;
use crate::doctor::{CapabilityReport, DoctorReport, ToolStatus};
use crate::model::{
    annotation_text, binding_kind_name, binding_source_name, instruction_text, opt_hex_text,
    opt_str_text, operand_text, push_opt_hex, push_opt_str, push_str, section_full_name,
    stub_kind_name, symbol_kind_text, table_encoding_name, Annotation, DecodedInstruction, Import,
    ImportBindingKind, ImportBindingSource, Reference, Relocation, Section, Symbol,
};
use crate::json::{
    elements_view, i64_num, json_view, members_view, opt_str_view, opt_string, opt_u64,
    opt_number_view, push_element, push_member, string_value, u64_num, usize_num, JsonValue,
    JsonView,
};
use crate::text::{
    decimal, hex, push_char, push_digits, push_hex, signed_decimal, signed_decimal_string, string_of,
};

verus! {

/// The characters of an optional string.
pub open spec fn opt_chars(o: Option<String>) -> Option<Seq<char>> {
    match o {
        Some(s) => Some(s@),
        None => None,
    }
}

/// A JSON number holding an unsigned value.
pub open spec fn number_view(n: nat) -> JsonView {
    JsonView::Number(decimal(n))
}

/// An issue: its code and message.
pub open spec fn issue_view(issue: CompatibilityIssue) -> JsonView {
    JsonView::Object(
        seq![("code"@, JsonView::Str(issue.code@)), ("message"@, JsonView::Str(issue.message@))],
    )
}

/// The views of a list of issues.
pub open spec fn issues_view(issues: Seq<CompatibilityIssue>) -> Seq<JsonView> {
    issues.map_values(|i: CompatibilityIssue| issue_view(i))
}

/// An issue as JSON.
pub fn compatibility_issue_json(issue: &CompatibilityIssue) -> (r: JsonValue)
    ensures
        json_view(r) == issue_view(*issue),
{
    let mut fields: Vec<(String, JsonValue)> = Vec::new();
    push_member(&mut fields, "code", string_value(issue.code));
    push_member(&mut fields, "message", string_value(issue.message.as_str()));
    assert(members_view(fields@) =~= seq![
        ("code"@, JsonView::Str(issue.code@)),
        ("message"@, JsonView::Str(issue.message@)),
    ]);
    JsonValue::Object(fields)
}

/// A list of issues as a JSON array.
fn issues_json(issues: &Vec<CompatibilityIssue>) -> (r: JsonValue)
    ensures
        json_view(r) == JsonView::Array(issues_view(issues@)),
{
    let mut items: Vec<JsonValue> = Vec::new();
    let mut i: usize = 0;
    while i < issues.len()
        invariant
            i <= issues@.len(),
            elements_view(items@) == issues_view(issues@.take(i as int)),
        decreases issues@.len() - i,
    {
        push_element(&mut items, compatibility_issue_json(&issues[i]));
        assert(issues_view(issues@.take(i + 1)) =~= issues_view(issues@.take(i as int)).push(
            issue_view(issues@[i as int]),
        ));
        i = i + 1;
    }
    assert(issues@.take(issues@.len() as int) =~= issues@);
    JsonValue::Array(items)
}

/// A capability report: its status and its reasons.
pub open spec fn capability_view(report: CapabilityReport) -> JsonView {
    JsonView::Object(
        seq![
            ("status"@, JsonView::Str(status_text(report.status))),
            ("reasons"@, JsonView::Array(issues_view(report.reasons@))),
        ],
    )
}

/// A capability report as JSON.
pub fn capability_report_json(report: &CapabilityReport) -> (r: JsonValue)
    ensures
        json_view(r) == capability_view(*report),
{
    let mut fields: Vec<(String, JsonValue)> = Vec::new();
    push_member(&mut fields, "status", string_value(report.status.as_str()));
    push_member(&mut fields, "reasons", issues_json(&report.reasons));
    assert(members_view(fields@) =~= seq![
        ("status"@, JsonView::Str(status_text(report.status))),
        ("reasons"@, JsonView::Array(issues_view(report.reasons@))),
    ]);
    JsonValue::Object(fields)
}

/// A tool's probe result: whether it was found, whether it works, and
/// where it is.
pub open spec fn tool_view(status: ToolStatus) -> JsonView {
    JsonView::Object(
        seq![
            ("detected"@, JsonView::Bool(status.detected)),
            ("usable"@, JsonView::Bool(status.usable)),
            ("path"@, opt_str_view(opt_chars(status.path))),
        ],
    )
}

/// A tool's probe result as JSON.
pub fn tool_status_json(status: &ToolStatus) -> (r: JsonValue)
    ensures
        json_view(r) == tool_view(*status),
{
    let mut fields: Vec<(String, JsonValue)> = Vec::new();
    push_member(&mut fields, "detected", JsonValue::Bool(status.detected));
    push_member(&mut fields, "usable", JsonValue::Bool(status.usable));
    push_member(&mut fields, "path", opt_string(&status.path));
    assert(members_view(fields@) =~= seq![
        ("detected"@, JsonView::Bool(status.detected)),
        ("usable"@, JsonView::Bool(status.usable)),
        ("path"@, opt_str_view(opt_chars(status.path))),
    ]);
    JsonValue::Object(fields)
}

/// The host a doctor report describes.
pub open spec fn host_view(report: DoctorReport) -> JsonView {
    JsonView::Object(
        seq![
            ("os"@, JsonView::Str(platform_text(report.host_platform@))),
            ("architecture"@, JsonView::Str(architecture_text(report.host_architecture@))),
            ("target_triple"@, opt_str_view(opt_chars(report.target_triple))),
        ],
    )
}

/// The capability reports of a doctor report, by capability.
pub open spec fn capabilities_view(report: DoctorReport) -> JsonView {
    JsonView::Object(
        seq![
            ("macho_analysis"@, capability_view(report.macho_analysis)),
            ("fixture_rebuild"@, capability_view(report.fixture_rebuild)),
            ("fixture_drift_check"@, capability_view(report.fixture_drift_check)),
            ("bench_compile"@, capability_view(report.bench_compile)),
            ("bench_runtime"@, capability_view(report.bench_runtime)),
            ("benchmark"@, capability_view(report.benchmark)),
        ],
    )
}

/// The tools of a doctor report.
pub open spec fn tools_view(report: DoctorReport) -> JsonView {
    JsonView::Object(
        seq![
            ("xcrun"@, tool_view(report.tools.xcrun)),
            ("strip"@, tool_view(report.tools.strip)),
            ("clang"@, tool_view(report.tools.clang)),
            ("python3"@, tool_view(report.tools.python3)),
            ("nm"@, tool_view(report.tools.nm)),
            ("sdk_path_probe"@, tool_view(report.tools.sdk_path_probe)),
            (
                "hash_tools"@,
                JsonView::Object(
                    seq![
                        ("sha256sum"@, tool_view(report.tools.hash_tools.sha256sum)),
                        ("shasum"@, tool_view(report.tools.hash_tools.shasum)),
                        ("openssl"@, tool_view(report.tools.hash_tools.openssl)),
                    ],
                ),
            ),
            ("selected_hash_tool"@, opt_str_view(opt_chars(report.tools.selected_hash_tool))),
        ],
    )
}

/// A doctor report: the host, the overall status, each capability, the
/// tools and the issues.
pub open spec fn doctor_view(report: DoctorReport) -> JsonView {
    JsonView::Object(
        seq![
            ("host"@, host_view(report)),
            ("overall_status"@, JsonView::Str(status_text(report.overall_status))),
            ("capabilities"@, capabilities_view(report)),
            ("tools"@, tools_view(report)),
            ("issues"@, JsonView::Array(issues_view(report.issues@))),
        ],
    )
}

/// The host part of a doctor report as JSON.
fn host_json(report: &DoctorReport) -> (r: JsonValue)
    ensures
        json_view(r) == host_view(*report),
{
    let mut fields: Vec<(String, JsonValue)> = Vec::new();
    let os = report.host_platform.to_text();
    let arch = report.host_architecture.to_text();
    push_member(&mut fields, "os", string_value(os.as_str()));
    push_member(&mut fields, "architecture", string_value(arch.as_str()));
    push_member(&mut fields, "target_triple", opt_string(&report.target_triple));
    assert(members_view(fields@) =~= seq![
        ("os"@, JsonView::Str(platform_text(report.host_platform@))),
        ("architecture"@, JsonView::Str(architecture_text(report.host_architecture@))),
        ("target_triple"@, opt_str_view(opt_chars(report.target_triple))),
    ]);
    JsonValue::Object(fields)
}

/// The capability part of a doctor report as JSON.
fn capabilities_json(report: &DoctorReport) -> (r: JsonValue)
    ensures
        json_view(r) == capabilities_view(*report),
{
    let mut fields: Vec<(String, JsonValue)> = Vec::new();
    push_member(&mut fields, "macho_analysis", capability_report_json(&report.macho_analysis));
    push_member(&mut fields, "fixture_rebuild", capability_report_json(&report.fixture_rebuild));
    push_member(
        &mut fields,
        "fixture_drift_check",
        capability_report_json(&report.fixture_drift_check),
    );
    push_member(&mut fields, "bench_compile", capability_report_json(&report.bench_compile));
    push_member(&mut fields, "bench_runtime", capability_report_json(&report.bench_runtime));
    push_member(&mut fields, "benchmark", capability_report_json(&report.benchmark));
    assert(members_view(fields@) =~= seq![
        ("macho_analysis"@, capability_view(report.macho_analysis)),
        ("fixture_rebuild"@, capability_view(report.fixture_rebuild)),
        ("fixture_drift_check"@, capability_view(report.fixture_drift_check)),
        ("bench_compile"@, capability_view(report.bench_compile)),
        ("bench_runtime"@, capability_view(report.bench_runtime)),
        ("benchmark"@, capability_view(report.benchmark)),
    ]);
    JsonValue::Object(fields)
}

/// The tool part of a doctor report as JSON.
fn tools_json(report: &DoctorReport) -> (r: JsonValue)
    ensures
        json_view(r) == tools_view(*report),
{
    let tools = &report.tools;
    let mut hash: Vec<(String, JsonValue)> = Vec::new();
    push_member(&mut hash, "sha256sum", tool_status_json(&tools.hash_tools.sha256sum));
    push_member(&mut hash, "shasum", tool_status_json(&tools.hash_tools.shasum));
    push_member(&mut hash, "openssl", tool_status_json(&tools.hash_tools.openssl));
    assert(members_view(hash@) =~= seq![
        ("sha256sum"@, tool_view(report.tools.hash_tools.sha256sum)),
        ("shasum"@, tool_view(report.tools.hash_tools.shasum)),
        ("openssl"@, tool_view(report.tools.hash_tools.openssl)),
    ]);
    let mut fields: Vec<(String, JsonValue)> = Vec::new();
    push_member(&mut fields, "xcrun", tool_status_json(&tools.xcrun));
    push_member(&mut fields, "strip", tool_status_json(&tools.strip));
    push_member(&mut fields, "clang", tool_status_json(&tools.clang));
    push_member(&mut fields, "python3", tool_status_json(&tools.python3));
    push_member(&mut fields, "nm", tool_status_json(&tools.nm));
    push_member(&mut fields, "sdk_path_probe", tool_status_json(&tools.sdk_path_probe));
    push_member(&mut fields, "hash_tools", JsonValue::Object(hash));
    push_member(&mut fields, "selected_hash_tool", opt_string(&tools.selected_hash_tool));
    assert(members_view(fields@) =~= tools_view(*report)->Object_0);
    JsonValue::Object(fields)
}

/// A doctor report as JSON.
pub fn doctor_json(report: &DoctorReport) -> (r: JsonValue)
    ensures
        json_view(r) == doctor_view(*report),
{
    let mut fields: Vec<(String, JsonValue)> = Vec::new();
    push_member(&mut fields, "host", host_json(report));
    push_member(&mut fields, "overall_status", string_value(report.overall_status.as_str()));
    push_member(&mut fields, "capabilities", capabilities_json(report));
    push_member(&mut fields, "tools", tools_json(report));
    push_member(&mut fields, "issues", issues_json(&report.issues));
    assert(members_view(fields@) =~= doctor_view(*report)->Object_0);
    JsonValue::Object(fields)
}

/// An error: its code, message and details (null when there are none).
pub open spec fn error_view(error: ErrorResponse) -> JsonView {
    JsonView::Object(
        seq![
            ("code"@, JsonView::Str(error.code@)),
            ("message"@, JsonView::Str(error.message@)),
            ("details"@, opt_str_view(opt_chars(error.details))),
        ],
    )
}

/// An error as JSON.
pub fn error_json(error: &ErrorResponse) -> (r: JsonValue)
    ensures
        json_view(r) == error_view(*error),
{
    let mut fields: Vec<(String, JsonValue)> = Vec::new();
    push_member(&mut fields, "code", string_value(error.code));
    push_member(&mut fields, "message", string_value(error.message.as_str()));
    push_member(&mut fields, "details", opt_string(&error.details));
    assert(members_view(fields@) =~= error_view(*error)->Object_0);
    JsonValue::Object(fields)
}

/// The envelope around every reply: the schema version (1), the command
/// and its data.
pub open spec fn envelope_view(command: Seq<char>, data: JsonView) -> JsonView {
    JsonView::Object(
        seq![
            ("schema_version"@, number_view(1)),
            ("command"@, JsonView::Str(command)),
            ("data"@, data),
        ],
    )
}

/// A reply to `command` with its data, in the envelope.
pub fn envelope_json(command: &str, data: JsonValue) -> (r: JsonValue)
    ensures
        json_view(r) == envelope_view(command@, json_view(data)),
{
    let ghost data_view = json_view(data);
    let mut fields: Vec<(String, JsonValue)> = Vec::new();
    push_member(&mut fields, "schema_version", u64_num(1));
    push_member(&mut fields, "command", string_value(command));
    push_member(&mut fields, "data", data);
    assert(members_view(fields@) =~= envelope_view(command@, data_view)->Object_0);
    JsonValue::Object(fields)
}

/// A section in a listing.
pub open spec fn section_view(s: Section) -> JsonView {
    JsonView::Object(
        seq![
            ("segment"@, JsonView::Str(s.segment_name@)),
            ("name"@, JsonView::Str(s.name@)),
            ("full_name"@, JsonView::Str(section_full_name(s.segment_name@, s.name@))),
            ("address"@, number_view(s.address as nat)),
            ("size"@, number_view(s.size as nat)),
            ("file_offset"@, opt_number_view(s.file_offset)),
            ("file_size"@, number_view(s.file_size as nat)),
            ("kind"@, JsonView::Str(s.kind@)),
            ("executable"@, JsonView::Bool(s.executable)),
        ],
    )
}

/// A section as JSON.
pub fn section_json(s: &Section) -> (r: JsonValue)
    ensures
        json_view(r) == section_view(*s),
{
    let mut fields: Vec<(String, JsonValue)> = Vec::new();
    push_member(&mut fields, "segment", string_value(s.segment_name.as_str()));
    push_member(&mut fields, "name", string_value(s.name.as_str()));
    let full = s.full_name();
    push_member(&mut fields, "full_name", string_value(full.as_str()));
    push_member(&mut fields, "address", u64_num(s.address));
    push_member(&mut fields, "size", u64_num(s.size));
    push_member(&mut fields, "file_offset", opt_u64(s.file_offset));
    push_member(&mut fields, "file_size", u64_num(s.file_size));
    push_member(&mut fields, "kind", string_value(s.kind.as_str()));
    push_member(&mut fields, "executable", JsonValue::Bool(s.executable));
    assert(members_view(fields@) =~= section_view(*s)->Object_0);
    JsonValue::Object(fields)
}

/// A section listing as a JSON array.
pub fn sections_json(sections: &Vec<Section>) -> (r: JsonValue)
    ensures
        json_view(r) == JsonView::Array(sections@.map_values(|s: Section| section_view(s))),
{
    let mut items: Vec<JsonValue> = Vec::new();
    let mut i: usize = 0;
    while i < sections.len()
        invariant
            i <= sections@.len(),
            elements_view(items@) == sections@.take(i as int).map_values(|s: Section| section_view(s)),
        decreases sections@.len() - i,
    {
        push_element(&mut items, section_json(&sections[i]));
        assert(sections@.take(i + 1).map_values(|s: Section| section_view(s)) =~= sections@.take(
            i as int,
        ).map_values(|s: Section| section_view(s)).push(section_view(sections@[i as int])));
        i = i + 1;
    }
    assert(sections@.take(sections@.len() as int) =~= sections@);
    JsonValue::Array(items)
}

/// A symbol in a listing.
pub open spec fn symbol_view(s: Symbol) -> JsonView {
    JsonView::Object(
        seq![
            ("name"@, JsonView::Str(s.name@)),
            ("address"@, number_view(s.address as nat)),
            ("size"@, number_view(s.size as nat)),
            ("kind"@, JsonView::Str(symbol_kind_text(s.kind))),
            ("defined"@, JsonView::Bool(s.defined)),
            ("global"@, JsonView::Bool(s.global)),
            ("weak"@, JsonView::Bool(s.weak)),
            ("section"@, opt_str_view(opt_chars(s.section))),
        ],
    )
}

/// A symbol as JSON.
pub fn symbol_json(s: &Symbol) -> (r: JsonValue)
    ensures
        json_view(r) == symbol_view(*s),
{
    let mut fields: Vec<(String, JsonValue)> = Vec::new();
    push_member(&mut fields, "name", string_value(s.name.as_str()));
    push_member(&mut fields, "address", u64_num(s.address));
    push_member(&mut fields, "size", u64_num(s.size));
    let kind = s.kind.to_text();
    push_member(&mut fields, "kind", string_value(kind.as_str()));
    push_member(&mut fields, "defined", JsonValue::Bool(s.defined));
    push_member(&mut fields, "global", JsonValue::Bool(s.global));
    push_member(&mut fields, "weak", JsonValue::Bool(s.weak));
    push_member(&mut fields, "section", opt_string(&s.section));
    assert(members_view(fields@) =~= symbol_view(*s)->Object_0);
    JsonValue::Object(fields)
}

/// A symbol listing as a JSON array.
pub fn symbols_json(symbols: &Vec<Symbol>) -> (r: JsonValue)
    ensures
        json_view(r) == JsonView::Array(symbols@.map_values(|s: Symbol| symbol_view(s))),
{
    let mut items: Vec<JsonValue> = Vec::new();
    let mut i: usize = 0;
    while i < symbols.len()
        invariant
            i <= symbols@.len(),
            elements_view(items@) == symbols@.take(i as int).map_values(|s: Symbol| symbol_view(s)),
        decreases symbols@.len() - i,
    {
        push_element(&mut items, symbol_json(&symbols[i]));
        assert(symbols@.take(i + 1).map_values(|s: Symbol| symbol_view(s)) =~= symbols@.take(
            i as int,
        ).map_values(|s: Symbol| symbol_view(s)).push(symbol_view(symbols@[i as int])));
        i = i + 1;
    }
    assert(symbols@.take(symbols@.len() as int) =~= symbols@);
    JsonValue::Array(items)
}

/// An import in a listing.
pub open spec fn import_view(s: Import) -> JsonView {
    JsonView::Object(
        seq![
            ("name"@, JsonView::Str(s.name@)),
            ("dylib"@, JsonView::Str(s.dylib@)),
            ("address"@, opt_number_view(s.address)),
            ("offset"@, opt_number_view(s.offset)),
            ("addend"@, JsonView::Number(signed_decimal(s.addend as int))),
            ("is_lazy"@, JsonView::Bool(s.is_lazy)),
            ("is_weak"@, JsonView::Bool(s.is_weak)),
        ],
    )
}

/// An import as JSON.
pub fn import_json(s: &Import) -> (r: JsonValue)
    ensures
        json_view(r) == import_view(*s),
{
    let mut fields: Vec<(String, JsonValue)> = Vec::new();
    push_member(&mut fields, "name", string_value(s.name.as_str()));
    push_member(&mut fields, "dylib", string_value(s.dylib.as_str()));
    push_member(&mut fields, "address", opt_u64(s.address));
    push_member(&mut fields, "offset", opt_u64(s.offset));
    push_member(&mut fields, "addend", i64_num(s.addend));
    push_member(&mut fields, "is_lazy", JsonValue::Bool(s.is_lazy));
    push_member(&mut fields, "is_weak", JsonValue::Bool(s.is_weak));
    assert(members_view(fields@) =~= import_view(*s)->Object_0);
    JsonValue::Object(fields)
}

/// An import listing as a JSON array.
pub fn imports_json(imports: &Vec<Import>) -> (r: JsonValue)
    ensures
        json_view(r) == JsonView::Array(imports@.map_values(|s: Import| import_view(s))),
{
    let mut items: Vec<JsonValue> = Vec::new();
    let mut i: usize = 0;
    while i < imports.len()
        invariant
            i <= imports@.len(),
            elements_view(items@) == imports@.take(i as int).map_values(|s: Import| import_view(s)),
        decreases imports@.len() - i,
    {
        push_element(&mut items, import_json(&imports[i]));
        assert(imports@.take(i + 1).map_values(|s: Import| import_view(s)) =~= imports@.take(
            i as int,
        ).map_values(|s: Import| import_view(s)).push(import_view(imports@[i as int])));
        i = i + 1;
    }
    assert(imports@.take(imports@.len() as int) =~= imports@);
    JsonValue::Array(items)
}

/// A relocation in a listing.
pub open spec fn relocation_view(s: Relocation) -> JsonView {
    JsonView::Object(
        seq![
            ("section"@, JsonView::Str(s.section@)),
            ("address"@, number_view(s.address as nat)),
            ("size"@, number_view(s.size as nat)),
            ("kind"@, JsonView::Str(s.kind@)),
            ("encoding"@, JsonView::Str(s.encoding@)),
            ("target"@, JsonView::Str(s.target@)),
            ("addend"@, JsonView::Number(signed_decimal(s.addend as int))),
        ],
    )
}

/// A relocation as JSON.
pub fn relocation_json(s: &Relocation) -> (r: JsonValue)
    ensures
        json_view(r) == relocation_view(*s),
{
    let mut fields: Vec<(String, JsonValue)> = Vec::new();
    push_member(&mut fields, "section", string_value(s.section.as_str()));
    push_member(&mut fields, "address", u64_num(s.address));
    push_member(&mut fields, "size", u64_num(s.size as u64));
    push_member(&mut fields, "kind", string_value(s.kind.as_str()));
    push_member(&mut fields, "encoding", string_value(s.encoding.as_str()));
    push_member(&mut fields, "target", string_value(s.target.as_str()));
    push_member(&mut fields, "addend", i64_num(s.addend));
    assert(members_view(fields@) =~= relocation_view(*s)->Object_0);
    JsonValue::Object(fields)
}

/// A relocation listing as a JSON array.
pub fn relocations_json(relocations: &Vec<Relocation>) -> (r: JsonValue)
    ensures
        json_view(r) == JsonView::Array(relocations@.map_values(|s: Relocation| relocation_view(s))),
{
    let mut items: Vec<JsonValue> = Vec::new();
    let mut i: usize = 0;
    while i < relocations.len()
        invariant
            i <= relocations@.len(),
            elements_view(items@) == relocations@.take(i as int).map_values(
                |s: Relocation| relocation_view(s),
            ),
        decreases relocations@.len() - i,
    {
        push_element(&mut items, relocation_json(&relocations[i]));
        assert(relocations@.take(i + 1).map_values(|s: Relocation| relocation_view(s))
            =~= relocations@.take(i as int).map_values(|s: Relocation| relocation_view(s)).push(
            relocation_view(relocations@[i as int]),
        ));
        i = i + 1;
    }
    assert(relocations@.take(relocations@.len() as int) =~= relocations@);
    JsonValue::Array(items)
}

/// An optional binding ordinal as JSON: its number, or null.
pub open spec fn opt_ordinal_view(o: Option<u32>) -> JsonView {
    match o {
        Some(v) => number_view(v as nat),
        None => JsonView::Null,
    }
}

/// An optional binding ordinal as JSON.
fn opt_ordinal(o: Option<u32>) -> (r: JsonValue)
    ensures
        json_view(r) == opt_ordinal_view(o),
{
    match o {
        Some(v) => u64_num(v as u64),
        None => JsonValue::Null,
    }
}

/// An optional string as JSON: the string, or null.
pub open spec fn opt_text_view(o: Option<String>) -> JsonView {
    opt_str_view(opt_chars(o))
}

/// The members an import binding shows after its kind.
pub open spec fn binding_members(
    dylib: String,
    name: String,
    address: Option<u64>,
    offset: Option<u64>,
    addend: i64,
    binding_kind: ImportBindingKind,
    source: ImportBindingSource,
) -> Seq<(Seq<char>, JsonView)> {
    seq![
        ("dylib"@, JsonView::Str(dylib@)),
        ("name"@, JsonView::Str(name@)),
        ("address"@, opt_number_view(address)),
        ("offset"@, opt_number_view(offset)),
        ("addend"@, JsonView::Number(signed_decimal(addend as int))),
        ("binding_kind"@, JsonView::Str(binding_kind_name(binding_kind))),
        ("source"@, JsonView::Str(binding_source_name(source))),
    ]
}

/// The members a relocation shows after its kind.
pub open spec fn relocation_members(
    address: u64,
    kind: String,
    encoding: String,
    target: String,
    addend: i64,
) -> Seq<(Seq<char>, JsonView)> {
    seq![
        ("address"@, number_view(address as nat)),
        ("kind"@, JsonView::Str(kind@)),
        ("encoding"@, JsonView::Str(encoding@)),
        ("target"@, JsonView::Str(target@)),
        ("addend"@, JsonView::Number(signed_decimal(addend as int))),
    ]
}

/// A cross-reference: its kind first, then every field of the variant
/// (an absent value is null).
pub open spec fn reference_view(r: Reference) -> JsonView {
    match r {
        Reference::Call { target } => JsonView::Object(
            seq![("type"@, JsonView::Str("call"@)), ("target"@, number_view(target as nat))],
        ),
        Reference::Branch { target } => JsonView::Object(
            seq![("type"@, JsonView::Str("branch"@)), ("target"@, number_view(target as nat))],
        ),
        Reference::IndirectCall { via } => JsonView::Object(
            seq![("type"@, JsonView::Str("indirect_call"@)), ("via"@, JsonView::Str(via@))],
        ),
        Reference::IndirectBranch { via } => JsonView::Object(
            seq![("type"@, JsonView::Str("indirect_branch"@)), ("via"@, JsonView::Str(via@))],
        ),
        Reference::Page { target } => JsonView::Object(
            seq![("type"@, JsonView::Str("page"@)), ("target"@, number_view(target as nat))],
        ),
        Reference::Data { target } => JsonView::Object(
            seq![("type"@, JsonView::Str("data"@)), ("target"@, number_view(target as nat))],
        ),
        Reference::Import { name, dylib, address } => JsonView::Object(
            seq![
                ("type"@, JsonView::Str("import"@)),
                ("name"@, JsonView::Str(name@)),
                ("dylib"@, JsonView::Str(dylib@)),
                ("address"@, opt_number_view(address)),
            ],
        ),
        Reference::ImportBinding {
            dylib,
            name,
            address,
            offset,
            addend,
            binding_kind,
            source,
            is_weak,
        } => JsonView::Object(
            seq![
                ("type"@, JsonView::Str("import_binding"@)),
                ("name"@, JsonView::Str(name@)),
                ("dylib"@, JsonView::Str(dylib@)),
                ("address"@, opt_number_view(address)),
                ("offset"@, opt_number_view(offset)),
                ("addend"@, JsonView::Number(signed_decimal(addend as int))),
                ("binding_kind"@, JsonView::Str(binding_kind_name(binding_kind))),
                ("source"@, JsonView::Str(binding_source_name(source))),
                ("is_weak"@, JsonView::Bool(is_weak)),
            ],
        ),
        Reference::Stub {
            stub_address,
            section,
            pointer_section,
            pointer_address,
            helper_address,
            binding_ordinal,
            stub_kind,
            dylib,
            name,
            source,
        } => JsonView::Object(
            seq![
                ("type"@, JsonView::Str("stub"@)),
                ("stub_address"@, number_view(stub_address as nat)),
                ("section"@, opt_text_view(section)),
                ("pointer_section"@, opt_text_view(pointer_section)),
                ("pointer_address"@, opt_number_view(pointer_address)),
                ("helper_address"@, opt_number_view(helper_address)),
                ("binding_ordinal"@, opt_ordinal_view(binding_ordinal)),
                ("stub_kind"@, JsonView::Str(stub_kind_name(stub_kind))),
                ("dylib"@, opt_text_view(dylib)),
                ("name"@, opt_text_view(name)),
                ("source"@, JsonView::Str(binding_source_name(source))),
            ],
        ),
        Reference::StubHelper {
            helper_address,
            target_stub,
            stub_section,
            pointer_address,
            pointer_section,
            binding_ordinal,
            dylib,
            name,
        } => JsonView::Object(
            seq![
                ("type"@, JsonView::Str("stub_helper"@)),
                ("helper_address"@, number_view(helper_address as nat)),
                ("target_stub"@, opt_number_view(target_stub)),
                ("stub_section"@, opt_text_view(stub_section)),
                ("pointer_address"@, opt_number_view(pointer_address)),
                ("pointer_section"@, opt_text_view(pointer_section)),
                ("binding_ordinal"@, opt_ordinal_view(binding_ordinal)),
                ("dylib"@, opt_text_view(dylib)),
                ("name"@, opt_text_view(name)),
            ],
        ),
        Reference::RelocationEvidence { address, kind, encoding, target, addend } => JsonView::Object(
            seq![("type"@, JsonView::Str("relocation_evidence"@))] + relocation_members(
                address,
                kind,
                encoding,
                target,
                addend,
            ),
        ),
    }
}

/// Appends the members of a relocation (see `relocation_members`).
fn push_relocation_members(
    fields: &mut Vec<(String, JsonValue)>,
    address: u64,
    kind: &String,
    encoding: &String,
    target: &String,
    addend: i64,
)
    ensures
        members_view(final(fields)@) == members_view(old(fields)@) + relocation_members(
            address,
            *kind,
            *encoding,
            *target,
            addend,
        ),
{
    push_member(fields, "address", u64_num(address));
    push_member(fields, "kind", string_value(kind.as_str()));
    push_member(fields, "encoding", string_value(encoding.as_str()));
    push_member(fields, "target", string_value(target.as_str()));
    push_member(fields, "addend", i64_num(addend));
    assert(members_view(final(fields)@) =~= members_view(old(fields)@) + relocation_members(
        address,
        *kind,
        *encoding,
        *target,
        addend,
    ));
}

/// Appends the members of an import binding (see `binding_members`).
fn push_binding_members(
    fields: &mut Vec<(String, JsonValue)>,
    dylib: &String,
    name: &String,
    address: Option<u64>,
    offset: Option<u64>,
    addend: i64,
    binding_kind: ImportBindingKind,
    source: ImportBindingSource,
)
    ensures
        members_view(final(fields)@) == members_view(old(fields)@) + binding_members(
            *dylib,
            *name,
            address,
            offset,
            addend,
            binding_kind,
            source,
        ),
{
    push_member(fields, "dylib", string_value(dylib.as_str()));
    push_member(fields, "name", string_value(name.as_str()));
    push_member(fields, "address", opt_u64(address));
    push_member(fields, "offset", opt_u64(offset));
    push_member(fields, "addend", i64_num(addend));
    push_member(fields, "binding_kind", string_value(binding_kind.name()));
    push_member(fields, "source", string_value(source.name()));
    assert(members_view(final(fields)@) =~= members_view(old(fields)@) + binding_members(
        *dylib,
        *name,
        address,
        offset,
        addend,
        binding_kind,
        source,
    ));
}

/// A cross-reference as JSON.
pub fn reference_json(reference: &Reference) -> (r: JsonValue)
    ensures
        json_view(r) == reference_view(*reference),
{
    let mut fields: Vec<(String, JsonValue)> = Vec::new();
    match reference {
        Reference::Call { target } => {
            push_member(&mut fields, "type", string_value("call"));
            push_member(&mut fields, "target", u64_num(*target));
        },
        Reference::Branch { target } => {
            push_member(&mut fields, "type", string_value("branch"));
            push_member(&mut fields, "target", u64_num(*target));
        },
        Reference::IndirectCall { via } => {
            push_member(&mut fields, "type", string_value("indirect_call"));
            push_member(&mut fields, "via", string_value(via.as_str()));
        },
        Reference::IndirectBranch { via } => {
            push_member(&mut fields, "type", string_value("indirect_branch"));
            push_member(&mut fields, "via", string_value(via.as_str()));
        },
        Reference::Page { target } => {
            push_member(&mut fields, "type", string_value("page"));
            push_member(&mut fields, "target", u64_num(*target));
        },
        Reference::Data { target } => {
            push_member(&mut fields, "type", string_value("data"));
            push_member(&mut fields, "target", u64_num(*target));
        },
        Reference::Import { name, dylib, address } => {
            push_member(&mut fields, "type", string_value("import"));
            push_member(&mut fields, "name", string_value(name.as_str()));
            push_member(&mut fields, "dylib", string_value(dylib.as_str()));
            push_member(&mut fields, "address", opt_u64(*address));
        },
        Reference::ImportBinding {
            dylib,
            name,
            address,
            offset,
            addend,
            binding_kind,
            source,
            is_weak,
        } => {
            push_member(&mut fields, "type", string_value("import_binding"));
            push_member(&mut fields, "name", string_value(name.as_str()));
            push_member(&mut fields, "dylib", string_value(dylib.as_str()));
            push_member(&mut fields, "address", opt_u64(*address));
            push_member(&mut fields, "offset", opt_u64(*offset));
            push_member(&mut fields, "addend", i64_num(*addend));
            push_member(&mut fields, "binding_kind", string_value(binding_kind.name()));
            push_member(&mut fields, "source", string_value(source.name()));
            push_member(&mut fields, "is_weak", JsonValue::Bool(*is_weak));
        },
        Reference::Stub {
            stub_address,
            section,
            pointer_section,
            pointer_address,
            helper_address,
            binding_ordinal,
            stub_kind,
            dylib,
            name,
            source,
        } => {
            push_member(&mut fields, "type", string_value("stub"));
            push_member(&mut fields, "stub_address", u64_num(*stub_address));
            push_member(&mut fields, "section", opt_string(section));
            push_member(&mut fields, "pointer_section", opt_string(pointer_section));
            push_member(&mut fields, "pointer_address", opt_u64(*pointer_address));
            push_member(&mut fields, "helper_address", opt_u64(*helper_address));
            push_member(&mut fields, "binding_ordinal", opt_ordinal(*binding_ordinal));
            push_member(&mut fields, "stub_kind", string_value(stub_kind.name()));
            push_member(&mut fields, "dylib", opt_string(dylib));
            push_member(&mut fields, "name", opt_string(name));
            push_member(&mut fields, "source", string_value(source.name()));
        },
        Reference::StubHelper {
            helper_address,
            target_stub,
            stub_section,
            pointer_address,
            pointer_section,
            binding_ordinal,
            dylib,
            name,
        } => {
            push_member(&mut fields, "type", string_value("stub_helper"));
            push_member(&mut fields, "helper_address", u64_num(*helper_address));
            push_member(&mut fields, "target_stub", opt_u64(*target_stub));
            push_member(&mut fields, "stub_section", opt_string(stub_section));
            push_member(&mut fields, "pointer_address", opt_u64(*pointer_address));
            push_member(&mut fields, "pointer_section", opt_string(pointer_section));
            push_member(&mut fields, "binding_ordinal", opt_ordinal(*binding_ordinal));
            push_member(&mut fields, "dylib", opt_string(dylib));
            push_member(&mut fields, "name", opt_string(name));
        },
        Reference::RelocationEvidence { address, kind, encoding, target, addend } => {
            push_member(&mut fields, "type", string_value("relocation_evidence"));
            push_relocation_members(&mut fields, *address, kind, encoding, target, *addend);
        },
    }
    assert(members_view(fields@) =~= reference_view(*reference)->Object_0);
    JsonValue::Object(fields)
}

/// The decimal digits of an optional ordinal, `-` when absent.
pub open spec fn opt_ordinal_text(o: Option<u32>) -> Seq<char> {
    match o {
        Some(v) => decimal(v as nat),
        None => "-"@,
    }
}

/// Appends an optional ordinal in decimal, `-` when absent.
fn push_opt_ordinal(out: &mut String, o: Option<u32>)
    ensures
        final(out)@ == old(out)@ + opt_ordinal_text(o),
{
    match o {
        Some(v) => push_digits(out, v as u64, 10),
        None => {
            push_char(out, '-');
            proof {
                reveal_strlit("-");
            }
            assert(final(out)@ =~= old(out)@ + "-"@);
        },
    }
}

/// How a cross-reference is printed.
pub open spec fn reference_text(r: Reference) -> Seq<char> {
    match r {
        Reference::Call { target } => "call "@ + hex(target as nat),
        Reference::Branch { target } => "branch "@ + hex(target as nat),
        Reference::IndirectCall { via } => "indirect-call via "@ + via@,
        Reference::IndirectBranch { via } => "indirect-branch via "@ + via@,
        Reference::Page { target } => "page "@ + hex(target as nat),
        Reference::Data { target } => "data "@ + hex(target as nat),
        Reference::Import { name, dylib, address } => match address {
            Some(a) => "import "@ + dylib@ + seq![':'] + name@ + " ("@ + hex(a as nat) + seq![')'],
            None => "import "@ + dylib@ + seq![':'] + name@,
        },
        Reference::ImportBinding {
            dylib,
            name,
            address,
            offset,
            addend,
            binding_kind,
            source,
            is_weak,
        } => "import-binding "@ + dylib@ + seq![':'] + name@ + " addr="@ + opt_hex_text(address)
            + " off="@ + opt_hex_text(offset) + " addend="@ + signed_decimal(addend as int)
            + " kind="@ + binding_kind_name(binding_kind) + " source="@ + binding_source_name(source)
            + " weak="@ + (if is_weak {
            "true"@
        } else {
            "false"@
        }),
        Reference::Stub {
            stub_address,
            section,
            pointer_section,
            pointer_address,
            helper_address,
            binding_ordinal,
            stub_kind,
            dylib,
            name,
            source,
        } => "stub "@ + hex(stub_address as nat) + " ptr="@ + opt_hex_text(pointer_address)
            + " kind="@ + stub_kind_name(stub_kind) + seq![' '] + opt_str_text(dylib) + seq![':']
            + opt_str_text(name) + " source="@ + binding_source_name(source),
        Reference::StubHelper {
            helper_address,
            target_stub,
            stub_section,
            pointer_address,
            pointer_section,
            binding_ordinal,
            dylib,
            name,
        } => "stub-helper "@ + hex(helper_address as nat) + " stub="@ + opt_hex_text(target_stub)
            + " stub_section="@ + opt_str_text(stub_section) + " ptr="@ + opt_hex_text(
            pointer_address,
        ) + " ptr_section="@ + opt_str_text(pointer_section) + " ordinal="@ + opt_ordinal_text(
            binding_ordinal,
        ) + seq![' '] + opt_str_text(dylib) + seq![':'] + opt_str_text(name),
        Reference::RelocationEvidence { address, kind, encoding, target, addend } =>
            "reloc-evidence "@ + hex(address as nat) + " kind="@ + kind@ + " enc="@ + encoding@
            + " target="@ + target@ + " addend="@ + signed_decimal(addend as int),
    }
}

/// A cross-reference as printed.
pub fn reference_to_text(reference: &Reference) -> (r: String)
    ensures
        r@ == reference_text(*reference),
{
    let mut out = String::new();
    match reference {
        Reference::Call { target } => {
            push_str(&mut out, "call ");
            push_hex(&mut out, *target);
        },
        Reference::Branch { target } => {
            push_str(&mut out, "branch ");
            push_hex(&mut out, *target);
        },
        Reference::IndirectCall { via } => {
            push_str(&mut out, "indirect-call via ");
            push_str(&mut out, via.as_str());
        },
        Reference::IndirectBranch { via } => {
            push_str(&mut out, "indirect-branch via ");
            push_str(&mut out, via.as_str());
        },
        Reference::Page { target } => {
            push_str(&mut out, "page ");
            push_hex(&mut out, *target);
        },
        Reference::Data { target } => {
            push_str(&mut out, "data ");
            push_hex(&mut out, *target);
        },
        Reference::Import { name, dylib, address } => {
            push_str(&mut out, "import ");
            push_str(&mut out, dylib.as_str());
            push_char(&mut out, ':');
            push_str(&mut out, name.as_str());
            match address {
                Some(a) => {
                    push_str(&mut out, " (");
                    push_hex(&mut out, *a);
                    push_char(&mut out, ')');
                },
                None => {},
            }
        },
        Reference::ImportBinding {
            dylib,
            name,
            address,
            offset,
            addend,
            binding_kind,
            source,
            is_weak,
        } => {
            push_str(&mut out, "import-binding ");
            push_str(&mut out, dylib.as_str());
            push_char(&mut out, ':');
            push_str(&mut out, name.as_str());
            push_str(&mut out, " addr=");
            push_opt_hex(&mut out, *address);
            push_str(&mut out, " off=");
            push_opt_hex(&mut out, *offset);
            push_str(&mut out, " addend=");
            let a = signed_decimal_string(*addend);
            push_str(&mut out, a.as_str());
            push_str(&mut out, " kind=");
            push_str(&mut out, binding_kind.name());
            push_str(&mut out, " source=");
            push_str(&mut out, source.name());
            push_str(&mut out, " weak=");
            if *is_weak {
                push_str(&mut out, "true");
            } else {
                push_str(&mut out, "false");
            }
        },
        Reference::Stub { stub_address, pointer_address, stub_kind, dylib, name, source, .. } => {
            push_str(&mut out, "stub ");
            push_hex(&mut out, *stub_address);
            push_str(&mut out, " ptr=");
            push_opt_hex(&mut out, *pointer_address);
            push_str(&mut out, " kind=");
            push_str(&mut out, stub_kind.name());
            push_char(&mut out, ' ');
            push_opt_str(&mut out, dylib);
            push_char(&mut out, ':');
            push_opt_str(&mut out, name);
            push_str(&mut out, " source=");
            push_str(&mut out, source.name());
        },
        Reference::StubHelper {
            helper_address,
            target_stub,
            stub_section,
            pointer_address,
            pointer_section,
            binding_ordinal,
            dylib,
            name,
        } => {
            push_str(&mut out, "stub-helper ");
            push_hex(&mut out, *helper_address);
            push_str(&mut out, " stub=");
            push_opt_hex(&mut out, *target_stub);
            push_str(&mut out, " stub_section=");
            push_opt_str(&mut out, stub_section);
            push_str(&mut out, " ptr=");
            push_opt_hex(&mut out, *pointer_address);
            push_str(&mut out, " ptr_section=");
            push_opt_str(&mut out, pointer_section);
            push_str(&mut out, " ordinal=");
            push_opt_ordinal(&mut out, *binding_ordinal);
            push_char(&mut out, ' ');
            push_opt_str(&mut out, dylib);
            push_char(&mut out, ':');
            push_opt_str(&mut out, name);
        },
        Reference::RelocationEvidence { address, kind, encoding, target, addend } => {
            push_str(&mut out, "reloc-evidence ");
            push_hex(&mut out, *address);
            push_str(&mut out, " kind=");
            push_str(&mut out, kind.as_str());
            push_str(&mut out, " enc=");
            push_str(&mut out, encoding.as_str());
            push_str(&mut out, " target=");
            push_str(&mut out, target.as_str());
            push_str(&mut out, " addend=");
            let a = signed_decimal_string(*addend);
            push_str(&mut out, a.as_str());
        },
    }
    assert(out@ =~= reference_text(*reference));
    out
}

/// A note on an instruction: its kind first, then every field of the
/// variant (an absent value is null).
pub open spec fn annotation_view(a: Annotation) -> JsonView {
    match a {
        Annotation::Symbol(name) => JsonView::Object(
            seq![("type"@, JsonView::Str("symbol"@)), ("name"@, JsonView::Str(name@))],
        ),
        Annotation::TargetSymbol { address, name } => JsonView::Object(
            seq![
                ("type"@, JsonView::Str("target_symbol"@)),
                ("address"@, number_view(address as nat)),
                ("name"@, JsonView::Str(name@)),
            ],
        ),
        Annotation::Import { dylib, name } => JsonView::Object(
            seq![
                ("type"@, JsonView::Str("import"@)),
                ("dylib"@, JsonView::Str(dylib@)),
                ("name"@, JsonView::Str(name@)),
            ],
        ),
        Annotation::IndirectControlFlow { kind, via } => JsonView::Object(
            seq![
                ("type"@, JsonView::Str("indirect_control_flow"@)),
                ("kind"@, JsonView::Str(kind@)),
                ("via"@, JsonView::Str(via@)),
            ],
        ),
        Annotation::Relocation { address, kind, encoding, target, addend } => JsonView::Object(
            seq![("type"@, JsonView::Str("relocation"@))] + relocation_members(
                address,
                kind,
                encoding,
                target,
                addend,
            ),
        ),
        Annotation::ImportBinding { dylib, name, address, offset, addend, binding_kind, source } =>
            JsonView::Object(
            seq![("type"@, JsonView::Str("import_binding"@))] + binding_members(
                dylib,
                name,
                address,
                offset,
                addend,
                binding_kind,
                source,
            ),
        ),
        Annotation::ImportBindingEvidence {
            dylib,
            name,
            address,
            offset,
            addend,
            binding_kind,
            source,
        } => JsonView::Object(
            seq![("type"@, JsonView::Str("import_binding_evidence"@))] + binding_members(
                dylib,
                name,
                address,
                offset,
                addend,
                binding_kind,
                source,
            ),
        ),
        Annotation::JumpTableCandidate { base, index_register, element_size } => JsonView::Object(
            seq![
                ("type"@, JsonView::Str("jump_table_candidate"@)),
                ("base"@, number_view(base as nat)),
                ("index_register"@, JsonView::Str(index_register@)),
                ("element_size"@, number_view(element_size as nat)),
            ],
        ),
        Annotation::RelocationEvidence { address, kind, encoding, target, addend } => JsonView::Object(
            seq![("type"@, JsonView::Str("relocation_evidence"@))] + relocation_members(
                address,
                kind,
                encoding,
                target,
                addend,
            ),
        ),
        Annotation::TableSlotResolved {
            table_base,
            slot_address,
            index_register,
            element_size,
            encoding,
            target,
        } => JsonView::Object(
            seq![
                ("type"@, JsonView::Str("table_slot_resolved"@)),
                ("table_base"@, number_view(table_base as nat)),
                ("slot_address"@, number_view(slot_address as nat)),
                ("index_register"@, JsonView::Str(index_register@)),
                ("element_size"@, number_view(element_size as nat)),
                ("encoding"@, JsonView::Str(table_encoding_name(encoding))),
                ("target"@, number_view(target as nat)),
            ],
        ),
        Annotation::Note(value) => JsonView::Object(
            seq![("type"@, JsonView::Str("note"@)), ("value"@, JsonView::Str(value@))],
        ),
    }
}

/// A note on an instruction as JSON.
pub fn annotation_json(annotation: &Annotation) -> (r: JsonValue)
    ensures
        json_view(r) == annotation_view(*annotation),
{
    let mut fields: Vec<(String, JsonValue)> = Vec::new();
    match annotation {
        Annotation::Symbol(name) => {
            push_member(&mut fields, "type", string_value("symbol"));
            push_member(&mut fields, "name", string_value(name.as_str()));
        },
        Annotation::TargetSymbol { address, name } => {
            push_member(&mut fields, "type", string_value("target_symbol"));
            push_member(&mut fields, "address", u64_num(*address));
            push_member(&mut fields, "name", string_value(name.as_str()));
        },
        Annotation::Import { dylib, name } => {
            push_member(&mut fields, "type", string_value("import"));
            push_member(&mut fields, "dylib", string_value(dylib.as_str()));
            push_member(&mut fields, "name", string_value(name.as_str()));
        },
        Annotation::IndirectControlFlow { kind, via } => {
            push_member(&mut fields, "type", string_value("indirect_control_flow"));
            push_member(&mut fields, "kind", string_value(kind.as_str()));
            push_member(&mut fields, "via", string_value(via.as_str()));
        },
        Annotation::Relocation { address, kind, encoding, target, addend } => {
            push_member(&mut fields, "type", string_value("relocation"));
            push_relocation_members(&mut fields, *address, kind, encoding, target, *addend);
        },
        Annotation::ImportBinding { dylib, name, address, offset, addend, binding_kind, source } => {
            push_member(&mut fields, "type", string_value("import_binding"));
            push_binding_members(&mut fields, dylib, name, *address, *offset, *addend, *binding_kind, *source);
        },
        Annotation::ImportBindingEvidence {
            dylib,
            name,
            address,
            offset,
            addend,
            binding_kind,
            source,
        } => {
            push_member(&mut fields, "type", string_value("import_binding_evidence"));
            push_binding_members(&mut fields, dylib, name, *address, *offset, *addend, *binding_kind, *source);
        },
        Annotation::JumpTableCandidate { base, index_register, element_size } => {
            push_member(&mut fields, "type", string_value("jump_table_candidate"));
            push_member(&mut fields, "base", u64_num(*base));
            push_member(&mut fields, "index_register", string_value(index_register.as_str()));
            push_member(&mut fields, "element_size", u64_num(*element_size as u64));
        },
        Annotation::RelocationEvidence { address, kind, encoding, target, addend } => {
            push_member(&mut fields, "type", string_value("relocation_evidence"));
            push_relocation_members(&mut fields, *address, kind, encoding, target, *addend);
        },
        Annotation::TableSlotResolved {
            table_base,
            slot_address,
            index_register,
            element_size,
            encoding,
            target,
        } => {
            push_member(&mut fields, "type", string_value("table_slot_resolved"));
            push_member(&mut fields, "table_base", u64_num(*table_base));
            push_member(&mut fields, "slot_address", u64_num(*slot_address));
            push_member(&mut fields, "index_register", string_value(index_register.as_str()));
            push_member(&mut fields, "element_size", u64_num(*element_size as u64));
            push_member(&mut fields, "encoding", string_value(encoding.to_text()));
            push_member(&mut fields, "target", u64_num(*target));
        },
        Annotation::Note(value) => {
            push_member(&mut fields, "type", string_value("note"));
            push_member(&mut fields, "value", string_value(value.as_str()));
        },
    }
    assert(members_view(fields@) =~= annotation_view(*annotation)->Object_0);
    JsonValue::Object(fields)
}

/// Which parts of each instruction a disassembly listing shows.
#[derive(Debug, Clone, Copy, PartialEq, Eq, Structural)]
pub struct DisassemblyRenderOptions {
    pub include_annotations: bool,
    pub include_references: bool,
    pub include_values: bool,
}

/// The printed operands of an instruction, as JSON strings.
pub open spec fn operands_view(ops: Seq<crate::model::Operand>) -> Seq<JsonView> {
    ops.map_values(|op: crate::model::Operand| JsonView::Str(operand_text(op)))
}

/// An instruction in a disassembly listing; references and notes only when
/// the options ask for them. No values are recovered, so that list is
/// empty.
pub open spec fn instruction_view(d: DecodedInstruction, options: DisassemblyRenderOptions) -> JsonView {
    JsonView::Object(
        seq![
            ("address"@, number_view(d.address as nat)),
            ("size"@, number_view(d.size as nat)),
            ("opcode"@, number_view(d.opcode as nat)),
            ("mnemonic"@, JsonView::Str(d.mnemonic@)),
            ("operands"@, JsonView::Array(operands_view(d.operands@))),
            ("rendered"@, JsonView::Str(instruction_text(d.mnemonic@, d.operands@))),
            (
                "references"@,
                JsonView::Array(
                    if options.include_references {
                        d.references@.map_values(|x: Reference| reference_view(x))
                    } else {
                        Seq::empty()
                    },
                ),
            ),
            (
                "annotations"@,
                JsonView::Array(
                    if options.include_annotations {
                        d.annotations@.map_values(|x: Annotation| annotation_view(x))
                    } else {
                        Seq::empty()
                    },
                ),
            ),
            ("recovered_values"@, JsonView::Array(Seq::empty())),
        ],
    )
}

/// The printed operands as a JSON array.
fn operands_json(d: &DecodedInstruction) -> (r: JsonValue)
    ensures
        json_view(r) == JsonView::Array(operands_view(d.operands@)),
{
    let mut items: Vec<JsonValue> = Vec::new();
    let mut i: usize = 0;
    while i < d.operands.len()
        invariant
            i <= d.operands@.len(),
            elements_view(items@) == operands_view(d.operands@.take(i as int)),
        decreases d.operands@.len() - i,
    {
        let text = d.operands[i].to_text();
        push_element(&mut items, string_value(text.as_str()));
        assert(operands_view(d.operands@.take(i + 1)) =~= operands_view(d.operands@.take(i as int)).push(
            JsonView::Str(operand_text(d.operands@[i as int])),
        ));
        i = i + 1;
    }
    assert(d.operands@.take(d.operands@.len() as int) =~= d.operands@);
    JsonValue::Array(items)
}

/// The references as a JSON array.
fn references_json(d: &DecodedInstruction) -> (r: JsonValue)
    ensures
        json_view(r) == JsonView::Array(d.references@.map_values(|x: Reference| reference_view(x))),
{
    let mut items: Vec<JsonValue> = Vec::new();
    let mut i: usize = 0;
    while i < d.references.len()
        invariant
            i <= d.references@.len(),
            elements_view(items@) == d.references@.take(i as int).map_values(
                |x: Reference| reference_view(x),
            ),
        decreases d.references@.len() - i,
    {
        push_element(&mut items, reference_json(&d.references[i]));
        assert(d.references@.take(i + 1).map_values(|x: Reference| reference_view(x))
            =~= d.references@.take(i as int).map_values(|x: Reference| reference_view(x)).push(
            reference_view(d.references@[i as int]),
        ));
        i = i + 1;
    }
    assert(d.references@.take(d.references@.len() as int) =~= d.references@);
    JsonValue::Array(items)
}

/// The notes as a JSON array.
fn annotations_json(d: &DecodedInstruction) -> (r: JsonValue)
    ensures
        json_view(r) == JsonView::Array(d.annotations@.map_values(|x: Annotation| annotation_view(x))),
{
    let mut items: Vec<JsonValue> = Vec::new();
    let mut i: usize = 0;
    while i < d.annotations.len()
        invariant
            i <= d.annotations@.len(),
            elements_view(items@) == d.annotations@.take(i as int).map_values(
                |x: Annotation| annotation_view(x),
            ),
        decreases d.annotations@.len() - i,
    {
        push_element(&mut items, annotation_json(&d.annotations[i]));
        assert(d.annotations@.take(i + 1).map_values(|x: Annotation| annotation_view(x))
            =~= d.annotations@.take(i as int).map_values(|x: Annotation| annotation_view(x)).push(
            annotation_view(d.annotations@[i as int]),
        ));
        i = i + 1;
    }
    assert(d.annotations@.take(d.annotations@.len() as int) =~= d.annotations@);
    JsonValue::Array(items)
}

/// An instruction of a disassembly listing as JSON.
pub fn instruction_json(d: &DecodedInstruction, options: DisassemblyRenderOptions) -> (r: JsonValue)
    ensures
        json_view(r) == instruction_view(*d, options),
{
    let mut fields: Vec<(String, JsonValue)> = Vec::new();
    push_member(&mut fields, "address", u64_num(d.address));
    push_member(&mut fields, "size", u64_num(d.size as u64));
    push_member(&mut fields, "opcode", u64_num(d.opcode as u64));
    push_member(&mut fields, "mnemonic", string_value(d.mnemonic.as_str()));
    push_member(&mut fields, "operands", operands_json(d));
    let rendered = d.render();
    push_member(&mut fields, "rendered", string_value(rendered.as_str()));
    let references = if options.include_references {
        references_json(d)
    } else {
        JsonValue::Array(Vec::new())
    };
    push_member(&mut fields, "references", references);
    let annotations = if options.include_annotations {
        annotations_json(d)
    } else {
        JsonValue::Array(Vec::new())
    };
    push_member(&mut fields, "annotations", annotations);
    push_member(&mut fields, "recovered_values", JsonValue::Array(Vec::new()));
    assert(members_view(fields@) =~= instruction_view(*d, options)->Object_0);
    JsonValue::Object(fields)
}

/// A disassembly listing: the target, the window, the byte and instruction
/// counts, why decoding stopped, and the instructions.
pub open spec fn disassembly_view(e: DisassemblyExecution, options: DisassemblyRenderOptions) -> JsonView {
    JsonView::Object(
        seq![
            ("target"@, JsonView::Str(e.target@)),
            ("start_address"@, number_view(e.start_address as nat)),
            ("end_address"@, number_view(e.end_address as nat)),
            ("window_end"@, opt_number_view(e.window_end)),
            ("bytes_len"@, number_view(e.bytes_len as nat)),
            ("decoded_bytes"@, number_view(e.decoded_bytes as nat)),
            ("instruction_count"@, number_view(e.instruction_count as nat)),
            ("stop_reason"@, JsonView::Str(e.stop_reason@)),
            (
                "instructions"@,
                JsonView::Array(
                    e.instructions@.map_values(|d: DecodedInstruction| instruction_view(d, options)),
                ),
            ),
        ],
    )
}

/// A disassembly listing as JSON.
pub fn disassembly_json(e: &DisassemblyExecution, options: DisassemblyRenderOptions) -> (r: JsonValue)
    ensures
        json_view(r) == disassembly_view(*e, options),
{
    let mut items: Vec<JsonValue> = Vec::new();
    let mut i: usize = 0;
    while i < e.instructions.len()
        invariant
            i <= e.instructions@.len(),
            elements_view(items@) == e.instructions@.take(i as int).map_values(
                |d: DecodedInstruction| instruction_view(d, options),
            ),
        decreases e.instructions@.len() - i,
    {
        push_element(&mut items, instruction_json(&e.instructions[i], options));
        assert(e.instructions@.take(i + 1).map_values(
            |d: DecodedInstruction| instruction_view(d, options),
        ) =~= e.instructions@.take(i as int).map_values(
            |d: DecodedInstruction| instruction_view(d, options),
        ).push(instruction_view(e.instructions@[i as int], options)));
        i = i + 1;
    }
    assert(e.instructions@.take(e.instructions@.len() as int) =~= e.instructions@);
    let mut fields: Vec<(String, JsonValue)> = Vec::new();
    push_member(&mut fields, "target", string_value(e.target.as_str()));
    push_member(&mut fields, "start_address", u64_num(e.start_address));
    push_member(&mut fields, "end_address", u64_num(e.end_address));
    push_member(&mut fields, "window_end", opt_u64(e.window_end));
    push_member(&mut fields, "bytes_len", usize_num(e.bytes_len));
    push_member(&mut fields, "decoded_bytes", usize_num(e.decoded_bytes));
    push_member(&mut fields, "instruction_count", usize_num(e.instruction_count));
    push_member(&mut fields, "stop_reason", string_value(e.stop_reason.as_str()));
    push_member(&mut fields, "instructions", JsonValue::Array(items));
    assert(members_view(fields@) =~= disassembly_view(*e, options)->Object_0);
    JsonValue::Object(fields)
}

} // verus!
