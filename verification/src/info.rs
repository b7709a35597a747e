//! The summary of a loaded image: where and what it is, the slice analysed,
//! and how many records of each kind it holds.

use vstd::prelude::*;

use crate::image::BinaryImage;
use crate::json::{
    json_view, members_view, opt_number_view, opt_str_view, opt_string, opt_u64, push_member,
    string_value, u64_num, usize_num, JsonValue, JsonView,
};
use crate::json::{elements_view, push_element};
use crate::model::{architecture_name, opt_text, BinaryFormat, Endianness, SliceDescriptor};
use crate::text::{decimal, hex, push_digits, push_hex, string_of};
use crate::plain::line_views;
use crate::model::push_str;

verus! {

/// A count as JSON.
pub open spec fn count_view(n: nat) -> JsonView {
    JsonView::Number(decimal(n))
}

/// The name of a container format.
pub open spec fn format_name(f: BinaryFormat) -> Seq<char> {
    match f {
        BinaryFormat::MachO => "MachO"@,
    }
}

/// The name of a byte order.
pub open spec fn endianness_name(e: Endianness) -> Seq<char> {
    match e {
        Endianness::Little => "Little"@,
        Endianness::Big => "Big"@,
    }
}

/// The analysed slice as JSON.
pub open spec fn slice_view(image: BinaryImage) -> JsonView {
    JsonView::Object(
        seq![
            ("offset"@, count_view(image.slice.offset as nat)),
            ("size"@, count_view(image.slice.size as nat)),
            ("is_universal"@, JsonView::Bool(image.slice.is_universal)),
            ("cpu_subtype"@, count_view(image.slice.cpu_subtype as nat)),
        ],
    )
}

/// How many records of each kind the image holds, as JSON.
pub open spec fn counts_view(image: BinaryImage) -> JsonView {
    JsonView::Object(
        seq![
            ("segments"@, count_view(image.segments@.len())),
            ("sections"@, count_view(image.sections@.len())),
            ("symbols"@, count_view(image.symbols@.len())),
            ("imports"@, count_view(image.imports@.len())),
            ("relocations"@, count_view(image.relocations@.len())),
        ],
    )
}

/// How much Objective-C metadata the image holds, as JSON.
pub open spec fn objc_counts_view(image: BinaryImage) -> JsonView {
    let o = image.objc;
    JsonView::Object(
        seq![
            ("class_names"@, count_view(o.class_names@.len())),
            ("selectors"@, count_view(o.selector_names@.len())),
            ("methods"@, count_view(o.method_names@.len())),
            ("pointer_refs"@, count_view(o.pointer_refs@.len())),
            ("classes"@, count_view(o.classes@.len())),
            ("protocols"@, count_view(o.protocols@.len())),
            ("categories"@, count_view(o.categories@.len())),
            (
                "image_info_flags"@,
                match o.image_info_flags {
                    Some(f) => count_view(f as nat),
                    None => JsonView::Null,
                },
            ),
        ],
    )
}

/// How much dynamic-linker metadata the image holds, as JSON.
pub open spec fn dyld_counts_view(image: BinaryImage) -> JsonView {
    let d = image.dyld;
    JsonView::Object(
        seq![
            ("dylibs"@, count_view(d.imported_dylibs@.len())),
            ("rpaths"@, count_view(d.rpaths@.len())),
            ("exports"@, count_view(d.exported_symbols@.len())),
            ("function_starts"@, count_view(d.function_starts@.len())),
            ("import_bindings"@, count_view(d.import_bindings@.len())),
            ("stubs"@, count_view(d.stubs@.len())),
            ("stub_helpers"@, count_view(d.stub_helpers@.len())),
            ("has_rebases"@, JsonView::Bool(d.has_rebases)),
            ("has_binds"@, JsonView::Bool(d.has_binds)),
            ("has_chained_fixups"@, JsonView::Bool(d.has_chained_fixups)),
        ],
    )
}

/// One slice of the file as JSON.
pub open spec fn slice_descriptor_view(d: SliceDescriptor) -> JsonView {
    JsonView::Object(
        seq![
            ("offset"@, count_view(d.offset as nat)),
            ("size"@, count_view(d.size as nat)),
            ("is_universal"@, JsonView::Bool(d.is_universal)),
            ("cpu_subtype"@, count_view(d.cpu_subtype as nat)),
            ("architecture"@, JsonView::Str(architecture_name(d.architecture))),
            ("selected"@, JsonView::Bool(d.selected)),
        ],
    )
}

/// Every slice of the file as a JSON array, in order.
pub open spec fn available_slices_view(image: BinaryImage) -> JsonView {
    JsonView::Array(image.available_slices@.map_values(|d: SliceDescriptor| slice_descriptor_view(d)))
}

/// One slice of the file as JSON.
pub fn slice_descriptor_json(d: &SliceDescriptor) -> (r: JsonValue)
    ensures
        json_view(r) == slice_descriptor_view(*d),
{
    let mut f: Vec<(String, JsonValue)> = Vec::new();
    push_member(&mut f, "offset", u64_num(d.offset));
    push_member(&mut f, "size", u64_num(d.size));
    push_member(&mut f, "is_universal", JsonValue::Bool(d.is_universal));
    push_member(&mut f, "cpu_subtype", u64_num(d.cpu_subtype as u64));
    push_member(&mut f, "architecture", string_value(d.architecture.as_str()));
    push_member(&mut f, "selected", JsonValue::Bool(d.selected));
    assert(members_view(f@) =~= slice_descriptor_view(*d)->Object_0);
    JsonValue::Object(f)
}

/// Every slice of the file as JSON, as the `slices` listing and the
/// summary show them.
pub fn available_slices_json(image: &BinaryImage) -> (r: JsonValue)
    ensures
        json_view(r) == available_slices_view(*image),
{
    let slices = &image.available_slices;
    let ghost f = |d: SliceDescriptor| slice_descriptor_view(d);
    let mut items: Vec<JsonValue> = Vec::new();
    let mut i: usize = 0;
    while i < slices.len()
        invariant
            i <= slices@.len(),
            f == (|d: SliceDescriptor| slice_descriptor_view(d)),
            elements_view(items@) == slices@.take(i as int).map_values(f),
        decreases slices@.len() - i,
    {
        push_element(&mut items, slice_descriptor_json(&slices[i]));
        assert(slices@.take(i + 1).map_values(f) =~= slices@.take(i as int).map_values(f).push(
            f(slices@[i as int]),
        ));
        i = i + 1;
    }
    assert(slices@.take(slices@.len() as int) =~= slices@);
    JsonValue::Array(items)
}

/// The image summary as JSON; `path` is the image's path as displayed.
pub open spec fn info_view(image: BinaryImage, path: Seq<char>) -> JsonView {
    JsonView::Object(
        seq![
            ("path"@, JsonView::Str(path)),
            ("format"@, JsonView::Str(format_name(image.format))),
            ("architecture"@, JsonView::Str(architecture_name(image.architecture))),
            ("endianness"@, JsonView::Str(endianness_name(image.endianness))),
            ("entry_point"@, opt_number_view(image.entry_point)),
            ("platform"@, opt_str_view(opt_text(image.platform))),
            ("slice"@, slice_view(image)),
            ("available_slices"@, available_slices_view(image)),
            ("counts"@, counts_view(image)),
            ("objc"@, objc_counts_view(image)),
            ("dyld"@, dyld_counts_view(image)),
        ],
    )
}

/// The analysed slice as JSON.
fn slice_json(image: &BinaryImage) -> (r: JsonValue)
    ensures
        json_view(r) == slice_view(*image),
{
    let mut f: Vec<(String, JsonValue)> = Vec::new();
    push_member(&mut f, "offset", u64_num(image.slice.offset));
    push_member(&mut f, "size", u64_num(image.slice.size));
    push_member(&mut f, "is_universal", JsonValue::Bool(image.slice.is_universal));
    push_member(&mut f, "cpu_subtype", u64_num(image.slice.cpu_subtype as u64));
    assert(members_view(f@) =~= slice_view(*image)->Object_0);
    JsonValue::Object(f)
}

/// How many records of each kind the image holds, as JSON.
fn counts_json(image: &BinaryImage) -> (r: JsonValue)
    ensures
        json_view(r) == counts_view(*image),
{
    let mut f: Vec<(String, JsonValue)> = Vec::new();
    push_member(&mut f, "segments", usize_num(image.segments.len()));
    push_member(&mut f, "sections", usize_num(image.sections.len()));
    push_member(&mut f, "symbols", usize_num(image.symbols.len()));
    push_member(&mut f, "imports", usize_num(image.imports.len()));
    push_member(&mut f, "relocations", usize_num(image.relocations.len()));
    assert(members_view(f@) =~= counts_view(*image)->Object_0);
    JsonValue::Object(f)
}

/// How much Objective-C metadata the image holds, as JSON.
fn objc_counts_json(image: &BinaryImage) -> (r: JsonValue)
    ensures
        json_view(r) == objc_counts_view(*image),
{
    let o = &image.objc;
    let mut f: Vec<(String, JsonValue)> = Vec::new();
    push_member(&mut f, "class_names", usize_num(o.class_names.len()));
    push_member(&mut f, "selectors", usize_num(o.selector_names.len()));
    push_member(&mut f, "methods", usize_num(o.method_names.len()));
    push_member(&mut f, "pointer_refs", usize_num(o.pointer_refs.len()));
    push_member(&mut f, "classes", usize_num(o.classes.len()));
    push_member(&mut f, "protocols", usize_num(o.protocols.len()));
    push_member(&mut f, "categories", usize_num(o.categories.len()));
    push_member(
        &mut f,
        "image_info_flags",
        match o.image_info_flags {
            Some(v) => u64_num(v as u64),
            None => JsonValue::Null,
        },
    );
    assert(members_view(f@) =~= objc_counts_view(*image)->Object_0);
    JsonValue::Object(f)
}

/// How much dynamic-linker metadata the image holds, as JSON.
fn dyld_counts_json(image: &BinaryImage) -> (r: JsonValue)
    ensures
        json_view(r) == dyld_counts_view(*image),
{
    let d = &image.dyld;
    let mut f: Vec<(String, JsonValue)> = Vec::new();
    push_member(&mut f, "dylibs", usize_num(d.imported_dylibs.len()));
    push_member(&mut f, "rpaths", usize_num(d.rpaths.len()));
    push_member(&mut f, "exports", usize_num(d.exported_symbols.len()));
    push_member(&mut f, "function_starts", usize_num(d.function_starts.len()));
    push_member(&mut f, "import_bindings", usize_num(d.import_bindings.len()));
    push_member(&mut f, "stubs", usize_num(d.stubs.len()));
    push_member(&mut f, "stub_helpers", usize_num(d.stub_helpers.len()));
    push_member(&mut f, "has_rebases", JsonValue::Bool(d.has_rebases));
    push_member(&mut f, "has_binds", JsonValue::Bool(d.has_binds));
    push_member(&mut f, "has_chained_fixups", JsonValue::Bool(d.has_chained_fixups));
    assert(members_view(f@) =~= dyld_counts_view(*image)->Object_0);
    JsonValue::Object(f)
}

/// The image summary as JSON (see `info_view`); `path` is the image's path
/// as displayed.
pub fn info_json(image: &BinaryImage, path: &str) -> (r: JsonValue)
    ensures
        json_view(r) == info_view(*image, path@),
{
    let mut f: Vec<(String, JsonValue)> = Vec::new();
    push_member(&mut f, "path", string_value(path));
    push_member(
        &mut f,
        "format",
        string_value(
            match image.format {
                BinaryFormat::MachO => "MachO",
            },
        ),
    );
    push_member(&mut f, "architecture", string_value(image.architecture.as_str()));
    push_member(
        &mut f,
        "endianness",
        string_value(
            match image.endianness {
                Endianness::Little => "Little",
                Endianness::Big => "Big",
            },
        ),
    );
    push_member(&mut f, "entry_point", opt_u64(image.entry_point));
    push_member(&mut f, "platform", opt_string(&image.platform));
    push_member(&mut f, "slice", slice_json(image));
    push_member(&mut f, "available_slices", available_slices_json(image));
    push_member(&mut f, "counts", counts_json(image));
    push_member(&mut f, "objc", objc_counts_json(image));
    push_member(&mut f, "dyld", dyld_counts_json(image));
    assert(members_view(f@) =~= info_view(*image, path@)->Object_0);
    JsonValue::Object(f)
}

/// `true` or `false`.
pub open spec fn bool_text(b: bool) -> Seq<char> {
    if b {
        "true"@
    } else {
        "false"@
    }
}

/// The slice line of the summary.
pub open spec fn slice_line(image: BinaryImage) -> Seq<char> {
    "slice: offset="@ + hex(image.slice.offset as nat) + " size="@ + hex(image.slice.size as nat)
        + " universal="@ + bool_text(image.slice.is_universal) + " subtype="@ + hex(
        image.slice.cpu_subtype as nat,
    )
}

/// The counts line of the summary.
pub open spec fn counts_line(image: BinaryImage) -> Seq<char> {
    "counts: segments="@ + decimal(image.segments@.len()) + " sections="@ + decimal(
        image.sections@.len(),
    ) + " symbols="@ + decimal(image.symbols@.len()) + " imports="@ + decimal(image.imports@.len())
        + " relocations="@ + decimal(image.relocations@.len())
}

/// The Objective-C line of the summary.
pub open spec fn objc_line(image: BinaryImage) -> Seq<char> {
    let o = image.objc;
    "objc: class_names="@ + decimal(o.class_names@.len()) + " selectors="@ + decimal(
        o.selector_names@.len(),
    ) + " methods="@ + decimal(o.method_names@.len()) + " pointer_refs="@ + decimal(
        o.pointer_refs@.len(),
    ) + " classes="@ + decimal(o.classes@.len()) + " protocols="@ + decimal(o.protocols@.len())
        + " categories="@ + decimal(o.categories@.len())
}

/// The dyld line of the summary.
pub open spec fn dyld_line(image: BinaryImage) -> Seq<char> {
    let d = image.dyld;
    "dyld: dylibs="@ + decimal(d.imported_dylibs@.len()) + " rpaths="@ + decimal(d.rpaths@.len())
        + " exports="@ + decimal(d.exported_symbols@.len()) + " function_starts="@ + decimal(
        d.function_starts@.len(),
    ) + " bindings="@ + decimal(d.import_bindings@.len()) + " stubs="@ + decimal(d.stubs@.len())
        + " helpers="@ + decimal(d.stub_helpers@.len()) + " rebases="@ + bool_text(d.has_rebases)
        + " binds="@ + bool_text(d.has_binds) + " chained_fixups="@ + bool_text(d.has_chained_fixups)
}

/// The image summary as text lines; `path` is the image's path as
/// displayed. The entry and platform lines appear only when known, and the
/// imported libraries are listed, indented, when there are any.
pub open spec fn info_lines(image: BinaryImage, path: Seq<char>) -> Seq<Seq<char>> {
    seq![
        "path: "@ + path,
        "format: "@ + format_name(image.format),
        "architecture: "@ + architecture_name(image.architecture),
        "endianness: "@ + endianness_name(image.endianness),
    ] + (match image.entry_point {
        Some(e) => seq!["entry: "@ + hex(e as nat)],
        None => seq![],
    }) + (match image.platform {
        Some(p) => seq!["platform: "@ + p@],
        None => seq![],
    }) + seq![
        slice_line(image),
        "available_slices: "@ + decimal(image.available_slices@.len()),
        counts_line(image),
        objc_line(image),
        dyld_line(image),
    ] + (
    if image.dyld.imported_dylibs@.len() == 0 {
        seq![]
    } else {
        seq!["dylibs:"@] + image.dyld.imported_dylibs@.map_values(|d: String| "  "@ + d@)
    })
}

/// Appends `true` or `false`.
fn push_bool(out: &mut String, b: bool)
    ensures
        final(out)@ == old(out)@ + bool_text(b),
{
    if b {
        push_str(out, "true");
    } else {
        push_str(out, "false");
    }
}

/// Appends a label and a count.
fn push_count(out: &mut String, label: &str, n: usize)
    ensures
        final(out)@ == old(out)@ + label@ + decimal(n as nat),
{
    push_str(out, label);
    push_digits(out, n as u64, 10);
}

/// Appends a line.
fn push_text_line(lines: &mut Vec<String>, line: String)
    ensures
        line_views(final(lines)@) == line_views(old(lines)@).push(line@),
{
    let ghost before = lines@;
    lines.push(line);
    assert(line_views(lines@) =~= line_views(before).push(line@));
}

/// The slice line (see `slice_line`).
fn slice_text(image: &BinaryImage) -> (r: String)
    ensures
        r@ == slice_line(*image),
{
    let mut out = String::new();
    push_str(&mut out, "slice: offset=");
    push_hex(&mut out, image.slice.offset);
    push_str(&mut out, " size=");
    push_hex(&mut out, image.slice.size);
    push_str(&mut out, " universal=");
    push_bool(&mut out, image.slice.is_universal);
    push_str(&mut out, " subtype=");
    push_hex(&mut out, image.slice.cpu_subtype as u64);
    assert(out@ =~= slice_line(*image));
    out
}

/// The counts line (see `counts_line`).
fn counts_text(image: &BinaryImage) -> (r: String)
    ensures
        r@ == counts_line(*image),
{
    let mut out = String::new();
    push_count(&mut out, "counts: segments=", image.segments.len());
    push_count(&mut out, " sections=", image.sections.len());
    push_count(&mut out, " symbols=", image.symbols.len());
    push_count(&mut out, " imports=", image.imports.len());
    push_count(&mut out, " relocations=", image.relocations.len());
    assert(out@ =~= counts_line(*image));
    out
}

/// The Objective-C line (see `objc_line`).
fn objc_text(image: &BinaryImage) -> (r: String)
    ensures
        r@ == objc_line(*image),
{
    let o = &image.objc;
    let mut out = String::new();
    push_count(&mut out, "objc: class_names=", o.class_names.len());
    push_count(&mut out, " selectors=", o.selector_names.len());
    push_count(&mut out, " methods=", o.method_names.len());
    push_count(&mut out, " pointer_refs=", o.pointer_refs.len());
    push_count(&mut out, " classes=", o.classes.len());
    push_count(&mut out, " protocols=", o.protocols.len());
    push_count(&mut out, " categories=", o.categories.len());
    assert(out@ =~= objc_line(*image));
    out
}

/// The dyld line (see `dyld_line`).
fn dyld_text(image: &BinaryImage) -> (r: String)
    ensures
        r@ == dyld_line(*image),
{
    let d = &image.dyld;
    let mut out = String::new();
    push_count(&mut out, "dyld: dylibs=", d.imported_dylibs.len());
    push_count(&mut out, " rpaths=", d.rpaths.len());
    push_count(&mut out, " exports=", d.exported_symbols.len());
    push_count(&mut out, " function_starts=", d.function_starts.len());
    push_count(&mut out, " bindings=", d.import_bindings.len());
    push_count(&mut out, " stubs=", d.stubs.len());
    push_count(&mut out, " helpers=", d.stub_helpers.len());
    push_str(&mut out, " rebases=");
    push_bool(&mut out, d.has_rebases);
    push_str(&mut out, " binds=");
    push_bool(&mut out, d.has_binds);
    push_str(&mut out, " chained_fixups=");
    push_bool(&mut out, d.has_chained_fixups);
    assert(out@ =~= dyld_line(*image));
    out
}

/// A label followed by a text.
fn labelled(label: &str, value: &str) -> (r: String)
    ensures
        r@ == label@ + value@,
{
    let mut out = string_of(label);
    push_str(&mut out, value);
    out
}

/// The image summary as text lines (see `info_lines`).
pub fn info_text_lines(image: &BinaryImage, path: &str) -> (r: Vec<String>)
    ensures
        line_views(r@) == info_lines(*image, path@),
{
    let mut lines: Vec<String> = Vec::new();
    push_text_line(&mut lines, labelled("path: ", path));
    push_text_line(
        &mut lines,
        labelled(
            "format: ",
            match image.format {
                BinaryFormat::MachO => "MachO",
            },
        ),
    );
    push_text_line(&mut lines, labelled("architecture: ", image.architecture.as_str()));
    push_text_line(
        &mut lines,
        labelled(
            "endianness: ",
            match image.endianness {
                Endianness::Little => "Little",
                Endianness::Big => "Big",
            },
        ),
    );
    let ghost head = line_views(lines@);
    match image.entry_point {
        Some(e) => {
            let mut out = string_of("entry: ");
            push_hex(&mut out, e);
            push_text_line(&mut lines, out);
        },
        None => {},
    }
    let ghost with_entry = line_views(lines@);
    match &image.platform {
        Some(p) => push_text_line(&mut lines, labelled("platform: ", p.as_str())),
        None => {},
    }
    let ghost with_platform = line_views(lines@);
    push_text_line(&mut lines, slice_text(image));
    let mut slices_line = string_of("available_slices: ");
    push_digits(&mut slices_line, image.available_slices.len() as u64, 10);
    push_text_line(&mut lines, slices_line);
    push_text_line(&mut lines, counts_text(image));
    push_text_line(&mut lines, objc_text(image));
    push_text_line(&mut lines, dyld_text(image));
    let ghost summary = line_views(lines@);
    let dylibs = &image.dyld.imported_dylibs;
    if dylibs.len() > 0 {
        push_text_line(&mut lines, string_of("dylibs:"));
        let ghost start = line_views(lines@);
        let mut i: usize = 0;
        while i < dylibs.len()
            invariant
                i <= dylibs@.len(),
                line_views(lines@) == start + dylibs@.take(i as int).map_values(|d: String| "  "@ + d@),
            decreases dylibs@.len() - i,
        {
            push_text_line(&mut lines, labelled("  ", dylibs[i].as_str()));
            assert(dylibs@.take(i + 1).map_values(|d: String| "  "@ + d@) =~= dylibs@.take(
                i as int,
            ).map_values(|d: String| "  "@ + d@).push("  "@ + dylibs@[i as int]@));
            i = i + 1;
        }
        assert(dylibs@.take(dylibs@.len() as int) =~= dylibs@);
    }
    assert(line_views(lines@) =~= info_lines(*image, path@));
    lines
}

/// One slice of the file as a listing line: `*` for the analysed slice,
/// `-` for the others, then where it lies and its architecture.
pub open spec fn slice_descriptor_line(d: SliceDescriptor) -> Seq<char> {
    (if d.selected {
        "*"@
    } else {
        "-"@
    }) + " offset="@ + hex(d.offset as nat) + " size="@ + hex(d.size as nat) + " universal="@
        + bool_text(d.is_universal) + " subtype="@ + hex(d.cpu_subtype as nat) + " arch="@
        + architecture_name(d.architecture)
}

/// One slice of the file as a listing line (see `slice_descriptor_line`).
fn slice_descriptor_text(d: &SliceDescriptor) -> (r: String)
    ensures
        r@ == slice_descriptor_line(*d),
{
    let mut out = string_of(if d.selected {
        "*"
    } else {
        "-"
    });
    push_str(&mut out, " offset=");
    push_hex(&mut out, d.offset);
    push_str(&mut out, " size=");
    push_hex(&mut out, d.size);
    push_str(&mut out, " universal=");
    push_bool(&mut out, d.is_universal);
    push_str(&mut out, " subtype=");
    push_hex(&mut out, d.cpu_subtype as u64);
    push_str(&mut out, " arch=");
    push_str(&mut out, d.architecture.as_str());
    assert(out@ =~= slice_descriptor_line(*d));
    out
}

/// Every slice of the file as listing lines, in order.
pub fn slices_text_lines(image: &BinaryImage) -> (r: Vec<String>)
    ensures
        line_views(r@) == image.available_slices@.map_values(|d: SliceDescriptor| slice_descriptor_line(d)),
{
    let slices = &image.available_slices;
    let ghost f = |d: SliceDescriptor| slice_descriptor_line(d);
    let mut lines: Vec<String> = Vec::new();
    let mut i: usize = 0;
    while i < slices.len()
        invariant
            i <= slices@.len(),
            f == (|d: SliceDescriptor| slice_descriptor_line(d)),
            line_views(lines@) == slices@.take(i as int).map_values(f),
        decreases slices@.len() - i,
    {
        push_text_line(&mut lines, slice_descriptor_text(&slices[i]));
        assert(slices@.take(i + 1).map_values(f) =~= slices@.take(i as int).map_values(f).push(
            f(slices@[i as int]),
        ));
        i = i + 1;
    }
    assert(slices@.take(slices@.len() as int) =~= slices@);
    lines
}

} // verus!
