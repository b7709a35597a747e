//! The dynamic-linker view of an image: which imported libraries, exports,
//! import bindings, stubs and lazy-binding helpers a listing keeps, how it
//! orders them, and their JSON form.

use vstd::prelude::*;

use crate::json::{
    elements_view, json_view, members_view, opt_number_view, opt_str_view, opt_string, opt_u64,
    push_element, push_member, string_value, u64_num, JsonValue, JsonView,
};
use crate::cli::{
    export_flag_filter_name, export_kind_filter_name, export_matches_flag, export_matches_kind,
    flag_names, flag_set_has, kind_matches, ExportFlagFilter, ExportKindFilter,
};
use crate::listing::{contains_case_insensitive, passes};
use crate::text::{ascii_lower, contains_seq};
use crate::model::{
    binding_kind_name, binding_source_name, opt_text, stub_kind_name, DyldMetadata, ExportFlags,
    ExportKind, ExportedSymbol,
    ImportBindingKind, ImportBindingRecord, ImportBindingSource, StubEntry, StubHelperEntry,
    StubKind,
};
use crate::objc::{name_passes, names_json};
use crate::sort::{
    key_after, key_view, keys_match, lemma_stable_sort_map, sort_keyed, stable_sort_by, KeyPart,
    PartView,
};
use crate::model::{join, push_str};
use crate::plain::{align_left, align_right, line_views, push_left, push_right};
use crate::text::{
    chars_vec, decimal, hex, push_digits, push_hex, signed_decimal, signed_decimal_string, string_of,
};

verus! {

/// How a dyld listing orders its records.
#[derive(Debug, Clone, Copy, PartialEq, Eq, Structural)]
pub enum DyldSortKey {
    Address,
    Name,
    Dylib,
    Source,
}

/// What a dyld listing shows, and the filters and order it applies.
#[derive(Debug, Clone, PartialEq, Eq)]
pub struct DyldViewOptions {
    pub show_dylibs: bool,
    pub show_rpaths: bool,
    pub show_exports: bool,
    pub show_function_starts: bool,
    pub show_bindings: bool,
    pub show_stubs: bool,
    pub show_helpers: bool,
    pub name_filter: Option<String>,
    pub dylib_filter: Option<String>,
    pub source_filter: Option<ImportBindingSource>,
    pub binding_kind_filter: Option<ImportBindingKind>,
    pub stub_kind_filter: Option<StubKind>,
    pub export_kind_filter: Option<ExportKindFilter>,
    pub export_flag_filter: Option<ExportFlagFilter>,
    pub ordinal_filter: Option<u32>,
    pub sort: Option<DyldSortKey>,
}

impl DyldViewOptions {
    /// Every part shown, nothing filtered, default order.
    pub fn all() -> (r: DyldViewOptions)
        ensures
            r.show_dylibs && r.show_rpaths && r.show_exports && r.show_function_starts
                && r.show_bindings && r.show_stubs && r.show_helpers,
            r.name_filter is None && r.dylib_filter is None && r.source_filter is None
                && r.binding_kind_filter is None && r.stub_kind_filter is None
                && r.export_kind_filter is None && r.export_flag_filter is None
                && r.ordinal_filter is None && r.sort is None,
    {
        DyldViewOptions {
            show_dylibs: true,
            show_rpaths: true,
            show_exports: true,
            show_function_starts: true,
            show_bindings: true,
            show_stubs: true,
            show_helpers: true,
            name_filter: None,
            dylib_filter: None,
            source_filter: None,
            binding_kind_filter: None,
            stub_kind_filter: None,
            export_kind_filter: None,
            export_flag_filter: None,
            ordinal_filter: None,
            sort: None,
        }
    }
}

impl DyldViewOptions {
    /// The options for the parts asked for on the command line: just those
    /// parts when any is asked for, every part otherwise; nothing filtered,
    /// default order.
    pub fn for_parts(
        dylibs: bool,
        rpaths: bool,
        exports: bool,
        function_starts: bool,
        bindings: bool,
        stubs: bool,
        helpers: bool,
    ) -> (r: DyldViewOptions)
        ensures
            ({
                let any = dylibs || rpaths || exports || function_starts || bindings || stubs || helpers;
                &&& r.show_dylibs == (!any || dylibs)
                &&& r.show_rpaths == (!any || rpaths)
                &&& r.show_exports == (!any || exports)
                &&& r.show_function_starts == (!any || function_starts)
                &&& r.show_bindings == (!any || bindings)
                &&& r.show_stubs == (!any || stubs)
                &&& r.show_helpers == (!any || helpers)
            }),
            r.name_filter is None && r.dylib_filter is None && r.source_filter is None
                && r.binding_kind_filter is None && r.stub_kind_filter is None
                && r.export_kind_filter is None && r.export_flag_filter is None
                && r.ordinal_filter is None && r.sort is None,
    {
        let any = dylibs || rpaths || exports || function_starts || bindings || stubs || helpers;
        let mut r = DyldViewOptions::all();
        if any {
            r.show_dylibs = dylibs;
            r.show_rpaths = rpaths;
            r.show_exports = exports;
            r.show_function_starts = function_starts;
            r.show_bindings = bindings;
            r.show_stubs = stubs;
            r.show_helpers = helpers;
        }
        r
    }
}

/// The records a dyld listing keeps, in listing order.
#[derive(Debug)]
pub struct FilteredDyldView<'a> {
    pub exports: Vec<&'a ExportedSymbol>,
    pub import_bindings: Vec<&'a ImportBindingRecord>,
    pub stubs: Vec<&'a StubEntry>,
    pub stub_helpers: Vec<&'a StubHelperEntry>,
}

/// Reading through a reference.
pub open spec fn deref_fn<'a, T>() -> spec_fn(&'a T) -> T {
    |x: &'a T| *x
}

/// The records behind a list of references.
pub open spec fn records<'a, T>(s: Seq<&'a T>) -> Seq<T> {
    s.map_values(deref_fn::<'a, T>())
}

/// The records a dyld listing keeps, as values.
pub struct DyldSelection {
    pub exports: Seq<ExportedSymbol>,
    pub import_bindings: Seq<ImportBindingRecord>,
    pub stubs: Seq<StubEntry>,
    pub stub_helpers: Seq<StubHelperEntry>,
}

impl<'a> FilteredDyldView<'a> {
    /// The kept records as values.
    pub open spec fn selection(&self) -> DyldSelection {
        DyldSelection {
            exports: records(self.exports@),
            import_bindings: records(self.import_bindings@),
            stubs: records(self.stubs@),
            stub_helpers: records(self.stub_helpers@),
        }
    }
}

/// The order a listing uses: the one asked for, by address otherwise.
pub open spec fn sort_of(v: DyldViewOptions) -> DyldSortKey {
    match v.sort {
        Some(k) => k,
        None => DyldSortKey::Address,
    }
}

/// An optional text, empty when absent.
pub open spec fn text_or_empty(o: Option<String>) -> Seq<char> {
    match o {
        Some(s) => s@,
        None => Seq::empty(),
    }
}

/// An optional number, zero when absent.
pub open spec fn number_or_zero(o: Option<u64>) -> u64 {
    match o {
        Some(v) => v,
        None => 0,
    }
}

/// The rank of a binding source in source order.
pub open spec fn source_rank(s: ImportBindingSource) -> u64 {
    match s {
        ImportBindingSource::ChainedFixup => 0,
        ImportBindingSource::IndirectSymbol => 1,
        ImportBindingSource::Stub => 2,
        ImportBindingSource::Other => 3,
    }
}

/// Whether an optional name passes an optional filter: an absent filter
/// passes everything, an absent name passes no filter.
pub open spec fn opt_passes(filter: Option<Seq<char>>, name: Option<String>) -> bool {
    match filter {
        Some(f) => name_passes(name, f),
        None => true,
    }
}

/// A binding kind matches a stub kind when both are lazy or both non-lazy.
pub open spec fn binding_matches_stub(b: ImportBindingKind, s: StubKind) -> bool {
    (b == ImportBindingKind::Lazy && s == StubKind::Lazy) || (b == ImportBindingKind::NonLazy
        && s == StubKind::NonLazy)
}

/// The exports a listing keeps: those whose name passes the name filter,
/// of the kind asked for and carrying the flag asked for.
pub open spec fn export_selected(v: DyldViewOptions) -> spec_fn(ExportedSymbol) -> bool {
    |e: ExportedSymbol|
        {
            &&& passes(opt_text(v.name_filter), e.name@)
            &&& (v.export_kind_filter matches Some(k) ==> kind_matches(e.kind, k))
            &&& (v.export_flag_filter matches Some(f) ==> flag_set_has(e.flags, f))
        }
}

/// The import bindings a listing keeps.
pub open spec fn binding_selected(v: DyldViewOptions) -> spec_fn(ImportBindingRecord) -> bool {
    |b: ImportBindingRecord|
        {
            &&& passes(opt_text(v.name_filter), b.name@)
            &&& passes(opt_text(v.dylib_filter), b.dylib@)
            &&& (v.source_filter matches Some(s) ==> b.source == s)
            &&& (v.binding_kind_filter matches Some(k) ==> b.binding_kind == k)
            &&& (v.stub_kind_filter matches Some(k) ==> binding_matches_stub(b.binding_kind, k))
            &&& (v.ordinal_filter matches Some(o) ==> b.ordinal == Some(o))
        }
}

/// The stubs a listing keeps.
pub open spec fn stub_selected(v: DyldViewOptions) -> spec_fn(StubEntry) -> bool {
    |s: StubEntry|
        {
            &&& opt_passes(opt_text(v.name_filter), s.name)
            &&& opt_passes(opt_text(v.dylib_filter), s.dylib)
            &&& (v.source_filter matches Some(x) ==> s.source == x)
            &&& (v.binding_kind_filter matches Some(k) ==> binding_matches_stub(k, s.stub_kind))
            &&& (v.stub_kind_filter matches Some(k) ==> s.stub_kind == k)
            &&& (v.ordinal_filter matches Some(o) ==> s.binding_ordinal == Some(o))
        }
}

/// Whether any filter that narrows stubs is set; then only the helpers of
/// kept stubs stay.
pub open spec fn restricts_helpers(v: DyldViewOptions) -> bool {
    v.name_filter is Some || v.dylib_filter is Some || v.source_filter is Some
        || v.binding_kind_filter is Some || v.stub_kind_filter is Some || v.ordinal_filter is Some
}

/// Whether one of `stubs` names `address` as its helper.
pub open spec fn helper_of_some(stubs: Seq<StubEntry>, address: u64) -> bool {
    exists|i: int| 0 <= i < stubs.len() && (#[trigger] stubs[i]).helper_address == Some(address)
}

/// The lazy-binding helpers a listing keeps, given the stubs it keeps.
pub open spec fn helper_selected(v: DyldViewOptions, stubs: Seq<StubEntry>) -> spec_fn(StubHelperEntry) -> bool {
    |h: StubHelperEntry|
        {
            &&& opt_passes(opt_text(v.name_filter), h.name)
            &&& opt_passes(opt_text(v.dylib_filter), h.dylib)
            &&& (v.ordinal_filter matches Some(o) ==> h.binding_ordinal == Some(o))
            &&& (restricts_helpers(v) ==> helper_of_some(stubs, h.helper_address))
        }
}

/// The order of exports: by address then name, by name, or by raw flags
/// then name.
pub open spec fn export_key(k: DyldSortKey) -> spec_fn(ExportedSymbol) -> Seq<PartView> {
    |e: ExportedSymbol| match k {
        DyldSortKey::Address => seq![PartView::Number(number_or_zero(e.address)), PartView::Text(e.name@)],
        DyldSortKey::Name => seq![PartView::Text(e.name@)],
        _ => seq![PartView::Text(e.raw_flags@), PartView::Text(e.name@)],
    }
}

/// The order of import bindings for each sort key.
pub open spec fn binding_key(k: DyldSortKey) -> spec_fn(ImportBindingRecord) -> Seq<PartView> {
    |b: ImportBindingRecord| match k {
        DyldSortKey::Address => seq![
            PartView::Number(number_or_zero(b.address)),
            PartView::Number(number_or_zero(b.offset)),
            PartView::Text(b.dylib@),
            PartView::Text(b.name@),
        ],
        DyldSortKey::Name => seq![
            PartView::Text(b.name@),
            PartView::Text(b.dylib@),
            PartView::Number(number_or_zero(b.address)),
        ],
        DyldSortKey::Dylib => seq![
            PartView::Text(b.dylib@),
            PartView::Text(b.name@),
            PartView::Number(number_or_zero(b.address)),
        ],
        DyldSortKey::Source => seq![
            PartView::Number(source_rank(b.source)),
            PartView::Text(b.dylib@),
            PartView::Text(b.name@),
            PartView::Number(number_or_zero(b.address)),
        ],
    }
}

/// The order of stubs for each sort key.
pub open spec fn stub_key(k: DyldSortKey) -> spec_fn(StubEntry) -> Seq<PartView> {
    |s: StubEntry| match k {
        DyldSortKey::Address => seq![PartView::Number(s.stub_address)],
        DyldSortKey::Name => seq![
            PartView::Text(text_or_empty(s.name)),
            PartView::Text(text_or_empty(s.dylib)),
            PartView::Number(s.stub_address),
        ],
        DyldSortKey::Dylib => seq![
            PartView::Text(text_or_empty(s.dylib)),
            PartView::Text(text_or_empty(s.name)),
            PartView::Number(s.stub_address),
        ],
        DyldSortKey::Source => seq![
            PartView::Number(source_rank(s.source)),
            PartView::Text(text_or_empty(s.dylib)),
            PartView::Text(text_or_empty(s.name)),
            PartView::Number(s.stub_address),
        ],
    }
}

/// The order of lazy-binding helpers for each sort key (by binding ordinal
/// under the source order).
pub open spec fn helper_key(k: DyldSortKey) -> spec_fn(StubHelperEntry) -> Seq<PartView> {
    |h: StubHelperEntry| match k {
        DyldSortKey::Address => seq![PartView::Number(h.helper_address)],
        DyldSortKey::Name => seq![
            PartView::Text(text_or_empty(h.name)),
            PartView::Text(text_or_empty(h.dylib)),
            PartView::Number(h.helper_address),
        ],
        DyldSortKey::Dylib => seq![
            PartView::Text(text_or_empty(h.dylib)),
            PartView::Text(text_or_empty(h.name)),
            PartView::Number(h.helper_address),
        ],
        DyldSortKey::Source => seq![
            PartView::Number(
                match h.binding_ordinal {
                    Some(o) => o as u64,
                    None => 0,
                },
            ),
            PartView::Text(text_or_empty(h.dylib)),
            PartView::Text(text_or_empty(h.name)),
            PartView::Number(h.helper_address),
        ],
    }
}

/// What a dyld listing keeps: the exports, import bindings, stubs and
/// helpers that pass its filters (helpers, under any narrowing filter,
/// only when a kept stub names them), each group sorted stably by the
/// listing's order.
#[verifier::opaque]
pub open spec fn dyld_selection(dyld: DyldMetadata, v: DyldViewOptions) -> DyldSelection {
    let k = sort_of(v);
    let stubs = dyld.stubs@.filter(stub_selected(v));
    DyldSelection {
        exports: stable_sort_by(dyld.exported_symbols@.filter(export_selected(v)), export_key(k)),
        import_bindings: stable_sort_by(dyld.import_bindings@.filter(binding_selected(v)), binding_key(k)),
        stubs: stable_sort_by(stubs, stub_key(k)),
        stub_helpers: stable_sort_by(dyld.stub_helpers@.filter(helper_selected(v, stubs)), helper_key(k)),
    }
}

/// A text key part.
fn text_part(s: &String) -> (r: KeyPart)
    ensures
        r@ == PartView::Text(s@),
{
    KeyPart::Text(chars_vec(s.as_str()))
}

/// A text key part from an optional text, empty when absent.
fn opt_text_part(o: &Option<String>) -> (r: KeyPart)
    ensures
        r@ == PartView::Text(text_or_empty(*o)),
{
    match o {
        Some(s) => KeyPart::Text(chars_vec(s.as_str())),
        None => {
            let v: Vec<char> = Vec::new();
            assert(v@ =~= Seq::<char>::empty());
            KeyPart::Text(v)
        },
    }
}

/// A number key part from an optional number, zero when absent.
fn opt_number_part(o: Option<u64>) -> (r: KeyPart)
    ensures
        r@ == PartView::Number(number_or_zero(o)),
{
    match o {
        Some(v) => KeyPart::Number(v),
        None => KeyPart::Number(0),
    }
}

/// The rank of a binding source.
fn source_rank_exec(s: ImportBindingSource) -> (r: u64)
    ensures
        r == source_rank(s),
{
    match s {
        ImportBindingSource::ChainedFixup => 0,
        ImportBindingSource::IndirectSymbol => 1,
        ImportBindingSource::Stub => 2,
        ImportBindingSource::Other => 3,
    }
}

/// Whether an optional name passes an optional filter (see `opt_passes`).
fn opt_name_passes(filter: &Option<String>, name: &Option<String>) -> (r: bool)
    ensures
        r == opt_passes(opt_text(*filter), *name),
{
    match filter {
        Some(f) => match name {
            Some(n) => contains_case_insensitive(n.as_str(), f.as_str()),
            None => false,
        },
        None => true,
    }
}

/// Whether a name passes an optional filter (see `passes`).
fn name_passes_filter(filter: &Option<String>, name: &String) -> (r: bool)
    ensures
        r == passes(opt_text(*filter), name@),
{
    match filter {
        Some(f) => contains_case_insensitive(name.as_str(), f.as_str()),
        None => true,
    }
}

/// Whether a binding kind matches a stub kind (see `binding_matches_stub`).
fn binding_matches_stub_kind(b: ImportBindingKind, s: StubKind) -> (r: bool)
    ensures
        r == binding_matches_stub(b, s),
{
    (b == ImportBindingKind::Lazy && s == StubKind::Lazy) || (b == ImportBindingKind::NonLazy
        && s == StubKind::NonLazy)
}

/// The sort key in effect.
fn sort_key_of(v: &DyldViewOptions) -> (r: DyldSortKey)
    ensures
        r == sort_of(*v),
{
    match v.sort {
        Some(k) => k,
        None => DyldSortKey::Address,
    }
}

/// The sort key of one record (see `export_key`).
fn export_key_exec(x: &ExportedSymbol, k: DyldSortKey) -> (r: Vec<KeyPart>)
    ensures
        key_view(r@) == (export_key(k))(*x),
{
    let mut parts: Vec<KeyPart> = Vec::new();
    match k {
        DyldSortKey::Address => {
            parts.push(opt_number_part(x.address));
            parts.push(text_part(&x.name));
        },
        DyldSortKey::Name => {
            parts.push(text_part(&x.name));
        },
        _ => {
            parts.push(text_part(&x.raw_flags));
            parts.push(text_part(&x.name));
        },
    }
    assert(key_view(parts@) =~= (export_key(k))(*x));
    parts
}

/// The sort key of one record (see `binding_key`).
fn binding_key_exec(x: &ImportBindingRecord, k: DyldSortKey) -> (r: Vec<KeyPart>)
    ensures
        key_view(r@) == (binding_key(k))(*x),
{
    let mut parts: Vec<KeyPart> = Vec::new();
    match k {
        DyldSortKey::Address => {
            parts.push(opt_number_part(x.address));
            parts.push(opt_number_part(x.offset));
            parts.push(text_part(&x.dylib));
            parts.push(text_part(&x.name));
        },
        DyldSortKey::Name => {
            parts.push(text_part(&x.name));
            parts.push(text_part(&x.dylib));
            parts.push(opt_number_part(x.address));
        },
        DyldSortKey::Dylib => {
            parts.push(text_part(&x.dylib));
            parts.push(text_part(&x.name));
            parts.push(opt_number_part(x.address));
        },
        DyldSortKey::Source => {
            parts.push(KeyPart::Number(source_rank_exec(x.source)));
            parts.push(text_part(&x.dylib));
            parts.push(text_part(&x.name));
            parts.push(opt_number_part(x.address));
        },
    }
    assert(key_view(parts@) =~= (binding_key(k))(*x));
    parts
}

/// The sort key of one record (see `stub_key`).
fn stub_key_exec(x: &StubEntry, k: DyldSortKey) -> (r: Vec<KeyPart>)
    ensures
        key_view(r@) == (stub_key(k))(*x),
{
    let mut parts: Vec<KeyPart> = Vec::new();
    match k {
        DyldSortKey::Address => {
            parts.push(KeyPart::Number(x.stub_address));
        },
        DyldSortKey::Name => {
            parts.push(opt_text_part(&x.name));
            parts.push(opt_text_part(&x.dylib));
            parts.push(KeyPart::Number(x.stub_address));
        },
        DyldSortKey::Dylib => {
            parts.push(opt_text_part(&x.dylib));
            parts.push(opt_text_part(&x.name));
            parts.push(KeyPart::Number(x.stub_address));
        },
        DyldSortKey::Source => {
            parts.push(KeyPart::Number(source_rank_exec(x.source)));
            parts.push(opt_text_part(&x.dylib));
            parts.push(opt_text_part(&x.name));
            parts.push(KeyPart::Number(x.stub_address));
        },
    }
    assert(key_view(parts@) =~= (stub_key(k))(*x));
    parts
}

/// The sort key of one record (see `helper_key`).
fn helper_key_exec(x: &StubHelperEntry, k: DyldSortKey) -> (r: Vec<KeyPart>)
    ensures
        key_view(r@) == (helper_key(k))(*x),
{
    let mut parts: Vec<KeyPart> = Vec::new();
    match k {
        DyldSortKey::Address => {
            parts.push(KeyPart::Number(x.helper_address));
        },
        DyldSortKey::Name => {
            parts.push(opt_text_part(&x.name));
            parts.push(opt_text_part(&x.dylib));
            parts.push(KeyPart::Number(x.helper_address));
        },
        DyldSortKey::Dylib => {
            parts.push(opt_text_part(&x.dylib));
            parts.push(opt_text_part(&x.name));
            parts.push(KeyPart::Number(x.helper_address));
        },
        DyldSortKey::Source => {
            let ordinal: u64 = match x.binding_ordinal {
                Some(o) => o as u64,
                None => 0,
            };
            parts.push(KeyPart::Number(ordinal));
            parts.push(opt_text_part(&x.dylib));
            parts.push(opt_text_part(&x.name));
            parts.push(KeyPart::Number(x.helper_address));
        },
    }
    assert(key_view(parts@) =~= (helper_key(k))(*x));
    parts
}

/// The exports a listing keeps, sorted (see `dyld_selection`).
fn select_exports<'a>(items: &'a Vec<ExportedSymbol>, v: &DyldViewOptions) -> (r: Vec<&'a ExportedSymbol>)
    ensures
        records(r@) == stable_sort_by(items@.filter(export_selected(*v)), export_key(sort_of(*v))),
{
    let k = sort_key_of(v);
    let ghost pred = export_selected(*v);
    let ghost key = key_after(export_key(k), deref_fn::<ExportedSymbol>());
    let mut entries: Vec<(Vec<KeyPart>, &'a ExportedSymbol)> = Vec::new();
    let mut i: usize = 0;
    while i < items.len()
        invariant
            i <= items@.len(),
            k == sort_of(*v),
            pred == export_selected(*v),
            key == key_after(export_key(k), deref_fn::<ExportedSymbol>()),
            keys_match(entries@, key),
            records(entries@.map_values(|e: (Vec<KeyPart>, &'a ExportedSymbol)| e.1)) == items@.take(i as int).filter(pred),
        decreases items@.len() - i,
    {
        proof {
            crate::listing::lemma_filter_step(items@, i as int, pred);
        }
        let x = &items[i];
        let ghost before = entries@;
        if export_passes(x, v) {
            let kx = export_key_exec(x, k);
            entries.push((kx, x));
            assert(entries@.map_values(|e: (Vec<KeyPart>, &'a ExportedSymbol)| e.1) =~= before.map_values(
                |e: (Vec<KeyPart>, &'a ExportedSymbol)| e.1,
            ).push(x));
            assert(records(entries@.map_values(|e: (Vec<KeyPart>, &'a ExportedSymbol)| e.1)) =~= records(
                before.map_values(|e: (Vec<KeyPart>, &'a ExportedSymbol)| e.1),
            ).push(items@[i as int]));
        }
        i = i + 1;
    }
    assert(items@.take(items@.len() as int) =~= items@);
    let ghost refs = entries@.map_values(|e: (Vec<KeyPart>, &'a ExportedSymbol)| e.1);
    let r = sort_keyed(entries, Ghost(key));
    proof {
        lemma_stable_sort_map(refs, deref_fn::<ExportedSymbol>(), export_key(k));
    }
    r
}

/// The import bindings a listing keeps, sorted (see `dyld_selection`).
fn select_bindings<'a>(items: &'a Vec<ImportBindingRecord>, v: &DyldViewOptions) -> (r: Vec<&'a ImportBindingRecord>)
    ensures
        records(r@) == stable_sort_by(items@.filter(binding_selected(*v)), binding_key(sort_of(*v))),
{
    let k = sort_key_of(v);
    let ghost pred = binding_selected(*v);
    let ghost key = key_after(binding_key(k), deref_fn::<ImportBindingRecord>());
    let mut entries: Vec<(Vec<KeyPart>, &'a ImportBindingRecord)> = Vec::new();
    let mut i: usize = 0;
    while i < items.len()
        invariant
            i <= items@.len(),
            k == sort_of(*v),
            pred == binding_selected(*v),
            key == key_after(binding_key(k), deref_fn::<ImportBindingRecord>()),
            keys_match(entries@, key),
            records(entries@.map_values(|e: (Vec<KeyPart>, &'a ImportBindingRecord)| e.1)) == items@.take(i as int).filter(pred),
        decreases items@.len() - i,
    {
        proof {
            crate::listing::lemma_filter_step(items@, i as int, pred);
        }
        let x = &items[i];
        let ghost before = entries@;
        if binding_passes(x, v) {
            let kx = binding_key_exec(x, k);
            entries.push((kx, x));
            assert(entries@.map_values(|e: (Vec<KeyPart>, &'a ImportBindingRecord)| e.1) =~= before.map_values(
                |e: (Vec<KeyPart>, &'a ImportBindingRecord)| e.1,
            ).push(x));
            assert(records(entries@.map_values(|e: (Vec<KeyPart>, &'a ImportBindingRecord)| e.1)) =~= records(
                before.map_values(|e: (Vec<KeyPart>, &'a ImportBindingRecord)| e.1),
            ).push(items@[i as int]));
        }
        i = i + 1;
    }
    assert(items@.take(items@.len() as int) =~= items@);
    let ghost refs = entries@.map_values(|e: (Vec<KeyPart>, &'a ImportBindingRecord)| e.1);
    let r = sort_keyed(entries, Ghost(key));
    proof {
        lemma_stable_sort_map(refs, deref_fn::<ImportBindingRecord>(), binding_key(k));
    }
    r
}

/// The stubs a listing keeps, sorted (see `dyld_selection`).
fn select_stubs<'a>(items: &'a Vec<StubEntry>, v: &DyldViewOptions) -> (r: Vec<&'a StubEntry>)
    ensures
        records(r@) == stable_sort_by(items@.filter(stub_selected(*v)), stub_key(sort_of(*v))),
{
    let k = sort_key_of(v);
    let ghost pred = stub_selected(*v);
    let ghost key = key_after(stub_key(k), deref_fn::<StubEntry>());
    let mut entries: Vec<(Vec<KeyPart>, &'a StubEntry)> = Vec::new();
    let mut i: usize = 0;
    while i < items.len()
        invariant
            i <= items@.len(),
            k == sort_of(*v),
            pred == stub_selected(*v),
            key == key_after(stub_key(k), deref_fn::<StubEntry>()),
            keys_match(entries@, key),
            records(entries@.map_values(|e: (Vec<KeyPart>, &'a StubEntry)| e.1)) == items@.take(i as int).filter(pred),
        decreases items@.len() - i,
    {
        proof {
            crate::listing::lemma_filter_step(items@, i as int, pred);
        }
        let x = &items[i];
        let ghost before = entries@;
        if stub_passes(x, v) {
            let kx = stub_key_exec(x, k);
            entries.push((kx, x));
            assert(entries@.map_values(|e: (Vec<KeyPart>, &'a StubEntry)| e.1) =~= before.map_values(
                |e: (Vec<KeyPart>, &'a StubEntry)| e.1,
            ).push(x));
            assert(records(entries@.map_values(|e: (Vec<KeyPart>, &'a StubEntry)| e.1)) =~= records(
                before.map_values(|e: (Vec<KeyPart>, &'a StubEntry)| e.1),
            ).push(items@[i as int]));
        }
        i = i + 1;
    }
    assert(items@.take(items@.len() as int) =~= items@);
    let ghost refs = entries@.map_values(|e: (Vec<KeyPart>, &'a StubEntry)| e.1);
    let r = sort_keyed(entries, Ghost(key));
    proof {
        lemma_stable_sort_map(refs, deref_fn::<StubEntry>(), stub_key(k));
    }
    r
}

/// The lazy-binding helpers a listing keeps, sorted (see `dyld_selection`).
fn select_helpers<'a>(items: &'a Vec<StubHelperEntry>, v: &DyldViewOptions, kept_stubs: &Vec<&StubEntry>) -> (r: Vec<&'a StubHelperEntry>)
    ensures
        records(r@) == stable_sort_by(items@.filter(helper_selected(*v, records(kept_stubs@))), helper_key(sort_of(*v))),
{
    let k = sort_key_of(v);
    let ghost pred = helper_selected(*v, records(kept_stubs@));
    let ghost key = key_after(helper_key(k), deref_fn::<StubHelperEntry>());
    let mut entries: Vec<(Vec<KeyPart>, &'a StubHelperEntry)> = Vec::new();
    let mut i: usize = 0;
    while i < items.len()
        invariant
            i <= items@.len(),
            k == sort_of(*v),
            pred == helper_selected(*v, records(kept_stubs@)),
            key == key_after(helper_key(k), deref_fn::<StubHelperEntry>()),
            keys_match(entries@, key),
            records(entries@.map_values(|e: (Vec<KeyPart>, &'a StubHelperEntry)| e.1)) == items@.take(i as int).filter(pred),
        decreases items@.len() - i,
    {
        proof {
            crate::listing::lemma_filter_step(items@, i as int, pred);
        }
        let x = &items[i];
        let ghost before = entries@;
        if helper_passes(x, v, kept_stubs) {
            let kx = helper_key_exec(x, k);
            entries.push((kx, x));
            assert(entries@.map_values(|e: (Vec<KeyPart>, &'a StubHelperEntry)| e.1) =~= before.map_values(
                |e: (Vec<KeyPart>, &'a StubHelperEntry)| e.1,
            ).push(x));
            assert(records(entries@.map_values(|e: (Vec<KeyPart>, &'a StubHelperEntry)| e.1)) =~= records(
                before.map_values(|e: (Vec<KeyPart>, &'a StubHelperEntry)| e.1),
            ).push(items@[i as int]));
        }
        i = i + 1;
    }
    assert(items@.take(items@.len() as int) =~= items@);
    let ghost refs = entries@.map_values(|e: (Vec<KeyPart>, &'a StubHelperEntry)| e.1);
    let r = sort_keyed(entries, Ghost(key));
    proof {
        lemma_stable_sort_map(refs, deref_fn::<StubHelperEntry>(), helper_key(k));
    }
    r
}

/// Whether an export passes the listing's filters.
fn export_passes(e: &ExportedSymbol, v: &DyldViewOptions) -> (r: bool)
    ensures
        r == (export_selected(*v))(*e),
{
    name_passes_filter(&v.name_filter, &e.name) && match v.export_kind_filter {
        Some(k) => export_matches_kind(&e.kind, k),
        None => true,
    } && match v.export_flag_filter {
        Some(f) => export_matches_flag(e.flags, f),
        None => true,
    }
}

/// Whether an import binding passes the listing's filters.
fn binding_passes(b: &ImportBindingRecord, v: &DyldViewOptions) -> (r: bool)
    ensures
        r == (binding_selected(*v))(*b),
{
    name_passes_filter(&v.name_filter, &b.name) && name_passes_filter(&v.dylib_filter, &b.dylib)
        && match v.source_filter {
        Some(s) => b.source == s,
        None => true,
    } && match v.binding_kind_filter {
        Some(k) => b.binding_kind == k,
        None => true,
    } && match v.stub_kind_filter {
        Some(k) => binding_matches_stub_kind(b.binding_kind, k),
        None => true,
    } && match v.ordinal_filter {
        Some(o) => b.ordinal == Some(o),
        None => true,
    }
}

/// Whether a stub passes the listing's filters.
fn stub_passes(s: &StubEntry, v: &DyldViewOptions) -> (r: bool)
    ensures
        r == (stub_selected(*v))(*s),
{
    opt_name_passes(&v.name_filter, &s.name) && opt_name_passes(&v.dylib_filter, &s.dylib)
        && match v.source_filter {
        Some(x) => s.source == x,
        None => true,
    } && match v.binding_kind_filter {
        Some(k) => binding_matches_stub_kind(k, s.stub_kind),
        None => true,
    } && match v.stub_kind_filter {
        Some(k) => s.stub_kind == k,
        None => true,
    } && match v.ordinal_filter {
        Some(o) => s.binding_ordinal == Some(o),
        None => true,
    }
}

/// Whether one of the kept stubs names `address` as its helper.
fn is_helper_of_some(stubs: &Vec<&StubEntry>, address: u64) -> (r: bool)
    ensures
        r == helper_of_some(records(stubs@), address),
{
    let ghost all = records(stubs@);
    let mut i: usize = 0;
    while i < stubs.len()
        invariant
            i <= stubs@.len(),
            all == records(stubs@),
            forall|j: int| 0 <= j < i ==> (#[trigger] all[j]).helper_address != Some(address),
        decreases stubs@.len() - i,
    {
        if stubs[i].helper_address == Some(address) {
            assert(all[i as int].helper_address == Some(address));
            return true;
        }
        i = i + 1;
    }
    false
}

/// Whether a helper passes the listing's filters, given the kept stubs.
fn helper_passes(h: &StubHelperEntry, v: &DyldViewOptions, kept_stubs: &Vec<&StubEntry>) -> (r: bool)
    ensures
        r == (helper_selected(*v, records(kept_stubs@)))(*h),
{
    let restrict = v.name_filter.is_some() || v.dylib_filter.is_some() || v.source_filter.is_some()
        || v.binding_kind_filter.is_some() || v.stub_kind_filter.is_some()
        || v.ordinal_filter.is_some();
    opt_name_passes(&v.name_filter, &h.name) && opt_name_passes(&v.dylib_filter, &h.dylib)
        && match v.ordinal_filter {
        Some(o) => h.binding_ordinal == Some(o),
        None => true,
    } && (!restrict || is_helper_of_some(kept_stubs, h.helper_address))
}

/// The stubs that pass the listing's filters, in their own order.
fn filtered_stubs<'a>(items: &'a Vec<StubEntry>, v: &DyldViewOptions) -> (r: Vec<&'a StubEntry>)
    ensures
        records(r@) == items@.filter(stub_selected(*v)),
{
    let ghost pred = stub_selected(*v);
    let mut kept: Vec<&'a StubEntry> = Vec::new();
    let mut i: usize = 0;
    while i < items.len()
        invariant
            i <= items@.len(),
            pred == stub_selected(*v),
            records(kept@) == items@.take(i as int).filter(pred),
        decreases items@.len() - i,
    {
        proof {
            crate::listing::lemma_filter_step(items@, i as int, pred);
        }
        let ghost before = kept@;
        if stub_passes(&items[i], v) {
            kept.push(&items[i]);
            assert(records(kept@) =~= records(before).push(items@[i as int]));
        }
        i = i + 1;
    }
    assert(items@.take(items@.len() as int) =~= items@);
    kept
}

/// The records a dyld listing keeps (see `dyld_selection`).
pub fn filter_dyld_view<'a>(dyld: &'a DyldMetadata, view: &DyldViewOptions) -> (r: FilteredDyldView<'a>)
    ensures
        r.selection() == dyld_selection(*dyld, *view),
{
    let exports = select_exports(&dyld.exported_symbols, view);
    let import_bindings = select_bindings(&dyld.import_bindings, view);
    let stubs = select_stubs(&dyld.stubs, view);
    let kept = filtered_stubs(&dyld.stubs, view);
    let stub_helpers = select_helpers(&dyld.stub_helpers, view, &kept);
    proof {
        reveal(dyld_selection);
    }
    FilteredDyldView { exports, import_bindings, stubs, stub_helpers }
}

/// An optional ordinal or index as JSON: its number, or null.
pub open spec fn opt_u32_view(o: Option<u32>) -> JsonView {
    match o {
        Some(v) => JsonView::Number(decimal(v as nat)),
        None => JsonView::Null,
    }
}

/// An optional ordinal or index as JSON.
fn opt_u32(o: Option<u32>) -> (r: JsonValue)
    ensures
        json_view(r) == opt_u32_view(o),
{
    match o {
        Some(v) => u64_num(v as u64),
        None => JsonValue::Null,
    }
}

/// An optional string as JSON: the string, or null.
pub open spec fn opt_text_view(o: Option<String>) -> JsonView {
    opt_str_view(opt_text(o))
}

/// A number as JSON.
pub open spec fn number_view(n: u64) -> JsonView {
    JsonView::Number(decimal(n as nat))
}

/// An export's flag word as JSON: its parts, then the names of the flags
/// it sets.
pub open spec fn export_flags_view(f: ExportFlags) -> JsonView {
    JsonView::Object(
        seq![
            ("raw_bits"@, number_view(f.raw_bits)),
            ("kind_bits"@, number_view(f.kind_bits)),
            ("is_weak_definition"@, JsonView::Bool(f.is_weak_definition)),
            ("is_reexport"@, JsonView::Bool(f.is_reexport)),
            ("is_stub_and_resolver"@, JsonView::Bool(f.is_stub_and_resolver)),
            ("is_thread_local"@, JsonView::Bool(f.is_thread_local)),
            ("is_absolute"@, JsonView::Bool(f.is_absolute)),
            ("unknown_bits"@, number_view(f.unknown_bits)),
            (
                "flag_names"@,
                JsonView::Array(
                    flag_names(f).map_values(|x: ExportFlagFilter| JsonView::Str(export_flag_filter_name(x))),
                ),
            ),
        ],
    )
}

/// An export's kind as JSON: its type, and what it points to.
pub open spec fn export_kind_view(k: ExportKind) -> JsonView {
    match k {
        ExportKind::Regular => JsonView::Object(seq![("type"@, JsonView::Str("regular"@))]),
        ExportKind::Reexport { dylib, symbol } => JsonView::Object(
            seq![
                ("type"@, JsonView::Str("reexport"@)),
                ("dylib"@, JsonView::Str(dylib@)),
                ("symbol"@, opt_text_view(symbol)),
            ],
        ),
        ExportKind::Resolver { resolver_address } => JsonView::Object(
            seq![
                ("type"@, JsonView::Str("resolver"@)),
                ("resolver_address"@, opt_number_view(resolver_address)),
            ],
        ),
        ExportKind::StubAndResolver { stub_address, resolver_address } => JsonView::Object(
            seq![
                ("type"@, JsonView::Str("stub_and_resolver"@)),
                ("stub_address"@, opt_number_view(stub_address)),
                ("resolver_address"@, opt_number_view(resolver_address)),
            ],
        ),
        ExportKind::WeakDefinition => JsonView::Object(seq![("type"@, JsonView::Str("weak_definition"@))]),
        ExportKind::Absolute => JsonView::Object(seq![("type"@, JsonView::Str("absolute"@))]),
        ExportKind::ThreadLocal => JsonView::Object(seq![("type"@, JsonView::Str("thread_local"@))]),
        ExportKind::Unknown(value) => JsonView::Object(
            seq![("type"@, JsonView::Str("unknown"@)), ("value"@, JsonView::Str(value@))],
        ),
    }
}

/// Where a re-export leads, as JSON: the library and symbol, or null.
pub open spec fn reexport_target_view(t: Option<(String, Option<String>)>) -> JsonView {
    match t {
        Some((dylib, symbol)) => JsonView::Object(
            seq![("dylib"@, JsonView::Str(dylib@)), ("symbol"@, opt_text_view(symbol))],
        ),
        None => JsonView::Null,
    }
}

/// An export as JSON.
pub open spec fn export_view(e: ExportedSymbol) -> JsonView {
    JsonView::Object(
        seq![
            ("name"@, JsonView::Str(e.name@)),
            ("address"@, opt_number_view(e.address)),
            ("raw_flags"@, JsonView::Str(e.raw_flags@)),
            ("flags"@, export_flags_view(e.flags)),
            ("kind"@, export_kind_view(e.kind)),
            ("reexport_target"@, reexport_target_view(e.reexport_target)),
            ("resolver_target"@, opt_number_view(e.resolver_target)),
        ],
    )
}

/// An import binding as JSON.
pub open spec fn binding_view(b: ImportBindingRecord) -> JsonView {
    JsonView::Object(
        seq![
            ("dylib"@, JsonView::Str(b.dylib@)),
            ("name"@, JsonView::Str(b.name@)),
            ("address"@, opt_number_view(b.address)),
            ("offset"@, opt_number_view(b.offset)),
            ("addend"@, JsonView::Number(signed_decimal(b.addend as int))),
            ("source"@, JsonView::Str(binding_source_name(b.source))),
            ("ordinal"@, opt_u32_view(b.ordinal)),
            ("symbol_index"@, opt_u32_view(b.symbol_index)),
            ("binding_kind"@, JsonView::Str(binding_kind_name(b.binding_kind))),
            ("is_weak"@, JsonView::Bool(b.is_weak)),
        ],
    )
}

/// A stub as JSON.
pub open spec fn stub_view(s: StubEntry) -> JsonView {
    JsonView::Object(
        seq![
            ("stub_address"@, JsonView::Number(decimal(s.stub_address as nat))),
            ("section"@, opt_text_view(s.section)),
            ("pointer_address"@, opt_number_view(s.pointer_address)),
            ("pointer_section"@, opt_text_view(s.pointer_section)),
            ("helper_address"@, opt_number_view(s.helper_address)),
            ("binding_ordinal"@, opt_u32_view(s.binding_ordinal)),
            ("stub_kind"@, JsonView::Str(stub_kind_name(s.stub_kind))),
            ("dylib"@, opt_text_view(s.dylib)),
            ("name"@, opt_text_view(s.name)),
            ("source"@, JsonView::Str(binding_source_name(s.source))),
        ],
    )
}

/// A lazy-binding helper as JSON.
pub open spec fn helper_view(h: StubHelperEntry) -> JsonView {
    JsonView::Object(
        seq![
            ("helper_address"@, JsonView::Number(decimal(h.helper_address as nat))),
            ("target_stub"@, opt_number_view(h.target_stub)),
            ("binding_ordinal"@, opt_u32_view(h.binding_ordinal)),
            ("stub_section"@, opt_text_view(h.stub_section)),
            ("pointer_address"@, opt_number_view(h.pointer_address)),
            ("pointer_section"@, opt_text_view(h.pointer_section)),
            ("dylib"@, opt_text_view(h.dylib)),
            ("name"@, opt_text_view(h.name)),
        ],
    )
}

/// An export's flag word as JSON.
pub fn export_flags_json(f: &ExportFlags) -> (r: JsonValue)
    ensures
        json_view(r) == export_flags_view(*f),
{
    let names = f.flag_names();
    let ghost g = |x: ExportFlagFilter| JsonView::Str(export_flag_filter_name(x));
    let mut items: Vec<JsonValue> = Vec::new();
    let mut i: usize = 0;
    while i < names.len()
        invariant
            i <= names@.len(),
            g == (|x: ExportFlagFilter| JsonView::Str(export_flag_filter_name(x))),
            elements_view(items@) == names@.take(i as int).map_values(g),
        decreases names@.len() - i,
    {
        push_element(&mut items, string_value(names[i].name()));
        assert(names@.take(i + 1).map_values(g) =~= names@.take(i as int).map_values(g).push(
            g(names@[i as int]),
        ));
        i = i + 1;
    }
    assert(names@.take(names@.len() as int) =~= names@);
    let mut fields: Vec<(String, JsonValue)> = Vec::new();
    push_member(&mut fields, "raw_bits", u64_num(f.raw_bits));
    push_member(&mut fields, "kind_bits", u64_num(f.kind_bits));
    push_member(&mut fields, "is_weak_definition", JsonValue::Bool(f.is_weak_definition));
    push_member(&mut fields, "is_reexport", JsonValue::Bool(f.is_reexport));
    push_member(&mut fields, "is_stub_and_resolver", JsonValue::Bool(f.is_stub_and_resolver));
    push_member(&mut fields, "is_thread_local", JsonValue::Bool(f.is_thread_local));
    push_member(&mut fields, "is_absolute", JsonValue::Bool(f.is_absolute));
    push_member(&mut fields, "unknown_bits", u64_num(f.unknown_bits));
    push_member(&mut fields, "flag_names", JsonValue::Array(items));
    assert(members_view(fields@) =~= export_flags_view(*f)->Object_0);
    JsonValue::Object(fields)
}

/// An object with one member, `type`.
fn typed(name: &str) -> (r: JsonValue)
    ensures
        json_view(r) == JsonView::Object(seq![("type"@, JsonView::Str(name@))]),
{
    let mut fields: Vec<(String, JsonValue)> = Vec::new();
    push_member(&mut fields, "type", string_value(name));
    assert(members_view(fields@) =~= seq![("type"@, JsonView::Str(name@))]);
    JsonValue::Object(fields)
}

/// An export's kind as JSON.
pub fn export_kind_json(k: &ExportKind) -> (r: JsonValue)
    ensures
        json_view(r) == export_kind_view(*k),
{
    match k {
        ExportKind::Regular => typed("regular"),
        ExportKind::Reexport { dylib, symbol } => {
            let mut fields: Vec<(String, JsonValue)> = Vec::new();
            push_member(&mut fields, "type", string_value("reexport"));
            push_member(&mut fields, "dylib", string_value(dylib.as_str()));
            push_member(&mut fields, "symbol", opt_string(symbol));
            assert(members_view(fields@) =~= export_kind_view(*k)->Object_0);
            JsonValue::Object(fields)
        },
        ExportKind::Resolver { resolver_address } => {
            let mut fields: Vec<(String, JsonValue)> = Vec::new();
            push_member(&mut fields, "type", string_value("resolver"));
            push_member(&mut fields, "resolver_address", opt_u64(*resolver_address));
            assert(members_view(fields@) =~= export_kind_view(*k)->Object_0);
            JsonValue::Object(fields)
        },
        ExportKind::StubAndResolver { stub_address, resolver_address } => {
            let mut fields: Vec<(String, JsonValue)> = Vec::new();
            push_member(&mut fields, "type", string_value("stub_and_resolver"));
            push_member(&mut fields, "stub_address", opt_u64(*stub_address));
            push_member(&mut fields, "resolver_address", opt_u64(*resolver_address));
            assert(members_view(fields@) =~= export_kind_view(*k)->Object_0);
            JsonValue::Object(fields)
        },
        ExportKind::WeakDefinition => typed("weak_definition"),
        ExportKind::Absolute => typed("absolute"),
        ExportKind::ThreadLocal => typed("thread_local"),
        ExportKind::Unknown(value) => {
            let mut fields: Vec<(String, JsonValue)> = Vec::new();
            push_member(&mut fields, "type", string_value("unknown"));
            push_member(&mut fields, "value", string_value(value.as_str()));
            assert(members_view(fields@) =~= export_kind_view(*k)->Object_0);
            JsonValue::Object(fields)
        },
    }
}

/// Where a re-export leads, as JSON.
fn reexport_target_json(t: &Option<(String, Option<String>)>) -> (r: JsonValue)
    ensures
        json_view(r) == reexport_target_view(*t),
{
    match t {
        Some((dylib, symbol)) => {
            let mut fields: Vec<(String, JsonValue)> = Vec::new();
            push_member(&mut fields, "dylib", string_value(dylib.as_str()));
            push_member(&mut fields, "symbol", opt_string(symbol));
            assert(members_view(fields@) =~= reexport_target_view(*t)->Object_0);
            JsonValue::Object(fields)
        },
        None => JsonValue::Null,
    }
}

/// An export as JSON.
pub fn export_json(e: &ExportedSymbol) -> (r: JsonValue)
    ensures
        json_view(r) == export_view(*e),
{
    let mut fields: Vec<(String, JsonValue)> = Vec::new();
    push_member(&mut fields, "name", string_value(e.name.as_str()));
    push_member(&mut fields, "address", opt_u64(e.address));
    push_member(&mut fields, "raw_flags", string_value(e.raw_flags.as_str()));
    push_member(&mut fields, "flags", export_flags_json(&e.flags));
    push_member(&mut fields, "kind", export_kind_json(&e.kind));
    push_member(&mut fields, "reexport_target", reexport_target_json(&e.reexport_target));
    push_member(&mut fields, "resolver_target", opt_u64(e.resolver_target));
    assert(members_view(fields@) =~= export_view(*e)->Object_0);
    JsonValue::Object(fields)
}

/// An import binding as JSON.
pub fn import_binding_json(b: &ImportBindingRecord) -> (r: JsonValue)
    ensures
        json_view(r) == binding_view(*b),
{
    let mut fields: Vec<(String, JsonValue)> = Vec::new();
    push_member(&mut fields, "dylib", string_value(b.dylib.as_str()));
    push_member(&mut fields, "name", string_value(b.name.as_str()));
    push_member(&mut fields, "address", opt_u64(b.address));
    push_member(&mut fields, "offset", opt_u64(b.offset));
    push_member(&mut fields, "addend", crate::json::i64_num(b.addend));
    push_member(&mut fields, "source", string_value(b.source.name()));
    push_member(&mut fields, "ordinal", opt_u32(b.ordinal));
    push_member(&mut fields, "symbol_index", opt_u32(b.symbol_index));
    push_member(&mut fields, "binding_kind", string_value(b.binding_kind.name()));
    push_member(&mut fields, "is_weak", JsonValue::Bool(b.is_weak));
    assert(members_view(fields@) =~= binding_view(*b)->Object_0);
    JsonValue::Object(fields)
}

/// A stub as JSON.
pub fn stub_entry_json(s: &StubEntry) -> (r: JsonValue)
    ensures
        json_view(r) == stub_view(*s),
{
    let mut fields: Vec<(String, JsonValue)> = Vec::new();
    push_member(&mut fields, "stub_address", u64_num(s.stub_address));
    push_member(&mut fields, "section", opt_string(&s.section));
    push_member(&mut fields, "pointer_address", opt_u64(s.pointer_address));
    push_member(&mut fields, "pointer_section", opt_string(&s.pointer_section));
    push_member(&mut fields, "helper_address", opt_u64(s.helper_address));
    push_member(&mut fields, "binding_ordinal", opt_u32(s.binding_ordinal));
    push_member(&mut fields, "stub_kind", string_value(s.stub_kind.name()));
    push_member(&mut fields, "dylib", opt_string(&s.dylib));
    push_member(&mut fields, "name", opt_string(&s.name));
    push_member(&mut fields, "source", string_value(s.source.name()));
    assert(members_view(fields@) =~= stub_view(*s)->Object_0);
    JsonValue::Object(fields)
}

/// A lazy-binding helper as JSON.
pub fn stub_helper_json(h: &StubHelperEntry) -> (r: JsonValue)
    ensures
        json_view(r) == helper_view(*h),
{
    let mut fields: Vec<(String, JsonValue)> = Vec::new();
    push_member(&mut fields, "helper_address", u64_num(h.helper_address));
    push_member(&mut fields, "target_stub", opt_u64(h.target_stub));
    push_member(&mut fields, "binding_ordinal", opt_u32(h.binding_ordinal));
    push_member(&mut fields, "stub_section", opt_string(&h.stub_section));
    push_member(&mut fields, "pointer_address", opt_u64(h.pointer_address));
    push_member(&mut fields, "pointer_section", opt_string(&h.pointer_section));
    push_member(&mut fields, "dylib", opt_string(&h.dylib));
    push_member(&mut fields, "name", opt_string(&h.name));
    assert(members_view(fields@) =~= helper_view(*h)->Object_0);
    JsonValue::Object(fields)
}

/// Kept exports as a JSON array, in order.
fn exports_json(items: &Vec<&ExportedSymbol>) -> (r: JsonValue)
    ensures
        json_view(r) == JsonView::Array(items@.map_values(|x: &ExportedSymbol| export_view(*x))),
{
    let ghost f = |x: &ExportedSymbol| export_view(*x);
    let mut out: Vec<JsonValue> = Vec::new();
    let mut i: usize = 0;
    while i < items.len()
        invariant
            i <= items@.len(),
            f == (|x: &ExportedSymbol| export_view(*x)),
            elements_view(out@) == items@.take(i as int).map_values(f),
        decreases items@.len() - i,
    {
        push_element(&mut out, export_json(items[i]));
        assert(items@.take(i + 1).map_values(f) =~= items@.take(i as int).map_values(f).push(
            f(items@[i as int]),
        ));
        i = i + 1;
    }
    assert(items@.take(items@.len() as int) =~= items@);
    JsonValue::Array(out)
}

/// Kept import bindings as a JSON array, in order.
fn bindings_json(items: &Vec<&ImportBindingRecord>) -> (r: JsonValue)
    ensures
        json_view(r) == JsonView::Array(items@.map_values(|x: &ImportBindingRecord| binding_view(*x))),
{
    let ghost f = |x: &ImportBindingRecord| binding_view(*x);
    let mut out: Vec<JsonValue> = Vec::new();
    let mut i: usize = 0;
    while i < items.len()
        invariant
            i <= items@.len(),
            f == (|x: &ImportBindingRecord| binding_view(*x)),
            elements_view(out@) == items@.take(i as int).map_values(f),
        decreases items@.len() - i,
    {
        push_element(&mut out, import_binding_json(items[i]));
        assert(items@.take(i + 1).map_values(f) =~= items@.take(i as int).map_values(f).push(
            f(items@[i as int]),
        ));
        i = i + 1;
    }
    assert(items@.take(items@.len() as int) =~= items@);
    JsonValue::Array(out)
}

/// Kept stubs as a JSON array, in order.
fn stubs_json(items: &Vec<&StubEntry>) -> (r: JsonValue)
    ensures
        json_view(r) == JsonView::Array(items@.map_values(|x: &StubEntry| stub_view(*x))),
{
    let ghost f = |x: &StubEntry| stub_view(*x);
    let mut out: Vec<JsonValue> = Vec::new();
    let mut i: usize = 0;
    while i < items.len()
        invariant
            i <= items@.len(),
            f == (|x: &StubEntry| stub_view(*x)),
            elements_view(out@) == items@.take(i as int).map_values(f),
        decreases items@.len() - i,
    {
        push_element(&mut out, stub_entry_json(items[i]));
        assert(items@.take(i + 1).map_values(f) =~= items@.take(i as int).map_values(f).push(
            f(items@[i as int]),
        ));
        i = i + 1;
    }
    assert(items@.take(items@.len() as int) =~= items@);
    JsonValue::Array(out)
}

/// Kept lazy-binding helpers as a JSON array, in order.
fn helpers_json(items: &Vec<&StubHelperEntry>) -> (r: JsonValue)
    ensures
        json_view(r) == JsonView::Array(items@.map_values(|x: &StubHelperEntry| helper_view(*x))),
{
    let ghost f = |x: &StubHelperEntry| helper_view(*x);
    let mut out: Vec<JsonValue> = Vec::new();
    let mut i: usize = 0;
    while i < items.len()
        invariant
            i <= items@.len(),
            f == (|x: &StubHelperEntry| helper_view(*x)),
            elements_view(out@) == items@.take(i as int).map_values(f),
        decreases items@.len() - i,
    {
        push_element(&mut out, stub_helper_json(items[i]));
        assert(items@.take(i + 1).map_values(f) =~= items@.take(i as int).map_values(f).push(
            f(items@[i as int]),
        ));
        i = i + 1;
    }
    assert(items@.take(items@.len() as int) =~= items@);
    JsonValue::Array(out)
}

/// Numbers as a JSON array, in order.
fn numbers_json(items: &Vec<u64>) -> (r: JsonValue)
    ensures
        json_view(r) == JsonView::Array(items@.map_values(|x: u64| JsonView::Number(decimal(x as nat)))),
{
    let ghost f = |x: u64| JsonView::Number(decimal(x as nat));
    let mut out: Vec<JsonValue> = Vec::new();
    let mut i: usize = 0;
    while i < items.len()
        invariant
            i <= items@.len(),
            f == (|x: u64| JsonView::Number(decimal(x as nat))),
            elements_view(out@) == items@.take(i as int).map_values(f),
        decreases items@.len() - i,
    {
        push_element(&mut out, u64_num(items[i]));
        assert(items@.take(i + 1).map_values(f) =~= items@.take(i as int).map_values(f).push(
            f(items@[i as int]),
        ));
        i = i + 1;
    }
    assert(items@.take(items@.len() as int) =~= items@);
    JsonValue::Array(out)
}

/// The names of the parts a listing shows, in listing order.
pub open spec fn included_sections(v: DyldViewOptions) -> Seq<JsonView> {
    (if v.show_dylibs { seq![JsonView::Str("dylibs"@)] } else { seq![] })
        + (if v.show_rpaths { seq![JsonView::Str("rpaths"@)] } else { seq![] })
        + (if v.show_exports { seq![JsonView::Str("exports"@)] } else { seq![] })
        + (if v.show_function_starts { seq![JsonView::Str("function_starts"@)] } else { seq![] })
        + (if v.show_bindings { seq![JsonView::Str("import_bindings"@)] } else { seq![] })
        + (if v.show_stubs { seq![JsonView::Str("stubs"@)] } else { seq![] })
        + (if v.show_helpers { seq![JsonView::Str("stub_helpers"@)] } else { seq![] })
}

/// Appends `name` when `shown`.
fn push_section_name(items: &mut Vec<JsonValue>, shown: bool, name: &str)
    ensures
        elements_view(final(items)@) == elements_view(old(items)@) + (if shown {
            seq![JsonView::Str(name@)]
        } else {
            seq![]
        }),
{
    if shown {
        push_element(items, string_value(name));
        assert(elements_view(final(items)@) =~= elements_view(old(items)@) + seq![JsonView::Str(name@)]);
    } else {
        assert(elements_view(old(items)@) + Seq::<JsonView>::empty() =~= elements_view(old(items)@));
    }
}

/// The names of the parts a listing shows, as JSON.
fn included_dyld_sections(v: &DyldViewOptions) -> (r: JsonValue)
    ensures
        json_view(r) == JsonView::Array(included_sections(*v)),
{
    let mut items: Vec<JsonValue> = Vec::new();
    assert(elements_view(items@) =~= Seq::<JsonView>::empty());
    push_section_name(&mut items, v.show_dylibs, "dylibs");
    push_section_name(&mut items, v.show_rpaths, "rpaths");
    push_section_name(&mut items, v.show_exports, "exports");
    push_section_name(&mut items, v.show_function_starts, "function_starts");
    push_section_name(&mut items, v.show_bindings, "import_bindings");
    push_section_name(&mut items, v.show_stubs, "stubs");
    push_section_name(&mut items, v.show_helpers, "stub_helpers");
    assert(elements_view(items@) =~= included_sections(*v));
    JsonValue::Array(items)
}

/// An array when `shown`, else an empty array.
pub open spec fn shown_or_empty(shown: bool, items: Seq<JsonView>) -> JsonView {
    if shown {
        JsonView::Array(items)
    } else {
        JsonView::Array(Seq::empty())
    }
}

/// An empty JSON array.
fn empty_array() -> (r: JsonValue)
    ensures
        json_view(r) == JsonView::Array(Seq::empty()),
{
    let items: Vec<JsonValue> = Vec::new();
    assert(elements_view(items@) =~= Seq::<JsonView>::empty());
    JsonValue::Array(items)
}

/// The dyld listing as JSON: the image's flags, the parts shown and the
/// filters set, then each part (empty when not shown) with the kept
/// records of `dyld_selection`.
pub open spec fn dyld_json_view(dyld: DyldMetadata, v: DyldViewOptions) -> JsonView {
    JsonView::Object(dyld_header_members(dyld, v) + dyld_part_members(dyld, v))
}

/// The members before the parts: the image's flags, the parts shown and the
/// filters set.
pub open spec fn dyld_header_members(dyld: DyldMetadata, v: DyldViewOptions) -> Seq<(Seq<char>, JsonView)> {
    seq![
            ("has_rebases"@, JsonView::Bool(dyld.has_rebases)),
            ("has_binds"@, JsonView::Bool(dyld.has_binds)),
            ("has_chained_fixups"@, JsonView::Bool(dyld.has_chained_fixups)),
            ("included_sections"@, JsonView::Array(included_sections(v))),
            ("name_filter"@, opt_text_view(v.name_filter)),
            ("dylib_filter"@, opt_text_view(v.dylib_filter)),
            (
                "source_filter"@,
                match v.source_filter {
                    Some(x) => JsonView::Str(binding_source_name(x)),
                    None => JsonView::Null,
                },
            ),
            (
                "binding_kind_filter"@,
                match v.binding_kind_filter {
                    Some(x) => JsonView::Str(binding_kind_name(x)),
                    None => JsonView::Null,
                },
            ),
            (
                "stub_kind_filter"@,
                match v.stub_kind_filter {
                    Some(x) => JsonView::Str(stub_kind_name(x)),
                    None => JsonView::Null,
                },
            ),
    ] + export_filter_members(v)
}

/// The last filter members: the export kind and flag asked for, and the
/// ordinal.
pub open spec fn export_filter_members(v: DyldViewOptions) -> Seq<(Seq<char>, JsonView)> {
    seq![
            (
                "export_kind_filter"@,
                match v.export_kind_filter {
                    Some(x) => JsonView::Str(export_kind_filter_name(x)),
                    None => JsonView::Null,
                },
            ),
            (
                "export_flag_filter"@,
                match v.export_flag_filter {
                    Some(x) => JsonView::Str(export_flag_filter_name(x)),
                    None => JsonView::Null,
                },
            ),
            ("ordinal_filter"@, opt_u32_view(v.ordinal_filter)),
    ]
}

/// The parts of a dyld listing, each empty when not shown.
pub open spec fn dyld_part_members(dyld: DyldMetadata, v: DyldViewOptions) -> Seq<(Seq<char>, JsonView)> {
    let sel = dyld_selection(dyld, v);
    seq![
            (
                "dylibs"@,
                shown_or_empty(v.show_dylibs, dyld.imported_dylibs@.map_values(|x: String| JsonView::Str(x@))),
            ),
            (
                "rpaths"@,
                shown_or_empty(v.show_rpaths, dyld.rpaths@.map_values(|x: String| JsonView::Str(x@))),
            ),
            (
                "exports"@,
                shown_or_empty(v.show_exports, sel.exports.map_values(|x: ExportedSymbol| export_view(x))),
            ),
            (
                "function_starts"@,
                shown_or_empty(
                    v.show_function_starts,
                    dyld.function_starts@.map_values(|x: u64| JsonView::Number(decimal(x as nat))),
                ),
            ),
            (
                "import_bindings"@,
                shown_or_empty(
                    v.show_bindings,
                    sel.import_bindings.map_values(|x: ImportBindingRecord| binding_view(x)),
                ),
            ),
            (
                "stubs"@,
                shown_or_empty(v.show_stubs, sel.stubs.map_values(|x: StubEntry| stub_view(x))),
            ),
            (
                "stub_helpers"@,
                shown_or_empty(
                    v.show_helpers,
                    sel.stub_helpers.map_values(|x: StubHelperEntry| helper_view(x)),
                ),
            ),
    ]
}

/// The kept exports, as the member value the listing shows.
fn exports_member(filtered: &FilteredDyldView, shown: bool) -> (r: JsonValue)
    ensures
        json_view(r) == shown_or_empty(
            shown,
            filtered.selection().exports.map_values(|x: ExportedSymbol| export_view(x)),
        ),
{
    assert(filtered.selection().exports.map_values(|x: ExportedSymbol| export_view(x)) =~= filtered.exports@.map_values(
        |x: &ExportedSymbol| export_view(*x),
    ));
    if shown {
        exports_json(&filtered.exports)
    } else {
        empty_array()
    }
}

/// The kept import_bindings, as the member value the listing shows.
fn bindings_member(filtered: &FilteredDyldView, shown: bool) -> (r: JsonValue)
    ensures
        json_view(r) == shown_or_empty(
            shown,
            filtered.selection().import_bindings.map_values(|x: ImportBindingRecord| binding_view(x)),
        ),
{
    assert(filtered.selection().import_bindings.map_values(|x: ImportBindingRecord| binding_view(x)) =~= filtered.import_bindings@.map_values(
        |x: &ImportBindingRecord| binding_view(*x),
    ));
    if shown {
        bindings_json(&filtered.import_bindings)
    } else {
        empty_array()
    }
}

/// The kept stubs, as the member value the listing shows.
fn stubs_member(filtered: &FilteredDyldView, shown: bool) -> (r: JsonValue)
    ensures
        json_view(r) == shown_or_empty(
            shown,
            filtered.selection().stubs.map_values(|x: StubEntry| stub_view(x)),
        ),
{
    assert(filtered.selection().stubs.map_values(|x: StubEntry| stub_view(x)) =~= filtered.stubs@.map_values(
        |x: &StubEntry| stub_view(*x),
    ));
    if shown {
        stubs_json(&filtered.stubs)
    } else {
        empty_array()
    }
}

/// The kept stub_helpers, as the member value the listing shows.
fn helpers_member(filtered: &FilteredDyldView, shown: bool) -> (r: JsonValue)
    ensures
        json_view(r) == shown_or_empty(
            shown,
            filtered.selection().stub_helpers.map_values(|x: StubHelperEntry| helper_view(x)),
        ),
{
    assert(filtered.selection().stub_helpers.map_values(|x: StubHelperEntry| helper_view(x)) =~= filtered.stub_helpers@.map_values(
        |x: &StubHelperEntry| helper_view(*x),
    ));
    if shown {
        helpers_json(&filtered.stub_helpers)
    } else {
        empty_array()
    }
}

/// A list of numbers as the member value the listing shows.
fn numbers_member(items: &Vec<u64>, shown: bool) -> (r: JsonValue)
    ensures
        json_view(r) == shown_or_empty(shown, items@.map_values(|x: u64| JsonView::Number(decimal(x as nat)))),
{
    if shown {
        numbers_json(items)
    } else {
        empty_array()
    }
}

/// A list of names as the member value the listing shows.
fn names_member(items: &Vec<String>, shown: bool) -> (r: JsonValue)
    ensures
        json_view(r) == shown_or_empty(shown, items@.map_values(|x: String| JsonView::Str(x@))),
{
    if shown {
        names_json(items)
    } else {
        empty_array()
    }
}

/// The members before the parts (see `dyld_header_members`).
#[verifier::rlimit(40)]
fn dyld_header(dyld: &DyldMetadata, view: &DyldViewOptions) -> (r: Vec<(String, JsonValue)>)
    ensures
        members_view(r@) == dyld_header_members(*dyld, *view),
{
    let mut fields: Vec<(String, JsonValue)> = Vec::new();
    push_member(&mut fields, "has_rebases", JsonValue::Bool(dyld.has_rebases));
    push_member(&mut fields, "has_binds", JsonValue::Bool(dyld.has_binds));
    push_member(&mut fields, "has_chained_fixups", JsonValue::Bool(dyld.has_chained_fixups));
    push_member(&mut fields, "included_sections", included_dyld_sections(view));
    push_member(&mut fields, "name_filter", opt_string(&view.name_filter));
    push_member(&mut fields, "dylib_filter", opt_string(&view.dylib_filter));
    push_member(
        &mut fields,
        "source_filter",
        match view.source_filter {
            Some(x) => string_value(x.name()),
            None => JsonValue::Null,
        },
    );
    push_member(
        &mut fields,
        "binding_kind_filter",
        match view.binding_kind_filter {
            Some(x) => string_value(x.name()),
            None => JsonValue::Null,
        },
    );
    push_member(
        &mut fields,
        "stub_kind_filter",
        match view.stub_kind_filter {
            Some(x) => string_value(x.name()),
            None => JsonValue::Null,
        },
    );
    push_export_filters(&mut fields, view);
    assert(members_view(fields@) =~= dyld_header_members(*dyld, *view));
    fields
}

/// Appends the export kind, export flag and ordinal filter members.
fn push_export_filters(fields: &mut Vec<(String, JsonValue)>, view: &DyldViewOptions)
    ensures
        members_view(final(fields)@) == members_view(old(fields)@) + export_filter_members(*view),
{
    let ghost before = members_view(fields@);
    push_member(
        fields,
        "export_kind_filter",
        match view.export_kind_filter {
            Some(x) => string_value(x.name()),
            None => JsonValue::Null,
        },
    );
    push_member(
        fields,
        "export_flag_filter",
        match view.export_flag_filter {
            Some(x) => string_value(x.name()),
            None => JsonValue::Null,
        },
    );
    push_member(fields, "ordinal_filter", opt_u32(view.ordinal_filter));
    assert(members_view(fields@) =~= before + export_filter_members(*view));
}

/// The dyld listing as JSON (see `dyld_json_view`).
#[verifier::rlimit(50)]
pub fn dyld_json(dyld: &DyldMetadata, view: &DyldViewOptions) -> (r: JsonValue)
    ensures
        json_view(r) == dyld_json_view(*dyld, *view),
{
    let filtered = filter_dyld_view(dyld, view);
    let mut fields = dyld_header(dyld, view);
    let ghost head = members_view(fields@);
    push_member(&mut fields, "dylibs", names_member(&dyld.imported_dylibs, view.show_dylibs));
    push_member(&mut fields, "rpaths", names_member(&dyld.rpaths, view.show_rpaths));
    push_member(&mut fields, "exports", exports_member(&filtered, view.show_exports));
    push_member(
        &mut fields,
        "function_starts",
        numbers_member(&dyld.function_starts, view.show_function_starts),
    );
    push_member(&mut fields, "import_bindings", bindings_member(&filtered, view.show_bindings));
    push_member(&mut fields, "stubs", stubs_member(&filtered, view.show_stubs));
    push_member(&mut fields, "stub_helpers", helpers_member(&filtered, view.show_helpers));
    assert(members_view(fields@) =~= head + dyld_part_members(*dyld, *view));
    JsonValue::Object(fields)
}

/// `true` or `false`.
pub open spec fn bool_word(b: bool) -> Seq<char> {
    if b {
        "true"@
    } else {
        "false"@
    }
}

/// An optional value in hexadecimal, `-` when absent.
pub open spec fn hex_or_dash(o: Option<u64>) -> Seq<char> {
    match o {
        Some(v) => hex(v as nat),
        None => "-"@,
    }
}

/// An optional number in decimal, `-` when absent.
pub open spec fn u32_or_dash(o: Option<u32>) -> Seq<char> {
    match o {
        Some(v) => decimal(v as nat),
        None => "-"@,
    }
}

/// An optional text, `-` when absent.
pub open spec fn text_or_dash(o: Option<String>) -> Seq<char> {
    match o {
        Some(t) => t@,
        None => "-"@,
    }
}

/// One part when `present`, none otherwise.
pub open spec fn part_if(present: bool, part: Seq<char>) -> Seq<Seq<char>> {
    if present {
        seq![part]
    } else {
        seq![]
    }
}

/// The filters a dyld listing applies, as `key=value` parts.
pub open spec fn filter_parts(v: DyldViewOptions) -> Seq<Seq<char>> {
    part_if(v.name_filter is Some, "name="@ + text_or_dash(v.name_filter)) + part_if(
        v.dylib_filter is Some,
        "dylib="@ + text_or_dash(v.dylib_filter),
    ) + part_if(
        v.source_filter is Some,
        "source="@ + binding_source_name(v.source_filter->0),
    ) + part_if(
        v.binding_kind_filter is Some,
        "binding_kind="@ + binding_kind_name(v.binding_kind_filter->0),
    ) + part_if(
        v.stub_kind_filter is Some,
        "stub_kind="@ + stub_kind_name(v.stub_kind_filter->0),
    ) + export_filter_parts(v)
}

/// The last filter parts: export kind, export flag and ordinal.
pub open spec fn export_filter_parts(v: DyldViewOptions) -> Seq<Seq<char>> {
    part_if(
        v.export_kind_filter is Some,
        "export_kind="@ + export_kind_filter_name(v.export_kind_filter->0),
    ) + part_if(
        v.export_flag_filter is Some,
        "export_flag="@ + export_flag_filter_name(v.export_flag_filter->0),
    ) + part_if(v.ordinal_filter is Some, "ordinal="@ + u32_or_dash(v.ordinal_filter))
}

/// An import binding as a listing line.
pub open spec fn binding_line(b: ImportBindingRecord) -> Seq<char> {
    "  "@ + align_right(hex_or_dash(b.address), 18) + " "@ + align_right(hex_or_dash(b.offset), 18)
        + " "@ + align_left(b.dylib@, 30) + " "@ + align_left(b.name@, 24) + " addend="@
        + signed_decimal(b.addend as int) + " kind="@ + binding_kind_name(b.binding_kind)
        + " source="@ + binding_source_name(b.source) + " ordinal="@ + u32_or_dash(b.ordinal)
        + " symidx="@ + u32_or_dash(b.symbol_index) + " weak="@ + bool_word(b.is_weak)
}

/// A stub as a listing line.
pub open spec fn stub_line(st: StubEntry) -> Seq<char> {
    "  "@ + align_right(hex(st.stub_address as nat), 18) + " section="@ + text_or_dash(st.section)
        + " ptr_section="@ + text_or_dash(st.pointer_section) + " ptr="@ + hex_or_dash(
        st.pointer_address,
    ) + " helper="@ + hex_or_dash(st.helper_address) + " ordinal="@ + u32_or_dash(
        st.binding_ordinal,
    ) + " kind="@ + stub_kind_name(st.stub_kind) + " "@ + text_or_dash(st.dylib) + ":"@
        + text_or_dash(st.name) + " source="@ + binding_source_name(st.source)
}

/// A lazy-binding helper as a listing line.
pub open spec fn helper_line(h: StubHelperEntry) -> Seq<char> {
    "  "@ + align_right(hex(h.helper_address as nat), 18) + " stub="@ + hex_or_dash(h.target_stub)
        + " stub_section="@ + text_or_dash(h.stub_section) + " ptr_section="@ + text_or_dash(
        h.pointer_section,
    ) + " ptr="@ + hex_or_dash(h.pointer_address) + " ordinal="@ + u32_or_dash(h.binding_ordinal)
        + " "@ + text_or_dash(h.dylib) + ":"@ + text_or_dash(h.name)
}

/// An export as a listing line: its address, its flags and its name.
pub open spec fn export_line(e: ExportedSymbol) -> Seq<char> {
    "  "@ + align_right(hex_or_dash(e.address), 18) + " raw="@ + e.raw_flags@ + " flags="@
        + flag_list_text(e.flags) + " kind="@ + export_kind_label(e.kind) + " reexport="@
        + reexport_text(e.reexport_target) + " resolver="@ + hex_or_dash(e.resolver_target) + " "@
        + e.name@
}

/// The names of the flags a flag word sets, joined by `|`; `-` when it
/// sets none.
pub open spec fn flag_list_text(f: ExportFlags) -> Seq<char> {
    let names = flag_names(f).map_values(|x: ExportFlagFilter| export_flag_filter_name(x));
    if names.len() == 0 {
        "-"@
    } else {
        join(names, "|"@)
    }
}

/// The name of an export kind's variant.
pub open spec fn export_kind_label(k: ExportKind) -> Seq<char> {
    match k {
        ExportKind::Regular => "Regular"@,
        ExportKind::Reexport { .. } => "Reexport"@,
        ExportKind::Resolver { .. } => "Resolver"@,
        ExportKind::StubAndResolver { .. } => "StubAndResolver"@,
        ExportKind::WeakDefinition => "WeakDefinition"@,
        ExportKind::Absolute => "Absolute"@,
        ExportKind::ThreadLocal => "ThreadLocal"@,
        ExportKind::Unknown(_) => "Unknown"@,
    }
}

/// Where a re-export leads as `library:symbol` (`-` for an unnamed
/// symbol); `-` for an export that is no re-export.
pub open spec fn reexport_text(t: Option<(String, Option<String>)>) -> Seq<char> {
    match t {
        Some((dylib, symbol)) => dylib@ + ":"@ + text_or_dash(symbol),
        None => "-"@,
    }
}

/// A section of a listing: a heading with the kept and total counts, then
/// one line per kept record.
pub open spec fn counted_section(title: Seq<char>, kept: nat, total: nat, lines: Seq<Seq<char>>) -> Seq<Seq<char>> {
    seq![title + " ("@ + decimal(kept) + "/"@ + decimal(total) + "):"@] + lines
}

/// A part of a listing that lists names, indented, under a heading.
pub open spec fn named_section(heading: Seq<char>, names: Seq<String>) -> Seq<Seq<char>> {
    seq![heading] + names.map_values(|n: String| "  "@ + n@)
}

/// The summary line of a dyld listing.
pub open spec fn summary_line(dyld: DyldMetadata, sel: DyldSelection) -> Seq<char> {
    "dyld: dylibs="@ + decimal(dyld.imported_dylibs@.len()) + " rpaths="@ + decimal(
        dyld.rpaths@.len(),
    ) + " exports="@ + decimal(dyld.exported_symbols@.len()) + " function_starts="@ + decimal(
        dyld.function_starts@.len(),
    ) + " bindings="@ + decimal(sel.import_bindings.len()) + " stubs="@ + decimal(sel.stubs.len())
        + " helpers="@ + decimal(sel.stub_helpers.len()) + " rebases="@ + bool_word(
        dyld.has_rebases,
    ) + " binds="@ + bool_word(dyld.has_binds) + " chained_fixups="@ + bool_word(
        dyld.has_chained_fixups,
    )
}

/// The active-filters line, when a filter is set.
pub open spec fn active_lines(v: DyldViewOptions) -> Seq<Seq<char>> {
    if filter_parts(v).len() > 0 {
        seq!["active_filters: "@ + join(filter_parts(v), " "@)]
    } else {
        seq![]
    }
}

/// Lines shown only when `shown`.
pub open spec fn shown_lines(shown: bool, lines: Seq<Seq<char>>) -> Seq<Seq<char>> {
    if shown {
        lines
    } else {
        seq![]
    }
}

/// The dyld listing as text lines: the summary line (binding, stub and
/// helper counts are of the kept records), the active filters when any,
/// then each part shown.
pub open spec fn dyld_lines(dyld: DyldMetadata, v: DyldViewOptions) -> Seq<Seq<char>> {
    dyld_lines_of(dyld, v, dyld_selection(dyld, v))
}

/// The dyld listing as text lines, for the kept records `sel`.
pub open spec fn dyld_lines_of(dyld: DyldMetadata, v: DyldViewOptions, sel: DyldSelection) -> Seq<Seq<char>> {
    seq![summary_line(dyld, sel)] + active_lines(v) + shown_lines(
        v.show_dylibs,
        named_section("dylibs:"@, dyld.imported_dylibs@),
    ) + shown_lines(v.show_rpaths, named_section("rpaths:"@, dyld.rpaths@)) + shown_lines(
        v.show_exports,
        counted_section(
            "exports"@,
            sel.exports.len(),
            dyld.exported_symbols@.len(),
            sel.exports.map_values(|e: ExportedSymbol| export_line(e)),
        ),
    ) + shown_lines(
        v.show_function_starts,
        seq!["function_starts:"@] + dyld.function_starts@.map_values(|a: u64| "  "@ + hex(a as nat)),
    ) + shown_lines(
        v.show_bindings,
        counted_section(
            "import_bindings"@,
            sel.import_bindings.len(),
            dyld.import_bindings@.len(),
            sel.import_bindings.map_values(|b: ImportBindingRecord| binding_line(b)),
        ),
    ) + shown_lines(
        v.show_stubs,
        counted_section(
            "stubs"@,
            sel.stubs.len(),
            dyld.stubs@.len(),
            sel.stubs.map_values(|st: StubEntry| stub_line(st)),
        ),
    ) + shown_lines(
        v.show_helpers,
        counted_section(
            "stub_helpers"@,
            sel.stub_helpers.len(),
            dyld.stub_helpers@.len(),
            sel.stub_helpers.map_values(|h: StubHelperEntry| helper_line(h)),
        ),
    )
}

/// Appends `true` or `false`.
pub(crate) fn push_bool_word(out: &mut String, b: bool)
    ensures
        final(out)@ == old(out)@ + bool_word(b),
{
    if b {
        push_str(out, "true");
    } else {
        push_str(out, "false");
    }
}

/// Appends `-`.
pub(crate) fn push_dash(out: &mut String)
    ensures
        final(out)@ == old(out)@ + "-"@,
{
    push_str(out, "-");
}

/// An optional value in hexadecimal, `-` when absent.
pub(crate) fn hex_or_dash_text(o: Option<u64>) -> (r: String)
    ensures
        r@ == hex_or_dash(o),
{
    let mut out = String::new();
    match o {
        Some(v) => push_hex(&mut out, v),
        None => push_dash(&mut out),
    }
    assert(out@ =~= hex_or_dash(o));
    out
}

/// Appends an optional value in hexadecimal, `-` when absent.
pub(crate) fn push_hex_or_dash(out: &mut String, o: Option<u64>)
    ensures
        final(out)@ == old(out)@ + hex_or_dash(o),
{
    let t = hex_or_dash_text(o);
    push_str(out, t.as_str());
}

/// Appends an optional number in decimal, `-` when absent.
pub(crate) fn push_u32_or_dash(out: &mut String, o: Option<u32>)
    ensures
        final(out)@ == old(out)@ + u32_or_dash(o),
{
    match o {
        Some(v) => push_digits(out, v as u64, 10),
        None => push_dash(out),
    }
}

/// Appends an optional text, `-` when absent.
pub(crate) fn push_text_or_dash(out: &mut String, o: &Option<String>)
    ensures
        final(out)@ == old(out)@ + text_or_dash(*o),
{
    match o {
        Some(t) => push_str(out, t.as_str()),
        None => push_dash(out),
    }
}

/// Appends a line.
pub(crate) fn push_text_line(lines: &mut Vec<String>, line: String)
    ensures
        line_views(final(lines)@) == line_views(old(lines)@).push(line@),
{
    let ghost before = lines@;
    lines.push(line);
    assert(line_views(lines@) =~= line_views(before).push(line@));
}

/// An import binding as a listing line (see `binding_line`).
fn binding_text(b: &ImportBindingRecord) -> (r: String)
    ensures
        r@ == binding_line(*b),
{
    let mut out = string_of("  ");
    let a = hex_or_dash_text(b.address);
    push_right(&mut out, a.as_str(), 18);
    push_str(&mut out, " ");
    let o = hex_or_dash_text(b.offset);
    push_right(&mut out, o.as_str(), 18);
    push_str(&mut out, " ");
    push_left(&mut out, b.dylib.as_str(), 30);
    push_str(&mut out, " ");
    push_left(&mut out, b.name.as_str(), 24);
    push_str(&mut out, " addend=");
    let d = signed_decimal_string(b.addend);
    push_str(&mut out, d.as_str());
    push_str(&mut out, " kind=");
    push_str(&mut out, b.binding_kind.name());
    push_str(&mut out, " source=");
    push_str(&mut out, b.source.name());
    push_str(&mut out, " ordinal=");
    push_u32_or_dash(&mut out, b.ordinal);
    push_str(&mut out, " symidx=");
    push_u32_or_dash(&mut out, b.symbol_index);
    push_str(&mut out, " weak=");
    push_bool_word(&mut out, b.is_weak);
    assert(out@ =~= binding_line(*b));
    out
}

/// A stub as a listing line (see `stub_line`).
fn stub_text(st: &StubEntry) -> (r: String)
    ensures
        r@ == stub_line(*st),
{
    let mut out = string_of("  ");
    let mut a = String::new();
    push_hex(&mut a, st.stub_address);
    push_right(&mut out, a.as_str(), 18);
    push_str(&mut out, " section=");
    push_text_or_dash(&mut out, &st.section);
    push_str(&mut out, " ptr_section=");
    push_text_or_dash(&mut out, &st.pointer_section);
    push_str(&mut out, " ptr=");
    push_hex_or_dash(&mut out, st.pointer_address);
    push_str(&mut out, " helper=");
    push_hex_or_dash(&mut out, st.helper_address);
    push_str(&mut out, " ordinal=");
    push_u32_or_dash(&mut out, st.binding_ordinal);
    push_str(&mut out, " kind=");
    push_str(&mut out, st.stub_kind.name());
    push_str(&mut out, " ");
    push_text_or_dash(&mut out, &st.dylib);
    push_str(&mut out, ":");
    push_text_or_dash(&mut out, &st.name);
    push_str(&mut out, " source=");
    push_str(&mut out, st.source.name());
    assert(out@ =~= stub_line(*st));
    out
}

/// A lazy-binding helper as a listing line (see `helper_line`).
fn helper_text(h: &StubHelperEntry) -> (r: String)
    ensures
        r@ == helper_line(*h),
{
    let mut out = string_of("  ");
    let mut a = String::new();
    push_hex(&mut a, h.helper_address);
    push_right(&mut out, a.as_str(), 18);
    push_str(&mut out, " stub=");
    push_hex_or_dash(&mut out, h.target_stub);
    push_str(&mut out, " stub_section=");
    push_text_or_dash(&mut out, &h.stub_section);
    push_str(&mut out, " ptr_section=");
    push_text_or_dash(&mut out, &h.pointer_section);
    push_str(&mut out, " ptr=");
    push_hex_or_dash(&mut out, h.pointer_address);
    push_str(&mut out, " ordinal=");
    push_u32_or_dash(&mut out, h.binding_ordinal);
    push_str(&mut out, " ");
    push_text_or_dash(&mut out, &h.dylib);
    push_str(&mut out, ":");
    push_text_or_dash(&mut out, &h.name);
    assert(out@ =~= helper_line(*h));
    out
}

/// An export as a listing line (see `export_line`).
fn export_text(e: &ExportedSymbol) -> (r: String)
    ensures
        r@ == export_line(*e),
{
    let mut out = string_of("  ");
    let a = hex_or_dash_text(e.address);
    push_right(&mut out, a.as_str(), 18);
    push_str(&mut out, " raw=");
    push_str(&mut out, e.raw_flags.as_str());
    push_str(&mut out, " flags=");
    let flags = flag_list_string(&e.flags);
    push_str(&mut out, flags.as_str());
    push_str(&mut out, " kind=");
    push_str(&mut out, export_kind_label_str(&e.kind));
    push_str(&mut out, " reexport=");
    match &e.reexport_target {
        Some((dylib, symbol)) => {
            push_str(&mut out, dylib.as_str());
            push_str(&mut out, ":");
            push_text_or_dash(&mut out, symbol);
        },
        None => push_str(&mut out, "-"),
    }
    push_str(&mut out, " resolver=");
    push_hex_or_dash(&mut out, e.resolver_target);
    push_str(&mut out, " ");
    push_str(&mut out, e.name.as_str());
    assert(out@ =~= export_line(*e));
    out
}

/// The flag list of a flag word (see `flag_list_text`).
fn flag_list_string(f: &ExportFlags) -> (r: String)
    ensures
        r@ == flag_list_text(*f),
{
    let names = f.flag_names();
    let ghost g = |x: ExportFlagFilter| export_flag_filter_name(x);
    let mut parts: Vec<String> = Vec::new();
    let mut i: usize = 0;
    while i < names.len()
        invariant
            i <= names@.len(),
            g == (|x: ExportFlagFilter| export_flag_filter_name(x)),
            line_views(parts@) == names@.take(i as int).map_values(g),
        decreases names@.len() - i,
    {
        push_text_line(&mut parts, string_of(names[i].name()));
        assert(names@.take(i + 1).map_values(g) =~= names@.take(i as int).map_values(g).push(
            g(names@[i as int]),
        ));
        i = i + 1;
    }
    assert(names@.take(names@.len() as int) =~= names@);
    if parts.len() == 0 {
        string_of("-")
    } else {
        join_with(&parts, "|")
    }
}

/// The name of an export kind's variant (see `export_kind_label`).
fn export_kind_label_str(k: &ExportKind) -> (r: &'static str)
    ensures
        r@ == export_kind_label(*k),
{
    match k {
        ExportKind::Regular => "Regular",
        ExportKind::Reexport { .. } => "Reexport",
        ExportKind::Resolver { .. } => "Resolver",
        ExportKind::StubAndResolver { .. } => "StubAndResolver",
        ExportKind::WeakDefinition => "WeakDefinition",
        ExportKind::Absolute => "Absolute",
        ExportKind::ThreadLocal => "ThreadLocal",
        ExportKind::Unknown(_) => "Unknown",
    }
}

/// Appends kept exports, one line each.
fn push_export_lines(lines: &mut Vec<String>, items: &Vec<&ExportedSymbol>)
    ensures
        line_views(final(lines)@) == line_views(old(lines)@) + items@.map_values(|x: &ExportedSymbol| export_line(*x)),
{
    let ghost start = line_views(lines@);
    let ghost f = |x: &ExportedSymbol| export_line(*x);
    let mut i: usize = 0;
    while i < items.len()
        invariant
            i <= items@.len(),
            f == (|x: &ExportedSymbol| export_line(*x)),
            line_views(lines@) == start + items@.take(i as int).map_values(f),
        decreases items@.len() - i,
    {
        push_text_line(lines, export_text(items[i]));
        assert(items@.take(i + 1).map_values(f) =~= items@.take(i as int).map_values(f).push(
            f(items@[i as int]),
        ));
        i = i + 1;
    }
    assert(items@.take(items@.len() as int) =~= items@);
}

/// Appends kept import bindings, one line each.
fn push_binding_lines(lines: &mut Vec<String>, items: &Vec<&ImportBindingRecord>)
    ensures
        line_views(final(lines)@) == line_views(old(lines)@) + items@.map_values(|x: &ImportBindingRecord| binding_line(*x)),
{
    let ghost start = line_views(lines@);
    let ghost f = |x: &ImportBindingRecord| binding_line(*x);
    let mut i: usize = 0;
    while i < items.len()
        invariant
            i <= items@.len(),
            f == (|x: &ImportBindingRecord| binding_line(*x)),
            line_views(lines@) == start + items@.take(i as int).map_values(f),
        decreases items@.len() - i,
    {
        push_text_line(lines, binding_text(items[i]));
        assert(items@.take(i + 1).map_values(f) =~= items@.take(i as int).map_values(f).push(
            f(items@[i as int]),
        ));
        i = i + 1;
    }
    assert(items@.take(items@.len() as int) =~= items@);
}

/// Appends kept stubs, one line each.
fn push_stub_lines(lines: &mut Vec<String>, items: &Vec<&StubEntry>)
    ensures
        line_views(final(lines)@) == line_views(old(lines)@) + items@.map_values(|x: &StubEntry| stub_line(*x)),
{
    let ghost start = line_views(lines@);
    let ghost f = |x: &StubEntry| stub_line(*x);
    let mut i: usize = 0;
    while i < items.len()
        invariant
            i <= items@.len(),
            f == (|x: &StubEntry| stub_line(*x)),
            line_views(lines@) == start + items@.take(i as int).map_values(f),
        decreases items@.len() - i,
    {
        push_text_line(lines, stub_text(items[i]));
        assert(items@.take(i + 1).map_values(f) =~= items@.take(i as int).map_values(f).push(
            f(items@[i as int]),
        ));
        i = i + 1;
    }
    assert(items@.take(items@.len() as int) =~= items@);
}

/// Appends kept helpers, one line each.
fn push_helper_lines(lines: &mut Vec<String>, items: &Vec<&StubHelperEntry>)
    ensures
        line_views(final(lines)@) == line_views(old(lines)@) + items@.map_values(|x: &StubHelperEntry| helper_line(*x)),
{
    let ghost start = line_views(lines@);
    let ghost f = |x: &StubHelperEntry| helper_line(*x);
    let mut i: usize = 0;
    while i < items.len()
        invariant
            i <= items@.len(),
            f == (|x: &StubHelperEntry| helper_line(*x)),
            line_views(lines@) == start + items@.take(i as int).map_values(f),
        decreases items@.len() - i,
    {
        push_text_line(lines, helper_text(items[i]));
        assert(items@.take(i + 1).map_values(f) =~= items@.take(i as int).map_values(f).push(
            f(items@[i as int]),
        ));
        i = i + 1;
    }
    assert(items@.take(items@.len() as int) =~= items@);
}

/// Appends names, indented,, one line each.
pub(crate) fn push_name_lines(lines: &mut Vec<String>, items: &Vec<String>)
    ensures
        line_views(final(lines)@) == line_views(old(lines)@) + items@.map_values(|x: String| "  "@ + x@),
{
    let ghost start = line_views(lines@);
    let ghost f = |x: String| "  "@ + x@;
    let mut i: usize = 0;
    while i < items.len()
        invariant
            i <= items@.len(),
            f == (|x: String| "  "@ + x@),
            line_views(lines@) == start + items@.take(i as int).map_values(f),
        decreases items@.len() - i,
    {
        push_text_line(lines, labelled_line("  ", items[i].as_str()));
        assert(items@.take(i + 1).map_values(f) =~= items@.take(i as int).map_values(f).push(
            f(items@[i as int]),
        ));
        i = i + 1;
    }
    assert(items@.take(items@.len() as int) =~= items@);
}

/// Appends addresses, indented,, one line each.
fn push_address_lines(lines: &mut Vec<String>, items: &Vec<u64>)
    ensures
        line_views(final(lines)@) == line_views(old(lines)@) + items@.map_values(|x: u64| "  "@ + hex(x as nat)),
{
    let ghost start = line_views(lines@);
    let ghost f = |x: u64| "  "@ + hex(x as nat);
    let mut i: usize = 0;
    while i < items.len()
        invariant
            i <= items@.len(),
            f == (|x: u64| "  "@ + hex(x as nat)),
            line_views(lines@) == start + items@.take(i as int).map_values(f),
        decreases items@.len() - i,
    {
        push_text_line(lines, indented_hex(items[i]));
        assert(items@.take(i + 1).map_values(f) =~= items@.take(i as int).map_values(f).push(
            f(items@[i as int]),
        ));
        i = i + 1;
    }
    assert(items@.take(items@.len() as int) =~= items@);
}

/// A label followed by a text.
pub(crate) fn labelled_line(label: &str, value: &str) -> (r: String)
    ensures
        r@ == label@ + value@,
{
    let mut out = string_of(label);
    push_str(&mut out, value);
    out
}

/// An address in hexadecimal, indented.
fn indented_hex(a: u64) -> (r: String)
    ensures
        r@ == "  "@ + hex(a as nat),
{
    let mut out = string_of("  ");
    push_hex(&mut out, a);
    out
}

/// A heading with the kept and total counts.
pub(crate) fn counted_heading(title: &str, kept: usize, total: usize) -> (r: String)
    ensures
        r@ == title@ + " ("@ + decimal(kept as nat) + "/"@ + decimal(total as nat) + "):"@,
{
    let mut out = string_of(title);
    push_str(&mut out, " (");
    push_digits(&mut out, kept as u64, 10);
    push_str(&mut out, "/");
    push_digits(&mut out, total as u64, 10);
    push_str(&mut out, "):");
    out
}

/// The filter parts of a listing (see `filter_parts`).
#[verifier::rlimit(80)]
fn filter_part_texts(v: &DyldViewOptions) -> (r: Vec<String>)
    ensures
        line_views(r@) == filter_parts(*v),
{
    let mut parts: Vec<String> = Vec::new();
    assert(line_views(parts@) =~= Seq::<Seq<char>>::empty());
    let ghost p0 = line_views(parts@);
    match &v.name_filter {
        Some(n) => push_text_line(&mut parts, labelled_line("name=", n.as_str())),
        None => {},
    }
    assert(line_views(parts@) =~= p0 + part_if(v.name_filter is Some, "name="@ + text_or_dash(v.name_filter)));
    let ghost p1 = line_views(parts@);
    match &v.dylib_filter {
        Some(n) => push_text_line(&mut parts, labelled_line("dylib=", n.as_str())),
        None => {},
    }
    assert(line_views(parts@) =~= p1 + part_if(v.dylib_filter is Some, "dylib="@ + text_or_dash(v.dylib_filter)));
    let ghost p2 = line_views(parts@);
    match v.source_filter {
        Some(x) => push_text_line(&mut parts, labelled_line("source=", x.name())),
        None => {},
    }
    assert(line_views(parts@) =~= p2 + part_if(
        v.source_filter is Some,
        "source="@ + binding_source_name(v.source_filter->0),
    ));
    let ghost p3 = line_views(parts@);
    match v.binding_kind_filter {
        Some(x) => push_text_line(&mut parts, labelled_line("binding_kind=", x.name())),
        None => {},
    }
    assert(line_views(parts@) =~= p3 + part_if(
        v.binding_kind_filter is Some,
        "binding_kind="@ + binding_kind_name(v.binding_kind_filter->0),
    ));
    let ghost p4 = line_views(parts@);
    match v.stub_kind_filter {
        Some(x) => push_text_line(&mut parts, labelled_line("stub_kind=", x.name())),
        None => {},
    }
    assert(line_views(parts@) =~= p4 + part_if(
        v.stub_kind_filter is Some,
        "stub_kind="@ + stub_kind_name(v.stub_kind_filter->0),
    ));
    push_export_filter_parts(&mut parts, v);
    assert(line_views(parts@) =~= filter_parts(*v));
    parts
}

/// Appends the export kind, export flag and ordinal parts.
fn push_export_filter_parts(parts: &mut Vec<String>, v: &DyldViewOptions)
    ensures
        line_views(final(parts)@) == line_views(old(parts)@) + export_filter_parts(*v),
{
    let ghost p5 = line_views(parts@);
    match v.export_kind_filter {
        Some(x) => push_text_line(parts, labelled_line("export_kind=", x.name())),
        None => {},
    }
    assert(line_views(parts@) =~= p5 + part_if(
        v.export_kind_filter is Some,
        "export_kind="@ + export_kind_filter_name(v.export_kind_filter->0),
    ));
    let ghost p6 = line_views(parts@);
    match v.export_flag_filter {
        Some(x) => push_text_line(parts, labelled_line("export_flag=", x.name())),
        None => {},
    }
    assert(line_views(parts@) =~= p6 + part_if(
        v.export_flag_filter is Some,
        "export_flag="@ + export_flag_filter_name(v.export_flag_filter->0),
    ));
    let ghost p7 = line_views(parts@);
    match v.ordinal_filter {
        Some(o) => {
            let mut out = string_of("ordinal=");
            push_digits(&mut out, o as u64, 10);
            push_text_line(parts, out);
        },
        None => {},
    }
    assert(line_views(parts@) =~= p7 + part_if(v.ordinal_filter is Some, "ordinal="@ + u32_or_dash(v.ordinal_filter)));
    assert(line_views(parts@) =~= p5 + export_filter_parts(*v));
}

/// The parts joined by single spaces.
pub(crate) fn join_parts(parts: &Vec<String>) -> (r: String)
    requires
        parts@.len() > 0,
    ensures
        r@ == join(line_views(parts@), " "@),
{
    join_with(parts, " ")
}

/// The parts joined by `sep`.
fn join_with(parts: &Vec<String>, sep: &str) -> (r: String)
    requires
        parts@.len() > 0,
    ensures
        r@ == join(line_views(parts@), sep@),
{
    let ghost views = line_views(parts@);
    let mut out = string_of(parts[0].as_str());
    assert(views.take(1) =~= seq![views[0]]);
    let mut i: usize = 1;
    while i < parts.len()
        invariant
            1 <= i <= parts@.len(),
            views == line_views(parts@),
            out@ == join(views.take(i as int), sep@),
        decreases parts@.len() - i,
    {
        push_str(&mut out, sep);
        push_str(&mut out, parts[i].as_str());
        assert(views.take(i + 1).drop_last() =~= views.take(i as int));
        assert(views.take(i + 1).last() == parts@[i as int]@);
        i = i + 1;
    }
    assert(views.take(views.len() as int) =~= views);
    out
}

/// The summary line of a dyld listing.
fn dyld_summary_text(dyld: &DyldMetadata, filtered: &FilteredDyldView) -> (r: String)
    ensures
        r@ == "dyld: dylibs="@ + decimal(dyld.imported_dylibs@.len()) + " rpaths="@ + decimal(
            dyld.rpaths@.len(),
        ) + " exports="@ + decimal(dyld.exported_symbols@.len()) + " function_starts="@ + decimal(
            dyld.function_starts@.len(),
        ) + " bindings="@ + decimal(filtered.import_bindings@.len()) + " stubs="@ + decimal(
            filtered.stubs@.len(),
        ) + " helpers="@ + decimal(filtered.stub_helpers@.len()) + " rebases="@ + bool_word(
            dyld.has_rebases,
        ) + " binds="@ + bool_word(dyld.has_binds) + " chained_fixups="@ + bool_word(
            dyld.has_chained_fixups,
        ),
{
    let mut out = string_of("dyld: dylibs=");
    push_digits(&mut out, dyld.imported_dylibs.len() as u64, 10);
    push_str(&mut out, " rpaths=");
    push_digits(&mut out, dyld.rpaths.len() as u64, 10);
    push_str(&mut out, " exports=");
    push_digits(&mut out, dyld.exported_symbols.len() as u64, 10);
    push_str(&mut out, " function_starts=");
    push_digits(&mut out, dyld.function_starts.len() as u64, 10);
    push_str(&mut out, " bindings=");
    push_digits(&mut out, filtered.import_bindings.len() as u64, 10);
    push_str(&mut out, " stubs=");
    push_digits(&mut out, filtered.stubs.len() as u64, 10);
    push_str(&mut out, " helpers=");
    push_digits(&mut out, filtered.stub_helpers.len() as u64, 10);
    push_str(&mut out, " rebases=");
    push_bool_word(&mut out, dyld.has_rebases);
    push_str(&mut out, " binds=");
    push_bool_word(&mut out, dyld.has_binds);
    push_str(&mut out, " chained_fixups=");
    push_bool_word(&mut out, dyld.has_chained_fixups);
    out
}

/// Appends a part of the listing when shown.
fn push_named_part(lines: &mut Vec<String>, heading: &str, names: &Vec<String>, shown: bool)
    ensures
        line_views(final(lines)@) == line_views(old(lines)@) + shown_lines(shown, named_section(heading@, names@)),
{
    let ghost start = line_views(lines@);
    if shown {
        push_text_line(lines, string_of(heading));
        push_name_lines(lines, names);
    }
    assert(line_views(lines@) =~= start + shown_lines(shown, named_section(heading@, names@)));
}

/// Appends a part of the listing when shown.
fn push_starts_part(lines: &mut Vec<String>, starts: &Vec<u64>, shown: bool)
    ensures
        line_views(final(lines)@) == line_views(old(lines)@) + shown_lines(shown, seq!["function_starts:"@] + starts@.map_values(|a: u64| "  "@ + hex(a as nat))),
{
    let ghost start = line_views(lines@);
    if shown {
        push_text_line(lines, string_of("function_starts:"));
        push_address_lines(lines, starts);
    }
    assert(line_views(lines@) =~= start + shown_lines(shown, seq!["function_starts:"@] + starts@.map_values(|a: u64| "  "@ + hex(a as nat))));
}

/// Appends a part of the listing when shown.
fn push_exports_part(lines: &mut Vec<String>, total: usize, kept: &Vec<&ExportedSymbol>, shown: bool)
    ensures
        line_views(final(lines)@) == line_views(old(lines)@) + shown_lines(shown, counted_section("exports"@, records(kept@).len(), total as nat, records(kept@).map_values(|e: ExportedSymbol| export_line(e)))),
{
    let ghost start = line_views(lines@);
    if shown {
        push_text_line(lines, counted_heading("exports", kept.len(), total));
        push_export_lines(lines, kept);
        assert(records(kept@).map_values(|e: ExportedSymbol| export_line(e)) =~= kept@.map_values(
            |x: &ExportedSymbol| export_line(*x),
        ));
    }
    assert(line_views(lines@) =~= start + shown_lines(shown, counted_section("exports"@, records(kept@).len(), total as nat, records(kept@).map_values(|e: ExportedSymbol| export_line(e)))));
}

/// Appends a part of the listing when shown.
fn push_bindings_part(lines: &mut Vec<String>, total: usize, kept: &Vec<&ImportBindingRecord>, shown: bool)
    ensures
        line_views(final(lines)@) == line_views(old(lines)@) + shown_lines(shown, counted_section("import_bindings"@, records(kept@).len(), total as nat, records(kept@).map_values(|b: ImportBindingRecord| binding_line(b)))),
{
    let ghost start = line_views(lines@);
    if shown {
        push_text_line(lines, counted_heading("import_bindings", kept.len(), total));
        push_binding_lines(lines, kept);
        assert(records(kept@).map_values(|b: ImportBindingRecord| binding_line(b)) =~= kept@.map_values(
            |x: &ImportBindingRecord| binding_line(*x),
        ));
    }
    assert(line_views(lines@) =~= start + shown_lines(shown, counted_section("import_bindings"@, records(kept@).len(), total as nat, records(kept@).map_values(|b: ImportBindingRecord| binding_line(b)))));
}

/// Appends a part of the listing when shown.
fn push_stubs_part(lines: &mut Vec<String>, total: usize, kept: &Vec<&StubEntry>, shown: bool)
    ensures
        line_views(final(lines)@) == line_views(old(lines)@) + shown_lines(shown, counted_section("stubs"@, records(kept@).len(), total as nat, records(kept@).map_values(|st: StubEntry| stub_line(st)))),
{
    let ghost start = line_views(lines@);
    if shown {
        push_text_line(lines, counted_heading("stubs", kept.len(), total));
        push_stub_lines(lines, kept);
        assert(records(kept@).map_values(|st: StubEntry| stub_line(st)) =~= kept@.map_values(
            |x: &StubEntry| stub_line(*x),
        ));
    }
    assert(line_views(lines@) =~= start + shown_lines(shown, counted_section("stubs"@, records(kept@).len(), total as nat, records(kept@).map_values(|st: StubEntry| stub_line(st)))));
}

/// Appends a part of the listing when shown.
fn push_helpers_part(lines: &mut Vec<String>, total: usize, kept: &Vec<&StubHelperEntry>, shown: bool)
    ensures
        line_views(final(lines)@) == line_views(old(lines)@) + shown_lines(shown, counted_section("stub_helpers"@, records(kept@).len(), total as nat, records(kept@).map_values(|h: StubHelperEntry| helper_line(h)))),
{
    let ghost start = line_views(lines@);
    if shown {
        push_text_line(lines, counted_heading("stub_helpers", kept.len(), total));
        push_helper_lines(lines, kept);
        assert(records(kept@).map_values(|h: StubHelperEntry| helper_line(h)) =~= kept@.map_values(
            |x: &StubHelperEntry| helper_line(*x),
        ));
    }
    assert(line_views(lines@) =~= start + shown_lines(shown, counted_section("stub_helpers"@, records(kept@).len(), total as nat, records(kept@).map_values(|h: StubHelperEntry| helper_line(h)))));
}

/// The active-filters line, when a filter is set (see `active_lines`).
fn push_active_filters(lines: &mut Vec<String>, view: &DyldViewOptions)
    ensures
        line_views(final(lines)@) == line_views(old(lines)@) + active_lines(*view),
{
    let ghost start = line_views(lines@);
    let parts = filter_part_texts(view);
    if parts.len() > 0 {
        let joined = join_parts(&parts);
        let mut line = string_of("active_filters: ");
        push_str(&mut line, joined.as_str());
        push_text_line(lines, line);
    }
    assert(line_views(lines@) =~= start + active_lines(*view));
}

/// The dyld listing as text lines (see `dyld_lines`).
pub fn dyld_text_lines(dyld: &DyldMetadata, view: &DyldViewOptions) -> (r: Vec<String>)
    ensures
        line_views(r@) == dyld_lines(*dyld, *view),
{
    let filtered = filter_dyld_view(dyld, view);
    let ghost sel = filtered.selection();
    let mut lines: Vec<String> = Vec::new();
    push_text_line(&mut lines, dyld_summary_text(dyld, &filtered));
    assert(line_views(lines@) =~= seq![summary_line(*dyld, sel)]);
    push_active_filters(&mut lines, view);
    push_named_part(&mut lines, "dylibs:", &dyld.imported_dylibs, view.show_dylibs);
    push_named_part(&mut lines, "rpaths:", &dyld.rpaths, view.show_rpaths);
    push_exports_part(&mut lines, dyld.exported_symbols.len(), &filtered.exports, view.show_exports);
    push_starts_part(&mut lines, &dyld.function_starts, view.show_function_starts);
    push_bindings_part(&mut lines, dyld.import_bindings.len(), &filtered.import_bindings, view.show_bindings);
    push_stubs_part(&mut lines, dyld.stubs.len(), &filtered.stubs, view.show_stubs);
    push_helpers_part(&mut lines, dyld.stub_helpers.len(), &filtered.stub_helpers, view.show_helpers);
    assert(line_views(lines@) =~= dyld_lines_of(*dyld, *view, sel));
    lines
}


/// A binding-kind filter keeps only import bindings of that kind, each one
/// of the image's.
pub proof fn lemma_binding_kind_filter_keeps_kind(dyld: DyldMetadata, v: DyldViewOptions, k: ImportBindingKind)
    requires
        v.binding_kind_filter == Some(k),
    ensures
        forall|i: int|
            0 <= i < dyld_selection(dyld, v).import_bindings.len() ==> (#[trigger] dyld_selection(
                dyld,
                v,
            ).import_bindings[i]).binding_kind == k && dyld.import_bindings@.contains(
                dyld_selection(dyld, v).import_bindings[i],
            ),
{
    reveal(dyld_selection);
    crate::sort::lemma_sorted_filter_members(
        dyld.import_bindings@,
        binding_selected(v),
        binding_key(sort_of(v)),
    );
}


/// A text contains `needle`, ignoring ASCII case.
pub open spec fn text_contains(t: Seq<char>, needle: Seq<char>) -> bool {
    contains_seq(ascii_lower(t), ascii_lower(needle))
}

/// An import binding passes each filter a listing sets: its name and
/// library contain the name and library filters (ignoring ASCII case), its
/// source, kind and ordinal are the ones asked for, and a lazy (non-lazy)
/// stub-kind filter keeps lazy (non-lazy) bindings.
pub open spec fn binding_meets_filters(b: ImportBindingRecord, v: DyldViewOptions) -> bool {
    &&& (v.name_filter matches Some(n) ==> text_contains(b.name@, n@))
    &&& (v.dylib_filter matches Some(d) ==> text_contains(b.dylib@, d@))
    &&& (v.source_filter matches Some(x) ==> b.source == x)
    &&& (v.binding_kind_filter matches Some(k) ==> b.binding_kind == k)
    &&& (v.stub_kind_filter == Some(StubKind::Lazy) ==> b.binding_kind == ImportBindingKind::Lazy)
    &&& (v.stub_kind_filter == Some(StubKind::NonLazy) ==> b.binding_kind == ImportBindingKind::NonLazy)
    &&& (v.ordinal_filter matches Some(o) ==> b.ordinal == Some(o))
}

/// The import bindings a listing keeps are exactly the image's bindings
/// that meet every filter set (`binding_meets_filters`).
pub proof fn lemma_kept_bindings(dyld: DyldMetadata, v: DyldViewOptions)
    ensures
        forall|i: int|
            0 <= i < dyld_selection(dyld, v).import_bindings.len() ==> binding_meets_filters(
                #[trigger] dyld_selection(dyld, v).import_bindings[i],
                v,
            ) && dyld.import_bindings@.contains(dyld_selection(dyld, v).import_bindings[i]),
        forall|k: int|
            0 <= k < dyld.import_bindings@.len() && binding_meets_filters(
                #[trigger] dyld.import_bindings@[k],
                v,
            ) ==> dyld_selection(dyld, v).import_bindings.contains(dyld.import_bindings@[k]),
{
    reveal(dyld_selection);
    let pred = binding_selected(v);
    let key = binding_key(sort_of(v));
    crate::sort::lemma_sorted_filter_members(dyld.import_bindings@, pred, key);
    let f = dyld.import_bindings@.filter(pred);
    let r = stable_sort_by(f, key);
    crate::sort::lemma_stable_sort_permutation(f, key);
    assert forall|k: int|
        0 <= k < dyld.import_bindings@.len() && binding_meets_filters(
            #[trigger] dyld.import_bindings@[k],
            v,
        ) implies r.contains(dyld.import_bindings@[k]) by {
        let b = dyld.import_bindings@[k];
        assert(pred(b));
        dyld.import_bindings@.lemma_filter_contains(pred, k);
        f.to_multiset_ensures();
        r.to_multiset_ensures();
        assert(f.to_multiset().count(b) > 0);
        assert(r.to_multiset().count(b) > 0);
    }
}

/// A stub passes each filter a listing sets: it has a name and a library
/// containing the name and library filters (ignoring ASCII case), its
/// source, kind and ordinal are the ones asked for, and a lazy (non-lazy)
/// binding-kind filter keeps lazy (non-lazy) stubs.
pub open spec fn stub_meets_filters(st: StubEntry, v: DyldViewOptions) -> bool {
    &&& (v.name_filter matches Some(n) ==> st.name matches Some(x) && text_contains(x@, n@))
    &&& (v.dylib_filter matches Some(d) ==> st.dylib matches Some(x) && text_contains(x@, d@))
    &&& (v.source_filter matches Some(x) ==> st.source == x)
    &&& (v.stub_kind_filter matches Some(k) ==> st.stub_kind == k)
    &&& (v.binding_kind_filter == Some(ImportBindingKind::Lazy) ==> st.stub_kind == StubKind::Lazy)
    &&& (v.binding_kind_filter == Some(ImportBindingKind::NonLazy) ==> st.stub_kind == StubKind::NonLazy)
    &&& (v.binding_kind_filter == Some(ImportBindingKind::ChainedFixup) ==> false)
    &&& (v.ordinal_filter matches Some(o) ==> st.binding_ordinal == Some(o))
}

/// The stubs a listing keeps are exactly the image's stubs that meet every
/// filter set (`stub_meets_filters`).
pub proof fn lemma_kept_stubs(dyld: DyldMetadata, v: DyldViewOptions)
    ensures
        forall|i: int|
            0 <= i < dyld_selection(dyld, v).stubs.len() ==> stub_meets_filters(
                #[trigger] dyld_selection(dyld, v).stubs[i],
                v,
            ) && dyld.stubs@.contains(dyld_selection(dyld, v).stubs[i]),
        forall|k: int|
            0 <= k < dyld.stubs@.len() && stub_meets_filters(#[trigger] dyld.stubs@[k], v)
                ==> dyld_selection(dyld, v).stubs.contains(dyld.stubs@[k]),
{
    reveal(dyld_selection);
    let pred = stub_selected(v);
    let key = stub_key(sort_of(v));
    crate::sort::lemma_sorted_filter_members(dyld.stubs@, pred, key);
    let f = dyld.stubs@.filter(pred);
    let r = stable_sort_by(f, key);
    crate::sort::lemma_stable_sort_permutation(f, key);
    assert forall|k: int| 0 <= k < dyld.stubs@.len() && stub_meets_filters(#[trigger] dyld.stubs@[k], v)
        implies r.contains(dyld.stubs@[k]) by {
        let st = dyld.stubs@[k];
        assert(pred(st));
        dyld.stubs@.lemma_filter_contains(pred, k);
        f.to_multiset_ensures();
        r.to_multiset_ensures();
        assert(f.to_multiset().count(st) > 0);
        assert(r.to_multiset().count(st) > 0);
    }
}

/// An export passes each filter a listing sets: its name contains the name
/// filter (ignoring ASCII case), it is of the kind asked for, and it
/// carries the flag asked for.
pub open spec fn export_meets_filters(e: ExportedSymbol, v: DyldViewOptions) -> bool {
    &&& (v.name_filter matches Some(n) ==> text_contains(e.name@, n@))
    &&& (v.export_kind_filter matches Some(k) ==> match k {
        ExportKindFilter::Regular => e.kind is Regular,
        ExportKindFilter::Reexport => e.kind is Reexport,
        ExportKindFilter::Resolver => e.kind is Resolver,
        ExportKindFilter::StubAndResolver => e.kind is StubAndResolver,
        ExportKindFilter::WeakDefinition => e.kind is WeakDefinition,
        ExportKindFilter::Absolute => e.kind is Absolute,
        ExportKindFilter::ThreadLocal => e.kind is ThreadLocal,
        ExportKindFilter::Unknown => e.kind is Unknown,
    })
    &&& (v.export_flag_filter matches Some(f) ==> match f {
        ExportFlagFilter::WeakDefinition => e.flags.is_weak_definition,
        ExportFlagFilter::Reexport => e.flags.is_reexport,
        ExportFlagFilter::StubAndResolver => e.flags.is_stub_and_resolver,
        ExportFlagFilter::ThreadLocal => e.flags.is_thread_local,
        ExportFlagFilter::Absolute => e.flags.is_absolute,
    })
}

/// The exports a listing keeps are exactly the image's exports that meet
/// every filter set (`export_meets_filters`).
pub proof fn lemma_kept_exports(dyld: DyldMetadata, v: DyldViewOptions)
    ensures
        forall|i: int|
            0 <= i < dyld_selection(dyld, v).exports.len() ==> export_meets_filters(
                #[trigger] dyld_selection(dyld, v).exports[i],
                v,
            ) && dyld.exported_symbols@.contains(dyld_selection(dyld, v).exports[i]),
        forall|k: int|
            0 <= k < dyld.exported_symbols@.len() && export_meets_filters(
                #[trigger] dyld.exported_symbols@[k],
                v,
            ) ==> dyld_selection(dyld, v).exports.contains(dyld.exported_symbols@[k]),
{
    reveal(dyld_selection);
    let pred = export_selected(v);
    let key = export_key(sort_of(v));
    crate::sort::lemma_sorted_filter_members(dyld.exported_symbols@, pred, key);
    let f = dyld.exported_symbols@.filter(pred);
    let r = stable_sort_by(f, key);
    crate::sort::lemma_stable_sort_permutation(f, key);
    assert forall|k: int|
        0 <= k < dyld.exported_symbols@.len() && export_meets_filters(
            #[trigger] dyld.exported_symbols@[k],
            v,
        ) implies r.contains(dyld.exported_symbols@[k]) by {
        let e = dyld.exported_symbols@[k];
        assert(pred(e));
        dyld.exported_symbols@.lemma_filter_contains(pred, k);
        f.to_multiset_ensures();
        r.to_multiset_ensures();
        assert(f.to_multiset().count(e) > 0);
        assert(r.to_multiset().count(e) > 0);
    }
}

} // verus!
