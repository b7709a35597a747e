//! The list commands: which sections, symbols, imports and relocations they
//! show (each filter keeps matching entries in order) and how they sort
//! them (stably, by address, name, size or the like).

use vstd::prelude::*;

use crate::model::{section_full_name, Import, Relocation, Section, Symbol};
use crate::sort::{key_view, keys_match, sort_keyed, stable_sort_by, KeyPart, PartView};
use crate::text::{ascii_lower, ascii_lower_vec, chars_vec, contains_chars, contains_seq};

verus! {

/// `s.take(i + 1)` filtered is `s.take(i)` filtered, then `s[i]` if it
/// passes.
pub proof fn lemma_filter_step<T>(s: Seq<T>, i: int, pred: spec_fn(T) -> bool)
    requires
        0 <= i < s.len(),
    ensures
        s.take(i + 1).filter(pred) == if pred(s[i]) {
            s.take(i).filter(pred).push(s[i])
        } else {
            s.take(i).filter(pred)
        },
{
    reveal(Seq::filter);
    assert(s.take(i + 1).drop_last() =~= s.take(i));
}

/// Whether `needle` occurs in `value`, ignoring ASCII case.
pub fn contains_case_insensitive(value: &str, needle: &str) -> (r: bool)
    ensures
        r == contains_seq(ascii_lower(value@), ascii_lower(needle@)),
{
    let hay = ascii_lower_vec(value);
    let pattern = ascii_lower_vec(needle);
    contains_chars(&hay, &pattern)
}

/// An optional filter text passes a value when it is absent or occurs in
/// the value, ignoring ASCII case.
pub open spec fn passes(filter: Option<Seq<char>>, value: Seq<char>) -> bool {
    match filter {
        Some(f) => contains_seq(ascii_lower(value), ascii_lower(f)),
        None => true,
    }
}

/// The characters of an optional string.
pub open spec fn opt_view(o: Option<String>) -> Option<Seq<char>> {
    match o {
        Some(s) => Some(s@),
        None => None,
    }
}

/// Whether an optional filter passes a value.
fn filter_passes(filter: &Option<String>, value: &str) -> (r: bool)
    ensures
        r == passes(opt_view(*filter), value@),
{
    match filter {
        Some(f) => contains_case_insensitive(value, f.as_str()),
        None => true,
    }
}

/// How sections can be sorted.
#[derive(Debug, Clone, Copy, PartialEq, Eq, Structural)]
pub enum SectionSort {
    Address,
    Name,
    Size,
}

/// The sort key of a section.
pub open spec fn section_key(sort: SectionSort) -> spec_fn(Section) -> Seq<PartView> {
    |s: Section| match sort {
        SectionSort::Address => seq![PartView::Number(s.address)],
        SectionSort::Name => seq![PartView::Text(section_full_name(s.segment_name@, s.name@))],
        SectionSort::Size => seq![PartView::Number(s.size)],
    }
}

/// The sort key of a section, for exec code.
fn section_key_exec(s: &Section, sort: SectionSort) -> (r: Vec<KeyPart>)
    ensures
        key_view(r@) == (section_key(sort))(*s),
{
    let part = match sort {
        SectionSort::Address => KeyPart::Number(s.address),
        SectionSort::Name => KeyPart::Text(chars_vec(s.full_name().as_str())),
        SectionSort::Size => KeyPart::Number(s.size),
    };
    let mut key: Vec<KeyPart> = Vec::new();
    key.push(part);
    assert(key_view(key@) =~= (section_key(sort))(*s));
    key
}

/// `sections` sorted stably by the chosen key.
fn sorted_sections(sections: Vec<Section>, sort: SectionSort) -> (r: Vec<Section>)
    ensures
        r@ == stable_sort_by(sections@, section_key(sort)),
{
    let ghost all = sections@;
    let mut entries: Vec<(Vec<KeyPart>, Section)> = Vec::new();
    for s in it: sections.into_iter()
        invariant
            it.seq() == all,
            keys_match(entries@, section_key(sort)),
            entries@.map_values(|e: (Vec<KeyPart>, Section)| e.1) == all.take(it.index() as int),
    {
        let ghost k = it.index() as int;
        let ghost before = entries@;
        assert(all.take(k + 1) =~= all.take(k).push(s));
        let key = section_key_exec(&s, sort);
        entries.push((key, s));
        assert(entries@.map_values(|e: (Vec<KeyPart>, Section)| e.1) =~= before.map_values(
            |e: (Vec<KeyPart>, Section)| e.1,
        ).push(all[k]));
    }
    assert(all.take(all.len() as int) =~= all);
    sort_keyed(entries, Ghost(section_key(sort)))
}

/// Sorts sections in place, stably, by the chosen key.
pub fn sort_sections(sections: &mut Vec<Section>, sort: SectionSort)
    ensures
        final(sections)@ == stable_sort_by(old(sections)@, section_key(sort)),
{
    let mut taken: Vec<Section> = Vec::new();
    std::mem::swap(sections, &mut taken);
    *sections = sorted_sections(taken, sort);
}

/// The sections a listing keeps.
pub open spec fn section_selected(
    executable_only: bool,
    segment: Option<Seq<char>>,
    name: Option<Seq<char>>,
) -> spec_fn(Section) -> bool {
    |s: Section| (!executable_only || s.executable) && passes(segment, s.segment_name@) && passes(
        name,
        s.name@,
    )
}

/// The sections to list: the executable ones only when asked, those whose
/// segment and name contain the given texts (ignoring ASCII case), in order,
/// then sorted when a sort is given.
pub fn select_sections(
    sections: Vec<Section>,
    executable_only: bool,
    segment: Option<String>,
    name: Option<String>,
    sort: Option<SectionSort>,
) -> (r: Vec<Section>)
    ensures
        ({
            let kept = sections@.filter(section_selected(executable_only, opt_view(segment), opt_view(name)));
            r@ == match sort {
                Some(k) => stable_sort_by(kept, section_key(k)),
                None => kept,
            }
        }),
{
    let ghost all = sections@;
    let ghost pred = section_selected(executable_only, opt_view(segment), opt_view(name));
    let mut kept: Vec<Section> = Vec::new();
    for s in it: sections.into_iter()
        invariant
            it.seq() == all,
            pred == section_selected(executable_only, opt_view(segment), opt_view(name)),
            kept@ == all.take(it.index() as int).filter(pred),
    {
        proof {
            lemma_filter_step(all, it.index() as int, pred);
        }
        let keep = (!executable_only || s.executable) && filter_passes(&segment, s.segment_name.as_str())
            && filter_passes(&name, s.name.as_str());
        if keep {
            kept.push(s);
        }
    }
    assert(all.take(all.len() as int) =~= all);
    match sort {
        Some(k) => sorted_sections(kept, k),
        None => kept,
    }
}

/// How symbols can be sorted.
#[derive(Debug, Clone, Copy, PartialEq, Eq, Structural)]
pub enum SymbolSort {
    Address,
    Name,
    Size,
}

/// The sort key of a symbol.
pub open spec fn symbol_key(sort: SymbolSort) -> spec_fn(Symbol) -> Seq<PartView> {
    |s: Symbol| match sort {
        SymbolSort::Address => seq![PartView::Number(s.address)],
        SymbolSort::Name => seq![PartView::Text(s.name@)],
        SymbolSort::Size => seq![PartView::Number(s.size)],
    }
}

/// The sort key of a symbol, for exec code.
fn symbol_key_exec(s: &Symbol, sort: SymbolSort) -> (r: Vec<KeyPart>)
    ensures
        key_view(r@) == (symbol_key(sort))(*s),
{
    let part = match sort {
        SymbolSort::Address => KeyPart::Number(s.address),
        SymbolSort::Name => KeyPart::Text(chars_vec(s.name.as_str())),
        SymbolSort::Size => KeyPart::Number(s.size),
    };
    let mut key: Vec<KeyPart> = Vec::new();
    key.push(part);
    assert(key_view(key@) =~= (symbol_key(sort))(*s));
    key
}

/// `symbols` sorted stably by the chosen key.
fn sorted_symbols(symbols: Vec<Symbol>, sort: SymbolSort) -> (r: Vec<Symbol>)
    ensures
        r@ == stable_sort_by(symbols@, symbol_key(sort)),
{
    let ghost all = symbols@;
    let mut entries: Vec<(Vec<KeyPart>, Symbol)> = Vec::new();
    for s in it: symbols.into_iter()
        invariant
            it.seq() == all,
            keys_match(entries@, symbol_key(sort)),
            entries@.map_values(|e: (Vec<KeyPart>, Symbol)| e.1) == all.take(it.index() as int),
    {
        let ghost k = it.index() as int;
        let ghost before = entries@;
        assert(all.take(k + 1) =~= all.take(k).push(s));
        let key = symbol_key_exec(&s, sort);
        entries.push((key, s));
        assert(entries@.map_values(|e: (Vec<KeyPart>, Symbol)| e.1) =~= before.map_values(
            |e: (Vec<KeyPart>, Symbol)| e.1,
        ).push(all[k]));
    }
    assert(all.take(all.len() as int) =~= all);
    sort_keyed(entries, Ghost(symbol_key(sort)))
}

/// Sorts symbols in place, stably, by the chosen key.
pub fn sort_symbols(symbols: &mut Vec<Symbol>, sort: SymbolSort)
    ensures
        final(symbols)@ == stable_sort_by(old(symbols)@, symbol_key(sort)),
{
    let mut taken: Vec<Symbol> = Vec::new();
    std::mem::swap(symbols, &mut taken);
    *symbols = sorted_symbols(taken, sort);
}

/// The symbols a listing keeps.
pub open spec fn symbol_selected(
    defined: bool,
    global: bool,
    section: Option<Seq<char>>,
    name: Option<Seq<char>>,
) -> spec_fn(Symbol) -> bool {
    |s: Symbol|
        {
            &&& !defined || s.defined
            &&& !global || s.global
            &&& match section {
                Some(f) => s.section is Some && passes(Some(f), s.section->0@),
                None => true,
            }
            &&& passes(name, s.name@)
        }
}

/// The symbols to list: the defined and the global ones only when asked,
/// those whose section and name contain the given texts (ignoring ASCII
/// case; a symbol without a section fails a section filter), in order,
/// then sorted when a sort is given.
pub fn select_symbols(
    symbols: Vec<Symbol>,
    defined: bool,
    global: bool,
    section: Option<String>,
    name: Option<String>,
    sort: Option<SymbolSort>,
) -> (r: Vec<Symbol>)
    ensures
        ({
            let kept = symbols@.filter(symbol_selected(defined, global, opt_view(section), opt_view(name)));
            r@ == match sort {
                Some(k) => stable_sort_by(kept, symbol_key(k)),
                None => kept,
            }
        }),
{
    let ghost all = symbols@;
    let ghost pred = symbol_selected(defined, global, opt_view(section), opt_view(name));
    let mut kept: Vec<Symbol> = Vec::new();
    for s in it: symbols.into_iter()
        invariant
            it.seq() == all,
            pred == symbol_selected(defined, global, opt_view(section), opt_view(name)),
            kept@ == all.take(it.index() as int).filter(pred),
    {
        proof {
            lemma_filter_step(all, it.index() as int, pred);
        }
        let in_section = match &section {
            Some(f) => match &s.section {
                Some(value) => contains_case_insensitive(value.as_str(), f.as_str()),
                None => false,
            },
            None => true,
        };
        let keep = (!defined || s.defined) && (!global || s.global) && in_section && filter_passes(
            &name,
            s.name.as_str(),
        );
        if keep {
            kept.push(s);
        }
    }
    assert(all.take(all.len() as int) =~= all);
    match sort {
        Some(k) => sorted_symbols(kept, k),
        None => kept,
    }
}

/// How imports can be sorted.
#[derive(Debug, Clone, Copy, PartialEq, Eq, Structural)]
pub enum ImportSort {
    Address,
    Dylib,
    Name,
}

/// The sort key of an import: the address (zero when unresolved), the
/// library then the name, or the name.
pub open spec fn import_key(sort: ImportSort) -> spec_fn(Import) -> Seq<PartView> {
    |s: Import| match sort {
        ImportSort::Address => seq![
            PartView::Number(
                match s.address {
                    Some(a) => a,
                    None => 0,
                },
            ),
        ],
        ImportSort::Dylib => seq![PartView::Text(s.dylib@), PartView::Text(s.name@)],
        ImportSort::Name => seq![PartView::Text(s.name@)],
    }
}

/// The sort key of an import, for exec code.
fn import_key_exec(s: &Import, sort: ImportSort) -> (r: Vec<KeyPart>)
    ensures
        key_view(r@) == (import_key(sort))(*s),
{
    let mut key: Vec<KeyPart> = Vec::new();
    match sort {
        ImportSort::Address => {
            let address = match s.address {
                Some(a) => a,
                None => 0,
            };
            key.push(KeyPart::Number(address));
        },
        ImportSort::Dylib => {
            key.push(KeyPart::Text(chars_vec(s.dylib.as_str())));
            key.push(KeyPart::Text(chars_vec(s.name.as_str())));
        },
        ImportSort::Name => {
            key.push(KeyPart::Text(chars_vec(s.name.as_str())));
        },
    }
    assert(key_view(key@) =~= (import_key(sort))(*s));
    key
}

/// `imports` sorted stably by the chosen key.
fn sorted_imports(imports: Vec<Import>, sort: ImportSort) -> (r: Vec<Import>)
    ensures
        r@ == stable_sort_by(imports@, import_key(sort)),
{
    let ghost all = imports@;
    let mut entries: Vec<(Vec<KeyPart>, Import)> = Vec::new();
    for s in it: imports.into_iter()
        invariant
            it.seq() == all,
            keys_match(entries@, import_key(sort)),
            entries@.map_values(|e: (Vec<KeyPart>, Import)| e.1) == all.take(it.index() as int),
    {
        let ghost k = it.index() as int;
        let ghost before = entries@;
        assert(all.take(k + 1) =~= all.take(k).push(s));
        let key = import_key_exec(&s, sort);
        entries.push((key, s));
        assert(entries@.map_values(|e: (Vec<KeyPart>, Import)| e.1) =~= before.map_values(
            |e: (Vec<KeyPart>, Import)| e.1,
        ).push(all[k]));
    }
    assert(all.take(all.len() as int) =~= all);
    sort_keyed(entries, Ghost(import_key(sort)))
}

/// Sorts imports in place, stably, by the chosen key.
pub fn sort_imports(imports: &mut Vec<Import>, sort: ImportSort)
    ensures
        final(imports)@ == stable_sort_by(old(imports)@, import_key(sort)),
{
    let mut taken: Vec<Import> = Vec::new();
    std::mem::swap(imports, &mut taken);
    *imports = sorted_imports(taken, sort);
}

/// The imports a listing keeps.
pub open spec fn import_selected(
    dylib: Option<Seq<char>>,
    name: Option<Seq<char>>,
    lazy: bool,
    weak: bool,
    resolved: bool,
) -> spec_fn(Import) -> bool {
    |s: Import|
        {
            &&& passes(dylib, s.dylib@)
            &&& passes(name, s.name@)
            &&& !lazy || s.is_lazy
            &&& !weak || s.is_weak
            &&& !resolved || s.address is Some
        }
}

/// The imports to list: those whose library and name contain the given
/// texts (ignoring ASCII case), the lazy, weak and resolved ones only when
/// asked, in order, then sorted when a sort is given.
pub fn select_imports(
    imports: Vec<Import>,
    dylib: Option<String>,
    name: Option<String>,
    lazy: bool,
    weak: bool,
    resolved: bool,
    sort: Option<ImportSort>,
) -> (r: Vec<Import>)
    ensures
        ({
            let kept = imports@.filter(import_selected(opt_view(dylib), opt_view(name), lazy, weak, resolved));
            r@ == match sort {
                Some(k) => stable_sort_by(kept, import_key(k)),
                None => kept,
            }
        }),
{
    let ghost all = imports@;
    let ghost pred = import_selected(opt_view(dylib), opt_view(name), lazy, weak, resolved);
    let mut kept: Vec<Import> = Vec::new();
    for s in it: imports.into_iter()
        invariant
            it.seq() == all,
            pred == import_selected(opt_view(dylib), opt_view(name), lazy, weak, resolved),
            kept@ == all.take(it.index() as int).filter(pred),
    {
        proof {
            lemma_filter_step(all, it.index() as int, pred);
        }
        let keep = filter_passes(&dylib, s.dylib.as_str()) && filter_passes(&name, s.name.as_str())
            && (!lazy || s.is_lazy) && (!weak || s.is_weak) && (!resolved || s.address.is_some());
        if keep {
            kept.push(s);
        }
    }
    assert(all.take(all.len() as int) =~= all);
    match sort {
        Some(k) => sorted_imports(kept, k),
        None => kept,
    }
}

/// How relocations can be sorted.
#[derive(Debug, Clone, Copy, PartialEq, Eq, Structural)]
pub enum RelocationSort {
    Address,
    Section,
    Size,
}

/// The sort key of a relocation: the address, the section then the
/// address, or the size.
pub open spec fn relocation_key(sort: RelocationSort) -> spec_fn(Relocation) -> Seq<PartView> {
    |s: Relocation| match sort {
        RelocationSort::Address => seq![PartView::Number(s.address)],
        RelocationSort::Section => seq![PartView::Text(s.section@), PartView::Number(s.address)],
        RelocationSort::Size => seq![PartView::Number(s.size as u64)],
    }
}

/// The sort key of a relocation, for exec code.
fn relocation_key_exec(s: &Relocation, sort: RelocationSort) -> (r: Vec<KeyPart>)
    ensures
        key_view(r@) == (relocation_key(sort))(*s),
{
    let mut key: Vec<KeyPart> = Vec::new();
    match sort {
        RelocationSort::Address => {
            key.push(KeyPart::Number(s.address));
        },
        RelocationSort::Section => {
            key.push(KeyPart::Text(chars_vec(s.section.as_str())));
            key.push(KeyPart::Number(s.address));
        },
        RelocationSort::Size => {
            key.push(KeyPart::Number(s.size as u64));
        },
    }
    assert(key_view(key@) =~= (relocation_key(sort))(*s));
    key
}

/// `relocations` sorted stably by the chosen key.
fn sorted_relocations(relocations: Vec<Relocation>, sort: RelocationSort) -> (r: Vec<Relocation>)
    ensures
        r@ == stable_sort_by(relocations@, relocation_key(sort)),
{
    let ghost all = relocations@;
    let mut entries: Vec<(Vec<KeyPart>, Relocation)> = Vec::new();
    for s in it: relocations.into_iter()
        invariant
            it.seq() == all,
            keys_match(entries@, relocation_key(sort)),
            entries@.map_values(|e: (Vec<KeyPart>, Relocation)| e.1) == all.take(it.index() as int),
    {
        let ghost k = it.index() as int;
        let ghost before = entries@;
        assert(all.take(k + 1) =~= all.take(k).push(s));
        let key = relocation_key_exec(&s, sort);
        entries.push((key, s));
        assert(entries@.map_values(|e: (Vec<KeyPart>, Relocation)| e.1) =~= before.map_values(
            |e: (Vec<KeyPart>, Relocation)| e.1,
        ).push(all[k]));
    }
    assert(all.take(all.len() as int) =~= all);
    sort_keyed(entries, Ghost(relocation_key(sort)))
}

/// Sorts relocations in place, stably, by the chosen key.
pub fn sort_relocations(relocations: &mut Vec<Relocation>, sort: RelocationSort)
    ensures
        final(relocations)@ == stable_sort_by(old(relocations)@, relocation_key(sort)),
{
    let mut taken: Vec<Relocation> = Vec::new();
    std::mem::swap(relocations, &mut taken);
    *relocations = sorted_relocations(taken, sort);
}

/// The relocations to list: those whose section contains the given text
/// (ignoring ASCII case), in order, then sorted when a sort is given.
pub fn select_relocations(
    relocations: Vec<Relocation>,
    section: Option<String>,
    sort: Option<RelocationSort>,
) -> (r: Vec<Relocation>)
    ensures
        ({
            let kept = relocations@.filter(|s: Relocation| passes(opt_view(section), s.section@));
            r@ == match sort {
                Some(k) => stable_sort_by(kept, relocation_key(k)),
                None => kept,
            }
        }),
{
    let ghost all = relocations@;
    let ghost pred = |s: Relocation| passes(opt_view(section), s.section@);
    let mut kept: Vec<Relocation> = Vec::new();
    for s in it: relocations.into_iter()
        invariant
            it.seq() == all,
            pred == (|s: Relocation| passes(opt_view(section), s.section@)),
            kept@ == all.take(it.index() as int).filter(pred),
    {
        proof {
            lemma_filter_step(all, it.index() as int, pred);
        }
        if filter_passes(&section, s.section.as_str()) {
            kept.push(s);
        }
    }
    assert(all.take(all.len() as int) =~= all);
    match sort {
        Some(k) => sorted_relocations(kept, k),
        None => kept,
    }
}

/// Sorting symbols by size puts their sizes in non-decreasing order and
/// keeps exactly the symbols given.
pub proof fn lemma_symbol_size_sort(items: Seq<Symbol>)
    ensures
        forall|i: int, j: int|
            0 <= i < j < stable_sort_by(items, symbol_key(SymbolSort::Size)).len() ==> (
            #[trigger] stable_sort_by(items, symbol_key(SymbolSort::Size))[i]).size
                <= (#[trigger] stable_sort_by(items, symbol_key(SymbolSort::Size))[j]).size,
        stable_sort_by(items, symbol_key(SymbolSort::Size)).to_multiset() == items.to_multiset(),
{
    crate::sort::lemma_sort_by_number(items, symbol_key(SymbolSort::Size), |x: Symbol| x.size);
}

/// Sorting symbols by address puts their addresses in non-decreasing order
/// and keeps exactly the symbols given.
pub proof fn lemma_symbol_address_sort(items: Seq<Symbol>)
    ensures
        forall|i: int, j: int|
            0 <= i < j < stable_sort_by(items, symbol_key(SymbolSort::Address)).len() ==> (
            #[trigger] stable_sort_by(items, symbol_key(SymbolSort::Address))[i]).address
                <= (#[trigger] stable_sort_by(items, symbol_key(SymbolSort::Address))[j]).address,
        stable_sort_by(items, symbol_key(SymbolSort::Address)).to_multiset() == items.to_multiset(),
{
    crate::sort::lemma_sort_by_number(items, symbol_key(SymbolSort::Address), |x: Symbol| x.address);
}

/// Sorting symbols by name puts their names in character order and keeps
/// exactly the symbols given.
pub proof fn lemma_symbol_name_sort(items: Seq<Symbol>)
    ensures
        forall|i: int, j: int|
            0 <= i < j < stable_sort_by(items, symbol_key(SymbolSort::Name)).len() ==> !crate::sort::text_lt(
                (#[trigger] stable_sort_by(items, symbol_key(SymbolSort::Name))[j]).name@,
                (#[trigger] stable_sort_by(items, symbol_key(SymbolSort::Name))[i]).name@,
            ),
        stable_sort_by(items, symbol_key(SymbolSort::Name)).to_multiset() == items.to_multiset(),
{
    crate::sort::lemma_sort_by_text(items, symbol_key(SymbolSort::Name), |x: Symbol| x.name@);
}

/// Sorting sections by size puts their sizes in non-decreasing order and
/// keeps exactly the sections given.
pub proof fn lemma_section_size_sort(items: Seq<Section>)
    ensures
        forall|i: int, j: int|
            0 <= i < j < stable_sort_by(items, section_key(SectionSort::Size)).len() ==> (
            #[trigger] stable_sort_by(items, section_key(SectionSort::Size))[i]).size
                <= (#[trigger] stable_sort_by(items, section_key(SectionSort::Size))[j]).size,
        stable_sort_by(items, section_key(SectionSort::Size)).to_multiset() == items.to_multiset(),
{
    crate::sort::lemma_sort_by_number(items, section_key(SectionSort::Size), |x: Section| x.size);
}

/// Sorting sections by address puts their addresses in non-decreasing
/// order and keeps exactly the sections given.
pub proof fn lemma_section_address_sort(items: Seq<Section>)
    ensures
        forall|i: int, j: int|
            0 <= i < j < stable_sort_by(items, section_key(SectionSort::Address)).len() ==> (
            #[trigger] stable_sort_by(items, section_key(SectionSort::Address))[i]).address
                <= (#[trigger] stable_sort_by(items, section_key(SectionSort::Address))[j]).address,
        stable_sort_by(items, section_key(SectionSort::Address)).to_multiset() == items.to_multiset(),
{
    crate::sort::lemma_sort_by_number(items, section_key(SectionSort::Address), |x: Section| x.address);
}

/// Sorting relocations by address puts their addresses in non-decreasing
/// order and keeps exactly the relocations given.
pub proof fn lemma_relocation_address_sort(items: Seq<Relocation>)
    ensures
        forall|i: int, j: int|
            0 <= i < j < stable_sort_by(items, relocation_key(RelocationSort::Address)).len() ==> (
            #[trigger] stable_sort_by(items, relocation_key(RelocationSort::Address))[i]).address
                <= (#[trigger] stable_sort_by(items, relocation_key(RelocationSort::Address))[j]).address,
        stable_sort_by(items, relocation_key(RelocationSort::Address)).to_multiset() == items.to_multiset(),
{
    crate::sort::lemma_sort_by_number(items, relocation_key(RelocationSort::Address), |x: Relocation| x.address);
}

/// Sorting relocations by size puts their sizes in non-decreasing order and
/// keeps exactly the relocations given.
pub proof fn lemma_relocation_size_sort(items: Seq<Relocation>)
    ensures
        forall|i: int, j: int|
            0 <= i < j < stable_sort_by(items, relocation_key(RelocationSort::Size)).len() ==> (
            #[trigger] stable_sort_by(items, relocation_key(RelocationSort::Size))[i]).size as u64
                <= (#[trigger] stable_sort_by(items, relocation_key(RelocationSort::Size))[j]).size as u64,
        stable_sort_by(items, relocation_key(RelocationSort::Size)).to_multiset() == items.to_multiset(),
{
    crate::sort::lemma_sort_by_number(items, relocation_key(RelocationSort::Size), |x: Relocation| x.size as u64);
}

/// Sorting imports by name puts their names in character order and keeps
/// exactly the imports given.
pub proof fn lemma_import_name_sort(items: Seq<Import>)
    ensures
        forall|i: int, j: int|
            0 <= i < j < stable_sort_by(items, import_key(ImportSort::Name)).len() ==> !crate::sort::text_lt(
                (#[trigger] stable_sort_by(items, import_key(ImportSort::Name))[j]).name@,
                (#[trigger] stable_sort_by(items, import_key(ImportSort::Name))[i]).name@,
            ),
        stable_sort_by(items, import_key(ImportSort::Name)).to_multiset() == items.to_multiset(),
{
    crate::sort::lemma_sort_by_text(items, import_key(ImportSort::Name), |x: Import| x.name@);
}

} // verus!
