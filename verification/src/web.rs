//! The decisions behind the browser interface: which section to open by
//! default, which symbol names to suggest for a query, how a disassembly
//! request becomes command-line flags, and which HTTP status an error gets.

use vstd::prelude::*;

use crate::cli::{error_is, CliRunError};
use crate::disasm::DisasmFlagArgs;
use crate::image::{first_found, found_first, first_match, lemma_found_first_is_first_found};
use crate::model::{section_full_name, Section, Symbol};
use crate::parse::{address_reading, int_error_message, parse_address, trim_chars, trimmed, IntParse};
use crate::sort::{key_view, keys_match, sort_keyed, stable_sort_by, KeyPart, PartView};
use crate::text::{
    ascii_lower, ascii_lower_vec, chars_eq, chars_vec, contains_chars, contains_seq,
    starts_with_chars, str_eq, string_of,
};

verus! {

/// `__TEXT:__text`, the usual code section.
pub open spec fn text_section_name() -> Seq<char> {
    "__TEXT:__text"@
}

/// The section to open first: `__TEXT:__text`, else the first executable
/// section, else the first section; by its full name.
pub open spec fn default_section(sections: Seq<Section>) -> Option<Seq<char>> {
    let pick = match first_found(
        sections,
        |s: Section| section_full_name(s.segment_name@, s.name@) == text_section_name(),
    ) {
        Some(s) => Some(s),
        None => match first_found(sections, |s: Section| s.executable) {
            Some(s) => Some(s),
            None => if sections.len() > 0 {
                Some(sections[0])
            } else {
                None
            },
        },
    };
    match pick {
        Some(s) => Some(section_full_name(s.segment_name@, s.name@)),
        None => None,
    }
}

/// The full name of the section to open first (see `default_section`).
pub fn choose_default_section(sections: &Vec<Section>) -> (r: Option<String>)
    ensures
        match r {
            Some(name) => default_section(sections@) == Some(name@),
            None => default_section(sections@) is None,
        },
{
    let ghost by_name = |s: Section| section_full_name(s.segment_name@, s.name@) == text_section_name();
    let ghost by_code = |s: Section| s.executable;
    let wanted = chars_vec("__TEXT:__text");
    proof {
        reveal_strlit("__TEXT:__text");
    }
    let mut i: usize = 0;
    while i < sections.len()
        invariant
            i <= sections@.len(),
            wanted@ == text_section_name(),
            by_name == (|s: Section| section_full_name(s.segment_name@, s.name@) == text_section_name()),
            forall|j: int| 0 <= j < i ==> !by_name(#[trigger] sections@[j]),
        decreases sections@.len() - i,
    {
        let name = sections[i].full_name();
        let full = chars_vec(name.as_str());
        if chars_eq(&full, &wanted) {
            proof {
                assert(first_match(sections@, by_name, i as int));
                lemma_found_first_is_first_found(sections@, by_name, Some(sections@[i as int]));
            }
            return Some(name);
        }
        i = i + 1;
    }
    proof {
        lemma_found_first_is_first_found(sections@, by_name, None);
    }
    let mut k: usize = 0;
    while k < sections.len()
        invariant
            k <= sections@.len(),
            by_code == (|s: Section| s.executable),
            by_name == (|s: Section| section_full_name(s.segment_name@, s.name@) == text_section_name()),
            first_found(sections@, by_name) is None,
            forall|j: int| 0 <= j < k ==> !by_code(#[trigger] sections@[j]),
        decreases sections@.len() - k,
    {
        if sections[k].executable {
            proof {
                assert(first_match(sections@, by_code, k as int));
                lemma_found_first_is_first_found(sections@, by_code, Some(sections@[k as int]));
            }
            return Some(sections[k].full_name());
        }
        k = k + 1;
    }
    proof {
        lemma_found_first_is_first_found(sections@, by_code, None);
    }
    if sections.len() > 0 {
        Some(sections[0].full_name())
    } else {
        None
    }
}

/// How many suggestions a query returns: the asked number (20 when not
/// given), kept between 1 and 50.
pub open spec fn suggestion_limit(limit: Option<usize>) -> nat {
    let asked: nat = match limit {
        Some(l) => l as nat,
        None => 20,
    };
    if asked < 1 {
        1
    } else if asked > 50 {
        50
    } else {
        asked
    }
}

/// The sort key of a suggested name: names that start with the query
/// first, then by lower-case name.
pub open spec fn suggestion_key(needle: Seq<char>) -> spec_fn(String) -> Seq<PartView> {
    |name: String|
        {
            let lower = ascii_lower(name@);
            let starts = needle.len() <= lower.len() && lower.take(needle.len() as int) == needle;
            seq![PartView::Number(if starts { 0 } else { 1 }), PartView::Text(lower)]
        }
}

/// `s` without the entries equal to the one before them.
pub open spec fn dedup_adjacent(s: Seq<Seq<char>>) -> Seq<Seq<char>>
    decreases s.len(),
{
    if s.len() <= 1 {
        s
    } else if s.last() == s[s.len() - 2] {
        dedup_adjacent(s.drop_last())
    } else {
        dedup_adjacent(s.drop_last()).push(s.last())
    }
}

/// The names of the symbols whose lower-case name contains the lower-case
/// query.
pub open spec fn matching_names(symbols: Seq<Symbol>, needle: Seq<char>) -> Seq<String> {
    symbols.filter(|s: Symbol| contains_seq(ascii_lower(s.name@), needle)).map_values(
        |s: Symbol| s.name,
    )
}

/// The suggested names for a query: none for an empty (or blank) query;
/// else the matching names, those starting with the query first, then by
/// lower-case name, with repeats next to each other dropped, at most
/// `suggestion_limit` of them.
pub open spec fn suggestions(symbols: Seq<Symbol>, query: Option<Seq<char>>, limit: Option<usize>) -> Seq<
    Seq<char>,
> {
    let needle = trimmed(
        match query {
            Some(q) => q,
            None => Seq::empty(),
        },
    );
    if needle.len() == 0 {
        Seq::empty()
    } else {
        let lower = ascii_lower(needle);
        let sorted = stable_sort_by(matching_names(symbols, lower), suggestion_key(lower));
        let unique = dedup_adjacent(sorted.map_values(|s: String| s@));
        if unique.len() <= suggestion_limit(limit) {
            unique
        } else {
            unique.take(suggestion_limit(limit) as int)
        }
    }
}

/// The sort key of a suggested name, for exec code.
fn suggestion_key_exec(name: &String, needle: &Vec<char>) -> (r: Vec<KeyPart>)
    ensures
        key_view(r@) == (suggestion_key(needle@))(*name),
{
    let lower = ascii_lower_vec(name.as_str());
    let starts = starts_with_chars(&lower, needle);
    let mut key: Vec<KeyPart> = Vec::new();
    key.push(KeyPart::Number(if starts { 0 } else { 1 }));
    key.push(KeyPart::Text(lower));
    assert(key_view(key@) =~= (suggestion_key(needle@))(*name));
    key
}

/// The views of a sequence of strings.
pub open spec fn string_views(s: Seq<String>) -> Seq<Seq<char>> {
    s.map_values(|x: String| x@)
}

/// The names to suggest for a query (see `suggestions`).
pub fn suggest_symbols(symbols: &Vec<Symbol>, query: Option<String>, limit: Option<usize>) -> (r: Vec<String>)
    ensures
        string_views(r@) == suggestions(
            symbols@,
            match query {
                Some(q) => Some(q@),
                None => None,
            },
            limit,
        ),
{
    let raw = match &query {
        Some(q) => chars_vec(q.as_str()),
        None => Vec::new(),
    };
    let needle = trim_chars(&raw);
    if needle.len() == 0 {
        let empty: Vec<String> = Vec::new();
        assert(string_views(empty@) =~= Seq::<Seq<char>>::empty());
        return empty;
    }
    let asked = match limit {
        Some(l) => l,
        None => 20,
    };
    let cap: usize = if asked < 1 { 1 } else if asked > 50 { 50 } else { asked };
    let mut lower: Vec<char> = Vec::new();
    let mut i: usize = 0;
    while i < needle.len()
        invariant
            i <= needle@.len(),
            lower@ == ascii_lower(needle@.take(i as int)),
        decreases needle@.len() - i,
    {
        lower.push(crate::text::lower_char_exec(needle[i]));
        assert(ascii_lower(needle@.take(i + 1)) =~= ascii_lower(needle@.take(i as int)).push(
            crate::text::lower_char(needle@[i as int]),
        ));
        i = i + 1;
    }
    assert(needle@.take(needle@.len() as int) =~= needle@);
    let ghost pred = |s: Symbol| contains_seq(ascii_lower(s.name@), lower@);
    let mut entries: Vec<(Vec<KeyPart>, String)> = Vec::new();
    let mut k: usize = 0;
    while k < symbols.len()
        invariant
            k <= symbols@.len(),
            pred == (|s: Symbol| contains_seq(ascii_lower(s.name@), lower@)),
            keys_match(entries@, suggestion_key(lower@)),
            entries@.map_values(|e: (Vec<KeyPart>, String)| e.1) == symbols@.take(k as int).filter(
                pred,
            ).map_values(|s: Symbol| s.name),
        decreases symbols@.len() - k,
    {
        proof {
            crate::listing::lemma_filter_step(symbols@, k as int, pred);
        }
        let name_lower = ascii_lower_vec(symbols[k].name.as_str());
        let ghost before = entries@;
        if contains_chars(&name_lower, &lower) {
            let name = symbols[k].name.clone();
            let key = suggestion_key_exec(&name, &lower);
            entries.push((key, name));
            assert(entries@.map_values(|e: (Vec<KeyPart>, String)| e.1) =~= before.map_values(
                |e: (Vec<KeyPart>, String)| e.1,
            ).push(symbols@[k as int].name));
            assert(symbols@.take(k + 1).filter(pred).map_values(|s: Symbol| s.name) =~= symbols@.take(
                k as int,
            ).filter(pred).map_values(|s: Symbol| s.name).push(symbols@[k as int].name));
        }
        k = k + 1;
    }
    assert(symbols@.take(symbols@.len() as int) =~= symbols@);
    let sorted = sort_keyed(entries, Ghost(suggestion_key(lower@)));
    let ghost views = string_views(sorted@);
    assert(views.len() == sorted.len());
    let mut unique: Vec<String> = Vec::new();
    let mut j: usize = 0;
    for name in it: sorted.into_iter()
        invariant
            views == string_views(it.seq()),
            views.len() <= usize::MAX,
            j == it.index(),
            j <= views.len(),
            string_views(unique@) == dedup_adjacent(views.take(j as int)),
            j > 0 ==> unique@.len() > 0 && unique@.last()@ == views[j - 1],
    {
        let ghost prefix = views.take(j + 1);
        assert(prefix.drop_last() =~= views.take(j as int));
        assert(prefix.last() == name@);
        let repeat = if unique.len() > 0 {
            str_eq(unique[unique.len() - 1].as_str(), name.as_str())
        } else {
            false
        };
        let ghost before = unique@;
        if !repeat {
            unique.push(name);
            assert(string_views(unique@) =~= string_views(before).push(views[j as int]));
        }
        proof {
            if j > 0 {
                assert(prefix[prefix.len() - 2] == views[j - 1]);
            }
        }
        j = j + 1;
    }
    assert(views.take(views.len() as int) =~= views);
    unique.truncate(cap);
    unique
}

/// What a disassembly request in the browser names.
#[derive(Debug, Clone, Copy, PartialEq, Eq, Structural)]
pub enum TargetKind {
    Section,
    Symbol,
    Address,
}

/// The window a browser request asks for.
#[derive(Debug, Clone, Copy, PartialEq, Eq, Structural)]
pub struct DisasmWindow {
    pub from: Option<u64>,
    pub to: Option<u64>,
    pub bytes: Option<usize>,
    pub limit: Option<usize>,
}

/// `invalid address value `VALUE`: REASON`.
pub open spec fn invalid_address_message(value: Seq<char>, reason: Seq<char>) -> Seq<char> {
    "invalid address value `"@ + value + "`: "@ + reason
}

/// The flags a browser request stands for: the named section or symbol with
/// the requested window, or the address (read as on the command line) with
/// the window's end, size and limit; an unreadable address is refused.
pub fn disasm_args_for_target(kind: TargetKind, value: String, window: DisasmWindow) -> (r: Result<
    DisasmFlagArgs,
    CliRunError,
>)
    ensures
        match kind {
            TargetKind::Section => r matches Ok(a) && a.section == Some(value) && a.symbol is None
                && a.addr is None && a.count is None && a.limit == window.limit && a.bytes
                == window.bytes && a.from == window.from && a.to == window.to,
            TargetKind::Symbol => r matches Ok(a) && a.symbol == Some(value) && a.section is None
                && a.addr is None && a.count is None && a.limit == window.limit && a.bytes
                == window.bytes && a.from == window.from && a.to == window.to,
            TargetKind::Address => match address_reading(value@) {
                IntParse::Value(v) => r matches Ok(a) && a.addr == Some(v) && a.symbol is None
                    && a.section is None && a.count is None && a.limit == window.limit && a.bytes
                    == window.bytes && a.from is None && a.to == window.to,
                IntParse::Failed(k) => r matches Err(e) && error_is(
                    e,
                    "invalid_args"@,
                    invalid_address_message(value@, int_error_message(k)),
                ),
            },
        },
{
    match kind {
        TargetKind::Section => Ok(
            DisasmFlagArgs {
                symbol: None,
                addr: None,
                section: Some(value),
                count: None,
                limit: window.limit,
                bytes: window.bytes,
                from: window.from,
                to: window.to,
            },
        ),
        TargetKind::Symbol => Ok(
            DisasmFlagArgs {
                symbol: Some(value),
                addr: None,
                section: None,
                count: None,
                limit: window.limit,
                bytes: window.bytes,
                from: window.from,
                to: window.to,
            },
        ),
        TargetKind::Address => match parse_address(value.as_str()) {
            Ok(addr) => Ok(
                DisasmFlagArgs {
                    symbol: None,
                    addr: Some(addr),
                    section: None,
                    count: None,
                    limit: window.limit,
                    bytes: window.bytes,
                    from: None,
                    to: window.to,
                },
            ),
            Err(reason) => {
                let mut message = string_of("invalid address value `");
                message.append(value.as_str());
                message.append("`: ");
                message.append(reason.as_str());
                Err(CliRunError::invalid_args(message.as_str()))
            },
        },
    }
}

/// The HTTP status of an error: 404 for a missing image, 400 otherwise.
pub fn api_error_status(code: &str) -> (r: u16)
    ensures
        r == if code@ == "image_not_found"@ {
            404u16
        } else {
            400u16
        },
{
    if str_eq(code, "image_not_found") {
        404
    } else {
        400
    }
}


/// What `dedup_adjacent` keeps comes from its input, its last entry is the
/// input's last, and no entry equals the one before it.
proof fn lemma_dedup_adjacent(s: Seq<Seq<char>>)
    ensures
        dedup_adjacent(s).len() <= s.len(),
        s.len() > 0 ==> dedup_adjacent(s).len() > 0 && dedup_adjacent(s).last() == s.last(),
        forall|i: int| 0 <= i < dedup_adjacent(s).len() ==> s.contains(#[trigger] dedup_adjacent(s)[i]),
        forall|i: int, j: int|
            0 <= i && i + 1 == j && j < dedup_adjacent(s).len() ==> #[trigger] dedup_adjacent(s)[i]
                != #[trigger] dedup_adjacent(s)[j],
    decreases s.len(),
{
    if s.len() == 1 {
        assert(s.contains(s[0]));
    } else if s.len() > 1 {
        let p = s.drop_last();
        lemma_dedup_adjacent(p);
        let dp = dedup_adjacent(p);
        assert forall|i: int| 0 <= i < dp.len() implies s.contains(#[trigger] dp[i]) by {
            let k = choose|k: int| 0 <= k < p.len() && p[k] == dp[i];
            assert(s[k] == p[k]);
        }
        if s.last() != s[s.len() - 2] {
            let d = dp.push(s.last());
            assert(d == dedup_adjacent(s));
            assert forall|i: int| 0 <= i < d.len() implies s.contains(#[trigger] d[i]) by {
                if i < dp.len() {
                    assert(d[i] == dp[i]);
                } else {
                    assert(s[s.len() - 1] == d[i]);
                }
            }
            assert forall|i: int, j: int| 0 <= i && i + 1 == j && j < d.len() implies #[trigger] d[i]
                != #[trigger] d[j] by {
                if j < dp.len() {
                    assert(d[i] == dp[i] && d[j] == dp[j]);
                } else {
                    assert(d[i] == dp.last());
                    assert(p.last() == s[s.len() - 2]);
                }
            }
        }
    }
}

/// Whether `name` is the name of one of `symbols` whose lower-case name
/// contains `needle`.
pub open spec fn name_matches(symbols: Seq<Symbol>, needle: Seq<char>, name: Seq<char>) -> bool {
    exists|j: int|
        0 <= j < symbols.len() && symbols[j].name@ == name && contains_seq(
            ascii_lower(#[trigger] symbols[j].name@),
            needle,
        )
}

/// The text a query stands for: the query, or nothing.
pub open spec fn query_text(query: Option<Seq<char>>) -> Seq<char> {
    match query {
        Some(q) => q,
        None => Seq::empty(),
    }
}

/// Every suggested name is the name of one of the symbols whose lower-case
/// name contains the trimmed, lower-cased query; no name is suggested twice
/// in a row; and there are no more of them than the limit allows.
pub proof fn lemma_suggestions_match(symbols: Seq<Symbol>, query: Option<Seq<char>>, limit: Option<usize>)
    ensures
        suggestions(symbols, query, limit).len() <= suggestion_limit(limit),
        forall|i: int|
            0 <= i < suggestions(symbols, query, limit).len() ==> name_matches(
                symbols,
                ascii_lower(trimmed(query_text(query))),
                #[trigger] suggestions(symbols, query, limit)[i],
            ),
        forall|i: int, j: int|
            0 <= i && i + 1 == j && j < suggestions(symbols, query, limit).len()
                ==> #[trigger] suggestions(symbols, query, limit)[i]
                != #[trigger] suggestions(symbols, query, limit)[j],
{
    broadcast use vstd::seq_lib::group_to_multiset_ensures;
    let needle = trimmed(query_text(query));
    assert(needle == trimmed(
        match query {
            Some(q) => q,
            None => Seq::empty(),
        },
    ));
    let r = suggestions(symbols, query, limit);
    if needle.len() > 0 {
        let lower = ascii_lower(needle);
        let pred = |s: Symbol| contains_seq(ascii_lower(s.name@), lower);
        let filtered = symbols.filter(pred);
        let names = matching_names(symbols, lower);
        assert(names == filtered.map_values(|s: Symbol| s.name));
        let key = suggestion_key(lower);
        let sorted = stable_sort_by(names, key);
        crate::sort::lemma_stable_sort_permutation(names, key);
        let mapped = sorted.map_values(|s: String| s@);
        let unique = dedup_adjacent(mapped);
        lemma_dedup_adjacent(mapped);
        assert forall|i: int| 0 <= i < r.len() implies name_matches(symbols, lower, #[trigger] r[i]) by {
            assert(r[i] == unique[i]);
            assert(mapped.contains(unique[i]));
            let k = choose|k: int| 0 <= k < mapped.len() && mapped[k] == unique[i];
            assert(sorted.contains(sorted[k]));
            assert(sorted.to_multiset().count(sorted[k]) > 0);
            assert(names.contains(sorted[k]));
            let m = choose|m: int| 0 <= m < names.len() && names[m] == sorted[k];
            assert(names.len() == filtered.len());
            assert(names[m] == filtered[m].name);
            assert(0 <= m < names.len());
            assert(0 <= m < filtered.len());
            symbols.lemma_filter_pred(pred, m);
            assert(filtered.contains(filtered[m]));
            symbols.lemma_filter_contains_rev(pred, filtered[m]);
            let j = choose|j: int| 0 <= j < symbols.len() && symbols[j] == filtered[m];
            assert(r[i] == symbols[j].name@);
        }
        assert forall|i: int, j: int| 0 <= i && i + 1 == j && j < r.len() implies #[trigger] r[i]
            != #[trigger] r[j] by {
            assert(r[i] == unique[i] && r[j] == unique[j]);
        }
    } else {
        assert(r.len() == 0);
    }
}

} // verus!
