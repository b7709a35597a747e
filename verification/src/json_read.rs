//! Reading JSON text back: a parser, as a specification, for the text that
//! `JsonValue::render` writes, and the proof that a rendered value (compact
//! or indented) reads back as the same tree.

use vstd::prelude::*;

use crate::json::{
    close_indent, elements_view, entry_text, escape_char, escaped, hex4, indentation, is_control,
    items_text, json_text, json_view, lemma_escaped_front, lemma_unescape_escaped_then,
    member_body, members_view, open_break, quoted, unescape, JsonValue, JsonView,
};
use crate::text::digit_char;

verus! {

/// The whitespace the indented form puts between tokens.
pub open spec fn is_layout(c: char) -> bool {
    c == ' ' || c == '\n'
}

/// The position of the first character at or after `i` that is no layout.
pub open spec fn skip_layout(s: Seq<char>, i: int) -> int
    decreases s.len() - i,
{
    if 0 <= i < s.len() && is_layout(s[i]) {
        skip_layout(s, i + 1)
    } else {
        i
    }
}

/// The characters a number literal is made of.
pub open spec fn is_number_char(c: char) -> bool {
    ('0' <= c && c <= '9') || c == '-' || c == '+' || c == '.' || c == 'e' || c == 'E'
}

/// The end of the run of number characters that starts at `i`.
pub open spec fn number_end(s: Seq<char>, i: int) -> int
    decreases s.len() - i,
{
    if 0 <= i < s.len() && is_number_char(s[i]) {
        number_end(s, i + 1)
    } else {
        i
    }
}

/// The position of the quote that closes a string literal whose body
/// starts at `i` (a backslash hides the character after it); the text's
/// length when there is none.
pub open spec fn string_end(s: Seq<char>, i: int) -> int
    decreases s.len() - i,
{
    if !(0 <= i < s.len()) {
        s.len() as int
    } else if s[i] == '"' {
        i
    } else if s[i] == '\\' {
        if i + 2 <= s.len() {
            string_end(s, i + 2)
        } else {
            s.len() as int
        }
    } else {
        string_end(s, i + 1)
    }
}

/// The string literal whose opening quote is at `i`: its text, and the
/// position after its closing quote.
pub open spec fn parse_string(s: Seq<char>, i: int) -> Option<(Seq<char>, int)> {
    if 0 <= i < s.len() && s[i] == '"' {
        let e = string_end(s, i + 1);
        if i + 1 <= e < s.len() {
            Some((unescape(s.subrange(i + 1, e)), e + 1))
        } else {
            None
        }
    } else {
        None
    }
}

/// `word` stands at `j`.
pub open spec fn word_at(s: Seq<char>, j: int, word: Seq<char>) -> bool {
    0 <= j && j + word.len() <= s.len() && s.subrange(j, j + word.len()) == word
}

/// The value that starts at `i`, after any layout: the tree it reads as and
/// the position after it.
pub open spec fn parse_value(s: Seq<char>, i: int) -> Option<(JsonView, int)>
    decreases s.len() - i, 0nat,
{
    if !(0 <= i <= s.len()) {
        None
    } else {
        let j = skip_layout(s, i);
        if !(i <= j < s.len()) {
            None
        } else if s[j] == 'n' {
            if word_at(s, j, "null"@) {
                Some((JsonView::Null, j + 4))
            } else {
                None
            }
        } else if s[j] == 't' {
            if word_at(s, j, "true"@) {
                Some((JsonView::Bool(true), j + 4))
            } else {
                None
            }
        } else if s[j] == 'f' {
            if word_at(s, j, "false"@) {
                Some((JsonView::Bool(false), j + 5))
            } else {
                None
            }
        } else if s[j] == '"' {
            match parse_string(s, j) {
                Some((text, e)) => Some((JsonView::Str(text), e)),
                None => None,
            }
        } else if s[j] == '[' {
            let k = skip_layout(s, j + 1);
            if j + 1 <= k < s.len() && s[k] == ']' {
                Some((JsonView::Array(seq![]), k + 1))
            } else {
                parse_elements(s, j + 1, seq![])
            }
        } else if s[j] == '{' {
            let k = skip_layout(s, j + 1);
            if j + 1 <= k < s.len() && s[k] == '}' {
                Some((JsonView::Object(seq![]), k + 1))
            } else {
                parse_members(s, j + 1, seq![])
            }
        } else if is_number_char(s[j]) {
            let e = number_end(s, j);
            if j < e <= s.len() {
                Some((JsonView::Number(s.subrange(j, e)), e))
            } else {
                None
            }
        } else {
            None
        }
    }
}

/// The elements of an array from `i` on, after the elements `acc` already
/// read, up to and past the closing bracket.
pub open spec fn parse_elements(s: Seq<char>, i: int, acc: Seq<JsonView>) -> Option<(JsonView, int)>
    decreases s.len() - i, 1nat,
{
    if !(0 <= i <= s.len()) {
        None
    } else {
        match parse_value(s, i) {
            Some((v, e)) => {
                let k = skip_layout(s, e);
                if !(i < e <= k && k < s.len()) {
                    None
                } else if s[k] == ',' {
                    parse_elements(s, k + 1, acc.push(v))
                } else if s[k] == ']' {
                    Some((JsonView::Array(acc.push(v)), k + 1))
                } else {
                    None
                }
            },
            None => None,
        }
    }
}

/// The members of an object from `i` on, after the members `acc` already
/// read, up to and past the closing brace.
pub open spec fn parse_members(s: Seq<char>, i: int, acc: Seq<(Seq<char>, JsonView)>) -> Option<
    (JsonView, int),
>
    decreases s.len() - i, 1nat,
{
    if !(0 <= i <= s.len()) {
        None
    } else {
        let j = skip_layout(s, i);
        match parse_string(s, j) {
            Some((key, e)) => {
                let c = skip_layout(s, e);
                if !(i <= j && j < e && e <= c && c < s.len() && s[c] == ':') {
                    None
                } else {
                    match parse_value(s, c + 1) {
                        Some((v, f)) => {
                            let k = skip_layout(s, f);
                            if !(c + 1 < f <= k && k < s.len()) {
                                None
                            } else if s[k] == ',' {
                                parse_members(s, k + 1, acc.push((key, v)))
                            } else if s[k] == '}' {
                                Some((JsonView::Object(acc.push((key, v))), k + 1))
                            } else {
                                None
                            }
                        },
                        None => None,
                    }
                }
            },
            None => None,
        }
    }
}

/// The tree a JSON text reads as: one value, with nothing but layout after
/// it.
pub open spec fn parse_json(s: Seq<char>) -> Option<JsonView> {
    match parse_value(s, 0) {
        Some((v, e)) => if skip_layout(s, e) == s.len() {
            Some(v)
        } else {
            None
        },
        None => None,
    }
}

/// Skipping layout stops at the end of a run of layout.
pub proof fn lemma_skip_layout_run(s: Seq<char>, p: int, v: int)
    requires
        0 <= p <= v <= s.len(),
        forall|k: int| p <= k < v ==> is_layout(#[trigger] s[k]),
        v == s.len() || !is_layout(s[v]),
    ensures
        skip_layout(s, p) == v,
    decreases v - p,
{
    if p < v {
        lemma_skip_layout_run(s, p + 1, v);
    }
}

/// A number literal ends at the end of a run of number characters.
proof fn lemma_number_run(s: Seq<char>, p: int, v: int)
    requires
        0 <= p <= v <= s.len(),
        forall|k: int| p <= k < v ==> is_number_char(#[trigger] s[k]),
        v == s.len() || !is_number_char(s[v]),
    ensures
        number_end(s, p) == v,
    decreases v - p,
{
    if p < v {
        lemma_number_run(s, p + 1, v);
    }
}

/// No hexadecimal digit is a quote or a backslash.
proof fn lemma_digit_char_plain(d: nat)
    ensures
        digit_char(d) != '"' && digit_char(d) != '\\',
{
}

/// The body of a string literal, as `escaped` writes it, runs up to the
/// quote after it.
proof fn lemma_string_end(s: Seq<char>, i: int, t: Seq<char>)
    requires
        0 <= i,
        i + escaped(t).len() < s.len(),
        s.subrange(i, i + escaped(t).len()) == escaped(t),
        s[i + escaped(t).len()] == '"',
    ensures
        string_end(s, i) == i + escaped(t).len(),
    decreases t.len(),
{
    let n = escaped(t).len() as int;
    assert forall|k: int| 0 <= k < n implies s[i + k] == escaped(t)[k] by {
        assert(s.subrange(i, i + n)[k] == s[i + k]);
    }
    if t.len() == 0 {
    } else {
        lemma_escaped_front(t);
        let c = t[0];
        let e0 = escape_char(c);
        let rest = t.drop_first();
        let m = e0.len() as int;
        assert(escaped(t) == e0 + escaped(rest));
        assert forall|k: int| 0 <= k < m implies s[i + k] == e0[k] by {
            assert(escaped(t)[k] == e0[k]);
        }
        assert(s.subrange(i + m, i + m + escaped(rest).len()) =~= escaped(rest)) by {
            assert forall|k: int| 0 <= k < escaped(rest).len() implies s.subrange(
                i + m,
                i + m + escaped(rest).len(),
            )[k] == escaped(rest)[k] by {
                assert(escaped(t)[m + k] == escaped(rest)[k]);
            }
        }
        lemma_string_end(s, i + m, rest);
        if c == '"' || c == '\\' || c == '\n' || c == '\r' || c == '\t' || c == '\u{08}' || c
            == '\u{0c}' {
            assert(m == 2);
            assert(s[i] == '\\');
        } else if is_control(c) {
            let v = c as nat;
            assert(e0 == seq!['\\', 'u'] + hex4(v));
            assert(m == 6);
            assert(e0[0] == '\\');
            assert(e0[2] == digit_char((v / 4096) % 16));
            assert(e0[3] == digit_char((v / 256) % 16));
            assert(e0[4] == digit_char((v / 16) % 16));
            assert(e0[5] == digit_char(v % 16));
            assert(s[i] == '\\');
            lemma_digit_char_plain((v / 4096) % 16);
            lemma_digit_char_plain((v / 256) % 16);
            lemma_digit_char_plain((v / 16) % 16);
            lemma_digit_char_plain(v % 16);
            assert(s[i + 2] != '"' && s[i + 2] != '\\');
            assert(s[i + 3] != '"' && s[i + 3] != '\\');
            assert(s[i + 4] != '"' && s[i + 4] != '\\');
            assert(s[i + 5] != '"' && s[i + 5] != '\\');
            assert(string_end(s, i + 5) == string_end(s, i + 6));
            assert(string_end(s, i + 4) == string_end(s, i + 5));
            assert(string_end(s, i + 3) == string_end(s, i + 4));
            assert(string_end(s, i + 2) == string_end(s, i + 3));
        } else {
            assert(e0 == seq![c]);
            assert(m == 1);
            assert(e0[0] == c);
            assert(s[i] == c);
        }
    }
}

/// A string literal as `quoted` writes it reads back as its text.
proof fn lemma_parse_quoted(s: Seq<char>, i: int, t: Seq<char>)
    requires
        0 <= i,
        i + quoted(t).len() <= s.len(),
        s.subrange(i, i + quoted(t).len()) == quoted(t),
    ensures
        parse_string(s, i) == Some((t, i + quoted(t).len())),
{
    let n = escaped(t).len() as int;
    assert(quoted(t).len() == n + 2);
    assert(s[i] == quoted(t)[0]);
    assert(s[i + n + 1] == quoted(t)[n + 1]);
    assert(s.subrange(i + 1, i + 1 + n) =~= escaped(t)) by {
        assert forall|k: int| 0 <= k < n implies s.subrange(i + 1, i + 1 + n)[k] == escaped(t)[k] by {
            assert(s.subrange(i, i + n + 2)[k + 1] == s[i + 1 + k]);
            assert(quoted(t)[k + 1] == escaped(t)[k]);
        }
    }
    lemma_string_end(s, i + 1, t);
    lemma_unescape_escaped_then(t, seq![]);
    assert(escaped(t) + seq![] =~= escaped(t));
    assert(t + unescape(seq![]) =~= t);
}

/// `t` stands in `s` at `i`.
pub open spec fn placed(s: Seq<char>, i: int, t: Seq<char>) -> bool {
    0 <= i && i + t.len() <= s.len() && s.subrange(i, i + t.len()) == t
}

/// What stands at `i` stands there character by character.
proof fn lemma_placed_at(s: Seq<char>, i: int, t: Seq<char>)
    requires
        placed(s, i, t),
    ensures
        forall|k: int| 0 <= k < t.len() ==> #[trigger] s[i + k] == t[k],
{
    assert forall|k: int| 0 <= k < t.len() implies #[trigger] s[i + k] == t[k] by {
        assert(s.subrange(i, i + t.len())[k] == s[i + k]);
    }
}

/// Two texts placed one after the other.
proof fn lemma_placed_split(s: Seq<char>, i: int, a: Seq<char>, b: Seq<char>)
    requires
        placed(s, i, a + b),
    ensures
        placed(s, i, a),
        placed(s, i + a.len(), b),
{
    lemma_placed_at(s, i, a + b);
    assert(s.subrange(i, i + a.len()) =~= a) by {
        assert forall|k: int| 0 <= k < a.len() implies s.subrange(i, i + a.len())[k] == a[k] by {
            assert(s[i + k] == (a + b)[k]);
        }
    }
    assert(s.subrange(i + a.len(), i + a.len() + b.len()) =~= b) by {
        assert forall|k: int| 0 <= k < b.len() implies s.subrange(
            i + a.len(),
            i + a.len() + b.len(),
        )[k] == b[k] by {
            assert(s[i + (a.len() + k)] == (a + b)[a.len() + k]);
        }
    }
}

/// Indentation is spaces.
proof fn lemma_indentation_layout(n: nat)
    ensures
        forall|k: int| 0 <= k < indentation(n).len() ==> is_layout(#[trigger] indentation(n)[k]),
    decreases n,
{
    if n > 0 {
        lemma_indentation_layout((n - 1) as nat);
        let a = indentation((n - 1) as nat);
        assert forall|k: int| 0 <= k < indentation(n).len() implies is_layout(#[trigger] indentation(n)[k]) by {
            if k < a.len() {
                assert(indentation(n)[k] == a[k]);
            }
        }
    }
}

/// Parsing a value after a run of layout is parsing it where the run ends.
proof fn lemma_parse_after_layout(s: Seq<char>, p: int, q: int)
    requires
        0 <= p <= q <= s.len(),
        forall|k: int| p <= k < q ==> is_layout(#[trigger] s[k]),
    ensures
        skip_layout(s, p) == skip_layout(s, q),
        parse_value(s, p) == parse_value(s, q),
    decreases q - p,
{
    if p < q {
        lemma_parse_after_layout(s, p + 1, q);
    }
    lemma_skip_layout_ge(s, q);
}

/// Skipping layout never goes back.
proof fn lemma_skip_layout_ge(s: Seq<char>, i: int)
    ensures
        skip_layout(s, i) >= i,
    decreases s.len() - i,
{
    if 0 <= i < s.len() && is_layout(s[i]) {
        lemma_skip_layout_ge(s, i + 1);
    }
}

/// The text of the first `k` elements is the start of the text of the
/// first `m`.
proof fn lemma_items_prefix(v: JsonValue, pretty: bool, indent: nat, k: nat, m: nat)
    requires
        k <= m,
        v is Array ==> m <= v->Array_0@.len(),
        v is Object ==> m <= v->Object_0@.len(),
    ensures
        items_text(v, pretty, indent, m) == items_text(v, pretty, indent, k) + items_text(
            v,
            pretty,
            indent,
            m,
        ).subrange(items_text(v, pretty, indent, k).len() as int, items_text(v, pretty, indent, m).len() as int),
    decreases m - k,
{
    let a = items_text(v, pretty, indent, k);
    let b = items_text(v, pretty, indent, m);
    if k < m {
        lemma_items_prefix(v, pretty, indent, k, (m - 1) as nat);
        let c = items_text(v, pretty, indent, (m - 1) as nat);
        assert(b.len() >= c.len());
        assert(b.subrange(0, c.len() as int) =~= c);
        assert(c =~= a + c.subrange(a.len() as int, c.len() as int));
    }
    assert(b =~= a + b.subrange(a.len() as int, b.len() as int));
}

/// Every number in the value is made of number characters, and none is
/// empty; JSON number literals are such.
pub open spec fn numbers_ok(v: JsonValue) -> bool
    decreases v,
{
    match v {
        JsonValue::Number(n) => n@.len() > 0 && forall|k: int|
            0 <= k < n@.len() ==> is_number_char(#[trigger] n@[k]),
        JsonValue::Array(vs) => forall|k: int| 0 <= k < vs@.len() ==> numbers_ok(#[trigger] vs@[k]),
        JsonValue::Object(fs) => forall|k: int|
            0 <= k < fs@.len() ==> numbers_ok(#[trigger] fs@[k].1),
        _ => true,
    }
}

/// A value's text is not empty and starts with a character that opens a
/// value: no layout, comma, colon or closing bracket.
proof fn lemma_text_start(v: JsonValue, pretty: bool, indent: nat)
    requires
        numbers_ok(v),
    ensures
        json_text(v, pretty, indent).len() > 0,
        !is_layout(json_text(v, pretty, indent)[0]),
        json_text(v, pretty, indent)[0] != ']',
        json_text(v, pretty, indent)[0] != '}',
{
    let t = json_text(v, pretty, indent);
    match v {
        JsonValue::Null => {
            reveal_strlit("null");
        },
        JsonValue::Bool(b) => {
            reveal_strlit("true");
            reveal_strlit("false");
        },
        JsonValue::Number(n) => {
            assert(is_number_char(n@[0]));
        },
        JsonValue::String(x) => {},
        JsonValue::Array(vs) => {},
        JsonValue::Object(fs) => {},
    }
}

/// The number of elements or members of a container.
pub open spec fn entry_count(v: JsonValue) -> nat {
    match v {
        JsonValue::Array(vs) => vs@.len(),
        JsonValue::Object(fs) => fs@.len(),
        _ => 0,
    }
}

/// Where entry `j` (its indentation first) starts in the text of the
/// container placed at `i`.
pub open spec fn entry_start(v: JsonValue, pretty: bool, indent: nat, i: int, j: nat) -> int {
    i + 1 + open_break(pretty, entry_count(v)).len() + items_text(v, pretty, indent, j).len()
}

/// The indentation of an entry in the indented form.
pub open spec fn entry_indent(pretty: bool, indent: nat) -> Seq<char> {
    if pretty {
        indentation(indent + 1)
    } else {
        seq![]
    }
}

/// A value placed in a text, and followed by no number character, reads
/// back as its tree and ends where its text ends.
#[verifier::rlimit(100)]
pub proof fn lemma_value_reads_back(v: JsonValue, pretty: bool, indent: nat, s: Seq<char>, i: int)
    requires
        numbers_ok(v),
        placed(s, i, json_text(v, pretty, indent)),
        i + json_text(v, pretty, indent).len() == s.len() || !is_number_char(
            s[i + json_text(v, pretty, indent).len()],
        ),
    ensures
        parse_value(s, i) == Some((json_view(v), i + json_text(v, pretty, indent).len())),
    decreases v, 1nat, 0nat,
{
    let t = json_text(v, pretty, indent);
    lemma_placed_at(s, i, t);
    lemma_text_start(v, pretty, indent);
    assert(s[i] == t[0]);
    lemma_skip_layout_run(s, i, i);
    match v {
        JsonValue::Null => {
            reveal_strlit("null");
            assert(word_at(s, i, "null"@));
        },
        JsonValue::Bool(b) => {
            reveal_strlit("true");
            reveal_strlit("false");
            if b {
                assert(word_at(s, i, "true"@));
            } else {
                assert(word_at(s, i, "false"@));
            }
        },
        JsonValue::Number(n) => {
            assert forall|k: int| i <= k < i + t.len() implies is_number_char(#[trigger] s[k]) by {
                assert(s[i + (k - i)] == t[k - i]);
            }
            lemma_number_run(s, i, i + t.len());
            assert(s.subrange(i, i + t.len()) == n@);
        },
        JsonValue::String(x) => {
            lemma_parse_quoted(s, i, x@);
        },
        JsonValue::Array(vs) => {
            lemma_array_reads_back(v, pretty, indent, s, i);
        },
        JsonValue::Object(fs) => {
            lemma_object_reads_back(v, pretty, indent, s, i);
        },
    }
}

/// An array placed in a text reads back as its tree.
#[verifier::rlimit(100)]
proof fn lemma_array_reads_back(v: JsonValue, pretty: bool, indent: nat, s: Seq<char>, i: int)
    requires
        v is Array,
        numbers_ok(v),
        placed(s, i, json_text(v, pretty, indent)),
    ensures
        parse_value(s, i) == Some((json_view(v), i + json_text(v, pretty, indent).len())),
    decreases v, 0nat, entry_count(v) + 1,
{
    let vs = v->Array_0;
    let t = json_text(v, pretty, indent);
    lemma_placed_at(s, i, t);
    lemma_text_start(v, pretty, indent);
    assert(s[i] == t[0]);
    lemma_skip_layout_run(s, i, i);
    let n = vs@.len();
    if n == 0 {
        assert(t =~= seq!['[', ']']);
        assert(s[i + 1] == ']');
        lemma_skip_layout_run(s, i + 1, i + 1);
        assert(elements_view(vs@) =~= Seq::<JsonView>::empty());
    } else {
        let ob = open_break(pretty, n);
        let ind = entry_indent(pretty, indent);
        let body = json_text(vs@[0], pretty, indent + 1);
        let e0 = entry_text(body, pretty, indent, 0 < n - 1);
        assert(items_text(v, pretty, indent, 0) =~= Seq::<char>::empty());
        assert(items_text(v, pretty, indent, 1) =~= e0);
        lemma_items_prefix(v, pretty, indent, 1, n);
        let it_n = items_text(v, pretty, indent, n);
        let rest = e0.subrange((ind + body).len() as int, e0.len() as int) + it_n.subrange(
            e0.len() as int,
            it_n.len() as int,
        ) + close_indent(pretty, indent, n) + seq![']'];
        assert(e0 =~= ind + body + e0.subrange((ind + body).len() as int, e0.len() as int));
        assert(t =~= seq!['['] + ob + ind + body + rest);
        let start = i + 1 + ob.len() + ind.len();
        lemma_placed_split(s, i, seq!['['] + ob + ind + body, rest);
        lemma_placed_split(s, i, seq!['['] + ob + ind, body);
        lemma_placed_at(s, i, seq!['['] + ob + ind);
        lemma_placed_at(s, start, body);
        lemma_indentation_layout(indent + 1);
        lemma_text_start(vs@[0], pretty, indent + 1);
        assert forall|k: int| i + 1 <= k < start implies is_layout(#[trigger] s[k]) by {
            assert(s[i + (k - i)] == (seq!['['] + ob + ind)[k - i]);
            if k - i - 1 < ob.len() {
                assert((seq!['['] + ob + ind)[k - i] == ob[k - i - 1]);
            } else {
                assert((seq!['['] + ob + ind)[k - i] == ind[k - i - 1 - ob.len()]);
            }
        }
        assert(s[start] == body[0]);
        lemma_skip_layout_run(s, i + 1, start);
        assert(entry_start(v, pretty, indent, i, 0) == i + 1 + ob.len());
        assert forall|k: int| i + 1 <= k < entry_start(v, pretty, indent, i, 0) implies is_layout(
            #[trigger] s[k],
        ) by {
            assert(s[i + (k - i)] == (seq!['['] + ob + ind)[k - i]);
            assert((seq!['['] + ob + ind)[k - i] == ob[k - i - 1]);
        }
        assert(vs@.take(0) =~= Seq::<JsonValue>::empty());
        assert(elements_view(vs@.take(0)) =~= Seq::<JsonView>::empty());
        lemma_elements_read_back(v, pretty, indent, s, i, 0, i + 1);
    }
}

/// An object placed in a text reads back as its tree.
#[verifier::rlimit(100)]
proof fn lemma_object_reads_back(v: JsonValue, pretty: bool, indent: nat, s: Seq<char>, i: int)
    requires
        v is Object,
        numbers_ok(v),
        placed(s, i, json_text(v, pretty, indent)),
    ensures
        parse_value(s, i) == Some((json_view(v), i + json_text(v, pretty, indent).len())),
    decreases v, 0nat, entry_count(v) + 1,
{
    let fs = v->Object_0;
    let t = json_text(v, pretty, indent);
    lemma_placed_at(s, i, t);
    lemma_text_start(v, pretty, indent);
    assert(s[i] == t[0]);
    lemma_skip_layout_run(s, i, i);
    let n = fs@.len();
    if n == 0 {
        assert(t =~= seq!['{', '}']);
        assert(s[i + 1] == '}');
        lemma_skip_layout_run(s, i + 1, i + 1);
        assert(members_view(fs@) =~= Seq::<(Seq<char>, JsonView)>::empty());
    } else {
        let ob = open_break(pretty, n);
        let ind = entry_indent(pretty, indent);
        let body = member_body(fs@[0].0@, json_text(fs@[0].1, pretty, indent + 1), pretty);
        let e0 = entry_text(body, pretty, indent, 0 < n - 1);
        assert(items_text(v, pretty, indent, 0) =~= Seq::<char>::empty());
        assert(items_text(v, pretty, indent, 1) =~= e0);
        lemma_items_prefix(v, pretty, indent, 1, n);
        let it_n = items_text(v, pretty, indent, n);
        let rest = e0.subrange((ind + body).len() as int, e0.len() as int) + it_n.subrange(
            e0.len() as int,
            it_n.len() as int,
        ) + close_indent(pretty, indent, n) + seq!['}'];
        assert(e0 =~= ind + body + e0.subrange((ind + body).len() as int, e0.len() as int));
        assert(t =~= seq!['{'] + ob + ind + body + rest);
        let start = i + 1 + ob.len() + ind.len();
        lemma_placed_split(s, i, seq!['{'] + ob + ind + body, rest);
        lemma_placed_split(s, i, seq!['{'] + ob + ind, body);
        lemma_placed_at(s, i, seq!['{'] + ob + ind);
        lemma_placed_at(s, start, body);
        lemma_indentation_layout(indent + 1);
        assert(body[0] == '"');
        assert forall|k: int| i + 1 <= k < start implies is_layout(#[trigger] s[k]) by {
            assert(s[i + (k - i)] == (seq!['{'] + ob + ind)[k - i]);
            if k - i - 1 < ob.len() {
                assert((seq!['{'] + ob + ind)[k - i] == ob[k - i - 1]);
            } else {
                assert((seq!['{'] + ob + ind)[k - i] == ind[k - i - 1 - ob.len()]);
            }
        }
        assert(s[start] == body[0]);
        lemma_skip_layout_run(s, i + 1, start);
        assert(entry_start(v, pretty, indent, i, 0) == i + 1 + ob.len());
        assert forall|k: int| i + 1 <= k < entry_start(v, pretty, indent, i, 0) implies is_layout(
            #[trigger] s[k],
        ) by {
            assert(s[i + (k - i)] == (seq!['{'] + ob + ind)[k - i]);
            assert((seq!['{'] + ob + ind)[k - i] == ob[k - i - 1]);
        }
        assert(fs@.take(0) =~= Seq::<(String, JsonValue)>::empty());
        assert(members_view(fs@.take(0)) =~= Seq::<(Seq<char>, JsonView)>::empty());
        lemma_members_read_back(v, pretty, indent, s, i, 0, i + 1);
    }
}

/// Array elements from entry `j` on read back as the rest of the array,
/// when parsing resumes before entry `j` with only layout in between.
#[verifier::rlimit(100)]
proof fn lemma_elements_read_back(
    v: JsonValue,
    pretty: bool,
    indent: nat,
    s: Seq<char>,
    i: int,
    j: nat,
    p: int,
)
    requires
        v is Array,
        numbers_ok(v),
        j < entry_count(v),
        placed(s, i, json_text(v, pretty, indent)),
        i < p <= entry_start(v, pretty, indent, i, j),
        forall|k: int| p <= k < entry_start(v, pretty, indent, i, j) ==> is_layout(#[trigger] s[k]),
    ensures
        parse_elements(s, p, elements_view(v->Array_0@.take(j as int))) == Some(
            (json_view(v), i + json_text(v, pretty, indent).len()),
        ),
    decreases v, 0nat, entry_count(v) - j,
{
    let vs = v->Array_0@;
    let n = vs.len();
    let t = json_text(v, pretty, indent);
    let ob = open_break(pretty, n);
    let ci = close_indent(pretty, indent, n);
    let it_n = items_text(v, pretty, indent, n);
    let it_j = items_text(v, pretty, indent, j);
    let child = vs[j as int];
    let body = json_text(child, pretty, indent + 1);
    let more = j + 1 < n;
    let ind = entry_indent(pretty, indent);
    let comma: Seq<char> = if more {
        seq![',']
    } else {
        seq![]
    };
    let nl: Seq<char> = if pretty {
        seq!['\n']
    } else {
        seq![]
    };
    let e_j = entry_text(body, pretty, indent, more);
    assert(e_j =~= ind + body + comma + nl);
    let it_j1 = items_text(v, pretty, indent, j + 1);
    assert(it_j1 == it_j + e_j);
    lemma_items_prefix(v, pretty, indent, j + 1, n);
    let tail = it_n.subrange(it_j1.len() as int, it_n.len() as int);
    assert(t == seq!['['] + ob + it_n + ci + seq![']']);
    let a = seq!['['] + ob + it_j + ind;
    let b = comma + nl + tail + ci + seq![']'];
    assert(t =~= a + body + b);
    lemma_placed_split(s, i, a + body, b);
    lemma_placed_split(s, i, a, body);
    lemma_placed_at(s, i, a);
    let start = i + a.len();
    let e = start + body.len();
    lemma_placed_at(s, e, b);
    assert(numbers_ok(child));
    lemma_text_start(child, pretty, indent + 1);
    assert(s[e] == b[0]);
    assert(!is_number_char(b[0]));
    lemma_value_reads_back(child, pretty, indent + 1, s, start);
    lemma_indentation_layout(indent + 1);
    let es = entry_start(v, pretty, indent, i, j);
    assert(es == i + 1 + ob.len() + it_j.len());
    assert forall|k: int| p <= k < start implies is_layout(#[trigger] s[k]) by {
        if k >= es {
            assert(s[i + (k - i)] == a[k - i]);
            assert(a[k - i] == ind[k - es]);
        }
    }
    lemma_parse_after_layout(s, p, start);
    let acc = elements_view(vs.take(j as int));
    assert(vs.take(j + 1int).drop_last() =~= vs.take(j as int));
    assert(elements_view(vs.take(j + 1int)) == acc.push(json_view(child)));
    if more {
        assert(b[0] == ',');
        lemma_skip_layout_run(s, e, e);
        let es1 = entry_start(v, pretty, indent, i, j + 1);
        assert(es1 == e + 1 + nl.len());
        assert forall|k: int| e + 1 <= k < es1 implies is_layout(#[trigger] s[k]) by {
            assert(s[e + (k - e)] == b[k - e]);
            assert(b[k - e] == nl[k - e - 1]);
        }
        lemma_elements_read_back(v, pretty, indent, s, i, j + 1, e + 1);
    } else {
        assert(j + 1 == n);
        assert(tail =~= Seq::<char>::empty());
        let close = e + nl.len() + ci.len();
        assert(close == i + t.len() - 1);
        lemma_indentation_layout(indent);
        assert forall|k: int| e <= k < close implies is_layout(#[trigger] s[k]) by {
            assert(s[e + (k - e)] == b[k - e]);
            if k - e < nl.len() {
                assert(b[k - e] == nl[k - e]);
            } else {
                assert(b[k - e] == ci[k - e - nl.len()]);
            }
        }
        assert(s[e + (close - e)] == b[close - e]);
        assert(s[close] == ']');
        lemma_skip_layout_run(s, e, close);
        assert(vs.take(j + 1int) =~= vs);
    }
}

/// Where the key of member `j` starts.
pub open spec fn member_key_start(v: JsonValue, pretty: bool, indent: nat, i: int, j: nat) -> int {
    entry_start(v, pretty, indent, i, j) + entry_indent(pretty, indent).len()
}

/// Where the value of member `j` starts.
pub open spec fn member_value_start(v: JsonValue, pretty: bool, indent: nat, i: int, j: nat) -> int {
    member_key_start(v, pretty, indent, i, j) + quoted(v->Object_0@[j as int].0@).len() + 1 + (if pretty {
        1int
    } else {
        0int
    })
}

/// Where the value of member `j` ends.
pub open spec fn member_end(v: JsonValue, pretty: bool, indent: nat, i: int, j: nat) -> int {
    member_value_start(v, pretty, indent, i, j) + json_text(v->Object_0@[j as int].1, pretty, indent + 1).len()
}

/// The text of an object up to the key of member `j`.
pub open spec fn member_prefix(v: JsonValue, pretty: bool, indent: nat, j: nat) -> Seq<char> {
    seq!['{'] + open_break(pretty, entry_count(v)) + items_text(v, pretty, indent, j) + entry_indent(
        pretty,
        indent,
    )
}

/// A colon, and a space in the indented form.
pub open spec fn colon_text(pretty: bool) -> Seq<char> {
    seq![':'] + (if pretty {
        seq![' ']
    } else {
        seq![]
    })
}

/// The text of an object after the value of member `j`.
pub open spec fn member_suffix(v: JsonValue, pretty: bool, indent: nat, j: nat) -> Seq<char> {
    let n = entry_count(v);
    let it_n = items_text(v, pretty, indent, n);
    (if j + 1 < n {
        seq![',']
    } else {
        seq![]
    }) + (if pretty {
        seq!['\n']
    } else {
        seq![]
    }) + it_n.subrange(items_text(v, pretty, indent, j + 1).len() as int, it_n.len() as int)
        + close_indent(pretty, indent, n) + seq!['}']
}

/// The text of an object around member `j`.
#[verifier::rlimit(100)]
proof fn lemma_member_text(v: JsonValue, pretty: bool, indent: nat, j: nat)
    requires
        v is Object,
        j < entry_count(v),
    ensures
        json_text(v, pretty, indent) == member_prefix(v, pretty, indent, j) + quoted(
            v->Object_0@[j as int].0@,
        ) + colon_text(pretty) + json_text(v->Object_0@[j as int].1, pretty, indent + 1)
            + member_suffix(v, pretty, indent, j),
{
    let fs = v->Object_0@;
    let n = fs.len();
    let key = fs[j as int].0@;
    let vt = json_text(fs[j as int].1, pretty, indent + 1);
    let body = member_body(key, vt, pretty);
    assert(body =~= quoted(key) + colon_text(pretty) + vt);
    let it_j = items_text(v, pretty, indent, j);
    let it_j1 = items_text(v, pretty, indent, j + 1);
    let e_j = entry_text(body, pretty, indent, j + 1 < n);
    assert(it_j1 == it_j + e_j);
    lemma_items_prefix(v, pretty, indent, j + 1, n);
    assert(json_text(v, pretty, indent) =~= member_prefix(v, pretty, indent, j) + quoted(key)
        + colon_text(pretty) + vt + member_suffix(v, pretty, indent, j));
}

/// How member `j` of an object placed at `i` lies in the text: layout, the
/// quoted key, a colon, layout, the value, then a comma and layout before
/// the next member, or layout and the closing brace after the last.
#[verifier::rlimit(100)]
proof fn lemma_member_parts(v: JsonValue, pretty: bool, indent: nat, s: Seq<char>, i: int, j: nat)
    requires
        v is Object,
        numbers_ok(v),
        j < entry_count(v),
        placed(s, i, json_text(v, pretty, indent)),
    ensures
        ({
            let fs = v->Object_0@;
            let es = entry_start(v, pretty, indent, i, j);
            let ks = member_key_start(v, pretty, indent, i, j);
            let colon = ks + quoted(fs[j as int].0@).len();
            let vs = member_value_start(v, pretty, indent, i, j);
            let e = member_end(v, pretty, indent, i, j);
            let last = i + json_text(v, pretty, indent).len() - 1;
            &&& es <= ks
            &&& (forall|k: int| es <= k < ks ==> is_layout(#[trigger] s[k]))
            &&& placed(s, ks, quoted(fs[j as int].0@))
            &&& s[colon] == ':'
            &&& colon < vs
            &&& (forall|k: int| colon + 1 <= k < vs ==> is_layout(#[trigger] s[k]))
            &&& placed(s, vs, json_text(fs[j as int].1, pretty, indent + 1))
            &&& e < s.len()
            &&& !is_number_char(s[e])
            &&& (j + 1 < entry_count(v) ==> {
                &&& s[e] == ','
                &&& e + 1 <= entry_start(v, pretty, indent, i, j + 1)
                &&& forall|k: int|
                    e + 1 <= k < entry_start(v, pretty, indent, i, j + 1) ==> is_layout(#[trigger] s[k])
            })
            &&& (j + 1 == entry_count(v) ==> {
                &&& e <= last
                &&& s[last] == '}'
                &&& forall|k: int| e <= k < last ==> is_layout(#[trigger] s[k])
            })
        }),
{
    let fs = v->Object_0@;
    let n = fs.len();
    let t = json_text(v, pretty, indent);
    let key = fs[j as int].0@;
    let vt = json_text(fs[j as int].1, pretty, indent + 1);
    let q = quoted(key);
    let a = member_prefix(v, pretty, indent, j);
    let mid = colon_text(pretty);
    let b = member_suffix(v, pretty, indent, j);
    lemma_member_text(v, pretty, indent, j);
    lemma_placed_split(s, i, a + q + mid + vt, b);
    lemma_placed_split(s, i, a + q + mid, vt);
    lemma_placed_split(s, i, a + q, mid);
    lemma_placed_split(s, i, a, q);
    let ob = open_break(pretty, n);
    let ind = entry_indent(pretty, indent);
    let it_j = items_text(v, pretty, indent, j);
    let ci = close_indent(pretty, indent, n);
    let nl: Seq<char> = if pretty {
        seq!['\n']
    } else {
        seq![]
    };
    let start = i + a.len();
    let colon = start + q.len();
    let vstart = colon + mid.len();
    let e = vstart + vt.len();
    lemma_placed_at(s, i, a);
    lemma_placed_at(s, colon, mid);
    lemma_placed_at(s, e, b);
    assert(s[colon + 0] == mid[0]);
    assert(s[e + 0] == b[0]);
    lemma_indentation_layout(indent + 1);
    lemma_indentation_layout(indent);
    let es = entry_start(v, pretty, indent, i, j);
    assert forall|k: int| es <= k < start implies is_layout(#[trigger] s[k]) by {
        assert(s[i + (k - i)] == a[k - i]);
        assert(a[k - i] == ind[k - es]);
    }
    assert forall|k: int| colon + 1 <= k < vstart implies is_layout(#[trigger] s[k]) by {
        assert(s[colon + (k - colon)] == mid[k - colon]);
    }
    if j + 1 < n {
        let es1 = entry_start(v, pretty, indent, i, j + 1);
        let it_j1 = items_text(v, pretty, indent, j + 1);
        let body = member_body(key, vt, pretty);
        assert(body =~= q + mid + vt);
        assert(it_j1 == it_j + entry_text(body, pretty, indent, true));
        assert(es1 == e + 1 + nl.len());
        assert forall|k: int| e + 1 <= k < es1 implies is_layout(#[trigger] s[k]) by {
            assert(s[e + (k - e)] == b[k - e]);
            assert(b[k - e] == nl[k - e - 1]);
        }
    } else {
        let it_n = items_text(v, pretty, indent, n);
        assert(it_n.subrange(it_n.len() as int, it_n.len() as int) =~= Seq::<char>::empty());
        let close = e + nl.len() + ci.len();
        assert(b =~= nl + ci + seq!['}']);
        assert(close == i + t.len() - 1);
        assert forall|k: int| e <= k < close implies is_layout(#[trigger] s[k]) by {
            assert(s[e + (k - e)] == b[k - e]);
            if k - e < nl.len() {
                assert(b[k - e] == nl[k - e]);
            } else {
                assert(b[k - e] == ci[k - e - nl.len()]);
            }
        }
        assert(s[e + (close - e)] == b[close - e]);
    }
}

/// Object members from entry `j` on read back as the rest of the object,
/// when parsing resumes before entry `j` with only layout in between.
#[verifier::rlimit(100)]
proof fn lemma_members_read_back(
    v: JsonValue,
    pretty: bool,
    indent: nat,
    s: Seq<char>,
    i: int,
    j: nat,
    p: int,
)
    requires
        v is Object,
        numbers_ok(v),
        j < entry_count(v),
        placed(s, i, json_text(v, pretty, indent)),
        i < p <= entry_start(v, pretty, indent, i, j),
        forall|k: int| p <= k < entry_start(v, pretty, indent, i, j) ==> is_layout(#[trigger] s[k]),
    ensures
        parse_members(s, p, members_view(v->Object_0@.take(j as int))) == Some(
            (json_view(v), i + json_text(v, pretty, indent).len()),
        ),
    decreases v, 0nat, entry_count(v) - j,
{
    let fs = v->Object_0@;
    let n = fs.len();
    let key = fs[j as int].0@;
    let child = fs[j as int].1;
    lemma_member_parts(v, pretty, indent, s, i, j);
    let es = entry_start(v, pretty, indent, i, j);
    let ks = member_key_start(v, pretty, indent, i, j);
    let colon = ks + quoted(key).len();
    let vstart = member_value_start(v, pretty, indent, i, j);
    let e = member_end(v, pretty, indent, i, j);
    assert(numbers_ok(child));
    lemma_value_reads_back(child, pretty, indent + 1, s, vstart);
    lemma_parse_quoted(s, ks, key);
    lemma_placed_at(s, ks, quoted(key));
    assert(s[ks + 0] == quoted(key)[0]);
    lemma_skip_layout_run(s, p, ks);
    lemma_skip_layout_run(s, colon, colon);
    lemma_parse_after_layout(s, colon + 1, vstart);
    lemma_text_start(child, pretty, indent + 1);
    let acc = members_view(fs.take(j as int));
    assert(fs.take(j + 1int).drop_last() =~= fs.take(j as int));
    assert(members_view(fs.take(j + 1int)) == acc.push((key, json_view(child))));
    if j + 1 < n {
        lemma_skip_layout_run(s, e, e);
        lemma_members_read_back(v, pretty, indent, s, i, j + 1, e + 1);
    } else {
        lemma_skip_layout_run(s, e, i + json_text(v, pretty, indent).len() - 1);
        assert(fs.take(j + 1int) =~= fs);
    }
}

/// A value rendered as JSON text, compact or indented, reads back as the
/// same tree (strings as their characters, numbers as their digits,
/// members in their order), provided each number is written with number
/// characters; so both renderings read back as one tree.
pub proof fn lemma_render_reads_back(v: JsonValue)
    requires
        numbers_ok(v),
    ensures
        parse_json(json_text(v, false, 0)) == Some(json_view(v)),
        parse_json(json_text(v, true, 0)) == Some(json_view(v)),
{
    let compact = json_text(v, false, 0);
    let pretty = json_text(v, true, 0);
    assert(compact.subrange(0, compact.len() as int) =~= compact);
    assert(pretty.subrange(0, pretty.len() as int) =~= pretty);
    lemma_value_reads_back(v, false, 0, compact, 0);
    lemma_value_reads_back(v, true, 0, pretty, 0);
    lemma_skip_layout_run(compact, compact.len() as int, compact.len() as int);
    lemma_skip_layout_run(pretty, pretty.len() as int, pretty.len() as int);
}

} // verus!
