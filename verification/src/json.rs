//! JSON documents: a small value type and its compact and indented
//! renderings, with the string escaping the output relies on.

use vstd::prelude::*;

use crate::parse::{digit_value, lemma_digit_value_of_digit_char};
use crate::text::{
    chars_vec, decimal, decimal_string, digit_char, digit_char_exec, push_char, signed_decimal,
    signed_decimal_string, string_of,
};

verus! {

/// A JSON value; numbers are kept as their printed digits.
#[derive(Debug, PartialEq, Eq)]
pub enum JsonValue {
    Null,
    Bool(bool),
    Number(String),
    String(String),
    Array(Vec<JsonValue>),
    Object(Vec<(String, JsonValue)>),
}

/// Nesting depth of a value.
pub open spec fn json_depth(v: JsonValue) -> nat
    decreases v, 1nat, 0nat,
{
    match v {
        JsonValue::Array(vs) => 1 + items_depth(v, vs@.len()),
        JsonValue::Object(fs) => 1 + items_depth(v, fs@.len()),
        _ => 0,
    }
}

/// Largest depth among the first `k` children.
pub open spec fn items_depth(v: JsonValue, k: nat) -> nat
    decreases v, 0nat, k,
{
    match v {
        JsonValue::Array(vs) => if k == 0 || k > vs@.len() {
            0
        } else {
            let d = json_depth(vs@[k - 1]);
            let rest = items_depth(v, (k - 1) as nat);
            if d > rest { d } else { rest }
        },
        JsonValue::Object(fs) => if k == 0 || k > fs@.len() {
            0
        } else {
            let d = json_depth(fs@[k - 1].1);
            let rest = items_depth(v, (k - 1) as nat);
            if d > rest { d } else { rest }
        },
        _ => 0,
    }
}

/// `n` levels of two-space indentation.
pub open spec fn indentation(n: nat) -> Seq<char>
    decreases n,
{
    if n == 0 {
        seq![]
    } else {
        indentation((n - 1) as nat) + seq![' ', ' ']
    }
}

/// Four lower-case hexadecimal digits of `n`, zero-padded.
pub open spec fn hex4(n: nat) -> Seq<char> {
    seq![
        digit_char((n / 4096) % 16),
        digit_char((n / 256) % 16),
        digit_char((n / 16) % 16),
        digit_char(n % 16),
    ]
}

/// The control characters: U+0000 to U+001F and U+007F to U+009F.
pub open spec fn is_control(c: char) -> bool {
    (c as u32) <= 0x1f || (0x7f <= (c as u32) && (c as u32) <= 0x9f)
}

/// How one character appears inside a JSON string literal.
pub open spec fn escape_char(c: char) -> Seq<char> {
    if c == '"' {
        seq!['\\', '"']
    } else if c == '\\' {
        seq!['\\', '\\']
    } else if c == '\n' {
        seq!['\\', 'n']
    } else if c == '\r' {
        seq!['\\', 'r']
    } else if c == '\t' {
        seq!['\\', 't']
    } else if c == '\u{08}' {
        seq!['\\', 'b']
    } else if c == '\u{0c}' {
        seq!['\\', 'f']
    } else if is_control(c) {
        seq!['\\', 'u'] + hex4(c as nat)
    } else {
        seq![c]
    }
}

/// The characters of `s`, each escaped.
pub open spec fn escaped(s: Seq<char>) -> Seq<char>
    decreases s.len(),
{
    if s.len() == 0 {
        seq![]
    } else {
        escaped(s.drop_last()) + escape_char(s.last())
    }
}

/// `s` as a JSON string literal.
pub open spec fn quoted(s: Seq<char>) -> Seq<char> {
    seq!['"'] + escaped(s) + seq!['"']
}

/// Escaping leaves no control character in a JSON string literal.
pub proof fn lemma_escaped_has_no_control(s: Seq<char>)
    ensures
        forall|i: int| 0 <= i < escaped(s).len() ==> !is_control(#[trigger] escaped(s)[i]),
    decreases s.len(),
{
    if s.len() > 0 {
        lemma_escaped_has_no_control(s.drop_last());
        let c = s.last();
        let e = escape_char(c);
        let n = c as nat;
        assert forall|i: int| 0 <= i < e.len() implies !is_control(#[trigger] e[i]) by {
            if is_control(c) && c != '"' && c != '\\' && c != '\n' && c != '\r' && c != '\t'
                && c != '\u{08}' && c != '\u{0c}' {
                assert(e == seq!['\\', 'u'] + hex4(n));
                if i >= 2 {
                    let d: nat = if i == 2 {
                        (n / 4096) % 16
                    } else if i == 3 {
                        (n / 256) % 16
                    } else if i == 4 {
                        (n / 16) % 16
                    } else {
                        n % 16
                    };
                    assert(e[i] == digit_char(d));
                }
            }
        }
        let prefix = escaped(s.drop_last());
        assert forall|i: int| 0 <= i < escaped(s).len() implies !is_control(#[trigger] escaped(s)[i]) by {
            if i < prefix.len() {
                assert(escaped(s)[i] == prefix[i]);
            } else {
                assert(escaped(s)[i] == e[i - prefix.len()]);
            }
        }
    }
}

/// The value of a hexadecimal digit, zero for any other character.
pub open spec fn hex_digit_value(c: char) -> int {
    match digit_value(c, 16) {
        Some(d) => d as int,
        None => 0,
    }
}

/// The value of the four hexadecimal digits at the start of `h`.
pub open spec fn hex4_value(h: Seq<char>) -> int {
    hex_digit_value(h[0]) * 4096 + hex_digit_value(h[1]) * 256 + hex_digit_value(h[2]) * 16
        + hex_digit_value(h[3])
}

/// The character a one-letter escape stands for (`\n`, `\r`, `\t`, `\b`,
/// `\f`; any other letter, such as `"` or `\`, stands for itself).
pub open spec fn unescaped_char(e: char) -> char {
    if e == 'n' {
        '\n'
    } else if e == 'r' {
        '\r'
    } else if e == 't' {
        '\t'
    } else if e == 'b' {
        '\u{08}'
    } else if e == 'f' {
        '\u{0c}'
    } else {
        e
    }
}

/// The code point of a character.
pub open spec fn char_code(c: char) -> int {
    c as int
}

/// Reads the body of a JSON string literal: escape sequences become the
/// characters they stand for, every other character stands for itself.
pub open spec fn unescape(t: Seq<char>) -> Seq<char>
    decreases t.len(),
{
    if t.len() == 0 {
        seq![]
    } else if t[0] == '\\' && t.len() >= 6 && t[1] == 'u' {
        seq![choose|c: char| #[trigger] char_code(c) == hex4_value(t.subrange(2, 6))] + unescape(
            t.skip(6),
        )
    } else if t[0] == '\\' && t.len() >= 2 {
        seq![unescaped_char(t[1])] + unescape(t.skip(2))
    } else {
        seq![t[0]] + unescape(t.skip(1))
    }
}

/// Escaping works character by character from the front too.
pub(crate) proof fn lemma_escaped_front(s: Seq<char>)
    requires
        s.len() > 0,
    ensures
        escaped(s) == escape_char(s[0]) + escaped(s.drop_first()),
    decreases s.len(),
{
    if s.len() > 1 {
        lemma_escaped_front(s.drop_last());
        assert(s.drop_last().drop_first() =~= s.drop_first().drop_last());
        assert(s.drop_first().last() == s.last());
        assert(s.drop_last()[0] == s[0]);
    } else {
        assert(s.drop_last() =~= Seq::<char>::empty());
        assert(s.drop_first() =~= Seq::<char>::empty());
    }
}

/// Reading back one escaped character, then the rest.
proof fn lemma_unescape_char(c: char, t: Seq<char>)
    ensures
        unescape(escape_char(c) + t) == seq![c] + unescape(t),
{
    let e = escape_char(c);
    let u = e + t;
    if c == '"' || c == '\\' || c == '\n' || c == '\r' || c == '\t' || c == '\u{08}' || c == '\u{0c}' {
        assert(u.skip(2) =~= t);
        assert(u[0] == '\\' && u[1] != 'u');
    } else if is_control(c) {
        let n = c as nat;
        assert(n < 256) by {
            assert((c as u32) <= 0x9f);
        }
        assert(n / 4096 == 0 && n / 256 == 0) by (nonlinear_arith)
            requires
                n < 256,
        ;
        assert((n / 16) % 16 == n / 16 && (n / 16) * 16 + n % 16 == n) by (nonlinear_arith)
            requires
                n < 256,
        ;
        assert(n % 16 < 16 && n / 16 < 16) by (nonlinear_arith)
            requires
                n < 256,
        ;
        lemma_digit_value_of_digit_char(0, 16);
        lemma_digit_value_of_digit_char(n / 16, 16);
        lemma_digit_value_of_digit_char(n % 16, 16);
        assert(e == seq!['\\', 'u'] + hex4(n));
        assert(u.subrange(2, 6) =~= hex4(n));
        assert(hex4_value(u.subrange(2, 6)) == n);
        assert(char_code(c) == hex4_value(u.subrange(2, 6)));
        let d = choose|d: char| #[trigger] char_code(d) == hex4_value(u.subrange(2, 6));
        assert(d as int == c as int);
        assert(u.skip(6) =~= t);
    } else {
        assert(u.skip(1) =~= t);
    }
}

/// Reading back an escaped text, then the rest.
pub(crate) proof fn lemma_unescape_escaped_then(s: Seq<char>, t: Seq<char>)
    ensures
        unescape(escaped(s) + t) == s + unescape(t),
    decreases s.len(),
{
    if s.len() == 0 {
        assert(escaped(s) + t =~= t);
        assert(s + unescape(t) =~= unescape(t));
    } else {
        lemma_escaped_front(s);
        lemma_unescape_escaped_then(s.drop_first(), t);
        lemma_unescape_char(s[0], escaped(s.drop_first()) + t);
        assert(escaped(s) + t =~= escape_char(s[0]) + (escaped(s.drop_first()) + t));
        assert(s =~= seq![s[0]] + s.drop_first());
    }
}

/// A JSON string literal reads back as the text it was written from: the
/// characters between its quotes, unescaped, are the text.
pub proof fn lemma_string_literal_reads_back(s: Seq<char>)
    ensures
        unescape(quoted(s).subrange(1, quoted(s).len() - 1)) == s,
{
    lemma_unescape_escaped_then(s, seq![]);
    assert(quoted(s).subrange(1, quoted(s).len() - 1) =~= escaped(s) + seq![]);
    assert(s + unescape(seq![]) =~= s);
}

/// A text with no quote, backslash or control character is written as it
/// is.
pub proof fn lemma_plain_text_unescaped(s: Seq<char>)
    requires
        forall|i: int|
            0 <= i < s.len() ==> #[trigger] s[i] != '"' && s[i] != '\\' && !is_control(s[i]),
    ensures
        escaped(s) == s,
    decreases s.len(),
{
    if s.len() > 0 {
        lemma_plain_text_unescaped(s.drop_last());
        assert(s.last() == s[s.len() - 1]);
        assert(s.drop_last().push(s.last()) =~= s);
    }
}

/// A line break after an opening bracket, in the indented form of a
/// non-empty container.
pub open spec fn open_break(pretty: bool, len: nat) -> Seq<char> {
    if pretty && len > 0 {
        seq!['\n']
    } else {
        seq![]
    }
}

/// The indentation before a closing bracket, in the indented form of a
/// non-empty container.
pub open spec fn close_indent(pretty: bool, indent: nat, len: nat) -> Seq<char> {
    if pretty && len > 0 {
        indentation(indent)
    } else {
        seq![]
    }
}

/// One element of a container at depth `indent`: indented in the pretty
/// form, followed by a comma unless it is the last, and by a line break in
/// the pretty form.
pub open spec fn entry_text(body: Seq<char>, pretty: bool, indent: nat, more: bool) -> Seq<char> {
    (if pretty {
        indentation(indent + 1)
    } else {
        seq![]
    }) + body + (if more {
        seq![',']
    } else {
        seq![]
    }) + (if pretty {
        seq!['\n']
    } else {
        seq![]
    })
}

/// A member's key and value: the quoted key, a colon (and a space in the
/// pretty form), then the value.
pub open spec fn member_body(key: Seq<char>, value: Seq<char>, pretty: bool) -> Seq<char> {
    quoted(key) + seq![':'] + (if pretty {
        seq![' ']
    } else {
        seq![]
    }) + value
}

/// The rendering of a value at nesting level `indent`; compact, or with
/// two-space indentation and one element per line when `pretty`.
pub open spec fn json_text(v: JsonValue, pretty: bool, indent: nat) -> Seq<char>
    decreases v, 1nat, 0nat,
{
    match v {
        JsonValue::Null => "null"@,
        JsonValue::Bool(b) => if b {
            "true"@
        } else {
            "false"@
        },
        JsonValue::Number(n) => n@,
        JsonValue::String(s) => quoted(s@),
        JsonValue::Array(vs) => seq!['['] + open_break(pretty, vs@.len()) + items_text(
            v,
            pretty,
            indent,
            vs@.len(),
        ) + close_indent(pretty, indent, vs@.len()) + seq![']'],
        JsonValue::Object(fs) => seq!['{'] + open_break(pretty, fs@.len()) + items_text(
            v,
            pretty,
            indent,
            fs@.len(),
        ) + close_indent(pretty, indent, fs@.len()) + seq!['}'],
    }
}

/// The rendering of the first `k` elements (or members) of a container.
pub open spec fn items_text(v: JsonValue, pretty: bool, indent: nat, k: nat) -> Seq<char>
    decreases v, 0nat, k,
{
    match v {
        JsonValue::Array(vs) => if k == 0 || k > vs@.len() {
            seq![]
        } else {
            items_text(v, pretty, indent, (k - 1) as nat) + entry_text(
                json_text(vs@[k - 1], pretty, indent + 1),
                pretty,
                indent,
                k < vs@.len(),
            )
        },
        JsonValue::Object(fs) => if k == 0 || k > fs@.len() {
            seq![]
        } else {
            items_text(v, pretty, indent, (k - 1) as nat) + entry_text(
                member_body(fs@[k - 1].0@, json_text(fs@[k - 1].1, pretty, indent + 1), pretty),
                pretty,
                indent,
                k < fs@.len(),
            )
        },
        _ => seq![],
    }
}

/// A child of a container is no deeper than the container's deepest child.
pub proof fn lemma_child_depth(v: JsonValue, k: nat, i: int)
    requires
        0 <= i < k,
        v is Array ==> k <= v->Array_0@.len(),
        v is Object ==> k <= v->Object_0@.len(),
    ensures
        v is Array ==> json_depth(v->Array_0@[i]) <= items_depth(v, k),
        v is Object ==> json_depth(v->Object_0@[i].1) <= items_depth(v, k),
    decreases k,
{
    if i < k - 1 {
        lemma_child_depth(v, (k - 1) as nat, i);
    }
}

/// Appends `indent` levels of indentation.
fn push_indent(out: &mut String, indent: usize)
    ensures
        final(out)@ == old(out)@ + indentation(indent as nat),
{
    let mut i: usize = 0;
    while i < indent
        invariant
            i <= indent,
            out@ == old(out)@ + indentation(i as nat),
        decreases indent - i,
    {
        push_char(out, ' ');
        push_char(out, ' ');
        i = i + 1;
    }
}

/// Appends one character as it appears inside a JSON string literal.
fn push_escaped(out: &mut String, c: char)
    ensures
        final(out)@ == old(out)@ + escape_char(c),
{
    let code = c as u32;
    if c == '"' {
        push_char(out, '\\');
        push_char(out, '"');
    } else if c == '\\' {
        push_char(out, '\\');
        push_char(out, '\\');
    } else if c == '\n' {
        push_char(out, '\\');
        push_char(out, 'n');
    } else if c == '\r' {
        push_char(out, '\\');
        push_char(out, 'r');
    } else if c == '\t' {
        push_char(out, '\\');
        push_char(out, 't');
    } else if c == '\u{08}' {
        push_char(out, '\\');
        push_char(out, 'b');
    } else if c == '\u{0c}' {
        push_char(out, '\\');
        push_char(out, 'f');
    } else if code <= 0x1f || (0x7f <= code && code <= 0x9f) {
        push_char(out, '\\');
        push_char(out, 'u');
        push_char(out, digit_char_exec(((code / 4096) % 16) as u64));
        push_char(out, digit_char_exec(((code / 256) % 16) as u64));
        push_char(out, digit_char_exec(((code / 16) % 16) as u64));
        push_char(out, digit_char_exec((code % 16) as u64));
    } else {
        push_char(out, c);
    }
    assert(out@ =~= old(out)@ + escape_char(c));
}

/// Appends `input` as a JSON string literal.
pub fn write_json_string(out: &mut String, input: &str)
    ensures
        final(out)@ == old(out)@ + quoted(input@),
{
    let chars = chars_vec(input);
    push_char(out, '"');
    let ghost head = out@;
    let mut i: usize = 0;
    while i < chars.len()
        invariant
            i <= chars@.len(),
            chars@ == input@,
            out@ == head + escaped(chars@.take(i as int)),
        decreases chars@.len() - i,
    {
        push_escaped(out, chars[i]);
        assert(chars@.take(i + 1).drop_last() =~= chars@.take(i as int));
        assert(out@ =~= head + escaped(chars@.take(i + 1)));
        i = i + 1;
    }
    assert(chars@.take(chars@.len() as int) =~= chars@);
    push_char(out, '"');
    assert(out@ =~= old(out)@ + quoted(input@));
}

impl JsonValue {
    /// The value rendered on its own: compact, or indented when `pretty`.
    pub fn render(&self, pretty: bool) -> (r: String)
        requires
            json_depth(*self) < usize::MAX,
        ensures
            r@ == json_text(*self, pretty, 0),
    {
        let mut out = String::new();
        self.write_to(&mut out, pretty, 0);
        out
    }

    /// Whether the value nests fewer than `bound` levels deep, so that it
    /// can be rendered when `bound` is `usize::MAX`.
    pub fn depth_below(&self, bound: usize) -> (r: bool)
        ensures
            r == (json_depth(*self) < bound),
        decreases self,
    {
        match self {
            JsonValue::Array(values) => {
                if bound < 2 {
                    return false;
                }
                let ghost v = *self;
                let inner: usize = bound - 1;
                let mut ok = true;
                let mut index: usize = 0;
                while index < values.len()
                    invariant
                        v == *self,
                        v == JsonValue::Array(*values),
                        inner == bound - 1,
                        index <= values@.len(),
                        ok == (items_depth(v, index as nat) < inner),
                    decreases values@.len() - index,
                {
                    let child = values[index].depth_below(inner);
                    assert(items_depth(v, (index + 1) as nat) == if json_depth(values@[index as int])
                        > items_depth(v, index as nat) {
                        json_depth(values@[index as int])
                    } else {
                        items_depth(v, index as nat)
                    });
                    ok = ok && child;
                    index = index + 1;
                }
                ok
            },
            JsonValue::Object(fields) => {
                if bound < 2 {
                    return false;
                }
                let ghost v = *self;
                let inner: usize = bound - 1;
                let mut ok = true;
                let mut index: usize = 0;
                while index < fields.len()
                    invariant
                        v == *self,
                        v == JsonValue::Object(*fields),
                        inner == bound - 1,
                        index <= fields@.len(),
                        ok == (items_depth(v, index as nat) < inner),
                    decreases fields@.len() - index,
                {
                    let (_, value) = &fields[index];
                    assert(*value == fields@[index as int].1);
                    let child = value.depth_below(inner);
                    assert(items_depth(v, (index + 1) as nat) == if json_depth(fields@[index as int].1)
                        > items_depth(v, index as nat) {
                        json_depth(fields@[index as int].1)
                    } else {
                        items_depth(v, index as nat)
                    });
                    ok = ok && child;
                    index = index + 1;
                }
                ok
            },
            _ => 0 < bound,
        }
    }

    /// Appends the rendering of the value at nesting level `indent`.
    #[verifier::rlimit(40)]
    pub fn write_to(&self, out: &mut String, pretty: bool, indent: usize)
        requires
            indent + json_depth(*self) < usize::MAX,
        ensures
            final(out)@ == old(out)@ + json_text(*self, pretty, indent as nat),
        decreases self,
    {
        match self {
            JsonValue::Null => out.append("null"),
            JsonValue::Bool(value) => {
                if *value {
                    out.append("true")
                } else {
                    out.append("false")
                }
            },
            JsonValue::Number(number) => out.append(number.as_str()),
            JsonValue::String(value) => write_json_string(out, value.as_str()),
            JsonValue::Array(values) => {
                let ghost v = *self;
                push_char(out, '[');
                if pretty && values.len() > 0 {
                    push_char(out, '\n');
                }
                let ghost head = out@;
                let mut index: usize = 0;
                while index < values.len()
                    invariant
                        v == *self,
                        v == JsonValue::Array(*values),
                        indent + json_depth(v) < usize::MAX,
                        index <= values@.len(),
                        out@ == head + items_text(v, pretty, indent as nat, index as nat),
                    decreases values@.len() - index,
                {
                    proof {
                        lemma_child_depth(v, values@.len(), index as int);
                    }
                    if pretty {
                        push_indent(out, indent + 1);
                    }
                    values[index].write_to(out, pretty, indent + 1);
                    if index + 1 < values.len() {
                        push_char(out, ',');
                    }
                    if pretty {
                        push_char(out, '\n');
                    }
                    assert(out@ =~= head + items_text(v, pretty, indent as nat, (index + 1) as nat));
                    index = index + 1;
                }
                if pretty && values.len() > 0 {
                    push_indent(out, indent);
                }
                push_char(out, ']');
                assert(out@ =~= old(out)@ + json_text(*self, pretty, indent as nat));
            },
            JsonValue::Object(fields) => {
                let ghost v = *self;
                push_char(out, '{');
                if pretty && fields.len() > 0 {
                    push_char(out, '\n');
                }
                let ghost head = out@;
                let mut index: usize = 0;
                while index < fields.len()
                    invariant
                        v == *self,
                        v == JsonValue::Object(*fields),
                        indent + json_depth(v) < usize::MAX,
                        index <= fields@.len(),
                        out@ == head + items_text(v, pretty, indent as nat, index as nat),
                    decreases fields@.len() - index,
                {
                    proof {
                        lemma_child_depth(v, fields@.len(), index as int);
                    }
                    let ghost before = out@;
                    if pretty {
                        push_indent(out, indent + 1);
                    }
                    let ghost lead = out@;
                    let (key, value) = &fields[index];
                    assert(*key == fields@[index as int].0 && *value == fields@[index as int].1);
                    write_json_string(out, key.as_str());
                    push_char(out, ':');
                    if pretty {
                        push_char(out, ' ');
                    }
                    value.write_to(out, pretty, indent + 1);
                    let ghost body = member_body(key@, json_text(*value, pretty, indent as nat + 1), pretty);
                    assert(out@ =~= lead + body);
                    if index + 1 < fields.len() {
                        push_char(out, ',');
                    }
                    if pretty {
                        push_char(out, '\n');
                    }
                    assert(out@ =~= before + entry_text(body, pretty, indent as nat, index + 1 < fields@.len()));
                    assert(out@ =~= head + items_text(v, pretty, indent as nat, (index + 1) as nat));
                    index = index + 1;
                }
                if pretty && fields.len() > 0 {
                    push_indent(out, indent);
                }
                push_char(out, '}');
                assert(out@ =~= old(out)@ + json_text(*self, pretty, indent as nat));
            },
        }
    }
}

/// A JSON value as characters and numbers.
pub enum JsonView {
    Null,
    Bool(bool),
    Number(Seq<char>),
    Str(Seq<char>),
    Array(Seq<JsonView>),
    Object(Seq<(Seq<char>, JsonView)>),
}

/// The view of a value.
pub open spec fn json_view(v: JsonValue) -> JsonView
    decreases v,
{
    match v {
        JsonValue::Null => JsonView::Null,
        JsonValue::Bool(b) => JsonView::Bool(b),
        JsonValue::Number(n) => JsonView::Number(n@),
        JsonValue::String(s) => JsonView::Str(s@),
        JsonValue::Array(vs) => JsonView::Array(elements_view(vs@)),
        JsonValue::Object(fs) => JsonView::Object(members_view(fs@)),
    }
}

/// The views of a sequence of values.
pub open spec fn elements_view(vs: Seq<JsonValue>) -> Seq<JsonView>
    decreases vs,
{
    if vs.len() == 0 {
        Seq::empty()
    } else {
        elements_view(vs.drop_last()).push(json_view(vs.last()))
    }
}

/// The views of a sequence of members.
pub open spec fn members_view(fs: Seq<(String, JsonValue)>) -> Seq<(Seq<char>, JsonView)>
    decreases fs,
{
    if fs.len() == 0 {
        Seq::empty()
    } else {
        members_view(fs.drop_last()).push((fs.last().0@, json_view(fs.last().1)))
    }
}

/// A number, or null when there is none.
pub open spec fn opt_number_view(value: Option<u64>) -> JsonView {
    match value {
        Some(v) => JsonView::Number(decimal(v as nat)),
        None => JsonView::Null,
    }
}

/// A string, or null when there is none.
pub open spec fn opt_str_view(value: Option<Seq<char>>) -> JsonView {
    match value {
        Some(s) => JsonView::Str(s),
        None => JsonView::Null,
    }
}

/// A JSON string holding `s`.
pub fn string_value(s: &str) -> (r: JsonValue)
    ensures
        json_view(r) == JsonView::Str(s@),
{
    JsonValue::String(string_of(s))
}

/// An unsigned number.
pub fn u64_num(value: u64) -> (r: JsonValue)
    ensures
        json_view(r) == JsonView::Number(decimal(value as nat)),
{
    JsonValue::Number(decimal_string(value))
}

/// A length or count.
pub fn usize_num(value: usize) -> (r: JsonValue)
    ensures
        json_view(r) == JsonView::Number(decimal(value as nat)),
{
    JsonValue::Number(decimal_string(value as u64))
}

/// A signed number.
pub fn i64_num(value: i64) -> (r: JsonValue)
    ensures
        json_view(r) == JsonView::Number(signed_decimal(value as int)),
{
    JsonValue::Number(signed_decimal_string(value))
}

/// An optional unsigned number: null when absent.
pub fn opt_u64(value: Option<u64>) -> (r: JsonValue)
    ensures
        json_view(r) == opt_number_view(value),
{
    match value {
        Some(v) => u64_num(v),
        None => JsonValue::Null,
    }
}

/// An optional string: null when absent.
pub fn opt_string(value: &Option<String>) -> (r: JsonValue)
    ensures
        json_view(r) == opt_str_view(
            match value {
                Some(s) => Some(s@),
                None => None,
            },
        ),
{
    match value {
        Some(s) => string_value(s.as_str()),
        None => JsonValue::Null,
    }
}

/// Appends a member to an object's members.
pub fn push_member(fields: &mut Vec<(String, JsonValue)>, key: &str, value: JsonValue)
    ensures
        members_view(final(fields)@) == members_view(old(fields)@).push((key@, json_view(value))),
{
    let ghost before = fields@;
    fields.push((string_of(key), value));
    assert(fields@.drop_last() =~= before);
}

/// Appends an element to an array's elements.
pub fn push_element(values: &mut Vec<JsonValue>, value: JsonValue)
    ensures
        elements_view(final(values)@) == elements_view(old(values)@).push(json_view(value)),
{
    let ghost before = values@;
    values.push(value);
    assert(values@.drop_last() =~= before);
}

} // verus!
