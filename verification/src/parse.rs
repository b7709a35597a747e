//! Reading numbers typed on the command line: surrounding whitespace is
//! ignored, `0x` introduces hexadecimal, and anything else is decimal, with
//! the same outcomes and messages as the standard integer parser.

use vstd::prelude::*;

use crate::text::{chars_vec, decimal, digit_char, digits, hex};

verus! {

/// The Unicode white-space characters.
pub open spec fn is_white_space(c: char) -> bool {
    ||| ('\u{09}' <= c && c <= '\u{0d}')
    ||| c == ' '
    ||| c == '\u{85}'
    ||| c == '\u{a0}'
    ||| c == '\u{1680}'
    ||| ('\u{2000}' <= c && c <= '\u{200a}')
    ||| c == '\u{2028}'
    ||| c == '\u{2029}'
    ||| c == '\u{202f}'
    ||| c == '\u{205f}'
    ||| c == '\u{3000}'
}

/// Whether a character is Unicode white space.
pub fn white_space(c: char) -> (r: bool)
    ensures
        r == is_white_space(c),
{
    ('\u{09}' <= c && c <= '\u{0d}') || c == ' ' || c == '\u{85}' || c == '\u{a0}' || c
        == '\u{1680}' || ('\u{2000}' <= c && c <= '\u{200a}') || c == '\u{2028}' || c
        == '\u{2029}' || c == '\u{202f}' || c == '\u{205f}' || c == '\u{3000}'
}

/// `s` without its leading white space.
pub open spec fn trim_start(s: Seq<char>) -> Seq<char>
    decreases s.len(),
{
    if s.len() > 0 && is_white_space(s[0]) {
        trim_start(s.drop_first())
    } else {
        s
    }
}

/// `s` without its trailing white space.
pub open spec fn trim_end(s: Seq<char>) -> Seq<char>
    decreases s.len(),
{
    if s.len() > 0 && is_white_space(s.last()) {
        trim_end(s.drop_last())
    } else {
        s
    }
}

/// `s` without leading and trailing white space.
pub open spec fn trimmed(s: Seq<char>) -> Seq<char> {
    trim_end(trim_start(s))
}

/// The characters of `s` without leading and trailing white space.
pub fn trim_chars(s: &Vec<char>) -> (r: Vec<char>)
    ensures
        r@ == trimmed(s@),
{
    let mut start: usize = 0;
    assert(s@.subrange(0, s@.len() as int) =~= s@);
    while start < s.len() && white_space(s[start])
        invariant
            start <= s@.len(),
            trim_start(s@) == trim_start(s@.subrange(start as int, s@.len() as int)),
        decreases s@.len() - start,
    {
        assert(s@.subrange(start as int, s@.len() as int).drop_first() =~= s@.subrange(
            start + 1,
            s@.len() as int,
        ));
        start = start + 1;
    }
    let ghost front = s@.subrange(start as int, s@.len() as int);
    assert(trim_start(front) == front);
    let mut end: usize = s.len();
    while end > start && white_space(s[end - 1])
        invariant
            start <= end <= s@.len(),
            front == s@.subrange(start as int, s@.len() as int),
            trim_end(front) == trim_end(s@.subrange(start as int, end as int)),
        decreases end,
    {
        assert(s@.subrange(start as int, end as int).drop_last() =~= s@.subrange(
            start as int,
            end - 1,
        ));
        end = end - 1;
    }
    let mut out: Vec<char> = Vec::new();
    let mut i: usize = start;
    while i < end
        invariant
            start <= i <= end,
            end <= s@.len(),
            out@ == s@.subrange(start as int, i as int),
        decreases end - i,
    {
        out.push(s[i]);
        assert(out@ =~= s@.subrange(start as int, i + 1));
        i = i + 1;
    }
    assert(trim_end(s@.subrange(start as int, end as int)) == s@.subrange(start as int, end as int));
    out
}

/// Why an integer could not be read.
#[derive(Debug, Clone, Copy, PartialEq, Eq, Structural)]
pub enum IntErrorKind {
    Empty,
    InvalidDigit,
    PosOverflow,
}

/// The outcome of reading an integer.
pub enum IntParse {
    Value(u64),
    Failed(IntErrorKind),
}

/// The value of digit `c` in base `radix` (up to 36), if it is one.
pub open spec fn digit_value(c: char, radix: nat) -> Option<nat> {
    let v: int = if '0' <= c && c <= '9' {
        c as int - '0' as int
    } else if 'a' <= c && c <= 'z' {
        c as int - 'a' as int + 10
    } else if 'A' <= c && c <= 'Z' {
        c as int - 'A' as int + 10
    } else {
        radix as int
    };
    if 0 <= v < radix {
        Some(v as nat)
    } else {
        None
    }
}

/// Reads the digits left to right: the first bad digit, or the first digit
/// that takes the value past `u64::MAX`, ends the reading with an error.
pub open spec fn read_digits(s: Seq<char>, radix: nat) -> IntParse
    decreases s.len(),
{
    if s.len() == 0 {
        IntParse::Value(0)
    } else {
        match read_digits(s.drop_last(), radix) {
            IntParse::Value(v) => match digit_value(s.last(), radix) {
                None => IntParse::Failed(IntErrorKind::InvalidDigit),
                Some(d) => if v * radix + d > u64::MAX {
                    IntParse::Failed(IntErrorKind::PosOverflow)
                } else {
                    IntParse::Value((v * radix + d) as u64)
                },
            },
            failed => failed,
        }
    }
}

/// Reads an unsigned 64-bit integer in base `radix`: an optional `+` and
/// then at least one digit.
pub open spec fn read_u64(s: Seq<char>, radix: nat) -> IntParse {
    if s.len() == 0 {
        IntParse::Failed(IntErrorKind::Empty)
    } else if (s[0] == '+' || s[0] == '-') && s.len() == 1 {
        IntParse::Failed(IntErrorKind::InvalidDigit)
    } else if s[0] == '+' {
        read_digits(s.drop_first(), radix)
    } else {
        read_digits(s, radix)
    }
}

/// The message for a failed reading.
pub open spec fn int_error_message(kind: IntErrorKind) -> Seq<char> {
    match kind {
        IntErrorKind::Empty => "cannot parse integer from empty string"@,
        IntErrorKind::InvalidDigit => "invalid digit found in string"@,
        IntErrorKind::PosOverflow => "number too large to fit in target type"@,
    }
}

/// The value of a digit, for exec code.
fn digit_of(c: char, radix: u64) -> (r: Option<u64>)
    requires
        2 <= radix <= 36,
    ensures
        match digit_value(c, radix as nat) {
            Some(d) => r == Some(d as u64),
            None => r is None,
        },
{
    let code = c as u32;
    let v: u64 = if '0' <= c && c <= '9' {
        (code - 48) as u64
    } else if 'a' <= c && c <= 'z' {
        (code - 97 + 10) as u64
    } else if 'A' <= c && c <= 'Z' {
        (code - 65 + 10) as u64
    } else {
        radix
    };
    if v < radix {
        Some(v)
    } else {
        None
    }
}

/// Reads digits left to right (see `read_digits`).
fn parse_digits(s: &Vec<char>, from: usize, radix: u64) -> (r: Result<u64, IntErrorKind>)
    requires
        from <= s@.len(),
        2 <= radix <= 36,
    ensures
        match read_digits(s@.subrange(from as int, s@.len() as int), radix as nat) {
            IntParse::Value(v) => r == Ok::<u64, IntErrorKind>(v),
            IntParse::Failed(k) => r == Err::<u64, IntErrorKind>(k),
        },
{
    let ghost digits = s@.subrange(from as int, s@.len() as int);
    let mut value: u64 = 0;
    let mut i: usize = from;
    while i < s.len()
        invariant
            from <= i <= s@.len(),
            2 <= radix <= 36,
            digits == s@.subrange(from as int, s@.len() as int),
            read_digits(digits.take(i - from), radix as nat) == IntParse::Value(value),
        decreases s@.len() - i,
    {
        let ghost prefix = digits.take(i - from + 1);
        assert(prefix.drop_last() =~= digits.take(i - from));
        assert(prefix.last() == s@[i as int]);
        let d = match digit_of(s[i], radix) {
            Some(d) => d,
            None => {
                proof {
                    lemma_failure_persists(digits, (i - from + 1) as nat, radix as nat);
                }
                return Err(IntErrorKind::InvalidDigit);
            },
        };
        let next = match value.checked_mul(radix) {
            Some(m) => m.checked_add(d),
            None => None,
        };
        match next {
            Some(n) => {
                value = n;
            },
            None => {
                assert(value * radix + d > u64::MAX) by (nonlinear_arith)
                    requires
                        value.checked_mul(radix) is None || (value * radix) + d > u64::MAX,
                ;
                proof {
                    lemma_failure_persists(digits, (i - from + 1) as nat, radix as nat);
                }
                return Err(IntErrorKind::PosOverflow);
            },
        }
        i = i + 1;
    }
    assert(digits.take(digits.len() as int) =~= digits);
    Ok(value)
}

/// Once reading a prefix fails, reading any longer prefix fails the same
/// way.
proof fn lemma_failure_persists(s: Seq<char>, k: nat, radix: nat)
    requires
        k <= s.len(),
        read_digits(s.take(k as int), radix) is Failed,
    ensures
        read_digits(s, radix) == read_digits(s.take(k as int), radix),
    decreases s.len() - k,
{
    if k < s.len() {
        let next = s.take(k as int + 1);
        assert(next.drop_last() =~= s.take(k as int));
        lemma_failure_persists(s, k + 1, radix);
    } else {
        assert(s.take(k as int) =~= s);
    }
}

/// Reads an unsigned integer in base `radix` (see `read_u64`).
pub fn parse_u64(s: &Vec<char>, radix: u64) -> (r: Result<u64, IntErrorKind>)
    requires
        2 <= radix <= 36,
    ensures
        match read_u64(s@, radix as nat) {
            IntParse::Value(v) => r == Ok::<u64, IntErrorKind>(v),
            IntParse::Failed(k) => r == Err::<u64, IntErrorKind>(k),
        },
{
    if s.len() == 0 {
        return Err(IntErrorKind::Empty);
    }
    if (s[0] == '+' || s[0] == '-') && s.len() == 1 {
        return Err(IntErrorKind::InvalidDigit);
    }
    if s[0] == '+' {
        assert(s@.subrange(1, s@.len() as int) =~= s@.drop_first());
        parse_digits(s, 1, radix)
    } else {
        assert(s@.subrange(0, s@.len() as int) =~= s@);
        parse_digits(s, 0, radix)
    }
}

/// The value an address argument denotes: after trimming white space, `0x`
/// and hexadecimal digits, or decimal digits.
pub open spec fn address_reading(value: Seq<char>) -> IntParse {
    let t = trimmed(value);
    if t.len() >= 2 && t[0] == '0' && t[1] == 'x' {
        read_u64(t.subrange(2, t.len() as int), 16)
    } else {
        read_u64(t, 10)
    }
}

/// Reads an address typed on the command line (see `address_reading`);
/// the error is the integer parser's message.
pub fn parse_address(value: &str) -> (r: Result<u64, String>)
    ensures
        match address_reading(value@) {
            IntParse::Value(v) => r == Ok::<u64, String>(v),
            IntParse::Failed(k) => r matches Err(m) && m@ == int_error_message(k),
        },
{
    let all = chars_vec(value);
    let t = trim_chars(&all);
    let outcome = if t.len() >= 2 && t[0] == '0' && t[1] == 'x' {
        let mut rest: Vec<char> = Vec::new();
        let mut i: usize = 2;
        while i < t.len()
            invariant
                2 <= i <= t@.len(),
                rest@ == t@.subrange(2, i as int),
            decreases t@.len() - i,
        {
            rest.push(t[i]);
            assert(rest@ =~= t@.subrange(2, i + 1));
            i = i + 1;
        }
        parse_u64(&rest, 16)
    } else {
        parse_u64(&t, 10)
    };
    match outcome {
        Ok(v) => Ok(v),
        Err(IntErrorKind::Empty) => Err(String::from_str("cannot parse integer from empty string")),
        Err(IntErrorKind::InvalidDigit) => Err(String::from_str("invalid digit found in string")),
        Err(IntErrorKind::PosOverflow) => Err(
            String::from_str("number too large to fit in target type"),
        ),
    }
}

/// Each digit character reads back as its value.
pub(crate) proof fn lemma_digit_value_of_digit_char(d: nat, base: nat)
    requires
        d < base,
        2 <= base <= 16,
    ensures
        digit_value(digit_char(d), base) == Some(d),
{
}

/// The digits of a number read back as the number.
proof fn lemma_read_digits_of_digits(n: nat, base: nat)
    requires
        2 <= base <= 16,
        n <= u64::MAX,
    ensures
        read_digits(digits(n, base), base) == IntParse::Value(n as u64),
    decreases n,
{
    let s = digits(n, base);
    if n < base {
        assert(n % 16 == n);
        assert(s == seq![digit_char(n)]);
        lemma_digit_value_of_digit_char(n, base);
        assert(s.drop_last() =~= Seq::<char>::empty());
        assert(read_digits(s.drop_last(), base) == IntParse::Value(0));
        assert(s.last() == digit_char(n));
        assert(0 * base + n == n);
        assert(read_digits(s, base) == IntParse::Value(n as u64));
    } else {
        assert(n / base < n) by (nonlinear_arith)
            requires
                base >= 2,
                n >= base,
        ;
        lemma_read_digits_of_digits(n / base, base);
        assert(n % base < base) by (nonlinear_arith)
            requires
                base >= 2,
        ;
        lemma_digit_value_of_digit_char(n % base, base);
        assert(s == digits(n / base, base).push(digit_char(n % base)));
        assert(s.drop_last() =~= digits(n / base, base));
        assert(s.last() == digit_char(n % base));
        assert((n / base) * base + n % base == n) by (nonlinear_arith)
            requires
                base >= 2,
        ;
        let v: u64 = (n / base) as u64;
        assert(v as int == n / base);
        assert(read_digits(s.drop_last(), base) == IntParse::Value(v));
        assert(digit_value(s.last(), base) == Some(n % base));
        assert(v * base + n % base == n);
        assert(read_digits(s, base) == IntParse::Value(n as u64));
    }
}

/// A text that neither starts nor ends with white space is its own trim.
proof fn lemma_trimmed_unchanged(s: Seq<char>)
    requires
        s.len() > 0,
        !is_white_space(s[0]),
        !is_white_space(s.last()),
    ensures
        trimmed(s) == s,
{
}

/// Leading white space is dropped up to the first other character.
proof fn lemma_trim_start_padded(w: Seq<char>, s: Seq<char>)
    requires
        forall|i: int| 0 <= i < w.len() ==> is_white_space(#[trigger] w[i]),
        s.len() > 0,
        !is_white_space(s[0]),
    ensures
        trim_start(w + s) == s,
    decreases w.len(),
{
    if w.len() == 0 {
        assert(w + s =~= s);
    } else {
        assert((w + s).drop_first() =~= w.drop_first() + s);
        assert((w + s)[0] == w[0]);
        lemma_trim_start_padded(w.drop_first(), s);
    }
}

/// Trailing white space is dropped back to the last other character.
proof fn lemma_trim_end_padded(s: Seq<char>, w: Seq<char>)
    requires
        forall|i: int| 0 <= i < w.len() ==> is_white_space(#[trigger] w[i]),
        s.len() > 0,
        !is_white_space(s.last()),
    ensures
        trim_end(s + w) == s,
    decreases w.len(),
{
    if w.len() == 0 {
        assert(s + w =~= s);
    } else {
        assert((s + w).drop_last() =~= s + w.drop_last());
        assert((s + w).last() == w[w.len() - 1]);
        lemma_trim_end_padded(s, w.drop_last());
    }
}

/// An address printed in decimal and padded with white space on either
/// side reads back as the same address.
pub proof fn lemma_padded_address_round_trip(n: u64, before: Seq<char>, after: Seq<char>)
    requires
        forall|i: int| 0 <= i < before.len() ==> is_white_space(#[trigger] before[i]),
        forall|i: int| 0 <= i < after.len() ==> is_white_space(#[trigger] after[i]),
    ensures
        address_reading(before + decimal(n as nat) + after) == IntParse::Value(n),
        address_reading(before + hex(n as nat) + after) == IntParse::Value(n),
{
    lemma_address_round_trip(n);
    let d = decimal(n as nat);
    lemma_digits_ends(n as nat, 10);
    lemma_trim_start_padded(before, d + after);
    assert((d + after)[0] == d[0]);
    assert(before + d + after =~= before + (d + after));
    lemma_trim_end_padded(d, after);
    lemma_trimmed_unchanged(d);
    let h = hex(n as nat);
    lemma_digits_ends(n as nat, 16);
    assert(h.last() == digits(n as nat, 16).last());
    lemma_trim_start_padded(before, h + after);
    assert((h + after)[0] == h[0]);
    assert(before + h + after =~= before + (h + after));
    lemma_trim_end_padded(h, after);
    lemma_trimmed_unchanged(h);
}

/// The first and last digits of a number are digit characters.
proof fn lemma_digits_ends(n: nat, base: nat)
    requires
        2 <= base <= 16,
    ensures
        digits(n, base).len() > 0,
        '0' <= digits(n, base)[0] <= '9' || 'a' <= digits(n, base)[0] <= 'f',
        '0' <= digits(n, base).last() <= '9' || 'a' <= digits(n, base).last() <= 'f',
        base == 10 ==> '0' <= digits(n, base)[0] <= '9',
        base == 10 ==> digits(n, base).len() == 1 || ('0' <= digits(n, base)[1] <= '9'),
    decreases n,
{
    if n >= base {
        assert(n / base < n) by (nonlinear_arith)
            requires
                base >= 2,
                n >= base,
        ;
        lemma_digits_ends(n / base, base);
        assert(n % base < base) by (nonlinear_arith)
            requires
                base >= 2,
        ;
        if base == 10 {
            let prefix = digits(n / base, base);
            lemma_digits_all_decimal(n / base);
            lemma_digits_all_decimal(n);
        }
    } else {
        assert(n % 16 == n);
    }
}

/// Every decimal digit of a number is `0` to `9`.
proof fn lemma_digits_all_decimal(n: nat)
    ensures
        forall|i: int| 0 <= i < digits(n, 10).len() ==> '0' <= #[trigger] digits(n, 10)[i] <= '9',
    decreases n,
{
    if n >= 10 {
        lemma_digits_all_decimal(n / 10);
        let s = digits(n, 10);
        assert forall|i: int| 0 <= i < s.len() implies '0' <= #[trigger] s[i] <= '9' by {
            if i < s.len() - 1 {
                assert(s[i] == digits(n / 10, 10)[i]);
            }
        }
    } else {
        assert(n % 16 == n);
    }
}

/// An address printed in hexadecimal (`0x` and digits) or in decimal reads
/// back as the same address.
pub proof fn lemma_address_round_trip(n: u64)
    ensures
        address_reading(hex(n as nat)) == IntParse::Value(n),
        address_reading(decimal(n as nat)) == IntParse::Value(n),
{
    let h = hex(n as nat);
    let ds = digits(n as nat, 16);
    lemma_digits_ends(n as nat, 16);
    assert(h.last() == ds.last());
    lemma_trimmed_unchanged(h);
    assert(h.subrange(2, h.len() as int) =~= ds);
    lemma_read_digits_of_digits(n as nat, 16);
    let d = decimal(n as nat);
    lemma_digits_ends(n as nat, 10);
    lemma_digits_all_decimal(n as nat);
    lemma_trimmed_unchanged(d);
    lemma_read_digits_of_digits(n as nat, 10);
}

} // verus!
