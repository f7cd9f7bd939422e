//! A small JSON writer and reader, sized for the recognizer's wire
//! protocol: objects whose values are strings, integers, booleans or null.
//! Writing and parsing are both specified character by character, so the
//! contracts pin down the exact frames on the wire.

use vstd::prelude::*;

verus! {

// ---------------------------------------------------------------------------
// Writing
// ---------------------------------------------------------------------------
/// The decimal digit character for `n`.
pub open spec fn dec_digit(n: nat) -> char {
    if n == 0 {
        '0'
    } else if n == 1 {
        '1'
    } else if n == 2 {
        '2'
    } else if n == 3 {
        '3'
    } else if n == 4 {
        '4'
    } else if n == 5 {
        '5'
    } else if n == 6 {
        '6'
    } else if n == 7 {
        '7'
    } else if n == 8 {
        '8'
    } else {
        '9'
    }
}

/// The lowercase hexadecimal digit character for `n`.
pub open spec fn hex_digit(n: nat) -> char {
    if n < 10 {
        dec_digit(n)
    } else if n == 10 {
        'a'
    } else if n == 11 {
        'b'
    } else if n == 12 {
        'c'
    } else if n == 13 {
        'd'
    } else if n == 14 {
        'e'
    } else {
        'f'
    }
}

/// The decimal digit characters of `n`, most significant first.
pub open spec fn dec_digits(n: nat) -> Seq<char>
    decreases n,
{
    if n < 10 {
        seq![dec_digit(n)]
    } else {
        dec_digits(n / 10).push(dec_digit(n % 10))
    }
}

/// How one character is written inside a JSON string: quotes, backslashes
/// and control characters are escaped, everything else stands as itself.
pub open spec fn escape_char(c: char) -> Seq<char> {
    if c == '"' {
        seq!['\\', '"']
    } else if c == '\\' {
        seq!['\\', '\\']
    } else if c == '\u{8}' {
        seq!['\\', 'b']
    } else if c == '\u{c}' {
        seq!['\\', 'f']
    } else if c == '\n' {
        seq!['\\', 'n']
    } else if c == '\r' {
        seq!['\\', 'r']
    } else if c == '\t' {
        seq!['\\', 't']
    } else if (c as u32) < 32 {
        seq!['\\', 'u', '0', '0', hex_digit((c as u32 / 16) as nat), hex_digit((c as u32 % 16) as nat)]
    } else {
        seq![c]
    }
}

/// The body of a JSON string holding the characters of `s`.
pub open spec fn json_escaped(s: Seq<char>) -> Seq<char>
    decreases s.len(),
{
    if s.len() == 0 {
        Seq::empty()
    } else {
        json_escaped(s.drop_last()) + escape_char(s.last())
    }
}

/// A complete JSON string literal holding the characters of `s`.
pub open spec fn quoted(s: Seq<char>) -> Seq<char> {
    seq!['"'] + json_escaped(s) + seq!['"']
}

/// Append the decimal digit character for `n`.
fn push_dec_digit(out: &mut Vec<char>, n: u32)
    requires
        n < 10,
    ensures
        final(out)@ == old(out)@.push(dec_digit(n as nat)),
{
    if n == 0 {
        out.push('0');
    } else if n == 1 {
        out.push('1');
    } else if n == 2 {
        out.push('2');
    } else if n == 3 {
        out.push('3');
    } else if n == 4 {
        out.push('4');
    } else if n == 5 {
        out.push('5');
    } else if n == 6 {
        out.push('6');
    } else if n == 7 {
        out.push('7');
    } else if n == 8 {
        out.push('8');
    } else {
        out.push('9');
    }
}

/// Append the lowercase hexadecimal digit character for `n`.
fn push_hex_digit(out: &mut Vec<char>, n: u32)
    requires
        n < 16,
    ensures
        final(out)@ == old(out)@.push(hex_digit(n as nat)),
{
    if n < 10 {
        push_dec_digit(out, n);
    } else if n == 10 {
        out.push('a');
    } else if n == 11 {
        out.push('b');
    } else if n == 12 {
        out.push('c');
    } else if n == 13 {
        out.push('d');
    } else if n == 14 {
        out.push('e');
    } else {
        out.push('f');
    }
}

/// Append the decimal digits of `n`, most significant first.
pub fn push_decimal(out: &mut Vec<char>, n: u32)
    ensures
        final(out)@ == old(out)@ + dec_digits(n as nat),
    decreases n,
{
    if n < 10 {
        push_dec_digit(out, n);
        proof {
            assert(old(out)@.push(dec_digit(n as nat)) =~= old(out)@ + dec_digits(n as nat));
        }
    } else {
        push_decimal(out, n / 10);
        push_dec_digit(out, n % 10);
        proof {
            assert((old(out)@ + dec_digits(n as nat / 10)).push(dec_digit(n as nat % 10)) =~= old(
                out,
            )@ + dec_digits(n as nat));
        }
    }
}

/// Append `c` as it is written inside a JSON string.
fn push_escaped_char(out: &mut Vec<char>, c: char)
    ensures
        final(out)@ == old(out)@ + escape_char(c),
{
    if c == '"' {
        out.push('\\');
        out.push('"');
    } else if c == '\\' {
        out.push('\\');
        out.push('\\');
    } else if c == '\u{8}' {
        out.push('\\');
        out.push('b');
    } else if c == '\u{c}' {
        out.push('\\');
        out.push('f');
    } else if c == '\n' {
        out.push('\\');
        out.push('n');
    } else if c == '\r' {
        out.push('\\');
        out.push('r');
    } else if c == '\t' {
        out.push('\\');
        out.push('t');
    } else if (c as u32) < 32 {
        out.push('\\');
        out.push('u');
        out.push('0');
        out.push('0');
        push_hex_digit(out, (c as u32) / 16);
        push_hex_digit(out, (c as u32) % 16);
    } else {
        out.push(c);
    }
    proof {
        assert(out@ =~= old(out)@ + escape_char(c));
    }
}

/// Append a complete JSON string literal holding the characters of `s`.
pub fn push_quoted(out: &mut Vec<char>, s: &Vec<char>)
    ensures
        final(out)@ == old(out)@ + quoted(s@),
{
    out.push('"');
    let mut i: usize = 0;
    while i < s.len()
        invariant
            0 <= i <= s@.len(),
            out@ == old(out)@.push('"') + json_escaped(s@.take(i as int)),
        decreases s@.len() - i,
    {
        let ghost prefix: Seq<char> = s@.take(i as int);
        push_escaped_char(out, s[i]);
        proof {
            assert(s@.take(i + 1).drop_last() =~= prefix);
            assert(s@.take(i + 1).last() == s@[i as int]);
            assert(json_escaped(s@.take(i + 1)) == json_escaped(prefix) + escape_char(s@[i as int]));
        }
        i += 1;
    }
    proof {
        assert(s@.take(s@.len() as int) =~= s@);
    }
    out.push('"');
    proof {
        assert(out@ =~= old(out)@ + quoted(s@));
    }
}

// ---------------------------------------------------------------------------
// Reading
// ---------------------------------------------------------------------------
/// A parsed JSON value, as specifications see it.
pub enum SpecJson {
    Null,
    Bool(bool),
    Int(u64),
    Str(Seq<char>),
}

/// A parsed JSON value: null, a boolean, an unsigned integer, or a string.
pub enum JsonValue {
    Null,
    Bool(bool),
    Int(u64),
    Str(Vec<char>),
}

impl View for JsonValue {
    type V = SpecJson;

    open spec fn view(&self) -> SpecJson {
        match self {
            JsonValue::Null => SpecJson::Null,
            JsonValue::Bool(b) => SpecJson::Bool(*b),
            JsonValue::Int(n) => SpecJson::Int(*n),
            JsonValue::Str(v) => SpecJson::Str(v@),
        }
    }
}

/// The key/value pairs held by a parsed object.
pub open spec fn members_view(ms: Seq<(Vec<char>, JsonValue)>) -> Seq<(Seq<char>, SpecJson)> {
    ms.map_values(|p: (Vec<char>, JsonValue)| (p.0@, p.1@))
}

pub open spec fn is_json_ws(c: char) -> bool {
    c == ' ' || c == '\t' || c == '\n' || c == '\r'
}

/// The first position at or after `i` holding a non-whitespace character.
pub open spec fn spec_skip_ws(s: Seq<char>, i: int) -> int
    decreases s.len() - i,
        when 0 <= i <= s.len()
{
    if i < s.len() && is_json_ws(s[i]) {
        spec_skip_ws(s, i + 1)
    } else {
        i
    }
}

pub proof fn lemma_skip_ws_bounds(s: Seq<char>, i: int)
    requires
        0 <= i <= s.len(),
    ensures
        i <= spec_skip_ws(s, i) <= s.len(),
    decreases s.len() - i,
{
    if i < s.len() && is_json_ws(s[i]) {
        lemma_skip_ws_bounds(s, i + 1);
    }
}

pub open spec fn hex_val(c: char) -> Option<u32> {
    if 48 <= c as u32 <= 57 {
        Some((c as u32 - 48) as u32)
    } else if 97 <= c as u32 <= 102 {
        Some((c as u32 - 87) as u32)
    } else if 65 <= c as u32 <= 70 {
        Some((c as u32 - 55) as u32)
    } else {
        None
    }
}

/// The code point written by four hexadecimal digits at `i`.
pub open spec fn hex4(s: Seq<char>, i: int) -> Option<u32>
    recommends
        0 <= i,
        i + 4 <= s.len(),
{
    if hex_val(s[i]) is Some && hex_val(s[i + 1]) is Some && hex_val(s[i + 2]) is Some && hex_val(
        s[i + 3],
    ) is Some {
        Some(
            (hex_val(s[i])->0 * 4096 + hex_val(s[i + 1])->0 * 256 + hex_val(s[i + 2])->0 * 16
                + hex_val(s[i + 3])->0) as u32,
        )
    } else {
        None
    }
}

/// The code point written by a surrogate pair: the high half selects a
/// block above the basic plane, the low half the position in it.
pub open spec fn surrogate_scalar(hi: u32, lo: u32) -> u32
    recommends
        0xD800 <= hi <= 0xDBFF,
        0xDC00 <= lo <= 0xDFFF,
{
    (0x10000 + (hi - 0xD800) * 0x400 + (lo - 0xDC00)) as u32
}

/// Read a JSON string body starting just after the opening quote: plain
/// characters and escapes accumulate into the value until the closing
/// quote. Unterminated strings, raw control characters, unknown escapes and
/// surrogate code points fail.
pub open spec fn spec_parse_string_body(s: Seq<char>, i: int, acc: Seq<char>) -> Option<
    (Seq<char>, int),
>
    decreases s.len() - i,
        when 0 <= i <= s.len()
{
    if i >= s.len() {
        None
    } else if s[i] == '"' {
        Some((acc, i + 1))
    } else if s[i] == '\\' {
        if i + 1 >= s.len() {
            None
        } else {
            let e = s[i + 1];
            if e == '"' {
                spec_parse_string_body(s, i + 2, acc.push('"'))
            } else if e == '\\' {
                spec_parse_string_body(s, i + 2, acc.push('\\'))
            } else if e == '/' {
                spec_parse_string_body(s, i + 2, acc.push('/'))
            } else if e == 'b' {
                spec_parse_string_body(s, i + 2, acc.push('\u{8}'))
            } else if e == 'f' {
                spec_parse_string_body(s, i + 2, acc.push('\u{c}'))
            } else if e == 'n' {
                spec_parse_string_body(s, i + 2, acc.push('\n'))
            } else if e == 'r' {
                spec_parse_string_body(s, i + 2, acc.push('\r'))
            } else if e == 't' {
                spec_parse_string_body(s, i + 2, acc.push('\t'))
            } else if e == 'u' {
                if i + 6 > s.len() {
                    None
                } else {
                    match hex4(s, i + 2) {
                        Some(code) => if 0xDC00 <= code <= 0xDFFF {
                            None
                        } else if 0xD800 <= code <= 0xDBFF {
                            if i + 12 > s.len() || s[i + 6] != '\\' || s[i + 7] != 'u' {
                                None
                            } else {
                                match hex4(s, i + 8) {
                                    Some(low) => if 0xDC00 <= low <= 0xDFFF {
                                        spec_parse_string_body(
                                            s,
                                            i + 12,
                                            acc.push(surrogate_scalar(code, low) as char),
                                        )
                                    } else {
                                        None
                                    },
                                    None => None,
                                }
                            }
                        } else {
                            spec_parse_string_body(s, i + 6, acc.push(code as char))
                        },
                        None => None,
                    }
                }
            } else {
                None
            }
        }
    } else if (s[i] as u32) < 32 {
        None
    } else {
        spec_parse_string_body(s, i + 1, acc.push(s[i]))
    }
}

pub proof fn lemma_parse_string_body_bounds(s: Seq<char>, i: int, acc: Seq<char>)
    requires
        0 <= i <= s.len(),
    ensures
        spec_parse_string_body(s, i, acc) matches Some((v, j)) ==> i < j <= s.len(),
    decreases s.len() - i,
{
    if i >= s.len() {
    } else if s[i] == '"' {
    } else if s[i] == '\\' {
        if i + 1 < s.len() {
            let e = s[i + 1];
            if e == 'u' {
                if i + 6 <= s.len() && hex4(s, i + 2) is Some {
                    let code = hex4(s, i + 2)->0;
                    if 0xD800 <= code <= 0xDBFF {
                        if i + 12 <= s.len() && s[i + 6] == '\\' && s[i + 7] == 'u' && hex4(
                            s,
                            i + 8,
                        ) is Some {
                            let low = hex4(s, i + 8)->0;
                            if 0xDC00 <= low <= 0xDFFF {
                                lemma_parse_string_body_bounds(
                                    s,
                                    i + 12,
                                    acc.push(surrogate_scalar(code, low) as char),
                                );
                            }
                        }
                    } else if !(0xDC00 <= code <= 0xDFFF) {
                        lemma_parse_string_body_bounds(s, i + 6, acc.push(code as char));
                    }
                }
            } else {
                lemma_parse_string_body_bounds(s, i + 2, acc.push(e));
                lemma_parse_string_body_bounds(s, i + 2, acc.push('"'));
                lemma_parse_string_body_bounds(s, i + 2, acc.push('\\'));
                lemma_parse_string_body_bounds(s, i + 2, acc.push('/'));
                lemma_parse_string_body_bounds(s, i + 2, acc.push('\u{8}'));
                lemma_parse_string_body_bounds(s, i + 2, acc.push('\u{c}'));
                lemma_parse_string_body_bounds(s, i + 2, acc.push('\n'));
                lemma_parse_string_body_bounds(s, i + 2, acc.push('\r'));
                lemma_parse_string_body_bounds(s, i + 2, acc.push('\t'));
            }
        }
    } else if (s[i] as u32) < 32 {
    } else {
        lemma_parse_string_body_bounds(s, i + 1, acc.push(s[i]));
    }
}

pub open spec fn is_dec_digit(c: char) -> bool {
    48 <= c as u32 <= 57
}

pub open spec fn digit_val(c: char) -> u32
    recommends
        is_dec_digit(c),
{
    (c as u32 - 48) as u32
}

/// Read an unsigned decimal number; numbers too large for the protocol
/// fail.
pub open spec fn spec_parse_uint(s: Seq<char>, i: int, acc: u64) -> Option<(u64, int)>
    decreases s.len() - i,
        when 0 <= i <= s.len()
{
    if i < s.len() && is_dec_digit(s[i]) {
        if acc > 0xFFFF_FFFF_FFFF {
            None
        } else {
            spec_parse_uint(s, i + 1, (acc * 10 + digit_val(s[i])) as u64)
        }
    } else {
        Some((acc, i))
    }
}

pub proof fn lemma_parse_uint_bounds(s: Seq<char>, i: int, acc: u64)
    requires
        0 <= i <= s.len(),
    ensures
        spec_parse_uint(s, i, acc) matches Some((v, j)) ==> i <= j <= s.len(),
    decreases s.len() - i,
{
    if i < s.len() && is_dec_digit(s[i]) && acc <= 0xFFFF_FFFF_FFFF {
        lemma_parse_uint_bounds(s, i + 1, (acc * 10 + digit_val(s[i])) as u64);
    }
}

/// Read one JSON value at `i`: a string, `true`, `false`, `null` or an
/// unsigned number. Anything else -- including nested objects and arrays,
/// which the protocol never carries -- fails.
pub open spec fn spec_parse_value(s: Seq<char>, i: int) -> Option<(SpecJson, int)>
    recommends
        0 <= i <= s.len(),
{
    if i >= s.len() {
        None
    } else if s[i] == '"' {
        match spec_parse_string_body(s, i + 1, Seq::empty()) {
            Some((v, j)) => Some((SpecJson::Str(v), j)),
            None => None,
        }
    } else if s[i] == 't' {
        if i + 4 <= s.len() && s[i + 1] == 'r' && s[i + 2] == 'u' && s[i + 3] == 'e' {
            Some((SpecJson::Bool(true), i + 4))
        } else {
            None
        }
    } else if s[i] == 'f' {
        if i + 5 <= s.len() && s[i + 1] == 'a' && s[i + 2] == 'l' && s[i + 3] == 's' && s[i + 4]
            == 'e' {
            Some((SpecJson::Bool(false), i + 5))
        } else {
            None
        }
    } else if s[i] == 'n' {
        if i + 4 <= s.len() && s[i + 1] == 'u' && s[i + 2] == 'l' && s[i + 3] == 'l' {
            Some((SpecJson::Null, i + 4))
        } else {
            None
        }
    } else if is_dec_digit(s[i]) {
        match spec_parse_uint(s, i, 0) {
            Some((v, j)) => Some((SpecJson::Int(v), j)),
            None => None,
        }
    } else {
        None
    }
}

pub proof fn lemma_parse_value_bounds(s: Seq<char>, i: int)
    requires
        0 <= i <= s.len(),
    ensures
        spec_parse_value(s, i) matches Some((v, j)) ==> i < j <= s.len(),
{
    if i < s.len() {
        if s[i] == '"' {
            lemma_parse_string_body_bounds(s, i + 1, Seq::empty());
        } else if is_dec_digit(s[i]) {
            if spec_parse_uint(s, i, 0) is Some {
                lemma_parse_uint_bounds(s, i + 1, digit_val(s[i]) as u64);
                assert(spec_parse_uint(s, i, 0) == spec_parse_uint(
                    s,
                    i + 1,
                    digit_val(s[i]) as u64,
                ));
            }
        }
    }
}

/// Read the members of an object, starting at the first key, until the
/// closing brace. Keys may repeat; lookups take the first occurrence.
pub open spec fn spec_parse_members(
    s: Seq<char>,
    i: int,
    acc: Seq<(Seq<char>, SpecJson)>,
) -> Option<(Seq<(Seq<char>, SpecJson)>, int)>
    decreases s.len() - i,
        when 0 <= i <= s.len()
        via spec_parse_members_decreases
{
    if i >= s.len() || s[i] != '"' {
        None
    } else {
        match spec_parse_string_body(s, i + 1, Seq::empty()) {
            None => None,
            Some((key, j)) => {
                let j1 = spec_skip_ws(s, j);
                if j1 >= s.len() || s[j1] != ':' {
                    None
                } else {
                    let j2 = spec_skip_ws(s, j1 + 1);
                    match spec_parse_value(s, j2) {
                        None => None,
                        Some((v, j3)) => {
                            let j4 = spec_skip_ws(s, j3);
                            if j4 >= s.len() {
                                None
                            } else if s[j4] == '}' {
                                Some((acc.push((key, v)), j4 + 1))
                            } else if s[j4] == ',' {
                                spec_parse_members(s, spec_skip_ws(s, j4 + 1), acc.push((key, v)))
                            } else {
                                None
                            }
                        },
                    }
                }
            },
        }
    }
}

#[via_fn]
proof fn spec_parse_members_decreases(s: Seq<char>, i: int, acc: Seq<(Seq<char>, SpecJson)>) {
    if 0 <= i < s.len() && s[i] == '"' {
        lemma_parse_string_body_bounds(s, i + 1, Seq::empty());
        if let Some((key, j)) = spec_parse_string_body(s, i + 1, Seq::empty()) {
            lemma_skip_ws_bounds(s, j);
            let j1 = spec_skip_ws(s, j);
            if j1 < s.len() && s[j1] == ':' {
                lemma_skip_ws_bounds(s, j1 + 1);
                let j2 = spec_skip_ws(s, j1 + 1);
                lemma_parse_value_bounds(s, j2);
                if let Some((v, j3)) = spec_parse_value(s, j2) {
                    lemma_skip_ws_bounds(s, j3);
                    let j4 = spec_skip_ws(s, j3);
                    if j4 < s.len() && s[j4] == ',' {
                        lemma_skip_ws_bounds(s, j4 + 1);
                    }
                }
            }
        }
    }
}

/// Read a whole object, leading whitespace included.
pub open spec fn spec_parse_object(s: Seq<char>, i: int) -> Option<
    (Seq<(Seq<char>, SpecJson)>, int),
>
    recommends
        0 <= i <= s.len(),
{
    let j = spec_skip_ws(s, i);
    if j >= s.len() || s[j] != '{' {
        None
    } else {
        let j1 = spec_skip_ws(s, j + 1);
        if j1 < s.len() && s[j1] == '}' {
            Some((Seq::empty(), j1 + 1))
        } else {
            spec_parse_members(s, j1, Seq::empty())
        }
    }
}

/// Read a text frame as one object with nothing but whitespace after it.
pub open spec fn spec_parse_document(s: Seq<char>) -> Option<Seq<(Seq<char>, SpecJson)>> {
    match spec_parse_object(s, 0) {
        None => None,
        Some((ms, j)) => if spec_skip_ws(s, j) == s.len() {
            Some(ms)
        } else {
            None
        },
    }
}

/// The value of the first member named `key`, if any.
pub open spec fn spec_find(ms: Seq<(Seq<char>, SpecJson)>, key: Seq<char>) -> Option<SpecJson>
    decreases ms.len(),
{
    if ms.len() == 0 {
        None
    } else if ms[0].0 == key {
        Some(ms[0].1)
    } else {
        spec_find(ms.drop_first(), key)
    }
}

/// Relies on char::from_u32: it returns Some exactly when the argument is a
/// Unicode scalar value (not a surrogate, not above 0x10FFFF), and the
/// returned character has the argument as its scalar value.
#[verifier::external_body]
pub(crate) fn char_from_u32(u: u32) -> (r: Option<char>)
    ensures
        r is Some <==> (!(0xD800 <= u <= 0xDFFF) && u <= 0x10FFFF),
        r matches Some(c) ==> c as u32 == u,
{
    char::from_u32(u)
}

fn ws_char(c: char) -> (r: bool)
    ensures
        r == is_json_ws(c),
{
    c == ' ' || c == '\t' || c == '\n' || c == '\r'
}

/// Advance past whitespace.
fn skip_ws(s: &Vec<char>, start: usize) -> (r: usize)
    requires
        start <= s@.len(),
    ensures
        r == spec_skip_ws(s@, start as int),
        start <= r <= s@.len(),
{
    let mut i: usize = start;
    while i < s.len() && ws_char(s[i])
        invariant
            start <= i <= s@.len(),
            spec_skip_ws(s@, start as int) == spec_skip_ws(s@, i as int),
        decreases s@.len() - i,
    {
        i += 1;
    }
    i
}

fn hex_val_of(c: char) -> (r: Option<u32>)
    ensures
        r == hex_val(c),
{
    let u = c as u32;
    if 48 <= u && u <= 57 {
        Some(u - 48)
    } else if 97 <= u && u <= 102 {
        Some(u - 87)
    } else if 65 <= u && u <= 70 {
        Some(u - 55)
    } else {
        None
    }
}

fn hex4_at(s: &Vec<char>, i: usize) -> (r: Option<u32>)
    requires
        i + 4 <= s@.len(),
    ensures
        r == hex4(s@, i as int),
{
    let n = s.len();
    if i > n - 4 {
        return None;
    }
    let Some(a) = hex_val_of(s[i]) else { return None };
    let Some(b) = hex_val_of(s[i + 1]) else { return None };
    let Some(c) = hex_val_of(s[i + 2]) else { return None };
    let Some(d) = hex_val_of(s[i + 3]) else { return None };
    Some(a * 4096 + b * 256 + c * 16 + d)
}

/// Read a JSON string body starting just after the opening quote.
fn parse_string_body(s: &Vec<char>, start: usize) -> (r: Option<(Vec<char>, usize)>)
    requires
        start <= s@.len(),
    ensures
        match spec_parse_string_body(s@, start as int, Seq::<char>::empty()) {
            Some((v, j)) => r matches Some(p) && p.0@ == v && p.1 == j,
            None => r is None,
        },
{
    let mut acc: Vec<char> = Vec::new();
    let mut i: usize = start;
    loop
        invariant
            start <= i <= s@.len(),
            spec_parse_string_body(s@, start as int, Seq::<char>::empty())
                == spec_parse_string_body(s@, i as int, acc@),
        decreases s@.len() - i,
    {
        if i >= s.len() {
            return None;
        }
        let c = s[i];
        if c == '"' {
            return Some((acc, i + 1));
        }
        if c == '\\' {
            if i + 1 >= s.len() {
                return None;
            }
            let e = s[i + 1];
            if e == '"' {
                acc.push('"');
                i = i + 2;
            } else if e == '\\' {
                acc.push('\\');
                i = i + 2;
            } else if e == '/' {
                acc.push('/');
                i = i + 2;
            } else if e == 'b' {
                acc.push('\u{8}');
                i = i + 2;
            } else if e == 'f' {
                acc.push('\u{c}');
                i = i + 2;
            } else if e == 'n' {
                acc.push('\n');
                i = i + 2;
            } else if e == 'r' {
                acc.push('\r');
                i = i + 2;
            } else if e == 't' {
                acc.push('\t');
                i = i + 2;
            } else if e == 'u' {
                if s.len() - i < 6 {
                    return None;
                }
                let Some(code) = hex4_at(s, i + 2) else { return None };
                if 0xDC00 <= code && code <= 0xDFFF {
                    return None;
                }
                if 0xD800 <= code && code <= 0xDBFF {
                    if s.len() - i < 12 || s[i + 6] != '\\' || s[i + 7] != 'u' {
                        return None;
                    }
                    let Some(low) = hex4_at(s, i + 8) else { return None };
                    if !(0xDC00 <= low && low <= 0xDFFF) {
                        return None;
                    }
                    let combined = 0x10000 + (code - 0xD800) * 0x400 + (low - 0xDC00);
                    let Some(decoded) = char_from_u32(combined) else { return None };
                    proof {
                        vstd::utf8::char_u32_cast(decoded, combined);
                    }
                    acc.push(decoded);
                    i = i + 12;
                } else {
                    let Some(decoded) = char_from_u32(code) else { return None };
                    proof {
                        vstd::utf8::char_u32_cast(decoded, code);
                    }
                    acc.push(decoded);
                    i = i + 6;
                }
            } else {
                return None;
            }
        } else if (c as u32) < 32 {
            return None;
        } else {
            acc.push(c);
            i = i + 1;
        }
    }
}

/// Read an unsigned decimal number.
fn parse_uint(s: &Vec<char>, start: usize) -> (r: Option<(u64, usize)>)
    requires
        start <= s@.len(),
    ensures
        match spec_parse_uint(s@, start as int, 0) {
            Some((v, j)) => r matches Some(p) && p.0 == v && p.1 == j,
            None => r is None,
        },
{
    let mut acc: u64 = 0;
    let mut i: usize = start;
    loop
        invariant
            start <= i <= s@.len(),
            spec_parse_uint(s@, start as int, 0) == spec_parse_uint(s@, i as int, acc),
        decreases s@.len() - i,
    {
        if i >= s.len() {
            return Some((acc, i));
        }
        let c = s[i];
        let u = c as u32;
        if !(48 <= u && u <= 57) {
            return Some((acc, i));
        }
        if acc > 0xFFFF_FFFF_FFFF {
            return None;
        }
        acc = acc * 10 + ((u - 48) as u64);
        i += 1;
    }
}

/// Read one JSON value.
fn parse_value(s: &Vec<char>, start: usize) -> (r: Option<(JsonValue, usize)>)
    requires
        start <= s@.len(),
    ensures
        match spec_parse_value(s@, start as int) {
            Some((v, j)) => r matches Some(p) && p.0@ == v && p.1 == j,
            None => r is None,
        },
{
    if start >= s.len() {
        return None;
    }
    let c = s[start];
    if c == '"' {
        match parse_string_body(s, start + 1) {
            Some((v, j)) => Some((JsonValue::Str(v), j)),
            None => None,
        }
    } else if c == 't' {
        if s.len() - start >= 4 && s[start + 1] == 'r' && s[start + 2] == 'u' && s[start + 3]
            == 'e' {
            Some((JsonValue::Bool(true), start + 4))
        } else {
            None
        }
    } else if c == 'f' {
        if s.len() - start >= 5 && s[start + 1] == 'a' && s[start + 2] == 'l' && s[start + 3]
            == 's' && s[start + 4] == 'e' {
            Some((JsonValue::Bool(false), start + 5))
        } else {
            None
        }
    } else if c == 'n' {
        if s.len() - start >= 4 && s[start + 1] == 'u' && s[start + 2] == 'l' && s[start + 3]
            == 'l' {
            Some((JsonValue::Null, start + 4))
        } else {
            None
        }
    } else if 48 <= c as u32 && c as u32 <= 57 {
        match parse_uint(s, start) {
            Some((v, j)) => Some((JsonValue::Int(v), j)),
            None => None,
        }
    } else {
        None
    }
}

/// Read the members of an object, starting at the first key.
fn parse_members(s: &Vec<char>, start: usize) -> (r: Option<(Vec<(Vec<char>, JsonValue)>, usize)>)
    requires
        start <= s@.len(),
    ensures
        match spec_parse_members(s@, start as int, Seq::empty()) {
            Some((ms, j)) => r matches Some(p) && members_view(p.0@) == ms && p.1 == j,
            None => r is None,
        },
        r matches Some(p) ==> p.1 <= s@.len(),
{
    let mut members: Vec<(Vec<char>, JsonValue)> = Vec::new();
    let mut i: usize = start;
    proof {
        assert(members_view(members@) =~= Seq::<(Seq<char>, SpecJson)>::empty());
    }
    loop
        invariant
            start <= i <= s@.len(),
            spec_parse_members(s@, start as int, Seq::empty()) == spec_parse_members(
                s@,
                i as int,
                members_view(members@),
            ),
        decreases s@.len() - i,
    {
        let ghost acc0: Seq<(Seq<char>, SpecJson)> = members_view(members@);
        let ghost i0: int = i as int;
        if i >= s.len() || s[i] != '"' {
            return None;
        }
        let Some((key, j)) = parse_string_body(s, i + 1) else { return None };
        proof {
            lemma_parse_string_body_bounds(s@, i0 + 1, Seq::<char>::empty());
        }
        let j1 = skip_ws(s, j);
        if j1 >= s.len() || s[j1] != ':' {
            return None;
        }
        let j2 = skip_ws(s, j1 + 1);
        let Some((v, j3)) = parse_value(s, j2) else { return None };
        proof {
            lemma_parse_value_bounds(s@, j2 as int);
        }
        let j4 = skip_ws(s, j3);
        if j4 >= s.len() {
            return None;
        }
        if s[j4] == '}' {
            members.push((key, v));
            proof {
                assert(members_view(members@) =~= acc0.push((key@, v@)));
            }
            return Some((members, j4 + 1));
        }
        if s[j4] != ',' {
            return None;
        }
        let next = skip_ws(s, j4 + 1);
        members.push((key, v));
        proof {
            assert(members_view(members@) =~= acc0.push((key@, v@)));
            assert(spec_parse_members(s@, i0, acc0) == spec_parse_members(
                s@,
                next as int,
                members_view(members@),
            ));
        }
        i = next;
    }
}

/// Read a whole object, leading whitespace included.
fn parse_object(s: &Vec<char>, start: usize) -> (r: Option<(Vec<(Vec<char>, JsonValue)>, usize)>)
    requires
        start <= s@.len(),
    ensures
        match spec_parse_object(s@, start as int) {
            Some((ms, j)) => r matches Some(p) && members_view(p.0@) == ms && p.1 == j,
            None => r is None,
        },
        r matches Some(p) ==> p.1 <= s@.len(),
{
    let j = skip_ws(s, start);
    if j >= s.len() || s[j] != '{' {
        return None;
    }
    let j1 = skip_ws(s, j + 1);
    if j1 < s.len() && s[j1] == '}' {
        let empty: Vec<(Vec<char>, JsonValue)> = Vec::new();
        proof {
            assert(members_view(empty@) =~= Seq::<(Seq<char>, SpecJson)>::empty());
        }
        return Some((empty, j1 + 1));
    }
    parse_members(s, j1)
}

/// Read a text frame as one JSON object; anything but a single object with
/// trailing whitespace fails.
pub fn parse_document(s: &Vec<char>) -> (r: Option<Vec<(Vec<char>, JsonValue)>>)
    ensures
        match spec_parse_document(s@) {
            Some(ms) => r matches Some(p) && members_view(p@) == ms,
            None => r is None,
        },
{
    let Some((members, j)) = parse_object(s, 0) else { return None };
    let end = skip_ws(s, j);
    if end == s.len() {
        Some(members)
    } else {
        None
    }
}

pub proof fn lemma_find_from(ms: Seq<(Seq<char>, SpecJson)>, key: Seq<char>, i: int)
    requires
        0 <= i <= ms.len(),
        forall|j: int| 0 <= j < i ==> (#[trigger] ms[j]).0 != key,
    ensures
        spec_find(ms, key) == spec_find(ms.skip(i), key),
    decreases i,
{
    if i > 0 {
        lemma_find_from(ms, key, i - 1);
        assert(ms.skip(i - 1).len() > 0);
        assert(ms.skip(i - 1)[0] == ms[i - 1]);
        assert(ms.skip(i - 1).drop_first() =~= ms.skip(i));
    } else {
        assert(ms.skip(0) =~= ms);
    }
}

/// Find the first member named `key` and hand back its position.
pub fn find_member(ms: &Vec<(Vec<char>, JsonValue)>, key: &Vec<char>) -> (r: Option<usize>)
    ensures
        match spec_find(members_view(ms@), key@) {
            Some(v) => r matches Some(ix) && ix < ms@.len() && ms@[ix as int].1@ == v,
            None => r is None,
        },
{
    let mut i: usize = 0;
    while i < ms.len()
        invariant
            0 <= i <= ms@.len(),
            forall|j: int| 0 <= j < i ==> (#[trigger] members_view(ms@)[j]).0 != key@,
        decreases ms@.len() - i,
    {
        if crate::text::eq_chars(&ms[i].0, key) {
            proof {
                lemma_find_from(members_view(ms@), key@, i as int);
                assert(members_view(ms@).skip(i as int)[0] == members_view(ms@)[i as int]);
                assert(spec_find(members_view(ms@).skip(i as int), key@) == Some(
                    members_view(ms@)[i as int].1,
                ));
            }
            return Some(i);
        }
        i += 1;
    }
    proof {
        lemma_find_from(members_view(ms@), key@, ms@.len() as int);
        assert(members_view(ms@).skip(ms@.len() as int).len() == 0);
    }
    None
}

/// `json_escaped` unfolded from the left: the first character's escape,
/// then the rest.
pub proof fn lemma_escaped_unfold_left(s: Seq<char>)
    requires
        s.len() > 0,
    ensures
        json_escaped(s) == escape_char(s[0]) + json_escaped(s.drop_first()),
    decreases s.len(),
{
    if s.len() == 1 {
        assert(s.drop_last() =~= Seq::<char>::empty());
        assert(s.drop_first() =~= Seq::<char>::empty());
        assert(json_escaped(s) =~= escape_char(s[0]) + json_escaped(s.drop_first()));
    } else {
        lemma_escaped_unfold_left(s.drop_last());
        assert(s.drop_last()[0] == s[0]);
        assert(s.drop_last().drop_first() =~= s.drop_first().drop_last());
        assert(s.drop_first().last() == s.last());
        assert(json_escaped(s.drop_first()) == json_escaped(s.drop_first().drop_last())
            + escape_char(s.drop_first().last()));
        assert(json_escaped(s) =~= escape_char(s[0]) + json_escaped(s.drop_first()));
    }
}

/// Every hexadecimal digit the writer emits reads back as its value.
pub proof fn lemma_hex_digit_value(n: nat)
    requires
        n < 16,
    ensures
        hex_val(hex_digit(n)) == Some(n as u32),
{
}

/// Escaping is lossless: the string-body reader, started where the writer
/// put an escaped text followed by its closing quote, accumulates exactly
/// the original characters and stops just past the quote. So any reader of
/// this grammar recovers the text the client wrote.
#[verifier::rlimit(80)]
pub proof fn lemma_string_round_trip(doc: Seq<char>, i: int, acc: Seq<char>, s: Seq<char>)
    requires
        0 <= i,
        i + json_escaped(s).len() + 1 <= doc.len(),
        doc.subrange(i, i + json_escaped(s).len() + 1) == json_escaped(s) + seq!['"'],
    ensures
        spec_parse_string_body(doc, i, acc) == Some(
            (acc + s, i + json_escaped(s).len() + 1),
        ),
    decreases s.len(),
{
    let shape = doc.subrange(i, i + json_escaped(s).len() + 1);
    if s.len() == 0 {
        assert(doc[i] == shape[0]);
        assert(acc + s =~= acc);
    } else {
        lemma_escaped_unfold_left(s);
        let c = s[0];
        let e = escape_char(c);
        let rest = json_escaped(s.drop_first());
        let full = e + (rest + seq!['"']);
        assert(shape =~= full);
        let j2 = i + e.len();
        assert forall|x: int| 0 <= x < rest.len() + 1 implies doc.subrange(
            j2,
            j2 + rest.len() + 1,
        )[x] == (rest + seq!['"'])[x] by {
            assert(shape[e.len() + x] == doc[i + (e.len() + x)]);
        }
        assert(doc.subrange(j2, j2 + rest.len() + 1) =~= rest + seq!['"']);
        lemma_string_round_trip(doc, j2, acc.push(c), s.drop_first());
        assert(acc.push(c) + s.drop_first() =~= acc + s);
        assert(doc[i] == shape[0] && shape[0] == full[0]);
        if c == '"' || c == '\\' || c == '\u{8}' || c == '\u{c}' || c == '\n' || c == '\r' || c
            == '\t' {
            assert(doc[i + 1] == shape[1] && shape[1] == full[1]);
            assert(spec_parse_string_body(doc, i, acc) == spec_parse_string_body(
                doc,
                i + 2,
                acc.push(c),
            ));
        } else if (c as u32) < 32 {
            let u = c as u32;
            assert(doc[i + 1] == shape[1] && shape[1] == full[1]);
            assert(doc[i + 2] == shape[2] && shape[2] == full[2]);
            assert(doc[i + 3] == shape[3] && shape[3] == full[3]);
            assert(doc[i + 4] == shape[4] && shape[4] == full[4]);
            assert(doc[i + 5] == shape[5] && shape[5] == full[5]);
            lemma_hex_digit_value((u / 16) as nat);
            lemma_hex_digit_value((u % 16) as nat);
            assert(hex4(doc, i + 2) == Some(u)) by {
                assert(hex_val(doc[i + 2]) == Some(0u32) && hex_val(doc[i + 3]) == Some(0u32));
                assert(hex_val(doc[i + 4]) == Some((u / 16) as u32));
                assert(hex_val(doc[i + 5]) == Some((u % 16) as u32));
                assert((u / 16) * 16 + u % 16 == u) by (nonlinear_arith);
            }
            vstd::utf8::char_u32_cast(c, u);
            assert(spec_parse_string_body(doc, i, acc) == spec_parse_string_body(
                doc,
                i + 6,
                acc.push(c),
            ));
        } else {
            assert(doc[i] == c);
            assert(spec_parse_string_body(doc, i, acc) == spec_parse_string_body(
                doc,
                i + 1,
                acc.push(c),
            ));
        }
    }
}

/// A written string literal reads back as the value it was written from.
pub proof fn lemma_quoted_round_trip(doc: Seq<char>, i: int, s: Seq<char>)
    requires
        0 <= i,
        i + quoted(s).len() <= doc.len(),
        doc.subrange(i, i + quoted(s).len()) == quoted(s),
    ensures
        spec_parse_value(doc, i) == Some(
            (SpecJson::Str(s), i + quoted(s).len()),
        ),
{
    let shape = doc.subrange(i, i + quoted(s).len());
    assert(doc[i] == shape[0]);
    assert forall|x: int| 0 <= x < json_escaped(s).len() + 1 implies doc.subrange(
        i + 1,
        i + 1 + json_escaped(s).len() + 1,
    )[x] == (json_escaped(s) + seq!['"'])[x] by {
        assert(shape[1 + x] == doc[i + (1 + x)]);
    }
    assert(doc.subrange(i + 1, i + 1 + json_escaped(s).len() + 1) =~= json_escaped(s)
        + seq!['"']);
    lemma_string_round_trip(doc, i + 1, Seq::empty(), s);
    assert(Seq::<char>::empty() + s =~= s);
}

} // verus!
