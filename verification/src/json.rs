//! The JSON grammar of the profile record.
//!
//! The response body must be one JSON object, optionally surrounded by
//! whitespace. Known fields are read with their declared types; unrecognized
//! fields are skipped after a full syntax check; a duplicated known field,
//! a missing required field, a type mismatch or any syntax error makes the
//! whole parse fail. The spec functions define the grammar; each executable
//! function is proved to return exactly what its spec function says.

use vstd::prelude::*;

use crate::profile::GitHubUser;
use crate::profile::ProfileSpec;
use crate::profile::opt_view;

verus! {

broadcast use vstd::utf8::char_u32_cast;

// ---------------------------------------------------------------------------
// Characters and whitespace
// ---------------------------------------------------------------------------

pub open spec fn is_ws_char(c: char) -> bool {
    c == ' ' || c == '\t' || c == '\n' || c == '\r'
}

pub open spec fn is_digit_char(c: char) -> bool {
    48 <= c as u32 && c as u32 <= 57
}

/// The first index at or after `i` that does not hold whitespace.
pub open spec fn spec_skip_ws(s: Seq<char>, i: int) -> int
    decreases s.len() - i,
{
    if 0 <= i && i < s.len() && is_ws_char(s[i]) {
        spec_skip_ws(s, i + 1)
    } else {
        i
    }
}

fn skip_ws(s: &str, n: usize, i: usize) -> (r: usize)
    requires
        n == s@.len(),
        i <= n,
    ensures
        i <= r <= n,
        r as int == spec_skip_ws(s@, i as int),
    decreases n - i,
{
    if i < n {
        let c = s.get_char(i);
        if c == ' ' || c == '\t' || c == '\n' || c == '\r' {
            skip_ws(s, n, i + 1)
        } else {
            i
        }
    } else {
        i
    }
}

/// The first index at or after `i` that does not hold a decimal digit.
pub open spec fn spec_skip_digits(s: Seq<char>, i: int) -> int
    decreases s.len() - i,
{
    if 0 <= i && i < s.len() && is_digit_char(s[i]) {
        spec_skip_digits(s, i + 1)
    } else {
        i
    }
}

fn skip_digits(s: &str, n: usize, i: usize) -> (r: usize)
    requires
        n == s@.len(),
        i <= n,
    ensures
        i <= r <= n,
        r as int == spec_skip_digits(s@, i as int),
    decreases n - i,
{
    if i < n {
        let c = s.get_char(i);
        if 48 <= c as u32 && c as u32 <= 57 {
            skip_digits(s, n, i + 1)
        } else {
            i
        }
    } else {
        i
    }
}

// ---------------------------------------------------------------------------
// Strings
// ---------------------------------------------------------------------------

pub open spec fn spec_hex_val(c: char) -> Option<u32> {
    let u = c as u32;
    if 48 <= u && u <= 57 {
        Some((u - 48) as u32)
    } else if 65 <= u && u <= 70 {
        Some((u - 55) as u32)
    } else if 97 <= u && u <= 102 {
        Some((u - 87) as u32)
    } else {
        None
    }
}

/// Four hexadecimal digits starting at `i`, as a value.
pub open spec fn spec_hex4(s: Seq<char>, i: int) -> Option<u32> {
    if 0 <= i && i + 4 <= s.len() {
        match (spec_hex_val(s[i]), spec_hex_val(s[i + 1]), spec_hex_val(s[i + 2]), spec_hex_val(
            s[i + 3],
        )) {
            (Some(a), Some(b), Some(c), Some(d)) => Some(
                (a * 0x1000 + b * 0x100 + c * 0x10 + d) as u32,
            ),
            _ => None,
        }
    } else {
        None
    }
}

fn hex_val(c: char) -> (r: Option<u32>)
    ensures
        r == spec_hex_val(c),
        r matches Some(v) ==> v <= 15,
{
    let u = c as u32;
    if 48 <= u && u <= 57 {
        Some(u - 48)
    } else if 65 <= u && u <= 70 {
        Some(u - 55)
    } else if 97 <= u && u <= 102 {
        Some(u - 87)
    } else {
        None
    }
}

fn hex4(s: &str, n: usize, i: usize) -> (r: Option<u32>)
    requires
        n == s@.len(),
        i <= n,
    ensures
        r == spec_hex4(s@, i as int),
        r is Some ==> i + 4 <= n,
        r matches Some(h) ==> h <= 0xFFFF,
{
    if n - i >= 4 {
        let a = hex_val(s.get_char(i));
        let b = hex_val(s.get_char(i + 1));
        let c = hex_val(s.get_char(i + 2));
        let d = hex_val(s.get_char(i + 3));
        match (a, b, c, d) {
            (Some(a), Some(b), Some(c), Some(d)) => Some(a * 0x1000 + b * 0x100 + c * 0x10 + d),
            _ => None,
        }
    } else {
        None
    }
}

/// Converts a code point to a `char`.
///
/// Relies on `char::from_u32`: it returns `Some` exactly for the values that
/// are Unicode scalar values — everything up to 0x10FFFF except the surrogate
/// range — and the returned `char` has the given code point.
#[verifier::external_body]
fn char_from_code(v: u32) -> (r: Option<char>)
    ensures
        r is Some <==> (v < 0xD800 || (0xE000 <= v && v <= 0x10FFFF)),
        r matches Some(c) ==> c as u32 == v,
{
    char::from_u32(v)
}

/// One escape sequence, after the backslash: the character it denotes and
/// the index just past it. A high surrogate must be followed by a second
/// escape holding a low surrogate; the pair denotes one character.
pub open spec fn spec_parse_escape(s: Seq<char>, i: int) -> Option<(char, int)> {
    if 0 <= i && i < s.len() {
        let c = s[i];
        if c == '"' {
            Some(('"', i + 1))
        } else if c == '\\' {
            Some(('\\', i + 1))
        } else if c == '/' {
            Some(('/', i + 1))
        } else if c == 'b' {
            Some(('\u{8}', i + 1))
        } else if c == 'f' {
            Some(('\u{c}', i + 1))
        } else if c == 'n' {
            Some(('\n', i + 1))
        } else if c == 'r' {
            Some(('\r', i + 1))
        } else if c == 't' {
            Some(('\t', i + 1))
        } else if c == 'u' {
            match spec_hex4(s, i + 1) {
                Some(h) => {
                    if h < 0xD800 || h > 0xDFFF {
                        Some(((h as char), i + 5))
                    } else if h < 0xDC00 {
                        if i + 7 <= s.len() && s[i + 5] == '\\' && s[i + 6] == 'u' {
                            match spec_hex4(s, i + 7) {
                                Some(l) => {
                                    if 0xDC00 <= l && l <= 0xDFFF {
                                        Some(
                                            (
                                                (((0x10000 + (h - 0xD800) * 0x400 + (l
                                                    - 0xDC00)) as u32) as char),
                                                i + 11,
                                            ),
                                        )
                                    } else {
                                        None
                                    }
                                },
                                None => None,
                            }
                        } else {
                            None
                        }
                    } else {
                        None
                    }
                },
                None => None,
            }
        } else {
            None
        }
    } else {
        None
    }
}

fn parse_escape(s: &str, n: usize, i: usize) -> (r: Option<(char, usize)>)
    requires
        n == s@.len(),
        i <= n,
    ensures
        match spec_parse_escape(s@, i as int) {
            Some(p) => r matches Some(q) && q.0 == p.0 && q.1 as int == p.1 && i < q.1 <= n,
            None => r is None,
        },
{
    if i < n {
        let c = s.get_char(i);
        if c == '"' {
            Some(('"', i + 1))
        } else if c == '\\' {
            Some(('\\', i + 1))
        } else if c == '/' {
            Some(('/', i + 1))
        } else if c == 'b' {
            Some(('\u{8}', i + 1))
        } else if c == 'f' {
            Some(('\u{c}', i + 1))
        } else if c == 'n' {
            Some(('\n', i + 1))
        } else if c == 'r' {
            Some(('\r', i + 1))
        } else if c == 't' {
            Some(('\t', i + 1))
        } else if c == 'u' {
            match hex4(s, n, i + 1) {
                Some(h) => {
                    if h < 0xD800 || h > 0xDFFF {
                        match char_from_code(h) {
                            Some(ch) => {
                                proof {
                                    vstd::utf8::char_u32_cast(ch, h);
                                }
                                Some((ch, i + 5))
                            },
                            None => {
                                assert(false);
                                None
                            },
                        }
                    } else if h < 0xDC00 {
                        if n - i >= 7 && s.get_char(i + 5) == '\\' && s.get_char(i + 6) == 'u' {
                            match hex4(s, n, i + 7) {
                                Some(l) => {
                                    if 0xDC00 <= l && l <= 0xDFFF {
                                        let code = 0x10000 + (h - 0xD800) * 0x400 + (l - 0xDC00);
                                        match char_from_code(code) {
                                            Some(ch) => {
                                                proof {
                                                    vstd::utf8::char_u32_cast(ch, code);
                                                }
                                                Some((ch, i + 11))
                                            },
                                            None => {
                                                assert(false);
                                                None
                                            },
                                        }
                                    } else {
                                        None
                                    }
                                },
                                None => None,
                            }
                        } else {
                            None
                        }
                    } else {
                        None
                    }
                },
                None => None,
            }
        } else {
            None
        }
    } else {
        None
    }
}

/// The characters of a string body, from just after the opening quote to the
/// closing quote: escapes are decoded, and an unescaped control character is
/// an error.
pub open spec fn spec_parse_string_rest(s: Seq<char>, i: int) -> Option<(Seq<char>, int)>
    decreases s.len() - i,
{
    if 0 <= i && i < s.len() {
        let c = s[i];
        if c == '"' {
            Some((Seq::empty(), i + 1))
        } else if c == '\\' {
            match spec_parse_escape(s, i + 1) {
                Some((ch, j)) => {
                    if i < j && j <= s.len() {
                        match spec_parse_string_rest(s, j) {
                            Some((t, j2)) => Some((seq![ch] + t, j2)),
                            None => None,
                        }
                    } else {
                        None
                    }
                },
                None => None,
            }
        } else if (c as u32) < 0x20 {
            None
        } else {
            match spec_parse_string_rest(s, i + 1) {
                Some((t, j2)) => Some((seq![c] + t, j2)),
                None => None,
            }
        }
    } else {
        None
    }
}

/// A JSON string starting at `i`: its decoded characters and the index just
/// past the closing quote.
pub open spec fn spec_parse_string(s: Seq<char>, i: int) -> Option<(Seq<char>, int)> {
    if 0 <= i && i < s.len() && s[i] == '"' {
        spec_parse_string_rest(s, i + 1)
    } else {
        None
    }
}

fn parse_string_rest(s: &str, n: usize, i: usize) -> (r: Option<(String, usize)>)
    requires
        n == s@.len(),
        i <= n,
    ensures
        match spec_parse_string_rest(s@, i as int) {
            Some(p) => r matches Some(q) && q.0@ == p.0 && q.1 as int == p.1 && i < q.1 <= n,
            None => r is None,
        },
    decreases n - i,
{
    if i < n {
        let c = s.get_char(i);
        if c == '"' {
            Some((String::new(), i + 1))
        } else if c == '\\' {
            match parse_escape(s, n, i + 1) {
                Some((ch, j)) => {
                    match parse_string_rest(s, n, j) {
                        Some((t, j2)) => {
                            let mut out = String::new();
                            crate::render::push_char(&mut out, ch);
                            out.append(t.as_str());
                            proof {
                                assert(out@ =~= seq![ch] + t@);
                            }
                            Some((out, j2))
                        },
                        None => None,
                    }
                },
                None => None,
            }
        } else if (c as u32) < 0x20 {
            None
        } else {
            match parse_string_rest(s, n, i + 1) {
                Some((t, j2)) => {
                    let mut out = String::new();
                    crate::render::push_char(&mut out, c);
                    out.append(t.as_str());
                    proof {
                        assert(out@ =~= seq![c] + t@);
                    }
                    Some((out, j2))
                },
                None => None,
            }
        }
    } else {
        None
    }
}

fn parse_string(s: &str, n: usize, i: usize) -> (r: Option<(String, usize)>)
    requires
        n == s@.len(),
        i <= n,
    ensures
        match spec_parse_string(s@, i as int) {
            Some(p) => r matches Some(q) && q.0@ == p.0 && q.1 as int == p.1 && i < q.1 <= n,
            None => r is None,
        },
{
    if i < n && s.get_char(i) == '"' {
        parse_string_rest(s, n, i + 1)
    } else {
        None
    }
}

// ---------------------------------------------------------------------------
// Numbers
// ---------------------------------------------------------------------------

/// A run of digits folded into a value, starting from `acc`. The fold fails
/// when the value would pass `max`.
pub open spec fn spec_parse_uint_digits(s: Seq<char>, i: int, acc: u64, max: u64) -> Option<
    (u64, int),
>
    decreases s.len() - i,
{
    if 0 <= i && i < s.len() && is_digit_char(s[i]) {
        let d = (s[i] as u32 - 48) as u64;
        if acc <= (max - d) / 10 {
            spec_parse_uint_digits(s, i + 1, (acc * 10 + d) as u64, max)
        } else {
            None
        }
    } else {
        Some((acc, i))
    }
}

/// An unsigned JSON integer starting at `i`, no larger than `max`: a lone
/// zero or a nonzero digit run, not followed by a fraction or an exponent.
/// A leading minus sign, a fraction, an exponent or an overflow is an error:
/// the field's type admits none of them.
pub open spec fn spec_parse_uint(s: Seq<char>, i: int, max: u64) -> Option<(u64, int)> {
    if 0 <= i && i < s.len() {
        if s[i] == '0' {
            if i + 1 < s.len() && (is_digit_char(s[i + 1]) || s[i + 1] == '.' || s[i + 1] == 'e'
                || s[i + 1] == 'E') {
                None
            } else {
                Some((0, i + 1))
            }
        } else if is_digit_char(s[i]) {
            match spec_parse_uint_digits(s, i, 0, max) {
                Some((v, j)) => {
                    if j < s.len() && (s[j] == '.' || s[j] == 'e' || s[j] == 'E') {
                        None
                    } else {
                        Some((v, j))
                    }
                },
                None => None,
            }
        } else {
            None
        }
    } else {
        None
    }
}

fn parse_uint_digits(s: &str, n: usize, i: usize, acc: u64, max: u64) -> (r: Option<(u64, usize)>)
    requires
        n == s@.len(),
        i <= n,
        9 <= max,
    ensures
        match spec_parse_uint_digits(s@, i as int, acc, max) {
            Some(p) => r matches Some(q) && q.0 == p.0 && q.1 as int == p.1 && i <= q.1 <= n && (
            i < n && is_digit_char(s@[i as int]) ==> i < q.1),
            None => r is None,
        },
    decreases n - i,
{
    if i < n {
        let c = s.get_char(i);
        let u = c as u32;
        if 48 <= u && u <= 57 {
            let d = (u - 48) as u64;
            if acc <= (max - d) / 10 {
                proof {
                    assert(acc * 10 + d <= max) by {
                        assert(acc * 10 <= ((max - d) / 10) * 10) by (nonlinear_arith)
                            requires
                                acc <= (max - d) / 10,
                        ;
                        assert(((max - d) / 10) * 10 <= max - d) by (nonlinear_arith);
                    };
                }
                parse_uint_digits(s, n, i + 1, acc * 10 + d, max)
            } else {
                None
            }
        } else {
            Some((acc, i))
        }
    } else {
        Some((acc, i))
    }
}

fn parse_uint(s: &str, n: usize, i: usize, max: u64) -> (r: Option<(u64, usize)>)
    requires
        n == s@.len(),
        i <= n,
        9 <= max,
    ensures
        match spec_parse_uint(s@, i as int, max) {
            Some(p) => r matches Some(q) && q.0 == p.0 && q.1 as int == p.1 && i < q.1 <= n,
            None => r is None,
        },
{
    if i < n {
        let c = s.get_char(i);
        if c == '0' {
            if i + 1 < n {
                let c2 = s.get_char(i + 1);
                if (48 <= c2 as u32 && c2 as u32 <= 57) || c2 == '.' || c2 == 'e' || c2 == 'E' {
                    None
                } else {
                    Some((0, i + 1))
                }
            } else {
                Some((0, i + 1))
            }
        } else if 48 <= c as u32 && c as u32 <= 57 {
            match parse_uint_digits(s, n, i, 0, max) {
                Some((v, j)) => {
                    if j < n {
                        let c2 = s.get_char(j);
                        if c2 == '.' || c2 == 'e' || c2 == 'E' {
                            None
                        } else {
                            Some((v, j))
                        }
                    } else {
                        Some((v, j))
                    }
                },
                None => None,
            }
        } else {
            None
        }
    } else {
        None
    }
}

/// The fraction and exponent parts of a number being skipped, starting at
/// `i`: the index just past them.
pub open spec fn spec_skip_number_tail(s: Seq<char>, i: int) -> Option<int> {
    let f = if 0 <= i && i < s.len() && s[i] == '.' {
        let d = spec_skip_digits(s, i + 1);
        if d > i + 1 {
            Some(d)
        } else {
            None
        }
    } else {
        Some(i)
    };
    match f {
        Some(j) => {
            if 0 <= j && j < s.len() && (s[j] == 'e' || s[j] == 'E') {
                let k = if j + 1 < s.len() && (s[j + 1] == '+' || s[j + 1] == '-') {
                    j + 2
                } else {
                    j + 1
                };
                let d2 = spec_skip_digits(s, k);
                if d2 > k {
                    Some(d2)
                } else {
                    None
                }
            } else {
                Some(j)
            }
        },
        None => None,
    }
}

/// A full JSON number starting at `i`, of any shape, skipped: the index just
/// past it.
pub open spec fn spec_skip_number(s: Seq<char>, i: int) -> Option<int> {
    let i1 = if 0 <= i && i < s.len() && s[i] == '-' {
        i + 1
    } else {
        i
    };
    if 0 <= i1 && i1 < s.len() && s[i1] == '0' {
        spec_skip_number_tail(s, i1 + 1)
    } else if 0 <= i1 && i1 < s.len() && is_digit_char(s[i1]) {
        spec_skip_number_tail(s, spec_skip_digits(s, i1 + 1))
    } else {
        None
    }
}

fn skip_number_tail(s: &str, n: usize, i: usize) -> (r: Option<usize>)
    requires
        n == s@.len(),
        i <= n,
    ensures
        match spec_skip_number_tail(s@, i as int) {
            Some(p) => r matches Some(q) && q as int == p && i <= q <= n,
            None => r is None,
        },
{
    let f: Option<usize> = if i < n && s.get_char(i) == '.' {
        let d = skip_digits(s, n, i + 1);
        if d > i + 1 {
            Some(d)
        } else {
            None
        }
    } else {
        Some(i)
    };
    match f {
        Some(j) => {
            if j < n {
                let c = s.get_char(j);
                if c == 'e' || c == 'E' {
                    let k: usize = if j + 1 < n {
                        let c2 = s.get_char(j + 1);
                        if c2 == '+' || c2 == '-' {
                            j + 2
                        } else {
                            j + 1
                        }
                    } else {
                        j + 1
                    };
                    let d2 = skip_digits(s, n, k);
                    if d2 > k {
                        Some(d2)
                    } else {
                        None
                    }
                } else {
                    Some(j)
                }
            } else {
                Some(j)
            }
        },
        None => None,
    }
}

fn skip_number(s: &str, n: usize, i: usize) -> (r: Option<usize>)
    requires
        n == s@.len(),
        i <= n,
    ensures
        match spec_skip_number(s@, i as int) {
            Some(p) => r matches Some(q) && q as int == p && i < q <= n,
            None => r is None,
        },
{
    let i1: usize = if i < n && s.get_char(i) == '-' {
        i + 1
    } else {
        i
    };
    if i1 < n {
        let c = s.get_char(i1);
        if c == '0' {
            skip_number_tail(s, n, i1 + 1)
        } else if 48 <= c as u32 && c as u32 <= 57 {
            let d = skip_digits(s, n, i1 + 1);
            skip_number_tail(s, n, d)
        } else {
            None
        }
    } else {
        None
    }
}

// ---------------------------------------------------------------------------
// Skipping arbitrary values
// ---------------------------------------------------------------------------

/// One JSON value of any kind starting at `i`, skipped after a full syntax
/// check: the index just past it.
pub open spec fn spec_skip_value(s: Seq<char>, i: int) -> Option<int>
    decreases s.len() - i, 1int,
{
    if 0 <= i && i < s.len() {
        let c = s[i];
        if c == '"' {
            match spec_parse_string(s, i) {
                Some((t, j)) => Some(j),
                None => None,
            }
        } else if c == '{' {
            spec_skip_object(s, i)
        } else if c == '[' {
            spec_skip_array(s, i)
        } else if c == 't' {
            if i + 4 <= s.len() && s[i + 1] == 'r' && s[i + 2] == 'u' && s[i + 3] == 'e' {
                Some(i + 4)
            } else {
                None
            }
        } else if c == 'f' {
            if i + 5 <= s.len() && s[i + 1] == 'a' && s[i + 2] == 'l' && s[i + 3] == 's' && s[i
                + 4] == 'e' {
                Some(i + 5)
            } else {
                None
            }
        } else if c == 'n' {
            if i + 4 <= s.len() && s[i + 1] == 'u' && s[i + 2] == 'l' && s[i + 3] == 'l' {
                Some(i + 4)
            } else {
                None
            }
        } else if c == '-' || is_digit_char(c) {
            spec_skip_number(s, i)
        } else {
            None
        }
    } else {
        None
    }
}

/// A JSON object starting at `i`, skipped: the index just past its closing
/// brace.
pub open spec fn spec_skip_object(s: Seq<char>, i: int) -> Option<int>
    decreases s.len() - i, 0int,
{
    if 0 <= i && i < s.len() && s[i] == '{' {
        let j = spec_skip_ws(s, i + 1);
        if 0 <= j && j < s.len() && s[j] == '}' {
            Some(j + 1)
        } else if i < j && j <= s.len() {
            spec_skip_members(s, j)
        } else {
            None
        }
    } else {
        None
    }
}

/// The members of an object being skipped, starting at a key: the index just
/// past the object's closing brace.
pub open spec fn spec_skip_members(s: Seq<char>, i: int) -> Option<int>
    decreases s.len() - i, 2int,
{
    match spec_parse_string(s, i) {
        Some((k, j)) => {
            let j2 = spec_skip_ws(s, j);
            if 0 <= j2 && j2 < s.len() && s[j2] == ':' {
                let j3 = spec_skip_ws(s, j2 + 1);
                if i <= j3 && j3 <= s.len() {
                    match spec_skip_value(s, j3) {
                        Some(j4) => {
                            let j5 = spec_skip_ws(s, j4);
                            if 0 <= j5 && j5 < s.len() && s[j5] == ',' {
                                let j6 = spec_skip_ws(s, j5 + 1);
                                if i < j6 && j6 <= s.len() {
                                    spec_skip_members(s, j6)
                                } else {
                                    None
                                }
                            } else if 0 <= j5 && j5 < s.len() && s[j5] == '}' {
                                Some(j5 + 1)
                            } else {
                                None
                            }
                        },
                        None => None,
                    }
                } else {
                    None
                }
            } else {
                None
            }
        },
        None => None,
    }
}

/// A JSON array starting at `i`, skipped: the index just past its closing
/// bracket.
pub open spec fn spec_skip_array(s: Seq<char>, i: int) -> Option<int>
    decreases s.len() - i, 0int,
{
    if 0 <= i && i < s.len() && s[i] == '[' {
        let j = spec_skip_ws(s, i + 1);
        if 0 <= j && j < s.len() && s[j] == ']' {
            Some(j + 1)
        } else if i < j && j <= s.len() {
            spec_skip_items(s, j)
        } else {
            None
        }
    } else {
        None
    }
}

/// The items of an array being skipped, starting at an item: the index just
/// past the array's closing bracket.
pub open spec fn spec_skip_items(s: Seq<char>, i: int) -> Option<int>
    decreases s.len() - i, 2int,
{
    match spec_skip_value(s, i) {
        Some(j4) => {
            let j5 = spec_skip_ws(s, j4);
            if 0 <= j5 && j5 < s.len() && s[j5] == ',' {
                let j6 = spec_skip_ws(s, j5 + 1);
                if i < j6 && j6 <= s.len() {
                    spec_skip_items(s, j6)
                } else {
                    None
                }
            } else if 0 <= j5 && j5 < s.len() && s[j5] == ']' {
                Some(j5 + 1)
            } else {
                None
            }
        },
        None => None,
    }
}

fn skip_value(s: &str, n: usize, i: usize) -> (r: Option<usize>)
    requires
        n == s@.len(),
        i <= n,
    ensures
        match spec_skip_value(s@, i as int) {
            Some(p) => r matches Some(q) && q as int == p && i < q <= n,
            None => r is None,
        },
    decreases n - i, 1int,
{
    if i < n {
        let c = s.get_char(i);
        if c == '"' {
            match parse_string(s, n, i) {
                Some((_t, j)) => Some(j),
                None => None,
            }
        } else if c == '{' {
            skip_object(s, n, i)
        } else if c == '[' {
            skip_array(s, n, i)
        } else if c == 't' {
            if n - i >= 4 && s.get_char(i + 1) == 'r' && s.get_char(i + 2) == 'u' && s.get_char(
                i + 3,
            ) == 'e' {
                Some(i + 4)
            } else {
                None
            }
        } else if c == 'f' {
            if n - i >= 5 && s.get_char(i + 1) == 'a' && s.get_char(i + 2) == 'l' && s.get_char(
                i + 3,
            ) == 's' && s.get_char(i + 4) == 'e' {
                Some(i + 5)
            } else {
                None
            }
        } else if c == 'n' {
            if n - i >= 4 && s.get_char(i + 1) == 'u' && s.get_char(i + 2) == 'l' && s.get_char(
                i + 3,
            ) == 'l' {
                Some(i + 4)
            } else {
                None
            }
        } else if c == '-' || (48 <= c as u32 && c as u32 <= 57) {
            skip_number(s, n, i)
        } else {
            None
        }
    } else {
        None
    }
}

fn skip_object(s: &str, n: usize, i: usize) -> (r: Option<usize>)
    requires
        n == s@.len(),
        i <= n,
    ensures
        match spec_skip_object(s@, i as int) {
            Some(p) => r matches Some(q) && q as int == p && i < q <= n,
            None => r is None,
        },
    decreases n - i, 0int,
{
    if i < n && s.get_char(i) == '{' {
        let j = skip_ws(s, n, i + 1);
        if j < n && s.get_char(j) == '}' {
            Some(j + 1)
        } else {
            skip_members(s, n, j)
        }
    } else {
        None
    }
}

fn skip_members(s: &str, n: usize, i: usize) -> (r: Option<usize>)
    requires
        n == s@.len(),
        i <= n,
    ensures
        match spec_skip_members(s@, i as int) {
            Some(p) => r matches Some(q) && q as int == p && i < q <= n,
            None => r is None,
        },
    decreases n - i, 2int,
{
    match parse_string(s, n, i) {
        Some((_k, j)) => {
            let j2 = skip_ws(s, n, j);
            if j2 < n && s.get_char(j2) == ':' {
                let j3 = skip_ws(s, n, j2 + 1);
                match skip_value(s, n, j3) {
                    Some(j4) => {
                        let j5 = skip_ws(s, n, j4);
                        if j5 < n && s.get_char(j5) == ',' {
                            let j6 = skip_ws(s, n, j5 + 1);
                            skip_members(s, n, j6)
                        } else if j5 < n && s.get_char(j5) == '}' {
                            Some(j5 + 1)
                        } else {
                            None
                        }
                    },
                    None => None,
                }
            } else {
                None
            }
        },
        None => None,
    }
}

fn skip_array(s: &str, n: usize, i: usize) -> (r: Option<usize>)
    requires
        n == s@.len(),
        i <= n,
    ensures
        match spec_skip_array(s@, i as int) {
            Some(p) => r matches Some(q) && q as int == p && i < q <= n,
            None => r is None,
        },
    decreases n - i, 0int,
{
    if i < n && s.get_char(i) == '[' {
        let j = skip_ws(s, n, i + 1);
        if j < n && s.get_char(j) == ']' {
            Some(j + 1)
        } else {
            skip_items(s, n, j)
        }
    } else {
        None
    }
}

fn skip_items(s: &str, n: usize, i: usize) -> (r: Option<usize>)
    requires
        n == s@.len(),
        i <= n,
    ensures
        match spec_skip_items(s@, i as int) {
            Some(p) => r matches Some(q) && q as int == p && i < q <= n,
            None => r is None,
        },
    decreases n - i, 2int,
{
    match skip_value(s, n, i) {
        Some(j4) => {
            let j5 = skip_ws(s, n, j4);
            if j5 < n && s.get_char(j5) == ',' {
                let j6 = skip_ws(s, n, j5 + 1);
                skip_items(s, n, j6)
            } else if j5 < n && s.get_char(j5) == ']' {
                Some(j5 + 1)
            } else {
                None
            }
        },
        None => None,
    }
}

// ---------------------------------------------------------------------------
// The profile object
// ---------------------------------------------------------------------------

/// A profile record in the making: one slot per known field, filled as the
/// object's members are read. For an optional field the outer `Option` says
/// whether the field occurred at all, the inner one whether it held a string
/// or `null`.
pub ghost struct PartialSpec {
    pub login: Option<Seq<char>>,
    pub id: Option<u64>,
    pub avatar_url: Option<Seq<char>>,
    pub html_url: Option<Seq<char>>,
    pub name: Option<Option<Seq<char>>>,
    pub company: Option<Option<Seq<char>>>,
    pub blog: Option<Option<Seq<char>>>,
    pub location: Option<Option<Seq<char>>>,
    pub bio: Option<Option<Seq<char>>>,
    pub public_repos: Option<u32>,
    pub followers: Option<u32>,
    pub following: Option<u32>,
}

pub open spec fn empty_partial() -> PartialSpec {
    PartialSpec {
        login: None,
        id: None,
        avatar_url: None,
        html_url: None,
        name: None,
        company: None,
        blog: None,
        location: None,
        bio: None,
        public_repos: None,
        followers: None,
        following: None,
    }
}

/// The string or `null` value of an optional field.
pub open spec fn spec_parse_opt_string(s: Seq<char>, i: int) -> Option<(Option<Seq<char>>, int)> {
    if 0 <= i && i + 4 <= s.len() && s[i] == 'n' && s[i + 1] == 'u' && s[i + 2] == 'l' && s[i + 3]
        == 'l' {
        Some((None, i + 4))
    } else {
        match spec_parse_string(s, i) {
            Some((v, j)) => Some((Some(v), j)),
            None => None,
        }
    }
}

/// One member's value, at `i`, under the key `k`: a known key is read with
/// its field's type and must not have been seen before; an unknown key's
/// value is skipped.
pub open spec fn spec_parse_field(s: Seq<char>, i: int, k: Seq<char>, part: PartialSpec) -> Option<
    (PartialSpec, int),
> {
    if k == "login"@ {
        if part.login is Some {
            None
        } else {
            match spec_parse_string(s, i) {
                Some((v, j)) => Some((PartialSpec { login: Some(v), ..part }, j)),
                None => None,
            }
        }
    } else if k == "id"@ {
        if part.id is Some {
            None
        } else {
            match spec_parse_uint(s, i, u64::MAX) {
                Some((v, j)) => Some((PartialSpec { id: Some(v), ..part }, j)),
                None => None,
            }
        }
    } else if k == "avatar_url"@ {
        if part.avatar_url is Some {
            None
        } else {
            match spec_parse_string(s, i) {
                Some((v, j)) => Some((PartialSpec { avatar_url: Some(v), ..part }, j)),
                None => None,
            }
        }
    } else if k == "html_url"@ {
        if part.html_url is Some {
            None
        } else {
            match spec_parse_string(s, i) {
                Some((v, j)) => Some((PartialSpec { html_url: Some(v), ..part }, j)),
                None => None,
            }
        }
    } else if k == "name"@ {
        if part.name is Some {
            None
        } else {
            match spec_parse_opt_string(s, i) {
                Some((v, j)) => Some((PartialSpec { name: Some(v), ..part }, j)),
                None => None,
            }
        }
    } else if k == "company"@ {
        if part.company is Some {
            None
        } else {
            match spec_parse_opt_string(s, i) {
                Some((v, j)) => Some((PartialSpec { company: Some(v), ..part }, j)),
                None => None,
            }
        }
    } else if k == "blog"@ {
        if part.blog is Some {
            None
        } else {
            match spec_parse_opt_string(s, i) {
                Some((v, j)) => Some((PartialSpec { blog: Some(v), ..part }, j)),
                None => None,
            }
        }
    } else if k == "location"@ {
        if part.location is Some {
            None
        } else {
            match spec_parse_opt_string(s, i) {
                Some((v, j)) => Some((PartialSpec { location: Some(v), ..part }, j)),
                None => None,
            }
        }
    } else if k == "bio"@ {
        if part.bio is Some {
            None
        } else {
            match spec_parse_opt_string(s, i) {
                Some((v, j)) => Some((PartialSpec { bio: Some(v), ..part }, j)),
                None => None,
            }
        }
    } else if k == "public_repos"@ {
        if part.public_repos is Some {
            None
        } else {
            match spec_parse_uint(s, i, u32::MAX as u64) {
                Some((v, j)) => Some((PartialSpec { public_repos: Some(v as u32), ..part }, j)),
                None => None,
            }
        }
    } else if k == "followers"@ {
        if part.followers is Some {
            None
        } else {
            match spec_parse_uint(s, i, u32::MAX as u64) {
                Some((v, j)) => Some((PartialSpec { followers: Some(v as u32), ..part }, j)),
                None => None,
            }
        }
    } else if k == "following"@ {
        if part.following is Some {
            None
        } else {
            match spec_parse_uint(s, i, u32::MAX as u64) {
                Some((v, j)) => Some((PartialSpec { following: Some(v as u32), ..part }, j)),
                None => None,
            }
        }
    } else {
        match spec_skip_value(s, i) {
            Some(j) => Some((part, j)),
            None => None,
        }
    }
}

/// The members of the profile object, starting at a key: the filled record
/// and the index just past the object's closing brace.
pub open spec fn spec_parse_members(s: Seq<char>, i: int, part: PartialSpec) -> Option<
    (PartialSpec, int),
>
    decreases s.len() - i,
{
    match spec_parse_string(s, i) {
        Some((k, j)) => {
            let j2 = spec_skip_ws(s, j);
            if 0 <= j2 && j2 < s.len() && s[j2] == ':' {
                let j3 = spec_skip_ws(s, j2 + 1);
                if i <= j3 && j3 <= s.len() {
                    match spec_parse_field(s, j3, k, part) {
                        Some((p2, j4)) => {
                            let j5 = spec_skip_ws(s, j4);
                            if 0 <= j5 && j5 < s.len() && s[j5] == ',' {
                                let j6 = spec_skip_ws(s, j5 + 1);
                                if i < j6 && j6 <= s.len() {
                                    spec_parse_members(s, j6, p2)
                                } else {
                                    None
                                }
                            } else if 0 <= j5 && j5 < s.len() && s[j5] == '}' {
                                Some((p2, j5 + 1))
                            } else {
                                None
                            }
                        },
                        None => None,
                    }
                } else {
                    None
                }
            } else {
                None
            }
        },
        None => None,
    }
}

pub open spec fn flat_opt(o: Option<Option<Seq<char>>>) -> Option<Seq<char>> {
    match o {
        Some(x) => x,
        None => None,
    }
}

/// Closes the record: every required field must have occurred; an optional
/// field that did not occur, or that held `null`, is absent.
pub open spec fn spec_finalize(p: PartialSpec) -> Option<ProfileSpec> {
    if p.login is Some && p.id is Some && p.avatar_url is Some && p.html_url is Some
        && p.public_repos is Some && p.followers is Some && p.following is Some {
        Some(
            ProfileSpec {
                login: p.login->Some_0,
                id: p.id->Some_0,
                avatar_url: p.avatar_url->Some_0,
                html_url: p.html_url->Some_0,
                name: flat_opt(p.name),
                company: flat_opt(p.company),
                blog: flat_opt(p.blog),
                location: flat_opt(p.location),
                bio: flat_opt(p.bio),
                public_repos: p.public_repos->Some_0,
                followers: p.followers->Some_0,
                following: p.following->Some_0,
            },
        )
    } else {
        None
    }
}

/// The whole response body as a profile record: one JSON object, surrounded
/// by nothing but whitespace.
pub open spec fn spec_parse_profile(s: Seq<char>) -> Option<ProfileSpec> {
    let i = spec_skip_ws(s, 0);
    if 0 <= i && i < s.len() && s[i] == '{' {
        let j = spec_skip_ws(s, i + 1);
        if 0 <= j && j < s.len() && s[j] == '}' {
            let e = spec_skip_ws(s, j + 1);
            if e == s.len() {
                spec_finalize(empty_partial())
            } else {
                None
            }
        } else {
            match spec_parse_members(s, j, empty_partial()) {
                Some((p, k)) => {
                    let e = spec_skip_ws(s, k);
                    if e == s.len() {
                        spec_finalize(p)
                    } else {
                        None
                    }
                },
                None => None,
            }
        }
    } else {
        None
    }
}

/// The executable counterpart of [`PartialSpec`].
pub struct PartialProfile {
    pub login: Option<String>,
    pub id: Option<u64>,
    pub avatar_url: Option<String>,
    pub html_url: Option<String>,
    pub name: Option<Option<String>>,
    pub company: Option<Option<String>>,
    pub blog: Option<Option<String>>,
    pub location: Option<Option<String>>,
    pub bio: Option<Option<String>>,
    pub public_repos: Option<u32>,
    pub followers: Option<u32>,
    pub following: Option<u32>,
}

pub open spec fn oo_view(o: Option<Option<String>>) -> Option<Option<Seq<char>>> {
    match o {
        Some(x) => Some(opt_view(x)),
        None => None,
    }
}

impl View for PartialProfile {
    type V = PartialSpec;

    open spec fn view(&self) -> PartialSpec {
        PartialSpec {
            login: opt_view(self.login),
            id: self.id,
            avatar_url: opt_view(self.avatar_url),
            html_url: opt_view(self.html_url),
            name: oo_view(self.name),
            company: oo_view(self.company),
            blog: oo_view(self.blog),
            location: oo_view(self.location),
            bio: oo_view(self.bio),
            public_repos: self.public_repos,
            followers: self.followers,
            following: self.following,
        }
    }
}

fn empty_partial_profile() -> (r: PartialProfile)
    ensures
        r@ == empty_partial(),
{
    PartialProfile {
        login: None,
        id: None,
        avatar_url: None,
        html_url: None,
        name: None,
        company: None,
        blog: None,
        location: None,
        bio: None,
        public_repos: None,
        followers: None,
        following: None,
    }
}

fn str_matches(key: &String, lit: &str) -> (r: bool)
    ensures
        r == (key@ == lit@),
{
    key.eq(&String::from_str(lit))
}

fn parse_opt_string(s: &str, n: usize, i: usize) -> (r: Option<(Option<String>, usize)>)
    requires
        n == s@.len(),
        i <= n,
    ensures
        match spec_parse_opt_string(s@, i as int) {
            Some(p) => r matches Some(q) && opt_view(q.0) == p.0 && q.1 as int == p.1 && i < q.1
                <= n,
            None => r is None,
        },
{
    if n - i >= 4 && s.get_char(i) == 'n' && s.get_char(i + 1) == 'u' && s.get_char(i + 2) == 'l'
        && s.get_char(i + 3) == 'l' {
        Some((None, i + 4))
    } else {
        match parse_string(s, n, i) {
            Some((v, j)) => Some((Some(v), j)),
            None => None,
        }
    }
}

fn parse_field(s: &str, n: usize, i: usize, key: &String, part: PartialProfile) -> (r: Option<
    (PartialProfile, usize),
>)
    requires
        n == s@.len(),
        i <= n,
    ensures
        match spec_parse_field(s@, i as int, key@, part@) {
            Some(p) => r matches Some(q) && q.0@ == p.0 && q.1 as int == p.1 && i < q.1 <= n,
            None => r is None,
        },
{
    if str_matches(key, "login") {
        if part.login.is_some() {
            None
        } else {
            match parse_string(s, n, i) {
                Some((v, j)) => {
                    let mut p2 = part;
                    p2.login = Some(v);
                    Some((p2, j))
                },
                None => None,
            }
        }
    } else if str_matches(key, "id") {
        if part.id.is_some() {
            None
        } else {
            match parse_uint(s, n, i, u64::MAX) {
                Some((v, j)) => {
                    let mut p2 = part;
                    p2.id = Some(v);
                    Some((p2, j))
                },
                None => None,
            }
        }
    } else if str_matches(key, "avatar_url") {
        if part.avatar_url.is_some() {
            None
        } else {
            match parse_string(s, n, i) {
                Some((v, j)) => {
                    let mut p2 = part;
                    p2.avatar_url = Some(v);
                    Some((p2, j))
                },
                None => None,
            }
        }
    } else if str_matches(key, "html_url") {
        if part.html_url.is_some() {
            None
        } else {
            match parse_string(s, n, i) {
                Some((v, j)) => {
                    let mut p2 = part;
                    p2.html_url = Some(v);
                    Some((p2, j))
                },
                None => None,
            }
        }
    } else if str_matches(key, "name") {
        if part.name.is_some() {
            None
        } else {
            match parse_opt_string(s, n, i) {
                Some((v, j)) => {
                    let mut p2 = part;
                    p2.name = Some(v);
                    Some((p2, j))
                },
                None => None,
            }
        }
    } else if str_matches(key, "company") {
        if part.company.is_some() {
            None
        } else {
            match parse_opt_string(s, n, i) {
                Some((v, j)) => {
                    let mut p2 = part;
                    p2.company = Some(v);
                    Some((p2, j))
                },
                None => None,
            }
        }
    } else if str_matches(key, "blog") {
        if part.blog.is_some() {
            None
        } else {
            match parse_opt_string(s, n, i) {
                Some((v, j)) => {
                    let mut p2 = part;
                    p2.blog = Some(v);
                    Some((p2, j))
                },
                None => None,
            }
        }
    } else if str_matches(key, "location") {
        if part.location.is_some() {
            None
        } else {
            match parse_opt_string(s, n, i) {
                Some((v, j)) => {
                    let mut p2 = part;
                    p2.location = Some(v);
                    Some((p2, j))
                },
                None => None,
            }
        }
    } else if str_matches(key, "bio") {
        if part.bio.is_some() {
            None
        } else {
            match parse_opt_string(s, n, i) {
                Some((v, j)) => {
                    let mut p2 = part;
                    p2.bio = Some(v);
                    Some((p2, j))
                },
                None => None,
            }
        }
    } else if str_matches(key, "public_repos") {
        if part.public_repos.is_some() {
            None
        } else {
            match parse_uint(s, n, i, 0xFFFF_FFFF) {
                Some((v, j)) => {
                    let mut p2 = part;
                    p2.public_repos = Some(v as u32);
                    Some((p2, j))
                },
                None => None,
            }
        }
    } else if str_matches(key, "followers") {
        if part.followers.is_some() {
            None
        } else {
            match parse_uint(s, n, i, 0xFFFF_FFFF) {
                Some((v, j)) => {
                    let mut p2 = part;
                    p2.followers = Some(v as u32);
                    Some((p2, j))
                },
                None => None,
            }
        }
    } else if str_matches(key, "following") {
        if part.following.is_some() {
            None
        } else {
            match parse_uint(s, n, i, 0xFFFF_FFFF) {
                Some((v, j)) => {
                    let mut p2 = part;
                    p2.following = Some(v as u32);
                    Some((p2, j))
                },
                None => None,
            }
        }
    } else {
        match skip_value(s, n, i) {
            Some(j) => Some((part, j)),
            None => None,
        }
    }
}

fn parse_members(s: &str, n: usize, i: usize, part: PartialProfile) -> (r: Option<
    (PartialProfile, usize),
>)
    requires
        n == s@.len(),
        i <= n,
    ensures
        match spec_parse_members(s@, i as int, part@) {
            Some(p) => r matches Some(q) && q.0@ == p.0 && q.1 as int == p.1 && i < q.1 <= n,
            None => r is None,
        },
    decreases n - i,
{
    match parse_string(s, n, i) {
        Some((k, j)) => {
            let j2 = skip_ws(s, n, j);
            if j2 < n && s.get_char(j2) == ':' {
                let j3 = skip_ws(s, n, j2 + 1);
                match parse_field(s, n, j3, &k, part) {
                    Some((p2, j4)) => {
                        let j5 = skip_ws(s, n, j4);
                        if j5 < n && s.get_char(j5) == ',' {
                            let j6 = skip_ws(s, n, j5 + 1);
                            parse_members(s, n, j6, p2)
                        } else if j5 < n && s.get_char(j5) == '}' {
                            Some((p2, j5 + 1))
                        } else {
                            None
                        }
                    },
                    None => None,
                }
            } else {
                None
            }
        },
        None => None,
    }
}

fn flatten_opt(o: Option<Option<String>>) -> (r: Option<String>)
    ensures
        opt_view(r) == flat_opt(oo_view(o)),
{
    match o {
        Some(x) => x,
        None => None,
    }
}

fn finalize(part: PartialProfile) -> (r: Option<GitHubUser>)
    ensures
        match spec_finalize(part@) {
            Some(p) => r matches Some(u) && u@ == p,
            None => r is None,
        },
{
    match (part.login, part.id, part.avatar_url, part.html_url, part.public_repos, part.followers,
        part.following) {
        (
            Some(login),
            Some(id),
            Some(avatar_url),
            Some(html_url),
            Some(public_repos),
            Some(followers),
            Some(following),
        ) => Some(
            GitHubUser {
                login,
                id,
                avatar_url,
                html_url,
                name: flatten_opt(part.name),
                company: flatten_opt(part.company),
                blog: flatten_opt(part.blog),
                location: flatten_opt(part.location),
                bio: flatten_opt(part.bio),
                public_repos,
                followers,
                following,
            },
        ),
        _ => None,
    }
}

/// Parses a response body as a profile record. The result is `Some` exactly
/// when the body satisfies the record's grammar, [`spec_parse_profile`], and
/// it holds exactly the record that the grammar gives.
pub fn parse_github_user(body: &str) -> (r: Option<GitHubUser>)
    ensures
        match spec_parse_profile(body@) {
            Some(p) => r matches Some(u) && u@ == p,
            None => r is None,
        },
{
    let n = body.unicode_len();
    let i = skip_ws(body, n, 0);
    if i < n && body.get_char(i) == '{' {
        let j = skip_ws(body, n, i + 1);
        if j < n && body.get_char(j) == '}' {
            let e = skip_ws(body, n, j + 1);
            if e == n {
                finalize(empty_partial_profile())
            } else {
                None
            }
        } else {
            match parse_members(body, n, j, empty_partial_profile()) {
                Some((p, k)) => {
                    let e = skip_ws(body, n, k);
                    if e == n {
                        finalize(p)
                    } else {
                        None
                    }
                },
                None => None,
            }
        }
    } else {
        None
    }
}

} // verus!
