//! The wire decoder: one line of text into a JSON document.
//!
//! `parse_json` is the grammar, written as a total recursive descent over a
//! sequence of characters; the executable decoder returns exactly what the
//! grammar says, so a decode succeeds if and only if the text is a
//! well-formed document.  The grammar accepts blank space between tokens,
//! the standard string escapes including `\uXXXX` and surrogate pairs, and
//! integer numbers of at most nineteen digits; fractions and exponents are
//! not part of the bridge's traffic and are rejected.

use vstd::prelude::*;

use crate::json::{
    dec_digits, digit_char, enc_fields, enc_int, enc_items, enc_json, esc_char, esc_str,
    hex_char, views_of, views_of_fields, Json, JsonView,
};

verus! {

/// The blank characters the grammar allows between tokens.
pub open spec fn is_ws_char(c: char) -> bool {
    c == ' ' || c == '\t' || c == '\r' || c == '\n'
}

/// Whether `c` is a decimal digit.
pub open spec fn is_digit_char(c: char) -> bool {
    0x30 <= (c as u32) && (c as u32) <= 0x39
}

/// The value of the decimal digit `c`.
pub open spec fn digit_val(c: char) -> int {
    (c as u32) - 0x30
}

/// Whether `c` is a hexadecimal digit, either case.
pub open spec fn is_hex_char(c: char) -> bool {
    is_digit_char(c) || (0x61 <= (c as u32) && (c as u32) <= 0x66) || (0x41 <= (c as u32) && (c
        as u32) <= 0x46)
}

/// The value of the hexadecimal digit `c`.
pub open spec fn hex_val(c: char) -> int {
    if is_digit_char(c) {
        (c as u32) - 0x30
    } else if 0x61 <= (c as u32) && (c as u32) <= 0x66 {
        (c as u32) - 0x57
    } else {
        (c as u32) - 0x37
    }
}

/// The first position at or after `i` that does not hold a blank character.
pub open spec fn skip_ws(s: Seq<char>, i: int) -> int
    decreases s.len() - i,
{
    if 0 <= i < s.len() && is_ws_char(s[i]) {
        skip_ws(s, i + 1)
    } else {
        i
    }
}

pub proof fn lemma_skip_ws(s: Seq<char>, i: int)
    requires
        0 <= i <= s.len(),
    ensures
        i <= skip_ws(s, i) <= s.len(),
        skip_ws(s, i) < s.len() ==> !is_ws_char(s[skip_ws(s, i)]),
    decreases s.len() - i,
{
    if i < s.len() && is_ws_char(s[i]) {
        lemma_skip_ws(s, i + 1);
    }
}

/// Whether the word `w` stands at position `i` of `s`.
pub open spec fn match_at(s: Seq<char>, i: int, w: Seq<char>) -> bool {
    0 <= i && i + w.len() <= s.len() && s.subrange(i, i + w.len()) == w
}

/// The value of the four hexadecimal digits at positions `i` through `i+3`.
pub open spec fn hex4_val(s: Seq<char>, i: int) -> int {
    hex_val(s[i]) * 0x1000 + hex_val(s[i + 1]) * 0x100 + hex_val(s[i + 2]) * 0x10 + hex_val(
        s[i + 3],
    )
}

/// Whether positions `i` through `i+3` all hold hexadecimal digits.
pub open spec fn hex4_at(s: Seq<char>, i: int) -> bool {
    0 <= i && i + 4 <= s.len() && is_hex_char(s[i]) && is_hex_char(s[i + 1]) && is_hex_char(
        s[i + 2],
    ) && is_hex_char(s[i + 3])
}

/// Prepends `c` to the text of a partly parsed string.
pub open spec fn sp_cons(c: char, rest: Option<(Seq<char>, int)>) -> Option<(Seq<char>, int)> {
    match rest {
        Some((t, j)) => Some((seq![c] + t, j)),
        None => None,
    }
}

/// Parses the body of a string from position `i` (just past the opening
/// quote) up to and including the closing quote.  Returns the decoded
/// characters and the position after the closing quote.
pub open spec fn sp_string(s: Seq<char>, i: int) -> Option<(Seq<char>, int)>
    decreases s.len() - i,
{
    if !(0 <= i < s.len()) {
        None
    } else {
        let c = s[i];
        if c == '"' {
            Some((Seq::empty(), i + 1))
        } else if c == '\\' {
            if i + 1 >= s.len() {
                None
            } else {
                let e = s[i + 1];
                if e == '"' {
                    sp_cons('"', sp_string(s, i + 2))
                } else if e == '\\' {
                    sp_cons('\\', sp_string(s, i + 2))
                } else if e == '/' {
                    sp_cons('/', sp_string(s, i + 2))
                } else if e == 'n' {
                    sp_cons('\n', sp_string(s, i + 2))
                } else if e == 'r' {
                    sp_cons('\r', sp_string(s, i + 2))
                } else if e == 't' {
                    sp_cons('\t', sp_string(s, i + 2))
                } else if e == 'b' {
                    sp_cons('\u{8}', sp_string(s, i + 2))
                } else if e == 'f' {
                    sp_cons('\u{c}', sp_string(s, i + 2))
                } else if e == 'u' {
                    if hex4_at(s, i + 2) {
                        let u = hex4_val(s, i + 2);
                        if 0xD800 <= u < 0xDC00 {
                            // A high surrogate must be followed by an escaped low
                            // surrogate; the pair names one supplementary character.
                            if i + 12 <= s.len() && s[i + 6] == '\\' && s[i + 7] == 'u' && hex4_at(
                                s,
                                i + 8,
                            ) {
                                let u2 = hex4_val(s, i + 8);
                                if 0xDC00 <= u2 < 0xE000 {
                                    let cp = 0x10000 + (u - 0xD800) * 0x400 + (u2 - 0xDC00);
                                    sp_cons(((cp as u32) as char), sp_string(s, i + 12))
                                } else {
                                    None
                                }
                            } else {
                                None
                            }
                        } else if 0xDC00 <= u < 0xE000 {
                            None
                        } else {
                            sp_cons(((u as u32) as char), sp_string(s, i + 6))
                        }
                    } else {
                        None
                    }
                } else {
                    None
                }
            }
        } else if (c as u32) < 0x20 {
            None
        } else {
            sp_cons(c, sp_string(s, i + 1))
        }
    }
}

/// The first position at or after `i` that does not hold a decimal digit.
pub open spec fn digit_run_end(s: Seq<char>, i: int) -> int
    decreases s.len() - i,
{
    if 0 <= i < s.len() && is_digit_char(s[i]) {
        digit_run_end(s, i + 1)
    } else {
        i
    }
}

/// The value of the decimal digits at positions `i` through `j-1`.
pub open spec fn digits_val(s: Seq<char>, i: int, j: int) -> int
    decreases j - i,
{
    if i < j {
        digits_val(s, i, j - 1) * 10 + digit_val(s[j - 1])
    } else {
        0
    }
}

/// Parses a number at position `i`: an optional minus sign and one to
/// nineteen decimal digits, with a value in the signed 64-bit range.
pub open spec fn sp_number(s: Seq<char>, i: int) -> Option<(JsonView, int)> {
    if !(0 <= i < s.len()) {
        None
    } else {
        let neg = s[i] == '-';
        let d0 = if neg {
            i + 1
        } else {
            i
        };
        let e = digit_run_end(s, d0);
        if e == d0 || e - d0 > 19 {
            None
        } else {
            let mag = digits_val(s, d0, e);
            let v = if neg {
                -mag
            } else {
                mag
            };
            if i64::MIN as int <= v <= i64::MAX as int {
                Some((JsonView::Int(v), e))
            } else {
                None
            }
        }
    }
}

/// Parses one document at position `i`, blank space allowed first.
pub open spec fn sp_value(s: Seq<char>, i: int) -> Option<(JsonView, int)>
    decreases s.len() - i, 1int,
{
    if !(0 <= i <= s.len()) {
        None
    } else {
        let j = skip_ws(s, i);
        if !(i <= j < s.len()) {
            None
        } else {
            let c = s[j];
            if c == 'n' {
                if match_at(s, j, seq!['n', 'u', 'l', 'l']) {
                    Some((JsonView::Null, j + 4))
                } else {
                    None
                }
            } else if c == 't' {
                if match_at(s, j, seq!['t', 'r', 'u', 'e']) {
                    Some((JsonView::Bool(true), j + 4))
                } else {
                    None
                }
            } else if c == 'f' {
                if match_at(s, j, seq!['f', 'a', 'l', 's', 'e']) {
                    Some((JsonView::Bool(false), j + 5))
                } else {
                    None
                }
            } else if c == '"' {
                match sp_string(s, j + 1) {
                    Some((cs, k)) => Some((JsonView::Str(cs), k)),
                    None => None,
                }
            } else if c == '[' {
                let m = skip_ws(s, j + 1);
                if j + 1 <= m < s.len() && s[m] == ']' {
                    Some((JsonView::Arr(Seq::empty()), m + 1))
                } else {
                    match sp_items(s, j + 1) {
                        Some((vs, k)) => Some((JsonView::Arr(vs), k)),
                        None => None,
                    }
                }
            } else if c == '{' {
                let m = skip_ws(s, j + 1);
                if j + 1 <= m < s.len() && s[m] == '}' {
                    Some((JsonView::Obj(Seq::empty()), m + 1))
                } else {
                    match sp_fields(s, j + 1) {
                        Some((fs, k)) => Some((JsonView::Obj(fs), k)),
                        None => None,
                    }
                }
            } else if c == '-' || is_digit_char(c) {
                sp_number(s, j)
            } else {
                None
            }
        }
    }
}

/// Parses the elements of a non-empty array from position `i` (just past
/// the opening bracket or a comma) up to and including the closing bracket.
pub open spec fn sp_items(s: Seq<char>, i: int) -> Option<(Seq<JsonView>, int)>
    decreases s.len() - i, 2int,
{
    if !(0 <= i <= s.len()) {
        None
    } else {
        match sp_value(s, i) {
            None => None,
            Some((v, k)) => if !(i < k <= s.len()) {
                None
            } else {
                let m = skip_ws(s, k);
                if !(k <= m < s.len()) {
                    None
                } else if s[m] == ',' {
                    match sp_items(s, m + 1) {
                        None => None,
                        Some((vs, e)) => Some((seq![v] + vs, e)),
                    }
                } else if s[m] == ']' {
                    Some((seq![v], m + 1))
                } else {
                    None
                }
            },
        }
    }
}

/// Parses the members of a non-empty object from position `i` (just past
/// the opening brace or a comma) up to and including the closing brace.
pub open spec fn sp_fields(s: Seq<char>, i: int) -> Option<(Seq<(Seq<char>, JsonView)>, int)>
    decreases s.len() - i, 2int,
{
    if !(0 <= i <= s.len()) {
        None
    } else {
        let j = skip_ws(s, i);
        if !(i <= j < s.len()) {
            None
        } else if s[j] != '"' {
            None
        } else {
            match sp_string(s, j + 1) {
                None => None,
                Some((key, k)) => if !(j < k <= s.len()) {
                    None
                } else {
                    let m = skip_ws(s, k);
                    if !(k <= m < s.len()) {
                        None
                    } else if s[m] != ':' {
                        None
                    } else {
                        match sp_value(s, m + 1) {
                            None => None,
                            Some((v, k2)) => if !(m < k2 <= s.len()) {
                                None
                            } else {
                                let m2 = skip_ws(s, k2);
                                if !(k2 <= m2 < s.len()) {
                                    None
                                } else if s[m2] == ',' {
                                    match sp_fields(s, m2 + 1) {
                                        None => None,
                                        Some((fs, e)) => Some((seq![(key, v)] + fs, e)),
                                    }
                                } else if s[m2] == '}' {
                                    Some((seq![(key, v)], m2 + 1))
                                } else {
                                    None
                                }
                            },
                        }
                    }
                },
            }
        }
    }
}

/// The grammar of a whole text: one document, blank space allowed around
/// it, nothing else before the end.
pub open spec fn parse_json(s: Seq<char>) -> Option<JsonView> {
    match sp_value(s, 0) {
        None => None,
        Some((v, k)) => if 0 <= k <= s.len() && skip_ws(s, k) == s.len() {
            Some(v)
        } else {
            None
        },
    }
}


/// Relates a partly built string to the grammar: what the grammar yields
/// from `i0` is `acc` followed by whatever it yields from `cur`.
spec fn string_step_eq(s: Seq<char>, i0: int, acc: Seq<char>, cur: int) -> bool {
    match sp_string(s, cur) {
        Some((t, e)) => sp_string(s, i0) == Some::<(Seq<char>, int)>((acc + t, e)),
        None => sp_string(s, i0) is None,
    }
}

proof fn lemma_string_step(s: Seq<char>, i0: int, acc: Seq<char>, cur: int, c: char, next: int)
    requires
        string_step_eq(s, i0, acc, cur),
        sp_string(s, cur) == sp_cons(c, sp_string(s, next)),
    ensures
        string_step_eq(s, i0, acc + seq![c], next),
{
    match sp_string(s, next) {
        Some((t, e)) => {
            assert(acc + (seq![c] + t) =~= (acc + seq![c]) + t);
        },
        None => {},
    }
}

fn x_is_ws(c: char) -> (r: bool)
    ensures
        r == is_ws_char(c),
{
    c == ' ' || c == '\t' || c == '\r' || c == '\n'
}

fn x_is_digit(c: char) -> (r: bool)
    ensures
        r == is_digit_char(c),
{
    let u = c as u32;
    0x30 <= u && u <= 0x39
}

fn x_skip_ws(s: &Vec<char>, i: usize) -> (r: usize)
    requires
        i <= s@.len(),
    ensures
        r == skip_ws(s@, i as int),
        i <= r <= s@.len(),
        r < s@.len() ==> !is_ws_char(s@[r as int]),
{
    let mut cur = i;
    while cur < s.len() && x_is_ws(s[cur])
        invariant
            i <= cur <= s@.len(),
            skip_ws(s@, i as int) == skip_ws(s@, cur as int),
        decreases s@.len() - cur,
    {
        cur = cur + 1;
    }
    cur
}

fn hex_val_of(c: char) -> (r: Option<u8>)
    ensures
        match r {
            Some(v) => is_hex_char(c) && v as int == hex_val(c) && v < 16,
            None => !is_hex_char(c),
        },
{
    let u = c as u32;
    if 0x30 <= u && u <= 0x39 {
        Some((u - 0x30) as u8)
    } else if 0x61 <= u && u <= 0x66 {
        Some((u - 0x57) as u8)
    } else if 0x41 <= u && u <= 0x46 {
        Some((u - 0x37) as u8)
    } else {
        None
    }
}

fn x_hex4(s: &Vec<char>, i: usize) -> (r: Option<u32>)
    requires
        i <= s@.len(),
    ensures
        match r {
            Some(u) => hex4_at(s@, i as int) && u as int == hex4_val(s@, i as int) && u <= 0xFFFF,
            None => !hex4_at(s@, i as int),
        },
{
    if s.len() < 4 || i > s.len() - 4 {
        return None;
    }
    let h0 = match hex_val_of(s[i]) {
        Some(v) => v,
        None => {
            return None;
        },
    };
    let h1 = match hex_val_of(s[i + 1]) {
        Some(v) => v,
        None => {
            return None;
        },
    };
    let h2 = match hex_val_of(s[i + 2]) {
        Some(v) => v,
        None => {
            return None;
        },
    };
    let h3 = match hex_val_of(s[i + 3]) {
        Some(v) => v,
        None => {
            return None;
        },
    };
    Some((h0 as u32) * 0x1000 + (h1 as u32) * 0x100 + (h2 as u32) * 0x10 + (h3 as u32))
}

/// Relies on std's `char::from_u32`: it returns `Some` exactly on the
/// Unicode scalar values (no surrogates, nothing past U+10FFFF), and the
/// returned character casts back to the argument.
#[verifier::external_body]
fn char_from_u32(u: u32) -> (r: Option<char>)
    ensures
        r is Some <==> (u < 0xD800 || (0xE000 <= u && u <= 0x10FFFF)),
        r matches Some(c) ==> c as u32 == u,
{
    char::from_u32(u)
}

fn x_string(s: &Vec<char>, i: usize) -> (r: Option<(Vec<char>, usize)>)
    requires
        i <= s@.len(),
    ensures
        match r {
            Some((t, e)) => sp_string(s@, i as int) == Some::<(Seq<char>, int)>((t@, e as int))
                && i < e <= s@.len(),
            None => sp_string(s@, i as int) is None,
        },
{
    let mut cur = i;
    let mut acc: Vec<char> = Vec::new();
    proof {
        assert(acc@ =~= Seq::<char>::empty());
    }
    loop
        invariant
            i <= cur <= s@.len(),
            string_step_eq(s@, i as int, acc@, cur as int),
        decreases s@.len() - cur,
    {
        if cur >= s.len() {
            return None;
        }
        let c = s[cur];
        if c == '"' {
            proof {
                assert(acc@ + Seq::<char>::empty() =~= acc@);
            }
            return Some((acc, cur + 1));
        } else if c == '\\' {
            if cur + 1 >= s.len() {
                return None;
            }
            let e = s[cur + 1];
            let decoded: char;
            let width: usize;
            if e == '"' {
                decoded = '"';
                width = 2;
            } else if e == '\\' {
                decoded = '\\';
                width = 2;
            } else if e == '/' {
                decoded = '/';
                width = 2;
            } else if e == 'n' {
                decoded = '\n';
                width = 2;
            } else if e == 'r' {
                decoded = '\r';
                width = 2;
            } else if e == 't' {
                decoded = '\t';
                width = 2;
            } else if e == 'b' {
                decoded = '\u{8}';
                width = 2;
            } else if e == 'f' {
                decoded = '\u{c}';
                width = 2;
            } else if e == 'u' {
                let u = match x_hex4(s, cur + 2) {
                    Some(u) => u,
                    None => {
                        return None;
                    },
                };
                if 0xD800 <= u && u < 0xDC00 {
                    if s.len() < 12 || cur > s.len() - 12 {
                        return None;
                    }
                    if !(s[cur + 6] == '\\' && s[cur + 7] == 'u') {
                        return None;
                    }
                    let u2 = match x_hex4(s, cur + 8) {
                        Some(u2) => u2,
                        None => {
                            return None;
                        },
                    };
                    if !(0xDC00 <= u2 && u2 < 0xE000) {
                        return None;
                    }
                    let cp: u32 = 0x10000 + (u - 0xD800) * 0x400 + (u2 - 0xDC00);
                    let c2 = match char_from_u32(cp) {
                        Some(c2) => c2,
                        None => {
                            proof {
                                assert(false);
                            }
                            return None;
                        },
                    };
                    proof {
                        vstd::utf8::char_u32_cast(c2, cp);
                    }
                    decoded = c2;
                    width = 12;
                } else if 0xDC00 <= u && u < 0xE000 {
                    return None;
                } else {
                    let c2 = match char_from_u32(u) {
                        Some(c2) => c2,
                        None => {
                            proof {
                                assert(false);
                            }
                            return None;
                        },
                    };
                    proof {
                        vstd::utf8::char_u32_cast(c2, u);
                    }
                    decoded = c2;
                    width = 6;
                }
            } else {
                return None;
            }
            proof {
                assert(sp_string(s@, cur as int) == sp_cons(decoded, sp_string(s@, cur as int
                    + width as int)));
                lemma_string_step(s@, i as int, acc@, cur as int, decoded, cur as int
                    + width as int);
                assert(acc@.push(decoded) =~= acc@ + seq![decoded]);
            }
            acc.push(decoded);
            cur = cur + width;
        } else if (c as u32) < 0x20 {
            return None;
        } else {
            proof {
                assert(sp_string(s@, cur as int) == sp_cons(c, sp_string(s@, cur as int + 1)));
                lemma_string_step(s@, i as int, acc@, cur as int, c, cur as int + 1);
                assert(acc@.push(c) =~= acc@ + seq![c]);
            }
            acc.push(c);
            cur = cur + 1;
        }
    }
}

/// Ten to the power `n`.
spec fn pow10(n: nat) -> int
    decreases n,
{
    if n == 0 {
        1
    } else {
        10 * pow10((n - 1) as nat)
    }
}

proof fn lemma_digit_run(s: Seq<char>, i: int)
    requires
        0 <= i <= s.len(),
    ensures
        i <= digit_run_end(s, i) <= s.len(),
        forall|k: int| i <= k < digit_run_end(s, i) ==> is_digit_char(s[k]),
    decreases s.len() - i,
{
    if i < s.len() && is_digit_char(s[i]) {
        lemma_digit_run(s, i + 1);
    }
}

proof fn lemma_digits_val_bound(s: Seq<char>, i: int, j: int)
    requires
        0 <= i <= j <= s.len(),
        forall|k: int| i <= k < j ==> is_digit_char(s[k]),
    ensures
        0 <= digits_val(s, i, j) < pow10((j - i) as nat),
    decreases j - i,
{
    if i < j {
        lemma_digits_val_bound(s, i, j - 1);
    }
}

proof fn lemma_pow10_19()
    ensures
        pow10(19) == 10000000000000000000,
{
    reveal_with_fuel(pow10, 21);
}

#[verifier::loop_isolation(false)]
fn x_number(s: &Vec<char>, i: usize) -> (r: Option<(i64, usize)>)
    requires
        i <= s@.len(),
    ensures
        match r {
            Some((v, e)) => sp_number(s@, i as int) == Some::<(JsonView, int)>((
                JsonView::Int(v as int),
                e as int,
            )) && i < e <= s@.len(),
            None => sp_number(s@, i as int) is None,
        },
{
    if i >= s.len() {
        return None;
    }
    let neg = s[i] == '-';
    let d0 = if neg {
        i + 1
    } else {
        i
    };
    if d0 > s.len() {
        proof {
            assert(digit_run_end(s@, d0 as int) == d0 as int);
        }
        return None;
    }
    let mut e = d0;
    while e < s.len() && x_is_digit(s[e])
        invariant
            d0 <= e <= s@.len(),
            digit_run_end(s@, d0 as int) == digit_run_end(s@, e as int),
        decreases s@.len() - e,
    {
        e = e + 1;
    }
    proof {
        assert(digit_run_end(s@, e as int) == e as int);
        lemma_digit_run(s@, d0 as int);
    }
    if e == d0 || e - d0 > 19 {
        return None;
    }
    let mut k = d0;
    let mut mag: u64 = 0;
    proof {
        lemma_pow10_19();
    }
    while k < e
        invariant
            d0 <= k <= e,
            mag as int == digits_val(s@, d0 as int, k as int),
            (mag as int) < pow10((k - d0) as nat),
        decreases e - k,
    {
        let d = match hex_val_of(s[k]) {
            Some(d) => d,
            None => {
                proof {
                    assert(false);
                }
                return None;
            },
        };
        proof {
            lemma_digits_val_bound(s@, d0 as int, k as int + 1);
            assert(pow10(((k + 1) - d0) as nat) == 10 * pow10((k - d0) as nat));
            assert(pow10((k - d0) as nat) <= pow10(18)) by {
                lemma_pow10_monotone((k - d0) as nat, 18);
            }
            assert(pow10(18) * 10 == pow10(19));
        }
        mag = mag * 10 + (d as u64);
        k = k + 1;
    }
    let v: i64;
    if neg {
        if mag > 0x8000000000000000 {
            return None;
        } else if mag == 0x8000000000000000 {
            v = i64::MIN;
        } else {
            v = -(mag as i64);
        }
    } else {
        if mag > 0x7FFFFFFFFFFFFFFF {
            return None;
        }
        v = mag as i64;
    }
    Some((v, e))
}

proof fn lemma_pow10_monotone(a: nat, b: nat)
    requires
        a <= b,
    ensures
        pow10(a) <= pow10(b),
        pow10(a) >= 1,
    decreases b,
{
    if a == b {
        if a > 0 {
            lemma_pow10_monotone((a - 1) as nat, (b - 1) as nat);
        }
    } else {
        lemma_pow10_monotone(a, (b - 1) as nat);
    }
}


fn x_match4(s: &Vec<char>, j: usize, c0: char, c1: char, c2: char, c3: char) -> (r: bool)
    requires
        j <= s@.len(),
    ensures
        r == match_at(s@, j as int, seq![c0, c1, c2, c3]),
{
    if s.len() >= 4 && j <= s.len() - 4 && s[j] == c0 && s[j + 1] == c1 && s[j + 2] == c2 && s[j
        + 3] == c3 {
        proof {
            assert(s@.subrange(j as int, j as int + 4) =~= seq![c0, c1, c2, c3]);
        }
        true
    } else {
        proof {
            if match_at(s@, j as int, seq![c0, c1, c2, c3]) {
                assert(s@.subrange(j as int, j as int + 4)[0] == s@[j as int]);
                assert(s@.subrange(j as int, j as int + 4)[1] == s@[j as int + 1]);
                assert(s@.subrange(j as int, j as int + 4)[2] == s@[j as int + 2]);
                assert(s@.subrange(j as int, j as int + 4)[3] == s@[j as int + 3]);
            }
        }
        false
    }
}

fn x_match5(s: &Vec<char>, j: usize, c0: char, c1: char, c2: char, c3: char, c4: char) -> (r:
    bool)
    requires
        j <= s@.len(),
    ensures
        r == match_at(s@, j as int, seq![c0, c1, c2, c3, c4]),
{
    if s.len() >= 5 && j <= s.len() - 5 && s[j] == c0 && s[j + 1] == c1 && s[j + 2] == c2 && s[j
        + 3] == c3 && s[j + 4] == c4 {
        proof {
            assert(s@.subrange(j as int, j as int + 5) =~= seq![c0, c1, c2, c3, c4]);
        }
        true
    } else {
        proof {
            if match_at(s@, j as int, seq![c0, c1, c2, c3, c4]) {
                assert(s@.subrange(j as int, j as int + 5)[0] == s@[j as int]);
                assert(s@.subrange(j as int, j as int + 5)[1] == s@[j as int + 1]);
                assert(s@.subrange(j as int, j as int + 5)[2] == s@[j as int + 2]);
                assert(s@.subrange(j as int, j as int + 5)[3] == s@[j as int + 3]);
                assert(s@.subrange(j as int, j as int + 5)[4] == s@[j as int + 4]);
            }
        }
        false
    }
}

/// Relates a partly built array to the grammar, as `string_step_eq` does
/// for strings.
spec fn items_step_eq(s: Seq<char>, i0: int, acc: Seq<JsonView>, cur: int) -> bool {
    match sp_items(s, cur) {
        Some((vs, e)) => sp_items(s, i0) == Some::<(Seq<JsonView>, int)>((acc + vs, e)),
        None => sp_items(s, i0) is None,
    }
}

proof fn lemma_items_step(
    s: Seq<char>,
    i0: int,
    acc: Seq<JsonView>,
    cur: int,
    v: JsonView,
    next: int,
)
    requires
        items_step_eq(s, i0, acc, cur),
        sp_items(s, cur) == (match sp_items(s, next) {
            Some((vs, e)) => Some::<(Seq<JsonView>, int)>((seq![v] + vs, e)),
            None => None::<(Seq<JsonView>, int)>,
        }),
    ensures
        items_step_eq(s, i0, acc + seq![v], next),
{
    match sp_items(s, next) {
        Some((vs, e)) => {
            assert(acc + (seq![v] + vs) =~= (acc + seq![v]) + vs);
        },
        None => {},
    }
}

/// Relates a partly built object to the grammar.
spec fn fields_step_eq(
    s: Seq<char>,
    i0: int,
    acc: Seq<(Seq<char>, JsonView)>,
    cur: int,
) -> bool {
    match sp_fields(s, cur) {
        Some((fs, e)) => sp_fields(s, i0) == Some::<(Seq<(Seq<char>, JsonView)>, int)>((
            acc + fs,
            e,
        )),
        None => sp_fields(s, i0) is None,
    }
}

proof fn lemma_fields_step(
    s: Seq<char>,
    i0: int,
    acc: Seq<(Seq<char>, JsonView)>,
    cur: int,
    kv: (Seq<char>, JsonView),
    next: int,
)
    requires
        fields_step_eq(s, i0, acc, cur),
        sp_fields(s, cur) == (match sp_fields(s, next) {
            Some((fs, e)) => Some::<(Seq<(Seq<char>, JsonView)>, int)>((seq![kv] + fs, e)),
            None => None::<(Seq<(Seq<char>, JsonView)>, int)>,
        }),
    ensures
        fields_step_eq(s, i0, acc + seq![kv], next),
{
    match sp_fields(s, next) {
        Some((fs, e)) => {
            assert(acc + (seq![kv] + fs) =~= (acc + seq![kv]) + fs);
        },
        None => {},
    }
}

#[verifier::loop_isolation(false)]
fn x_value(s: &Vec<char>, i: usize) -> (r: Option<(Json, usize)>)
    requires
        i <= s@.len(),
    ensures
        match r {
            Some((v, k)) => sp_value(s@, i as int) == Some::<(JsonView, int)>((v@, k as int))
                && i < k <= s@.len(),
            None => sp_value(s@, i as int) is None,
        },
    decreases s@.len() - i, 1int,
{
    let j = x_skip_ws(s, i);
    if j >= s.len() {
        return None;
    }
    let c = s[j];
    if c == 'n' {
        if x_match4(s, j, 'n', 'u', 'l', 'l') {
            Some((Json::Null, j + 4))
        } else {
            None
        }
    } else if c == 't' {
        if x_match4(s, j, 't', 'r', 'u', 'e') {
            Some((Json::Bool(true), j + 4))
        } else {
            None
        }
    } else if c == 'f' {
        if x_match5(s, j, 'f', 'a', 'l', 's', 'e') {
            Some((Json::Bool(false), j + 5))
        } else {
            None
        }
    } else if c == '"' {
        match x_string(s, j + 1) {
            Some((t, e)) => {
                let st = crate::json::chars_to_string(&t);
                Some((Json::Str(st), e))
            },
            None => None,
        }
    } else if c == '[' {
        let m = x_skip_ws(s, j + 1);
        if m < s.len() && s[m] == ']' {
            let inner: Vec<Json> = Vec::new();
            proof {
                assert(views_of(inner@) =~= Seq::<JsonView>::empty());
            }
            Some((Json::Arr(inner), m + 1))
        } else {
            match x_items(s, j + 1) {
                Some((vs, k)) => Some((Json::Arr(vs), k)),
                None => None,
            }
        }
    } else if c == '{' {
        let m = x_skip_ws(s, j + 1);
        if m < s.len() && s[m] == '}' {
            let inner: Vec<(String, Json)> = Vec::new();
            proof {
                assert(views_of_fields(inner@) =~= Seq::<(Seq<char>, JsonView)>::empty());
            }
            Some((Json::Obj(inner), m + 1))
        } else {
            match x_fields(s, j + 1) {
                Some((fs, k)) => Some((Json::Obj(fs), k)),
                None => None,
            }
        }
    } else if c == '-' || x_is_digit(c) {
        match x_number(s, j) {
            Some((v, e)) => Some((Json::Int(v), e)),
            None => None,
        }
    } else {
        None
    }
}

#[verifier::loop_isolation(false)]
fn x_items(s: &Vec<char>, i: usize) -> (r: Option<(Vec<Json>, usize)>)
    requires
        i <= s@.len(),
    ensures
        match r {
            Some((vs, e)) => sp_items(s@, i as int) == Some::<(Seq<JsonView>, int)>((
                views_of(vs@),
                e as int,
            )) && i < e <= s@.len(),
            None => sp_items(s@, i as int) is None,
        },
    decreases s@.len() - i, 2int,
{
    let mut cur = i;
    let mut acc: Vec<Json> = Vec::new();
    proof {
        assert(views_of(acc@) =~= Seq::<JsonView>::empty());
        assert(Seq::<JsonView>::empty() + Seq::<JsonView>::empty() =~= Seq::<
            JsonView,
        >::empty());
    }
    loop
        invariant
            i <= cur <= s@.len(),
            items_step_eq(s@, i as int, views_of(acc@), cur as int),
        decreases s@.len() - cur,
    {
        let (v, k) = match x_value(s, cur) {
            Some(p) => p,
            None => {
                return None;
            },
        };
        let m = x_skip_ws(s, k);
        if m >= s.len() {
            return None;
        }
        if s[m] == ',' {
            proof {
                lemma_items_step(s@, i as int, views_of(acc@), cur as int, v@, m as int + 1);
                assert(views_of(acc@.push(v)) =~= views_of(acc@) + seq![v@]);
            }
            acc.push(v);
            cur = m + 1;
        } else if s[m] == ']' {
            proof {
                assert(sp_items(s@, cur as int) == Some::<(Seq<JsonView>, int)>((
                    seq![v@],
                    m as int + 1,
                )));
                assert(views_of(acc@.push(v)) =~= views_of(acc@) + seq![v@]);
            }
            acc.push(v);
            return Some((acc, m + 1));
        } else {
            return None;
        }
    }
}

#[verifier::loop_isolation(false)]
fn x_fields(s: &Vec<char>, i: usize) -> (r: Option<(Vec<(String, Json)>, usize)>)
    requires
        i <= s@.len(),
    ensures
        match r {
            Some((fs, e)) => sp_fields(s@, i as int) == Some::<(Seq<(Seq<char>, JsonView)>,
                int,
            )>((views_of_fields(fs@), e as int)) && i < e <= s@.len(),
            None => sp_fields(s@, i as int) is None,
        },
    decreases s@.len() - i, 2int,
{
    let mut cur = i;
    let mut acc: Vec<(String, Json)> = Vec::new();
    proof {
        assert(views_of_fields(acc@) =~= Seq::<(Seq<char>, JsonView)>::empty());
    }
    loop
        invariant
            i <= cur <= s@.len(),
            fields_step_eq(s@, i as int, views_of_fields(acc@), cur as int),
        decreases s@.len() - cur,
    {
        let j = x_skip_ws(s, cur);
        if j >= s.len() {
            return None;
        }
        if s[j] != '"' {
            return None;
        }
        let (key, k) = match x_string(s, j + 1) {
            Some(p) => p,
            None => {
                return None;
            },
        };
        let m = x_skip_ws(s, k);
        if m >= s.len() {
            return None;
        }
        if s[m] != ':' {
            return None;
        }
        let (v, k2) = match x_value(s, m + 1) {
            Some(p) => p,
            None => {
                return None;
            },
        };
        let m2 = x_skip_ws(s, k2);
        if m2 >= s.len() {
            return None;
        }
        let key_str = crate::json::chars_to_string(&key);
        if s[m2] == ',' {
            proof {
                lemma_fields_step(
                    s@,
                    i as int,
                    views_of_fields(acc@),
                    cur as int,
                    (key@, v@),
                    m2 as int + 1,
                );
                assert(views_of_fields(acc@.push((key_str, v))) =~= views_of_fields(acc@)
                    + seq![(key@, v@)]);
            }
            acc.push((key_str, v));
            cur = m2 + 1;
        } else if s[m2] == '}' {
            proof {
                assert(sp_fields(s@, cur as int) == Some::<(Seq<(Seq<char>, JsonView)>, int)>((
                    seq![(key@, v@)],
                    m2 as int + 1,
                )));
                assert(views_of_fields(acc@.push((key_str, v))) =~= views_of_fields(acc@)
                    + seq![(key@, v@)]);
            }
            acc.push((key_str, v));
            return Some((acc, m2 + 1));
        } else {
            return None;
        }
    }
}

/// Decodes one text into a document: returns the document the grammar
/// assigns to the text, and nothing on a text the grammar refuses.
pub fn decode_json(text: &str) -> (r: Option<Json>)
    ensures
        match r {
            Some(v) => parse_json(text@) == Some(v@),
            None => parse_json(text@) is None,
        },
{
    let cs = crate::json::str_to_chars(text);
    match x_value(&cs, 0) {
        None => None,
        Some((v, k)) => {
            let m = x_skip_ws(&cs, k);
            if m == cs.len() {
                Some(v)
            } else {
                None
            }
        },
    }
}


proof fn lemma_skip_ws_at(s: Seq<char>, i: int)
    requires
        i >= s.len() || 0 > i || !is_ws_char(s[i]),
    ensures
        skip_ws(s, i) == i,
{
}

proof fn lemma_digit_char_props(d: int)
    requires
        0 <= d <= 9,
    ensures
        is_digit_char(digit_char(d)),
        digit_val(digit_char(d)) == d,
        !is_ws_char(digit_char(d)),
{
}

proof fn lemma_dec_digits_chars(n: nat)
    ensures
        dec_digits(n).len() >= 1,
        forall|k: int| 0 <= k < dec_digits(n).len() ==> is_digit_char(#[trigger] dec_digits(n)[k]),
        is_digit_char(dec_digits(n)[0]),
    decreases n,
{
    if n < 10 {
        lemma_digit_char_props(n as int);
    } else {
        lemma_dec_digits_chars(n / 10);
        lemma_digit_char_props((n % 10) as int);
        assert forall|k: int| 0 <= k < dec_digits(n).len() implies is_digit_char(
            #[trigger] dec_digits(n)[k],
        ) by {
            if k < dec_digits(n / 10).len() {
                assert(dec_digits(n)[k] == dec_digits(n / 10)[k]);
            } else {
                assert(dec_digits(n)[k] == digit_char((n % 10) as int));
            }
        }
        assert(dec_digits(n)[0] == dec_digits(n / 10)[0]);
    }
}

proof fn lemma_dec_digits_len(n: nat, k: nat)
    requires
        n < pow10(k),
    ensures
        dec_digits(n).len() <= (if k == 0 { 1int } else { k as int }),
    decreases n,
{
    if n < 10 {
    } else {
        assert(k >= 2) by {
            reveal_with_fuel(pow10, 3);
            if k < 2 {
                lemma_pow10_monotone(k, 1);
            }
        }
        assert(pow10(k) == 10 * pow10((k - 1) as nat));
        lemma_dec_digits_len(n / 10, (k - 1) as nat);
    }
}

proof fn lemma_digits_val_of_dec(s: Seq<char>, i: int, n: nat)
    requires
        0 <= i,
        i + dec_digits(n).len() <= s.len(),
        s.subrange(i, i + dec_digits(n).len()) == dec_digits(n),
    ensures
        digits_val(s, i, i + dec_digits(n).len()) == n,
    decreases n,
{
    let d = dec_digits(n);
    if n < 10 {
        assert(s[i] == s.subrange(i, i + 1)[0]);
        assert(s[i] == digit_char(n as int));
        lemma_digit_char_props(n as int);
        assert(digits_val(s, i, i) == 0);
        assert(digits_val(s, i, i + 1) == digits_val(s, i, i) * 10 + digit_val(s[i]));
    } else {
        let p = dec_digits(n / 10);
        assert(s.subrange(i, i + p.len()) =~= p) by {
            assert forall|k: int| 0 <= k < p.len() implies s.subrange(i, i + p.len())[k]
                == p[k] by {
                assert(s.subrange(i, i + d.len())[k] == d[k]);
                assert(d[k] == p[k]);
            }
        }
        lemma_digits_val_of_dec(s, i, n / 10);
        assert(s[i + d.len() - 1] == s.subrange(i, i + d.len())[d.len() - 1]);
        assert(s[i + d.len() - 1] == digit_char((n % 10) as int));
        lemma_digit_char_props((n % 10) as int);
        assert(d.len() == p.len() + 1);
        assert(digits_val(s, i, i + d.len()) == digits_val(s, i, i + d.len() - 1) * 10
            + digit_val(s[i + d.len() - 1]));
        assert(digits_val(s, i, i + p.len()) == n / 10);
        assert(digit_val(s[i + d.len() - 1]) == n % 10);
        assert(digits_val(s, i, i + d.len()) == (n / 10) * 10 + (n % 10));
        assert((n / 10) * 10 + (n % 10) == n);
    }
}

proof fn lemma_digit_run_of_region(s: Seq<char>, a: int, b: int)
    requires
        0 <= a <= b <= s.len(),
        forall|k: int| a <= k < b ==> is_digit_char(s[k]),
        b < s.len() ==> !is_digit_char(s[b]),
    ensures
        digit_run_end(s, a) == b,
    decreases b - a,
{
    if a < b {
        lemma_digit_run_of_region(s, a + 1, b);
    }
}

proof fn lemma_sp_number_of_enc(s: Seq<char>, i: int, n: int)
    requires
        i64::MIN as int <= n <= i64::MAX as int,
        0 <= i,
        i + enc_int(n).len() <= s.len(),
        s.subrange(i, i + enc_int(n).len()) == enc_int(n),
        i + enc_int(n).len() < s.len() ==> !is_digit_char(s[i + enc_int(n).len()]),
    ensures
        sp_number(s, i) == Some::<(JsonView, int)>((JsonView::Int(n), i + enc_int(n).len())),
{
    let e = enc_int(n);
    let mag: nat = if n < 0 { (-n) as nat } else { n as nat };
    let d = dec_digits(mag);
    let d0: int = if n < 0 { i + 1 } else { i };
    lemma_dec_digits_chars(mag);
    lemma_pow10_19();
    assert(mag < pow10(19)) by {
        assert(pow10(19) == 10000000000000000000);
    }
    lemma_dec_digits_len(mag, 19);
    // The digits stand at d0.
    assert(s.subrange(d0, d0 + d.len()) =~= d) by {
        assert forall|k: int| 0 <= k < d.len() implies s.subrange(d0, d0 + d.len())[k]
            == d[k] by {
            if n < 0 {
                assert(s.subrange(i, i + e.len())[k + 1] == e[k + 1]);
                assert(e[k + 1] == d[k]);
            } else {
                assert(s.subrange(i, i + e.len())[k] == e[k]);
            }
        }
    }
    assert(forall|k: int| d0 <= k < d0 + d.len() ==> is_digit_char(s[k])) by {
        assert(forall|k: int| d0 <= k < d0 + d.len() ==> s[k] == d[k - d0]);
    }
    lemma_digit_run_of_region(s, d0, d0 + d.len());
    lemma_digits_val_of_dec(s, d0, mag);
    if n < 0 {
        assert(s[i] == s.subrange(i, i + e.len())[0]);
        assert(s[i] == '-');
    } else {
        assert(s[i] == s.subrange(i, i + e.len())[0]);
        assert(s[i] == d[0]);
        assert(is_digit_char(s[i]));
        assert(s[i] != '-') by {
            assert(('-' as u32) == 45);
        }
    }
}


proof fn lemma_hex_char_props(d: int)
    requires
        0 <= d <= 15,
    ensures
        is_hex_char(hex_char(d)),
        hex_val(hex_char(d)) == d,
{
    if d < 10 {
        lemma_digit_char_props(d);
    }
}

proof fn lemma_sp_string_of_esc(s: Seq<char>, i: int, cs: Seq<char>)
    requires
        0 <= i,
        i + esc_str(cs).len() + 1 <= s.len(),
        s.subrange(i, i + esc_str(cs).len()) == esc_str(cs),
        s[i + esc_str(cs).len()] == '"',
    ensures
        sp_string(s, i) == Some::<(Seq<char>, int)>((cs, i + esc_str(cs).len() + 1)),
    decreases cs.len(),
{
    if cs.len() == 0 {
        assert(esc_str(cs).len() == 0);
        assert(s[i] == '"');
    } else {
        let c = cs[0];
        let rest = cs.drop_first();
        let ec = esc_char(c);
        let er = esc_str(rest);
        let whole = esc_str(cs);
        assert(whole == ec + er);
        let i2 = i + ec.len();
        assert(forall|k: int| 0 <= k < whole.len() ==> s[i + k] == whole[k]) by {
            assert(forall|k: int| 0 <= k < whole.len() ==> s.subrange(i, i + whole.len())[k]
                == whole[k]);
        }
        assert(s.subrange(i2, i2 + er.len()) =~= er) by {
            assert forall|k: int| 0 <= k < er.len() implies s.subrange(i2, i2 + er.len())[k]
                == er[k] by {
                assert(s[i2 + k] == whole[ec.len() + k]);
                assert(whole[ec.len() + k] == er[k]);
            }
        }
        assert(s[i2 + er.len()] == '"');
        lemma_sp_string_of_esc(s, i2, rest);
        assert(seq![c] + rest =~= cs);
        assert forall|k: int| 0 <= k < ec.len() implies s[i + k] == ec[k] by {
            assert(s[i + k] == whole[k]);
            assert((ec + er)[k] == ec[k]);
        }
        if c == '"' {
            assert(s[i] == '\\' && s[i + 1] == '"');
        } else if c == '\\' {
            assert(s[i] == '\\' && s[i + 1] == '\\');
        } else if c == '\n' {
            assert(s[i] == '\\' && s[i + 1] == 'n');
        } else if c == '\r' {
            assert(s[i] == '\\' && s[i + 1] == 'r');
        } else if c == '\t' {
            assert(s[i] == '\\' && s[i + 1] == 't');
        } else if c == '\u{8}' {
            assert(s[i] == '\\' && s[i + 1] == 'b');
        } else if c == '\u{c}' {
            assert(s[i] == '\\' && s[i + 1] == 'f');
        } else if (c as u32) < 0x20 {
            let u: int = c as u32 as int;
            assert(s[i] == '\\' && s[i + 1] == 'u' && s[i + 2] == '0' && s[i + 3] == '0');
            assert(s[i + 4] == hex_char(u / 16));
            assert(s[i + 5] == hex_char(u % 16));
            lemma_digit_char_props(0);
            lemma_hex_char_props(u / 16);
            lemma_hex_char_props(u % 16);
            assert(hex_val('0') == 0) by {
                assert(('0' as u32) == 48);
            }
            assert(hex4_at(s, i + 2));
            assert(hex4_val(s, i + 2) == (u / 16) * 16 + u % 16);
            assert((u / 16) * 16 + u % 16 == u);
            vstd::utf8::char_u32_cast(c, c as u32);
            assert(((u as u32) as char) == c);
        } else {
            assert(s[i] == c);
            assert(ec == seq![c]);
            assert((c as u32) >= 0x20);
        }
    }
}


/// A document the executable type can hold: every number fits the signed
/// 64-bit range.
pub open spec fn wf_json(v: JsonView) -> bool
    decreases v, 1int,
{
    match v {
        JsonView::Int(i) => i64::MIN as int <= i <= i64::MAX as int,
        JsonView::Arr(items) => forall|k: int|
            0 <= k < items.len() ==> wf_json(#[trigger] items[k]),
        JsonView::Obj(fields) => forall|k: int|
            0 <= k < fields.len() ==> wf_json(#[trigger] fields[k].1),
        _ => true,
    }
}

/// Every executable document's model is well formed.
pub proof fn lemma_view_wf(j: &Json)
    ensures
        wf_json(j@),
    decreases *j, 1int,
{
    match j {
        Json::Arr(a) => {
            let items = views_of(a@);
            assert forall|k: int| 0 <= k < items.len() implies wf_json(
                #[trigger] items[k],
            ) by {
                assert(decreases_to!(*j => a@[k]));
                lemma_view_wf(&a@[k]);
                assert(items[k] == a@[k]@);
            }
        },
        Json::Obj(o) => {
            let fields = views_of_fields(o@);
            assert forall|k: int| 0 <= k < fields.len() implies wf_json(
                #[trigger] fields[k].1,
            ) by {
                assert(decreases_to!(*j => o@[k].1));
                lemma_view_wf(&o@[k].1);
                assert(fields[k].1 == o@[k].1@);
            }
        },
        _ => {},
    }
}

proof fn lemma_enc_json_first(v: JsonView)
    ensures
        enc_json(v).len() > 0,
        ({
            let c = enc_json(v)[0];
            &&& (c == 'n' || c == 't' || c == 'f' || c == '"' || c == '[' || c == '{' || c
                == '-' || is_digit_char(c))
            &&& !is_ws_char(c)
            &&& c != ']'
            &&& c != '}'
            &&& c != ','
            &&& c != ':'
        }),
{
    match v {
        JsonView::Int(i) => {
            let mag: nat = if i < 0 {
                (-i) as nat
            } else {
                i as nat
            };
            lemma_dec_digits_chars(mag);
            if i < 0 {
                assert(enc_json(v)[0] == '-');
            } else {
                assert(enc_json(v)[0] == dec_digits(mag)[0]);
                let c = enc_json(v)[0];
                assert(is_digit_char(c));
                assert(!is_ws_char(c)) by {
                    assert((' ' as u32) == 32 && ('\t' as u32) == 9 && ('\r' as u32) == 13 && (
                    '\n' as u32) == 10);
                }
                assert(c != ']') by {
                    if c == ']' {
                        assert((c as u32) == 93);
                    }
                }
                assert(c != '}') by {
                    if c == '}' {
                        assert((c as u32) == 125);
                    }
                }
                assert(c != ',') by {
                    if c == ',' {
                        assert((c as u32) == 44);
                    }
                }
                assert(c != ':') by {
                    if c == ':' {
                        assert((c as u32) == 58);
                    }
                }
            }
        },
        JsonView::Str(cs) => {
            assert(enc_json(v)[0] == '"');
        },
        JsonView::Arr(items) => {
            assert(enc_json(v)[0] == '[');
        },
        JsonView::Obj(fields) => {
            assert(enc_json(v)[0] == '{');
        },
        JsonView::Null => {
            assert(enc_json(v)[0] == 'n');
        },
        JsonView::Bool(b) => {
            assert(enc_json(v)[0] == (if b { 't' } else { 'f' }));
        },
    }
}

proof fn lemma_number_first_char(c: char)
    requires
        c == '-' || is_digit_char(c),
    ensures
        c != 'n' && c != 't' && c != 'f' && c != '"' && c != '[' && c != '{',
{
    assert(c != 'n') by {
        if c == 'n' {
            assert((c as u32) == 110);
        }
    }
    assert(c != 't') by {
        if c == 't' {
            assert((c as u32) == 116);
        }
    }
    assert(c != 'f') by {
        if c == 'f' {
            assert((c as u32) == 102);
        }
    }
    assert(c != '"') by {
        if c == '"' {
            assert((c as u32) == 34);
        }
    }
    assert(c != '[') by {
        if c == '[' {
            assert((c as u32) == 91);
        }
    }
    assert(c != '{') by {
        if c == '{' {
            assert((c as u32) == 123);
        }
    }
}


proof fn lemma_sp_value_of_enc(s: Seq<char>, i: int, v: JsonView)
    requires
        wf_json(v),
        0 <= i,
        i + enc_json(v).len() <= s.len(),
        s.subrange(i, i + enc_json(v).len()) == enc_json(v),
        i + enc_json(v).len() < s.len() ==> !is_digit_char(s[i + enc_json(v).len()]),
    ensures
        sp_value(s, i) == Some::<(JsonView, int)>((v, i + enc_json(v).len())),
    decreases v, 1int,
{
    let e = enc_json(v);
    assert(forall|k: int| 0 <= k < e.len() ==> s[i + k] == e[k]) by {
        assert(forall|k: int| 0 <= k < e.len() ==> s.subrange(i, i + e.len())[k] == e[k]);
    }
    lemma_enc_json_first(v);
    assert(s[i] == e[0]);
    lemma_skip_ws_at(s, i);
    match v {
        JsonView::Null => {
            assert(s.subrange(i, i + 4) =~= seq!['n', 'u', 'l', 'l']);
            assert(match_at(s, i, seq!['n', 'u', 'l', 'l']));
        },
        JsonView::Bool(b) => {
            if b {
                assert(s.subrange(i, i + 4) =~= seq!['t', 'r', 'u', 'e']);
                assert(match_at(s, i, seq!['t', 'r', 'u', 'e']));
            } else {
                assert(s.subrange(i, i + 5) =~= seq!['f', 'a', 'l', 's', 'e']);
                assert(match_at(s, i, seq!['f', 'a', 'l', 's', 'e']));
            }
        },
        JsonView::Int(n) => {
            let mag: nat = if n < 0 {
                (-n) as nat
            } else {
                n as nat
            };
            lemma_dec_digits_chars(mag);
            if n < 0 {
                assert(e[0] == (seq!['-'] + dec_digits(mag))[0]);
                assert(s[i] == '-');
            } else {
                assert(is_digit_char(s[i]));
            }
            lemma_number_first_char(s[i]);
            lemma_sp_number_of_enc(s, i, n);
        },
        JsonView::Str(cs) => {
            let el = esc_str(cs);
            assert(s[i] == '"');
            assert(s.subrange(i + 1, i + 1 + el.len()) =~= el) by {
                assert forall|k: int| 0 <= k < el.len() implies s.subrange(
                    i + 1,
                    i + 1 + el.len(),
                )[k] == el[k] by {
                    assert(s[i + 1 + k] == e[1 + k]);
                    assert(e[1 + k] == ((seq!['"'] + el) + seq!['"'])[1 + k]);
                    assert(((seq!['"'] + el) + seq!['"'])[1 + k] == (seq!['"'] + el)[1 + k]);
                }
            }
            assert(s[i + 1 + el.len()] == '"') by {
                assert(s[i + 1 + el.len()] == e[e.len() - 1]);
                assert(e[e.len() - 1] == ((seq!['"'] + el) + seq!['"'])[e.len() - 1]);
            }
            lemma_sp_string_of_esc(s, i + 1, cs);
        },
        JsonView::Arr(items) => {
            assert(s[i] == '[');
            let inner = enc_items(items);
            assert(e == seq!['['] + inner + seq![']']);
            assert(s[i + 1 + inner.len()] == ']') by {
                assert(s[i + 1 + inner.len()] == e[e.len() - 1]);
                assert(e[e.len() - 1] == ((seq!['['] + inner) + seq![']'])[e.len() - 1]);
            }
            assert(forall|k: int| 0 <= k < inner.len() ==> s[i + 1 + k] == inner[k]) by {
                assert forall|k: int| 0 <= k < inner.len() implies s[i + 1 + k] == inner[k] by {
                    assert(s[i + 1 + k] == e[1 + k]);
                    assert(e[1 + k] == ((seq!['['] + inner) + seq![']'])[1 + k]);
                    assert(((seq!['['] + inner) + seq![']'])[1 + k] == (seq!['['] + inner)[1
                        + k]);
                }
            }
            if items.len() == 0 {
                assert(inner.len() == 0);
                assert(s[i + 1] == ']');
                lemma_skip_ws_at(s, i + 1);
                assert(skip_ws(s, i + 1) == i + 1);
                assert(Seq::<JsonView>::empty() =~= items);
                assert(JsonView::Arr(Seq::<JsonView>::empty()) == v);
            } else {
                lemma_enc_json_first(items[0]);
                assert(inner[0] == enc_json(items[0])[0]) by {
                    if items.len() == 1 {
                    } else {
                        assert(inner == (enc_json(items[0]) + seq![',']) + enc_items(
                            items.drop_first(),
                        ));
                        assert(inner[0] == (enc_json(items[0]) + seq![','])[0]);
                    }
                }
                assert(s[i + 1] == inner[0]);
                lemma_skip_ws_at(s, i + 1);
                assert(s[i + 1] != ']');
                assert(s.subrange(i + 1, i + 1 + inner.len()) =~= inner);
                lemma_sp_items_of_enc(s, i + 1, items);
            }
        },
        JsonView::Obj(fields) => {
            assert(s[i] == '{');
            let inner = enc_fields(fields);
            assert(e == seq!['{'] + inner + seq!['}']);
            assert(s[i + 1 + inner.len()] == '}') by {
                assert(s[i + 1 + inner.len()] == e[e.len() - 1]);
                assert(e[e.len() - 1] == ((seq!['{'] + inner) + seq!['}'])[e.len() - 1]);
            }
            assert(forall|k: int| 0 <= k < inner.len() ==> s[i + 1 + k] == inner[k]) by {
                assert forall|k: int| 0 <= k < inner.len() implies s[i + 1 + k] == inner[k] by {
                    assert(s[i + 1 + k] == e[1 + k]);
                    assert(e[1 + k] == ((seq!['{'] + inner) + seq!['}'])[1 + k]);
                    assert(((seq!['{'] + inner) + seq!['}'])[1 + k] == (seq!['{'] + inner)[1
                        + k]);
                }
            }
            if fields.len() == 0 {
                assert(inner.len() == 0);
                assert(s[i + 1] == '}');
                lemma_skip_ws_at(s, i + 1);
                assert(Seq::<(Seq<char>, JsonView)>::empty() =~= fields);
                assert(JsonView::Obj(Seq::<(Seq<char>, JsonView)>::empty()) == v);
            } else {
                assert(inner[0] == '"') by {
                    let head = seq!['"'] + esc_str(fields[0].0) + seq!['"', ':'] + enc_json(
                        fields[0].1,
                    );
                    if fields.len() == 1 {
                        assert(inner[0] == head[0]);
                    } else {
                        assert(inner == (head + seq![',']) + enc_fields(fields.drop_first()));
                        assert(inner[0] == (head + seq![','])[0]);
                        assert((head + seq![','])[0] == head[0]);
                    }
                    assert(head[0] == '"');
                }
                assert(s[i + 1] == '"');
                lemma_skip_ws_at(s, i + 1);
                assert(s[i + 1] != '}');
                assert(s.subrange(i + 1, i + 1 + inner.len()) =~= inner);
                lemma_sp_fields_of_enc(s, i + 1, fields);
            }
        },
    }
}

proof fn lemma_sp_items_of_enc(s: Seq<char>, i: int, items: Seq<JsonView>)
    requires
        items.len() >= 1,
        forall|k: int| 0 <= k < items.len() ==> wf_json(#[trigger] items[k]),
        0 <= i,
        i + enc_items(items).len() + 1 <= s.len(),
        s.subrange(i, i + enc_items(items).len()) == enc_items(items),
        s[i + enc_items(items).len()] == ']',
    ensures
        sp_items(s, i) == Some::<(Seq<JsonView>, int)>((
            items,
            i + enc_items(items).len() + 1,
        )),
    decreases items, 2int,
{
    let inner = enc_items(items);
    assert(forall|k: int| 0 <= k < inner.len() ==> s[i + k] == inner[k]) by {
        assert(forall|k: int| 0 <= k < inner.len() ==> s.subrange(i, i + inner.len())[k]
            == inner[k]);
    }
    let v0 = items[0];
    let e0 = enc_json(v0);
    lemma_enc_json_first(v0);
    if items.len() == 1 {
        assert(inner == e0);
        assert(s.subrange(i, i + e0.len()) =~= e0);
        assert(s[i + e0.len()] == ']');
        assert(!is_digit_char(s[i + e0.len()])) by {
            if is_digit_char(']') {
                assert((']' as u32) == 93);
            }
        }
        lemma_sp_value_of_enc(s, i, v0);
        let k = i + e0.len();
        lemma_skip_ws_at(s, k);
        assert(!is_ws_char(']')) by {
            assert((']' as u32) == 93 && (' ' as u32) == 32 && ('\t' as u32) == 9 && ('\r'
                as u32) == 13 && ('\n' as u32) == 10);
        }
        assert(skip_ws(s, k) == k);
        assert(seq![v0] =~= items);
    } else {
        let rest = items.drop_first();
        let er = enc_items(rest);
        assert(inner == (e0 + seq![',']) + er);
        assert(forall|k: int| 0 <= k < e0.len() ==> inner[k] == e0[k]) by {
            assert(forall|k: int| 0 <= k < e0.len() ==> ((e0 + seq![',']) + er)[k] == (e0
                + seq![','])[k]);
        }
        assert(s.subrange(i, i + e0.len()) =~= e0);
        assert(inner[e0.len() as int] == ',') by {
            assert(((e0 + seq![',']) + er)[e0.len() as int] == (e0 + seq![','])[e0.len() as int]);
        }
        assert(s[i + e0.len()] == ',');
        assert(!is_digit_char(s[i + e0.len()])) by {
            if is_digit_char(',') {
                assert((',' as u32) == 44);
            }
        }
        lemma_sp_value_of_enc(s, i, v0);
        let k = i + e0.len();
        assert(!is_ws_char(',')) by {
            assert((',' as u32) == 44 && (' ' as u32) == 32 && ('\t' as u32) == 9 && ('\r'
                as u32) == 13 && ('\n' as u32) == 10);
        }
        lemma_skip_ws_at(s, k);
        let m = k;
        // The rest of the elements stand after the comma.
        assert(forall|q: int| 0 <= q < er.len() ==> inner[e0.len() + 1 + q] == er[q]) by {
            assert(forall|q: int| 0 <= q < er.len() ==> ((e0 + seq![',']) + er)[e0.len() + 1
                + q] == er[q]);
        }
        assert(s.subrange(m + 1, m + 1 + er.len()) =~= er) by {
            assert forall|q: int| 0 <= q < er.len() implies s.subrange(
                m + 1,
                m + 1 + er.len(),
            )[q] == er[q] by {
                assert(s[m + 1 + q] == inner[e0.len() + 1 + q]);
            }
        }
        assert(s[m + 1 + er.len()] == ']') by {
            assert(inner.len() == e0.len() + 1 + er.len());
        }
        assert(forall|q: int| 0 <= q < rest.len() ==> wf_json(#[trigger] rest[q])) by {
            assert(forall|q: int| 0 <= q < rest.len() ==> rest[q] == items[q + 1]);
        }
        lemma_sp_items_of_enc(s, m + 1, rest);
        assert(seq![v0] + rest =~= items);
    }
}

proof fn lemma_sp_fields_of_enc(s: Seq<char>, i: int, fields: Seq<(Seq<char>, JsonView)>)
    requires
        fields.len() >= 1,
        forall|k: int| 0 <= k < fields.len() ==> wf_json(#[trigger] fields[k].1),
        0 <= i,
        i + enc_fields(fields).len() + 1 <= s.len(),
        s.subrange(i, i + enc_fields(fields).len()) == enc_fields(fields),
        s[i + enc_fields(fields).len()] == '}',
    ensures
        sp_fields(s, i) == Some::<(Seq<(Seq<char>, JsonView)>, int)>((
            fields,
            i + enc_fields(fields).len() + 1,
        )),
    decreases fields, 2int,
{
    let inner = enc_fields(fields);
    assert(forall|k: int| 0 <= k < inner.len() ==> s[i + k] == inner[k]) by {
        assert(forall|k: int| 0 <= k < inner.len() ==> s.subrange(i, i + inner.len())[k]
            == inner[k]);
    }
    let key = fields[0].0;
    let v0 = fields[0].1;
    let ek = esc_str(key);
    let e0 = enc_json(v0);
    let head = seq!['"'] + ek + seq!['"', ':'] + e0;
    assert(head.len() == ek.len() + 3 + e0.len());
    lemma_enc_json_first(v0);
    assert(!is_ws_char('"') && !is_ws_char(':') && !is_ws_char(',') && !is_ws_char('}')) by {
        assert((('"') as u32) == 34 && ((':') as u32) == 58 && ((',') as u32) == 44 && (('}')
            as u32) == 125 && ((' ') as u32) == 32 && (('\t') as u32) == 9 && (('\r') as u32)
            == 13 && (('\n') as u32) == 10);
    }
    // The head's characters stand at i.
    assert(forall|k: int| 0 <= k < head.len() ==> inner[k] == head[k]) by {
        if fields.len() == 1 {
        } else {
            assert(inner == (head + seq![',']) + enc_fields(fields.drop_first()));
            assert(forall|k: int| 0 <= k < head.len() ==> ((head + seq![',']) + enc_fields(
                fields.drop_first(),
            ))[k] == (head + seq![','])[k]);
        }
    }
    let sep: char = if fields.len() == 1 { '}' } else { ',' };
    assert(s[i + head.len()] == sep) by {
        if fields.len() == 1 {
            assert(inner.len() == head.len());
        } else {
            assert(inner[head.len() as int] == ((head + seq![',']) + enc_fields(
                fields.drop_first(),
            ))[head.len() as int]);
            assert(inner[head.len() as int] == (head + seq![','])[head.len() as int]);
        }
    }
    // Key.
    assert(s[i] == head[0]);
    assert(head[0] == '"') by {
        assert(head[0] == ((seq!['"'] + ek + seq!['"', ':']) + e0)[0]);
    }
    lemma_skip_ws_at(s, i);
    assert(s.subrange(i + 1, i + 1 + ek.len()) =~= ek) by {
        assert forall|k: int| 0 <= k < ek.len() implies s.subrange(i + 1, i + 1 + ek.len())[k]
            == ek[k] by {
            assert(s[i + 1 + k] == head[1 + k]);
            assert(head[1 + k] == ((seq!['"'] + ek + seq!['"', ':']) + e0)[1 + k]);
            assert(((seq!['"'] + ek) + seq!['"', ':'])[1 + k] == (seq!['"'] + ek)[1 + k]);
        }
    }
    assert(s[i + 1 + ek.len()] == '"') by {
        assert(s[i + 1 + ek.len()] == head[(1 + ek.len()) as int]);
        assert(head[(1 + ek.len()) as int] == ((seq!['"'] + ek + seq!['"', ':']) + e0)[(1 + ek.len()) as int]);
        assert(((seq!['"'] + ek) + seq!['"', ':'])[(1 + ek.len()) as int] == seq!['"', ':'][0]);
    }
    lemma_sp_string_of_esc(s, i + 1, key);
    let k1 = i + 1 + ek.len() + 1;
    // Colon.
    assert(s[k1] == ':') by {
        assert(s[k1] == head[(2 + ek.len()) as int]);
        assert(head[(2 + ek.len()) as int] == ((seq!['"'] + ek + seq!['"', ':']) + e0)[(2 + ek.len()) as int]);
        assert(((seq!['"'] + ek) + seq!['"', ':'])[(2 + ek.len()) as int] == seq!['"', ':'][1]);
    }
    lemma_skip_ws_at(s, k1);
    // Value.
    let vstart = k1 + 1;
    assert(s.subrange(vstart, vstart + e0.len()) =~= e0) by {
        assert forall|k: int| 0 <= k < e0.len() implies s.subrange(
            vstart,
            vstart + e0.len(),
        )[k] == e0[k] by {
            assert(s[vstart + k] == head[3 + ek.len() + k]);
            assert(head[3 + ek.len() + k] == ((seq!['"'] + ek + seq!['"', ':']) + e0)[3
                + ek.len() + k]);
        }
    }
    assert(s[vstart + e0.len()] == sep);
    assert(!is_digit_char(sep)) by {
        if is_digit_char(sep) {
            assert((sep as u32) == 44 || (sep as u32) == 125);
        }
    }
    lemma_sp_value_of_enc(s, vstart, v0);
    let k2 = vstart + e0.len();
    lemma_skip_ws_at(s, k2);
    if fields.len() == 1 {
        assert(s[k2] == '}');
        assert(seq![(key, v0)] =~= fields);
    } else {
        assert(s[k2] == ',');
        let rest = fields.drop_first();
        let er = enc_fields(rest);
        assert(forall|q: int| 0 <= q < er.len() ==> inner[head.len() + 1 + q] == er[q]) by {
            assert(forall|q: int| 0 <= q < er.len() ==> ((head + seq![',']) + er)[head.len()
                + 1 + q] == er[q]);
        }
        assert(s.subrange(k2 + 1, k2 + 1 + er.len()) =~= er) by {
            assert forall|q: int| 0 <= q < er.len() implies s.subrange(
                k2 + 1,
                k2 + 1 + er.len(),
            )[q] == er[q] by {
                assert(s[k2 + 1 + q] == inner[head.len() + 1 + q]);
            }
        }
        assert(s[k2 + 1 + er.len()] == '}') by {
            assert(inner.len() == head.len() + 1 + er.len());
        }
        assert(forall|q: int| 0 <= q < rest.len() ==> wf_json(#[trigger] rest[q].1)) by {
            assert(forall|q: int| 0 <= q < rest.len() ==> rest[q] == fields[q + 1]);
        }
        lemma_sp_fields_of_enc(s, k2 + 1, rest);
        assert(seq![(key, v0)] + rest =~= fields);
    }
}

/// The codec law: decoding inverts encoding.  Every well-formed document,
/// rendered as its canonical text, parses back to exactly itself.
pub proof fn lemma_codec_round_trip(v: JsonView)
    requires
        wf_json(v),
    ensures
        parse_json(enc_json(v)) == Some(v),
{
    let s = enc_json(v);
    assert(s.subrange(0, s.len() as int) =~= s);
    lemma_sp_value_of_enc(s, 0, v);
    lemma_skip_ws_at(s, s.len() as int);
}

} // verus!
