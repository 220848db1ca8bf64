//! The JSON document model and the wire codec.
//!
//! The bridge frames one JSON object per line.  `Json` is the executable
//! document type; `JsonView` is its mathematical model.  `enc_json` is the
//! canonical text of a document: no whitespace between tokens, strings with
//! the mandatory escapes only, numbers in decimal.  The executable encoder
//! produces exactly that text, and the encoder is proved to emit no newline,
//! so one encoded document is always one line.

use vstd::prelude::*;

verus! {

/// Mathematical model of a JSON document.
///
/// Numbers are modelled as unbounded integers; the executable type restricts
/// them to the signed 64-bit range, and the codec rejects fractions and
/// exponents, which the bridge's traffic never carries.
#[verifier::ext_equal]
pub enum JsonView {
    Null,
    Bool(bool),
    Int(int),
    Str(Seq<char>),
    Arr(Seq<JsonView>),
    Obj(Seq<(Seq<char>, JsonView)>),
}

/// A JSON document as exchanged on the wire.
///
/// Object members keep their textual order; duplicate keys are kept as read,
/// and lookups take the first occurrence.
#[derive(Debug)]
pub enum Json {
    Null,
    Bool(bool),
    Int(i64),
    Str(String),
    Arr(Vec<Json>),
    Obj(Vec<(String, Json)>),
}

impl View for Json {
    type V = JsonView;

    open spec fn view(&self) -> JsonView
        decreases self, 1int,
    {
        match self {
            Json::Null => JsonView::Null,
            Json::Bool(b) => JsonView::Bool(*b),
            Json::Int(i) => JsonView::Int(*i as int),
            Json::Str(s) => JsonView::Str(s@),
            Json::Arr(a) => JsonView::Arr(views_of(a@)),
            Json::Obj(o) => JsonView::Obj(views_of_fields(o@)),
        }
    }
}

/// The views of the documents in `s`, element by element.
pub open spec fn views_of(s: Seq<Json>) -> Seq<JsonView>
    decreases s, 0int,
{
    Seq::new(s.len(), |i: int| if 0 <= i < s.len() { s[i]@ } else { JsonView::Null })
}

/// The views of the members in `s`, pair by pair.
pub open spec fn views_of_fields(s: Seq<(String, Json)>) -> Seq<(Seq<char>, JsonView)>
    decreases s, 0int,
{
    Seq::new(
        s.len(),
        |i: int| if 0 <= i < s.len() {
            (s[i].0@, s[i].1@)
        } else {
            (Seq::<char>::empty(), JsonView::Null)
        },
    )
}

/// The decimal digit character for `d` (0 through 9).
pub open spec fn digit_char(d: int) -> char {
    if d == 0 { '0' }
    else if d == 1 { '1' }
    else if d == 2 { '2' }
    else if d == 3 { '3' }
    else if d == 4 { '4' }
    else if d == 5 { '5' }
    else if d == 6 { '6' }
    else if d == 7 { '7' }
    else if d == 8 { '8' }
    else { '9' }
}

/// The lower-case hexadecimal digit character for `d` (0 through 15).
pub open spec fn hex_char(d: int) -> char {
    if d < 10 { digit_char(d) }
    else if d == 10 { 'a' }
    else if d == 11 { 'b' }
    else if d == 12 { 'c' }
    else if d == 13 { 'd' }
    else if d == 14 { 'e' }
    else { 'f' }
}

/// The decimal digits of `n`, most significant first, no sign, no padding.
pub open spec fn dec_digits(n: nat) -> Seq<char>
    decreases n,
{
    if n < 10 {
        seq![digit_char(n as int)]
    } else {
        dec_digits(n / 10) + seq![digit_char((n % 10) as int)]
    }
}

/// The lower-case hexadecimal digits of `n`, most significant first.
pub open spec fn hex_digits(n: nat) -> Seq<char>
    decreases n,
{
    if n < 16 {
        seq![hex_char(n as int)]
    } else {
        hex_digits(n / 16) + seq![hex_char((n % 16) as int)]
    }
}

/// The canonical text of the JSON number `i`.
pub open spec fn enc_int(i: int) -> Seq<char> {
    if i < 0 {
        seq!['-'] + dec_digits((-i) as nat)
    } else {
        dec_digits(i as nat)
    }
}

/// How one character appears inside an encoded JSON string: the double
/// quote, the backslash and the control characters are escaped, every other
/// character stands for itself.
pub open spec fn esc_char(c: char) -> Seq<char> {
    if c == '"' { seq!['\\', '"'] }
    else if c == '\\' { seq!['\\', '\\'] }
    else if c == '\n' { seq!['\\', 'n'] }
    else if c == '\r' { seq!['\\', 'r'] }
    else if c == '\t' { seq!['\\', 't'] }
    else if c == '\u{8}' { seq!['\\', 'b'] }
    else if c == '\u{c}' { seq!['\\', 'f'] }
    else if (c as u32) < 0x20 {
        seq!['\\', 'u', '0', '0', hex_char((c as u32) as int / 16), hex_char((c as u32) as int % 16)]
    } else {
        seq![c]
    }
}

/// The body of an encoded JSON string: each character escaped in turn.
pub open spec fn esc_str(s: Seq<char>) -> Seq<char>
    decreases s.len(),
{
    if s.len() == 0 {
        Seq::empty()
    } else {
        esc_char(s[0]) + esc_str(s.drop_first())
    }
}

/// The canonical text of a JSON document: no whitespace between tokens.
pub open spec fn enc_json(v: JsonView) -> Seq<char>
    decreases v, 1int,
{
    match v {
        JsonView::Null => seq!['n', 'u', 'l', 'l'],
        JsonView::Bool(b) => if b {
            seq!['t', 'r', 'u', 'e']
        } else {
            seq!['f', 'a', 'l', 's', 'e']
        },
        JsonView::Int(i) => enc_int(i),
        JsonView::Str(s) => seq!['"'] + esc_str(s) + seq!['"'],
        JsonView::Arr(items) => seq!['['] + enc_items(items) + seq![']'],
        JsonView::Obj(fields) => seq!['{'] + enc_fields(fields) + seq!['}'],
    }
}

/// The comma-separated texts of the elements of a JSON array.
pub open spec fn enc_items(items: Seq<JsonView>) -> Seq<char>
    decreases items, 2int,
{
    if items.len() == 0 {
        Seq::empty()
    } else if items.len() == 1 {
        enc_json(items[0])
    } else {
        enc_json(items[0]) + seq![','] + enc_items(items.drop_first())
    }
}

/// The comma-separated `"key":value` texts of the members of a JSON object.
pub open spec fn enc_fields(fields: Seq<(Seq<char>, JsonView)>) -> Seq<char>
    decreases fields, 2int,
{
    if fields.len() == 0 {
        Seq::empty()
    } else {
        let head = seq!['"'] + esc_str(fields[0].0) + seq!['"', ':'] + enc_json(fields[0].1);
        if fields.len() == 1 {
            head
        } else {
            head + seq![','] + enc_fields(fields.drop_first())
        }
    }
}

/// What remains to be written after the first `k` array elements.
spec fn enc_items_from(items: Seq<JsonView>, k: int) -> Seq<char> {
    if 0 <= k < items.len() {
        (if k > 0 { seq![','] } else { Seq::empty() }) + enc_items(items.skip(k))
    } else {
        Seq::empty()
    }
}

/// What remains to be written after the first `k` object members.
spec fn enc_fields_from(fields: Seq<(Seq<char>, JsonView)>, k: int) -> Seq<char> {
    if 0 <= k < fields.len() {
        (if k > 0 { seq![','] } else { Seq::empty() }) + enc_fields(fields.skip(k))
    } else {
        Seq::empty()
    }
}

proof fn lemma_enc_items_step(items: Seq<JsonView>, k: int)
    requires
        0 <= k < items.len(),
    ensures
        enc_items(items.skip(k)) == enc_json(items[k]) + (if k + 1 < items.len() {
            seq![','] + enc_items(items.skip(k + 1))
        } else {
            Seq::<char>::empty()
        }),
{
    let t = items.skip(k);
    assert(t[0] == items[k]);
    if t.len() > 1 {
        assert(t.drop_first() =~= items.skip(k + 1));
    }
    if k + 1 >= items.len() {
        assert(enc_items(t) == enc_json(items[k]) + Seq::<char>::empty());
    }
}

proof fn lemma_enc_fields_step(fields: Seq<(Seq<char>, JsonView)>, k: int)
    requires
        0 <= k < fields.len(),
    ensures
        enc_fields(fields.skip(k)) == seq!['"'] + esc_str(fields[k].0) + seq!['"', ':']
            + enc_json(fields[k].1) + (if k + 1 < fields.len() {
            seq![','] + enc_fields(fields.skip(k + 1))
        } else {
            Seq::<char>::empty()
        }),
{
    let t = fields.skip(k);
    assert(t[0] == fields[k]);
    if t.len() > 1 {
        assert(t.drop_first() =~= fields.skip(k + 1));
    }
    if k + 1 >= fields.len() {
        let head = seq!['"'] + esc_str(fields[k].0) + seq!['"', ':'] + enc_json(fields[k].1);
        assert(enc_fields(t) == head + Seq::<char>::empty());
    }
}

/// The decimal digit character for `d`.
fn digit_char_of(d: u8) -> (c: char)
    requires
        d < 10,
    ensures
        c == digit_char(d as int),
{
    match d {
        0 => '0',
        1 => '1',
        2 => '2',
        3 => '3',
        4 => '4',
        5 => '5',
        6 => '6',
        7 => '7',
        8 => '8',
        _ => '9',
    }
}

/// The lower-case hexadecimal digit character for `d`.
fn hex_char_of(d: u8) -> (c: char)
    requires
        d < 16,
    ensures
        c == hex_char(d as int),
{
    if d < 10 {
        digit_char_of(d)
    } else {
        match d {
            10 => 'a',
            11 => 'b',
            12 => 'c',
            13 => 'd',
            14 => 'e',
            _ => 'f',
        }
    }
}

/// Writes the decimal digits of `n`.
fn write_u64_dec(n: u64, out: &mut Vec<char>)
    ensures
        final(out)@ == old(out)@ + dec_digits(n as nat),
    decreases n,
{
    if n >= 10 {
        write_u64_dec(n / 10, out);
    }
    out.push(digit_char_of((n % 10) as u8));
    proof {
        if n < 10 {
            assert(final(out)@ =~= old(out)@ + dec_digits(n as nat));
        } else {
            assert(final(out)@ =~= old(out)@ + (dec_digits((n / 10) as nat) + seq![
                digit_char((n % 10) as int),
            ]));
        }
    }
}

/// Writes the lower-case hexadecimal digits of `n`.
fn write_u64_hex(n: u64, out: &mut Vec<char>)
    ensures
        final(out)@ == old(out)@ + hex_digits(n as nat),
    decreases n,
{
    if n >= 16 {
        write_u64_hex(n / 16, out);
    }
    out.push(hex_char_of((n % 16) as u8));
    proof {
        if n < 16 {
            assert(final(out)@ =~= old(out)@ + hex_digits(n as nat));
        } else {
            assert(final(out)@ =~= old(out)@ + (hex_digits((n / 16) as nat) + seq![
                hex_char((n % 16) as int),
            ]));
        }
    }
}

/// Writes the canonical text of the JSON number `i`.
fn write_i64_dec(i: i64, out: &mut Vec<char>)
    ensures
        final(out)@ == old(out)@ + enc_int(i as int),
{
    if i < 0 {
        out.push('-');
        let mag: u64 = ((-(i + 1)) as u64) + 1;
        write_u64_dec(mag, out);
        proof {
            assert(mag as nat == (-(i as int)) as nat);
            assert(final(out)@ =~= old(out)@ + (seq!['-'] + dec_digits((-(i as int)) as nat)));
        }
    } else {
        write_u64_dec(i as u64, out);
    }
}

/// Writes one character as it appears inside an encoded JSON string.
fn write_escaped_char(c: char, out: &mut Vec<char>)
    ensures
        final(out)@ == old(out)@ + esc_char(c),
{
    if c == '"' {
        out.push('\\');
        out.push('"');
    } else if c == '\\' {
        out.push('\\');
        out.push('\\');
    } else if c == '\n' {
        out.push('\\');
        out.push('n');
    } else if c == '\r' {
        out.push('\\');
        out.push('r');
    } else if c == '\t' {
        out.push('\\');
        out.push('t');
    } else if c == '\u{8}' {
        out.push('\\');
        out.push('b');
    } else if c == '\u{c}' {
        out.push('\\');
        out.push('f');
    } else if (c as u32) < 0x20 {
        let u = c as u32;
        out.push('\\');
        out.push('u');
        out.push('0');
        out.push('0');
        out.push(hex_char_of((u / 16) as u8));
        out.push(hex_char_of((u % 16) as u8));
    } else {
        out.push(c);
    }
    proof {
        assert(final(out)@ =~= old(out)@ + esc_char(c));
    }
}

/// Writes the body of an encoded JSON string: `s` with its escapes.
fn write_escaped_str(s: &str, out: &mut Vec<char>)
    ensures
        final(out)@ == old(out)@ + esc_str(s@),
{
    let n = s.unicode_len();
    let mut i: usize = 0;
    proof {
        assert(s@.skip(0) =~= s@);
    }
    while i < n
        invariant
            n == s@.len(),
            i <= n,
            out@ + (if i < n { esc_str(s@.skip(i as int)) } else { Seq::empty() }) == old(out)@
                + esc_str(s@),
        decreases n - i,
    {
        let c = s.get_char(i);
        proof {
            let t = s@.skip(i as int);
            assert(t[0] == s@[i as int]);
            if t.len() > 1 {
                assert(t.drop_first() =~= s@.skip(i as int + 1));
            } else {
                assert(t.drop_first().len() == 0);
                assert(esc_str(t.drop_first()) =~= Seq::<char>::empty());
                assert(esc_str(t) =~= esc_char(s@[i as int]));
            }
        }
        write_escaped_char(c, out);
        i = i + 1;
    }
    proof {
        assert(final(out)@ =~= old(out)@ + esc_str(s@));
    }
}

impl Json {
    /// Writes the canonical text of this document onto `out`.
    pub fn encode_into(&self, out: &mut Vec<char>)
        ensures
            final(out)@ == old(out)@ + enc_json(self@),
        decreases *self, 1int,
    {
        match self {
            Json::Null => {
                out.push('n');
                out.push('u');
                out.push('l');
                out.push('l');
                proof {
                    assert(final(out)@ =~= old(out)@ + enc_json(self@));
                }
            },
            Json::Bool(b) => {
                if *b {
                    out.push('t');
                    out.push('r');
                    out.push('u');
                    out.push('e');
                } else {
                    out.push('f');
                    out.push('a');
                    out.push('l');
                    out.push('s');
                    out.push('e');
                }
                proof {
                    assert(final(out)@ =~= old(out)@ + enc_json(self@));
                }
            },
            Json::Int(i) => {
                write_i64_dec(*i, out);
            },
            Json::Str(s) => {
                out.push('"');
                write_escaped_str(s.as_str(), out);
                out.push('"');
                proof {
                    assert(final(out)@ =~= old(out)@ + enc_json(self@));
                }
            },
            Json::Arr(a) => {
                out.push('[');
                write_items(a, out);
                out.push(']');
                proof {
                    assert(final(out)@ =~= old(out)@ + enc_json(self@));
                }
            },
            Json::Obj(o) => {
                out.push('{');
                write_fields(o, out);
                out.push('}');
                proof {
                    assert(final(out)@ =~= old(out)@ + enc_json(self@));
                }
            },
        }
    }
}

/// Writes the comma-separated texts of the elements of `a`.
#[verifier::loop_isolation(false)]
fn write_items(a: &Vec<Json>, out: &mut Vec<char>)
    ensures
        final(out)@ == old(out)@ + enc_items(views_of(a@)),
    decreases *a, 0int,
{
    let ghost items = views_of(a@);
    let ghost base = out@;
    let mut k: usize = 0;
    proof {
        if a@.len() > 0 {
            assert(items.skip(0) =~= items);
        } else {
            assert(base + enc_items_from(items, 0) =~= base + enc_items(items));
        }
    }
    while k < a.len()
        invariant
            k <= a.len(),
            out@ + enc_items_from(items, k as int) == base + enc_items(items),
        decreases a.len() - k,
    {
        proof {
            lemma_enc_items_step(items, k as int);
        }
        if k > 0 {
            out.push(',');
        }
        let e = &a[k];
        proof {
            assert(decreases_to!(*a => a@[k as int]));
            assert(items[k as int] == a@[k as int]@);
        }
        e.encode_into(out);
        k = k + 1;
        proof {
            assert(out@ + enc_items_from(items, k as int) =~= base + enc_items(items));
        }
    }
    proof {
        assert(final(out)@ =~= old(out)@ + enc_items(views_of(a@)));
    }
}

/// Writes the comma-separated `"key":value` texts of the members of `o`.
#[verifier::loop_isolation(false)]
#[verifier::rlimit(30)]
fn write_fields(o: &Vec<(String, Json)>, out: &mut Vec<char>)
    ensures
        final(out)@ == old(out)@ + enc_fields(views_of_fields(o@)),
    decreases *o, 0int,
{
    let ghost fields = views_of_fields(o@);
    let ghost base = out@;
    let mut k: usize = 0;
    proof {
        if o@.len() > 0 {
            assert(fields.skip(0) =~= fields);
        } else {
            assert(base + enc_fields_from(fields, 0) =~= base + enc_fields(fields));
        }
    }
    while k < o.len()
        invariant
            k <= o.len(),
            out@ + enc_fields_from(fields, k as int) == base + enc_fields(fields),
        decreases o.len() - k,
    {
        proof {
            lemma_enc_fields_step(fields, k as int);
        }
        if k > 0 {
            out.push(',');
        }
        let e = &o[k];
        out.push('"');
        write_escaped_str(e.0.as_str(), out);
        out.push('"');
        out.push(':');
        proof {
            assert(decreases_to!(*o => o@[k as int].1));
            assert(fields[k as int] == (o@[k as int].0@, o@[k as int].1@));
        }
        e.1.encode_into(out);
        k = k + 1;
        proof {
            assert(out@ + enc_fields_from(fields, k as int) =~= base + enc_fields(fields));
        }
    }
    proof {
        assert(final(out)@ =~= old(out)@ + enc_fields(views_of_fields(o@)));
    }
}

/// Relies on std's `FromIterator` impl for `String`: collecting characters
/// yields the string of exactly those characters, in order.
#[verifier::external_body]
pub(crate) fn chars_to_string(v: &Vec<char>) -> (s: String)
    ensures
        s@ == v@,
{
    v.iter().collect()
}

/// The characters of `s`, as a vector.
pub fn str_to_chars(s: &str) -> (v: Vec<char>)
    ensures
        v@ == s@,
{
    let n = s.unicode_len();
    let mut v: Vec<char> = Vec::new();
    let mut i: usize = 0;
    while i < n
        invariant
            n == s@.len(),
            i <= n,
            v@ =~= s@.take(i as int),
        decreases n - i,
    {
        v.push(s.get_char(i));
        proof {
            assert(v@ =~= s@.take(i as int + 1));
        }
        i = i + 1;
    }
    proof {
        assert(s@.take(n as int) =~= s@);
    }
    v
}

/// The canonical one-line text of `v`.
pub fn encode_json(v: &Json) -> (out: String)
    ensures
        out@ == enc_json(v@),
{
    let mut buf: Vec<char> = Vec::new();
    v.encode_into(&mut buf);
    chars_to_string(&buf)
}


/// No character of `s` is a line break, so writing `s` followed by a
/// newline frames exactly one line.
pub open spec fn line_safe(s: Seq<char>) -> bool {
    forall|i: int| 0 <= i < s.len() ==> s[i] != '\n'
}

proof fn lemma_line_safe_concat(a: Seq<char>, b: Seq<char>)
    requires
        line_safe(a),
        line_safe(b),
    ensures
        line_safe(a + b),
{
    assert forall|i: int| 0 <= i < (a + b).len() implies (a + b)[i] != '\n' by {
        if i < a.len() {
            assert((a + b)[i] == a[i]);
        } else {
            assert((a + b)[i] == b[i - a.len()]);
        }
    }
}

proof fn lemma_dec_digits_line_safe(n: nat)
    ensures
        line_safe(dec_digits(n)),
    decreases n,
{
    if n >= 10 {
        lemma_dec_digits_line_safe(n / 10);
        lemma_line_safe_concat(dec_digits(n / 10), seq![digit_char((n % 10) as int)]);
    }
}

proof fn lemma_esc_char_line_safe(c: char)
    ensures
        line_safe(esc_char(c)),
{
}

proof fn lemma_esc_str_line_safe(s: Seq<char>)
    ensures
        line_safe(esc_str(s)),
    decreases s.len(),
{
    if s.len() > 0 {
        lemma_esc_char_line_safe(s[0]);
        lemma_esc_str_line_safe(s.drop_first());
        lemma_line_safe_concat(esc_char(s[0]), esc_str(s.drop_first()));
    }
}

proof fn lemma_enc_int_line_safe(i: int)
    ensures
        line_safe(enc_int(i)),
{
    if i < 0 {
        lemma_dec_digits_line_safe((-i) as nat);
        lemma_line_safe_concat(seq!['-'], dec_digits((-i) as nat));
    } else {
        lemma_dec_digits_line_safe(i as nat);
    }
}

/// The law of the wire framing: the canonical text of a document holds no
/// line break, so one encoded document is always exactly one line, whatever
/// the document holds.
pub proof fn lemma_enc_json_single_line(v: JsonView)
    ensures
        line_safe(enc_json(v)),
    decreases v, 1int,
{
    match v {
        JsonView::Null => {},
        JsonView::Bool(b) => {},
        JsonView::Int(i) => {
            lemma_enc_int_line_safe(i);
        },
        JsonView::Str(s) => {
            lemma_esc_str_line_safe(s);
            lemma_line_safe_concat(seq!['"'], esc_str(s));
            lemma_line_safe_concat(seq!['"'] + esc_str(s), seq!['"']);
        },
        JsonView::Arr(items) => {
            lemma_enc_items_single_line(items);
            lemma_line_safe_concat(seq!['['], enc_items(items));
            lemma_line_safe_concat(seq!['['] + enc_items(items), seq![']']);
        },
        JsonView::Obj(fields) => {
            lemma_enc_fields_single_line(fields);
            lemma_line_safe_concat(seq!['{'], enc_fields(fields));
            lemma_line_safe_concat(seq!['{'] + enc_fields(fields), seq!['}']);
        },
    }
}

proof fn lemma_enc_items_single_line(items: Seq<JsonView>)
    ensures
        line_safe(enc_items(items)),
    decreases items, 2int,
{
    if items.len() == 1 {
        lemma_enc_json_single_line(items[0]);
    } else if items.len() > 1 {
        lemma_enc_json_single_line(items[0]);
        lemma_enc_items_single_line(items.drop_first());
        lemma_line_safe_concat(enc_json(items[0]), seq![',']);
        lemma_line_safe_concat(enc_json(items[0]) + seq![','], enc_items(items.drop_first()));
    }
}

proof fn lemma_enc_fields_single_line(fields: Seq<(Seq<char>, JsonView)>)
    ensures
        line_safe(enc_fields(fields)),
    decreases fields, 2int,
{
    if fields.len() > 0 {
        let head = seq!['"'] + esc_str(fields[0].0) + seq!['"', ':'] + enc_json(fields[0].1);
        lemma_esc_str_line_safe(fields[0].0);
        lemma_enc_json_single_line(fields[0].1);
        lemma_line_safe_concat(seq!['"'], esc_str(fields[0].0));
        lemma_line_safe_concat(seq!['"'] + esc_str(fields[0].0), seq!['"', ':']);
        lemma_line_safe_concat(seq!['"'] + esc_str(fields[0].0) + seq!['"', ':'], enc_json(fields[0].1));
        if fields.len() > 1 {
            lemma_enc_fields_single_line(fields.drop_first());
            lemma_line_safe_concat(head, seq![',']);
            lemma_line_safe_concat(head + seq![','], enc_fields(fields.drop_first()));
        }
    }
}


impl Json {
    /// A deep copy whose model provably equals this document's.
    pub fn duplicate(&self) -> (r: Json)
        ensures
            r@ == self@,
        decreases *self, 1int,
    {
        match self {
            Json::Null => Json::Null,
            Json::Bool(b) => Json::Bool(*b),
            Json::Int(i) => Json::Int(*i),
            Json::Str(s) => Json::Str(s.clone()),
            Json::Arr(a) => {
                let r = Json::Arr(dup_items(a));
                proof {
                    assert(r@ =~= self@);
                }
                r
            },
            Json::Obj(o) => {
                let r = Json::Obj(dup_fields(o));
                proof {
                    assert(r@ =~= self@);
                }
                r
            },
        }
    }
}

/// Deep copies of the documents in `a`.
#[verifier::loop_isolation(false)]
fn dup_items(a: &Vec<Json>) -> (r: Vec<Json>)
    ensures
        views_of(r@) == views_of(a@),
    decreases *a, 0int,
{
    let mut out: Vec<Json> = Vec::new();
    let mut k: usize = 0;
    while k < a.len()
        invariant
            k <= a.len(),
            views_of(out@) =~= views_of(a@).take(k as int),
        decreases a.len() - k,
    {
        let e = &a[k];
        proof {
            assert(decreases_to!(*a => a@[k as int]));
        }
        out.push(e.duplicate());
        proof {
            assert(views_of(out@) =~= views_of(a@).take(k as int + 1));
        }
        k = k + 1;
    }
    proof {
        assert(views_of(a@).take(a@.len() as int) =~= views_of(a@));
    }
    out
}

/// Deep copies of the members in `o`.
#[verifier::loop_isolation(false)]
fn dup_fields(o: &Vec<(String, Json)>) -> (r: Vec<(String, Json)>)
    ensures
        views_of_fields(r@) == views_of_fields(o@),
    decreases *o, 0int,
{
    let mut out: Vec<(String, Json)> = Vec::new();
    let mut k: usize = 0;
    while k < o.len()
        invariant
            k <= o.len(),
            views_of_fields(out@) =~= views_of_fields(o@).take(k as int),
        decreases o.len() - k,
    {
        let e = &o[k];
        proof {
            assert(decreases_to!(*o => o@[k as int].1));
        }
        out.push((e.0.clone(), e.1.duplicate()));
        proof {
            assert(views_of_fields(out@) =~= views_of_fields(o@).take(k as int + 1));
        }
        k = k + 1;
    }
    proof {
        assert(views_of_fields(o@).take(o@.len() as int) =~= views_of_fields(o@));
    }
    out
}


/// The value under `key` among `fs`, first occurrence.
pub open spec fn lookup_fields(fs: Seq<(Seq<char>, JsonView)>, key: Seq<char>) -> Option<
    JsonView,
>
    decreases fs.len(),
{
    if fs.len() == 0 {
        None
    } else if fs[0].0 == key {
        Some(fs[0].1)
    } else {
        lookup_fields(fs.drop_first(), key)
    }
}

/// The value under `key` of the object `v`; nothing when `v` is not an
/// object or has no such member.
pub open spec fn obj_lookup(v: JsonView, key: Seq<char>) -> Option<JsonView> {
    match v {
        JsonView::Obj(fs) => lookup_fields(fs, key),
        _ => None,
    }
}

impl Json {
    /// The member of this object named `key`, first occurrence.
    #[verifier::loop_isolation(false)]
    pub fn get<'a>(&'a self, key: &str) -> (r: Option<&'a Json>)
        ensures
            match r {
                Some(m) => obj_lookup(self@, key@) == Some(m@),
                None => obj_lookup(self@, key@) is None,
            },
    {
        match self {
            Json::Obj(o) => {
                let ghost fields = views_of_fields(o@);
                let mut k: usize = 0;
                proof {
                    assert(fields.skip(0) =~= fields);
                }
                while k < o.len()
                    invariant
                        k <= o.len(),
                        fields == views_of_fields(o@),
                        fields.len() == o@.len(),
                        lookup_fields(fields, key@) == lookup_fields(
                            fields.skip(k as int),
                            key@,
                        ),
                    decreases o.len() - k,
                {
                    let e = &o[k];
                    proof {
                        let t = fields.skip(k as int);
                        assert(t[0] == fields[k as int]);
                        assert(t.drop_first() =~= fields.skip(k as int + 1));
                    }
                    if str_eq(e.0.as_str(), key) {
                        proof {
                            let t = fields.skip(k as int);
                            assert(t.len() > 0);
                            assert(t[0] == fields[k as int]);
                            assert(t[0].0 == key@);
                            assert(lookup_fields(t, key@) == Some(t[0].1));
                            assert(self@ == JsonView::Obj(fields));
                            assert(obj_lookup(self@, key@) == lookup_fields(fields, key@));
                            assert(fields[k as int].1 == o@[k as int].1@);
                        }
                        return Some(&e.1);
                    }
                    k = k + 1;
                }
                proof {
                    assert(fields.skip(o@.len() as int).len() == 0);
                }
                None
            },
            _ => None,
        }
    }

    /// The characters of this document when it is a string.
    pub fn as_str_val<'a>(&'a self) -> (r: Option<&'a String>)
        ensures
            match r {
                Some(t) => self@ == JsonView::Str(t@),
                None => !(self@ is Str),
            },
    {
        match self {
            Json::Str(s) => Some(s),
            _ => None,
        }
    }

    /// The value of this document when it is a truth value.
    pub fn as_bool_val(&self) -> (r: Option<bool>)
        ensures
            match r {
                Some(b) => self@ == JsonView::Bool(b),
                None => !(self@ is Bool),
            },
    {
        match self {
            Json::Bool(b) => Some(*b),
            _ => None,
        }
    }

    /// The value of this document when it is a number at or above zero.
    pub fn as_u64_val(&self) -> (r: Option<u64>)
        ensures
            match r {
                Some(n) => self@ == JsonView::Int(n as int),
                None => !(self@ matches JsonView::Int(i) && i >= 0),
            },
    {
        match self {
            Json::Int(i) => if *i >= 0 {
                Some(*i as u64)
            } else {
                None
            },
            _ => None,
        }
    }

    /// Whether this document is the null document.
    pub fn is_null(&self) -> (r: bool)
        ensures
            r == (self@ is Null),
    {
        match self {
            Json::Null => true,
            _ => false,
        }
    }
}

/// Whether the characters of `a` and `b` are the same.
pub fn str_eq(a: &str, b: &str) -> (r: bool)
    ensures
        r == (a@ == b@),
{
    let n = a.unicode_len();
    let m = b.unicode_len();
    if n != m {
        proof {
            assert(a@ != b@);
        }
        return false;
    }
    let mut i: usize = 0;
    while i < n
        invariant
            n == a@.len(),
            n == b@.len(),
            i <= n,
            forall|j: int| 0 <= j < i ==> a@[j] == b@[j],
        decreases n - i,
    {
        if a.get_char(i) != b.get_char(i) {
            proof {
                assert(a@[i as int] != b@[i as int]);
            }
            return false;
        }
        i = i + 1;
    }
    proof {
        assert(a@ =~= b@);
    }
    true
}


/// The text of `s` as a JSON string token: quoted and escaped.
pub open spec fn quoted(s: Seq<char>) -> Seq<char> {
    seq!['"'] + esc_str(s) + seq!['"']
}

/// Encodes `s` as a JSON string token.
pub fn encode_json_string(s: &str) -> (r: String)
    ensures
        r@ == quoted(s@),
{
    let mut buf: Vec<char> = Vec::new();
    buf.push('"');
    write_escaped_str(s, &mut buf);
    buf.push('"');
    proof {
        assert(buf@ =~= quoted(s@));
    }
    chars_to_string(&buf)
}

/// The decimal text of `n`.
pub fn dec_string(n: u64) -> (r: String)
    ensures
        r@ == dec_digits(n as nat),
{
    let mut buf: Vec<char> = Vec::new();
    write_u64_dec(n, &mut buf);
    chars_to_string(&buf)
}


/// The lower-case hexadecimal text of `n`.
pub fn hex_string(n: u64) -> (r: String)
    ensures
        r@ == hex_digits(n as nat),
{
    let mut buf: Vec<char> = Vec::new();
    write_u64_hex(n, &mut buf);
    chars_to_string(&buf)
}

} // verus!
