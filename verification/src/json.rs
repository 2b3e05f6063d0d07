//! The library's JSON value model and its canonical text form.
//!
//! All protocol frames are JSON documents. The runtime works on `Json`
//! values; `write_json` renders a value as canonical text (no whitespace,
//! object fields in construction order) and `parse_json` reads a document
//! back. Parsing a canonical rendering returns the value that produced it
//! (`lemma_write_then_parse`).

use vstd::prelude::*;

verus! {

broadcast use vstd::std_specs::vec::group_vec_axioms, vstd::seq::group_seq_axioms;

/// A JSON document value. Numbers are integers: non-negative values are
/// `UInt`, negative values are `Int`. Fractional numbers are not part of
/// the protocol and are rejected by the parser.
#[derive(Debug)]
pub enum Json {
    Null,
    Bool(bool),
    UInt(u64),
    Int(i64),
    Str(String),
    Arr(Vec<Json>),
    Obj(Vec<(String, Json)>),
}

/// Mathematical model of a `Json` value: strings become character
/// sequences, vectors become sequences.
pub enum JsonV {
    Null,
    Bool(bool),
    UInt(u64),
    Int(i64),
    Str(Seq<char>),
    Arr(Seq<JsonV>),
    Obj(Seq<(Seq<char>, JsonV)>),
}

pub open spec fn json_view(j: Json) -> JsonV
    decreases j,
{
    match j {
        Json::Null => JsonV::Null,
        Json::Bool(b) => JsonV::Bool(b),
        Json::UInt(n) => JsonV::UInt(n),
        Json::Int(n) => JsonV::Int(n),
        Json::Str(s) => JsonV::Str(s@),
        Json::Arr(items) => JsonV::Arr(json_view_seq(items@)),
        Json::Obj(fields) => JsonV::Obj(json_view_fields(fields@)),
    }
}

pub open spec fn json_view_seq(items: Seq<Json>) -> Seq<JsonV>
    decreases items,
{
    if items.len() == 0 {
        Seq::empty()
    } else {
        seq![json_view(items[0])] + json_view_seq(items.drop_first())
    }
}

pub open spec fn json_view_fields(fields: Seq<(String, Json)>) -> Seq<(Seq<char>, JsonV)>
    decreases fields,
{
    if fields.len() == 0 {
        Seq::empty()
    } else {
        seq![(fields[0].0@, json_view(fields[0].1))] + json_view_fields(fields.drop_first())
    }
}

impl View for Json {
    type V = JsonV;

    open spec fn view(&self) -> JsonV {
        json_view(*self)
    }
}

pub proof fn lemma_json_view_seq_props(s: Seq<Json>)
    ensures
        json_view_seq(s).len() == s.len(),
        forall|i: int| 0 <= i < s.len() ==> json_view_seq(s)[i] == json_view(#[trigger] s[i]),
    decreases s.len(),
{
    if s.len() > 0 {
        lemma_json_view_seq_props(s.drop_first());
        assert forall|i: int| 0 <= i < s.len() implies json_view_seq(s)[i] == json_view(
            #[trigger] s[i],
        ) by {
            if i > 0 {
                assert(s.drop_first()[i - 1] == s[i]);
            }
        }
    }
}

pub proof fn lemma_json_view_fields_props(s: Seq<(String, Json)>)
    ensures
        json_view_fields(s).len() == s.len(),
        forall|i: int|
            0 <= i < s.len() ==> json_view_fields(s)[i] == ((#[trigger] s[i]).0@, json_view(
                s[i].1,
            )),
    decreases s.len(),
{
    if s.len() > 0 {
        lemma_json_view_fields_props(s.drop_first());
        assert forall|i: int| 0 <= i < s.len() implies json_view_fields(s)[i] == (
        (#[trigger] s[i]).0@,
        json_view(s[i].1),
        ) by {
            if i > 0 {
                assert(s.drop_first()[i - 1] == s[i]);
            }
        }
    }
}

/// Canonical well-formedness: `Int` is reserved for negative values, so
/// every value has exactly one canonical rendering.
pub open spec fn json_wf(v: JsonV) -> bool
    decreases v,
{
    match v {
        JsonV::Null => true,
        JsonV::Bool(_) => true,
        JsonV::UInt(_) => true,
        JsonV::Int(i) => i < 0,
        JsonV::Str(_) => true,
        JsonV::Arr(items) => forall|i: int| 0 <= i < items.len() ==> json_wf(#[trigger] items[i]),
        JsonV::Obj(fields) => forall|i: int|
            0 <= i < fields.len() ==> json_wf(#[trigger] fields[i].1),
    }
}

// ---------------------------------------------------------------------------
// Canonical rendering (specification)
// ---------------------------------------------------------------------------

pub open spec fn digit_char(d: nat) -> char {
    if d == 0 {
        '0'
    } else if d == 1 {
        '1'
    } else if d == 2 {
        '2'
    } else if d == 3 {
        '3'
    } else if d == 4 {
        '4'
    } else if d == 5 {
        '5'
    } else if d == 6 {
        '6'
    } else if d == 7 {
        '7'
    } else if d == 8 {
        '8'
    } else {
        '9'
    }
}

pub open spec fn hex_char(d: nat) -> char {
    if d < 10 {
        digit_char(d)
    } else if d == 10 {
        'a'
    } else if d == 11 {
        'b'
    } else if d == 12 {
        'c'
    } else if d == 13 {
        'd'
    } else if d == 14 {
        'e'
    } else {
        'f'
    }
}

/// Decimal digits of `n`, most significant first, no sign and no leading zero.
pub open spec fn dec_str(n: nat) -> Seq<char>
    decreases n,
{
    if n < 10 {
        seq![digit_char(n)]
    } else {
        dec_str(n / 10) + seq![digit_char(n % 10)]
    }
}

/// Rendering of one string character: quote and backslash get a two-character
/// escape, other control characters a `\u00xx` escape, everything else stands
/// as itself.
pub open spec fn esc_char(c: char) -> Seq<char> {
    if c == '"' {
        seq!['\\', '"']
    } else if c == '\\' {
        seq!['\\', '\\']
    } else if (c as u32) < 0x20 {
        seq![
            '\\',
            'u',
            '0',
            '0',
            hex_char(((c as u32) / 16) as nat),
            hex_char(((c as u32) % 16) as nat),
        ]
    } else {
        seq![c]
    }
}

pub open spec fn ser_str_content(s: Seq<char>) -> Seq<char>
    decreases s.len(),
{
    if s.len() == 0 {
        Seq::empty()
    } else {
        esc_char(s[0]) + ser_str_content(s.drop_first())
    }
}

pub open spec fn ser_string(s: Seq<char>) -> Seq<char> {
    seq!['"'] + ser_str_content(s) + seq!['"']
}

/// Canonical text of a JSON value: no whitespace, object fields in order.
pub open spec fn ser_json(v: JsonV) -> Seq<char>
    decreases v, 0int,
{
    match v {
        JsonV::Null => seq!['n', 'u', 'l', 'l'],
        JsonV::Bool(b) => if b {
            seq!['t', 'r', 'u', 'e']
        } else {
            seq!['f', 'a', 'l', 's', 'e']
        },
        JsonV::UInt(n) => dec_str(n as nat),
        JsonV::Int(i) => if i < 0 {
            seq!['-'] + dec_str((-(i as int)) as nat)
        } else {
            dec_str(i as nat)
        },
        JsonV::Str(s) => ser_string(s),
        JsonV::Arr(items) => seq!['['] + ser_items(items) + seq![']'],
        JsonV::Obj(fields) => seq!['{'] + ser_fields(fields) + seq!['}'],
    }
}

pub open spec fn ser_items(items: Seq<JsonV>) -> Seq<char>
    decreases items, 1int,
{
    if items.len() == 0 {
        Seq::empty()
    } else if items.len() == 1 {
        ser_json(items[0])
    } else {
        ser_json(items[0]) + seq![','] + ser_items(items.drop_first())
    }
}

pub open spec fn ser_fields(fields: Seq<(Seq<char>, JsonV)>) -> Seq<char>
    decreases fields, 1int,
{
    if fields.len() == 0 {
        Seq::empty()
    } else {
        let head = ser_string(fields[0].0) + seq![':'] + ser_json(fields[0].1);
        if fields.len() == 1 {
            head
        } else {
            head + seq![','] + ser_fields(fields.drop_first())
        }
    }
}

// ---------------------------------------------------------------------------
// Canonical rendering (executable)
// ---------------------------------------------------------------------------

fn digit_to_char(d: u64) -> (c: char)
    requires
        d < 10,
    ensures
        c == digit_char(d as nat),
{
    match d {
        0 => '0',
        1 => '1',
        2 => '2',
        3 => '3',
        4 => '4',
        5 => '5',
        6 => '6',
        7 => '7',
        8 => '8',
        _ => '9',
    }
}

fn hex_to_char(d: u32) -> (c: char)
    requires
        d < 16,
    ensures
        c == hex_char(d as nat),
{
    match d {
        0 => '0',
        1 => '1',
        2 => '2',
        3 => '3',
        4 => '4',
        5 => '5',
        6 => '6',
        7 => '7',
        8 => '8',
        9 => '9',
        10 => 'a',
        11 => 'b',
        12 => 'c',
        13 => 'd',
        14 => 'e',
        _ => 'f',
    }
}

fn write_dec(n: u64, out: &mut Vec<char>)
    ensures
        final(out)@ == old(out)@ + dec_str(n as nat),
    decreases n,
{
    if n < 10 {
        out.push(digit_to_char(n));
    } else {
        write_dec(n / 10, out);
        out.push(digit_to_char(n % 10));
    }
}

fn write_escaped_char(c: char, out: &mut Vec<char>)
    ensures
        final(out)@ == old(out)@ + esc_char(c),
{
    if c == '"' {
        out.push('\\');
        out.push('"');
    } else if c == '\\' {
        out.push('\\');
        out.push('\\');
    } else if (c as u32) < 0x20 {
        out.push('\\');
        out.push('u');
        out.push('0');
        out.push('0');
        out.push(hex_to_char((c as u32) / 16));
        out.push(hex_to_char((c as u32) % 16));
    } else {
        out.push(c);
    }
}

fn write_string(s: &str, out: &mut Vec<char>)
    ensures
        final(out)@ == old(out)@ + ser_string(s@),
{
    out.push('"');
    let n = s.unicode_len();
    let mut i: usize = 0;
    proof {
        assert(s@.skip(0) =~= s@);
    }
    while i < n
        invariant
            n == s@.len(),
            i <= n,
            out@ + ser_str_content(s@.skip(i as int)) == old(out)@ + seq!['"'] + ser_str_content(
                s@,
            ),
        decreases n - i,
    {
        let c = s.get_char(i);
        proof {
            assert(s@.skip(i as int).drop_first() =~= s@.skip(i as int + 1));
            assert(s@.skip(i as int)[0] == s@[i as int]);
        }
        write_escaped_char(c, out);
        i = i + 1;
    }
    proof {
        assert(s@.skip(n as int) =~= Seq::<char>::empty());
    }
    out.push('"');
    proof {
        assert(final(out)@ =~= old(out)@ + ser_string(s@));
    }
}

/// Appends the canonical text of `v` to `out`.
pub fn write_json(v: &Json, out: &mut Vec<char>)
    ensures
        final(out)@ == old(out)@ + ser_json(v@),
    decreases v, 0int,
{
    match v {
        Json::Null => {
            out.push('n');
            out.push('u');
            out.push('l');
            out.push('l');
            proof {
                assert(final(out)@ =~= old(out)@ + ser_json(v@));
            }
        },
        Json::Bool(b) => {
            if *b {
                out.push('t');
                out.push('r');
                out.push('u');
                out.push('e');
            } else {
                out.push('f');
                out.push('a');
                out.push('l');
                out.push('s');
                out.push('e');
            }
            proof {
                assert(final(out)@ =~= old(out)@ + ser_json(v@));
            }
        },
        Json::UInt(n) => {
            write_dec(*n, out);
        },
        Json::Int(i) => {
            if *i < 0 {
                out.push('-');
                let m: u64 = ((-(*i + 1)) as u64) + 1;
                write_dec(m, out);
                proof {
                    assert(m as nat == (-(*i as int)) as nat);
                    assert(final(out)@ =~= old(out)@ + ser_json(v@));
                }
            } else {
                write_dec(*i as u64, out);
            }
        },
        Json::Str(s) => {
            write_string(s.as_str(), out);
        },
        Json::Arr(items) => {
            out.push('[');
            if items.len() > 0 {
                write_items(items, 0, out);
            }
            out.push(']');
            proof {
                if items@.len() == 0 {
                    assert(json_view_seq(items@) =~= Seq::<JsonV>::empty());
                } else {
                    assert(items@.skip(0) =~= items@);
                }
                assert(final(out)@ =~= old(out)@ + ser_json(v@));
            }
        },
        Json::Obj(fields) => {
            out.push('{');
            if fields.len() > 0 {
                write_fields(fields, 0, out);
            }
            out.push('}');
            proof {
                if fields@.len() == 0 {
                    assert(json_view_fields(fields@) =~= Seq::<(Seq<char>, JsonV)>::empty());
                } else {
                    assert(fields@.skip(0) =~= fields@);
                }
                assert(final(out)@ =~= old(out)@ + ser_json(v@));
            }
        },
    }
}

pub proof fn lemma_view_seq_skip_unfold(s: Seq<Json>, i: int)
    requires
        0 <= i < s.len(),
    ensures
        json_view_seq(s.skip(i)).len() == s.len() - i,
        json_view_seq(s.skip(i))[0] == json_view(s[i]),
        json_view_seq(s.skip(i)).drop_first() == json_view_seq(s.skip(i + 1)),
{
    lemma_json_view_seq_props(s.skip(i));
    lemma_json_view_seq_props(s.skip(i + 1));
    assert(s.skip(i).drop_first() =~= s.skip(i + 1));
    assert(json_view_seq(s.skip(i)) =~= seq![json_view(s.skip(i)[0])] + json_view_seq(
        s.skip(i).drop_first(),
    ));
    assert(json_view_seq(s.skip(i)).drop_first() =~= json_view_seq(s.skip(i + 1)));
}

pub proof fn lemma_view_fields_skip_unfold(s: Seq<(String, Json)>, i: int)
    requires
        0 <= i < s.len(),
    ensures
        json_view_fields(s.skip(i)).len() == s.len() - i,
        json_view_fields(s.skip(i))[0] == (s[i].0@, json_view(s[i].1)),
        json_view_fields(s.skip(i)).drop_first() == json_view_fields(s.skip(i + 1)),
{
    lemma_json_view_fields_props(s.skip(i));
    lemma_json_view_fields_props(s.skip(i + 1));
    assert(s.skip(i).drop_first() =~= s.skip(i + 1));
    assert(json_view_fields(s.skip(i)).drop_first() =~= json_view_fields(s.skip(i + 1)));
}

fn write_items(items: &Vec<Json>, i: usize, out: &mut Vec<char>)
    requires
        i < items@.len(),
    ensures
        final(out)@ == old(out)@ + ser_items(json_view_seq(items@.skip(i as int))),
    decreases items, items@.len() - i,
{
    proof {
        lemma_view_seq_skip_unfold(items@, i as int);
    }
    write_json(&items[i], out);
    if i < items.len() - 1 {
        out.push(',');
        write_items(items, i + 1, out);
        proof {
            assert(final(out)@ =~= old(out)@ + ser_items(json_view_seq(items@.skip(i as int))));
        }
    } else {
        proof {
            assert(json_view_seq(items@.skip(i as int)).len() == 1);
        }
    }
}

fn write_fields(fields: &Vec<(String, Json)>, i: usize, out: &mut Vec<char>)
    requires
        i < fields@.len(),
    ensures
        final(out)@ == old(out)@ + ser_fields(json_view_fields(fields@.skip(i as int))),
    decreases fields, fields@.len() - i,
{
    proof {
        lemma_view_fields_skip_unfold(fields@, i as int);
    }
    write_string(fields[i].0.as_str(), out);
    out.push(':');
    write_json(&fields[i].1, out);
    if i < fields.len() - 1 {
        out.push(',');
        write_fields(fields, i + 1, out);
        proof {
            assert(final(out)@ =~= old(out)@ + ser_fields(
                json_view_fields(fields@.skip(i as int)),
            ));
        }
    } else {
        proof {
            assert(json_view_fields(fields@.skip(i as int)).len() == 1);
            assert(final(out)@ =~= old(out)@ + ser_fields(
                json_view_fields(fields@.skip(i as int)),
            ));
        }
    }
}

/// Appends the decimal rendering of `n`.
pub fn write_dec_pub(n: u64, out: &mut Vec<char>)
    ensures
        final(out)@ == old(out)@ + dec_str(n as nat),
{
    write_dec(n, out);
}

/// Renders `v` as its canonical JSON text.
pub fn to_text(v: &Json) -> (r: Vec<char>)
    ensures
        r@ == ser_json(v@),
{
    let mut out: Vec<char> = Vec::new();
    write_json(v, &mut out);
    out
}

// ---------------------------------------------------------------------------
// Parsing (specification)
// ---------------------------------------------------------------------------

pub open spec fn is_ws(c: char) -> bool {
    c == ' ' || c == '\t' || c == '\n' || c == '\r'
}

pub open spec fn skip_ws(s: Seq<char>) -> Seq<char>
    decreases s.len(),
{
    if s.len() > 0 && is_ws(s[0]) {
        skip_ws(s.drop_first())
    } else {
        s
    }
}

pub open spec fn is_digit(c: char) -> bool {
    '0' <= c && c <= '9'
}

pub open spec fn digit_val(c: char) -> nat {
    ((c as nat) - ('0' as nat)) as nat
}

pub open spec fn is_hex_digit(c: char) -> bool {
    is_digit(c) || ('a' <= c && c <= 'f') || ('A' <= c && c <= 'F')
}

pub open spec fn hex_val(c: char) -> nat {
    if is_digit(c) {
        digit_val(c)
    } else if 'a' <= c && c <= 'f' {
        ((c as nat) - ('a' as nat) + 10) as nat
    } else {
        ((c as nat) - ('A' as nat) + 10) as nat
    }
}

/// Consumes the maximal digit prefix, accumulating the value in `acc`.
pub open spec fn parse_digits(s: Seq<char>, acc: int) -> (int, Seq<char>)
    decreases s.len(),
{
    if s.len() > 0 && is_digit(s[0]) {
        parse_digits(s.drop_first(), acc * 10 + digit_val(s[0]))
    } else {
        (acc, s)
    }
}

/// No digit may follow a leading zero.
pub open spec fn leading_ok(s: Seq<char>) -> bool {
    s[0] == '0' ==> !(s.len() > 1 && is_digit(s[1]))
}

/// True when a number may end before `rem`: a fraction or exponent part
/// would begin with one of the rejected characters.
pub open spec fn number_end_ok(rem: Seq<char>) -> bool {
    rem.len() > 0 ==> (rem[0] != '.' && rem[0] != 'e' && rem[0] != 'E')
}

/// An integer JSON number: an optional minus sign and decimal digits.
/// Values outside `i64`/`u64` and fractional or exponent forms are rejected.
pub open spec fn parse_number(s: Seq<char>) -> Option<(JsonV, Seq<char>)> {
    if s.len() > 0 && s[0] == '-' {
        let t = s.drop_first();
        if t.len() > 0 && is_digit(t[0]) && leading_ok(t) {
            let (n, rem) = parse_digits(t, 0);
            if n <= 0x8000_0000_0000_0000int && number_end_ok(rem) {
                Some((JsonV::Int((-n) as i64), rem))
            } else {
                None
            }
        } else {
            None
        }
    } else if s.len() > 0 && is_digit(s[0]) && leading_ok(s) {
        let (n, rem) = parse_digits(s, 0);
        if n <= u64::MAX && number_end_ok(rem) {
            Some((JsonV::UInt(n as u64), rem))
        } else {
            None
        }
    } else {
        None
    }
}

/// The character named by a single-character escape.
pub open spec fn esc_code(e: char) -> Option<char> {
    if e == '"' {
        Some('"')
    } else if e == '\\' {
        Some('\\')
    } else if e == '/' {
        Some('/')
    } else if e == 'b' {
        Some('\u{08}')
    } else if e == 'f' {
        Some('\u{0c}')
    } else if e == 'n' {
        Some('\n')
    } else if e == 'r' {
        Some('\r')
    } else if e == 't' {
        Some('\t')
    } else {
        None
    }
}

pub open spec fn hex4_val(s: Seq<char>, i: int) -> nat {
    hex_val(s[i]) * 0x1000 + hex_val(s[i + 1]) * 0x100 + hex_val(s[i + 2]) * 16 + hex_val(
        s[i + 3],
    )
}

pub open spec fn hex4_ok(s: Seq<char>, i: int) -> bool {
    is_hex_digit(s[i]) && is_hex_digit(s[i + 1]) && is_hex_digit(s[i + 2]) && is_hex_digit(
        s[i + 3],
    )
}

/// String body after the opening quote: the decoded characters and the
/// remainder after the closing quote. `\uXXXX` escapes outside the basic
/// plane must form a surrogate pair; raw control characters are rejected.
pub open spec fn parse_str_chars(s: Seq<char>) -> Option<(Seq<char>, Seq<char>)>
    decreases s.len(),
{
    if s.len() == 0 {
        None
    } else if s[0] == '"' {
        Some((Seq::empty(), s.drop_first()))
    } else if s[0] == '\\' {
        if s.len() < 2 {
            None
        } else if s[1] == 'u' {
            if s.len() >= 6 && hex4_ok(s, 2) {
                let v = hex4_val(s, 2);
                if 0xD800 <= v < 0xDC00 {
                    if s.len() >= 12 && s[6] == '\\' && s[7] == 'u' && hex4_ok(s, 8) {
                        let w = hex4_val(s, 8);
                        if 0xDC00 <= w < 0xE000 {
                            let code = 0x10000 + (v - 0xD800) * 0x400 + (w - 0xDC00);
                            match parse_str_chars(s.skip(12)) {
                                Some((cs, rem)) => Some((seq![(code as u32) as char] + cs, rem)),
                                None => None,
                            }
                        } else {
                            None
                        }
                    } else {
                        None
                    }
                } else if 0xDC00 <= v < 0xE000 {
                    None
                } else {
                    match parse_str_chars(s.skip(6)) {
                        Some((cs, rem)) => Some((seq![(v as u32) as char] + cs, rem)),
                        None => None,
                    }
                }
            } else {
                None
            }
        } else {
            match esc_code(s[1]) {
                Some(c) => match parse_str_chars(s.skip(2)) {
                    Some((cs, rem)) => Some((seq![c] + cs, rem)),
                    None => None,
                },
                None => None,
            }
        }
    } else if (s[0] as u32) < 0x20 {
        None
    } else {
        match parse_str_chars(s.drop_first()) {
            Some((cs, rem)) => Some((seq![s[0]] + cs, rem)),
            None => None,
        }
    }
}

/// A JSON value with leading whitespace allowed: the parsed value and the
/// unconsumed remainder.
pub open spec fn parse_value(s: Seq<char>) -> Option<(JsonV, Seq<char>)>
    decreases s.len(), 0int,
{
    let t = skip_ws(s);
    if t.len() == 0 {
        None
    } else {
        let c = t[0];
        if c == 'n' {
            if t.len() >= 4 && t[1] == 'u' && t[2] == 'l' && t[3] == 'l' {
                Some((JsonV::Null, t.skip(4)))
            } else {
                None
            }
        } else if c == 't' {
            if t.len() >= 4 && t[1] == 'r' && t[2] == 'u' && t[3] == 'e' {
                Some((JsonV::Bool(true), t.skip(4)))
            } else {
                None
            }
        } else if c == 'f' {
            if t.len() >= 5 && t[1] == 'a' && t[2] == 'l' && t[3] == 's' && t[4] == 'e' {
                Some((JsonV::Bool(false), t.skip(5)))
            } else {
                None
            }
        } else if c == '"' {
            match parse_str_chars(t.drop_first()) {
                Some((cs, rem)) => Some((JsonV::Str(cs), rem)),
                None => None,
            }
        } else if c == '[' {
            let u = skip_ws(t.drop_first());
            if u.len() > 0 && u[0] == ']' {
                Some((JsonV::Arr(Seq::empty()), u.drop_first()))
            } else if u.len() < s.len() {
                match parse_items(u) {
                    Some((vs, rem)) => Some((JsonV::Arr(vs), rem)),
                    None => None,
                }
            } else {
                None
            }
        } else if c == '{' {
            let u = skip_ws(t.drop_first());
            if u.len() > 0 && u[0] == '}' {
                Some((JsonV::Obj(Seq::empty()), u.drop_first()))
            } else if u.len() < s.len() {
                match parse_fields(u) {
                    Some((fs, rem)) => Some((JsonV::Obj(fs), rem)),
                    None => None,
                }
            } else {
                None
            }
        } else if c == '-' || is_digit(c) {
            parse_number(t)
        } else {
            None
        }
    }
}

/// One or more comma-separated array items followed by `]`.
pub open spec fn parse_items(s: Seq<char>) -> Option<(Seq<JsonV>, Seq<char>)>
    decreases s.len(), 1int,
{
    match parse_value(s) {
        None => None,
        Some((v, rem)) => {
            let r = skip_ws(rem);
            if r.len() == 0 {
                None
            } else if r[0] == ']' {
                Some((seq![v], r.drop_first()))
            } else if r[0] == ',' {
                let next = r.drop_first();
                if next.len() < s.len() {
                    match parse_items(next) {
                        Some((vs, rem2)) => Some((seq![v] + vs, rem2)),
                        None => None,
                    }
                } else {
                    None
                }
            } else {
                None
            }
        },
    }
}

/// One or more `"key":value` members followed by `}`.
pub open spec fn parse_fields(s: Seq<char>) -> Option<(Seq<(Seq<char>, JsonV)>, Seq<char>)>
    decreases s.len(), 1int,
{
    let t = skip_ws(s);
    if t.len() == 0 || t[0] != '"' {
        None
    } else {
        match parse_str_chars(t.drop_first()) {
            None => None,
            Some((key, rem)) => {
                let r = skip_ws(rem);
                if r.len() == 0 || r[0] != ':' {
                    None
                } else {
                    let vs = r.drop_first();
                    if vs.len() <= s.len() {
                        match parse_value(vs) {
                            None => None,
                            Some((v, rem2)) => {
                                let r2 = skip_ws(rem2);
                                if r2.len() == 0 {
                                    None
                                } else if r2[0] == '}' {
                                    Some((seq![(key, v)], r2.drop_first()))
                                } else if r2[0] == ',' {
                                    let next = r2.drop_first();
                                    if next.len() < s.len() {
                                        match parse_fields(next) {
                                            Some((fs, rem3)) => Some((seq![(key, v)] + fs, rem3)),
                                            None => None,
                                        }
                                    } else {
                                        None
                                    }
                                } else {
                                    None
                                }
                            },
                        }
                    } else {
                        None
                    }
                }
            },
        }
    }
}

/// A complete JSON document: one value and nothing but whitespace after it.
pub open spec fn parse_doc(s: Seq<char>) -> Option<JsonV> {
    match parse_value(s) {
        Some((v, rem)) => if skip_ws(rem).len() == 0 {
            Some(v)
        } else {
            None
        },
        None => None,
    }
}

// ---------------------------------------------------------------------------
// Parsing (executable)
// ---------------------------------------------------------------------------

/// Relies on char::from_u32: returns `Some` exactly for valid Unicode
/// scalar values (not a surrogate, at most 0x10FFFF), and then the
/// character with that value.
#[verifier::external_body]
fn char_from_u32(v: u32) -> (r: Option<char>)
    ensures
        r is Some <==> (v < 0xD800 || (0xE000 <= v && v <= 0x10FFFF)),
        r matches Some(c) ==> c == (v as char),
{
    char::from_u32(v)
}

/// Relies on String implementing FromIterator over characters: collecting
/// yields the string of exactly those characters, in order.
#[verifier::external_body]
pub fn chars_to_string(v: &Vec<char>) -> (s: String)
    ensures
        s@ == v@,
{
    v.iter().collect()
}

/// The characters of `s` as a vector.
pub fn str_to_chars(s: &str) -> (r: Vec<char>)
    ensures
        r@ == s@,
{
    let n = s.unicode_len();
    let mut r: Vec<char> = Vec::new();
    let mut i: usize = 0;
    while i < n
        invariant
            n == s@.len(),
            i <= n,
            r@ == s@.take(i as int),
        decreases n - i,
    {
        r.push(s.get_char(i));
        proof {
            assert(r@ =~= s@.take(i as int + 1));
        }
        i = i + 1;
    }
    proof {
        assert(s@.take(n as int) =~= s@);
    }
    r
}

fn p_ws(s: &Vec<char>, i: usize) -> (k: usize)
    requires
        i <= s@.len(),
    ensures
        i <= k <= s@.len(),
        skip_ws(s@.skip(i as int)) == s@.skip(k as int),
        k < s@.len() ==> !is_ws(s@[k as int]),
{
    let mut k = i;
    while k < s.len() && (s[k] == ' ' || s[k] == '\t' || s[k] == '\n' || s[k] == '\r')
        invariant
            i <= k <= s@.len(),
            skip_ws(s@.skip(i as int)) == skip_ws(s@.skip(k as int)),
        decreases s@.len() - k,
    {
        proof {
            assert(s@.skip(k as int)[0] == s@[k as int]);
            assert(s@.skip(k as int).drop_first() =~= s@.skip(k as int + 1));
        }
        k = k + 1;
    }
    proof {
        if k < s@.len() {
            assert(s@.skip(k as int)[0] == s@[k as int]);
        }
    }
    k
}

fn digit_value(c: char) -> (d: u64)
    requires
        is_digit(c),
    ensures
        d == digit_val(c),
        d < 10,
{
    ((c as u32) - ('0' as u32)) as u64
}

fn hex_digit_value(c: char) -> (d: u32)
    requires
        is_hex_digit(c),
    ensures
        d == hex_val(c),
        d < 16,
{
    if '0' <= c && c <= '9' {
        (c as u32) - ('0' as u32)
    } else if 'a' <= c && c <= 'f' {
        (c as u32) - ('a' as u32) + 10
    } else {
        (c as u32) - ('A' as u32) + 10
    }
}

proof fn lemma_parse_digits_monotone(s: Seq<char>, acc: int)
    requires
        acc >= 0,
    ensures
        parse_digits(s, acc).0 >= acc,
    decreases s.len(),
{
    if s.len() > 0 && is_digit(s[0]) {
        lemma_parse_digits_monotone(s.drop_first(), acc * 10 + digit_val(s[0]));
    }
}

fn p_digits(s: &Vec<char>, i: usize) -> (r: Option<(u64, usize)>)
    requires
        i < s@.len(),
        is_digit(s@[i as int]),
    ensures
        match r {
            Some((n, j)) => i < j <= s@.len() && parse_digits(s@.skip(i as int), 0) == (
                n as int,
                s@.skip(j as int),
            ),
            None => parse_digits(s@.skip(i as int), 0).0 > u64::MAX,
        },
{
    let mut acc: u64 = 0;
    let mut cur: usize = i;
    loop
        invariant
            i <= cur <= s@.len(),
            parse_digits(s@.skip(i as int), 0) == parse_digits(s@.skip(cur as int), acc as int),
            cur == i ==> (cur < s@.len() && is_digit(s@[cur as int])),
        decreases s@.len() - cur,
    {
        if cur == s.len() || !('0' <= s[cur] && s[cur] <= '9') {
            proof {
                if cur < s@.len() {
                    assert(s@.skip(cur as int)[0] == s@[cur as int]);
                }
                assert(parse_digits(s@.skip(cur as int), acc as int) == (
                    acc as int,
                    s@.skip(cur as int),
                ));
            }
            return Some((acc, cur));
        }
        let d = digit_value(s[cur]);
        proof {
            assert(s@.skip(cur as int)[0] == s@[cur as int]);
            assert(s@.skip(cur as int).drop_first() =~= s@.skip(cur as int + 1));
        }
        if acc > (u64::MAX - d) / 10 {
            proof {
                let q = ((u64::MAX - d) / 10) as int;
                assert(q * 10 + ((u64::MAX - d) as int) % 10 == (u64::MAX - d) as int);
                assert(acc as int >= q + 1);
                assert((acc as int) * 10 >= (q + 1) * 10) by (nonlinear_arith)
                    requires
                        acc as int >= q + 1,
                ;
                lemma_parse_digits_monotone(
                    s@.skip(cur as int + 1),
                    (acc as int) * 10 + digit_val(s@[cur as int]),
                );
            }
            return None;
        }
        proof {
            let q = ((u64::MAX - d) / 10) as int;
            assert(q * 10 + ((u64::MAX - d) as int) % 10 == (u64::MAX - d) as int);
            assert((acc as int) * 10 <= q * 10) by (nonlinear_arith)
                requires
                    acc as int <= q,
            ;
        }
        acc = acc * 10 + d;
        cur = cur + 1;
    }
}

fn p_number(s: &Vec<char>, i: usize) -> (r: Option<(Json, usize)>)
    requires
        i < s@.len(),
        s@[i as int] == '-' || is_digit(s@[i as int]),
    ensures
        match r {
            Some((v, j)) => i < j <= s@.len() && parse_number(s@.skip(i as int)) == Some(
                (v@, s@.skip(j as int)),
            ),
            None => parse_number(s@.skip(i as int)) is None,
        },
{
    let ghost t0 = s@.skip(i as int);
    proof {
        assert(t0[0] == s@[i as int]);
    }
    if s[i] == '-' {
        proof {
            assert(t0.drop_first() =~= s@.skip(i as int + 1));
        }
        let ghost t = t0.drop_first();
        if i < s.len() - 1 && '0' <= s[i + 1] && s[i + 1] <= '9' {
            proof {
                assert(t[0] == s@[i as int + 1]);
                if t.len() > 1 {
                    assert(t[1] == s@[i as int + 2]);
                }
            }
            if s[i + 1] == '0' && i < s.len() - 2 && '0' <= s[i + 2] && s[i + 2] <= '9' {
                return None;
            }
            match p_digits(s, i + 1) {
                Some((n, j)) => {
                    proof {
                        if j < s@.len() {
                            assert(s@.skip(j as int)[0] == s@[j as int]);
                        }
                    }
                    if n <= 0x8000_0000_0000_0000u64 && (j == s.len() || (s[j] != '.' && s[j]
                        != 'e' && s[j] != 'E')) {
                        let v: i64 = if n == 0x8000_0000_0000_0000u64 {
                            i64::MIN
                        } else {
                            -(n as i64)
                        };
                        Some((Json::Int(v), j))
                    } else {
                        None
                    }
                },
                None => None,
            }
        } else {
            None
        }
    } else {
        if s[i] == '0' && i < s.len() - 1 && '0' <= s[i + 1] && s[i + 1] <= '9' {
            proof {
                assert(t0[1] == s@[i as int + 1]);
            }
            return None;
        }
        proof {
            if t0.len() > 1 {
                assert(t0[1] == s@[i as int + 1]);
            }
        }
        match p_digits(s, i) {
            Some((n, j)) => {
                proof {
                    if j < s@.len() {
                        assert(s@.skip(j as int)[0] == s@[j as int]);
                    }
                }
                if j == s.len() || (s[j] != '.' && s[j] != 'e' && s[j] != 'E') {
                    Some((Json::UInt(n), j))
                } else {
                    None
                }
            },
            None => None,
        }
    }
}

fn p_str_chars(s: &Vec<char>, i: usize) -> (r: Option<(Vec<char>, usize)>)
    requires
        i <= s@.len(),
    ensures
        match r {
            Some((cs, j)) => i < j <= s@.len() && parse_str_chars(s@.skip(i as int)) == Some(
                (cs@, s@.skip(j as int)),
            ),
            None => parse_str_chars(s@.skip(i as int)) is None,
        },
{
    let mut acc: Vec<char> = Vec::new();
    let mut cur: usize = i;
    loop
        invariant
            i <= cur <= s@.len(),
            match parse_str_chars(s@.skip(cur as int)) {
                Some((cs, rem)) => parse_str_chars(s@.skip(i as int)) == Some((acc@ + cs, rem)),
                None => parse_str_chars(s@.skip(i as int)) is None,
            },
        decreases s@.len() - cur,
    {
        let ghost t = s@.skip(cur as int);
        if cur == s.len() {
            return None;
        }
        proof {
            assert(t[0] == s@[cur as int]);
        }
        let c = s[cur];
        if c == '"' {
            proof {
                assert(t.drop_first() =~= s@.skip(cur as int + 1));
                assert(acc@ + Seq::<char>::empty() =~= acc@);
            }
            return Some((acc, cur + 1));
        } else if c == '\\' {
            if s.len() - cur == 1 {
                return None;
            }
            proof {
                assert(t[1] == s@[cur as int + 1]);
            }
            let e = s[cur + 1];
            if e == 'u' {
                if s.len() - cur < 6 {
                    return None;
                }
                proof {
                    assert(t.len() >= 6);
                    assert(t[2] == s@[cur as int + 2]);
                    assert(t[3] == s@[cur as int + 3]);
                    assert(t[4] == s@[cur as int + 4]);
                    assert(t[5] == s@[cur as int + 5]);
                }
                let (h0, h1, h2, h3) = (s[cur + 2], s[cur + 3], s[cur + 4], s[cur + 5]);
                if !(is_hex_exec(h0) && is_hex_exec(h1) && is_hex_exec(h2) && is_hex_exec(h3)) {
                    return None;
                }
                let v: u32 = hex_digit_value(h0) * 0x1000 + hex_digit_value(h1) * 0x100
                    + hex_digit_value(h2) * 16 + hex_digit_value(h3);
                proof {
                    assert(v == hex4_val(t, 2));
                }
                if 0xD800 <= v && v < 0xDC00 {
                    if s.len() - cur < 12 {
                        return None;
                    }
                    proof {
                        assert(t.len() >= 12);
                        assert(t[6] == s@[cur as int + 6]);
                        assert(t[7] == s@[cur as int + 7]);
                        assert(t[8] == s@[cur as int + 8]);
                        assert(t[9] == s@[cur as int + 9]);
                        assert(t[10] == s@[cur as int + 10]);
                        assert(t[11] == s@[cur as int + 11]);
                    }
                    if !(s[cur + 6] == '\\' && s[cur + 7] == 'u') {
                        return None;
                    }
                    let (g0, g1, g2, g3) = (s[cur + 8], s[cur + 9], s[cur + 10], s[cur + 11]);
                    if !(is_hex_exec(g0) && is_hex_exec(g1) && is_hex_exec(g2) && is_hex_exec(
                        g3,
                    )) {
                        return None;
                    }
                    let w: u32 = hex_digit_value(g0) * 0x1000 + hex_digit_value(g1) * 0x100
                        + hex_digit_value(g2) * 16 + hex_digit_value(g3);
                    proof {
                        assert(w == hex4_val(t, 8));
                    }
                    if !(0xDC00 <= w && w < 0xE000) {
                        return None;
                    }
                    let code: u32 = 0x10000 + (v - 0xD800) * 0x400 + (w - 0xDC00);
                    match char_from_u32(code) {
                        Some(ch) => {
                            proof {
                                assert(t.skip(12) =~= s@.skip(cur as int + 12));
                            }
                            let ghost acc_old = acc@;
                            acc.push(ch);
                            proof {
                                assert forall|b: Seq<char>| acc_old + (seq![ch] + b) == acc@
                                    + b by {
                                    assert(acc_old + (seq![ch] + b) =~= acc@ + b);
                                }
                            }
                            cur = cur + 12;
                        },
                        None => {
                            proof {
                                assert(false);
                            }
                        },
                    }
                } else if 0xDC00 <= v && v < 0xE000 {
                    return None;
                } else {
                    match char_from_u32(v) {
                        Some(ch) => {
                            proof {
                                assert(t.skip(6) =~= s@.skip(cur as int + 6));
                            }
                            let ghost acc_old = acc@;
                            acc.push(ch);
                            proof {
                                assert forall|b: Seq<char>| acc_old + (seq![ch] + b) == acc@
                                    + b by {
                                    assert(acc_old + (seq![ch] + b) =~= acc@ + b);
                                }
                            }
                            cur = cur + 6;
                        },
                        None => {
                            proof {
                                assert(false);
                            }
                        },
                    }
                }
            } else {
                let code: Option<char> = if e == '"' {
                    Some('"')
                } else if e == '\\' {
                    Some('\\')
                } else if e == '/' {
                    Some('/')
                } else if e == 'b' {
                    Some('\u{08}')
                } else if e == 'f' {
                    Some('\u{0c}')
                } else if e == 'n' {
                    Some('\n')
                } else if e == 'r' {
                    Some('\r')
                } else if e == 't' {
                    Some('\t')
                } else {
                    None
                };
                proof {
                    assert(code == esc_code(e));
                }
                match code {
                    Some(ch) => {
                        proof {
                            assert(t.skip(2) =~= s@.skip(cur as int + 2));
                        }
                        let ghost acc_old = acc@;
                        acc.push(ch);
                        proof {
                            assert forall|b: Seq<char>| acc_old + (seq![ch] + b) == acc@ + b by {
                                assert(acc_old + (seq![ch] + b) =~= acc@ + b);
                            }
                        }
                        cur = cur + 2;
                    },
                    None => {
                        return None;
                    },
                }
            }
        } else if (c as u32) < 0x20 {
            return None;
        } else {
            proof {
                assert(t.drop_first() =~= s@.skip(cur as int + 1));
            }
            let ghost acc_old = acc@;
            acc.push(c);
            proof {
                assert forall|b: Seq<char>| acc_old + (seq![c] + b) == acc@ + b by {
                    assert(acc_old + (seq![c] + b) =~= acc@ + b);
                }
            }
            cur = cur + 1;
        }
    }
}

fn is_hex_exec(c: char) -> (b: bool)
    ensures
        b == is_hex_digit(c),
{
    ('0' <= c && c <= '9') || ('a' <= c && c <= 'f') || ('A' <= c && c <= 'F')
}

#[verifier::rlimit(100)]
#[verifier::spinoff_prover]
fn p_value(s: &Vec<char>, i: usize) -> (r: Option<(Json, usize)>)
    requires
        i <= s@.len(),
    ensures
        match r {
            Some((v, j)) => i < j <= s@.len() && parse_value(s@.skip(i as int)) == Some(
                (v@, s@.skip(j as int)),
            ),
            None => parse_value(s@.skip(i as int)) is None,
        },
    decreases s@.len() - i, 0int,
{
    let k = p_ws(s, i);
    let ghost t = s@.skip(k as int);
    if k == s.len() {
        return None;
    }
    proof {
        assert(t[0] == s@[k as int]);
        assert(t.len() == s@.len() - k);
    }
    let c = s[k];
    if c == 'n' {
        if s.len() - k >= 4 && s[k + 1] == 'u' && s[k + 2] == 'l' && s[k + 3] == 'l' {
            proof {
                assert(t[1] == s@[k as int + 1]);
                assert(t[2] == s@[k as int + 2]);
                assert(t[3] == s@[k as int + 3]);
                assert(t.skip(4) =~= s@.skip(k as int + 4));
            }
            Some((Json::Null, k + 4))
        } else {
            proof {
                if t.len() >= 4 {
                    assert(t[1] == s@[k as int + 1]);
                    assert(t[2] == s@[k as int + 2]);
                    assert(t[3] == s@[k as int + 3]);
                }
            }
            None
        }
    } else if c == 't' {
        if s.len() - k >= 4 && s[k + 1] == 'r' && s[k + 2] == 'u' && s[k + 3] == 'e' {
            proof {
                assert(t[1] == s@[k as int + 1]);
                assert(t[2] == s@[k as int + 2]);
                assert(t[3] == s@[k as int + 3]);
                assert(t.skip(4) =~= s@.skip(k as int + 4));
            }
            Some((Json::Bool(true), k + 4))
        } else {
            proof {
                if t.len() >= 4 {
                    assert(t[1] == s@[k as int + 1]);
                    assert(t[2] == s@[k as int + 2]);
                    assert(t[3] == s@[k as int + 3]);
                }
            }
            None
        }
    } else if c == 'f' {
        if s.len() - k >= 5 && s[k + 1] == 'a' && s[k + 2] == 'l' && s[k + 3] == 's' && s[k + 4]
            == 'e' {
            proof {
                assert(t[1] == s@[k as int + 1]);
                assert(t[2] == s@[k as int + 2]);
                assert(t[3] == s@[k as int + 3]);
                assert(t[4] == s@[k as int + 4]);
                assert(t.skip(5) =~= s@.skip(k as int + 5));
            }
            Some((Json::Bool(false), k + 5))
        } else {
            proof {
                if t.len() >= 5 {
                    assert(t[1] == s@[k as int + 1]);
                    assert(t[2] == s@[k as int + 2]);
                    assert(t[3] == s@[k as int + 3]);
                    assert(t[4] == s@[k as int + 4]);
                }
            }
            None
        }
    } else if c == '"' {
        proof {
            assert(t.drop_first() =~= s@.skip(k as int + 1));
        }
        match p_str_chars(s, k + 1) {
            Some((cs, j)) => {
                let st = chars_to_string(&cs);
                Some((Json::Str(st), j))
            },
            None => None,
        }
    } else if c == '[' {
        proof {
            assert(t.drop_first() =~= s@.skip(k as int + 1));
        }
        let m = p_ws(s, k + 1);
        let ghost u = s@.skip(m as int);
        if m < s.len() && s[m] == ']' {
            let v = Json::Arr(Vec::new());
            proof {
                assert(u[0] == s@[m as int]);
                assert(u.drop_first() =~= s@.skip(m as int + 1));
                assert(json_view_seq(Seq::<Json>::empty()) =~= Seq::<JsonV>::empty());
                assert(v@ == JsonV::Arr(Seq::<JsonV>::empty()));
            }
            Some((v, m + 1))
        } else {
            proof {
                if m < s@.len() {
                    assert(u[0] == s@[m as int]);
                }
                assert(u.len() < s@.skip(i as int).len());
            }
            match p_items(s, m) {
                Some((vs, j)) => Some((Json::Arr(vs), j)),
                None => None,
            }
        }
    } else if c == '{' {
        proof {
            assert(t.drop_first() =~= s@.skip(k as int + 1));
        }
        let m = p_ws(s, k + 1);
        let ghost u = s@.skip(m as int);
        if m < s.len() && s[m] == '}' {
            let v = Json::Obj(Vec::new());
            proof {
                assert(u[0] == s@[m as int]);
                assert(u.drop_first() =~= s@.skip(m as int + 1));
                assert(json_view_fields(Seq::<(String, Json)>::empty()) =~= Seq::<
                    (Seq<char>, JsonV),
                >::empty());
                assert(v@ == JsonV::Obj(Seq::<(Seq<char>, JsonV)>::empty()));
            }
            Some((v, m + 1))
        } else {
            proof {
                if m < s@.len() {
                    assert(u[0] == s@[m as int]);
                }
                assert(u.len() < s@.skip(i as int).len());
            }
            match p_fields(s, m) {
                Some((fs, j)) => Some((Json::Obj(fs), j)),
                None => None,
            }
        }
    } else if c == '-' || ('0' <= c && c <= '9') {
        p_number(s, k)
    } else {
        None
    }
}

fn p_items(s: &Vec<char>, i: usize) -> (r: Option<(Vec<Json>, usize)>)
    requires
        i <= s@.len(),
    ensures
        match r {
            Some((vs, j)) => i < j <= s@.len() && parse_items(s@.skip(i as int)) == Some(
                (json_view_seq(vs@), s@.skip(j as int)),
            ),
            None => parse_items(s@.skip(i as int)) is None,
        },
    decreases s@.len() - i, 1int,
{
    match p_value(s, i) {
        None => None,
        Some((v, j)) => {
            let r = p_ws(s, j);
            let ghost rr = s@.skip(r as int);
            if r == s.len() {
                return None;
            }
            proof {
                assert(rr[0] == s@[r as int]);
            }
            if s[r] == ']' {
                proof {
                    assert(rr.drop_first() =~= s@.skip(r as int + 1));
                }
                let mut vs: Vec<Json> = Vec::new();
                vs.push(v);
                proof {
                    assert(vs@.drop_first() =~= Seq::<Json>::empty());
                    assert(json_view_seq(Seq::<Json>::empty()) =~= Seq::<JsonV>::empty());
                    assert(vs@.len() == 1 && vs@[0] == v);
                    assert(json_view_seq(vs@) =~= seq![v@]);
                }
                Some((vs, r + 1))
            } else if s[r] == ',' {
                proof {
                    assert(rr.drop_first() =~= s@.skip(r as int + 1));
                    assert(s@.skip(r as int + 1).len() < s@.skip(i as int).len());
                }
                match p_items(s, r + 1) {
                    Some((vs2, j2)) => {
                        let mut vs2 = vs2;
                        let ghost tail_view = vs2@;
                        vs2.insert(0, v);
                        proof {
                            assert(vs2@.drop_first() =~= tail_view);
                            assert(vs2@[0] == v);
                            assert(json_view_seq(vs2@) =~= seq![v@] + json_view_seq(tail_view));
                        }
                        Some((vs2, j2))
                    },
                    None => None,
                }
            } else {
                None
            }
        },
    }
}

fn p_fields(s: &Vec<char>, i: usize) -> (r: Option<(Vec<(String, Json)>, usize)>)
    requires
        i <= s@.len(),
    ensures
        match r {
            Some((fs, j)) => i < j <= s@.len() && parse_fields(s@.skip(i as int)) == Some(
                (json_view_fields(fs@), s@.skip(j as int)),
            ),
            None => parse_fields(s@.skip(i as int)) is None,
        },
    decreases s@.len() - i, 1int,
{
    let k = p_ws(s, i);
    let ghost t = s@.skip(k as int);
    if k == s.len() {
        return None;
    }
    proof {
        assert(t[0] == s@[k as int]);
    }
    if s[k] != '"' {
        return None;
    }
    proof {
        assert(t.drop_first() =~= s@.skip(k as int + 1));
    }
    match p_str_chars(s, k + 1) {
        None => None,
        Some((key_cs, j)) => {
            let r = p_ws(s, j);
            let ghost rr = s@.skip(r as int);
            if r == s.len() {
                return None;
            }
            proof {
                assert(rr[0] == s@[r as int]);
            }
            if s[r] != ':' {
                return None;
            }
            proof {
                assert(rr.drop_first() =~= s@.skip(r as int + 1));
                assert(s@.skip(r as int + 1).len() <= s@.skip(i as int).len());
            }
            let key = chars_to_string(&key_cs);
            match p_value(s, r + 1) {
                None => None,
                Some((v, j2)) => {
                    let r2 = p_ws(s, j2);
                    let ghost rr2 = s@.skip(r2 as int);
                    if r2 == s.len() {
                        return None;
                    }
                    proof {
                        assert(rr2[0] == s@[r2 as int]);
                    }
                    if s[r2] == '}' {
                        proof {
                            assert(rr2.drop_first() =~= s@.skip(r2 as int + 1));
                        }
                        let mut fs: Vec<(String, Json)> = Vec::new();
                        fs.push((key, v));
                        proof {
                            assert(fs@.drop_first() =~= Seq::<(String, Json)>::empty());
                            assert(json_view_fields(Seq::<(String, Json)>::empty()) =~= Seq::<
                                (Seq<char>, JsonV),
                            >::empty());
                            assert(fs@.len() == 1 && fs@[0] == (key, v));
                            assert(json_view_fields(fs@) =~= seq![(key_cs@, v@)]);
                        }
                        Some((fs, r2 + 1))
                    } else if s[r2] == ',' {
                        proof {
                            assert(rr2.drop_first() =~= s@.skip(r2 as int + 1));
                            assert(s@.skip(r2 as int + 1).len() < s@.skip(i as int).len());
                        }
                        match p_fields(s, r2 + 1) {
                            Some((fs2, j3)) => {
                                let mut fs2 = fs2;
                                let ghost tail_view = fs2@;
                                fs2.insert(0, (key, v));
                                proof {
                                    assert(fs2@.drop_first() =~= tail_view);
                                    assert(fs2@[0].0 == key);
                                    assert(fs2@[0].1 == v);
                                    assert(json_view_fields(fs2@) =~= seq![(key_cs@, v@)]
                                        + json_view_fields(tail_view));
                                }
                                Some((fs2, j3))
                            },
                            None => None,
                        }
                    } else {
                        None
                    }
                },
            }
        },
    }
}

/// Parses one complete JSON document (whitespace allowed around tokens).
pub fn parse_json(text: &Vec<char>) -> (r: Option<Json>)
    ensures
        match r {
            Some(v) => parse_doc(text@) == Some(v@),
            None => parse_doc(text@) is None,
        },
{
    proof {
        assert(text@.skip(0) =~= text@);
    }
    match p_value(text, 0) {
        None => None,
        Some((v, j)) => {
            let r = p_ws(text, j);
            if r == text.len() {
                Some(v)
            } else {
                None
            }
        },
    }
}

// ---------------------------------------------------------------------------
// Round trip: parsing a canonical rendering returns the value
// ---------------------------------------------------------------------------

pub open spec fn pow10(k: nat) -> int
    decreases k,
{
    if k == 0 {
        1
    } else {
        10 * pow10((k - 1) as nat)
    }
}

proof fn lemma_digit_char_val(d: nat)
    requires
        d < 10,
    ensures
        is_digit(digit_char(d)),
        digit_val(digit_char(d)) == d,
{
}

proof fn lemma_dec_str_digits(n: nat)
    ensures
        dec_str(n).len() >= 1,
        forall|i: int| 0 <= i < dec_str(n).len() ==> is_digit(#[trigger] dec_str(n)[i]),
        dec_str(n)[0] == '0' ==> n == 0,
    decreases n,
{
    if n < 10 {
        assert(is_digit(digit_char(n)));
    } else {
        lemma_dec_str_digits(n / 10);
        assert(is_digit(digit_char(n % 10)));
        assert(dec_str(n)[0] == dec_str(n / 10)[0]);
    }
}

/// Parsing digits distributes over splitting off an all-digit prefix.
proof fn lemma_parse_digits_split(a: Seq<char>, b: Seq<char>, acc: int)
    requires
        forall|i: int| 0 <= i < a.len() ==> is_digit(#[trigger] a[i]),
    ensures
        parse_digits(a + b, acc) == parse_digits(b, parse_digits(a, acc).0),
        parse_digits(a, acc).1 =~= Seq::<char>::empty(),
    decreases a.len(),
{
    if a.len() == 0 {
        assert(a + b =~= b);
    } else {
        assert((a + b)[0] == a[0]);
        assert((a + b).drop_first() =~= a.drop_first() + b);
        lemma_parse_digits_split(a.drop_first(), b, acc * 10 + digit_val(a[0]));
    }
}

proof fn lemma_parse_dec_value(n: nat, acc: int)
    requires
        acc >= 0,
    ensures
        parse_digits(dec_str(n), acc) == (
            acc * pow10(dec_str(n).len() as nat) + n,
            Seq::<char>::empty(),
        ),
    decreases n,
{
    lemma_dec_str_digits(n);
    if n < 10 {
        let s = dec_str(n);
        lemma_digit_char_val(n);
        assert(s.drop_first() =~= Seq::<char>::empty());
        assert(parse_digits(Seq::<char>::empty(), acc * 10 + n) == (
            acc * 10 + n,
            Seq::<char>::empty(),
        ));
        assert(parse_digits(s, acc) == (acc * 10 + n, Seq::<char>::empty()));
        assert(pow10(0) == 1);
        assert(pow10(1) == 10);
    } else {
        lemma_dec_str_digits(n / 10);
        let a = dec_str(n / 10);
        let b = seq![digit_char(n % 10)];
        lemma_parse_digits_split(a, b, acc);
        lemma_parse_dec_value(n / 10, acc);
        let x = acc * pow10(a.len() as nat) + n / 10;
        lemma_digit_char_val(n % 10);
        assert(b.drop_first() =~= Seq::<char>::empty());
        assert(parse_digits(Seq::<char>::empty(), x * 10 + (n % 10)) == (
            x * 10 + (n % 10),
            Seq::<char>::empty(),
        ));
        assert(parse_digits(b, x) == (x * 10 + (n % 10), Seq::<char>::empty()));
        assert(dec_str(n).len() == a.len() + 1);
        assert(pow10(dec_str(n).len() as nat) == 10 * pow10(a.len() as nat));
        assert((acc * pow10(a.len() as nat) + n / 10) * 10 + n % 10 == acc * (10 * pow10(
            a.len() as nat,
        )) + (n / 10 * 10 + n % 10)) by (nonlinear_arith);
        assert(n / 10 * 10 + n % 10 == n);
    }
}

/// Parsing the decimal rendering of `n` followed by a non-digit remainder
/// yields exactly `n`.
proof fn lemma_parse_dec_rest(n: nat, rest: Seq<char>)
    requires
        rest.len() > 0 ==> !is_digit(rest[0]),
    ensures
        parse_digits(dec_str(n) + rest, 0) == (n as int, rest),
{
    lemma_dec_str_digits(n);
    lemma_parse_digits_split(dec_str(n), rest, 0);
    lemma_parse_dec_value(n, 0);
    assert(0 * pow10(dec_str(n).len() as nat) == 0) by (nonlinear_arith);
    assert(parse_digits(rest, n as int) == (n as int, rest));
}

proof fn lemma_hex_char_val(d: nat)
    requires
        d < 16,
    ensures
        is_hex_digit(hex_char(d)),
        hex_val(hex_char(d)) == d,
{
}

/// The characters that can open a canonical rendering: never whitespace
/// and never a delimiter.
pub open spec fn value_start_ok(c: char) -> bool {
    c == 'n' || c == 't' || c == 'f' || c == '"' || c == '[' || c == '{' || c == '-' || is_digit(
        c,
    )
}

proof fn lemma_ser_first(v: JsonV)
    ensures
        ser_json(v).len() >= 1,
        value_start_ok(ser_json(v)[0]),
{
    match v {
        JsonV::UInt(n) => {
            lemma_dec_str_digits(n as nat);
        },
        JsonV::Int(i) => {
            if i >= 0 {
                lemma_dec_str_digits(i as nat);
            } else {
                assert(ser_json(v)[0] == '-');
            }
        },
        _ => {},
    }
}

/// The rest of a rendering in element position: either nothing, or a
/// separator or closing bracket.
pub open spec fn delim_ok(rest: Seq<char>) -> bool {
    rest.len() > 0 ==> (rest[0] == ',' || rest[0] == ']' || rest[0] == '}' || rest[0] == ':')
}

/// Unescaping inverts escaping: parsing the escaped content followed by the
/// closing quote returns exactly the characters that were escaped.
#[verifier::rlimit(100)]
#[verifier::spinoff_prover]
proof fn lemma_rt_str_content(s: Seq<char>, rest: Seq<char>)
    ensures
        parse_str_chars(ser_str_content(s) + seq!['"'] + rest) == Some((s, rest)),
    decreases s.len(),
{
    if s.len() == 0 {
        let w = ser_str_content(s) + seq!['"'] + rest;
        assert(w =~= seq!['"'] + rest);
        assert(w[0] == '"');
        assert(w.drop_first() =~= rest);
    } else {
        let c = s[0];
        let w = ser_str_content(s) + seq!['"'] + rest;
        let w2 = ser_str_content(s.drop_first()) + seq!['"'] + rest;
        lemma_rt_str_content(s.drop_first(), rest);
        assert(ser_str_content(s) == esc_char(c) + ser_str_content(s.drop_first()));
        if c == '"' {
            assert(w =~= seq!['\\', '"'] + w2);
            assert(w[0] == '\\' && w[1] == '"');
            assert(w.skip(2) =~= w2);
            assert(seq![c] + s.drop_first() =~= s);
        } else if c == '\\' {
            assert(w =~= seq!['\\', '\\'] + w2);
            assert(w[0] == '\\' && w[1] == '\\');
            assert(w.skip(2) =~= w2);
            assert(seq![c] + s.drop_first() =~= s);
        } else if (c as u32) < 0x20 {
            let hi = ((c as u32) / 16) as nat;
            let lo = ((c as u32) % 16) as nat;
            lemma_hex_char_val(hi);
            lemma_hex_char_val(lo);
            assert(w =~= seq!['\\', 'u', '0', '0', hex_char(hi), hex_char(lo)] + w2);
            assert(w[0] == '\\' && w[1] == 'u');
            assert(w.len() >= 6);
            assert(w[2] == '0' && w[3] == '0' && w[4] == hex_char(hi) && w[5] == hex_char(lo));
            assert(is_hex_digit('0') && hex_val('0') == 0);
            assert(hex4_ok(w, 2));
            assert(hex4_val(w, 2) == hi * 16 + lo);
            assert(hi * 16 + lo == (c as u32) as nat);
            assert(hex4_val(w, 2) < 0x20);
            assert(w.skip(6) =~= w2);
            assert(hex4_val(w, 2) as u32 == c as u32);
            vstd::utf8::char_u32_cast(c, c as u32);
            assert((hex4_val(w, 2) as u32) as char == c);
            assert(seq![c] + s.drop_first() =~= s);
        } else {
            assert(w =~= seq![c] + w2);
            assert(w[0] == c);
            assert(w.drop_first() =~= w2);
            assert(seq![c] + s.drop_first() =~= s);
        }
    }
}

/// Parsing a rendered atom (not an array or object) followed by a
/// delimiter returns the value and the delimiter untouched.
#[verifier::rlimit(100)]
#[verifier::spinoff_prover]
proof fn lemma_rt_atom(v: JsonV, rest: Seq<char>)
    requires
        json_wf(v),
        delim_ok(rest),
        !(v is Arr),
        !(v is Obj),
    ensures
        parse_value(ser_json(v) + rest) == Some((v, rest)),
{
    let s = ser_json(v) + rest;
    lemma_ser_first(v);
    assert(s[0] == ser_json(v)[0]);
    assert(!is_ws(s[0]));
    assert(skip_ws(s) == s);
    match v {
        JsonV::Null => {
            assert(s[1] == 'u' && s[2] == 'l' && s[3] == 'l');
            assert(s.skip(4) =~= rest);
        },
        JsonV::Bool(b) => {
            if b {
                assert(s[1] == 'r' && s[2] == 'u' && s[3] == 'e');
                assert(s.skip(4) =~= rest);
            } else {
                assert(s[1] == 'a' && s[2] == 'l' && s[3] == 's' && s[4] == 'e');
                assert(s.skip(5) =~= rest);
            }
        },
        JsonV::UInt(n) => {
            lemma_dec_str_digits(n as nat);
            lemma_parse_dec_rest(n as nat, rest);
            assert(s =~= dec_str(n as nat) + rest);
            assert(leading_ok(s));
            assert(number_end_ok(rest));
        },
        JsonV::Int(i) => {
            let m = (-(i as int)) as nat;
            lemma_dec_str_digits(m);
            lemma_parse_dec_rest(m, rest);
            assert(s[0] == '-');
            assert(s.drop_first() =~= dec_str(m) + rest);
            let t = s.drop_first();
            assert(t[0] == dec_str(m)[0]);
            assert(m > 0);
            assert(leading_ok(t));
            assert(number_end_ok(rest));
            assert(m <= 0x8000_0000_0000_0000int);
            assert((-(m as int)) as i64 == i);
        },
        JsonV::Str(cs) => {
            assert(s.drop_first() =~= ser_str_content(cs) + seq!['"'] + rest);
            lemma_rt_str_content(cs, rest);
        },
        _ => {},
    }
}

/// Parsing a canonical rendering followed by a delimiter returns the value
/// and the delimiter untouched.
#[verifier::rlimit(100)]
#[verifier::spinoff_prover]
pub proof fn lemma_rt_value(v: JsonV, rest: Seq<char>)
    requires
        json_wf(v),
        delim_ok(rest),
    ensures
        parse_value(ser_json(v) + rest) == Some((v, rest)),
    decreases v, 0int,
{
    let s = ser_json(v) + rest;
    lemma_ser_first(v);
    assert(s[0] == ser_json(v)[0]);
    assert(!is_ws(s[0]));
    assert(skip_ws(s) == s);
    match v {
        JsonV::Arr(items) => {
            assert(s[0] == '[');
            assert(s.drop_first() =~= ser_items(items) + seq![']'] + rest);
            let u0 = s.drop_first();
            if items.len() == 0 {
                assert(items =~= Seq::<JsonV>::empty());
                assert(u0 =~= seq![']'] + rest);
                assert(!is_ws(u0[0]));
                assert(skip_ws(u0) == u0);
                assert(u0.drop_first() =~= rest);
            } else {
                lemma_ser_first(items[0]);
                assert(ser_items(items)[0] == ser_json(items[0])[0]);
                assert(u0[0] == ser_items(items)[0]);
                assert(!is_ws(u0[0]));
                assert(skip_ws(u0) == u0);
                assert(u0[0] != ']');
                assert(u0.len() < s.len());
                lemma_rt_items(items, rest);
            }
        },
        JsonV::Obj(fields) => {
            assert(s[0] == '{');
            assert(s.drop_first() =~= ser_fields(fields) + seq!['}'] + rest);
            let u0 = s.drop_first();
            if fields.len() == 0 {
                assert(fields =~= Seq::<(Seq<char>, JsonV)>::empty());
                assert(u0 =~= seq!['}'] + rest);
                assert(!is_ws(u0[0]));
                assert(skip_ws(u0) == u0);
                assert(u0.drop_first() =~= rest);
            } else {
                assert(ser_fields(fields)[0] == '"');
                assert(u0[0] == '"');
                assert(!is_ws(u0[0]));
                assert(skip_ws(u0) == u0);
                assert(u0[0] != '}');
                assert(u0.len() < s.len());
                lemma_rt_fields(fields, rest);
            }
        },
        _ => {
            lemma_rt_atom(v, rest);
        },
    }
}

/// Parsing the rendered items of a non-empty array, followed by the closing
/// bracket, returns the items.
#[verifier::rlimit(100)]
#[verifier::spinoff_prover]
proof fn lemma_rt_items(items: Seq<JsonV>, rest: Seq<char>)
    requires
        items.len() >= 1,
        forall|i: int| 0 <= i < items.len() ==> json_wf(#[trigger] items[i]),
        delim_ok(rest),
    ensures
        parse_items(ser_items(items) + seq![']'] + rest) == Some((items, rest)),
    decreases items, 1int,
{
    let s = ser_items(items) + seq![']'] + rest;
    if items.len() == 1 {
        assert(s =~= ser_json(items[0]) + (seq![']'] + rest));
        lemma_rt_value(items[0], seq![']'] + rest);
        let rem = seq![']'] + rest;
        assert(!is_ws(rem[0]));
        assert(skip_ws(rem) == rem);
        assert(rem[0] == ']');
        assert(rem.drop_first() =~= rest);
        assert(seq![items[0]] =~= items);
    } else {
        let tail = items.drop_first();
        let rest2 = seq![','] + ser_items(tail) + seq![']'] + rest;
        assert(s =~= ser_json(items[0]) + rest2);
        lemma_rt_value(items[0], rest2);
        assert(!is_ws(rest2[0]));
        assert(skip_ws(rest2) == rest2);
        assert(rest2[0] == ',');
        let next = rest2.drop_first();
        assert(next =~= ser_items(tail) + seq![']'] + rest);
        assert(next.len() < s.len());
        lemma_rt_items(tail, rest);
        assert(seq![items[0]] + tail =~= items);
    }
}

/// Parsing the rendered members of a non-empty object, followed by the
/// closing brace, returns the members.
#[verifier::rlimit(100)]
#[verifier::spinoff_prover]
proof fn lemma_rt_fields(fields: Seq<(Seq<char>, JsonV)>, rest: Seq<char>)
    requires
        fields.len() >= 1,
        forall|i: int| 0 <= i < fields.len() ==> json_wf(#[trigger] fields[i].1),
        delim_ok(rest),
    ensures
        parse_fields(ser_fields(fields) + seq!['}'] + rest) == Some((fields, rest)),
    decreases fields, 1int,
{
    let key = fields[0].0;
    let v = fields[0].1;
    let tail = fields.drop_first();
    let s = ser_fields(fields) + seq!['}'] + rest;
    let vrest = if fields.len() == 1 {
        seq!['}'] + rest
    } else {
        seq![','] + ser_fields(tail) + seq!['}'] + rest
    };
    assert(s[0] == '"');
    assert(!is_ws(s[0]));
    assert(skip_ws(s) == s);
    assert(s.drop_first() =~= ser_str_content(key) + seq!['"'] + (seq![':'] + ser_json(v)
        + vrest));
    lemma_rt_str_content(key, seq![':'] + ser_json(v) + vrest);
    let rem = seq![':'] + ser_json(v) + vrest;
    assert(!is_ws(rem[0]));
    assert(skip_ws(rem) == rem);
    assert(rem[0] == ':');
    let vs = rem.drop_first();
    assert(vs =~= ser_json(v) + vrest);
    assert(vs.len() <= s.len());
    lemma_rt_value(v, vrest);
    assert(!is_ws(vrest[0]));
    assert(skip_ws(vrest) == vrest);
    if fields.len() == 1 {
        assert(vrest[0] == '}');
        assert(vrest.drop_first() =~= rest);
        assert(seq![(key, v)] =~= fields);
    } else {
        assert(vrest[0] == ',');
        let next = vrest.drop_first();
        assert(next =~= ser_fields(tail) + seq!['}'] + rest);
        assert(next.len() < s.len());
        lemma_rt_fields(tail, rest);
        assert(seq![(key, v)] + tail =~= fields);
    }
}

/// Round trip: the canonical rendering of a well-formed value parses back
/// to exactly that value. Re-rendering the parsed value therefore yields
/// the identical text.
pub proof fn lemma_write_then_parse(v: JsonV)
    requires
        json_wf(v),
    ensures
        parse_doc(ser_json(v)) == Some(v),
{
    lemma_rt_value(v, Seq::empty());
    assert(ser_json(v) + Seq::<char>::empty() =~= ser_json(v));
}


// ---------------------------------------------------------------------------
// Building helpers for canonical values
// ---------------------------------------------------------------------------

pub proof fn lemma_view_seq_push(s: Seq<Json>, x: Json)
    ensures
        json_view_seq(s.push(x)) == json_view_seq(s) + seq![json_view(x)],
    decreases s.len(),
{
    if s.len() == 0 {
        assert(s.push(x).drop_first() =~= Seq::<Json>::empty());
        assert(s.push(x)[0] == x);
        assert(json_view_seq(Seq::<Json>::empty()) =~= Seq::<JsonV>::empty());
        assert(json_view_seq(s.push(x)) =~= seq![json_view(x)]);
        assert(json_view_seq(s) + seq![json_view(x)] =~= seq![json_view(x)]);
    } else {
        lemma_view_seq_push(s.drop_first(), x);
        assert(s.push(x).drop_first() =~= s.drop_first().push(x));
        assert(json_view_seq(s.push(x)) =~= json_view_seq(s) + seq![json_view(x)]);
    }
}

pub proof fn lemma_view_fields_push(s: Seq<(String, Json)>, k: String, x: Json)
    ensures
        json_view_fields(s.push((k, x))) == json_view_fields(s) + seq![(k@, json_view(x))],
    decreases s.len(),
{
    if s.len() == 0 {
        assert(s.push((k, x)).drop_first() =~= Seq::<(String, Json)>::empty());
        assert(s.push((k, x))[0] == (k, x));
        assert(json_view_fields(Seq::<(String, Json)>::empty()) =~= Seq::<
            (Seq<char>, JsonV),
        >::empty());
        assert(json_view_fields(s.push((k, x))) =~= seq![(k@, json_view(x))]);
        assert(json_view_fields(s) + seq![(k@, json_view(x))] =~= seq![(k@, json_view(x))]);
    } else {
        lemma_view_fields_push(s.drop_first(), k, x);
        assert(s.push((k, x)).drop_first() =~= s.drop_first().push((k, x)));
        assert(json_view_fields(s.push((k, x))) =~= json_view_fields(s) + seq![(k@, json_view(
            x,
        ))]);
    }
}

/// Appends one member to an object under construction.
pub fn jput(fields: &mut Vec<(String, Json)>, key: &str, v: Json)
    ensures
        json_view_fields(final(fields)@) == json_view_fields(old(fields)@) + seq![
            (key@, v@),
        ],
{
    let ghost k0 = fields@;
    let ks = key.to_owned();
    proof {
        lemma_view_fields_push(k0, ks, v);
    }
    fields.push((ks, v));
}

/// Appends one element to an array under construction.
pub fn japp(items: &mut Vec<Json>, v: Json)
    ensures
        json_view_seq(final(items)@) == json_view_seq(old(items)@) + seq![v@],
    
{
    let ghost i0 = items@;
    proof {
        lemma_view_seq_push(i0, v);
    }
    items.push(v);
}

/// The string value `s` as a JSON value.
pub fn jstr(s: &str) -> (r: Json)
    ensures
        r@ == JsonV::Str(s@),
{
    Json::Str(s.to_owned())
}

/// Looks a key up in an object's members; the last binding wins.
pub open spec fn obj_lookup(fields: Seq<(Seq<char>, JsonV)>, key: Seq<char>) -> Option<JsonV>
    decreases fields.len(),
{
    if fields.len() == 0 {
        None
    } else if fields.last().0 == key {
        Some(fields.last().1)
    } else {
        obj_lookup(fields.drop_last(), key)
    }
}

/// Looks `key` up in `v` when `v` is an object; `None` otherwise.
pub open spec fn jget_spec(v: JsonV, key: Seq<char>) -> Option<JsonV> {
    match v {
        JsonV::Obj(fields) => obj_lookup(fields, key),
        _ => None,
    }
}

/// Compares two strings by their characters.
pub fn str_eq(a: &str, b: &str) -> (r: bool)
    ensures
        r == (a@ == b@),
{
    let na = a.unicode_len();
    let nb = b.unicode_len();
    if na != nb {
        proof {
            assert(a@ != b@);
        }
        return false;
    }
    let mut i: usize = 0;
    while i < na
        invariant
            na == a@.len() && na == b@.len(),
            i <= na,
            forall|j: int| 0 <= j < i ==> a@[j] == b@[j],
        decreases na - i,
    {
        if a.get_char(i) != b.get_char(i) {
            proof {
                assert(a@[i as int] != b@[i as int]);
            }
            return false;
        }
        i = i + 1;
    }
    proof {
        assert(a@ =~= b@);
    }
    true
}

impl Json {
    /// Member lookup on an object value; the last binding of the key wins,
    /// as when a JSON text with a repeated key is read into a map.
    pub fn get<'a>(&'a self, key: &str) -> (r: Option<&'a Json>)
        ensures
            match r {
                Some(v) => jget_spec(self@, key@) == Some(v@),
                None => jget_spec(self@, key@) is None,
            },
    {
        match self {
            Json::Obj(fields) => {
                let ghost fv = json_view_fields(fields@);
                proof {
                    lemma_json_view_fields_props(fields@);
                }
                let mut i: usize = fields.len();
                proof {
                    assert(fv.take(i as int) =~= fv);
                }
                while i > 0
                    invariant
                        i <= fields@.len(),
                        self@ == JsonV::Obj(fv),
                        fv == json_view_fields(fields@),
                        fv.len() == fields@.len(),
                        forall|j: int|
                            0 <= j < fields@.len() ==> fv[j] == ((#[trigger] fields@[j]).0@,
                            json_view(fields@[j].1)),
                        obj_lookup(fv, key@) == obj_lookup(fv.take(i as int), key@),
                    decreases i,
                {
                    proof {
                        assert(fv.take(i as int).last() == fv[i - 1]);
                        assert(fv.take(i as int).drop_last() =~= fv.take(i as int - 1));
                    }
                    if str_eq(fields[i - 1].0.as_str(), key) {
                        proof {
                            assert(fv[i as int - 1].0 == key@);
                            assert(obj_lookup(fv.take(i as int), key@) == Some(
                                fv[i as int - 1].1,
                            ));
                            assert(jget_spec(self@, key@) == Some(fv[i as int - 1].1));
                            assert(fv[i as int - 1].1 == json_view(fields@[i as int - 1].1));
                        }
                        return Some(&fields[i - 1].1);
                    }
                    i = i - 1;
                }
                proof {
                    assert(fv.take(0) =~= Seq::<(Seq<char>, JsonV)>::empty());
                }
                None
            },
            _ => None,
        }
    }

    /// The value as an unsigned integer, when it is one.
    pub fn as_u64(&self) -> (r: Option<u64>)
        ensures
            r == json_as_u64(self@),
    {
        match self {
            Json::UInt(n) => Some(*n),
            Json::Int(i) => if *i >= 0 {
                Some(*i as u64)
            } else {
                None
            },
            _ => None,
        }
    }

    /// The value as a boolean, when it is one.
    pub fn as_bool(&self) -> (r: Option<bool>)
        ensures
            r == json_as_bool(self@),
    {
        match self {
            Json::Bool(b) => Some(*b),
            _ => None,
        }
    }

    /// The value as a string, when it is one.
    pub fn as_str_opt<'a>(&'a self) -> (r: Option<&'a String>)
        ensures
            match r {
                Some(s) => self@ matches JsonV::Str(cs) && cs == s@,
                None => !(self@ is Str),
            },
    {
        match self {
            Json::Str(s) => Some(s),
            _ => None,
        }
    }

    /// The elements, when the value is an array.
    pub fn as_arr<'a>(&'a self) -> (r: Option<&'a Vec<Json>>)
        ensures
            match r {
                Some(items) => self@ == JsonV::Arr(json_view_seq(items@)),
                None => !(self@ is Arr),
            },
    {
        match self {
            Json::Arr(items) => Some(items),
            _ => None,
        }
    }

    pub fn is_null(&self) -> (r: bool)
        ensures
            r == (self@ is Null),
    {
        match self {
            Json::Null => true,
            _ => false,
        }
    }
}

/// The unsigned integer a JSON value holds, if any: a non-negative number.
pub open spec fn json_as_u64(v: JsonV) -> Option<u64> {
    match v {
        JsonV::UInt(n) => Some(n),
        JsonV::Int(i) => if i >= 0 {
            Some(i as u64)
        } else {
            None
        },
        _ => None,
    }
}

pub open spec fn json_as_bool(v: JsonV) -> Option<bool> {
    match v {
        JsonV::Bool(b) => Some(b),
        _ => None,
    }
}

} // verus!
