use vstd::prelude::*;
use vstd::string::StrSliceExecFns;

verus! {

/// A JSON document as this library models it: the value trees that a GraphQL
/// request carries as its variables. Numbers are modelled as 64-bit integers;
/// object members keep the order in which they were listed.
pub enum JsonValue {
    Null,
    Bool(bool),
    Int(i64),
    Str(String),
    Arr(Vec<JsonValue>),
    Obj(Vec<(String, JsonValue)>),
}

/// A decimal digit as a character.
pub open spec fn dec_digit(d: nat) -> char
    recommends
        d < 10,
{
    if d == 0 {
        '0'
    } else if d == 1 {
        '1'
    } else if d == 2 {
        '2'
    } else if d == 3 {
        '3'
    } else if d == 4 {
        '4'
    } else if d == 5 {
        '5'
    } else if d == 6 {
        '6'
    } else if d == 7 {
        '7'
    } else if d == 8 {
        '8'
    } else {
        '9'
    }
}

/// A hexadecimal digit as a lower-case character.
pub open spec fn hex_digit(d: nat) -> char
    recommends
        d < 16,
{
    if d < 10 {
        dec_digit(d)
    } else if d == 10 {
        'a'
    } else if d == 11 {
        'b'
    } else if d == 12 {
        'c'
    } else if d == 13 {
        'd'
    } else if d == 14 {
        'e'
    } else {
        'f'
    }
}

/// The decimal text of a natural number, without sign and without leading
/// zeros (except for zero itself).
pub open spec fn dec_text(n: nat) -> Seq<char>
    decreases n,
{
    if n < 10 {
        seq![dec_digit(n)]
    } else {
        dec_text(n / 10).push(dec_digit(n % 10))
    }
}

/// The decimal text of an integer: a minus sign for negative values, then the
/// digits of its magnitude.
pub open spec fn int_text(i: int) -> Seq<char> {
    if i < 0 {
        seq!['-'] + dec_text((-i) as nat)
    } else {
        dec_text(i as nat)
    }
}

/// How one character appears inside a JSON string literal: quotes and
/// backslashes are escaped, control characters take their short escape or a
/// `\u00..` escape, every other character stands as itself.
pub open spec fn escape_char(c: char) -> Seq<char> {
    if c == '"' {
        seq!['\\', '"']
    } else if c == '\\' {
        seq!['\\', '\\']
    } else if c == '\n' {
        seq!['\\', 'n']
    } else if c == '\r' {
        seq!['\\', 'r']
    } else if c == '\t' {
        seq!['\\', 't']
    } else if (c as u32) < 0x20 {
        seq!['\\', 'u', '0', '0', hex_digit((c as u32 / 16) as nat), hex_digit(
            (c as u32 % 16) as nat,
        )]
    } else {
        seq![c]
    }
}

/// The escaped form of the characters of `s` from position `i` on.
pub open spec fn escape_from(s: Seq<char>, i: int) -> Seq<char>
    decreases s.len() - i,
{
    if i < 0 || i >= s.len() {
        Seq::empty()
    } else {
        escape_char(s[i]) + escape_from(s, i + 1)
    }
}

/// A whole string escaped for use inside a JSON string literal.
pub open spec fn escape_text(s: Seq<char>) -> Seq<char> {
    escape_from(s, 0)
}

/// A JSON string literal: the escaped text between double quotes.
pub open spec fn str_text(s: Seq<char>) -> Seq<char> {
    seq!['"'] + escape_text(s) + seq!['"']
}

/// One object member: a string literal for the key, a colon, then the
/// member's value text.
pub open spec fn member_text(key: Seq<char>, val: Seq<char>) -> Seq<char> {
    str_text(key) + seq![':'] + val
}

/// The compact JSON text of a value: no spaces, members and elements in the
/// order the value holds them.
pub open spec fn json_text(v: JsonValue) -> Seq<char>
    decreases v, 1int,
{
    match v {
        JsonValue::Null => seq!['n', 'u', 'l', 'l'],
        JsonValue::Bool(b) => if b {
            seq!['t', 'r', 'u', 'e']
        } else {
            seq!['f', 'a', 'l', 's', 'e']
        },
        JsonValue::Int(i) => int_text(i as int),
        JsonValue::Str(s) => str_text(s@),
        JsonValue::Arr(es) => seq!['['] + elems_text_from(es@, 0) + seq![']'],
        JsonValue::Obj(fs) => obj_text(fs@),
    }
}

/// The elements of an array from position `i` on, comma-separated.
pub open spec fn elems_text_from(es: Seq<JsonValue>, i: int) -> Seq<char>
    decreases es, es.len() - i,
{
    if i < 0 || i >= es.len() {
        Seq::empty()
    } else {
        (if i == 0 {
            Seq::<char>::empty()
        } else {
            seq![',']
        }) + json_text(es[i]) + elems_text_from(es, i + 1)
    }
}

/// The members of an object from position `i` on, comma-separated.
pub open spec fn fields_text_from(fs: Seq<(String, JsonValue)>, i: int) -> Seq<char>
    decreases fs, fs.len() - i,
{
    if i < 0 || i >= fs.len() {
        Seq::empty()
    } else {
        (if i == 0 {
            Seq::<char>::empty()
        } else {
            seq![',']
        }) + member_text(fs[i].0@, json_text(fs[i].1)) + fields_text_from(fs, i + 1)
    }
}

/// The JSON text of an object with the given members.
pub open spec fn obj_text(fs: Seq<(String, JsonValue)>) -> Seq<char>
    decreases fs, fs.len() + 1,
{
    seq!['{'] + fields_text_from(fs, 0) + seq!['}']
}

fn dec_char(d: u64) -> (c: char)
    requires
        d < 10,
    ensures
        c == dec_digit(d as nat),
{
    if d == 0 {
        '0'
    } else if d == 1 {
        '1'
    } else if d == 2 {
        '2'
    } else if d == 3 {
        '3'
    } else if d == 4 {
        '4'
    } else if d == 5 {
        '5'
    } else if d == 6 {
        '6'
    } else if d == 7 {
        '7'
    } else if d == 8 {
        '8'
    } else {
        '9'
    }
}

fn hex_char(d: u32) -> (c: char)
    requires
        d < 16,
    ensures
        c == hex_digit(d as nat),
{
    if d < 10 {
        dec_char(d as u64)
    } else if d == 10 {
        'a'
    } else if d == 11 {
        'b'
    } else if d == 12 {
        'c'
    } else if d == 13 {
        'd'
    } else if d == 14 {
        'e'
    } else {
        'f'
    }
}

fn write_dec(n: u64, out: &mut Vec<char>)
    ensures
        final(out)@ == old(out)@ + dec_text(n as nat),
    decreases n,
{
    if n < 10 {
        out.push(dec_char(n));
        assert(out@ =~= old(out)@ + dec_text(n as nat));
    } else {
        write_dec(n / 10, out);
        out.push(dec_char(n % 10));
        assert(out@ =~= old(out)@ + dec_text(n as nat));
    }
}

fn write_int(n: i64, out: &mut Vec<char>)
    ensures
        final(out)@ == old(out)@ + int_text(n as int),
{
    if n < 0 {
        out.push('-');
        let m: u64 = if n == i64::MIN {
            9223372036854775808u64
        } else {
            (-n) as u64
        };
        assert(m as nat == (-(n as int)) as nat);
        write_dec(m, out);
        assert(out@ =~= old(out)@ + int_text(n as int));
    } else {
        write_dec(n as u64, out);
    }
}

fn write_escaped_char(c: char, out: &mut Vec<char>)
    ensures
        final(out)@ == old(out)@ + escape_char(c),
{
    if c == '"' {
        out.push('\\');
        out.push('"');
    } else if c == '\\' {
        out.push('\\');
        out.push('\\');
    } else if c == '\n' {
        out.push('\\');
        out.push('n');
    } else if c == '\r' {
        out.push('\\');
        out.push('r');
    } else if c == '\t' {
        out.push('\\');
        out.push('t');
    } else {
        let d: u32 = c as u32;
        if d < 0x20 {
            out.push('\\');
            out.push('u');
            out.push('0');
            out.push('0');
            out.push(hex_char(d / 16));
            out.push(hex_char(d % 16));
        } else {
            out.push(c);
        }
    }
    assert(out@ =~= old(out)@ + escape_char(c));
}

pub(crate) fn write_str_text(s: &str, out: &mut Vec<char>)
    ensures
        final(out)@ == old(out)@ + str_text(s@),
{
    let ghost out0 = out@;
    out.push('"');
    let n: usize = s.unicode_len();
    let mut i: usize = 0;
    while i < n
        invariant
            n == s@.len(),
            i <= n,
            out@ + escape_from(s@, i as int) == out0 + seq!['"'] + escape_from(s@, 0),
        decreases n - i,
    {
        let ghost before = out@;
        let c = s.get_char(i);
        write_escaped_char(c, out);
        proof {
            assert(escape_from(s@, i as int) == escape_char(s@[i as int]) + escape_from(
                s@,
                i as int + 1,
            ));
            assert(out@ + escape_from(s@, i as int + 1) =~= before + escape_from(s@, i as int));
        }
        i += 1;
    }
    out.push('"');
    assert(escape_from(s@, n as int) == Seq::<char>::empty());
    assert(out@ =~= out0 + str_text(s@));
}

pub(crate) fn write_json(v: &JsonValue, out: &mut Vec<char>)
    ensures
        final(out)@ == old(out)@ + json_text(*v),
    decreases *v, 1int,
{
    match v {
        JsonValue::Null => {
            out.push('n');
            out.push('u');
            out.push('l');
            out.push('l');
            assert(out@ =~= old(out)@ + json_text(*v));
        },
        JsonValue::Bool(b) => {
            if *b {
                out.push('t');
                out.push('r');
                out.push('u');
                out.push('e');
            } else {
                out.push('f');
                out.push('a');
                out.push('l');
                out.push('s');
                out.push('e');
            }
            assert(out@ =~= old(out)@ + json_text(*v));
        },
        JsonValue::Int(i) => {
            write_int(*i, out);
        },
        JsonValue::Str(s) => {
            write_str_text(s.as_str(), out);
        },
        JsonValue::Arr(es) => {
            out.push('[');
            write_elems(es, 0, out);
            out.push(']');
            assert(out@ =~= old(out)@ + json_text(*v));
        },
        JsonValue::Obj(fs) => {
            write_obj(fs, out);
        },
    }
}

fn write_elems(es: &Vec<JsonValue>, i: usize, out: &mut Vec<char>)
    requires
        i <= es@.len(),
    ensures
        final(out)@ == old(out)@ + elems_text_from(es@, i as int),
    decreases es@, es@.len() - i,
{
    if i == es.len() {
        assert(out@ =~= old(out)@ + elems_text_from(es@, i as int));
    } else {
        let ghost before = out@;
        if i > 0 {
            out.push(',');
        }
        write_json(&es[i], out);
        write_elems(es, i + 1, out);
        assert(out@ =~= before + elems_text_from(es@, i as int));
    }
}

fn write_fields(fs: &Vec<(String, JsonValue)>, i: usize, out: &mut Vec<char>)
    requires
        i <= fs@.len(),
    ensures
        final(out)@ == old(out)@ + fields_text_from(fs@, i as int),
    decreases fs@, fs@.len() - i,
{
    if i == fs.len() {
        assert(out@ =~= old(out)@ + fields_text_from(fs@, i as int));
    } else {
        let ghost before = out@;
        if i > 0 {
            out.push(',');
        }
        write_str_text(fs[i].0.as_str(), out);
        out.push(':');
        write_json(&fs[i].1, out);
        write_fields(fs, i + 1, out);
        assert(out@ =~= before + fields_text_from(fs@, i as int));
    }
}

pub(crate) fn write_obj(fs: &Vec<(String, JsonValue)>, out: &mut Vec<char>)
    ensures
        final(out)@ == old(out)@ + obj_text(fs@),
    decreases fs@, fs@.len() + 1,
{
    out.push('{');
    write_fields(fs, 0, out);
    out.push('}');
    assert(out@ =~= old(out)@ + obj_text(fs@));
}

/// Relies on `String: FromIterator<char>`: collecting characters builds the
/// string holding exactly those characters in order.
#[verifier::external_body]
pub(crate) fn string_from_chars(cs: &Vec<char>) -> (r: String)
    ensures
        r@ == cs@,
{
    cs.iter().collect()
}

/// The compact JSON text of a value, as [`json_text`] describes it.
pub fn to_json_string(v: &JsonValue) -> (r: String)
    ensures
        r@ == json_text(*v),
{
    let mut out: Vec<char> = Vec::new();
    write_json(v, &mut out);
    string_from_chars(&out)
}

} // verus!
