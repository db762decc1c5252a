//! The pieces of the JSON text that commands are sent as.
use vstd::prelude::*;
use crate::text::{decimal_of, push_decimal};

verus! {

/// A lower-case hex digit.
pub open spec fn hex_digit(d: nat) -> char
    recommends
        d < 16,
{
    seq!['0', '1', '2', '3', '4', '5', '6', '7', '8', '9', 'a', 'b', 'c', 'd', 'e', 'f'][d as int]
}

/// How one character is written inside a JSON string: `"` and `\` behind a
/// backslash, short escapes for backspace, tab, line feed, form feed and
/// carriage return, `\u00XX` for the other control characters, and every
/// other character as it is.
pub open spec fn escaped(c: char) -> Seq<char> {
    if c == '"' {
        seq!['\\', '"']
    } else if c == '\\' {
        seq!['\\', '\\']
    } else if c == '\u{8}' {
        seq!['\\', 'b']
    } else if c == '\t' {
        seq!['\\', 't']
    } else if c == '\n' {
        seq!['\\', 'n']
    } else if c == '\u{c}' {
        seq!['\\', 'f']
    } else if c == '\r' {
        seq!['\\', 'r']
    } else if (c as u32) < 0x20 {
        seq!['\\', 'u', '0', '0', hex_digit((c as u32 / 16) as nat), hex_digit((c as u32 % 16) as nat)]
    } else {
        seq![c]
    }
}

/// The characters of a text as written inside a JSON string.
pub open spec fn escaped_all(s: Seq<char>) -> Seq<char>
    decreases s.len(),
{
    if s.len() == 0 {
        Seq::empty()
    } else {
        escaped_all(s.drop_last()) + escaped(s.last())
    }
}

/// The JSON string literal of a text: quoted, with the characters that JSON
/// does not allow in a string escaped.
pub open spec fn json_quoted(s: Seq<char>) -> Seq<char> {
    seq!['"'] + escaped_all(s) + seq!['"']
}

/// Relies on `serde_json::to_string` on a `str` (its `format_escaped_str`
/// and escape table): the JSON string literal of the text. Writing a string into memory cannot fail, so the `Err` arm
/// is never taken.
#[verifier::external_body]
fn quote_json(s: &str) -> (r: String)
    ensures
        r@ == json_quoted(s@),
{
    serde_json::to_string(s).unwrap_or_default()
}

/// The last `n` hex digits of a number, most significant first.
pub open spec fn hex_digits(v: nat, n: nat) -> Seq<char>
    decreases n,
{
    if n == 0 {
        Seq::empty()
    } else {
        hex_digits(v / 16, (n - 1) as nat).push(hex_digit(v % 16))
    }
}

/// The text of a UUID in its hyphenated form: the 32 lower-case hex digits
/// of its value, most significant first, grouped 8-4-4-4-12.
pub open spec fn uuid_text(v: u128) -> Seq<char> {
    let d = hex_digits(v as nat, 32);
    d.subrange(0, 8) + seq!['-'] + d.subrange(8, 12) + seq!['-'] + d.subrange(12, 16) + seq!['-']
        + d.subrange(16, 20) + seq!['-'] + d.subrange(20, 32)
}

/// Relies on `uuid::Uuid::from_u128` (the value's big-endian bytes) and the
/// `Display` of `uuid::Uuid` (lower-case hyphenated hex): the text of the
/// UUID with that value.
#[verifier::external_body]
pub(crate) fn format_uuid(v: u128) -> (r: String)
    ensures
        r@ == uuid_text(v),
{
    uuid::Uuid::from_u128(v).to_string()
}

/// JSON's `null`.
pub open spec fn null_text() -> Seq<char> {
    "null"@
}

/// A JSON boolean.
pub open spec fn bool_text(b: bool) -> Seq<char> {
    if b {
        "true"@
    } else {
        "false"@
    }
}

/// An optional text: its JSON string literal, or `null`.
pub open spec fn opt_str_text(o: Option<String>) -> Seq<char> {
    match o {
        Some(s) => json_quoted(s@),
        None => null_text(),
    }
}

/// An optional integer: its decimal form, or `null`.
pub open spec fn opt_int_text(o: Option<usize>) -> Seq<char> {
    match o {
        Some(n) => decimal_of(n as int),
        None => null_text(),
    }
}

/// An optional boolean: `true`, `false` or `null`.
pub open spec fn opt_bool_text(o: Option<bool>) -> Seq<char> {
    match o {
        Some(b) => bool_text(b),
        None => null_text(),
    }
}

/// The elements of a JSON array of integers, separated by commas.
pub open spec fn ids_body(v: Seq<usize>) -> Seq<char>
    decreases v.len(),
{
    if v.len() == 0 {
        Seq::empty()
    } else if v.len() == 1 {
        decimal_of(v[0] as int)
    } else {
        ids_body(v.drop_last()) + ","@ + decimal_of(v.last() as int)
    }
}

/// A JSON array of integers.
pub open spec fn ids_text(v: Seq<usize>) -> Seq<char> {
    "["@ + ids_body(v) + "]"@
}

/// An optional JSON array of integers, or `null`.
pub open spec fn opt_ids_text(o: Option<Vec<usize>>) -> Seq<char> {
    match o {
        Some(v) => ids_text(v@),
        None => null_text(),
    }
}

/// The members of a JSON object from integer keys to integers.
pub open spec fn pairs_body(v: Seq<(usize, usize)>) -> Seq<char>
    decreases v.len(),
{
    if v.len() == 0 {
        Seq::empty()
    } else if v.len() == 1 {
        "\""@ + decimal_of(v[0].0 as int) + "\":"@ + decimal_of(v[0].1 as int)
    } else {
        pairs_body(v.drop_last()) + ",\""@ + decimal_of(v.last().0 as int) + "\":"@ + decimal_of(
            v.last().1 as int,
        )
    }
}

/// A JSON object from integer keys (written as strings) to integers.
pub open spec fn pairs_text(v: Seq<(usize, usize)>) -> Seq<char> {
    "{"@ + pairs_body(v) + "}"@
}

/// Appends a text as a JSON string literal.
pub fn push_str(out: &mut String, s: &str)
    ensures
        final(out)@ == old(out)@ + json_quoted(s@),
{
    let q = quote_json(s);
    out.append(q.as_str());
}

/// A UUID as a JSON string.
pub open spec fn uuid_json(v: u128) -> Seq<char> {
    "\""@ + uuid_text(v) + "\""@
}

/// Appends a UUID as a JSON string.
pub fn push_uuid(out: &mut String, v: u128)
    ensures
        final(out)@ == old(out)@ + uuid_json(v),
{
    let ghost start = out@;
    let t = format_uuid(v);
    out.append("\"");
    out.append(t.as_str());
    out.append("\"");
    assert(out@ =~= start + uuid_json(v));
}

/// Appends an integer.
pub fn push_int(out: &mut String, n: i128)
    ensures
        final(out)@ == old(out)@ + decimal_of(n as int),
{
    push_decimal(out, n);
}

/// Appends a boolean.
pub fn push_bool(out: &mut String, b: bool)
    ensures
        final(out)@ == old(out)@ + bool_text(b),
{
    if b {
        out.append("true");
    } else {
        out.append("false");
    }
}

/// Appends an optional text.
pub fn push_opt_str(out: &mut String, o: &Option<String>)
    ensures
        final(out)@ == old(out)@ + opt_str_text(*o),
{
    match o {
        Some(s) => push_str(out, s.as_str()),
        None => out.append("null"),
    }
}

/// Appends an optional integer.
pub fn push_opt_int(out: &mut String, o: Option<usize>)
    ensures
        final(out)@ == old(out)@ + opt_int_text(o),
{
    match o {
        Some(n) => push_decimal(out, n as i128),
        None => out.append("null"),
    }
}

/// Appends an optional boolean.
pub fn push_opt_bool(out: &mut String, o: Option<bool>)
    ensures
        final(out)@ == old(out)@ + opt_bool_text(o),
{
    match o {
        Some(b) => push_bool(out, b),
        None => out.append("null"),
    }
}

/// Appends a JSON array of integers.
pub fn push_ids(out: &mut String, v: &Vec<usize>)
    ensures
        final(out)@ == old(out)@ + ids_text(v@),
{
    let ghost start = out@;
    out.append("[");
    let mut i: usize = 0;
    while i < v.len()
        invariant
            i <= v.len(),
            out@ == start + "["@ + ids_body(v@.take(i as int)),
        decreases v.len() - i,
    {
        let ghost before = out@;
        if i > 0 {
            out.append(",");
        }
        push_decimal(out, v[i] as i128);
        proof {
            let t = v@.take(i as int + 1);
            assert(t.drop_last() =~= v@.take(i as int));
            assert(t.last() == v@[i as int]);
            if i == 0 {
                assert(ids_body(v@.take(0)) =~= Seq::<char>::empty());
                assert(out@ =~= start + "["@ + ids_body(t));
            } else {
                assert(out@ =~= start + "["@ + ids_body(t));
            }
        }
        i = i + 1;
    }
    assert(v@.take(v@.len() as int) =~= v@);
    out.append("]");
    assert(out@ =~= start + ids_text(v@));
}

/// Appends an optional JSON array of integers.
pub fn push_opt_ids(out: &mut String, o: &Option<Vec<usize>>)
    ensures
        final(out)@ == old(out)@ + opt_ids_text(*o),
{
    match o {
        Some(v) => push_ids(out, v),
        None => out.append("null"),
    }
}

/// Appends a JSON object from integer keys to integers.
pub fn push_pairs(out: &mut String, v: &Vec<(usize, usize)>)
    ensures
        final(out)@ == old(out)@ + pairs_text(v@),
{
    let ghost start = out@;
    out.append("{");
    let mut i: usize = 0;
    while i < v.len()
        invariant
            i <= v.len(),
            out@ == start + "{"@ + pairs_body(v@.take(i as int)),
        decreases v.len() - i,
    {
        let (k, x) = v[i];
        if i > 0 {
            out.append(",\"");
        } else {
            out.append("\"");
        }
        push_decimal(out, k as i128);
        out.append("\":");
        push_decimal(out, x as i128);
        proof {
            let t = v@.take(i as int + 1);
            assert(t.drop_last() =~= v@.take(i as int));
            assert(t.last() == v@[i as int]);
            if i == 0 {
                assert(pairs_body(v@.take(0)) =~= Seq::<char>::empty());
            }
            assert(out@ =~= start + "{"@ + pairs_body(t));
        }
        i = i + 1;
    }
    assert(v@.take(v@.len() as int) =~= v@);
    out.append("}");
    assert(out@ =~= start + pairs_text(v@));
}

} // verus!
