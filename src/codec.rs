use std::io::Write;
use vstd::prelude::*;

use crate::model::{ErrorData, StatusEvent, TrackData};

verus! {

/// The character of a hexadecimal digit, lower case.
pub open spec fn hex_char(d: nat) -> char {
    if d < 10 {
        digit_char(d)
    } else if d == 10 { 'a' }
    else if d == 11 { 'b' }
    else if d == 12 { 'c' }
    else if d == 13 { 'd' }
    else if d == 14 { 'e' }
    else { 'f' }
}

/// How one character stands inside a JSON string: quote and backslash are
/// escaped, control characters get their short escape or `\u00xx`, every
/// other character stands for itself.
pub open spec fn escape_char(c: char) -> Seq<char> {
    if c == '"' {
        seq!['\\', '"']
    } else if c == '\\' {
        seq!['\\', '\\']
    } else if c == '\u{8}' {
        seq!['\\', 'b']
    } else if c == '\t' {
        seq!['\\', 't']
    } else if c == '\n' {
        seq!['\\', 'n']
    } else if c == '\u{c}' {
        seq!['\\', 'f']
    } else if c == '\r' {
        seq!['\\', 'r']
    } else if (c as u32) < 0x20 {
        seq!['\\', 'u', '0', '0', hex_char((c as u32 / 16) as nat), hex_char((c as u32 % 16) as nat)]
    } else {
        seq![c]
    }
}

pub open spec fn escape_chars(s: Seq<char>) -> Seq<char>
    decreases s.len(),
{
    if s.len() == 0 {
        Seq::empty()
    } else {
        escape_chars(s.drop_last()) + escape_char(s.last())
    }
}

/// The JSON string literal of a text: quoted, each character escaped.
pub open spec fn json_string_of(s: Seq<char>) -> Seq<char> {
    seq!['"'] + escape_chars(s) + seq!['"']
}

/// The gzip stream that flate2 writes, at the default level, for the UTF-8
/// bytes of a text.
pub uninterp spec fn gzip_of(text: Seq<char>) -> Seq<u8>;

/// Relies on `serde_json::to_string` on a `str`: it writes the JSON string
/// literal of `s` into a `Vec`, which cannot fail, escaping by serde_json's
/// table (`"`, `\`, the short control escapes, else `\u00xx` below 0x20).
#[verifier::external_body]
fn json_quote(s: &str) -> (r: String)
    ensures
        r@ == json_string_of(s@),
{
    serde_json::to_string(s).unwrap_or_default()
}

/// Relies on `flate2::write::GzEncoder` (default compression, writing into a
/// `Vec`, which cannot fail): `write_all` of the text's bytes, then `finish`,
/// gives the gzip stream.
#[verifier::external_body]
fn gzip_text(text: &str) -> (r: Result<Vec<u8>, String>)
    ensures
        r is Ok,
        r is Ok ==> r->Ok_0@ == gzip_of(text@),
{
    let mut encoder = flate2::write::GzEncoder::new(Vec::new(), flate2::Compression::default());
    match encoder.write_all(text.as_bytes()) {
        Ok(()) => {},
        Err(e) => return Err(e.to_string()),
    }
    encoder.finish().map_err(|e| e.to_string())
}

/// The character of a decimal digit.
pub open spec fn digit_char(d: nat) -> char {
    if d == 0 { '0' }
    else if d == 1 { '1' }
    else if d == 2 { '2' }
    else if d == 3 { '3' }
    else if d == 4 { '4' }
    else if d == 5 { '5' }
    else if d == 6 { '6' }
    else if d == 7 { '7' }
    else if d == 8 { '8' }
    else { '9' }
}

/// Decimal notation of a natural number, without leading zeros.
pub open spec fn decimal_nat(n: nat) -> Seq<char>
    decreases n,
{
    if n < 10 {
        seq![digit_char(n)]
    } else {
        decimal_nat(n / 10).push(digit_char(n % 10))
    }
}

/// Decimal notation of an integer, with a leading minus sign when negative.
pub open spec fn decimal_int(v: int) -> Seq<char> {
    if v < 0 {
        seq!['-'] + decimal_nat((-v) as nat)
    } else {
        decimal_nat(v as nat)
    }
}

pub open spec fn json_bool(b: bool) -> Seq<char> {
    if b { "true"@ } else { "false"@ }
}

/// `,"key":"value"` for a present optional string, nothing for an absent one.
/// `key` holds the quoted name and the colon.
pub open spec fn opt_member(key: Seq<char>, v: Option<String>) -> Seq<char> {
    match v {
        Some(x) => ","@ + key + json_string_of(x@),
        None => Seq::empty(),
    }
}

pub open spec fn error_json(d: ErrorData) -> Seq<char> {
    match (d.code, d.message) {
        (Some(c), Some(m)) => "{\"code\":"@ + json_string_of(c@) + ",\"message\":"@
            + json_string_of(m@) + "}"@,
        (Some(c), None) => "{\"code\":"@ + json_string_of(c@) + "}"@,
        (None, Some(m)) => "{\"message\":"@ + json_string_of(m@) + "}"@,
        (None, None) => "{}"@,
    }
}

pub open spec fn track_json(t: TrackData) -> Seq<char> {
    match t.priority {
        Some(p) => "{\"priority\":"@ + decimal_int(p as int) + ",\"is_system\":"@ + json_bool(
            t.is_system,
        ) + "}"@,
        None => "{\"is_system\":"@ + json_bool(t.is_system) + "}"@,
    }
}

pub open spec fn error_member(e: Option<ErrorData>) -> Seq<char> {
    match e {
        Some(d) => ",\"error\":"@ + error_json(d),
        None => Seq::empty(),
    }
}

pub open spec fn track_member(t: Option<TrackData>) -> Seq<char> {
    match t {
        Some(td) => ",\"trackData\":"@ + track_json(td),
        None => Seq::empty(),
    }
}

/// The JSON object of an event: fields in declaration order, absent optional
/// fields left out.
pub open spec fn event_json(e: StatusEvent) -> Seq<char> {
    "{\"state\":"@ + json_string_of(e.state@) + error_member(e.error) + track_member(e.track_data)
        + ",\"updatedAt\":"@ + json_string_of(e.updated_at@) + ",\"txId\":"@ + json_string_of(
        e.tx_id@,
    ) + opt_member("\"email\":"@, e.email) + opt_member("\"channel_id\":"@, e.channel_id)
        + opt_member("\"channel\":"@, e.channel) + "}"@
}

fn digit_str(d: u64) -> (r: &'static str)
    requires
        d < 10,
    ensures
        r@ == seq![digit_char(d as nat)],
{
    proof {
        reveal_strlit("0");
        reveal_strlit("1");
        reveal_strlit("2");
        reveal_strlit("3");
        reveal_strlit("4");
        reveal_strlit("5");
        reveal_strlit("6");
        reveal_strlit("7");
        reveal_strlit("8");
        reveal_strlit("9");
    }
    match d {
        0 => "0",
        1 => "1",
        2 => "2",
        3 => "3",
        4 => "4",
        5 => "5",
        6 => "6",
        7 => "7",
        8 => "8",
        _ => "9",
    }
}

/// Appends the decimal notation of `n`.
pub fn append_decimal(out: &mut String, n: u64)
    ensures
        final(out)@ == old(out)@ + decimal_nat(n as nat),
    decreases n,
{
    if n >= 10 {
        append_decimal(out, n / 10);
    }
    out.append(digit_str(n % 10));
    assert(out@ =~= old(out)@ + decimal_nat(n as nat));
}

/// Appends the decimal notation of a signed 32-bit integer.
pub fn append_i32(out: &mut String, v: i32)
    ensures
        final(out)@ == old(out)@ + decimal_int(v as int),
{
    if v < 0 {
        out.append("-");
        let m: u64 = (-(v as i64)) as u64;
        append_decimal(out, m);
        proof {
            reveal_strlit("-");
            assert(out@ =~= old(out)@ + decimal_int(v as int));
        }
    } else {
        append_decimal(out, v as u64);
    }
}

/// Appends the JSON string literal of `s`.
pub(crate) fn append_quoted(out: &mut String, s: &str)
    ensures
        final(out)@ == old(out)@ + json_string_of(s@),
{
    let q = json_quote(s);
    out.append(q.as_str());
}

fn append_opt_member(out: &mut String, key: &str, v: &Option<String>)
    ensures
        final(out)@ == old(out)@ + opt_member(key@, *v),
{
    match v {
        Some(x) => {
            out.append(",");
            out.append(key);
            append_quoted(out, x.as_str());
            proof {
                reveal_strlit(",");
            }
            assert(out@ =~= old(out)@ + opt_member(key@, *v));
        },
        None => {
            assert(out@ =~= old(out)@ + opt_member(key@, *v));
        },
    }
}

fn append_error_member(out: &mut String, e: &Option<ErrorData>)
    ensures
        final(out)@ == old(out)@ + error_member(*e),
{
    match e {
        None => {
            assert(out@ =~= old(out)@ + error_member(*e));
        },
        Some(d) => {
            out.append(",\"error\":");
            match (&d.code, &d.message) {
                (Some(c), Some(m)) => {
                    out.append("{\"code\":");
                    append_quoted(out, c.as_str());
                    out.append(",\"message\":");
                    append_quoted(out, m.as_str());
                },
                (Some(c), None) => {
                    out.append("{\"code\":");
                    append_quoted(out, c.as_str());
                },
                (None, Some(m)) => {
                    out.append("{\"message\":");
                    append_quoted(out, m.as_str());
                },
                (None, None) => {
                    out.append("{");
                },
            }
            out.append("}");
            proof {
                reveal_strlit("{");
                reveal_strlit("}");
                reveal_strlit("{}");
            }
            assert(out@ =~= old(out)@ + error_member(*e));
        },
    }
}

fn append_track_member(out: &mut String, t: &Option<TrackData>)
    ensures
        final(out)@ == old(out)@ + track_member(*t),
{
    match t {
        None => {
            assert(out@ =~= old(out)@ + track_member(*t));
        },
        Some(td) => {
            out.append(",\"trackData\":");
            match td.priority {
                Some(p) => {
                    out.append("{\"priority\":");
                    append_i32(out, p);
                    out.append(",\"is_system\":");
                },
                None => {
                    out.append("{\"is_system\":");
                },
            }
            if td.is_system {
                out.append("true");
            } else {
                out.append("false");
            }
            out.append("}");
            assert(out@ =~= old(out)@ + track_member(*t));
        },
    }
}

/// Serializes an event to its JSON text.
pub fn serialize_event(e: &StatusEvent) -> (r: String)
    ensures
        r@ == event_json(*e),
{
    let mut out = "{\"state\":".to_owned();
    append_quoted(&mut out, e.state.as_str());
    append_error_member(&mut out, &e.error);
    append_track_member(&mut out, &e.track_data);
    out.append(",\"updatedAt\":");
    append_quoted(&mut out, e.updated_at.as_str());
    out.append(",\"txId\":");
    append_quoted(&mut out, e.tx_id.as_str());
    append_opt_member(&mut out, "\"email\":", &e.email);
    append_opt_member(&mut out, "\"channel_id\":", &e.channel_id);
    append_opt_member(&mut out, "\"channel\":", &e.channel);
    out.append("}");
    out
}

/// Compresses a text with gzip. Into memory the stream cannot fail, so the
/// result is always the compressed text.
pub fn compress_message(text: &str) -> (r: Result<Vec<u8>, String>)
    ensures
        r is Ok,
        r is Ok ==> r->Ok_0@ == gzip_of(text@),
{
    gzip_text(text)
}

} // verus!
