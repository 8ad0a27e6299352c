//! The JSON wire form of the outbound envelope.
//!
//! The envelope grammar is fixed: five fields in a fixed order, with string
//! values escaped as JSON requires (quote, backslash, and control characters)
//! and the duplicate-suppression window printed in decimal. The spec
//! functions here define that wire form character by character, and the
//! executable functions are proved to produce exactly it.

use vstd::prelude::*;
use vstd::string::*;

use crate::message::{WecomAppMsgReq, WecomAppMsgReqView};

verus! {

/// Relies on `String::push`: appends the given character to the end of the
/// string.
pub assume_specification[ String::push ](s: &mut String, ch: char)
    ensures
        final(s)@ == old(s)@.push(ch),
;

/// The lower-case hexadecimal digit for a value below sixteen.
pub open spec fn spec_hex_digit(n: int) -> char {
    if n == 0 {
        '0'
    } else if n == 1 {
        '1'
    } else if n == 2 {
        '2'
    } else if n == 3 {
        '3'
    } else if n == 4 {
        '4'
    } else if n == 5 {
        '5'
    } else if n == 6 {
        '6'
    } else if n == 7 {
        '7'
    } else if n == 8 {
        '8'
    } else if n == 9 {
        '9'
    } else if n == 10 {
        'a'
    } else if n == 11 {
        'b'
    } else if n == 12 {
        'c'
    } else if n == 13 {
        'd'
    } else if n == 14 {
        'e'
    } else {
        'f'
    }
}

fn hex_digit(n: u8) -> (c: char)
    requires
        n < 16,
    ensures
        c == spec_hex_digit(n as int),
{
    if n == 0 {
        '0'
    } else if n == 1 {
        '1'
    } else if n == 2 {
        '2'
    } else if n == 3 {
        '3'
    } else if n == 4 {
        '4'
    } else if n == 5 {
        '5'
    } else if n == 6 {
        '6'
    } else if n == 7 {
        '7'
    } else if n == 8 {
        '8'
    } else if n == 9 {
        '9'
    } else if n == 10 {
        'a'
    } else if n == 11 {
        'b'
    } else if n == 12 {
        'c'
    } else if n == 13 {
        'd'
    } else if n == 14 {
        'e'
    } else {
        'f'
    }
}

/// How one character appears inside a JSON string literal: quote and
/// backslash get a backslash escape, the named control characters get their
/// short escapes, every other control character a `\u00..` escape, and every
/// remaining character stands for itself.
pub open spec fn spec_escape_char(c: char) -> Seq<char> {
    if c == '"' {
        seq!['\\', '"']
    } else if c == '\\' {
        seq!['\\', '\\']
    } else if c == '\u{08}' {
        seq!['\\', 'b']
    } else if c == '\u{0C}' {
        seq!['\\', 'f']
    } else if c == '\n' {
        seq!['\\', 'n']
    } else if c == '\r' {
        seq!['\\', 'r']
    } else if c == '\t' {
        seq!['\\', 't']
    } else if (c as u32) < 32 {
        seq![
            '\\',
            'u',
            '0',
            '0',
            spec_hex_digit((c as u32 / 16) as int),
            spec_hex_digit((c as u32 % 16) as int),
        ]
    } else {
        seq![c]
    }
}

/// A whole character sequence escaped for a JSON string literal.
pub open spec fn spec_escape(s: Seq<char>) -> Seq<char>
    decreases s.len(),
{
    if s.len() == 0 {
        Seq::<char>::empty()
    } else {
        spec_escape(s.drop_last()) + spec_escape_char(s.last())
    }
}

fn append_escaped_char(out: &mut String, c: char)
    ensures
        final(out)@ == old(out)@ + spec_escape_char(c),
{
    if c == '"' {
        out.push('\\');
        out.push('"');
        assert(out@ =~= old(out)@ + spec_escape_char(c));
    } else if c == '\\' {
        out.push('\\');
        out.push('\\');
        assert(out@ =~= old(out)@ + spec_escape_char(c));
    } else if c == '\u{08}' {
        out.push('\\');
        out.push('b');
        assert(out@ =~= old(out)@ + spec_escape_char(c));
    } else if c == '\u{0C}' {
        out.push('\\');
        out.push('f');
        assert(out@ =~= old(out)@ + spec_escape_char(c));
    } else if c == '\n' {
        out.push('\\');
        out.push('n');
        assert(out@ =~= old(out)@ + spec_escape_char(c));
    } else if c == '\r' {
        out.push('\\');
        out.push('r');
        assert(out@ =~= old(out)@ + spec_escape_char(c));
    } else if c == '\t' {
        out.push('\\');
        out.push('t');
        assert(out@ =~= old(out)@ + spec_escape_char(c));
    } else {
        let code: u32 = c as u32;
        if code < 32 {
            out.push('\\');
            out.push('u');
            out.push('0');
            out.push('0');
            out.push(hex_digit((code / 16) as u8));
            out.push(hex_digit((code % 16) as u8));
            assert(out@ =~= old(out)@ + spec_escape_char(c));
        } else {
            out.push(c);
            assert(out@ =~= old(out)@ + spec_escape_char(c));
        }
    }
}

fn append_escaped(out: &mut String, s: &str)
    ensures
        final(out)@ == old(out)@ + spec_escape(s@),
{
    let n = s.unicode_len();
    let mut i: usize = 0;
    assert(out@ =~= old(out)@ + spec_escape(s@.take(0)));
    while i < n
        invariant
            n == s@.len(),
            i <= n,
            out@ == old(out)@ + spec_escape(s@.take(i as int)),
        decreases n - i,
    {
        let c = s.get_char(i);
        append_escaped_char(out, c);
        proof {
            assert(s@.take(i + 1).drop_last() =~= s@.take(i as int));
            assert(s@.take(i + 1).last() == c);
            assert((old(out)@ + spec_escape(s@.take(i as int))) + spec_escape_char(c) =~= old(
                out,
            )@ + spec_escape(s@.take(i + 1)));
        }
        i = i + 1;
    }
    assert(s@.take(n as int) =~= s@);
}

/// The decimal digits of a number, most significant first.
pub open spec fn spec_u64_digits(n: u64) -> Seq<char>
    decreases n,
{
    if n < 10 {
        seq![spec_hex_digit(n as int)]
    } else {
        spec_u64_digits(n / 10).push(spec_hex_digit((n % 10) as int))
    }
}

fn append_u64(out: &mut String, n: u64)
    ensures
        final(out)@ == old(out)@ + spec_u64_digits(n),
    decreases n,
{
    if n >= 10 {
        append_u64(out, n / 10);
        let d = hex_digit((n % 10) as u8);
        out.push(d);
        assert(out@ =~= old(out)@ + spec_u64_digits(n));
    } else {
        let d = hex_digit(n as u8);
        out.push(d);
        assert(out@ =~= old(out)@ + spec_u64_digits(n));
    }
}

/// The JSON wire form of an envelope: an object with the five fields
/// `touser`, `agentid`, `msgtype`, `duplicate_check_interval` and
/// `text.content`, in that order, string values escaped and the window
/// printed in decimal.
pub open spec fn spec_envelope_json(e: WecomAppMsgReqView) -> Seq<char> {
    "{\"touser\":\""@ + spec_escape(e.touser) + "\",\"agentid\":\""@ + spec_escape(e.agentid)
        + "\",\"msgtype\":\""@ + spec_escape(e.msgtype) + "\",\"duplicate_check_interval\":"@
        + spec_u64_digits(e.duplicate_check_interval) + ",\"text\":{\"content\":\""@ + spec_escape(
        e.text.content,
    ) + "\"}}"@
}

/// Serializes an envelope to its JSON wire form.
pub fn envelope_json(req: &WecomAppMsgReq) -> (r: String)
    ensures
        r@ == spec_envelope_json(req@),
{
    let mut out = String::from_str("{\"touser\":\"");
    append_escaped(&mut out, req.touser.as_str());
    out.append("\",\"agentid\":\"");
    append_escaped(&mut out, req.agentid.as_str());
    out.append("\",\"msgtype\":\"");
    append_escaped(&mut out, req.msgtype.as_str());
    out.append("\",\"duplicate_check_interval\":");
    append_u64(&mut out, req.duplicate_check_interval);
    out.append(",\"text\":{\"content\":\"");
    append_escaped(&mut out, req.text.content.as_str());
    out.append("\"}}");
    assert(out@ =~= spec_envelope_json(req@));
    out
}

} // verus!
