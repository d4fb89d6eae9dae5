//! The wire contract with the external pub/sub system: every canonical event
//! is published as one JSON object with a fixed discriminator field and fixed
//! field names. Downstream consumers depend on this shape, so the encoding is
//! specified character by character and the encoder is proved against it.

use vstd::prelude::*;
use vstd::string::StrSliceExecFns;
use vstd::string::StringExecFns;
use crate::event::PostEvent;

verus! {

/// The hexadecimal digit character for a value below sixteen.
pub open spec fn spec_hex_digit(n: int) -> char {
    if n == 0 { '0' }
    else if n == 1 { '1' }
    else if n == 2 { '2' }
    else if n == 3 { '3' }
    else if n == 4 { '4' }
    else if n == 5 { '5' }
    else if n == 6 { '6' }
    else if n == 7 { '7' }
    else if n == 8 { '8' }
    else if n == 9 { '9' }
    else if n == 10 { 'a' }
    else if n == 11 { 'b' }
    else if n == 12 { 'c' }
    else if n == 13 { 'd' }
    else if n == 14 { 'e' }
    else if n == 15 { 'f' }
    else { '0' }
}

/// How one character appears inside a JSON string literal: quote and
/// backslash get a backslash escape, the common control characters get their
/// short escapes, any other control character gets a four-digit unicode
/// escape, and everything else stands for itself.
pub open spec fn spec_escape_char(c: char) -> Seq<char> {
    if c == '"' { seq!['\\', '"'] }
    else if c == '\\' { seq!['\\', '\\'] }
    else if c == '\n' { seq!['\\', 'n'] }
    else if c == '\r' { seq!['\\', 'r'] }
    else if c == '\t' { seq!['\\', 't'] }
    else if (c as u32) < 0x20 {
        seq!['\\', 'u', '0', '0',
            spec_hex_digit(((c as u32) >> 4) as int),
            spec_hex_digit(((c as u32) & 0xf) as int)]
    } else {
        seq![c]
    }
}

/// A whole string as it appears inside a JSON string literal.
pub open spec fn spec_escape(s: Seq<char>) -> Seq<char>
    decreases s.len(),
{
    if s.len() == 0 {
        Seq::empty()
    } else {
        spec_escape(s.drop_last()) + spec_escape_char(s.last())
    }
}

/// The exact topic message published for one event: a JSON object with the
/// fixed discriminator `"type": "post"` and the event's three fields under
/// the fixed names `did`, `text` and `timestamp`.
pub open spec fn spec_topic_message(e: PostEvent) -> Seq<char> {
    "{\"type\":\"post\",\"did\":\""@ + spec_escape(e.author_id@)
        + "\",\"text\":\""@ + spec_escape(e.text@)
        + "\",\"timestamp\":\""@ + spec_escape(e.created_at@)
        + "\"}"@
}

/// Relies on `String::push`: appends the given character to the end of the
/// string.
#[verifier::external_body]
fn push_char(s: &mut String, c: char)
    ensures
        final(s)@ == old(s)@.push(c),
{
    s.push(c);
}

/// The hexadecimal digit character for a value below sixteen.
fn hex_digit(n: u32) -> (c: char)
    requires
        n < 16,
    ensures
        c == spec_hex_digit(n as int),
{
    match n {
        0 => '0',
        1 => '1',
        2 => '2',
        3 => '3',
        4 => '4',
        5 => '5',
        6 => '6',
        7 => '7',
        8 => '8',
        9 => '9',
        10 => 'a',
        11 => 'b',
        12 => 'c',
        13 => 'd',
        14 => 'e',
        _ => 'f',
    }
}

/// Appends `s`, escaped for a JSON string literal, to `out`.
fn append_escaped(out: &mut String, s: &str)
    ensures
        final(out)@ == old(out)@ + spec_escape(s@),
{
    let ghost base = old(out)@;
    let n = s.unicode_len();
    let mut i: usize = 0;
    while i < n
        invariant
            n == s@.len(),
            i <= n,
            out@ == base + spec_escape(s@.take(i as int)),
        decreases n - i,
    {
        let c = s.get_char(i);
        if c == '"' {
            push_char(out, '\\');
            push_char(out, '"');
        } else if c == '\\' {
            push_char(out, '\\');
            push_char(out, '\\');
        } else if c == '\n' {
            push_char(out, '\\');
            push_char(out, 'n');
        } else if c == '\r' {
            push_char(out, '\\');
            push_char(out, 'r');
        } else if c == '\t' {
            push_char(out, '\\');
            push_char(out, 't');
        } else if (c as u32) < 0x20 {
            proof {
                let u = c as u32;
                assert((u >> 4) < 16 && (u & 0xf) < 16) by (bit_vector)
                    requires
                        u < 0x20,
                ;
            }
            push_char(out, '\\');
            push_char(out, 'u');
            push_char(out, '0');
            push_char(out, '0');
            push_char(out, hex_digit((c as u32) >> 4));
            push_char(out, hex_digit((c as u32) & 0xf));
        } else {
            push_char(out, c);
        }
        proof {
            assert(s@.take(i as int + 1).drop_last() =~= s@.take(i as int));
            assert(s@.take(i as int + 1).last() == s@[i as int]);
            assert(out@ =~= base + spec_escape(s@.take(i as int + 1)));
        }
        i = i + 1;
    }
    proof {
        assert(s@.take(n as int) =~= s@);
    }
}

/// Encodes one canonical event as the topic message that is published for
/// it, exactly as [`spec_topic_message`] lays the characters out.
pub fn encode_topic_message(e: &PostEvent) -> (s: String)
    ensures
        s@ == spec_topic_message(*e),
{
    let mut out = String::new();
    out.append("{\"type\":\"post\",\"did\":\"");
    append_escaped(&mut out, e.author_id.as_str());
    out.append("\",\"text\":\"");
    append_escaped(&mut out, e.text.as_str());
    out.append("\",\"timestamp\":\"");
    append_escaped(&mut out, e.created_at.as_str());
    out.append("\"}");
    proof {
        assert(out@ =~= spec_topic_message(*e));
    }
    out
}

/// The fixed name of the pub/sub topic the daemon publishes to. It is a
/// constant of the design, not configurable.
pub fn topic_name() -> (s: &'static str)
    ensures
        s@ == "bsky-events"@,
{
    "bsky-events"
}

/// The fixed event name attached to every publish call on the topic.
pub fn publish_event_name() -> (s: &'static str)
    ensures
        s@ == "post"@,
{
    "post"
}

} // verus!
