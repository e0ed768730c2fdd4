//! The one frame this system sends as text: the acknowledgment
//! `{"envelope_id": ...}`, serialized as JSON with its string escaped.

use vstd::prelude::*;
use vstd::string::StringExecFns;
use vstd::string::StrSliceExecFns;

verus! {

/// The hexadecimal digit for `n`, lower case.
pub open spec fn spec_hex_digit(n: u32) -> char {
    if n == 0 { '0' } else if n == 1 { '1' } else if n == 2 { '2' } else if n == 3 { '3' }
    else if n == 4 { '4' } else if n == 5 { '5' } else if n == 6 { '6' } else if n == 7 { '7' }
    else if n == 8 { '8' } else if n == 9 { '9' } else if n == 10 { 'a' } else if n == 11 { 'b' }
    else if n == 12 { 'c' } else if n == 13 { 'd' } else if n == 14 { 'e' } else { 'f' }
}

/// How one character appears inside a JSON string: quote, backslash and the
/// control characters are escaped, every other character stands as itself.
pub open spec fn spec_escape_char(c: char) -> Seq<char> {
    if c == '"' { "\\\""@ }
    else if c == '\\' { "\\\\"@ }
    else if c == '\u{8}' { "\\b"@ }
    else if c == '\t' { "\\t"@ }
    else if c == '\n' { "\\n"@ }
    else if c == '\u{c}' { "\\f"@ }
    else if c == '\r' { "\\r"@ }
    else if (c as u32) < 32 {
        "\\u00"@ + seq![spec_hex_digit((c as u32) / 16), spec_hex_digit((c as u32) % 16)]
    } else { seq![c] }
}

/// A whole string escaped, character by character.
pub open spec fn spec_escape(s: Seq<char>) -> Seq<char>
    decreases s.len(),
{
    if s.len() == 0 {
        Seq::empty()
    } else {
        spec_escape_char(s[0]) + spec_escape(s.drop_first())
    }
}

/// The acknowledgment frame for an envelope id.
pub open spec fn spec_ack_text(envelope_id: Seq<char>) -> Seq<char> {
    "{\"envelope_id\":\""@ + spec_escape(envelope_id) + "\"}"@
}

proof fn lemma_escape_app(a: Seq<char>, b: Seq<char>)
    ensures
        spec_escape(a + b) == spec_escape(a) + spec_escape(b),
    decreases a.len(),
{
    if a.len() == 0 {
        assert(a + b =~= b);
        assert(spec_escape(a) + spec_escape(b) =~= spec_escape(b));
    } else {
        assert((a + b).drop_first() =~= a.drop_first() + b);
        lemma_escape_app(a.drop_first(), b);
        assert(spec_escape(a + b) =~= spec_escape(a) + spec_escape(b));
    }
}

proof fn lemma_escape_one(c: char)
    ensures
        spec_escape(seq![c]) == spec_escape_char(c),
{
    assert(seq![c].drop_first() =~= Seq::<char>::empty());
    assert(spec_escape_char(c) + spec_escape(Seq::<char>::empty()) =~= spec_escape_char(c));
}

/// Relies on `String::push`: appends one character at the end.
#[verifier::external_body]
fn push_char(s: &mut String, c: char)
    ensures
        final(s)@ == old(s)@.push(c),
{
    s.push(c);
}

/// The hexadecimal digit for `n`, lower case.
fn hex_digit(n: u32) -> (c: char)
    requires
        n < 16,
    ensures
        c == spec_hex_digit(n),
{
    if n == 0 { '0' } else if n == 1 { '1' } else if n == 2 { '2' } else if n == 3 { '3' }
    else if n == 4 { '4' } else if n == 5 { '5' } else if n == 6 { '6' } else if n == 7 { '7' }
    else if n == 8 { '8' } else if n == 9 { '9' } else if n == 10 { 'a' } else if n == 11 { 'b' }
    else if n == 12 { 'c' } else if n == 13 { 'd' } else if n == 14 { 'e' } else { 'f' }
}

/// Append one character to `out` in its escaped form.
fn push_escaped(out: &mut String, c: char)
    ensures
        final(out)@ == old(out)@ + spec_escape_char(c),
{
    if c == '"' {
        out.append("\\\"");
    } else if c == '\\' {
        out.append("\\\\");
    } else if c == '\u{8}' {
        out.append("\\b");
    } else if c == '\t' {
        out.append("\\t");
    } else if c == '\n' {
        out.append("\\n");
    } else if c == '\u{c}' {
        out.append("\\f");
    } else if c == '\r' {
        out.append("\\r");
    } else if (c as u32) < 32 {
        out.append("\\u00");
        let n: u32 = c as u32;
        push_char(out, hex_digit(n / 16));
        push_char(out, hex_digit(n % 16));
        proof {
            assert(old(out)@ + "\\u00"@ + seq![spec_hex_digit(n / 16)] + seq![
                spec_hex_digit(n % 16),
            ] =~= old(out)@ + spec_escape_char(c));
            assert((old(out)@ + "\\u00"@ + seq![spec_hex_digit(n / 16)]).push(
                spec_hex_digit(n % 16),
            ) =~= old(out)@ + "\\u00"@ + seq![spec_hex_digit(n / 16)] + seq![
                spec_hex_digit(n % 16),
            ]);
            assert((old(out)@ + "\\u00"@).push(spec_hex_digit(n / 16)) =~= old(out)@ + "\\u00"@
                + seq![spec_hex_digit(n / 16)]);
        }
    } else {
        push_char(out, c);
        proof {
            assert(old(out)@.push(c) =~= old(out)@ + seq![c]);
        }
    }
}

/// The acknowledgment frame for an envelope id: the JSON text
/// `{"envelope_id": ...}` with the id escaped as a JSON string.
pub fn ack_text(envelope_id: &str) -> (r: String)
    ensures
        r@ == spec_ack_text(envelope_id@),
{
    let mut out: String = "{\"envelope_id\":\"".to_owned();
    let n: usize = envelope_id.unicode_len();
    proof {
        assert(envelope_id@.take(0) =~= Seq::<char>::empty());
        assert(out@ + spec_escape(envelope_id@.take(0)) =~= out@);
    }
    let ghost prefix = out@;
    for i in 0..n
        invariant
            n == envelope_id@.len(),
            out@ == prefix + spec_escape(envelope_id@.take(i as int)),
    {
        let c = envelope_id.get_char(i);
        push_escaped(&mut out, c);
        proof {
            assert(envelope_id@.take(i + 1) =~= envelope_id@.take(i as int) + seq![
                envelope_id@[i as int],
            ]);
            lemma_escape_app(envelope_id@.take(i as int), seq![envelope_id@[i as int]]);
            lemma_escape_one(envelope_id@[i as int]);
            assert(prefix + spec_escape(envelope_id@.take(i as int)) + spec_escape_char(c) =~=
                prefix + spec_escape(envelope_id@.take(i + 1)));
        }
    }
    proof {
        assert(envelope_id@.take(n as int) =~= envelope_id@);
    }
    let r = out.concat("\"}");
    proof {
        assert(prefix + spec_escape(envelope_id@) + "\"}"@ =~= spec_ack_text(envelope_id@));
    }
    r
}

} // verus!
