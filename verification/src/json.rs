use vstd::prelude::*;
use vstd::string::StringSliceAdditionalSpecFns;
use vstd::utf8::{is_ascii_chars, is_ascii_chars_encode_utf8};

verus! {

/// The UTF-8 bytes of a piece of text.
pub open spec fn utf8(s: &str) -> Seq<u8> {
    s.spec_bytes()
}

/// The bytes of ASCII text: one byte per character, its code.
pub open spec fn ascii(text: Seq<char>) -> Seq<u8> {
    text.map_values(|c: char| c as u8)
}

/// The UTF-8 bytes of ASCII text are its character codes.
pub proof fn lemma_utf8_of_ascii(s: &str)
    requires
        is_ascii_chars(s@),
    ensures
        utf8(s) == ascii(s@),
{
    is_ascii_chars_encode_utf8(s@);
    assert(utf8(s) =~= ascii(s@));
}

/// Appends `bytes` to `out`.
pub fn push_bytes(out: &mut Vec<u8>, bytes: &[u8])
    ensures
        final(out)@ == old(out)@ + bytes@,
{
    let n = bytes.len();
    let mut i: usize = 0;
    while i < n
        invariant
            n == bytes@.len(),
            i <= n,
            out@ == old(out)@ + bytes@.subrange(0, i as int),
        decreases n - i,
    {
        out.push(bytes[i]);
        i = i + 1;
        assert(out@ =~= old(out)@ + bytes@.subrange(0, i as int));
    }
    assert(bytes@.subrange(0, n as int) =~= bytes@);
}

/// Appends the UTF-8 bytes of `s` to `out`.
pub fn push_str(out: &mut Vec<u8>, s: &str)
    ensures
        final(out)@ == old(out)@ + utf8(s),
{
    push_bytes(out, s.as_bytes());
}

/// The JSON object `{"a":A,"b":B}`, the operands of a binary float primitive.
pub open spec fn pair_json(a: Seq<u8>, b: Seq<u8>) -> Seq<u8> {
    utf8("{\"a\":") + a + utf8(",\"b\":") + b + utf8("}")
}

/// Frames the operands of a binary float primitive: `{"a":A,"b":B}`.
pub fn pair(a: &[u8], b: &[u8]) -> (body: Vec<u8>)
    ensures
        body@ == pair_json(a@, b@),
{
    let mut body: Vec<u8> = Vec::new();
    push_str(&mut body, "{\"a\":");
    push_bytes(&mut body, a);
    push_str(&mut body, ",\"b\":");
    push_bytes(&mut body, b);
    push_str(&mut body, "}");
    body
}

/// The JSON object `{"dependency":"D","error":"E"}`.
pub open spec fn error_json(dependency: Seq<u8>, error: Seq<u8>) -> Seq<u8> {
    utf8("{\"dependency\":\"") + dependency + utf8("\",\"error\":\"") + error + utf8("\"}")
}

/// Frames an error naming the dependency it concerns: `{"dependency":"D","error":"E"}`.
pub fn error_object(dependency: &str, error: &str) -> (body: Vec<u8>)
    ensures
        body@ == error_json(utf8(dependency), utf8(error)),
{
    let mut body: Vec<u8> = Vec::new();
    push_str(&mut body, "{\"dependency\":\"");
    push_str(&mut body, dependency);
    push_str(&mut body, "\",\"error\":\"");
    push_str(&mut body, error);
    push_str(&mut body, "\"}");
    body
}

} // verus!
