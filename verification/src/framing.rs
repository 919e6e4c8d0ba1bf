//! Request framing: building the HTTP/1.1 request message byte for byte.

use vstd::prelude::*;
use vstd::string::StrSliceExecFns;
use vstd::utf8::encode_utf8;
use crate::digits::push_decimal;
use crate::digits::spec_decimal;
use crate::scan::copy_range;

verus! {

/// The wire bytes of one request: the request line
/// `<verb> <path> HTTP/1.1`, a `Host` header, a fixed
/// `Content-Type: application/json` header, a `Content-Length` header equal
/// to the exact byte length of the body, a `Connection: close` header, a
/// blank line, and the body.
pub open spec fn spec_request_bytes(
    verb: Seq<char>,
    path: Seq<char>,
    host: Seq<char>,
    body: Seq<u8>,
) -> Seq<u8> {
    encode_utf8(verb) + encode_utf8(" "@) + encode_utf8(path) + encode_utf8(" HTTP/1.1\r\nHost: "@)
        + encode_utf8(host) + encode_utf8("\r\nContent-Type: application/json\r\nContent-Length: "@)
        + spec_decimal(body.len()) + encode_utf8("\r\nConnection: close\r\n\r\n"@) + body
}

/// The request line begins with the method's verb, followed by a space:
/// with the default verb left in place the line opens with `POST`, and with
/// an overridden verb it opens with the override.
pub proof fn lemma_request_begins_with_verb(
    verb: Seq<char>,
    path: Seq<char>,
    host: Seq<char>,
    body: Seq<u8>,
)
    ensures
        spec_request_bytes(verb, path, host, body).take(encode_utf8(verb).len() as int)
            == encode_utf8(verb),
        spec_request_bytes(verb, path, host, body)[encode_utf8(verb).len() as int] == 32,
{
    reveal_strlit(" ");
    assert(" "@ =~= seq![' ']);
    assert((32u32 & 0x7F) as u8 == 32u8) by (bit_vector);
    assert(encode_utf8(Seq::<char>::empty()) =~= Seq::<u8>::empty());
    assert(seq![' '].drop_first() =~= Seq::<char>::empty());
    assert(encode_utf8(" "@) =~= seq![32u8]);
    assert(spec_request_bytes(verb, path, host, body).take(encode_utf8(verb).len() as int)
        =~= encode_utf8(verb));
}

/// Appends the UTF-8 bytes of `s` to `out`.
fn append_str_bytes(out: &mut Vec<u8>, s: &str)
    ensures
        final(out)@ == old(out)@ + encode_utf8(s@),
{
    let mut bytes = s.as_bytes_vec();
    out.append(&mut bytes);
}

/// Builds the framed request message for one call.
pub fn build_request(verb: &str, path: &str, host: &str, body: &Vec<u8>) -> (r: Vec<u8>)
    ensures
        r@ == spec_request_bytes(verb@, path@, host@, body@),
{
    let mut out: Vec<u8> = Vec::new();
    append_str_bytes(&mut out, verb);
    append_str_bytes(&mut out, " ");
    append_str_bytes(&mut out, path);
    append_str_bytes(&mut out, " HTTP/1.1\r\nHost: ");
    append_str_bytes(&mut out, host);
    append_str_bytes(&mut out, "\r\nContent-Type: application/json\r\nContent-Length: ");
    push_decimal(&mut out, body.len());
    append_str_bytes(&mut out, "\r\nConnection: close\r\n\r\n");
    let mut tail = copy_range(body, 0, body.len());
    out.append(&mut tail);
    assert(out@ =~= spec_request_bytes(verb@, path@, host@, body@));
    out
}

} // verus!
