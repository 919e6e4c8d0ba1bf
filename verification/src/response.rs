//! Response parsing: splitting the raw reply bytes at the first blank line,
//! reading the status line, and mapping the status code to a result.

use vstd::prelude::*;
use crate::digits::parse_u16;
use crate::digits::spec_parse_u16;
use crate::error::Error;
use crate::scan::boundary_at;
use crate::scan::copy_range;
use crate::scan::find_boundary;
use crate::scan::find_byte;
use crate::scan::lemma_find_boundary_first;
use crate::scan::lemma_find_boundary_none;
use crate::scan::spec_find_boundary;
use crate::scan::spec_find_byte;

verus! {

/// The first line of a header block: everything before the first LF, with a
/// CR stripped from its end; the whole block when it holds no LF.
pub open spec fn spec_first_line(headers: Seq<u8>) -> Seq<u8> {
    match spec_find_byte(headers, 10, 0) {
        Some(j) => {
            let cut = headers.take(j);
            if cut.len() > 0 && cut.last() == 13 {
                cut.drop_last()
            } else {
                cut
            }
        },
        None => headers,
    }
}

/// The second of the space-separated fields of `line`: the bytes between the
/// first and the second space.  `None` when `line` has fewer than two
/// spaces, that is, fewer than three fields.
pub open spec fn spec_second_field(line: Seq<u8>) -> Option<Seq<u8>> {
    match spec_find_byte(line, 32, 0) {
        None => None,
        Some(s1) => match spec_find_byte(line, 32, s1 + 1) {
            None => None,
            Some(s2) => Some(line.subrange(s1 + 1, s2)),
        },
    }
}

/// What a raw reply means.  The reply splits at the first CRLF CRLF into a
/// header block and a body; the status code is the second space-separated
/// field of the header block's first line.  Status 200 yields the body; any
/// other status yields `HttpError` with that code; a reply with no blank
/// line, an empty header block, a status line of fewer than three fields, or
/// a status field that is not an unsigned 16-bit decimal yields
/// `NetworkError`.
pub open spec fn spec_response(raw: Seq<u8>) -> Result<Seq<u8>, Error> {
    match spec_find_boundary(raw, 0) {
        None => Err(Error::NetworkError),
        Some(i) => {
            let headers = raw.take(i);
            let body = raw.skip(i + 4);
            if headers.len() == 0 {
                Err(Error::NetworkError)
            } else {
                match spec_second_field(spec_first_line(headers)) {
                    None => Err(Error::NetworkError),
                    Some(field) => match spec_parse_u16(field) {
                        None => Err(Error::NetworkError),
                        Some(code) => if code == 200 {
                            Ok(body)
                        } else {
                            Err(Error::HttpError(code))
                        },
                    },
                }
            }
        },
    }
}

/// The CR LF CR LF blank line separating headers from body.
pub open spec fn blank_line() -> Seq<u8> {
    seq![13u8, 10u8, 13u8, 10u8]
}

/// A reply made of a header block, a blank line, and a body splits back
/// into that header block and that body, provided the blank line is the
/// first one of the reply.
proof fn lemma_framed_reply_splits(headers: Seq<u8>, body: Seq<u8>)
    requires
        forall|i: int|
            0 <= i < headers.len() ==> !boundary_at(headers + blank_line() + body, i),
    ensures
        spec_find_boundary(headers + blank_line() + body, 0) == Some(headers.len() as int),
        (headers + blank_line() + body).take(headers.len() as int) == headers,
        (headers + blank_line() + body).skip(headers.len() as int + 4) == body,
{
    let raw = headers + blank_line() + body;
    assert(boundary_at(raw, headers.len() as int));
    lemma_find_boundary_first(raw, 0, headers.len() as int);
    assert(raw.take(headers.len() as int) =~= headers);
    assert(raw.skip(headers.len() as int + 4) =~= body);
}

/// An echoed success comes back whole: a reply whose header block carries
/// status code 200 yields exactly its body.
pub proof fn lemma_status_200_returns_body(headers: Seq<u8>, body: Seq<u8>)
    requires
        headers.len() > 0,
        forall|i: int|
            0 <= i < headers.len() ==> !boundary_at(headers + blank_line() + body, i),
        spec_parse_u16(spec_second_field(spec_first_line(headers)).unwrap()) == Some(200u16),
        spec_second_field(spec_first_line(headers)) is Some,
    ensures
        spec_response(headers + blank_line() + body) == Ok::<Seq<u8>, Error>(body),
{
    lemma_framed_reply_splits(headers, body);
}

/// A non-200 status is reported as an HTTP error carrying exactly that
/// status code.
pub proof fn lemma_non_200_status_reported(headers: Seq<u8>, body: Seq<u8>, code: u16)
    requires
        headers.len() > 0,
        forall|i: int|
            0 <= i < headers.len() ==> !boundary_at(headers + blank_line() + body, i),
        spec_second_field(spec_first_line(headers)) is Some,
        spec_parse_u16(spec_second_field(spec_first_line(headers)).unwrap()) == Some(code),
        code != 200,
    ensures
        spec_response(headers + blank_line() + body) == Err::<Seq<u8>, Error>(
            Error::HttpError(code),
        ),
{
    lemma_framed_reply_splits(headers, body);
}

/// A reply with no blank-line header/body boundary at all is a network
/// error.
pub proof fn lemma_missing_boundary_is_network_error(raw: Seq<u8>)
    requires
        forall|i: int| !boundary_at(raw, i),
    ensures
        spec_response(raw) == Err::<Seq<u8>, Error>(Error::NetworkError),
{
    lemma_find_boundary_none(raw, 0);
}

/// A status line with fewer than three space-separated fields, or whose
/// second field is not an unsigned 16-bit decimal, is a network error.
pub proof fn lemma_malformed_status_line_is_network_error(headers: Seq<u8>, body: Seq<u8>)
    requires
        headers.len() > 0,
        forall|i: int|
            0 <= i < headers.len() ==> !boundary_at(headers + blank_line() + body, i),
        match spec_second_field(spec_first_line(headers)) {
            None => true,
            Some(field) => spec_parse_u16(field) is None,
        },
    ensures
        spec_response(headers + blank_line() + body) == Err::<Seq<u8>, Error>(
            Error::NetworkError,
        ),
{
    lemma_framed_reply_splits(headers, body);
}

/// Parses a raw reply, exactly as [`spec_response`] describes: the body
/// bytes on status 200, `HttpError` with the code on any other status, and
/// `NetworkError` on malformed framing.
pub fn parse_wire_response(raw: &Vec<u8>) -> (r: Result<Vec<u8>, Error>)
    ensures
        match (r, spec_response(raw@)) {
            (Ok(body), Ok(spec_body)) => body@ == spec_body,
            (Err(e), Err(spec_e)) => e == spec_e,
            _ => false,
        },
{
    let bi = match find_boundary(raw) {
        Some(i) => i,
        None => {
            return Err(Error::NetworkError);
        },
    };
    let total = raw.len();
    let headers = copy_range(raw, 0, bi);
    let body = copy_range(raw, bi + 4, total);
    proof {
        assert(headers@ =~= raw@.take(bi as int));
        assert(body@ =~= raw@.skip(bi + 4 as int));
    }
    if headers.len() == 0 {
        return Err(Error::NetworkError);
    }
    let line = match find_byte(&headers, 10, 0) {
        Some(j) => {
            let end = if j > 0 && headers[j - 1] == 13 {
                j - 1
            } else {
                j
            };
            let l = copy_range(&headers, 0, end);
            proof {
                let cut = headers@.take(j as int);
                if cut.len() > 0 && cut.last() == 13 {
                    assert(l@ =~= cut.drop_last());
                } else {
                    assert(l@ =~= cut);
                }
            }
            l
        },
        None => headers,
    };
    let s1 = match find_byte(&line, 32, 0) {
        Some(x) => x,
        None => {
            return Err(Error::NetworkError);
        },
    };
    let s2 = match find_byte(&line, 32, s1 + 1) {
        Some(x) => x,
        None => {
            return Err(Error::NetworkError);
        },
    };
    let field = copy_range(&line, s1 + 1, s2);
    let code = match parse_u16(&field) {
        Some(c) => c,
        None => {
            return Err(Error::NetworkError);
        },
    };
    if code == 200 {
        Ok(body)
    } else {
        Err(Error::HttpError(code))
    }
}

} // verus!
