//! The parser of http response heads of the `httparse` crate.
use vstd::prelude::*;

use crate::server::http::ParsedHead;

verus! {

/// What `httparse::Response::parse` reads from `buf`, with room for 124
/// header lines: `None` when it rejects the bytes, else the status code,
/// the minor http version and the header slots (name, value) as the parse
/// leaves them: the lines found in a complete head; on an incomplete head
/// the parser gives back all 124 slots empty.
pub uninterp spec fn parsed_response_head(buf: Seq<u8>) -> Option<
    (Option<u16>, Option<u8>, Seq<(Seq<char>, Seq<u8>)>),
>;

/// The header lines of a parse, as names and byte values.
pub open spec fn header_views(headers: Seq<(String, Vec<u8>)>) -> Seq<(Seq<char>, Seq<u8>)> {
    headers.map_values(|h: (String, Vec<u8>)| (h.0@, h.1@))
}

/// A parse as plain values.
pub open spec fn parsed_head_view(p: Option<ParsedHead>) -> Option<
    (Option<u16>, Option<u8>, Seq<(Seq<char>, Seq<u8>)>),
> {
    match p {
        None => None,
        Some(h) => Some((h.code, h.version, header_views(h.headers@))),
    }
}

/// `httparse::Response::parse` on `buf` with 124 header slots.
#[verifier::external_body]
pub(crate) fn parse_response_head(buf: &[u8]) -> (r: Option<ParsedHead>)
    ensures
        parsed_head_view(r) == parsed_response_head(buf@),
{
    let mut headers = [httparse::EMPTY_HEADER; 124];
    let mut resp = httparse::Response::new(&mut headers);
    match resp.parse(buf) {
        Err(_) => None,
        Ok(_) => Some(ParsedHead {
            code: resp.code,
            version: resp.version,
            headers: resp.headers.iter().map(|h| (h.name.to_string(), h.value.to_vec())).collect(),
        }),
    }
}

} // verus!
