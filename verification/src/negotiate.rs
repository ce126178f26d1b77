//! The request-time negotiation engine: given one prepared descriptor and
//! the relevant request headers, pick an encoding, honour a conditional
//! match, and serve byte ranges of the raw body. Every request yields
//! exactly one terminal outcome: not-modified, full, partial, or
//! range-not-satisfiable.

use vstd::prelude::*;
use vstd::slice::{slice_subrange, slice_to_vec};
use crate::descriptor::AssetDescriptor;
use crate::text::{spec_contains, str_contains, str_eq};

verus! {

/// A validated byte range from the request, inclusive on both ends;
/// `end == None` means "to the end of the body". The engine does not parse
/// range syntax: the serving layer hands it the parsed offsets.
#[derive(Debug, Clone, Copy)]
pub struct ByteRange {
    /// First byte offset requested.
    pub start: u64,
    /// Last byte offset requested, or `None` for the rest of the body.
    pub end: Option<u64>,
}

/// The request headers the engine negotiates over: which encodings the
/// client accepts, its conditional-match token, and its byte range.
#[derive(Debug, Clone)]
pub struct NegotiationRequest {
    /// The client accepts gzip-encoded responses.
    pub accepts_gzip: bool,
    /// The client accepts zstd-encoded responses.
    pub accepts_zstd: bool,
    /// The conditional-match token, compared byte-for-byte with the etag.
    pub if_none_match: Option<String>,
    /// The requested byte range, already parsed by the serving layer.
    pub range: Option<ByteRange>,
}

/// The content encoding chosen for a response body.
#[derive(Debug, Clone, Copy, PartialEq, Eq)]
pub enum ContentEncoding {
    /// The body is the gzip variant.
    Gzip,
    /// The body is the zstd variant.
    Zstd,
}

/// The `content-range` header of a partial-content or unsatisfiable-range
/// response.
#[derive(Debug, Clone, Copy, PartialEq, Eq)]
pub enum ContentRangeHeader {
    /// `bytes start-end/total`: the range was satisfiable.
    Satisfied { start: u64, end: u64, total: u64 },
    /// `bytes */total`: the range was not satisfiable.
    Unsatisfied { total: u64 },
}

/// A negotiated response. Every response also carries `content-type`,
/// `etag` and `vary: Accept-Encoding`; the cache directive
/// `public, max-age=31536000, immutable` is present if and only if
/// `cache_immutable` holds, and `accept-ranges: bytes` is advertised on all
/// non-304 responses.
#[derive(Debug)]
pub struct HttpResponse {
    /// 200, 206, 304 or 416.
    pub status: u16,
    /// The descriptor's MIME type.
    pub content_type: String,
    /// The descriptor's quoted etag.
    pub etag: String,
    /// Carry the long-lived immutable cache directive.
    pub cache_immutable: bool,
    /// The `content-encoding` header, when a compressed variant was chosen.
    pub content_encoding: Option<ContentEncoding>,
    /// Advertise `accept-ranges: bytes`.
    pub accept_ranges: bool,
    /// The `content-range` header of a 206 or 416 response.
    pub content_range: Option<ContentRangeHeader>,
    /// The response body.
    pub body: Vec<u8>,
}

/// The mathematical shape of a response.
pub ghost struct SpecResponse {
    /// 200, 206, 304 or 416.
    pub status: int,
    /// The descriptor's MIME type.
    pub content_type: Seq<char>,
    /// The descriptor's quoted etag.
    pub etag: Seq<char>,
    /// Carry the long-lived immutable cache directive.
    pub cache_immutable: bool,
    /// The `content-encoding` header.
    pub content_encoding: Option<ContentEncoding>,
    /// Advertise `accept-ranges: bytes`.
    pub accept_ranges: bool,
    /// The `content-range` header.
    pub content_range: Option<ContentRangeHeader>,
    /// The response body.
    pub body: Seq<u8>,
}

/// The executable response carries exactly the given mathematical response.
pub open spec fn spec_matches_response(r: HttpResponse, s: SpecResponse) -> bool {
    &&& r.status as int == s.status
    &&& r.content_type@ == s.content_type
    &&& r.etag@ == s.etag
    &&& r.cache_immutable == s.cache_immutable
    &&& r.content_encoding == s.content_encoding
    &&& r.accept_ranges == s.accept_ranges
    &&& r.content_range == s.content_range
    &&& r.body@ == s.body
}

/// The request's match token equals the descriptor's etag byte-for-byte.
pub open spec fn spec_etag_match(d: AssetDescriptor, q: NegotiationRequest) -> bool {
    match q.if_none_match {
        Some(tok) => tok@ == d.etag@,
        None => false,
    }
}

/// Encoding selection, zstd first: a compressed variant is chosen only when
/// the client accepts it, the variant exists, and no range was requested
/// (range offsets are meaningful against the raw body alone).
pub open spec fn spec_selected_encoding(
    d: AssetDescriptor,
    q: NegotiationRequest,
) -> Option<ContentEncoding> {
    if q.range is None && q.accepts_zstd && d.body_zstd is Some {
        Some(ContentEncoding::Zstd)
    } else if q.range is None && q.accepts_gzip && d.body_gzip is Some {
        Some(ContentEncoding::Gzip)
    } else {
        None
    }
}

/// The body that goes with the selected encoding.
pub open spec fn spec_selected_body(d: AssetDescriptor, q: NegotiationRequest) -> Seq<u8> {
    match spec_selected_encoding(d, q) {
        Some(ContentEncoding::Zstd) => d.body_zstd->Some_0@,
        Some(ContentEncoding::Gzip) => d.body_gzip->Some_0@,
        None => d.body@,
    }
}

/// A range is well-formed when its end, if bounded, does not precede its
/// start. A malformed range is ignored and the full body served.
pub open spec fn spec_range_valid(rg: ByteRange) -> bool {
    match rg.end {
        Some(e) => rg.start <= e,
        None => true,
    }
}

/// The inclusive index of the last byte served for a range against a body
/// of length `len`: the requested end, clamped to the body.
pub open spec fn spec_range_last(rg: ByteRange, len: int) -> int {
    match rg.end {
        Some(e) => if (e as int) < len - 1 {
            e as int
        } else {
            len - 1
        },
        None => len - 1,
    }
}

/// A response built on the descriptor's base headers.
pub open spec fn spec_response(
    d: AssetDescriptor,
    status: int,
    enc: Option<ContentEncoding>,
    accept_ranges: bool,
    content_range: Option<ContentRangeHeader>,
    body: Seq<u8>,
) -> SpecResponse {
    SpecResponse {
        status,
        content_type: d.content_type@,
        etag: d.etag@,
        cache_immutable: d.cache_busted,
        content_encoding: enc,
        accept_ranges,
        content_range,
        body,
    }
}

/// The whole negotiation, one pass: conditional check, then encoding
/// selection, then range serving.
pub open spec fn negotiate_spec(d: AssetDescriptor, q: NegotiationRequest) -> SpecResponse {
    if spec_etag_match(d, q) {
        spec_response(d, 304, None, false, None, Seq::empty())
    } else {
        let enc = spec_selected_encoding(d, q);
        let body = spec_selected_body(d, q);
        match q.range {
            None => spec_response(d, 200, enc, true, None, body),
            Some(rg) => if body.len() == 0 || !spec_range_valid(rg) {
                spec_response(d, 200, enc, true, None, body)
            } else if (rg.start as int) < body.len() {
                spec_response(
                    d,
                    206,
                    enc,
                    true,
                    Some(
                        ContentRangeHeader::Satisfied {
                            start: rg.start,
                            end: spec_range_last(rg, body.len() as int) as u64,
                            total: body.len() as u64,
                        },
                    ),
                    body.subrange(rg.start as int, spec_range_last(rg, body.len() as int) + 1),
                )
            } else {
                spec_response(
                    d,
                    416,
                    enc,
                    true,
                    Some(ContentRangeHeader::Unsatisfied { total: body.len() as u64 }),
                    Seq::empty(),
                )
            },
        }
    }
}

/// Read the accepted encodings out of an `Accept-Encoding` header value: a
/// token counts as accepted when it occurs anywhere in the value.
pub fn accept_encoding_flags(header: &str) -> (r: (bool, bool))
    ensures
        r.0 == spec_contains(header@, "gzip"@),
        r.1 == spec_contains(header@, "zstd"@),
{
    (str_contains(header, "gzip"), str_contains(header, "zstd"))
}

/// Negotiate one response for one request against one prepared descriptor.
pub fn negotiate(d: &AssetDescriptor, q: &NegotiationRequest) -> (r: HttpResponse)
    ensures
        spec_matches_response(r, negotiate_spec(*d, *q)),
{
    let etag_matched = match &q.if_none_match {
        Some(tok) => str_eq(tok.as_str(), d.etag.as_str()),
        None => false,
    };
    if etag_matched {
        return HttpResponse {
            status: 304,
            content_type: d.content_type.clone(),
            etag: d.etag.clone(),
            cache_immutable: d.cache_busted,
            content_encoding: None,
            accept_ranges: false,
            content_range: None,
            body: Vec::new(),
        };
    }
    let no_range = q.range.is_none();
    let (enc, selected): (Option<ContentEncoding>, Vec<u8>) = if no_range && q.accepts_zstd
        && d.body_zstd.is_some() {
        let z = match &d.body_zstd {
            Some(z) => z,
            None => unreached(),
        };
        (Some(ContentEncoding::Zstd), slice_to_vec(z.as_slice()))
    } else if no_range && q.accepts_gzip && d.body_gzip.is_some() {
        let g = match &d.body_gzip {
            Some(g) => g,
            None => unreached(),
        };
        (Some(ContentEncoding::Gzip), slice_to_vec(g.as_slice()))
    } else {
        (None, slice_to_vec(d.body.as_slice()))
    };
    match &q.range {
        None => HttpResponse {
            status: 200,
            content_type: d.content_type.clone(),
            etag: d.etag.clone(),
            cache_immutable: d.cache_busted,
            content_encoding: enc,
            accept_ranges: true,
            content_range: None,
            body: selected,
        },
        Some(rg) => {
            let len = selected.len();
            let valid = match rg.end {
                Some(e) => rg.start <= e,
                None => true,
            };
            if len == 0 || !valid {
                return HttpResponse {
                    status: 200,
                    content_type: d.content_type.clone(),
                    etag: d.etag.clone(),
                    cache_immutable: d.cache_busted,
                    content_encoding: enc,
                    accept_ranges: true,
                    content_range: None,
                    body: selected,
                };
            }
            if rg.start < len as u64 {
                let start = rg.start as usize;
                let last: usize = match rg.end {
                    Some(e) => if e < (len - 1) as u64 {
                        e as usize
                    } else {
                        len - 1
                    },
                    None => len - 1,
                };
                let part = slice_to_vec(slice_subrange(selected.as_slice(), start, last + 1));
                HttpResponse {
                    status: 206,
                    content_type: d.content_type.clone(),
                    etag: d.etag.clone(),
                    cache_immutable: d.cache_busted,
                    content_encoding: enc,
                    accept_ranges: true,
                    content_range: Some(
                        ContentRangeHeader::Satisfied {
                            start: rg.start,
                            end: last as u64,
                            total: len as u64,
                        },
                    ),
                    body: part,
                }
            } else {
                HttpResponse {
                    status: 416,
                    content_type: d.content_type.clone(),
                    etag: d.etag.clone(),
                    cache_immutable: d.cache_busted,
                    content_encoding: enc,
                    accept_ranges: true,
                    content_range: Some(ContentRangeHeader::Unsatisfied { total: len as u64 }),
                    body: Vec::new(),
                }
            }
        },
    }
}

/// Conditional-match precedence: a request whose match token equals the
/// descriptor's etag yields a 304 with an empty body, whatever the accepted
/// encodings or range header say.
pub proof fn lemma_conditional_match_precedence(d: AssetDescriptor, q: NegotiationRequest)
    requires
        spec_etag_match(d, q),
    ensures
        negotiate_spec(d, q).status == 304,
        negotiate_spec(d, q).body == Seq::<u8>::empty(),
        negotiate_spec(d, q).content_encoding is None,
{
}

/// Range-vs-compression precedence: when a range is requested and no
/// conditional match occurs, the response is never compressed, and its body
/// is the raw body or a contiguous slice of it, whatever encodings the
/// client accepts.
pub proof fn lemma_range_precedence(d: AssetDescriptor, q: NegotiationRequest)
    requires
        !spec_etag_match(d, q),
        q.range is Some,
    ensures
        negotiate_spec(d, q).content_encoding is None,
        negotiate_spec(d, q).status == 200 || negotiate_spec(d, q).status == 206 || negotiate_spec(
            d,
            q,
        ).status == 416,
        negotiate_spec(d, q).status == 200 ==> negotiate_spec(d, q).body == d.body@,
        negotiate_spec(d, q).status == 206 ==> exists|i: int, j: int|
            0 <= i <= j <= d.body@.len() && negotiate_spec(d, q).body == d.body@.subrange(i, j),
        negotiate_spec(d, q).status == 416 ==> negotiate_spec(d, q).body == Seq::<u8>::empty(),
{
    let rg = q.range->Some_0;
    let body = spec_selected_body(d, q);
    assert(body == d.body@);
    if body.len() > 0 && spec_range_valid(rg) && (rg.start as int) < body.len() {
        let i = rg.start as int;
        let j = spec_range_last(rg, body.len() as int) + 1;
        assert(0 <= i <= j <= d.body@.len() && negotiate_spec(d, q).body == d.body@.subrange(
            i,
            j,
        ));
    }
}

} // verus!
