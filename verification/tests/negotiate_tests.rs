//! The request-time negotiation engine: conditional requests, encoding
//! selection, and byte-range serving.

use static_serve::descriptor::AssetDescriptor;
use static_serve::negotiate::{
    accept_encoding_flags, negotiate, ByteRange, ContentEncoding, ContentRangeHeader,
    NegotiationRequest,
};
use static_serve::pipeline::{prepare, FileEntry, PrepareMode, PrepareOptions};

fn prepared(contents: &[u8], compress: bool, cache_busted: bool) -> AssetDescriptor {
    let options = PrepareOptions { mode: PrepareMode::SingleFile { cache_busted }, compress };
    let entries = vec![FileEntry {
        path: "/assets/app.js".to_string(),
        is_dir: false,
        contents: contents.to_vec(),
    }];
    prepare(&options, &entries).unwrap().pop().unwrap()
}

fn big_body() -> Vec<u8> {
    b"function f(i) { return i * 2; } // fill fill fill\n"
        .iter()
        .copied()
        .cycle()
        .take(20_000)
        .collect()
}

fn request(
    gzip: bool,
    zstd: bool,
    if_none_match: Option<&str>,
    range: Option<ByteRange>,
) -> NegotiationRequest {
    NegotiationRequest {
        accepts_gzip: gzip,
        accepts_zstd: zstd,
        if_none_match: if_none_match.map(|s| s.to_string()),
        range,
    }
}

#[test]
fn accept_encoding_header_is_a_substring_test() {
    assert_eq!(accept_encoding_flags("zstd, gzip"), (true, true));
    assert_eq!(accept_encoding_flags("gzip"), (true, false));
    assert_eq!(accept_encoding_flags("zstd"), (false, true));
    assert_eq!(accept_encoding_flags("br, deflate"), (false, false));
    assert_eq!(accept_encoding_flags(""), (false, false));
    assert_eq!(accept_encoding_flags("x-gzip;q=0.5"), (true, false));
}

#[test]
fn matching_etag_short_circuits_to_not_modified() {
    let d = prepared(&big_body(), true, false);
    let etag = d.etag.clone();
    // even with encodings accepted and a range present, the match wins
    let q = request(true, true, Some(etag.as_str()), Some(ByteRange { start: 0, end: Some(10) }));
    let r = negotiate(&d, &q);
    assert_eq!(r.status, 304);
    assert!(r.body.is_empty());
    assert!(r.content_encoding.is_none());
    assert!(r.content_range.is_none());
    assert!(!r.accept_ranges);
    assert_eq!(r.etag, etag);
    assert_eq!(r.content_type, "text/javascript");
    assert!(!r.cache_immutable);
}

#[test]
fn mismatching_etag_serves_content() {
    let d = prepared(&big_body(), true, false);
    let q = request(false, true, Some("\"n0t4r34l3t4g00\""), None);
    let r = negotiate(&d, &q);
    assert_eq!(r.status, 200);
    assert!(!r.body.is_empty());
    assert_eq!(r.content_encoding, Some(ContentEncoding::Zstd));
    assert!(!r.cache_immutable, "no cache directive without cache busting");
    assert_eq!(zstd::stream::decode_all(&r.body[..]).unwrap(), big_body());
}

#[test]
fn not_modified_carries_cache_directive_only_when_busted() {
    let body = big_body();
    let busted = prepared(&body, true, true);
    let busted_tag = busted.etag.clone();
    let q = request(true, true, Some(busted_tag.as_str()), None);
    let r = negotiate(&busted, &q);
    assert_eq!(r.status, 304);
    assert!(r.cache_immutable);

    let plain = prepared(&body, true, false);
    let plain_tag = plain.etag.clone();
    let q = request(true, true, Some(plain_tag.as_str()), None);
    let r = negotiate(&plain, &q);
    assert_eq!(r.status, 304);
    assert!(!r.cache_immutable);
}

#[test]
fn zstd_wins_when_both_accepted() {
    let d = prepared(&big_body(), true, false);
    let r = negotiate(&d, &request(true, true, None, None));
    assert_eq!(r.status, 200);
    assert_eq!(r.content_encoding, Some(ContentEncoding::Zstd));
    assert_eq!(r.body, *d.body_zstd.as_ref().unwrap());
    assert!(r.accept_ranges);
}

#[test]
fn gzip_serves_when_only_gzip_accepted() {
    let d = prepared(&big_body(), true, false);
    let r = negotiate(&d, &request(true, false, None, None));
    assert_eq!(r.status, 200);
    assert_eq!(r.content_encoding, Some(ContentEncoding::Gzip));
    assert_eq!(r.body, *d.body_gzip.as_ref().unwrap());
    let mut out = Vec::new();
    let mut dec = flate2::bufread::GzDecoder::new(&r.body[..]);
    std::io::Read::read_to_end(&mut dec, &mut out).unwrap();
    assert_eq!(out, big_body());
}

#[test]
fn raw_body_serves_when_nothing_accepted() {
    let d = prepared(&big_body(), true, false);
    let r = negotiate(&d, &request(false, false, None, None));
    assert_eq!(r.status, 200);
    assert!(r.content_encoding.is_none());
    assert_eq!(r.body, big_body());
}

#[test]
fn raw_body_serves_when_variants_absent() {
    // compression not requested at build time: no variants exist
    let d = prepared(b"console.log(1)", false, false);
    let r = negotiate(&d, &request(true, true, None, None));
    assert_eq!(r.status, 200);
    assert!(r.content_encoding.is_none());
    assert_eq!(r.body, b"console.log(1)");
}

#[test]
fn range_beats_compression() {
    let d = prepared(&big_body(), true, false);
    let q = request(true, true, None, Some(ByteRange { start: 2, end: Some(5) }));
    let r = negotiate(&d, &q);
    assert_eq!(r.status, 206);
    assert!(r.content_encoding.is_none(), "a range response is never compressed");
    assert_eq!(r.body, big_body()[2..=5].to_vec());
    assert_eq!(
        r.content_range,
        Some(ContentRangeHeader::Satisfied { start: 2, end: 5, total: big_body().len() as u64 })
    );
}

#[test]
fn open_ended_range_runs_to_the_end() {
    let d = prepared(b"0123456789", false, false);
    let q = request(false, false, None, Some(ByteRange { start: 4, end: None }));
    let r = negotiate(&d, &q);
    assert_eq!(r.status, 206);
    assert_eq!(r.body, b"456789");
    assert_eq!(
        r.content_range,
        Some(ContentRangeHeader::Satisfied { start: 4, end: 9, total: 10 })
    );
}

#[test]
fn overlong_range_is_clamped_to_the_body() {
    let d = prepared(b"0123456789", false, false);
    let q = request(false, false, None, Some(ByteRange { start: 8, end: Some(1000) }));
    let r = negotiate(&d, &q);
    assert_eq!(r.status, 206);
    assert_eq!(r.body, b"89");
    assert_eq!(
        r.content_range,
        Some(ContentRangeHeader::Satisfied { start: 8, end: 9, total: 10 })
    );
}

#[test]
fn unsatisfiable_range_yields_416() {
    let d = prepared(b"0123456789", false, false);
    let q = request(false, false, None, Some(ByteRange { start: 10, end: Some(20) }));
    let r = negotiate(&d, &q);
    assert_eq!(r.status, 416);
    assert!(r.body.is_empty());
    assert_eq!(r.content_range, Some(ContentRangeHeader::Unsatisfied { total: 10 }));
}

#[test]
fn backwards_range_is_ignored() {
    let d = prepared(b"0123456789", false, false);
    let q = request(false, false, None, Some(ByteRange { start: 5, end: Some(2) }));
    let r = negotiate(&d, &q);
    assert_eq!(r.status, 200);
    assert_eq!(r.body, b"0123456789");
    assert!(r.content_range.is_none());
}

#[test]
fn range_on_empty_body_serves_full_empty_body() {
    let d = prepared(b"", false, false);
    let q = request(false, false, None, Some(ByteRange { start: 0, end: Some(5) }));
    let r = negotiate(&d, &q);
    assert_eq!(r.status, 200);
    assert!(r.body.is_empty());
    assert!(r.content_range.is_none());
}

#[test]
fn full_response_carries_base_headers() {
    let d = prepared(b"console.log(1)", false, true);
    let r = negotiate(&d, &request(false, false, None, None));
    assert_eq!(r.status, 200);
    assert_eq!(r.content_type, "text/javascript");
    assert_eq!(r.etag, d.etag);
    assert!(r.cache_immutable);
    assert!(r.accept_ranges);
}
