//! Hashing and compression behaviour.

use sha1::Digest;
use static_serve::codec::{compress_variants, is_compression_significant, select_variant};
use static_serve::errors::AssetError;
use static_serve::hashing::etag;

fn expected_etag(contents: &[u8]) -> String {
    let digest = sha1::Sha1::digest(contents);
    let lo = u64::from_le_bytes(digest[..8].try_into().unwrap());
    let hi = u64::from_le_bytes(digest[8..16].try_into().unwrap());
    format!("\"{:016x}\"", lo ^ hi)
}

#[test]
fn etag_is_deterministic() {
    let body = b"console.log(1)".to_vec();
    let first = etag(&body);
    let second = etag(&body);
    assert_eq!(first, second);
    let copy = body.clone();
    assert_eq!(etag(&copy), first);
}

#[test]
fn etag_matches_folded_sha1() {
    let body = b"console.log(1)";
    assert_eq!(etag(body), expected_etag(body));
    let empty: &[u8] = b"";
    assert_eq!(etag(empty), expected_etag(empty));
    let other = b"hello world";
    assert_eq!(etag(other), expected_etag(other));
}

#[test]
fn etag_is_quoted_fixed_width_hex() {
    let t = etag(b"some body");
    assert_eq!(t.len(), 18);
    assert!(t.starts_with('"'));
    assert!(t.ends_with('"'));
    for c in t[1..17].chars() {
        assert!(c.is_ascii_hexdigit());
        assert!(!c.is_ascii_uppercase());
    }
}

#[test]
fn etag_differs_on_varied_inputs() {
    let inputs: Vec<Vec<u8>> = vec![
        b"".to_vec(),
        b"a".to_vec(),
        b"b".to_vec(),
        b"ab".to_vec(),
        b"console.log(1)".to_vec(),
        b"console.log(2)".to_vec(),
        vec![0u8; 100],
        vec![1u8; 100],
        (0u8..=255).collect(),
        (0u8..=255).rev().collect(),
    ];
    let tags: Vec<String> = inputs.iter().map(|b| etag(b)).collect();
    for i in 0..tags.len() {
        for j in 0..tags.len() {
            if i != j {
                assert_ne!(tags[i], tags[j], "collision between inputs {i} and {j}");
            }
        }
    }
}

#[test]
fn significance_threshold_is_strict_ninety_percent() {
    assert!(is_compression_significant(89, 100));
    assert!(!is_compression_significant(90, 100));
    assert!(!is_compression_significant(91, 100));
    // 13 < 0.9 * 15 == 13.5
    assert!(is_compression_significant(13, 15));
    assert!(!is_compression_significant(14, 15));
    assert!(is_compression_significant(0, 9));
    assert!(is_compression_significant(8, 10));
    assert!(!is_compression_significant(9, 10));
    assert!(!is_compression_significant(0, 0));
}

#[test]
fn select_variant_keeps_only_significant() {
    let small = vec![1u8, 2, 3];
    assert_eq!(select_variant(small.clone(), 100), Some(small));
    let too_big = vec![0u8; 95];
    assert_eq!(select_variant(too_big, 100), None);
}

#[test]
fn compress_not_requested_does_nothing() {
    let body = vec![b'a'; 10_000];
    let (gz, zs) = compress_variants(&body, false).unwrap();
    assert!(gz.is_none());
    assert!(zs.is_none());
}

#[test]
fn compress_roundtrips_and_is_smaller() {
    let body: Vec<u8> = b"function f(i) { return i + 1; }\n"
        .iter()
        .copied()
        .cycle()
        .take(20_000)
        .collect();
    let (gz, zs) = compress_variants(&body, true).unwrap();
    let gz = gz.expect("gzip variant should be worthwhile");
    let zs = zs.expect("zstd variant should be worthwhile");
    assert!(10 * gz.len() < 9 * body.len());
    assert!(10 * zs.len() < 9 * body.len());

    let mut gz_out = Vec::new();
    let mut dec = flate2::bufread::GzDecoder::new(&gz[..]);
    std::io::Read::read_to_end(&mut dec, &mut gz_out).unwrap();
    assert_eq!(gz_out, body);

    let zs_out = zstd::stream::decode_all(&zs[..]).unwrap();
    assert_eq!(zs_out, body);
}

#[test]
fn compress_tiny_body_not_worthwhile() {
    let body = b"console.log(1)".to_vec();
    let (gz, zs) = compress_variants(&body, true).unwrap();
    assert!(gz.is_none());
    assert!(zs.is_none());
}

#[test]
fn codec_error_messages() {
    assert_eq!(AssetError::GzipWrite.message(), "The compressor could not write");
    assert_eq!(
        AssetError::GzipFinish.message(),
        "The encoder could not complete the `finish` procedure"
    );
    assert_eq!(AssetError::ZstdEncode.message(), "The encoder could not produce a zstd frame");
}

#[test]
fn unknown_file_extension() {
    let missing_extension = AssetError::UnknownExtension(None);
    assert_eq!(missing_extension.message(), "Missing file extension");
    let unknown_extension = AssetError::UnknownExtension(Some("pippo".to_string()));
    assert_eq!(
        unknown_extension.message(),
        "Unknown file extension in directory of static assets: pippo"
    );
}
