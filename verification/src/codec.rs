//! Pre-compression of asset bodies: each codec runs at its highest practical
//! level behind a trusted wrapper whose contract states the round trip, and a
//! verified policy decides whether the compressed form is worth shipping.

use vstd::prelude::*;
use crate::errors::AssetError;

verus! {

/// What decompressing a gzip stream yields: `Some` of the original bytes for
/// a well-formed stream, a fixed function of the compressed bytes alone.
pub uninterp spec fn gzip_inflate(compressed: Seq<u8>) -> Option<Seq<u8>>;

/// What decompressing a zstd frame yields: `Some` of the original bytes for
/// a well-formed frame, a fixed function of the compressed bytes alone.
pub uninterp spec fn zstd_inflate(compressed: Seq<u8>) -> Option<Seq<u8>>;

/// Relies on flate2's write::GzEncoder at the best compression level: on
/// success the output is a gzip stream that decompresses to exactly the
/// input.
#[verifier::external_body]
fn gzip_compress(contents: &[u8]) -> (r: Result<Vec<u8>, AssetError>)
    ensures
        r matches Ok(c) ==> gzip_inflate(c@) == Some(contents@),
        r matches Err(e) ==> e is GzipWrite || e is GzipFinish,
{
    let mut compressor = flate2::write::GzEncoder::new(Vec::new(), flate2::Compression::best());
    if std::io::Write::write_all(&mut compressor, contents).is_err() {
        return Err(AssetError::GzipWrite);
    }
    match compressor.finish() {
        Ok(compressed) => Ok(compressed),
        Err(_) => Err(AssetError::GzipFinish),
    }
}

/// Relies on zstd::stream::encode_all at the highest supported compression
/// level: on success the output is a zstd frame that decompresses to exactly
/// the input.
#[verifier::external_body]
fn zstd_compress(contents: &[u8]) -> (r: Result<Vec<u8>, AssetError>)
    ensures
        r matches Ok(c) ==> zstd_inflate(c@) == Some(contents@),
        r matches Err(e) ==> e is ZstdEncode,
{
    let level = *zstd::compression_level_range().end();
    match zstd::stream::encode_all(contents, level) {
        Ok(compressed) => Ok(compressed),
        Err(_) => Err(AssetError::ZstdEncode),
    }
}

/// A compressed variant is worth shipping only when it is strictly smaller
/// than 90% of the raw body: `compressed_len < 0.9 * contents_len`, stated
/// over integers as `10 * compressed_len < 9 * contents_len`.
pub open spec fn spec_compression_significant(compressed_len: int, contents_len: int) -> bool {
    10 * compressed_len < 9 * contents_len
}

/// Decide whether a compressed form is enough smaller than the raw form to
/// be worth including in a descriptor.
pub fn is_compression_significant(compressed_len: usize, contents_len: usize) -> (r: bool)
    ensures
        r == spec_compression_significant(compressed_len as int, contents_len as int),
{
    10 * (compressed_len as u128) < 9 * (contents_len as u128)
}

/// Keep a compressed form if and only if its size clears the significance
/// bar against the raw size.
pub fn select_variant(compressed: Vec<u8>, contents_len: usize) -> (r: Option<Vec<u8>>)
    ensures
        r == if spec_compression_significant(compressed@.len() as int, contents_len as int) {
            Some(compressed)
        } else {
            None::<Vec<u8>>
        },
{
    if is_compression_significant(compressed.len(), contents_len) {
        Some(compressed)
    } else {
        None
    }
}

/// Each codec ran over the raw body and its output was kept if and only if
/// the saving was significant: some gzip stream of the body exists whose
/// size decided the gzip variant, and likewise for zstd.
pub open spec fn spec_variants_selected(
    g: Option<Vec<u8>>,
    z: Option<Vec<u8>>,
    contents: Seq<u8>,
) -> bool {
    &&& exists|cg: Seq<u8>|
        #![trigger gzip_inflate(cg)]
        {
            &&& gzip_inflate(cg) == Some(contents)
            &&& (g is Some) <==> spec_compression_significant(
                cg.len() as int,
                contents.len() as int,
            )
            &&& (g matches Some(v) ==> v@ == cg)
        }
    &&& exists|cz: Seq<u8>|
        #![trigger zstd_inflate(cz)]
        {
            &&& zstd_inflate(cz) == Some(contents)
            &&& (z is Some) <==> spec_compression_significant(
                cz.len() as int,
                contents.len() as int,
            )
            &&& (z matches Some(v) ==> v@ == cz)
        }
}

/// Run both codecs over a raw body, when compression is requested, and keep
/// each output if and only if the saving is significant. When compression is
/// not requested no codec work is performed at all.
pub fn compress_variants(contents: &[u8], should_compress: bool) -> (r: Result<
    (Option<Vec<u8>>, Option<Vec<u8>>),
    AssetError,
>)
    ensures
        !should_compress ==> r == Ok::<_, AssetError>((None::<Vec<u8>>, None::<Vec<u8>>)),
        r matches Ok((g, z)) ==> {
            &&& g matches Some(c) ==> gzip_inflate(c@) == Some(contents@)
                && spec_compression_significant(c@.len() as int, contents@.len() as int)
            &&& z matches Some(c) ==> zstd_inflate(c@) == Some(contents@)
                && spec_compression_significant(c@.len() as int, contents@.len() as int)
        },
        r matches Ok((g, z)) ==> should_compress ==> spec_variants_selected(g, z, contents@),
        r matches Err(e) ==> should_compress && (e is GzipWrite || e is GzipFinish
            || e is ZstdEncode),
{
    if !should_compress {
        return Ok((None, None));
    }
    let gz = match gzip_compress(contents) {
        Ok(c) => c,
        Err(e) => {
            return Err(e);
        },
    };
    let zs = match zstd_compress(contents) {
        Ok(c) => c,
        Err(e) => {
            return Err(e);
        },
    };
    let n = contents.len();
    let ghost gz_bytes = gz@;
    let ghost zs_bytes = zs@;
    let g = select_variant(gz, n);
    let z = select_variant(zs, n);
    proof {
        assert(gzip_inflate(gz_bytes) == Some(contents@) && ((g is Some)
            <==> spec_compression_significant(gz_bytes.len() as int, contents@.len() as int)) && (
        g matches Some(v) ==> v@ == gz_bytes));
        assert(zstd_inflate(zs_bytes) == Some(contents@) && ((z is Some)
            <==> spec_compression_significant(zs_bytes.len() as int, contents@.len() as int)) && (
        z matches Some(v) ==> v@ == zs_bytes));
    }
    Ok((g, z))
}

} // verus!
