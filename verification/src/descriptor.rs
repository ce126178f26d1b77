//! The prepared-asset descriptor: the immutable value the build-time
//! pipeline emits for each served file and the request-time engine reads.

use vstd::prelude::*;
use crate::codec::{
    gzip_inflate, spec_compression_significant, spec_variants_selected, zstd_inflate,
};
use crate::hashing::spec_etag;

verus! {

/// One prepared asset: its routing metadata, content type, validation token,
/// raw body and optional pre-compressed variants. Descriptors are created
/// once at build time and never mutated.
#[derive(Debug)]
pub struct AssetDescriptor {
    /// URL path the asset is served at; `None` for a single unrouted asset
    /// whose binding the caller supplies.
    pub route_path: Option<String>,
    /// MIME type; never empty.
    pub content_type: String,
    /// Quoted validation token, a function of `body` alone.
    pub etag: String,
    /// Raw, uncompressed contents.
    pub body: Vec<u8>,
    /// Gzip variant, present only when the saving was significant.
    pub body_gzip: Option<Vec<u8>>,
    /// Zstd variant, present only when the saving was significant.
    pub body_zstd: Option<Vec<u8>>,
    /// Responses must carry the long-lived immutable cache directive.
    pub cache_busted: bool,
}

impl AssetDescriptor {
    /// A well-formed descriptor: the etag is the hash of the body, the
    /// content type is non-empty, and each present compressed variant
    /// decompresses to exactly the body and clears the significance bar.
    pub open spec fn wf(&self) -> bool {
        &&& self.etag@ == spec_etag(self.body@)
        &&& self.content_type@.len() > 0
        &&& self.body_gzip matches Some(g) ==> gzip_inflate(g@) == Some(self.body@)
            && spec_compression_significant(g@.len() as int, self.body@.len() as int)
        &&& self.body_zstd matches Some(z) ==> zstd_inflate(z@) == Some(self.body@)
            && spec_compression_significant(z@.len() as int, self.body@.len() as int)
    }

    /// The variants were selected by the significance rule: each codec ran
    /// over the body and its output was kept if and only if it was strictly
    /// smaller than 90% of the body.
    pub open spec fn variants_selected(&self) -> bool {
        spec_variants_selected(self.body_gzip, self.body_zstd, self.body@)
    }
}

/// A compressed variant shipped in a well-formed descriptor decompresses to
/// exactly the raw body, and is present only when it is smaller than 90% of
/// the raw size.
pub proof fn lemma_variant_round_trip(d: AssetDescriptor)
    requires
        d.wf(),
    ensures
        d.body_gzip matches Some(g) ==> gzip_inflate(g@) == Some(d.body@)
            && spec_compression_significant(g@.len() as int, d.body@.len() as int),
        d.body_zstd matches Some(z) ==> zstd_inflate(z@) == Some(d.body@)
            && spec_compression_significant(z@.len() as int, d.body@.len() as int),
{
}

} // verus!
