//! Build-time preparation and request-time negotiation for static web assets.
//!
//! The library prepares a set of static files for serving: it classifies each
//! file path against ignore and cache-bust rules, determines a MIME type from
//! the file extension, hashes the contents into an etag, and optionally
//! pre-compresses the body with gzip and zstd. At request time, a pure
//! negotiation engine picks an encoding, honours conditional-match headers,
//! and serves byte ranges of the raw body.

pub mod classify;
pub mod codec;
pub mod content_type;
pub mod descriptor;
pub mod errors;
pub mod hashing;
pub mod negotiate;
pub mod pipeline;
pub mod text;

pub use classify::{classify, strip_html_ext, Classification, ClassifyConfig};
pub use codec::is_compression_significant;
pub use descriptor::AssetDescriptor;
pub use errors::AssetError;
pub use negotiate::{negotiate, HttpResponse, NegotiationRequest};
pub use pipeline::{prepare, FileEntry, PrepareMode, PrepareOptions};
