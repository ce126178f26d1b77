//! Errors raised while preparing an asset. Every error here is a build-time
//! hard failure: one bad asset aborts the whole preparation.

use vstd::prelude::*;
use vstd::string::StringExecFns;

verus! {

/// Why preparing an asset failed.
#[derive(Debug, Clone)]
pub enum AssetError {
    /// The file's extension is missing (`None`) or not a recognized MIME
    /// type mapping (`Some` of the extension).
    UnknownExtension(Option<String>),
    /// The gzip compressor could not accept the input.
    GzipWrite,
    /// The gzip encoder failed to finalize the stream.
    GzipFinish,
    /// The zstd encoder failed to produce a frame.
    ZstdEncode,
}

/// The diagnostic text of each error.
pub open spec fn spec_message(e: AssetError) -> Seq<char> {
    match e {
        AssetError::UnknownExtension(oe) => match oe {
            Option::None => "Missing file extension"@,
            Option::Some(ext) => "Unknown file extension in directory of static assets: "@
                + ext@,
        },
        AssetError::GzipWrite => "The compressor could not write"@,
        AssetError::GzipFinish => "The encoder could not complete the `finish` procedure"@,
        AssetError::ZstdEncode => "The encoder could not produce a zstd frame"@,
    }
}

impl AssetError {
    /// Render the error as a human-readable message.
    pub fn message(&self) -> (r: String)
        ensures
            r@ == spec_message(*self),
    {
        match self {
            AssetError::UnknownExtension(oe) => match oe {
                Option::None => String::from_str("Missing file extension"),
                Option::Some(ext) => String::from_str(
                    "Unknown file extension in directory of static assets: ",
                ).concat(ext.as_str()),
            },
            AssetError::GzipWrite => String::from_str("The compressor could not write"),
            AssetError::GzipFinish => String::from_str(
                "The encoder could not complete the `finish` procedure",
            ),
            AssetError::ZstdEncode => String::from_str(
                "The encoder could not produce a zstd frame",
            ),
        }
    }
}

} // verus!
