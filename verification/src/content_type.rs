//! Mapping a file path to a MIME type: the extension is taken from the final
//! path segment and looked up in the extension table. An absent or
//! unrecognized extension is a hard error — no fallback type is produced.

use vstd::prelude::*;
use vstd::string::StrSliceExecFns;
use vstd::string::StringExecFns;
use crate::errors::AssetError;
use crate::text::{after_last_char, spec_after_last};

verus! {

/// The extension of the path's final segment: the part after the last dot,
/// provided that dot lies inside the segment and is not its first character
/// (so `archive.tar.gz` has extension `gz`, while `.gitignore` and a
/// dot-free name have none, and `name.` has the empty extension).
pub open spec fn spec_ext_of(path: Seq<char>) -> Option<Seq<char>> {
    let name_start = spec_after_last(path, '/');
    let dot_after = spec_after_last(path, '.');
    if dot_after > name_start + 1 {
        Some(path.subrange(dot_after, path.len() as int))
    } else {
        None
    }
}

/// Extract the extension of the path's final segment.
pub fn extension_of(path: &str) -> (r: Option<String>)
    ensures
        r matches Some(e) ==> spec_ext_of(path@) == Some(e@),
        r is None ==> spec_ext_of(path@) is None,
{
    let len = path.unicode_len();
    let name_start = after_last_char(path, '/');
    let dot_after = after_last_char(path, '.');
    if dot_after > name_start && dot_after - name_start >= 2 {
        proof {
            crate::text::lemma_after_last(path@, '.');
        }
        Some(String::from_str(path.substring_char(dot_after, len)))
    } else {
        None
    }
}

/// What mime_guess's extension table maps an extension to: the first (and
/// preferred) MIME type string, a fixed function of the extension alone.
pub uninterp spec fn mime_lookup(ext: Seq<char>) -> Option<Seq<char>>;

/// Relies on mime_guess::MimeGuess::from_ext(..).first_raw(): the preferred
/// MIME type for the extension, read from a fixed table; a returned type
/// string is never empty.
#[verifier::external_body]
fn guess_mime(ext: &str) -> (r: Option<String>)
    ensures
        r matches Some(m) ==> mime_lookup(ext@) == Some(m@) && m@.len() > 0,
        r is None ==> mime_lookup(ext@) is None,
{
    mime_guess::MimeGuess::from_ext(ext).first_raw().map(|g| g.to_owned())
}

/// The MIME type of a path: the extension table's answer for its extension,
/// `None` when the path has no extension or the table does not know it.
pub open spec fn spec_content_type_of(path: Seq<char>) -> Option<Seq<char>> {
    match spec_ext_of(path) {
        Some(e) => mime_lookup(e),
        None => None,
    }
}

/// Determine the MIME type of a file from its path, failing fast on an
/// absent or unrecognized extension.
pub fn file_content_type(path: &str) -> (r: Result<String, AssetError>)
    ensures
        r matches Ok(m) ==> spec_content_type_of(path@) == Some(m@) && m@.len() > 0,
        r matches Err(e) ==> {
            &&& spec_content_type_of(path@) is None
            &&& e matches AssetError::UnknownExtension(oe)
            &&& match oe {
                Some(x) => spec_ext_of(path@) == Some(x@),
                None => spec_ext_of(path@) is None,
            }
        },
{
    match extension_of(path) {
        Some(ext) => match guess_mime(ext.as_str()) {
            Some(m) => Ok(m),
            None => Err(AssetError::UnknownExtension(Some(ext))),
        },
        None => Err(AssetError::UnknownExtension(None)),
    }
}

} // verus!
