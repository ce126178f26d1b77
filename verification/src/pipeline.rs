//! The asset-preparation pipeline: consumes the files discovered under an
//! assets root (or one lone file), filters and classifies them, and emits one
//! immutable descriptor per served file. Any single file's failure aborts the
//! whole preparation — a served asset set is never silently incomplete.

use vstd::prelude::*;
use crate::classify::{
    classify, is_excluded, spec_cache_busted, spec_is_path_prefix, spec_route_path,
    spec_under_any, Classification, ClassifyConfig,
};
use crate::codec::compress_variants;
use crate::content_type::{file_content_type, spec_content_type_of, spec_ext_of};
use crate::descriptor::AssetDescriptor;
use crate::errors::AssetError;
use crate::hashing::{etag, spec_etag};

verus! {

/// One file (or directory) discovered by the serving layer's traversal,
/// already canonicalized and read into memory.
pub struct FileEntry {
    /// Canonical path of the entry.
    pub path: String,
    /// The entry is a directory; directories are never turned into
    /// descriptors.
    pub is_dir: bool,
    /// The file's bytes (empty for a directory).
    pub contents: Vec<u8>,
}

/// Which of the two pipeline modes runs.
pub enum PrepareMode {
    /// Prepare every file under an assets root, classified by `rules`.
    Directory {
        /// The classification rules for the root.
        rules: ClassifyConfig,
    },
    /// Prepare one lone file: no route path, no classification, with the
    /// cache-bust flag supplied directly.
    SingleFile {
        /// The descriptor's cache-bust flag.
        cache_busted: bool,
    },
}

/// The pipeline's configuration: the mode, and whether to pre-compress.
pub struct PrepareOptions {
    /// Directory or single-file preparation.
    pub mode: PrepareMode,
    /// Run the codecs; when false no codec work is performed at all.
    pub compress: bool,
}

/// The deterministic part of one prepared descriptor: everything except the
/// compressed variants, which depend on codec outcomes.
pub ghost struct AssetMeta {
    /// The route path of a directory-mode asset.
    pub route_path: Option<Seq<char>>,
    /// The MIME type from the extension table.
    pub content_type: Seq<char>,
    /// The quoted hash of the body.
    pub etag: Seq<char>,
    /// The raw body.
    pub body: Seq<u8>,
    /// The cache-bust flag.
    pub cache_busted: bool,
}

/// What the deterministic part of a preparation yields: the metadata of
/// every served file, or the first unknown-extension failure.
pub ghost enum PrepareOutcome {
    /// The metadata of each emitted descriptor, in traversal order.
    Metas(Seq<AssetMeta>),
    /// Some included file's extension is missing or unrecognized.
    UnknownExtension(Option<Seq<char>>),
}

/// A directory-mode entry becomes a descriptor: it is a regular file and no
/// ignore-directory contains it.
pub open spec fn spec_entry_included(rules: ClassifyConfig, e: FileEntry) -> bool {
    !e.is_dir && !spec_under_any(rules.ignore_dirs.deep_view(), e.path@)
}

/// The metadata of one included directory-mode entry.
pub open spec fn spec_entry_meta(rules: ClassifyConfig, e: FileEntry) -> AssetMeta
    recommends
        spec_content_type_of(e.path@) is Some,
{
    let ct = spec_content_type_of(e.path@)->Some_0;
    AssetMeta {
        route_path: Some(
            spec_route_path(rules.root@, e.path@, rules.strip_html, ct == "text/html"@),
        ),
        content_type: ct,
        etag: spec_etag(e.contents@),
        body: e.contents@,
        cache_busted: spec_cache_busted(
            rules.cache_busted_dirs.deep_view(),
            rules.cache_busted_files.deep_view(),
            e.path@,
        ),
    }
}

/// The metadata of a single-file asset: no route path, the flag as given.
pub open spec fn spec_single_meta(cache_busted: bool, e: FileEntry) -> AssetMeta
    recommends
        spec_content_type_of(e.path@) is Some,
{
    AssetMeta {
        route_path: None,
        content_type: spec_content_type_of(e.path@)->Some_0,
        etag: spec_etag(e.contents@),
        body: e.contents@,
        cache_busted,
    }
}

/// The deterministic outcome of preparing the first `n` entries in order:
/// skipped entries contribute nothing, and the first included entry whose
/// extension the table does not know turns the whole outcome into a failure.
pub open spec fn spec_dir_outcome_prefix(
    rules: ClassifyConfig,
    entries: Seq<FileEntry>,
    n: int,
) -> PrepareOutcome
    decreases n,
{
    if n <= 0 {
        PrepareOutcome::Metas(Seq::empty())
    } else {
        match spec_dir_outcome_prefix(rules, entries, n - 1) {
            PrepareOutcome::Metas(ms) => {
                let e = entries[n - 1];
                if !spec_entry_included(rules, e) {
                    PrepareOutcome::Metas(ms)
                } else if spec_content_type_of(e.path@) is Some {
                    PrepareOutcome::Metas(ms.push(spec_entry_meta(rules, e)))
                } else {
                    PrepareOutcome::UnknownExtension(spec_ext_of(e.path@))
                }
            },
            fail => fail,
        }
    }
}

/// The deterministic outcome of a whole directory-mode preparation.
pub open spec fn spec_dir_outcome(rules: ClassifyConfig, entries: Seq<FileEntry>) -> PrepareOutcome {
    spec_dir_outcome_prefix(rules, entries, entries.len() as int)
}

/// The deterministic outcome of a preparation in either mode.
pub open spec fn spec_prepare_outcome(
    options: PrepareOptions,
    entries: Seq<FileEntry>,
) -> PrepareOutcome {
    match options.mode {
        PrepareMode::Directory { rules } => spec_dir_outcome(rules, entries),
        PrepareMode::SingleFile { cache_busted } => if spec_content_type_of(
            entries[0].path@,
        ) is Some {
            PrepareOutcome::Metas(seq![spec_single_meta(cache_busted, entries[0])])
        } else {
            PrepareOutcome::UnknownExtension(spec_ext_of(entries[0].path@))
        },
    }
}

/// What the pipeline asks of its caller: in directory mode every regular
/// file handed in lies strictly under the root (traversal outside the root
/// is rejected at discovery time); in single-file mode exactly one regular
/// file is handed in.
pub open spec fn spec_prepare_req(options: PrepareOptions, entries: Seq<FileEntry>) -> bool {
    match options.mode {
        PrepareMode::Directory { rules } => forall|i: int|
            (0 <= i < entries.len() && !entries[i].is_dir) ==> (spec_is_path_prefix(
                rules.root@,
                entries[i].path@,
            ) && entries[i].path@.len() > rules.root@.len()),
        PrepareMode::SingleFile { .. } => entries.len() == 1 && !entries[0].is_dir,
    }
}

/// One descriptor carries exactly one metadata record.
pub open spec fn spec_desc_matches_meta(d: AssetDescriptor, m: AssetMeta) -> bool {
    &&& match (d.route_path, m.route_path) {
        (Some(r), Some(s)) => r@ == s,
        (None, None) => true,
        _ => false,
    }
    &&& d.content_type@ == m.content_type
    &&& d.etag@ == m.etag
    &&& d.body@ == m.body
    &&& d.cache_busted == m.cache_busted
}

/// A successful preparation matches the deterministic outcome record for
/// record, every descriptor is well-formed, without compression no variants
/// are shipped, and with compression each descriptor's variants were kept if
/// and only if the codec's output was significant.
pub open spec fn spec_descs_match_outcome(
    ds: Seq<AssetDescriptor>,
    oc: PrepareOutcome,
    compress: bool,
) -> bool {
    match oc {
        PrepareOutcome::Metas(ms) => ds.len() == ms.len() && forall|i: int|
            0 <= i < ms.len() ==> (spec_desc_matches_meta(ds[i], ms[i]) && ds[i].wf() && (!compress
                ==> ds[i].body_gzip is None && ds[i].body_zstd is None) && (compress
                ==> ds[i].variants_selected())),
        PrepareOutcome::UnknownExtension(_) => false,
    }
}

/// A preparation error is consistent with the deterministic outcome: an
/// unknown-extension error reports exactly the first failing extension, and
/// codec errors arise only when compression was requested.
pub open spec fn spec_err_matches(e: AssetError, oc: PrepareOutcome, compress: bool) -> bool {
    match e {
        AssetError::UnknownExtension(oe) => match oc {
            PrepareOutcome::UnknownExtension(se) => match (oe, se) {
                (Some(x), Some(y)) => x@ == y,
                (None, None) => true,
                _ => false,
            },
            PrepareOutcome::Metas(_) => false,
        },
        _ => compress,
    }
}

/// Once a prefix of the entries has failed, every longer prefix reports the
/// same failure.
proof fn lemma_outcome_fail_persists(
    rules: ClassifyConfig,
    entries: Seq<FileEntry>,
    n: int,
    m: int,
)
    requires
        0 <= n <= m,
        spec_dir_outcome_prefix(rules, entries, n) is UnknownExtension,
    ensures
        spec_dir_outcome_prefix(rules, entries, m) == spec_dir_outcome_prefix(rules, entries, n),
    decreases m - n,
{
    if n < m {
        lemma_outcome_fail_persists(rules, entries, n, m - 1);
    }
}

/// Prepare one included file into a descriptor with no route and no
/// cache-bust flag yet: compress (when requested), type, hash.
fn prepare_entry(contents: &Vec<u8>, path: &str, compress: bool) -> (r: Result<
    AssetDescriptor,
    AssetError,
>)
    ensures
        r matches Ok(d) ==> {
            &&& spec_content_type_of(path@) is Some
            &&& d.content_type@ == spec_content_type_of(path@)->Some_0
            &&& d.etag@ == spec_etag(contents@)
            &&& d.body@ == contents@
            &&& d.cache_busted == false
            &&& d.route_path is None
            &&& d.wf()
            &&& !compress ==> d.body_gzip is None && d.body_zstd is None
            &&& compress ==> d.variants_selected()
        },
        r matches Err(e) ==> match e {
            AssetError::UnknownExtension(oe) => spec_content_type_of(path@) is None && match oe {
                Some(x) => spec_ext_of(path@) == Some(x@),
                None => spec_ext_of(path@) is None,
            },
            _ => compress,
        },
        spec_content_type_of(path@) is None ==> r is Err,
{
    let (body_gzip, body_zstd) = match compress_variants(contents.as_slice(), compress) {
        Ok(v) => v,
        Err(e) => {
            return Err(e);
        },
    };
    let content_type = match file_content_type(path) {
        Ok(ct) => ct,
        Err(e) => {
            return Err(e);
        },
    };
    let tag = etag(contents.as_slice());
    Ok(
        AssetDescriptor {
            route_path: None,
            content_type,
            etag: tag,
            body: vstd::slice::slice_to_vec(contents.as_slice()),
            body_gzip,
            body_zstd,
            cache_busted: false,
        },
    )
}

/// Prepare a directory (or single file) of discovered entries into the list
/// of descriptors to serve, failing fast on the first bad asset.
pub fn prepare(options: &PrepareOptions, entries: &Vec<FileEntry>) -> (r: Result<
    Vec<AssetDescriptor>,
    AssetError,
>)
    requires
        spec_prepare_req(*options, entries@),
    ensures
        r matches Ok(ds) ==> spec_descs_match_outcome(
            ds@,
            spec_prepare_outcome(*options, entries@),
            options.compress,
        ),
        r matches Err(e) ==> spec_err_matches(
            e,
            spec_prepare_outcome(*options, entries@),
            options.compress,
        ),
        spec_prepare_outcome(*options, entries@) is UnknownExtension ==> r is Err,
{
    match &options.mode {
        PrepareMode::SingleFile { cache_busted } => {
            let e = &entries[0];
            match prepare_entry(&e.contents, e.path.as_str(), options.compress) {
                Ok(d) => {
                    let d = AssetDescriptor {
                        route_path: None,
                        content_type: d.content_type,
                        etag: d.etag,
                        body: d.body,
                        body_gzip: d.body_gzip,
                        body_zstd: d.body_zstd,
                        cache_busted: *cache_busted,
                    };
                    let mut out: Vec<AssetDescriptor> = Vec::new();
                    out.push(d);
                    Ok(out)
                },
                Err(err) => Err(err),
            }
        },
        PrepareMode::Directory { rules } => {
            let n = entries.len();
            let mut out: Vec<AssetDescriptor> = Vec::new();
            let mut i: usize = 0;
            while i < n
                invariant
                    n == entries@.len(),
                    i <= n,
                    spec_prepare_req(*options, entries@),
                    options.mode == (PrepareMode::Directory { rules: *rules }),
                    spec_dir_outcome_prefix(*rules, entries@, i as int) is Metas,
                    spec_descs_match_outcome(
                        out@,
                        spec_dir_outcome_prefix(*rules, entries@, i as int),
                        options.compress,
                    ),
                decreases n - i,
            {
                let ghost prev = spec_dir_outcome_prefix(*rules, entries@, i as int);
                let e = &entries[i];
                if !e.is_dir && !is_excluded(rules, e.path.as_str()) {
                    let d = match prepare_entry(&e.contents, e.path.as_str(), options.compress) {
                        Ok(d) => d,
                        Err(err) => {
                            proof {
                                if err is UnknownExtension {
                                    assert(spec_dir_outcome_prefix(*rules, entries@, i + 1)
                                        == PrepareOutcome::UnknownExtension(
                                        spec_ext_of(entries@[i as int].path@),
                                    ));
                                    lemma_outcome_fail_persists(
                                        *rules,
                                        entries@,
                                        i + 1,
                                        entries@.len() as int,
                                    );
                                }
                            }
                            return Err(err);
                        },
                    };
                    let (route_path, cache_busted) = match classify(
                        rules,
                        e.path.as_str(),
                        d.content_type.as_str(),
                    ) {
                        Classification::Included { route_path, cache_busted } => (
                            route_path,
                            cache_busted,
                        ),
                        Classification::Excluded => unreached(),
                    };
                    let d = AssetDescriptor {
                        route_path: Some(route_path),
                        content_type: d.content_type,
                        etag: d.etag,
                        body: d.body,
                        body_gzip: d.body_gzip,
                        body_zstd: d.body_zstd,
                        cache_busted,
                    };
                    out.push(d);
                    proof {
                        let ms = prev->Metas_0;
                        assert(spec_entry_included(*rules, entries@[i as int]));
                        assert(spec_dir_outcome_prefix(*rules, entries@, i + 1)
                            == PrepareOutcome::Metas(
                            ms.push(spec_entry_meta(*rules, entries@[i as int])),
                        ));
                        assert(spec_desc_matches_meta(
                            out@[out@.len() - 1],
                            spec_entry_meta(*rules, entries@[i as int]),
                        ));
                    }
                } else {
                    proof {
                        assert(!spec_entry_included(*rules, entries@[i as int]));
                        assert(spec_dir_outcome_prefix(*rules, entries@, i + 1) == prev);
                    }
                }
                i = i + 1;
            }
            Ok(out)
        },
    }
}

/// Preparing the same entries with the same options twice yields descriptor
/// lists of the same length whose route paths, content types, etags, bodies
/// and cache-bust flags agree record for record.
pub proof fn lemma_prepare_idempotent(
    options: PrepareOptions,
    entries: Seq<FileEntry>,
    ds1: Seq<AssetDescriptor>,
    ds2: Seq<AssetDescriptor>,
)
    requires
        spec_descs_match_outcome(ds1, spec_prepare_outcome(options, entries), options.compress),
        spec_descs_match_outcome(ds2, spec_prepare_outcome(options, entries), options.compress),
    ensures
        ds1.len() == ds2.len(),
        forall|i: int|
            0 <= i < ds1.len() ==> {
                &&& ds1[i].etag@ == ds2[i].etag@
                &&& ds1[i].content_type@ == ds2[i].content_type@
                &&& ds1[i].cache_busted == ds2[i].cache_busted
                &&& ds1[i].body@ == ds2[i].body@
                &&& match (ds1[i].route_path, ds2[i].route_path) {
                    (Some(a), Some(b)) => a@ == b@,
                    (None, None) => true,
                    _ => false,
                }
            },
{
}

} // verus!
