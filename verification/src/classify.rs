//! Path classification: decides, for each discovered file, whether it is
//! excluded by an ignore-directory, whether it is cache-busted, and what
//! route path it is served at (including the pretty-URL rewrite for HTML).

use vstd::prelude::*;
use vstd::string::StrSliceExecFns;
use vstd::string::StringExecFns;
use crate::text::{spec_ends_with, spec_starts_with, str_ends_with, str_eq, str_starts_with};

verus! {

/// Segment-aware path-prefix containment: `prefix` names the path itself or
/// an ancestor directory of it. A prefix must end exactly at a separator, so
/// `/ab` is not a prefix of `/abcd`.
pub open spec fn spec_is_path_prefix(prefix: Seq<char>, path: Seq<char>) -> bool {
    path == prefix || (path.len() > prefix.len() && spec_starts_with(path, prefix) && path[
        prefix.len() as int
    ] == '/')
}

/// Test segment-aware path-prefix containment.
pub fn is_path_prefix(prefix: &str, path: &str) -> (r: bool)
    ensures
        r == spec_is_path_prefix(prefix@, path@),
{
    if str_eq(path, prefix) {
        true
    } else if str_starts_with(path, prefix) {
        let p_len = prefix.unicode_len();
        let len = path.unicode_len();
        if len > p_len {
            path.get_char(p_len) == '/'
        } else {
            false
        }
    } else {
        false
    }
}

/// Some directory in the list contains the path.
pub open spec fn spec_under_any(dirs: Seq<Seq<char>>, path: Seq<char>) -> bool {
    exists|i: int| 0 <= i < dirs.len() && spec_is_path_prefix(dirs[i], path)
}

fn under_any(dirs: &Vec<String>, path: &str) -> (r: bool)
    ensures
        r == spec_under_any(dirs.deep_view(), path@),
{
    let n = dirs.len();
    let mut i: usize = 0;
    while i < n
        invariant
            n == dirs@.len(),
            i <= n,
            forall|j: int| 0 <= j < i ==> !spec_is_path_prefix(dirs.deep_view()[j], path@),
        decreases n - i,
    {
        if is_path_prefix(dirs[i].as_str(), path) {
            assert(spec_is_path_prefix(dirs.deep_view()[i as int], path@));
            return true;
        }
        i = i + 1;
    }
    false
}

/// Some entry in the list equals the path exactly.
pub open spec fn spec_listed(files: Seq<Seq<char>>, path: Seq<char>) -> bool {
    exists|i: int| 0 <= i < files.len() && files[i] == path
}

fn listed(files: &Vec<String>, path: &str) -> (r: bool)
    ensures
        r == spec_listed(files.deep_view(), path@),
{
    let n = files.len();
    let mut i: usize = 0;
    while i < n
        invariant
            n == files@.len(),
            i <= n,
            forall|j: int| 0 <= j < i ==> files.deep_view()[j] != path@,
        decreases n - i,
    {
        if str_eq(files[i].as_str(), path) {
            assert(files.deep_view()[i as int] == path@);
            return true;
        }
        i = i + 1;
    }
    false
}

/// The pretty-URL rewrite for an HTML path: drop a trailing `.html` or
/// `.htm`, and if the remainder ends in `/index`, drop the trailing `index`
/// segment as well (leaving the trailing slash).
pub open spec fn spec_strip_html_ext(path: Seq<char>) -> Seq<char> {
    let stripped = if spec_ends_with(path, ".html"@) {
        path.subrange(0, path.len() - 5)
    } else if spec_ends_with(path, ".htm"@) {
        path.subrange(0, path.len() - 4)
    } else {
        path
    };
    if spec_ends_with(stripped, "/index"@) {
        stripped.subrange(0, stripped.len() - 5)
    } else {
        stripped
    }
}

/// Apply the pretty-URL rewrite to a path.
pub fn strip_html_ext(path: &str) -> (r: String)
    ensures
        r@ == spec_strip_html_ext(path@),
{
    proof {
        reveal_strlit(".html");
        reveal_strlit(".htm");
        reveal_strlit("/index");
    }
    let len = path.unicode_len();
    let stripped: &str = if str_ends_with(path, ".html") {
        path.substring_char(0, len - 5)
    } else if str_ends_with(path, ".htm") {
        path.substring_char(0, len - 4)
    } else {
        path
    };
    let s_len = stripped.unicode_len();
    if str_ends_with(stripped, "/index") {
        String::from_str(stripped.substring_char(0, s_len - 5))
    } else {
        String::from_str(stripped)
    }
}

/// The classification rules for one assets directory: the canonical root,
/// canonical ignore-directories, canonical cache-busted directories and
/// files, and the pretty-URL flag.
pub struct ClassifyConfig {
    /// Canonical assets root, without a trailing separator.
    pub root: String,
    /// Candidates under any of these directories are excluded.
    pub ignore_dirs: Vec<String>,
    /// Candidates under any of these directories are cache-busted.
    pub cache_busted_dirs: Vec<String>,
    /// Candidates equal to any of these paths are cache-busted.
    pub cache_busted_files: Vec<String>,
    /// Rewrite `text/html` routes to pretty URLs.
    pub strip_html: bool,
}

/// The verdict on one candidate file.
pub enum Classification {
    /// The candidate lies under an ignore-directory and is not served.
    Excluded,
    /// The candidate is served at `route_path`.
    Included { route_path: String, cache_busted: bool },
}

/// Is the candidate under one of the configured ignore-directories?
pub fn is_excluded(config: &ClassifyConfig, path: &str) -> (r: bool)
    ensures
        r == spec_under_any(config.ignore_dirs.deep_view(), path@),
{
    under_any(&config.ignore_dirs, path)
}

/// The candidate is cache-busted: an ancestor directory is listed, or the
/// path itself is listed as a file.
pub open spec fn spec_cache_busted(
    dirs: Seq<Seq<char>>,
    files: Seq<Seq<char>>,
    path: Seq<char>,
) -> bool {
    spec_under_any(dirs, path) || spec_listed(files, path)
}

/// The route path of an included candidate: the root-relative path, with the
/// pretty-URL rewrite applied when requested and the candidate is HTML.
pub open spec fn spec_route_path(
    root: Seq<char>,
    path: Seq<char>,
    strip_html: bool,
    is_html: bool,
) -> Seq<char> {
    let rel = path.subrange(root.len() as int, path.len() as int);
    if strip_html && is_html {
        spec_strip_html_ext(rel)
    } else {
        rel
    }
}

proof fn lemma_strip_keeps_leading_slash(s: Seq<char>)
    requires
        s.len() > 0,
        s[0] == '/',
    ensures
        spec_strip_html_ext(s).len() > 0,
        spec_strip_html_ext(s)[0] == '/',
{
    reveal_strlit(".html");
    reveal_strlit(".htm");
    reveal_strlit("/index");
    if spec_ends_with(s, ".html"@) {
        if s.len() == 5 {
            assert(s =~= ".html"@);
            assert(false);
        }
    } else if spec_ends_with(s, ".htm"@) {
        if s.len() == 4 {
            assert(s =~= ".htm"@);
            assert(false);
        }
    }
}

/// An included candidate's route path is rooted: it is non-empty and begins
/// with the path separator, whatever the pretty-URL flag says, so a route
/// never escapes the assets root.
pub proof fn lemma_route_path_rooted(
    root: Seq<char>,
    path: Seq<char>,
    strip_html: bool,
    is_html: bool,
)
    requires
        path.len() > root.len(),
        spec_starts_with(path, root),
        path[root.len() as int] == '/',
    ensures
        spec_route_path(root, path, strip_html, is_html).len() > 0,
        spec_route_path(root, path, strip_html, is_html)[0] == '/',
{
    let rel = path.subrange(root.len() as int, path.len() as int);
    assert(rel.len() > 0 && rel[0] == '/');
    if strip_html && is_html {
        lemma_strip_keeps_leading_slash(rel);
    }
}

/// Classify one discovered file against the configured rules. The candidate
/// must lie strictly under the configured root.
pub fn classify(config: &ClassifyConfig, path: &str, content_type: &str) -> (r: Classification)
    requires
        spec_is_path_prefix(config.root@, path@),
        path@.len() > config.root@.len(),
    ensures
        (r is Excluded) == spec_under_any(config.ignore_dirs.deep_view(), path@),
        r matches Classification::Included { route_path, cache_busted } ==> {
            &&& route_path@ == spec_route_path(
                config.root@,
                path@,
                config.strip_html,
                content_type@ == "text/html"@,
            )
            &&& cache_busted == spec_cache_busted(
                config.cache_busted_dirs.deep_view(),
                config.cache_busted_files.deep_view(),
                path@,
            )
        },
{
    if under_any(&config.ignore_dirs, path) {
        return Classification::Excluded;
    }
    let cache_busted = under_any(&config.cache_busted_dirs, path) || listed(
        &config.cache_busted_files,
        path,
    );
    let root_len = config.root.as_str().unicode_len();
    let len = path.unicode_len();
    let rel = path.substring_char(root_len, len);
    let route_path = if config.strip_html && str_eq(content_type, "text/html") {
        strip_html_ext(rel)
    } else {
        String::from_str(rel)
    };
    Classification::Included { route_path, cache_busted }
}

} // verus!
