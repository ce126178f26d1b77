//! The asset-preparation pipeline end to end, over in-memory entries.

use static_serve::classify::ClassifyConfig;
use static_serve::errors::AssetError;
use static_serve::pipeline::{prepare, FileEntry, PrepareMode, PrepareOptions};

fn entry(path: &str, contents: &[u8]) -> FileEntry {
    FileEntry { path: path.to_string(), is_dir: false, contents: contents.to_vec() }
}

fn dir_entry(path: &str) -> FileEntry {
    FileEntry { path: path.to_string(), is_dir: true, contents: Vec::new() }
}

fn dir_options(root: &str, ignore: &[&str], compress: bool, strip_html: bool) -> PrepareOptions {
    PrepareOptions {
        mode: PrepareMode::Directory {
            rules: ClassifyConfig {
                root: root.to_string(),
                ignore_dirs: ignore.iter().map(|s| s.to_string()).collect(),
                cache_busted_dirs: Vec::new(),
                cache_busted_files: Vec::new(),
                strip_html,
            },
        },
        compress,
    }
}

#[test]
fn one_js_file_without_compression() {
    let options = dir_options("/assets", &[], false, false);
    let entries = vec![entry("/assets/app.js", b"console.log(1)")];
    let descriptors = prepare(&options, &entries).unwrap();
    assert_eq!(descriptors.len(), 1);
    let d = &descriptors[0];
    assert_eq!(d.route_path.as_deref(), Some("/app.js"));
    assert_eq!(d.content_type, "text/javascript");
    assert_eq!(d.body, b"console.log(1)");
    assert!(d.body_gzip.is_none());
    assert!(d.body_zstd.is_none());
    assert!(!d.cache_busted);
    assert_eq!(d.etag.len(), 18);
}

#[test]
fn ignored_directory_never_emits_descriptors() {
    let options = dir_options("/assets", &["/assets/dist"], false, false);
    let entries = vec![
        entry("/assets/dist/hidden.txt", b"secret"),
        entry("/assets/public/app.js", b"console.log(1)"),
    ];
    let descriptors = prepare(&options, &entries).unwrap();
    assert_eq!(descriptors.len(), 1);
    assert_eq!(descriptors[0].route_path.as_deref(), Some("/public/app.js"));
}

#[test]
fn directories_are_never_descriptors() {
    let options = dir_options("/assets", &[], false, false);
    let entries = vec![
        dir_entry("/assets/sub"),
        entry("/assets/sub/a.css", b"body { }"),
    ];
    let descriptors = prepare(&options, &entries).unwrap();
    assert_eq!(descriptors.len(), 1);
    assert_eq!(descriptors[0].route_path.as_deref(), Some("/sub/a.css"));
}

#[test]
fn index_html_routes_depend_on_strip_flag() {
    let entries = vec![entry("/assets/index.html", b"<html></html>")];

    let stripped = prepare(&dir_options("/assets", &[], false, true), &entries).unwrap();
    assert_eq!(stripped[0].route_path.as_deref(), Some("/"));

    let kept = prepare(&dir_options("/assets", &[], false, false), &entries).unwrap();
    assert_eq!(kept[0].route_path.as_deref(), Some("/index.html"));
}

#[test]
fn cache_busted_paths_mark_descriptors() {
    let options = PrepareOptions {
        mode: PrepareMode::Directory {
            rules: ClassifyConfig {
                root: "/assets".to_string(),
                ignore_dirs: Vec::new(),
                cache_busted_dirs: vec!["/assets/immutable".to_string()],
                cache_busted_files: vec!["/assets/styles.css".to_string()],
                strip_html: false,
            },
        },
        compress: false,
    };
    let entries = vec![
        entry("/assets/immutable/app.js", b"console.log(1)"),
        entry("/assets/styles.css", b"body { }"),
        entry("/assets/app.js", b"console.log(2)"),
    ];
    let descriptors = prepare(&options, &entries).unwrap();
    assert_eq!(descriptors.len(), 3);
    assert!(descriptors[0].cache_busted);
    assert!(descriptors[1].cache_busted);
    assert!(!descriptors[2].cache_busted);
}

#[test]
fn unknown_extension_aborts_whole_batch() {
    let options = dir_options("/assets", &[], false, false);
    let entries = vec![
        entry("/assets/fine.css", b"body { }"),
        entry("/assets/strange.pippo", b"???"),
    ];
    match prepare(&options, &entries) {
        Err(AssetError::UnknownExtension(Some(ext))) => assert_eq!(ext, "pippo"),
        other => panic!("expected unknown extension, got {other:?}"),
    }
}

#[test]
fn single_file_mode_has_no_route() {
    let options = PrepareOptions { mode: PrepareMode::SingleFile { cache_busted: true }, compress: false };
    let entries = vec![entry("/elsewhere/logo.txt", b"hello")];
    let descriptors = prepare(&options, &entries).unwrap();
    assert_eq!(descriptors.len(), 1);
    let d = &descriptors[0];
    assert!(d.route_path.is_none());
    assert!(d.cache_busted);
    assert_eq!(d.content_type, "text/plain");
    assert_eq!(d.body, b"hello");
}

#[test]
fn compressed_pipeline_ships_worthwhile_variants() {
    let big: Vec<u8> = b"const x = 1; // padding padding padding\n"
        .iter()
        .copied()
        .cycle()
        .take(20_000)
        .collect();
    let options = dir_options("/assets", &[], true, false);
    let entries = vec![entry("/assets/app.js", &big)];
    let descriptors = prepare(&options, &entries).unwrap();
    let d = &descriptors[0];
    let gz = d.body_gzip.as_ref().expect("gzip variant");
    let zs = d.body_zstd.as_ref().expect("zstd variant");
    assert!(10 * gz.len() < 9 * big.len());
    assert!(10 * zs.len() < 9 * big.len());
    assert_eq!(zstd::stream::decode_all(&zs[..]).unwrap(), big);
    let mut out = Vec::new();
    let mut dec = flate2::bufread::GzDecoder::new(&gz[..]);
    std::io::Read::read_to_end(&mut dec, &mut out).unwrap();
    assert_eq!(out, big);
}

#[test]
fn compressed_pipeline_skips_marginal_variants() {
    let options = dir_options("/assets", &[], true, false);
    let entries = vec![entry("/assets/app.js", b"console.log(1)")];
    let descriptors = prepare(&options, &entries).unwrap();
    assert!(descriptors[0].body_gzip.is_none());
    assert!(descriptors[0].body_zstd.is_none());
}

#[test]
fn preparing_twice_gives_identical_metadata() {
    let big: Vec<u8> = b"<p>hello world</p>\n".iter().copied().cycle().take(5_000).collect();
    let options = dir_options("/assets", &[], true, true);
    let entries = vec![
        entry("/assets/index.html", &big),
        entry("/assets/app.js", b"console.log(1)"),
    ];
    let first = prepare(&options, &entries).unwrap();
    let second = prepare(&options, &entries).unwrap();
    assert_eq!(first.len(), second.len());
    for (a, b) in first.iter().zip(second.iter()) {
        assert_eq!(a.route_path, b.route_path);
        assert_eq!(a.content_type, b.content_type);
        assert_eq!(a.etag, b.etag);
        assert_eq!(a.cache_busted, b.cache_busted);
        assert_eq!(a.body, b.body);
    }
}
