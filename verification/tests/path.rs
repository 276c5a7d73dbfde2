//! Filesystem paths, held against those of the standard library.

use abap_lsp::path::FilePath;
use std::path::Path;

const PATHS: [&str; 40] = [
    "", "/", "//", ".", "./", "..", "../", "a", "a/", "a//", "/a", "/a/", "a/b", "a/b/", "a//b",
    "/a/b", "a/.", "a/./", "a/./b", "a/..", "a/../", "a/../b", "./a", "./a/b", "./.", "././a",
    "/.", "/..", "/./a", "/../a", "...", "a/...", ".a", "a.b", "a/.b", ".//a", "//a//b//",
    "a/.//.", "/a/./.", "ä/€/😀",
];

const NAMES: [&str; 6] = ["n", "destinations.toml", "x/y", "", "/abs", "."];

fn text(path: &FilePath) -> String {
    String::from_utf8(path.bytes.clone()).unwrap()
}

#[test]
fn joining_follows_the_standard_library() {
    for path in PATHS {
        for name in NAMES {
            let joined = FilePath::from_text(path).join(name);
            assert_eq!(text(&joined), Path::new(path).join(name).to_str().unwrap(), "{path} {name}");
        }
    }
}

#[test]
fn renaming_follows_the_standard_library() {
    for path in PATHS {
        for name in NAMES {
            let renamed = FilePath::from_text(path).with_file_name(name);
            assert_eq!(
                Path::new(&text(&renamed)),
                Path::new(path).with_file_name(name),
                "{path} {name}"
            );
        }
    }
}

#[test]
fn absolute_paths_are_those_of_the_standard_library() {
    for path in PATHS {
        assert_eq!(FilePath::from_text(path).is_absolute(), Path::new(path).is_absolute(), "{path}");
    }
}

#[test]
fn files_in_a_directory_are_siblings() {
    let file = FilePath::from_text("/home/user/.config").join("ziege").join("config.toml");
    assert_eq!(text(&file), "/home/user/.config/ziege/config.toml");
    assert_eq!(
        text(&file.with_file_name("destinations.toml")),
        "/home/user/.config/ziege/destinations.toml"
    );
}

#[test]
fn paths_are_compared_by_their_bytes() {
    let path = FilePath::from_text("/a");
    assert!(path.same(&path.clone()));
    assert!(!path.same(&FilePath::from_text("/a/")));
    assert!(!path.same(&FilePath::from_text("/b")));
}

#[test]
fn paths_that_are_no_text_are_shown_as_the_standard_library_shows_them() {
    for bytes in [
        b"/plain".to_vec(),
        "/ä€".as_bytes().to_vec(),
        vec![0x2f, 0xff, 0x61],
        vec![0x2f, 0xe2, 0x82],
        vec![0xf0, 0x9f, 0x41, 0x80],
    ] {
        let shown = FilePath { bytes: bytes.clone() }.display();
        assert_eq!(shown, String::from_utf8_lossy(&bytes));
    }
    assert_eq!(FilePath { bytes: vec![0x2f, 0xff, 0x61] }.display(), "/\u{fffd}a");
}
