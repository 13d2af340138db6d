use std::path::PathBuf;
use zsh_module::types::files::{FilePath, Zerror};

#[test]
fn new_on_an_existing_path_caches_text_and_length() {
    let fp = FilePath::new("/").unwrap();
    assert_eq!(fp.path, PathBuf::from("/"));
    assert_eq!(fp.string, "/");
    assert_eq!(fp.length, 1);
    assert_eq!(fp.as_str(), "/");
    assert_eq!(fp.as_path(), &PathBuf::from("/"));
}

#[test]
fn new_on_a_missing_path_is_file_not_found() {
    let missing = "/no/such/place/zsh-module-9f3a";
    assert_eq!(FilePath::new(missing), Err(Zerror::FileNotFound(PathBuf::from(missing))));
}

#[test]
fn the_unchecked_constructor_never_fails() {
    let missing = "/no/such/place/zsh-module-9f3a";
    let fp = FilePath::new_unchecked(missing);
    assert_eq!(fp.path, PathBuf::from(missing));
    assert_eq!(fp.string, missing);
    assert_eq!(fp.length, 30);
    let here = FilePath::new_unchecked(".");
    assert_eq!(here.string, ".");
    assert_eq!(here.length, 1);
}

#[test]
fn the_length_counts_characters_not_bytes() {
    let fp = FilePath::new_unchecked("caf\u{e9}/\u{65e5}\u{672c}");
    assert_eq!(fp.string, "caf\u{e9}/\u{65e5}\u{672c}");
    assert_eq!(fp.string.len(), 12);
    assert_eq!(fp.length, 7);
    assert_eq!(FilePath::new_unchecked("").length, 0);
}

#[test]
fn a_probe_decides_between_value_and_error() {
    let path = PathBuf::from("some/where");
    let found = FilePath::from_probe(path.clone(), true).unwrap();
    assert_eq!(found.path, path);
    assert_eq!(found.string, "some/where");
    assert_eq!(found.length, 10);
    assert_eq!(FilePath::from_probe(path.clone(), false), Err(Zerror::FileNotFound(path)));
}

#[test]
fn a_path_buf_is_checked_like_a_string() {
    let fp = FilePath::try_from_path(PathBuf::from("/")).unwrap();
    assert_eq!(fp, FilePath::new("/").unwrap());
    let missing = PathBuf::from("/no/such/place/zsh-module-9f3a");
    assert_eq!(FilePath::try_from_path(missing.clone()), Err(Zerror::FileNotFound(missing)));
    let unchecked = FilePath::from_path_unchecked(PathBuf::from("a/b"));
    assert_eq!(unchecked.string, "a/b");
    assert_eq!(unchecked.length, 3);
}

#[test]
fn set_checks_the_new_value() {
    let fp = FilePath::new("/").unwrap();
    assert_eq!(fp.clone().set("."), Ok(()));
    let missing = "/no/such/place/zsh-module-9f3a";
    assert_eq!(fp.set(missing), Err(Zerror::FileNotFound(PathBuf::from(missing))));
}
