use plugin_cli::paths::{join_path, path_extension};

#[test]
fn join_adds_one_separator() {
    assert_eq!(join_path("/home/ann", "plugin.json"), "/home/ann/plugin.json");
    assert_eq!(join_path("/home/ann/", "plugin.json"), "/home/ann/plugin.json");
    assert_eq!(join_path("", "plugin.json"), "plugin.json");
}

#[test]
fn join_with_absolute_path_replaces_base() {
    assert_eq!(join_path("/home/ann", "/etc/hero.png"), "/etc/hero.png");
}

#[test]
fn join_matches_std_path_join() {
    for (base, rel) in [("a", "b"), ("a/", "b/c"), ("/", "x"), ("a", ""), ("a", "/b"), ("", "")] {
        let expected = std::path::Path::new(base).join(rel);
        assert_eq!(join_path(base, rel), expected.to_str().unwrap());
    }
}

#[test]
fn extension_of_last_component() {
    assert_eq!(path_extension("img/hero.PNG"), Some("PNG"));
    assert_eq!(path_extension("img/archive.tar.gz"), Some("gz"));
    assert_eq!(path_extension("img/hero"), None);
    assert_eq!(path_extension("img/.hidden"), None);
    assert_eq!(path_extension("img/.hidden.svg"), Some("svg"));
    assert_eq!(path_extension("img/hero.webp/"), Some("webp"));
    assert_eq!(path_extension("img/hero.png/."), Some("png"));
    assert_eq!(path_extension("img/.."), None);
    assert_eq!(path_extension("dot."), Some(""));
    assert_eq!(path_extension("/"), None);
    assert_eq!(path_extension(""), None);
}

#[test]
fn extension_matches_std_path_extension() {
    for p in ["a.b", "a/b.c/", "x/.y", "x/..", "a.b/.", ".", "", "/", "a..b", "c/d.e.f"] {
        let expected = std::path::Path::new(p).extension().map(|e| e.to_str().unwrap());
        assert_eq!(path_extension(p), expected, "path {p:?}");
    }
}
