use transcode_tree::config::Args;
use transcode_tree::converter::Converter;
use transcode_tree::paths::{is_separator_free, relative_display, select_display_path};

fn converter_in(base: Option<&str>) -> Converter {
    Converter::new(Args::default(), base.map(|dir| dir.to_string())).unwrap()
}

#[test]
fn separators_are_found() {
    assert!(is_separator_free(""));
    assert!(is_separator_free("opus"));
    assert!(is_separator_free("tar.gz"));
    assert!(!is_separator_free("/"));
    assert!(!is_separator_free("a/b"));
    assert!(!is_separator_free("ab\\"));
    assert!(is_separator_free("späße"));
    assert!(!is_separator_free("späße/"));
}

#[test]
fn display_path_prefers_relative_then_canonical_then_raw() {
    assert_eq!(
        select_display_path(Some("a.mp3".to_string()), Some("/m/a.mp3".to_string()), "./a.mp3"),
        "a.mp3"
    );
    assert_eq!(select_display_path(None, Some("/m/a.mp3".to_string()), "./a.mp3"), "/m/a.mp3");
    assert_eq!(select_display_path(Some("a.mp3".to_string()), None, "./a.mp3"), "a.mp3");
    assert_eq!(select_display_path(None, None, "./a.mp3"), "./a.mp3");
}

#[test]
fn relative_display_below_the_base() {
    let base = Some("/foo/bar".to_string());
    assert_eq!(relative_display("/foo/bar/baz", &base), Some("baz".to_string()));
    assert_eq!(relative_display("/foo/bar/quux/a.mp3", &base), Some("quux/a.mp3".to_string()));
}

#[test]
fn relative_display_beside_and_above_the_base() {
    let base = Some("/foo/bar/baz".to_string());
    assert_eq!(relative_display("/foo/bar/quux", &base), Some("../quux".to_string()));
    assert_eq!(relative_display("/foo/bar", &base), Some("..".to_string()));
    assert_eq!(relative_display("/foo/bar/baz", &base), Some(String::new()));
}

#[test]
fn relative_display_of_mixed_paths() {
    assert_eq!(
        relative_display("/foo/bar", &Some("baz".to_string())),
        Some("/foo/bar".to_string())
    );
    assert_eq!(relative_display("foo/bar", &Some("/baz".to_string())), None);
    assert_eq!(relative_display("foo", &Some("bar".to_string())), Some("../foo".to_string()));
    assert_eq!(relative_display("a.mp3", &Some("..".to_string())), None);
}

#[test]
fn relative_display_without_base() {
    assert_eq!(relative_display("/foo/bar", &None), None);
}

#[test]
fn converter_shows_paths_relative_to_its_base() {
    let converter = converter_in(Some("/music"));
    assert_eq!(converter.relative_display("/music/a/b.mp3"), Some("a/b.mp3".to_string()));
    assert_eq!(converter.get_display_path("/music/a/b.mp3", None), "a/b.mp3");
    assert_eq!(
        converter.get_display_path("/music/a/b.mp3", Some("/mnt/music/a/b.mp3".to_string())),
        "a/b.mp3"
    );
}

#[test]
fn converter_falls_back_to_canonical_then_raw() {
    let converter = converter_in(Some("/music"));
    assert_eq!(converter.relative_display("a.mp3"), None);
    assert_eq!(
        converter.get_display_path("a.mp3", Some("/music/a.mp3".to_string())),
        "/music/a.mp3"
    );
    assert_eq!(converter.get_display_path("a.mp3", None), "a.mp3");
    let nowhere = converter_in(None);
    assert_eq!(nowhere.get_display_path("/music/a.mp3", None), "/music/a.mp3");
    assert_eq!(
        nowhere.get_display_path("./a.mp3", Some("/music/a.mp3".to_string())),
        "/music/a.mp3"
    );
}
