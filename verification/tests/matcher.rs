use transcode_tree::matcher::{extension_glob, ExtensionMatcher, MatcherBuildError};
use transcode_tree::walk::{decide, decide_entry, Decision, EntryKind, WalkEntry, WalkEvent};

fn strings(items: &[&str]) -> Vec<String> {
    items.iter().map(|item| item.to_string()).collect()
}

fn file(path: &str) -> WalkEntry {
    WalkEntry { path: path.to_string(), kind: Some(EntryKind::File), error: None }
}

fn converts(matcher: &ExtensionMatcher, path: &str) -> bool {
    match decide_entry(matcher, file(path)) {
        Decision::Convert(found) => {
            assert_eq!(found, path);
            true
        }
        Decision::Skip => false,
        other => panic!("unexpected decision {:?}", other),
    }
}

#[test]
fn glob_of_an_extension() {
    assert_eq!(extension_glob("mp3"), "*.mp3");
    assert_eq!(extension_glob(""), "*.");
}

#[test]
fn matcher_accepts_files_with_a_source_extension() {
    let matcher = ExtensionMatcher::build(&strings(&["mp3"])).unwrap();
    assert!(converts(&matcher, "a.mp3"));
    assert!(converts(&matcher, "./music/deep/b.mp3"));
    assert!(converts(&matcher, "/abs/with.dots/c.d.mp3"));
    assert!(converts(&matcher, ".mp3"));
}

#[test]
fn matcher_passes_over_other_files() {
    let matcher = ExtensionMatcher::build(&strings(&["mp3"])).unwrap();
    assert!(!converts(&matcher, "c.txt"));
    assert!(!converts(&matcher, "a.mp3.txt"));
    assert!(!converts(&matcher, "mp3"));
    assert!(!converts(&matcher, "amp3"));
    assert!(!converts(&matcher, "a.mp3/b.wav"));
    assert!(!converts(&matcher, "a.opus"));
}

#[test]
fn matcher_is_case_sensitive() {
    let matcher = ExtensionMatcher::build(&strings(&["mp3"])).unwrap();
    assert!(!converts(&matcher, "a.MP3"));
    assert!(!converts(&matcher, "a.Mp3"));
}

#[test]
fn matcher_of_several_extensions() {
    let matcher = ExtensionMatcher::build(&strings(&["mp3", "wav", "flac"])).unwrap();
    assert!(converts(&matcher, "a.mp3"));
    assert!(converts(&matcher, "a.wav"));
    assert!(converts(&matcher, "a.flac"));
    assert!(!converts(&matcher, "a.ogg"));
}

#[test]
fn matcher_of_repeated_extensions() {
    let matcher = ExtensionMatcher::build(&strings(&["mp3", "wav", "mp3"])).unwrap();
    assert!(converts(&matcher, "a.mp3"));
    assert!(converts(&matcher, "a.wav"));
    assert!(!converts(&matcher, "a.txt"));
}

#[test]
fn matcher_of_no_extension_accepts_nothing() {
    let matcher = ExtensionMatcher::build(&Vec::new()).unwrap();
    assert!(!converts(&matcher, "a.mp3"));
}

#[test]
fn empty_extension_is_reported_with_its_place() {
    match ExtensionMatcher::build(&strings(&["mp3", "", "w-v"])).unwrap_err() {
        MatcherBuildError::EmptyExtension { index } => assert_eq!(index, 1),
        other => panic!("unexpected error {:?}", other),
    }
}

#[test]
fn invalid_extension_is_reported_with_its_place() {
    for bad in ["w-v", ".mp3", "all", "a b", "*", "tar.gz"] {
        match ExtensionMatcher::build(&strings(&["mp3", "wav", bad, ""])).unwrap_err() {
            MatcherBuildError::InvalidExtension { index, reason } => {
                assert_eq!(index, 2);
                assert!(reason.contains("invalid definition"));
            }
            other => panic!("unexpected error {:?}", other),
        }
    }
}

#[test]
fn letters_and_digits_of_any_script_are_usable() {
    let matcher = ExtensionMatcher::build(&strings(&["müsik", "7z", "ALL"])).unwrap();
    assert!(converts(&matcher, "a.müsik"));
    assert!(converts(&matcher, "a.7z"));
    assert!(converts(&matcher, "a.ALL"));
    assert!(!converts(&matcher, "a.all"));
}

#[test]
fn matcher_error_messages() {
    let error = ExtensionMatcher::build(&strings(&[""])).unwrap_err();
    assert_eq!(error.message(), "a source extension is empty");
    let error = ExtensionMatcher::build(&strings(&["a.b"])).unwrap_err();
    assert!(error.message().contains("invalid definition"));
    let error = MatcherBuildError::Rejected { reason: "too large".to_string() };
    assert_eq!(error.message(), "too large");
}

#[test]
fn only_regular_files_are_converted() {
    let matcher = ExtensionMatcher::build(&strings(&["mp3"])).unwrap();
    for kind in [Some(EntryKind::Directory), Some(EntryKind::Other), None] {
        let entry = WalkEntry { path: "a.mp3".to_string(), kind, error: None };
        assert!(matches!(decide_entry(&matcher, entry), Decision::Skip));
    }
}

#[test]
fn entry_with_an_error_aborts() {
    let matcher = ExtensionMatcher::build(&strings(&["mp3"])).unwrap();
    for kind in [Some(EntryKind::File), Some(EntryKind::Directory), None] {
        let entry =
            WalkEntry { path: "a.mp3".to_string(), kind, error: Some("loop found".to_string()) };
        assert!(matches!(
            decide_entry(&matcher, entry),
            Decision::Abort(message) if message == "loop found"
        ));
    }
}

#[test]
fn unreadable_entry_aborts() {
    let matcher = ExtensionMatcher::build(&strings(&["mp3"])).unwrap();
    let event = WalkEvent::Unreadable("Permission denied (os error 13)".to_string());
    assert!(matches!(
        decide(&matcher, event),
        Decision::Abort(message) if message == "Permission denied (os error 13)"
    ));
    assert!(matches!(
        decide(&matcher, WalkEvent::Found(file("a.mp3"))),
        Decision::Convert(path) if path == "a.mp3"
    ));
    assert!(matches!(decide(&matcher, WalkEvent::Found(file("c.txt"))), Decision::Skip));
}
