use transcode_tree::invoke::{
    after_process, after_removal, begin_conversion, transcoder_invocation, Followup, Outcome,
    ProcessResult, Step,
};

fn strings(items: &[&str]) -> Vec<String> {
    items.iter().map(|item| item.to_string()).collect()
}

#[test]
fn invocation_without_extra_arguments() {
    let invocation = transcoder_invocation("a.mp3", &Vec::new(), "a.opus");
    assert_eq!(invocation.program, "ffmpeg");
    assert_eq!(invocation.args, strings(&["-i", "a.mp3", "a.opus"]));
}

#[test]
fn invocation_puts_extra_arguments_before_the_output() {
    let extra = strings(&["-b:a", "96k", "-vn"]);
    let invocation = transcoder_invocation("in dir/a.mp3", &extra, "in dir/a.opus");
    assert_eq!(invocation.program, "ffmpeg");
    assert_eq!(
        invocation.args,
        strings(&["-i", "in dir/a.mp3", "-b:a", "96k", "-vn", "in dir/a.opus"])
    );
}

#[test]
fn live_conversion_begins_with_the_command() {
    match begin_conversion(false, false, "music/a.mp3", "opus", &strings(&["-vn"])) {
        Step::Execute { invocation, output } => {
            assert_eq!(output, "music/a.opus");
            assert_eq!(invocation.program, "ffmpeg");
            assert_eq!(invocation.args, strings(&["-i", "music/a.mp3", "-vn", "music/a.opus"]));
        }
        other => panic!("unexpected step {:?}", other),
    }
}

#[test]
fn dry_run_only_previews() {
    match begin_conversion(true, false, "music/a.mp3", "opus", &Vec::new()) {
        Step::Preview { invocation, removes_source, outcome } => {
            assert!(removes_source);
            assert_eq!(invocation.program, "ffmpeg");
            assert_eq!(invocation.args, strings(&["-i", "music/a.mp3", "music/a.opus"]));
            assert!(matches!(outcome, Outcome::Converted(path) if path == "music/a.opus"));
        }
        other => panic!("unexpected step {:?}", other),
    }
}

#[test]
fn dry_run_that_preserves_announces_no_removal() {
    match begin_conversion(true, true, "a.mp3", "opus", &Vec::new()) {
        Step::Preview { removes_source, outcome, .. } => {
            assert!(!removes_source);
            assert!(matches!(outcome, Outcome::Converted(path) if path == "a.opus"));
        }
        other => panic!("unexpected step {:?}", other),
    }
}

#[test]
fn output_path_replaces_only_the_last_extension() {
    let cases = [
        ("a.mp3", "opus", "a.opus"),
        ("dir.d/a.b.mp3", "opus", "dir.d/a.b.opus"),
        ("a", "opus", "a.opus"),
        (".mp3", "opus", ".mp3.opus"),
        ("/abs/x.wav", "tar.gz", "/abs/x.tar.gz"),
    ];
    for (input, extension, expected) in cases {
        match begin_conversion(false, true, input, extension, &Vec::new()) {
            Step::Execute { output, .. } => assert_eq!(output, expected),
            other => panic!("unexpected step {:?}", other),
        }
    }
}

#[test]
fn failed_process_reports_its_error_text() {
    let result = ProcessResult::Exited { success: false, stderr: b"codec error".to_vec() };
    for preserve in [false, true] {
        let result = match &result {
            ProcessResult::Exited { success, stderr } => {
                ProcessResult::Exited { success: *success, stderr: stderr.clone() }
            }
            ProcessResult::NotStarted(reason) => ProcessResult::NotStarted(reason.clone()),
        };
        match after_process(preserve, "a.mp3", "a.opus".to_string(), result) {
            Followup::Finish(Outcome::Failed(reason)) => assert_eq!(reason, "codec error"),
            other => panic!("unexpected followup {:?}", other),
        }
    }
}

#[test]
fn failed_process_with_broken_text_is_decoded_lossily() {
    let result = ProcessResult::Exited { success: false, stderr: vec![b'o', 0xff, b'k'] };
    match after_process(false, "a.mp3", "a.opus".to_string(), result) {
        Followup::Finish(Outcome::Failed(reason)) => assert_eq!(reason, "o\u{fffd}k"),
        other => panic!("unexpected followup {:?}", other),
    }
}

#[test]
fn process_that_did_not_start_fails_with_the_reason() {
    let result = ProcessResult::NotStarted("No such file or directory (os error 2)".to_string());
    match after_process(false, "a.mp3", "a.opus".to_string(), result) {
        Followup::Finish(Outcome::Failed(reason)) => {
            assert_eq!(reason, "No such file or directory (os error 2)")
        }
        other => panic!("unexpected followup {:?}", other),
    }
}

#[test]
fn successful_process_has_the_source_removed() {
    let result = ProcessResult::Exited { success: true, stderr: b"warnings".to_vec() };
    match after_process(false, "a.mp3", "a.opus".to_string(), result) {
        Followup::Remove { source, output } => {
            assert_eq!(source, "a.mp3");
            assert_eq!(output, "a.opus");
        }
        other => panic!("unexpected followup {:?}", other),
    }
}

#[test]
fn successful_process_keeps_a_preserved_source() {
    let result = ProcessResult::Exited { success: true, stderr: Vec::new() };
    match after_process(true, "a.mp3", "a.opus".to_string(), result) {
        Followup::Finish(Outcome::Converted(output)) => assert_eq!(output, "a.opus"),
        other => panic!("unexpected followup {:?}", other),
    }
}

#[test]
fn removal_decides_the_outcome() {
    assert!(matches!(
        after_removal("a.opus".to_string(), Ok(())),
        Outcome::Converted(output) if output == "a.opus"
    ));
    assert!(matches!(
        after_removal("a.opus".to_string(), Err("Permission denied".to_string())),
        Outcome::Failed(reason) if reason == "Permission denied"
    ));
}

#[test]
fn outcome_gives_its_output_and_its_line() {
    let converted = Outcome::Converted("a.opus".to_string());
    assert_eq!(converted.output(), Some(&"a.opus".to_string()));
    assert_eq!(converted.report_line("music/a.opus"), "Finished converting 'music/a.opus'");
    let failed = Outcome::Failed("codec error".to_string());
    assert_eq!(failed.output(), None);
    assert_eq!(failed.report_line("music/a.opus"), "codec error");
}
