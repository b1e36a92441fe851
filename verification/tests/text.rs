use transcode_tree::text::{
    render_banner, render_converted_line, render_decimal, render_errors_line, render_finish_line,
    render_quoted_list, render_removal_preview_line, render_start_line,
};

fn strings(items: &[&str]) -> Vec<String> {
    items.iter().map(|item| item.to_string()).collect()
}

#[test]
fn quoted_list_of_nothing_is_empty() {
    assert_eq!(render_quoted_list(&Vec::new()), "");
}

#[test]
fn quoted_list_of_one() {
    assert_eq!(render_quoted_list(&strings(&["mp3"])), "'mp3'");
}

#[test]
fn quoted_list_of_three() {
    assert_eq!(render_quoted_list(&strings(&["mp3", "wav", "flac"])), "'mp3', 'wav', 'flac'");
}

#[test]
fn quoted_list_keeps_empty_and_odd_items() {
    assert_eq!(render_quoted_list(&strings(&["", "a'b", "ü"])), "'', 'a'b', 'ü'");
}

#[test]
fn decimal_of_single_digits() {
    let expected = ["0", "1", "2", "3", "4", "5", "6", "7", "8", "9"];
    for (n, text) in expected.iter().enumerate() {
        assert_eq!(render_decimal(n as u64), *text);
    }
}

#[test]
fn decimal_of_many_digits() {
    assert_eq!(render_decimal(10), "10");
    assert_eq!(render_decimal(1203), "1203");
    assert_eq!(render_decimal(65535), "65535");
    assert_eq!(render_decimal(u64::MAX), "18446744073709551615");
}

#[test]
fn decimal_agrees_with_the_standard_library() {
    let mut n: u64 = 1;
    for _ in 0..60 {
        assert_eq!(render_decimal(n), n.to_string());
        assert_eq!(render_decimal(n - 1), (n - 1).to_string());
        n = n.wrapping_mul(3).wrapping_add(7);
    }
}

#[test]
fn banner_names_sources_and_target() {
    assert_eq!(
        render_banner(&strings(&["mp3", "wav"]), "opus"),
        "Converting files from 'mp3', 'wav' to 'opus'"
    );
}

#[test]
fn lines_of_one_conversion() {
    assert_eq!(render_start_line("music/a.mp3"), "Converting 'music/a.mp3'");
    assert_eq!(render_finish_line("music/a.opus"), "Finished converting 'music/a.opus'");
    assert_eq!(
        render_removal_preview_line("music/a.mp3"),
        "Dry_run: Removing file 'music/a.mp3'"
    );
}

#[test]
fn lines_of_the_summary() {
    assert_eq!(render_converted_line(2), "Converted 2 files.");
    assert_eq!(render_errors_line(0), "Finished with 0 errors.");
    assert_eq!(render_converted_line(120), "Converted 120 files.");
}
