use gpg_core::text::{replace_underscores, split_on, str_eq, terminate_lines, trim_spaces};

#[test]
fn splitting_keeps_empty_segments() {
    assert_eq!(split_on("a:b:c", ':'), vec!["a", "b", "c"]);
    assert_eq!(split_on("fpr:::X:", ':'), vec!["fpr", "", "", "X", ""]);
    assert_eq!(split_on("", ':'), vec![""]);
    assert_eq!(split_on("plain", ':'), vec!["plain"]);
    assert_eq!(split_on("a\nb\n", '\n'), vec!["a", "b", ""]);
}

#[test]
fn joined_lines_each_end_with_newline() {
    let lines = vec!["one".to_string(), "two".to_string()];
    assert_eq!(terminate_lines(&lines), "one\ntwo\n");
    assert_eq!(terminate_lines(&Vec::new()), "");
}

#[test]
fn underscores_become_dashes() {
    assert_eq!(replace_underscores("Key_Length"), "Key-Length");
    assert_eq!(replace_underscores("no_change_here_"), "no-change-here-");
    assert_eq!(replace_underscores("plain"), "plain");
}

#[test]
fn trimming_removes_surrounding_whitespace_only() {
    assert_eq!(trim_spaces("  2048  "), "2048");
    assert_eq!(trim_spaces("\t a b \r\n"), "a b");
    assert_eq!(trim_spaces("   "), "");
    assert_eq!(trim_spaces(""), "");
    assert_eq!(trim_spaces("tight"), "tight");
}

#[test]
fn string_comparison_is_exact() {
    assert!(str_eq("cfg", "cfg"));
    assert!(!str_eq("cfg", "cf"));
    assert!(!str_eq("cfg", "cfG"));
    assert!(str_eq("", ""));
}
