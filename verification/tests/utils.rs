use git_cli::utils::format_error_message;
use git_cli::utils::format_info_message;
use git_cli::utils::format_success_message;
use git_cli::utils::format_warning_message;
use git_cli::utils::truncate_string;

#[test]
fn messages_are_wrapped_in_their_colour() {
    assert_eq!(format_error_message("x"), "\x1b[0;31mx\x1b[0m");
    assert_eq!(format_success_message("x"), "\x1b[0;32mx\x1b[0m");
    assert_eq!(format_warning_message("x"), "\x1b[0;33mx\x1b[0m");
    assert_eq!(format_info_message("x"), "\x1b[0;36mx\x1b[0m");
    assert_eq!(format_error_message(""), "\x1b[0;31m\x1b[0m");
}

#[test]
fn short_texts_are_not_truncated() {
    assert_eq!(truncate_string("hello", 5), "hello");
    assert_eq!(truncate_string("hello", 10), "hello");
    assert_eq!(truncate_string("", 0), "");
    assert_eq!(truncate_string("caf\u{e9}", 5), "caf\u{e9}");
}

#[test]
fn long_texts_end_in_dots() {
    assert_eq!(truncate_string("hello world", 8), "hello...");
    assert_eq!(truncate_string("hello world", 3), "...");
    assert_eq!(truncate_string("hello world", 2), "...");
    assert_eq!(truncate_string("hello world", 0), "...");
    assert_eq!(truncate_string("hello world", 10), "hello w...");
    assert_eq!(truncate_string("\u{e9}\u{e9}\u{e9}\u{e9}", 7), "\u{e9}\u{e9}...");
}
