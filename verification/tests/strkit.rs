use tetanus::strkit::contains_sub;
use tetanus::strkit::parent_dir;
use tetanus::strkit::parse_usize;
use tetanus::strkit::path_join;
use tetanus::strkit::split_str;
use tetanus::strkit::str_eq;
use tetanus::strkit::usize_to_string;

#[test]
fn split_on_pipe() {
    let parts = split_str("name|stage|boxname", '|');
    assert_eq!(parts, vec!["name".to_string(), "stage".to_string(), "boxname".to_string()]);
}

#[test]
fn split_keeps_empty_segments() {
    let parts = split_str("a||b|", '|');
    assert_eq!(parts, vec!["a".to_string(), "".to_string(), "b".to_string(), "".to_string()]);
}

#[test]
fn split_without_separator_is_whole() {
    let parts = split_str("plain", '|');
    assert_eq!(parts, vec!["plain".to_string()]);
}

#[test]
fn split_empty_is_one_empty_segment() {
    let parts = split_str("", '|');
    assert_eq!(parts, vec!["".to_string()]);
}

#[test]
fn string_equality() {
    assert!(str_eq("ack", "ack"));
    assert!(!str_eq("ack", "ACK"));
    assert!(!str_eq("ack", "ack "));
}

#[test]
fn substring_search() {
    assert!(contains_sub("webapp-acme", "webapp"));
    assert!(contains_sub("error: bad", "error"));
    assert!(contains_sub("anything", ""));
    assert!(!contains_sub("short", "longer than hay"));
    assert!(!contains_sub("webapp", "phishing"));
}

#[test]
fn parse_numbers() {
    assert_eq!(parse_usize("0"), Some(0));
    assert_eq!(parse_usize("42"), Some(42));
    assert_eq!(parse_usize("007"), Some(7));
    assert_eq!(parse_usize(""), None);
    assert_eq!(parse_usize("4x2"), None);
    assert_eq!(parse_usize("-1"), None);
    assert_eq!(parse_usize("99999999999999999999999999999999999999"), None);
}

#[test]
fn number_rendering() {
    assert_eq!(usize_to_string(0), "0");
    assert_eq!(usize_to_string(7), "7");
    assert_eq!(usize_to_string(31337), "31337");
}

#[test]
fn number_round_trip() {
    for n in [0usize, 1, 9, 10, 99, 12345] {
        assert_eq!(parse_usize(&usize_to_string(n)), Some(n));
    }
}

#[test]
fn path_helpers() {
    assert_eq!(path_join("/home/op", "projects"), "/home/op/projects");
    assert_eq!(parent_dir("/home/op/config.conf"), "/home/op");
    assert_eq!(parent_dir("config.conf"), "");
    assert_eq!(parent_dir("/a"), "");
}
