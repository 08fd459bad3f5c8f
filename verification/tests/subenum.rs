use tetanus::subenum::candidate_domain;
use tetanus::subenum::enumeration_note;
use tetanus::subenum::result_row;

#[test]
fn candidate_names() {
    assert_eq!(candidate_domain("www", "example.com"), "www.example.com");
    assert_eq!(candidate_domain("", "example.com"), ".example.com");
}

#[test]
fn result_rows_join_addresses() {
    let row = result_row(
        "www.example.com",
        &vec!["10.0.0.1".to_string(), "10.0.0.2".to_string()],
    );
    assert_eq!(row, "www.example.com | 10.0.0.1,10.0.0.2,");
}

#[test]
fn note_layout() {
    let note = enumeration_note(
        "example.com",
        &vec!["www.example.com | 10.0.0.1,".to_string()],
    );
    assert_eq!(
        note,
        "\n\n# Subdomain Bruteforce\n## example.com\n| domain name | IP Addresses |\n| ----------- | ------------ |\n| www.example.com | 10.0.0.1, |\n"
    );
}

#[test]
fn note_with_no_findings_has_empty_table() {
    let note = enumeration_note("example.com", &Vec::new());
    assert!(note.ends_with("| ----------- | ------------ |\n"));
}
