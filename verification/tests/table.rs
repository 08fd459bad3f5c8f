use tetanus::Table;

#[test]
fn build_measures_and_evens_columns() {
    let mut table = Table::default();
    let t = table.build(vec!["a|b".to_string(), "x|yy".to_string()]);
    assert_eq!(t.headers, "a|b");
    assert_eq!(t.data, vec!["x|yy".to_string()]);
    assert_eq!(t.columns, vec![2, 2]);
}

#[test]
fn build_keeps_even_widths() {
    let mut table = Table::default();
    let t = table.build(vec!["ab|cdef".to_string()]);
    assert_eq!(t.columns, vec![2, 4]);
}

#[test]
fn render_small_table() {
    let mut table = Table::default();
    table.build(vec!["a|b".to_string(), "x|yy".to_string()]);
    let out = table.get_table();
    assert_eq!(out, "| a| b|\n|--|--|\n| x|yy|\n|--|--|\n");
}

#[test]
fn render_header_only() {
    let mut table = Table::default();
    table.build(vec!["ab|cd".to_string()]);
    let out = table.get_table();
    assert_eq!(out, "|ab|cd|\n|--|--|\n");
}

#[test]
fn render_centres_text() {
    let mut table = Table::default();
    table.build(vec!["wide|x".to_string(), "a|b".to_string()]);
    let out = table.get_table();
    assert_eq!(out, "|wide| x|\n|----|--|\n|  a | b|\n|----|--|\n");
}
