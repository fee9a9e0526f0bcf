use cargo_info::table::{render_table, GUTTER};

fn strings(items: &[&str]) -> Vec<String> {
    items.iter().map(|s| s.to_string()).collect()
}

#[test]
fn gutter_is_two_blanks() {
    assert_eq!(GUTTER, 2);
}

#[test]
fn table_without_rows_is_its_header() {
    let header = strings(&["VERSION", "RELEASED", "DOWNLOADS"]);
    let lines = render_table(&header, &Vec::new());
    assert_eq!(lines, vec!["VERSION  RELEASED  DOWNLOADS  ".to_string()]);
}

#[test]
fn table_without_columns_has_empty_lines() {
    let lines = render_table(&Vec::new(), &vec![Vec::new(), Vec::new()]);
    assert_eq!(lines, vec![String::new(), String::new(), String::new()]);
}

#[test]
fn columns_are_as_wide_as_their_longest_cell_and_the_gutter() {
    let header = strings(&["A", "LONGER"]);
    let rows = vec![strings(&["xxxx", "y"]), strings(&["", "zz"])];
    let lines = render_table(&header, &rows);
    assert_eq!(
        lines,
        vec![
            "A     LONGER  ".to_string(),
            "xxxx  y       ".to_string(),
            "      zz      ".to_string(),
        ]
    );
}

#[test]
fn all_lines_have_the_same_length() {
    let header = strings(&["VERSION", "RELEASED", "DOWNLOADS"]);
    let rows = vec![
        strings(&["1.0.0-alpha.1+build.20240101", "now", "7"]),
        strings(&["0.1.0", "3 months ago", "123456789012"]),
        strings(&["0.0.1", "", ""]),
    ];
    let lines = render_table(&header, &rows);
    assert_eq!(lines.len(), 4);
    let width = (28 + 2) + (12 + 2) + (12 + 2);
    for line in &lines {
        assert_eq!(line.chars().count(), width);
    }
    assert!(lines[1].starts_with("1.0.0-alpha.1+build.20240101  now           7"));
    assert!(lines[2].starts_with("0.1.0                         3 months ago  123456789012  "));
}

#[test]
fn widths_are_computed_anew_for_each_table() {
    let header = strings(&["VERSION"]);
    let narrow = render_table(&header, &vec![strings(&["1.0"])]);
    let wide = render_table(&header, &vec![strings(&["12345678901234567890"])]);
    assert_eq!(narrow, vec!["VERSION  ".to_string(), "1.0      ".to_string()]);
    assert_eq!(
        wide,
        vec!["VERSION               ".to_string(), "12345678901234567890  ".to_string()]
    );
}

#[test]
fn widths_count_characters() {
    let header = strings(&["N"]);
    let lines = render_table(&header, &vec![strings(&["äöü"]), strings(&["a"])]);
    assert_eq!(lines, vec!["N    ".to_string(), "äöü  ".to_string(), "a    ".to_string()]);
}
