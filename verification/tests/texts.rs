use printer_control::text::{has_quote, join};

#[test]
fn join_puts_separator_between_neighbours() {
    assert_eq!(join(&vec!["a", "b", "c"], ", "), "a, b, c");
    assert_eq!(join(&vec!["a", "b"], ""), "ab");
}

#[test]
fn join_of_one_part_has_no_separator() {
    assert_eq!(join(&vec!["only"], ", "), "only");
}

#[test]
fn join_of_nothing_is_empty() {
    assert_eq!(join(&Vec::new(), ", "), "");
}

#[test]
fn join_keeps_empty_parts() {
    assert_eq!(join(&vec!["", "x", ""], "-"), "-x-");
}

#[test]
fn quote_is_found_wherever_it_stands() {
    assert!(has_quote("\""));
    assert!(has_quote("a\"b"));
    assert!(has_quote("é\""));
    assert!(!has_quote(""));
    assert!(!has_quote("Office-LaserJet"));
    assert!(!has_quote("it's"));
}
