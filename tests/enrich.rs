use rustw::enrich::{compose_title_text, format_link, get_link, keep_nonempty};
use rustw::span::Span;

fn span(file: &str, a: usize, b: usize, c: usize, d: usize) -> Span {
    Span { file_name: file.to_string(), line_start: a, column_start: b, line_end: c, column_end: d }
}

#[test]
fn title_joins_type_and_docs() {
    assert_eq!(compose_title_text(Some("T".to_string()), Some("D".to_string())), Some("T\n\nD".to_string()));
}

#[test]
fn title_from_one_side() {
    assert_eq!(compose_title_text(Some("T".to_string()), None), Some("T".to_string()));
    assert_eq!(compose_title_text(None, Some("D".to_string())), Some("D".to_string()));
    assert_eq!(compose_title_text(Some(String::new()), Some("D".to_string())), Some("D".to_string()));
    assert_eq!(compose_title_text(Some("T".to_string()), Some(String::new())), Some("T".to_string()));
}

#[test]
fn no_title_from_nothing() {
    assert_eq!(compose_title_text(None, None), None);
    assert_eq!(compose_title_text(Some(String::new()), Some(String::new())), None);
    assert_eq!(keep_nonempty(Some(String::new())), None);
    assert_eq!(keep_nonempty(Some("x".to_string())), Some("x".to_string()));
}

#[test]
fn link_numbers_count_from_one() {
    assert_eq!(format_link(&"src/a.rs".to_string(), &span("/p/src/a.rs", 0, 4, 2, 9)), "src/a.rs:1:5:3:10");
}

#[test]
fn link_is_relative_under_the_root() {
    let tok = span("/p/src/main.rs", 3, 1, 3, 4);
    let def = Some(span("/p/src/lib.rs", 9, 0, 9, 7));
    assert_eq!(get_link(&tok, &def, &"/p".to_string()), Some("src/lib.rs:10:1:10:8".to_string()));
}

#[test]
fn link_keeps_paths_outside_the_root() {
    let tok = span("/p/src/main.rs", 3, 1, 3, 4);
    let def = Some(span("/q/lib.rs", 0, 0, 0, 1));
    assert_eq!(get_link(&tok, &def, &"/p".to_string()), Some("/q/lib.rs:1:1:1:2".to_string()));
    let def = Some(span("/pq/lib.rs", 0, 0, 0, 1));
    assert_eq!(get_link(&tok, &def, &"/p".to_string()), Some("/pq/lib.rs:1:1:1:2".to_string()));
}

#[test]
fn no_link_to_itself_or_nowhere() {
    let tok = span("/p/a.rs", 3, 1, 3, 4);
    assert_eq!(get_link(&tok, &Some(tok.clone()), &"/p".to_string()), None);
    assert_eq!(get_link(&tok, &None, &"/p".to_string()), None);
    let near = span("/p/a.rs", 3, 1, 3, 5);
    assert_eq!(get_link(&tok, &Some(near), &"/p".to_string()), Some("a.rs:4:2:4:6".to_string()));
}

#[test]
fn spans_compare_by_every_field() {
    assert!(span("a", 1, 2, 3, 4) == span("a", 1, 2, 3, 4));
    assert!(span("a", 1, 2, 3, 4) != span("b", 1, 2, 3, 4));
    assert!(span("a", 1, 2, 3, 4) != span("a", 1, 2, 3, 5));
}
