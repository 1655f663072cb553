use std::cell::Cell;

use rustw::enrich::Lookups;
use rustw::highlight::{wants_lookups, BasicHighlighter, GetBuf, Highlighter};
use rustw::markup::Class;
use rustw::span::{canonical_or_raw, Loc, PathCache, Span};

fn span(file: &str, a: usize, b: usize, c: usize, d: usize) -> Span {
    Span { file_name: file.to_string(), line_start: a, column_start: b, line_end: c, column_end: d }
}

fn nothing() -> Lookups {
    Lookups { def: None, ty: None, docs: None, doc_url: None, src_url: None, id: None }
}

fn out<H: GetBuf>(h: &H) -> String {
    String::from_utf8_lossy(h.get_buf()).into_owned()
}

#[test]
fn plain_text_is_written_raw() {
    let mut h = Highlighter::new("/p".to_string());
    h.string("  // <x>".to_string(), Class::Plain, Some(span("/p/a.rs", 0, 0, 0, 8)), nothing());
    assert_eq!(out(&h), "  // <x>");
}

#[test]
fn other_classes_get_a_bare_element() {
    let mut h = Highlighter::new("/p".to_string());
    let found = Lookups {
        def: Some(span("/p/b.rs", 1, 1, 1, 2)),
        ty: Some("T".to_string()),
        docs: Some("D".to_string()),
        doc_url: Some("u".to_string()),
        src_url: Some("s".to_string()),
        id: Some(4),
    };
    h.string("fn".to_string(), Class::KeyWord, Some(span("/p/a.rs", 0, 0, 0, 2)), found);
    h.string("::".to_string(), Class::Op, Some(span("/p/a.rs", 0, 3, 0, 5)), nothing());
    h.string("\"s\"".to_string(), Class::StringLit, None, nothing());
    assert_eq!(
        out(&h),
        "<span class='kw'>fn</span><span class='op'>::</span><span class='string'>\"s\"</span>"
    );
}

#[test]
fn identifier_without_location_is_bare() {
    let mut h = Highlighter::new("/p".to_string());
    let found = Lookups { ty: Some("T".to_string()), id: Some(1), ..nothing() };
    h.string("x".to_string(), Class::Ident, None, found);
    assert_eq!(out(&h), "<span class='ident'>x</span>");
}

#[test]
fn identifier_is_fully_enriched() {
    let mut h = Highlighter::new("/p".to_string());
    let found = Lookups {
        def: Some(span("/p/src/lib.rs", 9, 4, 9, 7)),
        ty: Some("Vec<u8>".to_string()),
        docs: Some("It's \"here\"".to_string()),
        doc_url: Some("https://d".to_string()),
        src_url: Some("https://s".to_string()),
        id: Some(42),
    };
    h.string("foo".to_string(), Class::Ident, Some(span("/p/src/main.rs", 0, 0, 0, 3)), found);
    assert_eq!(
        out(&h),
        "<span class='ident class_id class_id_42 src_link' title='Vec&lt;u8&gt;<br><br>It&#39;s &quot;here&quot;' doc_url='https://d' src_url='https://s' link='src/lib.rs:10:5:10:8'>foo</span>"
    );
}

#[test]
fn self_definition_has_no_link() {
    let mut h = Highlighter::new("/p".to_string());
    let here = span("/p/a.rs", 2, 4, 2, 7);
    let found = Lookups { def: Some(here.clone()), ty: Some("u32".to_string()), ..nothing() };
    h.string("foo".to_string(), Class::Ident, Some(here), found);
    assert_eq!(out(&h), "<span class='ident' title='u32'>foo</span>");
    assert!(!out(&h).contains("link="));
}

#[test]
fn self_definition_with_id_has_no_link() {
    let mut h = Highlighter::new("/p".to_string());
    let here = span("/p/a.rs", 2, 4, 2, 7);
    let found = Lookups { def: Some(here.clone()), id: Some(3), ..nothing() };
    h.string("foo".to_string(), Class::Ident, Some(here), found);
    assert_eq!(out(&h), "<span class='ident class_id class_id_3'>foo</span>");
}

#[test]
fn definition_elsewhere_wins_over_search() {
    let mut h = Highlighter::new("/p".to_string());
    let found = Lookups { def: Some(span("/p/b.rs", 0, 0, 0, 1)), id: Some(3), ..nothing() };
    h.string("foo".to_string(), Class::Ident, Some(span("/p/a.rs", 2, 4, 2, 7)), found);
    assert_eq!(out(&h), "<span class='ident class_id class_id_3 src_link' link='b.rs:1:1:1:2'>foo</span>");
}

#[test]
fn markup_matches_buffer() {
    let mut h = Highlighter::new("/p".to_string());
    h.string("é<".to_string(), Class::Number, None, nothing());
    assert_eq!(h.markup(), "<span class='number'>é<</span>");
    assert_eq!(h.markup().as_bytes(), h.get_buf());
    let mut b = BasicHighlighter::new();
    b.string("x".to_string(), Class::Lifetime, None);
    assert_eq!(b.markup(), "<span class='lifetime'>x</span>");
    assert_eq!(b.markup().as_bytes(), b.get_buf());
}

#[test]
fn canonical_path_falls_back_to_raw_name() {
    let raw = "src/a.rs".to_string();
    assert_eq!(canonical_or_raw(&raw, Some("/p/src/a.rs".to_string())), "/p/src/a.rs");
    assert_eq!(canonical_or_raw(&raw, None), "src/a.rs");
}

#[test]
fn id_without_definition_links_to_search() {
    let mut h = Highlighter::new("/p".to_string());
    let found = Lookups { id: Some(17), ..nothing() };
    h.string("bar".to_string(), Class::Ident, Some(span("/p/a.rs", 0, 0, 0, 3)), found);
    assert_eq!(out(&h), "<span class='ident class_id class_id_17 src_link' link='search:17'>bar</span>");
}

#[test]
fn empty_type_and_docs_give_no_title() {
    let mut h = Highlighter::new("/p".to_string());
    let found = Lookups { ty: Some(String::new()), docs: Some(String::new()), ..nothing() };
    h.string("x".to_string(), Class::Ident, Some(span("/p/a.rs", 0, 0, 0, 1)), found);
    assert_eq!(out(&h), "<span class='ident'>x</span>");
}

#[test]
fn glob_operator_gets_type_and_location() {
    let mut h = Highlighter::new("/p".to_string());
    let found = Lookups {
        def: Some(span("/p/b.rs", 0, 0, 0, 1)),
        ty: Some("a::{B, C}".to_string()),
        docs: Some("D".to_string()),
        id: Some(5),
        ..nothing()
    };
    h.string("*".to_string(), Class::Op, Some(span("/p/a.rs", 4, 8, 4, 9)), found);
    assert_eq!(out(&h), "<span class='op glob' title='a::{B, C}' location='5:9'>*</span>");
}

#[test]
fn glob_operator_without_location_is_bare() {
    let mut h = Highlighter::new("/p".to_string());
    h.string("*".to_string(), Class::Op, None, Lookups { ty: Some("T".to_string()), ..nothing() });
    assert_eq!(out(&h), "<span class='op'>*</span>");
}

#[test]
fn nested_regions() {
    let mut h = Highlighter::new("/p".to_string());
    h.enter_span(Class::Attribute);
    h.string("x".to_string(), Class::Plain, None, nothing());
    h.exit_span();
    assert_eq!(out(&h), "<span class='attribute'>x</span>");
    let mut b = BasicHighlighter::new();
    b.enter_span(Class::Macro);
    b.exit_span();
    assert_eq!(out(&b), "<span class='macro'></span>");
}

#[test]
fn foo_bar_scenario() {
    let mut h = Highlighter::new("/p".to_string());
    let foo = span("/p/src/main.rs", 0, 0, 0, 3);
    let bar = span("/p/src/main.rs", 0, 5, 0, 8);
    h.string("foo".to_string(), Class::Ident, Some(foo), nothing());
    h.string("::".to_string(), Class::Op, Some(span("/p/src/main.rs", 0, 3, 0, 5)), nothing());
    let found = Lookups { def: Some(span("/p/src/other.rs", 11, 7, 11, 10)), ..nothing() };
    h.string("bar".to_string(), Class::Ident, Some(bar), found);
    let text = out(&h);
    assert_eq!(text.matches("<span class='ident").count(), 2);
    assert_eq!(
        text,
        "<span class='ident'>foo</span><span class='op'>::</span><span class='ident src_link' link='src/other.rs:12:8:12:11'>bar</span>"
    );
}

#[test]
fn star_x_scenario() {
    let mut h = Highlighter::new("/p".to_string());
    let found = Lookups { ty: Some("i32".to_string()), ..nothing() };
    h.string("*".to_string(), Class::Op, Some(span("/p/a.rs", 0, 0, 0, 1)), found);
    h.string("x".to_string(), Class::Ident, Some(span("/p/a.rs", 0, 1, 0, 2)), nothing());
    let text = out(&h);
    assert_eq!(text, "<span class='op glob' title='i32' location='1:1'>*</span><span class='ident'>x</span>");
    let first = &text[..text.find("</span>").unwrap()];
    assert!(first.contains("location="));
    assert!(!first.contains("link="));
}

#[test]
fn span_from_lexer_coordinates() {
    let mut h = Highlighter::new("/p".to_string());
    let lo = Loc { file: "src/a.rs".to_string(), line: 3, col: 4 };
    let hi = Loc { file: "src/a.rs".to_string(), line: 5, col: 0 };
    let s = h.span_from_locs(&lo, &hi, |raw: &String| format!("/p/{}", raw));
    assert!(s == span("/p/src/a.rs", 2, 4, 4, 0));
}

#[test]
fn path_cache_canonicalizes_once() {
    let calls = Cell::new(0u32);
    let canon = |raw: &String| {
        calls.set(calls.get() + 1);
        format!("/abs/{}", raw)
    };
    let mut h = Highlighter::new("/abs".to_string());
    let lo = Loc { file: "a.rs".to_string(), line: 1, col: 0 };
    let hi = Loc { file: "a.rs".to_string(), line: 1, col: 2 };
    let first = h.span_from_locs(&lo, &hi, &canon);
    let second = h.span_from_locs(&lo, &hi, &canon);
    assert_eq!(calls.get(), 1);
    assert_eq!(first.file_name, "/abs/a.rs");
    assert!(first == second);
    let other = Loc { file: "b.rs".to_string(), line: 1, col: 0 };
    let third = h.span_from_locs(&other, &other, &canon);
    assert_eq!(calls.get(), 2);
    assert_eq!(third.file_name, "/abs/b.rs");
}

#[test]
fn path_cache_keeps_first_answer() {
    let mut cache = PathCache::new();
    let raw = "x.rs".to_string();
    assert_eq!(cache.cached(&raw), None);
    assert_eq!(cache.canonical(&raw, |_: &String| "/one".to_string()), "/one");
    assert_eq!(cache.canonical(&raw, |_: &String| "/two".to_string()), "/one");
    assert_eq!(cache.cached(&raw), Some("/one".to_string()));
}

#[test]
fn overlay_matches_exact_range() {
    let mut b = BasicHighlighter::new();
    b.span(4, 7, " hit".to_string(), "h1".to_string());
    b.string("foo".to_string(), Class::Ident, Some((4, 7)));
    assert_eq!(out(&b), "<span class='ident hit' id='h1'>foo</span>");
}

#[test]
fn overlay_ignores_partial_overlap() {
    let mut b = BasicHighlighter::new();
    b.span(4, 7, " hit".to_string(), "h1".to_string());
    b.string("fo".to_string(), Class::Ident, Some((4, 6)));
    b.string("oo".to_string(), Class::Ident, Some((5, 7)));
    b.string("foo!".to_string(), Class::Ident, Some((4, 8)));
    b.string("foo".to_string(), Class::Ident, None);
    assert_eq!(
        out(&b),
        "<span class='ident'>fo</span><span class='ident'>oo</span><span class='ident'>foo!</span><span class='ident'>foo</span>"
    );
}

#[test]
fn overlay_first_registered_wins() {
    let mut b = BasicHighlighter::new();
    b.span(0, 1, " a".to_string(), "first".to_string());
    b.span(0, 1, " b".to_string(), "second".to_string());
    b.string("x".to_string(), Class::Plain, Some((0, 1)));
    assert_eq!(out(&b), "<span class=' a' id='first'>x</span>");
}

#[test]
fn lookups_wanted_for_identifiers_and_glob_only() {
    assert!(wants_lookups(Class::Ident, &"x".to_string()));
    assert!(wants_lookups(Class::Op, &"*".to_string()));
    assert!(!wants_lookups(Class::Op, &"**".to_string()));
    assert!(!wants_lookups(Class::Op, &"::".to_string()));
    assert!(!wants_lookups(Class::KeyWord, &"*".to_string()));
    assert!(!wants_lookups(Class::Plain, &"x".to_string()));
}
