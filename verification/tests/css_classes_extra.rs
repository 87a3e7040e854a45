use lact::css_parser::extract_css_classes;
use lact::lex::{lex_compare, LexOrder};

#[test]
fn test_css_classes_generated() {
    let classes = extract_css_classes(".app { }\n.thermals-page { }");
    assert!(classes.contains("app"));
}

#[test]
fn names_come_out_sorted_and_unique() {
    let classes = extract_css_classes(".zeta .alpha .mid .alpha .Zeta");
    let names: Vec<&str> = classes.names().iter().map(|s| s.as_str()).collect();
    assert_eq!(names, vec!["Zeta", "alpha", "mid", "zeta"]);
    assert_eq!(classes.len(), 4);
}

#[test]
fn empty_stylesheet_has_no_classes() {
    let classes = extract_css_classes("");
    assert!(classes.is_empty());
    assert_eq!(classes.len(), 0);
}

#[test]
fn lone_dot_and_dash_start_are_ignored() {
    let classes = extract_css_classes(". .-x .9 ._ok");
    assert_eq!(classes.len(), 1);
    assert!(classes.contains("_ok"));
    assert!(!classes.contains("-x"));
}

#[test]
fn unterminated_comment_hides_the_rest() {
    let classes = extract_css_classes(".a /* .b .c");
    assert_eq!(classes.len(), 1);
    assert!(classes.contains("a"));
}

#[test]
fn comment_opener_inside_comment_keeps_it_open() {
    let classes = extract_css_classes("/* /* */ .after");
    assert_eq!(classes.len(), 1);
    assert!(classes.contains("after"));
}

#[test]
fn unicode_class_names_are_kept() {
    let classes = extract_css_classes(".größe .日本");
    assert!(classes.contains("größe"));
    assert!(classes.contains("日本"));
}

#[test]
fn lex_compare_orders_by_code_point() {
    assert_eq!(lex_compare("a", "b"), LexOrder::Less);
    assert_eq!(lex_compare("ab", "a"), LexOrder::Greater);
    assert_eq!(lex_compare("", ""), LexOrder::Equal);
    assert_eq!(lex_compare("B", "a"), LexOrder::Less);
}

#[test]
fn closed_comment_separates_the_text_around_it() {
    let a = ".left .joined";
    let c = "tail .right";
    let whole = extract_css_classes(&format!("{a}/* .hidden */{c}"));
    let names: Vec<&str> = whole.names().iter().map(|s| s.as_str()).collect();
    let mut expected: Vec<String> = Vec::new();
    for part in [extract_css_classes(a), extract_css_classes(c)] {
        for n in part.names() {
            expected.push(n.to_string());
        }
    }
    expected.sort();
    expected.dedup();
    assert_eq!(names, expected.iter().map(|s| s.as_str()).collect::<Vec<&str>>());
    assert!(whole.contains("joined"));
    assert!(!whole.contains("joinedtail"));
    assert!(!whole.contains("hidden"));
}
