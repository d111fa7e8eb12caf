use tj2::path::{add_extension, join_path};
use tj2::text::{ascii_lowercase, decimal_string, split_char, str_eq};

#[test]
fn splitting_keeps_empty_pieces() {
    assert_eq!(split_char("a,b,,c", ','), vec!["a", "b", "", "c"]);
    assert_eq!(split_char("", ','), vec![""]);
    assert_eq!(split_char(",", ','), vec!["", ""]);
    assert_eq!(split_char("abc", ','), vec!["abc"]);
}

#[test]
fn decimal_text() {
    assert_eq!(decimal_string(0), "0");
    assert_eq!(decimal_string(1234567890), "1234567890");
    assert_eq!(decimal_string(u64::MAX), u64::MAX.to_string());
}

#[test]
fn text_helpers() {
    assert!(str_eq("abc", "abc"));
    assert!(!str_eq("abc", "abd"));
    assert_eq!(ascii_lowercase("TeXt/HTML ä"), "text/html ä");
}

#[test]
fn joining_paths() {
    assert_eq!(join_path("/srv", "data"), "/srv/data");
    assert_eq!(join_path("/srv/", "data"), "/srv/data");
    assert_eq!(join_path("", "data"), "data");
    assert_eq!(join_path("/srv", "/etc"), "/etc");
}

#[test]
fn adding_extensions() {
    assert_eq!(add_extension("/a/b.txt", "prev"), Some(String::from("/a/b.txt.prev")));
    assert_eq!(add_extension("/a/b/", "mark"), Some(String::from("/a/b.mark")));
    assert_eq!(add_extension("/", "mark"), None);
}
