use std::path::Path;
use xml_conformance::paths::join_path;
use xml_conformance::text::{copy_optional, same_text};

#[test]
fn relative_uri_follows_the_base() {
    assert_eq!(join_path("suite/sun", "valid/pe01.xml"), "suite/sun/valid/pe01.xml");
}

#[test]
fn base_with_trailing_separator_gets_no_second_one() {
    assert_eq!(join_path("suite/sun/", "valid/pe01.xml"), "suite/sun/valid/pe01.xml");
    assert_eq!(join_path("/", "a.xml"), "/a.xml");
}

#[test]
fn empty_base_leaves_the_uri() {
    assert_eq!(join_path("", "valid/pe01.xml"), "valid/pe01.xml");
}

#[test]
fn empty_uri_leaves_the_base_with_a_separator() {
    assert_eq!(join_path("suite", ""), "suite/");
    assert_eq!(join_path("suite/", ""), "suite/");
    assert_eq!(join_path("", ""), "");
}

#[test]
fn rooted_uri_stands_alone() {
    assert_eq!(join_path("suite/sun", "/abs/doc.xml"), "/abs/doc.xml");
}

#[test]
fn non_ascii_parts_are_kept() {
    assert_eq!(join_path("süite/日本", "文書.xml"), "süite/日本/文書.xml");
    assert_eq!(join_path("süite/", "/文書.xml"), "/文書.xml");
}

#[test]
fn join_agrees_with_slash_separated_platform_paths() {
    let samples = [
        ("suite/sun", "valid/pe01.xml"),
        ("suite/sun/", "valid/pe01.xml"),
        ("", "x.xml"),
        ("/root", "x.xml"),
        ("a", "/b"),
        ("a", ""),
        ("/", "x"),
    ];
    for (base, relative) in samples {
        let expected = Path::new(base).join(relative);
        assert_eq!(Path::new(&join_path(base, relative)), expected.as_path());
        assert_eq!(join_path(base, relative), expected.to_str().unwrap());
    }
}

#[test]
fn same_text_compares_characters() {
    assert!(same_text("valid", "valid"));
    assert!(!same_text("valid", "invalid"));
    assert!(same_text("", ""));
    assert!(!same_text("a", ""));
}

#[test]
fn copy_optional_keeps_the_value() {
    assert_eq!(copy_optional(&Some("x".to_string())), Some("x".to_string()));
    assert_eq!(copy_optional(&None), None);
}
