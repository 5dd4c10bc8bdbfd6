use name_sanitizer::extension::{extension_of, matches_extension};
use std::path::Path;

fn by_path(name: &str) -> Option<String> {
    Path::new(name).extension().map(|e| e.to_str().unwrap().to_string())
}

#[test]
fn the_extension_follows_the_last_dot() {
    assert_eq!(extension_of("a.pdf"), Some("pdf".to_string()));
    assert_eq!(extension_of("archive.tar.gz"), Some("gz".to_string()));
    assert_eq!(extension_of("report (final).pdf"), Some("pdf".to_string()));
}

#[test]
fn a_name_without_a_dot_has_no_extension() {
    assert_eq!(extension_of("README"), None);
    assert_eq!(extension_of(""), None);
}

#[test]
fn a_leading_dot_alone_starts_no_extension() {
    assert_eq!(extension_of(".bashrc"), None);
    assert_eq!(extension_of("."), None);
    assert_eq!(extension_of(".bashrc.bak"), Some("bak".to_string()));
}

#[test]
fn a_trailing_dot_gives_the_empty_extension() {
    assert_eq!(extension_of("name."), Some(String::new()));
    assert_eq!(extension_of("..."), Some(String::new()));
}

#[test]
fn the_parent_name_has_no_extension() {
    assert_eq!(extension_of(".."), None);
}

#[test]
fn the_extension_is_counted_in_characters() {
    assert_eq!(extension_of("\u{43e}\u{442}\u{447}\u{451}\u{442}.pdf"), Some("pdf".to_string()));
    assert_eq!(extension_of("a.\u{e9}t\u{e9}"), Some("\u{e9}t\u{e9}".to_string()));
}

#[test]
fn the_extension_is_what_the_path_type_gives() {
    for name in [
        "a.pdf", "a", "", ".", "..", "...", ".a", ".a.b", "a.", "a..b", "a.b.", "x.PDF",
        "report (final).pdf", "\u{e9}.\u{e9}", " . ", "a.b.c.d",
    ] {
        assert_eq!(extension_of(name), by_path(name), "for {:?}", name);
    }
}

#[test]
fn matching_is_exact_and_minds_case() {
    let pdf = "pdf".to_string();
    assert!(matches_extension("a.pdf", &pdf));
    assert!(!matches_extension("a.PDF", &pdf));
    assert!(!matches_extension("a.pdfx", &pdf));
    assert!(!matches_extension("a.xpdf", &pdf));
    assert!(!matches_extension("a.txt", &pdf));
    assert!(!matches_extension("pdf", &pdf));
    assert!(!matches_extension(".pdf", &pdf));
    assert!(!matches_extension("a.pdf.", &pdf));
}

#[test]
fn the_dot_is_no_part_of_the_extension() {
    assert!(!matches_extension("a.pdf", &".pdf".to_string()));
}

#[test]
fn the_empty_extension_matches_a_trailing_dot_only() {
    let none = String::new();
    assert!(matches_extension("a.", &none));
    assert!(!matches_extension("a", &none));
    assert!(!matches_extension("a.b", &none));
}
