use name_sanitizer::config::{default_extension, RunConfig};

#[test]
fn the_default_extension_is_pdf() {
    assert_eq!(default_extension(), "pdf");
}

#[test]
fn a_run_starts_from_the_defaults() {
    let config = RunConfig::new("some/folder".to_string());
    assert_eq!(config.folder, "some/folder");
    assert_eq!(config.regex, None);
    assert!(!config.log);
    assert_eq!(config.ext, "pdf");
}
