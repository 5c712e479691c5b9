use wasm_xlsxwriter::paths::{generated_file_name, repository_name};

#[test]
fn generated_file_names() {
    assert_eq!(generated_file_name("FormatAlign"), "format_align.rs");
    assert_eq!(generated_file_name("Workbook"), "workbook.rs");
}

#[test]
fn repository_names() {
    assert_eq!(
        repository_name("https://github.com/jmcnamara/rust_xlsxwriter.git"),
        Some("rust_xlsxwriter".to_string())
    );
    assert_eq!(repository_name("repo.git"), Some("repo".to_string()));
    assert_eq!(repository_name("https://example.com/repo"), None);
    assert_eq!(repository_name("https://example.com/.git"), Some(String::new()));
    assert_eq!(repository_name("trailing/"), None);
}
