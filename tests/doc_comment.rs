use wasm_xlsxwriter::doc_comment::{
    add_doc_comment_marker, camel_case_method_refs, convert_bracket_methods_to_camel_case,
    omit_after_example, process_doc_comment,
};

#[test]
fn test_convert_bracket_methods_to_camel_case() {
    let input = "This is a reference to [`Format::set_italic()`] method.";
    let expected = "This is a reference to [`Format::setItalic()`] method.";
    assert_eq!(convert_bracket_methods_to_camel_case(input), expected);

    let input = "See [`Format::set_italic()`] and [`Chart::add_series()`].";
    let expected = "See [`Format::setItalic()`] and [`Chart::addSeries()`].";
    assert_eq!(convert_bracket_methods_to_camel_case(input), expected);
}

#[test]
fn test_process_doc_comment() {
    let input = "Unset the italic Format property back to its default \"off\" state.\n\nThe opposite of [`Format::set_italic()`].\n\n# Example\nThis should be removed.";
    let expected = "/// Unset the italic Format property back to its default \"off\" state.\n/// \n/// The opposite of [`Format::setItalic()`].";
    assert_eq!(process_doc_comment(input), expected);
}

#[test]
fn bracket_conversion_leaves_other_text_alone() {
    assert_eq!(convert_bracket_methods_to_camel_case("no references here"), "no references here");
    assert_eq!(convert_bracket_methods_to_camel_case(""), "");
    assert_eq!(
        convert_bracket_methods_to_camel_case("[`Format`] and [`Workbook::new()`]"),
        "[`Format`] and [`Workbook::new()`]"
    );
}

#[test]
fn bracket_conversion_keeps_arguments() {
    assert_eq!(
        convert_bracket_methods_to_camel_case("[`Table::set_header_row(true)`]"),
        "[`Table::setHeaderRow(true)`]"
    );
}

#[test]
fn camel_case_method_refs_interleaves_texts_and_references() {
    let gaps = vec!["See ".to_string(), " and ".to_string(), ".".to_string()];
    let captures = vec![
        vec![
            Some("[`Format::set_bold()`]".to_string()),
            Some("Format".to_string()),
            Some("set_bold".to_string()),
            Some("()".to_string()),
        ],
        vec![
            Some("[`Chart::add_series(s)`]".to_string()),
            Some("Chart".to_string()),
            Some("add_series".to_string()),
            Some("(s)".to_string()),
        ],
    ];
    assert_eq!(
        camel_case_method_refs(&gaps, &captures),
        "See [`Format::setBold()`] and [`Chart::addSeries(s)`]."
    );
    assert_eq!(camel_case_method_refs(&vec!["plain".to_string()], &vec![]), "plain");
    assert_eq!(camel_case_method_refs(&vec![], &vec![]), "");
}

#[test]
fn camel_case_method_refs_missing_group_is_empty() {
    let captures = vec![vec![None, Some("M".to_string()), None]];
    assert_eq!(camel_case_method_refs(&vec![], &captures), "[`M::`]");
}

#[test]
fn omit_after_example_cuts_and_trims() {
    assert_eq!(omit_after_example("  Text.\n\n# Example\ncode"), "Text.");
    assert_eq!(omit_after_example("\t No heading here \n"), "No heading here");
    assert_eq!(omit_after_example("# Example first"), "");
    assert_eq!(omit_after_example(""), "");
    assert_eq!(omit_after_example("A\u{3000}# Examples"), "A");
}

#[test]
fn add_doc_comment_marker_marks_each_line() {
    assert_eq!(add_doc_comment_marker("a\n  b  \n\nc"), "/// a\n/// b\n/// \n/// c");
    assert_eq!(add_doc_comment_marker("one\r\ntwo\n"), "/// one\n/// two");
    assert_eq!(add_doc_comment_marker(""), "");
    assert_eq!(add_doc_comment_marker("\n"), "/// ");
    assert_eq!(add_doc_comment_marker("x\n\n"), "/// x\n/// ");
}

#[test]
fn process_doc_comment_without_example() {
    assert_eq!(
        process_doc_comment("  Set the [`Chart::set_width()`].  "),
        "/// Set the [`Chart::setWidth()`]."
    );
}
