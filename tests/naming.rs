use wasm_xlsxwriter::naming::{to_ascii_upper, to_camel_case, to_snake_case};
use wasm_xlsxwriter::text::{find_str, is_whitespace, trim_str};

#[test]
fn camel_case_of_snake_names() {
    assert_eq!(to_camel_case("set_italic"), "setItalic");
    assert_eq!(to_camel_case("add_series"), "addSeries");
    assert_eq!(to_camel_case("new"), "new");
    assert_eq!(to_camel_case(""), "");
    assert_eq!(to_camel_case("_leading"), "Leading");
    assert_eq!(to_camel_case("a__b"), "aB");
    assert_eq!(to_camel_case("trailing_"), "trailing");
    assert_eq!(to_camel_case("set_1st"), "set1st");
}

#[test]
fn snake_case_of_type_names() {
    assert_eq!(to_snake_case("FormatAlign"), "format_align");
    assert_eq!(to_snake_case("Workbook"), "workbook");
    assert_eq!(to_snake_case("ChartDataLabelPosition"), "chart_data_label_position");
    assert_eq!(to_snake_case(""), "");
    assert_eq!(to_snake_case("URL"), "u_r_l");
}

#[test]
fn ascii_upper_only_changes_lower_case_letters() {
    assert_eq!(to_ascii_upper('a'), 'A');
    assert_eq!(to_ascii_upper('z'), 'Z');
    assert_eq!(to_ascii_upper('Q'), 'Q');
    assert_eq!(to_ascii_upper('1'), '1');
    assert_eq!(to_ascii_upper('é'), 'é');
}

#[test]
fn whitespace_matches_std() {
    for c in ['\t', '\n', '\r', ' ', '\u{85}', '\u{a0}', '\u{2003}', '\u{3000}', 'a', '_', '\u{200b}'] {
        assert_eq!(is_whitespace(c), c.is_whitespace());
    }
}

#[test]
fn trim_matches_std() {
    for s in ["", "  ", " a b ", "\u{2028}x\u{a0}", "plain"] {
        assert_eq!(trim_str(s), s.trim());
    }
}

#[test]
fn find_counts_characters() {
    assert_eq!(find_str("abc# Example", "# Example"), Some(3));
    assert_eq!(find_str("é# Example", "# Example"), Some(1));
    assert_eq!(find_str("abc", "x"), None);
    assert_eq!(find_str("abc", ""), Some(0));
    assert_eq!(find_str("", "a"), None);
}
