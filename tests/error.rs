use rust_xlsxwriter as xlsx;
use wasm_xlsxwriter::error::XlsxError;

#[test]
fn messages_name_the_kind_of_error() {
    assert_eq!(XlsxError::InvalidDate.message(), "InvalidDateError");
    assert_eq!(XlsxError::Type("number".to_string()).message(), "TypeError(\"number\")");
    assert_eq!(
        XlsxError::Internal("say \"hi\"".to_string()).message(),
        "InternalError(\"say \\\"hi\\\"\")"
    );
}

#[test]
fn library_errors_are_wrapped() {
    let e = XlsxError::from(xlsx::XlsxError::ParameterError("bad".to_string()));
    assert!(matches!(e, XlsxError::Xlsx(_)));
    let message = e.message();
    assert!(message.starts_with("XlsxError(ParameterError("));
    assert!(message.ends_with(")"));
}
