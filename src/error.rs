//! The errors of the bindings: those of the spreadsheet library, a value of
//! the wrong type, an internal fault and an invalid date.
use vstd::prelude::*;
use rust_xlsxwriter::XlsxError as LibraryError;

verus! {

#[verifier::external_type_specification]
#[verifier::external_body]
pub struct ExLibraryError(LibraryError);

/// An error of the bindings.
#[derive(Debug)]
pub enum XlsxError {
    /// An error of the spreadsheet library.
    Xlsx(LibraryError),
    /// A value was not of the type asked for.
    Type(String),
    /// A fault inside the bindings.
    Internal(String),
    /// A date or time that does not exist.
    InvalidDate,
}

impl From<LibraryError> for XlsxError {
    fn from(e: LibraryError) -> (r: Self)
        ensures
            r == XlsxError::Xlsx(e),
    {
        XlsxError::Xlsx(e)
    }
}

impl vstd::std_specs::convert::FromSpecImpl<LibraryError> for XlsxError {
    open spec fn obeys_from_spec() -> bool {
        true
    }

    open spec fn from_spec(e: LibraryError) -> Self {
        XlsxError::Xlsx(e)
    }
}

/// The `Debug` text of a string: quoted, with its special characters escaped.
pub uninterp spec fn debug_text_of(s: Seq<char>) -> Seq<char>;

/// Relies on the `Debug` format of `str`, which depends on the characters
/// alone.
#[verifier::external_body]
fn debug_text(s: &str) -> (r: String)
    ensures
        r@ == debug_text_of(s@),
{
    format!("{:?}", s)
}

/// Relies on the `Debug` format of the spreadsheet library's error.
#[verifier::external_body]
fn library_debug_text(e: &LibraryError) -> (r: String) {
    format!("{:?}", e)
}

impl XlsxError {
    /// The message of the error: its kind, with the detail it carries.
    pub fn message(&self) -> (r: String)
        ensures
            self matches XlsxError::Type(d) ==> r@ == "TypeError("@ + debug_text_of(d@) + ")"@,
            self matches XlsxError::Internal(d) ==> r@ == "InternalError("@ + debug_text_of(d@)
                + ")"@,
            self is InvalidDate ==> r@ == "InvalidDateError"@,
            self is Xlsx ==> exists|d: Seq<char>| r@ == "XlsxError("@ + d + ")"@,
    {
        match self {
            XlsxError::Xlsx(e) => {
                let mut r = String::from_str("XlsxError(");
                let d = library_debug_text(e);
                r.append(d.as_str());
                r.append(")");
                assert(r@ == "XlsxError("@ + d@ + ")"@);
                r
            },
            XlsxError::Type(d) => {
                let mut r = String::from_str("TypeError(");
                r.append(debug_text(d.as_str()).as_str());
                r.append(")");
                r
            },
            XlsxError::Internal(d) => {
                let mut r = String::from_str("InternalError(");
                r.append(debug_text(d.as_str()).as_str());
                r.append(")");
                r
            },
            XlsxError::InvalidDate => String::from_str("InvalidDateError"),
        }
    }
}

} // verus!
