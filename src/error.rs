//! The error kinds that transforms and the session report.
use vstd::prelude::*;

verus! {

#[verifier::external_type_specification]
#[verifier::external_body]
pub struct ExIoErrorKind(std::io::ErrorKind);

#[verifier::external_type_specification]
#[verifier::external_body]
pub struct ExParseFloatError(std::num::ParseFloatError);

/// Relies on `std::io::ErrorKind: Clone`, used by the derived `Clone` of [`Error`].
pub assume_specification[ <std::io::ErrorKind as std::clone::Clone>::clone ](
    kind: &std::io::ErrorKind,
) -> std::io::ErrorKind;

/// Relies on `std::num::ParseFloatError: Clone`, used by the derived `Clone` of [`Error`].
pub assume_specification[ <std::num::ParseFloatError as std::clone::Clone>::clone ](
    e: &std::num::ParseFloatError,
) -> std::num::ParseFloatError;

/// Every failure that an operation of this crate, or a caller driving it,
/// reports. None of them is retried.
#[derive(Debug, Clone)]
pub enum Error {
    /// An interactive pick was aborted.
    DialogClosed,
    /// A filesystem operation failed, with the OS classification.
    IOFailed(std::io::ErrorKind),
    /// A numeric parameter did not parse.
    ParseError(std::num::ParseFloatError),
    /// An image could not be decoded or encoded; the codec's message.
    ImageError(String),
    /// Two operands that must have the same size do not.
    WidthHeightNotEqualError,
}

impl Error {
    /// The text shown to a user for this error.
    pub fn message(&self) -> (r: String)
        ensures
            self is DialogClosed ==> r@ == "DialogClosed"@,
            self matches Error::IOFailed(kind) ==> vstd::string::to_string_from_display_ensures::<std::io::ErrorKind>(&kind, r),
            self is ParseError ==> r@ == "数値を入力してください"@,
            self matches Error::ImageError(m) ==> r@ == m@,
            self is WidthHeightNotEqualError ==> r@ == "WidthHeightNotEqual"@,
    {
        match self {
            Error::DialogClosed => String::from_str("DialogClosed"),
            Error::IOFailed(kind) => kind.to_string(),
            Error::ParseError(_) => String::from_str("数値を入力してください"),
            Error::ImageError(m) => m.clone(),
            Error::WidthHeightNotEqualError => String::from_str("WidthHeightNotEqual"),
        }
    }
}

} // verus!
