use vstd::prelude::*;

verus! {

/// Why a decimal integer could not be read.
#[derive(Debug, Clone, Copy, PartialEq, Eq, Structural)]
pub enum IntErrorKind {
    /// The text is empty.
    Empty,
    /// A character is neither a digit nor an allowed leading sign.
    InvalidDigit,
    /// The value is larger than the target type allows.
    PosOverflow,
    /// The value is smaller than the target type allows.
    NegOverflow,
}

/// The error of a decimal integer parse.
#[derive(Debug, Clone, Copy, PartialEq, Eq, Structural)]
pub struct ParseIntError {
    pub kind: IntErrorKind,
}

/// A scene code outside the known set.
#[derive(Debug, Clone, Copy, PartialEq, Eq, Structural)]
pub struct InvalidSceneError;

/// Why the text of a single field could not be read as its type.
#[derive(Debug, Clone, Copy, PartialEq, Eq, Structural)]
pub enum FieldError {
    Int(ParseIntError),
    Scene(InvalidSceneError),
}

/// A status payload that could not be decoded.
#[derive(Debug)]
pub enum InvalidStatus {
    /// The payload is not valid text or not a `key=value` list; holds the payload.
    InvalidFormat(Vec<u8>),
    /// The field is present but its text does not parse.
    InvalidField(&'static str, FieldError),
    /// The field is required but absent.
    MissingField(&'static str),
}

} // verus!
