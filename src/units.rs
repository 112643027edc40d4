use vstd::prelude::*;
use crate::error::{FieldError, IntErrorKind, InvalidSceneError, ParseIntError};
use crate::number::{parse_int, parse_int_text};

verus! {

/// A value that a status field's text is read as.
pub trait FieldValue: Sized {
    /// What reading the text `s` gives.
    spec fn spec_parse(s: Seq<char>) -> Result<Self, FieldError>;

    fn parse_text(s: &str) -> (r: Result<Self, FieldError>)
        ensures
            r == Self::spec_parse(s@),
    ;
}

/// The standard decimal reading of `s` in `[min, max]`, with a numeric error on failure.
pub open spec fn int_field(s: Seq<char>, min: int, max: int) -> Result<int, FieldError> {
    match parse_int(s, min, max) {
        Ok(v) => Ok(v),
        Err(k) => Err(FieldError::Int(ParseIntError { kind: k })),
    }
}

fn read_int(s: &str, min: i64, max: i64) -> (r: Result<i64, FieldError>)
    requires
        -0x1_0000_0000 <= min <= 0 <= max <= 0x1_0000_0000,
    ensures
        r matches Ok(v) ==> int_field(s@, min as int, max as int) == Ok::<int, FieldError>(v as int)
            && min <= v <= max,
        r matches Err(e) ==> int_field(s@, min as int, max as int) == Err::<int, FieldError>(e),
{
    match parse_int_text(s, min, max) {
        Ok(v) => Ok(v),
        Err(e) => Err(FieldError::Int(e)),
    }
}

/// Power in watts.
#[derive(Debug, Default, Clone, Copy, PartialEq, Eq, Structural)]
pub struct Watt(pub u32);

/// Energy in watt-hours.
#[derive(Debug, Default, Clone, Copy, PartialEq, Eq, Structural)]
pub struct WattHours(pub u32);

/// Temperature in degrees Celsius.
#[derive(Debug, Default, Clone, Copy, PartialEq, Eq, Structural)]
pub struct Celsius(pub i32);

/// A percentage.
#[derive(Debug, Default, Clone, Copy, PartialEq, Eq, Structural)]
pub struct Percentage(pub u8);

impl FieldValue for u8 {
    open spec fn spec_parse(s: Seq<char>) -> Result<u8, FieldError> {
        match int_field(s, 0, 0xff) {
            Ok(v) => Ok(v as u8),
            Err(e) => Err(e),
        }
    }

    fn parse_text(s: &str) -> (r: Result<u8, FieldError>) {
        match read_int(s, 0, 0xff) {
            Ok(v) => Ok(v as u8),
            Err(e) => Err(e),
        }
    }
}

impl FieldValue for Watt {
    open spec fn spec_parse(s: Seq<char>) -> Result<Watt, FieldError> {
        match int_field(s, 0, 0xffff_ffff) {
            Ok(v) => Ok(Watt(v as u32)),
            Err(e) => Err(e),
        }
    }

    fn parse_text(s: &str) -> (r: Result<Watt, FieldError>) {
        match read_int(s, 0, 0xffff_ffff) {
            Ok(v) => Ok(Watt(v as u32)),
            Err(e) => Err(e),
        }
    }
}

impl FieldValue for WattHours {
    open spec fn spec_parse(s: Seq<char>) -> Result<WattHours, FieldError> {
        match int_field(s, 0, 0xffff_ffff) {
            Ok(v) => Ok(WattHours(v as u32)),
            Err(e) => Err(e),
        }
    }

    fn parse_text(s: &str) -> (r: Result<WattHours, FieldError>) {
        match read_int(s, 0, 0xffff_ffff) {
            Ok(v) => Ok(WattHours(v as u32)),
            Err(e) => Err(e),
        }
    }
}

impl FieldValue for Celsius {
    open spec fn spec_parse(s: Seq<char>) -> Result<Celsius, FieldError> {
        match int_field(s, -0x8000_0000, 0x7fff_ffff) {
            Ok(v) => Ok(Celsius(v as i32)),
            Err(e) => Err(e),
        }
    }

    fn parse_text(s: &str) -> (r: Result<Celsius, FieldError>) {
        match read_int(s, -0x8000_0000, 0x7fff_ffff) {
            Ok(v) => Ok(Celsius(v as i32)),
            Err(e) => Err(e),
        }
    }
}

impl FieldValue for Percentage {
    open spec fn spec_parse(s: Seq<char>) -> Result<Percentage, FieldError> {
        match int_field(s, 0, 0xff) {
            Ok(v) => Ok(Percentage(v as u8)),
            Err(e) => Err(e),
        }
    }

    fn parse_text(s: &str) -> (r: Result<Percentage, FieldError>) {
        match read_int(s, 0, 0xff) {
            Ok(v) => Ok(Percentage(v as u8)),
            Err(e) => Err(e),
        }
    }
}

} // verus!
