use hmtk::error::{FieldError, IntErrorKind, ParseIntError};
use hmtk::number::parse_int_text;
use hmtk::units::{Celsius, FieldValue, Percentage, Watt, WattHours};

fn int_err(kind: IntErrorKind) -> FieldError {
    FieldError::Int(ParseIntError { kind })
}

#[test]
fn units_parse_decimal_text() {
    assert_eq!(Watt::parse_text("23"), Ok(Watt(23)));
    assert_eq!(Watt::parse_text("+7"), Ok(Watt(7)));
    assert_eq!(WattHours::parse_text("2217"), Ok(WattHours(2217)));
    assert_eq!(WattHours::parse_text("4294967295"), Ok(WattHours(u32::MAX)));
    assert_eq!(Celsius::parse_text("-27"), Ok(Celsius(-27)));
    assert_eq!(Celsius::parse_text("-2147483648"), Ok(Celsius(i32::MIN)));
    assert_eq!(Percentage::parse_text("099"), Ok(Percentage(99)));
    assert_eq!(<u8 as FieldValue>::parse_text("255"), Ok(255u8));
}

#[test]
fn units_report_numeric_errors() {
    assert_eq!(Watt::parse_text(""), Err(int_err(IntErrorKind::Empty)));
    assert_eq!(Watt::parse_text("-1"), Err(int_err(IntErrorKind::InvalidDigit)));
    assert_eq!(Watt::parse_text("+"), Err(int_err(IntErrorKind::InvalidDigit)));
    assert_eq!(Watt::parse_text(" 1"), Err(int_err(IntErrorKind::InvalidDigit)));
    assert_eq!(Watt::parse_text("4294967296"), Err(int_err(IntErrorKind::PosOverflow)));
    assert_eq!(Percentage::parse_text("256"), Err(int_err(IntErrorKind::PosOverflow)));
    assert_eq!(Celsius::parse_text("-"), Err(int_err(IntErrorKind::InvalidDigit)));
    assert_eq!(Celsius::parse_text("2147483648"), Err(int_err(IntErrorKind::PosOverflow)));
    assert_eq!(Celsius::parse_text("-2147483649"), Err(int_err(IntErrorKind::NegOverflow)));
}

#[test]
fn errors_match_std_parse() {
    for s in ["", "0", "+", "-", "-0", "+12", "12a", "a12", "999", "256", "1_0", "٣", "00255"] {
        let ours = parse_int_text(s, 0, 255).map(|v| v as u8).map_err(|e| e.kind);
        let std = s.parse::<u8>().map_err(|e| format!("{:?}", e.kind()));
        assert_eq!(ours.map_err(|k| format!("{k:?}")), std, "text {s:?}");
    }
    for s in ["-128", "-129", "127", "128", "-", "+-1", "--1"] {
        let ours = parse_int_text(s, -128, 127).map(|v| v as i8).map_err(|e| e.kind);
        let std = s.parse::<i8>().map_err(|e| format!("{:?}", e.kind()));
        assert_eq!(ours.map_err(|k| format!("{k:?}")), std, "text {s:?}");
    }
}
