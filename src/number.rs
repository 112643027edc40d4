use vstd::prelude::*;
use crate::error::{IntErrorKind, ParseIntError};

verus! {

pub open spec fn is_digit(c: char) -> bool {
    '0' <= c && c <= '9'
}

pub open spec fn digit_value(c: char) -> int {
    c as int - '0' as int
}

/// Reads the digits `d` after the accumulated magnitude `acc`, failing at the first
/// character that is no digit or at the first prefix whose magnitude exceeds `bound`.
pub open spec fn scan_digits(d: Seq<char>, acc: int, bound: int, neg: bool) -> Result<int, IntErrorKind>
    decreases d.len(),
{
    if d.len() == 0 {
        Ok(acc)
    } else if !is_digit(d[0]) {
        Err(IntErrorKind::InvalidDigit)
    } else if acc * 10 + digit_value(d[0]) > bound {
        Err(if neg { IntErrorKind::NegOverflow } else { IntErrorKind::PosOverflow })
    } else {
        scan_digits(d.drop_first(), acc * 10 + digit_value(d[0]), bound, neg)
    }
}

/// The standard reading of decimal text as an integer in `[min, max]`: an optional
/// `+` (or `-` where `min < 0`) followed by at least one digit.
pub open spec fn parse_int(s: Seq<char>, min: int, max: int) -> Result<int, IntErrorKind> {
    if s.len() == 0 {
        Err(IntErrorKind::Empty)
    } else {
        let neg = s[0] == '-' && min < 0;
        let digits = if s[0] == '+' || neg { s.drop_first() } else { s };
        if digits.len() == 0 {
            Err(IntErrorKind::InvalidDigit)
        } else {
            match scan_digits(digits, 0, if neg { -min } else { max }, neg) {
                Ok(v) => Ok(if neg { -v } else { v }),
                Err(k) => Err(k),
            }
        }
    }
}

proof fn lemma_scan_bounded(d: Seq<char>, acc: int, bound: int, neg: bool)
    requires
        0 <= acc <= bound,
    ensures
        scan_digits(d, acc, bound, neg) matches Ok(v) ==> 0 <= v <= bound,
    decreases d.len(),
{
    if d.len() > 0 && is_digit(d[0]) && acc * 10 + digit_value(d[0]) <= bound {
        lemma_scan_bounded(d.drop_first(), acc * 10 + digit_value(d[0]), bound, neg);
    }
}

/// Reads `s` as a decimal integer in `[min, max]`, with the standard rules.
pub fn parse_int_text(s: &str, min: i64, max: i64) -> (r: Result<i64, ParseIntError>)
    requires
        -0x1_0000_0000 <= min <= 0 <= max <= 0x1_0000_0000,
    ensures
        r matches Ok(v) ==> parse_int(s@, min as int, max as int) == Ok::<int, IntErrorKind>(v as int)
            && min <= v <= max,
        r matches Err(e) ==> parse_int(s@, min as int, max as int) == Err::<int, IntErrorKind>(e.kind),
{
    let n = s.unicode_len();
    if n == 0 {
        return Err(ParseIntError { kind: IntErrorKind::Empty });
    }
    let first = s.get_char(0);
    let neg = first == '-' && min < 0;
    let start: usize = if first == '+' || neg { 1 } else { 0 };
    if start == n {
        return Err(ParseIntError { kind: IntErrorKind::InvalidDigit });
    }
    let bound: u64 = if neg { (-(min as i128)) as u64 } else { max as u64 };
    assert(bound as int == if neg { -(min as int) } else { max as int });
    let ghost digits = s@.subrange(start as int, n as int);
    assert(digits =~= (if s@[0] == '+' || neg { s@.drop_first() } else { s@ }));
    assert(parse_int(s@, min as int, max as int) == match scan_digits(digits, 0, bound as int, neg) {
        Ok(v) => Ok(if neg { -v } else { v }),
        Err(k) => Err(k),
    });
    let mut acc: u64 = 0;
    let mut i: usize = start;
    while i < n
        invariant
            start <= i <= n,
            n == s@.len(),
            acc <= bound,
            bound <= 0x1_0000_0000,
            scan_digits(digits, 0, bound as int, neg)
                == scan_digits(s@.subrange(i as int, n as int), acc as int, bound as int, neg),
            neg == (s@[0] == '-' && min < 0),
            parse_int(s@, min as int, max as int) == match scan_digits(digits, 0, bound as int, neg) {
                Ok(v) => Ok(if neg { -v } else { v }),
                Err(k) => Err::<int, IntErrorKind>(k),
            },
        decreases n - i,
    {
        let c = s.get_char(i);
        let ghost rest = s@.subrange(i as int, n as int);
        assert(rest[0] == c);
        assert(rest.drop_first() =~= s@.subrange(i + 1, n as int));
        if !('0' <= c && c <= '9') {
            assert(scan_digits(rest, acc as int, bound as int, neg) == Err::<int, IntErrorKind>(IntErrorKind::InvalidDigit));
            return Err(ParseIntError { kind: IntErrorKind::InvalidDigit });
        }
        let d = (c as u32 - '0' as u32) as u64;
        let next = acc * 10 + d;
        assert(d as int == digit_value(c));
        if next > bound {
            return Err(ParseIntError {
                kind: if neg { IntErrorKind::NegOverflow } else { IntErrorKind::PosOverflow },
            });
        }
        acc = next;
        i = i + 1;
    }
    assert(s@.subrange(n as int, n as int).len() == 0);
    proof {
        lemma_scan_bounded(digits, 0, bound as int, neg);
    }
    if neg {
        Ok(-(acc as i64))
    } else {
        Ok(acc as i64)
    }
}

} // verus!
