//! Decimal text of integers: how a number is written, how a text is read,
//! and the proof that reading what was written gives the number back.
//!
//! Reading follows the usual rules for integers in decimal: an optional sign,
//! then at least one ASCII digit, the first defect from the left deciding the
//! error.

use vstd::prelude::*;

verus! {

/// Why a text is not a decimal integer of the wanted type.
#[derive(Debug, Copy, Clone, PartialEq, Eq, Structural, Hash)]
pub enum IntErrorKind {
    /// The text is empty.
    Empty,
    /// A character is no digit, or the text is a sign with nothing after it.
    InvalidDigit,
    /// The number is too large for the type.
    PosOverflow,
    /// The number is too small for the type.
    NegOverflow,
}

/// The defect that stops a run of digits from being read.
pub enum ScanError {
    /// A character that is no ASCII digit.
    NotADigit,
    /// The digits read so far already exceed the limit.
    TooLarge,
}

/// Whether `c` is one of the ASCII digits `0` to `9`.
pub open spec fn is_digit(c: char) -> bool {
    48 <= c as int <= 57
}

/// The value of the ASCII digit `c`.
pub open spec fn digit_value(c: char) -> nat {
    (c as int - 48) as nat
}

/// The ASCII digit that stands for `d`, for `d` below ten.
pub open spec fn digit_char(d: nat) -> char {
    (48 + d) as char
}

/// The decimal digits of `n`, most significant first, without leading zeros.
pub open spec fn decimal(n: nat) -> Seq<char>
    decreases n,
{
    if n < 10 {
        seq![digit_char(n)]
    } else {
        decimal(n / 10).push(digit_char(n % 10))
    }
}

/// The decimal text of `i`: a minus sign before the digits of a negative
/// number, no sign otherwise.
pub open spec fn signed_decimal(i: int) -> Seq<char> {
    if i < 0 {
        seq!['-'] + decimal((-i) as nat)
    } else {
        decimal(i as nat)
    }
}

/// Reads `s` as a run of digits from the left. The first character that is
/// no digit, or the first digit with which the number passes `limit`, stops
/// the reading with the matching error.
pub open spec fn scan_digits(s: Seq<char>, limit: nat) -> Result<nat, ScanError>
    decreases s.len(),
{
    if s.len() == 0 {
        Ok(0)
    } else {
        match scan_digits(s.drop_last(), limit) {
            Err(e) => Err(e),
            Ok(v) => if !is_digit(s.last()) {
                Err(ScanError::NotADigit)
            } else if v * 10 + digit_value(s.last()) > limit {
                Err(ScanError::TooLarge)
            } else {
                Ok(v * 10 + digit_value(s.last()))
            },
        }
    }
}

/// What `s` says when read as an unsigned decimal number of at most `max`.
/// A leading plus sign is accepted, a minus sign is not.
pub open spec fn parse_unsigned(s: Seq<char>, max: nat) -> Result<nat, IntErrorKind> {
    if s.len() == 0 {
        Err(IntErrorKind::Empty)
    } else if s.len() == 1 && (s[0] == '+' || s[0] == '-') {
        Err(IntErrorKind::InvalidDigit)
    } else {
        let digits = if s[0] == '+' {
            s.subrange(1, s.len() as int)
        } else {
            s
        };
        match scan_digits(digits, max) {
            Ok(v) => Ok(v),
            Err(ScanError::NotADigit) => Err(IntErrorKind::InvalidDigit),
            Err(ScanError::TooLarge) => Err(IntErrorKind::PosOverflow),
        }
    }
}

/// What `s` says when read as a signed decimal number between `-(max + 1)`
/// and `max`. A leading plus or minus sign is accepted.
pub open spec fn parse_signed(s: Seq<char>, max: nat) -> Result<int, IntErrorKind> {
    if s.len() == 0 {
        Err(IntErrorKind::Empty)
    } else if s.len() == 1 && (s[0] == '+' || s[0] == '-') {
        Err(IntErrorKind::InvalidDigit)
    } else if s[0] == '-' {
        match scan_digits(s.subrange(1, s.len() as int), max + 1) {
            Ok(v) => Ok(-(v as int)),
            Err(ScanError::NotADigit) => Err(IntErrorKind::InvalidDigit),
            Err(ScanError::TooLarge) => Err(IntErrorKind::NegOverflow),
        }
    } else {
        let digits = if s[0] == '+' {
            s.subrange(1, s.len() as int)
        } else {
            s
        };
        match scan_digits(digits, max) {
            Ok(v) => Ok(v as int),
            Err(ScanError::NotADigit) => Err(IntErrorKind::InvalidDigit),
            Err(ScanError::TooLarge) => Err(IntErrorKind::PosOverflow),
        }
    }
}

/// What `s` says when read as a `u32`.
pub open spec fn parse_u32_spec(s: Seq<char>) -> Result<u32, IntErrorKind> {
    match parse_unsigned(s, u32::MAX as nat) {
        Ok(v) => Ok(v as u32),
        Err(e) => Err(e),
    }
}

/// What `s` says when read as an `i32`.
pub open spec fn parse_i32_spec(s: Seq<char>) -> Result<i32, IntErrorKind> {
    match parse_signed(s, i32::MAX as nat) {
        Ok(v) => Ok(v as i32),
        Err(e) => Err(e),
    }
}

/// A reading that has failed on a prefix fails in the same way on every
/// longer prefix of the same text.
pub proof fn lemma_scan_error_persists(s: Seq<char>, limit: nat, i: int, j: int)
    requires
        0 <= i <= j <= s.len(),
        scan_digits(s.subrange(0, i), limit) is Err,
    ensures
        scan_digits(s.subrange(0, j), limit) == scan_digits(s.subrange(0, i), limit),
    decreases j - i,
{
    if i < j {
        lemma_scan_error_persists(s, limit, i, j - 1);
        assert(s.subrange(0, j).drop_last() =~= s.subrange(0, j - 1));
    }
}

/// Reading one more digit: the step by which `scan_digits` grows.
pub proof fn lemma_scan_step(s: Seq<char>, limit: nat, i: int)
    requires
        0 <= i < s.len(),
    ensures
        scan_digits(s.subrange(0, i + 1), limit) == (match scan_digits(s.subrange(0, i), limit) {
            Err(e) => Err(e),
            Ok(v) => if !is_digit(s[i]) {
                Err(ScanError::NotADigit)
            } else if v * 10 + digit_value(s[i]) > limit {
                Err(ScanError::TooLarge)
            } else {
                Ok(v * 10 + digit_value(s[i]))
            },
        }),
{
    assert(s.subrange(0, i + 1).drop_last() =~= s.subrange(0, i));
    assert(s.subrange(0, i + 1).last() == s[i]);
}

/// The digits of a number are digits, and there is at least one.
pub proof fn lemma_decimal_digits(n: nat)
    ensures
        decimal(n).len() >= 1,
        forall|i: int| 0 <= i < decimal(n).len() ==> is_digit(#[trigger] decimal(n)[i]),
    decreases n,
{
    if n >= 10 {
        lemma_decimal_digits(n / 10);
    }
}

/// Reading the digits of `n` gives `n`, as long as `n` is within the limit.
pub proof fn lemma_scan_decimal(n: nat, limit: nat)
    requires
        n <= limit,
    ensures
        scan_digits(decimal(n), limit) == Ok::<nat, ScanError>(n),
    decreases n,
{
    if n < 10 {
        let s = decimal(n);
        assert(s.drop_last() =~= Seq::<char>::empty());
        assert(scan_digits(s.drop_last(), limit) == Ok::<nat, ScanError>(0));
        assert(s.last() == digit_char(n));
    } else {
        lemma_scan_decimal(n / 10, limit);
        let s = decimal(n);
        assert(s.drop_last() =~= decimal(n / 10));
        assert(s.last() == digit_char(n % 10));
    }
}

/// Every `u32` is read back from its decimal text.
pub proof fn lemma_parse_format_u32(n: u32)
    ensures
        parse_u32_spec(decimal(n as nat)) == Ok::<u32, IntErrorKind>(n),
{
    lemma_decimal_digits(n as nat);
    lemma_scan_decimal(n as nat, u32::MAX as nat);
    let s = decimal(n as nat);
    assert(is_digit(s[0]));
}

/// Every `i32` is read back from its decimal text.
pub proof fn lemma_parse_format_i32(i: i32)
    ensures
        parse_i32_spec(signed_decimal(i as int)) == Ok::<i32, IntErrorKind>(i),
{
    let s = signed_decimal(i as int);
    if i < 0 {
        let m = (-(i as int)) as nat;
        lemma_decimal_digits(m);
        lemma_scan_decimal(m, (i32::MAX as nat) + 1);
        assert(s.subrange(1, s.len() as int) =~= decimal(m));
        assert(s[0] == '-');
    } else {
        lemma_decimal_digits(i as nat);
        lemma_scan_decimal(i as nat, i32::MAX as nat);
        assert(is_digit(s[0]));
    }
}

/// The one-character text of a digit.
fn digit_text(d: u32) -> (res: &'static str)
    requires
        d < 10,
    ensures
        res@ == seq![digit_char(d as nat)],
{
    proof {
        reveal_strlit("0");
        reveal_strlit("1");
        reveal_strlit("2");
        reveal_strlit("3");
        reveal_strlit("4");
        reveal_strlit("5");
        reveal_strlit("6");
        reveal_strlit("7");
        reveal_strlit("8");
        reveal_strlit("9");
    }
    let res = match d {
        0 => "0",
        1 => "1",
        2 => "2",
        3 => "3",
        4 => "4",
        5 => "5",
        6 => "6",
        7 => "7",
        8 => "8",
        _ => "9",
    };
    assert(res@ =~= seq![digit_char(d as nat)]);
    res
}

/// Appends the decimal digits of `n` to `out`.
pub fn push_decimal(out: &mut String, n: u32)
    ensures
        final(out)@ == old(out)@ + decimal(n as nat),
    decreases n,
{
    if n >= 10 {
        push_decimal(out, n / 10);
    }
    out.append(digit_text(n % 10));
    assert(out@ =~= old(out)@ + decimal(n as nat));
}

/// Appends the decimal text of `i` to `out`, with a minus sign if `i` is
/// negative.
pub fn push_signed_decimal(out: &mut String, i: i32)
    ensures
        final(out)@ == old(out)@ + signed_decimal(i as int),
{
    if i < 0 {
        proof {
            reveal_strlit("-");
        }
        out.append("-");
        let magnitude: u32 = (0 - (i as i64)) as u32;
        push_decimal(out, magnitude);
        assert(out@ =~= old(out)@ + signed_decimal(i as int));
    } else {
        push_decimal(out, i as u32);
    }
}

/// The decimal text of `n`.
pub fn format_u32(n: u32) -> (res: String)
    ensures
        res@ == decimal(n as nat),
{
    let mut out = String::new();
    push_decimal(&mut out, n);
    assert(out@ =~= decimal(n as nat));
    out
}

/// The decimal text of `i`.
pub fn format_i32(i: i32) -> (res: String)
    ensures
        res@ == signed_decimal(i as int),
{
    let mut out = String::new();
    push_signed_decimal(&mut out, i);
    assert(out@ =~= signed_decimal(i as int));
    out
}

/// Reads the characters of `s` from `from` on as digits of a number of at
/// most `limit`.
fn scan(s: &str, from: usize, limit: u64) -> (res: Result<u64, ScanError>)
    requires
        from <= s@.len(),
        limit <= 0x1_0000_0000,
    ensures
        match scan_digits(s@.subrange(from as int, s@.len() as int), limit as nat) {
            Ok(v) => res == Ok::<u64, ScanError>(v as u64) && v <= limit,
            Err(e) => res == Err::<u64, ScanError>(e),
        },
{
    let n = s.unicode_len();
    let ghost digits = s@.subrange(from as int, n as int);
    let mut value: u64 = 0;
    let mut i: usize = from;
    assert(digits.subrange(0, 0) =~= Seq::<char>::empty());
    while i < n
        invariant
            from <= i <= n,
            n == s@.len(),
            digits == s@.subrange(from as int, n as int),
            limit <= 0x1_0000_0000,
            value <= limit,
            scan_digits(digits.subrange(0, i - from), limit as nat) == Ok::<nat, ScanError>(
                value as nat,
            ),
        decreases n - i,
    {
        let c = s.get_char(i);
        proof {
            lemma_scan_step(digits, limit as nat, i - from);
            assert(digits[i - from] == c);
        }
        let code: u32 = c as u32;
        if code < 48 || code > 57 {
            proof {
                lemma_scan_error_persists(digits, limit as nat, i - from + 1, digits.len() as int);
                assert(digits.subrange(0, digits.len() as int) =~= digits);
            }
            return Err(ScanError::NotADigit);
        }
        let d: u64 = (code - 48) as u64;
        let next: u64 = value * 10 + d;
        if next > limit {
            proof {
                lemma_scan_error_persists(digits, limit as nat, i - from + 1, digits.len() as int);
                assert(digits.subrange(0, digits.len() as int) =~= digits);
            }
            return Err(ScanError::TooLarge);
        }
        value = next;
        i = i + 1;
    }
    assert(digits.subrange(0, i - from) =~= digits);
    Ok(value)
}

/// Reads `s` as a `u32` in decimal. An optional plus sign may come first; at
/// least one digit must follow, and nothing else.
pub fn parse_u32(s: &str) -> (res: Result<u32, IntErrorKind>)
    ensures
        res == parse_u32_spec(s@),
{
    let n = s.unicode_len();
    if n == 0 {
        return Err(IntErrorKind::Empty);
    }
    let first = s.get_char(0);
    if n == 1 && (first == '+' || first == '-') {
        return Err(IntErrorKind::InvalidDigit);
    }
    let from: usize = if first == '+' {
        1
    } else {
        0
    };
    assert(s@.subrange(0, s@.len() as int) =~= s@);
    match scan(s, from, 0xFFFF_FFFF) {
        Ok(v) => Ok(v as u32),
        Err(ScanError::NotADigit) => Err(IntErrorKind::InvalidDigit),
        Err(ScanError::TooLarge) => Err(IntErrorKind::PosOverflow),
    }
}

/// Reads `s` as an `i32` in decimal. An optional plus or minus sign may come
/// first; at least one digit must follow, and nothing else.
pub fn parse_i32(s: &str) -> (res: Result<i32, IntErrorKind>)
    ensures
        res == parse_i32_spec(s@),
{
    let n = s.unicode_len();
    if n == 0 {
        return Err(IntErrorKind::Empty);
    }
    let first = s.get_char(0);
    if n == 1 && (first == '+' || first == '-') {
        return Err(IntErrorKind::InvalidDigit);
    }
    assert(s@.subrange(0, s@.len() as int) =~= s@);
    if first == '-' {
        match scan(s, 1, 0x8000_0000) {
            Ok(v) => {
                let negative: i64 = 0 - (v as i64);
                Ok(negative as i32)
            },
            Err(ScanError::NotADigit) => Err(IntErrorKind::InvalidDigit),
            Err(ScanError::TooLarge) => Err(IntErrorKind::NegOverflow),
        }
    } else {
        let from: usize = if first == '+' {
            1
        } else {
            0
        };
        match scan(s, from, 0x7FFF_FFFF) {
            Ok(v) => Ok(v as i32),
            Err(ScanError::NotADigit) => Err(IntErrorKind::InvalidDigit),
            Err(ScanError::TooLarge) => Err(IntErrorKind::PosOverflow),
        }
    }
}

} // verus!
