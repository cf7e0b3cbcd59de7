//! Decimal rendering and parsing of unsigned integers.
//!
//! Rendering follows `ToString` on Rust integers (shortest decimal form, no
//! sign for non-negative values) and parsing follows `str::parse` for
//! unsigned integer types: an optional `+`, then one or more ASCII digits,
//! scanned left to right, failing at the first non-digit or at the first
//! digit that makes the value exceed the type's maximum.
use vstd::prelude::*;

verus! {

/// Why a decimal string was rejected; the same three cases, and the same
/// messages, as the standard library's integer parse error for unsigned types.
#[derive(Debug, Clone, Copy, PartialEq, Eq, Structural)]
pub enum IntErrorKind {
    /// The input was empty.
    Empty,
    /// A character other than an ASCII digit was met (or only a sign was given).
    InvalidDigit,
    /// The value does not fit in the target type.
    PosOverflow,
}

/// The character of a single decimal digit.
pub open spec fn digit_char(d: nat) -> char
    recommends
        d < 10,
{
    if d == 0 {
        '0'
    } else if d == 1 {
        '1'
    } else if d == 2 {
        '2'
    } else if d == 3 {
        '3'
    } else if d == 4 {
        '4'
    } else if d == 5 {
        '5'
    } else if d == 6 {
        '6'
    } else if d == 7 {
        '7'
    } else if d == 8 {
        '8'
    } else {
        '9'
    }
}

/// Whether `c` is one of the ASCII digits `0`..`9`.
pub open spec fn is_digit(c: char) -> bool {
    '0' <= c && c <= '9'
}

/// The value of an ASCII digit character.
pub open spec fn digit_value(c: char) -> nat {
    ((c as int) - ('0' as int)) as nat
}

/// The shortest decimal spelling of `n`.
pub open spec fn decimal(n: nat) -> Seq<char>
    decreases n,
{
    if n < 10 {
        seq![digit_char(n)]
    } else {
        decimal(n / 10) + seq![digit_char(n % 10)]
    }
}

/// The decimal spelling of a signed value: a `-` before negative numbers.
pub open spec fn signed_decimal(n: int) -> Seq<char> {
    if n < 0 {
        seq!['-'] + decimal((-n) as nat)
    } else {
        decimal(n as nat)
    }
}

/// Left-to-right scan of the digits after the optional sign, starting from
/// the accumulated value `acc`, for a target type whose largest value is `max`.
pub open spec fn scan_digits(s: Seq<char>, acc: nat, max: nat) -> Result<nat, IntErrorKind>
    decreases s.len(),
{
    if s.len() == 0 {
        Ok(acc)
    } else if !is_digit(s[0]) {
        Err(IntErrorKind::InvalidDigit)
    } else if acc * 10 + digit_value(s[0]) > max {
        Err(IntErrorKind::PosOverflow)
    } else {
        scan_digits(s.drop_first(), acc * 10 + digit_value(s[0]), max)
    }
}

/// The result of parsing `s` as an unsigned integer whose largest value is `max`.
pub open spec fn parse_unsigned(s: Seq<char>, max: nat) -> Result<nat, IntErrorKind> {
    if s.len() == 0 {
        Err(IntErrorKind::Empty)
    } else if s[0] == '+' && s.len() == 1 {
        Err(IntErrorKind::InvalidDigit)
    } else if s[0] == '+' {
        scan_digits(s.drop_first(), 0, max)
    } else {
        scan_digits(s, 0, max)
    }
}

/// The message that the standard library's integer parse error displays.
pub open spec fn int_error_message(k: IntErrorKind) -> Seq<char> {
    match k {
        IntErrorKind::Empty => "cannot parse integer from empty string"@,
        IntErrorKind::InvalidDigit => "invalid digit found in string"@,
        IntErrorKind::PosOverflow => "number too large to fit in target type"@,
    }
}

impl IntErrorKind {
    /// The message of this parse error, as the standard library displays it.
    pub fn message(&self) -> (s: &'static str)
        ensures
            s@ == int_error_message(*self),
    {
        match self {
            IntErrorKind::Empty => {
                let s = "cannot parse integer from empty string";
                proof {
                    reveal_strlit("cannot parse integer from empty string");
                }
                s
            },
            IntErrorKind::InvalidDigit => {
                let s = "invalid digit found in string";
                proof {
                    reveal_strlit("invalid digit found in string");
                }
                s
            },
            IntErrorKind::PosOverflow => {
                let s = "number too large to fit in target type";
                proof {
                    reveal_strlit("number too large to fit in target type");
                }
                s
            },
        }
    }
}

/// A scan that stays within `max` ends within `max`.
pub proof fn lemma_scan_bound(s: Seq<char>, acc: nat, max: nat)
    requires
        acc <= max,
    ensures
        scan_digits(s, acc, max) matches Ok(v) ==> v <= max,
    decreases s.len(),
{
    if s.len() > 0 && is_digit(s[0]) && acc * 10 + digit_value(s[0]) <= max {
        lemma_scan_bound(s.drop_first(), acc * 10 + digit_value(s[0]), max);
    }
}

/// A parsed value never exceeds the maximum it was parsed against.
pub proof fn lemma_parse_bound(s: Seq<char>, max: nat)
    ensures
        parse_unsigned(s, max) matches Ok(v) ==> v <= max,
{
    if s.len() > 0 {
        lemma_scan_bound(s, 0, max);
        lemma_scan_bound(s.drop_first(), 0, max);
    }
}

/// Every character of a decimal spelling is a digit.
pub proof fn lemma_decimal_digits(n: nat)
    ensures
        decimal(n).len() >= 1,
        forall|i: int| 0 <= i < decimal(n).len() ==> is_digit(#[trigger] decimal(n)[i]),
    decreases n,
{
    if n >= 10 {
        lemma_decimal_digits(n / 10);
    }
}

/// Scanning a decimal spelling followed by more text reaches the rest with
/// the spelled value as the accumulator.
pub proof fn lemma_scan_decimal_prefix(m: nat, t: Seq<char>, max: nat)
    requires
        m <= max,
    ensures
        scan_digits(decimal(m) + t, 0, max) == scan_digits(t, m, max),
    decreases m,
{
    if m < 10 {
        let s = decimal(m) + t;
        assert(s[0] == digit_char(m));
        assert(s.drop_first() =~= t);
    } else {
        let d = seq![digit_char(m % 10)];
        assert(decimal(m) + t =~= decimal(m / 10) + (d + t));
        lemma_scan_decimal_prefix(m / 10, d + t, max);
        let s = d + t;
        assert(s[0] == digit_char(m % 10));
        assert(s.drop_first() =~= t);
        assert((m / 10) * 10 + m % 10 == m);
    }
}

/// What a rendering gives back: parsing the decimal spelling of a value that
/// fits yields that value.
pub proof fn lemma_parse_decimal(n: nat, max: nat)
    requires
        n <= max,
    ensures
        parse_unsigned(decimal(n), max) == Ok::<nat, IntErrorKind>(n),
{
    lemma_decimal_digits(n);
    lemma_scan_decimal_prefix(n, Seq::<char>::empty(), max);
    assert(decimal(n) + Seq::<char>::empty() =~= decimal(n));
    assert(is_digit(decimal(n)[0]));
}

/// The one-character string of a decimal digit.
fn digit_str(d: u64) -> (s: &'static str)
    requires
        d < 10,
    ensures
        s@ == seq![digit_char(d as nat)],
{
    if d == 0 {
        proof { reveal_strlit("0"); }
        "0"
    } else if d == 1 {
        proof { reveal_strlit("1"); }
        "1"
    } else if d == 2 {
        proof { reveal_strlit("2"); }
        "2"
    } else if d == 3 {
        proof { reveal_strlit("3"); }
        "3"
    } else if d == 4 {
        proof { reveal_strlit("4"); }
        "4"
    } else if d == 5 {
        proof { reveal_strlit("5"); }
        "5"
    } else if d == 6 {
        proof { reveal_strlit("6"); }
        "6"
    } else if d == 7 {
        proof { reveal_strlit("7"); }
        "7"
    } else if d == 8 {
        proof { reveal_strlit("8"); }
        "8"
    } else {
        proof { reveal_strlit("9"); }
        "9"
    }
}

/// The decimal spelling of `n`, as `n.to_string()` renders it.
pub fn u64_to_decimal(n: u64) -> (s: String)
    ensures
        s@ == decimal(n as nat),
    decreases n,
{
    if n < 10 {
        String::from_str(digit_str(n))
    } else {
        let mut s = u64_to_decimal(n / 10);
        s.append(digit_str(n % 10));
        s
    }
}

/// The decimal spelling of a signed 32-bit value, as `n.to_string()` renders it.
pub fn i32_to_decimal(n: i32) -> (s: String)
    ensures
        s@ == signed_decimal(n as int),
{
    if n < 0 {
        let magnitude: u64 = (0i64 - (n as i64)) as u64;
        let digits = u64_to_decimal(magnitude);
        let s = String::from_str("-");
        proof {
            reveal_strlit("-");
        }
        s.concat(digits.as_str())
    } else {
        u64_to_decimal(n as u64)
    }
}

/// Scan the characters `s[from..]` as digits, starting from `acc`.
fn scan_digits_exec(s: &Vec<char>, from: usize, max: u64) -> (r: Result<u64, IntErrorKind>)
    requires
        from <= s.len(),
    ensures
        match scan_digits(s@.skip(from as int), 0, max as nat) {
            Ok(v) => r == Ok::<u64, IntErrorKind>(v as u64),
            Err(k) => r == Err::<u64, IntErrorKind>(k),
        },
{
    let mut acc: u64 = 0;
    let mut i: usize = from;
    while i < s.len()
        invariant
            from <= i <= s.len(),
            acc <= max,
            scan_digits(s@.skip(from as int), 0, max as nat) == scan_digits(
                s@.skip(i as int),
                acc as nat,
                max as nat,
            ),
        decreases s.len() - i,
    {
        let c = s[i];
        assert(s@.skip(i as int)[0] == c);
        assert(s@.skip(i as int).drop_first() =~= s@.skip(i + 1));
        if !('0' <= c && c <= '9') {
            return Err(IntErrorKind::InvalidDigit);
        }
        let d: u64 = (c as u32 - '0' as u32) as u64;
        assert(d as nat == digit_value(c));
        if d > max || acc > (max - d) / 10 {
            assert(acc * 10 + d > max) by (nonlinear_arith)
                requires
                    d > max || acc > (max - d) / 10,
                    d <= max ==> acc > (max - d) / 10 || d > max,
            ;
            return Err(IntErrorKind::PosOverflow);
        }
        assert(acc * 10 + d <= max) by (nonlinear_arith)
            requires
                acc <= (max - d) / 10,
                d <= max,
        ;
        acc = acc * 10 + d;
        i = i + 1;
    }
    assert(s@.skip(i as int).len() == 0);
    Ok(acc)
}

/// Parse the characters `s` as an unsigned integer no larger than `max`,
/// as `str::parse` does for an unsigned type whose largest value is `max`.
pub fn parse_unsigned_chars(s: &Vec<char>, max: u64) -> (r: Result<u64, IntErrorKind>)
    ensures
        parse_unsigned(s@, max as nat) matches Ok(v) ==> v <= max,
        match parse_unsigned(s@, max as nat) {
            Ok(v) => r == Ok::<u64, IntErrorKind>(v as u64),
            Err(k) => r == Err::<u64, IntErrorKind>(k),
        },
{
    proof {
        lemma_parse_bound(s@, max as nat);
    }
    if s.len() == 0 {
        return Err(IntErrorKind::Empty);
    }
    if s[0] == '+' {
        if s.len() == 1 {
            return Err(IntErrorKind::InvalidDigit);
        }
        assert(s@.skip(1) =~= s@.drop_first());
        scan_digits_exec(s, 1, max)
    } else {
        assert(s@.skip(0) =~= s@);
        scan_digits_exec(s, 0, max)
    }
}

} // verus!
