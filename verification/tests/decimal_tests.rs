use recamera::decimal::{i32_to_decimal, parse_unsigned_chars, u64_to_decimal, IntErrorKind};

#[test]
fn decimal_rendering_matches_to_string() {
    for v in [0u64, 7, 10, 99, 100, 12345, u64::MAX] {
        assert_eq!(u64_to_decimal(v), v.to_string());
    }
    for v in [0i32, -1, 42, i32::MIN, i32::MAX] {
        assert_eq!(i32_to_decimal(v), v.to_string());
    }
}

#[test]
fn decimal_parse_matches_std() {
    let inputs = ["", "+", "-", "0", "+12", "-12", "12a", "007", "18446744073709551615",
        "18446744073709551616", "99999999999999999999x", " 1"];
    for s in inputs {
        let chars: Vec<char> = s.chars().collect();
        let ours = parse_unsigned_chars(&chars, u64::MAX);
        let theirs = s.parse::<u64>();
        match (ours, theirs) {
            (Ok(a), Ok(b)) => assert_eq!(a, b),
            (Err(k), Err(e)) => assert_eq!(k.message(), e.to_string()),
            (a, b) => panic!("mismatch on {:?}: {:?} vs {:?}", s, a, b),
        }
    }
    assert_eq!(parse_unsigned_chars(&vec![], 10), Err(IntErrorKind::Empty));
}
