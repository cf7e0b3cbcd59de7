use recamera::text::{chars_of, is_whitespace_char, line_end, strip_range, CharClass};

#[test]
fn whitespace_matches_std() {
    for c in ['a', ' ', '\t', '\n', '\u{a0}', '\u{2003}', '\u{3000}', '\u{200b}', '\u{85}', 'x'] {
        assert_eq!(is_whitespace_char(c), c.is_whitespace());
    }
}

#[test]
fn strip_range_trims_like_std() {
    let text = "  \u{3000}hello world \n";
    let v = chars_of(text);
    let (a, b) = strip_range(&v, 0, v.len(), CharClass::Whitespace);
    let got: String = v[a..b].iter().collect();
    assert_eq!(got, text.trim());
    let q = chars_of("\"\"x\"");
    let (a, b) = strip_range(&q, 0, q.len(), CharClass::Is('"'));
    let got: String = q[a..b].iter().collect();
    assert_eq!(got, "\"\"x\"".trim_matches('"'));
}

#[test]
fn line_end_finds_newline() {
    let v = chars_of("ab\ncd");
    assert_eq!(line_end(&v, 0), 2);
    assert_eq!(line_end(&v, 3), 5);
}
