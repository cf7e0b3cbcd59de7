//! System and device utilities: device information parsed from the text of
//! `/proc/meminfo`, `/etc/os-release` and the device-tree model, and LEDs
//! controlled through sysfs brightness files.
use vstd::prelude::*;

use crate::decimal::{
    decimal, int_error_message, is_digit, lemma_decimal_digits, lemma_parse_decimal,
    parse_unsigned, parse_unsigned_chars, u64_to_decimal, IntErrorKind,
};
use crate::error::{Error, Result};
use crate::text::{
    chars_of, first_word, in_class, lemma_lines_step, lemma_no_class_chars,
    line_end, lines, scan_forward, starts_with_at, strip_cr, strip_prefix, strip_range, trim,
    trim_matches, trim_start, CharClass,
};

verus! {

broadcast use vstd::string::group_string_axioms;

/// Information about the device hardware and operating system.
#[derive(Debug, Clone)]
pub struct DeviceInfo {
    /// System-on-chip identifier (e.g. `"sg2002"`).
    pub soc: String,
    /// Operating system version string.
    pub os_version: String,
    /// Total physical memory in kilobytes.
    pub total_memory_kb: u64,
    /// Available physical memory in kilobytes.
    pub available_memory_kb: u64,
}

/// The value that one line of `/proc/meminfo` gives for `field`: the line
/// must start with the field name, then optional whitespace and a colon;
/// the first word after it must be a decimal number that fits in a `u64`.
pub open spec fn meminfo_line_value(line: Seq<char>, field: Seq<char>) -> Option<nat> {
    match strip_prefix(line, field) {
        None => None,
        Some(a) => match strip_prefix(trim_start(a), seq![':']) {
            None => None,
            Some(b) => match first_word(trim(b)) {
                None => None,
                Some(w) => match parse_unsigned(w, u64::MAX as nat) {
                    Ok(v) => Some(v),
                    Err(_) => None,
                },
            },
        },
    }
}

/// The value of the first of `ls` that gives one for `field`, or 0.
pub open spec fn first_meminfo_value(ls: Seq<Seq<char>>, field: Seq<char>) -> nat
    decreases ls.len(),
{
    if ls.len() == 0 {
        0
    } else {
        match meminfo_line_value(ls[0], field) {
            Some(v) => v,
            None => first_meminfo_value(ls.drop_first(), field),
        }
    }
}

/// The kilobyte count that `/proc/meminfo` text gives for `field`, or 0.
pub open spec fn meminfo_field(meminfo: Seq<char>, field: Seq<char>) -> nat {
    first_meminfo_value(lines(meminfo), field)
}

/// The OS version that `/etc/os-release` text names: the value of the first
/// `PRETTY_NAME=` line with surrounding quotes removed, or `unknown`.
pub open spec fn os_version_of(ls: Seq<Seq<char>>) -> Seq<char>
    decreases ls.len(),
{
    if ls.len() == 0 {
        "unknown"@
    } else {
        match strip_prefix(ls[0], "PRETTY_NAME="@) {
            Some(v) => trim_matches(v, '"'),
            None => os_version_of(ls.drop_first()),
        }
    }
}

/// The SoC name given by the device-tree model text, when it could be read:
/// without NUL padding and surrounding whitespace.
pub open spec fn soc_of(model: Option<Seq<char>>) -> Seq<char> {
    match model {
        Some(m) => trim(trim_matches(m, '\0')),
        None => "unknown"@,
    }
}

/// A copy of `v[lo..hi]`.
fn copy_range(v: &Vec<char>, lo: usize, hi: usize) -> (r: Vec<char>)
    requires
        lo <= hi <= v.len(),
    ensures
        r@ == v@.subrange(lo as int, hi as int),
{
    let mut r: Vec<char> = Vec::new();
    let mut i = lo;
    while i < hi
        invariant
            lo <= i <= hi <= v.len(),
            r@ == v@.subrange(lo as int, i as int),
        decreases hi - i,
    {
        r.push(v[i]);
        assert(r@ =~= v@.subrange(lo as int, i + 1));
        i = i + 1;
    }
    r
}

/// The value that the line `v[lo..hi]` gives for the field `f`.
fn meminfo_line_value_exec(v: &Vec<char>, lo: usize, hi: usize, f: &Vec<char>) -> (r: Option<u64>)
    requires
        lo <= hi <= v.len(),
    ensures
        match meminfo_line_value(v@.subrange(lo as int, hi as int), f@) {
            Some(x) => r == Some(x as u64) && x <= u64::MAX,
            None => r is None,
        },
{
    let ghost line = v@.subrange(lo as int, hi as int);
    if !starts_with_at(v, lo, hi, f) {
        return None;
    }
    let a = lo + f.len();
    assert(line.skip(f.len() as int) =~= v@.subrange(a as int, hi as int));
    let k = scan_forward(v, a, hi, CharClass::Whitespace);
    assert(trim_start(v@.subrange(a as int, hi as int)) =~= v@.subrange(k as int, hi as int));
    let mut colon: Vec<char> = Vec::new();
    colon.push(':');
    assert(colon@ =~= seq![':']);
    if !starts_with_at(v, k, hi, &colon) {
        return None;
    }
    let b = k + 1;
    assert(v@.subrange(k as int, hi as int).skip(1) =~= v@.subrange(b as int, hi as int));
    let (p, q) = strip_range(v, b, hi, CharClass::Whitespace);
    let ghost t = v@.subrange(p as int, q as int);
    assert(t == trim(v@.subrange(b as int, hi as int)));
    let w0 = scan_forward(v, p, q, CharClass::Whitespace);
    assert(trim_start(t) =~= v@.subrange(w0 as int, q as int));
    if w0 == q {
        return None;
    }
    let w1 = scan_forward(v, w0, q, CharClass::NotWhitespace);
    let ghost u = v@.subrange(w0 as int, q as int);
    assert(u.take(w1 - w0) =~= v@.subrange(w0 as int, w1 as int));
    let word = copy_range(v, w0, w1);
    match parse_unsigned_chars(&word, u64::MAX) {
        Ok(x) => Some(x),
        Err(_) => None,
    }
}

/// Parse a numeric kB field from `/proc/meminfo` content.
///
/// Returns `0` if the field is not found or cannot be parsed.
pub fn parse_meminfo_field(meminfo: &str, field: &str) -> (r: u64)
    ensures
        r == meminfo_field(meminfo@, field@),
{
    let v = chars_of(meminfo);
    let f = chars_of(field);
    let mut pos: usize = 0;
    assert(v@.skip(0) =~= v@);
    while pos < v.len()
        invariant
            pos <= v.len(),
            v@ == meminfo@,
            f@ == field@,
            meminfo_field(meminfo@, field@) == first_meminfo_value(lines(v@.skip(pos as int)), f@),
        decreases v.len() - pos,
    {
        let e = line_end(&v, pos);
        proof {
            lemma_lines_step(v@, pos as int, e as int);
        }
        if e < v.len() {
            let le = if e > pos && v[e - 1] == '\r' {
                e - 1
            } else {
                e
            };
            assert(strip_cr(v@.subrange(pos as int, e as int)) =~= v@.subrange(pos as int, le as int));
            let ghost ls = lines(v@.skip(pos as int));
            assert(ls.drop_first() =~= lines(v@.skip(e + 1)));
            assert(ls[0] == v@.subrange(pos as int, le as int));
            match meminfo_line_value_exec(&v, pos, le, &f) {
                Some(x) => {
                    return x;
                },
                None => {},
            }
            pos = e + 1;
        } else {
            let ghost ls = lines(v@.skip(pos as int));
            assert(ls.drop_first() =~= Seq::<Seq<char>>::empty());
            assert(ls[0] == v@.subrange(pos as int, v.len() as int));
            match meminfo_line_value_exec(&v, pos, v.len(), &f) {
                Some(x) => {
                    return x;
                },
                None => {},
            }
            assert(first_meminfo_value(ls.drop_first(), f@) == 0);
            return 0;
        }
    }
    assert(v@.skip(pos as int) =~= Seq::<char>::empty());
    0
}


/// The OS version named by `/etc/os-release` text: the value of the first
/// `PRETTY_NAME=` line without surrounding quotes, or `unknown`.
pub fn parse_os_version(os_release: &str) -> (r: String)
    ensures
        r@ == os_version_of(lines(os_release@)),
{
    let v = chars_of(os_release);
    let key_str = "PRETTY_NAME=";
    proof {
        reveal_strlit("PRETTY_NAME=");
    }
    let key = chars_of(key_str);
    let mut pos: usize = 0;
    assert(v@.skip(0) =~= v@);
    while pos < v.len()
        invariant
            pos <= v.len(),
            v@ == os_release@,
            key@ == "PRETTY_NAME="@,
            os_version_of(lines(os_release@)) == os_version_of(lines(v@.skip(pos as int))),
        decreases v.len() - pos,
    {
        let e = line_end(&v, pos);
        proof {
            lemma_lines_step(v@, pos as int, e as int);
        }
        let ghost ls = lines(v@.skip(pos as int));
        let le = if e < v.len() && e > pos && v[e - 1] == '\r' {
            e - 1
        } else {
            e
        };
        if e < v.len() {
            assert(strip_cr(v@.subrange(pos as int, e as int)) =~= v@.subrange(pos as int, le as int));
            assert(ls.drop_first() =~= lines(v@.skip(e + 1)));
        } else {
            assert(ls.drop_first() =~= Seq::<Seq<char>>::empty());
        }
        assert(ls[0] == v@.subrange(pos as int, le as int));
        if starts_with_at(&v, pos, le, &key) {
            let a = pos + key.len();
            assert(v@.subrange(pos as int, le as int).skip(key.len() as int) =~= v@.subrange(
                a as int,
                le as int,
            ));
            let (p, q) = strip_range(&v, a, le, CharClass::Is('"'));
            let value = os_release.substring_char(p, q);
            return String::from_str(value);
        }
        if e >= v.len() {
            pos = v.len();
            assert(v@.skip(pos as int) =~= Seq::<char>::empty());
            assert(lines(v@.skip(pos as int)) =~= ls.drop_first());
        } else {
            pos = e + 1;
        }
    }
    assert(v@.skip(pos as int) =~= Seq::<char>::empty());
    proof {
        reveal_strlit("unknown");
    }
    String::from_str("unknown")
}


/// The SoC name given by the device-tree model text (`None` when it could
/// not be read): without NUL padding and surrounding whitespace, or `unknown`.
pub fn parse_soc(model: Option<&str>) -> (r: String)
    ensures
        r@ == soc_of(
            match model {
                Some(m) => Some(m@),
                None => None,
            },
        ),
{
    match model {
        Some(m) => {
            let v = chars_of(m);
            let (a, b) = strip_range(&v, 0, v.len(), CharClass::Is('\0'));
            assert(v@.subrange(0, v.len() as int) =~= m@);
            let (c, d) = strip_range(&v, a, b, CharClass::Whitespace);
            String::from_str(m.substring_char(c, d))
        },
        None => {
            proof {
                reveal_strlit("unknown");
            }
            String::from_str("unknown")
        },
    }
}

impl DeviceInfo {
    /// Device information from the text of `/proc/meminfo`, of
    /// `/etc/os-release` and of the device-tree model (each empty, or `None`
    /// for the model, when it could not be read).
    pub fn from_sources(meminfo: &str, os_release: &str, model: Option<&str>) -> (info: Self)
        ensures
            info.total_memory_kb == meminfo_field(meminfo@, "MemTotal"@),
            info.available_memory_kb == meminfo_field(meminfo@, "MemAvailable"@),
            info.os_version@ == os_version_of(lines(os_release@)),
            info.soc@ == soc_of(
                match model {
                    Some(m) => Some(m@),
                    None => None,
                },
            ),
    {
        let total = parse_meminfo_field(meminfo, "MemTotal");
        let available = parse_meminfo_field(meminfo, "MemAvailable");
        let os_version = parse_os_version(os_release);
        let soc = parse_soc(model);
        DeviceInfo { soc, os_version, total_memory_kb: total, available_memory_kb: available }
    }
}

/// The sysfs brightness file of the LED called `name`.
pub open spec fn led_brightness_path(name: Seq<char>) -> Seq<char> {
    "/sys/class/leds/"@ + name + "/brightness"@
}

/// The message of the error for an LED that does not exist.
pub open spec fn led_not_found_message(name: Seq<char>) -> Seq<char> {
    "LED not found: "@ + name
}

/// The result of reading a brightness file whose text is `content`.
pub open spec fn brightness_of(content: Seq<char>) -> std::result::Result<nat, IntErrorKind> {
    parse_unsigned(trim(content), u32::MAX as nat)
}

/// Whether a file exists at `path` (`std::path::Path::exists`).
///
/// The answer depends on the file system, so nothing is stated of it.
#[verifier::external_body]
fn path_exists(path: &str) -> bool {
    std::path::Path::new(path).exists()
}

/// The owned path `PathBuf::from` makes of the text `s`.
pub uninterp spec fn path_buf_of(s: Seq<char>) -> std::path::PathBuf;

/// `PathBuf::from` a `String`: the result is named `path_buf_of(s@)`.
#[verifier::external_body]
fn path_buf_from(s: String) -> (p: std::path::PathBuf)
    ensures
        p == path_buf_of(s@),
{
    std::path::PathBuf::from(s)
}

/// Controls a single LED exposed through the Linux sysfs interface.
///
/// Each LED is represented by a brightness file at
/// `/sys/class/leds/{name}/brightness`.
#[derive(Debug)]
pub struct Led {
    path: std::path::PathBuf,
}

impl Led {
    /// The path of the brightness file this LED writes and reads.
    pub closed spec fn spec_path(&self) -> std::path::PathBuf {
        self.path
    }

    /// The path of the brightness file of the LED called `name`.
    pub fn brightness_path(name: &str) -> (p: String)
        ensures
            p@ == led_brightness_path(name@),
    {
        proof {
            reveal_strlit("/sys/class/leds/");
            reveal_strlit("/brightness");
        }
        String::from_str("/sys/class/leds/").concat(name).concat("/brightness")
    }

    /// The LED called `name`, given whether its brightness file exists.
    pub fn resolve(name: &str, exists: bool) -> (r: Result<Led>)
        ensures
            exists ==> (r matches Ok(led) && led.spec_path() == path_buf_of(led_brightness_path(name@))),
            !exists ==> (r matches Err(Error::System(m)) && m@ == led_not_found_message(name@)),
    {
        if exists {
            Ok(Led { path: path_buf_from(Led::brightness_path(name)) })
        } else {
            proof {
                reveal_strlit("LED not found: ");
            }
            Err(Error::System(String::from_str("LED not found: ").concat(name)))
        }
    }

    /// Open an LED by its sysfs name.
    ///
    /// The LED must exist at `/sys/class/leds/{name}/brightness`; otherwise
    /// the error is a system error saying that it was not found.
    pub fn new(name: &str) -> (r: Result<Led>)
        ensures
            r matches Ok(led) ==> led.spec_path() == path_buf_of(led_brightness_path(name@)),
            r matches Err(e) ==> e matches Error::System(m) && m@ == led_not_found_message(name@),
    {
        let path = Led::brightness_path(name);
        let exists = path_exists(path.as_str());
        Led::resolve(name, exists)
    }

    /// Create an `Led` with an arbitrary file path.
    ///
    /// This is primarily useful for testing without real sysfs entries.
    pub fn with_path(path: std::path::PathBuf) -> (led: Led)
        ensures
            led.spec_path() == path,
    {
        Led { path }
    }

    /// The path of the brightness file.
    pub fn path(&self) -> (p: &std::path::PathBuf)
        ensures
            *p == self.spec_path(),
    {
        &self.path
    }
}

/// The text written to a brightness file to set `value`.
pub fn brightness_text(value: u32) -> (s: String)
    ensures
        s@ == decimal(value as nat),
{
    u64_to_decimal(value as u64)
}

/// The brightness stored in a brightness file whose text is `content`:
/// the trimmed text as a decimal `u32`, or a system error quoting the
/// reason the number was rejected.
pub fn parse_brightness(content: &str) -> (r: Result<u32>)
    ensures
        match brightness_of(content@) {
            Ok(v) => r matches Ok(x) && x == v,
            Err(k) => r matches Err(Error::System(m)) && m@ == "invalid brightness value: "@
                + int_error_message(k),
        },
{
    let v = chars_of(content);
    let (a, b) = strip_range(&v, 0, v.len(), CharClass::Whitespace);
    assert(v@.subrange(0, v.len() as int) =~= content@);
    let t = copy_range(&v, a, b);
    match parse_unsigned_chars(&t, u32::MAX as u64) {
        Ok(x) => Ok(x as u32),
        Err(k) => {
            proof {
                reveal_strlit("invalid brightness value: ");
            }
            Err(Error::System(String::from_str("invalid brightness value: ").concat(k.message())))
        },
    }
}

/// What a read gives back of a write: the text written for a brightness
/// value reads back as that value.
pub proof fn lemma_brightness_roundtrip(value: u32)
    ensures
        brightness_of(decimal(value as nat)) == Ok::<nat, IntErrorKind>(value as nat),
{
    let d = decimal(value as nat);
    lemma_decimal_digits(value as nat);
    assert forall|i: int| 0 <= i < d.len() implies !in_class(CharClass::Whitespace, #[trigger] d[i]) by {
        assert(is_digit(d[i]));
    }
    lemma_no_class_chars(d, CharClass::Whitespace);
    assert(trim(d) =~= d);
    lemma_parse_decimal(value as nat, u32::MAX as nat);
}

} // verus!
