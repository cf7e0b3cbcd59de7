use recamera::error::Error;
use recamera::system::{
    brightness_text, parse_brightness, parse_meminfo_field, parse_os_version, parse_soc,
    DeviceInfo, Led,
};

#[test]
fn parse_meminfo_total() {
    let meminfo = "\
MemTotal:        1024000 kB
MemFree:          512000 kB
MemAvailable:     768000 kB
";
    assert_eq!(parse_meminfo_field(meminfo, "MemTotal"), 1_024_000);
    assert_eq!(parse_meminfo_field(meminfo, "MemAvailable"), 768_000);
    assert_eq!(parse_meminfo_field(meminfo, "MemFree"), 512_000);
}

#[test]
fn parse_meminfo_missing_field() {
    let meminfo = "MemTotal:        1024000 kB\n";
    assert_eq!(parse_meminfo_field(meminfo, "MemAvailable"), 0);
    assert_eq!(parse_meminfo_field(meminfo, ""), 0);
}

#[test]
fn parse_meminfo_empty() {
    assert_eq!(parse_meminfo_field("", "MemTotal"), 0);
}

#[test]
fn parse_meminfo_edge_cases() {
    // A line that does not parse is skipped, and a later one is used.
    assert_eq!(parse_meminfo_field("MemTotal: x kB\nMemTotal: 7 kB", "MemTotal"), 7);
    // CRLF line endings and spaces before the colon.
    assert_eq!(parse_meminfo_field("A: 1\r\nMemTotal  :\t42\r\n", "MemTotal"), 42);
    // Too large for u64.
    assert_eq!(parse_meminfo_field("MemTotal: 18446744073709551616 kB", "MemTotal"), 0);
    assert_eq!(parse_meminfo_field("MemTotal: +18446744073709551615", "MemTotal"), u64::MAX);
    // A longer field name that starts with the field is not the field.
    assert_eq!(parse_meminfo_field("MemTotalX: 5", "MemTotal"), 0);
}

#[test]
fn led_new_missing() {
    let result = Led::new("nonexistent_led_that_does_not_exist");
    assert!(result.is_err());
    let err = result.unwrap_err().to_string();
    assert!(err.contains("LED not found"));
}

#[test]
fn led_resolve_and_paths() {
    let led = Led::resolve("user", true).unwrap();
    assert_eq!(led.path().to_str().unwrap(), "/sys/class/leds/user/brightness");
    assert_eq!(Led::brightness_path("user"), "/sys/class/leds/user/brightness");
    match Led::resolve("user", false) {
        Err(Error::System(m)) => assert_eq!(m, "LED not found: user"),
        other => panic!("unexpected {:?}", other),
    }
    assert_eq!(Led::with_path(std::path::PathBuf::from("/tmp/b")).path().to_str(), Some("/tmp/b"));
}

#[test]
fn brightness_roundtrip_values() {
    for v in [0u32, 1, 9, 10, 255, 1000, u32::MAX] {
        let text = brightness_text(v);
        assert_eq!(text, v.to_string());
        assert_eq!(parse_brightness(&text).unwrap(), v);
    }
    assert_eq!(parse_brightness(" 255\n").unwrap(), 255);
}

#[test]
fn brightness_parse_errors() {
    let cases = [
        ("", "invalid brightness value: cannot parse integer from empty string"),
        ("abc", "invalid brightness value: invalid digit found in string"),
        ("+", "invalid brightness value: invalid digit found in string"),
        ("-1", "invalid brightness value: invalid digit found in string"),
        ("4294967296", "invalid brightness value: number too large to fit in target type"),
    ];
    for (input, expected) in cases {
        match parse_brightness(input) {
            Err(Error::System(m)) => {
                assert_eq!(m, expected);
                let std_err = input.trim().parse::<u32>().unwrap_err();
                assert_eq!(m, format!("invalid brightness value: {std_err}"));
            }
            other => panic!("unexpected {:?}", other),
        }
    }
}

#[test]
fn os_version_from_release_text() {
    let text = "NAME=Buildroot\nPRETTY_NAME=\"Buildroot 2021.05\"\nVERSION_ID=1\n";
    assert_eq!(parse_os_version(text), "Buildroot 2021.05");
    assert_eq!(parse_os_version("NAME=x\n"), "unknown");
    assert_eq!(parse_os_version(""), "unknown");
    assert_eq!(parse_os_version("PRETTY_NAME=\"\""), "");
}

#[test]
fn soc_from_model_text() {
    assert_eq!(parse_soc(Some("Cvitek SG2002\0")), "Cvitek SG2002");
    assert_eq!(parse_soc(Some("\0 sg2002 \n\0")), "sg2002");
    assert_eq!(parse_soc(None), "unknown");
}

#[test]
fn device_info_from_sources() {
    let info = DeviceInfo::from_sources(
        "MemTotal: 100 kB\nMemAvailable: 40 kB\n",
        "PRETTY_NAME=\"reCamera OS\"\n",
        Some("sg2002\0"),
    );
    assert_eq!(info.total_memory_kb, 100);
    assert_eq!(info.available_memory_kb, 40);
    assert_eq!(info.os_version, "reCamera OS");
    assert_eq!(info.soc, "sg2002");
    let empty = DeviceInfo::from_sources("", "", None);
    assert!(!empty.os_version.is_empty());
    assert!(!empty.soc.is_empty());
}
