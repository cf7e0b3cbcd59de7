use recamera::uart::{DataBits, Parity, StopBits, UartConfig};
use std::time::Duration;

#[test]
fn default_config_values() {
    let cfg = UartConfig::default();
    assert_eq!(cfg.baud_rate, 115_200);
    assert_eq!(cfg.data_bits, DataBits::Eight);
    assert_eq!(cfg.parity, Parity::NoParity);
    assert_eq!(cfg.stop_bits, StopBits::One);
    assert_eq!(cfg.timeout, Duration::from_millis(1000));
}

#[test]
fn config_clone_and_debug() {
    let cfg = UartConfig::default();
    let cfg2 = cfg.clone();
    assert_eq!(cfg, cfg2);
    let debug_str = format!("{:?}", cfg);
    assert!(debug_str.contains("UartConfig"));
}

#[test]
fn enum_debug_impls() {
    assert_eq!(format!("{:?}", DataBits::Eight), "Eight");
    assert_eq!(format!("{:?}", Parity::NoParity), "NoParity");
    assert_eq!(format!("{:?}", StopBits::One), "One");
}
