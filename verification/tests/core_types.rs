use recamera::error::{Error, Result};
use recamera::types::{FrameData, ImageFormat, Resolution};

#[test]
fn io_error_conversion() {
    let io_err = std::io::Error::new(std::io::ErrorKind::NotFound, "file missing");
    let err: Error = io_err.into();
    assert!(matches!(err, Error::Io(_)));
    assert!(err.to_string().contains("file missing"));
}

#[test]
fn display_variants() {
    let cases: Vec<(Error, &str)> = vec![
        (Error::Config("bad key".into()), "config error: bad key"),
        (Error::Camera("no device".into()), "camera error: no device"),
        (
            Error::Inference("model load".into()),
            "inference error: model load",
        ),
        (Error::Serial("timeout".into()), "serial error: timeout"),
        (Error::Storage("full".into()), "storage error: full"),
        (Error::System("oom".into()), "system error: oom"),
    ];
    for (err, expected) in cases {
        assert_eq!(err.to_string(), expected);
    }
}

#[test]
fn result_alias_works() {
    fn ok_result() -> Result<u32> {
        Ok(42)
    }
    fn err_result() -> Result<u32> {
        Err(Error::System("fail".into()))
    }
    assert_eq!(ok_result().unwrap(), 42);
    assert!(err_result().is_err());
}

#[test]
fn io_error_display_prefix() {
    let err: Error = std::io::Error::new(std::io::ErrorKind::Other, "disk on fire").into();
    assert_eq!(err.to_string(), "I/O error: disk on fire");
}

#[test]
fn image_format_clone_copy_eq() {
    let a = ImageFormat::Jpeg;
    let b = a; // Copy
    assert_eq!(a, b);
    assert_ne!(ImageFormat::Rgb888, ImageFormat::Nv21);
}

#[test]
fn image_format_debug() {
    let dbg = format!("{:?}", ImageFormat::H264);
    assert_eq!(dbg, "H264");
}

#[test]
fn resolution_new_const() {
    let res: Resolution = Resolution::new(1920, 1080);
    assert_eq!(res.width, 1920);
    assert_eq!(res.height, 1080);
}

#[test]
fn resolution_equality() {
    let a = Resolution::new(640, 480);
    let b = Resolution::new(640, 480);
    let c = Resolution::new(320, 240);
    assert_eq!(a, b);
    assert_ne!(a, c);
}

#[test]
fn frame_data_construction() {
    let frame = FrameData {
        data: vec![0u8; 640 * 480 * 3],
        width: 640,
        height: 480,
        format: ImageFormat::Rgb888,
        timestamp_ms: 1234,
    };
    assert_eq!(frame.data.len(), 640 * 480 * 3);
    assert_eq!(frame.width, 640);
    assert_eq!(frame.height, 480);
    assert_eq!(frame.format, ImageFormat::Rgb888);
    assert_eq!(frame.timestamp_ms, 1234);
}

#[test]
fn frame_data_clone() {
    let frame = FrameData {
        data: vec![1, 2, 3],
        width: 1,
        height: 1,
        format: ImageFormat::Jpeg,
        timestamp_ms: 0,
    };
    let cloned = frame.clone();
    assert_eq!(frame, cloned);
}

#[test]
fn io_error_message_keeps_text() {
    assert_eq!(recamera::error::io_error_message("file missing"), "I/O error: file missing");
}
