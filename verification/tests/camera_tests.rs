use recamera::camera::{check_cvi, Channel, CameraConfig, Frame, PixelFormat};
use recamera::error::Error;
use recamera::types::{FrameData, ImageFormat, Resolution};

#[test]
fn default_camera_config() {
    let cfg = CameraConfig::default();
    assert_eq!(cfg.resolution, Resolution::new(1920, 1080));
    assert_eq!(cfg.fps, 30);
    assert_eq!(cfg.channel, Channel::Jpeg);
}

#[test]
fn frame_accessors() {
    let frame = Frame {
        data: FrameData {
            data: vec![0xAA, 0xBB, 0xCC],
            width: 640,
            height: 480,
            format: ImageFormat::Jpeg,
            timestamp_ms: 42,
        },
    };
    assert_eq!(frame.width(), 640);
    assert_eq!(frame.height(), 480);
    assert_eq!(frame.format(), ImageFormat::Jpeg);
    assert_eq!(frame.as_bytes(), &[0xAA, 0xBB, 0xCC]);
    assert_eq!(frame.timestamp_ms(), 42);
}

#[test]
fn channel_vpss_mapping() {
    assert_eq!(Channel::Raw.vpss_chn(), 0);
    assert_eq!(Channel::Jpeg.vpss_chn(), 1);
    assert_eq!(Channel::H264.vpss_chn(), 2);
}

#[test]
fn channel_image_format() {
    assert_eq!(Channel::Raw.image_format(), ImageFormat::Rgb888);
    assert_eq!(Channel::Jpeg.image_format(), ImageFormat::Jpeg);
    assert_eq!(Channel::H264.image_format(), ImageFormat::H264);
}

#[test]
fn channel_vpss_pixel_format() {
    assert_eq!(Channel::Raw.vpss_pixel_format(), PixelFormat::Rgb888);
    assert_eq!(Channel::Jpeg.vpss_pixel_format(), PixelFormat::Nv21);
    assert_eq!(Channel::H264.vpss_pixel_format(), PixelFormat::Nv21);
}

#[test]
fn check_cvi_success_and_failure() {
    assert!(check_cvi(0, "CVI_VB_Init").is_ok());
    match check_cvi(-3, "CVI_VB_Init") {
        Err(Error::Camera(m)) => assert_eq!(m, "CVI_VB_Init failed (rc=-3)"),
        other => panic!("unexpected {:?}", other),
    }
    match check_cvi(i32::MIN, "X") {
        Err(Error::Camera(m)) => assert_eq!(m, "X failed (rc=-2147483648)"),
        other => panic!("unexpected {:?}", other),
    }
    match check_cvi(17, "CVI_SYS_Init") {
        Err(e) => assert_eq!(e.to_string(), "camera error: CVI_SYS_Init failed (rc=17)"),
        other => panic!("unexpected {:?}", other),
    }
}
