//! Common types shared across the SDK.
use vstd::prelude::*;

verus! {

/// The standard library's owned path, carried opaquely.
#[verifier::external_type_specification]
#[verifier::external_body]
pub struct ExPathBuf(std::path::PathBuf);

/// `Clone` of an owned path: the copy is the same path.
pub assume_specification[ <std::path::PathBuf as Clone>::clone ](p: &std::path::PathBuf) -> (r: std::path::PathBuf)
    ensures
        r == *p,
;

/// Pixel / encoding format of an image or video frame.
#[derive(Debug, Clone, Copy, PartialEq, Eq, Hash, Structural)]
pub enum ImageFormat {
    /// 24-bit RGB, 8 bits per channel, packed.
    Rgb888,
    /// JPEG-compressed image.
    Jpeg,
    /// H.264 encoded video frame.
    H264,
    /// YUV 4:2:0 semi-planar (NV21) format, commonly used on embedded cameras.
    Nv21,
}

/// A width/height pair describing an image or video resolution.
#[derive(Debug, Clone, Copy, PartialEq, Eq, Hash, Structural)]
pub struct Resolution {
    /// Width in pixels.
    pub width: u32,
    /// Height in pixels.
    pub height: u32,
}

impl Resolution {
    /// Create a new [`Resolution`] with the given dimensions.
    pub fn new(width: u32, height: u32) -> (r: Self)
        ensures
            r.width == width,
            r.height == height,
    {
        Resolution { width, height }
    }
}

/// Raw frame data captured from a camera or produced by processing.
#[derive(Debug, Clone, PartialEq, Eq)]
pub struct FrameData {
    /// The raw pixel or encoded bytes.
    pub data: Vec<u8>,
    /// Frame width in pixels.
    pub width: u32,
    /// Frame height in pixels.
    pub height: u32,
    /// The encoding format of `data`.
    pub format: ImageFormat,
    /// Capture timestamp in milliseconds since an unspecified epoch.
    pub timestamp_ms: u64,
}

} // verus!
