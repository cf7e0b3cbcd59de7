//! Camera capture: configuration, frames, and the decisions that drive the
//! CVI video pipeline (Sensor -> VI -> ISP -> VPSS -> VENC).
//!
//! The vendor calls themselves are made by the caller of this module; what
//! stands here is which calls are made, in which order, with which
//! parameters, how each return code is judged, and how the camera's
//! streaming state follows from them.
use vstd::prelude::*;

use crate::decimal::{i32_to_decimal, signed_decimal};
use crate::error::{Error, Result};
use crate::types::{FrameData, ImageFormat, Resolution};

verus! {

/// Video channel selector.
///
/// Each channel corresponds to a VPSS output channel of the CVI pipeline.
#[derive(Debug, Clone, Copy, PartialEq, Eq, Hash, Structural)]
pub enum Channel {
    /// CH0 -- raw RGB888 output from the ISP/VPSS.
    Raw,
    /// CH1 -- JPEG-compressed output from VENC.
    Jpeg,
    /// CH2 -- H.264-encoded video stream from VENC.
    H264,
}

/// Pixel formats that the pipeline configures its stages with.
#[derive(Debug, Clone, Copy, PartialEq, Eq, Hash, Structural)]
pub enum PixelFormat {
    /// YUV 4:2:0 semi-planar, the sensor-side format.
    Nv21,
    /// Packed 24-bit RGB.
    Rgb888,
}

/// The VPSS channel index of a channel.
pub open spec fn vpss_chn_of(c: Channel) -> i32 {
    match c {
        Channel::Raw => 0,
        Channel::Jpeg => 1,
        Channel::H264 => 2,
    }
}

/// The image format of the frames a channel yields.
pub open spec fn image_format_of(c: Channel) -> ImageFormat {
    match c {
        Channel::Raw => ImageFormat::Rgb888,
        Channel::Jpeg => ImageFormat::Jpeg,
        Channel::H264 => ImageFormat::H264,
    }
}

/// The pixel format the VPSS channel is configured with.
pub open spec fn vpss_pixel_format_of(c: Channel) -> PixelFormat {
    match c {
        Channel::Raw => PixelFormat::Rgb888,
        _ => PixelFormat::Nv21,
    }
}

impl Channel {
    /// Returns the VPSS channel index for this channel.
    pub fn vpss_chn(&self) -> (r: i32)
        ensures
            r == vpss_chn_of(*self),
    {
        match self {
            Channel::Raw => 0,
            Channel::Jpeg => 1,
            Channel::H264 => 2,
        }
    }

    /// Returns the image format for this channel.
    pub fn image_format(&self) -> (r: ImageFormat)
        ensures
            r == image_format_of(*self),
    {
        match self {
            Channel::Raw => ImageFormat::Rgb888,
            Channel::Jpeg => ImageFormat::Jpeg,
            Channel::H264 => ImageFormat::H264,
        }
    }

    /// Returns the pixel format the VPSS channel is configured with.
    pub fn vpss_pixel_format(&self) -> (r: PixelFormat)
        ensures
            r == vpss_pixel_format_of(*self),
    {
        match self {
            Channel::Raw => PixelFormat::Rgb888,
            _ => PixelFormat::Nv21,
        }
    }
}

/// Distinct channels use distinct VPSS channels and yield distinct image
/// formats, and every VPSS channel index is one of 0, 1, 2.
pub proof fn lemma_channel_mapping_injective(a: Channel, b: Channel)
    ensures
        0 <= vpss_chn_of(a) < 3,
        a != b ==> vpss_chn_of(a) != vpss_chn_of(b),
        a != b ==> image_format_of(a) != image_format_of(b),
{
}

/// Configuration for the camera pipeline.
#[derive(Debug, Clone, Copy, PartialEq, Eq, Structural)]
pub struct CameraConfig {
    /// Capture resolution (width x height in pixels).
    pub resolution: Resolution,
    /// Target frame rate in frames per second.
    pub fps: u32,
    /// Which video channel to capture from.
    pub channel: Channel,
}

impl Default for CameraConfig {
    /// 1920x1080 at 30 fps on the JPEG channel.
    fn default() -> (c: Self)
        ensures
            c.resolution.width == 1920,
            c.resolution.height == 1080,
            c.fps == 30,
            c.channel == Channel::Jpeg,
    {
        CameraConfig { resolution: Resolution::new(1920, 1080), fps: 30, channel: Channel::Jpeg }
    }
}

/// A single captured video frame.
#[derive(Debug, Clone, PartialEq, Eq)]
pub struct Frame {
    /// The underlying frame data.
    pub data: FrameData,
}

impl Frame {
    /// Frame width in pixels.
    pub fn width(&self) -> (r: u32)
        ensures
            r == self.data.width,
    {
        self.data.width
    }

    /// Frame height in pixels.
    pub fn height(&self) -> (r: u32)
        ensures
            r == self.data.height,
    {
        self.data.height
    }

    /// The pixel/encoding format of this frame.
    pub fn format(&self) -> (r: ImageFormat)
        ensures
            r == self.data.format,
    {
        self.data.format
    }

    /// The raw bytes of the frame (pixel data or encoded bitstream).
    pub fn as_bytes(&self) -> (r: &[u8])
        ensures
            r@ == self.data.data@,
    {
        self.data.data.as_slice()
    }

    /// Capture timestamp in milliseconds since an unspecified epoch.
    pub fn timestamp_ms(&self) -> (r: u64)
        ensures
            r == self.data.timestamp_ms,
    {
        self.data.timestamp_ms
    }
}

/// The message of a failed vendor call named `context` that returned `rc`.
pub open spec fn failure_message(context: Seq<char>, rc: i32) -> Seq<char> {
    context + " failed (rc="@ + signed_decimal(rc as int) + ")"@
}

/// Check a CVI return code, converting non-zero to an error.
pub fn check_cvi(rc: i32, context: &str) -> (r: Result<()>)
    ensures
        rc == 0 <==> r is Ok,
        rc != 0 ==> (r matches Err(Error::Camera(m)) && m@ == failure_message(context@, rc)),
{
    if rc == 0 {
        Ok(())
    } else {
        let code = i32_to_decimal(rc);
        let m = String::from_str(context).concat(" failed (rc=").concat(code.as_str()).concat(")");
        Err(Error::Camera(m))
    }
}

} // verus!
