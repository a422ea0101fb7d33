//! Pixel formats, and which of them the engine takes part in.
use vstd::prelude::*;

verus! {

/// A raw video format.
#[allow(non_camel_case_types)]
#[derive(Clone, Copy, Debug, PartialEq, Eq, Structural)]
pub enum VideoFormat {
    /// No format has been negotiated.
    Unknown,
    RGB,
    RGBx,
    xBGR,
    BGRx,
    RGBA,
    /// A format without a name here, by PipeWire's number for it.
    Other(u32),
}

/// The formats offered to PipeWire, the preferred one first.
///
/// A compositor may pick any of them, so each must have a decode arm in
/// [`crate::frame::video_frame_for`]; and one that is decoded but not listed
/// here can never be picked.
pub const SUPPORTED_VIDEO_FORMATS: [VideoFormat; 4] = [
    VideoFormat::RGB,
    VideoFormat::RGBx,
    VideoFormat::xBGR,
    VideoFormat::BGRx,
];

/// Whether the engine can turn buffers of this format into frames.
pub open spec fn decodable(format: VideoFormat) -> bool {
    ||| format == VideoFormat::RGB
    ||| format == VideoFormat::RGBx
    ||| format == VideoFormat::xBGR
    ||| format == VideoFormat::BGRx
}

/// Whether the format is offered to PipeWire.
pub open spec fn advertised(format: VideoFormat) -> bool {
    SUPPORTED_VIDEO_FORMATS@.contains(format)
}

} // verus!
