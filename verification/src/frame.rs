//! Frames, as the consumer of a capturer receives them.
use std::time::SystemTime;
use vstd::prelude::*;

use crate::format::{decodable, VideoFormat};

verus! {

#[derive(Debug)]
pub struct RGBFrame {
    pub display_time: SystemTime,
    pub width: i32,
    pub height: i32,
    pub data: Vec<u8>,
}

#[derive(Debug)]
pub struct RGBxFrame {
    pub display_time: SystemTime,
    pub width: i32,
    pub height: i32,
    pub data: Vec<u8>,
}

#[derive(Debug)]
pub struct XBGRFrame {
    pub display_time: SystemTime,
    pub width: i32,
    pub height: i32,
    pub data: Vec<u8>,
}

#[derive(Debug)]
pub struct BGRxFrame {
    pub display_time: SystemTime,
    pub width: i32,
    pub height: i32,
    pub data: Vec<u8>,
}

/// A picture, by the layout of its pixels.
#[derive(Debug)]
pub enum VideoFrame {
    RGB(RGBFrame),
    RGBx(RGBxFrame),
    XBGR(XBGRFrame),
    BGRx(BGRxFrame),
}

/// What travels through a capturer's channel.
#[derive(Debug)]
pub enum Frame {
    Video(VideoFrame),
}

/// A frame as a value: what it shows, when, and in which layout.
pub struct FrameView {
    pub format: VideoFormat,
    pub display_time: SystemTime,
    pub width: i32,
    pub height: i32,
    pub pixels: Seq<u8>,
}

impl View for VideoFrame {
    type V = FrameView;

    open spec fn view(&self) -> FrameView {
        match *self {
            VideoFrame::RGB(f) => FrameView {
                format: VideoFormat::RGB,
                display_time: f.display_time,
                width: f.width,
                height: f.height,
                pixels: f.data@,
            },
            VideoFrame::RGBx(f) => FrameView {
                format: VideoFormat::RGBx,
                display_time: f.display_time,
                width: f.width,
                height: f.height,
                pixels: f.data@,
            },
            VideoFrame::XBGR(f) => FrameView {
                format: VideoFormat::xBGR,
                display_time: f.display_time,
                width: f.width,
                height: f.height,
                pixels: f.data@,
            },
            VideoFrame::BGRx(f) => FrameView {
                format: VideoFormat::BGRx,
                display_time: f.display_time,
                width: f.width,
                height: f.height,
                pixels: f.data@,
            },
        }
    }
}

impl View for Frame {
    type V = FrameView;

    open spec fn view(&self) -> FrameView {
        match *self {
            Frame::Video(frame) => frame@,
        }
    }
}

/// The frame for pixels in a negotiated format, or `None` when the engine has
/// no decode arm for that format.
pub fn video_frame_for(
    format: VideoFormat,
    display_time: SystemTime,
    width: i32,
    height: i32,
    data: Vec<u8>,
) -> (frame: Option<VideoFrame>)
    ensures
        frame is Some <==> decodable(format),
        frame matches Some(frame) ==> frame@ == (FrameView {
            format,
            display_time,
            width,
            height,
            pixels: data@,
        }),
        format is RGB ==> frame == Some(
            VideoFrame::RGB(RGBFrame { display_time, width, height, data }),
        ),
        format is RGBx ==> frame == Some(
            VideoFrame::RGBx(RGBxFrame { display_time, width, height, data }),
        ),
        format is xBGR ==> frame == Some(
            VideoFrame::XBGR(XBGRFrame { display_time, width, height, data }),
        ),
        format is BGRx ==> frame == Some(
            VideoFrame::BGRx(BGRxFrame { display_time, width, height, data }),
        ),
        format is Unknown || format is RGBA || format is Other ==> frame is None,
{
    match format {
        VideoFormat::RGBx => Some(
            VideoFrame::RGBx(RGBxFrame { display_time, width, height, data }),
        ),
        VideoFormat::RGB => Some(VideoFrame::RGB(RGBFrame { display_time, width, height, data })),
        VideoFormat::xBGR => Some(
            VideoFrame::XBGR(XBGRFrame { display_time, width, height, data }),
        ),
        VideoFormat::BGRx => Some(
            VideoFrame::BGRx(BGRxFrame { display_time, width, height, data }),
        ),
        _ => None,
    }
}

} // verus!
