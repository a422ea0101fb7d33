//! What the engine asks of a stream, and what it takes from the answer.
use std::sync::mpsc::SyncSender;
use std::time::SystemTime;
use vstd::prelude::*;

use crate::channel::{FrameSender, SendKind, WallClock};
use crate::format::{VideoFormat, SUPPORTED_VIDEO_FORMATS};
use crate::frame::{Frame, FrameView};

verus! {

/// What a caller wants captured.
#[derive(Clone, Copy, Debug, PartialEq, Eq, Structural)]
pub struct Options {
    /// The highest frame rate wanted, in frames per second.
    pub fps: u32,
    /// Whether the pointer is drawn into the frames.
    pub show_cursor: bool,
}

#[derive(Clone, Copy, Debug, PartialEq, Eq, Structural)]
pub struct Rectangle {
    pub width: u32,
    pub height: u32,
}

#[derive(Clone, Copy, Debug, PartialEq, Eq, Structural)]
pub struct Fraction {
    pub num: u32,
    pub denom: u32,
}

/// A kind of stream parameter; those the engine does not care for by
/// PipeWire's number.
#[derive(Clone, Copy, Debug, PartialEq, Eq, Structural)]
pub enum ParamType {
    EnumFormat,
    Format,
    Meta,
    Other(u32),
}

#[derive(Clone, Copy, Debug, PartialEq, Eq, Structural)]
pub enum MediaType {
    Video,
    Other(u32),
}

#[derive(Clone, Copy, Debug, PartialEq, Eq, Structural)]
pub enum MediaSubtype {
    Raw,
    Other(u32),
}

/// A kind of metadata that can travel with a buffer.
#[derive(Clone, Copy, Debug, PartialEq, Eq, Structural)]
pub enum MetaType {
    Header,
    Other(u32),
}

/// The format parameter of a stream that is about to connect.
#[derive(Debug)]
pub struct FormatParams {
    pub id: ParamType,
    pub media_type: MediaType,
    pub media_subtype: MediaSubtype,
    /// The preferred format.
    pub default_format: VideoFormat,
    /// The other formats that would do.
    pub alternatives: Vec<VideoFormat>,
    pub default_size: Rectangle,
    pub min_size: Rectangle,
    pub max_size: Rectangle,
    pub max_framerate: Fraction,
}

impl FormatParams {
    /// Whether the peer may pick this format.
    pub open spec fn offers(self, format: VideoFormat) -> bool {
        format == self.default_format || self.alternatives@.contains(format)
    }

    /// Whether the peer may pick this size.
    pub open spec fn admits(self, size: Rectangle) -> bool {
        &&& self.min_size.width <= size.width <= self.max_size.width
        &&& self.min_size.height <= size.height <= self.max_size.height
    }
}

/// The metadata parameter of a stream that is about to connect.
#[derive(Clone, Copy, Debug, PartialEq, Eq, Structural)]
pub struct MetaParams {
    pub id: ParamType,
    pub meta: MetaType,
    /// The size of one such block of metadata, in bytes.
    pub size: i32,
}

/// A parameter of a stream that is about to connect.
#[derive(Debug)]
pub enum StreamParam {
    Format(FormatParams),
    Meta(MetaParams),
}

#[derive(Clone, Copy, Debug, PartialEq, Eq, Structural)]
pub enum Direction {
    Input,
    Output,
}

/// All that is fixed about the stream before it connects.
#[derive(Debug)]
pub struct StreamSetup {
    pub name: &'static str,
    pub media_type: &'static str,
    pub media_category: &'static str,
    pub media_role: &'static str,
    pub direction: Direction,
    /// The node to connect to.
    pub target: Option<u32>,
    pub autoconnect: bool,
    pub map_buffers: bool,
    /// In the order in which they are handed to PipeWire.
    pub params: Vec<StreamParam>,
}

/// What the stream asks of its peer: raw video in one of the supported
/// formats, of any size from a pixel to 4096 x 4096, no faster than the
/// options allow.
pub open spec fn asks_for(params: FormatParams, options: Options) -> bool {
    &&& params.id == ParamType::EnumFormat
    &&& params.media_type == MediaType::Video
    &&& params.media_subtype == MediaSubtype::Raw
    &&& seq![params.default_format] + params.alternatives@ == SUPPORTED_VIDEO_FORMATS@
    &&& params.default_size == (Rectangle { width: 128, height: 128 })
    &&& params.min_size == (Rectangle { width: 1, height: 1 })
    &&& params.max_size == (Rectangle { width: 4096, height: 4096 })
    &&& params.max_framerate == (Fraction { num: options.fps, denom: 1 })
}

/// The format parameter for the given options.
pub fn format_params(options: &Options) -> (params: FormatParams)
    ensures
        asks_for(params, *options),
        params.max_framerate.num == options.fps,
        params.max_framerate.denom == 1,
        params.default_format is RGB,
        params.alternatives@ == seq![VideoFormat::RGBx, VideoFormat::xBGR, VideoFormat::BGRx],
        params.min_size.width == 1 && params.min_size.height == 1,
        params.max_size.width == 4096 && params.max_size.height == 4096,
{
    let default_format = SUPPORTED_VIDEO_FORMATS[0];
    let mut alternatives: Vec<VideoFormat> = Vec::new();
    let mut i: usize = 1;
    while i < SUPPORTED_VIDEO_FORMATS.len()
        invariant
            1 <= i <= SUPPORTED_VIDEO_FORMATS@.len(),
            alternatives@ == SUPPORTED_VIDEO_FORMATS@.subrange(1, i as int),
        decreases SUPPORTED_VIDEO_FORMATS@.len() - i,
    {
        alternatives.push(SUPPORTED_VIDEO_FORMATS[i]);
        i += 1;
    }
    assert(seq![default_format] + alternatives@ =~= SUPPORTED_VIDEO_FORMATS@);
    FormatParams {
        id: ParamType::EnumFormat,
        media_type: MediaType::Video,
        media_subtype: MediaSubtype::Raw,
        default_format,
        alternatives,
        default_size: Rectangle { width: 128, height: 128 },
        min_size: Rectangle { width: 1, height: 1 },
        max_size: Rectangle { width: 4096, height: 4096 },
        max_framerate: Fraction { num: options.fps, denom: 1 },
    }
}

/// The stream for the screencast node `stream_id`, whose buffers carry
/// headers of `header_size` bytes. It asks for a format first, and for the
/// headers after that.
pub fn stream_setup(options: &Options, stream_id: u32, header_size: i32) -> (setup: StreamSetup)
    ensures
        setup.name@ == "scap"@,
        setup.media_type@ == "Video"@,
        setup.media_category@ == "Capture"@,
        setup.media_role@ == "Screen"@,
        setup.direction == Direction::Input,
        setup.target == Some(stream_id),
        setup.autoconnect,
        setup.map_buffers,
        setup.params@.len() == 2,
        setup.params@[0] matches StreamParam::Format(params) && asks_for(params, *options)
            && params.max_framerate.num == options.fps && params.max_framerate.denom == 1,
        setup.params@[1] == StreamParam::Meta(
            MetaParams { id: ParamType::Meta, meta: MetaType::Header, size: header_size },
        ),
{
    let mut params: Vec<StreamParam> = Vec::new();
    params.push(StreamParam::Format(format_params(options)));
    params.push(
        StreamParam::Meta(
            MetaParams { id: ParamType::Meta, meta: MetaType::Header, size: header_size },
        ),
    );
    StreamSetup {
        name: "scap",
        media_type: "Video",
        media_category: "Capture",
        media_role: "Screen",
        direction: Direction::Input,
        target: Some(stream_id),
        autoconnect: true,
        map_buffers: true,
        params,
    }
}

/// The format a stream has settled on, as far as the engine reads it.
#[derive(Clone, Copy, Debug, PartialEq, Eq, Structural)]
pub struct VideoInfoRaw {
    pub format: VideoFormat,
    pub size: Rectangle,
}

impl Default for VideoInfoRaw {
    /// Nothing has been settled.
    fn default() -> (info: VideoInfoRaw)
        ensures
            info == (VideoInfoRaw {
                format: VideoFormat::Unknown,
                size: Rectangle { width: 0, height: 0 },
            }),
    {
        VideoInfoRaw { format: VideoFormat::Unknown, size: Rectangle { width: 0, height: 0 } }
    }
}

/// What the callbacks of a stream share.
pub struct ListenerUserData {
    /// Where frames go.
    pub tx: FrameSender,
    /// Where their times come from.
    pub clock: WallClock,
    pub format: VideoInfoRaw,
}

impl ListenerUserData {
    /// For a stream that has settled on nothing yet.
    pub fn new(tx: SyncSender<Frame>) -> (data: ListenerUserData)
        ensures
            data.tx.channel() == tx,
            data.tx.log() == Seq::<(FrameView, SendKind)>::empty(),
            data.clock.readings() == Seq::<SystemTime>::empty(),
            data.format == (VideoInfoRaw {
                format: VideoFormat::Unknown,
                size: Rectangle { width: 0, height: 0 },
            }),
    {
        ListenerUserData {
            tx: FrameSender::new(tx),
            clock: WallClock::new(),
            format: VideoInfoRaw::default(),
        }
    }
}

/// What comes to light, step by step, of a parameter that changed.
#[derive(Clone, Copy, Debug, PartialEq, Eq)]
pub enum ParamEvent {
    /// A parameter of this kind changed; it was cleared unless `present`.
    Changed { id: ParamType, present: bool },
    /// What the parameter says it is a format of, or that it does not parse.
    Classified(Option<(MediaType, MediaSubtype)>),
    /// The raw video format in the parameter, or that it does not parse.
    Parsed(Option<VideoInfoRaw>),
}

/// What is to be done about it.
#[derive(Clone, Copy, Debug, PartialEq, Eq, Structural)]
pub enum ParamAction {
    /// Nothing: the parameter is not for the engine.
    Ignore,
    /// Find out what the parameter is a format of.
    Classify,
    /// Parse it as a raw video format.
    Parse,
    /// Nothing more: its format is in effect.
    Accept,
    /// Give up: a raw video format that cannot be read is fatal.
    Abort,
}

pub open spec fn param_action(event: ParamEvent) -> ParamAction {
    match event {
        ParamEvent::Changed { id, present } => if present && id == ParamType::Format {
            ParamAction::Classify
        } else {
            ParamAction::Ignore
        },
        ParamEvent::Classified(media) => if media == Some((MediaType::Video, MediaSubtype::Raw)) {
            ParamAction::Parse
        } else {
            ParamAction::Ignore
        },
        ParamEvent::Parsed(Some(_)) => ParamAction::Accept,
        ParamEvent::Parsed(None) => ParamAction::Abort,
    }
}

/// The format in effect after the event.
pub open spec fn param_format(format: VideoInfoRaw, event: ParamEvent) -> VideoInfoRaw {
    match event {
        ParamEvent::Parsed(Some(info)) => info,
        _ => format,
    }
}

/// One step in following a parameter that changed. At most the format in effect
/// changes; nothing is sent.
pub fn param_changed_callback(user_data: &mut ListenerUserData, event: ParamEvent) -> (action:
    ParamAction)
    ensures
        action == param_action(event),
        final(user_data).format == param_format(old(user_data).format, event),
        final(user_data).tx == old(user_data).tx,
        final(user_data).clock == old(user_data).clock,
        event matches ParamEvent::Changed { id, present } ==> action is Classify == (present
            && id is Format) && action is Ignore == !(present && id is Format),
        event matches ParamEvent::Classified(media) ==> action is Parse == (media matches Some(m)
            && m.0 is Video && m.1 is Raw) && (action is Parse || action is Ignore),
        event matches ParamEvent::Parsed(parsed) ==> action is Accept == parsed is Some
            && action is Abort == parsed is None,
        event matches ParamEvent::Parsed(Some(info)) ==> final(user_data).format == info,
        !(action is Accept) ==> final(user_data).format == old(user_data).format,
{
    match event {
        ParamEvent::Changed { id, present } => {
            if !present {
                return ParamAction::Ignore;
            }
            if id != ParamType::Format {
                return ParamAction::Ignore;
            }
            ParamAction::Classify
        },
        ParamEvent::Classified(None) => ParamAction::Ignore,
        ParamEvent::Classified(Some((media_type, media_subtype))) => {
            if media_type != MediaType::Video || media_subtype != MediaSubtype::Raw {
                return ParamAction::Ignore;
            }
            ParamAction::Parse
        },
        ParamEvent::Parsed(Some(info)) => {
            user_data.format = info;
            ParamAction::Accept
        },
        ParamEvent::Parsed(None) => ParamAction::Abort,
    }
}

} // verus!
