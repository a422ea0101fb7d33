use std::sync::mpsc::sync_channel;
use std::time::{Duration, SystemTime};

use scap::format::{VideoFormat, SUPPORTED_VIDEO_FORMATS};
use scap::frame::{video_frame_for, VideoFrame};
use scap::negotiation::{
    format_params, param_changed_callback, stream_setup, Direction, Fraction, ListenerUserData,
    MediaSubtype, MediaType, MetaParams, MetaType, Options, ParamAction, ParamEvent, ParamType,
    Rectangle, StreamParam, VideoInfoRaw,
};

fn sample(format: VideoFormat) -> Option<VideoFrame> {
    video_frame_for(format, SystemTime::UNIX_EPOCH, 1, 1, vec![0u8; 4])
}

/// Anything offered to PipeWire must be something that can be decoded.
#[test]
fn every_advertised_format_has_a_decode_arm() {
    for format in SUPPORTED_VIDEO_FORMATS {
        assert!(
            sample(format).is_some(),
            "advertised format {format:?} has no decode arm in video_frame_for"
        );
    }
}

/// `RGBA` stays out of the advertised set unless and until a real `RGBA` arm
/// exists.
#[test]
fn rgba_is_not_advertised_while_undecodable() {
    assert!(
        sample(VideoFormat::RGBA).is_none(),
        "video_frame_for gained an RGBA arm -- add RGBA to SUPPORTED_VIDEO_FORMATS \
         and delete this test"
    );
    assert!(
        !SUPPORTED_VIDEO_FORMATS.contains(&VideoFormat::RGBA),
        "RGBA is advertised but video_frame_for cannot decode it"
    );
}

/// A format that is decoded but not advertised could never be negotiated.
#[test]
fn xbgr_is_both_decodable_and_advertised() {
    assert!(sample(VideoFormat::xBGR).is_some());
    assert!(SUPPORTED_VIDEO_FORMATS.contains(&VideoFormat::xBGR));
}

#[test]
fn undecodable_formats_are_not_advertised() {
    for format in [VideoFormat::Unknown, VideoFormat::RGBA, VideoFormat::Other(2)] {
        assert!(sample(format).is_none());
        assert!(!SUPPORTED_VIDEO_FORMATS.contains(&format));
    }
}

#[test]
fn frames_hold_what_they_were_made_of() {
    let time = SystemTime::UNIX_EPOCH + Duration::from_secs(5);
    match video_frame_for(VideoFormat::RGB, time, 2, 3, vec![1, 2, 3]) {
        Some(VideoFrame::RGB(f)) => {
            assert_eq!(f.display_time, time);
            assert_eq!((f.width, f.height), (2, 3));
            assert_eq!(f.data, vec![1, 2, 3]);
        }
        other => panic!("{other:?}"),
    }
    match video_frame_for(VideoFormat::RGBx, time, 4, 5, vec![4]) {
        Some(VideoFrame::RGBx(f)) => {
            assert_eq!(f.display_time, time);
            assert_eq!((f.width, f.height), (4, 5));
            assert_eq!(f.data, vec![4]);
        }
        other => panic!("{other:?}"),
    }
    match video_frame_for(VideoFormat::xBGR, time, 6, 7, vec![5, 6]) {
        Some(VideoFrame::XBGR(f)) => {
            assert_eq!(f.display_time, time);
            assert_eq!((f.width, f.height), (6, 7));
            assert_eq!(f.data, vec![5, 6]);
        }
        other => panic!("{other:?}"),
    }
    match video_frame_for(VideoFormat::BGRx, time, -8, 9, vec![]) {
        Some(VideoFrame::BGRx(f)) => {
            assert_eq!(f.display_time, time);
            assert_eq!((f.width, f.height), (-8, 9));
            assert!(f.data.is_empty());
        }
        other => panic!("{other:?}"),
    }
}

#[test]
fn the_stream_offers_the_supported_formats() {
    let params = format_params(&Options { fps: 60, show_cursor: false });
    assert_eq!(params.id, ParamType::EnumFormat);
    assert_eq!(params.media_type, MediaType::Video);
    assert_eq!(params.media_subtype, MediaSubtype::Raw);
    assert_eq!(params.default_format, VideoFormat::RGB);
    assert_eq!(
        params.alternatives,
        vec![VideoFormat::RGBx, VideoFormat::xBGR, VideoFormat::BGRx]
    );
    assert_eq!(params.default_size, Rectangle { width: 128, height: 128 });
    assert_eq!(params.min_size, Rectangle { width: 1, height: 1 });
    assert_eq!(params.max_size, Rectangle { width: 4096, height: 4096 });
    assert_eq!(params.max_framerate, Fraction { num: 60, denom: 1 });
}

#[test]
fn the_stream_is_an_input_from_the_screencast_node() {
    let setup = stream_setup(&Options { fps: 30, show_cursor: true }, 42, 32);
    assert_eq!(setup.name, "scap");
    assert_eq!(setup.media_type, "Video");
    assert_eq!(setup.media_category, "Capture");
    assert_eq!(setup.media_role, "Screen");
    assert_eq!(setup.direction, Direction::Input);
    assert_eq!(setup.target, Some(42));
    assert!(setup.autoconnect);
    assert!(setup.map_buffers);
    assert_eq!(setup.params.len(), 2);
    match &setup.params[0] {
        StreamParam::Format(params) => {
            assert_eq!(params.default_format, VideoFormat::RGB);
            assert_eq!(params.max_framerate, Fraction { num: 30, denom: 1 });
        }
        other => panic!("{other:?}"),
    }
    match &setup.params[1] {
        StreamParam::Meta(params) => assert_eq!(
            *params,
            MetaParams { id: ParamType::Meta, meta: MetaType::Header, size: 32 }
        ),
        other => panic!("{other:?}"),
    }
}

const SETTLED: VideoInfoRaw = VideoInfoRaw {
    format: VideoFormat::BGRx,
    size: Rectangle { width: 1920, height: 1080 },
};

#[test]
fn a_raw_video_format_is_followed_to_the_end() {
    let (tx, rx) = sync_channel(1);
    let mut data = ListenerUserData::new(tx);
    assert_eq!(data.format, VideoInfoRaw::default());
    assert_eq!(data.format.format, VideoFormat::Unknown);
    assert_eq!(data.format.size, Rectangle { width: 0, height: 0 });

    let changed = ParamEvent::Changed { id: ParamType::Format, present: true };
    assert_eq!(param_changed_callback(&mut data, changed), ParamAction::Classify);
    let classified = ParamEvent::Classified(Some((MediaType::Video, MediaSubtype::Raw)));
    assert_eq!(param_changed_callback(&mut data, classified), ParamAction::Parse);
    assert_eq!(data.format, VideoInfoRaw::default());
    let parsed = ParamEvent::Parsed(Some(SETTLED));
    assert_eq!(param_changed_callback(&mut data, parsed), ParamAction::Accept);
    assert_eq!(data.format, SETTLED);
    assert!(rx.try_recv().is_err());
}

#[test]
fn other_params_are_ignored() {
    let (tx, _rx) = sync_channel(1);
    let mut data = ListenerUserData::new(tx);
    data.format = SETTLED;
    for event in [
        ParamEvent::Changed { id: ParamType::Format, present: false },
        ParamEvent::Changed { id: ParamType::EnumFormat, present: true },
        ParamEvent::Changed { id: ParamType::Meta, present: true },
        ParamEvent::Changed { id: ParamType::Other(9), present: true },
        ParamEvent::Classified(None),
        ParamEvent::Classified(Some((MediaType::Other(1), MediaSubtype::Raw))),
        ParamEvent::Classified(Some((MediaType::Video, MediaSubtype::Other(2)))),
    ] {
        assert_eq!(param_changed_callback(&mut data, event), ParamAction::Ignore);
        assert_eq!(data.format, SETTLED);
    }
}

#[test]
fn an_unreadable_raw_video_format_is_fatal() {
    let (tx, _rx) = sync_channel(1);
    let mut data = ListenerUserData::new(tx);
    data.format = SETTLED;
    let action = param_changed_callback(&mut data, ParamEvent::Parsed(None));
    assert_eq!(action, ParamAction::Abort);
    assert_eq!(data.format, SETTLED);
}
