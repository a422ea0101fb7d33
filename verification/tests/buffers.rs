use std::sync::mpsc::{sync_channel, Receiver};
use std::time::{Duration, SystemTime};

use scap::channel::SendKind;
use scap::control::{CapturerState, EngineControl, Notice};
use scap::format::VideoFormat;
use scap::frame::{Frame, RGBFrame, VideoFrame};
use scap::negotiation::{ListenerUserData, Rectangle, VideoInfoRaw};
use scap::process::{
    get_timestamp, plan_buffer, process_buffer, process_callback, settle_send, BufferMeta,
    BufferPlan, Dequeued, ProcessOutcome,
};

const CAPTURING: EngineControl = EngineControl {
    state: CapturerState::Capturing,
    should_exit: false,
};

const EXITING: EngineControl = EngineControl {
    state: CapturerState::Capturing,
    should_exit: true,
};

fn info(format: VideoFormat) -> VideoInfoRaw {
    VideoInfoRaw { format, size: Rectangle { width: 2, height: 1 } }
}

fn listener(format: VideoFormat, room: usize) -> (ListenerUserData, Receiver<Frame>) {
    let (tx, rx) = sync_channel(room);
    let mut data = ListenerUserData::new(tx);
    data.format = info(format);
    (data, rx)
}

fn filled(data: &[u8]) -> Dequeued<'_> {
    Dequeued::Filled { metas: &[], n_datas: 1, data }
}

fn rgb(frame: Frame) -> RGBFrame {
    match frame {
        Frame::Video(VideoFrame::RGB(f)) => f,
        other => panic!("{other:?}"),
    }
}

#[test]
fn the_first_header_gives_the_timestamp() {
    let metas = [
        BufferMeta::Other { type_: 5 },
        BufferMeta::Header { pts: -7 },
        BufferMeta::Header { pts: 9 },
    ];
    assert_eq!(get_timestamp(&metas), -7);
}

#[test]
fn without_a_header_the_timestamp_is_zero() {
    assert_eq!(get_timestamp(&[]), 0);
    assert_eq!(get_timestamp(&[BufferMeta::Other { type_: 3 }]), 0);
}

#[test]
fn a_buffer_becomes_a_frame_in_the_channel() {
    let (mut data, rx) = listener(VideoFormat::RGB, 1);
    let mut control = CAPTURING;
    let time = SystemTime::UNIX_EPOCH + Duration::from_millis(3);
    let outcome = process_buffer(&mut control, &mut data, filled(&[1, 2, 3, 4, 5, 6]), time);
    assert!(outcome.requeue);
    assert_eq!(outcome.notice, None);
    assert_eq!(control, CAPTURING);
    let frame = rgb(rx.try_recv().unwrap());
    assert_eq!(frame.display_time, time);
    assert_eq!((frame.width, frame.height), (2, 1));
    assert_eq!(frame.data, vec![1, 2, 3, 4, 5, 6]);
    assert!(rx.try_recv().is_err());
}

#[test]
fn frames_bear_the_wall_clock() {
    let (mut data, rx) = listener(VideoFormat::RGB, 1);
    let mut control = CAPTURING;
    let metas = [BufferMeta::Header { pts: 11 }];
    let before = SystemTime::now();
    let outcome = process_callback(
        &mut control,
        &mut data,
        Dequeued::Filled { metas: &metas, n_datas: 2, data: &[8, 9] },
    );
    let after = SystemTime::now();
    assert!(outcome.requeue);
    let frame = rgb(rx.try_recv().unwrap());
    assert!(frame.display_time != SystemTime::UNIX_EPOCH);
    assert!(before <= frame.display_time && frame.display_time <= after);
    assert_eq!(frame.data, vec![8, 9]);
}

#[test]
fn a_full_channel_drops_the_frame_silently() {
    let (mut data, rx) = listener(VideoFormat::RGB, 1);
    let mut control = CAPTURING;
    let first = process_callback(&mut control, &mut data, filled(&[1]));
    assert_eq!(first.notice, None);
    let second = process_callback(&mut control, &mut data, filled(&[2]));
    assert!(second.requeue);
    assert_eq!(second.notice, None);
    assert_eq!(control, CAPTURING);
    assert_eq!(rgb(rx.try_recv().unwrap()).data, vec![1]);
    assert!(rx.try_recv().is_err());
    // With room again, frames flow again.
    let third = process_callback(&mut control, &mut data, filled(&[3]));
    assert_eq!(third.notice, None);
    assert_eq!(rgb(rx.try_recv().unwrap()).data, vec![3]);
}

#[test]
fn frames_arrive_in_order_and_once() {
    let (mut data, rx) = listener(VideoFormat::RGB, 3);
    let mut control = CAPTURING;
    for byte in 0..5u8 {
        process_callback(&mut control, &mut data, filled(&[byte]));
    }
    for byte in 0..3u8 {
        assert_eq!(rgb(rx.try_recv().unwrap()).data, vec![byte]);
    }
    assert!(rx.try_recv().is_err());
    process_callback(&mut control, &mut data, filled(&[9]));
    assert_eq!(rgb(rx.try_recv().unwrap()).data, vec![9]);
    assert!(rx.try_recv().is_err());
}

#[test]
fn metadata_do_not_change_the_frame() {
    let time = SystemTime::UNIX_EPOCH + Duration::from_secs(1);
    for metas in [
        vec![],
        vec![BufferMeta::Header { pts: 5 }],
        vec![BufferMeta::Other { type_: 2 }, BufferMeta::Header { pts: -5 }],
    ] {
        let (mut data, rx) = listener(VideoFormat::RGB, 1);
        let mut control = CAPTURING;
        let buffer = Dequeued::Filled { metas: &metas, n_datas: 1, data: &[4] };
        let outcome = process_buffer(&mut control, &mut data, buffer, time);
        assert_eq!(outcome, ProcessOutcome { requeue: true, notice: None });
        assert_eq!(control, CAPTURING);
        let frame = rgb(rx.try_recv().unwrap());
        assert_eq!(frame.display_time, time);
        assert_eq!(frame.data, vec![4]);
    }
}

#[test]
fn the_end_of_sending_decides_the_rest() {
    for control in [CAPTURING, EXITING] {
        for kind in [SendKind::Sent, SendKind::Full] {
            let mut after = control;
            assert_eq!(settle_send(&mut after, kind), None);
            assert_eq!(after, control);
        }
    }
    let mut control = CAPTURING;
    let notice = settle_send(&mut control, SendKind::Disconnected);
    assert_eq!(notice, Some(Notice::ReceiverDisconnected));
    assert_eq!(control, EXITING);
    assert_eq!(settle_send(&mut control, SendKind::Disconnected), None);
    assert_eq!(control, EXITING);
}

#[test]
fn a_gone_receiver_is_noticed_once_and_ends_the_capture() {
    let (mut data, rx) = listener(VideoFormat::RGB, 4);
    drop(rx);
    let mut control = CAPTURING;
    let first = process_callback(&mut control, &mut data, filled(&[1]));
    assert!(first.requeue);
    assert_eq!(first.notice, Some(Notice::ReceiverDisconnected));
    assert_eq!(control, EXITING);
    assert!(!control.keeps_capturing());
    for _ in 0..3 {
        let later = process_callback(&mut control, &mut data, filled(&[1]));
        assert!(later.requeue);
        assert_eq!(later.notice, None);
        assert_eq!(control, EXITING);
    }
}

#[test]
fn an_unsupported_format_is_noticed_once_and_ends_the_capture() {
    let (mut data, rx) = listener(VideoFormat::RGBA, 4);
    let mut control = CAPTURING;
    let first = process_callback(&mut control, &mut data, filled(&[1]));
    assert!(first.requeue);
    assert_eq!(first.notice, Some(Notice::UnsupportedFormat(VideoFormat::RGBA)));
    assert_eq!(control, EXITING);
    let second = process_callback(&mut control, &mut data, filled(&[1]));
    assert!(second.requeue);
    assert_eq!(second.notice, None);
    assert!(rx.try_recv().is_err());
}

#[test]
fn buffers_go_straight_back_while_exiting() {
    let (mut data, rx) = listener(VideoFormat::RGB, 4);
    let mut control = EXITING;
    let outcome = process_callback(&mut control, &mut data, filled(&[1]));
    assert!(outcome.requeue);
    assert_eq!(outcome.notice, None);
    // Even one without data: nobody looks into it any more.
    let empty = Dequeued::Filled { metas: &[], n_datas: 0, data: &[] };
    assert!(process_callback(&mut control, &mut data, empty).requeue);
    assert_eq!(control, EXITING);
    assert!(rx.try_recv().is_err());
}

#[test]
fn a_buffer_without_data_is_not_given_back() {
    let (mut data, rx) = listener(VideoFormat::RGB, 4);
    let mut control = CAPTURING;
    let empty = Dequeued::Filled { metas: &[], n_datas: 0, data: &[] };
    let outcome = process_callback(&mut control, &mut data, empty);
    assert!(!outcome.requeue);
    assert_eq!(outcome.notice, None);
    assert_eq!(control, CAPTURING);
    assert!(rx.try_recv().is_err());
}

#[test]
fn running_out_of_buffers_is_noticed_each_time() {
    let (mut data, _rx) = listener(VideoFormat::RGB, 4);
    for control in [CAPTURING, EXITING] {
        let mut after = control;
        let outcome = process_callback(&mut after, &mut data, Dequeued::Nothing);
        assert!(outcome.requeue);
        assert_eq!(outcome.notice, Some(Notice::OutOfBuffers));
        assert_eq!(after, control);
    }
}

#[test]
fn a_hollow_buffer_goes_back_unnoticed() {
    let (mut data, rx) = listener(VideoFormat::RGB, 4);
    let mut control = CAPTURING;
    let outcome = process_callback(&mut control, &mut data, Dequeued::Hollow);
    assert!(outcome.requeue);
    assert_eq!(outcome.notice, None);
    assert_eq!(control, CAPTURING);
    assert!(rx.try_recv().is_err());
}

#[test]
fn sizes_past_the_frame_range_wrap() {
    let mut control = CAPTURING;
    let wide = VideoInfoRaw {
        format: VideoFormat::RGB,
        size: Rectangle { width: u32::MAX, height: 0x8000_0000 },
    };
    match plan_buffer(&mut control, &wide, filled(&[]), SystemTime::UNIX_EPOCH) {
        BufferPlan::Offer(frame) => {
            let frame = rgb(frame);
            assert_eq!((frame.width, frame.height), (-1, i32::MIN));
        }
        other => panic!("{other:?}"),
    }
    let largest = VideoInfoRaw {
        format: VideoFormat::RGB,
        size: Rectangle { width: 4096, height: 0x7fff_ffff },
    };
    match plan_buffer(&mut control, &largest, filled(&[]), SystemTime::UNIX_EPOCH) {
        BufferPlan::Offer(frame) => {
            let frame = rgb(frame);
            assert_eq!((frame.width, frame.height), (4096, i32::MAX));
        }
        other => panic!("{other:?}"),
    }
}
