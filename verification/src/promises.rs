//! What each operation is for, said of its inputs and its results alone.
use std::time::SystemTime;
use vstd::prelude::*;

use crate::capturer::{launch_message, next_launch, LaunchError, LaunchOutcome, LaunchTask};
use crate::channel::SendKind;
use crate::control::{state_changed, state_notice, CapturerState, EngineControl, Notice, StreamState};
use crate::format::{advertised, decodable, VideoFormat, SUPPORTED_VIDEO_FORMATS};
use crate::frame::{BGRxFrame, Frame, RGBFrame, RGBxFrame, VideoFrame, XBGRFrame};
use crate::negotiation::{
    asks_for, param_action, param_format, FormatParams, ListenerUserData, MediaSubtype, MediaType,
    Options, ParamEvent, ParamType, Rectangle, VideoInfoRaw,
};
use crate::process::{
    first_header, looks_into, planned, processed, ran, send_notice, settled, BufferMeta, Dequeued,
    DequeuedView, PlanView, ProcessOutcome,
};
use crate::worker::{next_task, CaptureTask};

verus! {

/// The engine takes part in four formats, and in no other.
pub proof fn four_formats_are_supported(format: VideoFormat)
    ensures
        advertised(format) <==> format is RGB || format is RGBx || format is xBGR || format is BGRx,
        decodable(format) <==> format is RGB || format is RGBx || format is xBGR || format is BGRx,
        SUPPORTED_VIDEO_FORMATS@.len() == 4,
        SUPPORTED_VIDEO_FORMATS@[0] is RGB,
{
    let formats = SUPPORTED_VIDEO_FORMATS@;
    assert(formats[0] == VideoFormat::RGB);
    assert(formats[1] == VideoFormat::RGBx);
    assert(formats[2] == VideoFormat::xBGR);
    assert(formats[3] == VideoFormat::BGRx);
}

/// A frame, as a value, has the layout that its kind names, and what it holds.
pub proof fn frames_are_what_they_hold(
    rgb: RGBFrame,
    rgbx: RGBxFrame,
    xbgr: XBGRFrame,
    bgrx: BGRxFrame,
)
    ensures
        VideoFrame::RGB(rgb)@.format is RGB,
        VideoFrame::RGB(rgb)@.display_time == rgb.display_time,
        VideoFrame::RGB(rgb)@.width == rgb.width,
        VideoFrame::RGB(rgb)@.height == rgb.height,
        VideoFrame::RGB(rgb)@.pixels == rgb.data@,
        VideoFrame::RGBx(rgbx)@.format is RGBx,
        VideoFrame::RGBx(rgbx)@.display_time == rgbx.display_time,
        VideoFrame::RGBx(rgbx)@.width == rgbx.width,
        VideoFrame::RGBx(rgbx)@.height == rgbx.height,
        VideoFrame::RGBx(rgbx)@.pixels == rgbx.data@,
        VideoFrame::XBGR(xbgr)@.format is xBGR,
        VideoFrame::XBGR(xbgr)@.display_time == xbgr.display_time,
        VideoFrame::XBGR(xbgr)@.width == xbgr.width,
        VideoFrame::XBGR(xbgr)@.height == xbgr.height,
        VideoFrame::XBGR(xbgr)@.pixels == xbgr.data@,
        VideoFrame::BGRx(bgrx)@.format is BGRx,
        VideoFrame::BGRx(bgrx)@.display_time == bgrx.display_time,
        VideoFrame::BGRx(bgrx)@.width == bgrx.width,
        VideoFrame::BGRx(bgrx)@.height == bgrx.height,
        VideoFrame::BGRx(bgrx)@.pixels == bgrx.data@,
{
}

/// What travels through the channel is the picture itself.
pub proof fn frames_are_their_pictures(picture: VideoFrame)
    ensures
        Frame::Video(picture)@ == picture@,
{
}

/// A dequeued buffer, as a value, is what PipeWire handed out.
pub proof fn dequeued_is_what_was_handed_out(buffer: Dequeued)
    ensures
        buffer is Nothing <==> buffer@ is Nothing,
        buffer is Hollow <==> buffer@ is Hollow,
        buffer matches Dequeued::Filled { metas, n_datas, data } ==> {
            &&& buffer@ is Filled
            &&& buffer@->metas == metas@
            &&& buffer@->n_datas == n_datas
            &&& buffer@->data == data@
        },
{
}

/// A first header is a header that none comes before.
pub proof fn first_header_has_none_before(metas: Seq<BufferMeta>, i: int)
    ensures
        first_header(metas, i) <==> {
            &&& 0 <= i < metas.len()
            &&& metas[i] is Header
            &&& forall|j: int| 0 <= j < metas.len() && #[trigger] metas[j] is Header ==> i <= j
        },
{
    if first_header(metas, i) {
        assert forall|j: int| 0 <= j < metas.len() && #[trigger] metas[j] is Header implies i
            <= j by {
            assert(!(j < i) || !(metas[j] is Header));
        }
    }
}

/// A buffer is looked into, and the clock read for it, exactly if there is one
/// with data and no exit is asked for.
pub proof fn buffers_with_data_are_looked_into(
    control: EngineControl,
    metas: Seq<BufferMeta>,
    n_datas: u32,
    bytes: Seq<u8>,
)
    ensures
        looks_into(control, DequeuedView::Filled { metas, n_datas, data: bytes }) <==> n_datas != 0
            && !control.should_exit,
        !looks_into(control, DequeuedView::Nothing),
        !looks_into(control, DequeuedView::Hollow),
{
}

/// While frames are taken in, a buffer with data in a negotiated format that the
/// engine supports is handed to the consumer's channel once, as a frame in just
/// that format, of the negotiated size, with the buffer's own bytes and the
/// time at hand. The buffer goes back. If the channel took the frame or had no
/// room for it, nothing else happens; if the receiver is gone, that is said, and
/// an exit is asked for.
pub proof fn good_buffers_are_sent_as_negotiated(
    control: EngineControl,
    data: ListenerUserData,
    metas: Seq<BufferMeta>,
    n_datas: u32,
    bytes: Seq<u8>,
    now: SystemTime,
    control_after: EngineControl,
    data_after: ListenerUserData,
    outcome: ProcessOutcome,
)
    requires
        ran(
            control,
            data,
            DequeuedView::Filled { metas, n_datas, data: bytes },
            now,
            control_after,
            data_after,
            outcome,
        ),
        !control.should_exit,
        n_datas >= 1,
        data.format.format is RGB || data.format.format is RGBx || data.format.format is xBGR
            || data.format.format is BGRx,
    ensures
        ({
            let before = data.tx.log();
            let after = data_after.tx.log();
            let (frame, kind) = after.last();
            &&& after.len() == before.len() + 1
            &&& forall|i: int| 0 <= i < before.len() ==> #[trigger] after[i] == before[i]
            &&& frame.format == data.format.format
            &&& frame.display_time == now
            &&& frame.pixels == bytes
            &&& is_wrapped(frame.width as int, data.format.size.width as int)
            &&& is_wrapped(frame.height as int, data.format.size.height as int)
            &&& outcome.requeue
            &&& control_after.state == control.state
            &&& kind is Disconnected <==> control_after.should_exit
            &&& kind is Disconnected ==> outcome.notice == Some(Notice::ReceiverDisconnected)
            &&& !(kind is Disconnected) ==> outcome.notice is None
        }),
        data_after.tx.channel() == data.tx.channel(),
        data_after.format == data.format,
{
}

/// `x` is the number of 32 bits with a sign that agrees with `pixels` in all of
/// them.
pub open spec fn is_wrapped(x: int, pixels: int) -> bool {
    &&& -0x8000_0000 <= x < 0x8000_0000
    &&& x == pixels || x + 0x1_0000_0000 == pixels
}

/// Two buffers in different supported formats never make frames of one layout.
pub proof fn layouts_are_told_apart(
    control: EngineControl,
    info: VideoInfoRaw,
    other: VideoInfoRaw,
    buffer: DequeuedView,
    now: SystemTime,
)
    requires
        info.format != other.format,
    ensures
        planned(control, info, buffer, now).1 matches PlanView::Offer(frame) ==> (planned(
            control,
            other,
            buffer,
            now,
        ).1 matches PlanView::Offer(other_frame) ==> frame.format != other_frame.format),
{
}

/// While frames are taken in, a buffer with data in any other format stops the
/// capture gracefully: an exit is asked for, that is said, nothing is sent, and
/// the buffer goes back.
pub proof fn other_formats_stop_the_capture(
    control: EngineControl,
    data: ListenerUserData,
    metas: Seq<BufferMeta>,
    n_datas: u32,
    bytes: Seq<u8>,
    now: SystemTime,
    control_after: EngineControl,
    data_after: ListenerUserData,
    outcome: ProcessOutcome,
)
    requires
        ran(
            control,
            data,
            DequeuedView::Filled { metas, n_datas, data: bytes },
            now,
            control_after,
            data_after,
            outcome,
        ),
        !control.should_exit,
        n_datas >= 1,
        data.format.format is Unknown || data.format.format is RGBA || data.format.format is Other,
    ensures
        data_after.tx.log() == data.tx.log(),
        data_after.tx.channel() == data.tx.channel(),
        data_after.format == data.format,
        control_after.should_exit,
        control_after.state == control.state,
        outcome.notice == Some(Notice::UnsupportedFormat(data.format.format)),
        outcome.requeue,
{
}

/// Any other buffer, and none at all, changes nothing and sends nothing. It is
/// spoken of only if there is none; and it goes back, except where it has no
/// data and frames are still taken in.
pub proof fn other_buffers_change_nothing(
    control: EngineControl,
    data: ListenerUserData,
    buffer: DequeuedView,
    now: SystemTime,
    control_after: EngineControl,
    data_after: ListenerUserData,
    outcome: ProcessOutcome,
)
    requires
        ran(control, data, buffer, now, control_after, data_after, outcome),
        control.should_exit || buffer is Nothing || buffer is Hollow || buffer->n_datas == 0,
    ensures
        control_after == control,
        data_after.tx.log() == data.tx.log(),
        data_after.tx.channel() == data.tx.channel(),
        data_after.format == data.format,
        buffer is Nothing ==> outcome.notice == Some(Notice::OutOfBuffers),
        !(buffer is Nothing) ==> outcome.notice is None,
        buffer is Nothing || buffer is Hollow || control.should_exit ==> outcome.requeue,
        buffer is Filled && !control.should_exit ==> !outcome.requeue,
{
}

/// Only a receiver that is gone matters to the engine, and it is spoken of only
/// the first time.
pub proof fn only_a_gone_receiver_matters(control: EngineControl, kind: SendKind)
    ensures
        settled(control, kind).state == control.state,
        settled(control, kind).should_exit <==> control.should_exit || kind is Disconnected,
        send_notice(control, kind) is Some <==> kind is Disconnected && !control.should_exit,
        send_notice(control, kind) matches Some(notice) ==> notice is ReceiverDisconnected,
{
}

/// An error of the stream asks for an exit and is passed on with its reason;
/// any other state of it changes nothing and is not spoken of.
pub proof fn only_stream_errors_matter(control: EngineControl, state: StreamState)
    ensures
        state_changed(control, state).state == control.state,
        state_changed(control, state).should_exit <==> control.should_exit || state is Error,
        state matches StreamState::Error(reason) ==> state_notice(state) == Some(
            Notice::StreamError(reason),
        ),
        !(state is Error) ==> state_notice(state) is None,
{
}

/// The parts of the control block are set one by one, and read as they are.
pub proof fn control_is_set_in_parts(
    control: EngineControl,
    state: CapturerState,
    should_exit: bool,
)
    ensures
        control.with_state(state).state == state,
        control.with_state(state).should_exit == control.should_exit,
        control.with_exit(should_exit).should_exit == should_exit,
        control.with_exit(should_exit).state == control.state,
        control.waits() <==> control.state is Idle,
        control.runs() <==> control.state is Capturing && !control.should_exit,
        EngineControl::at_rest().state is Idle,
        !EngineControl::at_rest().should_exit,
{
}

/// A stream asks for frames no faster than the caller wants them: the highest
/// rate is the caller's number of frames in one second.
pub proof fn rate_is_the_callers(params: FormatParams, options: Options)
    requires
        asks_for(params, options),
    ensures
        params.max_framerate.num == options.fps * params.max_framerate.denom,
        params.max_framerate.denom == 1,
{
}

/// Two callers get the same rate only if they ask for the same; and whether they
/// want a pointer makes no difference to what is asked of the stream.
pub proof fn rates_are_told_apart(
    params: FormatParams,
    other_params: FormatParams,
    options: Options,
    other: Options,
)
    requires
        asks_for(params, options),
        asks_for(other_params, other),
    ensures
        params.max_framerate == other_params.max_framerate <==> options.fps == other.fps,
        params.default_format == other_params.default_format,
        params.alternatives@ == other_params.alternatives@,
        params.default_size == other_params.default_size,
        params.min_size == other_params.min_size,
        params.max_size == other_params.max_size,
{
    let all = seq![params.default_format] + params.alternatives@;
    let other_all = seq![other_params.default_format] + other_params.alternatives@;
    assert(all[0] == other_all[0]);
    assert(params.alternatives@ =~= all.skip(1));
    assert(other_params.alternatives@ =~= other_all.skip(1));
}

/// A stream asks for raw video, in one of the four formats, preferably RGB, and
/// of any size from one pixel to 4096 either way, preferably 128.
pub proof fn streams_ask_for_raw_video(
    params: FormatParams,
    options: Options,
    format: VideoFormat,
    size: Rectangle,
)
    requires
        asks_for(params, options),
    ensures
        params.id is EnumFormat,
        params.media_type is Video,
        params.media_subtype is Raw,
        params.default_format is RGB,
        params.alternatives@.len() == 3,
        params.offers(format) <==> format is RGB || format is RGBx || format is xBGR || format
            is BGRx,
        params.admits(size) <==> 1 <= size.width <= 4096 && 1 <= size.height <= 4096,
        params.default_size.width == 128,
        params.default_size.height == 128,
{
    let all = seq![params.default_format] + params.alternatives@;
    four_formats_are_supported(format);
    crate::laws::offered_iff_decodable(params, options, format);
    assert(all[0] == params.default_format);
    assert(all.len() == 1 + params.alternatives@.len());
}

/// A changed parameter is looked into exactly if it is there and is a format;
/// read exactly if it says raw video; and taken over exactly if it can be read,
/// while one that cannot is fatal.
pub proof fn params_are_followed_by_what_they_say(
    format: VideoInfoRaw,
    id: ParamType,
    present: bool,
    media: Option<(MediaType, MediaSubtype)>,
    parsed: Option<VideoInfoRaw>,
)
    ensures
        ({
            let event = ParamEvent::Changed { id, present };
            &&& param_action(event) is Classify <==> present && id is Format
            &&& param_action(event) is Ignore <==> !(present && id is Format)
            &&& param_format(format, event) == format
        }),
        ({
            let event = ParamEvent::Classified(media);
            let raw_video = (media matches Some(m) && m.0 is Video && m.1 is Raw);
            &&& param_action(event) is Parse <==> raw_video
            &&& param_action(event) is Ignore <==> !raw_video
            &&& param_format(format, event) == format
        }),
        ({
            let event = ParamEvent::Parsed(parsed);
            &&& param_action(event) is Accept <==> parsed is Some
            &&& param_action(event) is Abort <==> parsed is None
            &&& parsed matches Some(info) ==> param_format(format, event) == info
            &&& parsed is None ==> param_format(format, event) == format
        }),
{
}

/// A worker whose stream is announced, or that is past that, returns only when
/// it is told to stop, when an exit is asked for while frames are wanted, or when
/// it was at work and frames are no longer wanted; and then without an error.
pub proof fn workers_return_only_when_told<E>(
    task: CaptureTask<E>,
    outcome: Result<(), E>,
    control: EngineControl,
)
    requires
        task is Sleep || task is Iterate || (task is AnnounceReady && outcome is Ok),
    ensures
        next_task(task, outcome, control) is Return <==> {
            ||| control.state is Stopping
            ||| control.state is Capturing && control.should_exit
            ||| control.state is Idle && task is Iterate
        },
        next_task(task, outcome, control) is Return ==> next_task(task, outcome, control)
            == CaptureTask::<E>::Return(Ok(())),
{
}

/// While frames are wanted and no exit is asked for, a worker with a stream lets
/// PipeWire work, be it at work, asleep, or only just announced.
pub proof fn wanted_frames_are_worked_for<E>(
    task: CaptureTask<E>,
    outcome: Result<(), E>,
    control: EngineControl,
)
    requires
        task is Sleep || task is Iterate || (task is AnnounceReady && outcome is Ok),
    ensures
        next_task(task, outcome, control) is Iterate <==> control.state is Capturing
            && !control.should_exit,
        next_task(task, outcome, control) is Sleep <==> control.state is Idle && !(task is Iterate),
{
}

/// A worker that has just announced its stream goes on as one that was asleep;
/// and how sleeping or working ended, and how long it was to last, does not
/// matter.
pub proof fn announced_workers_go_on_like_sleepers<E>(
    control: EngineControl,
    outcome: Result<(), E>,
    other: Result<(), E>,
    millis: u64,
    other_millis: u64,
)
    ensures
        next_task(CaptureTask::AnnounceReady, Ok::<(), E>(()), control) == next_task(
            CaptureTask::Sleep { millis },
            outcome,
            control,
        ),
        next_task(CaptureTask::Sleep { millis }, outcome, control) == next_task(
            CaptureTask::Sleep { millis: other_millis },
            other,
            control,
        ),
        next_task(CaptureTask::Iterate { millis }, outcome, control) == next_task(
            CaptureTask::Iterate { millis: other_millis },
            other,
            control,
        ),
{
}

/// A worker sleeps for 10 milliseconds at a time, and lets PipeWire work for 100.
pub proof fn workers_look_up_in_time<E>(
    task: CaptureTask<E>,
    outcome: Result<(), E>,
    control: EngineControl,
)
    ensures
        next_task(task, outcome, control) matches CaptureTask::Sleep { millis } ==> millis == 10,
        next_task(task, outcome, control) matches CaptureTask::Iterate { millis } ==> millis == 100,
{
}

/// A stream that is set up is announced. What fails before that is done is
/// reported, and then returned; where even the report fails, that is returned.
/// The control block has no part in it.
pub proof fn failures_are_reported_and_returned<E>(
    error: E,
    report_error: E,
    result: Result<(), E>,
    outcome: Result<(), E>,
    control: EngineControl,
)
    ensures
        next_task(CaptureTask::SetUp, Ok::<(), E>(()), control) is AnnounceReady,
        next_task(CaptureTask::SetUp, Err(error), control) == CaptureTask::AnnounceFailure(error),
        next_task(CaptureTask::AnnounceReady, Err(error), control) == CaptureTask::AnnounceFailure(
            error,
        ),
        next_task(CaptureTask::AnnounceFailure(error), Ok(()), control) == CaptureTask::Return(
            Err::<(), E>(error),
        ),
        next_task(CaptureTask::AnnounceFailure(error), Err(report_error), control)
            == CaptureTask::Return(Err::<(), E>(report_error)),
        next_task(CaptureTask::Return(result), outcome, control) == CaptureTask::Return(result),
{
}

/// The portal is asked for the pointer exactly as the caller wants it.
pub proof fn cursor_is_the_callers(options: Options)
    ensures
        next_launch(LaunchTask::Connect, options, LaunchOutcome::Done) matches
            LaunchTask::SelectCursor { show_cursor } && (show_cursor <==> options.show_cursor),
{
}

/// A pointer is asked for only right after connecting, and never where the
/// caller wants none; nor is it left out where the caller wants one.
pub proof fn cursor_is_never_anothers(task: LaunchTask, options: Options, outcome: LaunchOutcome)
    ensures
        next_launch(task, options, outcome) matches LaunchTask::SelectCursor { show_cursor } ==> task
            is Connect && outcome is Done && show_cursor == options.show_cursor,
{
}

/// The worker is spawned with the caller's options, for the node that the portal
/// gave, and only when it gave one.
pub proof fn worker_gets_the_callers_options(
    task: LaunchTask,
    options: Options,
    outcome: LaunchOutcome,
)
    ensures
        next_launch(task, options, outcome) is Spawn <==> task is CreateStream && outcome is Stream,
        next_launch(task, options, outcome) matches LaunchTask::Spawn { options: given, stream_id }
            ==> given.fps == options.fps && given.show_cursor == options.show_cursor && stream_id
            == outcome->node_id,
{
}

/// A launch goes from one step to the next only where the step did its part, and
/// ends in the step's own error where it did not; it ends well only on the
/// worker's word that its stream is ready. An end stands.
pub proof fn launches_go_step_by_step(task: LaunchTask, options: Options, outcome: LaunchOutcome)
    ensures
        ({
            let next = next_launch(task, options, outcome);
            &&& next is SelectCursor <==> task is Connect && outcome is Done
            &&& next is CreateStream <==> task is SelectCursor && outcome is Done
            &&& next is AwaitReady <==> task is Spawn
            &&& !(next is Connect)
            &&& task is Connect && !(outcome is Done) ==> next == LaunchTask::Finish(
                Err(LaunchError::NoConnection),
            )
            &&& task is SelectCursor && !(outcome is Done) ==> next == LaunchTask::Finish(
                Err(LaunchError::UnsupportedCursor),
            )
            &&& task is CreateStream && !(outcome is Stream) ==> next == LaunchTask::Finish(
                Err(LaunchError::NoStream),
            )
            &&& task is AwaitReady && !(outcome is Word) ==> next == LaunchTask::Finish(
                Err(LaunchError::NoAnswer),
            )
            &&& task is AwaitReady && outcome is Word && !outcome->ready ==> next
                == LaunchTask::Finish(Err(LaunchError::SetupFailed))
            &&& task is AwaitReady && outcome is Word && outcome->ready ==> next
                == LaunchTask::Finish(Ok(()))
            &&& task is Finish ==> next == task
        }),
{
}

/// Each error has its own text.
pub proof fn launch_errors_have_their_texts()
    ensures
        launch_message(LaunchError::NoConnection) == "Failed to create dbus connection"@,
        launch_message(LaunchError::UnsupportedCursor) == "Unsupported cursor mode"@,
        launch_message(LaunchError::NoStream) == "Failed to get screencast stream"@,
        launch_message(LaunchError::NoAnswer) == "Failed to receive"@,
        launch_message(LaunchError::SetupFailed) == "Failed to setup capturer"@,
{
}

/// What a plan comes to when it is carried out is what it says, with the frame's
/// fate added.
pub proof fn plans_are_carried_out(
    control: EngineControl,
    info: VideoInfoRaw,
    buffer: DequeuedView,
    now: SystemTime,
    kind: SendKind,
)
    ensures
        ({
            let (decided, plan) = planned(control, info, buffer, now);
            let (after, outcome) = processed(control, info, buffer, now, kind);
            &&& after.state == control.state
            &&& plan matches PlanView::Skip { requeue, notice } ==> after == decided
                && outcome.requeue == requeue && outcome.notice == notice
            &&& plan is Offer ==> decided == control && outcome.requeue && (after.should_exit
                <==> kind is Disconnected)
        }),
{
}

} // verus!
