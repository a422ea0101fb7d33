//! What holds of the engine as a whole, whatever happens to it and in
//! whatever order.
use std::time::SystemTime;
use vstd::prelude::*;

use crate::capturer::{next_launch, LaunchError, LaunchOutcome, LaunchTask};
use crate::channel::SendKind;
use crate::control::{state_changed, state_notice, CapturerState, EngineControl, Notice, StreamState};
use crate::format::{advertised, decodable, VideoFormat, SUPPORTED_VIDEO_FORMATS};
use crate::frame::FrameView;
use crate::negotiation::{
    asks_for, param_action, param_format, FormatParams, ListenerUserData, MediaSubtype, MediaType,
    Options, ParamAction, ParamEvent, ParamType, Rectangle, VideoInfoRaw,
};
use crate::process::{
    first_header, frame_extent, frame_in, logged, planned, processed, ran, BufferMeta,
    DequeuedView, PlanView, ProcessOutcome,
};
use crate::worker::{next_task, CaptureTask};

verus! {

/// What a stream's callbacks are told of.
pub enum StreamEvent {
    /// The stream changed state.
    State(StreamState),
    /// A buffer was ready, in the given format and at the given time, and its
    /// frame, if it made one, was sent with this result.
    Buffer { info: VideoInfoRaw, buffer: DequeuedView, now: SystemTime, sent: SendKind },
}

/// The control block after an event.
pub open spec fn after_event(control: EngineControl, event: StreamEvent) -> EngineControl {
    match event {
        StreamEvent::State(state) => state_changed(control, state),
        StreamEvent::Buffer { info, buffer, now, sent } => processed(
            control,
            info,
            buffer,
            now,
            sent,
        ).0,
    }
}

/// The notice that an event gives.
pub open spec fn event_notice(control: EngineControl, event: StreamEvent) -> Option<Notice> {
    match event {
        StreamEvent::State(state) => state_notice(state),
        StreamEvent::Buffer { info, buffer, now, sent } => processed(
            control,
            info,
            buffer,
            now,
            sent,
        ).1.notice,
    }
}

/// The control block after a run of events.
pub open spec fn after_events(control: EngineControl, events: Seq<StreamEvent>) -> EngineControl
    decreases events.len(),
{
    if events.len() == 0 {
        control
    } else {
        after_event(after_events(control, events.drop_last()), events.last())
    }
}

/// What an event hands to the channel, with how that ends; nothing, for most.
pub open spec fn event_log(control: EngineControl, event: StreamEvent) -> Seq<
    (FrameView, SendKind),
> {
    match event {
        StreamEvent::State(_) => Seq::empty(),
        StreamEvent::Buffer { info, buffer, now, sent } => logged(
            Seq::empty(),
            planned(control, info, buffer, now).1,
            sent,
        ),
    }
}

/// What a run of events hands to the channel, in order.
pub open spec fn events_log(control: EngineControl, events: Seq<StreamEvent>) -> Seq<
    (FrameView, SendKind),
>
    decreases events.len(),
{
    if events.len() == 0 {
        Seq::empty()
    } else {
        let before = events.drop_last();
        events_log(control, before) + event_log(after_events(control, before), events.last())
    }
}

/// Which events of a run hand something to the channel, in order.
pub open spec fn sending_events(control: EngineControl, events: Seq<StreamEvent>) -> Seq<int>
    decreases events.len(),
{
    if events.len() == 0 {
        Seq::empty()
    } else {
        let before = events.drop_last();
        if makes_frame(after_events(control, before), events.last()) {
            sending_events(control, before).push(before.len() as int)
        } else {
            sending_events(control, before)
        }
    }
}

/// The event is a buffer of which a frame is made: there are data in it, their
/// format can be decoded, and no exit is asked for.
pub open spec fn makes_frame(control: EngineControl, event: StreamEvent) -> bool {
    &&& !control.should_exit
    &&& event matches StreamEvent::Buffer { info, buffer: DequeuedView::Filled { n_datas, .. }, .. }
        && n_datas >= 1 && decodable(info.format)
}

/// The frame of such an event.
pub open spec fn frame_made(event: StreamEvent) -> FrameView {
    frame_in(event->info, event->now, event->buffer->data)
}

/// The event asks for an exit: the stream failed, a frame's receiver was found
/// gone, or a buffer with data came in a format that cannot be decoded.
pub open spec fn event_asks_for_exit(control: EngineControl, event: StreamEvent) -> bool {
    ||| event matches StreamEvent::State(state) && state is Error
    ||| makes_frame(control, event) && event->sent is Disconnected
    ||| {
        &&& !control.should_exit
        &&& event matches StreamEvent::Buffer {
            info,
            buffer: DequeuedView::Filled { n_datas, .. },
            ..
        } && n_datas >= 1 && !decodable(info.format)
    }
}

/// The control block that the event at `i` of a run meets.
pub open spec fn control_at(control: EngineControl, events: Seq<StreamEvent>, i: int) -> EngineControl {
    after_events(control, events.take(i))
}

/// The event at `i` of a run asks for an exit.
pub open spec fn asks_for_exit_at(control: EngineControl, events: Seq<StreamEvent>, i: int) -> bool {
    event_asks_for_exit(control_at(control, events, i), events[i])
}

/// A frame is made at the event at `i` of a run.
pub open spec fn makes_frame_at(control: EngineControl, events: Seq<StreamEvent>, i: int) -> bool {
    makes_frame(control_at(control, events, i), events[i])
}

/// Some event of a run asks for an exit.
pub open spec fn exit_asked_for(control: EngineControl, events: Seq<StreamEvent>) -> bool {
    exists|i: int| 0 <= i < events.len() && #[trigger] asks_for_exit_at(control, events, i)
}

/// A notice that frames are no longer taken in.
pub open spec fn is_exit_notice(notice: Option<Notice>) -> bool {
    notice matches Some(notice) && (notice is UnsupportedFormat || notice is ReceiverDisconnected)
}

/// How many notices of that kind a run of events gives.
pub open spec fn exit_notices(control: EngineControl, events: Seq<StreamEvent>) -> nat
    decreases events.len(),
{
    if events.len() == 0 {
        0
    } else {
        let before = events.drop_last();
        exit_notices(control, before) + if is_exit_notice(
            event_notice(after_events(control, before), events.last()),
        ) {
            1nat
        } else {
            0nat
        }
    }
}

/// A format is offered to PipeWire if and only if it can be decoded.
pub proof fn advertised_iff_decodable(format: VideoFormat)
    ensures
        advertised(format) <==> decodable(format),
{
    let formats = SUPPORTED_VIDEO_FORMATS@;
    assert(formats[0] == VideoFormat::RGB);
    assert(formats[1] == VideoFormat::RGBx);
    assert(formats[2] == VideoFormat::xBGR);
    assert(formats[3] == VideoFormat::BGRx);
}

/// A stream lets its peer pick exactly the formats that can be decoded.
pub proof fn offered_iff_decodable(params: FormatParams, options: Options, format: VideoFormat)
    requires
        asks_for(params, options),
    ensures
        params.offers(format) <==> decodable(format),
{
    let formats = seq![params.default_format] + params.alternatives@;
    advertised_iff_decodable(format);
    assert(formats[0] == params.default_format);
    if params.alternatives@.contains(format) {
        let i = params.alternatives@.index_of(format);
        assert(formats[i + 1] == format);
    }
    if formats.contains(format) {
        let i = formats.index_of(format);
        assert(i == 0 || params.alternatives@[i - 1] == format);
    }
}

/// Once a peer has picked one of the offered formats, no buffer is refused for
/// its format: with data in it, and no exit asked for, it becomes a frame.
pub proof fn offered_formats_make_frames(
    params: FormatParams,
    options: Options,
    control: EngineControl,
    info: VideoInfoRaw,
    metas: Seq<BufferMeta>,
    n_datas: u32,
    data: Seq<u8>,
    now: SystemTime,
)
    requires
        asks_for(params, options),
        params.offers(info.format),
        !control.should_exit,
        n_datas >= 1,
    ensures
        planned(control, info, DequeuedView::Filled { metas, n_datas, data }, now) == (
            control,
            PlanView::Offer(frame_in(info, now, data)),
        ),
{
    offered_iff_decodable(params, options, info.format);
}

/// A frame of an admitted size has just that size.
pub proof fn admitted_sizes_are_kept(params: FormatParams, options: Options, size: Rectangle)
    requires
        asks_for(params, options),
        params.admits(size),
    ensures
        frame_extent(size.width) == size.width,
        frame_extent(size.height) == size.height,
        frame_extent(size.width) > 0,
        frame_extent(size.height) > 0,
{
}

/// A buffer has at most one first header, so that its presentation time is
/// well determined.
pub proof fn first_header_is_unique(metas: Seq<BufferMeta>, i: int, j: int)
    requires
        first_header(metas, i),
        first_header(metas, j),
    ensures
        i == j,
{
}

/// While an exit is asked for, no buffer becomes a frame: each goes straight
/// back and nothing changes.
pub proof fn exiting_makes_no_frames(
    control: EngineControl,
    info: VideoInfoRaw,
    buffer: DequeuedView,
    now: SystemTime,
)
    requires
        control.should_exit,
    ensures
        ({
            let (after, plan) = planned(control, info, buffer, now);
            &&& after == control
            &&& plan matches PlanView::Skip { requeue, .. } && requeue
        }),
{
}

/// What was dequeued goes back to PipeWire, except a buffer without data that
/// comes while no exit is asked for.
pub proof fn buffers_go_back(
    control: EngineControl,
    info: VideoInfoRaw,
    buffer: DequeuedView,
    now: SystemTime,
    sent: SendKind,
)
    ensures
        processed(control, info, buffer, now, sent).1.requeue <==> (control.should_exit || !(buffer
            is Filled) || buffer->n_datas >= 1),
{
}

/// A full channel costs the frame and nothing else: no notice, no change.
pub proof fn full_channel_drops_silently(
    control: EngineControl,
    info: VideoInfoRaw,
    buffer: DequeuedView,
    now: SystemTime,
)
    requires
        planned(control, info, buffer, now).1 is Offer,
    ensures
        ({
            let (after, outcome) = processed(control, info, buffer, now, SendKind::Full);
            &&& after == control
            &&& outcome.notice is None
            &&& outcome.requeue
        }),
{
}

/// No event of the stream starts or stops a capturer, or takes back a request
/// to exit.
pub proof fn events_keep_state_and_exit(control: EngineControl, events: Seq<StreamEvent>)
    ensures
        after_events(control, events).state == control.state,
        control.should_exit ==> after_events(control, events).should_exit,
    decreases events.len(),
{
    if events.len() > 0 {
        events_keep_state_and_exit(control, events.drop_last());
    }
}

/// Frames stop being taken in with at most one notice, however many buffers
/// come after it; and with none if an exit was asked for before.
pub proof fn one_exit_notice(control: EngineControl, events: Seq<StreamEvent>)
    ensures
        exit_notices(control, events) <= 1,
        exit_notices(control, events) == 1 ==> after_events(control, events).should_exit,
        control.should_exit ==> exit_notices(control, events) == 0,
    decreases events.len(),
{
    if events.len() > 0 {
        one_exit_notice(control, events.drop_last());
        events_keep_state_and_exit(control, events.drop_last());
    }
}

/// What an event meets does not depend on the events after it.
proof fn control_at_prefix(control: EngineControl, events: Seq<StreamEvent>, i: int)
    requires
        0 <= i < events.len(),
    ensures
        i < events.len() - 1 ==> control_at(control, events.drop_last(), i) == control_at(
            control,
            events,
            i,
        ) && events.drop_last()[i] == events[i],
        i == events.len() - 1 ==> control_at(control, events, i) == after_events(
            control,
            events.drop_last(),
        ),
{
    if i < events.len() - 1 {
        assert(events.drop_last().take(i) == events.take(i));
    } else {
        assert(events.drop_last() == events.take(i));
    }
}

/// After an event an exit is asked for if and only if it was before, or the
/// event asks for one.
proof fn exit_after_event(control: EngineControl, event: StreamEvent)
    ensures
        after_event(control, event).should_exit <==> control.should_exit || event_asks_for_exit(
            control,
            event,
        ),
{
}

/// After a run of events an exit is asked for if and only if it was before, or
/// the stream failed, a receiver was found gone, or a format came that cannot
/// be decoded. Nothing that comes after takes it back.
pub proof fn exit_iff_asked_for(control: EngineControl, events: Seq<StreamEvent>)
    ensures
        after_events(control, events).should_exit <==> control.should_exit || exit_asked_for(
            control,
            events,
        ),
    decreases events.len(),
{
    if events.len() > 0 {
        let before = events.drop_last();
        let last = events.len() - 1;
        exit_iff_asked_for(control, before);
        exit_after_event(after_events(control, before), events.last());
        control_at_prefix(control, events, last);
        assert(asks_for_exit_at(control, events, last) == event_asks_for_exit(
            after_events(control, before),
            events.last(),
        ));
        assert forall|i: int| 0 <= i < last implies #[trigger] asks_for_exit_at(control, before, i)
            == asks_for_exit_at(control, events, i) by {
            control_at_prefix(control, events, i);
        }
        if exit_asked_for(control, events) {
            let i = choose|i: int|
                0 <= i < events.len() && #[trigger] asks_for_exit_at(control, events, i);
            assert(i < last ==> asks_for_exit_at(control, before, i));
        }
        if exit_asked_for(control, before) {
            let i = choose|i: int|
                0 <= i < before.len() && #[trigger] asks_for_exit_at(control, before, i);
            assert(asks_for_exit_at(control, events, i));
        }
    }
}

/// Processing a buffer is an event of the stream: it does to the control block,
/// says and hands to the channel what the event does.
pub proof fn processing_is_an_event(
    control: EngineControl,
    data: ListenerUserData,
    buffer: DequeuedView,
    now: SystemTime,
    control_after: EngineControl,
    data_after: ListenerUserData,
    outcome: ProcessOutcome,
)
    requires
        ran(control, data, buffer, now, control_after, data_after, outcome),
    ensures
        ({
            let sent = data_after.tx.log().last().1;
            let event = StreamEvent::Buffer { info: data.format, buffer, now, sent };
            &&& control_after == after_event(control, event)
            &&& outcome.notice == event_notice(control, event)
            &&& data_after.tx.log() == data.tx.log() + event_log(control, event)
            &&& data_after.tx.channel() == data.tx.channel()
        }),
{
}

/// An event hands its frame to the channel once, if it makes one, and nothing
/// otherwise.
pub proof fn one_attempt_per_frame(control: EngineControl, event: StreamEvent)
    ensures
        event_log(control, event) == if makes_frame(control, event) {
            seq![(frame_made(event), event->sent)]
        } else {
            Seq::<(FrameView, SendKind)>::empty()
        },
{
}

/// The entry `j` of a log is the frame of event `i`, made when its turn came.
pub open spec fn logs_event(
    control: EngineControl,
    events: Seq<StreamEvent>,
    log: Seq<(FrameView, SendKind)>,
    j: int,
    i: int,
) -> bool {
    &&& 0 <= i < events.len()
    &&& makes_frame_at(control, events, i)
    &&& log[j] == (frame_made(events[i]), events[i]->sent)
}

/// What a run of events hands to the channel is the frames it makes, in the
/// order in which they are made, each once: frames may be dropped by the
/// channel, and are never reordered or duplicated.
pub proof fn frames_keep_their_order(control: EngineControl, events: Seq<StreamEvent>)
    ensures
        ({
            let log = events_log(control, events);
            let senders = sending_events(control, events);
            &&& log.len() == senders.len()
            &&& forall|j: int, k: int|
                0 <= j < k < senders.len() ==> #[trigger] senders[j] < #[trigger] senders[k]
            &&& forall|j: int|
                0 <= j < senders.len() ==> logs_event(
                    control,
                    events,
                    log,
                    j,
                    #[trigger] senders[j],
                )
            &&& forall|i: int|
                0 <= i < events.len() && #[trigger] makes_frame_at(control, events, i)
                    ==> senders.contains(i)
        }),
    decreases events.len(),
{
    if events.len() > 0 {
        let before = events.drop_last();
        let last = events.len() - 1;
        let event = events.last();
        frames_keep_their_order(control, before);
        one_attempt_per_frame(after_events(control, before), event);
        control_at_prefix(control, events, last);
        let earlier_log = events_log(control, before);
        let log = events_log(control, events);
        let earlier = sending_events(control, before);
        let senders = sending_events(control, events);
        assert forall|i: int| 0 <= i < last implies #[trigger] makes_frame_at(control, before, i)
            == makes_frame_at(control, events, i) && before[i] == events[i] by {
            control_at_prefix(control, events, i);
        }
        assert forall|j: int| 0 <= j < senders.len() implies logs_event(
            control,
            events,
            log,
            j,
            #[trigger] senders[j],
        ) by {
            if j < earlier.len() {
                assert(senders[j] == earlier[j]);
                assert(logs_event(control, before, earlier_log, j, earlier[j]));
                assert(makes_frame_at(control, before, earlier[j]));
            }
        }
        assert forall|j: int, k: int| 0 <= j < k < senders.len() implies #[trigger] senders[j]
            < #[trigger] senders[k] by {
            assert(senders[j] == earlier[j]);
            assert(logs_event(control, before, earlier_log, j, earlier[j]));
        }
        assert forall|i: int|
            0 <= i < events.len() && #[trigger] makes_frame_at(control, events, i) implies
            senders.contains(i) by {
            if i < last {
                assert(makes_frame_at(control, before, i));
                assert(earlier.contains(i));
                let j = earlier.index_of(i);
                assert(senders[j] == i);
            } else {
                assert(senders[senders.len() - 1] == i);
            }
        }
    }
}

/// One call that processed a buffer: what it met, and what it left.
pub struct Call {
    pub control: EngineControl,
    pub data: ListenerUserData,
    pub buffer: DequeuedView,
    pub now: SystemTime,
    pub control_after: EngineControl,
    pub data_after: ListenerUserData,
    pub outcome: ProcessOutcome,
}

impl Call {
    pub open spec fn happened(self) -> bool {
        ran(
            self.control,
            self.data,
            self.buffer,
            self.now,
            self.control_after,
            self.data_after,
            self.outcome,
        )
    }

    /// What the call makes of its buffer.
    pub open spec fn plan(self) -> PlanView {
        planned(self.control, self.data.format, self.buffer, self.now).1
    }
}

/// Calls on one listener, one after the other. Anything may happen to the
/// control block and the format in between, but nothing else sends.
pub open spec fn in_turn(calls: Seq<Call>) -> bool {
    &&& forall|i: int| 0 <= i < calls.len() ==> (#[trigger] calls[i]).happened()
    &&& forall|i: int, j: int|
        0 <= i && j == i + 1 && j < calls.len() ==> (#[trigger] calls[i]).data_after.tx == (
        #[trigger] calls[j]).data.tx
}

/// The frames that calls make, in order, with how sending them ended.
pub open spec fn frames_of(calls: Seq<Call>) -> Seq<(FrameView, SendKind)>
    decreases calls.len(),
{
    if calls.len() == 0 {
        Seq::empty()
    } else {
        logged(
            frames_of(calls.drop_last()),
            calls.last().plan(),
            calls.last().data_after.tx.log().last().1,
        )
    }
}

/// Calls hand to the channel the frames they make, in call order, at most one
/// each, and nothing else; and it is one channel all along.
pub proof fn calls_send_in_turn(calls: Seq<Call>)
    requires
        in_turn(calls),
        calls.len() >= 1,
    ensures
        calls.last().data_after.tx.log() == calls[0].data.tx.log() + frames_of(calls),
        frames_of(calls).len() <= calls.len(),
        calls.last().data_after.tx.channel() == calls[0].data.tx.channel(),
    decreases calls.len(),
{
    let before = calls.drop_last();
    let last = calls.len() - 1;
    assert(calls[last].happened());
    if before.len() == 0 {
        assert(frames_of(before) == Seq::<(FrameView, SendKind)>::empty());
    } else {
        assert(forall|i: int| 0 <= i < before.len() ==> before[i] == #[trigger] calls[i]);
        assert(in_turn(before));
        calls_send_in_turn(before);
        assert(calls[last - 1].data_after.tx == calls[last].data.tx);
    }
    assert(calls.last().data_after.tx.log() =~= calls[0].data.tx.log() + frames_of(calls));
}

/// What the channel took, in order. What the consumer receives is a prefix of it.
pub open spec fn taken(log: Seq<(FrameView, SendKind)>) -> Seq<FrameView>
    decreases log.len(),
{
    if log.len() == 0 {
        Seq::empty()
    } else if log.last().1 is Sent {
        taken(log.drop_last()).push(log.last().0)
    } else {
        taken(log.drop_last())
    }
}

/// Which entries of a log the channel took.
pub open spec fn taken_at(log: Seq<(FrameView, SendKind)>) -> Seq<int>
    decreases log.len(),
{
    if log.len() == 0 {
        Seq::empty()
    } else if log.last().1 is Sent {
        taken_at(log.drop_last()).push(log.len() - 1)
    } else {
        taken_at(log.drop_last())
    }
}

/// What the channel took is a subsequence of what was handed to the channel.
pub proof fn taken_in_order(log: Seq<(FrameView, SendKind)>)
    ensures
        ({
            let at = taken_at(log);
            &&& taken(log).len() == at.len()
            &&& forall|j: int, k: int| 0 <= j < k < at.len() ==> #[trigger] at[j] < #[trigger] at[k]
            &&& forall|j: int|
                0 <= j < at.len() ==> 0 <= #[trigger] at[j] < log.len() && taken(log)[j]
                    == log[at[j]].0
        }),
    decreases log.len(),
{
    if log.len() > 0 {
        taken_in_order(log.drop_last());
    }
}

/// While an exit is asked for, nothing is handed to the channel, whatever comes.
pub proof fn exiting_sends_nothing(control: EngineControl, events: Seq<StreamEvent>)
    requires
        control.should_exit,
    ensures
        events_log(control, events) == Seq::<(FrameView, SendKind)>::empty(),
    decreases events.len(),
{
    if events.len() > 0 {
        exiting_sends_nothing(control, events.drop_last());
        events_keep_state_and_exit(control, events.drop_last());
    }
}

/// A buffer with data in a format that can be decoded, ready after the
/// receiver has gone.
pub open spec fn finds_receiver_gone(event: StreamEvent) -> bool {
    &&& event matches StreamEvent::Buffer { info, buffer: DequeuedView::Filled { n_datas, .. }, .. }
        && n_datas >= 1 && decodable(info.format)
    &&& event->sent is Disconnected
}

/// Once the receiver is gone, the first buffer finds that out, and says so; the
/// later ones are not sent and say nothing; and each goes back to PipeWire.
pub proof fn gone_receiver_is_found_once(control: EngineControl, events: Seq<StreamEvent>)
    requires
        !control.should_exit,
        events.len() >= 1,
        forall|i: int| 0 <= i < events.len() ==> finds_receiver_gone(#[trigger] events[i]),
    ensures
        after_events(control, events) == control.with_exit(true),
        events_log(control, events) == seq![(frame_made(events[0]), SendKind::Disconnected)],
        exit_notices(control, events) == 1,
        forall|i: int|
            0 <= i < events.len() ==> event_notice(
                control_at(control, events, i),
                #[trigger] events[i],
            ) == (if i == 0 {
                Some(Notice::ReceiverDisconnected)
            } else {
                None::<Notice>
            }),
        forall|i: int|
            0 <= i < events.len() ==> event_requeues(
                control_at(control, events, i),
                #[trigger] events[i],
            ),
    decreases events.len(),
{
    let before = events.drop_last();
    let last = events.len() - 1;
    control_at_prefix(control, events, last);
    assert(finds_receiver_gone(events[last]));
    if before.len() == 0 {
        assert(after_events(control, before) == control);
        assert(exit_notices(control, before) == 0);
        assert(events_log(control, before).len() == 0);
    } else {
        assert(forall|i: int| 0 <= i < before.len() ==> before[i] == #[trigger] events[i]);
        gone_receiver_is_found_once(control, before);
    }
    assert forall|i: int| 0 <= i < events.len() implies event_notice(
        control_at(control, events, i),
        #[trigger] events[i],
    ) == (if i == 0 {
        Some(Notice::ReceiverDisconnected)
    } else {
        None::<Notice>
    }) && event_requeues(control_at(control, events, i), events[i]) by {
        control_at_prefix(control, events, i);
        if i < last {
            assert(events[i] == before[i]);
        }
    }
}

/// Whether what an event dequeued, if anything, goes back to PipeWire.
pub open spec fn event_requeues(control: EngineControl, event: StreamEvent) -> bool {
    event matches StreamEvent::Buffer { info, buffer, now, sent } ==> processed(
        control,
        info,
        buffer,
        now,
        sent,
    ).1.requeue
}

/// A buffer's metadata do not matter: two buffers that differ in nothing else
/// lead to the same frame, at the time that the clock shows, and to the same
/// end.
pub proof fn metadata_do_not_matter(
    control: EngineControl,
    data: ListenerUserData,
    metas: Seq<BufferMeta>,
    other_metas: Seq<BufferMeta>,
    n_datas: u32,
    bytes: Seq<u8>,
    now: SystemTime,
    control_after: EngineControl,
    data_after: ListenerUserData,
    outcome: ProcessOutcome,
)
    ensures
        ran(
            control,
            data,
            DequeuedView::Filled { metas, n_datas, data: bytes },
            now,
            control_after,
            data_after,
            outcome,
        ) <==> ran(
            control,
            data,
            DequeuedView::Filled { metas: other_metas, n_datas, data: bytes },
            now,
            control_after,
            data_after,
            outcome,
        ),
{
}

/// A worker that is waiting for a start or iterating.
pub open spec fn has_stream<E>(task: CaptureTask<E>) -> bool {
    ||| task is Sleep
    ||| task is Iterate
}

/// A request to stop makes a worker that has a stream return, without an error,
/// at its next look, whatever the stream does in between: stopping does not
/// depend on the consumer.
pub proof fn stop_ends_the_worker<E>(
    control: EngineControl,
    events: Seq<StreamEvent>,
    task: CaptureTask<E>,
    outcome: Result<(), E>,
)
    requires
        control.state == CapturerState::Stopping,
        has_stream(task) || (task is AnnounceReady && outcome is Ok),
    ensures
        next_task(task, outcome, after_events(control, events)) == CaptureTask::<E>::Return(Ok(())),
{
    events_keep_state_and_exit(control, events);
}

/// A request to exit makes a worker that has a stream return, without an error,
/// at its next look, once frames are wanted.
pub proof fn exit_ends_the_worker<E>(
    control: EngineControl,
    events: Seq<StreamEvent>,
    task: CaptureTask<E>,
    outcome: Result<(), E>,
)
    requires
        control.should_exit,
        control.state == CapturerState::Capturing,
        has_stream(task) || (task is AnnounceReady && outcome is Ok),
    ensures
        next_task(task, outcome, after_events(control, events)) == CaptureTask::<E>::Return(Ok(())),
{
    events_keep_state_and_exit(control, events);
}

/// What asks for an exit while the stream connects, or before frames are wanted,
/// be it an error, a receiver that is gone or a format, is not forgotten: when
/// frames are wanted, the worker returns without having let PipeWire work at all.
pub proof fn early_exits_survive_the_start<E>(
    control: EngineControl,
    events: Seq<StreamEvent>,
    task: CaptureTask<E>,
    outcome: Result<(), E>,
)
    requires
        exit_asked_for(control.with_exit(false), events),
        task is Sleep || (task is AnnounceReady && outcome is Ok),
    ensures
        ({
            let begun = control.with_exit(false);
            let started = after_events(begun, events).with_state(CapturerState::Capturing);
            next_task(task, outcome, started) == CaptureTask::<E>::Return(Ok(()))
        }),
{
    exit_iff_asked_for(control.with_exit(false), events);
}

/// Asking for frames sets a waiting worker to work, unless an exit was asked for.
pub proof fn start_sets_to_work<E>(control: EngineControl, outcome: Result<(), E>, millis: u64)
    requires
        !control.should_exit,
    ensures
        next_task(
            CaptureTask::Sleep { millis },
            outcome,
            control.with_state(CapturerState::Capturing),
        ) is Iterate,
{
}

/// Whatever a former capturer left behind, a worker launched afresh waits for
/// its own start.
pub proof fn launch_waits_for_start<E>(
    stale: EngineControl,
    events: Seq<StreamEvent>,
    outcome: Result<(), E>,
    task: CaptureTask<E>,
)
    requires
        task is Sleep || (task is AnnounceReady && outcome is Ok),
    ensures
        ({
            let launched = stale.with_state(CapturerState::Idle).with_exit(false);
            next_task(task, outcome, after_events(launched, events)) is Sleep
        }),
{
    events_keep_state_and_exit(stale.with_state(CapturerState::Idle).with_exit(false), events);
}

/// What a worker is told from outside at one of its looks: how its task ended,
/// and the control block.
pub type Look<E> = (Result<(), E>, EngineControl);

/// The task a worker is at after a number of looks.
pub open spec fn after_looks<E>(task: CaptureTask<E>, looks: Seq<Look<E>>) -> CaptureTask<E>
    decreases looks.len(),
{
    if looks.len() == 0 {
        task
    } else {
        next_task(after_looks(task, looks.drop_last()), looks.last().0, looks.last().1)
    }
}

/// A worker that has a stream never reports a failure any more: it goes on
/// until it returns, and then without an error.
pub proof fn streams_end_without_error<E>(task: CaptureTask<E>, looks: Seq<Look<E>>)
    requires
        has_stream(task),
    ensures
        has_stream(after_looks(task, looks)) || after_looks(task, looks) == CaptureTask::<
            E,
        >::Return(Ok(())),
    decreases looks.len(),
{
    if looks.len() > 0 {
        streams_end_without_error(task, looks.drop_last());
    }
}

/// Once a worker is to return, that stands.
pub proof fn return_stands<E>(result: Result<(), E>, looks: Seq<Look<E>>)
    ensures
        after_looks(CaptureTask::Return(result), looks) == CaptureTask::Return(result),
    decreases looks.len(),
{
    if looks.len() > 0 {
        return_stands(result, looks.drop_last());
    }
}

/// A worker gets to a stream, or returns without an error, only if setting up
/// and announcing both succeeded.
pub proof fn only_ready_workers_capture<E>(looks: Seq<Look<E>>)
    requires
        ({
            let task = after_looks(CaptureTask::<E>::SetUp, looks);
            has_stream(task) || task == CaptureTask::<E>::Return(Ok(()))
        }),
    ensures
        looks.len() >= 2,
        looks[0].0 is Ok,
        looks[1].0 is Ok,
    decreases looks.len(),
{
    reveal_with_fuel(after_looks, 3);
    let before = looks.drop_last();
    if looks.len() > 2 {
        before_ready(before);
        only_ready_workers_capture(before);
    }
}

/// Setting up and announcing are the first two things a worker does.
proof fn before_ready<E>(looks: Seq<Look<E>>)
    requires
        looks.len() >= 2,
    ensures
        !(after_looks(CaptureTask::<E>::SetUp, looks) is SetUp),
        !(after_looks(CaptureTask::<E>::SetUp, looks) is AnnounceReady),
    decreases looks.len(),
{
    reveal_with_fuel(after_looks, 3);
    if looks.len() > 2 {
        before_ready(looks.drop_last());
    }
}

/// What a launch comes to, when its steps give these answers: whether the bus
/// connected, whether the portal took the cursor mode, the stream it gave, and
/// the worker's word.
pub open spec fn launch_result(
    options: Options,
    connected: LaunchOutcome,
    cursor: LaunchOutcome,
    stream: LaunchOutcome,
    spawned: LaunchOutcome,
    word: LaunchOutcome,
) -> LaunchTask {
    let task = next_launch(LaunchTask::Connect, options, connected);
    let task = next_launch(task, options, cursor);
    let task = next_launch(task, options, stream);
    let task = next_launch(task, options, spawned);
    next_launch(task, options, word)
}

/// A launch ends in a capturer exactly when every step did its part, and
/// otherwise in the error of the first step that did not.
pub proof fn launch_ends_in_first_failure(
    options: Options,
    connected: LaunchOutcome,
    cursor: LaunchOutcome,
    stream: LaunchOutcome,
    spawned: LaunchOutcome,
    word: LaunchOutcome,
)
    ensures
        launch_result(options, connected, cursor, stream, spawned, word) == LaunchTask::Finish(
            if !(connected is Done) {
                Err(LaunchError::NoConnection)
            } else if !(cursor is Done) {
                Err(LaunchError::UnsupportedCursor)
            } else if !(stream is Stream) {
                Err(LaunchError::NoStream)
            } else if !(word is Word) {
                Err(LaunchError::NoAnswer)
            } else if !word->ready {
                Err(LaunchError::SetupFailed)
            } else {
                Ok(())
            },
        ),
{
}

/// A parameter that changed, followed to its end: what became of it, and the
/// format then in effect. `media` and `parsed` are what looking into it gives.
pub open spec fn follow_param(
    format: VideoInfoRaw,
    id: ParamType,
    present: bool,
    media: Option<(MediaType, MediaSubtype)>,
    parsed: Option<VideoInfoRaw>,
) -> (ParamAction, VideoInfoRaw) {
    let changed = ParamEvent::Changed { id, present };
    let classified = ParamEvent::Classified(media);
    let read = ParamEvent::Parsed(parsed);
    if !(param_action(changed) is Classify) {
        (param_action(changed), param_format(format, changed))
    } else if !(param_action(classified) is Parse) {
        (param_action(classified), param_format(param_format(format, changed), classified))
    } else {
        (
            param_action(read),
            param_format(param_format(param_format(format, changed), classified), read),
        )
    }
}

/// The format in effect changes only with a format parameter that is present,
/// says raw video and parses; the engine gives up only on one that says raw
/// video and does not parse; anything else is ignored.
pub proof fn only_raw_video_is_negotiated(
    format: VideoInfoRaw,
    id: ParamType,
    present: bool,
    media: Option<(MediaType, MediaSubtype)>,
    parsed: Option<VideoInfoRaw>,
)
    ensures
        ({
            let (action, after) = follow_param(format, id, present, media, parsed);
            let raw_video = present && id == ParamType::Format && media == Some(
                (MediaType::Video, MediaSubtype::Raw),
            );
            &&& action is Accept <==> raw_video && parsed is Some
            &&& action is Abort <==> raw_video && parsed is None
            &&& action is Ignore <==> !raw_video
            &&& action is Accept ==> Some(after) == parsed
            &&& !(action is Accept) ==> after == format
        }),
{
}

} // verus!
