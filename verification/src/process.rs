//! From a dequeued buffer to a frame in the consumer's channel.
use std::time::SystemTime;
use vstd::prelude::*;

use crate::channel::SendKind;
use crate::control::{EngineControl, Notice};
use crate::format::decodable;
use crate::frame::{video_frame_for, Frame, FrameView};
use crate::negotiation::{ListenerUserData, VideoInfoRaw};

verus! {

/// A block of metadata that came with a buffer.
#[derive(Clone, Copy, Debug, PartialEq, Eq, Structural)]
pub enum BufferMeta {
    /// A header, with its presentation time in nanoseconds.
    Header { pts: i64 },
    /// Anything else, by PipeWire's number for it.
    Other { type_: u32 },
}

/// The header at `i` is the first one.
pub open spec fn first_header(metas: Seq<BufferMeta>, i: int) -> bool {
    &&& 0 <= i < metas.len()
    &&& metas[i] is Header
    &&& forall|j: int| 0 <= j < i ==> !(#[trigger] metas[j] is Header)
}

/// The presentation time of a buffer: that of its first header, or 0 when it
/// has none.
pub fn get_timestamp(metas: &[BufferMeta]) -> (pts: i64)
    ensures
        forall|i: int| #[trigger]
            first_header(metas@, i) ==> metas@[i] == (BufferMeta::Header { pts }),
        (forall|i: int| 0 <= i < metas@.len() ==> !(#[trigger] metas@[i] is Header)) ==> pts == 0,
        forall|i: int|
            0 <= i < metas@.len() && (#[trigger] metas@[i] is Header) && (forall|j: int|
                0 <= j < i ==> !(#[trigger] metas@[j] is Header)) ==> metas@[i]->pts == pts,
{
    let mut i: usize = 0;
    while i < metas.len()
        invariant
            0 <= i <= metas@.len(),
            forall|j: int| 0 <= j < i ==> !(#[trigger] metas@[j] is Header),
        decreases metas@.len() - i,
    {
        if let BufferMeta::Header { pts } = metas[i] {
            assert(first_header(metas@, i as int));
            return pts;
        }
        i += 1;
    }
    0
}

/// What PipeWire handed out when asked for a buffer.
#[derive(Clone, Copy, Debug)]
pub enum Dequeued<'a> {
    /// No buffer.
    Nothing,
    /// A buffer with nothing behind it.
    Hollow,
    Filled {
        metas: &'a [BufferMeta],
        /// How many blocks of data the buffer has.
        n_datas: u32,
        /// The first block, whole; empty when there is none.
        data: &'a [u8],
    },
}

/// A [`Dequeued`] as a value.
pub enum DequeuedView {
    Nothing,
    Hollow,
    Filled { metas: Seq<BufferMeta>, n_datas: u32, data: Seq<u8> },
}

impl<'a> View for Dequeued<'a> {
    type V = DequeuedView;

    open spec fn view(&self) -> DequeuedView {
        match *self {
            Dequeued::Nothing => DequeuedView::Nothing,
            Dequeued::Hollow => DequeuedView::Hollow,
            Dequeued::Filled { metas, n_datas, data } => DequeuedView::Filled {
                metas: metas@,
                n_datas,
                data: data@,
            },
        }
    }
}

/// What is to become of a dequeued buffer.
#[derive(Debug)]
pub enum BufferPlan {
    /// No frame comes of it.
    Skip { requeue: bool, notice: Option<Notice> },
    /// This frame is to be sent, and the buffer goes back to PipeWire.
    Offer(Frame),
}

/// A [`BufferPlan`] as a value.
pub enum PlanView {
    Skip { requeue: bool, notice: Option<Notice> },
    Offer(FrameView),
}

impl View for BufferPlan {
    type V = PlanView;

    open spec fn view(&self) -> PlanView {
        match *self {
            BufferPlan::Skip { requeue, notice } => PlanView::Skip { requeue, notice },
            BufferPlan::Offer(frame) => PlanView::Offer(frame@),
        }
    }
}

/// A size in pixels as a frame holds it: past the largest `i32` it wraps round
/// to negative.
pub open spec fn frame_extent(pixels: u32) -> i32 {
    if pixels <= i32::MAX {
        pixels as i32
    } else {
        (pixels - 0x1_0000_0000) as i32
    }
}

/// The frame that a block of data makes in the settled format.
pub open spec fn frame_in(info: VideoInfoRaw, display_time: SystemTime, data: Seq<u8>) -> FrameView {
    FrameView {
        format: info.format,
        display_time,
        width: frame_extent(info.size.width),
        height: frame_extent(info.size.height),
        pixels: data,
    }
}

/// The notice, if the exit flag was not up already.
pub open spec fn once(control: EngineControl, notice: Notice) -> Option<Notice> {
    if control.should_exit {
        None
    } else {
        Some(notice)
    }
}

/// Whether a dequeued buffer is looked into: it has data, and the worker is not
/// to exit.
pub open spec fn looks_into(control: EngineControl, buffer: DequeuedView) -> bool {
    &&& !control.should_exit
    &&& buffer is Filled
    &&& buffer->n_datas >= 1
}

/// What the data of a buffer come to, and the control block after that has been
/// decided.
pub open spec fn framed(
    control: EngineControl,
    info: VideoInfoRaw,
    data: Seq<u8>,
    display_time: SystemTime,
) -> (EngineControl, PlanView) {
    if decodable(info.format) {
        (control, PlanView::Offer(frame_in(info, display_time, data)))
    } else {
        (
            control.with_exit(true),
            PlanView::Skip {
                requeue: true,
                notice: once(control, Notice::UnsupportedFormat(info.format)),
            },
        )
    }
}

/// What a dequeued buffer comes to, and the control block after that has been
/// decided. While the worker is to exit, a buffer goes straight back; one
/// without data is not given back.
pub open spec fn planned(
    control: EngineControl,
    info: VideoInfoRaw,
    buffer: DequeuedView,
    display_time: SystemTime,
) -> (EngineControl, PlanView) {
    match buffer {
        DequeuedView::Nothing => (
            control,
            PlanView::Skip { requeue: true, notice: Some(Notice::OutOfBuffers) },
        ),
        DequeuedView::Hollow => (control, PlanView::Skip { requeue: true, notice: None }),
        DequeuedView::Filled { data, .. } => if looks_into(control, buffer) {
            framed(control, info, data, display_time)
        } else {
            (control, PlanView::Skip { requeue: control.should_exit, notice: None })
        },
    }
}

/// What the outcome of sending does to the control block.
pub open spec fn settled(control: EngineControl, kind: SendKind) -> EngineControl {
    if kind is Disconnected {
        control.with_exit(true)
    } else {
        control
    }
}

/// What the outcome of sending is worth saying.
pub open spec fn send_notice(control: EngineControl, kind: SendKind) -> Option<Notice> {
    if kind is Disconnected {
        once(control, Notice::ReceiverDisconnected)
    } else {
        None
    }
}

/// What is left to do about a buffer.
#[derive(Debug, PartialEq, Eq)]
pub struct ProcessOutcome {
    /// Whether PipeWire gets back what it handed out.
    pub requeue: bool,
    pub notice: Option<Notice>,
}

/// Where a buffer leads when sending its frame, if one is sent, ends in `kind`.
pub open spec fn processed(
    control: EngineControl,
    info: VideoInfoRaw,
    buffer: DequeuedView,
    display_time: SystemTime,
    kind: SendKind,
) -> (EngineControl, ProcessOutcome) {
    let (control, plan) = planned(control, info, buffer, display_time);
    match plan {
        PlanView::Skip { requeue, notice } => (control, ProcessOutcome { requeue, notice }),
        PlanView::Offer(_) => (
            settled(control, kind),
            ProcessOutcome { requeue: true, notice: send_notice(control, kind) },
        ),
    }
}

/// The log of a sender after a plan was carried out, where sending, if there
/// was any, ended in `kind`.
pub open spec fn logged(
    log: Seq<(FrameView, SendKind)>,
    plan: PlanView,
    kind: SendKind,
) -> Seq<(FrameView, SendKind)> {
    match plan {
        PlanView::Skip { .. } => log,
        PlanView::Offer(frame) => log.push((frame, kind)),
    }
}

/// A buffer was processed at a time: its frame, if it makes one, was handed to
/// the channel once, nothing else was, and the rest follows from how that
/// ended.
pub open spec fn ran(
    control: EngineControl,
    data: ListenerUserData,
    buffer: DequeuedView,
    display_time: SystemTime,
    control_after: EngineControl,
    data_after: ListenerUserData,
    outcome: ProcessOutcome,
) -> bool {
    let kind = data_after.tx.log().last().1;
    &&& (control_after, outcome) == processed(control, data.format, buffer, display_time, kind)
    &&& data_after.tx.log() == logged(
        data.tx.log(),
        planned(control, data.format, buffer, display_time).1,
        kind,
    )
    &&& data_after.tx.channel() == data.tx.channel()
    &&& data_after.format == data.format
}

/// Converts a size in pixels to a frame's, wrapping.
fn extent(pixels: u32) -> (r: i32)
    ensures
        r == frame_extent(pixels),
{
    proof {
        assert(pixels <= 0x7fff_ffff ==> (pixels as i32) == pixels) by (bit_vector);
        assert(pixels > 0x7fff_ffff ==> (pixels as i32) == pixels - 0x1_0000_0000) by (bit_vector);
    }
    #[verifier::truncate]
    let r: i32 = pixels as i32;
    r
}

/// Takes a first look at what was dequeued: the data to make a frame of, or what
/// is left to do where there is nothing to look into.
fn inspect<'a>(control: &EngineControl, buffer: Dequeued<'a>) -> (r: Result<
    &'a [u8],
    ProcessOutcome,
>)
    ensures
        r is Ok <==> looks_into(*control, buffer@),
        r matches Ok(data) ==> buffer@->data == data@,
        r matches Err(outcome) ==> forall|info: VideoInfoRaw, display_time: SystemTime| #[trigger]
            planned(*control, info, buffer@, display_time) == (
                *control,
                PlanView::Skip { requeue: outcome.requeue, notice: outcome.notice },
            ),
{
    match buffer {
        Dequeued::Nothing => {
            Err(ProcessOutcome { requeue: true, notice: Some(Notice::OutOfBuffers) })
        },
        Dequeued::Hollow => Err(ProcessOutcome { requeue: true, notice: None }),
        Dequeued::Filled { metas, n_datas, data } => {
            if control.should_exit {
                return Err(ProcessOutcome { requeue: true, notice: None });
            }
            // The presentation time counts from an arbitrary reference, while a
            // frame holds wall-clock time: it is read, and not used yet.
            let _timestamp: i64 = get_timestamp(metas);
            if n_datas < 1 {
                return Err(ProcessOutcome { requeue: false, notice: None });
            }
            Ok(data)
        },
    }
}

/// Makes a frame of a copy of the data, or asks for an exit where their format
/// cannot be decoded.
fn plan_frame(
    control: &mut EngineControl,
    info: &VideoInfoRaw,
    data: &[u8],
    display_time: SystemTime,
) -> (plan: BufferPlan)
    ensures
        (*final(control), plan@) == framed(*old(control), *info, data@, display_time),
        plan matches BufferPlan::Offer(frame) ==> frame@.format == info.format && frame@.display_time
            == display_time && frame@.pixels == data@,
{
    let frame_data: Vec<u8> = vstd::slice::slice_to_vec(data);
    match video_frame_for(
        info.format,
        display_time,
        extent(info.size.width),
        extent(info.size.height),
        frame_data,
    ) {
        Some(video_frame) => BufferPlan::Offer(Frame::Video(video_frame)),
        None => {
            let was_raised = control.raise_exit();
            let notice = if was_raised {
                None
            } else {
                Some(Notice::UnsupportedFormat(info.format))
            };
            BufferPlan::Skip { requeue: true, notice }
        },
    }
}

/// Decides what is to become of a dequeued buffer, and copies its data when a
/// frame is to be made of them.
pub fn plan_buffer(
    control: &mut EngineControl,
    info: &VideoInfoRaw,
    buffer: Dequeued,
    display_time: SystemTime,
) -> (plan: BufferPlan)
    ensures
        (*final(control), plan@) == planned(*old(control), *info, buffer@, display_time),
        plan matches BufferPlan::Offer(frame) ==> frame@.format == info.format && frame@.display_time
            == display_time && (buffer matches Dequeued::Filled { data, .. } && frame@.pixels == data@),
{
    match inspect(control, buffer) {
        Ok(data) => plan_frame(control, info, data, display_time),
        Err(outcome) => BufferPlan::Skip { requeue: outcome.requeue, notice: outcome.notice },
    }
}

/// Takes note of how sending a frame ended: a full channel drops the frame
/// silently, a receiver that is gone asks the worker to exit.
pub fn settle_send(control: &mut EngineControl, kind: SendKind) -> (notice: Option<Notice>)
    ensures
        *final(control) == settled(*old(control), kind),
        notice == send_notice(*old(control), kind),
        final(control).state == old(control).state,
        kind is Disconnected ==> final(control).should_exit && (if old(control).should_exit {
            notice is None
        } else {
            notice == Some(Notice::ReceiverDisconnected)
        }),
        !(kind is Disconnected) ==> *final(control) == *old(control) && notice is None,
{
    if let SendKind::Disconnected = kind {
        if !control.raise_exit() {
            return Some(Notice::ReceiverDisconnected);
        }
    }
    None
}

/// Carries out a plan: sends the frame, if there is one, without ever blocking.
fn carry_out(control: &mut EngineControl, user_data: &mut ListenerUserData, plan: BufferPlan) -> (
outcome: ProcessOutcome)
    ensures
        ({
            let kind = final(user_data).tx.log().last().1;
            &&& final(user_data).tx.log() == logged(old(user_data).tx.log(), plan@, kind)
            &&& match plan@ {
                PlanView::Skip { requeue, notice } => *final(control) == *old(control) && outcome
                    == (ProcessOutcome { requeue, notice }),
                PlanView::Offer(_) => *final(control) == settled(*old(control), kind) && outcome
                    == (ProcessOutcome {
                    requeue: true,
                    notice: send_notice(*old(control), kind),
                }),
            }
        }),
        final(user_data).tx.channel() == old(user_data).tx.channel(),
        final(user_data).format == old(user_data).format,
        final(user_data).clock == old(user_data).clock,
{
    match plan {
        BufferPlan::Skip { requeue, notice } => ProcessOutcome { requeue, notice },
        BufferPlan::Offer(frame) => {
            let kind = user_data.tx.try_send(frame);
            let notice = settle_send(control, kind);
            ProcessOutcome { requeue: true, notice }
        },
    }
}

/// Makes a frame of a dequeued buffer and sends it, without ever blocking.
///
/// How sending ends is up to the consumer; the rest follows from it.
pub fn process_buffer(
    control: &mut EngineControl,
    user_data: &mut ListenerUserData,
    buffer: Dequeued,
    display_time: SystemTime,
) -> (outcome: ProcessOutcome)
    ensures
        ran(
            *old(control),
            *old(user_data),
            buffer@,
            display_time,
            *final(control),
            *final(user_data),
            outcome,
        ),
        final(user_data).clock == old(user_data).clock,
{
    let plan = plan_buffer(control, &user_data.format, buffer, display_time);
    carry_out(control, user_data, plan)
}

/// The stream has a buffer ready. Its frame bears the time that the wall clock
/// shows in this call; the clock is read only where the buffer is looked into.
pub fn process_callback(
    control: &mut EngineControl,
    user_data: &mut ListenerUserData,
    buffer: Dequeued,
) -> (outcome: ProcessOutcome)
    ensures
        looks_into(*old(control), buffer@) ==> {
            let now = final(user_data).clock.readings().last();
            &&& final(user_data).clock.readings() == old(user_data).clock.readings().push(now)
            &&& ran(
                *old(control),
                *old(user_data),
                buffer@,
                now,
                *final(control),
                *final(user_data),
                outcome,
            )
        },
        !looks_into(*old(control), buffer@) ==> {
            &&& final(user_data).clock == old(user_data).clock
            &&& forall|now: SystemTime| #[trigger]
                ran(
                    *old(control),
                    *old(user_data),
                    buffer@,
                    now,
                    *final(control),
                    *final(user_data),
                    outcome,
                )
        },
{
    match inspect(control, buffer) {
        Ok(data) => {
            let now = user_data.clock.now();
            let plan = plan_frame(control, &user_data.format, data, now);
            carry_out(control, user_data, plan)
        },
        Err(outcome) => outcome,
    }
}

} // verus!
