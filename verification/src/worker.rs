//! The worker thread of a capturer, as a sequence of tasks.
//!
//! The thread carries out the task it is given and asks for the next one, until
//! it is told to return.
use vstd::prelude::*;

use crate::control::EngineControl;

verus! {

/// How long the worker sleeps between looks at whether it may start.
pub const START_POLL_MILLIS: u64 = 10;

/// How long one turn of PipeWire's loop may take.
pub const ITERATE_MILLIS: u64 = 100;

/// What the worker is to do next. `E` is what can go wrong.
#[derive(Debug)]
pub enum CaptureTask<E> {
    /// Set up the stream, up to and with connecting it.
    SetUp,
    /// Tell the capturer that the stream is ready.
    AnnounceReady,
    /// Wait this long for a start.
    Sleep { millis: u64 },
    /// Let PipeWire work for this long at most.
    Iterate { millis: u64 },
    /// Tell the capturer that the stream will not come.
    AnnounceFailure(E),
    /// Leave the thread.
    Return(Result<(), E>),
}

/// What a worker with a stream does, by the control block.
pub open spec fn stream_task<E>(control: EngineControl, started: bool) -> CaptureTask<E> {
    if !started && control.waits() {
        CaptureTask::Sleep { millis: START_POLL_MILLIS }
    } else if control.runs() {
        CaptureTask::Iterate { millis: ITERATE_MILLIS }
    } else {
        CaptureTask::Return(Ok(()))
    }
}

/// The task that follows `task`, which ended in `outcome`.
///
/// Whatever fails before the stream is announced is reported to the capturer
/// and then returned, unless the report itself fails, whose error then takes
/// its place. Sleeping and iterating do not fail.
pub open spec fn next_task<E>(
    task: CaptureTask<E>,
    outcome: Result<(), E>,
    control: EngineControl,
) -> CaptureTask<E> {
    match (task, outcome) {
        (CaptureTask::SetUp, Ok(_)) => CaptureTask::AnnounceReady,
        (CaptureTask::SetUp, Err(error)) => CaptureTask::AnnounceFailure(error),
        (CaptureTask::AnnounceReady, Ok(_)) => stream_task(control, false),
        (CaptureTask::AnnounceReady, Err(error)) => CaptureTask::AnnounceFailure(error),
        (CaptureTask::Sleep { .. }, _) => stream_task(control, false),
        (CaptureTask::Iterate { .. }, _) => stream_task(control, true),
        (CaptureTask::AnnounceFailure(error), Ok(_)) => CaptureTask::Return(Err(error)),
        (CaptureTask::AnnounceFailure(_), Err(error)) => CaptureTask::Return(Err(error)),
        (CaptureTask::Return(result), _) => CaptureTask::Return(result),
    }
}

/// Begins the worker. The exit flag is lowered here, before there is a stream
/// whose callbacks could raise it, so that one raised while connecting still
/// ends the main loop.
pub fn pipewire_capturer_begin<E>(control: &mut EngineControl) -> (task: CaptureTask<E>)
    ensures
        *final(control) == old(control).with_exit(false),
        task == CaptureTask::<E>::SetUp,
        !final(control).should_exit,
        final(control).state == old(control).state,
{
    control.should_exit = false;
    CaptureTask::SetUp
}

fn choose_stream_task<E>(control: &EngineControl, started: bool) -> (task: CaptureTask<E>)
    ensures
        task == stream_task::<E>(*control, started),
{
    if !started && control.awaiting_start() {
        CaptureTask::Sleep { millis: START_POLL_MILLIS }
    } else if control.keeps_capturing() {
        CaptureTask::Iterate { millis: ITERATE_MILLIS }
    } else {
        CaptureTask::Return(Ok(()))
    }
}

/// Goes on from a task that was carried out.
pub fn pipewire_capturer_next<E>(
    task: CaptureTask<E>,
    outcome: Result<(), E>,
    control: &EngineControl,
) -> (next: CaptureTask<E>)
    ensures
        next == next_task(task, outcome, *control),
        task is Sleep || (task is AnnounceReady && outcome is Ok) ==> {
            &&& next is Sleep <==> control.state is Idle
            &&& next is Iterate <==> control.state is Capturing && !control.should_exit
        },
        task is Iterate ==> (next is Iterate <==> control.state is Capturing
            && !control.should_exit),
        task is Iterate ==> !(next is Sleep),
        task is Sleep || task is Iterate ==> next is Sleep || next is Iterate || next
            == CaptureTask::<E>::Return(Ok(())),
        task is AnnounceReady && outcome is Ok ==> next is Sleep || next is Iterate || next
            == CaptureTask::<E>::Return(Ok(())),
        task is SetUp && outcome is Ok ==> next is AnnounceReady,
        task is SetUp || task is AnnounceReady ==> (outcome matches Err(error) ==> next
            == CaptureTask::AnnounceFailure(error)),
        task matches CaptureTask::AnnounceFailure(error) ==> next == CaptureTask::Return(
            Err(
                match outcome {
                    Ok(_) => error,
                    Err(report_error) => report_error,
                },
            ),
        ),
        task matches CaptureTask::Return(result) ==> next == CaptureTask::Return(result),
        next matches CaptureTask::Sleep { millis } ==> millis == 10,
        next matches CaptureTask::Iterate { millis } ==> millis == 100,
{
    match task {
        CaptureTask::SetUp => match outcome {
            Ok(_) => CaptureTask::AnnounceReady,
            Err(error) => CaptureTask::AnnounceFailure(error),
        },
        CaptureTask::AnnounceReady => match outcome {
            Ok(_) => choose_stream_task(control, false),
            Err(error) => CaptureTask::AnnounceFailure(error),
        },
        CaptureTask::Sleep { .. } => choose_stream_task(control, false),
        CaptureTask::Iterate { .. } => choose_stream_task(control, true),
        CaptureTask::AnnounceFailure(error) => match outcome {
            Ok(_) => CaptureTask::Return(Err(error)),
            Err(error) => CaptureTask::Return(Err(error)),
        },
        CaptureTask::Return(result) => CaptureTask::Return(result),
    }
}

} // verus!
