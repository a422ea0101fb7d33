//! The capturer that a caller holds.
use vstd::prelude::*;

use crate::control::{CapturerState, EngineControl};
use crate::negotiation::Options;

verus! {

/// What is to be done next to get a capturer.
#[derive(Clone, Copy, Debug, PartialEq, Eq)]
pub enum LaunchTask {
    /// Connect to the session bus.
    Connect,
    /// Ask the screencast portal for a pointer in the picture, or for none.
    SelectCursor { show_cursor: bool },
    /// Ask the portal for a stream.
    CreateStream,
    /// Spawn the worker for the stream's node.
    Spawn { options: Options, stream_id: u32 },
    /// Wait for the worker's word on whether its stream is ready.
    AwaitReady,
    /// Done: there is a capturer, or there will be none.
    Finish(Result<(), LaunchError>),
}

/// What came of it.
#[derive(Clone, Copy, Debug, PartialEq, Eq, Structural)]
pub enum LaunchOutcome {
    Done,
    /// The portal gave a stream, with this PipeWire node.
    Stream { node_id: u32 },
    /// The worker gave its word.
    Word { ready: bool },
    Failed,
}

/// Why there is no capturer.
#[derive(Clone, Copy, Debug, PartialEq, Eq, Structural)]
pub enum LaunchError {
    NoConnection,
    UnsupportedCursor,
    NoStream,
    /// The worker is gone without a word.
    NoAnswer,
    /// The worker reported that its stream will not come.
    SetupFailed,
}

/// What is said of the error.
pub open spec fn launch_message(error: LaunchError) -> Seq<char> {
    match error {
        LaunchError::NoConnection => "Failed to create dbus connection"@,
        LaunchError::UnsupportedCursor => "Unsupported cursor mode"@,
        LaunchError::NoStream => "Failed to get screencast stream"@,
        LaunchError::NoAnswer => "Failed to receive"@,
        LaunchError::SetupFailed => "Failed to setup capturer"@,
    }
}

impl LaunchError {
    pub fn message(&self) -> (text: &'static str)
        ensures
            text@ == launch_message(*self),
            self is NoConnection ==> text@ == "Failed to create dbus connection"@,
            self is UnsupportedCursor ==> text@ == "Unsupported cursor mode"@,
            self is NoStream ==> text@ == "Failed to get screencast stream"@,
            self is NoAnswer ==> text@ == "Failed to receive"@,
            self is SetupFailed ==> text@ == "Failed to setup capturer"@,
    {
        match self {
            LaunchError::NoConnection => "Failed to create dbus connection",
            LaunchError::UnsupportedCursor => "Unsupported cursor mode",
            LaunchError::NoStream => "Failed to get screencast stream",
            LaunchError::NoAnswer => "Failed to receive",
            LaunchError::SetupFailed => "Failed to setup capturer",
        }
    }
}

/// The task that follows `task`, which ended in `outcome`. An outcome that does
/// not answer the task is a failure of it.
pub open spec fn next_launch(task: LaunchTask, options: Options, outcome: LaunchOutcome) -> LaunchTask {
    match (task, outcome) {
        (LaunchTask::Connect, LaunchOutcome::Done) => LaunchTask::SelectCursor {
            show_cursor: options.show_cursor,
        },
        (LaunchTask::Connect, _) => LaunchTask::Finish(Err(LaunchError::NoConnection)),
        (LaunchTask::SelectCursor { .. }, LaunchOutcome::Done) => LaunchTask::CreateStream,
        (LaunchTask::SelectCursor { .. }, _) => LaunchTask::Finish(
            Err(LaunchError::UnsupportedCursor),
        ),
        (LaunchTask::CreateStream, LaunchOutcome::Stream { node_id }) => LaunchTask::Spawn {
            options,
            stream_id: node_id,
        },
        (LaunchTask::CreateStream, _) => LaunchTask::Finish(Err(LaunchError::NoStream)),
        (LaunchTask::Spawn { .. }, _) => LaunchTask::AwaitReady,
        (LaunchTask::AwaitReady, LaunchOutcome::Word { ready }) => LaunchTask::Finish(
            if ready {
                Ok(())
            } else {
                Err(LaunchError::SetupFailed)
            },
        ),
        (LaunchTask::AwaitReady, _) => LaunchTask::Finish(Err(LaunchError::NoAnswer)),
        (LaunchTask::Finish(result), _) => LaunchTask::Finish(result),
    }
}

/// Begins to get a capturer. A state left over from one that was never stopped
/// must not let the new worker past its gate, so the state is put back first,
/// before that worker exists.
pub fn launch_begin(control: &mut EngineControl) -> (task: LaunchTask)
    ensures
        *final(control) == old(control).with_state(CapturerState::Idle),
        task == LaunchTask::Connect,
        final(control).state is Idle,
        final(control).should_exit == old(control).should_exit,
{
    control.state = CapturerState::Idle;
    LaunchTask::Connect
}

/// Goes on from a task that was carried out.
pub fn launch_next(task: LaunchTask, options: &Options, outcome: LaunchOutcome) -> (next:
    LaunchTask)
    ensures
        next == next_launch(task, *options, outcome),
        task is Connect && outcome is Done ==> (next matches LaunchTask::SelectCursor { show_cursor }
            && show_cursor == options.show_cursor),
        task is Connect && !(outcome is Done) ==> next == LaunchTask::Finish(
            Err(LaunchError::NoConnection),
        ),
        task is SelectCursor && outcome is Done ==> next is CreateStream,
        task is SelectCursor && !(outcome is Done) ==> next == LaunchTask::Finish(
            Err(LaunchError::UnsupportedCursor),
        ),
        task is CreateStream ==> (outcome matches LaunchOutcome::Stream { node_id } ==> (next matches
            LaunchTask::Spawn { options: given, stream_id } && given == *options && stream_id
            == node_id)),
        task is CreateStream && !(outcome is Stream) ==> next == LaunchTask::Finish(
            Err(LaunchError::NoStream),
        ),
        task is Spawn ==> next is AwaitReady,
        task is AwaitReady ==> (outcome matches LaunchOutcome::Word { ready } ==> next
            == LaunchTask::Finish(
            if ready {
                Ok(())
            } else {
                Err(LaunchError::SetupFailed)
            },
        )),
        task is AwaitReady && !(outcome is Word) ==> next == LaunchTask::Finish(
            Err(LaunchError::NoAnswer),
        ),
        task is Finish ==> next == task,
{
    match task {
        LaunchTask::Connect => match outcome {
            LaunchOutcome::Done => LaunchTask::SelectCursor { show_cursor: options.show_cursor },
            _ => LaunchTask::Finish(Err(LaunchError::NoConnection)),
        },
        LaunchTask::SelectCursor { .. } => match outcome {
            LaunchOutcome::Done => LaunchTask::CreateStream,
            _ => LaunchTask::Finish(Err(LaunchError::UnsupportedCursor)),
        },
        LaunchTask::CreateStream => match outcome {
            LaunchOutcome::Stream { node_id } => LaunchTask::Spawn {
                options: *options,
                stream_id: node_id,
            },
            _ => LaunchTask::Finish(Err(LaunchError::NoStream)),
        },
        LaunchTask::Spawn { .. } => LaunchTask::AwaitReady,
        LaunchTask::AwaitReady => match outcome {
            LaunchOutcome::Word { ready } => if ready {
                LaunchTask::Finish(Ok(()))
            } else {
                LaunchTask::Finish(Err(LaunchError::SetupFailed))
            },
            _ => LaunchTask::Finish(Err(LaunchError::NoAnswer)),
        },
        LaunchTask::Finish(result) => LaunchTask::Finish(result),
    }
}

/// A capturer with its worker thread and the connection that keeps the
/// screencast alive: `H` joins the thread, `C` is the connection.
pub struct LinuxCapturer<H, C> {
    capturer_join_handle: Option<H>,
    /// The stream is deleted when the connection is dropped, so it stays here.
    _connection: C,
}

impl<H, C> LinuxCapturer<H, C> {
    /// What joins the worker thread, until it has been joined.
    pub closed spec fn join_handle(self) -> Option<H> {
        self.capturer_join_handle
    }

    /// What keeps the screencast alive.
    pub closed spec fn connection(self) -> C {
        self._connection
    }

    /// The capturer that a launch ends in, when it ends well.
    pub fn new(capturer_join_handle: H, connection: C) -> (capturer: Self)
        ensures
            capturer.join_handle() == Some(capturer_join_handle),
            capturer.connection() == connection,
    {
        LinuxCapturer {
            capturer_join_handle: Some(capturer_join_handle),
            _connection: connection,
        }
    }

    /// Lets the worker capture.
    pub fn start_capture(&self, control: &mut EngineControl)
        ensures
            *final(control) == old(control).with_state(CapturerState::Capturing),
            final(control).state is Capturing,
            final(control).should_exit == old(control).should_exit,
    {
        control.state = CapturerState::Capturing;
    }

    /// Tells the worker to return, and hands out what joins it. Once that is
    /// done, [`LinuxCapturer::finish_stop`] is due.
    pub fn stop_capture(&mut self, control: &mut EngineControl) -> (handle: Option<H>)
        ensures
            *final(control) == old(control).with_state(CapturerState::Stopping),
            final(control).state is Stopping,
            final(control).should_exit == old(control).should_exit,
            handle == old(self).join_handle(),
            final(self).join_handle() is None,
            final(self).connection() == old(self).connection(),
    {
        control.state = CapturerState::Stopping;
        self.capturer_join_handle.take()
    }

    /// The worker, if there was one left to join, is gone. Leaves the process
    /// as if it had never had a capturer, and hands out the error that the
    /// worker ended in.
    pub fn finish_stop<E>(&self, control: &mut EngineControl, joined: Option<Result<(), E>>) -> (r:
        Option<E>)
        ensures
            *final(control) == EngineControl::at_rest(),
            final(control).state is Idle,
            !final(control).should_exit,
            r == (match joined {
                Some(Err(error)) => Some(error),
                _ => None,
            }),
    {
        control.state = CapturerState::Idle;
        control.should_exit = false;
        match joined {
            Some(Err(error)) => Some(error),
            _ => None,
        }
    }
}

/// As [`LinuxCapturer::new`].
pub fn create_capturer<H, C>(capturer_join_handle: H, connection: C) -> (capturer: LinuxCapturer<
    H,
    C,
>)
    ensures
        capturer.join_handle() == Some(capturer_join_handle),
        capturer.connection() == connection,
{
    LinuxCapturer::new(capturer_join_handle, connection)
}

} // verus!
