//! The two flags through which a capturer and its worker thread meet.
use vstd::prelude::*;

verus! {

/// Where the process's capturer stands.
#[derive(Clone, Copy, Debug, PartialEq, Eq, Structural)]
pub enum CapturerState {
    /// Nobody has asked for frames yet; the worker waits.
    Idle,
    /// Frames are wanted.
    Capturing,
    /// The worker is to return, wherever it is.
    Stopping,
}

/// The control block of the process. A process has one, since the engine
/// assumes a single active capturer.
#[derive(Clone, Copy, Debug, PartialEq, Eq, Structural)]
pub struct EngineControl {
    pub state: CapturerState,
    /// Asks the worker's main loop to end early: the stream failed, the frame
    /// receiver is gone, or a format came that cannot be decoded.
    pub should_exit: bool,
}

/// The state of a stream, as PipeWire reports it.
#[derive(Debug, PartialEq, Eq)]
pub enum StreamState {
    Error(String),
    Unconnected,
    Connecting,
    Paused,
    Streaming,
}

/// What is worth telling whoever reads the log.
#[derive(Debug, PartialEq, Eq)]
pub enum Notice {
    /// The stream went into the error state, for this reason.
    StreamError(String),
    /// PipeWire had no buffer to hand out.
    OutOfBuffers,
    /// A frame came in a format that has no decode arm.
    UnsupportedFormat(crate::format::VideoFormat),
    /// The consumer of the frames is gone.
    ReceiverDisconnected,
}

impl EngineControl {
    /// The control block of a process that has no capturer.
    pub open spec fn at_rest() -> EngineControl {
        EngineControl { state: CapturerState::Idle, should_exit: false }
    }

    /// The worker is held back until frames are wanted.
    pub open spec fn waits(self) -> bool {
        self.state == CapturerState::Idle
    }

    /// The worker's main loop goes round once more.
    pub open spec fn runs(self) -> bool {
        self.state == CapturerState::Capturing && !self.should_exit
    }

    /// This block with the given state.
    pub open spec fn with_state(self, state: CapturerState) -> EngineControl {
        EngineControl { state, should_exit: self.should_exit }
    }

    /// This block with the given exit flag.
    pub open spec fn with_exit(self, should_exit: bool) -> EngineControl {
        EngineControl { state: self.state, should_exit }
    }

    pub fn new() -> (control: EngineControl)
        ensures
            control == EngineControl::at_rest(),
            control.state is Idle,
            !control.should_exit,
    {
        EngineControl { state: CapturerState::Idle, should_exit: false }
    }

    /// Whether the worker is to wait for a start.
    pub fn awaiting_start(&self) -> (r: bool)
        ensures
            r == self.waits(),
            r == self.state is Idle,
    {
        self.state == CapturerState::Idle
    }

    /// Whether the worker's main loop is to go on.
    pub fn keeps_capturing(&self) -> (r: bool)
        ensures
            r == self.runs(),
            r == (self.state is Capturing && !self.should_exit),
    {
        self.state == CapturerState::Capturing && !self.should_exit
    }

    /// Raises the exit flag and tells whether it was up before.
    pub fn raise_exit(&mut self) -> (was_raised: bool)
        ensures
            was_raised == old(self).should_exit,
            *final(self) == old(self).with_exit(true),
            final(self).should_exit,
            final(self).state == old(self).state,
    {
        let was_raised = self.should_exit;
        self.should_exit = true;
        was_raised
    }
}

impl Default for EngineControl {
    fn default() -> (control: EngineControl)
        ensures
            control == EngineControl::at_rest(),
    {
        EngineControl::new()
    }
}

/// What a change of the stream's state does to the control block.
pub open spec fn state_changed(control: EngineControl, state: StreamState) -> EngineControl {
    if state is Error {
        control.with_exit(true)
    } else {
        control
    }
}

/// What a change of the stream's state is worth saying.
pub open spec fn state_notice(state: StreamState) -> Option<Notice> {
    match state {
        StreamState::Error(reason) => Some(Notice::StreamError(reason)),
        _ => None,
    }
}

/// The stream went from one state to another. An error asks the worker to
/// exit; every other state is left to PipeWire.
pub fn state_changed_callback(control: &mut EngineControl, new: StreamState) -> (notice: Option<
    Notice,
>)
    ensures
        *final(control) == state_changed(*old(control), new),
        notice == state_notice(new),
        final(control).state == old(control).state,
        new matches StreamState::Error(reason) ==> final(control).should_exit && notice == Some(
            Notice::StreamError(reason),
        ),
        !(new is Error) ==> *final(control) == *old(control) && notice is None,
{
    match new {
        StreamState::Error(reason) => {
            control.should_exit = true;
            Some(Notice::StreamError(reason))
        },
        _ => None,
    }
}

} // verus!
