//! The clock and the channel that frames leave through: the parts of the
//! standard library whose answers the engine takes as they come.
use std::sync::mpsc::{SyncSender, TrySendError};
use std::time::SystemTime;
use vstd::prelude::*;

use crate::frame::{Frame, FrameView};

verus! {

/// [`std::time::SystemTime`], a wall-clock time that is only carried along.
#[verifier::external_type_specification]
#[verifier::external_body]
pub struct ExSystemTime(SystemTime);

/// [`std::sync::mpsc::SyncSender`], the sending half of a bounded channel.
#[verifier::external_type_specification]
#[verifier::external_body]
#[verifier::reject_recursive_types(T)]
pub struct ExSyncSender<T>(SyncSender<T>);

/// How an attempt to send a frame ended.
#[derive(Clone, Copy, Debug, PartialEq, Eq, Structural)]
pub enum SendKind {
    Sent,
    /// The channel had no room, and the frame is dropped.
    Full,
    /// The receiving half is gone, and the frame is dropped.
    Disconnected,
}

/// The sending half of a capturer's channel, and a log of every frame that was
/// handed to it, with how that ended.
pub struct FrameSender {
    tx: SyncSender<Frame>,
    log: Ghost<Seq<(FrameView, SendKind)>>,
}

impl FrameSender {
    /// The frames that were handed to the channel through this sender, in
    /// order.
    pub closed spec fn log(self) -> Seq<(FrameView, SendKind)> {
        self.log@
    }

    /// The channel's sending half.
    pub closed spec fn channel(self) -> SyncSender<Frame> {
        self.tx
    }

    pub fn new(tx: SyncSender<Frame>) -> (sender: FrameSender)
        ensures
            sender.log() == Seq::<(FrameView, SendKind)>::empty(),
            sender.channel() == tx,
    {
        FrameSender { tx, log: Ghost(Seq::empty()) }
    }

    /// [`SyncSender::try_send`]: hands the frame to the channel, without
    /// blocking.
    ///
    /// Claimed: it is one attempt, with this frame and on this channel, and the
    /// answer is how it ended. Which of the three answers comes is up to the
    /// other end of the channel, so nothing is said of it.
    #[verifier::external_body]
    pub(crate) fn try_send(&mut self, frame: Frame) -> (kind: SendKind)
        ensures
            final(self).log() == old(self).log().push((frame@, kind)),
            final(self).channel() == old(self).channel(),
    {
        match self.tx.try_send(frame) {
            Ok(()) => SendKind::Sent,
            Err(TrySendError::Full(_)) => SendKind::Full,
            Err(TrySendError::Disconnected(_)) => SendKind::Disconnected,
        }
    }
}

/// The wall clock, and a log of what was read off it.
pub struct WallClock {
    readings: Ghost<Seq<SystemTime>>,
}

impl WallClock {
    /// What was read, in order.
    pub closed spec fn readings(self) -> Seq<SystemTime> {
        self.readings@
    }

    pub fn new() -> (clock: WallClock)
        ensures
            clock.readings() == Seq::<SystemTime>::empty(),
    {
        WallClock { readings: Ghost(Seq::empty()) }
    }

    /// [`SystemTime::now`]: reads the clock.
    ///
    /// Claimed: it is one reading, and the answer is what was read. Which time
    /// that is depends on when and where it is taken, so nothing is said of it.
    #[verifier::external_body]
    pub(crate) fn now(&mut self) -> (now: SystemTime)
        ensures
            final(self).readings() == old(self).readings().push(now),
    {
        SystemTime::now()
    }
}

} // verus!
