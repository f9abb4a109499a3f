//! The idle heartbeat.
//!
//! The heartbeat task waits for whichever comes first: a signal on the
//! wake-up channel or the end of a five-second window. Each time it wakes it
//! asks [`Heartbeat::wake`] what to do. A signal only opens a new window; the
//! handler that sent it has already asked for its own render. A window that
//! ends without a signal gives one render of the idle message.

use vstd::prelude::*;
use crate::channel::{NotificationChannel, Received};
use crate::message::{idle_model, DisplayMessage};

verus! {

/// Length of one idle window, in milliseconds.
pub const HEARTBEAT_PERIOD_MS: u64 = 5000;

/// The end of the window that opens at `now_ms`, held at the largest
/// representable time where the clock is that close to it.
pub open spec fn window_end(now_ms: u64) -> u64 {
    if now_ms + HEARTBEAT_PERIOD_MS > u64::MAX {
        u64::MAX
    } else {
        (now_ms + HEARTBEAT_PERIOD_MS) as u64
    }
}

/// The state of the heartbeat task: the time at which the open window ends.
#[derive(Clone, Copy, Debug, PartialEq, Eq, Structural)]
pub struct Heartbeat {
    pub deadline_ms: u64,
}

impl Heartbeat {
    /// Opens the first window at `now_ms`.
    pub fn start(now_ms: u64) -> (heartbeat: Heartbeat)
        ensures
            heartbeat.deadline_ms == window_end(now_ms),
    {
        Heartbeat { deadline_ms: now_ms.saturating_add(HEARTBEAT_PERIOD_MS) }
    }

    /// The time until which the task may sleep if no signal comes.
    pub fn deadline(&self) -> (t: u64)
        ensures
            t == self.deadline_ms,
    {
        self.deadline_ms
    }

    /// Decides what the task does on waking at `now_ms`.
    ///
    /// The channel is looked at first. Where a receive completes, with a
    /// signal or because the channel is closed, at most that one signal is
    /// taken, nothing is rendered and a new window opens. Otherwise, where the
    /// window has ended, the idle message is returned for rendering and a new
    /// window opens. Otherwise nothing changes.
    pub fn wake(&mut self, channel: &mut NotificationChannel, now_ms: u64) -> (render: Option<
        DisplayMessage,
    >)
        ensures
            old(channel).ready() ==> {
                &&& render is None
                &&& final(self).deadline_ms == window_end(now_ms)
                &&& final(channel).closed() == old(channel).closed()
                &&& old(channel)@.len() > 0 ==> final(channel)@ == old(channel)@.drop_first()
                &&& old(channel)@.len() == 0 ==> *final(channel) == *old(channel)
            },
            !old(channel).ready() && now_ms >= old(self).deadline_ms ==> {
                &&& render matches Some(message) && message@ == idle_model()
                &&& final(self).deadline_ms == window_end(now_ms)
                &&& *final(channel) == *old(channel)
            },
            !old(channel).ready() && now_ms < old(self).deadline_ms ==> {
                &&& render is None
                &&& *final(self) == *old(self)
                &&& *final(channel) == *old(channel)
            },
    {
        match channel.try_receive() {
            Received::Signal(_) | Received::Closed => {
                self.deadline_ms = now_ms.saturating_add(HEARTBEAT_PERIOD_MS);
                None
            },
            Received::Empty => {
                if now_ms >= self.deadline_ms {
                    self.deadline_ms = now_ms.saturating_add(HEARTBEAT_PERIOD_MS);
                    Some(DisplayMessage::idle())
                } else {
                    None
                }
            },
        }
    }
}

} // verus!
