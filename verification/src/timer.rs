//! What a session asks of the timer scheduler, and what the scheduler hands
//! back.
//!
//! A session never waits. It returns commands, the scheduler outside the
//! engine carries them out, and when a timer fires its event comes back
//! through the same entry that player actions use, so that one session sees
//! one event at a time.

use vstd::prelude::*;

verus! {

/// An event that a timer puts into a session's input.
#[derive(Clone, Copy, Debug, PartialEq, Eq, Structural)]
pub enum TimerEvent {
    /// The betting window of a crash round is over.
    BettingClosed,
    /// One step of a running crash round.
    Tick,
    /// The pause after a crash is over.
    CooldownExpired,
    /// The jackpot countdown is over.
    CountdownExpired,
}

/// A request to the timer scheduler.
#[derive(Clone, Copy, Debug, PartialEq, Eq, Structural)]
pub enum TimerCommand {
    /// Deliver `event` once, `delay_ms` milliseconds from now.
    After { delay_ms: u64, event: TimerEvent },
    /// Deliver `event` every `interval_ms` milliseconds until cancelled.
    Every { interval_ms: u64, event: TimerEvent },
    /// Drop every timer of this session that has not fired yet.
    CancelAll,
}

} // verus!
