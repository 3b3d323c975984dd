//! What a single connection decides for itself: whether a peer that has been
//! silent is still there.
//!
//! A connection remembers when it last heard from its peer. Whenever it looks
//! at the clock it either asks the peer for a sign of life or gives the peer
//! up.

use vstd::prelude::*;

verus! {

/// The silence after which a crash connection is given up, in milliseconds.
pub const CRASH_SILENCE_MS: u64 = 10_000;

/// The silence beyond which a jackpot connection is given up.
pub const JACKPOT_SILENCE_MS: u64 = 15_000;

/// The silence beyond which a coinflip connection is given up.
pub const COINFLIP_SILENCE_MS: u64 = 10_000;

/// The silence beyond which a chat connection is given up.
pub const CHAT_SILENCE_MS: u64 = 10_000;

/// The time between two looks at the clock of a coinflip or chat connection.
pub const HEARTBEAT_INTERVAL_MS: u64 = 5_000;

/// What a connection does when it looks at the clock.
#[derive(Clone, Copy, Debug, PartialEq, Eq, Structural)]
pub enum HeartbeatAction {
    /// Ask the peer for a sign of life.
    Ping,
    /// Give the peer up and close the connection.
    Stop,
}

/// The time since the peer was last heard, at `now_ms`. A time before the
/// last sign of life counts as no silence at all.
pub open spec fn silence(last_seen_ms: u64, now_ms: u64) -> nat {
    if now_ms >= last_seen_ms {
        (now_ms - last_seen_ms) as nat
    } else {
        0
    }
}

/// The time since the peer was last heard, at `now_ms`.
pub fn silent_for(last_seen_ms: u64, now_ms: u64) -> (idle_ms: u64)
    ensures
        idle_ms == silence(last_seen_ms, now_ms),
{
    if now_ms >= last_seen_ms {
        now_ms - last_seen_ms
    } else {
        0
    }
}

/// A crash connection gives its peer up after ten seconds of silence.
pub fn crash_heartbeat(idle_ms: u64) -> (action: HeartbeatAction)
    ensures
        action == if idle_ms >= CRASH_SILENCE_MS {
            HeartbeatAction::Stop
        } else {
            HeartbeatAction::Ping
        },
{
    if idle_ms >= CRASH_SILENCE_MS {
        HeartbeatAction::Stop
    } else {
        HeartbeatAction::Ping
    }
}

/// A jackpot connection gives its peer up after more than fifteen seconds of
/// silence.
pub fn jackpot_heartbeat(idle_ms: u64) -> (action: HeartbeatAction)
    ensures
        action == if idle_ms > JACKPOT_SILENCE_MS {
            HeartbeatAction::Stop
        } else {
            HeartbeatAction::Ping
        },
{
    if idle_ms > JACKPOT_SILENCE_MS {
        HeartbeatAction::Stop
    } else {
        HeartbeatAction::Ping
    }
}

/// A coinflip connection gives its peer up after more than ten seconds of
/// silence.
pub fn coinflip_heartbeat(idle_ms: u64) -> (action: HeartbeatAction)
    ensures
        action == if idle_ms > COINFLIP_SILENCE_MS {
            HeartbeatAction::Stop
        } else {
            HeartbeatAction::Ping
        },
{
    if idle_ms > COINFLIP_SILENCE_MS {
        HeartbeatAction::Stop
    } else {
        HeartbeatAction::Ping
    }
}

/// A chat connection gives its peer up after more than ten seconds of
/// silence.
pub fn chat_heartbeat(idle_ms: u64) -> (action: HeartbeatAction)
    ensures
        action == if idle_ms > CHAT_SILENCE_MS {
            HeartbeatAction::Stop
        } else {
            HeartbeatAction::Ping
        },
{
    if idle_ms > CHAT_SILENCE_MS {
        HeartbeatAction::Stop
    } else {
        HeartbeatAction::Ping
    }
}

} // verus!
