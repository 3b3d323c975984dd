//! Session engine for timer-driven multiplayer wagering games.
//!
//! Three games share one shape: a hub that knows the connections, and
//! sessions that hold the state of a round. A session is a state machine. It
//! takes one event at a time, an action of a player or the event of a timer,
//! and answers with its new state, with messages, and with requests to the
//! timer scheduler. It never waits, sends or reads a clock: whoever runs the
//! engine delivers the texts, arms the timers and tells the time.
//!
//! - `crash`: a multiplier climbs until it reaches a crash point that the
//!   seeds of the round have fixed; who has cashed out before keeps the
//!   multiplier of that moment.
//! - `jackpot`: deposits are collected, a countdown runs, and one participant
//!   wins the sum with a chance as large as the deposit's share.
//! - `coinflip`: games of two players, decided by one flip.
//! - `chat`: what one connection says goes to all.
//! - `fairness`: seed pairs and the outcomes derived from them.
//! - `hub`, `timer`, `wire`, `money`: the connection registry, the timer
//!   requests, the JSON texts and the decimal texts that the games share.
//! - `auth`, `connection`: what the account handlers and the single
//!   connections decide.
//!
//! Amounts are whole cents and multipliers whole hundredths throughout.

pub mod auth;
pub mod chat;
pub mod coinflip;
pub mod connection;
pub mod crash;
pub mod fairness;
pub mod hub;
mod ids;
pub mod jackpot;
pub mod money;
pub mod timer;
pub mod wire;
