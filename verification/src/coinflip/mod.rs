//! Coinflip: games of two players for one stake, many at a time, each
//! decided by one flip as soon as the second player has joined.

pub mod game;
pub mod server;
