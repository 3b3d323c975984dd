//! The crash game: one round at a time, with a multiplier that climbs until
//! it reaches a crash point fixed by the round's seeds.

pub mod curve;
pub mod messages;
pub mod game;
pub mod server;
