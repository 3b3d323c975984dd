//! The jackpot game: deposits are collected, a countdown runs, and one
//! participant wins everything with a chance as large as the deposit's share.

pub mod session;
pub mod server;
