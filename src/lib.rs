//! A store of guessing games: each game is a secret number under a unique
//! identifier, shared by concurrent readers and one writer at a time.

pub mod laws;
pub mod service;
pub mod store;
pub mod table;
