//! What callers can rely on: laws on the results of the executable functions, in plain values.
//!
//! Each law takes the arguments and the result of a call, and says in numbers, characters and fields
//! what holds of them.
pub mod api;
pub mod decisions;
pub mod log;
pub mod time;
