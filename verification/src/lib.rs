//! Core logic of a sharpness-scoring ("yakudo") social bot: the fixed-point
//! scoring formula, post evaluation and message composition, reply-chain
//! resolution, the minute-resolution job scheduler, and the decision rules of
//! the maintenance jobs. Network, image decoding and storage live outside the
//! library and hand it plain values.

pub mod clock;
pub mod database;
pub mod follow;
pub mod maintenance;
pub mod message;
pub mod misskey;
pub mod model;
pub mod monitor;
pub mod scheduler;
pub mod score;
pub mod text;
