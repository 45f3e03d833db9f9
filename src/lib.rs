//! Benchmark orchestration for a local text-generation endpoint: a cooldown
//! gate, a bounded performance recorder, a retry policy for one request, and a
//! controller that runs single, compare and stress operations over slots.

pub mod cooldown;
pub mod transport;
pub mod text;
pub mod recorder;
pub mod request;
pub mod controller;
pub mod report;
pub mod status;
