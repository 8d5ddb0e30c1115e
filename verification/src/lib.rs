//! A process and stream supervision engine: a threshold monitor with
//! hysteresis over periodic resource samples, a best-effort launcher
//! policy for auxiliary executables, and a relay that turns a chunked
//! newline-delimited-JSON response body into an ordered sequence of
//! named outbound events — plus the two quote accessors whose failure
//! handling is deliberately asymmetric. Transport, timers and process
//! spawning belong to the caller; every decision the engine takes is
//! specified and verified here.

pub mod config;
pub mod events;
pub mod json;
pub mod launcher;
pub mod lines;
pub mod monitor;
pub mod quote;
pub mod relay;
