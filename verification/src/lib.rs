//! A simulated sensor-telemetry publisher core.
//!
//! The library holds the verified logic of the publisher: a fixed registry of
//! simulated weather stations, a synthesizer that produces one measurement
//! record per request, a round-robin publishing scheduler with an
//! enable/disable flag, and the encoder for the wire payload. Transport,
//! HTTP routing and timers live outside the library and drive it through
//! the public methods.

pub mod codec;
pub mod laws;
pub mod registry;
pub mod sampling;
pub mod scheduler;
pub mod station;
