//! Core logic of a noise-sensing firmware: a shared health status cell with a
//! total decode, a table of LED blink patterns per status, the indicator state
//! machine that replays those patterns, windowed aggregation of raw analog
//! samples into a loudness reading, and the configuration checks of the
//! connectivity and telemetry collaborators. Everything that touches hardware
//! or the network lives outside this crate and exchanges plain values with it.

pub mod connectivity;
pub mod indicator;
pub mod sampler;
pub mod sequence;
pub mod status;
pub mod telemetry;
