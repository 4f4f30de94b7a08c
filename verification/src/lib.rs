//! Signal interpretation engine of a terminal telemetry visualizer: turns raw
//! text lines and synthetic generators into bounded metrics, graphs, an event
//! feed and an animated render matrix.
pub mod text;
pub mod rng;
pub mod mode;
pub mod clock;
pub mod state;
pub mod ping;
pub mod ingest;
pub mod synthetic;
pub mod engine;
pub mod matrix;
pub mod display;
pub mod laws;
pub mod rule_laws;
