//! Chunk-based procedural terrain generation: a biome classifier over
//! fixed-point elevation and moisture fields, a per-chunk pixel-buffer
//! synthesizer, and a polling state machine that schedules chunk generation
//! jobs and integrates their results without blocking.

pub mod biome;
pub mod config;
pub mod grid;
pub mod schedule;
pub mod synth;
