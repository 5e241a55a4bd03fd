//! A fixed-point wavetable synthesizer engine for resource-constrained
//! targets: note events and a declarative patch are turned into a stream of
//! 16-bit audio samples with bounded, allocation-free per-sample work.

pub mod synth;
