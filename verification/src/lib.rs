//! Tempo-synchronized multi-track phrase sampler core.
//!
//! The crate holds the sample-playback engine's decision logic: smart
//! buffers with precomputed slice-boundary tables, the slice sequencer
//! with its transform queue and crossfade machinery, the repitch and
//! phase-vocoder playback schedulers, the mixer's control dispatch, and
//! the control-message fabric. Audio samples are carried as raw 32-bit
//! sample words; the numeric (floating-point) rendering of envelopes and
//! mixes is left to the thin shell around the library.

pub mod analysis;
pub mod buffer;
pub mod clock;
pub mod config;
pub mod control;
pub mod frame;
pub mod gen;
pub mod library;
pub mod midi;
pub mod mixer;
pub mod osc;
pub mod positions;
pub mod pvoc;
pub mod repitch;
pub mod seq;
pub mod slice;
pub mod slicemap;
pub mod slicer;
pub mod track;
