//! A terminal oscilloscope core: a fixed-capacity buffer of the most recent
//! audio samples, an amplitude summary of it, the transform that plots it on
//! a character grid, and the decisions of the loops that feed and drive the
//! display.
//!
//! Samples are raw signed 16-bit amplitudes. Full scale is `i16::MAX`;
//! normalisation is deferred to the renderer, which does it exactly in
//! integer arithmetic.

pub mod amplitude;
pub mod app;
pub mod capture;
pub mod data_buffer;
pub mod ui;
