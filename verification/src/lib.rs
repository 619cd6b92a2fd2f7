//! Verified core of a terminal audio visualizer.
//!
//! The library covers the deterministic heart of the render pipeline: framing
//! captured bytes into stereo sample frames, downsampling buffer indices onto
//! a character grid, planning the waveform and spectrum segments that one tick
//! draws, and the pipeline's lifecycle state machine.  Audio capture, the
//! floating-point Fourier transform and the terminal itself live outside and
//! hand the library plain values.

pub mod frame;
pub mod mapper;
pub mod pipeline;
pub mod render;
