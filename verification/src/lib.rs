//! Core of a mixed-precision training step: dynamic loss-scale control,
//! synchronization between a reduced-precision compute copy and a
//! full-precision master copy of the trainable parameters, and the per-step
//! state machine that detects gradient overflow and decides whether an
//! update is committed or skipped.
//!
//! The tensor engine (forward and backward passes, gradient clipping, the
//! underlying update rule) is an external collaborator: its products enter
//! the library as plain values, and every decision taken on them is
//! verified.

pub mod optimizer;
pub mod params;
pub mod scale;
