//! Control core of an interactive fractal viewer.
//!
//! The crate holds the rules that turn input events into camera motion and
//! surface reconfiguration, and that lay the camera out for the shader. It
//! works on integers throughout: angles are whole milliradians, pointer
//! coordinates whole pixels, distances whole micro-units, and values that are
//! only carried through to the GPU are 32-bit words. Trigonometry, windowing
//! and GPU calls belong to the program around it.

pub mod keys;
pub mod input;
pub mod camera;
pub mod surface;
pub mod uniform;
pub mod frame;
