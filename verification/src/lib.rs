//! The engine side of an interactive Mandelbrot viewer.
//!
//! A front-end sends [`protocol::EngineCommand`]s to a worker and polls it for
//! [`protocol::EngineStatus`] messages. This crate holds the message types, the
//! worker's command table, the assembly of pixel buffers from per-pixel iteration
//! counts, the colour table, the image file encoding, and the front-end's handling
//! of keys and status messages. The single-precision arithmetic that moves the
//! view and evaluates a point is left to the program that drives the engine: the
//! library carries such numbers as bit patterns, which it can put in order but
//! on which it does no arithmetic.

pub mod cli;
pub mod engine;
pub mod link;
pub mod navigation;
pub mod palette;
pub mod ppm;
pub mod protocol;
pub mod render;
pub mod session;
pub mod single;
pub mod ui;
