//! Viewer logic of a Mandelbrot / Julia set explorer: integer geometry,
//! the window's input queries and error types, the OpenGL program call
//! sequences and the per-frame input state machine.

pub mod math;
pub mod window;
pub mod program;
pub mod viewer;
