//! The GLSL preprocessor.
pub mod lines;
pub mod session;
pub mod expand;
pub mod state;
pub mod process;
pub mod laws;
