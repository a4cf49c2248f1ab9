//! The data types of the engine: render states, shaders, programs, sounds and
//! the watchers of game objects.
pub mod render;
pub mod shader;
pub mod program;
pub mod sound;
pub mod world;
pub mod files;
