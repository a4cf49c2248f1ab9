//! A GLSL front end (lexer, expression parser, constant evaluator and
//! preprocessor) together with the data types of a small WebGL engine.
pub mod text;
pub mod glsl;
pub mod webgl;
pub mod engine;
pub mod uniapp;
