//! The GLSL ES front end.
pub mod operator;
pub mod token;
pub mod expression;
pub mod defeval;
pub mod declaration;
pub mod statement;
pub mod parser;
pub mod query;
pub mod preprocessor;
