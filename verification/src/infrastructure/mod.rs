pub mod input;
pub mod render;
pub mod runtime;
