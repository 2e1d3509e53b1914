pub mod application;
pub mod clock;
pub mod conversation;
pub mod domain;
pub mod infrastructure;
pub mod kernel;
pub mod style;
pub mod text;
