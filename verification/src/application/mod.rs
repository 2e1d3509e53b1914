pub mod command;
pub mod effect;
pub mod keymap;
pub mod msg;
pub mod update;
pub mod update_laws;
