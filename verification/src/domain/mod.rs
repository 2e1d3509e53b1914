pub mod command_laws;
pub mod command_menu;
pub mod history;
pub mod input;
pub mod editor_laws;
pub mod input_buffer;
pub mod instructions;
pub mod modal;
pub mod model;
pub mod nav;
pub mod picker;
pub mod scroll;
pub mod selection;
pub mod transcript;
pub mod wizard;
