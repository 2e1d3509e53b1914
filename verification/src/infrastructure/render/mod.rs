pub mod cells;
pub mod ink;
pub mod layout;
pub mod line;
pub mod markdown;
pub mod theme;
pub mod view;
pub mod view_laws;
pub mod widgets;
