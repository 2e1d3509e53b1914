pub mod bridge;
pub mod clipboard;
pub mod distill;
pub mod hook_dispatch;
pub mod loop_laws;
pub mod provider_laws;
pub mod provider_swap;
pub mod render;
pub mod session_ops;
pub mod sync;
pub mod tui;
pub mod turn;
pub mod turn_laws;
