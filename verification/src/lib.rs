//! Window-lifecycle and input-dispatch engine for a variable-refresh-rate
//! window harness: key-binding resolution, the per-window presentation state
//! machine and the controller that owns every window's state.

pub mod actions;
pub mod modifiers;
pub mod bindings;
pub mod display;
pub mod effects;
pub mod window_state;
pub mod utils;
pub mod events;
pub mod app;
pub mod event_handling;
pub mod report;
