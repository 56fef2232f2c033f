//! The capture session's caches, pool and state machine.

pub mod interactive_overlay;
pub mod overlay_manager;
pub mod screenshot_cache;
pub mod selection_overlay;
