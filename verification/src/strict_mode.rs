//! Strict mode: the window flow around breaks, the input lock and the
//! emergency hotkey.

pub mod models;
pub mod orchestrator;
pub mod system_lock_manager;

pub use models::{StrictModeConfig, StrictModeState, StrictModeWindowType};
pub use orchestrator::{StrictModeEvent, StrictModeOrchestrator};
pub use system_lock_manager::SystemLockManager;
