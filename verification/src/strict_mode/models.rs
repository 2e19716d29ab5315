use vstd::prelude::*;
use crate::text::clone_opt_string;

verus! {

/// Configuration for strict mode.
#[derive(Debug, Clone)]
pub struct StrictModeConfig {
    /// Whether strict mode is enabled.
    pub enabled: bool,
    /// Key combination that leaves strict mode (e.g. `Cmd+Shift+E`).
    pub emergency_key_combination: Option<String>,
    /// Countdown before a break starts, in seconds.
    pub transition_countdown_seconds: u32,
}

impl StrictModeConfig {
    /// An exact copy of the configuration.
    pub fn snapshot(&self) -> (c: StrictModeConfig)
        ensures
            c == *self,
    {
        StrictModeConfig {
            enabled: self.enabled,
            emergency_key_combination: clone_opt_string(&self.emergency_key_combination),
            transition_countdown_seconds: self.transition_countdown_seconds,
        }
    }
}

impl StrictModeConfig {
    /// The strict mode configuration the stored settings describe.
    pub fn from_settings(settings: &crate::models::UserSettings) -> (c: StrictModeConfig)
        ensures
            c.enabled == settings.strict_mode,
            c.emergency_key_combination == settings.emergency_key_combination,
            c.transition_countdown_seconds == crate::api_models::wrap_u32(
                settings.break_transition_seconds as int,
            ),
    {
        StrictModeConfig {
            enabled: settings.strict_mode,
            emergency_key_combination: clone_opt_string(&settings.emergency_key_combination),
            transition_countdown_seconds: crate::api_models::i64_to_u32_wrapping(
                settings.break_transition_seconds as i64,
            ),
        }
    }
}

impl Default for StrictModeConfig {
    fn default() -> (c: StrictModeConfig)
        ensures
            !c.enabled,
            c.emergency_key_combination is None,
            c.transition_countdown_seconds == 10,
    {
        StrictModeConfig {
            enabled: false,
            emergency_key_combination: None,
            transition_countdown_seconds: 10,
        }
    }
}

/// Windows used in strict mode.
#[derive(Debug, Clone, Copy, PartialEq, Eq, Structural)]
pub enum StrictModeWindowType {
    /// Menu bar icon (minimized state).
    MenuBarIcon,
    /// Popover shown when clicking the menu bar icon.
    MenuBarPopover,
    /// Transition window before a break starts.
    BreakTransition,
    /// Fullscreen overlay during a break (locked).
    FullscreenBreakOverlay,
}

impl StrictModeWindowType {
    /// The name of the window kind.
    pub open spec fn name(self) -> Seq<char> {
        match self {
            StrictModeWindowType::MenuBarIcon => "menu_bar_icon"@,
            StrictModeWindowType::MenuBarPopover => "menu_bar_popover"@,
            StrictModeWindowType::BreakTransition => "break_transition"@,
            StrictModeWindowType::FullscreenBreakOverlay => "fullscreen_break_overlay"@,
        }
    }

    /// The window type's display name.
    pub fn as_str(&self) -> (s: &'static str)
        ensures
            s@ == self.name(),
    {
        match self {
            StrictModeWindowType::MenuBarIcon => "menu_bar_icon",
            StrictModeWindowType::MenuBarPopover => "menu_bar_popover",
            StrictModeWindowType::BreakTransition => "break_transition",
            StrictModeWindowType::FullscreenBreakOverlay => "fullscreen_break_overlay",
        }
    }
}

/// Current state of strict mode.
#[derive(Debug, Clone, Copy, PartialEq, Eq, Structural)]
pub struct StrictModeState {
    /// Strict mode is active.
    pub is_active: bool,
    /// The system is locked (during a break).
    pub is_locked: bool,
    /// The strict-mode window being displayed.
    pub current_window_type: Option<StrictModeWindowType>,
}

impl StrictModeState {
    /// Inactive, unlocked, no window.
    pub open spec fn initial() -> StrictModeState {
        StrictModeState { is_active: false, is_locked: false, current_window_type: None }
    }
}

impl Default for StrictModeState {
    fn default() -> (s: StrictModeState)
        ensures
            s == StrictModeState::initial(),
    {
        StrictModeState { is_active: false, is_locked: false, current_window_type: None }
    }
}

} // verus!
