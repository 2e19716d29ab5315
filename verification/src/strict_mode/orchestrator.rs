use vstd::prelude::*;
use super::models::{StrictModeConfig, StrictModeState, StrictModeWindowType};
use crate::cycle_orchestrator::{CycleEvent, CyclePhase};
use crate::cycle_orchestrator::is_err_msg;

verus! {

/// What the window layer is asked to do.
#[derive(Debug, Clone, Copy, PartialEq, Eq, Structural)]
pub enum StrictModeEvent {
    MinimizeToMenuBar,
    ShowBreakTransition,
    ShowBreakOverlay,
    ReturnToMenuBar,
    EmergencyExit,
}

/// Drives the strict-mode windows and lock from the cycle events.
pub struct StrictModeOrchestrator {
    config: StrictModeConfig,
    state: StrictModeState,
}

/// The window requests and state that a cycle event leads to while strict
/// mode is active.
pub open spec fn handle_spec(st: StrictModeState, event: CycleEvent) -> (StrictModeState, Seq<
    StrictModeEvent,
>) {
    if !st.is_active {
        (st, seq![])
    } else {
        match event {
            CycleEvent::PhaseStarted { phase, .. } => match phase {
                CyclePhase::Focus => (
                    StrictModeState {
                        current_window_type: Some(StrictModeWindowType::MenuBarIcon),
                        ..st
                    },
                    seq![StrictModeEvent::MinimizeToMenuBar],
                ),
                CyclePhase::ShortBreak | CyclePhase::LongBreak => (
                    StrictModeState {
                        current_window_type: Some(StrictModeWindowType::BreakTransition),
                        ..st
                    },
                    seq![StrictModeEvent::ShowBreakTransition],
                ),
                CyclePhase::Idle => (st, seq![]),
            },
            CycleEvent::PhaseEnded { phase, .. } => match phase {
                CyclePhase::ShortBreak | CyclePhase::LongBreak => (
                    StrictModeState {
                        current_window_type: Some(StrictModeWindowType::MenuBarIcon),
                        ..st
                    },
                    seq![StrictModeEvent::ReturnToMenuBar],
                ),
                _ => (st, seq![]),
            },
            _ => (st, seq![]),
        }
    }
}

/// Strict mode switched off: unlocked and no window.
pub open spec fn exited(st: StrictModeState) -> StrictModeState {
    StrictModeState { is_active: false, is_locked: false, current_window_type: None }
}

impl StrictModeOrchestrator {
    /// The configuration in use.
    pub closed spec fn config(&self) -> StrictModeConfig {
        self.config
    }

    /// The current strict-mode state.
    pub closed spec fn state(&self) -> StrictModeState {
        self.state
    }

    /// A new orchestrator, inactive.
    pub fn new(config: StrictModeConfig) -> (o: Self)
        ensures
            o.config() == config,
            o.state() == StrictModeState::initial(),
    {
        StrictModeOrchestrator { config, state: StrictModeState::default() }
    }

    /// Activates strict mode.
    pub fn activate(&mut self) -> (r: Result<(), String>)
        ensures
            final(self).config() == old(self).config(),
            old(self).state().is_active ==> is_err_msg(r, "Strict mode is already active"@)
                && final(self).state() == old(self).state(),
            !old(self).state().is_active ==> r is Ok && final(self).state() == (StrictModeState {
                is_active: true,
                ..old(self).state()
            }),
    {
        if self.state.is_active {
            return Err(String::from_str("Strict mode is already active"));
        }
        self.state.is_active = true;
        Ok(())
    }

    /// Deactivates strict mode, unlocking the system and closing its windows.
    pub fn deactivate(&mut self) -> (r: Result<(), String>)
        ensures
            final(self).config() == old(self).config(),
            !old(self).state().is_active ==> is_err_msg(r, "Strict mode is not active"@)
                && final(self).state() == old(self).state(),
            old(self).state().is_active ==> r is Ok && final(self).state() == exited(
                old(self).state(),
            ),
    {
        if !self.state.is_active {
            return Err(String::from_str("Strict mode is not active"));
        }
        if self.state.is_locked {
            self.unlock_system();
        }
        self.state.is_active = false;
        self.state.current_window_type = None;
        Ok(())
    }

    /// The current strict-mode state.
    pub fn get_state(&self) -> (s: StrictModeState)
        ensures
            s == self.state(),
    {
        self.state
    }

    /// Replaces the configuration.
    pub fn update_config(&mut self, config: StrictModeConfig)
        ensures
            final(self).config() == config,
            final(self).state() == old(self).state(),
    {
        self.config = config;
    }

    /// The current configuration.
    pub fn get_config(&self) -> (c: StrictModeConfig)
        ensures
            c == self.config(),
    {
        self.config.snapshot()
    }

    /// Whether strict mode is active.
    pub fn is_active(&self) -> (b: bool)
        ensures
            b == self.state().is_active,
    {
        self.state.is_active
    }

    fn unlock_system(&mut self)
        ensures
            final(self).config() == old(self).config(),
            final(self).state() == (StrictModeState { is_locked: false, ..old(self).state() }),
    {
        self.state.is_locked = false;
    }

    /// Reacts to a cycle event: focus minimizes to the menu bar, a break
    /// start shows the transition window, a break end returns to the menu bar.
    /// Nothing happens while strict mode is inactive.
    pub fn handle_cycle_event(&mut self, event: &CycleEvent) -> (r: Result<
        Vec<StrictModeEvent>,
        String,
    >)
        ensures
            final(self).config() == old(self).config(),
            r matches Ok(ev) && ev@ == handle_spec(old(self).state(), *event).1,
            final(self).state() == handle_spec(old(self).state(), *event).0,
    {
        let mut events: Vec<StrictModeEvent> = Vec::new();
        if !self.state.is_active {
            return Ok(events);
        }
        match event {
            CycleEvent::PhaseStarted { phase, .. } => match phase {
                CyclePhase::Focus => {
                    events.push(StrictModeEvent::MinimizeToMenuBar);
                    self.state.current_window_type = Some(StrictModeWindowType::MenuBarIcon);
                },
                CyclePhase::ShortBreak | CyclePhase::LongBreak => {
                    events.push(StrictModeEvent::ShowBreakTransition);
                    self.state.current_window_type = Some(StrictModeWindowType::BreakTransition);
                },
                CyclePhase::Idle => {},
            },
            CycleEvent::PhaseEnded { phase, .. } => match phase {
                CyclePhase::ShortBreak | CyclePhase::LongBreak => {
                    events.push(StrictModeEvent::ReturnToMenuBar);
                    self.state.current_window_type = Some(StrictModeWindowType::MenuBarIcon);
                },
                _ => {},
            },
            _ => {},
        }
        Ok(events)
    }

    /// Shows the break transition window.
    pub fn show_break_transition(&mut self) -> (r: Result<(), String>)
        ensures
            r is Ok,
            final(self).config() == old(self).config(),
            final(self).state() == (StrictModeState {
                current_window_type: Some(StrictModeWindowType::BreakTransition),
                ..old(self).state()
            }),
    {
        self.state.current_window_type = Some(StrictModeWindowType::BreakTransition);
        Ok(())
    }

    /// Starts the break after the transition: the overlay and the lock.
    pub fn start_break_from_transition(&mut self) -> (r: Result<(), String>)
        ensures
            r is Ok,
            final(self).config() == old(self).config(),
            final(self).state() == (StrictModeState {
                current_window_type: Some(StrictModeWindowType::FullscreenBreakOverlay),
                is_locked: true,
                ..old(self).state()
            }),
    {
        self.show_fullscreen_break_overlay()
    }

    /// Shows the fullscreen break overlay and locks the system.
    pub fn show_fullscreen_break_overlay(&mut self) -> (r: Result<(), String>)
        ensures
            r is Ok,
            final(self).config() == old(self).config(),
            final(self).state() == (StrictModeState {
                current_window_type: Some(StrictModeWindowType::FullscreenBreakOverlay),
                is_locked: true,
                ..old(self).state()
            }),
    {
        self.state.current_window_type = Some(StrictModeWindowType::FullscreenBreakOverlay);
        self.state.is_locked = true;
        Ok(())
    }

    /// Hides the break overlay, unlocking the system, back to the menu bar.
    pub fn hide_fullscreen_break_overlay(&mut self) -> (r: Result<(), String>)
        ensures
            r is Ok,
            final(self).config() == old(self).config(),
            final(self).state() == (StrictModeState {
                current_window_type: Some(StrictModeWindowType::MenuBarIcon),
                is_locked: false,
                ..old(self).state()
            }),
    {
        self.state.is_locked = false;
        self.state.current_window_type = Some(StrictModeWindowType::MenuBarIcon);
        Ok(())
    }

    /// Shows the menu bar popover.
    pub fn show_menu_bar_popover(&mut self) -> (r: Result<(), String>)
        ensures
            r is Ok,
            final(self).config() == old(self).config(),
            final(self).state() == (StrictModeState {
                current_window_type: Some(StrictModeWindowType::MenuBarPopover),
                ..old(self).state()
            }),
    {
        self.state.current_window_type = Some(StrictModeWindowType::MenuBarPopover);
        Ok(())
    }

    /// Hides the menu bar popover, back to the icon.
    pub fn hide_menu_bar_popover(&mut self) -> (r: Result<(), String>)
        ensures
            r is Ok,
            final(self).config() == old(self).config(),
            final(self).state() == (StrictModeState {
                current_window_type: Some(StrictModeWindowType::MenuBarIcon),
                ..old(self).state()
            }),
    {
        self.state.current_window_type = Some(StrictModeWindowType::MenuBarIcon);
        Ok(())
    }

    /// Leaves strict mode at once, whatever its state: unlocked, no window.
    pub fn emergency_exit(&mut self) -> (r: Result<(), String>)
        ensures
            r is Ok,
            final(self).config() == old(self).config(),
            final(self).state() == exited(old(self).state()),
    {
        if self.state.is_locked {
            self.unlock_system();
        }
        self.state.is_active = false;
        self.state.current_window_type = None;
        Ok(())
    }
}

/// Strict mode ignores the cycle while inactive.
pub proof fn law_inactive_ignores_cycle(st: StrictModeState, event: CycleEvent)
    requires
        !st.is_active,
    ensures
        handle_spec(st, event).0 == st,
        handle_spec(st, event).1.len() == 0,
{
}

/// Cycle events never lock or unlock the system, nor switch strict mode on
/// or off: only the overlay and the exits do.
pub proof fn law_cycle_events_keep_lock(st: StrictModeState, event: CycleEvent)
    ensures
        handle_spec(st, event).0.is_locked == st.is_locked,
        handle_spec(st, event).0.is_active == st.is_active,
{
}

/// A break shows the transition window and its end returns to the menu bar:
/// for an active strict mode, the start of a break followed by its end leaves
/// the menu bar icon displayed.
pub proof fn law_break_round_trip(st: StrictModeState, phase: CyclePhase, duration: u32, count: u32, completed: bool)
    requires
        st.is_active,
        phase == CyclePhase::ShortBreak || phase == CyclePhase::LongBreak,
    ensures
        handle_spec(st, CycleEvent::PhaseStarted { phase, duration, cycle_count: count }).0.current_window_type
            == Some(StrictModeWindowType::BreakTransition),
        handle_spec(
            handle_spec(st, CycleEvent::PhaseStarted { phase, duration, cycle_count: count }).0,
            CycleEvent::PhaseEnded { phase, completed },
        ).0.current_window_type == Some(StrictModeWindowType::MenuBarIcon),
{
}

} // verus!
