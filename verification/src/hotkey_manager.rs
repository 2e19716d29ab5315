//! Global hotkeys: the actions, their default shortcuts, the registry of
//! configured hotkeys, and what each hotkey does in each application state.

use vstd::prelude::*;
use crate::state_manager::{AppState, StateEvent};

verus! {

/// What a hotkey does.
#[derive(Debug, Clone, Copy, PartialEq, Eq, Structural, Hash)]
pub enum HotkeyAction {
    ToggleCommandPalette,
    ToggleFocusSession,
    ImmediateLock,
}

/// Modifier keys of a shortcut (`meta` is Command on macOS).
#[derive(Debug, Clone, Copy, PartialEq, Eq, Structural, Hash)]
pub struct Modifiers {
    pub meta: bool,
    pub control: bool,
    pub alt: bool,
    pub shift: bool,
}

/// The keys the default shortcuts use.
#[derive(Debug, Clone, Copy, PartialEq, Eq, Structural, Hash)]
pub enum Code {
    Space,
    KeyF,
    KeyL,
}

/// A key with its modifiers.
#[derive(Debug, Clone, Copy, PartialEq, Eq, Structural, Hash)]
pub struct Shortcut {
    pub modifiers: Modifiers,
    pub code: Code,
}

/// The main modifier: Command on macOS, Control elsewhere.
pub open spec fn primary(macos: bool, shift: bool) -> Modifiers {
    Modifiers { meta: macos, control: !macos, alt: false, shift }
}

impl HotkeyAction {
    /// The default shortcut: the main modifier with Space for the command
    /// palette, with Shift and F for the focus session, with Shift and L for
    /// the immediate lock.
    pub open spec fn default_shortcut_spec(self, macos: bool) -> Shortcut {
        match self {
            HotkeyAction::ToggleCommandPalette => Shortcut { modifiers: primary(macos, false), code: Code::Space },
            HotkeyAction::ToggleFocusSession => Shortcut { modifiers: primary(macos, true), code: Code::KeyF },
            HotkeyAction::ImmediateLock => Shortcut { modifiers: primary(macos, true), code: Code::KeyL },
        }
    }

    /// The default shortcut on macOS (`macos`) or elsewhere.
    pub fn default_shortcut(&self, macos: bool) -> (s: Shortcut)
        ensures
            s == self.default_shortcut_spec(macos),
    {
        let shift = match self {
            HotkeyAction::ToggleCommandPalette => false,
            _ => true,
        };
        let code = match self {
            HotkeyAction::ToggleCommandPalette => Code::Space,
            HotkeyAction::ToggleFocusSession => Code::KeyF,
            HotkeyAction::ImmediateLock => Code::KeyL,
        };
        Shortcut { modifiers: Modifiers { meta: macos, control: !macos, alt: false, shift }, code }
    }

    /// What the action is called in the interface.
    pub fn description(&self) -> (d: &'static str)
        ensures
            d@ == match self {
                HotkeyAction::ToggleCommandPalette => "Toggle Command Palette"@,
                HotkeyAction::ToggleFocusSession => "Toggle Focus Session"@,
                HotkeyAction::ImmediateLock => "Immediate Lock/Break"@,
            },
    {
        match self {
            HotkeyAction::ToggleCommandPalette => "Toggle Command Palette",
            HotkeyAction::ToggleFocusSession => "Toggle Focus Session",
            HotkeyAction::ImmediateLock => "Immediate Lock/Break",
        }
    }
}

/// The default shortcuts are distinct on each platform.
pub proof fn law_default_shortcuts_distinct(a: HotkeyAction, b: HotkeyAction, macos: bool)
    ensures
        a != b ==> a.default_shortcut_spec(macos) != b.default_shortcut_spec(macos),
{
}

/// A configured hotkey.
#[derive(Debug, Clone, Copy, PartialEq, Eq, Structural)]
pub struct HotkeyConfig {
    pub action: HotkeyAction,
    pub shortcut: Shortcut,
    pub enabled: bool,
}

impl HotkeyConfig {
    /// The action with its default shortcut, enabled.
    pub fn new(action: HotkeyAction, macos: bool) -> (c: Self)
        ensures
            c == (HotkeyConfig { action, shortcut: action.default_shortcut_spec(macos), enabled: true }),
    {
        HotkeyConfig { action, shortcut: action.default_shortcut(macos), enabled: true }
    }

    /// The action with the given shortcut, enabled.
    pub fn with_shortcut(action: HotkeyAction, shortcut: Shortcut) -> (c: Self)
        ensures
            c == (HotkeyConfig { action, shortcut, enabled: true }),
    {
        HotkeyConfig { action, shortcut, enabled: true }
    }
}

/// What registering a hotkey asks of the system: the shortcut to release
/// first, if one was registered for the action, and whether to register.
#[derive(Debug, Clone, Copy, PartialEq, Eq, Structural)]
pub struct RegistrationPlan {
    pub unregister: Option<Shortcut>,
    pub register: bool,
}

/// A change of a hotkey's state that the system must follow.
#[derive(Debug, Clone, Copy, PartialEq, Eq, Structural)]
pub enum EnablementChange {
    Register(HotkeyConfig),
    Unregister(Shortcut),
}

/// The configured hotkeys, one per action.
#[derive(Debug, Clone, Copy)]
pub struct HotkeyRegistry {
    palette: Option<HotkeyConfig>,
    focus: Option<HotkeyConfig>,
    lock: Option<HotkeyConfig>,
}

impl HotkeyRegistry {
    /// The hotkey configured for an action, if any.
    pub closed spec fn get(&self, a: HotkeyAction) -> Option<HotkeyConfig> {
        match a {
            HotkeyAction::ToggleCommandPalette => self.palette,
            HotkeyAction::ToggleFocusSession => self.focus,
            HotkeyAction::ImmediateLock => self.lock,
        }
    }

    /// The configuration stored for each action is for that action.
    pub closed spec fn wf(&self) -> bool {
        forall|a: HotkeyAction| #[trigger] self.get(a) matches Some(c) ==> c.action == a
    }

    /// No hotkey configured.
    pub fn new() -> (r: Self)
        ensures
            r.wf(),
            forall|a: HotkeyAction| #[trigger] r.get(a) is None,
    {
        HotkeyRegistry { palette: None, focus: None, lock: None }
    }

    fn slot(&self, a: HotkeyAction) -> (c: Option<HotkeyConfig>)
        ensures
            c == self.get(a),
    {
        match a {
            HotkeyAction::ToggleCommandPalette => self.palette,
            HotkeyAction::ToggleFocusSession => self.focus,
            HotkeyAction::ImmediateLock => self.lock,
        }
    }

    fn set_slot(&mut self, a: HotkeyAction, c: Option<HotkeyConfig>)
        ensures
            final(self).get(a) == c,
            forall|b: HotkeyAction| b != a ==> #[trigger] final(self).get(b) == old(self).get(b),
    {
        match a {
            HotkeyAction::ToggleCommandPalette => self.palette = c,
            HotkeyAction::ToggleFocusSession => self.focus = c,
            HotkeyAction::ImmediateLock => self.lock = c,
        }
    }

    /// What registering `config` asks of the system: nothing for a disabled
    /// hotkey; else release the shortcut held for the action, if any, and
    /// register the new one.
    pub fn plan_registration(&self, config: &HotkeyConfig) -> (p: RegistrationPlan)
        ensures
            p == (if !config.enabled {
                RegistrationPlan { unregister: None, register: false }
            } else {
                RegistrationPlan {
                    unregister: match self.get(config.action) {
                        Some(e) => Some(e.shortcut),
                        None => None,
                    },
                    register: true,
                }
            }),
    {
        if !config.enabled {
            return RegistrationPlan { unregister: None, register: false };
        }
        let unregister = match self.slot(config.action) {
            Some(e) => Some(e.shortcut),
            None => None,
        };
        RegistrationPlan { unregister, register: true }
    }

    /// Records a hotkey the system registered.
    pub fn record_registration(&mut self, config: HotkeyConfig)
        requires
            old(self).wf(),
        ensures
            final(self).wf(),
            final(self).get(config.action) == Some(config),
            forall|b: HotkeyAction| b != config.action ==> #[trigger] final(self).get(b) == old(self).get(b),
    {
        self.set_slot(config.action, Some(config));
    }

    /// Forgets the hotkey of an action and returns its shortcut, for the
    /// system to release.
    pub fn unregister_hotkey(&mut self, action: HotkeyAction) -> (s: Option<Shortcut>)
        requires
            old(self).wf(),
        ensures
            final(self).wf(),
            final(self).get(action) is None,
            forall|b: HotkeyAction| b != action ==> #[trigger] final(self).get(b) == old(self).get(b),
            s == match old(self).get(action) {
                Some(c) => Some(c.shortcut),
                None => None::<Shortcut>,
            },
    {
        let old_slot = self.slot(action);
        self.set_slot(action, None);
        match old_slot {
            Some(c) => Some(c.shortcut),
            None => None,
        }
    }

    /// Turns a configured hotkey on or off.  Nothing changes for an action
    /// without a hotkey or one already in that state; else the stored
    /// configuration changes and the system must register it again or
    /// release its shortcut.
    pub fn set_hotkey_enabled(&mut self, action: HotkeyAction, enabled: bool) -> (c: Option<EnablementChange>)
        requires
            old(self).wf(),
        ensures
            final(self).wf(),
            match old(self).get(action) {
                None => c is None && *final(self) == *old(self),
                Some(cfg) => if cfg.enabled == enabled {
                    c is None && *final(self) == *old(self)
                } else {
                    &&& final(self).get(action) == Some(HotkeyConfig { enabled, ..cfg })
                    &&& forall|b: HotkeyAction| b != action ==> #[trigger] final(self).get(b) == old(self).get(b)
                    &&& c == Some(if enabled {
                        EnablementChange::Register(HotkeyConfig { enabled, ..cfg })
                    } else {
                        EnablementChange::Unregister(cfg.shortcut)
                    })
                },
            },
    {
        match self.slot(action) {
            None => None,
            Some(cfg) => {
                if cfg.enabled == enabled {
                    return None;
                }
                let updated = HotkeyConfig { enabled, ..cfg };
                self.set_slot(action, Some(updated));
                if enabled {
                    Some(EnablementChange::Register(updated))
                } else {
                    Some(EnablementChange::Unregister(cfg.shortcut))
                }
            },
        }
    }

    /// The configured hotkeys, in the order of the actions.
    pub fn get_hotkey_configs(&self) -> (v: Vec<HotkeyConfig>)
        requires
            self.wf(),
        ensures
            forall|a: HotkeyAction| #[trigger] self.get(a) matches Some(c) ==> v@.contains(c),
            forall|i: int| 0 <= i < v@.len() ==> self.get(#[trigger] v@[i].action) == Some(v@[i]),
    {
        let mut v: Vec<HotkeyConfig> = Vec::new();
        if let Some(c) = self.palette {
            v.push(c);
        }
        if let Some(c) = self.focus {
            v.push(c);
        }
        if let Some(c) = self.lock {
            v.push(c);
        }
        proof {
            assert(self.get(HotkeyAction::ToggleCommandPalette) == self.palette);
            assert(self.get(HotkeyAction::ToggleFocusSession) == self.focus);
            assert(self.get(HotkeyAction::ImmediateLock) == self.lock);
            assert forall|a: HotkeyAction| #[trigger] self.get(a) is Some implies v@.contains(self.get(a)->0) by {
                match a {
                    HotkeyAction::ToggleCommandPalette => assert(v@[0] == self.get(a)->0),
                    HotkeyAction::ToggleFocusSession => {
                        if self.palette is Some {
                            assert(v@[1] == self.get(a)->0);
                        } else {
                            assert(v@[0] == self.get(a)->0);
                        }
                    },
                    HotkeyAction::ImmediateLock => assert(v@[v@.len() - 1] == self.get(a)->0),
                }
            }
        }
        v
    }

    /// The actions whose hotkey is disabled.
    pub fn check_for_conflicts(&self) -> (v: Vec<HotkeyAction>)
        requires
            self.wf(),
        ensures
            forall|a: HotkeyAction| v@.contains(a) <==> (#[trigger] self.get(a) matches Some(c) && !c.enabled),
            v@.no_duplicates(),
    {
        let mut v: Vec<HotkeyAction> = Vec::new();
        if let Some(c) = self.palette {
            if !c.enabled {
                v.push(HotkeyAction::ToggleCommandPalette);
            }
        }
        if let Some(c) = self.focus {
            if !c.enabled {
                v.push(HotkeyAction::ToggleFocusSession);
            }
        }
        if let Some(c) = self.lock {
            if !c.enabled {
                v.push(HotkeyAction::ImmediateLock);
            }
        }
        proof {
            assert(self.get(HotkeyAction::ToggleCommandPalette) == self.palette);
            assert(self.get(HotkeyAction::ToggleFocusSession) == self.focus);
            assert(self.get(HotkeyAction::ImmediateLock) == self.lock);
            assert forall|a: HotkeyAction| v@.contains(a) <==> (#[trigger] self.get(a) matches Some(c) && !c.enabled) by {
                if v@.contains(a) {
                    let k = choose|k: int| 0 <= k < v@.len() && v@[k] == a;
                }
                if self.get(a) matches Some(c) && !c.enabled {
                    match a {
                        HotkeyAction::ToggleCommandPalette => assert(v@[0] == a),
                        HotkeyAction::ToggleFocusSession => {
                            assert(v@[v@.len() - 1] == a || v@[v@.len() - 2] == a || v@[0] == a);
                        },
                        HotkeyAction::ImmediateLock => assert(v@[v@.len() - 1] == a),
                    }
                }
            }
        }
        v
    }
}

/// Which hotkeys stay enabled in an application state: the command palette
/// always, the focus toggle when idle or focusing, the immediate lock except
/// during a break.
pub fn hotkey_enablement(state: AppState) -> (e: (bool, bool, bool))
    ensures
        e == (true, state == AppState::Idle || state == AppState::FocusRunning, !(state
            == AppState::BreakRunning || state == AppState::LongBreakRunning)),
{
    (
        true,
        state == AppState::Idle || state == AppState::FocusRunning,
        !(state == AppState::BreakRunning || state == AppState::LongBreakRunning),
    )
}

/// What the focus hotkey does.
#[derive(Debug, Clone, Copy, PartialEq, Eq, Structural)]
pub enum FocusToggle {
    Start,
    Pause,
    Resume,
    Refuse,
}

/// What the immediate-lock hotkey does.
#[derive(Debug, Clone, Copy, PartialEq, Eq, Structural)]
pub enum LockAction {
    EndSession,
    StartShortBreak,
    Refuse,
}

/// What the focus hotkey does in `state`, `paused` telling whether the
/// focus session is paused: start from idle, resume a paused session, pause
/// a running one; nothing otherwise.
pub fn focus_toggle(state: AppState, paused: bool) -> (t: FocusToggle)
    ensures
        t == (if state == AppState::Idle {
            FocusToggle::Start
        } else if paused && (state == AppState::FocusRunning || state == AppState::FocusPreAlert) {
            FocusToggle::Resume
        } else if state == AppState::FocusRunning {
            FocusToggle::Pause
        } else {
            FocusToggle::Refuse
        }),
{
    if state == AppState::Idle {
        FocusToggle::Start
    } else if paused && (state == AppState::FocusRunning || state == AppState::FocusPreAlert) {
        FocusToggle::Resume
    } else if state == AppState::FocusRunning {
        FocusToggle::Pause
    } else {
        FocusToggle::Refuse
    }
}

/// What the immediate-lock hotkey does in `state`: end a running or paused
/// focus session (its break follows), start a short break from idle;
/// nothing otherwise.
pub fn immediate_lock(state: AppState, paused: bool) -> (l: LockAction)
    ensures
        l == (if state == AppState::FocusRunning || (paused && state == AppState::FocusPreAlert) {
            LockAction::EndSession
        } else if state == AppState::Idle {
            LockAction::StartShortBreak
        } else {
            LockAction::Refuse
        }),
{
    if state == AppState::FocusRunning || (paused && state == AppState::FocusPreAlert) {
        LockAction::EndSession
    } else if state == AppState::Idle {
        LockAction::StartShortBreak
    } else {
        LockAction::Refuse
    }
}

/// The name of an application state (as `Debug` writes it).
pub open spec fn state_name(s: AppState) -> Seq<char> {
    match s {
        AppState::Idle => "Idle"@,
        AppState::FocusRunning => "FocusRunning"@,
        AppState::FocusPreAlert => "FocusPreAlert"@,
        AppState::FocusEnding => "FocusEnding"@,
        AppState::BreakRunning => "BreakRunning"@,
        AppState::LongBreakRunning => "LongBreakRunning"@,
    }
}

/// The name of an application state.
pub fn state_name_exec(s: AppState) -> (n: &'static str)
    ensures
        n@ == state_name(s),
{
    match s {
        AppState::Idle => "Idle",
        AppState::FocusRunning => "FocusRunning",
        AppState::FocusPreAlert => "FocusPreAlert",
        AppState::FocusEnding => "FocusEnding",
        AppState::BreakRunning => "BreakRunning",
        AppState::LongBreakRunning => "LongBreakRunning",
    }
}

/// The outcome of a hotkey.
#[derive(Debug, Clone)]
pub struct HotkeyEventResult {
    pub action: HotkeyAction,
    pub success: bool,
    pub message: String,
    pub state_changes: Vec<StateEvent>,
}

/// The message after the command palette hotkey, from whether the palette
/// was visible before.
pub fn palette_message(was_visible: bool) -> (m: String)
    ensures
        m@ == (if was_visible {
            "Command palette hidden"@
        } else {
            "Command palette shown"@
        }),
{
    if was_visible {
        String::from_str("Command palette hidden")
    } else {
        String::from_str("Command palette shown")
    }
}

/// The message after the focus hotkey did `t` in `state`.
pub fn focus_toggle_message(t: FocusToggle, state: AppState) -> (m: String)
    ensures
        m@ == match t {
            FocusToggle::Start => "Focus session started"@,
            FocusToggle::Pause => "Focus session paused"@,
            FocusToggle::Resume => "Focus session resumed"@,
            FocusToggle::Refuse => "Cannot toggle focus session in state: "@ + state_name(state),
        },
{
    match t {
        FocusToggle::Start => String::from_str("Focus session started"),
        FocusToggle::Pause => String::from_str("Focus session paused"),
        FocusToggle::Resume => String::from_str("Focus session resumed"),
        FocusToggle::Refuse => {
            let mut m = String::from_str("Cannot toggle focus session in state: ");
            m.append(state_name_exec(state));
            m
        },
    }
}

/// The message after the immediate-lock hotkey did `l` in `state`.
pub fn lock_message(l: LockAction, state: AppState) -> (m: String)
    ensures
        m@ == match l {
            LockAction::EndSession => "Focus session ended, break started"@,
            LockAction::StartShortBreak => "Immediate break started"@,
            LockAction::Refuse => "Cannot start immediate lock in state: "@ + state_name(state),
        },
{
    match l {
        LockAction::EndSession => String::from_str("Focus session ended, break started"),
        LockAction::StartShortBreak => String::from_str("Immediate break started"),
        LockAction::Refuse => {
            let mut m = String::from_str("Cannot start immediate lock in state: ");
            m.append(state_name_exec(state));
            m
        },
    }
}

/// The modifier combinations offered for custom hotkeys, by name.
pub fn get_available_modifiers(macos: bool) -> (v: Vec<&'static str>)
    ensures
        v@.map_values(|s: &'static str| s@) == (if macos {
            seq!["Cmd"@, "Alt"@, "Shift"@, "Cmd+Shift"@, "Cmd+Alt"@]
        } else {
            seq!["Ctrl"@, "Alt"@, "Shift"@, "Ctrl+Shift"@, "Ctrl+Alt"@]
        }),
{
    let v = if macos {
        vec!["Cmd", "Alt", "Shift", "Cmd+Shift", "Cmd+Alt"]
    } else {
        vec!["Ctrl", "Alt", "Shift", "Ctrl+Shift", "Ctrl+Alt"]
    };
    proof {
        if macos {
            assert(v@.map_values(|s: &'static str| s@) =~= seq!["Cmd"@, "Alt"@, "Shift"@, "Cmd+Shift"@, "Cmd+Alt"@]);
        } else {
            assert(v@.map_values(|s: &'static str| s@) =~= seq!["Ctrl"@, "Alt"@, "Shift"@, "Ctrl+Shift"@, "Ctrl+Alt"@]);
        }
    }
    v
}

} // verus!
