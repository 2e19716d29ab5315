use vstd::prelude::*;
use crate::cycle_orchestrator::is_err_msg;
use crate::text::{clone_opt_string, seq_contains, str_contains, str_eq};

verus! {

/// The combination names a modifier key.
pub open spec fn has_modifier(s: Seq<char>) -> bool {
    ||| seq_contains(s, "Cmd"@)
    ||| seq_contains(s, "Ctrl"@)
    ||| seq_contains(s, "Alt"@)
    ||| seq_contains(s, "Shift"@)
}

/// System shortcuts that may not serve as the emergency key.
pub open spec fn is_system_shortcut(s: Seq<char>) -> bool {
    ||| s == "Cmd+Q"@
    ||| s == "Cmd+W"@
    ||| s == "Cmd+M"@
    ||| s == "Cmd+H"@
    ||| s == "Cmd+Tab"@
    ||| s == "Alt+F4"@
    ||| s == "Ctrl+Alt+Delete"@
}

/// The verdict on an emergency hotkey combination: empty, without modifier,
/// a system shortcut (each refused with its message), or accepted.
pub open spec fn hotkey_verdict(s: Seq<char>) -> Result<(), Seq<char>> {
    if s.len() == 0 {
        Err("Emergency hotkey combination cannot be empty"@)
    } else if !has_modifier(s) {
        Err("Emergency hotkey must include at least one modifier key (Cmd, Ctrl, Alt, Shift)"@)
    } else if is_system_shortcut(s) {
        Err("Cannot use system shortcut '"@ + s + "' as emergency key"@)
    } else {
        Ok(())
    }
}

/// Checks an emergency hotkey combination.
pub fn validate_emergency_hotkey(combination: &str) -> (r: Result<(), String>)
    ensures
        match hotkey_verdict(combination@) {
            Ok(()) => r is Ok,
            Err(m) => is_err_msg(r, m),
        },
{
    if combination.unicode_len() == 0 {
        return Err(String::from_str("Emergency hotkey combination cannot be empty"));
    }
    let has_mod = str_contains(combination, "Cmd") || str_contains(combination, "Ctrl")
        || str_contains(combination, "Alt") || str_contains(combination, "Shift");
    if !has_mod {
        return Err(
            String::from_str(
                "Emergency hotkey must include at least one modifier key (Cmd, Ctrl, Alt, Shift)",
            ),
        );
    }
    let forbidden = str_eq(combination, "Cmd+Q") || str_eq(combination, "Cmd+W") || str_eq(
        combination,
        "Cmd+M",
    ) || str_eq(combination, "Cmd+H") || str_eq(combination, "Cmd+Tab") || str_eq(
        combination,
        "Alt+F4",
    ) || str_eq(combination, "Ctrl+Alt+Delete");
    if forbidden {
        let m = String::from_str("Cannot use system shortcut '").concat(combination).concat(
            "' as emergency key",
        );
        return Err(m);
    }
    Ok(())
}

/// Input lock during strict-mode breaks and the registered emergency hotkey.
pub struct SystemLockManager {
    is_locked: bool,
    emergency_hotkey: Option<String>,
}

impl SystemLockManager {
    /// Whether the system is locked.
    pub closed spec fn locked(&self) -> bool {
        self.is_locked
    }

    /// The registered emergency hotkey.
    pub closed spec fn hotkey(&self) -> Option<String> {
        self.emergency_hotkey
    }

    /// Unlocked, no hotkey registered.
    pub fn new() -> (m: Self)
        ensures
            !m.locked(),
            m.hotkey() is None,
    {
        SystemLockManager { is_locked: false, emergency_hotkey: None }
    }

    /// Locks the system.  `window_setup` is the outcome of making the break
    /// window fullscreen, always on top and focused, which the window layer
    /// does only while unlocked; its error is passed on and leaves the lock
    /// unchanged.
    pub fn lock_system(&mut self, window_setup: Result<(), String>) -> (r: Result<(), String>)
        ensures
            final(self).hotkey() == old(self).hotkey(),
            old(self).locked() ==> is_err_msg(r, "System is already locked"@) && final(self).locked(),
            !old(self).locked() ==> (match window_setup {
                Ok(()) => r is Ok && final(self).locked(),
                Err(e) => r == Err::<(), String>(e) && !final(self).locked(),
            }),
    {
        if self.is_locked {
            return Err(String::from_str("System is already locked"));
        }
        match window_setup {
            Ok(()) => {
                self.is_locked = true;
                Ok(())
            },
            Err(e) => Err(e),
        }
    }

    /// Unlocks the system.  `window_restore` is the outcome of leaving
    /// fullscreen (`Ok` when there is no window); its error is passed on and
    /// leaves the lock unchanged.
    pub fn unlock_system(&mut self, window_restore: Result<(), String>) -> (r: Result<(), String>)
        ensures
            final(self).hotkey() == old(self).hotkey(),
            !old(self).locked() ==> is_err_msg(r, "System is not locked"@) && !final(self).locked(),
            old(self).locked() ==> (match window_restore {
                Ok(()) => r is Ok && !final(self).locked(),
                Err(e) => r == Err::<(), String>(e) && final(self).locked(),
            }),
    {
        if !self.is_locked {
            return Err(String::from_str("System is not locked"));
        }
        match window_restore {
            Ok(()) => {
                self.is_locked = false;
                Ok(())
            },
            Err(e) => Err(e),
        }
    }

    /// Whether the system is locked.
    pub fn is_locked(&self) -> (b: bool)
        ensures
            b == self.locked(),
    {
        self.is_locked
    }

    /// Registers the emergency hotkey once it passes validation.
    pub fn register_emergency_hotkey(&mut self, combination: String) -> (r: Result<(), String>)
        ensures
            final(self).locked() == old(self).locked(),
            match hotkey_verdict(combination@) {
                Ok(()) => r is Ok && final(self).hotkey() == Some(combination),
                Err(m) => is_err_msg(r, m) && final(self).hotkey() == old(self).hotkey(),
            },
    {
        match validate_emergency_hotkey(combination.as_str()) {
            Ok(()) => {
                self.emergency_hotkey = Some(combination);
                Ok(())
            },
            Err(e) => Err(e),
        }
    }

    /// Removes the registered emergency hotkey.
    pub fn unregister_emergency_hotkey(&mut self) -> (r: Result<(), String>)
        ensures
            final(self).locked() == old(self).locked(),
            old(self).hotkey() is None ==> is_err_msg(r, "No emergency hotkey is registered"@),
            old(self).hotkey() is Some ==> r is Ok,
            final(self).hotkey() is None,
    {
        if self.emergency_hotkey.is_none() {
            return Err(String::from_str("No emergency hotkey is registered"));
        }
        self.emergency_hotkey = None;
        Ok(())
    }

    /// The registered emergency hotkey.
    pub fn get_emergency_hotkey(&self) -> (h: Option<String>)
        ensures
            h == self.hotkey(),
    {
        clone_opt_string(&self.emergency_hotkey)
    }

    /// Unlocks the system whatever its state.
    pub fn force_unlock(&mut self) -> (r: Result<(), String>)
        ensures
            r is Ok,
            !final(self).locked(),
            final(self).hotkey() == old(self).hotkey(),
    {
        self.is_locked = false;
        Ok(())
    }
}

/// A registered emergency hotkey is never empty, always names a modifier and
/// is never a system shortcut.
pub proof fn law_registered_hotkey_is_valid(s: Seq<char>)
    requires
        hotkey_verdict(s) is Ok,
    ensures
        s.len() > 0,
        has_modifier(s),
        !is_system_shortcut(s),
{
}

/// The seven system shortcuts `Cmd+Q`, `Cmd+W`, `Cmd+M`, `Cmd+H`,
/// `Cmd+Tab`, `Alt+F4` and `Ctrl+Alt+Delete` are each refused as the
/// emergency key, with the message naming the combination.
pub proof fn law_system_shortcuts_refused(s: Seq<char>)
    requires
        s == "Cmd+Q"@ || s == "Cmd+W"@ || s == "Cmd+M"@ || s == "Cmd+H"@ || s == "Cmd+Tab"@ || s
            == "Alt+F4"@ || s == "Ctrl+Alt+Delete"@,
    ensures
        hotkey_verdict(s) == Err::<(), Seq<char>>("Cannot use system shortcut '"@ + s + "' as emergency key"@),
{
    reveal_strlit("Cmd+Q");
    reveal_strlit("Cmd+W");
    reveal_strlit("Cmd+M");
    reveal_strlit("Cmd+H");
    reveal_strlit("Cmd+Tab");
    reveal_strlit("Alt+F4");
    reveal_strlit("Ctrl+Alt+Delete");
    reveal_strlit("Cmd");
    reveal_strlit("Ctrl");
    reveal_strlit("Alt");
    if s[0] == 'C' && s[1] == 'm' {
        assert(s.subrange(0, 3) =~= "Cmd"@);
        assert(crate::text::occurs_at(s, "Cmd"@, 0));
    } else if s[0] == 'A' {
        assert(s.subrange(0, 3) =~= "Alt"@);
        assert(crate::text::occurs_at(s, "Alt"@, 0));
    } else {
        assert(s.subrange(0, 4) =~= "Ctrl"@);
        assert(crate::text::occurs_at(s, "Ctrl"@, 0));
    }
    assert(s.len() > 0);
    assert(has_modifier(s));
}

} // verus!
