//! The texts of the native notifications, addressed to the user by name
//! when the name is known.

use vstd::prelude::*;
use crate::cycle_flow::Notice;
use crate::text::decimal;

verus! {

/// Composes the notifications shown during work cycles.
#[derive(Debug)]
pub struct NotificationService {
    user_name: Option<String>,
}

/// `name, rest` when a name is known, else `capitalized_rest`.
pub open spec fn addressed(name: Option<String>, rest: Seq<char>, capitalized_rest: Seq<char>) -> Seq<char> {
    match name {
        Some(n) => n@ + ", "@ + rest,
        None => capitalized_rest,
    }
}

/// The title of a notification.
pub open spec fn notice_title(n: Notice) -> Seq<char> {
    match n {
        Notice::FocusStart => "Focus mode started"@,
        Notice::FocusWarning { .. } => "Focus session ending soon"@,
        Notice::FocusEnd => "Great work!"@,
        Notice::BreakStart => "Active break"@,
        Notice::LongBreakStart => "Excellent progress!"@,
        Notice::BreakEnd => "Ready"@,
        Notice::CycleComplete { .. } => "Cycle completed!"@,
    }
}

/// The body of a notification for a user with the given name.
pub open spec fn notice_body(name: Option<String>, n: Notice) -> Seq<char> {
    match n {
        Notice::FocusStart => addressed(
            name,
            "time to concentrate and do great work 🧠"@,
            "Time to concentrate and do great work 🧠"@,
        ),
        Notice::FocusWarning { minutes_left } => decimal(minutes_left as nat)
            + " minutes left. Time to wrap up ⏳"@,
        Notice::FocusEnd => addressed(name, "time to take a break ✨"@, "Time to take a break ✨"@),
        Notice::BreakStart => "Move. Stretch. Drink water ☕"@,
        Notice::LongBreakStart => addressed(
            name,
            "take a long break. You've earned it 🌟"@,
            "Take a long break. You've earned it 🌟"@,
        ),
        Notice::BreakEnd => "Shall we start another block? 💪"@,
        Notice::CycleComplete { cycle_count } => "You've completed "@ + decimal(cycle_count as nat)
            + " cycles. Keep it up! 🎉"@,
    }
}

impl NotificationService {
    /// The name notifications address, if any.
    pub closed spec fn name(&self) -> Option<String> {
        self.user_name
    }

    /// A service that addresses nobody by name.
    pub fn new() -> (s: Self)
        ensures
            s.name() is None,
    {
        NotificationService { user_name: None }
    }

    /// Sets (or clears) the name notifications address.
    pub fn set_user_name(&mut self, name: Option<String>)
        ensures
            final(self).name() == name,
    {
        self.user_name = name;
    }

    /// The name notifications address.
    pub fn get_user_name(&self) -> (n: Option<&str>)
        ensures
            match self.name() {
                Some(s) => n matches Some(t) && t@ == s@,
                None => n is None,
            },
    {
        match &self.user_name {
            Some(s) => Some(s.as_str()),
            None => None,
        }
    }

    fn address(&self, rest: &str, capitalized_rest: &str) -> (s: String)
        ensures
            s@ == addressed(self.name(), rest@, capitalized_rest@),
    {
        match &self.user_name {
            Some(n) => {
                let mut s = n.clone();
                s.append(", ");
                s.append(rest);
                s
            },
            None => String::from_str(capitalized_rest),
        }
    }

    /// The title and body of a notification.
    pub fn content(&self, notice: Notice) -> (r: (String, String))
        ensures
            r.0@ == notice_title(notice),
            r.1@ == notice_body(self.name(), notice),
    {
        match notice {
            Notice::FocusStart => (
                String::from_str("Focus mode started"),
                self.address(
                    "time to concentrate and do great work 🧠",
                    "Time to concentrate and do great work 🧠",
                ),
            ),
            Notice::FocusWarning { minutes_left } => {
                let mut b = crate::text::u64_to_decimal(minutes_left as u64);
                b.append(" minutes left. Time to wrap up ⏳");
                (String::from_str("Focus session ending soon"), b)
            },
            Notice::FocusEnd => (
                String::from_str("Great work!"),
                self.address("time to take a break ✨", "Time to take a break ✨"),
            ),
            Notice::BreakStart => (
                String::from_str("Active break"),
                String::from_str("Move. Stretch. Drink water ☕"),
            ),
            Notice::LongBreakStart => (
                String::from_str("Excellent progress!"),
                self.address(
                    "take a long break. You've earned it 🌟",
                    "Take a long break. You've earned it 🌟",
                ),
            ),
            Notice::BreakEnd => (
                String::from_str("Ready"),
                String::from_str("Shall we start another block? 💪"),
            ),
            Notice::CycleComplete { cycle_count } => {
                let mut b = String::from_str("You've completed ");
                let d = crate::text::u64_to_decimal(cycle_count as u64);
                b.append(d.as_str());
                b.append(" cycles. Keep it up! 🎉");
                (String::from_str("Cycle completed!"), b)
            },
        }
    }
}

impl Default for NotificationService {
    fn default() -> (s: Self)
        ensures
            s.name() is None,
    {
        NotificationService::new()
    }
}

} // verus!
