//! The onboarding flow: its steps, the data collected at each step, and the
//! validation of the configuration it produces.

pub mod json;
pub mod validation;
pub mod flow;

use vstd::prelude::*;
use crate::onboarding::json::JsonValue;

verus! {

/// The steps of the onboarding flow, in order.
#[derive(Debug, Clone, Copy, PartialEq, Eq, Structural)]
pub enum OnboardingStep {
    Welcome,
    WorkHours,
    CycleConfig,
    StrictMode,
    Summary,
    Complete,
}

impl Default for OnboardingStep {
    fn default() -> (s: Self)
        ensures
            s == OnboardingStep::Welcome,
    {
        OnboardingStep::Welcome
    }
}

/// The step that follows `s`; none follows `Complete`.
pub open spec fn step_after(s: OnboardingStep) -> Option<OnboardingStep> {
    match s {
        OnboardingStep::Welcome => Some(OnboardingStep::WorkHours),
        OnboardingStep::WorkHours => Some(OnboardingStep::CycleConfig),
        OnboardingStep::CycleConfig => Some(OnboardingStep::StrictMode),
        OnboardingStep::StrictMode => Some(OnboardingStep::Summary),
        OnboardingStep::Summary => Some(OnboardingStep::Complete),
        OnboardingStep::Complete => None,
    }
}

/// The step that precedes `s`; none precedes `Welcome`.
pub open spec fn step_before(s: OnboardingStep) -> Option<OnboardingStep> {
    match s {
        OnboardingStep::Welcome => None,
        OnboardingStep::WorkHours => Some(OnboardingStep::Welcome),
        OnboardingStep::CycleConfig => Some(OnboardingStep::WorkHours),
        OnboardingStep::StrictMode => Some(OnboardingStep::CycleConfig),
        OnboardingStep::Summary => Some(OnboardingStep::StrictMode),
        OnboardingStep::Complete => Some(OnboardingStep::Summary),
    }
}

/// Walks a user through the onboarding steps and keeps the data entered at
/// each of them.  The flow is complete exactly when it stands on `Complete`.
#[derive(Debug)]
pub struct OnboardingManager {
    current_step: OnboardingStep,
    welcome: Option<JsonValue>,
    work_hours: Option<JsonValue>,
    cycle_config: Option<JsonValue>,
    strict_mode: Option<JsonValue>,
    summary: Option<JsonValue>,
    complete: Option<JsonValue>,
}

impl OnboardingManager {
    /// The step the flow stands on.
    pub closed spec fn step(&self) -> OnboardingStep {
        self.current_step
    }

    /// The data kept for a step.
    pub closed spec fn slot(&self, step: OnboardingStep) -> Option<JsonValue> {
        match step {
            OnboardingStep::Welcome => self.welcome,
            OnboardingStep::WorkHours => self.work_hours,
            OnboardingStep::CycleConfig => self.cycle_config,
            OnboardingStep::StrictMode => self.strict_mode,
            OnboardingStep::Summary => self.summary,
            OnboardingStep::Complete => self.complete,
        }
    }

    /// The data collected so far, by step.
    pub open spec fn data(&self) -> Map<OnboardingStep, JsonValue> {
        Map::new(|s: OnboardingStep| self.slot(s) is Some, |s: OnboardingStep| self.slot(s)->0)
    }

    /// A flow on its first step with no data.
    pub fn new() -> (m: Self)
        ensures
            m.step() == OnboardingStep::Welcome,
            m.data() == Map::<OnboardingStep, JsonValue>::empty(),
    {
        let m = OnboardingManager {
            current_step: OnboardingStep::Welcome,
            welcome: None,
            work_hours: None,
            cycle_config: None,
            strict_mode: None,
            summary: None,
            complete: None,
        };
        assert(m.data() =~= Map::<OnboardingStep, JsonValue>::empty());
        m
    }

    /// The step the flow stands on.
    pub fn get_current_step(&self) -> (s: &OnboardingStep)
        ensures
            *s == self.step(),
    {
        &self.current_step
    }

    /// Whether the flow has reached its last step.
    pub fn is_complete(&self) -> (b: bool)
        ensures
            b == (self.step() == OnboardingStep::Complete),
    {
        self.current_step == OnboardingStep::Complete
    }

    /// Moves to the next step and returns it.  A completed flow stays where
    /// it is.
    pub fn next_step(&mut self) -> (r: Result<OnboardingStep, String>)
        ensures
            final(self).data() == old(self).data(),
            match step_after(old(self).step()) {
                Some(n) => r == Ok::<OnboardingStep, String>(n) && final(self).step() == n,
                None => r matches Err(e) && e@ == "Onboarding already completed"@
                    && final(self).step() == old(self).step(),
            },
    {
        if self.current_step == OnboardingStep::Complete {
            return Err(String::from_str("Onboarding already completed"));
        }
        let n = match self.current_step {
            OnboardingStep::Welcome => OnboardingStep::WorkHours,
            OnboardingStep::WorkHours => OnboardingStep::CycleConfig,
            OnboardingStep::CycleConfig => OnboardingStep::StrictMode,
            OnboardingStep::StrictMode => OnboardingStep::Summary,
            _ => OnboardingStep::Complete,
        };
        self.current_step = n;
        assert(self.data() =~= old(self).data());
        Ok(n)
    }

    /// Moves back to the previous step and returns it; the first step has
    /// none.
    pub fn previous_step(&mut self) -> (r: Result<OnboardingStep, String>)
        ensures
            final(self).data() == old(self).data(),
            match step_before(old(self).step()) {
                Some(p) => r == Ok::<OnboardingStep, String>(p) && final(self).step() == p,
                None => r matches Err(e) && e@ == "Cannot go back from welcome step"@
                    && final(self).step() == old(self).step(),
            },
    {
        let p = match self.current_step {
            OnboardingStep::Welcome => {
                return Err(String::from_str("Cannot go back from welcome step"));
            },
            OnboardingStep::WorkHours => OnboardingStep::Welcome,
            OnboardingStep::CycleConfig => OnboardingStep::WorkHours,
            OnboardingStep::StrictMode => OnboardingStep::CycleConfig,
            OnboardingStep::Summary => OnboardingStep::StrictMode,
            OnboardingStep::Complete => OnboardingStep::Summary,
        };
        self.current_step = p;
        assert(self.data() =~= old(self).data());
        Ok(p)
    }

    /// Keeps `data` for `step`, replacing what was kept for it.
    pub fn set_step_data(&mut self, step: OnboardingStep, data: JsonValue) -> (r: Result<(), String>)
        ensures
            r is Ok,
            final(self).step() == old(self).step(),
            final(self).data() == old(self).data().insert(step, data),
    {
        match step {
            OnboardingStep::Welcome => self.welcome = Some(data),
            OnboardingStep::WorkHours => self.work_hours = Some(data),
            OnboardingStep::CycleConfig => self.cycle_config = Some(data),
            OnboardingStep::StrictMode => self.strict_mode = Some(data),
            OnboardingStep::Summary => self.summary = Some(data),
            OnboardingStep::Complete => self.complete = Some(data),
        }
        assert(self.data() =~= old(self).data().insert(step, data));
        Ok(())
    }

    /// The data kept for `step`, if any.
    pub fn get_step_data(&self, step: &OnboardingStep) -> (r: Option<&JsonValue>)
        ensures
            match r {
                Some(v) => self.data().contains_key(*step) && *v == self.data()[*step],
                None => !self.data().contains_key(*step),
            },
    {
        let slot = match step {
            OnboardingStep::Welcome => &self.welcome,
            OnboardingStep::WorkHours => &self.work_hours,
            OnboardingStep::CycleConfig => &self.cycle_config,
            OnboardingStep::StrictMode => &self.strict_mode,
            OnboardingStep::Summary => &self.summary,
            OnboardingStep::Complete => &self.complete,
        };
        match slot {
            Some(v) => Some(v),
            None => None,
        }
    }

    /// Back to the first step, with all data dropped.
    pub fn reset(&mut self)
        ensures
            final(self).step() == OnboardingStep::Welcome,
            final(self).data() == Map::<OnboardingStep, JsonValue>::empty(),
    {
        *self = OnboardingManager::new();
    }
}

impl Default for OnboardingManager {
    fn default() -> (m: Self)
        ensures
            m.step() == OnboardingStep::Welcome,
            m.data() == Map::<OnboardingStep, JsonValue>::empty(),
    {
        OnboardingManager::new()
    }
}

/// Going back from the step reached by going forward returns to where one
/// started, from every step but the last.
pub proof fn law_previous_undoes_next(s: OnboardingStep)
    requires
        s != OnboardingStep::Complete,
    ensures
        step_after(s) is Some,
        step_before(step_after(s)->0) == Some(s),
{
}

/// Going forward from the step reached by going back returns to where one
/// started, from every step but the first.
pub proof fn law_next_undoes_previous(s: OnboardingStep)
    requires
        s != OnboardingStep::Welcome,
    ensures
        step_before(s) is Some,
        step_after(step_before(s)->0) == Some(s),
{
}

/// What is read for a step after data was kept for it is that data; the
/// data of the other steps is untouched.
pub proof fn law_get_after_set(
    data: Map<OnboardingStep, JsonValue>,
    step: OnboardingStep,
    value: JsonValue,
    other: OnboardingStep,
)
    ensures
        data.insert(step, value).contains_key(step),
        data.insert(step, value)[step] == value,
        other != step ==> (data.insert(step, value).contains_key(other) == data.contains_key(other)
            && data.insert(step, value).get(other) == data.get(other)),
{
}

} // verus!
