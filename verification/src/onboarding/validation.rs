//! Validation of the configuration gathered during onboarding.

use vstd::prelude::*;
use crate::onboarding::json::{JsonNumber, JsonValue};
use crate::text::{
    chars_of, decimal_int, eq_ignore_ascii_case, eq_ignore_ascii_case_exec, i64_to_decimal,
    parse_u32, parse_u32_spec, seq_contains, split_chars, split_on, trim, trim_chars, utf8_len,
    utf8_len_exceeds, vec_contains,
};

verus! {

/// A problem found in an onboarding configuration.
#[derive(Debug, Clone)]
pub enum ValidationError {
    MissingField { field: String },
    InvalidValue { field: String, reason: String },
    OutOfRange { field: String, min: i32, max: i32, value: i32 },
    InvalidTimeFormat { field: String, value: String },
    InvalidTimeRange,
    WeakEmergencyKey,
    ConfigurationConflict { reason: String },
}

/// A validation error with its texts as character sequences.
pub enum ValidationErrorView {
    MissingField { field: Seq<char> },
    InvalidValue { field: Seq<char>, reason: Seq<char> },
    OutOfRange { field: Seq<char>, min: i32, max: i32, value: i32 },
    InvalidTimeFormat { field: Seq<char>, value: Seq<char> },
    InvalidTimeRange,
    WeakEmergencyKey,
    ConfigurationConflict { reason: Seq<char> },
}

impl View for ValidationError {
    type V = ValidationErrorView;

    open spec fn view(&self) -> ValidationErrorView {
        match self {
            ValidationError::MissingField { field } => ValidationErrorView::MissingField {
                field: field@,
            },
            ValidationError::InvalidValue { field, reason } => ValidationErrorView::InvalidValue {
                field: field@,
                reason: reason@,
            },
            ValidationError::OutOfRange { field, min, max, value } =>
                ValidationErrorView::OutOfRange { field: field@, min: *min, max: *max, value: *value },
            ValidationError::InvalidTimeFormat { field, value } =>
                ValidationErrorView::InvalidTimeFormat { field: field@, value: value@ },
            ValidationError::InvalidTimeRange => ValidationErrorView::InvalidTimeRange,
            ValidationError::WeakEmergencyKey => ValidationErrorView::WeakEmergencyKey,
            ValidationError::ConfigurationConflict { reason } =>
                ValidationErrorView::ConfigurationConflict { reason: reason@ },
        }
    }
}

/// The views of a list of errors.
pub open spec fn views(v: Seq<ValidationError>) -> Seq<ValidationErrorView> {
    v.map_values(|e: ValidationError| e@)
}

/// The display text of an error.
pub open spec fn message_spec(e: ValidationErrorView) -> Seq<char> {
    match e {
        ValidationErrorView::MissingField { field } => "Missing required field: "@ + field,
        ValidationErrorView::InvalidValue { field, reason } => "Invalid value for "@ + field
            + ": "@ + reason,
        ValidationErrorView::OutOfRange { field, min, max, value } => "Value out of range for "@
            + field + ": expected "@ + decimal_int(min as int) + "-"@ + decimal_int(max as int)
            + ", got "@ + decimal_int(value as int),
        ValidationErrorView::InvalidTimeFormat { field, value } => "Invalid time format for "@
            + field + ": expected HH:MM, got "@ + value,
        ValidationErrorView::InvalidTimeRange => "Work end time must be after start time"@,
        ValidationErrorView::WeakEmergencyKey => "Emergency key combination is too simple or common"@,
        ValidationErrorView::ConfigurationConflict { reason } => "Configuration conflict: "@
            + reason,
    }
}

impl ValidationError {
    /// A copy of this error.
    pub fn duplicate(&self) -> (r: ValidationError)
        ensures
            r@ == self@,
    {
        match self {
            ValidationError::MissingField { field } => ValidationError::MissingField {
                field: field.clone(),
            },
            ValidationError::InvalidValue { field, reason } => ValidationError::InvalidValue {
                field: field.clone(),
                reason: reason.clone(),
            },
            ValidationError::OutOfRange { field, min, max, value } => ValidationError::OutOfRange {
                field: field.clone(),
                min: *min,
                max: *max,
                value: *value,
            },
            ValidationError::InvalidTimeFormat { field, value } =>
                ValidationError::InvalidTimeFormat { field: field.clone(), value: value.clone() },
            ValidationError::InvalidTimeRange => ValidationError::InvalidTimeRange,
            ValidationError::WeakEmergencyKey => ValidationError::WeakEmergencyKey,
            ValidationError::ConfigurationConflict { reason } =>
                ValidationError::ConfigurationConflict { reason: reason.clone() },
        }
    }

    /// The display text of this error.
    pub fn to_message(&self) -> (m: String)
        ensures
            m@ == message_spec(self@),
    {
        match self {
            ValidationError::MissingField { field } => {
                let mut m = String::from_str("Missing required field: ");
                m.append(field.as_str());
                m
            },
            ValidationError::InvalidValue { field, reason } => {
                let mut m = String::from_str("Invalid value for ");
                m.append(field.as_str());
                m.append(": ");
                m.append(reason.as_str());
                m
            },
            ValidationError::OutOfRange { field, min, max, value } => {
                let mut m = String::from_str("Value out of range for ");
                m.append(field.as_str());
                m.append(": expected ");
                let a = i64_to_decimal(*min as i64);
                m.append(a.as_str());
                m.append("-");
                let b = i64_to_decimal(*max as i64);
                m.append(b.as_str());
                m.append(", got ");
                let c = i64_to_decimal(*value as i64);
                m.append(c.as_str());
                m
            },
            ValidationError::InvalidTimeFormat { field, value } => {
                let mut m = String::from_str("Invalid time format for ");
                m.append(field.as_str());
                m.append(": expected HH:MM, got ");
                m.append(value.as_str());
                m
            },
            ValidationError::InvalidTimeRange => String::from_str(
                "Work end time must be after start time",
            ),
            ValidationError::WeakEmergencyKey => String::from_str(
                "Emergency key combination is too simple or common",
            ),
            ValidationError::ConfigurationConflict { reason } => {
                let mut m = String::from_str("Configuration conflict: ");
                m.append(reason.as_str());
                m
            },
        }
    }
}

/// Appends an error to a list.
fn push_error(errs: &mut Vec<ValidationError>, e: ValidationError)
    ensures
        views(final(errs)@) == views(old(errs)@).push(e@),
{
    let ghost before = errs@;
    errs.push(e);
    assert(views(errs@) =~= views(before).push(e@));
}

/// A copy of a list of errors.
pub fn duplicate_errors(v: &Vec<ValidationError>) -> (r: Vec<ValidationError>)
    ensures
        views(r@) == views(v@),
{
    let mut r: Vec<ValidationError> = Vec::new();
    let mut i: usize = 0;
    while i < v.len()
        invariant
            i <= v.len(),
            views(r@) == views(v@.subrange(0, i as int)),
        decreases v.len() - i,
    {
        let e = v[i].duplicate();
        push_error(&mut r, e);
        i = i + 1;
        assert(views(v@.subrange(0, i as int)) =~= views(v@.subrange(0, i - 1)).push(v@[i - 1]@));
    }
    assert(v@.subrange(0, v.len() as int) =~= v@);
    r
}

// ---------------------------------------------------------------------------
// Times of day
// ---------------------------------------------------------------------------
/// Minutes since midnight of an `HH:MM` time: exactly one colon, both parts
/// parse as `u32`, hours below 24 and minutes below 60.
pub open spec fn hhmm_minutes(s: Seq<char>) -> Option<u32> {
    let parts = split_on(s, ':');
    if parts.len() != 2 {
        None
    } else {
        match (parse_u32_spec(parts[0]), parse_u32_spec(parts[1])) {
            (Some(h), Some(m)) => if h < 24 && m < 60 {
                Some((h * 60 + m) as u32)
            } else {
                None
            },
            _ => None,
        }
    }
}

/// Whether `s` is a valid `HH:MM` time.
pub open spec fn time_format_ok(s: Seq<char>) -> bool {
    hhmm_minutes(s) is Some
}

/// Whether the end time comes strictly after the start time.
pub open spec fn time_range_ok(start: Seq<char>, end: Seq<char>) -> bool {
    match (hhmm_minutes(start), hhmm_minutes(end)) {
        (Some(a), Some(b)) => b > a,
        _ => false,
    }
}

// ---------------------------------------------------------------------------
// Emergency keys
// ---------------------------------------------------------------------------
/// Modifier names one of which an emergency key combination must contain
/// (the last four are the macOS symbols for Command, Control, Option, Shift).
pub open spec fn modifier_names() -> Seq<Seq<char>> {
    seq!["Cmd"@, "Ctrl"@, "Alt"@, "Shift"@, "\u{2318}"@, "\u{2303}"@, "\u{2325}"@, "\u{21e7}"@]
}

/// Combinations too common to serve as an emergency key.
pub open spec fn weak_combinations() -> Seq<Seq<char>> {
    seq![
        "Cmd+Q"@,
        "\u{2318}+Q"@,
        "Cmd+W"@,
        "\u{2318}+W"@,
        "Cmd+C"@,
        "\u{2318}+C"@,
        "Cmd+V"@,
        "\u{2318}+V"@,
        "Cmd+X"@,
        "\u{2318}+X"@,
        "Cmd+Z"@,
        "\u{2318}+Z"@,
        "Cmd+A"@,
        "\u{2318}+A"@,
        "Cmd+S"@,
        "\u{2318}+S"@,
        "Alt+F4"@,
        "Ctrl+C"@,
        "Ctrl+V"@,
        "Ctrl+X"@,
        "Ctrl+Z"@,
        "Ctrl+A"@,
        "Ctrl+S"@,
    ]
}

/// `t` contains one of the modifier names.
pub open spec fn has_modifier_name(t: Seq<char>) -> bool {
    exists|k: int| 0 <= k < modifier_names().len() && #[trigger] seq_contains(t, modifier_names()[k])
}

/// `t` equals one of the weak combinations, ignoring ASCII case.
pub open spec fn is_weak_combination(t: Seq<char>) -> bool {
    exists|k: int|
        0 <= k < weak_combinations().len() && #[trigger] eq_ignore_ascii_case(
            t,
            weak_combinations()[k],
        )
}

/// An emergency key combination is acceptable when, once trimmed, it is not
/// empty, names a modifier and is none of the weak combinations.
pub open spec fn emergency_key_ok(s: Seq<char>) -> bool {
    let t = trim(s);
    t.len() > 0 && has_modifier_name(t) && !is_weak_combination(t)
}

fn has_modifier_name_exec(t: &Vec<char>) -> (b: bool)
    ensures
        b == has_modifier_name(t@),
{
    let names: Vec<&str> = vec!["Cmd", "Ctrl", "Alt", "Shift", "\u{2318}", "\u{2303}", "\u{2325}", "\u{21e7}"];
    assert(names@.len() == modifier_names().len());
    assert(forall|k: int| 0 <= k < names@.len() ==> #[trigger] names@[k]@ == modifier_names()[k]);
    let mut i: usize = 0;
    while i < names.len()
        invariant
            i <= names.len(),
            names@.len() == modifier_names().len(),
            forall|k: int| 0 <= k < names@.len() ==> #[trigger] names@[k]@ == modifier_names()[k],
            forall|k: int| 0 <= k < i ==> !#[trigger] seq_contains(t@, modifier_names()[k]),
        decreases names.len() - i,
    {
        let p = chars_of(names[i]);
        if vec_contains(t, &p) {
            assert(seq_contains(t@, modifier_names()[i as int]));
            return true;
        }
        i = i + 1;
    }
    false
}

fn is_weak_combination_exec(t: &Vec<char>) -> (b: bool)
    ensures
        b == is_weak_combination(t@),
{
    let weak: Vec<&str> = vec![
        "Cmd+Q",
        "\u{2318}+Q",
        "Cmd+W",
        "\u{2318}+W",
        "Cmd+C",
        "\u{2318}+C",
        "Cmd+V",
        "\u{2318}+V",
        "Cmd+X",
        "\u{2318}+X",
        "Cmd+Z",
        "\u{2318}+Z",
        "Cmd+A",
        "\u{2318}+A",
        "Cmd+S",
        "\u{2318}+S",
        "Alt+F4",
        "Ctrl+C",
        "Ctrl+V",
        "Ctrl+X",
        "Ctrl+Z",
        "Ctrl+A",
        "Ctrl+S",
    ];
    assert(weak@.len() == weak_combinations().len());
    assert(forall|k: int| 0 <= k < weak@.len() ==> #[trigger] weak@[k]@ == weak_combinations()[k]);
    let mut i: usize = 0;
    while i < weak.len()
        invariant
            i <= weak.len(),
            weak@.len() == weak_combinations().len(),
            forall|k: int| 0 <= k < weak@.len() ==> #[trigger] weak@[k]@ == weak_combinations()[k],
            forall|k: int|
                0 <= k < i ==> !#[trigger] eq_ignore_ascii_case(t@, weak_combinations()[k]),
        decreases weak.len() - i,
    {
        let w = chars_of(weak[i]);
        if eq_ignore_ascii_case_exec(t, &w) {
            assert(eq_ignore_ascii_case(t@, weak_combinations()[i as int]));
            return true;
        }
        i = i + 1;
    }
    false
}

// ---------------------------------------------------------------------------
// The errors of each part of a configuration
// ---------------------------------------------------------------------------
/// The string held by an optional JSON value.
pub open spec fn str_of(v: Option<JsonValue>) -> Option<Seq<char>> {
    match v {
        Some(x) => x.as_str_spec(),
        None => None,
    }
}

/// The non-negative integer held by an optional JSON value.
pub open spec fn u64_of(v: Option<JsonValue>) -> Option<u64> {
    match v {
        Some(x) => x.as_u64_spec(),
        None => None,
    }
}

/// An optional JSON value that is the boolean `true` (a missing value or one
/// of another kind counts as `false`).
pub open spec fn flag_of(v: Option<JsonValue>) -> bool {
    match v {
        Some(x) => x.as_bool_spec() == Some(true),
        None => false,
    }
}

/// Errors of one time field: missing (or not a string), or not `HH:MM`.
pub open spec fn time_field_errors(field: Seq<char>, s: Option<Seq<char>>) -> Seq<ValidationErrorView> {
    match s {
        None => seq![ValidationErrorView::MissingField { field }],
        Some(t) => if time_format_ok(t) {
            seq![]
        } else {
            seq![ValidationErrorView::InvalidTimeFormat { field, value: t }]
        },
    }
}

/// Errors of a pair of work hours: each time on its own, then, when both are
/// valid, that the end comes after the start.
pub open spec fn time_pair_errors(start: Option<Seq<char>>, end: Option<Seq<char>>) -> Seq<
    ValidationErrorView,
> {
    time_field_errors("workStartTime"@, start) + time_field_errors("workEndTime"@, end) + match (
        start,
        end,
    ) {
        (Some(a), Some(b)) => if time_format_ok(a) && time_format_ok(b) && !time_range_ok(a, b) {
            seq![ValidationErrorView::InvalidTimeRange]
        } else {
            seq![]
        },
        _ => seq![],
    }
}

/// Errors of a work schedule object: none unless `useWorkSchedule` is `true`.
pub open spec fn work_schedule_errors(ws: JsonValue) -> Seq<ValidationErrorView> {
    if flag_of(ws.get_spec("useWorkSchedule"@)) {
        time_pair_errors(
            str_of(ws.get_spec("workStartTime"@)),
            str_of(ws.get_spec("workEndTime"@)),
        )
    } else {
        seq![]
    }
}

/// `n as i32`: the low 32 bits of `n`, read as a signed number.
pub open spec fn low_i32(n: u64) -> i32 {
    let m = n % 0x1_0000_0000;
    if m < 0x8000_0000 {
        m as i32
    } else {
        (m - 0x1_0000_0000) as i32
    }
}

/// Errors of one duration field, which must be an integer in `min..=max`.
pub open spec fn range_field_errors(config: JsonValue, field: Seq<char>, min: i32, max: i32) -> Seq<
    ValidationErrorView,
> {
    match config.get_spec(field) {
        None => seq![ValidationErrorView::MissingField { field }],
        Some(v) => match v.as_u64_spec() {
            None => seq![
                ValidationErrorView::InvalidValue { field, reason: "must be a positive number"@ },
            ],
            Some(n) => {
                let d = low_i32(n);
                if d < min || d > max {
                    seq![ValidationErrorView::OutOfRange { field, min, max, value: d }]
                } else {
                    seq![]
                }
            },
        },
    }
}

/// Errors of the cycle settings.
pub open spec fn cycle_errors(config: JsonValue) -> Seq<ValidationErrorView> {
    range_field_errors(config, "focusDuration"@, 5, 120) + range_field_errors(
        config,
        "breakDuration"@,
        1,
        30,
    ) + range_field_errors(config, "longBreakDuration"@, 5, 60) + range_field_errors(
        config,
        "cyclesPerLongBreak"@,
        2,
        10,
    )
}

/// Errors of the strict mode settings: with strict mode on, an emergency key
/// must be given (a value that is neither a string nor `null` passes).
pub open spec fn strict_mode_errors(config: JsonValue) -> Seq<ValidationErrorView> {
    if flag_of(config.get_spec("strictMode"@)) {
        match config.get_spec("emergencyKey"@) {
            None => seq![ValidationErrorView::MissingField { field: "emergencyKey"@ }],
            Some(k) => match k.as_str_spec() {
                Some(s) => if emergency_key_ok(s) {
                    seq![]
                } else {
                    seq![ValidationErrorView::WeakEmergencyKey]
                },
                None => if k is Null {
                    seq![ValidationErrorView::MissingField { field: "emergencyKey"@ }]
                } else {
                    seq![]
                },
            },
        }
    } else {
        seq![]
    }
}

/// Errors of a user name value: a string that is blank, or longer than 50
/// bytes once trimmed (a value of another kind passes).
pub open spec fn user_name_value_errors(v: JsonValue) -> Seq<ValidationErrorView> {
    match v.as_str_spec() {
        Some(s) => {
            let t = trim(s);
            if t.len() == 0 {
                seq![
                    ValidationErrorView::InvalidValue {
                        field: "userName"@,
                        reason: "cannot be empty"@,
                    },
                ]
            } else if utf8_len(t) > 50 {
                seq![
                    ValidationErrorView::InvalidValue {
                        field: "userName"@,
                        reason: "cannot exceed 50 characters"@,
                    },
                ]
            } else {
                seq![]
            }
        },
        None => seq![],
    }
}

/// Errors of the `userName` member, when there is one.
pub open spec fn user_name_errors(config: JsonValue) -> Seq<ValidationErrorView> {
    match config.get_spec("userName"@) {
        Some(v) => user_name_value_errors(v),
        None => seq![],
    }
}

/// A break is too long for its focus period when the focus lasts less than
/// twice the break (a zero break never is).
pub open spec fn break_too_long(focus: u64, brk: u64) -> bool {
    brk > 0 && focus < 2 * brk
}

/// Conflicts between the durations.
pub open spec fn consistency_errors(config: JsonValue) -> Seq<ValidationErrorView> {
    let f = u64_of(config.get_spec("focusDuration"@));
    let b = u64_of(config.get_spec("breakDuration"@));
    let l = u64_of(config.get_spec("longBreakDuration"@));
    (match (f, b) {
        (Some(f), Some(b)) => if break_too_long(f, b) {
            seq![
                ValidationErrorView::ConfigurationConflict {
                    reason: "Break duration should be significantly shorter than focus duration for optimal productivity"@,
                },
            ]
        } else {
            seq![]
        },
        _ => seq![],
    }) + (match (b, l) {
        (Some(b), Some(l)) => if l <= b {
            seq![
                ValidationErrorView::ConfigurationConflict {
                    reason: "Long break duration should be longer than regular break duration"@,
                },
            ]
        } else {
            seq![]
        },
        _ => seq![],
    })
}

/// Every error of a complete onboarding configuration, in the order they are
/// reported.
pub open spec fn config_errors(config: JsonValue) -> Seq<ValidationErrorView> {
    (match config.get_spec("workSchedule"@) {
        Some(ws) => work_schedule_errors(ws),
        None => seq![],
    }) + cycle_errors(config) + strict_mode_errors(config) + user_name_errors(config)
        + consistency_errors(config)
}

/// The errors of the data of one onboarding step, by the step's name.
pub open spec fn step_errors(step: Seq<char>, data: JsonValue) -> Seq<ValidationErrorView> {
    if step == "WorkSchedule"@ {
        match data.get_spec("useWorkSchedule"@) {
            Some(v) => if v is Bool {
                seq![]
            } else {
                seq![
                    ValidationErrorView::InvalidValue {
                        field: "useWorkSchedule"@,
                        reason: "must be true or false"@,
                    },
                ]
            },
            None => seq![ValidationErrorView::MissingField { field: "useWorkSchedule"@ }],
        }
    } else if step == "WorkHours"@ {
        time_pair_errors(str_of(data.get_spec("startTime"@)), str_of(data.get_spec("endTime"@)))
    } else if step == "CycleConfig"@ {
        cycle_errors(data)
    } else if step == "StrictMode"@ {
        strict_mode_errors(data) + user_name_errors(data)
    } else {
        seq![]
    }
}

// ---------------------------------------------------------------------------
// The validator
// ---------------------------------------------------------------------------
/// Collects the errors of an onboarding configuration.
#[derive(Debug, Clone)]
pub struct OnboardingValidator {
    errors: Vec<ValidationError>,
}

pub(crate) fn opt_str(v: Option<&JsonValue>) -> (r: Option<&str>)
    ensures
        match str_of(
            match v {
                Some(x) => Some(*x),
                None => None,
            },
        ) {
            Some(s) => r matches Some(t) && t@ == s,
            None => r is None,
        },
{
    match v {
        Some(x) => x.as_str(),
        None => None,
    }
}

pub(crate) fn opt_u64(v: Option<&JsonValue>) -> (r: Option<u64>)
    ensures
        r == u64_of(
            match v {
                Some(x) => Some(*x),
                None => None,
            },
        ),
{
    match v {
        Some(x) => x.as_u64(),
        None => None,
    }
}

pub(crate) fn opt_flag(v: Option<&JsonValue>) -> (r: bool)
    ensures
        r == flag_of(
            match v {
                Some(x) => Some(*x),
                None => None,
            },
        ),
{
    match v {
        Some(x) => match x.as_bool() {
            Some(b) => b,
            None => false,
        },
        None => false,
    }
}

/// `n as i32`.
pub(crate) fn low_i32_exec(n: u64) -> (r: i32)
    ensures
        r == low_i32(n),
{
    let m: u64 = n % 0x1_0000_0000;
    if m < 0x8000_0000 {
        m as i32
    } else {
        let k: i64 = m as i64 - 0x1_0000_0000i64;
        k as i32
    }
}

impl OnboardingValidator {
    /// The errors found by the last validation, as views.
    pub closed spec fn errors_view(&self) -> Seq<ValidationErrorView> {
        views(self.errors@)
    }

    /// A validator with no errors.
    pub fn new() -> (v: Self)
        ensures
            v.errors_view() == Seq::<ValidationErrorView>::empty(),
    {
        let v = OnboardingValidator { errors: Vec::new() };
        assert(views(v.errors@) =~= Seq::<ValidationErrorView>::empty());
        v
    }

    fn push(&mut self, e: ValidationError)
        ensures
            final(self).errors_view() == old(self).errors_view().push(e@),
    {
        push_error(&mut self.errors, e);
    }

    /// Validates a complete onboarding configuration.  The errors found
    /// replace those of any earlier validation; `Ok` exactly when there are
    /// none, else all of them in order.
    pub fn validate_configuration(&mut self, config: &JsonValue) -> (r: Result<(), Vec<ValidationError>>)
        ensures
            final(self).errors_view() == config_errors(*config),
            match r {
                Ok(()) => config_errors(*config).len() == 0,
                Err(errs) => config_errors(*config).len() > 0 && views(errs@) == config_errors(
                    *config,
                ),
            },
    {
        self.errors = Vec::new();
        assert(self.errors_view() =~= Seq::<ValidationErrorView>::empty());
        let ghost e0 = self.errors_view();
        match config.get("workSchedule") {
            Some(ws) => self.validate_work_schedule(ws),
            None => {},
        }
        let ghost e1 = self.errors_view();
        self.validate_cycle_configuration(config);
        let ghost e2 = self.errors_view();
        self.validate_strict_mode_configuration(config);
        let ghost e3 = self.errors_view();
        match config.get("userName") {
            Some(u) => self.validate_user_name(u),
            None => {},
        }
        let ghost e4 = self.errors_view();
        self.validate_configuration_consistency(config);
        assert(self.errors_view() =~= config_errors(*config));
        if self.errors.len() == 0 {
            Ok(())
        } else {
            Err(duplicate_errors(&self.errors))
        }
    }

    fn check_time_field(&mut self, field: &str, s: Option<&str>)
        requires
            field@ == "workStartTime"@ || field@ == "workEndTime"@,
        ensures
            final(self).errors_view() == old(self).errors_view() + time_field_errors(
                field@,
                match s {
                    Some(t) => Some(t@),
                    None => None,
                },
            ),
    {
        match s {
            Some(t) => {
                if !self.is_valid_time_format(t) {
                    self.push(
                        ValidationError::InvalidTimeFormat {
                            field: field.to_string(),
                            value: t.to_string(),
                        },
                    );
                } else {
                    assert(old(self).errors_view() + seq![] =~= old(self).errors_view());
                }
            },
            None => {
                self.push(ValidationError::MissingField { field: field.to_string() });
            },
        }
        assert(self.errors_view() =~= old(self).errors_view() + time_field_errors(
            field@,
            match s {
                Some(t) => Some(t@),
                None => None,
            },
        ));
    }

    fn check_time_pair(&mut self, start: Option<&str>, end: Option<&str>)
        ensures
            final(self).errors_view() == old(self).errors_view() + time_pair_errors(
                match start {
                    Some(t) => Some(t@),
                    None => None,
                },
                match end {
                    Some(t) => Some(t@),
                    None => None,
                },
            ),
    {
        self.check_time_field("workStartTime", start);
        self.check_time_field("workEndTime", end);
        let ghost mid = self.errors_view();
        match (start, end) {
            (Some(a), Some(b)) => {
                if self.is_valid_time_format(a) && self.is_valid_time_format(b)
                    && !self.is_valid_time_range(a, b) {
                    self.push(ValidationError::InvalidTimeRange);
                }
            },
            _ => {},
        }
        assert(self.errors_view() =~= old(self).errors_view() + time_pair_errors(
            match start {
                Some(t) => Some(t@),
                None => None,
            },
            match end {
                Some(t) => Some(t@),
                None => None,
            },
        ));
    }

    fn validate_work_schedule(&mut self, work_schedule: &JsonValue)
        ensures
            final(self).errors_view() == old(self).errors_view() + work_schedule_errors(
                *work_schedule,
            ),
    {
        if opt_flag(work_schedule.get("useWorkSchedule")) {
            let start = opt_str(work_schedule.get("workStartTime"));
            let end = opt_str(work_schedule.get("workEndTime"));
            self.check_time_pair(start, end);
        } else {
            assert(old(self).errors_view() + seq![] =~= old(self).errors_view());
        }
    }

    fn check_range_field(&mut self, config: &JsonValue, field: &str, min: i32, max: i32)
        ensures
            final(self).errors_view() == old(self).errors_view() + range_field_errors(
                *config,
                field@,
                min,
                max,
            ),
    {
        match config.get(field) {
            Some(v) => match v.as_u64() {
                Some(n) => {
                    let d = low_i32_exec(n);
                    if d < min || d > max {
                        self.push(
                            ValidationError::OutOfRange {
                                field: field.to_string(),
                                min,
                                max,
                                value: d,
                            },
                        );
                    }
                },
                None => {
                    self.push(
                        ValidationError::InvalidValue {
                            field: field.to_string(),
                            reason: String::from_str("must be a positive number"),
                        },
                    );
                },
            },
            None => {
                self.push(ValidationError::MissingField { field: field.to_string() });
            },
        }
        assert(self.errors_view() =~= old(self).errors_view() + range_field_errors(
            *config,
            field@,
            min,
            max,
        ));
    }

    fn validate_cycle_configuration(&mut self, config: &JsonValue)
        ensures
            final(self).errors_view() == old(self).errors_view() + cycle_errors(*config),
    {
        let ghost e0 = self.errors_view();
        self.check_range_field(config, "focusDuration", 5, 120);
        let ghost e1 = self.errors_view();
        self.check_range_field(config, "breakDuration", 1, 30);
        let ghost e2 = self.errors_view();
        self.check_range_field(config, "longBreakDuration", 5, 60);
        let ghost e3 = self.errors_view();
        self.check_range_field(config, "cyclesPerLongBreak", 2, 10);
        assert(self.errors_view() =~= e0 + cycle_errors(*config));
    }

    fn validate_strict_mode_configuration(&mut self, config: &JsonValue)
        ensures
            final(self).errors_view() == old(self).errors_view() + strict_mode_errors(*config),
    {
        if opt_flag(config.get("strictMode")) {
            match config.get("emergencyKey") {
                Some(k) => match k.as_str() {
                    Some(s) => {
                        if !self.is_valid_emergency_key(s) {
                            self.push(ValidationError::WeakEmergencyKey);
                        }
                    },
                    None => {
                        if k.is_null() {
                            self.push(
                                ValidationError::MissingField {
                                    field: String::from_str("emergencyKey"),
                                },
                            );
                        }
                    },
                },
                None => {
                    self.push(
                        ValidationError::MissingField { field: String::from_str("emergencyKey") },
                    );
                },
            }
        }
        assert(self.errors_view() =~= old(self).errors_view() + strict_mode_errors(*config));
    }

    fn validate_user_name(&mut self, user_name: &JsonValue)
        ensures
            final(self).errors_view() == old(self).errors_view() + user_name_value_errors(
                *user_name,
            ),
    {
        match user_name.as_str() {
            Some(s) => {
                let cs = chars_of(s);
                let t = trim_chars(&cs);
                if t.len() == 0 {
                    self.push(
                        ValidationError::InvalidValue {
                            field: String::from_str("userName"),
                            reason: String::from_str("cannot be empty"),
                        },
                    );
                } else if utf8_len_exceeds(&t, 50) {
                    self.push(
                        ValidationError::InvalidValue {
                            field: String::from_str("userName"),
                            reason: String::from_str("cannot exceed 50 characters"),
                        },
                    );
                }
            },
            None => {},
        }
        assert(self.errors_view() =~= old(self).errors_view() + user_name_value_errors(
            *user_name,
        ));
    }

    fn validate_configuration_consistency(&mut self, config: &JsonValue)
        ensures
            final(self).errors_view() == old(self).errors_view() + consistency_errors(*config),
    {
        let f = opt_u64(config.get("focusDuration"));
        let b = opt_u64(config.get("breakDuration"));
        let l = opt_u64(config.get("longBreakDuration"));
        let ghost e0 = self.errors_view();
        match (f, b) {
            (Some(f), Some(b)) => {
                if b > 0 && (f as u128) < 2 * (b as u128) {
                    self.push(
                        ValidationError::ConfigurationConflict {
                            reason: String::from_str(
                                "Break duration should be significantly shorter than focus duration for optimal productivity",
                            ),
                        },
                    );
                }
            },
            _ => {},
        }
        let ghost e1 = self.errors_view();
        match (b, l) {
            (Some(b), Some(l)) => {
                if l <= b {
                    self.push(
                        ValidationError::ConfigurationConflict {
                            reason: String::from_str(
                                "Long break duration should be longer than regular break duration",
                            ),
                        },
                    );
                }
            },
            _ => {},
        }
        assert(self.errors_view() =~= e0 + consistency_errors(*config));
    }

    /// Whether `time_str` is a valid `HH:MM` time of day.
    pub fn is_valid_time_format(&self, time_str: &str) -> (b: bool)
        ensures
            b == time_format_ok(time_str@),
    {
        self.time_to_minutes(time_str).is_some()
    }

    /// Whether both times are valid and the end comes strictly after the
    /// start.
    pub fn is_valid_time_range(&self, start_time: &str, end_time: &str) -> (b: bool)
        ensures
            b == time_range_ok(start_time@, end_time@),
    {
        match (self.time_to_minutes(start_time), self.time_to_minutes(end_time)) {
            (Some(a), Some(b)) => b > a,
            _ => false,
        }
    }

    /// Minutes since midnight of an `HH:MM` time, or `None` when it is not one.
    pub fn time_to_minutes(&self, time_str: &str) -> (r: Option<u32>)
        ensures
            r == hhmm_minutes(time_str@),
    {
        let cs = chars_of(time_str);
        let parts = split_chars(&cs, ':');
        if parts.len() != 2 {
            return None;
        }
        let h = parse_u32(&parts[0]);
        let m = parse_u32(&parts[1]);
        match (h, m) {
            (Some(h), Some(m)) => {
                if h < 24 && m < 60 {
                    Some(h * 60 + m)
                } else {
                    None
                }
            },
            _ => None,
        }
    }

    /// Whether an emergency key combination is secure enough: not blank, with
    /// a modifier, and none of the common shortcuts.
    pub fn is_valid_emergency_key(&self, key_combination: &str) -> (b: bool)
        ensures
            b == emergency_key_ok(key_combination@),
    {
        let cs = chars_of(key_combination);
        let t = trim_chars(&cs);
        if t.len() == 0 {
            return false;
        }
        if !has_modifier_name_exec(&t) {
            return false;
        }
        !is_weak_combination_exec(&t)
    }

    /// The errors found by the last validation.
    pub fn get_errors(&self) -> (e: &[ValidationError])
        ensures
            views(e@) == self.errors_view(),
    {
        self.errors.as_slice()
    }

    /// Whether the last validation found any error.
    pub fn has_errors(&self) -> (b: bool)
        ensures
            b == (self.errors_view().len() > 0),
    {
        self.errors.len() > 0
    }
}

impl Default for OnboardingValidator {
    fn default() -> (v: Self)
        ensures
            v.errors_view() == Seq::<ValidationErrorView>::empty(),
    {
        OnboardingValidator::new()
    }
}

/// Validates the data of one onboarding step, named by `step`: `Ok` exactly
/// when it has no error, else its errors in order.
pub fn validate_step_data(step: &str, data: &JsonValue) -> (r: Result<(), Vec<ValidationError>>)
    ensures
        match r {
            Ok(()) => step_errors(step@, *data).len() == 0,
            Err(errs) => step_errors(step@, *data).len() > 0 && views(errs@) == step_errors(
                step@,
                *data,
            ),
        },
{
    let mut validator = OnboardingValidator::new();
    let ghost e0 = validator.errors_view();
    if crate::text::str_eq(step, "WorkSchedule") {
        match data.get("useWorkSchedule") {
            Some(v) => {
                if !v.is_boolean() {
                    validator.push(
                        ValidationError::InvalidValue {
                            field: String::from_str("useWorkSchedule"),
                            reason: String::from_str("must be true or false"),
                        },
                    );
                }
            },
            None => {
                validator.push(
                    ValidationError::MissingField { field: String::from_str("useWorkSchedule") },
                );
            },
        }
    } else if crate::text::str_eq(step, "WorkHours") {
        let start = opt_str(data.get("startTime"));
        let end = opt_str(data.get("endTime"));
        validator.check_time_pair(start, end);
    } else if crate::text::str_eq(step, "CycleConfig") {
        validator.validate_cycle_configuration(data);
    } else if crate::text::str_eq(step, "StrictMode") {
        validator.validate_strict_mode_configuration(data);
        match data.get("userName") {
            Some(u) => validator.validate_user_name(u),
            None => {},
        }
    }
    assert(validator.errors_view() =~= step_errors(step@, *data));
    if validator.has_errors() {
        Err(validator.errors)
    } else {
        Ok(())
    }
}

/// A configuration with strict mode on and no emergency key (the member
/// absent or `null`) fails validation, and its errors, for the whole
/// configuration and for the strict-mode step alike, include the missing
/// field `emergencyKey`.
pub proof fn law_strict_mode_needs_emergency_key(config: JsonValue)
    requires
        config.get_spec("strictMode"@) == Some(JsonValue::Bool(true)),
        config.get_spec("emergencyKey"@) is None || config.get_spec("emergencyKey"@) == Some(JsonValue::Null),
    ensures
        config_errors(config).len() > 0,
        config_errors(config).contains(ValidationErrorView::MissingField { field: "emergencyKey"@ }),
        step_errors("StrictMode"@, config).contains(ValidationErrorView::MissingField { field: "emergencyKey"@ }),
{
    let missing = ValidationErrorView::MissingField { field: "emergencyKey"@ };
    assert(strict_mode_errors(config) =~= seq![missing]);
    let head = (match config.get_spec("workSchedule"@) {
        Some(ws) => work_schedule_errors(ws),
        None => seq![],
    }) + cycle_errors(config);
    let all = head + strict_mode_errors(config) + user_name_errors(config) + consistency_errors(config);
    assert(config_errors(config) =~= all);
    assert(all[head.len() as int] == missing);
    let step = strict_mode_errors(config) + user_name_errors(config);
    assert(step[0] == missing);
    reveal_strlit("StrictMode");
    reveal_strlit("WorkSchedule");
    reveal_strlit("WorkHours");
    reveal_strlit("CycleConfig");
    assert("StrictMode"@.len() == 10 && "WorkSchedule"@.len() == 12 && "WorkHours"@.len() == 9
        && "CycleConfig"@.len() == 11);
    assert(step_errors("StrictMode"@, config) == step);
}

} // verus!
