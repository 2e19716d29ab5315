use vstd::prelude::*;

verus! {

/// Application level errors, each carrying a detail message.
#[derive(Debug, Clone)]
pub enum AppError {
    Lock(String),
    Http(String),
    Json(String),
    Config(String),
    Auth(String),
    Io(String),
    Database(String),
    Validation(String),
    Cycle(String),
    Onboarding(String),
}

impl AppError {
    /// The text shown to the user for this kind of error.
    pub open spec fn user_message_spec(self) -> Seq<char> {
        match self {
            AppError::Lock(_) => "The application is temporarily busy. Please try again."@,
            AppError::Http(_) => "Network connection error. Please check your internet connection."@,
            AppError::Json(_) => "Data format error. Please restart the application."@,
            AppError::Config(_) => "Configuration error. Please check your settings."@,
            AppError::Auth(_) => "Authentication failed. Please sign in again."@,
            AppError::Io(_) => "File system error. Please check permissions."@,
            AppError::Database(_) => "Database error. Your data may need recovery."@,
            AppError::Validation(_) => "Invalid input. Please check your entries."@,
            AppError::Cycle(_) => "Work cycle error. Please try restarting the session."@,
            AppError::Onboarding(_) => "Setup error. Please restart the onboarding process."@,
        }
    }

    /// User-friendly message for the frontend.
    pub fn user_message(&self) -> (msg: String)
        ensures
            msg@ == self.user_message_spec(),
    {
        match self {
            AppError::Lock(_) => String::from_str(
                "The application is temporarily busy. Please try again.",
            ),
            AppError::Http(_) => String::from_str(
                "Network connection error. Please check your internet connection.",
            ),
            AppError::Json(_) => String::from_str(
                "Data format error. Please restart the application.",
            ),
            AppError::Config(_) => String::from_str(
                "Configuration error. Please check your settings.",
            ),
            AppError::Auth(_) => String::from_str("Authentication failed. Please sign in again."),
            AppError::Io(_) => String::from_str("File system error. Please check permissions."),
            AppError::Database(_) => String::from_str(
                "Database error. Your data may need recovery.",
            ),
            AppError::Validation(_) => String::from_str(
                "Invalid input. Please check your entries.",
            ),
            AppError::Cycle(_) => String::from_str(
                "Work cycle error. Please try restarting the session.",
            ),
            AppError::Onboarding(_) => String::from_str(
                "Setup error. Please restart the onboarding process.",
            ),
        }
    }

    /// Transient errors (lock contention, network) are worth retrying.
    pub fn should_retry(&self) -> (r: bool)
        ensures
            r == (self is Lock || self is Http),
    {
        match self {
            AppError::Lock(_) | AppError::Http(_) => true,
            _ => false,
        }
    }

    /// Every error but a database or file-system one is recoverable.
    pub fn is_recoverable(&self) -> (r: bool)
        ensures
            r == !(self is Database || self is Io),
    {
        match self {
            AppError::Database(_) | AppError::Io(_) => false,
            _ => true,
        }
    }

    /// The prefix naming the kind of error in its display text.
    pub open spec fn kind_prefix(self) -> Seq<char> {
        match self {
            AppError::Lock(_) => "lock: "@,
            AppError::Http(_) => "http: "@,
            AppError::Json(_) => "json: "@,
            AppError::Config(_) => "config: "@,
            AppError::Auth(_) => "auth: "@,
            AppError::Io(_) => "io: "@,
            AppError::Database(_) => "database: "@,
            AppError::Validation(_) => "validation: "@,
            AppError::Cycle(_) => "cycle: "@,
            AppError::Onboarding(_) => "onboarding: "@,
        }
    }

    /// The detail message carried by the error.
    pub open spec fn detail(self) -> String {
        match self {
            AppError::Lock(s) | AppError::Http(s) | AppError::Json(s) | AppError::Config(s)
            | AppError::Auth(s) | AppError::Io(s) | AppError::Database(s)
            | AppError::Validation(s) | AppError::Cycle(s) | AppError::Onboarding(s) => s,
        }
    }

    /// The display text of the error: its kind, a colon, and its detail
    /// (for example `lock: poisoned`).
    pub fn to_message(&self) -> (msg: String)
        ensures
            msg@ == self.kind_prefix() + self.detail()@,
    {
        let mut m = match self {
            AppError::Lock(_) => String::from_str("lock: "),
            AppError::Http(_) => String::from_str("http: "),
            AppError::Json(_) => String::from_str("json: "),
            AppError::Config(_) => String::from_str("config: "),
            AppError::Auth(_) => String::from_str("auth: "),
            AppError::Io(_) => String::from_str("io: "),
            AppError::Database(_) => String::from_str("database: "),
            AppError::Validation(_) => String::from_str("validation: "),
            AppError::Cycle(_) => String::from_str("cycle: "),
            AppError::Onboarding(_) => String::from_str("onboarding: "),
        };
        let d = match self {
            AppError::Lock(s) | AppError::Http(s) | AppError::Json(s) | AppError::Config(s)
            | AppError::Auth(s) | AppError::Io(s) | AppError::Database(s)
            | AppError::Validation(s) | AppError::Cycle(s) | AppError::Onboarding(s) => s,
        };
        m.append(d.as_str());
        m
    }
}

} // verus!
