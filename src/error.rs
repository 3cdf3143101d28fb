use vstd::prelude::*;

verus! {

/// Error kinds of the launcher. Each carries the text of its cause.
#[derive(Debug, Clone, PartialEq, Eq)]
pub enum LauncherError {
    HotkeyRegistrationError(String),
    EverythingNotAvailable,
    SearchError(String),
    ExecutionError(String),
    SettingsError(String),
    ProviderError(String),
    IoError(String),
    SerializationError(String),
    SecurityError(String),
    ConfigError(String),
    NotFound(String),
    DatabaseError(String),
    TrayError(String),
    WindowError(String),
}

/// Relies on `String::push_str`: appends `t`.
#[verifier::external_body]
pub fn append_str(s: &mut String, t: &str)
    ensures
        final(s)@ == old(s)@ + t@,
{
    s.push_str(t)
}

/// `prefix` followed by `detail`.
pub fn joined(prefix: &str, detail: &str) -> (r: String)
    ensures
        r@ == prefix@ + detail@,
{
    let mut r = String::new();
    append_str(&mut r, prefix);
    assert(Seq::<char>::empty() + prefix@ =~= prefix@);
    append_str(&mut r, detail);
    r
}

/// The prefix that each kind puts before its cause.
pub open spec fn prefix_of(e: LauncherError) -> Seq<char> {
    match e {
        LauncherError::HotkeyRegistrationError(_) => "Failed to register global hotkey: "@,
        LauncherError::EverythingNotAvailable => "Everything SDK not found or not running"@,
        LauncherError::SearchError(_) => "Failed to execute search: "@,
        LauncherError::ExecutionError(_) => "Failed to execute result action: "@,
        LauncherError::SettingsError(_) => "Settings error: "@,
        LauncherError::ProviderError(_) => "Provider error: "@,
        LauncherError::IoError(_) => "IO error: "@,
        LauncherError::SerializationError(_) => "Serialization error: "@,
        LauncherError::SecurityError(_) => "Security error: "@,
        LauncherError::ConfigError(_) => "Invalid configuration: "@,
        LauncherError::NotFound(_) => "Resource not found: "@,
        LauncherError::DatabaseError(_) => "Database error: "@,
        LauncherError::TrayError(_) => "Tray error: "@,
        LauncherError::WindowError(_) => "Window error: "@,
    }
}

/// The cause carried by `e`, empty for a kind without one.
pub open spec fn detail_of(e: LauncherError) -> Seq<char> {
    match e {
        LauncherError::HotkeyRegistrationError(s) => s@,
        LauncherError::EverythingNotAvailable => Seq::<char>::empty(),
        LauncherError::SearchError(s) => s@,
        LauncherError::ExecutionError(s) => s@,
        LauncherError::SettingsError(s) => s@,
        LauncherError::ProviderError(s) => s@,
        LauncherError::IoError(s) => s@,
        LauncherError::SerializationError(s) => s@,
        LauncherError::SecurityError(s) => s@,
        LauncherError::ConfigError(s) => s@,
        LauncherError::NotFound(s) => s@,
        LauncherError::DatabaseError(s) => s@,
        LauncherError::TrayError(s) => s@,
        LauncherError::WindowError(s) => s@,
    }
}

impl LauncherError {
    /// The user-facing text of the error: its kind's prefix, then its cause.
    pub fn message(&self) -> (r: String)
        ensures
            r@ == prefix_of(*self) + detail_of(*self),
    {
        match self {
            LauncherError::HotkeyRegistrationError(s) => joined("Failed to register global hotkey: ", s.as_str()),
            LauncherError::EverythingNotAvailable => {
                proof {
                    reveal_strlit("");
                }
                let r = joined("Everything SDK not found or not running", "");
                assert(r@ =~= prefix_of(*self) + detail_of(*self));
                r
            },
            LauncherError::SearchError(s) => joined("Failed to execute search: ", s.as_str()),
            LauncherError::ExecutionError(s) => joined("Failed to execute result action: ", s.as_str()),
            LauncherError::SettingsError(s) => joined("Settings error: ", s.as_str()),
            LauncherError::ProviderError(s) => joined("Provider error: ", s.as_str()),
            LauncherError::IoError(s) => joined("IO error: ", s.as_str()),
            LauncherError::SerializationError(s) => joined("Serialization error: ", s.as_str()),
            LauncherError::SecurityError(s) => joined("Security error: ", s.as_str()),
            LauncherError::ConfigError(s) => joined("Invalid configuration: ", s.as_str()),
            LauncherError::NotFound(s) => joined("Resource not found: ", s.as_str()),
            LauncherError::DatabaseError(s) => joined("Database error: ", s.as_str()),
            LauncherError::TrayError(s) => joined("Tray error: ", s.as_str()),
            LauncherError::WindowError(s) => joined("Window error: ", s.as_str()),
        }
    }
}

} // verus!
