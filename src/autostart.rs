use vstd::prelude::*;
use crate::error::LauncherError;
use crate::text::{chars_of, lower_of, seq_equal, to_lower};

verus! {

/// Starting with the system is only supported on Windows; elsewhere this
/// reports a settings error.
pub fn enable_auto_start() -> (r: Result<(), LauncherError>)
    ensures
        r is Err && r->Err_0 is SettingsError && r->Err_0->SettingsError_0@
            == "Auto-start is only supported on Windows"@,
{
    Err(LauncherError::SettingsError("Auto-start is only supported on Windows".to_owned()))
}

/// Like `enable_auto_start`, a settings error outside Windows.
pub fn disable_auto_start() -> (r: Result<(), LauncherError>)
    ensures
        r is Err && r->Err_0 is SettingsError && r->Err_0->SettingsError_0@
            == "Auto-start is only supported on Windows"@,
{
    Err(LauncherError::SettingsError("Auto-start is only supported on Windows".to_owned()))
}

/// Outside Windows auto-start is never enabled.
pub fn is_auto_start_enabled() -> (r: Result<bool, LauncherError>)
    ensures
        r == Ok::<bool, LauncherError>(false),
{
    Ok(false)
}

/// Whether the start-up entry `run_value`, as read, starts this program at
/// `exe_path`: the two paths are equal once lower-cased; no entry means no.
pub fn run_entry_matches(run_value: Option<&str>, exe_path: &str) -> (r: bool)
    ensures
        match run_value {
            Some(v) => r == (lower_of(v@) == lower_of(exe_path@)),
            None => !r,
        },
{
    match run_value {
        Some(v) => seq_equal(&chars_of(to_lower(v).as_str()), &chars_of(to_lower(exe_path).as_str())),
        None => false,
    }
}

} // verus!
