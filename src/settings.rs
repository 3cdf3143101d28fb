use vstd::prelude::*;
use crate::error::LauncherError;

verus! {

/// Largest allowed `max_results`.
pub const MAX_RESULTS_LIMIT: usize = 50;

/// Largest allowed search delay, in milliseconds.
pub const MAX_SEARCH_DELAY_MS: u64 = 1000;

/// UI theme options.
#[derive(Debug, Clone, Copy, PartialEq, Eq, Structural)]
pub enum Theme {
    Light,
    Dark,
    System,
}

/// Which search providers are enabled.
#[derive(Debug, Clone, Copy, PartialEq, Eq, Structural)]
pub struct EnabledProviders {
    pub files: bool,
    pub applications: bool,
    pub quick_actions: bool,
    pub calculator: bool,
    pub clipboard: bool,
    pub bookmarks: bool,
    pub recent_files: bool,
}

/// Application settings.
#[derive(Debug, Clone)]
pub struct AppSettings {
    /// Global hotkey combination, such as `Ctrl+K`.
    pub hotkey: String,
    pub theme: Theme,
    /// Maximum number of results to display.
    pub max_results: usize,
    pub enabled_providers: EnabledProviders,
    /// Search input debounce delay in milliseconds.
    pub search_delay: u64,
    /// Whether to start with the system.
    pub start_with_windows: bool,
}

impl Default for EnabledProviders {
    /// Every provider enabled.
    fn default() -> (r: Self)
        ensures
            r.files && r.applications && r.quick_actions && r.calculator && r.clipboard && r.bookmarks
                && r.recent_files,
    {
        EnabledProviders {
            files: true,
            applications: true,
            quick_actions: true,
            calculator: true,
            clipboard: true,
            bookmarks: true,
            recent_files: true,
        }
    }
}

impl Default for AppSettings {
    /// `Ctrl+K`, the system theme, 8 results, every provider, 150 ms delay,
    /// no start with the system.
    fn default() -> (r: Self)
        ensures
            r.hotkey@ == "Ctrl+K"@,
            r.theme == Theme::System,
            r.max_results == 8,
            r.enabled_providers.files && r.enabled_providers.applications
                && r.enabled_providers.quick_actions && r.enabled_providers.calculator
                && r.enabled_providers.clipboard && r.enabled_providers.bookmarks
                && r.enabled_providers.recent_files,
            r.search_delay == 150,
            !r.start_with_windows,
    {
        AppSettings {
            hotkey: "Ctrl+K".to_owned(),
            theme: Theme::System,
            max_results: 8,
            enabled_providers: EnabledProviders::default(),
            search_delay: 150,
            start_with_windows: false,
        }
    }
}

impl AppSettings {
    /// Checks the settings: the hotkey is not empty, `max_results` lies in
    /// 1..=50 and the search delay is at most 1000 ms, tested in that order.
    pub fn validate(&self) -> (r: Result<(), LauncherError>)
        ensures
            r is Ok <==> (self.hotkey@.len() > 0 && 1 <= self.max_results <= MAX_RESULTS_LIMIT
                && self.search_delay <= MAX_SEARCH_DELAY_MS),
            self.hotkey@.len() == 0 ==> r is Err && r->Err_0 is ConfigError
                && r->Err_0->ConfigError_0@ == "Hotkey cannot be empty"@,
            self.hotkey@.len() > 0 && !(1 <= self.max_results <= MAX_RESULTS_LIMIT) ==> r is Err
                && r->Err_0 is ConfigError && r->Err_0->ConfigError_0@
                == "Max results must be between 1 and 50"@,
            self.hotkey@.len() > 0 && 1 <= self.max_results <= MAX_RESULTS_LIMIT
                && self.search_delay > MAX_SEARCH_DELAY_MS ==> r is Err && r->Err_0 is ConfigError
                && r->Err_0->ConfigError_0@ == "Search delay must be less than 1000ms"@,
    {
        if self.hotkey.as_str().unicode_len() == 0 {
            return Err(LauncherError::ConfigError("Hotkey cannot be empty".to_owned()));
        }
        if self.max_results == 0 || self.max_results > MAX_RESULTS_LIMIT {
            return Err(LauncherError::ConfigError("Max results must be between 1 and 50".to_owned()));
        }
        if self.search_delay > MAX_SEARCH_DELAY_MS {
            return Err(LauncherError::ConfigError("Search delay must be less than 1000ms".to_owned()));
        }
        Ok(())
    }
}

/// What applying new settings over the current ones has to do, besides
/// saving them.
#[derive(Debug)]
pub struct SettingsChanges {
    /// Unregister this hotkey and register the new one.
    pub hotkey: Option<(String, String)>,
    /// Tell the interface about this new theme.
    pub theme: Option<Theme>,
    /// Turn starting with the system on (`true`) or off.
    pub auto_start: Option<bool>,
}

/// The changes between `current` and `new`: the hotkey when its text
/// differs, the theme when it differs, the start-with-system switch when
/// it differs.
pub fn settings_changes(new: &AppSettings, current: &AppSettings) -> (r: SettingsChanges)
    ensures
        (current.hotkey@ == new.hotkey@) == (r.hotkey is None),
        match r.hotkey {
            Some((old_key, new_key)) => old_key@ == current.hotkey@ && new_key@ == new.hotkey@,
            None => true,
        },
        (current.theme == new.theme) == (r.theme is None),
        r.theme is Some ==> r.theme->0 == new.theme,
        (current.start_with_windows == new.start_with_windows) == (r.auto_start is None),
        r.auto_start is Some ==> r.auto_start->0 == new.start_with_windows,
{
    let hotkey = if new.hotkey == current.hotkey {
        None
    } else {
        Some((current.hotkey.clone(), new.hotkey.clone()))
    };
    let theme = if new.theme == current.theme {
        None
    } else {
        Some(new.theme)
    };
    let auto_start = if new.start_with_windows == current.start_with_windows {
        None
    } else {
        Some(new.start_with_windows)
    };
    SettingsChanges { hotkey, theme, auto_start }
}

} // verus!
