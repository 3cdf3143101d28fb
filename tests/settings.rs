use better_finder::error::LauncherError;
use better_finder::settings::{AppSettings, Theme};

#[test]
fn test_default_settings() {
    let settings = AppSettings::default();
    assert_eq!(settings.hotkey, "Ctrl+K");
    assert_eq!(settings.max_results, 8);
    assert_eq!(settings.search_delay, 150);
    assert!(settings.enabled_providers.files);
}

#[test]
fn test_settings_validation() {
    let mut settings = AppSettings::default();
    assert!(settings.validate().is_ok());

    settings.hotkey = String::new();
    assert!(settings.validate().is_err());

    settings.hotkey = "Ctrl+K".to_string();
    settings.max_results = 0;
    assert!(settings.validate().is_err());

    settings.max_results = 100;
    assert!(settings.validate().is_err());

    settings.max_results = 8;
    settings.search_delay = 2000;
    assert!(settings.validate().is_err());
}

#[test]
fn settings_validation_messages_and_bounds() {
    let mut settings = AppSettings::default();
    assert_eq!(settings.theme, Theme::System);
    settings.hotkey = String::new();
    assert_eq!(
        settings.validate(),
        Err(LauncherError::ConfigError("Hotkey cannot be empty".to_string()))
    );
    settings.hotkey = "Alt+Space".to_string();
    settings.max_results = 51;
    assert_eq!(
        settings.validate(),
        Err(LauncherError::ConfigError("Max results must be between 1 and 50".to_string()))
    );
    settings.max_results = 50;
    assert!(settings.validate().is_ok());
    settings.max_results = 1;
    settings.search_delay = 1000;
    assert!(settings.validate().is_ok());
    settings.search_delay = 1001;
    assert_eq!(
        settings.validate(),
        Err(LauncherError::ConfigError("Search delay must be less than 1000ms".to_string()))
    );
    assert_eq!(
        settings.validate().unwrap_err().message(),
        "Invalid configuration: Search delay must be less than 1000ms"
    );
}

use better_finder::settings::settings_changes;

#[test]
fn settings_changes_lists_what_differs() {
    let current = AppSettings::default();
    let same = settings_changes(&current, &current);
    assert!(same.hotkey.is_none() && same.theme.is_none() && same.auto_start.is_none());
    let mut new = AppSettings::default();
    new.hotkey = "Alt+Space".to_string();
    new.theme = Theme::Light;
    new.start_with_windows = true;
    new.max_results = 20;
    let c = settings_changes(&new, &current);
    assert_eq!(c.hotkey, Some(("Ctrl+K".to_string(), "Alt+Space".to_string())));
    assert_eq!(c.theme, Some(Theme::Light));
    assert_eq!(c.auto_start, Some(true));
}
