use better_finder::autostart::{disable_auto_start, enable_auto_start, is_auto_start_enabled};
use better_finder::error::LauncherError;
use better_finder::settings::Theme;
use better_finder::theme::{detect_system_theme, resolve_theme};

#[test]
fn test_resolve_theme_explicit() {
    assert_eq!(resolve_theme(Theme::Light, None).unwrap(), Theme::Light);
    assert_eq!(resolve_theme(Theme::Dark, None).unwrap(), Theme::Dark);
}

#[test]
fn theme_test_resolve_theme_system() {
    let theme = resolve_theme(Theme::System, None);
    assert!(theme.is_ok());
    let theme = theme.unwrap();
    assert!(theme == Theme::Light || theme == Theme::Dark);
}

#[test]
fn test_detect_system_theme() {
    let theme = detect_system_theme(None);
    assert!(theme.is_ok());
}

#[test]
fn test_resolve_theme_light() {
    let result = resolve_theme(Theme::Light, None);
    assert!(result.is_ok());
    assert_eq!(result.unwrap(), Theme::Light);
}

#[test]
fn test_resolve_theme_dark() {
    let result = resolve_theme(Theme::Dark, None);
    assert!(result.is_ok());
    assert_eq!(result.unwrap(), Theme::Dark);
}

#[test]
fn theme_test_test_resolve_theme_system() {
    let result = resolve_theme(Theme::System, None);
    assert!(result.is_ok());
    let theme = result.unwrap();
    assert!(theme == Theme::Light || theme == Theme::Dark);
}

#[test]
fn test_detect_system_theme_does_not_panic() {
    let result = detect_system_theme(None);
    assert!(result.is_ok());
}

#[test]
fn test_detect_system_theme_returns_valid_theme() {
    let result = detect_system_theme(None);
    assert!(result.is_ok());
    let theme = result.unwrap();
    assert!(theme == Theme::Light || theme == Theme::Dark);
}

#[test]
fn auto_start_is_unsupported_here() {
    let expected = Err(LauncherError::SettingsError(
        "Auto-start is only supported on Windows".to_string(),
    ));
    assert_eq!(enable_auto_start(), expected);
    assert_eq!(disable_auto_start(), expected);
    assert_eq!(is_auto_start_enabled(), Ok(false));
}

#[test]
fn system_theme_follows_the_preference() {
    assert_eq!(detect_system_theme(Some(1)), Ok(Theme::Light));
    assert_eq!(detect_system_theme(Some(7)), Ok(Theme::Light));
    assert_eq!(detect_system_theme(Some(0)), Ok(Theme::Dark));
    assert_eq!(resolve_theme(Theme::System, Some(1)), Ok(Theme::Light));
    assert_eq!(resolve_theme(Theme::Dark, Some(1)), Ok(Theme::Dark));
}
