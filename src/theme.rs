use vstd::prelude::*;
use crate::error::LauncherError;
use crate::settings::Theme;

verus! {

/// The system theme for the `AppsUseLightTheme` preference as read: light
/// for a non-zero value, dark for zero or when nothing could be read.
pub open spec fn theme_of_preference(apps_use_light_theme: Option<u32>) -> Theme {
    match apps_use_light_theme {
        Some(d) => if d != 0 {
            Theme::Light
        } else {
            Theme::Dark
        },
        None => Theme::Dark,
    }
}

/// The system's theme from its `AppsUseLightTheme` preference, given as
/// read (`None` when it could not be read, as everywhere but on Windows).
pub fn detect_system_theme(apps_use_light_theme: Option<u32>) -> (r: Result<Theme, LauncherError>)
    ensures
        r == Ok::<Theme, LauncherError>(theme_of_preference(apps_use_light_theme)),
{
    match apps_use_light_theme {
        Some(d) => if d != 0 {
            Ok(Theme::Light)
        } else {
            Ok(Theme::Dark)
        },
        None => Ok(Theme::Dark),
    }
}

/// The theme to use for a setting: the system's for `System` (from the
/// preference as read), else the setting itself.
pub fn resolve_theme(theme_setting: Theme, apps_use_light_theme: Option<u32>) -> (r: Result<Theme, LauncherError>)
    ensures
        theme_setting == Theme::System ==> r == Ok::<Theme, LauncherError>(
            theme_of_preference(apps_use_light_theme),
        ),
        theme_setting != Theme::System ==> r == Ok::<Theme, LauncherError>(theme_setting),
{
    match theme_setting {
        Theme::System => detect_system_theme(apps_use_light_theme),
        other => Ok(other),
    }
}

} // verus!
