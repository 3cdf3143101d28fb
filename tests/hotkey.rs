use better_finder::error::LauncherError;
use better_finder::hotkey::{split_shortcut, validate_shortcut, ShortcutList};

fn refusal(s: &str) -> String {
    match validate_shortcut(s) {
        Err(LauncherError::HotkeyRegistrationError(m)) => m,
        other => panic!("expected a refusal, got {:?}", other),
    }
}

#[test]
fn valid_shortcuts() {
    for s in ["Ctrl+K", "Alt+Space", "Ctrl+Shift+F", "Super+A", "ctrl+k", "CTRL+K", "Command+Option+P"] {
        assert_eq!(validate_shortcut(s), Ok(()), "{}", s);
    }
}

#[test]
fn refused_shortcuts() {
    assert_eq!(refusal(""), "Shortcut cannot be empty");
    assert_eq!(refusal("K"), "Shortcut 'K' must include at least one modifier key");
    assert_eq!(refusal("Invalid+K"), "Invalid modifier key 'Invalid' in shortcut 'Invalid+K'");
    assert_eq!(refusal("Ctrl+Ctr+K"), "Invalid modifier key 'Ctr' in shortcut 'Ctrl+Ctr+K'");
    assert_eq!(refusal("+K"), "Invalid modifier key '' in shortcut '+K'");
}

#[test]
fn shortcut_pieces() {
    let parts: Vec<String> = split_shortcut("Ctrl+Shift+Alt+F").iter().map(|p| p.iter().collect()).collect();
    assert_eq!(parts, vec!["Ctrl", "Shift", "Alt", "F"]);
    assert_eq!(split_shortcut("").len(), 1);
    assert_eq!(split_shortcut("a++b").len(), 3);
}

#[test]
fn shortcut_list() {
    let mut list = ShortcutList::new();
    assert!(list.list().is_empty());
    list.record("Ctrl+K".to_string());
    list.record("Alt+Space".to_string());
    list.record("Ctrl+K".to_string());
    assert_eq!(list.list(), vec!["Ctrl+K".to_string(), "Alt+Space".to_string()]);
    assert!(list.contains("Alt+Space"));
    list.forget("Ctrl+K");
    assert_eq!(list.list(), vec!["Alt+Space".to_string()]);
    assert!(!list.contains("Ctrl+K"));
}

fn pieces(s: &str) -> Vec<String> {
    split_shortcut(s).iter().map(|p| p.iter().collect()).collect()
}

#[test]
fn test_validate_shortcut_empty() {
    assert!(validate_shortcut("").is_err());
}

#[test]
fn test_validate_shortcut_format() {
    for shortcut in ["Ctrl+K", "Alt+Space", "Ctrl+Shift+F", "Super+A"] {
        assert!(pieces(shortcut).len() >= 2, "Shortcut {} should have at least 2 parts", shortcut);
        assert!(validate_shortcut(shortcut).is_ok());
    }
}

#[test]
fn test_invalid_shortcut_no_modifier() {
    assert!(pieces("K").len() < 2, "Shortcut without modifier should be invalid");
    assert!(validate_shortcut("K").is_err());
}

#[test]
fn test_empty_shortcut_validation() {
    assert!(validate_shortcut("").is_err(), "Empty shortcut should be invalid");
}

#[test]
fn test_shortcut_without_modifier() {
    assert!(pieces("K").len() < 2, "Shortcut without modifier should have less than 2 parts");
}

#[test]
fn test_valid_shortcut_formats() {
    for shortcut in ["Ctrl+K", "Alt+Space", "Ctrl+Shift+F", "Super+A", "Ctrl+Alt+Delete"] {
        assert!(pieces(shortcut).len() >= 2, "Valid shortcut '{}' should have at least 2 parts", shortcut);
        assert!(validate_shortcut(shortcut).is_ok());
    }
}

#[test]
fn test_modifier_keys() {
    for modifier in ["Ctrl", "Alt", "Shift", "Super", "Command", "Option"] {
        let shortcut = format!("{}+K", modifier);
        let parts = pieces(&shortcut);
        assert_eq!(parts.len(), 2, "Shortcut should have 2 parts");
        assert_eq!(parts[0], modifier, "First part should be the modifier");
        assert_eq!(parts[1], "K", "Second part should be the key");
        assert!(validate_shortcut(&shortcut).is_ok());
    }
}

#[test]
fn test_multiple_modifiers() {
    for (shortcut, expected_parts) in [("Ctrl+Shift+K", 3), ("Ctrl+Alt+Delete", 3), ("Ctrl+Shift+Alt+F", 4)] {
        assert_eq!(pieces(shortcut).len(), expected_parts, "Shortcut '{}' should have {} parts", shortcut, expected_parts);
    }
}

#[test]
fn test_shortcut_case_handling() {
    for shortcut in ["Ctrl+K", "ctrl+k", "CTRL+K"] {
        assert_eq!(pieces(shortcut).len(), 2, "All case variations should parse correctly");
        assert!(validate_shortcut(shortcut).is_ok());
    }
}

#[test]
fn test_invalid_modifiers() {
    for shortcut in ["Invalid+K", "Ctr+K", "Contrl+K"] {
        assert!(validate_shortcut(shortcut).is_err(), "Shortcut '{}' should have invalid modifier", shortcut);
    }
}

#[test]
fn test_initial_state() {
    let shortcuts = ShortcutList::new();
    assert_eq!(shortcuts.list().len(), 0, "Initial shortcuts list should be empty");
}

#[test]
fn test_add_shortcut_to_list() {
    let mut shortcuts = ShortcutList::new();
    shortcuts.record("Ctrl+K".to_string());
    let list = shortcuts.list();
    assert_eq!(list.len(), 1, "Should have one shortcut");
    assert_eq!(list[0], "Ctrl+K", "Shortcut should match");
}

#[test]
fn test_remove_shortcut_from_list() {
    let mut shortcuts = ShortcutList::new();
    shortcuts.record("Ctrl+K".to_string());
    shortcuts.record("Alt+Space".to_string());
    shortcuts.forget("Ctrl+K");
    let list = shortcuts.list();
    assert_eq!(list.len(), 1, "Should have one shortcut remaining");
    assert_eq!(list[0], "Alt+Space", "Remaining shortcut should be Alt+Space");
}

#[test]
fn test_duplicate_shortcuts() {
    let mut shortcuts = ShortcutList::new();
    shortcuts.record("Ctrl+K".to_string());
    shortcuts.record("Ctrl+K".to_string());
    assert_eq!(shortcuts.list().len(), 1, "Should not add duplicate shortcuts");
}

#[test]
fn test_multiple_shortcuts() {
    let mut shortcuts = ShortcutList::new();
    for shortcut in ["Ctrl+K", "Alt+Space", "Ctrl+Shift+F"] {
        shortcuts.record(shortcut.to_string());
    }
    assert_eq!(shortcuts.list().len(), 3, "Should have three shortcuts");
    assert!(shortcuts.contains("Ctrl+K"));
    assert!(shortcuts.contains("Alt+Space"));
    assert!(shortcuts.contains("Ctrl+Shift+F"));
}

#[test]
fn test_empty_shortcut_error() {
    let error = refusal("");
    assert!(error.contains("empty"), "Error should mention empty shortcut");
}

#[test]
fn test_invalid_modifier_error() {
    let shortcut = "Invalid+K";
    let error = refusal(shortcut);
    assert!(error.contains("Invalid modifier"), "Error should mention invalid modifier");
    assert!(error.contains(shortcut), "Error should include the shortcut");
}

#[test]
fn test_no_modifier_error() {
    let error = refusal("K");
    assert!(error.contains("modifier key"), "Error should mention modifier key requirement");
}
