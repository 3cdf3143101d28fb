use better_finder::autostart::run_entry_matches;
use better_finder::logging::{cleanup_plan, rotation_plan, LogAction, MAX_LOG_BYTES};

#[test]
fn small_or_missing_logs_are_left_alone() {
    assert!(rotation_plan(None, &vec![true; 5]).is_empty());
    assert!(rotation_plan(Some(MAX_LOG_BYTES), &vec![false; 5]).is_empty());
}

#[test]
fn big_log_rotates_into_first_backup() {
    assert_eq!(rotation_plan(Some(MAX_LOG_BYTES + 1), &vec![false; 5]), vec![LogAction::Rename(0, 1)]);
}

#[test]
fn backups_shift_up_and_the_oldest_is_replaced() {
    let plan = rotation_plan(Some(20 * 1024 * 1024), &vec![true, true, false, false, true]);
    assert_eq!(
        plan,
        vec![LogAction::Rename(2, 3), LogAction::Rename(1, 2), LogAction::Rename(0, 1)]
    );
    let full = rotation_plan(Some(u64::MAX), &vec![true; 5]);
    assert_eq!(
        full,
        vec![
            LogAction::Remove(5),
            LogAction::Rename(4, 5),
            LogAction::Rename(3, 4),
            LogAction::Rename(2, 3),
            LogAction::Rename(1, 2),
            LogAction::Rename(0, 1),
        ]
    );
}

#[test]
fn old_logs_to_remove() {
    assert_eq!(cleanup_plan(&vec![true, false, true, false, true]), vec![6, 8, 10]);
    assert!(cleanup_plan(&vec![false; 5]).is_empty());
}

#[test]
fn start_up_entry_comparison() {
    assert!(run_entry_matches(Some("C:\\Apps\\Finder.EXE"), "c:\\apps\\finder.exe"));
    assert!(!run_entry_matches(Some("C:\\Other.exe"), "C:\\Finder.exe"));
    assert!(!run_entry_matches(None, "C:\\Finder.exe"));
}
