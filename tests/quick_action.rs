use better_finder::quick_action::{QuickAction, QuickActionProvider, SystemCommand};
use better_finder::types::{ResultAction, ResultType};

#[test]
fn test_system_command_all() {
    let commands = SystemCommand::all();
    assert_eq!(commands.len(), 6);

    assert!(commands.contains(&SystemCommand::Shutdown));
    assert!(commands.contains(&SystemCommand::Restart));
    assert!(commands.contains(&SystemCommand::Lock));
    assert!(commands.contains(&SystemCommand::Sleep));
    assert!(commands.contains(&SystemCommand::Hibernate));
    assert!(commands.contains(&SystemCommand::LogOff));
}

#[test]
fn system_command_texts() {
    assert_eq!(SystemCommand::LogOff.display_name(), "Log Off");
    assert_eq!(SystemCommand::Sleep.description(), "Put the computer to sleep");
    assert_eq!(SystemCommand::Restart.icon(), "refresh-cw");
    assert!(SystemCommand::Shutdown.requires_confirmation());
    assert!(SystemCommand::LogOff.requires_confirmation());
    assert!(!SystemCommand::Lock.requires_confirmation());
    let action = QuickAction::from_command(SystemCommand::Hibernate);
    assert_eq!(action.name, "Hibernate");
    assert_eq!(action.icon, "archive");
    assert_eq!(QuickAction::all_actions().len(), 6);
}

#[test]
fn fuzzy_scores() {
    assert_eq!(QuickActionProvider::fuzzy_match("lock", "Lock"), Some(100));
    assert_eq!(QuickActionProvider::fuzzy_match("shut", "Shutdown"), Some(90));
    assert_eq!(QuickActionProvider::fuzzy_match("off", "Log Off"), Some(70));
    assert_eq!(QuickActionProvider::fuzzy_match("rst", "Restart"), Some(50));
    assert_eq!(QuickActionProvider::fuzzy_match("xyz", "Restart"), None);
    assert!(QuickActionProvider::fuzzy_char_match("hbn", "hibernate"));
    assert!(!QuickActionProvider::fuzzy_char_match("nh", "hibernate"));
    assert!(QuickActionProvider::fuzzy_char_match("", "anything"));
}

#[test]
fn quick_action_search_ranks_matches() {
    let provider = QuickActionProvider::new().unwrap();
    assert!(provider.is_enabled());
    assert_eq!(provider.name(), "QuickAction");
    assert_eq!(provider.priority(), 80);
    assert!(provider.search("   ").is_empty());

    let results = provider.search("s");
    // Shutdown and Sleep begin with "s" (90); Restart contains it (70).
    let titles: Vec<&str> = results.iter().map(|r| r.title.as_str()).collect();
    assert_eq!(titles, vec!["Shutdown", "Sleep", "Restart"]);
    assert_eq!(results[0].score, 90);
    assert_eq!(results[2].score, 70);

    let log = provider.search("log off");
    assert_eq!(log.len(), 1);
    assert_eq!(log[0].id, "quick_action:log_off");
    assert_eq!(log[0].result_type, ResultType::QuickAction);
    assert_eq!(log[0].score, 100);
    assert_eq!(log[0].icon.as_deref(), Some("log-out"));
    match &log[0].action {
        ResultAction::ExecuteCommand { command, args } => {
            assert_eq!(command, "system:LogOff");
            assert!(args.is_empty());
        }
        other => panic!("unexpected action {:?}", other),
    }
    assert_eq!(log[0].metadata[1], ("requires_confirmation".to_string(), "true".to_string()));
}
