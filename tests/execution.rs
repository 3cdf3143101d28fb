use better_finder::app_search::{AppSearchProvider, Application};
use better_finder::bookmark::BookmarkProvider;
use better_finder::clipboard::ClipboardHistory;
use better_finder::engine::meta_text;
use better_finder::error::LauncherError;
use better_finder::everything::EverythingFile;
use better_finder::file_search::FileSearchProvider;
use better_finder::quick_action::{QuickActionProvider, SystemCommand};
use better_finder::recent_files::RecentFilesProvider;
use better_finder::types::{ActionKind, ResultAction, ResultType, SearchResult};

fn result(t: ResultType, action: ResultAction, metadata: Vec<(&str, &str)>) -> SearchResult {
    SearchResult {
        id: "x".to_string(),
        title: "X".to_string(),
        subtitle: String::new(),
        icon: None,
        result_type: t,
        score: 1,
        metadata: metadata.into_iter().map(|(k, v)| (k.to_string(), v.to_string())).collect(),
        action,
    }
}

fn exec_err(m: &str) -> LauncherError {
    LauncherError::ExecutionError(m.to_string())
}

#[test]
fn file_results_and_paths() {
    let f = EverythingFile {
        name: "a.txt".to_string(),
        path: "/docs".to_string(),
        full_path: "/docs/a.txt".to_string(),
        size: 12,
        modified: -5,
    };
    let r = FileSearchProvider::convert_to_search_result(&f, 80, Some("file-text".to_string()));
    assert_eq!(r.id, "file:/docs/a.txt");
    assert_eq!(r.subtitle, "/docs");
    assert_eq!(r.metadata[0], ("size".to_string(), "12".to_string()));
    assert_eq!(r.metadata[1], ("modified".to_string(), "-5".to_string()));
    assert_eq!(FileSearchProvider::path_to_open(&r), Ok("/docs/a.txt".to_string()));
    let wrong = result(ResultType::Bookmark, ResultAction::OpenFile { path: "/p".to_string() }, vec![]);
    assert_eq!(FileSearchProvider::path_to_open(&wrong), Err(exec_err("Not a file result")));
    let bad = result(ResultType::File, ResultAction::OpenUrl { url: "u".to_string() }, vec![]);
    assert_eq!(FileSearchProvider::path_to_open(&bad), Err(exec_err("Invalid action for file result")));
}

#[test]
fn app_results_and_paths() {
    let app = Application {
        name: "Editor".to_string(),
        path: "/usr/bin/editor".to_string(),
        description: Some("Edits".to_string()),
        is_shortcut: false,
    };
    let r = AppSearchProvider::convert_to_search_result(&app, 90, None);
    assert_eq!(r.id, "app:/usr/bin/editor");
    assert_eq!(r.metadata.len(), 3);
    assert_eq!(r.metadata[1].1, "false");
    assert_eq!(AppSearchProvider::path_to_launch(&r), Ok("/usr/bin/editor".to_string()));
    let bad = result(ResultType::Application, ResultAction::OpenFile { path: "/p".to_string() }, vec![]);
    assert_eq!(AppSearchProvider::path_to_launch(&bad), Err(exec_err("Invalid action for application result")));
    assert_eq!(AppSearchProvider::path_to_launch(&result(ResultType::File, r.action.clone(), vec![])), Err(exec_err("Not an application result")));
}

#[test]
fn bookmark_clipboard_recent_checks() {
    let b = result(ResultType::Bookmark, ResultAction::OpenUrl { url: "https://e.x".to_string() }, vec![]);
    assert_eq!(BookmarkProvider::url_to_open(&b), Ok("https://e.x".to_string()));
    let b2 = result(ResultType::Bookmark, ResultAction::WebSearch { query: "q".to_string() }, vec![]);
    assert_eq!(BookmarkProvider::url_to_open(&b2), Err(exec_err("Invalid bookmark action")));

    let c = result(ResultType::Clipboard, ResultAction::CopyToClipboard { content: "ignored".to_string() }, vec![("content", "kept")]);
    assert_eq!(ClipboardHistory::content_to_copy(&c), Ok("kept".to_string()));
    let c2 = result(ResultType::Clipboard, ResultAction::CopyToClipboard { content: "x".to_string() }, vec![]);
    assert_eq!(ClipboardHistory::content_to_copy(&c2), Err(exec_err("Invalid clipboard result")));
    assert_eq!(ClipboardHistory::content_to_copy(&b), Err(exec_err("Not a clipboard result")));

    let r = result(ResultType::RecentFile, ResultAction::OpenFile { path: "/a".to_string() }, vec![("path", "/b")]);
    assert_eq!(RecentFilesProvider::path_to_open(&r), Ok("/b".to_string()));
    assert_eq!(RecentFilesProvider::path_to_open(&c), Err(exec_err("Not a recent file result")));
}

#[test]
fn quick_action_commands() {
    let provider = QuickActionProvider::new().unwrap();
    let lock = provider.search("lock");
    assert_eq!(QuickActionProvider::command_to_execute(&lock[0]), Ok(SystemCommand::Lock));
    let off = provider.search("log off");
    assert_eq!(QuickActionProvider::command_to_execute(&off[0]), Ok(SystemCommand::LogOff));
    let bad = result(ResultType::QuickAction, ResultAction::ExecuteCommand { command: "c".to_string(), args: vec![] }, vec![("command", "Reboot")]);
    assert_eq!(QuickActionProvider::command_to_execute(&bad), Err(exec_err("Invalid quick action command")));
    let none = result(ResultType::QuickAction, ResultAction::ExecuteCommand { command: "c".to_string(), args: vec![] }, vec![]);
    assert_eq!(QuickActionProvider::command_to_execute(&none), Err(exec_err("Invalid quick action command")));
    assert_eq!(QuickActionProvider::command_to_execute(&result(ResultType::File, none.action.clone(), vec![])), Err(exec_err("Not a quick action result")));
}

#[test]
fn metadata_and_action_text() {
    let r = result(ResultType::File, ResultAction::WebSearch { query: "q".to_string() }, vec![("k", "1"), ("k", "2")]);
    assert_eq!(meta_text(&r, "k"), Some("1".to_string()));
    assert_eq!(meta_text(&r, "z"), None);
    assert_eq!(r.action.text_of_kind(ActionKind::WebSearch), Some("q".to_string()));
    assert_eq!(r.action.text_of_kind(ActionKind::OpenUrl), None);
    let cmd = ResultAction::ExecuteCommand { command: "c".to_string(), args: vec![] };
    assert_eq!(cmd.text_of_kind(ActionKind::ExecuteCommand), None);
}
