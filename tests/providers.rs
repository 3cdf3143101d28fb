use better_finder::app_search::AppSearchProvider;
use better_finder::bookmark::{Bookmark, BookmarkProvider, BrowserType};
use better_finder::everything::{EverythingClient, EverythingFile};
use better_finder::file_search::FileSearchProvider;
use better_finder::types::{ResultAction, ResultType};

#[test]
fn app_fuzzy_search() {
    assert_eq!(AppSearchProvider::fuzzy_match("notepad", "notepad"), Some(100));
    assert_eq!(AppSearchProvider::fuzzy_match("note", "Notepad"), Some(90));
    assert_eq!(AppSearchProvider::fuzzy_match("pad", "notepad"), Some(70));
    assert_eq!(AppSearchProvider::fuzzy_match("vsc", "Visual Studio Code"), Some(60));
    assert_eq!(AppSearchProvider::fuzzy_match("ntpd", "notepad"), Some(40));
    assert_eq!(AppSearchProvider::fuzzy_match("xyz", "notepad"), None);
}

#[test]
fn app_acronym_matching() {
    assert!(AppSearchProvider::matches_acronym("vsc", "visual studio code"));
    assert!(AppSearchProvider::matches_acronym("mw", "microsoft word"));
    assert!(AppSearchProvider::matches_acronym("m", "microsoft word"));
    assert!(AppSearchProvider::matches_acronym("", "  two   words "));
    assert!(!AppSearchProvider::matches_acronym("xyz", "visual studio code"));
    assert!(!AppSearchProvider::matches_acronym("n", "notepad"));
    assert!(AppSearchProvider::fuzzy_char_match("ntpd", "notepad"));
    assert!(!AppSearchProvider::fuzzy_char_match("xyz", "notepad"));
}

#[test]
fn bookmark_search_scoring() {
    let bookmarks = vec![
        Bookmark::new("my test page".to_string(), "https://example.com".to_string(), BrowserType::Chrome),
        Bookmark::new("testing page".to_string(), "https://example.com".to_string(), BrowserType::Chrome),
        Bookmark::new("Test".to_string(), "https://test.com".to_string(), BrowserType::Chrome),
        Bookmark::new("Docs".to_string(), "https://TEST.example".to_string(), BrowserType::Edge),
        Bookmark::new("Other".to_string(), "https://other.example".to_string(), BrowserType::Edge),
    ];
    let results = BookmarkProvider::search_bookmarks(&bookmarks, "test");
    let titles: Vec<&str> = results.iter().map(|r| r.title.as_str()).collect();
    assert_eq!(titles, vec!["Test", "testing page", "my test page", "Docs"]);
    let scores: Vec<u64> = results.iter().map(|r| r.score).collect();
    assert_eq!(scores, vec![100, 90, 70, 50]);
    assert_eq!(results[3].id, "bookmark:Edge:https://TEST.example");
    assert_eq!(results[3].result_type, ResultType::Bookmark);
    assert!(matches!(&results[3].action, ResultAction::OpenUrl { url } if url == "https://TEST.example"));
}

#[test]
fn bookmark_search_keeps_ten() {
    let bookmarks: Vec<Bookmark> = (0..15)
        .map(|i| Bookmark::new(format!("page {}", i), format!("https://e.example/{}", i), BrowserType::Firefox))
        .collect();
    let results = BookmarkProvider::search_bookmarks(&bookmarks, "PAGE");
    assert_eq!(results.len(), 10);
    assert_eq!(results[0].title, "page 0");
    assert_eq!(results[9].title, "page 9");
    let mut with_folder = bookmarks[0].clone();
    with_folder.folder = Some("Work".to_string());
    let r = BookmarkProvider::create_search_result(&with_folder, 7);
    assert_eq!(r.subtitle, "https://e.example/0 • Work");
    assert_eq!(r.metadata.len(), 3);
    assert_eq!(r.icon.as_deref(), Some("bookmark"));
}

fn file(name: &str, size: u64, modified: i64) -> EverythingFile {
    EverythingFile {
        name: name.to_string(),
        path: "C:\\Users\\Test".to_string(),
        full_path: format!("C:\\Users\\Test\\{}", name),
        size,
        modified,
    }
}

#[test]
fn file_score_calculation() {
    let now = 1_700_000_000;
    let f = file("test.txt", 1024, now);
    let score = FileSearchProvider::calculate_score(&f, "test", now);
    assert_eq!(score, 50 + 50 + 25 + 10);
    let exact = FileSearchProvider::calculate_score(&f, "TEST.txt", now);
    assert_eq!(exact, 50 + 100 + 50 + 25 + 10);
    let month_old = file("a.bin", 2_000_000_000, now - 10 * 86400);
    assert_eq!(FileSearchProvider::calculate_score(&month_old, "zzz", now), 50 + 5 - 5);
    let old = file("a.bin", 10, now - 400 * 86400);
    assert_eq!(FileSearchProvider::calculate_score(&old, "zzz", now), 50);
    let future = file("a.bin", 10, now + 86400);
    assert_eq!(FileSearchProvider::calculate_score(&future, "zzz", now), 60);
}

#[test]
fn everything_client_and_utf16() {
    let client = EverythingClient::with_availability(false);
    assert!(!client.is_available());
    let wide: Vec<u16> = "héllo".encode_utf16().collect();
    assert_eq!(EverythingClient::from_wide_slice(&wide).as_deref(), Some("héllo"));
    assert_eq!(EverythingClient::from_wide_slice(&[0xD800]), None);
}

use better_finder::recent_files::{RecentFile, RecentFilesProvider};

#[test]
fn test_recent_file_creation() {
    let path = "C:\\test\\file.txt".to_string();
    let file = RecentFile::new(path.clone(), 1_700_000_000);
    assert_eq!(file.path, path);
    assert_eq!(file.access_count, 1);
}

#[test]
fn recent_file_update_access() {
    let mut file = RecentFile::new("/tmp/a.txt".to_string(), 100);
    file.update_access(160);
    assert_eq!(file.last_accessed, 160);
    assert_eq!(file.access_count, 2);
}

#[test]
fn test_recent_file_file_name() {
    let file = RecentFile::new("/test/folder/document.txt".to_string(), 0);
    assert_eq!(file.file_name(), "document.txt");
    assert_eq!(file.path_string(), "/test/folder/document.txt");
    let root = RecentFile::new("/".to_string(), 0);
    assert_eq!(root.file_name(), "Unknown");
}

#[test]
fn test_get_file_icon() {
    assert_eq!(RecentFilesProvider::get_file_icon("test.txt"), Some("file-text".to_string()));
    assert_eq!(RecentFilesProvider::get_file_icon("document.pdf"), Some("file-pdf".to_string()));
    assert_eq!(RecentFilesProvider::get_file_icon("file.xyz"), Some("file".to_string()));
    assert_eq!(RecentFilesProvider::get_file_icon("Photo.JPEG"), Some("file-image".to_string()));
    assert_eq!(RecentFilesProvider::get_file_icon("Makefile"), None);
}

use better_finder::app_search::{AppScanner, Application as App};
use better_finder::error::LauncherError as Err2;

fn app(name: &str, path: &str) -> App {
    App { name: name.to_string(), path: path.to_string(), description: None, is_shortcut: false }
}

#[test]
fn scanned_applications_are_sorted_and_unique() {
    let scans = vec![
        Ok(vec![app("Zed", "/opt/zed"), app("Code", "/usr/bin/code")]),
        Err(Err2::IoError("denied".to_string())),
        Ok(vec![app("Code again", "/usr/bin/code"), app("Atom", "/opt/atom"), app("Zed", "/opt//zed")]),
    ];
    let apps = AppScanner::scan_applications(scans).unwrap();
    let paths: Vec<&str> = apps.iter().map(|a| a.path.as_str()).collect();
    assert_eq!(paths, vec!["/opt/atom", "/opt/zed", "/usr/bin/code"]);
    assert_eq!(apps[2].name, "Code");
    assert!(AppScanner::scan_applications(Vec::new()).unwrap().is_empty());
}
