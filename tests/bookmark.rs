use better_finder::bookmark::{Bookmark, BookmarkNode, BookmarkRoots, BrowserType, ChromeBookmarkParser};

#[test]
fn test_bookmark_creation() {
    let bookmark = Bookmark::new(
        "Test Bookmark".to_string(),
        "https://example.com".to_string(),
        BrowserType::Chrome,
    );

    assert_eq!(bookmark.title, "Test Bookmark");
    assert_eq!(bookmark.url, "https://example.com");
    assert_eq!(bookmark.browser, BrowserType::Chrome);
    assert!(bookmark.folder.is_none());
    assert!(bookmark.favicon.is_none());
}

#[test]
fn test_bookmark_id() {
    let bookmark = Bookmark::new(
        "Test".to_string(),
        "https://example.com".to_string(),
        BrowserType::Chrome,
    );

    let id = bookmark.id();
    assert!(id.starts_with("bookmark:Chrome:"));
    assert!(id.contains("https://example.com"));
}

#[test]
fn test_bookmark_subtitle_without_folder() {
    let bookmark = Bookmark::new(
        "Test".to_string(),
        "https://example.com".to_string(),
        BrowserType::Chrome,
    );

    assert_eq!(bookmark.subtitle(), "https://example.com");
}

#[test]
fn test_bookmark_subtitle_with_folder() {
    let mut bookmark = Bookmark::new(
        "Test".to_string(),
        "https://example.com".to_string(),
        BrowserType::Chrome,
    );
    bookmark.folder = Some("Work/Projects".to_string());

    assert_eq!(bookmark.subtitle(), "https://example.com • Work/Projects");
}

#[test]
fn test_browser_type_display_name() {
    assert_eq!(BrowserType::Chrome.display_name(), "Chrome");
    assert_eq!(BrowserType::Edge.display_name(), "Edge");
    assert_eq!(BrowserType::Firefox.display_name(), "Firefox");
}

fn url_node(name: &str, url: &str) -> BookmarkNode {
    BookmarkNode {
        name: name.to_string(),
        node_type: "url".to_string(),
        url: Some(url.to_string()),
        children: Vec::new(),
    }
}

fn folder_node(name: &str, children: Vec<BookmarkNode>) -> BookmarkNode {
    BookmarkNode { name: name.to_string(), node_type: "folder".to_string(), url: None, children }
}

#[test]
fn bookmark_tree_is_walked_depth_first_with_folder_paths() {
    let roots = BookmarkRoots {
        bookmark_bar: folder_node(
            "Bookmarks bar",
            vec![
                url_node("Example", "https://example.com"),
                folder_node("Work", vec![url_node("Docs", "https://docs.example.com")]),
            ],
        ),
        other: folder_node("Other", vec![url_node("News", "https://news.example.com")]),
        synced: None,
    };
    let found = ChromeBookmarkParser::parse_roots(&roots, BrowserType::Edge);
    assert_eq!(found.len(), 3);
    assert_eq!(found[0].title, "Example");
    assert_eq!(found[0].folder.as_deref(), Some("Bookmarks bar"));
    assert_eq!(found[1].url, "https://docs.example.com");
    assert_eq!(found[1].folder.as_deref(), Some("Bookmarks bar/Work"));
    assert_eq!(found[2].folder.as_deref(), Some("Other"));
    assert!(found.iter().all(|b| b.browser == BrowserType::Edge));
}

#[test]
fn bookmark_nodes_of_other_types_give_nothing() {
    let mut out = Vec::new();
    let node = BookmarkNode {
        name: "Sep".to_string(),
        node_type: "separator".to_string(),
        url: Some("https://x.example".to_string()),
        children: Vec::new(),
    };
    ChromeBookmarkParser::parse_node(&node, None, BrowserType::Chrome, &mut out);
    assert!(out.is_empty());
    let no_url = BookmarkNode { name: "X".to_string(), node_type: "url".to_string(), url: None, children: Vec::new() };
    ChromeBookmarkParser::parse_node(&no_url, None, BrowserType::Chrome, &mut out);
    assert!(out.is_empty());
    let top = url_node("Top", "https://top.example");
    ChromeBookmarkParser::parse_node(&top, Some("A/B".to_string()), BrowserType::Firefox, &mut out);
    assert_eq!(out.len(), 1);
    assert_eq!(out[0].folder.as_deref(), Some("A/B"));
    assert_eq!(out[0].id(), "bookmark:Firefox:https://top.example");
}
