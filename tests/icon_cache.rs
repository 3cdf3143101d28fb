use better_finder::icon_cache::{encode_to_base64_if_small, IconCache, MAX_ICON_SIZE_FOR_BASE64};

#[test]
fn test_generic_icon_names() {
    assert_eq!(IconCache::get_generic_icon("test.txt"), "file-text");
    assert_eq!(IconCache::get_generic_icon("doc.pdf"), "file-pdf");
    assert_eq!(IconCache::get_generic_icon("image.png"), "file-image");
    assert_eq!(IconCache::get_generic_icon("video.mp4"), "file-video");
    assert_eq!(IconCache::get_generic_icon("song.mp3"), "file-audio");
    assert_eq!(IconCache::get_generic_icon("archive.zip"), "file-archive");
    assert_eq!(IconCache::get_generic_icon("code.rs"), "file-code");
    assert_eq!(IconCache::get_generic_icon("app.exe"), "file-executable");
    assert_eq!(IconCache::get_generic_icon("unknown.xyz"), "file");
}

#[test]
fn generic_icon_ignores_case_and_handles_no_extension() {
    assert_eq!(IconCache::get_generic_icon("REPORT.DOCX"), "file-word");
    assert_eq!(IconCache::get_generic_icon("/home/u/Makefile"), "file");
    assert_eq!(IconCache::get_generic_icon("dir.d/data.JSON"), "file-code");
}

#[test]
fn test_encode_to_base64_if_small() {
    let small_data = vec![1, 2, 3, 4, 5];
    assert!(encode_to_base64_if_small(&small_data).is_some());

    let large_data = vec![0u8; MAX_ICON_SIZE_FOR_BASE64 + 1];
    assert!(encode_to_base64_if_small(&large_data).is_none());
}

#[test]
fn base64_values() {
    assert_eq!(encode_to_base64_if_small(b"hello").as_deref(), Some("aGVsbG8="));
    let edge = vec![0u8; MAX_ICON_SIZE_FOR_BASE64];
    assert!(encode_to_base64_if_small(&edge).is_some());
}

#[test]
fn icon_cache_basic() {
    let mut cache = IconCache::new();
    assert!(cache.is_empty());
    cache.put("test.txt".to_string(), "test-icon".to_string());
    assert_eq!(cache.get("test.txt"), Some("test-icon".to_string()));
    assert_eq!(cache.get("nonexistent.txt"), None);
    assert_eq!(cache.len(), 1);
    cache.clear();
    assert_eq!(cache.len(), 0);
    assert!(cache.is_empty());
}

#[test]
fn icon_cache_lru_eviction() {
    let mut cache = IconCache::with_capacity(2);
    cache.put("file1.txt".to_string(), "icon1".to_string());
    cache.put("file2.txt".to_string(), "icon2".to_string());
    cache.put("file3.txt".to_string(), "icon3".to_string());
    assert_eq!(cache.get("file1.txt"), None);
    assert_eq!(cache.get("file2.txt"), Some("icon2".to_string()));
    assert_eq!(cache.get("file3.txt"), Some("icon3".to_string()));
}

#[test]
fn icon_placeholders() {
    let mut cache = IconCache::with_capacity(0);
    assert_eq!(cache.get_or_extract("notes.md"), "file-icon:md");
    assert_eq!(cache.get_or_extract("README"), "file-icon:unknown");
    assert_eq!(cache.len(), 2);
    cache.put("notes.md".to_string(), "custom".to_string());
    assert_eq!(cache.get_or_extract("notes.md"), "custom");
}
