use better_finder::types::{ResultAction, ResultType, SearchResult};
use better_finder::web_search::WebSearchProvider;

#[test]
fn test_url_construction() {
    let url = WebSearchProvider::construct_search_url("hello world");
    assert_eq!(url, "https://www.google.com/search?q=hello%20world");

    let url = WebSearchProvider::construct_search_url("rust & tauri");
    assert_eq!(url, "https://www.google.com/search?q=rust%20%26%20tauri");

    let url = WebSearchProvider::construct_search_url("what is c++?");
    assert_eq!(url, "https://www.google.com/search?q=what%20is%20c%2B%2B%3F");

    let url = WebSearchProvider::construct_search_url("2+2=4");
    assert_eq!(url, "https://www.google.com/search?q=2%2B2%3D4");

    let url = WebSearchProvider::construct_search_url("path/to/file");
    assert_eq!(url, "https://www.google.com/search?q=path%2Fto%2Ffile");

    let url = WebSearchProvider::construct_search_url("c# programming");
    assert_eq!(url, "https://www.google.com/search?q=c%23%20programming");

    let url = WebSearchProvider::construct_search_url("100% complete");
    assert_eq!(url, "https://www.google.com/search?q=100%25%20complete");

    let url = WebSearchProvider::construct_search_url("");
    assert_eq!(url, "https://www.google.com/search?q=");

    let url = WebSearchProvider::construct_search_url("hello 世界");
    assert!(url.starts_with("https://www.google.com/search?q=hello%20"));
    assert!(url.contains("%E4%B8%96%E7%95%8C"));
}

#[test]
fn web_search_provider_creation() {
    let provider = WebSearchProvider::new().unwrap();
    assert_eq!(provider.name(), "WebSearch");
    assert_eq!(provider.priority(), 1);
    assert!(provider.is_enabled());
}

#[test]
fn question_words() {
    let provider = WebSearchProvider::new().unwrap();
    assert!(provider.has_question_words("how to use keyboard"));
    assert!(provider.has_question_words("What is rust"));
    assert!(provider.has_question_words("  why is the sky blue"));
    assert!(provider.has_question_words("who"));
    assert!(!provider.has_question_words("however long"));
    assert!(!provider.has_question_words("notepad"));
}

#[test]
fn query_classification() {
    let provider = WebSearchProvider::new().unwrap();
    assert!(provider.should_trigger_web_search("how to use keyboard", false));
    assert!(provider.should_trigger_web_search("what is rust", false));
    assert!(provider.should_trigger_web_search("why is sky blue", true));
    assert!(provider.should_trigger_web_search("search for files", false));
    assert!(provider.should_trigger_web_search("open my document", false));
    assert!(!provider.should_trigger_web_search("search for files", true));
    assert!(!provider.should_trigger_web_search("open my document", true));
    assert!(!provider.should_trigger_web_search("ab", false));
    assert!(!provider.should_trigger_web_search("app", false));
    assert!(!provider.should_trigger_web_search("calculator", false));
    assert!(!provider.should_trigger_web_search("   ", false));
}

#[test]
fn web_search_results() {
    let provider = WebSearchProvider::new().unwrap();
    assert!(provider.search("a").is_empty());
    assert!(provider.search("").is_empty());
    let results = provider.search("  how to code ");
    assert_eq!(results.len(), 1);
    let r = &results[0];
    assert_eq!(r.id, "web_search:how to code");
    assert_eq!(r.title, "Search Google for \"how to code\"");
    assert_eq!(r.subtitle, "Press Enter to search on the web");
    assert_eq!(r.result_type, ResultType::WebSearch);
    assert_eq!(r.score, 10);
    match &r.action {
        ResultAction::WebSearch { query } => assert_eq!(query, "how to code"),
        _ => panic!("Expected WebSearch action"),
    }
    assert_eq!(provider.search("abc").len(), 1);
}

#[test]
fn web_search_execution_checks_the_result() {
    let mut invalid = SearchResult {
        id: "test".to_string(),
        title: "Test".to_string(),
        subtitle: "Test".to_string(),
        icon: None,
        result_type: ResultType::File,
        score: 100,
        metadata: Vec::new(),
        action: ResultAction::WebSearch { query: "test".to_string() },
    };
    assert!(WebSearchProvider::query_to_execute(&invalid).is_err());
    invalid.result_type = ResultType::WebSearch;
    assert_eq!(WebSearchProvider::query_to_execute(&invalid), Ok("test".to_string()));
    invalid.action = ResultAction::OpenUrl { url: "https://x".to_string() };
    assert!(WebSearchProvider::query_to_execute(&invalid).is_err());
}

#[test]
fn question_pattern_text() {
    assert_eq!(better_finder::web_search::QUESTION_PATTERN, r"(?i)^\s*(how|what|why|when|where|who)\b");
}
