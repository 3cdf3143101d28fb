use better_finder::ranking::title_bonus_for;
use better_finder::engine::{
    default_action, file_to_track, next_enabled, DefaultAction, SearchEngine, SearchStep,
};
use better_finder::error::LauncherError;
use better_finder::types::{ResultAction, ResultType, SearchResult};

fn result(id: &str, title: &str, score: u64) -> SearchResult {
    SearchResult {
        id: id.to_string(),
        title: title.to_string(),
        subtitle: String::new(),
        icon: None,
        result_type: ResultType::File,
        score,
        metadata: Vec::new(),
        action: ResultAction::OpenFile { path: format!("/path/{}", id) },
    }
}

/// Results as a mock provider named `name` gives them: `count` of them,
/// scored from `count` down to 1.
fn provider_results(name: &str, count: usize) -> Vec<SearchResult> {
    (0..count)
        .map(|i| result(&format!("{}-{}", name, i), &format!("Result {} from {}", i, name), (count - i) as u64))
        .collect()
}

/// Runs a whole search against fixed provider outcomes.
fn run_search(
    engine: &mut SearchEngine,
    query: &str,
    now: u64,
    outcomes: impl FnOnce(&str) -> Vec<Result<Vec<SearchResult>, LauncherError>>,
) -> Vec<SearchResult> {
    match engine.begin_search(query, now) {
        SearchStep::Ready(r) => r,
        SearchStep::Dispatch(key) => {
            let o = outcomes(&key);
            engine.finish_search(key, o, now)
        }
    }
}

#[test]
fn test_provider_registration() {
    let mut engine = SearchEngine::new();
    assert_eq!(engine.provider_count(), 0);
    engine.register_provider("provider1".to_string(), 50);
    assert_eq!(engine.provider_count(), 1);
    engine.register_provider("provider2".to_string(), 100);
    assert_eq!(engine.provider_count(), 2);
    let names = engine.provider_names();
    assert_eq!(names.len(), 2);
    assert!(names.contains(&"provider1".to_string()));
    assert!(names.contains(&"provider2".to_string()));
}

#[test]
fn test_provider_priority_ordering() {
    let mut engine = SearchEngine::new();
    assert_eq!(engine.register_provider("low_priority".to_string(), 10), 0);
    assert_eq!(engine.register_provider("high_priority".to_string(), 100), 0);
    assert_eq!(engine.register_provider("mid_priority".to_string(), 50), 1);
    let names = engine.provider_names();
    assert_eq!(names[0], "high_priority");
    assert_eq!(names[1], "mid_priority");
    assert_eq!(names[2], "low_priority");
}

#[test]
fn equal_priorities_keep_registration_order() {
    let mut engine = SearchEngine::new();
    engine.register_provider("a".to_string(), 90);
    engine.register_provider("b".to_string(), 90);
    engine.register_provider("c".to_string(), 95);
    engine.register_provider("d".to_string(), 90);
    assert_eq!(engine.provider_names(), vec!["c", "a", "b", "d"]);
}

#[test]
fn test_parallel_search_execution() {
    let mut engine = SearchEngine::new();
    let results = run_search(&mut engine, "test query", 0, |_| {
        vec![Ok(provider_results("provider3", 2)), Ok(provider_results("provider2", 4)), Ok(provider_results("provider1", 3))]
    });
    assert_eq!(results.len(), 9);
}

#[test]
fn test_result_merging_and_ranking() {
    let mut engine = SearchEngine::new();
    let results = run_search(&mut engine, "test", 0, |_| {
        vec![Ok(provider_results("provider2", 3)), Ok(provider_results("provider1", 5))]
    });
    assert_eq!(results.len(), 8);
    for i in 0..results.len() - 1 {
        assert!(results[i].score >= results[i + 1].score);
    }
}

#[test]
fn test_error_handling_graceful_degradation() {
    let mut engine = SearchEngine::new();
    let results = run_search(&mut engine, "test", 0, |_| {
        vec![Err(LauncherError::SearchError("Mock provider failure".to_string())), Ok(provider_results("good", 3))]
    });
    assert_eq!(results.len(), 3);
    assert!(results.iter().all(|r| r.id.starts_with("good")));
}

#[test]
fn test_empty_query_returns_no_results() {
    let mut engine = SearchEngine::new();
    engine.register_provider("provider".to_string(), 50);
    for q in ["", "   ", "\t\n"] {
        match engine.begin_search(q, 0) {
            SearchStep::Ready(r) => assert!(r.is_empty()),
            SearchStep::Dispatch(_) => panic!("providers must not be asked"),
        }
    }
}

#[test]
fn test_query_sanitization() {
    let mut engine = SearchEngine::new();
    let mut seen = String::new();
    let results = run_search(&mut engine, "test\x00query\x01", 0, |key| {
        seen = key.to_string();
        vec![Ok(provider_results("provider", 3))]
    });
    assert_eq!(seen, "testquery");
    assert_eq!(results.len(), 3);
    // The sanitized text is the cache key.
    match engine.begin_search("  testquery ", 1) {
        SearchStep::Ready(r) => assert_eq!(r.len(), 3),
        SearchStep::Dispatch(_) => panic!("expected a cache hit"),
    }
}

#[test]
fn test_result_limit_per_provider() {
    let mut engine = SearchEngine::new();
    let results = run_search(&mut engine, "test", 0, |_| vec![Ok(provider_results("provider", 30))]);
    assert_eq!(results.len(), 20);
    assert!(results.iter().all(|r| r.score > 10));
}

#[test]
fn test_total_result_limit() {
    let mut engine = SearchEngine::new();
    let results = run_search(&mut engine, "test", 0, |_| {
        (0..5).map(|i| Ok(provider_results(&format!("provider{}", i), 20))).collect()
    });
    assert_eq!(results.len(), 50);
}

#[test]
fn test_result_grouping_by_type() {
    let mut engine = SearchEngine::new();
    let mut file = result("file1", "test.txt", 80);
    file.subtitle = "C:\\test.txt".to_string();
    let mut app = result("app1", "Test App", 75);
    app.result_type = ResultType::Application;
    app.action = ResultAction::LaunchApp { path: "C:\\app.exe".to_string() };
    let results = run_search(&mut engine, "test", 0, |_| vec![Ok(vec![file]), Ok(vec![app])]);
    assert_eq!(results.len(), 2);
    assert_eq!(results[0].result_type, ResultType::File);
    assert_eq!(results[0].score, 155);
    assert_eq!(results[1].result_type, ResultType::Application);
    assert_eq!(results[1].score, 150);
}

#[test]
fn ranking_example_scores_and_order() {
    let ranked = SearchEngine::rank_results(
        vec![result("c", "my test page", 0), result("b", "testing page", 0), result("a", "test", 0)],
        "test",
    );
    let titles: Vec<&str> = ranked.iter().map(|r| r.title.as_str()).collect();
    assert_eq!(titles, vec!["test", "testing page", "my test page"]);
    assert_eq!(ranked[0].score, 175);
    assert_eq!(ranked[1].score, 75);
    assert_eq!(ranked[2].score, 25);
}

#[test]
fn ranking_is_case_insensitive_and_stable() {
    let ranked = SearchEngine::rank_results(
        vec![result("1", "Alpha", 10), result("2", "beta", 10), result("3", "ALPHA", 0), result("4", "gamma", 10)],
        "alpha",
    );
    let ids: Vec<&str> = ranked.iter().map(|r| r.id.as_str()).collect();
    assert_eq!(ids, vec!["1", "3", "2", "4"]);
    assert_eq!(ranked[0].score, 185);
    assert_eq!(ranked[1].score, 175);
    let saturated = SearchEngine::rank_results(vec![result("m", "x", u64::MAX - 1)], "x");
    assert_eq!(saturated[0].score, u64::MAX);
}

#[test]
fn cache_hit_is_idempotent_within_ttl() {
    let mut engine = SearchEngine::new();
    let mut calls = 0;
    let first = run_search(&mut engine, "test", 1000, |_| {
        calls += 1;
        vec![Ok(provider_results("p", 4))]
    });
    let second = run_search(&mut engine, "test", 5999, |_| {
        calls += 1;
        vec![Ok(provider_results("other", 1))]
    });
    assert_eq!(calls, 1);
    assert_eq!(format!("{:?}", first), format!("{:?}", second));
    // Past the TTL the providers are asked again.
    let third = run_search(&mut engine, "test", 7000, |_| vec![Ok(provider_results("other", 1))]);
    assert_eq!(third.len(), 1);
}

#[test]
fn registration_and_invalidation_empty_the_cache() {
    let mut engine = SearchEngine::new();
    run_search(&mut engine, "q", 0, |_| vec![Ok(provider_results("p", 2))]);
    engine.register_provider("late".to_string(), 5);
    assert!(matches!(engine.begin_search("q", 1), SearchStep::Dispatch(_)));
    run_search(&mut engine, "q", 2, |_| vec![Ok(provider_results("p", 2))]);
    engine.invalidate_cache();
    assert!(matches!(engine.begin_search("q", 3), SearchStep::Dispatch(_)));
}

#[test]
fn merge_outcomes_truncates_each_and_keeps_order() {
    let merged = SearchEngine::merge_outcomes(vec![
        Ok(provider_results("a", 25)),
        Err(LauncherError::ProviderError("down".to_string())),
        Ok(provider_results("b", 2)),
    ]);
    assert_eq!(merged.len(), 22);
    assert_eq!(merged[0].id, "a-0");
    assert_eq!(merged[19].id, "a-19");
    assert_eq!(merged[20].id, "b-0");
}

#[test]
fn fallback_actions() {
    let clip = ResultAction::CopyToClipboard { content: "hi".to_string() };
    match default_action(&clip, true) {
        DefaultAction::Fail(LauncherError::ExecutionError(m)) => {
            assert_eq!(m, "Clipboard copy not yet implemented")
        }
        other => panic!("unexpected {:?}", other),
    }
    let open = ResultAction::OpenFile { path: "/a/b".to_string() };
    assert!(matches!(default_action(&open, true), DefaultAction::ShellOpen(p) if p == "/a/b"));
    assert!(matches!(default_action(&open, false), DefaultAction::Fail(LauncherError::ExecutionError(_))));
    let cmd = ResultAction::ExecuteCommand { command: "ls".to_string(), args: vec!["-l".to_string()] };
    match default_action(&cmd, false) {
        DefaultAction::Spawn { command, args } => {
            assert_eq!(command, "ls");
            assert_eq!(args, vec!["-l".to_string()]);
        }
        other => panic!("unexpected {:?}", other),
    }
    let web = ResultAction::WebSearch { query: "rust lang&more".to_string() };
    assert!(matches!(
        default_action(&web, true),
        DefaultAction::ShellOpen(u) if u == "https://www.google.com/search?q=rust%20lang%26more"
    ));
}

#[test]
fn next_enabled_provider() {
    let enabled = vec![false, true, false, true];
    assert_eq!(next_enabled(&enabled, 0), Some(1));
    assert_eq!(next_enabled(&enabled, 2), Some(3));
    assert_eq!(next_enabled(&enabled, 4), None);
    assert_eq!(next_enabled(&vec![false, false], 0), None);
}

#[test]
fn tracked_file_paths() {
    let f = result("f", "file", 1);
    assert_eq!(file_to_track(&f).as_deref(), Some("/path/f"));
    let mut g = result("g", "file", 1);
    g.action = ResultAction::OpenUrl { url: "https://x".to_string() };
    g.metadata = vec![("size".to_string(), "3".to_string()), ("path".to_string(), "/m/p".to_string())];
    assert_eq!(file_to_track(&g).as_deref(), Some("/m/p"));
    g.metadata.clear();
    assert_eq!(file_to_track(&g), None);
    let mut a = result("a", "app", 1);
    a.result_type = ResultType::Application;
    assert_eq!(file_to_track(&a), None);
}

#[test]
fn error_messages() {
    assert_eq!(
        LauncherError::ExecutionError("x".to_string()).message(),
        "Failed to execute result action: x"
    );
    assert_eq!(LauncherError::EverythingNotAvailable.message(), "Everything SDK not found or not running");
}

use better_finder::engine::{next_execute_step, ExecuteStep};

#[test]
fn execute_steps_follow_the_fallback_chain() {
    let enabled = vec![true, false, true];
    assert_eq!(next_execute_step(&enabled, None), ExecuteStep::TryProvider(0));
    assert_eq!(next_execute_step(&enabled, Some((0, false))), ExecuteStep::TryProvider(2));
    assert_eq!(next_execute_step(&enabled, Some((2, false))), ExecuteStep::RunFallback);
    assert_eq!(next_execute_step(&enabled, Some((2, true))), ExecuteStep::Succeeded);
    assert_eq!(next_execute_step(&vec![false, false], None), ExecuteStep::RunFallback);
    assert_eq!(next_execute_step(&Vec::new(), None), ExecuteStep::RunFallback);
}

#[test]
fn title_bonus_values() {

    let c = |s: &str| s.chars().collect::<Vec<char>>();
    assert_eq!(title_bonus_for(&c("test"), &c("test")), 175);
    assert_eq!(title_bonus_for(&c("testing page"), &c("test")), 75);
    assert_eq!(title_bonus_for(&c("my test page"), &c("test")), 25);
    assert_eq!(title_bonus_for(&c("other"), &c("test")), 0);
}
