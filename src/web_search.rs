use vstd::prelude::*;
use crate::error::{append_str, joined, LauncherError};
use crate::text::{chars_of, contains, trim};
use crate::types::{ActionView, ResultAction, ResultType, ResultView, SearchResult};

verus! {

/// What `urlencoding::encode` returns for the characters `s`.
pub uninterp spec fn percent_encoded(s: Seq<char>) -> Seq<char>;

/// Relies on `urlencoding::encode`: percent-encodes every byte of the UTF-8
/// form but alphanumerics and `-`, `_`, `.`, `~`; the result depends on `s`
/// alone.
#[verifier::external_body]
fn percent_encode(s: &str) -> (r: String)
    ensures
        r@ == percent_encoded(s@),
{
    urlencoding::encode(s).into_owned()
}

/// Score of the web-search result: low, so that it sorts last.
pub const WEB_SEARCH_SCORE: u64 = 10;

/// The question words that open a query asking for a web search: how,
/// what, why, when, where or who, in any case, after leading whitespace and
/// followed by a word boundary.
pub const QUESTION_PATTERN: &'static str = "(?i)^\\s*(how|what|why|when|where|who)\\b";

/// What `regex::Regex` made from pattern `p` answers for the characters
/// `s`: whether it matches, or `None` when `p` is not a valid pattern.
pub uninterp spec fn regex_match(p: Seq<char>, s: Seq<char>) -> Option<bool>;

/// Relies on `regex::Regex::new` and `regex::Regex::is_match`: compiles
/// `pattern` and tells whether it matches `s`; a pattern that does not
/// compile gives `None`. The answer depends on the two texts alone.
#[verifier::external_body]
fn regex_is_match(pattern: &str, s: &str) -> (r: Option<bool>)
    ensures
        r == regex_match(pattern@, s@),
{
    match regex::Regex::new(pattern) {
        Ok(re) => Some(re.is_match(s)),
        Err(_) => None,
    }
}

/// Whether the characters `s` open with a question word.
pub open spec fn question_match(s: Seq<char>) -> bool {
    regex_match(QUESTION_PATTERN@, s) == Some(true)
}

/// Whether `s` opens with a question word; see `QUESTION_PATTERN`.
fn match_question(s: &str) -> (r: bool)
    ensures
        r == question_match(s@),
{
    match regex_is_match(QUESTION_PATTERN, s) {
        Some(m) => m,
        None => false,
    }
}

/// The number of UTF-8 bytes of `s`.
pub open spec fn byte_len(s: Seq<char>) -> nat {
    vstd::utf8::encode_utf8(s).len()
}

/// The address of a web search for `query`.
pub open spec fn web_search_url(query: Seq<char>) -> Seq<char> {
    "https://www.google.com/search?q="@ + percent_encoded(query)
}

/// Whether a query should offer a web search: a trimmed query of at least
/// three bytes that opens with a question word, or, when nothing local was
/// found, one of more than five bytes with a space in it.
pub open spec fn triggers_web_search(query: Seq<char>, has_local_results: bool) -> bool {
    let t = trim(query);
    if t.len() == 0 || byte_len(t) < 3 {
        false
    } else if question_match(t) {
        true
    } else {
        !has_local_results && contains(t, seq![' ']) && byte_len(t) > 5
    }
}

/// The web-search result offered for the trimmed query `q`.
pub open spec fn web_result_view(q: Seq<char>) -> ResultView {
    ResultView {
        id: "web_search:"@ + q,
        title: "Search Google for \""@ + q + "\""@,
        subtitle: "Press Enter to search on the web"@,
        icon: Some("web"@),
        result_type: ResultType::WebSearch,
        score: WEB_SEARCH_SCORE,
        metadata: seq![("query"@, q), ("search_engine"@, "Google"@)],
        action: ActionView::WebSearch { query: q },
    }
}

/// Fallback provider that offers to search the web.
pub struct WebSearchProvider {
    enabled: bool,
}

impl WebSearchProvider {
    pub closed spec fn enabled_spec(&self) -> bool {
        self.enabled
    }

    /// An enabled provider.
    pub fn new() -> (r: Result<WebSearchProvider, LauncherError>)
        ensures
            r is Ok && r->Ok_0.enabled_spec(),
    {
        Ok(WebSearchProvider { enabled: true })
    }

    pub fn name(&self) -> (r: &'static str)
        ensures
            r@ == "WebSearch"@,
    {
        "WebSearch"
    }

    /// The lowest priority: this provider is the last resort.
    pub fn priority(&self) -> (r: u8)
        ensures
            r == 1,
    {
        1
    }

    pub fn is_enabled(&self) -> (r: bool)
        ensures
            r == self.enabled_spec(),
    {
        self.enabled
    }

    /// Whether `query` opens with how, what, why, when, where or who.
    pub fn has_question_words(&self, query: &str) -> (r: bool)
        ensures
            r == question_match(query@),
    {
        match_question(query)
    }

    /// Whether `query` should offer a web search; see `triggers_web_search`.
    pub fn should_trigger_web_search(&self, query: &str, has_local_results: bool) -> (r: bool)
        ensures
            r == triggers_web_search(query@, has_local_results),
    {
        let t = crate::validation::trim_str(query);
        if t.is_empty() {
            return false;
        }
        let bytes = t.as_bytes().len();
        if bytes < 3 {
            return false;
        }
        if self.has_question_words(t) {
            return true;
        }
        let space = vec![' '];
        assert(space@ =~= seq![' ']);
        !has_local_results && crate::text::seq_contains(&chars_of(t), &space) && bytes > 5
    }

    /// The address of a Google search for `query`.
    pub fn construct_search_url(query: &str) -> (r: String)
        ensures
            r@ == web_search_url(query@),
    {
        let encoded = percent_encode(query);
        joined("https://www.google.com/search?q=", encoded.as_str())
    }

    /// The web-search result for the trimmed query `query`.
    pub fn create_web_search_result(query: &str) -> (r: SearchResult)
        ensures
            r@ == web_result_view(query@),
    {
        let mut title = joined("Search Google for \"", query);
        append_str(&mut title, "\"");
        let r = SearchResult {
            id: joined("web_search:", query),
            title,
            subtitle: "Press Enter to search on the web".to_owned(),
            icon: Some("web".to_owned()),
            result_type: ResultType::WebSearch,
            score: WEB_SEARCH_SCORE,
            metadata: vec![("query".to_owned(), query.to_owned()), ("search_engine".to_owned(), "Google".to_owned())],
            action: ResultAction::WebSearch { query: query.to_owned() },
        };
        assert(r@.metadata =~= web_result_view(query@).metadata);
        r
    }

    /// One web-search result for a trimmed query that opens with a question
    /// word or has at least three bytes; none otherwise.
    pub fn search(&self, query: &str) -> (r: Vec<SearchResult>)
        ensures
            ({
                let t = trim(query@);
                if question_match(t) || byte_len(t) >= 3 {
                    r@.len() == 1 && r@[0]@ == web_result_view(t)
                } else {
                    r@.len() == 0
                }
            }),
    {
        let t = crate::validation::trim_str(query);
        if self.has_question_words(t) || t.as_bytes().len() >= 3 {
            let mut r: Vec<SearchResult> = Vec::new();
            r.push(Self::create_web_search_result(t));
            r
        } else {
            Vec::new()
        }
    }

    /// The query to search for when executing `result`: it must be a web
    /// search result with a web-search action.
    pub fn query_to_execute(result: &SearchResult) -> (r: Result<String, LauncherError>)
        ensures
            result.result_type != ResultType::WebSearch ==> r is Err && r->Err_0 is ExecutionError
                && r->Err_0->ExecutionError_0@ == "Not a web search result"@,
            result.result_type == ResultType::WebSearch ==> match result@.action {
                ActionView::WebSearch { query } => r is Ok && r->Ok_0@ == query,
                _ => r is Err && r->Err_0 is ExecutionError && r->Err_0->ExecutionError_0@
                    == "Invalid action for web search result"@,
            },
    {
        if result.result_type != ResultType::WebSearch {
            return Err(LauncherError::ExecutionError("Not a web search result".to_owned()));
        }
        match &result.action {
            ResultAction::WebSearch { query } => Ok(query.clone()),
            _ => Err(LauncherError::ExecutionError("Invalid action for web search result".to_owned())),
        }
    }
}

} // verus!
