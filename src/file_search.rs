use vstd::prelude::*;
use crate::error::{joined, LauncherError};
use crate::everything::EverythingFile;
use crate::types::{action_text, ActionKind, ActionView, ResultAction, ResultType, ResultView, SearchResult};
use crate::text::{chars_of, contains, lower_of, seq_contains, seq_equal, seq_starts_with, starts_with, to_lower};

verus! {

/// Seconds in a day.
pub const SECONDS_PER_DAY: i64 = 86400;

/// Files larger than this many bytes lose a little relevance.
pub const LARGE_FILE_BYTES: u64 = 1_000_000_000;

/// The relevance of file `f` for query `q` at time `now` (seconds): a base
/// of 50; 100 for a name equal to the query, 50 for one that begins with it
/// and 25 for one that contains it (compared without case, all that apply);
/// 10 when modified less than 7 days ago, else 5 when less than 30; minus 5
/// above `LARGE_FILE_BYTES`.
pub open spec fn file_score(f: EverythingFile, q: Seq<char>, now: i64) -> u64 {
    let n = lower_of(f.name@);
    let ql = lower_of(q);
    let age = now - f.modified;
    (50 + (if n == ql { 100int } else { 0 }) + (if starts_with(n, ql) { 50int } else { 0 }) + (if contains(n, ql) {
        25int
    } else {
        0
    }) + (if age < 7 * SECONDS_PER_DAY { 10int } else if age < 30 * SECONDS_PER_DAY { 5int } else { 0 }) - (if f.size
        > LARGE_FILE_BYTES {
        5int
    } else {
        0
    })) as u64
}

/// The search result of file `f` at `score`, with `icon`.
pub open spec fn file_result_view(f: EverythingFile, score: u64, icon: Option<Seq<char>>) -> ResultView {
    ResultView {
        id: "file:"@ + f.full_path@,
        title: f.name@,
        subtitle: f.path@,
        icon,
        result_type: ResultType::File,
        score,
        metadata: seq![
            ("size"@, crate::clipboard::decimal(f.size as nat)),
            ("modified"@, crate::clipboard::signed_decimal(f.modified as int)),
            ("path"@, f.path@),
        ],
        action: ActionView::OpenFile { path: f.full_path@ },
    }
}

/// Searches files through the Everything index.
pub struct FileSearchProvider;

impl FileSearchProvider {
    pub fn name(&self) -> (r: &'static str)
        ensures
            r@ == "FileSearch"@,
    {
        "FileSearch"
    }

    pub fn priority(&self) -> (r: u8)
        ensures
            r == 90,
    {
        90
    }

    /// The relevance of `file` for `query` at time `now`; see `file_score`.
    pub fn calculate_score(file: &EverythingFile, query: &str, now: i64) -> (r: u64)
        ensures
            r == file_score(*file, query@, now),
    {
        let n = chars_of(to_lower(file.name.as_str()).as_str());
        let q = chars_of(to_lower(query).as_str());
        let mut score: u64 = 50;
        if seq_equal(&n, &q) {
            score = score + 100;
        }
        if seq_starts_with(&n, &q) {
            score = score + 50;
        }
        if seq_contains(&n, &q) {
            score = score + 25;
        }
        let age = now as i128 - file.modified as i128;
        if age < 7 * (SECONDS_PER_DAY as i128) {
            score = score + 10;
        } else if age < 30 * (SECONDS_PER_DAY as i128) {
            score = score + 5;
        }
        if file.size > LARGE_FILE_BYTES {
            score = score - 5;
        }
        score
    }
}

impl FileSearchProvider {
    /// The search result of `file` at `score`, with `icon`.
    pub fn convert_to_search_result(file: &EverythingFile, score: u64, icon: Option<String>) -> (r: SearchResult)
        ensures
            r@ == file_result_view(*file, score, crate::types::opt_string_view(icon)),
    {
        let r = SearchResult {
            id: joined("file:", file.full_path.as_str()),
            title: file.name.clone(),
            subtitle: file.path.clone(),
            icon,
            result_type: ResultType::File,
            score,
            metadata: vec![
                ("size".to_owned(), crate::clipboard::decimal_string(file.size)),
                ("modified".to_owned(), crate::clipboard::signed_decimal_string(file.modified)),
                ("path".to_owned(), file.path.clone()),
            ],
            action: ResultAction::OpenFile { path: file.full_path.clone() },
        };
        assert(r@.metadata =~= file_result_view(*file, score, crate::types::opt_string_view(icon)).metadata);
        r
    }

    /// The path to open for `result`: it must be a file result that opens a
    /// file.
    pub fn path_to_open(result: &SearchResult) -> (r: Result<String, LauncherError>)
        ensures
            result.result_type != ResultType::File ==> r is Err && r->Err_0 is ExecutionError
                && r->Err_0->ExecutionError_0@ == "Not a file result"@,
            result.result_type == ResultType::File ==> match action_text(result@.action, ActionKind::OpenFile) {
                Some(p) => r is Ok && r->Ok_0@ == p,
                None => r is Err && r->Err_0 is ExecutionError && r->Err_0->ExecutionError_0@
                    == "Invalid action for file result"@,
            },
    {
        if result.result_type != ResultType::File {
            return Err(LauncherError::ExecutionError("Not a file result".to_owned()));
        }
        match result.action.text_of_kind(ActionKind::OpenFile) {
            Some(p) => Ok(p),
            None => Err(LauncherError::ExecutionError("Invalid action for file result".to_owned())),
        }
    }
}

} // verus!
