use vstd::prelude::*;
use crate::error::{append_str, joined};
use crate::ranking::{sort_by_score, stable_sort_by_score};
use crate::text::{chars_of, contains, lower_of, seq_contains, seq_equal, seq_starts_with, starts_with, to_lower};
use crate::error::LauncherError;
use crate::types::{action_text, results_view, ActionKind, ActionView, ResultAction, ResultType, ResultView, SearchResult};
use crate::validation::cap_len;

verus! {

/// Browsers whose bookmarks are read.
#[derive(Debug, Clone, Copy, PartialEq, Eq, Structural)]
pub enum BrowserType {
    Chrome,
    Edge,
    Firefox,
}

pub open spec fn browser_name(b: BrowserType) -> Seq<char> {
    match b {
        BrowserType::Chrome => "Chrome"@,
        BrowserType::Edge => "Edge"@,
        BrowserType::Firefox => "Firefox"@,
    }
}

impl BrowserType {
    /// The browser's display name.
    pub fn display_name(&self) -> (r: &'static str)
        ensures
            r@ == browser_name(*self),
    {
        match self {
            BrowserType::Chrome => "Chrome",
            BrowserType::Edge => "Edge",
            BrowserType::Firefox => "Firefox",
        }
    }
}

/// A browser bookmark.
#[derive(Debug, Clone)]
pub struct Bookmark {
    pub title: String,
    pub url: String,
    /// Folder path in the bookmark tree, such as `Work/Projects`.
    pub folder: Option<String>,
    pub browser: BrowserType,
    /// Encoded favicon, when known.
    pub favicon: Option<String>,
}

/// The parts of a bookmark that parsing decides.
pub struct BookmarkInfo {
    pub title: Seq<char>,
    pub url: Seq<char>,
    pub folder: Option<Seq<char>>,
    pub browser: BrowserType,
}


pub open spec fn info_of(b: Bookmark) -> BookmarkInfo {
    BookmarkInfo { title: b.title@, url: b.url@, folder: crate::types::opt_string_view(b.folder), browser: b.browser }
}

pub open spec fn infos(v: Seq<Bookmark>) -> Seq<BookmarkInfo> {
    v.map_values(|b: Bookmark| info_of(b))
}

impl Bookmark {
    /// A bookmark without folder or favicon.
    pub fn new(title: String, url: String, browser: BrowserType) -> (r: Bookmark)
        ensures
            r.title == title,
            r.url == url,
            r.browser == browser,
            r.folder is None,
            r.favicon is None,
    {
        Bookmark { title, url, folder: None, browser, favicon: None }
    }

    /// `bookmark:<browser>:<url>`.
    pub fn id(&self) -> (r: String)
        ensures
            r@ == "bookmark:"@ + browser_name(self.browser) + ":"@ + self.url@,
    {
        let mut r = joined("bookmark:", self.browser.display_name());
        append_str(&mut r, ":");
        append_str(&mut r, self.url.as_str());
        r
    }

    /// The URL, followed by ` • ` and the folder when there is one.
    pub fn subtitle(&self) -> (r: String)
        ensures
            self.folder is None ==> r@ == self.url@,
            self.folder is Some ==> r@ == self.url@ + " • "@ + self.folder->0@,
    {
        match &self.folder {
            Some(folder) => {
                let mut r = joined(self.url.as_str(), " • ");
                append_str(&mut r, folder.as_str());
                r
            },
            None => self.url.clone(),
        }
    }
}

/// A node of a Chromium bookmark tree: a `url` or a `folder` of children.
#[derive(Debug)]
pub struct BookmarkNode {
    pub name: String,
    pub node_type: String,
    pub url: Option<String>,
    pub children: Vec<BookmarkNode>,
}

/// The three roots of a Chromium bookmark file.
#[derive(Debug)]
pub struct BookmarkRoots {
    pub bookmark_bar: BookmarkNode,
    pub other: BookmarkNode,
    pub synced: Option<BookmarkNode>,
}

/// The folder path of a child of a folder named `name` under `parent`.
pub open spec fn folder_path(parent: Option<Seq<char>>, name: Seq<char>) -> Seq<char> {
    match parent {
        Some(p) => p + "/"@ + name,
        None => name,
    }
}

/// The bookmarks under `node`, depth first: a `url` node with an address is
/// one bookmark in folder `parent`; a `folder` node gives those of its
/// children, in their folder; any other node gives none.
pub open spec fn collected(node: BookmarkNode, parent: Option<Seq<char>>, browser: BrowserType) -> Seq<BookmarkInfo>
    decreases node,
{
    if node.node_type@ == "url"@ {
        match node.url {
            Some(u) => seq![BookmarkInfo { title: node.name@, url: u@, folder: parent, browser }],
            None => Seq::empty(),
        }
    } else if node.node_type@ == "folder"@ {
        collected_list(node.children@, folder_path(parent, node.name@), browser)
    } else {
        Seq::empty()
    }
}

/// The bookmarks under each of `nodes`, in order, all in folder `folder`.
pub open spec fn collected_list(nodes: Seq<BookmarkNode>, folder: Seq<char>, browser: BrowserType) -> Seq<BookmarkInfo>
    decreases nodes,
{
    if nodes.len() == 0 {
        Seq::empty()
    } else {
        collected_list(nodes.subrange(0, nodes.len() - 1), folder, browser) + collected(
            nodes[nodes.len() - 1],
            Some(folder),
            browser,
        )
    }
}

/// Reads Chromium (Chrome, Edge) bookmark trees.
pub struct ChromeBookmarkParser;

/// Reads Firefox bookmark databases.
pub struct FirefoxBookmarkParser;

impl ChromeBookmarkParser {
    /// Appends the bookmarks under `node` to `bookmarks`; see `collected`.
    pub fn parse_node(
        node: &BookmarkNode,
        parent_folder: Option<String>,
        browser: BrowserType,
        bookmarks: &mut Vec<Bookmark>,
    )
        ensures
            infos(final(bookmarks)@) == infos(old(bookmarks)@) + collected(*node, crate::types::opt_string_view(parent_folder), browser),
        decreases node,
    {
        let ghost start = infos(bookmarks@);
        let ty = chars_of(node.node_type.as_str());
        if seq_equal(&ty, &chars_of("url")) {
            match &node.url {
                Some(url) => {
                    let mut bookmark = Bookmark::new(node.name.clone(), url.clone(), browser);
                    bookmark.folder = parent_folder;
                    bookmarks.push(bookmark);
                    assert(infos(bookmarks@) =~= start + collected(*node, crate::types::opt_string_view(parent_folder), browser));
                },
                None => {
                    assert(infos(bookmarks@) =~= start + Seq::<BookmarkInfo>::empty());
                },
            }
        } else if seq_equal(&ty, &chars_of("folder")) {
            let folder = match &parent_folder {
                Some(parent) => {
                    let mut f = joined(parent.as_str(), "/");
                    append_str(&mut f, node.name.as_str());
                    f
                },
                None => node.name.clone(),
            };
            let ghost fv = folder@;
            let mut i: usize = 0;
            assert(infos(bookmarks@) =~= start + collected_list(node.children@.subrange(0, 0), fv, browser));
            while i < node.children.len()
                invariant
                    i <= node.children@.len(),
                    fv == folder@,
                    infos(bookmarks@) == start + collected_list(node.children@.subrange(0, i as int), fv, browser),
                decreases node.children.len() - i,
            {
                let ghost pre = node.children@.subrange(0, i + 1);
                assert(pre.subrange(0, pre.len() - 1) =~= node.children@.subrange(0, i as int));
                assert(pre[pre.len() - 1] == node.children@[i as int]);
                assert(decreases_to!(*node => node.children@[i as int]));
                Self::parse_node(&node.children[i], Some(folder.clone()), browser, bookmarks);
                i = i + 1;
            }
            assert(node.children@.subrange(0, node.children@.len() as int) =~= node.children@);
        } else {
            assert(infos(bookmarks@) =~= start + Seq::<BookmarkInfo>::empty());
        }
    }

    /// The bookmarks of a file's roots: those of the bookmark bar, then the
    /// other bookmarks, then the synced ones when present.
    pub fn parse_roots(roots: &BookmarkRoots, browser: BrowserType) -> (r: Vec<Bookmark>)
        ensures
            infos(r@) == collected(roots.bookmark_bar, None, browser) + collected(roots.other, None, browser)
                + match roots.synced {
                Some(s) => collected(s, None, browser),
                None => Seq::empty(),
            },
    {
        let mut r: Vec<Bookmark> = Vec::new();
        assert(infos(r@) =~= Seq::<BookmarkInfo>::empty());
        Self::parse_node(&roots.bookmark_bar, None, browser, &mut r);
        assert(Seq::<BookmarkInfo>::empty() + collected(roots.bookmark_bar, None, browser) =~= collected(roots.bookmark_bar, None, browser));
        Self::parse_node(&roots.other, None, browser, &mut r);
        match &roots.synced {
            Some(s) => Self::parse_node(s, None, browser, &mut r),
            None => {
                assert(infos(r@) =~= infos(r@) + Seq::<BookmarkInfo>::empty());
            },
        }
        r
    }
}

/// Most bookmarks one search returns.
pub const MAX_BOOKMARK_RESULTS: usize = 10;

/// The score of a bookmark for the lower-cased query `q`: 100 for a title
/// equal to it, 90 for a title that begins with it, 70 for one that
/// contains it, 50 for an address that contains it, 0 for no match.
pub open spec fn bookmark_score(b: Bookmark, q: Seq<char>) -> u64 {
    let t = lower_of(b.title@);
    if t == q {
        100
    } else if starts_with(t, q) {
        90
    } else if contains(t, q) {
        70
    } else if contains(lower_of(b.url@), q) {
        50
    } else {
        0
    }
}

/// The search result of bookmark `b` at `score`, with the generic bookmark
/// icon.
pub open spec fn bookmark_result_view(b: Bookmark, score: u64) -> ResultView {
    ResultView {
        id: "bookmark:"@ + browser_name(b.browser) + ":"@ + b.url@,
        title: b.title@,
        subtitle: match b.folder {
            Some(f) => b.url@ + " • "@ + f@,
            None => b.url@,
        },
        icon: Some("bookmark"@),
        result_type: ResultType::Bookmark,
        score,
        metadata: seq![("url"@, b.url@), ("browser"@, browser_name(b.browser))] + match b.folder {
            Some(f) => seq![("folder"@, f@)],
            None => Seq::empty(),
        },
        action: ActionView::OpenUrl { url: b.url@ },
    }
}

/// The results of the bookmarks that match the lower-cased query `q`, in
/// the bookmarks' order.
pub open spec fn matching_bookmarks(bs: Seq<Bookmark>, q: Seq<char>) -> Seq<ResultView>
    decreases bs.len(),
{
    if bs.len() == 0 {
        Seq::empty()
    } else {
        let b = bs.last();
        matching_bookmarks(bs.drop_last(), q) + if bookmark_score(b, q) > 0 {
            seq![bookmark_result_view(b, bookmark_score(b, q))]
        } else {
            Seq::empty()
        }
    }
}

/// Searches bookmarks.
pub struct BookmarkProvider;

impl BookmarkProvider {
    pub fn name(&self) -> (r: &'static str)
        ensures
            r@ == "Bookmarks"@,
    {
        "Bookmarks"
    }

    pub fn priority(&self) -> (r: u8)
        ensures
            r == 50,
    {
        50
    }

    /// The address to open for `result`: it must be a bookmark result that
    /// opens an address.
    pub fn url_to_open(result: &SearchResult) -> (r: Result<String, LauncherError>)
        ensures
            result.result_type != ResultType::Bookmark ==> r is Err && r->Err_0 is ExecutionError
                && r->Err_0->ExecutionError_0@ == "Not a bookmark result"@,
            result.result_type == ResultType::Bookmark ==> match action_text(result@.action, ActionKind::OpenUrl) {
                Some(u) => r is Ok && r->Ok_0@ == u,
                None => r is Err && r->Err_0 is ExecutionError && r->Err_0->ExecutionError_0@
                    == "Invalid bookmark action"@,
            },
    {
        if result.result_type != ResultType::Bookmark {
            return Err(LauncherError::ExecutionError("Not a bookmark result".to_owned()));
        }
        match result.action.text_of_kind(ActionKind::OpenUrl) {
            Some(u) => Ok(u),
            None => Err(LauncherError::ExecutionError("Invalid bookmark action".to_owned())),
        }
    }

    /// The score of `bookmark` for the lower-cased query; see
    /// `bookmark_score`.
    pub fn score(bookmark: &Bookmark, query_lower: &Vec<char>) -> (r: u64)
        ensures
            r == bookmark_score(*bookmark, query_lower@),
    {
        let t = chars_of(to_lower(bookmark.title.as_str()).as_str());
        if seq_equal(&t, query_lower) {
            return 100;
        }
        if seq_starts_with(&t, query_lower) {
            return 90;
        }
        if seq_contains(&t, query_lower) {
            return 70;
        }
        let u = chars_of(to_lower(bookmark.url.as_str()).as_str());
        if seq_contains(&u, query_lower) {
            return 50;
        }
        0
    }

    /// The search result of `bookmark` at `score`.
    pub fn create_search_result(bookmark: &Bookmark, score: u64) -> (r: SearchResult)
        ensures
            r@ == bookmark_result_view(*bookmark, score),
    {
        let mut metadata = vec![
            ("url".to_owned(), bookmark.url.clone()),
            ("browser".to_owned(), bookmark.browser.display_name().to_owned()),
        ];
        let ghost base = crate::types::pairs_view(metadata@);
        match &bookmark.folder {
            Some(f) => {
                metadata.push(("folder".to_owned(), f.clone()));
            },
            None => {},
        }
        let r = SearchResult {
            id: bookmark.id(),
            title: bookmark.title.clone(),
            subtitle: bookmark.subtitle(),
            icon: Some("bookmark".to_owned()),
            result_type: ResultType::Bookmark,
            score,
            metadata,
            action: ResultAction::OpenUrl { url: bookmark.url.clone() },
        };
        assert(r@.metadata =~= bookmark_result_view(*bookmark, score).metadata);
        r
    }

    /// The bookmarks that match `query` (compared without case), as results
    /// sorted by descending score with ties in the bookmarks' order, at most
    /// `MAX_BOOKMARK_RESULTS` of them.
    pub fn search_bookmarks(bookmarks: &Vec<Bookmark>, query: &str) -> (r: Vec<SearchResult>)
        ensures
            exists|v: Seq<SearchResult>|
                results_view(v) == matching_bookmarks(bookmarks@, lower_of(query@)) && r@ == cap_len(
                    sort_by_score(v),
                    MAX_BOOKMARK_RESULTS as nat,
                ),
    {
        let q = chars_of(to_lower(query).as_str());
        let mut found: Vec<SearchResult> = Vec::new();
        let mut i: usize = 0;
        while i < bookmarks.len()
            invariant
                i <= bookmarks@.len(),
                q@ == lower_of(query@),
                results_view(found@) == matching_bookmarks(bookmarks@.subrange(0, i as int), q@),
            decreases bookmarks.len() - i,
        {
            let ghost pre = bookmarks@.subrange(0, i + 1);
            assert(pre.drop_last() =~= bookmarks@.subrange(0, i as int));
            let ghost before = found@;
            let score = Self::score(&bookmarks[i], &q);
            if score > 0 {
                found.push(Self::create_search_result(&bookmarks[i], score));
                assert(results_view(found@) =~= results_view(before) + seq![bookmark_result_view(bookmarks@[i as int], score)]);
            } else {
                assert(results_view(found@) =~= results_view(before) + Seq::<ResultView>::empty());
            }
            i = i + 1;
        }
        assert(bookmarks@.subrange(0, bookmarks@.len() as int) =~= bookmarks@);
        let mut sorted = stable_sort_by_score(found);
        sorted.truncate(MAX_BOOKMARK_RESULTS);
        sorted
    }
}

} // verus!
