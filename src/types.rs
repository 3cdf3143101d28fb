use vstd::prelude::*;

verus! {

/// Classification of a search result; decides which provider is tried first.
#[derive(Debug, Clone, Copy, PartialEq, Eq, Structural)]
pub enum ResultType {
    File,
    Application,
    QuickAction,
    Calculator,
    Clipboard,
    Bookmark,
    RecentFile,
    WebSearch,
}

/// What executing a result does.
#[derive(Debug, Clone)]
pub enum ResultAction {
    OpenFile { path: String },
    LaunchApp { path: String },
    ExecuteCommand { command: String, args: Vec<String> },
    CopyToClipboard { content: String },
    OpenUrl { url: String },
    WebSearch { query: String },
}

/// One search result. `score` is a relevance in whole points (higher is
/// better); `metadata` holds provider-specific parameters as key/text pairs.
#[derive(Debug, Clone)]
pub struct SearchResult {
    pub id: String,
    pub title: String,
    pub subtitle: String,
    pub icon: Option<String>,
    pub result_type: ResultType,
    pub score: u64,
    pub metadata: Vec<(String, String)>,
    pub action: ResultAction,
}

/// Mathematical value of a `ResultAction`.
pub enum ActionView {
    OpenFile { path: Seq<char> },
    LaunchApp { path: Seq<char> },
    ExecuteCommand { command: Seq<char>, args: Seq<Seq<char>> },
    CopyToClipboard { content: Seq<char> },
    OpenUrl { url: Seq<char> },
    WebSearch { query: Seq<char> },
}

/// Mathematical value of a `SearchResult`.
pub struct ResultView {
    pub id: Seq<char>,
    pub title: Seq<char>,
    pub subtitle: Seq<char>,
    pub icon: Option<Seq<char>>,
    pub result_type: ResultType,
    pub score: u64,
    pub metadata: Seq<(Seq<char>, Seq<char>)>,
    pub action: ActionView,
}

pub open spec fn strings_view(v: Seq<String>) -> Seq<Seq<char>> {
    v.map_values(|s: String| s@)
}

pub open spec fn pairs_view(v: Seq<(String, String)>) -> Seq<(Seq<char>, Seq<char>)> {
    v.map_values(|p: (String, String)| (p.0@, p.1@))
}

pub open spec fn opt_string_view(o: Option<String>) -> Option<Seq<char>> {
    match o {
        Some(s) => Some(s@),
        None => None,
    }
}

impl View for ResultAction {
    type V = ActionView;

    open spec fn view(&self) -> ActionView {
        match self {
            ResultAction::OpenFile { path } => ActionView::OpenFile { path: path@ },
            ResultAction::LaunchApp { path } => ActionView::LaunchApp { path: path@ },
            ResultAction::ExecuteCommand { command, args } => ActionView::ExecuteCommand {
                command: command@,
                args: strings_view(args@),
            },
            ResultAction::CopyToClipboard { content } => ActionView::CopyToClipboard {
                content: content@,
            },
            ResultAction::OpenUrl { url } => ActionView::OpenUrl { url: url@ },
            ResultAction::WebSearch { query } => ActionView::WebSearch { query: query@ },
        }
    }
}

impl View for SearchResult {
    type V = ResultView;

    open spec fn view(&self) -> ResultView {
        ResultView {
            id: self.id@,
            title: self.title@,
            subtitle: self.subtitle@,
            icon: opt_string_view(self.icon),
            result_type: self.result_type,
            score: self.score,
            metadata: pairs_view(self.metadata@),
            action: self.action@,
        }
    }
}

/// The views of a sequence of results.
pub open spec fn results_view(v: Seq<SearchResult>) -> Seq<ResultView> {
    v.map_values(|r: SearchResult| r@)
}

/// A copy of a list of strings.
pub fn copy_strings(v: &Vec<String>) -> (r: Vec<String>)
    ensures
        strings_view(r@) == strings_view(v@),
{
    let mut r: Vec<String> = Vec::new();
    let mut i: usize = 0;
    while i < v.len()
        invariant
            i <= v.len(),
            r@.len() == i,
            forall|j: int| 0 <= j < i ==> r@[j]@ == v@[j]@,
        decreases v.len() - i,
    {
        r.push(v[i].clone());
        i = i + 1;
    }
    assert(strings_view(r@) =~= strings_view(v@));
    r
}

/// A copy of a list of key/text pairs.
pub fn copy_pairs(v: &Vec<(String, String)>) -> (r: Vec<(String, String)>)
    ensures
        pairs_view(r@) == pairs_view(v@),
{
    let mut r: Vec<(String, String)> = Vec::new();
    let mut i: usize = 0;
    while i < v.len()
        invariant
            i <= v.len(),
            r@.len() == i,
            forall|j: int| 0 <= j < i ==> r@[j].0@ == v@[j].0@ && r@[j].1@ == v@[j].1@,
        decreases v.len() - i,
    {
        r.push((v[i].0.clone(), v[i].1.clone()));
        i = i + 1;
    }
    assert(pairs_view(r@) =~= pairs_view(v@));
    r
}

impl ResultAction {
    /// A copy of this action with the same view.
    pub fn duplicate(&self) -> (r: ResultAction)
        ensures
            r@ == self@,
    {
        match self {
            ResultAction::OpenFile { path } => ResultAction::OpenFile { path: path.clone() },
            ResultAction::LaunchApp { path } => ResultAction::LaunchApp { path: path.clone() },
            ResultAction::ExecuteCommand { command, args } => ResultAction::ExecuteCommand {
                command: command.clone(),
                args: copy_strings(args),
            },
            ResultAction::CopyToClipboard { content } => ResultAction::CopyToClipboard {
                content: content.clone(),
            },
            ResultAction::OpenUrl { url } => ResultAction::OpenUrl { url: url.clone() },
            ResultAction::WebSearch { query } => ResultAction::WebSearch { query: query.clone() },
        }
    }
}

impl SearchResult {
    /// A copy of this result with the same view.
    pub fn duplicate(&self) -> (r: SearchResult)
        ensures
            r@ == self@,
    {
        let icon = match &self.icon {
            Some(s) => Some(s.clone()),
            None => None,
        };
        SearchResult {
            id: self.id.clone(),
            title: self.title.clone(),
            subtitle: self.subtitle.clone(),
            icon,
            result_type: self.result_type,
            score: self.score,
            metadata: copy_pairs(&self.metadata),
            action: self.action.duplicate(),
        }
    }
}

/// The kinds of action, without their parameters.
#[derive(Debug, Clone, Copy, PartialEq, Eq, Structural)]
pub enum ActionKind {
    OpenFile,
    LaunchApp,
    ExecuteCommand,
    CopyToClipboard,
    OpenUrl,
    WebSearch,
}

/// The text an action of kind `k` acts on: its path, content, address or
/// query; none for a command or for another kind.
pub open spec fn action_text(a: ActionView, k: ActionKind) -> Option<Seq<char>> {
    match (a, k) {
        (ActionView::OpenFile { path }, ActionKind::OpenFile) => Some(path),
        (ActionView::LaunchApp { path }, ActionKind::LaunchApp) => Some(path),
        (ActionView::CopyToClipboard { content }, ActionKind::CopyToClipboard) => Some(content),
        (ActionView::OpenUrl { url }, ActionKind::OpenUrl) => Some(url),
        (ActionView::WebSearch { query }, ActionKind::WebSearch) => Some(query),
        _ => None,
    }
}

impl ResultAction {
    /// The text this action acts on when it is of kind `k`.
    pub fn text_of_kind(&self, k: ActionKind) -> (r: Option<String>)
        ensures
            match r {
                Some(t) => action_text(self@, k) == Some(t@),
                None => action_text(self@, k) is None,
            },
    {
        match (self, k) {
            (ResultAction::OpenFile { path }, ActionKind::OpenFile) => Some(path.clone()),
            (ResultAction::LaunchApp { path }, ActionKind::LaunchApp) => Some(path.clone()),
            (ResultAction::CopyToClipboard { content }, ActionKind::CopyToClipboard) => Some(content.clone()),
            (ResultAction::OpenUrl { url }, ActionKind::OpenUrl) => Some(url.clone()),
            (ResultAction::WebSearch { query }, ActionKind::WebSearch) => Some(query.clone()),
            _ => None,
        }
    }
}

/// A copy of a list of results, element by element.
pub fn copy_results(v: &Vec<SearchResult>) -> (r: Vec<SearchResult>)
    ensures
        results_view(r@) == results_view(v@),
{
    let mut r: Vec<SearchResult> = Vec::new();
    let mut i: usize = 0;
    while i < v.len()
        invariant
            i <= v.len(),
            r@.len() == i,
            forall|j: int| 0 <= j < i ==> r@[j]@ == v@[j]@,
        decreases v.len() - i,
    {
        r.push(v[i].duplicate());
        i = i + 1;
    }
    assert(results_view(r@) =~= results_view(v@));
    r
}

} // verus!
