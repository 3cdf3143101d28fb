use vstd::prelude::*;
use crate::error::{joined, LauncherError};
use crate::quick_action::{is_subsequence, QuickActionProvider};
use crate::types::{action_text, ActionKind, ActionView, ResultAction, ResultType, ResultView, SearchResult};
use crate::text::{
    chars_of, contains, is_whitespace, is_whitespace_spec, lower_of, seq_contains, seq_equal,
    seq_starts_with, starts_with, string_of, to_lower,
};

verus! {

/// An installed application.
#[derive(Debug, Clone)]
pub struct Application {
    /// Display name.
    pub name: String,
    /// Path of the executable or shortcut.
    pub path: String,
    pub description: Option<String>,
    /// Whether `path` is a shortcut rather than an executable.
    pub is_shortcut: bool,
}

/// Finds installed applications.
#[derive(Debug, Clone, Copy)]
pub struct AppScanner;

/// How `std::path::Path::cmp` orders the path texts `a` and `b`: -1, 0 or 1.
pub uninterp spec fn path_order(a: Seq<char>, b: Seq<char>) -> int;

/// Relies on `std::path::Path::cmp`: compares two paths component by
/// component; the answer depends on the two texts alone.
#[verifier::external_body]
fn compare_paths(a: &str, b: &str) -> (r: i8)
    ensures
        r as int == path_order(a@, b@),
{
    match std::path::Path::new(a).cmp(std::path::Path::new(b)) {
        std::cmp::Ordering::Less => -1,
        std::cmp::Ordering::Equal => 0,
        std::cmp::Ordering::Greater => 1,
    }
}

/// The applications the successful scans found, in scan order.
pub open spec fn scanned(scans: Seq<Result<Vec<Application>, LauncherError>>) -> Seq<Application>
    decreases scans.len(),
{
    if scans.len() == 0 {
        Seq::empty()
    } else {
        scanned(scans.drop_last()) + match scans.last() {
            Ok(v) => v@,
            Err(_) => Seq::empty(),
        }
    }
}

/// `x` placed into `s` before the first application whose path it does
/// not follow.
pub open spec fn insert_by_path(x: Application, s: Seq<Application>) -> Seq<Application>
    decreases s.len(),
{
    if s.len() == 0 {
        seq![x]
    } else if path_order(x.path@, s[0].path@) <= 0 {
        seq![x] + s
    } else {
        seq![s[0]] + insert_by_path(x, s.drop_first())
    }
}

/// `s` sorted by path, applications of equal paths keeping their order.
pub open spec fn sort_by_path(s: Seq<Application>) -> Seq<Application>
    decreases s.len(),
{
    if s.len() == 0 {
        s
    } else {
        insert_by_path(s[0], sort_by_path(s.drop_first()))
    }
}

/// `s` without each application whose path equals that of the one kept
/// just before it.
pub open spec fn dedup_by_path(s: Seq<Application>) -> Seq<Application>
    decreases s.len(),
{
    if s.len() <= 1 {
        s
    } else {
        let d = dedup_by_path(s.drop_last());
        if path_order(d.last().path@, s.last().path@) == 0 {
            d
        } else {
            d.push(s.last())
        }
    }
}

proof fn lemma_scanned_one(x: Result<Vec<Application>, LauncherError>)
    ensures
        scanned(seq![x]) == match x {
            Ok(v) => v@,
            Err(_) => Seq::<Application>::empty(),
        },
{
    let one = seq![x];
    let e = Seq::<Result<Vec<Application>, LauncherError>>::empty();
    assert(one.drop_last() =~= e);
    assert(scanned(e) == Seq::<Application>::empty());
    assert(one.last() == x);
    assert(scanned(one) == scanned(e) + match x {
        Ok(v) => v@,
        Err(_) => Seq::<Application>::empty(),
    });
    assert(Seq::<Application>::empty() + match x {
        Ok(v) => v@,
        Err(_) => Seq::<Application>::empty(),
    } =~= match x {
        Ok(v) => v@,
        Err(_) => Seq::<Application>::empty(),
    });
}

proof fn lemma_dedup_nonempty(s: Seq<Application>)
    requires
        s.len() > 0,
    ensures
        dedup_by_path(s).len() > 0,
    decreases s.len(),
{
    if s.len() > 1 {
        lemma_dedup_nonempty(s.drop_last());
    }
}

proof fn lemma_insert_by_path_at(x: Application, s: Seq<Application>, p: int)
    requires
        0 <= p <= s.len(),
        forall|j: int| 0 <= j < p ==> path_order(x.path@, s[j].path@) > 0,
        p < s.len() ==> path_order(x.path@, s[p].path@) <= 0,
    ensures
        insert_by_path(x, s) == s.insert(p, x),
    decreases s.len(),
{
    if s.len() == 0 {
        assert(s.insert(p, x) =~= seq![x]);
    } else if p == 0 {
        assert(s.insert(p, x) =~= seq![x] + s);
    } else {
        lemma_insert_by_path_at(x, s.drop_first(), p - 1);
        assert(seq![s[0]] + s.drop_first().insert(p - 1, x) =~= s.insert(p, x));
    }
}

impl AppScanner {
    /// The applications of the scans (start menu, program files, user
    /// data; failed scans left out), sorted by path and with repeated paths
    /// kept once.
    pub fn scan_applications(scans: Vec<Result<Vec<Application>, LauncherError>>) -> (r: Result<Vec<Application>, LauncherError>)
        ensures
            r is Ok,
            r->Ok_0@ == dedup_by_path(sort_by_path(scanned(scans@))),
    {
        let ghost all = scans@;
        let mut parts = scans;
        let mut stack: Vec<Vec<Application>> = Vec::new();
        while parts.len() > 0
            invariant
                parts@ == all.subrange(0, parts@.len() as int),
                parts@.len() <= all.len(),
                stack@.len() == all.len() - parts@.len(),
                forall|j: int| 0 <= j < stack@.len() ==> stack@[j]@ == scanned(seq![all[all.len() - 1 - j]]),
            decreases parts.len(),
        {
            let o = parts.pop().unwrap();
            let ghost k = parts@.len();
            let ghost one = seq![all[k as int]];
            proof {
                lemma_scanned_one(all[k as int]);
            }
            let part = match o {
                Ok(v) => v,
                Err(_) => Vec::new(),
            };
            proof {
                assert(parts@ =~= all.subrange(0, k as int));
                assert(part@ =~= scanned(one));
            }
            stack.push(part);
        }
        let mut apps: Vec<Application> = Vec::new();
        let mut i: usize = stack.len();
        assert(all.subrange(0, 0) =~= Seq::<Result<Vec<Application>, LauncherError>>::empty());
        while i > 0
            invariant
                i == stack@.len(),
                i <= all.len(),
                forall|j: int| 0 <= j < i ==> stack@[j]@ == scanned(seq![all[all.len() - 1 - j]]),
                apps@ == scanned(all.subrange(0, all.len() - i)),
            decreases i,
        {
            i = i - 1;
            let mut part = stack.pop().unwrap();
            proof {
                let pre = all.subrange(0, all.len() - i);
                let one = seq![all[all.len() - 1 - i]];
                assert(pre.drop_last() =~= all.subrange(0, all.len() - 1 - i));
                assert(pre.last() == all[all.len() - 1 - i]);
                lemma_scanned_one(all[all.len() - 1 - i]);
            }
            apps.append(&mut part);
        }
        assert(all.subrange(0, all.len() as int) =~= all);
        let ghost found = apps@;
        let mut sorted: Vec<Application> = Vec::new();
        assert(found.subrange(found.len() as int, found.len() as int) =~= Seq::<Application>::empty());
        while apps.len() > 0
            invariant
                apps@ == found.subrange(0, apps@.len() as int),
                apps@.len() <= found.len(),
                sorted@ == sort_by_path(found.subrange(apps@.len() as int, found.len() as int)),
            decreases apps.len(),
        {
            let x = apps.pop().unwrap();
            let k = apps.len();
            proof {
                let tail = found.subrange(k as int, found.len() as int);
                assert(tail[0] == x);
                assert(tail.drop_first() =~= found.subrange(k + 1, found.len() as int));
                assert(apps@ =~= found.subrange(0, k as int));
            }
            let mut p: usize = 0;
            while p < sorted.len() && compare_paths(x.path.as_str(), sorted[p].path.as_str()) > 0
                invariant
                    p <= sorted.len(),
                    forall|j: int| 0 <= j < p ==> path_order(x.path@, sorted@[j].path@) > 0,
                decreases sorted.len() - p,
            {
                p = p + 1;
            }
            proof {
                lemma_insert_by_path_at(x, sorted@, p as int);
            }
            sorted.insert(p, x);
        }
        assert(found.subrange(0, found.len() as int) =~= found);
        let ghost ord = sorted@;
        let n = sorted.len();
        let mut rev: Vec<Application> = Vec::new();
        while sorted.len() > 0
            invariant
                sorted@ == ord.subrange(0, sorted@.len() as int),
                sorted@.len() <= ord.len(),
                n == ord.len(),
                rev@.len() == n - sorted@.len(),
                forall|k: int| 0 <= k < rev@.len() ==> rev@[k] == ord[n - 1 - k],
            decreases sorted.len(),
        {
            let x = sorted.pop().unwrap();
            proof {
                assert(sorted@ =~= ord.subrange(0, sorted@.len() as int));
            }
            rev.push(x);
        }
        let mut kept: Vec<Application> = Vec::new();
        let mut j: usize = 0;
        assert(ord.subrange(0, 0) =~= Seq::<Application>::empty());
        while j < n
            invariant
                n == ord.len(),
                j <= n,
                rev@.len() == n - j,
                forall|k: int| 0 <= k < rev@.len() ==> rev@[k] == ord[n - 1 - k],
                kept@ == dedup_by_path(ord.subrange(0, j as int)),
            decreases n - j,
        {
            let x = rev.pop().unwrap();
            let ghost pre = ord.subrange(0, j + 1);
            proof {
                assert(x == ord[j as int]);
                assert(pre.drop_last() =~= ord.subrange(0, j as int));
                assert(pre.last() == ord[j as int]);
            }
            if j == 0 {
                kept.push(x);
                assert(kept@ =~= pre);
            } else {
                proof {
                    lemma_dedup_nonempty(ord.subrange(0, j as int));
                }
                let last = kept.len() - 1;
                if compare_paths(kept[last].path.as_str(), x.path.as_str()) != 0 {
                    kept.push(x);
                }
            }
            j = j + 1;
        }
        assert(ord.subrange(0, ord.len() as int) =~= ord);
        Ok(kept)
    }
}

/// The first character of each whitespace-separated word of `s`.
pub open spec fn initials(s: Seq<char>) -> Seq<char>
    decreases s.len(),
{
    if s.len() == 0 {
        s
    } else {
        let c = s.last();
        initials(s.drop_last()) + if !is_whitespace_spec(c) && (s.len() == 1 || is_whitespace_spec(
            s[s.len() - 2],
        )) {
            seq![c]
        } else {
            Seq::empty()
        }
    }
}

/// Whether the lower-cased query `q` begins the acronym of the
/// lower-cased name `n`, which must have at least two words.
pub open spec fn acronym_match(q: Seq<char>, n: Seq<char>) -> bool {
    initials(n).len() >= 2 && starts_with(lower_of(initials(n)), q)
}

/// The score of a lower-cased application name `n` for a lower-cased query
/// `q`.
pub open spec fn app_score(q: Seq<char>, n: Seq<char>) -> Option<u64> {
    if n == q {
        Some(100)
    } else if starts_with(n, q) {
        Some(90)
    } else if contains(n, q) {
        Some(70)
    } else if acronym_match(q, n) {
        Some(60)
    } else if is_subsequence(q, n) {
        Some(40)
    } else {
        None
    }
}

/// The search result of application `a` at `score`, with `icon`.
pub open spec fn app_result_view(a: Application, score: u64, icon: Option<Seq<char>>) -> ResultView {
    ResultView {
        id: "app:"@ + a.path@,
        title: a.name@,
        subtitle: a.path@,
        icon,
        result_type: ResultType::Application,
        score,
        metadata: seq![("path"@, a.path@), ("is_shortcut"@, if a.is_shortcut { "true"@ } else { "false"@ })]
            + match a.description {
            Some(d) => seq![("description"@, d@)],
            None => Seq::empty(),
        },
        action: ActionView::LaunchApp { path: a.path@ },
    }
}

/// Searches installed applications.
pub struct AppSearchProvider;

impl AppSearchProvider {
    pub fn name(&self) -> (r: &'static str)
        ensures
            r@ == "AppSearch"@,
    {
        "AppSearch"
    }

    pub fn priority(&self) -> (r: u8)
        ensures
            r == 85,
    {
        85
    }

    /// The first character of each whitespace-separated word of `name`.
    pub fn initials_of(name: &str) -> (r: Vec<char>)
        ensures
            r@ == initials(name@),
    {
        let cs = chars_of(name);
        let mut r: Vec<char> = Vec::new();
        let mut i: usize = 0;
        while i < cs.len()
            invariant
                i <= cs@.len(),
                r@ == initials(cs@.subrange(0, i as int)),
            decreases cs.len() - i,
        {
            let ghost pre = cs@.subrange(0, i + 1);
            assert(pre.drop_last() =~= cs@.subrange(0, i as int));
            let starts_word = !is_whitespace(cs[i]) && (i == 0 || is_whitespace(cs[i - 1]));
            if starts_word {
                r.push(cs[i]);
                assert(r@ =~= initials(cs@.subrange(0, i as int)) + seq![cs@[i as int]]);
            } else {
                assert(r@ =~= initials(cs@.subrange(0, i as int)) + Seq::<char>::empty());
            }
            i = i + 1;
        }
        assert(cs@.subrange(0, cs@.len() as int) =~= cs@);
        r
    }

    /// Whether `query` begins the acronym of `name` (both lower-cased), as
    /// "vsc" does for "visual studio code"; the name needs two words.
    pub fn matches_acronym(query: &str, name: &str) -> (r: bool)
        ensures
            r == acronym_match(query@, name@),
    {
        let letters = Self::initials_of(name);
        if letters.len() < 2 {
            return false;
        }
        let acronym = chars_of(to_lower(string_of(&letters).as_str()).as_str());
        seq_starts_with(&acronym, &chars_of(query))
    }

    /// Whether the characters of `query` appear in `name` in order.
    pub fn fuzzy_char_match(query: &str, name: &str) -> (r: bool)
        ensures
            r == is_subsequence(query@, name@),
    {
        QuickActionProvider::fuzzy_char_match(query, name)
    }

    /// The search result of `app` at `score`, with `icon`.
    pub fn convert_to_search_result(app: &Application, score: u64, icon: Option<String>) -> (r: SearchResult)
        ensures
            r@ == app_result_view(*app, score, crate::types::opt_string_view(icon)),
    {
        let shortcut = if app.is_shortcut { "true".to_owned() } else { "false".to_owned() };
        let mut metadata = vec![("path".to_owned(), app.path.clone()), ("is_shortcut".to_owned(), shortcut)];
        match &app.description {
            Some(d) => metadata.push(("description".to_owned(), d.clone())),
            None => {},
        }
        let r = SearchResult {
            id: joined("app:", app.path.as_str()),
            title: app.name.clone(),
            subtitle: app.path.clone(),
            icon,
            result_type: ResultType::Application,
            score,
            metadata,
            action: ResultAction::LaunchApp { path: app.path.clone() },
        };
        assert(r@.metadata =~= app_result_view(*app, score, crate::types::opt_string_view(icon)).metadata);
        r
    }

    /// The program to launch for `result`: it must be an application
    /// result that launches one.
    pub fn path_to_launch(result: &SearchResult) -> (r: Result<String, LauncherError>)
        ensures
            result.result_type != ResultType::Application ==> r is Err && r->Err_0 is ExecutionError
                && r->Err_0->ExecutionError_0@ == "Not an application result"@,
            result.result_type == ResultType::Application ==> match action_text(result@.action, ActionKind::LaunchApp) {
                Some(p) => r is Ok && r->Ok_0@ == p,
                None => r is Err && r->Err_0 is ExecutionError && r->Err_0->ExecutionError_0@
                    == "Invalid action for application result"@,
            },
    {
        if result.result_type != ResultType::Application {
            return Err(LauncherError::ExecutionError("Not an application result".to_owned()));
        }
        match result.action.text_of_kind(ActionKind::LaunchApp) {
            Some(p) => Ok(p),
            None => Err(LauncherError::ExecutionError("Invalid action for application result".to_owned())),
        }
    }

    /// The score of application name `app_name` for `query`, compared without
    /// case: 100 equal, 90 prefix, 70 contained, 60 acronym, 40 when the
    /// query's characters appear in order.
    pub fn fuzzy_match(query: &str, app_name: &str) -> (r: Option<u64>)
        ensures
            r == app_score(lower_of(query@), lower_of(app_name@)),
    {
        let query_lower = to_lower(query);
        let name_lower = to_lower(app_name);
        let q = chars_of(query_lower.as_str());
        let n = chars_of(name_lower.as_str());
        if seq_equal(&n, &q) {
            return Some(100);
        }
        if seq_starts_with(&n, &q) {
            return Some(90);
        }
        if seq_contains(&n, &q) {
            return Some(70);
        }
        if Self::matches_acronym(query_lower.as_str(), name_lower.as_str()) {
            return Some(60);
        }
        if Self::fuzzy_char_match(query_lower.as_str(), name_lower.as_str()) {
            return Some(40);
        }
        None
    }
}

} // verus!
