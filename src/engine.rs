use vstd::prelude::*;
use crate::cache::{
    after_lookup, key_pos, lookup_hit, put_rest, CacheEntry, ResultCache,
};
use crate::error::LauncherError;
use crate::ranking::{rank_results, ranked};
use crate::text::{chars_of, seq_equal, trim};
use crate::types::{copy_results, results_view, ResultAction, ResultType, ResultView, ActionView, SearchResult};
use crate::validation::{cap_len, sanitize_query, sanitized};

verus! {

/// Most results kept from one provider.
pub const MAX_RESULTS_PER_PROVIDER: usize = 20;

/// Most results a search returns.
pub const MAX_TOTAL_RESULTS: usize = 50;

/// Number of queries the engine caches.
pub const CACHE_CAPACITY: usize = 100;

/// How long a cached answer stays valid.
pub const CACHE_TTL_SECONDS: u64 = 5;

/// A registered provider as the engine sees it.
#[derive(Debug, Clone)]
pub struct ProviderEntry {
    pub name: String,
    pub priority: u8,
}

/// What a search needs next.
#[derive(Debug)]
pub enum SearchStep {
    /// The search is answered: an empty query, or a valid cache entry.
    Ready(Vec<SearchResult>),
    /// Every enabled provider is to be asked for this sanitized query, and
    /// their outcomes handed to `finish_search`.
    Dispatch(String),
}

/// What the built-in fallback does for an action no provider executed.
#[derive(Debug)]
pub enum DefaultAction {
    /// Open this file, folder or address with the system shell.
    ShellOpen(String),
    /// Start this program.
    Launch(String),
    /// Run this command with these arguments.
    Spawn { command: String, args: Vec<String> },
    /// Give up with this error.
    Fail(LauncherError),
}

/// Priorities never increase along the registry.
pub open spec fn priorities_desc(s: Seq<(Seq<char>, u8)>) -> bool {
    forall|i: int, j: int| 0 <= i < j < s.len() ==> s[i].1 >= s[j].1
}

/// `pos` is where a provider of priority `p` joins `s`: after every provider
/// of priority `p` or more, before the others.
pub open spec fn is_insert_pos(s: Seq<(Seq<char>, u8)>, p: u8, pos: int) -> bool {
    &&& 0 <= pos <= s.len()
    &&& forall|j: int| 0 <= j < pos ==> s[j].1 >= p
    &&& pos < s.len() ==> s[pos].1 < p
}

/// The results that providers' outcomes contribute, in order: at most
/// `MAX_RESULTS_PER_PROVIDER` of each success, nothing of a failure.
pub open spec fn merged(outcomes: Seq<Result<Vec<SearchResult>, LauncherError>>) -> Seq<SearchResult>
    decreases outcomes.len(),
{
    if outcomes.len() == 0 {
        Seq::empty()
    } else {
        merged(outcomes.drop_last()) + match outcomes.last() {
            Ok(v) => cap_len(v@, MAX_RESULTS_PER_PROVIDER as nat),
            Err(_) => Seq::empty(),
        }
    }
}

/// The answer to a sanitized query `key` from the providers' outcomes.
pub open spec fn final_results(
    outcomes: Seq<Result<Vec<SearchResult>, LauncherError>>,
    key: Seq<char>,
) -> Seq<SearchResult> {
    cap_len(ranked(merged(outcomes), key), MAX_TOTAL_RESULTS as nat)
}

/// The first metadata value stored under `key`.
pub open spec fn meta_lookup(m: Seq<(Seq<char>, Seq<char>)>, key: Seq<char>) -> Option<Seq<char>>
    decreases m.len(),
{
    if m.len() == 0 {
        None
    } else if m[0].0 == key {
        Some(m[0].1)
    } else {
        meta_lookup(m.drop_first(), key)
    }
}

/// The path to report when the file result `r` has been executed.
pub open spec fn tracked_path(r: ResultView) -> Option<Seq<char>> {
    if r.result_type != ResultType::File {
        None
    } else {
        match r.action {
            ActionView::OpenFile { path } => Some(path),
            _ => meta_lookup(r.metadata, "path"@),
        }
    }
}

/// The fallback for `action`; `windows` tells whether the shell can open
/// files, applications and addresses on this platform.
pub open spec fn default_action_spec(action: ActionView, windows: bool) -> DefaultActionView {
    match action {
        ActionView::OpenFile { path } => if windows {
            DefaultActionView::ShellOpen(path)
        } else {
            DefaultActionView::Fail("File opening not implemented for this platform"@)
        },
        ActionView::LaunchApp { path } => if windows {
            DefaultActionView::Launch(path)
        } else {
            DefaultActionView::Fail("App launching not implemented for this platform"@)
        },
        ActionView::ExecuteCommand { command, args } => DefaultActionView::Spawn(command, args),
        ActionView::CopyToClipboard { .. } => DefaultActionView::Fail(
            "Clipboard copy not yet implemented"@,
        ),
        ActionView::OpenUrl { url } => if windows {
            DefaultActionView::ShellOpen(url)
        } else {
            DefaultActionView::Fail("URL opening not implemented for this platform"@)
        },
        ActionView::WebSearch { query } => if windows {
            DefaultActionView::ShellOpen(crate::web_search::web_search_url(query))
        } else {
            DefaultActionView::Fail("Web search not implemented for this platform"@)
        },
    }
}

/// Mathematical value of a `DefaultAction`; `Fail` holds the cause of an
/// execution error.
pub enum DefaultActionView {
    ShellOpen(Seq<char>),
    Launch(Seq<char>),
    Spawn(Seq<char>, Seq<Seq<char>>),
    Fail(Seq<char>),
}

impl DefaultAction {
    pub open spec fn view(&self) -> DefaultActionView {
        match self {
            DefaultAction::ShellOpen(s) => DefaultActionView::ShellOpen(s@),
            DefaultAction::Launch(s) => DefaultActionView::Launch(s@),
            DefaultAction::Spawn { command, args } => DefaultActionView::Spawn(
                command@,
                crate::types::strings_view(args@),
            ),
            DefaultAction::Fail(e) => match e {
                LauncherError::ExecutionError(m) => DefaultActionView::Fail(m@),
                _ => DefaultActionView::Fail(Seq::empty()),
            },
        }
    }

    /// Whether a failure is an execution error, as every fallback failure is.
    pub open spec fn fails_as_execution(&self) -> bool {
        match self {
            DefaultAction::Fail(e) => e is ExecutionError,
            _ => true,
        }
    }
}

/// Coordinates search across providers: keeps the registry ordered by
/// priority and owns the result cache.
pub struct SearchEngine {
    providers: Vec<ProviderEntry>,
    cache: ResultCache,
}

impl SearchEngine {
    /// The registry as (name, priority) pairs, highest priority first.
    pub closed spec fn registry(&self) -> Seq<(Seq<char>, u8)> {
        self.providers@.map_values(|e: ProviderEntry| (e.name@, e.priority))
    }

    /// The engine's result cache.
    pub closed spec fn cache(&self) -> ResultCache {
        self.cache
    }

    pub open spec fn wf(&self) -> bool {
        &&& self.cache().wf()
        &&& priorities_desc(self.registry())
    }

    /// An engine with no providers and an empty cache of `CACHE_CAPACITY`
    /// queries valid for `CACHE_TTL_SECONDS`.
    pub fn new() -> (r: SearchEngine)
        ensures
            r.wf(),
            r.registry() == Seq::<(Seq<char>, u8)>::empty(),
            r.cache().items().len() == 0,
            r.cache().capacity() == CACHE_CAPACITY,
            r.cache().ttl() == CACHE_TTL_SECONDS * 1000,
    {
        let r = SearchEngine { providers: Vec::new(), cache: ResultCache::new(CACHE_CAPACITY, CACHE_TTL_SECONDS) };
        assert(r.registry() =~= Seq::<(Seq<char>, u8)>::empty());
        r
    }

    /// Registers a provider: it joins the registry after every provider of
    /// the same or higher priority, and the cache is emptied. Returns the
    /// position it took.
    pub fn register_provider(&mut self, name: String, priority: u8) -> (pos: usize)
        requires
            old(self).wf(),
        ensures
            final(self).wf(),
            is_insert_pos(old(self).registry(), priority, pos as int),
            final(self).registry() == old(self).registry().insert(pos as int, (name@, priority)),
            final(self).cache().items().len() == 0,
            final(self).cache().capacity() == old(self).cache().capacity(),
            final(self).cache().ttl() == old(self).cache().ttl(),
    {
        let ghost old_reg = self.registry();
        let ghost n = name@;
        let mut pos: usize = 0;
        while pos < self.providers.len() && self.providers[pos].priority >= priority
            invariant
                pos <= self.providers.len(),
                old_reg == self.registry(),
                forall|j: int| 0 <= j < pos ==> old_reg[j].1 >= priority,
            decreases self.providers.len() - pos,
        {
            pos = pos + 1;
        }
        self.providers.insert(pos, ProviderEntry { name, priority });
        proof {
            assert(self.registry() =~= old_reg.insert(pos as int, (n, priority)));
            law_insert_keeps_priority_order(old_reg, n, priority, pos as int);
        }
        self.cache.invalidate_all();
        pos
    }

    /// The number of registered providers.
    pub fn provider_count(&self) -> (r: usize)
        ensures
            r == self.registry().len(),
    {
        self.providers.len()
    }

    /// The names of the registered providers, highest priority first.
    pub fn provider_names(&self) -> (r: Vec<String>)
        ensures
            r@.len() == self.registry().len(),
            forall|i: int| 0 <= i < r@.len() ==> r@[i]@ == self.registry()[i].0,
    {
        let mut r: Vec<String> = Vec::new();
        let mut i: usize = 0;
        while i < self.providers.len()
            invariant
                i <= self.providers.len(),
                r@.len() == i,
                forall|j: int| 0 <= j < i ==> r@[j]@ == self.registry()[j].0,
            decreases self.providers.len() - i,
        {
            r.push(self.providers[i].name.clone());
            i = i + 1;
        }
        r
    }

    /// Empties the result cache.
    pub fn invalidate_cache(&mut self)
        requires
            old(self).wf(),
        ensures
            final(self).wf(),
            final(self).registry() == old(self).registry(),
            final(self).cache().items().len() == 0,
            final(self).cache().capacity() == old(self).cache().capacity(),
            final(self).cache().ttl() == old(self).cache().ttl(),
    {
        self.cache.invalidate_all();
    }

    /// Milliseconds on the cache's clock.
    pub fn now(&self) -> u64 {
        self.cache.now()
    }

    /// Sanitizes a query: trimmed, without control characters, at most 256
    /// characters.
    pub fn sanitize_query(query: &str) -> (r: String)
        ensures
            r@ == sanitized(query@),
    {
        sanitize_query(query)
    }

    /// Ranks results for a query; see `ranking::rank_results`.
    pub fn rank_results(results: Vec<SearchResult>, query: &str) -> (r: Vec<SearchResult>)
        ensures
            r@ == ranked(results@, query@),
    {
        rank_results(results, query)
    }

    /// Starts a search at time `now`. A query that is empty once trimmed is
    /// answered with no results and leaves the engine as it is. Otherwise
    /// the sanitized query is looked up in the cache: a valid entry answers
    /// the search; on a miss the sanitized query is handed out for the
    /// providers.
    pub fn begin_search(&mut self, query: &str, now: u64) -> (r: SearchStep)
        requires
            old(self).wf(),
        ensures
            final(self).wf(),
            final(self).registry() == old(self).registry(),
            final(self).cache().capacity() == old(self).cache().capacity(),
            final(self).cache().ttl() == old(self).cache().ttl(),
            trim(query@).len() == 0 ==> r is Ready && r->Ready_0@.len() == 0
                && final(self).cache().items() == old(self).cache().items(),
            trim(query@).len() > 0 ==> {
                let s = old(self).cache().items();
                let key = sanitized(query@);
                let ttl = old(self).cache().ttl();
                &&& final(self).cache().items() == after_lookup(s, key, ttl, now)
                &&& lookup_hit(s, key, ttl, now) ==> r is Ready && results_view(r->Ready_0@)
                    == results_view(s[key_pos(s, key)].1.results@)
                &&& lookup_hit(s, key, ttl, now) ==> final(self).cache().items().len() > 0
                    && final(self).cache().items()[0] == s[key_pos(s, key)]
                &&& !lookup_hit(s, key, ttl, now) ==> r is Dispatch && r->Dispatch_0@ == key
            },
    {
        let trimmed_empty = is_blank(query);
        if trimmed_empty {
            return SearchStep::Ready(Vec::new());
        }
        let key = sanitize_query(query);
        match self.cache.get_at(key.as_str(), now) {
            Some(found) => SearchStep::Ready(found),
            None => SearchStep::Dispatch(key),
        }
    }

    /// Gathers the results of the providers' outcomes: at most
    /// `MAX_RESULTS_PER_PROVIDER` of each success, in order; failures are
    /// left out.
    pub fn merge_outcomes(outcomes: Vec<Result<Vec<SearchResult>, LauncherError>>) -> (r: Vec<SearchResult>)
        ensures
            r@ == merged(outcomes@),
    {
        let ghost all = outcomes@;
        let mut r: Vec<SearchResult> = Vec::new();
        let mut rest = outcomes;
        let mut parts: Vec<Vec<SearchResult>> = Vec::new();
        while rest.len() > 0
            invariant
                rest@ == all.subrange(0, rest@.len() as int),
                rest@.len() <= all.len(),
                parts@.len() == all.len() - rest@.len(),
                forall|j: int| 0 <= j < parts@.len() ==> parts@[j]@ == part_of(all[all.len() - 1 - j]),
            decreases rest.len(),
        {
            let o = rest.pop().unwrap();
            let ghost k = rest@.len();
            let part = match o {
                Ok(v) => {
                    let mut v = v;
                    v.truncate(MAX_RESULTS_PER_PROVIDER);
                    v
                },
                Err(_) => Vec::new(),
            };
            proof {
                assert(rest@ =~= all.subrange(0, k as int));
                assert(part@ == part_of(all[all.len() - 1 - parts@.len()]));
            }
            parts.push(part);
        }
        let mut i: usize = parts.len();
        while i > 0
            invariant
                i == parts@.len(),
                i <= all.len(),
                forall|j: int| 0 <= j < i ==> parts@[j]@ == part_of(all[all.len() - 1 - j]),
                r@ == merged(all.subrange(0, all.len() - i)),
            decreases i,
        {
            i = i - 1;
            let mut part = parts.pop().unwrap();
            proof {
                let pre = all.subrange(0, all.len() - i);
                assert(pre.drop_last() =~= all.subrange(0, all.len() - 1 - i));
                assert(pre.last() == all[all.len() - 1 - i]);
            }
            r.append(&mut part);
        }
        assert(all.subrange(0, all.len() as int) =~= all);
        r
    }

    /// Completes a search of the sanitized query `key` with the providers'
    /// outcomes, in registry order, at time `now`: merges them, ranks the
    /// merged results, keeps the first `MAX_TOTAL_RESULTS`, stores a copy in
    /// the cache under `key` and returns them.
    pub fn finish_search(
        &mut self,
        key: String,
        outcomes: Vec<Result<Vec<SearchResult>, LauncherError>>,
        now: u64,
    ) -> (r: Vec<SearchResult>)
        requires
            old(self).wf(),
        ensures
            final(self).wf(),
            final(self).registry() == old(self).registry(),
            final(self).cache().capacity() == old(self).cache().capacity(),
            final(self).cache().ttl() == old(self).cache().ttl(),
            r@ == final_results(outcomes@, key@),
            final(self).cache().items().len() > 0,
            final(self).cache().items()[0].0 == key@,
            final(self).cache().items()[0].1.timestamp == now,
            results_view(final(self).cache().items()[0].1.results@) == results_view(r@),
            final(self).cache().items().drop_first() == put_rest(
                old(self).cache().items(),
                key@,
                old(self).cache().capacity(),
            ),
    {
        let all = Self::merge_outcomes(outcomes);
        let ghost k = key@;
        let mut results = rank_results(all, key.as_str());
        results.truncate(MAX_TOTAL_RESULTS);
        let stored = copy_results(&results);
        let ghost e = CacheEntry { results: stored, timestamp: now };
        let ghost before = self.cache().items();
        self.cache.put_at(key, stored, now);
        proof {
            let cap = old(self).cache().capacity();
            assert(crate::cache::put_items(before, k, e, cap).drop_first() =~= put_rest(before, k, cap));
        }
        results
    }
}

/// The path to report to the file-access tracker once `result` has been
/// executed: for a file result, the path it opens, else its `path` metadata.
pub fn file_to_track(result: &SearchResult) -> (r: Option<String>)
    ensures
        crate::types::opt_string_view(r) == tracked_path(result@),
{
    if result.result_type != ResultType::File {
        return None;
    }
    match &result.action {
        ResultAction::OpenFile { path } => Some(path.clone()),
        _ => meta_text(result, "path"),
    }
}

/// The first metadata value of `result` under `key`.
pub fn meta_text(result: &SearchResult, key: &str) -> (r: Option<String>)
    ensures
        crate::types::opt_string_view(r) == meta_lookup(result@.metadata, key@),
{
    let k = chars_of(key);
    let m = &result.metadata;
    let ghost mv = result@.metadata;
    let mut i: usize = 0;
    assert(mv.subrange(0, mv.len() as int) =~= mv);
    while i < m.len()
        invariant
            i <= m.len(),
            mv == crate::types::pairs_view(m@),
            mv == result@.metadata,
            mv.len() == m@.len(),
            k@ == key@,
            meta_lookup(mv, key@) == meta_lookup(mv.subrange(i as int, mv.len() as int), key@),
        decreases m.len() - i,
    {
        let ghost sub = mv.subrange(i as int, mv.len() as int);
        assert(sub.drop_first() =~= mv.subrange(i + 1, mv.len() as int));
        assert(sub[0] == (m@[i as int].0@, m@[i as int].1@));
        if seq_equal(&chars_of(m[i].0.as_str()), &k) {
            assert(meta_lookup(sub, key@) == Some(m@[i as int].1@));
            return Some(m[i].1.clone());
        }
        i = i + 1;
    }
    None
}


/// The built-in fallback for `action`, for when no provider executed it;
/// `windows` tells whether the system shell can open files, applications
/// and addresses here. Each failure is an execution error.
pub fn default_action(action: &ResultAction, windows: bool) -> (r: DefaultAction)
    ensures
        r.view() == default_action_spec(action@, windows),
        r.fails_as_execution(),
{
    match action {
        ResultAction::OpenFile { path } => if windows {
            DefaultAction::ShellOpen(path.clone())
        } else {
            DefaultAction::Fail(LauncherError::ExecutionError("File opening not implemented for this platform".to_owned()))
        },
        ResultAction::LaunchApp { path } => if windows {
            DefaultAction::Launch(path.clone())
        } else {
            DefaultAction::Fail(LauncherError::ExecutionError("App launching not implemented for this platform".to_owned()))
        },
        ResultAction::ExecuteCommand { command, args } => DefaultAction::Spawn {
            command: command.clone(),
            args: crate::types::copy_strings(args),
        },
        ResultAction::CopyToClipboard { .. } => DefaultAction::Fail(
            LauncherError::ExecutionError("Clipboard copy not yet implemented".to_owned()),
        ),
        ResultAction::OpenUrl { url } => if windows {
            DefaultAction::ShellOpen(url.clone())
        } else {
            DefaultAction::Fail(LauncherError::ExecutionError("URL opening not implemented for this platform".to_owned()))
        },
        ResultAction::WebSearch { query } => if windows {
            DefaultAction::ShellOpen(crate::web_search::WebSearchProvider::construct_search_url(query.as_str()))
        } else {
            DefaultAction::Fail(LauncherError::ExecutionError("Web search not implemented for this platform".to_owned()))
        },
    }
}

/// The first index at or after `from` whose provider is enabled: the next
/// provider that `execute_result` tries.
pub fn next_enabled(enabled: &Vec<bool>, from: usize) -> (r: Option<usize>)
    ensures
        match r {
            Some(i) => from <= i < enabled@.len() && enabled@[i as int] && forall|j: int|
                from <= j < i ==> !enabled@[j],
            None => forall|j: int| from <= j < enabled@.len() ==> !enabled@[j],
        },
{
    let mut i: usize = from;
    while i < enabled.len()
        invariant
            from <= i || i == from,
            forall|j: int| from <= j < i ==> !enabled@[j],
        decreases enabled.len() - i,
    {
        if enabled[i] {
            return Some(i);
        }
        i = i + 1;
    }
    None
}

/// What executing a result does next.
#[derive(Debug, Clone, Copy, PartialEq, Eq, Structural)]
pub enum ExecuteStep {
    /// Ask the provider at this registry position to execute it.
    TryProvider(usize),
    /// A provider executed it: report the file access, if any, and stop.
    Succeeded,
    /// No enabled provider is left: run the built-in fallback.
    RunFallback,
}

/// The first registry position to try after the attempt `last`, if any.
pub open spec fn resume_from(last: Option<(usize, bool)>) -> int {
    match last {
        Some((i, _)) => i + 1,
        None => 0,
    }
}

/// The next step of executing a result: `enabled` tells which registered
/// providers are enabled, `last` is the position tried last and whether it
/// succeeded (`None` before the first attempt). Providers are tried in
/// registry order, enabled ones only, until one succeeds; then the
/// fallback runs.
pub fn next_execute_step(enabled: &Vec<bool>, last: Option<(usize, bool)>) -> (r: ExecuteStep)
    requires
        match last {
            Some((i, _)) => i < enabled@.len(),
            None => true,
        },
    ensures
        match last {
            Some((_, true)) => r == ExecuteStep::Succeeded,
            _ => match r {
                ExecuteStep::TryProvider(j) => resume_from(last) <= j < enabled@.len() && enabled@[j as int]
                    && forall|k: int| resume_from(last) <= k < j ==> !enabled@[k],
                ExecuteStep::RunFallback => forall|k: int|
                    resume_from(last) <= k < enabled@.len() ==> !enabled@[k],
                ExecuteStep::Succeeded => false,
            },
        },
{
    let n = enabled.len();
    let from: usize = match last {
        Some((_, true)) => {
            return ExecuteStep::Succeeded;
        },
        Some((i, _)) => {
            assert(i < n);
            i + 1
        },
        None => 0,
    };
    match next_enabled(enabled, from) {
        Some(j) => ExecuteStep::TryProvider(j),
        None => ExecuteStep::RunFallback,
    }
}

/// What one outcome contributes to the merged results.
pub open spec fn part_of(o: Result<Vec<SearchResult>, LauncherError>) -> Seq<SearchResult> {
    match o {
        Ok(v) => cap_len(v@, MAX_RESULTS_PER_PROVIDER as nat),
        Err(_) => Seq::empty(),
    }
}

/// Whether `s` is empty once trimmed.
pub fn is_blank(s: &str) -> (r: bool)
    ensures
        r == (trim(s@).len() == 0),
{
    let cs = chars_of(s);
    let mut i: usize = 0;
    while i < cs.len() && crate::text::is_whitespace(cs[i])
        invariant
            i <= cs.len(),
            forall|j: int| 0 <= j < i ==> crate::text::is_whitespace_spec(cs@[j]),
        decreases cs.len() - i,
    {
        i = i + 1;
    }
    proof { lemma_trim_blank(s@, i as int); }
    i == cs.len()
}

proof fn lemma_trim_blank(s: Seq<char>, i: int)
    requires
        0 <= i <= s.len(),
        forall|j: int| 0 <= j < i ==> crate::text::is_whitespace_spec(s[j]),
        i < s.len() ==> !crate::text::is_whitespace_spec(s[i]),
    ensures
        (trim(s).len() == 0) == (i == s.len()),
{
    crate::text::lemma_trim_start_at(s, i);
    if i < s.len() {
        crate::text::lemma_trim_end_nonempty(s.subrange(i, s.len() as int));
    } else {
        assert(s.subrange(i, s.len() as int).len() == 0);
    }
}

/// Inserting at the insertion position keeps the registry ordered by
/// descending priority.
pub proof fn law_insert_keeps_priority_order(s: Seq<(Seq<char>, u8)>, name: Seq<char>, p: u8, pos: int)
    requires
        priorities_desc(s),
        is_insert_pos(s, p, pos),
    ensures
        priorities_desc(s.insert(pos, (name, p))),
{
    let t = s.insert(pos, (name, p));
    assert forall|i: int, j: int| 0 <= i < j < t.len() implies t[i].1 >= t[j].1 by {
        if j < pos {
            assert(t[i] == s[i] && t[j] == s[j]);
        } else if j == pos {
            assert(t[i] == s[i]);
        } else if i == pos {
            assert(t[j] == s[j - 1]);
        } else if i < pos {
            assert(t[i] == s[i] && t[j] == s[j - 1]);
        } else {
            assert(t[i] == s[i - 1] && t[j] == s[j - 1]);
        }
    }
}

/// An answer that `finish_search` stored is found again by the next lookup
/// of the same sanitized query before the TTL runs out: with no
/// registration or invalidation between them, two searches give the same
/// results.
pub proof fn law_answer_is_reused(
    before: Seq<(Seq<char>, CacheEntry)>,
    after: Seq<(Seq<char>, CacheEntry)>,
    key: Seq<char>,
    cap: nat,
    ttl: u64,
    now: u64,
)
    requires
        crate::cache::items_wf(before, cap),
        cap > 0,
        after.len() > 0,
        after[0].0 == key,
        after.drop_first() == put_rest(before, key, cap),
        crate::cache::elapsed(now, after[0].1.timestamp) < ttl,
    ensures
        lookup_hit(after, key, ttl, now),
        after[key_pos(after, key)].1 == after[0].1,
{
    let e = after[0].1;
    assert(after =~= crate::cache::put_items(before, key, e, cap));
    crate::cache::lemma_put_wf(before, key, e, cap);
    law_front_entry_is_hit(after, key, cap, ttl, now);
}

/// A search answered from the cache is answered again from the same entry,
/// with the same results, by a lookup before that entry's TTL runs out.
pub proof fn law_hit_repeats(
    s: Seq<(Seq<char>, CacheEntry)>,
    key: Seq<char>,
    cap: nat,
    ttl: u64,
    t1: u64,
    t2: u64,
)
    requires
        crate::cache::items_wf(s, cap),
        lookup_hit(s, key, ttl, t1),
        crate::cache::elapsed(t2, s[key_pos(s, key)].1.timestamp) < ttl,
    ensures
        lookup_hit(after_lookup(s, key, ttl, t1), key, ttl, t2),
        after_lookup(s, key, ttl, t1)[key_pos(after_lookup(s, key, ttl, t1), key)].1 == s[key_pos(
            s,
            key,
        )].1,
{
    crate::cache::law_repeat_hit(s, key, cap, ttl, t1, t2);
}

/// Whichever way a search was answered, its entry then stands first in the
/// cache (a hit moves it there, `finish_search` puts it there). A lookup of
/// that key before the entry's TTL runs out finds that same entry, so a
/// repeated search returns the same results.
pub proof fn law_front_entry_is_hit(
    s: Seq<(Seq<char>, CacheEntry)>,
    key: Seq<char>,
    cap: nat,
    ttl: u64,
    now: u64,
)
    requires
        crate::cache::items_wf(s, cap),
        s.len() > 0,
        s[0].0 == key,
        crate::cache::elapsed(now, s[0].1.timestamp) < ttl,
    ensures
        lookup_hit(s, key, ttl, now),
        s[key_pos(s, key)].1 == s[0].1,
        after_lookup(s, key, ttl, now)[0] == s[0],
{
    crate::cache::lemma_key_pos_front(s, key);
}

/// The merged results of outcomes concatenated are the merged results of
/// each part, in order.
pub proof fn lemma_merged_append(
    a: Seq<Result<Vec<SearchResult>, LauncherError>>,
    b: Seq<Result<Vec<SearchResult>, LauncherError>>,
)
    ensures
        merged(a + b) == merged(a) + merged(b),
    decreases b.len(),
{
    if b.len() == 0 {
        assert(a + b =~= a);
        assert(merged(a) + merged(b) =~= merged(a));
    } else {
        lemma_merged_append(a, b.drop_last());
        assert((a + b).drop_last() =~= a + b.drop_last());
        assert((a + b).last() == b.last());
        assert(merged(a) + merged(b.drop_last()) + part_of(b.last()) =~= merged(a) + (merged(b.drop_last())
            + part_of(b.last())));
    }
}

/// What provider `j` contributes to the merged results sits between the
/// contributions of the providers before and after it, and is the first
/// `MAX_RESULTS_PER_PROVIDER` (at most) of its own results, in their order;
/// a failed provider contributes nothing.
pub proof fn law_provider_contribution(outcomes: Seq<Result<Vec<SearchResult>, LauncherError>>, j: int)
    requires
        0 <= j < outcomes.len(),
    ensures
        merged(outcomes) == merged(outcomes.take(j)) + part_of(outcomes[j]) + merged(
            outcomes.skip(j + 1),
        ),
        part_of(outcomes[j]).len() <= MAX_RESULTS_PER_PROVIDER,
        match outcomes[j] {
            Ok(v) => part_of(outcomes[j]) == v@.take(part_of(outcomes[j]).len() as int),
            Err(_) => part_of(outcomes[j]).len() == 0,
        },
{
    let a = outcomes.take(j);
    let m = seq![outcomes[j]];
    let c = outcomes.skip(j + 1);
    assert(outcomes =~= a + m + c);
    lemma_merged_append(a + m, c);
    lemma_merged_append(a, m);
    assert(m.drop_last() =~= Seq::<Result<Vec<SearchResult>, LauncherError>>::empty());
    let e = Seq::<Result<Vec<SearchResult>, LauncherError>>::empty();
    assert(merged(e) == Seq::<SearchResult>::empty());
    assert(m.last() == outcomes[j]);
    assert(merged(m) == merged(e) + part_of(outcomes[j]));
    assert(merged(m) =~= part_of(outcomes[j]));
    match outcomes[j] {
        Ok(v) => {
            if v@.len() <= MAX_RESULTS_PER_PROVIDER {
                assert(v@.take(v@.len() as int) =~= v@);
            }
        },
        Err(_) => {},
    }
}

/// Removing control characters never lengthens a text.
proof fn lemma_strip_controls_len(s: Seq<char>)
    ensures
        crate::text::strip_controls(s).len() <= s.len(),
    decreases s.len(),
{
    if s.len() > 0 {
        lemma_strip_controls_len(s.drop_last());
    }
}

/// A query whose sanitized form is stable under sanitizing again and not
/// blank is itself not blank, and the search of that sanitized form asks
/// and caches under the same key: searching it gives what searching the
/// query gives, with the same providers.
pub proof fn law_sanitized_query_same_search(q: Seq<char>)
    requires
        sanitized(sanitized(q)) == sanitized(q),
        trim(sanitized(q)).len() > 0,
    ensures
        trim(q).len() > 0,
{
    let t = trim(q);
    lemma_strip_controls_len(t);
    crate::text::lemma_trim_len(sanitized(q));
}

/// The merged results of one outcome are what that outcome contributes.
proof fn lemma_merged_one(x: Result<Vec<SearchResult>, LauncherError>)
    ensures
        merged(seq![x]) == part_of(x),
{
    let one = seq![x];
    let e = Seq::<Result<Vec<SearchResult>, LauncherError>>::empty();
    assert(one.drop_last() =~= e);
    assert(merged(e) == Seq::<SearchResult>::empty());
    assert(one.last() == x);
    assert(merged(one) == merged(e) + part_of(x));
    assert(merged(one) =~= part_of(x));
}

/// One provider failing and another answering with at most
/// `MAX_RESULTS_PER_PROVIDER` results, in either order: the search answers
/// with exactly the healthy provider's results, boosted and ranked.
pub proof fn law_graceful_degradation(
    e: LauncherError,
    v: Vec<SearchResult>,
    key: Seq<char>,
    failed_first: bool,
)
    requires
        v@.len() <= MAX_RESULTS_PER_PROVIDER,
    ensures
        ({
            let outcomes = if failed_first {
                seq![Err(e), Ok(v)]
            } else {
                seq![Ok(v), Err(e)]
            };
            &&& final_results(outcomes, key).len() == v@.len()
            &&& final_results(outcomes, key).to_multiset() == crate::ranking::boost_all(
                v@,
                crate::text::lower_of(key),
            ).to_multiset()
        }),
{
    let outcomes: Seq<Result<Vec<SearchResult>, LauncherError>> = if failed_first {
        seq![Err(e), Ok(v)]
    } else {
        seq![Ok(v), Err(e)]
    };
    let a: Result<Vec<SearchResult>, LauncherError> = if failed_first { Err(e) } else { Ok(v) };
    let b: Result<Vec<SearchResult>, LauncherError> = if failed_first { Ok(v) } else { Err(e) };
    assert(outcomes =~= seq![a] + seq![b]);
    lemma_merged_append(seq![a], seq![b]);
    lemma_merged_one(a);
    lemma_merged_one(b);
    assert(v@.take(v@.len() as int) =~= v@);
    assert(merged(outcomes) =~= v@);
    crate::ranking::law_ranked_sorted(v@, key);
}

/// No provider contributes more than `MAX_RESULTS_PER_PROVIDER` results, so
/// the merged set holds at most that many per outcome.
pub proof fn law_per_provider_cap(outcomes: Seq<Result<Vec<SearchResult>, LauncherError>>)
    ensures
        merged(outcomes).len() <= MAX_RESULTS_PER_PROVIDER * outcomes.len(),
    decreases outcomes.len(),
{
    if outcomes.len() > 0 {
        law_per_provider_cap(outcomes.drop_last());
    }
}

/// A search never answers with more than `MAX_TOTAL_RESULTS` results.
pub proof fn law_global_cap(outcomes: Seq<Result<Vec<SearchResult>, LauncherError>>, key: Seq<char>)
    ensures
        final_results(outcomes, key).len() <= MAX_TOTAL_RESULTS,
{
}

/// A failed provider contributes nothing: the merged results are those of
/// the successful outcomes alone, in order.
pub proof fn law_failure_contributes_nothing(
    before: Seq<Result<Vec<SearchResult>, LauncherError>>,
    e: LauncherError,
    after: Seq<Result<Vec<SearchResult>, LauncherError>>,
)
    ensures
        merged(before + seq![Err(e)] + after) == merged(before + after),
    decreases after.len(),
{
    if after.len() == 0 {
        assert((before + seq![Err(e)] + after).drop_last() =~= before);
        assert(before + after =~= before);
        assert(merged(before) + Seq::<SearchResult>::empty() =~= merged(before));
    } else {
        law_failure_contributes_nothing(before, e, after.drop_last());
        assert((before + seq![Err(e)] + after).drop_last() =~= before + seq![Err(e)] + after.drop_last());
        assert((before + after).drop_last() =~= before + after.drop_last());
    }
}

} // verus!
