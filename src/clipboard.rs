use vstd::prelude::*;
use crate::engine::{meta_lookup, meta_text};
use crate::error::{append_str, joined, LauncherError};
use crate::text::{chars_of, contains, lower_of, push_char, seq_contains, starts_with, string_of, to_lower, trim};
use crate::types::{results_view, ActionView, ResultAction, ResultType, ResultView, SearchResult};
use crate::validation::trim_str;

verus! {

/// Most items the history keeps.
pub const MAX_CLIPBOARD_ITEMS: usize = 20;

/// Most UTF-8 bytes of a preview before it is cut.
pub const MAX_PREVIEW_LENGTH: usize = 100;

/// Kinds of clipboard content kept in the history.
#[derive(Debug, Clone, Copy, PartialEq, Eq, Structural)]
pub enum ClipboardContentType {
    Text,
}

/// Where the clipboard history is kept, as a file path.
#[derive(Debug, Clone)]
pub struct ClipboardStorage {
    pub storage_path: String,
}

/// Where the recent-files database is kept, as a file path.
#[derive(Debug, Clone)]
pub struct RecentFilesStorage {
    pub db_path: String,
}

/// The decimal digit of `d`, for `d < 10`.
pub open spec fn digit(d: nat) -> char {
    ((('0' as u32) + d) as u32) as char
}

/// The decimal form of `n`.
pub open spec fn decimal(n: nat) -> Seq<char>
    decreases n,
{
    if n < 10 {
        seq![digit(n)]
    } else {
        decimal(n / 10) + seq![digit(n % 10)]
    }
}

/// The decimal form of a signed `n`.
pub open spec fn signed_decimal(n: int) -> Seq<char> {
    if n < 0 {
        seq!['-'] + decimal((-n) as nat)
    } else {
        decimal(n as nat)
    }
}

/// The decimal form of `n`.
pub fn decimal_string(n: u64) -> (r: String)
    ensures
        r@ == decimal(n as nat),
    decreases n,
{
    let d = (n % 10) as u32;
    let c = (0x30u8 + (d as u8)) as char;
    assert(c == digit((n % 10) as nat));
    if n < 10 {
        let mut s = String::new();
        push_char(&mut s, c);
        assert(s@ =~= seq![c]);
        s
    } else {
        let mut s = decimal_string(n / 10);
        push_char(&mut s, c);
        s
    }
}

/// The decimal form of a signed `n`.
pub fn signed_decimal_string(n: i64) -> (r: String)
    ensures
        r@ == signed_decimal(n as int),
{
    if n < 0 {
        let m = (0i128 - n as i128) as u64;
        let mut s = "-".to_owned();
        proof {
            reveal_strlit("-");
        }
        assert(s@ =~= seq!['-']);
        let digits = decimal_string(m);
        append_str(&mut s, digits.as_str());
        s
    } else {
        decimal_string(n as u64)
    }
}

/// The number of UTF-8 bytes of `c`.
pub open spec fn char_width(c: char) -> nat {
    let u = c as u32;
    if u < 0x80 {
        1
    } else if u < 0x800 {
        2
    } else if u < 0x10000 {
        3
    } else {
        4
    }
}

/// The longest beginning of `s` whose UTF-8 form has at most `n` bytes.
pub open spec fn fit(s: Seq<char>, n: nat) -> Seq<char>
    decreases s.len(),
{
    if s.len() == 0 || char_width(s[0]) > n {
        Seq::empty()
    } else {
        seq![s[0]] + fit(s.drop_first(), (n - char_width(s[0])) as nat)
    }
}

/// The preview of clipboard content: trimmed, and when its UTF-8 form is
/// longer than `MAX_PREVIEW_LENGTH` bytes, its longest beginning that fits,
/// followed by `...`.
pub open spec fn preview_of(content: Seq<char>) -> Seq<char> {
    let t = trim(content);
    let p = fit(t, MAX_PREVIEW_LENGTH as nat);
    if p.len() == t.len() {
        t
    } else {
        p + "..."@
    }
}

/// How long ago `stamp` was at `now`, both in milliseconds: under a minute
/// is "Just now", then whole minutes, hours or days.
pub open spec fn ago_text(now: i64, stamp: i64) -> Seq<char> {
    let d = now - stamp;
    if d < 60_000 {
        "Just now"@
    } else if d < 3_600_000 {
        decimal((d / 60_000) as nat) + " min ago"@
    } else if d < 86_400_000 {
        decimal((d / 3_600_000) as nat) + " hours ago"@
    } else {
        decimal((d / 86_400_000) as nat) + " days ago"@
    }
}

fn width(c: char) -> (r: usize)
    ensures
        r == char_width(c),
{
    let u = c as u32;
    if u < 0x80 {
        1
    } else if u < 0x800 {
        2
    } else if u < 0x10000 {
        3
    } else {
        4
    }
}

/// One copied text.
#[derive(Debug, Clone)]
pub struct ClipboardItem {
    pub id: String,
    pub content: String,
    /// When it was copied, in milliseconds since the Unix epoch.
    pub timestamp: i64,
    pub content_type: ClipboardContentType,
}

impl ClipboardItem {
    /// The item of `content` copied at `now`; its id is `clipboard:` and
    /// the time.
    pub fn new(content: String, now: i64) -> (r: ClipboardItem)
        ensures
            r.id@ == "clipboard:"@ + signed_decimal(now as int),
            r.content == content,
            r.timestamp == now,
            r.content_type == ClipboardContentType::Text,
    {
        let digits = signed_decimal_string(now);
        ClipboardItem {
            id: joined("clipboard:", digits.as_str()),
            content,
            timestamp: now,
            content_type: ClipboardContentType::Text,
        }
    }

    /// The preview of the content; see `preview_of`.
    pub fn preview(&self) -> (r: String)
        ensures
            r@ == preview_of(self.content@),
    {
        let t = trim_str(self.content.as_str());
        let cs = chars_of(t);
        let ghost full = cs@;
        let mut out: Vec<char> = Vec::new();
        let mut budget: usize = MAX_PREVIEW_LENGTH;
        let mut i: usize = 0;
        assert(full.subrange(0, full.len() as int) =~= full);
        assert(out@ + full.subrange(0, full.len() as int) =~= full);
        while i < cs.len() && width(cs[i]) <= budget
            invariant
                i <= cs@.len(),
                full == cs@,
                out@ == full.subrange(0, i as int),
                fit(full, MAX_PREVIEW_LENGTH as nat) == out@ + fit(
                    full.subrange(i as int, full.len() as int),
                    budget as nat,
                ),
            decreases cs.len() - i,
        {
            let ghost rest = full.subrange(i as int, full.len() as int);
            assert(rest.drop_first() =~= full.subrange(i + 1, full.len() as int));
            assert(rest[0] == cs@[i as int]);
            budget = budget - width(cs[i]);
            out.push(cs[i]);
            assert(out@ =~= full.subrange(0, i + 1));
            assert(out@ + fit(full.subrange(i + 1, full.len() as int), budget as nat) =~= full.subrange(0, i as int) + (seq![cs@[i as int]] + fit(rest.drop_first(), budget as nat)));
            i = i + 1;
        }
        proof {
            let rest = full.subrange(i as int, full.len() as int);
            assert(fit(rest, budget as nat) =~= Seq::<char>::empty());
            assert(out@ + Seq::<char>::empty() =~= out@);
        }
        if i == cs.len() {
            proof {
                assert(full.subrange(0, full.len() as int) =~= full);
            }
            return string_of(&cs);
        }
        let mut p = string_of(&out);
        append_str(&mut p, "...");
        p
    }

    /// How long ago the item was copied, at `now`; see `ago_text`.
    pub fn formatted_timestamp(&self, now: i64) -> (r: String)
        ensures
            r@ == ago_text(now, self.timestamp),
    {
        let d: i128 = now as i128 - self.timestamp as i128;
        if d < 60_000 {
            "Just now".to_owned()
        } else if d < 3_600_000 {
            let mut s = decimal_string((d / 60_000) as u64);
            append_str(&mut s, " min ago");
            s
        } else if d < 86_400_000 {
            let mut s = decimal_string((d / 3_600_000) as u64);
            append_str(&mut s, " hours ago");
            s
        } else {
            let mut s = decimal_string((d / 86_400_000) as u64);
            append_str(&mut s, " days ago");
            s
        }
    }
}

/// A score of `base` lowered by two points per position, not below zero.
pub open spec fn position_score(base: u64, i: int) -> u64 {
    if 2 * i >= base {
        0
    } else {
        (base - 2 * i) as u64
    }
}

/// The search result of clipboard item `it` at `score`, at time `now`.
pub open spec fn clip_result_view(it: ClipboardItem, score: u64, now: i64) -> ResultView {
    ResultView {
        id: it.id@,
        title: preview_of(it.content@),
        subtitle: "Copied "@ + ago_text(now, it.timestamp),
        icon: Some("clipboard"@),
        result_type: ResultType::Clipboard,
        score,
        metadata: seq![
            ("content"@, it.content@),
            ("timestamp"@, signed_decimal(it.timestamp as int)),
            ("content_type"@, "Text"@),
        ],
        action: ActionView::CopyToClipboard { content: it.content@ },
    }
}

/// The results of the items whose content contains the lower-cased query
/// `q` (compared without case), newest first, scored 80 less two per
/// position in the history.
pub open spec fn matching_clips(items: Seq<ClipboardItem>, q: Seq<char>, now: i64) -> Seq<ResultView>
    decreases items.len(),
{
    if items.len() == 0 {
        Seq::empty()
    } else {
        let i = items.len() - 1;
        matching_clips(items.drop_last(), q, now) + if contains(lower_of(items[i].content@), q) {
            seq![clip_result_view(items[i], position_score(80, i), now)]
        } else {
            Seq::empty()
        }
    }
}

/// The results of the first `n` items, scored 70 less two per position.
pub open spec fn recent_clips(items: Seq<ClipboardItem>, now: i64) -> Seq<ResultView>
    decreases items.len(),
{
    if items.len() == 0 {
        Seq::empty()
    } else {
        let i = items.len() - 1;
        recent_clips(items.drop_last(), now) + seq![clip_result_view(items[i], position_score(70, i), now)]
    }
}

/// Whether adding `content` to history `h` changes nothing: it repeats the
/// newest item, or is blank.
pub open spec fn add_is_skipped(h: Seq<ClipboardItem>, content: Seq<char>) -> bool {
    (h.len() > 0 && h[0].content@ == content) || trim(content).len() == 0
}

/// The history of copied texts, newest first.
pub struct ClipboardHistory {
    items: Vec<ClipboardItem>,
    max_items: usize,
}

impl ClipboardHistory {
    pub closed spec fn items(&self) -> Seq<ClipboardItem> {
        self.items@
    }

    pub closed spec fn max_items(&self) -> nat {
        self.max_items as nat
    }

    /// An empty history of at most `max_items` items.
    pub fn new(max_items: usize) -> (r: ClipboardHistory)
        ensures
            r.items().len() == 0,
            r.max_items() == max_items,
    {
        ClipboardHistory { items: Vec::new(), max_items }
    }

    /// The items, newest first.
    pub fn list(&self) -> (r: &Vec<ClipboardItem>)
        ensures
            r@ == self.items(),
    {
        &self.items
    }

    /// Records `content`, copied at `now`, as the newest item, dropping the
    /// oldest beyond the limit; a blank text or a repeat of the newest item
    /// is ignored.
    pub fn add_item(&mut self, content: String, now: i64)
        ensures
            final(self).max_items() == old(self).max_items(),
            add_is_skipped(old(self).items(), content@) ==> final(self).items() == old(self).items(),
            !add_is_skipped(old(self).items(), content@) ==> {
                let n = final(self).items().len();
                &&& n == (if old(self).items().len() + 1 <= old(self).max_items() {
                    old(self).items().len() + 1
                } else {
                    old(self).max_items()
                })
                &&& n > 0 ==> final(self).items()[0].content == content
                    && final(self).items()[0].timestamp == now
                    && final(self).items()[0].id@ == "clipboard:"@ + signed_decimal(now as int)
                &&& forall|i: int| 0 < i < n ==> final(self).items()[i] == old(self).items()[i - 1]
            },
    {
        if self.items.len() > 0 && self.items[0].content == content {
            return;
        }
        if crate::engine::is_blank(content.as_str()) {
            return;
        }
        let item = ClipboardItem::new(content, now);
        self.items.insert(0, item);
        self.items.truncate(self.max_items);
    }

    /// The text to put back on the clipboard for `result`: its `content`
    /// metadata, for a clipboard result.
    pub fn content_to_copy(result: &SearchResult) -> (r: Result<String, LauncherError>)
        ensures
            result.result_type != ResultType::Clipboard ==> r is Err && r->Err_0 is ExecutionError
                && r->Err_0->ExecutionError_0@ == "Not a clipboard result"@,
            result.result_type == ResultType::Clipboard ==> match meta_lookup(result@.metadata, "content"@) {
                Some(c) => r is Ok && r->Ok_0@ == c,
                None => r is Err && r->Err_0 is ExecutionError && r->Err_0->ExecutionError_0@
                    == "Invalid clipboard result"@,
            },
    {
        if result.result_type != ResultType::Clipboard {
            return Err(LauncherError::ExecutionError("Not a clipboard result".to_owned()));
        }
        match meta_text(result, "content") {
            Some(c) => Ok(c),
            None => Err(LauncherError::ExecutionError("Invalid clipboard result".to_owned())),
        }
    }

    /// The search result of `item` at `score`, at time `now`.
    pub fn create_search_result(item: &ClipboardItem, score: u64, now: i64) -> (r: SearchResult)
        ensures
            r@ == clip_result_view(*item, score, now),
    {
        let stamp = item.formatted_timestamp(now);
        let r = SearchResult {
            id: item.id.clone(),
            title: item.preview(),
            subtitle: joined("Copied ", stamp.as_str()),
            icon: Some("clipboard".to_owned()),
            result_type: ResultType::Clipboard,
            score,
            metadata: vec![
                ("content".to_owned(), item.content.clone()),
                ("timestamp".to_owned(), signed_decimal_string(item.timestamp)),
                ("content_type".to_owned(), "Text".to_owned()),
            ],
            action: ResultAction::CopyToClipboard { content: item.content.clone() },
        };
        assert(r@.metadata =~= clip_result_view(*item, score, now).metadata);
        r
    }

    /// The items whose content contains `query`, compared without case; see
    /// `matching_clips`.
    pub fn search_history(&self, query: &str, now: i64) -> (r: Vec<SearchResult>)
        ensures
            results_view(r@) == matching_clips(self.items(), lower_of(query@), now),
    {
        let q = chars_of(to_lower(query).as_str());
        let mut r: Vec<SearchResult> = Vec::new();
        let mut i: usize = 0;
        while i < self.items.len()
            invariant
                i <= self.items@.len(),
                q@ == lower_of(query@),
                results_view(r@) == matching_clips(self.items@.subrange(0, i as int), q@, now),
            decreases self.items.len() - i,
        {
            let ghost pre = self.items@.subrange(0, i + 1);
            assert(pre.drop_last() =~= self.items@.subrange(0, i as int));
            let ghost before = r@;
            let content = chars_of(to_lower(self.items[i].content.as_str()).as_str());
            if seq_contains(&content, &q) {
                let score: u64 = if i >= 40 { 0 } else { 80 - 2 * (i as u64) };
                r.push(Self::create_search_result(&self.items[i], score, now));
                assert(results_view(r@) =~= results_view(before) + seq![clip_result_view(self.items@[i as int], score, now)]);
            } else {
                assert(results_view(r@) =~= results_view(before) + Seq::<ResultView>::empty());
            }
            i = i + 1;
        }
        assert(self.items@.subrange(0, self.items@.len() as int) =~= self.items@);
        r
    }

    /// The newest `limit` items; see `recent_clips`.
    pub fn get_recent_items(&self, limit: usize, now: i64) -> (r: Vec<SearchResult>)
        ensures
            results_view(r@) == recent_clips(
                self.items().subrange(0, if limit < self.items().len() { limit as int } else { self.items().len() as int }),
                now,
            ),
    {
        let n = if limit < self.items.len() { limit } else { self.items.len() };
        let mut r: Vec<SearchResult> = Vec::new();
        let mut i: usize = 0;
        while i < n
            invariant
                n <= self.items@.len(),
                i <= n,
                results_view(r@) == recent_clips(self.items@.subrange(0, i as int), now),
            decreases n - i,
        {
            let ghost pre = self.items@.subrange(0, i + 1);
            assert(pre.drop_last() =~= self.items@.subrange(0, i as int));
            let ghost before = r@;
            let score: u64 = if i >= 35 { 0 } else { 70 - 2 * (i as u64) };
            r.push(Self::create_search_result(&self.items[i], score, now));
            assert(results_view(r@) =~= results_view(before) + seq![clip_result_view(self.items@[i as int], score, now)]);
            i = i + 1;
        }
        r
    }

    /// Searches the history: a trimmed query beginning with `clip:` lists
    /// the ten newest items when nothing follows, else the items matching
    /// what follows (trimmed); any other query finds nothing.
    pub fn search(&self, query: &str, now: i64) -> (r: Vec<SearchResult>)
        ensures
            ({
                let t = trim(query@);
                if !starts_with(t, "clip:"@) {
                    r@.len() == 0
                } else {
                    let rest = trim(t.subrange(5, t.len() as int));
                    if rest.len() == 0 {
                        results_view(r@) == recent_clips(
                            self.items().subrange(0, if 10 < self.items().len() { 10 } else { self.items().len() as int }),
                            now,
                        )
                    } else {
                        results_view(r@) == matching_clips(self.items(), lower_of(rest), now)
                    }
                }
            }),
    {
        let t = chars_of(trim_str(query));
        let prefix = chars_of("clip:");
        proof {
            reveal_strlit("clip:");
        }
        if !crate::text::seq_starts_with(&t, &prefix) {
            return Vec::new();
        }
        let mut tail: Vec<char> = Vec::new();
        let mut i: usize = 5;
        while i < t.len()
            invariant
                5 <= i <= t@.len(),
                tail@ == t@.subrange(5, i as int),
            decreases t.len() - i,
        {
            tail.push(t[i]);
            assert(tail@ =~= t@.subrange(5, i + 1));
            i = i + 1;
        }
        let tail_text = string_of(&tail);
        let rest = trim_str(tail_text.as_str());
        if rest.is_empty() {
            self.get_recent_items(10, now)
        } else {
            self.search_history(rest, now)
        }
    }
}

} // verus!
