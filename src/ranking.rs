use vstd::prelude::*;
use crate::text::{chars_of, contains, lower_of, seq_contains, seq_equal, seq_starts_with, starts_with, to_lower};
use crate::types::SearchResult;

verus! {

/// Bonus for an exact (case-insensitive) title match.
pub const EXACT_BONUS: u64 = 100;

/// Bonus for a title that begins with the query.
pub const PREFIX_BONUS: u64 = 50;

/// Bonus for a title that contains the query.
pub const CONTAINS_BONUS: u64 = 25;

/// The bonus a title earns against a query, both already lower-cased. The
/// three checks are independent, so an exact match earns all three.
pub open spec fn title_bonus(title: Seq<char>, query: Seq<char>) -> int {
    (if title == query { EXACT_BONUS as int } else { 0 }) + (if starts_with(title, query) {
        PREFIX_BONUS as int
    } else {
        0
    }) + (if contains(title, query) { CONTAINS_BONUS as int } else { 0 })
}

/// `s + b`, held at `u64::MAX`.
pub open spec fn add_capped(s: u64, b: int) -> u64 {
    if s + b > u64::MAX {
        u64::MAX
    } else {
        (s + b) as u64
    }
}

/// `r` with the bonus of its title against the lower-cased query `q` added.
pub open spec fn boosted(r: SearchResult, q: Seq<char>) -> SearchResult {
    SearchResult { score: add_capped(r.score, title_bonus(lower_of(r.title@), q)), ..r }
}

/// Every result of `s` boosted against the lower-cased query `q`.
pub open spec fn boost_all(s: Seq<SearchResult>, q: Seq<char>) -> Seq<SearchResult> {
    s.map_values(|r: SearchResult| boosted(r, q))
}

/// `x` placed into `s` after every element with a higher score and before
/// the rest.
pub open spec fn insert_by_score(x: SearchResult, s: Seq<SearchResult>) -> Seq<SearchResult>
    decreases s.len(),
{
    if s.len() == 0 {
        seq![x]
    } else if s[0].score <= x.score {
        seq![x] + s
    } else {
        seq![s[0]] + insert_by_score(x, s.drop_first())
    }
}

/// `s` sorted by descending score; results of equal score keep their order.
pub open spec fn sort_by_score(s: Seq<SearchResult>) -> Seq<SearchResult>
    decreases s.len(),
{
    if s.len() == 0 {
        s
    } else {
        insert_by_score(s[0], sort_by_score(s.drop_first()))
    }
}

/// The ranking of `s` for the query `q`: bonuses against the lower-cased
/// query, then a stable sort by descending score.
pub open spec fn ranked(s: Seq<SearchResult>, q: Seq<char>) -> Seq<SearchResult> {
    sort_by_score(boost_all(s, lower_of(q)))
}

/// Scores never increase along `s`.
pub open spec fn is_sorted_desc(s: Seq<SearchResult>) -> bool {
    forall|i: int, j: int| 0 <= i < j < s.len() ==> s[i].score >= s[j].score
}

/// Inserting into a sorted sequence keeps it sorted and adds one element.
proof fn lemma_insert_sorted(x: SearchResult, s: Seq<SearchResult>)
    requires
        is_sorted_desc(s),
    ensures
        is_sorted_desc(insert_by_score(x, s)),
        insert_by_score(x, s).len() == s.len() + 1,
        insert_by_score(x, s).to_multiset() == s.to_multiset().insert(x),
    decreases s.len(),
{
    broadcast use vstd::seq_lib::group_to_multiset_ensures, vstd::multiset::group_multiset_axioms;

    let t = insert_by_score(x, s);
    if s.len() == 0 {
        assert(t =~= s.push(x));
    } else if s[0].score <= x.score {
        assert forall|i: int, j: int| 0 <= i < j < t.len() implies t[i].score >= t[j].score by {
            if i > 0 {
                assert(t[i] == s[i - 1] && t[j] == s[j - 1]);
            } else {
                assert(t[j] == s[j - 1]);
            }
        }
        assert(t =~= s.insert(0, x));
    } else {
        let rest = s.drop_first();
        assert(is_sorted_desc(rest)) by {
            assert forall|i: int, j: int| 0 <= i < j < rest.len() implies rest[i].score >= rest[j].score by {
                assert(rest[i] == s[i + 1] && rest[j] == s[j + 1]);
            }
        }
        lemma_insert_sorted(x, rest);
        let u = insert_by_score(x, rest);
        assert(t =~= u.insert(0, s[0]));
        assert(s =~= rest.insert(0, s[0]));
        assert forall|i: int, j: int| 0 <= i < j < t.len() implies t[i].score >= t[j].score by {
            if i == 0 {
                let k = j - 1;
                assert(t[j] == u[k]);
                assert(u.contains(u[k]));
                assert(u.to_multiset().count(u[k]) > 0);
                if u[k] != x {
                    assert(rest.to_multiset().count(u[k]) > 0);
                    assert(rest.contains(u[k]));
                    let m = choose|m: int| 0 <= m < rest.len() && rest[m] == u[k];
                    assert(s[m + 1] == rest[m]);
                }
            } else {
                assert(t[i] == u[i - 1] && t[j] == u[j - 1]);
            }
        }
        assert(t.to_multiset() =~= s.to_multiset().insert(x));
    }
}

/// A stable sort by score orders by descending score and keeps exactly the
/// same results.
pub proof fn law_sort_by_score(s: Seq<SearchResult>)
    ensures
        is_sorted_desc(sort_by_score(s)),
        sort_by_score(s).len() == s.len(),
        sort_by_score(s).to_multiset() == s.to_multiset(),
    decreases s.len(),
{
    broadcast use vstd::seq_lib::group_to_multiset_ensures, vstd::multiset::group_multiset_axioms;

    if s.len() > 0 {
        law_sort_by_score(s.drop_first());
        lemma_insert_sorted(s[0], sort_by_score(s.drop_first()));
        assert(s =~= s.drop_first().insert(0, s[0]));
        assert(sort_by_score(s).to_multiset() =~= s.to_multiset());
    } else {
        assert(is_sorted_desc(sort_by_score(s)));
    }
}

/// Ranking keeps every result, boosted, and orders them by descending
/// score.
pub proof fn law_ranked_sorted(s: Seq<SearchResult>, q: Seq<char>)
    ensures
        is_sorted_desc(ranked(s, q)),
        ranked(s, q).len() == s.len(),
        ranked(s, q).to_multiset() == boost_all(s, lower_of(q)).to_multiset(),
{
    law_sort_by_score(boost_all(s, lower_of(q)));
}

/// Inserting before the first element whose score is at most `x`'s is what
/// `insert_by_score` does.
proof fn lemma_insert_at(x: SearchResult, s: Seq<SearchResult>, p: int)
    requires
        0 <= p <= s.len(),
        forall|j: int| 0 <= j < p ==> s[j].score > x.score,
        p < s.len() ==> s[p].score <= x.score,
    ensures
        insert_by_score(x, s) == s.insert(p, x),
    decreases s.len(),
{
    if s.len() == 0 {
        assert(s.insert(p, x) =~= seq![x]);
    } else if p == 0 {
        assert(s.insert(p, x) =~= seq![x] + s);
    } else {
        lemma_insert_at(x, s.drop_first(), p - 1);
        assert(seq![s[0]] + s.drop_first().insert(p - 1, x) =~= s.insert(p, x));
    }
}

/// Inserts `x` into `acc` as `insert_by_score` does.
fn insert_result(acc: &mut Vec<SearchResult>, x: SearchResult)
    ensures
        final(acc)@ == insert_by_score(x, old(acc)@),
{
    let mut p: usize = 0;
    while p < acc.len() && acc[p].score > x.score
        invariant
            p <= acc.len(),
            forall|j: int| 0 <= j < p ==> acc@[j].score > x.score,
        decreases acc.len() - p,
    {
        p = p + 1;
    }
    proof {
        lemma_insert_at(x, acc@, p as int);
    }
    acc.insert(p, x);
}

/// Sorts by descending score, keeping the order of results of equal score.
pub fn stable_sort_by_score(v: Vec<SearchResult>) -> (r: Vec<SearchResult>)
    ensures
        r@ == sort_by_score(v@),
{
    let ghost orig = v@;
    let mut v = v;
    let mut acc: Vec<SearchResult> = Vec::new();
    assert(orig.subrange(orig.len() as int, orig.len() as int) =~= Seq::<SearchResult>::empty());
    while v.len() > 0
        invariant
            v@ == orig.subrange(0, v@.len() as int),
            v@.len() <= orig.len(),
            acc@ == sort_by_score(orig.subrange(v@.len() as int, orig.len() as int)),
        decreases v.len(),
    {
        let x = v.pop().unwrap();
        let k = v.len();
        proof {
            let tail = orig.subrange(k as int, orig.len() as int);
            assert(tail[0] == x);
            assert(tail.drop_first() =~= orig.subrange(k + 1, orig.len() as int));
            assert(v@ =~= orig.subrange(0, k as int));
        }
        insert_result(&mut acc, x);
    }
    assert(orig.subrange(0, orig.len() as int) =~= orig);
    acc
}

/// The bonus a lower-cased title earns against a lower-cased query: 100
/// when equal, plus 50 when the title begins with the query, plus 25 when
/// it contains it.
pub fn title_bonus_for(title_lower: &Vec<char>, query_lower: &Vec<char>) -> (r: u64)
    ensures
        r == title_bonus(title_lower@, query_lower@),
{
    let mut bonus: u64 = 0;
    if seq_equal(title_lower, query_lower) {
        bonus = bonus + EXACT_BONUS;
    }
    if seq_starts_with(title_lower, query_lower) {
        bonus = bonus + PREFIX_BONUS;
    }
    if seq_contains(title_lower, query_lower) {
        bonus = bonus + CONTAINS_BONUS;
    }
    bonus
}

/// Adds to each score the bonus of its title against the lower-cased query,
/// saturating at `u64::MAX`.
pub fn boost_scores(results: &mut Vec<SearchResult>, query_lower: &Vec<char>)
    ensures
        final(results)@ == boost_all(old(results)@, query_lower@),
{
    let ghost orig = results@;
    let mut i: usize = 0;
    while i < results.len()
        invariant
            i <= results.len(),
            results@.len() == orig.len(),
            forall|j: int| 0 <= j < i ==> results@[j] == boosted(orig[j], query_lower@),
            forall|j: int| i <= j < results@.len() ==> results@[j] == orig[j],
        decreases results.len() - i,
    {
        let title = chars_of(to_lower(results[i].title.as_str()).as_str());
        let bonus = title_bonus_for(&title, query_lower);
        let s = results[i].score.saturating_add(bonus);
        results[i].score = s;
        i = i + 1;
    }
    assert(results@ =~= boost_all(orig, query_lower@));
}

/// Ranks results for a query: each score gains 100 for a title equal to the
/// query, 50 for a title that begins with it and 25 for one that contains
/// it (case-insensitively, all that apply), then the results are sorted by
/// descending score, ties keeping their order.
pub fn rank_results(results: Vec<SearchResult>, query: &str) -> (r: Vec<SearchResult>)
    ensures
        r@ == ranked(results@, query@),
{
    let query_lower = chars_of(to_lower(query).as_str());
    let mut results = results;
    boost_scores(&mut results, &query_lower);
    stable_sort_by_score(results)
}

} // verus!
