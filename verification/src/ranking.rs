//! Ranking candidates against a query and ordering the matches.
//!
//! The scores come from the `sublime_fuzzy` crate, where a better match
//! scores higher. The library's rank is the negated score, so that a lower
//! rank is a better match. Matches are shown by ascending rank, and matches
//! of equal rank keep the order in which the collection holds them.

use vstd::prelude::*;

verus! {

/// The verdict of `sublime_fuzzy::best_match` on `query` and `target`: `None`
/// when it finds no match, otherwise the score of the match it returns.
pub uninterp spec fn fuzzy_score(query: Seq<char>, target: Seq<char>) -> Option<int>;

/// An executable score as a mathematical one.
pub open spec fn lift(score: Option<isize>) -> Option<int> {
    match score {
        Some(s) => Some(s as int),
        None => None,
    }
}

/// A vector of executable scores as a sequence of mathematical ones.
pub open spec fn lifted(scores: Seq<Option<isize>>) -> Seq<Option<int>> {
    scores.map_values(|s: Option<isize>| lift(s))
}

/// A vector of positions as a sequence of integers.
pub open spec fn positions(view: Seq<usize>) -> Seq<int> {
    view.map_values(|p: usize| p as int)
}

/// Scores `target` against `query` with `sublime_fuzzy::best_match` and reads
/// the score of the match with `sublime_fuzzy::Match::score`.
///
/// Trusted: the search is a function of its two arguments (it matches case
/// insensitively, skips white space in the query, and keeps the best of all
/// alignments), so the contract only gives its verdict a name. The search
/// reserves a cache of the query's length squared and recurses once per
/// query character, so its memory and stack grow with the query.
#[verifier::external_body]
fn best_score(query: &str, target: &str) -> (r: Option<isize>)
    ensures
        lift(r) == fuzzy_score(query@, target@),
{
    match sublime_fuzzy::best_match(query, target) {
        Some(m) => Some(m.score()),
        None => None,
    }
}

/// The rank that a verdict of the fuzzy search stands for: no rank where
/// there is no match, otherwise the negated score, so that the better match
/// has the lower rank. The lowest score of all has no negation and takes
/// the highest rank.
pub open spec fn rank_of(verdict: Option<int>) -> Option<int> {
    match verdict {
        Some(s) => Some(
            if s <= isize::MIN {
                isize::MAX as int
            } else {
                -s
            },
        ),
        None => None,
    }
}

/// The rank of `candidate` under `query`: `None` where the fuzzy search
/// finds no match, otherwise the rank of its best match. Lower is better:
/// of two candidates the one with the lower rank is shown first.
pub fn score(query: &str, candidate: &str) -> (r: Option<isize>)
    ensures
        lift(r) == rank_of(fuzzy_score(query@, candidate@)),
{
    match best_score(query, candidate) {
        Some(s) => {
            if s == isize::MIN {
                Some(isize::MAX)
            } else {
                Some(0 - s)
            }
        },
        None => None,
    }
}

/// Whether the characters of `needle` occur in `text` in their order, not
/// necessarily side by side.
pub open spec fn is_subsequence(needle: Seq<char>, text: Seq<char>) -> bool
    decreases needle.len() + text.len(),
{
    if needle.len() == 0 {
        true
    } else if text.len() == 0 {
        false
    } else if needle[0] == text[0] {
        is_subsequence(needle.skip(1), text.skip(1))
    } else {
        is_subsequence(needle, text.skip(1))
    }
}

/// Whether the fuzzy search finds `query` in `target` exactly when the
/// characters of `query` occur in `target` in their order.
pub open spec fn search_is_literal(query: Seq<char>, target: Seq<char>) -> bool {
    fuzzy_score(query, target) is Some <==> is_subsequence(query, target)
}

/// Tells whether the characters of `needle` occur in `text` in their order.
pub fn holds_in_order(needle: &str, text: &str) -> (r: bool)
    ensures
        r == is_subsequence(needle@, text@),
{
    let n: usize = needle.unicode_len();
    let m: usize = text.unicode_len();
    let mut i: usize = 0;
    let mut j: usize = 0;
    proof {
        assert(needle@.skip(0) =~= needle@);
        assert(text@.skip(0) =~= text@);
    }
    while i < n && j < m
        invariant
            n == needle@.len(),
            m == text@.len(),
            i <= n,
            j <= m,
            is_subsequence(needle@, text@) == is_subsequence(
                needle@.skip(i as int),
                text@.skip(j as int),
            ),
        decreases m - j,
    {
        proof {
            assert(needle@.skip(i as int).skip(1) =~= needle@.skip(i + 1));
            assert(text@.skip(j as int).skip(1) =~= text@.skip(j + 1));
        }
        if needle.get_char(i) == text.get_char(j) {
            i = i + 1;
        }
        j = j + 1;
    }
    i == n
}

/// Tells whether the fuzzy search is literal on `query` and `target`: it
/// runs the search, looks for the characters of `query` in `target`, and
/// compares the two answers.
pub fn is_literal_search(query: &str, target: &str) -> (r: bool)
    ensures
        r == search_is_literal(query@, target@),
{
    let found: bool = score(query, target).is_some();
    let held: bool = holds_in_order(query, target);
    found == held
}

/// Position `a` is shown before position `b`: its score is lower, or the
/// scores are equal and `a` comes first in the collection.
pub open spec fn precedes(scores: Seq<Option<int>>, a: int, b: int) -> bool {
    scores[a]->0 < scores[b]->0 || (scores[a]->0 == scores[b]->0 && a < b)
}

/// `view` lists exactly the scored positions below `n`, each once, in
/// display order.
pub open spec fn ranks_prefix(view: Seq<int>, scores: Seq<Option<int>>, n: int) -> bool {
    &&& forall|k: int| 0 <= k < view.len() ==> 0 <= #[trigger] view[k] < n && scores[view[k]] is Some
    &&& forall|p: int| 0 <= p < n && (#[trigger] scores[p]) is Some ==> view.contains(p)
    &&& forall|j: int, k: int|
        0 <= j < k < view.len() ==> precedes(scores, #[trigger] view[j], #[trigger] view[k])
}

/// `view` is the ranking of `scores`: the positions that have a score, each
/// once, by ascending score, equal scores in collection order.
pub open spec fn is_ranking(view: Seq<int>, scores: Seq<Option<int>>) -> bool {
    ranks_prefix(view, scores, scores.len() as int)
}

/// A position without a score leaves the ranking of the positions before it
/// as it is.
proof fn lemma_skip_unscored(view: Seq<int>, scores: Seq<Option<int>>, n: int)
    requires
        ranks_prefix(view, scores, n),
        0 <= n < scores.len(),
        scores[n] is None,
    ensures
        ranks_prefix(view, scores, n + 1),
{
}

/// Putting position `n` behind the entries that score no higher and before
/// those that score higher extends a ranking by one position.
proof fn lemma_insert_scored(view: Seq<int>, scores: Seq<Option<int>>, n: int, j: int)
    requires
        ranks_prefix(view, scores, n),
        0 <= n < scores.len(),
        scores[n] is Some,
        0 <= j <= view.len(),
        j > 0 ==> scores[view[j - 1]]->0 <= scores[n]->0,
        forall|k: int| j <= k < view.len() ==> scores[#[trigger] view[k]]->0 > scores[n]->0,
    ensures
        ranks_prefix(view.insert(j, n), scores, n + 1),
{
    let next = view.insert(j, n);
    view.insert_ensures(j, n);
    assert forall|k: int| 0 <= k < next.len() implies 0 <= #[trigger] next[k] < n + 1
        && scores[next[k]] is Some by {
        if k < j {
            assert(next[k] == view[k]);
        } else if k > j {
            assert(next[k] == view[k - 1]);
        }
    }
    assert forall|p: int| 0 <= p < n + 1 && (#[trigger] scores[p]) is Some implies next.contains(
        p,
    ) by {
        if p == n {
            assert(next[j] == p);
        } else {
            assert(view.contains(p));
            let i: int = choose|i: int| 0 <= i < view.len() && view[i] == p;
            if i < j {
                assert(next[i] == p);
            } else {
                assert(next[i + 1] == p);
            }
        }
    }
    assert forall|a: int, b: int| 0 <= a < b < next.len() implies precedes(
        scores,
        #[trigger] next[a],
        #[trigger] next[b],
    ) by {
        if b < j {
            assert(next[a] == view[a] && next[b] == view[b]);
        } else if b == j {
            assert(next[a] == view[a]);
            if a < j - 1 {
                assert(precedes(scores, view[a], view[j - 1]));
            }
        } else if a < j {
            assert(next[a] == view[a] && next[b] == view[b - 1]);
        } else if a == j {
            assert(next[b] == view[b - 1]);
        } else {
            assert(next[a] == view[a - 1] && next[b] == view[b - 1]);
        }
    }
}

/// The score at a scored position.
fn score_at(scores: &Vec<Option<isize>>, p: usize) -> (s: isize)
    requires
        p < scores.len(),
        scores[p as int] is Some,
    ensures
        Some(s) == scores[p as int],
{
    match scores[p] {
        Some(s) => s,
        None => 0,
    }
}

/// Orders the scored positions of `scores` for display: ascending by score,
/// and where two scores are equal, the earlier position first. Positions
/// whose score is `None` are left out.
pub fn rank_by_score(scores: &Vec<Option<isize>>) -> (view: Vec<usize>)
    ensures
        is_ranking(positions(view@), lifted(scores@)),
{
    let mut view: Vec<usize> = Vec::new();
    let mut p: usize = 0;
    while p < scores.len()
        invariant
            p <= scores.len(),
            ranks_prefix(positions(view@), lifted(scores@), p as int),
            forall|k: int|
                0 <= k < view.len() ==> (#[trigger] view@[k]) < p && scores@[view@[k] as int] is Some,
        decreases scores.len() - p,
    {
        match scores[p] {
            Some(s) => {
                let mut j: usize = view.len();
                while j > 0 && score_at(scores, view[j - 1]) > s
                    invariant
                        p < scores.len(),
                        j <= view.len(),
                        ranks_prefix(positions(view@), lifted(scores@), p as int),
                        forall|k: int|
                            0 <= k < view.len() ==> (#[trigger] view@[k]) < p
                                && scores@[view@[k] as int] is Some,
                        forall|k: int|
                            j <= k < view.len() ==> lifted(scores@)[#[trigger] positions(
                                view@,
                            )[k]]->0 > s,
                    decreases j,
                {
                    j = j - 1;
                }
                proof {
                    lemma_insert_scored(positions(view@), lifted(scores@), p as int, j as int);
                    assert(positions(view@.insert(j as int, p)) =~= positions(view@).insert(
                        j as int,
                        p as int,
                    ));
                    view@.insert_ensures(j as int, p);
                }
                view.insert(j, p);
            },
            None => {
                proof {
                    lemma_skip_unscored(positions(view@), lifted(scores@), p as int);
                }
            },
        }
        p = p + 1;
    }
    view
}

/// No position occurs twice in a ranking.
pub proof fn lemma_ranking_distinct(view: Seq<int>, scores: Seq<Option<int>>)
    requires
        is_ranking(view, scores),
    ensures
        view.no_duplicates(),
{
    assert forall|i: int, j: int| 0 <= i < view.len() && 0 <= j < view.len() && i != j implies view[i]
        != view[j] by {
        if i < j {
            assert(precedes(scores, view[i], view[j]));
        } else {
            assert(precedes(scores, view[j], view[i]));
        }
    }
}

/// Two rankings of the same scores agree on their first `k` entries.
proof fn lemma_rankings_agree(a: Seq<int>, b: Seq<int>, scores: Seq<Option<int>>, k: int)
    requires
        is_ranking(a, scores),
        is_ranking(b, scores),
        0 <= k <= a.len(),
        0 <= k <= b.len(),
    ensures
        forall|i: int| 0 <= i < k ==> a[i] == b[i],
    decreases k,
{
    if k > 0 {
        lemma_rankings_agree(a, b, scores, k - 1);
        lemma_ranking_distinct(a, scores);
        lemma_ranking_distinct(b, scores);
        let x: int = a[k - 1];
        let y: int = b[k - 1];
        assert(scores[x] is Some);
        assert(scores[y] is Some);
        assert(b.contains(x));
        assert(a.contains(y));
        let m: int = choose|m: int| 0 <= m < b.len() && b[m] == x;
        let n: int = choose|n: int| 0 <= n < a.len() && a[n] == y;
        if m < k - 1 {
            assert(a[m] == b[m]);
        }
        if n < k - 1 {
            assert(b[n] == a[n]);
        }
        if m > k - 1 && n > k - 1 {
            assert(precedes(scores, b[k - 1], b[m]));
            assert(precedes(scores, a[k - 1], a[n]));
        }
    }
}

/// The scores decide the ranking: any two rankings of the same scores are the
/// same sequence.
pub proof fn lemma_ranking_unique(a: Seq<int>, b: Seq<int>, scores: Seq<Option<int>>)
    requires
        is_ranking(a, scores),
        is_ranking(b, scores),
    ensures
        a == b,
{
    lemma_ranking_distinct(a, scores);
    lemma_ranking_distinct(b, scores);
    assert(a.to_set() =~= b.to_set()) by {
        assert forall|p: int| a.to_set().contains(p) <==> b.to_set().contains(p) by {
            if a.contains(p) {
                let i: int = choose|i: int| 0 <= i < a.len() && a[i] == p;
                assert(scores[a[i]] is Some);
                assert(b.contains(p));
            }
            if b.contains(p) {
                let i: int = choose|i: int| 0 <= i < b.len() && b[i] == p;
                assert(scores[b[i]] is Some);
                assert(a.contains(p));
            }
        }
    }
    a.unique_seq_to_set();
    b.unique_seq_to_set();
    lemma_rankings_agree(a, b, scores, a.len() as int);
    assert(a =~= b);
}

/// Where every position has the same score, the ranking is the collection's
/// own order.
pub proof fn lemma_ranking_of_equal_scores(view: Seq<int>, scores: Seq<Option<int>>, score: int)
    requires
        is_ranking(view, scores),
        forall|p: int| 0 <= p < scores.len() ==> scores[p] == Some(score),
    ensures
        view == Seq::new(scores.len(), |p: int| p),
{
    let same = Seq::new(scores.len(), |p: int| p);
    assert forall|p: int| 0 <= p < scores.len() && (#[trigger] scores[p]) is Some implies same.contains(
        p,
    ) by {
        assert(same[p] == p);
    }
    assert(is_ranking(same, scores));
    lemma_ranking_unique(view, same, scores);
}

} // verus!
