//! The selection list: the bookmark collection, the query, the filtered and
//! ranked view over the collection, and the cursor into that view.
//!
//! The view holds positions into the collection. It is recomputed whenever
//! the query or the collection changes, and the cursor is `None` exactly when
//! the view is empty.

use crate::models::bookmarks::{views_of, Bookmark, BookmarkView};
use crate::ranking::{
    fuzzy_score, is_literal_search, is_ranking, is_subsequence, lemma_ranking_of_equal_scores,
    lemma_ranking_unique, lift, lifted, positions, precedes, rank_by_score, rank_of, score,
    search_is_literal,
};
use vstd::prelude::*;

verus! {

/// The rank of every bookmark of `collection` under `query`: lower is
/// better, and `None` is no match. With an empty query nothing is ranked:
/// every bookmark counts as a match of rank 0.
pub open spec fn scores_for(collection: Seq<BookmarkView>, query: Seq<char>) -> Seq<Option<int>> {
    Seq::new(
        collection.len(),
        |p: int|
            if query.len() == 0 {
                Some(0int)
            } else {
                rank_of(fuzzy_score(query, collection[p].url))
            },
    )
}

/// Where the cursor stands after the view was recomputed: on the first row,
/// or nowhere if there is none.
pub open spec fn first_row(len: int) -> Option<int> {
    if len <= 0 {
        None
    } else {
        Some(0int)
    }
}

/// The cursor one row up in a view of `len` rows, wrapping from the first
/// row to the last.
pub open spec fn cursor_up(cursor: Option<int>, len: int) -> Option<int> {
    if len <= 0 {
        None
    } else {
        match cursor {
            Some(i) => if i == 0 {
                Some(len - 1)
            } else {
                Some(i - 1)
            },
            None => Some(0int),
        }
    }
}

/// The cursor one row down in a view of `len` rows, wrapping from the last
/// row to the first.
pub open spec fn cursor_down(cursor: Option<int>, len: int) -> Option<int> {
    if len <= 0 {
        None
    } else {
        match cursor {
            Some(i) => if i >= len - 1 {
                Some(0int)
            } else {
                Some(i + 1)
            },
            None => Some(0int),
        }
    }
}

/// A position of the collection after the bookmark at `removed` left it.
pub open spec fn shifted(position: int, removed: int) -> int {
    if position > removed {
        position - 1
    } else {
        position
    }
}

/// The value of a selection list.
pub struct ListView {
    /// The bookmarks, in insertion order.
    pub collection: Seq<BookmarkView>,
    /// The query the view was computed for.
    pub query: Seq<char>,
    /// The positions of the shown bookmarks, in display order.
    pub view: Seq<int>,
    /// The selected row of the view, if any.
    pub cursor: Option<int>,
}

impl ListView {
    /// The ranks that the view is ordered by; lower is better.
    pub open spec fn scores(self) -> Seq<Option<int>> {
        scores_for(self.collection, self.query)
    }

    /// The view is the ranking of the collection under the query, and the
    /// cursor is a row of the view, or `None` exactly when there is no row.
    pub open spec fn wf(self) -> bool {
        &&& is_ranking(self.view, self.scores())
        &&& self.cursor is None <==> self.view.len() == 0
        &&& self.cursor is Some ==> 0 <= self.cursor->0 < self.view.len()
    }

    /// The shown bookmarks, in display order.
    pub open spec fn rows(self) -> Seq<BookmarkView> {
        self.view.map_values(|p: int| self.collection[p])
    }

    /// The bookmark under the cursor.
    pub open spec fn selected(self) -> Option<BookmarkView> {
        match self.cursor {
            Some(c) => Some(self.collection[self.view[c]]),
            None => None,
        }
    }

    /// This is the list as it stands right after its view was computed for
    /// `collection` and `query`: the cursor is on the first row.
    pub open spec fn is_fresh(self, collection: Seq<BookmarkView>, query: Seq<char>) -> bool {
        &&& self.wf()
        &&& self.collection == collection
        &&& self.query == query
        &&& self.cursor == first_row(self.view.len() as int)
    }

    /// This is the list as it stands after the selected bookmark of `before`
    /// was deleted in the store and the store's bookmarks `collection` were
    /// taken in: the view is recomputed for the query in force, and the
    /// cursor, kept on its row, goes on as in a move down over the new view.
    /// Where nothing was selected, the cursor is on the first row.
    pub open spec fn follows_deletion(self, before: ListView, collection: Seq<BookmarkView>) -> bool {
        &&& self.wf()
        &&& self.collection == collection
        &&& self.query == before.query
        &&& self.cursor == (match before.cursor {
            Some(c) => cursor_down(Some(c), self.view.len() as int),
            None => first_row(self.view.len() as int),
        })
    }

    /// The list with the cursor one row up.
    pub open spec fn moved_up(self) -> ListView {
        ListView { cursor: cursor_up(self.cursor, self.view.len() as int), ..self }
    }

    /// The list with the cursor one row down.
    pub open spec fn moved_down(self) -> ListView {
        ListView { cursor: cursor_down(self.cursor, self.view.len() as int), ..self }
    }

    /// The list after `steps` moves down.
    pub open spec fn moved_down_by(self, steps: nat) -> ListView
        decreases steps,
    {
        if steps == 0 {
            self
        } else {
            self.moved_down_by((steps - 1) as nat).moved_down()
        }
    }

    /// The list without the selected bookmark: it leaves the collection and
    /// the view, the positions behind it move up by one, and the cursor goes
    /// on as in a move down over the rows that are left. Without a selection
    /// nothing changes.
    pub open spec fn without_selected(self) -> ListView {
        match self.cursor {
            Some(c) => {
                let p: int = self.view[c];
                ListView {
                    collection: self.collection.remove(p),
                    query: self.query,
                    view: self.view.remove(c).map_values(|e: int| shifted(e, p)),
                    cursor: cursor_down(Some(c), self.view.len() - 1),
                }
            },
            None => self,
        }
    }
}

/// The collection, the query, the view and the cursor.
///
/// The list finds a bookmark by its position, never by its identifier, so it
/// asks nothing of the identifiers: that they are unique is the store's word.
pub struct SelectionList {
    collection: Vec<Bookmark>,
    query: String,
    view: Vec<usize>,
    cursor: Option<usize>,
}

impl View for SelectionList {
    type V = ListView;

    closed spec fn view(&self) -> ListView {
        ListView {
            collection: views_of(self.collection@),
            query: self.query@,
            view: positions(self.view@),
            cursor: match self.cursor {
                Some(c) => Some(c as int),
                None => None,
            },
        }
    }
}

impl SelectionList {
    /// Every selection list is well formed, at every moment.
    #[verifier::type_invariant]
    pub closed spec fn inv(self) -> bool {
        self@.wf()
    }

    /// What the type's invariant says of the list's value.
    pub proof fn lemma_inv(self)
        requires
            self.inv(),
        ensures
            self@.wf(),
    {
    }

    /// The list over no bookmarks, with an empty query.
    pub fn empty() -> (list: SelectionList)
        ensures
            list@.is_fresh(Seq::empty(), Seq::empty()),
    {
        let list = SelectionList {
            collection: Vec::new(),
            query: String::new(),
            view: Vec::new(),
            cursor: None,
        };
        assert(list@.collection =~= Seq::empty());
        assert(list@.view =~= Seq::empty());
        list
    }

    /// Scores every bookmark of `collection` against `query`, ranks the
    /// matches and puts the cursor on the first row.
    fn ranked(collection: Vec<Bookmark>, query: String) -> (list: SelectionList)
        ensures
            list@.is_fresh(views_of(collection@), query@),
    {
        let unscored = query.as_str().is_empty();
        let mut scores: Vec<Option<isize>> = Vec::new();
        let mut i: usize = 0;
        while i < collection.len()
            invariant
                i <= collection.len(),
                scores.len() == i,
                unscored <==> query@.len() == 0,
                forall|k: int|
                    0 <= k < i ==> lift(#[trigger] scores@[k]) == scores_for(
                        views_of(collection@),
                        query@,
                    )[k],
            decreases collection.len() - i,
        {
            let rank: Option<isize> = if unscored {
                Some(0isize)
            } else {
                score(query.as_str(), collection[i].url.as_str())
            };
            scores.push(rank);
            i = i + 1;
        }
        assert(lifted(scores@) =~= scores_for(views_of(collection@), query@));
        let view = rank_by_score(&scores);
        let cursor: Option<usize> = if view.len() == 0 {
            None
        } else {
            Some(0usize)
        };
        SelectionList { collection, query, view, cursor }
    }

    /// The list over `collection` with an empty query: every bookmark is
    /// shown, in the collection's order, and the first one is selected.
    pub fn new(collection: Vec<Bookmark>) -> (list: SelectionList)
        ensures
            list@.is_fresh(views_of(collection@), Seq::empty()),
    {
        SelectionList::ranked(collection, String::new())
    }

    /// Stores `query`, recomputes the view for it and puts the cursor on the
    /// first row. The collection stays.
    pub fn set_query(&mut self, query: String)
        ensures
            final(self)@.is_fresh(old(self)@.collection, query@),
    {
        let mut prev = SelectionList::empty();
        core::mem::swap(self, &mut prev);
        let SelectionList { collection, .. } = prev;
        *self = SelectionList::ranked(collection, query);
    }

    /// Takes `collection` as the new collection and recomputes the view for
    /// the query that is in force.
    pub fn replace_collection(&mut self, collection: Vec<Bookmark>)
        ensures
            final(self)@.is_fresh(views_of(collection@), old(self)@.query),
    {
        let mut prev = SelectionList::empty();
        core::mem::swap(self, &mut prev);
        let SelectionList { query, .. } = prev;
        *self = SelectionList::ranked(collection, query);
    }

    /// Appends `bookmark` to the collection and recomputes the view for the
    /// query that is in force.
    pub fn add(&mut self, bookmark: Bookmark)
        ensures
            final(self)@.is_fresh(old(self)@.collection.push(bookmark@), old(self)@.query),
    {
        let mut prev = SelectionList::empty();
        core::mem::swap(self, &mut prev);
        let SelectionList { mut collection, query, .. } = prev;
        collection.push(bookmark);
        assert(views_of(collection@) =~= prev@.collection.push(bookmark@));
        *self = SelectionList::ranked(collection, query);
    }

    /// Takes `collection` as the new collection after the selected bookmark
    /// was deleted in the store: the view is recomputed for the query in
    /// force, and the cursor goes on from its row as in a move down, so that
    /// it wraps to the first row from the end and is `None` where no row is
    /// left.
    pub fn replace_after_delete(&mut self, collection: Vec<Bookmark>)
        ensures
            final(self)@.follows_deletion(old(self)@, views_of(collection@)),
    {
        let mut prev = SelectionList::empty();
        core::mem::swap(self, &mut prev);
        let SelectionList { query, cursor, .. } = prev;
        let mut list = SelectionList::ranked(collection, query);
        let len: usize = list.view.len();
        let next: Option<usize> = if len == 0 {
            None
        } else {
            match cursor {
                Some(c) => if c >= len - 1 {
                    Some(0usize)
                } else {
                    Some(c + 1)
                },
                None => Some(0usize),
            }
        };
        list.cursor = next;
        *self = list;
    }

    /// Tells whether the fuzzy search is literal on every URL of the
    /// collection under the query in force. Where it is, and the query is
    /// not empty, the view shows exactly the bookmarks whose URL holds the
    /// characters of the query in their order.
    pub fn is_literal(&self) -> (r: bool)
        ensures
            self@.wf(),
            r == (forall|p: int|
                0 <= p < self@.collection.len() ==> search_is_literal(
                    self@.query,
                    (#[trigger] self@.collection[p]).url,
                )),
            r && self@.query.len() > 0 ==> (forall|p: int|
                0 <= p < self@.collection.len() ==> (self@.view.contains(p) <==> is_subsequence(
                    self@.query,
                    (#[trigger] self@.collection[p]).url,
                ))),
    {
        proof {
            use_type_invariant(self);
        }
        let mut i: usize = 0;
        while i < self.collection.len()
            invariant
                self@.wf(),
                i <= self.collection.len(),
                forall|p: int|
                    0 <= p < i ==> search_is_literal(
                        self@.query,
                        (#[trigger] self@.collection[p]).url,
                    ),
            decreases self.collection.len() - i,
        {
            if !is_literal_search(self.query.as_str(), self.collection[i].url.as_str()) {
                assert(!search_is_literal(self@.query, self@.collection[i as int].url));
                return false;
            }
            i = i + 1;
        }
        proof {
            if self@.query.len() > 0 {
                assert forall|p: int| 0 <= p < self@.collection.len() implies (self@.view.contains(
                    p,
                ) <==> is_subsequence(self@.query, (#[trigger] self@.collection[p]).url)) by {
                    lemma_view_holds_the_subsequences(self@, p);
                }
            }
        }
        true
    }

    /// Moves the cursor one row up; from the first row it goes to the last.
    /// With an empty view nothing changes.
    pub fn move_up(&mut self)
        ensures
            final(self)@ == old(self)@.moved_up(),
            final(self)@.wf(),
    {
        proof {
            use_type_invariant(&*self);
        }
        let len: usize = self.view.len();
        let next: Option<usize> = if len == 0 {
            None
        } else {
            match self.cursor {
                Some(i) => if i == 0 {
                    Some(len - 1)
                } else {
                    Some(i - 1)
                },
                None => Some(0usize),
            }
        };
        self.cursor = next;
    }

    /// Moves the cursor one row down; from the last row it goes to the
    /// first. With an empty view nothing changes.
    pub fn move_down(&mut self)
        ensures
            final(self)@ == old(self)@.moved_down(),
            final(self)@.wf(),
    {
        proof {
            use_type_invariant(&*self);
        }
        let len: usize = self.view.len();
        let next: Option<usize> = if len == 0 {
            None
        } else {
            match self.cursor {
                Some(i) => if i >= len - 1 {
                    Some(0usize)
                } else {
                    Some(i + 1)
                },
                None => Some(0usize),
            }
        };
        self.cursor = next;
    }

    /// The bookmark under the cursor, or `None` where nothing is selected.
    pub fn selected(&self) -> (r: Option<&Bookmark>)
        ensures
            self@.wf(),
            (match r {
                Some(b) => self@.selected() == Some(b@),
                None => self@.selected() is None,
            }),
    {
        proof {
            use_type_invariant(self);
        }
        match self.cursor {
            Some(c) => {
                let p: usize = self.view[c];
                assert(positions(self.view@)[c as int] == p);
                Some(&self.collection[p])
            },
            None => None,
        }
    }

    /// Removes the selected bookmark from the collection and from the view
    /// and moves the cursor on. With nothing selected nothing changes.
    pub fn delete_selected(&mut self)
        ensures
            final(self)@ == old(self)@.without_selected(),
            final(self)@.wf(),
    {
        proof {
            use_type_invariant(&*self);
        }
        match self.cursor {
            Some(c) => {
                let mut prev = SelectionList::empty();
                core::mem::swap(self, &mut prev);
                let ghost before = prev@;
                let SelectionList { mut collection, query, mut view, .. } = prev;
                let p: usize = view.remove(c);
                collection.remove(p);
                let mut k: usize = 0;
                while k < view.len()
                    invariant
                        k <= view.len(),
                        view.len() == before.view.len() - 1,
                        forall|i: int|
                            0 <= i < k ==> (#[trigger] view@[i]) as int == shifted(
                                before.view.remove(c as int)[i],
                                p as int,
                            ),
                        forall|i: int|
                            k <= i < view.len() ==> (#[trigger] view@[i]) as int
                                == before.view.remove(c as int)[i],
                    decreases view.len() - k,
                {
                    let e: usize = view[k];
                    if e > p {
                        view[k] = e - 1;
                    }
                    k = k + 1;
                }
                let len: usize = view.len();
                let cursor: Option<usize> = if len == 0 {
                    None
                } else if c >= len - 1 {
                    Some(0usize)
                } else {
                    Some(c + 1)
                };
                proof {
                    lemma_without_selected_wf(before);
                    assert(views_of(collection@) =~= before.collection.remove(p as int));
                    assert(positions(view@) =~= before.without_selected().view);
                }
                *self = SelectionList { collection, query, view, cursor };
            },
            None => {},
        }
    }

    /// The query that the view was computed for.
    pub fn query(&self) -> (r: &String)
        ensures
            r@ == self@.query,
    {
        &self.query
    }

    /// The selected row of the view, if any.
    pub fn cursor(&self) -> (r: Option<usize>)
        ensures
            self@.wf(),
            (match r {
                Some(c) => self@.cursor == Some(c as int),
                None => self@.cursor is None,
            }),
    {
        proof {
            use_type_invariant(self);
        }
        self.cursor
    }

    /// The number of rows of the view.
    pub fn len(&self) -> (n: usize)
        ensures
            n == self@.view.len(),
    {
        self.view.len()
    }

    /// The number of bookmarks of the collection.
    pub fn total(&self) -> (n: usize)
        ensures
            n == self@.collection.len(),
    {
        self.collection.len()
    }

    /// The bookmarks of the collection, in insertion order.
    pub fn bookmarks(&self) -> (r: &Vec<Bookmark>)
        ensures
            views_of(r@) == self@.collection,
    {
        &self.collection
    }

    /// The positions of the shown bookmarks, in display order.
    pub fn order(&self) -> (r: &Vec<usize>)
        ensures
            positions(r@) == self@.view,
    {
        &self.view
    }

    /// The bookmark shown in row `row` of the view, or `None` where the view
    /// has no such row.
    pub fn row(&self, row: usize) -> (r: Option<&Bookmark>)
        ensures
            self@.wf(),
            (match r {
                Some(b) => row < self@.view.len() && b@ == self@.rows()[row as int],
                None => row >= self@.view.len(),
            }),
    {
        proof {
            use_type_invariant(self);
        }
        if row < self.view.len() {
            let p: usize = self.view[row];
            assert(positions(self.view@)[row as int] == p);
            Some(&self.collection[p])
        } else {
            None
        }
    }
}

/// Moving the cursor keeps a list well formed.
pub proof fn lemma_moves_keep_wf(list: ListView)
    requires
        list.wf(),
    ensures
        list.moved_up().wf(),
        list.moved_down().wf(),
{
}

/// A ranking without one of its rows, with the positions behind the removed
/// one moved up, is the ranking of the scores without that position.
proof fn lemma_ranking_without(view: Seq<int>, scores: Seq<Option<int>>, c: int)
    requires
        is_ranking(view, scores),
        0 <= c < view.len(),
    ensures
        is_ranking(
            view.remove(c).map_values(|e: int| shifted(e, view[c])),
            scores.remove(view[c]),
        ),
{
    let p: int = view[c];
    let cut = view.remove(c);
    let next = cut.map_values(|e: int| shifted(e, p));
    let rest = scores.remove(p);
    assert forall|k: int| 0 <= k < next.len() implies 0 <= #[trigger] next[k] < rest.len()
        && rest[next[k]] is Some by {
        let e: int = cut[k];
        if k < c {
            assert(e == view[k]);
            assert(precedes(scores, view[k], view[c]));
        } else {
            assert(e == view[k + 1]);
            assert(precedes(scores, view[c], view[k + 1]));
        }
        assert(scores[e] is Some);
    }
    assert forall|q: int| 0 <= q < rest.len() && (#[trigger] rest[q]) is Some implies next.contains(
        q,
    ) by {
        let e: int = if q >= p {
            q + 1
        } else {
            q
        };
        assert(scores[e] is Some);
        assert(view.contains(e));
        let i: int = choose|i: int| 0 <= i < view.len() && view[i] == e;
        if i < c {
            assert(next[i] == q);
        } else {
            assert(next[i - 1] == q);
        }
    }
    assert forall|j: int, k: int| 0 <= j < k < next.len() implies precedes(
        rest,
        #[trigger] next[j],
        #[trigger] next[k],
    ) by {
        let a: int = if j < c {
            j
        } else {
            j + 1
        };
        let b: int = if k < c {
            k
        } else {
            k + 1
        };
        assert(precedes(scores, view[a], view[b]));
        if a < c {
            assert(precedes(scores, view[a], view[c]));
        } else {
            assert(precedes(scores, view[c], view[a]));
        }
        if b < c {
            assert(precedes(scores, view[b], view[c]));
        } else {
            assert(precedes(scores, view[c], view[b]));
        }
    }
}

/// Removing the selected bookmark keeps a list well formed: what is left of
/// the view is the ranking of what is left of the collection.
pub proof fn lemma_without_selected_wf(list: ListView)
    requires
        list.wf(),
    ensures
        list.without_selected().wf(),
{
    if let Some(c) = list.cursor {
        let after = list.without_selected();
        assert(after.scores() =~= list.scores().remove(list.view[c]));
        lemma_ranking_without(list.view, list.scores(), c);
    }
}

/// The collection and the list before decide the list after a deletion.
pub proof fn lemma_deletion_unique(
    a: ListView,
    b: ListView,
    before: ListView,
    collection: Seq<BookmarkView>,
)
    requires
        a.follows_deletion(before, collection),
        b.follows_deletion(before, collection),
    ensures
        a == b,
{
    lemma_ranking_unique(a.view, b.view, scores_for(collection, before.query));
}

/// Where the store's bookmarks after a deletion are the collection without
/// the selected bookmark, taking them in leaves the list that removing the
/// selected bookmark in place leaves.
pub proof fn lemma_deletion_moves_on(before: ListView, after: ListView)
    requires
        before.wf(),
        before.cursor is Some,
        after.follows_deletion(before, before.without_selected().collection),
    ensures
        after == before.without_selected(),
{
    lemma_without_selected_wf(before);
    let removed = before.without_selected();
    lemma_ranking_unique(after.view, removed.view, removed.scores());
}

/// The collection and the query decide the freshly computed list: two lists
/// fresh for the same collection and query are the same list.
pub proof fn lemma_fresh_unique(
    a: ListView,
    b: ListView,
    collection: Seq<BookmarkView>,
    query: Seq<char>,
)
    requires
        a.is_fresh(collection, query),
        b.is_fresh(collection, query),
    ensures
        a == b,
{
    lemma_ranking_unique(a.view, b.view, scores_for(collection, query));
}

/// Under a query that is not empty, the view shows a bookmark exactly when
/// the fuzzy search finds the query in its URL.
pub proof fn lemma_view_holds_the_matches(list: ListView, p: int)
    requires
        list.wf(),
        list.query.len() > 0,
        0 <= p < list.collection.len(),
    ensures
        list.view.contains(p) <==> fuzzy_score(list.query, list.collection[p].url) is Some,
{
    let scores = list.scores();
    if list.view.contains(p) {
        let k: int = choose|k: int| 0 <= k < list.view.len() && list.view[k] == p;
        assert(scores[list.view[k]] is Some);
    }
    if fuzzy_score(list.query, list.collection[p].url) is Some {
        assert(scores[p] is Some);
    }
}

/// Under a query that is not empty, a bookmark on whose URL the fuzzy search
/// is literal is shown exactly when its URL holds the characters of the query
/// in their order. (The search is not literal everywhere: it ignores case and
/// skips white space in the query.)
pub proof fn lemma_view_holds_the_subsequences(list: ListView, p: int)
    requires
        list.wf(),
        list.query.len() > 0,
        0 <= p < list.collection.len(),
        search_is_literal(list.query, list.collection[p].url),
    ensures
        list.view.contains(p) <==> is_subsequence(list.query, list.collection[p].url),
{
    lemma_view_holds_the_matches(list, p);
}

/// The view is ordered by score, and rows of equal score stand in the
/// collection's order.
pub proof fn lemma_view_is_stable(list: ListView, j: int, k: int)
    requires
        list.wf(),
        0 <= j < k < list.view.len(),
    ensures
        list.scores()[list.view[j]]->0 <= list.scores()[list.view[k]]->0,
        list.scores()[list.view[j]]->0 == list.scores()[list.view[k]]->0 ==> list.view[j]
            < list.view[k],
{
    assert(precedes(list.scores(), list.view[j], list.view[k]));
}

/// With an empty query the view shows the whole collection in its own order,
/// whatever the list held before.
pub proof fn lemma_empty_query_shows_all(list: ListView)
    requires
        list.wf(),
        list.query.len() == 0,
    ensures
        list.view == Seq::new(list.collection.len(), |p: int| p),
        list.rows() == list.collection,
{
    lemma_ranking_of_equal_scores(list.view, list.scores(), 0);
    assert(list.rows() =~= list.collection);
}

/// Moving down keeps everything but the cursor, and from row 0 the cursor
/// stands on row `steps` after `steps` moves, as long as that row exists.
proof fn lemma_moved_down_by(list: ListView, steps: nat)
    requires
        list.wf(),
        list.cursor == Some(0int),
        steps < list.view.len(),
    ensures
        list.moved_down_by(steps) == (ListView { cursor: Some(steps as int), ..list }),
    decreases steps,
{
    if steps > 0 {
        lemma_moved_down_by(list, (steps - 1) as nat);
    }
}

/// From the first row, as many moves down as the view has rows lead back to
/// the first row.
pub proof fn lemma_moving_down_comes_round(list: ListView)
    requires
        list.wf(),
        list.cursor == Some(0int),
    ensures
        list.moved_down_by(list.view.len()) == list,
{
    let n: nat = list.view.len();
    lemma_moved_down_by(list, (n - 1) as nat);
}

/// From the first row, one move up leads to the last row.
pub proof fn lemma_moving_up_wraps(list: ListView)
    requires
        list.wf(),
        list.cursor == Some(0int),
    ensures
        list.moved_up().cursor == Some(list.view.len() - 1),
{
}

/// Removing the bookmark of a view of one row leaves no row and no
/// selection.
pub proof fn lemma_deleting_the_last_row(list: ListView)
    requires
        list.wf(),
        list.view.len() == 1,
    ensures
        list.without_selected().view.len() == 0,
        list.without_selected().cursor is None,
        list.without_selected().selected() is None,
{
}

} // verus!
