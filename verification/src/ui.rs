//! What the screen shows: the rows of the view with their ranks, and the
//! model that a frame is drawn from. Drawing itself is the driver's work.

pub mod login;

use crate::app::{App, Mode};
use crate::models::bookmarks::{Bookmark, BookmarkView};
use crate::ranking::score;
use vstd::prelude::*;

verus! {

/// The value of a line: a rank and a bookmark.
pub struct LineView {
    pub score: int,
    pub bmark: BookmarkView,
}

/// A row of the view: a bookmark with the rank that placed it. Lower is
/// better.
#[derive(Clone, Debug)]
pub struct Line {
    score: isize,
    bmark: Bookmark,
}

impl View for Line {
    type V = LineView;

    closed spec fn view(&self) -> LineView {
        LineView { score: self.score as int, bmark: self.bmark@ }
    }
}

impl Line {
    /// The line for `bmark` with the rank `score`.
    pub fn new(score: isize, bmark: Bookmark) -> (line: Line)
        ensures
            line@ == (LineView { score: score as int, bmark: bmark@ }),
    {
        Line { score, bmark }
    }

    /// The rank that placed the bookmark.
    pub fn score(&self) -> (score: isize)
        ensures
            score == self@.score,
    {
        self.score
    }

    /// The bookmark.
    pub fn bmark(&self) -> (bmark: &Bookmark)
        ensures
            bmark@ == self@.bmark,
    {
        &self.bmark
    }

    /// The text that the row shows: the bookmark's URL.
    pub fn label(&self) -> (label: String)
        ensures
            label@ == self@.bmark.url,
    {
        self.bmark.url()
    }
}

/// The rows of the view, in display order, best match first: each shown
/// bookmark with the rank that placed it. With an empty query nothing was
/// ranked, and every row carries the rank 0.
pub fn get_lines(app: &App) -> (lines: Vec<Line>)
    ensures
        app@.wf(),
        lines.len() == app@.list.view.len(),
        forall|k: int|
            0 <= k < lines.len() ==> (#[trigger] lines[k])@ == (LineView {
                score: app@.list.scores()[app@.list.view[k]]->0,
                bmark: app@.list.rows()[k],
            }),
{
    let list = app.list();
    let query = list.query();
    let unscored = query.as_str().is_empty();
    let mut lines: Vec<Line> = Vec::new();
    let mut k: usize = 0;
    while k < list.len()
        invariant
            k <= list@.view.len(),
            lines.len() == k,
            list@ == app@.list,
            query@ == list@.query,
            unscored <==> query@.len() == 0,
            forall|i: int|
                0 <= i < k ==> (#[trigger] lines[i])@ == (LineView {
                    score: list@.scores()[list@.view[i]]->0,
                    bmark: list@.rows()[i],
                }),
        decreases list@.view.len() - k,
    {
        match list.row(k) {
            Some(bookmark) => {
                assert(list@.scores()[list@.view[k as int]] is Some);
                let rank: isize = if unscored {
                    0isize
                } else {
                    match score(query.as_str(), bookmark.url.as_str()) {
                        Some(s) => s,
                        None => 0isize,
                    }
                };
                lines.push(Line::new(rank, bookmark.duplicate()));
            },
            None => {},
        }
        k = k + 1;
    }
    lines
}

/// What a frame is drawn from.
#[derive(Clone, Debug)]
pub struct ViewModel {
    /// The text of the buffer that receives the keys.
    pub active_buffer_text: String,
    pub mode: Mode,
    /// The labels of the rows of the view, in display order.
    pub filtered_items: Vec<String>,
    /// The selected row.
    pub selected_index: Option<usize>,
    /// The number of bookmarks of the collection.
    pub total_count: usize,
    /// The number of rows of the view.
    pub filtered_count: usize,
    /// The message of the failure that is on show, if any.
    pub error: Option<String>,
}

/// The model of the frame that shows `app`.
pub fn view_model(app: &App) -> (model: ViewModel)
    ensures
        app@.wf(),
        model.active_buffer_text@ == app@.active_text(),
        model.mode == app@.mode,
        model.filtered_items.len() == app@.list.view.len(),
        forall|k: int|
            0 <= k < model.filtered_items.len() ==> (#[trigger] model.filtered_items[k])@
                == app@.list.rows()[k].url,
        (match model.selected_index {
            Some(c) => app@.list.cursor == Some(c as int),
            None => app@.list.cursor is None,
        }),
        model.total_count == app@.list.collection.len(),
        model.filtered_count == app@.list.view.len(),
        (match model.error {
            Some(text) => app@.failure == Some(text@),
            None => app@.failure is None,
        }),
{
    let list = app.list();
    let mut labels: Vec<String> = Vec::new();
    let mut k: usize = 0;
    while k < list.len()
        invariant
            k <= list@.view.len(),
            labels.len() == k,
            forall|i: int| 0 <= i < k ==> (#[trigger] labels[i])@ == list@.rows()[i].url,
        decreases list@.view.len() - k,
    {
        match list.row(k) {
            Some(bookmark) => {
                labels.push(bookmark.url());
            },
            None => {},
        }
        k = k + 1;
    }
    ViewModel {
        active_buffer_text: app.select_field().clone(),
        mode: app.mode(),
        filtered_items: labels,
        selected_index: list.cursor(),
        total_count: list.total(),
        filtered_count: list.len(),
        error: match app.failure() {
            Some(text) => Some(text.clone()),
            None => None,
        },
    }
}

} // verus!
