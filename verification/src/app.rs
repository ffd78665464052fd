//! The application state: the mode, the two text buffers and the selection
//! list, with the handlers that key events are routed to.
//!
//! The search buffer is the query of the selection list, so every edit of it
//! recomputes the view. The other buffer holds the URL of the bookmark that
//! is being added.

use crate::adapters::tagpacker_adapter::Link;
use crate::input::{Action, ActionView, Key};
use crate::models::bookmarks::{is_hyphenated_uuid, views_of, Bookmark, BookmarkView};
use crate::selection::{lemma_fresh_unique, ListView, SelectionList};
use vstd::prelude::*;

verus! {

/// Which of the two text buffers the keys go to, and what Enter does.
#[derive(Clone, Copy, Debug, PartialEq, Eq, Structural)]
pub enum Mode {
    /// Keys edit the query; Enter opens the selected bookmark.
    Search,
    /// Keys edit the URL of a new bookmark; Enter creates it.
    AddBookmark,
}

/// The value of the application state.
pub struct AppView {
    pub mode: Mode,
    /// The text of the add-bookmark buffer.
    pub draft: Seq<char>,
    /// The selection list; its query is the text of the search buffer.
    pub list: ListView,
    /// The message of the failure that is on show, if any.
    pub failure: Option<Seq<char>>,
}

impl AppView {
    /// The selection list is well formed.
    pub open spec fn wf(self) -> bool {
        self.list.wf()
    }

    /// The text of the buffer that the mode selects.
    pub open spec fn active_text(self) -> Seq<char> {
        match self.mode {
            Mode::Search => self.list.query,
            Mode::AddBookmark => self.draft,
        }
    }

    /// The state in the other mode.
    pub open spec fn toggled(self) -> AppView {
        AppView {
            mode: match self.mode {
                Mode::Search => Mode::AddBookmark,
                Mode::AddBookmark => Mode::Search,
            },
            ..self
        }
    }

    /// The state with the cursor one row up.
    pub open spec fn moved_up(self) -> AppView {
        AppView { list: self.list.moved_up(), ..self }
    }

    /// The state with the cursor one row down.
    pub open spec fn moved_down(self) -> AppView {
        AppView { list: self.list.moved_down(), ..self }
    }

    /// `post` is this state after the text of the active buffer became
    /// `text`. In search mode the view is recomputed for the new query; in
    /// the other mode the selection list is untouched.
    pub open spec fn edits_to(self, text: Seq<char>, post: AppView) -> bool {
        match self.mode {
            Mode::Search => {
                &&& post.mode == self.mode
                &&& post.draft == self.draft
                &&& post.failure == self.failure
                &&& post.list.is_fresh(self.list.collection, text)
            },
            Mode::AddBookmark => post == AppView { draft: text, ..self },
        }
    }

    /// `post` is this state after the last character of the active buffer
    /// was erased. With an empty buffer nothing changes.
    pub open spec fn erases_to(self, post: AppView) -> bool {
        if self.active_text().len() == 0 {
            post == self
        } else {
            self.edits_to(self.active_text().drop_last(), post)
        }
    }

    /// `post` is this state after `payload` was appended to the active
    /// buffer. With an empty payload nothing changes.
    pub open spec fn pastes_to(self, payload: Seq<char>, post: AppView) -> bool {
        if payload.len() == 0 {
            post == self
        } else {
            self.edits_to(self.active_text() + payload, post)
        }
    }

    /// `post` is this state after the collection was replaced by
    /// `collection`: the view is recomputed for the query in force.
    pub open spec fn refreshes_to(self, collection: Seq<BookmarkView>, post: AppView) -> bool {
        &&& post.mode == self.mode
        &&& post.draft == self.draft
        &&& post.failure == self.failure
        &&& post.list.is_fresh(collection, self.list.query)
    }

    /// `post` is this state after the selected bookmark was deleted in the
    /// store and the store's bookmarks `collection` were taken in: the view
    /// is recomputed for the query in force and the cursor moves on from its
    /// row.
    pub open spec fn deletes_to(self, collection: Seq<BookmarkView>, post: AppView) -> bool {
        &&& post.mode == self.mode
        &&& post.draft == self.draft
        &&& post.failure == self.failure
        &&& post.list.follows_deletion(self.list, collection)
    }

    /// `post` is this state after `bookmark` was created: it joined the
    /// collection, the add-bookmark buffer is empty and the mode is search.
    pub open spec fn creates_to(self, bookmark: BookmarkView, post: AppView) -> bool {
        &&& post.mode == Mode::Search
        &&& post.draft == Seq::<char>::empty()
        &&& post.failure == self.failure
        &&& post.list.is_fresh(self.list.collection.push(bookmark), self.list.query)
    }

    /// What Enter asks for: in search mode to open the selected bookmark's
    /// URL, or nothing where none is selected; in the other mode to create a
    /// bookmark for the buffer's text, with an empty title.
    pub open spec fn enter_action(self) -> ActionView {
        match self.mode {
            Mode::Search => match self.list.selected() {
                Some(b) => ActionView::OpenUrl(b.url),
                None => ActionView::Idle,
            },
            Mode::AddBookmark => ActionView::Create { url: self.draft, title: Seq::empty() },
        }
    }

    /// What the delete key asks for: to delete the selected bookmark by its
    /// identifier, or nothing where none is selected.
    pub open spec fn delete_action(self) -> ActionView {
        match self.list.selected() {
            Some(b) => ActionView::Delete(b.id),
            None => ActionView::Idle,
        }
    }
}

/// What a key does to the application in state `pre`: the state `post` that
/// it leaves and the action that it asks for. Keys without a binding leave
/// the state as it is and ask for nothing.
pub open spec fn routes(pre: AppView, key: Key, post: AppView, action: ActionView) -> bool {
    match key {
        Key::Esc => post == pre && action == ActionView::Exit,
        Key::Backspace => pre.erases_to(post) && action == ActionView::Idle,
        Key::Up => post == pre.moved_up() && action == ActionView::Idle,
        Key::Down => post == pre.moved_down() && action == ActionView::Idle,
        Key::Delete => post == pre && action == pre.delete_action(),
        Key::Char(c) => if c == '\n' {
            post == pre && action == pre.enter_action()
        } else if c == '`' {
            post == pre.toggled() && action == ActionView::Idle
        } else {
            pre.edits_to(pre.active_text().push(c), post) && action == ActionView::Idle
        },
        Key::Ctrl(c) => if c == 'u' {
            pre.edits_to(Seq::empty(), post) && action == ActionView::Idle
        } else if c == 'v' {
            post == pre && action == ActionView::Paste
        } else {
            post == pre && action == ActionView::Idle
        },
        Key::F(n) => if n == 5 {
            post == pre && action == ActionView::Sync
        } else {
            post == pre && action == ActionView::Idle
        },
        Key::Other => post == pre && action == ActionView::Idle,
    }
}

/// A key decides what comes next: from one state, one key leads to one state
/// and asks for one action.
pub proof fn lemma_routes_unique(
    pre: AppView,
    key: Key,
    post: AppView,
    action: ActionView,
    other_post: AppView,
    other_action: ActionView,
)
    requires
        routes(pre, key, post, action),
        routes(pre, key, other_post, other_action),
    ensures
        post == other_post,
        action == other_action,
{
    if post.list != other_post.list {
        let collection = pre.list.collection;
        if post.list.is_fresh(collection, post.list.query) && other_post.list.is_fresh(
            collection,
            post.list.query,
        ) {
            lemma_fresh_unique(post.list, other_post.list, collection, post.list.query);
        }
    }
}

/// The application state.
pub struct App {
    current_mode: Mode,
    new_bookmark_name: String,
    list: SelectionList,
    failure: Option<String>,
}

impl View for App {
    type V = AppView;

    closed spec fn view(&self) -> AppView {
        AppView {
            mode: self.current_mode,
            draft: self.new_bookmark_name@,
            list: self.list@,
            failure: match self.failure {
                Some(message) => Some(message@),
                None => None,
            },
        }
    }
}

impl App {
    /// The application over `bookmarks`: search mode, both buffers empty,
    /// every bookmark shown, the first one selected, and no failure on show.
    pub fn new(bookmarks: Vec<Bookmark>) -> (app: App)
        ensures
            app@.mode == Mode::Search,
            app@.draft == Seq::<char>::empty(),
            app@.failure is None,
            app@.list.is_fresh(views_of(bookmarks@), Seq::empty()),
    {
        App {
            current_mode: Mode::Search,
            new_bookmark_name: String::new(),
            list: SelectionList::new(bookmarks),
            failure: None,
        }
    }

    /// Makes `text` the text of the active buffer.
    fn set_field(&mut self, text: String)
        ensures
            old(self)@.edits_to(text@, final(self)@),
            final(self)@.wf(),
    {
        proof {
            use_type_invariant(&self.list);
            self.list.lemma_inv();
        }
        match self.current_mode {
            Mode::Search => self.list.set_query(text),
            Mode::AddBookmark => {
                self.new_bookmark_name = text;
            },
        }
    }

    /// Appends `c` to the active buffer.
    pub fn add_char(&mut self, c: char)
        ensures
            old(self)@.edits_to(old(self)@.active_text().push(c), final(self)@),
            final(self)@.wf(),
    {
        let mut text = self.select_field().clone();
        text.push(c);
        self.set_field(text);
    }

    /// Erases the last character of the active buffer. With an empty
    /// buffer nothing changes.
    pub fn remove_char(&mut self)
        ensures
            old(self)@.erases_to(final(self)@),
            final(self)@.wf(),
    {
        proof {
            use_type_invariant(&self.list);
            self.list.lemma_inv();
        }
        let mut text = self.select_field().clone();
        match text.pop() {
            Some(_) => self.set_field(text),
            None => {},
        }
    }

    /// Empties the active buffer.
    pub fn wipe_line(&mut self)
        ensures
            old(self)@.edits_to(Seq::empty(), final(self)@),
            final(self)@.wf(),
    {
        self.set_field(String::new());
    }

    /// Moves the cursor one row up, wrapping from the first row to the
    /// last.
    pub fn on_up(&mut self)
        ensures
            final(self)@ == old(self)@.moved_up(),
            final(self)@.wf(),
    {
        self.list.move_up();
    }

    /// Moves the cursor one row down, wrapping from the last row to the
    /// first.
    pub fn on_down(&mut self)
        ensures
            final(self)@ == old(self)@.moved_down(),
            final(self)@.wf(),
    {
        self.list.move_down();
    }

    /// Decides what the delete key asks for. The state changes only when
    /// the driver reports the store's answer with
    /// [`App::bookmark_deleted`].
    pub fn on_delete(&self) -> (action: Action)
        ensures
            action@ == self@.delete_action(),
            self@.wf(),
    {
        match self.list.selected() {
            Some(bookmark) => Action::Delete(bookmark.id()),
            None => Action::Idle,
        }
    }

    /// Decides what Enter asks for. The state changes only when the driver
    /// reports a created bookmark with [`App::bookmark_created`].
    pub fn resolve_enter(&self) -> (action: Action)
        ensures
            action@ == self@.enter_action(),
            self@.wf(),
    {
        match self.current_mode {
            Mode::Search => match self.list.selected() {
                Some(bookmark) => Action::OpenUrl(bookmark.url()),
                None => Action::Idle,
            },
            Mode::AddBookmark => {
                proof {
                    use_type_invariant(&self.list);
                    self.list.lemma_inv();
                }
                Action::Create { url: self.new_bookmark_name.clone(), title: String::new() }
            },
        }
    }

    /// The buffer that the mode selects.
    pub fn select_field(&self) -> (field: &String)
        ensures
            field@ == self@.active_text(),
    {
        match self.current_mode {
            Mode::Search => self.list.query(),
            Mode::AddBookmark => &self.new_bookmark_name,
        }
    }

    /// Switches to the other mode. Both buffers keep their text.
    pub fn change_mode(&mut self)
        ensures
            final(self)@ == old(self)@.toggled(),
            final(self)@.wf(),
    {
        proof {
            use_type_invariant(&self.list);
            self.list.lemma_inv();
        }
        match self.current_mode {
            Mode::Search => {
                self.current_mode = Mode::AddBookmark;
            },
            Mode::AddBookmark => {
                self.current_mode = Mode::Search;
            },
        }
    }

    /// Appends the clipboard's text `payload` to the active buffer. With an
    /// empty payload nothing changes.
    pub fn paste_from_clipboard(&mut self, payload: &str)
        ensures
            old(self)@.pastes_to(payload@, final(self)@),
            final(self)@.wf(),
    {
        proof {
            use_type_invariant(&self.list);
            self.list.lemma_inv();
        }
        if !payload.is_empty() {
            let mut text = self.select_field().clone();
            text.append(payload);
            self.set_field(text);
        }
    }

    /// Makes the bookmarks to store for the fetched `links`: one per link,
    /// in their order, each with the link's source URL and title under a
    /// freshly drawn identifier.
    pub fn sync_bmarks(&self, links: &Vec<Link>) -> (bookmarks: Vec<Bookmark>)
        ensures
            bookmarks.len() == links.len(),
            forall|i: int|
                0 <= i < links.len() ==> (#[trigger] bookmarks[i]).url@ == links[i].sourceUrl@
                    && bookmarks[i].title@ == links[i].title@ && is_hyphenated_uuid(
                    bookmarks[i].id@,
                ),
    {
        let mut bookmarks: Vec<Bookmark> = Vec::new();
        let mut i: usize = 0;
        while i < links.len()
            invariant
                i <= links.len(),
                bookmarks.len() == i,
                forall|k: int|
                    0 <= k < i ==> {
                        &&& (#[trigger] bookmarks[k]).url@ == links[k].sourceUrl@
                        &&& bookmarks[k].title@ == links[k].title@
                        &&& is_hyphenated_uuid(bookmarks[k].id@)
                    },
            decreases links.len() - i,
        {
            let link = &links[i];
            bookmarks.push(Bookmark::create(link.sourceUrl.clone(), link.title.clone()));
            i = i + 1;
        }
        bookmarks
    }

    /// Takes in the store's bookmarks after the selected bookmark was
    /// deleted there: they are the collection, the view is recomputed for
    /// the query in force, and the cursor goes on from its row as in a move
    /// down over the rows that are shown now. It wraps to the first row from
    /// the end and is `None` where no row is left.
    pub fn bookmark_deleted(&mut self, bookmarks: Vec<Bookmark>)
        ensures
            old(self)@.deletes_to(views_of(bookmarks@), final(self)@),
            final(self)@.wf(),
    {
        self.list.replace_after_delete(bookmarks);
    }

    /// Takes the store's bookmarks as the collection, after an import, and
    /// recomputes the view for the query in force; the cursor goes to the
    /// first row.
    pub fn replace_collection(&mut self, bookmarks: Vec<Bookmark>)
        ensures
            old(self)@.refreshes_to(views_of(bookmarks@), final(self)@),
            final(self)@.wf(),
    {
        self.list.replace_collection(bookmarks);
    }

    /// Takes in the bookmark that the store created on Enter: it joins the
    /// collection, the add-bookmark buffer is emptied and the mode goes back
    /// to search.
    pub fn bookmark_created(&mut self, bookmark: Bookmark)
        ensures
            old(self)@.creates_to(bookmark@, final(self)@),
            final(self)@.wf(),
    {
        self.list.add(bookmark);
        self.new_bookmark_name = String::new();
        self.current_mode = Mode::Search;
    }

    /// Puts the message of a failed store, import or browser call on show.
    /// Everything else stays as it is.
    pub fn report_failure(&mut self, message: String)
        ensures
            final(self)@ == (AppView { failure: Some(message@), ..old(self)@ }),
            final(self)@.wf(),
    {
        proof {
            use_type_invariant(&self.list);
            self.list.lemma_inv();
        }
        self.failure = Some(message);
    }

    /// Takes the failure off show. Everything else stays as it is.
    pub fn clear_failure(&mut self)
        ensures
            final(self)@ == (AppView { failure: None, ..old(self)@ }),
            final(self)@.wf(),
    {
        proof {
            use_type_invariant(&self.list);
            self.list.lemma_inv();
        }
        self.failure = None;
    }

    /// The message of the failure that is on show, if any.
    pub fn failure(&self) -> (message: Option<&String>)
        ensures
            (match message {
                Some(text) => self@.failure == Some(text@),
                None => self@.failure is None,
            }),
    {
        self.failure.as_ref()
    }

    /// The mode.
    pub fn mode(&self) -> (mode: Mode)
        ensures
            mode == self@.mode,
    {
        self.current_mode
    }

    /// The search buffer, which is the query.
    pub fn search_string(&self) -> (text: &String)
        ensures
            text@ == self@.list.query,
    {
        self.list.query()
    }

    /// The add-bookmark buffer.
    pub fn new_bookmark_name(&self) -> (text: &String)
        ensures
            text@ == self@.draft,
    {
        &self.new_bookmark_name
    }

    /// The selection list.
    pub fn list(&self) -> (list: &SelectionList)
        ensures
            list@ == self@.list,
            list@.wf(),
    {
        proof {
            use_type_invariant(&self.list);
            self.list.lemma_inv();
        }
        &self.list
    }
}

/// Routes one key event to the handler bound to it and returns what the
/// driver has to do next. Keys without a binding are ignored.
pub fn dispatch(key: Key, app: &mut App) -> (action: Action)
    ensures
        routes(old(app)@, key, final(app)@, action@),
        final(app)@.wf(),
{
    proof {
        use_type_invariant(&app.list);
        app.list.lemma_inv();
    }
    match key {
        Key::Esc => Action::Exit,
        Key::Backspace => {
            app.remove_char();
            Action::Idle
        },
        Key::Up => {
            app.on_up();
            Action::Idle
        },
        Key::Down => {
            app.on_down();
            Action::Idle
        },
        Key::Delete => app.on_delete(),
        Key::Char(c) => {
            if c == '\n' {
                app.resolve_enter()
            } else if c == '`' {
                app.change_mode();
                Action::Idle
            } else {
                app.add_char(c);
                Action::Idle
            }
        },
        Key::Ctrl(c) => {
            if c == 'u' {
                app.wipe_line();
                Action::Idle
            } else if c == 'v' {
                Action::Paste
            } else {
                Action::Idle
            }
        },
        Key::F(n) => {
            if n == 5 {
                Action::Sync
            } else {
                Action::Idle
            }
        },
        Key::Other => Action::Idle,
    }
}

} // verus!
