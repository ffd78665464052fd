//! Keys in, actions out: the key events that the application is driven by,
//! and the requests that its handlers hand to the driver.

use vstd::prelude::*;

verus! {

/// A key event, as far as the routing tells keys apart.
#[derive(Clone, Copy, Debug, PartialEq, Eq)]
pub enum Key {
    Esc,
    Backspace,
    Up,
    Down,
    Delete,
    /// A character key; Enter arrives as `Char('\n')`.
    Char(char),
    /// A character key pressed with Control.
    Ctrl(char),
    /// A function key, by its number.
    F(u8),
    /// Any other key.
    Other,
}

/// What the driver is asked to do after a key was handled.
#[derive(Clone, Debug, PartialEq, Eq)]
pub enum Action {
    /// Nothing.
    Idle,
    /// Leave the input loop.
    Exit,
    /// Open this URL in the browser.
    OpenUrl(String),
    /// Store a new bookmark with this URL and title, then report it with
    /// [`crate::app::App::bookmark_created`].
    Create { url: String, title: String },
    /// Delete the bookmark with this identifier from the store, then report
    /// the store's bookmarks with [`crate::app::App::bookmark_deleted`].
    Delete(String),
    /// Read the clipboard, then hand its text to
    /// [`crate::app::App::paste_from_clipboard`].
    Paste,
    /// Fetch the remote links, store the bookmarks that
    /// [`crate::app::App::sync_bmarks`] makes of them, then report the
    /// store's bookmarks with [`crate::app::App::replace_collection`].
    Sync,
}

/// The value of an action.
pub enum ActionView {
    Idle,
    Exit,
    OpenUrl(Seq<char>),
    Create { url: Seq<char>, title: Seq<char> },
    Delete(Seq<char>),
    Paste,
    Sync,
}

impl View for Action {
    type V = ActionView;

    open spec fn view(&self) -> ActionView {
        match *self {
            Action::Idle => ActionView::Idle,
            Action::Exit => ActionView::Exit,
            Action::OpenUrl(url) => ActionView::OpenUrl(url@),
            Action::Create { url, title } => ActionView::Create { url: url@, title: title@ },
            Action::Delete(id) => ActionView::Delete(id@),
            Action::Paste => ActionView::Paste,
            Action::Sync => ActionView::Sync,
        }
    }
}

} // verus!
