//! The login page: one text field for the user's identifier at the link
//! service, and the keys that edit, save or leave it.

use crate::config::{Config, ConfigView};
use crate::input::Key;
use vstd::prelude::*;

verus! {

/// What the driver is asked to do after the login page handled a key.
#[derive(Clone, Debug)]
pub enum LoginAction {
    /// Go on reading keys.
    Stay,
    /// Leave the page without saving.
    Leave,
    /// Read the clipboard, then hand its text to
    /// [`LoginPage::paste_from_clipboard`].
    Paste,
    /// Persist these settings; leave the page when that succeeded, stay on
    /// it otherwise.
    Save(Config),
}

/// The value of a login action.
pub enum LoginActionView {
    Stay,
    Leave,
    Paste,
    Save(ConfigView),
}

impl View for LoginAction {
    type V = LoginActionView;

    open spec fn view(&self) -> LoginActionView {
        match *self {
            LoginAction::Stay => LoginActionView::Stay,
            LoginAction::Leave => LoginActionView::Leave,
            LoginAction::Paste => LoginActionView::Paste,
            LoginAction::Save(config) => LoginActionView::Save(config@),
        }
    }
}

/// What a key does to a login page whose field holds `pre`: the text `post`
/// that it leaves and the action that it asks for.
pub open spec fn login_step(pre: Seq<char>, key: Key, post: Seq<char>, action: LoginActionView) -> bool {
    match key {
        Key::Esc => post == pre && action == LoginActionView::Leave,
        Key::Backspace => {
            &&& post == (if pre.len() == 0 {
                pre
            } else {
                pre.drop_last()
            })
            &&& action == LoginActionView::Stay
        },
        Key::Ctrl(c) => post == pre && action == (if c == 'v' {
            LoginActionView::Paste
        } else {
            LoginActionView::Stay
        }),
        Key::Char(c) => if c == '\n' {
            post == pre && action == LoginActionView::Save(
                ConfigView { api_key: Seq::empty(), user_id: pre },
            )
        } else {
            post == pre.push(c) && action == LoginActionView::Stay
        },
        _ => post == pre && action == LoginActionView::Stay,
    }
}

/// The login page.
pub struct LoginPage {
    user_id: String,
}

impl View for LoginPage {
    type V = Seq<char>;

    closed spec fn view(&self) -> Seq<char> {
        self.user_id@
    }
}

impl LoginPage {
    /// The page with `user_id` in its field.
    pub fn new(user_id: String) -> (page: LoginPage)
        ensures
            page@ == user_id@,
    {
        LoginPage { user_id }
    }

    /// The text of the field.
    pub fn user_id(&self) -> (text: &String)
        ensures
            text@ == self@,
    {
        &self.user_id
    }

    /// Appends the clipboard's text `payload` to the field.
    pub fn paste_from_clipboard(&mut self, payload: &str)
        ensures
            final(self)@ == old(self)@ + payload@,
    {
        self.user_id.append(payload);
    }

    /// Handles one key: Escape leaves, Backspace erases the last character,
    /// Control-v asks for the clipboard, Enter asks to save the settings
    /// with the field's text as the user's identifier, any other character
    /// is appended, and every other key is ignored.
    pub fn on_key(&mut self, key: Key) -> (action: LoginAction)
        ensures
            login_step(old(self)@, key, final(self)@, action@),
    {
        match key {
            Key::Esc => LoginAction::Leave,
            Key::Backspace => {
                self.user_id.pop();
                LoginAction::Stay
            },
            Key::Ctrl(c) => {
                if c == 'v' {
                    LoginAction::Paste
                } else {
                    LoginAction::Stay
                }
            },
            Key::Char(c) => {
                if c == '\n' {
                    LoginAction::Save(Config::for_user(self.user_id.clone()))
                } else {
                    self.user_id.push(c);
                    LoginAction::Stay
                }
            },
            _ => LoginAction::Stay,
        }
    }
}

} // verus!
