//! The user's settings.

use vstd::prelude::*;

verus! {

/// The value of the settings: the two texts.
pub struct ConfigView {
    pub api_key: Seq<char>,
    pub user_id: Seq<char>,
}

/// The settings that the login page edits and the driver persists.
#[derive(Clone, Debug)]
pub struct Config {
    api_key: String,
    pub user_id: String,
}

impl View for Config {
    type V = ConfigView;

    closed spec fn view(&self) -> ConfigView {
        ConfigView { api_key: self.api_key@, user_id: self.user_id@ }
    }
}

impl Config {
    /// The settings of the user `user_id`, with no API key.
    pub fn for_user(user_id: String) -> (config: Config)
        ensures
            config@ == (ConfigView { api_key: Seq::empty(), user_id: user_id@ }),
    {
        Config { api_key: String::new(), user_id }
    }

    /// The settings with both texts given.
    pub fn with_key(api_key: String, user_id: String) -> (config: Config)
        ensures
            config@ == (ConfigView { api_key: api_key@, user_id: user_id@ }),
    {
        Config { api_key, user_id }
    }

    /// The API key.
    pub fn api_key(&self) -> (key: &String)
        ensures
            key@ == self@.api_key,
    {
        &self.api_key
    }

    /// The user's identifier at the link service.
    pub fn user_id(&self) -> (id: &String)
        ensures
            id@ == self@.user_id,
    {
        &self.user_id
    }
}

impl Default for Config {
    /// The settings before the first login: both texts empty.
    fn default() -> (config: Config)
        ensures
            config@ == (ConfigView { api_key: Seq::empty(), user_id: Seq::empty() }),
    {
        Config { api_key: String::new(), user_id: String::new() }
    }
}

} // verus!
