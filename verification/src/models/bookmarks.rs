//! Bookmarks: a stored URL with a title and a stable identifier.

use vstd::prelude::*;

verus! {

/// The value of a bookmark: its three texts as character sequences.
pub struct BookmarkView {
    pub id: Seq<char>,
    pub url: Seq<char>,
    pub title: Seq<char>,
}

/// A stored URL. Identity is `id`; a bookmark is created and deleted, never
/// edited in place.
#[derive(Clone, Debug, PartialEq, Eq)]
pub struct Bookmark {
    pub id: String,
    pub url: String,
    pub title: String,
}

impl View for Bookmark {
    type V = BookmarkView;

    open spec fn view(&self) -> BookmarkView {
        BookmarkView { id: self.id@, url: self.url@, title: self.title@ }
    }
}

/// The values of a sequence of bookmarks, in the same order.
pub open spec fn views_of(bookmarks: Seq<Bookmark>) -> Seq<BookmarkView> {
    bookmarks.map_values(|b: Bookmark| b@)
}

/// Whether `c` is one of the sixteen lower-case hexadecimal digits.
pub open spec fn is_lower_hex(c: char) -> bool {
    ('0' <= c && c <= '9') || ('a' <= c && c <= 'f')
}

/// The textual shape of a hyphenated lower-case UUID: 36 characters, hyphens
/// at positions 8, 13, 18 and 23, hexadecimal digits everywhere else.
pub open spec fn is_hyphenated_uuid(s: Seq<char>) -> bool {
    &&& s.len() == 36
    &&& forall|i: int|
        0 <= i < 36 ==> if i == 8 || i == 13 || i == 18 || i == 23 {
            #[trigger] s[i] == '-'
        } else {
            is_lower_hex(s[i])
        }
}

/// Draws a random (version 4) identifier with `uuid::Uuid::new_v4` and renders
/// it with the `Display` impl of `uuid::Uuid`.
///
/// Trusted: the result depends on the operating system's random source, so
/// the contract states only the shape that every rendering has. `new_v4`
/// panics when the operating system cannot supply random bytes.
#[verifier::external_body]
fn fresh_id() -> (id: String)
    ensures
        is_hyphenated_uuid(id@),
{
    uuid::Uuid::new_v4().to_string()
}

impl Bookmark {
    /// A bookmark with the given identifier.
    pub fn with_id(id: String, url: String, title: String) -> (b: Bookmark)
        ensures
            b.id == id,
            b.url == url,
            b.title == title,
    {
        Bookmark { id, url, title }
    }

    /// A new bookmark for `url` and `title` under a freshly drawn identifier.
    /// Persisting it is the driver's work.
    pub fn create(url: String, title: String) -> (b: Bookmark)
        ensures
            b.url == url,
            b.title == title,
            is_hyphenated_uuid(b.id@),
    {
        Bookmark::with_id(fresh_id(), url, title)
    }

    /// A copy of the bookmark's URL.
    pub fn url(&self) -> (r: String)
        ensures
            r@ == self@.url,
    {
        self.url.clone()
    }

    /// A copy of the bookmark's title.
    pub fn title(&self) -> (r: String)
        ensures
            r@ == self@.title,
    {
        self.title.clone()
    }

    /// A copy of the bookmark's identifier.
    pub fn id(&self) -> (r: String)
        ensures
            r@ == self@.id,
    {
        self.id.clone()
    }

    /// A copy of the whole bookmark, text for text.
    pub fn duplicate(&self) -> (r: Bookmark)
        ensures
            r@ == self@,
    {
        Bookmark { id: self.id.clone(), url: self.url.clone(), title: self.title.clone() }
    }
}

} // verus!
