//! The records of the Tagpacker link service. Fetching them is the driver's
//! work; the library reads the source URL and the title of each link.

use vstd::prelude::*;

verus! {

/// A pack: a named, coloured group of tags.
#[derive(Clone, Debug)]
pub struct Pack {
    pub id: String,
    pub name: String,
    pub color: u16,
}

/// A tag on a link.
#[derive(Clone, Debug)]
pub struct Tag {
    pub id: String,
    pub name: String,
    pub url: String,
    pub pack: Option<Pack>,
}

/// A link as the service reports it.
#[allow(non_snake_case)]
#[derive(Clone, Debug)]
pub struct Link {
    pub id: String,
    pub title: String,
    pub description: Option<String>,
    pub sourceUrl: String,
    pub isPrivate: bool,
    pub thumbnailSource: Option<String>,
    pub thumbnailSourceUrl: Option<String>,
    pub thumbnailId: Option<String>,
    pub thumbnailUrl: Option<String>,
    pub url: String,
    pub createdAt: String,
    pub tags: Vec<Tag>,
}

} // verus!
