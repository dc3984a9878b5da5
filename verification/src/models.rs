//! The persisted records and request/response shapes of the tracker, as
//! plain data. Serialization and storage are the caller's business.
use vstd::prelude::*;

verus! {

/// A tracked serialized title.
#[derive(Debug)]
pub struct Manga {
    pub id: i64,
    pub name: String,
    pub cover: String,
    pub cover_small: String,
}

/// A title joined with its most recent reading position.
#[derive(Debug)]
pub struct MangaDetail {
    pub id: i64,
    pub name: String,
    pub cover: String,
    pub current_chapter: Option<String>,
    pub last_read_at: Option<String>,
}

/// One row of a title listing: identifier, name, small cover and the most
/// recently recorded chapter.
pub struct MangaListItem {
    pub id: i64,
    pub name: String,
    pub cover: String,
    pub current_chapter: Option<String>,
}

/// A site that hosts tracked titles.
#[derive(Debug)]
pub struct Website {
    pub id: i64,
    pub domain: String,
}

/// A (manga, website) tracking pairing with its remote path.
#[derive(Debug)]
pub struct Source {
    pub id: i64,
    pub manga_id: i64,
    pub website_id: i64,
    pub path: String,
}

/// One recorded reading position for a title.
#[derive(Debug)]
pub struct Chapter {
    pub id: i64,
    pub manga_id: i64,
    pub number: String,
    pub updated_at: String,
}

/// One configuration entry.
#[derive(Debug)]
pub struct Setting {
    pub key: String,
    pub value: String,
}

/// The filters a title listing accepts.
#[derive(Debug)]
pub struct MangaFilter {
    pub read_at: Option<String>,
    pub text: Option<String>,
    pub website: Option<String>,
}

/// Page-size and page-number parameters of a listing.
#[derive(Debug)]
pub struct Pagination {
    pub size: Option<usize>,
    pub page: Option<usize>,
}

/// The payload that creates a title, optionally with its first source.
pub struct CreateManga {
    pub name: String,
    pub cover: String,
    pub cover_small: String,
    pub source_path: Option<String>,
    pub website_domain: Option<String>,
}

/// The payload that updates a title; every field is optional.
pub struct UpdateManga {
    pub name: Option<String>,
    pub cover: Option<String>,
    pub cover_small: Option<String>,
    pub source_path: Option<String>,
    pub website_domain: Option<String>,
    pub chapter_number: Option<String>,
}

/// Whether a domain is already registered.
pub struct Existence {
    pub existing: bool,
}

/// The age of the API key, in days.
pub struct KeyAgeResponse {
    pub age_in_days: u64,
}

/// A freshly generated plaintext API key.
pub struct KeyRefreshResponse {
    pub key: String,
}

} // verus!
