//! Chapter feeds, the error taxonomy, and the shared chapter-position
//! matching algorithm.
use vstd::prelude::*;

verus! {

use vstd::string::*;
use crate::text::ends_with;
use crate::text::str_ends_with;

/// One remote chapter entry; `href` is its locator (a URL or a path
/// fragment). Within a feed, index 0 is the newest chapter.
#[derive(Debug)]
pub struct ChapterLink {
    pub href: String,
}

/// The error taxonomy of the synchronization engine.
#[derive(Debug)]
pub enum SyncError {
    /// Transport or status failure: the remote site was unreachable or
    /// answered with a non-success response.
    HttpError(String),
    /// The expected structure was absent, or parsing yielded zero chapters.
    ParseError(String),
    /// No entry of the feed matched the given chapter marker.
    ChapterNotFound(String),
}

impl SyncError {
    /// The human-readable description of this error.
    pub open spec fn spec_message(self) -> Seq<char> {
        match self {
            SyncError::HttpError(m) => "HTTP error: "@ + m@,
            SyncError::ParseError(m) => "Parse error: "@ + m@,
            SyncError::ChapterNotFound(c) => "Chapter not found: "@ + c@,
        }
    }

    /// Renders the error as a message string.
    pub fn message(&self) -> (r: String)
        ensures
            r@ == self.spec_message(),
    {
        match self {
            SyncError::HttpError(m) => String::from_str("HTTP error: ").concat(m.as_str()),
            SyncError::ParseError(m) => String::from_str("Parse error: ").concat(m.as_str()),
            SyncError::ChapterNotFound(c) => String::from_str("Chapter not found: ").concat(
                c.as_str(),
            ),
        }
    }
}

/// A chapter locator matches a marker when it ends with the marker followed
/// by a trailing slash, or with the marker itself.
pub open spec fn link_matches(href: Seq<char>, marker: Seq<char>) -> bool {
    ends_with(href, marker.push('/')) || ends_with(href, marker)
}

/// The locators of a feed, newest first.
pub open spec fn feed_hrefs(chapters: Seq<ChapterLink>) -> Seq<Seq<char>> {
    chapters.map_values(|c: ChapterLink| c.href@)
}

/// The zero-based position of the first entry of `feed` that matches
/// `marker`, or `None` when no entry does. That position is the count of
/// strictly-newer chapters.
pub open spec fn spec_count(feed: Seq<Seq<char>>, marker: Seq<char>) -> Option<int>
    decreases feed.len(),
{
    if feed.len() == 0 {
        None
    } else if link_matches(feed[0], marker) {
        Some(0)
    } else {
        match spec_count(feed.drop_first(), marker) {
            Some(i) => Some(i + 1),
            None => None,
        }
    }
}

/// Law: when the marker first matches at position `i` — it matches the entry
/// there and no earlier entry — the count of new chapters is exactly `i`.
pub proof fn lemma_count_is_first_match(feed: Seq<Seq<char>>, marker: Seq<char>, i: int)
    requires
        0 <= i < feed.len(),
        link_matches(feed[i], marker),
        forall|j: int| 0 <= j < i ==> !link_matches(feed[j], marker),
    ensures
        spec_count(feed, marker) == Some(i),
    decreases feed.len(),
{
    if i > 0 {
        assert(feed.drop_first()[i - 1] == feed[i]);
        assert(forall|j: int| 0 <= j < i - 1 ==> feed.drop_first()[j] == feed[j + 1]);
        lemma_count_is_first_match(feed.drop_first(), marker, i - 1);
    }
}

/// Law: when no entry of the feed matches the marker, the count is absent —
/// a default value is never produced.
pub proof fn lemma_count_absent(feed: Seq<Seq<char>>, marker: Seq<char>)
    requires
        forall|j: int| 0 <= j < feed.len() ==> !link_matches(feed[j], marker),
    ensures
        spec_count(feed, marker) is None,
    decreases feed.len(),
{
    if feed.len() > 0 {
        assert(forall|j: int| 0 <= j < feed.drop_first().len() ==> feed.drop_first()[j] == feed[
            j + 1
        ]);
        lemma_count_absent(feed.drop_first(), marker);
    }
}

/// The converse direction: a present count points at the first match, and an
/// absent count means no entry matches.
pub proof fn lemma_count_characterizes(feed: Seq<Seq<char>>, marker: Seq<char>)
    ensures
        spec_count(feed, marker) matches Some(i) ==> 0 <= i < feed.len() && link_matches(
            feed[i],
            marker,
        ) && forall|j: int| 0 <= j < i ==> !link_matches(feed[j], marker),
        spec_count(feed, marker) is None ==> forall|j: int|
            0 <= j < feed.len() ==> !link_matches(feed[j], marker),
    decreases feed.len(),
{
    if feed.len() > 0 {
        lemma_count_characterizes(feed.drop_first(), marker);
        if !link_matches(feed[0], marker) {
            let rest = spec_count(feed.drop_first(), marker);
            if rest is Some {
                let i = rest->Some_0;
                assert(feed[i + 1] == feed.drop_first()[i]);
                assert forall|j: int| 0 <= j < i + 1 implies !link_matches(feed[j], marker) by {
                    if j > 0 {
                        assert(feed[j] == feed.drop_first()[j - 1]);
                    }
                }
            } else {
                assert forall|j: int| 0 <= j < feed.len() implies !link_matches(
                    feed[j],
                    marker,
                ) by {
                    if j > 0 {
                        assert(feed[j] == feed.drop_first()[j - 1]);
                    }
                }
            }
        }
    }
}

/// Law: a locator that ends with the marker matches it, and so does the same
/// locator with a trailing slash appended — the two spellings are treated
/// identically.
pub proof fn lemma_trailing_slash_equivalent(href: Seq<char>, marker: Seq<char>)
    requires
        ends_with(href, marker),
    ensures
        link_matches(href, marker),
        link_matches(href.push('/'), marker),
{
    let hs = href.push('/');
    let ml = marker.len() as int;
    let hl = href.len() as int;
    assert forall|k: int| 0 <= k < ml implies href[hl - ml + k] == marker[k] by {
        assert(href.subrange(hl - ml, hl)[k] == marker[k]);
    }
    assert(hs.subrange(hs.len() - (ml + 1), hs.len() as int) =~= marker.push('/'));
}

/// Scans the feed from newest to oldest and returns the zero-based position
/// of the first entry whose locator ends with the marker, or with the marker
/// followed by a trailing slash; that position is the count of strictly-newer
/// chapters. Fails with `ChapterNotFound` when no entry matches.
pub fn count_new_chapters(chapters: &Vec<ChapterLink>, current_chapter: &str) -> (r: Result<
    usize,
    SyncError,
>)
    ensures
        r matches Ok(i) ==> spec_count(feed_hrefs(chapters@), current_chapter@) == Some(i as int),
        r matches Err(e) ==> spec_count(feed_hrefs(chapters@), current_chapter@) is None && (
        e matches SyncError::ChapterNotFound(m) && m@ == current_chapter@),
{
    let marker_slash = String::from_str(current_chapter).concat("/");
    proof {
        reveal_strlit("/");
        assert(marker_slash@ =~= current_chapter@.push('/'));
    }
    let ghost feed = feed_hrefs(chapters@);
    let n = chapters.len();
    let mut idx: usize = 0;
    while idx < n
        invariant
            n == chapters@.len(),
            idx <= n,
            feed == feed_hrefs(chapters@),
            marker_slash@ == current_chapter@.push('/'),
            forall|j: int| 0 <= j < idx ==> !link_matches(feed[j], current_chapter@),
        decreases n - idx,
    {
        let href: &String = &chapters[idx].href;
        assert(feed[idx as int] == href@);
        if str_ends_with(href.as_str(), marker_slash.as_str()) || str_ends_with(
            href.as_str(),
            current_chapter,
        ) {
            proof {
                lemma_count_is_first_match(feed, current_chapter@, idx as int);
            }
            return Ok(idx);
        }
        idx = idx + 1;
    }
    proof {
        lemma_count_absent(feed, current_chapter@);
    }
    Err(SyncError::ChapterNotFound(String::from_str(current_chapter)))
}

} // verus!

