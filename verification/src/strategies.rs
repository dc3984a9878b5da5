//! The per-site chapter feed providers and the registry that maps a website
//! domain to its provider.
//!
//! Two sites are supported: one whose chapter list is scraped from the
//! rendered page reached by the source's path, and one whose chapter list
//! comes from an API keyed by a numeric external identifier extracted from
//! the canonical title page.
use vstd::prelude::*;

verus! {

use vstd::string::*;
use crate::scrape::css_selector_valid;
use crate::scrape::regex_capture_first;
use crate::scrape::regex_first_capture;
use crate::scrape::regex_pattern_valid;
use crate::scrape::select_attr_values;
use crate::scrape::selected_attr_values;
use crate::strategy::ChapterLink;
use crate::strategy::SyncError;
use crate::strategy::count_new_chapters;
use crate::strategy::feed_hrefs;
use crate::strategy::spec_count;
use crate::text::str_eq;

/// A provider for one supported website.
#[derive(Clone, Copy, PartialEq, Eq, Structural, Debug)]
pub enum SiteStrategy {
    MangareadOrg,
    MangabuddyCom,
}

/// The canonical hostname a provider services; it is the registry key.
pub open spec fn site_domain(s: SiteStrategy) -> Seq<char> {
    match s {
        SiteStrategy::MangareadOrg => "www.mangaread.org"@,
        SiteStrategy::MangabuddyCom => "mangabuddy.com"@,
    }
}

/// Whether the site's chapter-listing API needs an external identifier that
/// is not derivable from the human-facing path.
pub open spec fn site_uses_external_id(s: SiteStrategy) -> bool {
    s is MangabuddyCom
}

/// The URL of the canonical title page from which the external identifier is
/// extracted.
pub open spec fn site_id_page_url(s: SiteStrategy, path: Seq<char>) -> Seq<char> {
    "https://mangabuddy.com"@ + path
}

/// The URL from which the site's chapter list is fetched; for the
/// API-keyed site it is meaningful only when an identifier is present.
pub open spec fn spec_chapters_url(s: SiteStrategy, path: Seq<char>, ext: Option<Seq<char>>) -> Seq<
    char,
> {
    match s {
        SiteStrategy::MangareadOrg => "https://www.mangaread.org"@ + path,
        SiteStrategy::MangabuddyCom => "https://mangabuddy.com/api/manga/"@ + ext->Some_0
            + "/chapters"@,
    }
}

/// The CSS selector that locates the site's chapter links.
pub open spec fn site_selector(s: SiteStrategy) -> Seq<char> {
    match s {
        SiteStrategy::MangareadOrg => "li.wp-manga-chapter > a"@,
        SiteStrategy::MangabuddyCom => "#chapter-list option"@,
    }
}

/// The attribute of a selected element that carries the chapter locator.
pub open spec fn site_attr(s: SiteStrategy) -> Seq<char> {
    match s {
        SiteStrategy::MangareadOrg => "href"@,
        SiteStrategy::MangabuddyCom => "value"@,
    }
}

/// The chapter locators the site's page yields, newest first.
pub open spec fn site_feed(s: SiteStrategy, html: Seq<char>) -> Seq<Seq<char>> {
    selected_attr_values(html, site_selector(s), site_attr(s))
}

/// Parsing a page succeeds when the selector is valid and at least one
/// chapter is found; an empty result is a parse failure, not a valid
/// "zero chapters" state.
pub open spec fn site_parse_ok(s: SiteStrategy, html: Seq<char>) -> bool {
    css_selector_valid(site_selector(s)) && site_feed(s, html).len() > 0
}

/// The message reported when a page parses to an empty chapter list.
pub open spec fn site_empty_feed_message(s: SiteStrategy) -> Seq<char> {
    match s {
        SiteStrategy::MangareadOrg => "No chapters found on page"@,
        SiteStrategy::MangabuddyCom => "No chapters found in API response"@,
    }
}

/// The embedded-script pattern that carries the site's numeric identifier.
pub open spec fn book_id_pattern() -> Seq<char> {
    r"var\s+bookId\s*=\s*(\d+);"@
}

/// The external identifier embedded in a canonical title page.
pub open spec fn spec_book_id(html: Seq<char>) -> Option<Seq<char>> {
    regex_first_capture(book_id_pattern(), html)
}

fn links_from_hrefs(hrefs: &Vec<String>) -> (r: Vec<ChapterLink>)
    ensures
        feed_hrefs(r@) == hrefs.deep_view(),
{
    let mut out: Vec<ChapterLink> = Vec::new();
    let n = hrefs.len();
    let mut i: usize = 0;
    while i < n
        invariant
            i <= n,
            n == hrefs@.len(),
            out@.len() == i,
            forall|j: int| 0 <= j < i ==> out@[j].href@ == hrefs@[j]@,
        decreases n - i,
    {
        let href = hrefs[i].clone();
        out.push(ChapterLink { href });
        i = i + 1;
    }
    proof {
        assert(feed_hrefs(out@) =~= hrefs.deep_view());
    }
    out
}

impl SiteStrategy {
    /// The canonical hostname this provider services.
    pub fn domain(&self) -> (d: String)
        ensures
            d@ == site_domain(*self),
    {
        match self {
            SiteStrategy::MangareadOrg => String::from_str("www.mangaread.org"),
            SiteStrategy::MangabuddyCom => String::from_str("mangabuddy.com"),
        }
    }

    /// Whether this site needs an external identifier before its chapter
    /// list can be fetched.
    pub fn uses_external_id(&self) -> (r: bool)
        ensures
            r == site_uses_external_id(*self),
    {
        match self {
            SiteStrategy::MangareadOrg => false,
            SiteStrategy::MangabuddyCom => true,
        }
    }

    /// The page to fetch in order to extract the external identifier, when
    /// this site needs one; sites that derive their feed from the path alone
    /// return `None` rather than an error.
    pub fn id_page_url(&self, path: &str) -> (r: Option<String>)
        ensures
            r is Some <==> site_uses_external_id(*self),
            r matches Some(u) ==> u@ == site_id_page_url(*self, path@),
    {
        match self {
            SiteStrategy::MangareadOrg => None,
            SiteStrategy::MangabuddyCom => Some(
                String::from_str("https://mangabuddy.com").concat(path),
            ),
        }
    }

    /// Extracts the site-internal identifier from a fetched canonical page.
    pub fn extract_external_id(&self, html: &str) -> (r: Result<Option<String>, SyncError>)
        ensures
            *self is MangareadOrg ==> (r matches Ok(o) && o is None),
            *self is MangabuddyCom && regex_pattern_valid(book_id_pattern()) && spec_book_id(
                html@,
            ) is Some ==> (r matches Ok(o) && (o matches Some(id) && Some(id@) == spec_book_id(
                html@,
            ))),
            *self is MangabuddyCom && regex_pattern_valid(book_id_pattern()) && spec_book_id(
                html@,
            ) is None ==> (r matches Err(e) && (e matches SyncError::ParseError(m) && m@
                == "Could not find bookId in page"@)),
            *self is MangabuddyCom && !regex_pattern_valid(book_id_pattern()) ==> (r matches Err(
                e,
            ) && (e matches SyncError::ParseError(m) && m@ == "Invalid pattern"@)),
    {
        match self {
            SiteStrategy::MangareadOrg => Ok(None),
            SiteStrategy::MangabuddyCom => {
                match regex_capture_first(r"var\s+bookId\s*=\s*(\d+);", html) {
                    None => Err(SyncError::ParseError(String::from_str("Invalid pattern"))),
                    Some(None) => Err(
                        SyncError::ParseError(String::from_str("Could not find bookId in page")),
                    ),
                    Some(Some(id)) => Ok(Some(id)),
                }
            },
        }
    }

    /// The URL from which this site's chapter list is fetched.
    pub fn chapters_url(&self, path: &str, external_id: Option<&String>) -> (r: Result<
        String,
        SyncError,
    >)
        ensures
            *self is MangareadOrg ==> (r matches Ok(u) && u@ == "https://www.mangaread.org"@
                + path@),
            (*self is MangabuddyCom && external_id is Some) ==> (r matches Ok(u) && u@
                == "https://mangabuddy.com/api/manga/"@ + (external_id->Some_0)@ + "/chapters"@),
            *self is MangabuddyCom && external_id is None ==> (r matches Err(e) && (
            e matches SyncError::ParseError(m) && m@
                == "external_manga_id is required for mangabuddy.com"@)),
    {
        match self {
            SiteStrategy::MangareadOrg => Ok(
                String::from_str("https://www.mangaread.org").concat(path),
            ),
            SiteStrategy::MangabuddyCom => {
                match external_id {
                    Some(id) => Ok(
                        String::from_str("https://mangabuddy.com/api/manga/").concat(
                            id.as_str(),
                        ).concat("/chapters"),
                    ),
                    None => Err(
                        SyncError::ParseError(
                            String::from_str("external_manga_id is required for mangabuddy.com"),
                        ),
                    ),
                }
            },
        }
    }

    /// Parses a fetched page or API response into the chapter feed,
    /// newest first.
    pub fn parse_chapters(&self, html: &str) -> (r: Result<Vec<ChapterLink>, SyncError>)
        ensures
            site_parse_ok(*self, html@) ==> (r matches Ok(cs) && feed_hrefs(cs@) == site_feed(
                *self,
                html@,
            ) && cs@.len() > 0),
            !css_selector_valid(site_selector(*self)) ==> (r matches Err(e) && (
            e matches SyncError::ParseError(m) && m@ == "Invalid selector"@)),
            css_selector_valid(site_selector(*self)) && site_feed(*self, html@).len() == 0
                ==> (r matches Err(e) && (e matches SyncError::ParseError(m) && m@
                == site_empty_feed_message(*self))),
    {
        let selected = match self {
            SiteStrategy::MangareadOrg => select_attr_values(
                html,
                "li.wp-manga-chapter > a",
                "href",
            ),
            SiteStrategy::MangabuddyCom => select_attr_values(html, "#chapter-list option", "value"),
        };
        match selected {
            None => Err(SyncError::ParseError(String::from_str("Invalid selector"))),
            Some(hrefs) => {
                if hrefs.len() == 0 {
                    let msg = match self {
                        SiteStrategy::MangareadOrg => String::from_str("No chapters found on page"),
                        SiteStrategy::MangabuddyCom => String::from_str(
                            "No chapters found in API response",
                        ),
                    };
                    proof {
                        assert(hrefs.deep_view().len() == 0);
                    }
                    Err(SyncError::ParseError(msg))
                } else {
                    let links = links_from_hrefs(&hrefs);
                    proof {
                        assert(hrefs.deep_view().len() == hrefs@.len());
                    }
                    Ok(links)
                }
            },
        }
    }

    /// The shared chapter-position matching algorithm, applied to this
    /// site's feed.
    pub fn count_new_chapters(&self, chapters: &Vec<ChapterLink>, current_chapter: &str) -> (r:
        Result<usize, SyncError>)
        ensures
            r matches Ok(i) ==> spec_count(feed_hrefs(chapters@), current_chapter@) == Some(
                i as int,
            ),
            r matches Err(e) ==> spec_count(feed_hrefs(chapters@), current_chapter@) is None && (
            e matches SyncError::ChapterNotFound(m) && m@ == current_chapter@),
    {
        count_new_chapters(chapters, current_chapter)
    }
}

/// The provider scraping its chapter list from the rendered page reached by
/// the source's path; it needs no external identifier.
pub struct WebsiteMangareadOrg;

impl WebsiteMangareadOrg {
    pub fn new() -> Self {
        WebsiteMangareadOrg
    }

    /// The canonical hostname this provider services.
    pub fn domain(&self) -> (d: String)
        ensures
            d@ == site_domain(SiteStrategy::MangareadOrg),
    {
        SiteStrategy::MangareadOrg.domain()
    }

    /// The shared chapter-position matching algorithm.
    pub fn count_new_chapters(&self, chapters: &Vec<ChapterLink>, current_chapter: &str) -> (r:
        Result<usize, SyncError>)
        ensures
            r matches Ok(i) ==> spec_count(feed_hrefs(chapters@), current_chapter@) == Some(
                i as int,
            ),
            r matches Err(e) ==> spec_count(feed_hrefs(chapters@), current_chapter@) is None && (
            e matches SyncError::ChapterNotFound(m) && m@ == current_chapter@),
    {
        count_new_chapters(chapters, current_chapter)
    }
}

impl Default for WebsiteMangareadOrg {
    fn default() -> Self {
        WebsiteMangareadOrg::new()
    }
}

/// The provider fetching its chapter list from an API keyed by a numeric
/// external identifier taken from the canonical title page.
pub struct WebsiteMangabuddyCom;

impl WebsiteMangabuddyCom {
    pub fn new() -> Self {
        WebsiteMangabuddyCom
    }

    /// The canonical hostname this provider services.
    pub fn domain(&self) -> (d: String)
        ensures
            d@ == site_domain(SiteStrategy::MangabuddyCom),
    {
        SiteStrategy::MangabuddyCom.domain()
    }

    /// The shared chapter-position matching algorithm.
    pub fn count_new_chapters(&self, chapters: &Vec<ChapterLink>, current_chapter: &str) -> (r:
        Result<usize, SyncError>)
        ensures
            r matches Ok(i) ==> spec_count(feed_hrefs(chapters@), current_chapter@) == Some(
                i as int,
            ),
            r matches Err(e) ==> spec_count(feed_hrefs(chapters@), current_chapter@) is None && (
            e matches SyncError::ChapterNotFound(m) && m@ == current_chapter@),
    {
        count_new_chapters(chapters, current_chapter)
    }
}

impl Default for WebsiteMangabuddyCom {
    fn default() -> Self {
        WebsiteMangabuddyCom::new()
    }
}

/// The provider registered for `domain`, if any; lookup is by exact domain
/// string.
pub open spec fn spec_strategy_for(domain: Seq<char>) -> Option<SiteStrategy> {
    if domain == site_domain(SiteStrategy::MangareadOrg) {
        Some(SiteStrategy::MangareadOrg)
    } else if domain == site_domain(SiteStrategy::MangabuddyCom) {
        Some(SiteStrategy::MangabuddyCom)
    } else {
        None
    }
}

/// A domain is supported when some provider is registered for it.
pub open spec fn spec_domain_supported(domain: Seq<char>) -> bool {
    spec_strategy_for(domain) is Some
}

/// The fixed mapping from website domain to provider, built once at startup
/// from the closed set of known implementations.
pub struct StrategyRegistry;

impl StrategyRegistry {
    pub fn new() -> Self {
        StrategyRegistry
    }

    /// Looks a provider up by exact domain string; absence is a normal,
    /// non-exceptional outcome.
    pub fn get(&self, domain: &str) -> (r: Option<SiteStrategy>)
        ensures
            r == spec_strategy_for(domain@),
    {
        if str_eq(domain, "www.mangaread.org") {
            Some(SiteStrategy::MangareadOrg)
        } else if str_eq(domain, "mangabuddy.com") {
            Some(SiteStrategy::MangabuddyCom)
        } else {
            None
        }
    }

    /// The set of domains the registry can service; sources on other domains
    /// are never queried.
    pub fn supported_domains(&self) -> (r: Vec<String>)
        ensures
            r.deep_view() == seq![
                site_domain(SiteStrategy::MangareadOrg),
                site_domain(SiteStrategy::MangabuddyCom),
            ],
    {
        let mut out: Vec<String> = Vec::new();
        out.push(String::from_str("www.mangaread.org"));
        out.push(String::from_str("mangabuddy.com"));
        proof {
            assert(out.deep_view() =~= seq![
                site_domain(SiteStrategy::MangareadOrg),
                site_domain(SiteStrategy::MangabuddyCom),
            ]);
        }
        out
    }
}

impl Default for StrategyRegistry {
    fn default() -> Self {
        StrategyRegistry::new()
    }
}

} // verus!
