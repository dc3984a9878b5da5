use manga_sync::cache::ChapterCache;
use manga_sync::report::summarize;
use manga_sync::report::total_new_chapters;
use manga_sync::service::SyncAction;
use manga_sync::service::SyncEvent;
use manga_sync::service::SyncPass;
use manga_sync::service::SyncResult;
use manga_sync::service::SyncSourceInfo;
use manga_sync::strategies::SiteStrategy;
use manga_sync::strategies::StrategyRegistry;
use manga_sync::strategy::ChapterLink;
use manga_sync::strategy::SyncError;
use manga_sync::strategy::count_new_chapters;

fn link(href: &str) -> ChapterLink {
    ChapterLink { href: href.to_string() }
}

fn source(
    id: i64,
    name: &str,
    domain: &str,
    path: &str,
    external: Option<&str>,
    current: Option<&str>,
) -> SyncSourceInfo {
    SyncSourceInfo {
        source_id: id,
        manga_id: id * 10,
        manga_name: name.to_string(),
        domain: domain.to_string(),
        path: path.to_string(),
        external_manga_id: external.map(|s| s.to_string()),
        current_chapter: current.map(|s| s.to_string()),
    }
}

const MANGAREAD_PAGE: &str = "<html><body><ul>\
    <li class=\"wp-manga-chapter\"><a href=\"https://www.mangaread.org/manga/test/chapter-6/\">6</a></li>\
    <li class=\"wp-manga-chapter\"><a href=\"https://www.mangaread.org/manga/test/chapter-5/\">5</a></li>\
    <li class=\"wp-manga-chapter\"><a href=\"https://www.mangaread.org/manga/test/chapter-4/\">4</a></li>\
    </ul></body></html>";

#[test]
fn test_trailing_slash_and_bare_locators_match_alike() {
    let chapters = vec![link("https://a.example/x/chapter-4"), link("https://a.example/x/chapter-3/")];
    assert_eq!(count_new_chapters(&chapters, "chapter-4").unwrap(), 0);
    assert_eq!(count_new_chapters(&chapters, "chapter-3").unwrap(), 1);
}

#[test]
fn test_count_does_not_match_bare_prefix() {
    // "chapter-1" must not match a locator ending in "chapter-21"
    let chapters = vec![link("/m/chapter-21"), link("/m/chapter-1")];
    assert_eq!(count_new_chapters(&chapters, "chapter-1").unwrap(), 1);
}

#[test]
fn test_chapter_not_found_error_carries_marker() {
    let chapters = vec![link("/m/chapter-2")];
    match count_new_chapters(&chapters, "chapter-9") {
        Err(SyncError::ChapterNotFound(marker)) => assert_eq!(marker, "chapter-9"),
        other => panic!("expected ChapterNotFound, got {:?}", other),
    }
}

#[test]
fn test_cache_round_trip_and_ttl_expiry() {
    let mut cache = ChapterCache::new();
    let feed = vec![link("/m/chapter-2"), link("/m/chapter-1")];
    cache.set("site.example", "/m", feed, 1000);

    let hit = cache.get("site.example", "/m", 1000).expect("fresh entry");
    assert_eq!(hit.len(), 2);
    assert_eq!(hit[0].href, "/m/chapter-2");

    // still fresh one second before the TTL elapses
    assert!(cache.get("site.example", "/m", 1000 + 86399).is_some());
    // absent once the TTL has elapsed
    assert!(cache.get("site.example", "/m", 1000 + 86400).is_none());
    // other keys are unaffected
    assert!(cache.get("site.example", "/other", 1000).is_none());
}

#[test]
fn test_cache_set_replaces_wholesale() {
    let mut cache = ChapterCache::new();
    cache.set("d", "/p", vec![link("/m/chapter-1")], 10);
    cache.set("d", "/p", vec![link("/m/chapter-2"), link("/m/chapter-1")], 20);
    let hit = cache.get("d", "/p", 20).expect("entry");
    assert_eq!(hit.len(), 2);
    assert_eq!(hit[0].href, "/m/chapter-2");
}

#[test]
fn test_registry_lookup() {
    let registry = StrategyRegistry::new();
    assert!(matches!(registry.get("www.mangaread.org"), Some(SiteStrategy::MangareadOrg)));
    assert!(matches!(registry.get("mangabuddy.com"), Some(SiteStrategy::MangabuddyCom)));
    assert!(registry.get("unknown.example").is_none());
    let domains = registry.supported_domains();
    assert_eq!(domains, vec!["www.mangaread.org".to_string(), "mangabuddy.com".to_string()]);
}

#[test]
fn test_parse_chapters_from_page() {
    let parsed = SiteStrategy::MangareadOrg.parse_chapters(MANGAREAD_PAGE).unwrap();
    let hrefs: Vec<&str> = parsed.iter().map(|c| c.href.as_str()).collect();
    assert_eq!(
        hrefs,
        vec![
            "https://www.mangaread.org/manga/test/chapter-6/",
            "https://www.mangaread.org/manga/test/chapter-5/",
            "https://www.mangaread.org/manga/test/chapter-4/",
        ]
    );
}

#[test]
fn test_parse_chapters_empty_is_parse_error() {
    let result = SiteStrategy::MangareadOrg.parse_chapters("<html><body></body></html>");
    match result {
        Err(SyncError::ParseError(m)) => assert_eq!(m, "No chapters found on page"),
        other => panic!("expected ParseError, got {:?}", other),
    }
}

#[test]
fn test_parse_chapters_api_response() {
    let html = "<select id=\"chapter-list\">\
        <option value=\"/solo-leveling/chapter-200\">200</option>\
        <option value=\"/solo-leveling/chapter-199\">199</option>\
        </select>";
    let parsed = SiteStrategy::MangabuddyCom.parse_chapters(html).unwrap();
    assert_eq!(parsed.len(), 2);
    assert_eq!(parsed[0].href, "/solo-leveling/chapter-200");
    assert_eq!(parsed[1].href, "/solo-leveling/chapter-199");
}

#[test]
fn test_extract_external_id_from_page() {
    let html = "<html><script>var bookId = 12345;</script></html>";
    let id = SiteStrategy::MangabuddyCom.extract_external_id(html).unwrap();
    assert_eq!(id, Some("12345".to_string()));
}

#[test]
fn test_extract_external_id_missing_is_parse_error() {
    let result = SiteStrategy::MangabuddyCom.extract_external_id("<html></html>");
    match result {
        Err(SyncError::ParseError(m)) => assert_eq!(m, "Could not find bookId in page"),
        other => panic!("expected ParseError, got {:?}", other),
    }
}

#[test]
fn test_error_messages() {
    assert_eq!(SyncError::HttpError("boom".to_string()).message(), "HTTP error: boom");
    assert_eq!(SyncError::ParseError("bad".to_string()).message(), "Parse error: bad");
    assert_eq!(
        SyncError::ChapterNotFound("chapter-3".to_string()).message(),
        "Chapter not found: chapter-3"
    );
}

/// Drives a pass to completion, answering every fetch with `pages` in turn
/// and every save with success; returns the results and the fetched URLs.
fn drive(
    sources: Vec<SyncSourceInfo>,
    cache: &mut ChapterCache,
    pages: Vec<Result<&str, &str>>,
    now: u64,
) -> (Vec<SyncResult>, Vec<String>) {
    let mut pass = SyncPass::new(sources);
    let mut fetched: Vec<String> = Vec::new();
    let mut pages = pages.into_iter();
    let mut action = pass.start(cache, now);
    loop {
        match action {
            SyncAction::PassComplete => break,
            SyncAction::Fetch { url } => {
                fetched.push(url);
                let event = match pages.next().expect("unexpected fetch") {
                    Ok(body) => SyncEvent::FetchOk(body.to_string()),
                    Err(msg) => SyncEvent::FetchFailed(msg.to_string()),
                };
                action = pass.step(cache, event, now);
            }
            SyncAction::SaveExternalId { .. } | SyncAction::SaveUnreadCount { .. } => {
                action = pass.step(cache, SyncEvent::SaveOk, now);
            }
        }
    }
    (pass.into_results(), fetched)
}

#[test]
fn test_pass_full_backlog_when_no_chapter_read_yet() {
    // a source with no recorded current chapter gets the feed's full length,
    // with no retry fetch
    let mut cache = ChapterCache::new();
    let sources = vec![source(1, "Test", "www.mangaread.org", "/manga/test/", None, None)];
    let (results, fetched) = drive(sources, &mut cache, vec![Ok(MANGAREAD_PAGE)], 50);
    assert_eq!(fetched, vec!["https://www.mangaread.org/manga/test/".to_string()]);
    assert_eq!(results.len(), 1);
    assert!(results[0].error.is_none());
    assert_eq!(results[0].new_chapters, 3);
    // the fetched feed was cached
    assert_eq!(cache.get("www.mangaread.org", "/manga/test/", 50).unwrap().len(), 3);
}

#[test]
fn test_pass_counts_against_current_chapter() {
    let mut cache = ChapterCache::new();
    let sources = vec![source(
        1,
        "Test",
        "www.mangaread.org",
        "/manga/test/",
        None,
        Some("chapter-5"),
    )];
    let (results, fetched) = drive(sources, &mut cache, vec![Ok(MANGAREAD_PAGE)], 50);
    assert_eq!(fetched.len(), 1);
    assert!(results[0].error.is_none());
    assert_eq!(results[0].new_chapters, 1);
}

#[test]
fn test_pass_stale_cache_triggers_exactly_one_fresh_fetch() {
    // the cached feed lacks the marker: the orchestrator refetches once,
    // repopulates the cache, and succeeds on the fresh feed
    let mut cache = ChapterCache::new();
    let stale = vec![
        link("https://www.mangaread.org/manga/test/chapter-3/"),
        link("https://www.mangaread.org/manga/test/chapter-2/"),
    ];
    cache.set("www.mangaread.org", "/manga/test/", stale, 40);

    let sources = vec![source(
        1,
        "Test",
        "www.mangaread.org",
        "/manga/test/",
        None,
        Some("chapter-5"),
    )];
    let (results, fetched) = drive(sources, &mut cache, vec![Ok(MANGAREAD_PAGE)], 50);
    // exactly one fresh fetch for this source
    assert_eq!(fetched, vec!["https://www.mangaread.org/manga/test/".to_string()]);
    assert!(results[0].error.is_none());
    assert_eq!(results[0].new_chapters, 1);
    // the cache now holds the fresh feed
    let cached = cache.get("www.mangaread.org", "/manga/test/", 50).unwrap();
    assert_eq!(cached[0].href, "https://www.mangaread.org/manga/test/chapter-6/");
}

#[test]
fn test_pass_stale_feed_twice_surfaces_count_error() {
    // the marker is absent from the cached feed and from the fresh one:
    // after the single retry the failure is the source's error
    let mut cache = ChapterCache::new();
    let stale = vec![link("https://www.mangaread.org/manga/test/chapter-3/")];
    cache.set("www.mangaread.org", "/manga/test/", stale, 40);

    let sources = vec![source(
        1,
        "Test",
        "www.mangaread.org",
        "/manga/test/",
        None,
        Some("chapter-99"),
    )];
    let (results, fetched) = drive(sources, &mut cache, vec![Ok(MANGAREAD_PAGE)], 50);
    assert_eq!(fetched.len(), 1);
    assert_eq!(
        results[0].error.as_deref(),
        Some("Failed to count new chapters: Chapter not found: chapter-99")
    );
    assert_eq!(results[0].new_chapters, 0);
}

#[test]
fn test_pass_cache_hit_avoids_network() {
    let mut cache = ChapterCache::new();
    let feed = vec![
        link("https://www.mangaread.org/manga/test/chapter-6/"),
        link("https://www.mangaread.org/manga/test/chapter-5/"),
    ];
    cache.set("www.mangaread.org", "/manga/test/", feed, 40);

    let sources = vec![source(
        1,
        "Test",
        "www.mangaread.org",
        "/manga/test/",
        None,
        Some("chapter-5"),
    )];
    let (results, fetched) = drive(sources, &mut cache, vec![], 50);
    assert!(fetched.is_empty());
    assert!(results[0].error.is_none());
    assert_eq!(results[0].new_chapters, 1);
}

#[test]
fn test_pass_isolates_failures_and_keeps_every_source() {
    // N sources, M on unsupported domains: exactly N results; the M carry
    // the unsupported-domain error; a forced failure in one of the others
    // does not remove or corrupt the rest
    let mut cache = ChapterCache::new();
    let sources = vec![
        source(1, "Alpha", "www.mangaread.org", "/manga/alpha/", None, None),
        source(2, "Beta", "unsupported.example", "/x", None, None),
        source(3, "Gamma", "www.mangaread.org", "/manga/gamma/", None, None),
        source(4, "Delta", "other.example", "/y", None, None),
    ];
    let (results, fetched) = drive(
        sources,
        &mut cache,
        vec![Ok(MANGAREAD_PAGE), Err("connection reset")],
        50,
    );
    assert_eq!(results.len(), 4);
    assert_eq!(fetched.len(), 2);

    assert_eq!(results[0].source_id, 1);
    assert!(results[0].error.is_none());
    assert_eq!(results[0].new_chapters, 3);

    assert_eq!(results[1].source_id, 2);
    assert_eq!(results[1].error.as_deref(), Some("No strategy for domain: unsupported.example"));
    assert_eq!(results[1].new_chapters, 0);

    assert_eq!(results[2].source_id, 3);
    assert_eq!(
        results[2].error.as_deref(),
        Some("Failed to fetch chapters: HTTP error: connection reset")
    );

    assert_eq!(results[3].source_id, 4);
    assert_eq!(results[3].error.as_deref(), Some("No strategy for domain: other.example"));
}

#[test]
fn test_pass_extracts_external_id_only_when_missing() {
    // first pass: no stored identifier, so the canonical page is fetched
    // and the identifier extracted and saved; second pass (identifier now
    // stored): no canonical-page fetch at all
    let buddy_api_page = "<select id=\"chapter-list\">\
        <option value=\"/solo-leveling/chapter-2\">2</option>\
        <option value=\"/solo-leveling/chapter-1\">1</option>\
        </select>";

    let mut cache = ChapterCache::new();
    let sources = vec![source(7, "Solo", "mangabuddy.com", "/solo-leveling", None, None)];
    let (results, fetched) = drive(
        sources,
        &mut cache,
        vec![Ok("<script>var bookId = 777;</script>"), Ok(buddy_api_page)],
        50,
    );
    assert!(results[0].error.is_none());
    assert_eq!(results[0].new_chapters, 2);
    assert_eq!(
        fetched,
        vec![
            "https://mangabuddy.com/solo-leveling".to_string(),
            "https://mangabuddy.com/api/manga/777/chapters".to_string(),
        ]
    );

    // second pass, with the identifier persisted: the only fetch is the
    // chapters API (the cache is bypassed here by using a later time)
    let mut cache2 = ChapterCache::new();
    let sources2 = vec![source(7, "Solo", "mangabuddy.com", "/solo-leveling", Some("777"), None)];
    let (results2, fetched2) = drive(sources2, &mut cache2, vec![Ok(buddy_api_page)], 60);
    assert!(results2[0].error.is_none());
    assert_eq!(fetched2, vec!["https://mangabuddy.com/api/manga/777/chapters".to_string()]);
}

#[test]
fn test_pass_requires_external_id_save_failure_is_not_fatal() {
    // a failed best-effort save of the identifier does not abort the source
    let buddy_api_page = "<select id=\"chapter-list\">\
        <option value=\"/solo-leveling/chapter-1\">1</option>\
        </select>";
    let mut cache = ChapterCache::new();
    let mut pass = SyncPass::new(vec![source(
        7,
        "Solo",
        "mangabuddy.com",
        "/solo-leveling",
        None,
        None,
    )]);
    let action = pass.start(&cache, 50);
    assert!(matches!(action, SyncAction::Fetch { .. }));
    let action = pass.step(
        &mut cache,
        SyncEvent::FetchOk("var bookId = 9;".to_string()),
        50,
    );
    match &action {
        SyncAction::SaveExternalId { source_id, external_id } => {
            assert_eq!(*source_id, 7);
            assert_eq!(external_id, "9");
        }
        other => panic!("expected SaveExternalId, got {:?}", action_name(other)),
    }
    // the save fails; the pass still uses the identifier for this run
    let action = pass.step(&mut cache, SyncEvent::SaveFailed, 50);
    match &action {
        SyncAction::Fetch { url } => assert_eq!(url, "https://mangabuddy.com/api/manga/9/chapters"),
        other => panic!("expected Fetch, got {:?}", action_name(other)),
    }
    let action = pass.step(&mut cache, SyncEvent::FetchOk(buddy_api_page.to_string()), 50);
    assert!(matches!(action, SyncAction::SaveUnreadCount { count: 1, .. }));
    // a failed count save is not fatal either
    let action = pass.step(&mut cache, SyncEvent::SaveFailed, 50);
    assert!(matches!(action, SyncAction::PassComplete));
    let results = pass.into_results();
    assert!(results[0].error.is_none());
    assert_eq!(results[0].new_chapters, 1);
}

fn action_name(a: &SyncAction) -> &'static str {
    match a {
        SyncAction::Fetch { .. } => "Fetch",
        SyncAction::SaveExternalId { .. } => "SaveExternalId",
        SyncAction::SaveUnreadCount { .. } => "SaveUnreadCount",
        SyncAction::PassComplete => "PassComplete",
    }
}

#[test]
fn test_summary_tallies() {
    let results = vec![
        SyncResult {
            source_id: 1,
            manga_name: "A".to_string(),
            domain: "d".to_string(),
            new_chapters: 3,
            error: None,
        },
        SyncResult {
            source_id: 2,
            manga_name: "B".to_string(),
            domain: "d".to_string(),
            new_chapters: 0,
            error: Some("boom".to_string()),
        },
        SyncResult {
            source_id: 3,
            manga_name: "C".to_string(),
            domain: "d".to_string(),
            new_chapters: 4,
            error: None,
        },
    ];
    let total = total_new_chapters(&results);
    let summary = summarize(results);
    assert_eq!(summary.total, 3);
    assert_eq!(summary.success, 2);
    assert_eq!(summary.errors, 1);
    assert_eq!(summary.results.len(), 3);
    assert_eq!(total, 7);
}
