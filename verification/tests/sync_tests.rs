use manga_sync::strategy::ChapterLink;
use manga_sync::strategies::WebsiteMangabuddyCom;
use manga_sync::strategies::WebsiteMangareadOrg;

fn link(href: &str) -> ChapterLink {
    ChapterLink { href: href.to_string() }
}

#[test]
fn mangaread_org_test_count_new_chapters() {
    let strategy = WebsiteMangareadOrg::new();

    let chapters = vec![
        link("https://example.com/manga/chapter-5/"),
        link("https://example.com/manga/chapter-4/"),
        link("https://example.com/manga/chapter-3/"),
        link("https://example.com/manga/chapter-2/"),
        link("https://example.com/manga/chapter-1/"),
    ];

    assert_eq!(strategy.count_new_chapters(&chapters, "chapter-3").unwrap(), 2);
    assert_eq!(strategy.count_new_chapters(&chapters, "chapter-5").unwrap(), 0);
    assert_eq!(strategy.count_new_chapters(&chapters, "chapter-1").unwrap(), 4);
}

#[test]
fn mangaread_org_test_count_new_chapters_not_found() {
    let strategy = WebsiteMangareadOrg::new();

    let chapters = vec![
        link("https://example.com/manga/chapter-2/"),
        link("https://example.com/manga/chapter-1/"),
    ];

    let result = strategy.count_new_chapters(&chapters, "chapter-99");
    assert!(result.is_err());
}

#[test]
fn mangabuddy_com_test_count_new_chapters() {
    let strategy = WebsiteMangabuddyCom::new();

    let chapters = vec![
        link("/solo-leveling/chapter-200"),
        link("/solo-leveling/chapter-199"),
        link("/solo-leveling/chapter-198"),
        link("/solo-leveling/chapter-1"),
    ];

    assert_eq!(strategy.count_new_chapters(&chapters, "chapter-199").unwrap(), 1);
    assert_eq!(strategy.count_new_chapters(&chapters, "chapter-200").unwrap(), 0);
}

#[test]
fn mangabuddy_com_test_count_new_chapters_not_found() {
    let strategy = WebsiteMangabuddyCom::new();

    let chapters = vec![link("/solo-leveling/chapter-2"), link("/solo-leveling/chapter-1")];

    let result = strategy.count_new_chapters(&chapters, "chapter-999");
    assert!(result.is_err());
}

#[test]
fn test_mangaread_count_new_chapters_basic() {
    let strategy = WebsiteMangareadOrg::new();

    let chapters = vec![
        link("https://www.mangaread.org/manga/test/chapter-282/"),
        link("https://www.mangaread.org/manga/test/chapter-281/"),
        link("https://www.mangaread.org/manga/test/chapter-280/"),
        link("https://www.mangaread.org/manga/test/chapter-1/"),
        link("https://www.mangaread.org/manga/test/chapter-0/"),
    ];

    assert_eq!(strategy.count_new_chapters(&chapters, "chapter-280").unwrap(), 2);
    assert_eq!(strategy.count_new_chapters(&chapters, "chapter-0").unwrap(), 4);
    assert_eq!(strategy.count_new_chapters(&chapters, "chapter-282").unwrap(), 0);
}

#[test]
fn test_mangaread_count_new_chapters_not_found() {
    let strategy = WebsiteMangareadOrg::new();

    let chapters = vec![
        link("https://www.mangaread.org/manga/test/chapter-10/"),
        link("https://www.mangaread.org/manga/test/chapter-9/"),
    ];

    let result = strategy.count_new_chapters(&chapters, "chapter-999");
    assert!(result.is_err());
}

#[test]
fn test_mangabuddy_count_new_chapters_basic() {
    let strategy = WebsiteMangabuddyCom::new();

    let chapters = vec![
        link("/solo-leveling/chapter-227"),
        link("/solo-leveling/chapter-226"),
        link("/solo-leveling/chapter-225"),
        link("/solo-leveling/chapter-2"),
        link("/solo-leveling/chapter-1"),
    ];

    assert_eq!(strategy.count_new_chapters(&chapters, "chapter-225").unwrap(), 2);
    assert_eq!(strategy.count_new_chapters(&chapters, "chapter-1").unwrap(), 4);
    assert_eq!(strategy.count_new_chapters(&chapters, "chapter-227").unwrap(), 0);
}

#[test]
fn test_mangabuddy_count_new_chapters_not_found() {
    let strategy = WebsiteMangabuddyCom::new();

    let chapters = vec![link("/solo-leveling/chapter-10"), link("/solo-leveling/chapter-9")];

    let result = strategy.count_new_chapters(&chapters, "chapter-999");
    assert!(result.is_err());
}

#[test]
fn test_strategy_domains() {
    let mangaread = WebsiteMangareadOrg::new();
    assert_eq!(mangaread.domain(), "www.mangaread.org");

    let mangabuddy = WebsiteMangabuddyCom::new();
    assert_eq!(mangabuddy.domain(), "mangabuddy.com");
}
