use manga_sync::models::CreateManga;
use manga_sync::models::UpdateManga;
use manga_sync::queries::build_manga_list_query;
use manga_sync::queries::manga_update_statement;
use manga_sync::queries::migration_name;
use manga_sync::queries::pending_migrations;
use manga_sync::queries::sources_to_sync_query;
use manga_sync::queries::validate_create_manga;
use manga_sync::queries::validate_update_manga;
use manga_sync::response::ApiError;
use manga_sync::response::ApiResponse;
use manga_sync::keys::KeyManager;
use manga_sync::settings::parse_u64;
use manga_sync::settings::setting_u64_value;

const LIST_BASE: &str = "SELECT m.id, m.name, m.cover_small as cover, (SELECT c.number FROM \
    chapter c WHERE c.manga_id = m.id ORDER BY c.updated_at DESC LIMIT 1) as current_chapter \
    FROM manga m";

#[test]
fn test_sources_query_placeholders() {
    let q = sources_to_sync_query(3);
    assert!(q.ends_with("WHERE w.domain IN (?, ?, ?)"));
    let q1 = sources_to_sync_query(1);
    assert!(q1.ends_with("WHERE w.domain IN (?)"));
}

#[test]
fn test_manga_list_query_defaults() {
    let q = build_manga_list_query(None, None, &vec![]).unwrap();
    let expected = format!(
        "{} ORDER BY (SELECT MAX(updated_at) FROM chapter WHERE manga_id = m.id) DESC \
         LIMIT 20 OFFSET 0",
        LIST_BASE
    );
    assert_eq!(q, expected);
}

#[test]
fn test_manga_list_query_filters_and_paging() {
    let filters = vec![
        ("TEXT".to_string(), "o'clock".to_string()),
        ("READ_AT".to_string(), "ASC".to_string()),
    ];
    let q = build_manga_list_query(Some(10), Some(3), &filters).unwrap();
    assert!(q.contains("WHERE m.name LIKE '%o''clock%'"));
    assert!(q.contains("ORDER BY (SELECT MAX(updated_at) FROM chapter WHERE manga_id = m.id) ASC"));
    assert!(q.ends_with("LIMIT 10 OFFSET 20"));
}

#[test]
fn test_manga_list_query_website_filter() {
    let filters = vec![("WEBSITE".to_string(), "mangabuddy.com".to_string())];
    let q = build_manga_list_query(None, None, &filters).unwrap();
    assert!(q.contains(
        "WHERE EXISTS (SELECT 1 FROM source s JOIN website w ON s.website_id = w.id \
         WHERE s.manga_id = m.id AND w.domain = 'mangabuddy.com')"
    ));
}

#[test]
fn test_manga_list_query_rejects_bad_filters() {
    let bad_sort = vec![("READ_AT".to_string(), "SIDEWAYS".to_string())];
    match build_manga_list_query(None, None, &bad_sort) {
        Err(ApiError::BadRequest(m)) => assert_eq!(m, "Invalid READ_AT value"),
        _ => panic!("expected BadRequest"),
    }
    let unknown = vec![("COLOR".to_string(), "red".to_string())];
    match build_manga_list_query(None, None, &unknown) {
        Err(ApiError::BadRequest(m)) => assert_eq!(m, "Unknown filter key: COLOR"),
        _ => panic!("expected BadRequest"),
    }
}

#[test]
fn test_validate_create_manga() {
    let both = CreateManga {
        name: "A".to_string(),
        cover: "c".to_string(),
        cover_small: "cs".to_string(),
        source_path: Some("/a".to_string()),
        website_domain: Some("d.example".to_string()),
    };
    assert!(validate_create_manga(&both).is_ok());

    let neither = CreateManga {
        name: "A".to_string(),
        cover: "c".to_string(),
        cover_small: "cs".to_string(),
        source_path: None,
        website_domain: None,
    };
    assert!(validate_create_manga(&neither).is_ok());

    let lopsided = CreateManga {
        name: "A".to_string(),
        cover: "c".to_string(),
        cover_small: "cs".to_string(),
        source_path: Some("/a".to_string()),
        website_domain: None,
    };
    match validate_create_manga(&lopsided) {
        Err(ApiError::BadRequest(m)) => {
            assert_eq!(m, "source_path and website_domain must be both present or absent")
        }
        _ => panic!("expected BadRequest"),
    }
}

fn empty_update() -> UpdateManga {
    UpdateManga {
        name: None,
        cover: None,
        cover_small: None,
        source_path: None,
        website_domain: None,
        chapter_number: None,
    }
}

#[test]
fn test_validate_update_manga() {
    match validate_update_manga(&empty_update()) {
        Err(ApiError::BadRequest(m)) => assert_eq!(m, "At least one field required"),
        _ => panic!("expected BadRequest"),
    }

    let mut orphan_path = empty_update();
    orphan_path.source_path = Some("/a".to_string());
    match validate_update_manga(&orphan_path) {
        Err(ApiError::BadRequest(m)) => {
            assert_eq!(m, "website_domain required if source_path exists")
        }
        _ => panic!("expected BadRequest"),
    }

    let mut renames = empty_update();
    renames.name = Some("B".to_string());
    assert!(validate_update_manga(&renames).is_ok());
}

#[test]
fn test_manga_update_statement() {
    assert!(manga_update_statement(false, false, false).is_none());
    assert_eq!(
        manga_update_statement(true, false, true).unwrap(),
        "UPDATE manga SET name = ?, cover_small = ? WHERE id = ?"
    );
    assert_eq!(
        manga_update_statement(false, true, false).unwrap(),
        "UPDATE manga SET cover = ? WHERE id = ?"
    );
}

#[test]
fn test_migration_planning() {
    assert_eq!(migration_name("001_initial.sql"), "001_initial");
    assert_eq!(migration_name("notes.txt"), "notes.txt");

    let available = vec![
        "001_initial.sql".to_string(),
        "002_indexes.sql".to_string(),
        "003_settings.sql".to_string(),
    ];
    let applied = vec!["002_indexes.sql".to_string()];
    let pending = pending_migrations(&available, &applied);
    assert_eq!(pending, vec!["001_initial.sql".to_string(), "003_settings.sql".to_string()]);
}

#[test]
fn test_setting_values_parse_or_default() {
    assert_eq!(parse_u64("86400"), Some(86400));
    assert_eq!(parse_u64("+7"), Some(7));
    assert_eq!(parse_u64("0"), Some(0));
    assert_eq!(parse_u64("18446744073709551615"), Some(u64::MAX));
    assert_eq!(parse_u64("18446744073709551616"), None);
    assert_eq!(parse_u64(""), None);
    assert_eq!(parse_u64("+"), None);
    assert_eq!(parse_u64("12h"), None);
    assert_eq!(parse_u64("-3"), None);

    assert_eq!(setting_u64_value("3600", 86400), 3600);
    assert_eq!(setting_u64_value("soon", 86400), 86400);
}

#[test]
fn test_authorize_header_decisions() {
    let mut km = KeyManager::new("secret/key.pub", 90, 365);
    let key = km.refresh_key();

    assert!(km.authorize(Some(&format!("Bearer {}", key))).is_ok());
    assert!(matches!(km.authorize(None), Err(ApiError::Unauthorized)));
    assert!(matches!(km.authorize(Some("Basic abc")), Err(ApiError::Unauthorized)));
    assert!(matches!(km.authorize(Some("Bearer wrong")), Err(ApiError::Forbidden)));
}

#[test]
fn test_api_response_envelopes() {
    let ok = ApiResponse::<i64>::success(7);
    assert_eq!(ok.status, "success");
    assert_eq!(ok.message, "Operation successful");
    assert_eq!(ok.data, Some(7));

    let null = ApiResponse::success_null();
    assert_eq!(null.status, "success");
    assert!(null.data.is_none());

    let err = ApiResponse::<i64>::error("nope");
    assert_eq!(err.status, "error");
    assert_eq!(err.message, "nope");
    assert!(err.data.is_none());
}

#[test]
fn test_api_error_status_codes() {
    assert_eq!(ApiError::Unauthorized.status_and_message(), (401, "Unauthorized".to_string()));
    assert_eq!(ApiError::Forbidden.status_and_message(), (403, "Forbidden".to_string()));
    assert_eq!(
        ApiError::NotFound("missing".to_string()).status_and_message(),
        (404, "missing".to_string())
    );
    assert_eq!(
        ApiError::BadRequest("bad".to_string()).status_and_message(),
        (400, "bad".to_string())
    );
    assert_eq!(
        ApiError::Internal("oops".to_string()).status_and_message(),
        (500, "oops".to_string())
    );
}
