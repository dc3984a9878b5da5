//! The decision and text-assembly half of the persistence layer: request
//! validation, SQL statement construction, and migration planning. Executing
//! the statements is the caller's business.
use vstd::prelude::*;

verus! {

use vstd::string::*;
use crate::models::CreateManga;
use crate::models::UpdateManga;
use crate::response::ApiError;
use crate::text::ends_with;
use crate::text::escape_sql;
use crate::text::i64_to_string;
use crate::text::join_strings;
use crate::text::spec_dec;
use crate::text::spec_join;
use crate::text::spec_sql_escaped;
use crate::text::str_eq;
use crate::text::str_ends_with;

/// `n` SQL parameter placeholders, comma-separated.
pub open spec fn spec_placeholders(n: nat) -> Seq<Seq<char>>
    decreases n,
{
    if n == 0 {
        Seq::empty()
    } else {
        spec_placeholders((n - 1) as nat).push("?"@)
    }
}

/// The query that loads the sources to synchronize, with one placeholder
/// per supported domain in its `IN` list.
pub open spec fn spec_sources_query(n: nat) -> Seq<char> {
    "SELECT s.id as source_id, s.manga_id, m.name as manga_name, w.domain, s.path, s.external_manga_id, (SELECT c.number FROM chapter c WHERE c.manga_id = s.manga_id ORDER BY c.updated_at DESC LIMIT 1) as current_chapter FROM source s JOIN manga m ON m.id = s.manga_id JOIN website w ON w.id = s.website_id WHERE w.domain IN ("@
        + spec_join(spec_placeholders(n), ", "@) + ")"@
}

/// The parameterized query that loads every source on one of `domain_count`
/// whitelisted domains, joined with its manga's name and latest chapter.
pub fn sources_to_sync_query(domain_count: usize) -> (r: String)
    ensures
        r@ == spec_sources_query(domain_count as nat),
{
    let mut marks: Vec<String> = Vec::new();
    let mut i: usize = 0;
    while i < domain_count
        invariant
            i <= domain_count,
            marks.deep_view() == spec_placeholders(i as nat),
        decreases domain_count - i,
    {
        let ghost before = marks.deep_view();
        marks.push(String::from_str("?"));
        proof {
            assert(marks.deep_view() =~= before.push("?"@));
        }
        i = i + 1;
    }
    String::from_str(
        "SELECT s.id as source_id, s.manga_id, m.name as manga_name, w.domain, s.path, s.external_manga_id, (SELECT c.number FROM chapter c WHERE c.manga_id = s.manga_id ORDER BY c.updated_at DESC LIMIT 1) as current_chapter FROM source s JOIN manga m ON m.id = s.manga_id JOIN website w ON w.id = s.website_id WHERE w.domain IN (",
    ).concat(join_strings(&marks, ", ").as_str()).concat(")")
}

/// The title-listing sort for the newest reading activity first (the
/// default) …
pub open spec fn spec_sort_desc() -> Seq<char> {
    "ORDER BY (SELECT MAX(updated_at) FROM chapter WHERE manga_id = m.id) DESC"@
}

/// … and for the oldest first.
pub open spec fn spec_sort_asc() -> Seq<char> {
    "ORDER BY (SELECT MAX(updated_at) FROM chapter WHERE manga_id = m.id) ASC"@
}

/// The name filter: a LIKE over the escaped search text.
pub open spec fn spec_text_filter(value: Seq<char>) -> Seq<char> {
    "m.name LIKE '%"@ + spec_sql_escaped(value) + "%'"@
}

/// The website filter: the title has a source on the escaped domain.
pub open spec fn spec_website_filter(value: Seq<char>) -> Seq<char> {
    "EXISTS (SELECT 1 FROM source s JOIN website w ON s.website_id = w.id WHERE s.manga_id = m.id AND w.domain = '"@
        + spec_sql_escaped(value) + "')"@
}

/// The views of a key-value filter list.
pub open spec fn kv_views(s: Seq<(String, String)>) -> Seq<(Seq<char>, Seq<char>)> {
    s.map_values(|p: (String, String)| (p.0@, p.1@))
}

/// Folds the filter entries left to right: a sort key replaces the sort
/// (last one wins), a text or website key appends its clause, anything else
/// is rejected — as is a sort direction that is neither ASC nor DESC.
pub open spec fn spec_filter_fold(
    fs: Seq<(Seq<char>, Seq<char>)>,
    clauses: Seq<Seq<char>>,
    sort: Seq<char>,
) -> Result<(Seq<Seq<char>>, Seq<char>), Seq<char>>
    decreases fs.len(),
{
    if fs.len() == 0 {
        Ok((clauses, sort))
    } else {
        let k = fs[0].0;
        let v = fs[0].1;
        if k == "READ_AT"@ {
            if v == "ASC"@ {
                spec_filter_fold(fs.drop_first(), clauses, spec_sort_asc())
            } else if v == "DESC"@ {
                spec_filter_fold(fs.drop_first(), clauses, spec_sort_desc())
            } else {
                Err("Invalid READ_AT value"@)
            }
        } else if k == "TEXT"@ {
            spec_filter_fold(fs.drop_first(), clauses.push(spec_text_filter(v)), sort)
        } else if k == "WEBSITE"@ {
            spec_filter_fold(fs.drop_first(), clauses.push(spec_website_filter(v)), sort)
        } else {
            Err("Unknown filter key: "@ + k)
        }
    }
}

/// The full title-listing query for the given page and filters, or the
/// message of the request error that rejects them.
pub open spec fn spec_manga_list_query(
    size: int,
    page: int,
    filters: Seq<(Seq<char>, Seq<char>)>,
) -> Result<Seq<char>, Seq<char>> {
    match spec_filter_fold(filters, Seq::empty(), spec_sort_desc()) {
        Err(m) => Err(m),
        Ok((clauses, sort)) => Ok(
            "SELECT m.id, m.name, m.cover_small as cover, (SELECT c.number FROM chapter c WHERE c.manga_id = m.id ORDER BY c.updated_at DESC LIMIT 1) as current_chapter FROM manga m"@
                + (if clauses.len() > 0 {
                " WHERE "@ + spec_join(clauses, " AND "@)
            } else {
                Seq::empty()
            }) + " "@ + sort + " LIMIT "@ + spec_dec(size) + " OFFSET "@ + spec_dec(
                (page - 1) * size,
            ),
        ),
    }
}

/// Builds the title-listing query: page size and number default to 20 and
/// 1, the filters are validated and folded into WHERE clauses and a sort,
/// and the page is turned into LIMIT and OFFSET.
pub fn build_manga_list_query(
    size_opt: Option<i64>,
    page_opt: Option<i64>,
    filters: &Vec<(String, String)>,
) -> (r: Result<String, ApiError>)
    requires
        ({
            let size = if size_opt is Some {
                size_opt->0 as int
            } else {
                20
            };
            let page = if page_opt is Some {
                page_opt->0 as int
            } else {
                1
            };
            i64::MIN < page && i64::MIN <= (page - 1) * size <= i64::MAX
        }),
    ensures
        ({
            let size = if size_opt is Some {
                size_opt->0 as int
            } else {
                20
            };
            let page = if page_opt is Some {
                page_opt->0 as int
            } else {
                1
            };
            match spec_manga_list_query(size, page, kv_views(filters@)) {
                Ok(q) => r matches Ok(s) && s@ == q,
                Err(m) => r matches Err(e) && (e matches ApiError::BadRequest(b) && b@ == m),
            }
        }),
{
    let size: i64 = match size_opt {
        Some(s) => s,
        None => 20,
    };
    let page: i64 = match page_opt {
        Some(p) => p,
        None => 1,
    };
    let offset: i64 = (page - 1) * size;
    let mut clauses: Vec<String> = Vec::new();
    let mut sort = String::from_str(
        "ORDER BY (SELECT MAX(updated_at) FROM chapter WHERE manga_id = m.id) DESC",
    );
    let n = filters.len();
    proof {
        assert(clauses.deep_view() =~= Seq::<Seq<char>>::empty());
        assert(kv_views(filters@).subrange(0, n as int) =~= kv_views(filters@));
    }
    let mut i: usize = 0;
    while i < n
        invariant
            i <= n,
            n == filters@.len(),
            spec_filter_fold(kv_views(filters@), Seq::empty(), spec_sort_desc())
                == spec_filter_fold(
                kv_views(filters@).subrange(i as int, n as int),
                clauses.deep_view(),
                sort@,
            ),
        decreases n - i,
    {
        proof {
            assert(kv_views(filters@).subrange(i as int, n as int).drop_first()
                =~= kv_views(filters@).subrange(i + 1, n as int));
            assert(kv_views(filters@).subrange(i as int, n as int)[0] == kv_views(filters@)[
                i as int
            ]);
        }
        let key = &filters[i].0;
        let value = &filters[i].1;
        if str_eq(key.as_str(), "READ_AT") {
            if str_eq(value.as_str(), "ASC") {
                sort = String::from_str(
                    "ORDER BY (SELECT MAX(updated_at) FROM chapter WHERE manga_id = m.id) ASC",
                );
            } else if str_eq(value.as_str(), "DESC") {
                sort = String::from_str(
                    "ORDER BY (SELECT MAX(updated_at) FROM chapter WHERE manga_id = m.id) DESC",
                );
            } else {
                return Err(ApiError::BadRequest(String::from_str("Invalid READ_AT value")));
            }
        } else if str_eq(key.as_str(), "TEXT") {
            let ghost before = clauses.deep_view();
            let clause = String::from_str("m.name LIKE '%").concat(
                escape_sql(value.as_str()).as_str(),
            ).concat("%'");
            clauses.push(clause);
            proof {
                assert(clauses.deep_view() =~= before.push(spec_text_filter(value@)));
            }
        } else if str_eq(key.as_str(), "WEBSITE") {
            let ghost before = clauses.deep_view();
            let clause = String::from_str(
                "EXISTS (SELECT 1 FROM source s JOIN website w ON s.website_id = w.id WHERE s.manga_id = m.id AND w.domain = '",
            ).concat(escape_sql(value.as_str()).as_str()).concat("')");
            clauses.push(clause);
            proof {
                assert(clauses.deep_view() =~= before.push(spec_website_filter(value@)));
            }
        } else {
            let msg = String::from_str("Unknown filter key: ").concat(key.as_str());
            return Err(ApiError::BadRequest(msg));
        }
        i = i + 1;
    }
    proof {
        assert(kv_views(filters@).subrange(n as int, n as int) =~= Seq::<(
            Seq<char>,
            Seq<char>,
        )>::empty());
        assert(kv_views(filters@).subrange(0, n as int) =~= kv_views(filters@));
    }
    let mut query = String::from_str(
        "SELECT m.id, m.name, m.cover_small as cover, (SELECT c.number FROM chapter c WHERE c.manga_id = m.id ORDER BY c.updated_at DESC LIMIT 1) as current_chapter FROM manga m",
    );
    if clauses.len() > 0 {
        query = query.concat(" WHERE ").concat(join_strings(&clauses, " AND ").as_str());
    }
    query = query.concat(" ").concat(sort.as_str()).concat(" LIMIT ").concat(
        i64_to_string(size).as_str(),
    ).concat(" OFFSET ").concat(i64_to_string(offset).as_str());
    Ok(query)
}

/// Accepts a creation payload exactly when the source path and the website
/// domain come together or not at all.
pub fn validate_create_manga(payload: &CreateManga) -> (r: Result<(), ApiError>)
    ensures
        r is Ok <==> (payload.source_path is Some <==> payload.website_domain is Some),
        r matches Err(e) ==> (e matches ApiError::BadRequest(m) && m@
            == "source_path and website_domain must be both present or absent"@),
{
    if payload.source_path.is_some() != payload.website_domain.is_some() {
        Err(
            ApiError::BadRequest(
                String::from_str("source_path and website_domain must be both present or absent"),
            ),
        )
    } else {
        Ok(())
    }
}

/// Every field of an update payload is absent.
pub open spec fn spec_update_empty(p: UpdateManga) -> bool {
    p.name is None && p.cover is None && p.cover_small is None && p.source_path is None
        && p.website_domain is None && p.chapter_number is None
}

/// Accepts an update payload exactly when it has at least one field and a
/// source path, if any, brings its website domain along.
pub fn validate_update_manga(payload: &UpdateManga) -> (r: Result<(), ApiError>)
    ensures
        r is Ok <==> (!spec_update_empty(*payload) && !(payload.source_path is Some
            && payload.website_domain is None)),
        spec_update_empty(*payload) ==> (r matches Err(e) && (e matches ApiError::BadRequest(m)
            && m@ == "At least one field required"@)),
        (!spec_update_empty(*payload) && payload.source_path is Some && payload.website_domain
            is None) ==> (r matches Err(e) && (e matches ApiError::BadRequest(m) && m@
            == "website_domain required if source_path exists"@)),
{
    if payload.name.is_none() && payload.cover.is_none() && payload.cover_small.is_none()
        && payload.source_path.is_none() && payload.website_domain.is_none()
        && payload.chapter_number.is_none() {
        Err(ApiError::BadRequest(String::from_str("At least one field required")))
    } else if payload.source_path.is_some() && payload.website_domain.is_none() {
        Err(ApiError::BadRequest(String::from_str("website_domain required if source_path exists")))
    } else {
        Ok(())
    }
}

/// The SET fields of a title update, in column order.
pub open spec fn spec_update_fields(name: bool, cover: bool, cover_small: bool) -> Seq<Seq<char>> {
    (if name {
        seq!["name = ?"@]
    } else {
        Seq::empty()
    }) + (if cover {
        seq!["cover = ?"@]
    } else {
        Seq::empty()
    }) + (if cover_small {
        seq!["cover_small = ?"@]
    } else {
        Seq::empty()
    })
}

/// The UPDATE statement for the title fields that are present, or nothing
/// when none is.
pub fn manga_update_statement(name: bool, cover: bool, cover_small: bool) -> (r: Option<String>)
    ensures
        r is Some <==> (name || cover || cover_small),
        r matches Some(q) ==> q@ == "UPDATE manga SET "@ + spec_join(
            spec_update_fields(name, cover, cover_small),
            ", "@,
        ) + " WHERE id = ?"@,
{
    if !name && !cover && !cover_small {
        return None;
    }
    let mut fields: Vec<String> = Vec::new();
    if name {
        fields.push(String::from_str("name = ?"));
    }
    if cover {
        fields.push(String::from_str("cover = ?"));
    }
    if cover_small {
        fields.push(String::from_str("cover_small = ?"));
    }
    proof {
        assert(fields.deep_view() =~= spec_update_fields(name, cover, cover_small));
    }
    Some(
        String::from_str("UPDATE manga SET ").concat(join_strings(&fields, ", ").as_str()).concat(
            " WHERE id = ?",
        ),
    )
}

/// A migration file's name: its file name with the SQL suffix removed.
pub open spec fn spec_migration_name(file: Seq<char>) -> Seq<char> {
    if ends_with(file, ".sql"@) {
        file.subrange(0, file.len() - 4)
    } else {
        file
    }
}

/// Strips the SQL suffix from a migration file's name.
pub fn migration_name(file: &str) -> (r: String)
    ensures
        r@ == spec_migration_name(file@),
{
    proof {
        reveal_strlit(".sql");
    }
    if str_ends_with(file, ".sql") {
        let len = file.unicode_len();
        let stem = file.substring_char(0, len - 4);
        String::from_str(stem)
    } else {
        String::from_str(file)
    }
}

/// The available migrations not yet applied, in order.
pub open spec fn spec_pending(available: Seq<Seq<char>>, applied: Seq<Seq<char>>) -> Seq<Seq<char>>
    decreases available.len(),
{
    if available.len() == 0 {
        Seq::empty()
    } else {
        spec_pending(available.drop_last(), applied) + (if applied.contains(available.last()) {
            Seq::empty()
        } else {
            seq![available.last()]
        })
    }
}

fn contains_str(haystack: &Vec<String>, needle: &str) -> (r: bool)
    ensures
        r == haystack.deep_view().contains(needle@),
{
    let n = haystack.len();
    let mut i: usize = 0;
    while i < n
        invariant
            i <= n,
            n == haystack@.len(),
            forall|j: int| 0 <= j < i ==> haystack.deep_view()[j] != needle@,
        decreases n - i,
    {
        if str_eq(haystack[i].as_str(), needle) {
            proof {
                assert(haystack.deep_view()[i as int] == needle@);
            }
            return true;
        }
        proof {
            assert(haystack.deep_view()[i as int] == haystack@[i as int]@);
        }
        i = i + 1;
    }
    false
}

/// Keeps, in order, the available migrations that are not yet applied.
pub fn pending_migrations(available: &Vec<String>, applied: &Vec<String>) -> (r: Vec<String>)
    ensures
        r.deep_view() == spec_pending(available.deep_view(), applied.deep_view()),
{
    let n = available.len();
    let mut out: Vec<String> = Vec::new();
    let mut i: usize = 0;
    while i < n
        invariant
            i <= n,
            n == available@.len(),
            out.deep_view() == spec_pending(
                available.deep_view().subrange(0, i as int),
                applied.deep_view(),
            ),
        decreases n - i,
    {
        proof {
            assert(available.deep_view().subrange(0, i + 1).drop_last()
                =~= available.deep_view().subrange(0, i as int));
            assert(available.deep_view().subrange(0, i + 1).last() == available.deep_view()[
                i as int
            ]);
            assert(available.deep_view()[i as int] == available@[i as int]@);
        }
        let ghost before = out.deep_view();
        if !contains_str(applied, available[i].as_str()) {
            out.push(available[i].clone());
            proof {
                assert(out.deep_view() =~= before.push(available@[i as int]@));
            }
        }
        i = i + 1;
    }
    proof {
        assert(available.deep_view().subrange(0, n as int) =~= available.deep_view());
    }
    out
}

} // verus!
