//! Short-TTL read-through cache for chapter feeds, keyed by (domain, path).
//!
//! Expiry is timestamp-based and checked at read time: callers pass the
//! current time (seconds) to `get` and `set`, and an entry is treated as
//! absent once the TTL has elapsed since it was written.
use vstd::prelude::*;

verus! {

use vstd::hash_map::StringHashMap;
use vstd::string::*;
use crate::strategy::ChapterLink;

/// Lifetime of a cache entry, in seconds (24 hours).
pub const CACHE_TTL_SECONDS: u64 = 86400;

struct CacheEntry {
    inserted_at: u64,
    chapters: Vec<ChapterLink>,
}

/// The cache key for a (domain, path) pair.
pub open spec fn cache_key(domain: Seq<char>, path: Seq<char>) -> Seq<char> {
    domain + ":"@ + path
}

/// An entry written at `inserted_at` is still fresh at `now`.
pub open spec fn spec_fresh(inserted_at: u64, now: u64, ttl: u64) -> bool {
    (now as int) < (inserted_at as int) + (ttl as int)
}

/// A concurrent-map-backed freshness cache: (domain, path) to the most
/// recently fetched chapter list, with a fixed TTL and no capacity bound.
pub struct ChapterCache {
    entries: StringHashMap<CacheEntry>,
    ttl_seconds: u64,
}

impl View for ChapterCache {
    type V = Map<Seq<char>, (u64, Seq<ChapterLink>)>;

    closed spec fn view(&self) -> Map<Seq<char>, (u64, Seq<ChapterLink>)> {
        self.entries@.map_values(|e: CacheEntry| (e.inserted_at, e.chapters@))
    }
}

impl ChapterCache {
    /// The TTL this cache was built with, in seconds.
    pub closed spec fn spec_ttl(self) -> u64 {
        self.ttl_seconds
    }

    /// Creates an empty cache with the 24-hour TTL.
    pub fn new() -> (r: Self)
        ensures
            r@ == Map::<Seq<char>, (u64, Seq<ChapterLink>)>::empty(),
            r.spec_ttl() == CACHE_TTL_SECONDS,
    {
        let r = ChapterCache { entries: StringHashMap::new(), ttl_seconds: CACHE_TTL_SECONDS };
        proof {
            assert(r@ =~= Map::<Seq<char>, (u64, Seq<ChapterLink>)>::empty());
        }
        r
    }

    fn make_key(domain: &str, path: &str) -> (r: String)
        ensures
            r@ == cache_key(domain@, path@),
    {
        String::from_str(domain).concat(":").concat(path)
    }

    /// Returns the cached feed for (domain, path) if one is present and
    /// unexpired at time `now`; absence and expiry are indistinguishable.
    pub fn get(&self, domain: &str, path: &str, now: u64) -> (r: Option<&Vec<ChapterLink>>)
        ensures
            r matches Some(cs) ==> self@.contains_key(cache_key(domain@, path@)) && cs@ == self@[
                cache_key(domain@, path@)
            ].1 && spec_fresh(self@[cache_key(domain@, path@)].0, now, self.spec_ttl()),
            r is None ==> !(self@.contains_key(cache_key(domain@, path@)) && spec_fresh(
                self@[cache_key(domain@, path@)].0,
                now,
                self.spec_ttl(),
            )),
    {
        let key = Self::make_key(domain, path);
        match self.entries.get(key.as_str()) {
            Some(entry) => {
                proof {
                    assert(self@.contains_key(key@));
                    assert(self@[key@] == (entry.inserted_at, entry.chapters@));
                }
                let fresh = if now >= entry.inserted_at {
                    now - entry.inserted_at < self.ttl_seconds
                } else {
                    true
                };
                if fresh {
                    Some(&entry.chapters)
                } else {
                    None
                }
            },
            None => {
                proof {
                    assert(!self@.contains_key(key@));
                }
                None
            },
        }
    }

    /// Unconditionally replaces the entry for (domain, path) with `chapters`,
    /// resetting its TTL clock to `now`.
    pub fn set(&mut self, domain: &str, path: &str, chapters: Vec<ChapterLink>, now: u64)
        ensures
            final(self)@ == old(self)@.insert(cache_key(domain@, path@), (now, chapters@)),
            final(self).spec_ttl() == old(self).spec_ttl(),
    {
        let key = Self::make_key(domain, path);
        let ghost chapters_view = chapters@;
        self.entries.insert(key, CacheEntry { inserted_at: now, chapters });
        proof {
            assert(self@ =~= old(self)@.insert(cache_key(domain@, path@), (now, chapters_view)));
        }
    }
}

impl Default for ChapterCache {
    /// An empty cache with the 24-hour TTL.
    fn default() -> (r: Self)
        ensures
            r@ == Map::<Seq<char>, (u64, Seq<ChapterLink>)>::empty(),
            r.spec_ttl() == CACHE_TTL_SECONDS,
    {
        ChapterCache::new()
    }
}

/// Law (cache round trip): after a write of `feed` for (domain, path) at time
/// `t_set`, a read before the TTL has elapsed sees exactly `feed`, still
/// fresh; a read at or after `t_set + TTL` sees an expired entry, which `get`
/// reports as absent.
pub proof fn lemma_cache_round_trip(
    pre: ChapterCache,
    post: ChapterCache,
    domain: Seq<char>,
    path: Seq<char>,
    feed: Seq<ChapterLink>,
    t_set: u64,
    t_read: u64,
)
    requires
        post@ == pre@.insert(cache_key(domain, path), (t_set, feed)),
        post.spec_ttl() == pre.spec_ttl(),
    ensures
        (t_read as int) < (t_set as int) + (post.spec_ttl() as int) ==> post@.contains_key(
            cache_key(domain, path),
        ) && post@[cache_key(domain, path)].1 == feed && spec_fresh(
            post@[cache_key(domain, path)].0,
            t_read,
            post.spec_ttl(),
        ),
        (t_read as int) >= (t_set as int) + (post.spec_ttl() as int) ==> !spec_fresh(
            post@[cache_key(domain, path)].0,
            t_read,
            post.spec_ttl(),
        ),
{
}

} // verus!
