//! The sync orchestrator: drives synchronization across tracked sources with
//! per-source failure isolation.
//!
//! Network I/O and persistence are suspension points performed by the caller:
//! a pass is a state machine that hands out one `SyncAction` at a time
//! (fetch a URL, persist a value) and consumes the corresponding `SyncEvent`.
//! Every decision between two suspension points is made — and verified —
//! here.
use vstd::prelude::*;

verus! {

use vstd::string::*;
use crate::cache::ChapterCache;
use crate::cache::cache_key;
use crate::cache::spec_fresh;
use crate::strategies::SiteStrategy;
use crate::strategies::site_id_page_url;
use crate::strategies::site_uses_external_id;
use crate::strategies::spec_chapters_url;
use crate::strategies::spec_domain_supported;
use crate::strategies::spec_strategy_for;
use crate::strategy::ChapterLink;
use crate::strategy::SyncError;
use crate::strategy::count_new_chapters;
use crate::strategy::feed_hrefs;
use crate::strategy::spec_count;

/// The read model of one tracked source, joined with its manga name and
/// website domain; constructed fresh per sync pass, never persisted.
pub struct SyncSourceInfo {
    pub source_id: i64,
    pub manga_id: i64,
    pub manga_name: String,
    pub domain: String,
    pub path: String,
    pub external_manga_id: Option<String>,
    pub current_chapter: Option<String>,
}

/// One outcome per source per pass: a new-chapter count on success, or a
/// tagged failure message.
pub struct SyncResult {
    pub source_id: i64,
    pub manga_name: String,
    pub domain: String,
    pub new_chapters: usize,
    pub error: Option<String>,
}

/// What the driver must do next for the pass to go on.
pub enum SyncAction {
    /// Issue a GET against `url` and report the outcome.
    Fetch { url: String },
    /// Persist the extracted external identifier for the source
    /// (best-effort: the pass goes on either way).
    SaveExternalId { source_id: i64, external_id: String },
    /// Persist the computed unread count for the source (best-effort).
    SaveUnreadCount { source_id: i64, count: usize },
    /// Every source has a result; the pass is over.
    PassComplete,
}

/// The outcome of the action the driver performed.
pub enum SyncEvent {
    /// The fetch succeeded with this response body.
    FetchOk(String),
    /// The fetch failed for this transport or status reason.
    FetchFailed(String),
    /// The persistence write succeeded.
    SaveOk,
    /// The persistence write failed (never fatal to the pass).
    SaveFailed,
}

/// Where a pass stands between two suspension points.
#[allow(inconsistent_fields)]
pub enum SyncPhase {
    /// The next source has not been looked at yet.
    Ready,
    /// A fetch of the canonical title page is out, to extract the source's
    /// external identifier.
    AwaitIdPage,
    /// A best-effort persistence write of the extracted identifier is out.
    AwaitIdSave { external_id: String },
    /// A fetch of the chapter feed is out; `retry` marks the one fresh
    /// refetch allowed after a stale-cache position miss.
    AwaitFeedPage { external_id: Option<String>, retry: bool },
    /// A best-effort persistence write of the computed count is out.
    AwaitCountSave { count: usize },
    /// Every source has a result.
    Complete,
}

/// The view of an optional string.
pub open spec fn opt_str_view(o: Option<String>) -> Option<Seq<char>> {
    match o {
        Some(s) => Some(s@),
        None => None,
    }
}

pub open spec fn unsupported_domain_message(domain: Seq<char>) -> Seq<char> {
    "No strategy for domain: "@ + domain
}

pub open spec fn extract_failed_message(detail: Seq<char>) -> Seq<char> {
    "Failed to extract external ID: "@ + detail
}

pub open spec fn fetch_failed_message(detail: Seq<char>) -> Seq<char> {
    "Failed to fetch chapters: "@ + detail
}

pub open spec fn count_failed_message(detail: Seq<char>) -> Seq<char> {
    "Failed to count new chapters: "@ + detail
}

/// How a failed transport outcome is described.
pub open spec fn http_error_detail(msg: Seq<char>) -> Seq<char> {
    "HTTP error: "@ + msg
}

/// A result belongs to a source: identifier, manga name and domain carry
/// over unchanged.
pub open spec fn result_matches_source(r: SyncResult, s: SyncSourceInfo) -> bool {
    r.source_id == s.source_id && r.manga_name@ == s.manga_name@ && r.domain@ == s.domain@
}

/// The failure outcome for source `s` carrying `message`: count 0 and the
/// message as the error.
pub open spec fn is_failure_result(r: SyncResult, s: SyncSourceInfo, message: Seq<char>) -> bool {
    result_matches_source(r, s) && r.new_chapters == 0 && (r.error matches Some(m) && m@
        == message)
}

/// The success outcome for source `s` carrying `count` new chapters.
pub open spec fn is_success_result(r: SyncResult, s: SyncSourceInfo, count: int) -> bool {
    result_matches_source(r, s) && r.new_chapters == count && r.error is None
}

/// The result recorded for a source whose domain has no registered provider:
/// count 0 and the "no strategy" error.
pub open spec fn is_unsupported_result(r: SyncResult, s: SyncSourceInfo) -> bool {
    is_failure_result(r, s, unsupported_domain_message(s.domain@))
}

/// How a failed identifier extraction is described: the pattern was invalid,
/// or nothing in the page matched it.
pub open spec fn extract_failure_detail() -> Seq<char> {
    if !crate::scrape::regex_pattern_valid(crate::strategies::book_id_pattern()) {
        "Parse error: "@ + "Invalid pattern"@
    } else {
        "Parse error: "@ + "Could not find bookId in page"@
    }
}

/// How a failed feed parse is described: the selector was invalid, or the
/// page yielded zero chapters.
pub open spec fn parse_failure_detail(s: SiteStrategy) -> Seq<char> {
    if !crate::scrape::css_selector_valid(crate::strategies::site_selector(s)) {
        "Parse error: "@ + "Invalid selector"@
    } else {
        "Parse error: "@ + crate::strategies::site_empty_feed_message(s)
    }
}

/// The source needs a canonical-page fetch before anything else: its site
/// keys chapters by an external identifier and none is stored yet.
pub open spec fn needs_id_fetch(s: SyncSourceInfo) -> bool {
    spec_domain_supported(s.domain@) && s.external_manga_id is None && site_uses_external_id(
        spec_strategy_for(s.domain@)->Some_0,
    )
}

/// The cached feed for a source, if present and unexpired at `now`.
pub open spec fn cached_feed(
    cachev: Map<Seq<char>, (u64, Seq<ChapterLink>)>,
    ttl: u64,
    s: SyncSourceInfo,
    now: u64,
) -> Option<Seq<ChapterLink>> {
    let k = cache_key(s.domain@, s.path@);
    if cachev.contains_key(k) && spec_fresh(cachev[k].0, now, ttl) {
        Some(cachev[k].1)
    } else {
        None
    }
}

/// What entering the feed stage for a source decides, given the cache as it
/// stands: on a fresh cache hit the count is computed at once — the feed's
/// full length when the source has no recorded current chapter — and goes
/// out for persistence, except that a position miss triggers the one fresh
/// refetch; on a miss the feed is fetched from the network.
pub open spec fn feed_stage_spec(
    cur: SyncSourceInfo,
    ext: Option<Seq<char>>,
    cachev: Map<Seq<char>, (u64, Seq<ChapterLink>)>,
    ttl: u64,
    now: u64,
    a: SyncAction,
    phase: SyncPhase,
) -> bool {
    let strat = spec_strategy_for(cur.domain@)->Some_0;
    match cached_feed(cachev, ttl, cur, now) {
        Some(feed) => match cur.current_chapter {
            None => a matches SyncAction::SaveUnreadCount { source_id, count } && source_id
                == cur.source_id && count == feed.len() && (
            phase matches SyncPhase::AwaitCountSave { count: c } && c == feed.len()),
            Some(marker) => match spec_count(feed_hrefs(feed), marker@) {
                Some(i) => a matches SyncAction::SaveUnreadCount { source_id, count } && source_id
                    == cur.source_id && count == i && (
                phase matches SyncPhase::AwaitCountSave { count: c } && c == i),
                None => a matches SyncAction::Fetch { url } && url@ == spec_chapters_url(
                    strat,
                    cur.path@,
                    ext,
                ) && (phase matches SyncPhase::AwaitFeedPage { external_id, retry } && opt_str_view(
                    external_id,
                ) == ext && retry == true),
            },
        },
        None => a matches SyncAction::Fetch { url } && url@ == spec_chapters_url(
            strat,
            cur.path@,
            ext,
        ) && (phase matches SyncPhase::AwaitFeedPage { external_id, retry } && opt_str_view(
            external_id,
        ) == ext && retry == false),
    }
}

/// What starting a source decides: a canonical-page fetch when the external
/// identifier is needed and absent — and only then — and the feed stage
/// otherwise, with the stored identifier.
pub open spec fn start_source_spec(
    cur: SyncSourceInfo,
    cachev: Map<Seq<char>, (u64, Seq<ChapterLink>)>,
    ttl: u64,
    now: u64,
    a: SyncAction,
    phase: SyncPhase,
) -> bool {
    if needs_id_fetch(cur) {
        a matches SyncAction::Fetch { url } && url@ == site_id_page_url(
            spec_strategy_for(cur.domain@)->Some_0,
            cur.path@,
        ) && phase is AwaitIdPage
    } else {
        feed_stage_spec(
            cur,
            opt_str_view(cur.external_manga_id),
            cachev,
            ttl,
            now,
            a,
            phase,
        )
    }
}

/// The event kinds a suspended phase can consume: a fetch outcome while a
/// fetch is out, a save outcome while a save is out.
pub open spec fn event_fits(phase: SyncPhase, event: SyncEvent) -> bool {
    match phase {
        SyncPhase::AwaitIdPage => event is FetchOk || event is FetchFailed,
        SyncPhase::AwaitFeedPage { .. } => event is FetchOk || event is FetchFailed,
        SyncPhase::AwaitIdSave { .. } => event is SaveOk || event is SaveFailed,
        SyncPhase::AwaitCountSave { .. } => event is SaveOk || event is SaveFailed,
        _ => false,
    }
}

fn clone_string(s: &String) -> (r: String)
    ensures
        r == *s,
{
    s.clone()
}

fn clone_opt_string(o: &Option<String>) -> (r: Option<String>)
    ensures
        r == *o,
{
    match o {
        Some(s) => Some(clone_string(s)),
        None => None,
    }
}

fn clone_source(s: &SyncSourceInfo) -> (r: SyncSourceInfo)
    ensures
        r == *s,
{
    SyncSourceInfo {
        source_id: s.source_id,
        manga_id: s.manga_id,
        manga_name: clone_string(&s.manga_name),
        domain: clone_string(&s.domain),
        path: clone_string(&s.path),
        external_manga_id: clone_opt_string(&s.external_manga_id),
        current_chapter: clone_opt_string(&s.current_chapter),
    }
}

/// A failure outcome for one source.
fn failure_result(source: &SyncSourceInfo, message: String) -> (r: SyncResult)
    ensures
        result_matches_source(r, *source),
        r.new_chapters == 0,
        r.error matches Some(m) && m@ == message@,
{
    SyncResult {
        source_id: source.source_id,
        manga_name: clone_string(&source.manga_name),
        domain: clone_string(&source.domain),
        new_chapters: 0,
        error: Some(message),
    }
}

/// A success outcome for one source.
fn success_result(source: &SyncSourceInfo, count: usize) -> (r: SyncResult)
    ensures
        result_matches_source(r, *source),
        r.new_chapters == count,
        r.error is None,
{
    SyncResult {
        source_id: source.source_id,
        manga_name: clone_string(&source.manga_name),
        domain: clone_string(&source.domain),
        new_chapters: count,
        error: None,
    }
}

/// One synchronization pass over a fixed list of sources, processed one at a
/// time, collecting one result per source regardless of individual failures.
pub struct SyncPass {
    sources: Vec<SyncSourceInfo>,
    results: Vec<SyncResult>,
    phase: SyncPhase,
}

impl SyncPass {
    /// The sources this pass runs over.
    pub closed spec fn spec_sources(self) -> Seq<SyncSourceInfo> {
        self.sources@
    }

    /// The results collected so far, one per finished source, in order.
    pub closed spec fn spec_results(self) -> Seq<SyncResult> {
        self.results@
    }

    /// Where the pass stands.
    pub closed spec fn spec_phase(self) -> SyncPhase {
        self.phase
    }

    /// The source being processed: the first one without a result.
    pub open spec fn current(self) -> SyncSourceInfo {
        self.spec_sources()[self.spec_results().len() as int]
    }

    /// The pass is suspended on an action the driver must perform.
    pub open spec fn awaiting(self) -> bool {
        match self.spec_phase() {
            SyncPhase::Ready => false,
            SyncPhase::Complete => false,
            _ => true,
        }
    }

    /// The structural invariant of a pass, established by `new` and
    /// preserved by every step. It carries, per recorded result, that the
    /// result belongs to its source and that unsupported-domain sources got
    /// exactly the "no strategy" failure; and, per suspended phase, what the
    /// current source must look like — in particular an identifier
    /// extraction is only ever in flight for a source with none stored.
    pub open spec fn wf(self) -> bool {
        &&& self.spec_results().len() <= self.spec_sources().len()
        &&& forall|j: int|
            0 <= j < self.spec_results().len() ==> result_matches_source(
                #[trigger] self.spec_results()[j],
                self.spec_sources()[j],
            )
        &&& forall|j: int|
            0 <= j < self.spec_results().len() && !spec_domain_supported(
                self.spec_sources()[j].domain@,
            ) ==> is_unsupported_result(#[trigger] self.spec_results()[j], self.spec_sources()[j])
        &&& (self.spec_phase() is Complete ==> self.spec_results().len()
            == self.spec_sources().len())
        &&& (self.awaiting() ==> self.spec_results().len() < self.spec_sources().len())
        &&& (self.awaiting() ==> spec_domain_supported(self.current().domain@))
        &&& (self.spec_phase() is AwaitIdPage ==> needs_id_fetch(self.current()))
        &&& (self.spec_phase() is AwaitIdSave ==> site_uses_external_id(
            spec_strategy_for(self.current().domain@)->Some_0,
        ))
        &&& (self.spec_phase() matches SyncPhase::AwaitFeedPage { external_id, retry } ==> !(
        site_uses_external_id(spec_strategy_for(self.current().domain@)->Some_0) && external_id
            is None))
    }

    /// Everything the cascade guarantees when it hands control back: each
    /// source it finished on its own (without any action) was one with no
    /// registered provider, and when the pass is not complete, the returned
    /// action and phase are exactly what starting the now-current source
    /// prescribes.
    pub open spec fn cascade_post(
        self,
        from: int,
        cachev: Map<Seq<char>, (u64, Seq<ChapterLink>)>,
        ttl: u64,
        now: u64,
        a: SyncAction,
    ) -> bool {
        &&& forall|j: int|
            from <= j < self.spec_results().len() ==> !spec_domain_supported(
                (#[trigger] self.spec_sources()[j]).domain@,
            )
        &&& (a is PassComplete <==> self.spec_phase() is Complete)
        &&& (!(a is PassComplete) ==> start_source_spec(
            self.current(),
            cachev,
            ttl,
            now,
            a,
            self.spec_phase(),
        ))
    }

    /// Begins a pass over `sources`; no work happens until `start` is
    /// called.
    pub fn new(sources: Vec<SyncSourceInfo>) -> (r: SyncPass)
        ensures
            r.spec_sources() == sources@,
            r.spec_results() == Seq::<SyncResult>::empty(),
            r.spec_phase() is Ready,
            r.wf(),
    {
        let r = SyncPass { sources, results: Vec::new(), phase: SyncPhase::Ready };
        proof {
            assert(r.spec_results() =~= Seq::<SyncResult>::empty());
        }
        r
    }

    /// The results of a completed pass, one per source, in source order.
    pub fn into_results(self) -> (r: Vec<SyncResult>)
        ensures
            r@ == self.spec_results(),
    {
        self.results
    }

    /// Enters the feed stage for the current source: cache first, network on
    /// a miss, and the count — with its one-shot stale-cache refetch —
    /// on a hit.
    fn enter_feed_stage(
        &mut self,
        src: &SyncSourceInfo,
        strat: SiteStrategy,
        ext: Option<String>,
        cache: &ChapterCache,
        now: u64,
    ) -> (a: SyncAction)
        requires
            old(self).wf(),
            old(self).spec_results().len() < old(self).spec_sources().len(),
            *src == old(self).current(),
            spec_strategy_for(src.domain@) == Some(strat),
            !(site_uses_external_id(strat) && ext is None),
        ensures
            final(self).spec_sources() == old(self).spec_sources(),
            final(self).spec_results() == old(self).spec_results(),
            final(self).wf(),
            feed_stage_spec(
                *src,
                opt_str_view(ext),
                cache@,
                cache.spec_ttl(),
                now,
                a,
                final(self).spec_phase(),
            ),
            !(a is PassComplete),
    {
        match cache.get(src.domain.as_str(), src.path.as_str(), now) {
            Some(feed) => {
                match &src.current_chapter {
                    None => {
                        let count = feed.len();
                        self.phase = SyncPhase::AwaitCountSave { count };
                        SyncAction::SaveUnreadCount { source_id: src.source_id, count }
                    },
                    Some(marker) => {
                        match count_new_chapters(feed, marker.as_str()) {
                            Ok(count) => {
                                self.phase = SyncPhase::AwaitCountSave { count };
                                SyncAction::SaveUnreadCount { source_id: src.source_id, count }
                            },
                            Err(_) => {
                                // The cached feed is stale relative to the
                                // marker: one fresh fetch, bypassing the
                                // cache.
                                let url = strat.chapters_url(
                                    src.path.as_str(),
                                    ext.as_ref(),
                                ).unwrap();
                                self.phase = SyncPhase::AwaitFeedPage {
                                    external_id: ext,
                                    retry: true,
                                };
                                SyncAction::Fetch { url }
                            },
                        }
                    },
                }
            },
            None => {
                let url = strat.chapters_url(src.path.as_str(), ext.as_ref()).unwrap();
                self.phase = SyncPhase::AwaitFeedPage { external_id: ext, retry: false };
                SyncAction::Fetch { url }
            },
        }
    }

    /// Processes sources from the first without a result onward, recording a
    /// failure at once for each whose domain has no provider, until one
    /// needs the driver (an action is returned) or every source has a
    /// result.
    fn advance(&mut self, cache: &ChapterCache, now: u64) -> (a: SyncAction)
        requires
            old(self).wf(),
        ensures
            final(self).wf(),
            final(self).spec_sources() == old(self).spec_sources(),
            old(self).spec_results().len() <= final(self).spec_results().len(),
            final(self).spec_results().subrange(0, old(self).spec_results().len() as int) == old(
                self,
            ).spec_results(),
            final(self).cascade_post(
                old(self).spec_results().len() as int,
                cache@,
                cache.spec_ttl(),
                now,
                a,
            ),
    {
        let ghost old_results = self.results@;
        loop
            invariant
                self.wf(),
                self.spec_sources() == old(self).spec_sources(),
                old_results == old(self).spec_results(),
                old_results.len() <= self.results@.len(),
                self.results@.subrange(0, old_results.len() as int) == old_results,
                forall|j: int|
                    old_results.len() <= j < self.results@.len() ==> !spec_domain_supported(
                        (#[trigger] self.sources@[j]).domain@,
                    ),
            decreases self.sources@.len() - self.results@.len(),
        {
            let idx = self.results.len();
            if idx == self.sources.len() {
                self.phase = SyncPhase::Complete;
                return SyncAction::PassComplete;
            }
            let src = clone_source(&self.sources[idx]);
            let registry = crate::strategies::StrategyRegistry::new();
            match registry.get(src.domain.as_str()) {
                None => {
                    let msg = String::from_str("No strategy for domain: ").concat(
                        src.domain.as_str(),
                    );
                    let r = failure_result(&src, msg);
                    proof {
                        assert(self.results@.push(r).subrange(0, old_results.len() as int)
                            =~= old_results);
                    }
                    self.results.push(r);
                },
                Some(strat) => {
                    if src.external_manga_id.is_none() && strat.uses_external_id() {
                        let url = strat.id_page_url(src.path.as_str()).unwrap();
                        self.phase = SyncPhase::AwaitIdPage;
                        return SyncAction::Fetch { url };
                    } else {
                        let ext = clone_opt_string(&src.external_manga_id);
                        return self.enter_feed_stage(&src, strat, ext, cache, now);
                    }
                },
            }
        }
    }

    /// Records `r` as the current source's outcome and carries the pass on
    /// to the next source.
    fn finish_current(&mut self, r: SyncResult, cache: &ChapterCache, now: u64) -> (a: SyncAction)
        requires
            old(self).wf(),
            old(self).spec_phase() is Ready,
            old(self).spec_results().len() < old(self).spec_sources().len(),
            result_matches_source(r, old(self).current()),
            spec_domain_supported(old(self).current().domain@),
        ensures
            final(self).wf(),
            final(self).spec_sources() == old(self).spec_sources(),
            final(self).spec_results().len() > old(self).spec_results().len(),
            final(self).spec_results().subrange(0, old(self).spec_results().len() as int) == old(
                self,
            ).spec_results(),
            final(self).spec_results()[old(self).spec_results().len() as int] == r,
            final(self).cascade_post(
                old(self).spec_results().len() as int + 1,
                cache@,
                cache.spec_ttl(),
                now,
                a,
            ),
    {
        let ghost k = self.results@.len() as int;
        self.results.push(r);
        let a = self.advance(cache, now);
        proof {
            assert(self.results@.subrange(0, k + 1)[k] == self.results@[k]);
            assert(self.results@.subrange(0, k) =~= old(self).spec_results());
        }
        a
    }

    /// Consumes the outcome of the last action and hands out the next one.
    ///
    /// The contract walks every suspension point: an extracted identifier
    /// goes out for a best-effort save and is used for this pass whatever
    /// that save reports; a fetched feed is parsed, cached, and counted —
    /// the feed's full length when the source has no recorded current
    /// chapter; a position miss on a feed triggers exactly one fresh
    /// refetch, after which the failure is surfaced as the source's error;
    /// and every failure is confined to its source, the pass going on with
    /// the next one.
    pub fn step(&mut self, cache: &mut ChapterCache, event: SyncEvent, now: u64) -> (a: SyncAction)
        requires
            old(self).wf(),
            old(self).awaiting(),
            event_fits(old(self).spec_phase(), event),
        ensures
            final(self).wf(),
            final(self).spec_sources() == old(self).spec_sources(),
            old(self).spec_results().len() <= final(self).spec_results().len(),
            final(self).spec_results().subrange(0, old(self).spec_results().len() as int) == old(
                self,
            ).spec_results(),
            final(cache).spec_ttl() == old(cache).spec_ttl(),
            (a is PassComplete <==> final(self).spec_phase() is Complete),
            !(old(self).spec_phase() matches SyncPhase::AwaitFeedPage { external_id, retry }
                && event is FetchOk) ==> final(cache)@ == old(cache)@,
            // -- identifier page fetched --
            old(self).spec_phase() is AwaitIdPage ==> (event matches SyncEvent::FetchOk(body)
                ==> if crate::scrape::regex_pattern_valid(crate::strategies::book_id_pattern())
                    && crate::strategies::spec_book_id(body@) is Some {
                    &&& final(self).spec_results() == old(self).spec_results()
                    &&& a matches SyncAction::SaveExternalId { source_id, external_id }
                        && source_id == old(self).current().source_id && Some(external_id@)
                        == crate::strategies::spec_book_id(body@)
                    &&& final(self).spec_phase() matches SyncPhase::AwaitIdSave { external_id: e }
                        && Some(e@) == crate::strategies::spec_book_id(body@)
                } else {
                    &&& final(self).spec_results().len() > old(self).spec_results().len()
                    &&& is_failure_result(
                        final(self).spec_results()[old(self).spec_results().len() as int],
                        old(self).current(),
                        extract_failed_message(extract_failure_detail()),
                    )
                    &&& final(self).cascade_post(
                        old(self).spec_results().len() as int + 1,
                        old(cache)@,
                        old(cache).spec_ttl(),
                        now,
                        a,
                    )
                }),
            old(self).spec_phase() is AwaitIdPage ==> (event matches SyncEvent::FetchFailed(m)
                ==> {
                    &&& final(self).spec_results().len() > old(self).spec_results().len()
                    &&& is_failure_result(
                        final(self).spec_results()[old(self).spec_results().len() as int],
                        old(self).current(),
                        extract_failed_message(http_error_detail(m@)),
                    )
                    &&& final(self).cascade_post(
                        old(self).spec_results().len() as int + 1,
                        old(cache)@,
                        old(cache).spec_ttl(),
                        now,
                        a,
                    )
                }),
            // -- identifier save reported (best-effort: both outcomes alike) --
            old(self).spec_phase() matches SyncPhase::AwaitIdSave { external_id } ==> {
                &&& final(self).spec_results() == old(self).spec_results()
                &&& feed_stage_spec(
                    old(self).current(),
                    Some(external_id@),
                    old(cache)@,
                    old(cache).spec_ttl(),
                    now,
                    a,
                    final(self).spec_phase(),
                )
            },
            // -- feed page fetched --
            old(self).spec_phase() matches SyncPhase::AwaitFeedPage { external_id, retry } ==> (
            event matches SyncEvent::FetchFailed(m) ==> {
                &&& final(self).spec_results().len() > old(self).spec_results().len()
                &&& is_failure_result(
                    final(self).spec_results()[old(self).spec_results().len() as int],
                    old(self).current(),
                    fetch_failed_message(http_error_detail(m@)),
                )
                &&& final(self).cascade_post(
                    old(self).spec_results().len() as int + 1,
                    old(cache)@,
                    old(cache).spec_ttl(),
                    now,
                    a,
                )
            }),
            old(self).spec_phase() matches SyncPhase::AwaitFeedPage { external_id, retry } ==> (
            event matches SyncEvent::FetchOk(body) ==> {
                let strat = spec_strategy_for(old(self).current().domain@)->Some_0;
                let key = cache_key(old(self).current().domain@, old(self).current().path@);
                if !crate::strategies::site_parse_ok(strat, body@) {
                    &&& final(cache)@ == old(cache)@
                    &&& final(self).spec_results().len() > old(self).spec_results().len()
                    &&& is_failure_result(
                        final(self).spec_results()[old(self).spec_results().len() as int],
                        old(self).current(),
                        fetch_failed_message(parse_failure_detail(strat)),
                    )
                    &&& final(self).cascade_post(
                        old(self).spec_results().len() as int + 1,
                        old(cache)@,
                        old(cache).spec_ttl(),
                        now,
                        a,
                    )
                } else {
                    let feed = crate::strategies::site_feed(strat, body@);
                    &&& final(cache)@.contains_key(key) && final(cache)@[key].0 == now
                        && feed_hrefs(final(cache)@[key].1) == feed
                    &&& final(cache)@ == old(cache)@.insert(key, final(cache)@[key])
                    &&& match old(self).current().current_chapter {
                        None => {
                            &&& final(self).spec_results() == old(self).spec_results()
                            &&& a matches SyncAction::SaveUnreadCount { source_id, count }
                                && source_id == old(self).current().source_id && count
                                == feed.len()
                            &&& final(self).spec_phase() matches SyncPhase::AwaitCountSave {
                                count: c,
                            } && c == feed.len()
                        },
                        Some(marker) => match spec_count(feed, marker@) {
                            Some(i) => {
                                &&& final(self).spec_results() == old(self).spec_results()
                                &&& a matches SyncAction::SaveUnreadCount { source_id, count }
                                    && source_id == old(self).current().source_id && count == i
                                &&& final(self).spec_phase()
                                    matches SyncPhase::AwaitCountSave { count: c } && c == i
                            },
                            None => if !retry {
                                &&& final(self).spec_results() == old(self).spec_results()
                                &&& a matches SyncAction::Fetch { url } && url@
                                    == spec_chapters_url(
                                    strat,
                                    old(self).current().path@,
                                    opt_str_view(external_id),
                                )
                                &&& final(self).spec_phase()
                                    matches SyncPhase::AwaitFeedPage { external_id: e, retry: r }
                                    && opt_str_view(e) == opt_str_view(external_id) && r == true
                            } else {
                                &&& final(self).spec_results().len() > old(
                                    self,
                                ).spec_results().len()
                                &&& is_failure_result(
                                    final(self).spec_results()[old(
                                        self,
                                    ).spec_results().len() as int],
                                    old(self).current(),
                                    count_failed_message("Chapter not found: "@ + marker@),
                                )
                                &&& final(self).cascade_post(
                                    old(self).spec_results().len() as int + 1,
                                    final(cache)@,
                                    old(cache).spec_ttl(),
                                    now,
                                    a,
                                )
                            },
                        },
                    }
                }
            }),
            // -- count save reported (best-effort: both outcomes alike) --
            old(self).spec_phase() matches SyncPhase::AwaitCountSave { count } ==> {
                &&& final(self).spec_results().len() > old(self).spec_results().len()
                &&& is_success_result(
                    final(self).spec_results()[old(self).spec_results().len() as int],
                    old(self).current(),
                    count as int,
                )
                &&& final(self).cascade_post(
                    old(self).spec_results().len() as int + 1,
                    old(cache)@,
                    old(cache).spec_ttl(),
                    now,
                    a,
                )
            },
    {
        let mut ph = SyncPhase::Ready;
        core::mem::swap(&mut self.phase, &mut ph);
        let idx = self.results.len();
        let src = clone_source(&self.sources[idx]);
        let registry = crate::strategies::StrategyRegistry::new();
        let strat = registry.get(src.domain.as_str()).unwrap();
        match ph {
            SyncPhase::Ready => {
                // step is only called while an action is out
                proof {
                    assert(false);
                }
                SyncAction::PassComplete
            },
            SyncPhase::Complete => {
                // step is only called while an action is out
                proof {
                    assert(false);
                }
                SyncAction::PassComplete
            },
            SyncPhase::AwaitIdPage => match event {
                SyncEvent::FetchOk(body) => match strat.extract_external_id(body.as_str()) {
                    Ok(Some(id)) => {
                        let id_for_action = clone_string(&id);
                        self.phase = SyncPhase::AwaitIdSave { external_id: id };
                        SyncAction::SaveExternalId {
                            source_id: src.source_id,
                            external_id: id_for_action,
                        }
                    },
                    Ok(None) => {
                        // this phase is only ever entered for a site that
                        // keys chapters by an identifier, and such a site's
                        // extractor never reports "none needed"
                        proof {
                            assert(false);
                        }
                        SyncAction::PassComplete
                    },
                    Err(e) => {
                        let msg = String::from_str("Failed to extract external ID: ").concat(
                            e.message().as_str(),
                        );
                        let r = failure_result(&src, msg);
                        self.finish_current(r, cache, now)
                    },
                },
                SyncEvent::FetchFailed(m) => {
                    let detail = String::from_str("HTTP error: ").concat(m.as_str());
                    let msg = String::from_str("Failed to extract external ID: ").concat(
                        detail.as_str(),
                    );
                    let r = failure_result(&src, msg);
                    self.finish_current(r, cache, now)
                },
                _ => {
                    // a fetch outcome is the only event this phase admits
                    proof {
                        assert(false);
                    }
                    SyncAction::PassComplete
                },
            },
            SyncPhase::AwaitIdSave { external_id } => match event {
                SyncEvent::SaveOk | SyncEvent::SaveFailed => self.enter_feed_stage(
                    &src,
                    strat,
                    Some(external_id),
                    cache,
                    now,
                ),
                _ => {
                    // a save outcome is the only event this phase admits
                    proof {
                        assert(false);
                    }
                    SyncAction::PassComplete
                },
            },
            SyncPhase::AwaitFeedPage { external_id, retry } => match event {
                SyncEvent::FetchOk(body) => match strat.parse_chapters(body.as_str()) {
                    Err(e) => {
                        let msg = String::from_str("Failed to fetch chapters: ").concat(
                            e.message().as_str(),
                        );
                        let r = failure_result(&src, msg);
                        self.finish_current(r, cache, now)
                    },
                    Ok(chapters) => {
                        let counted: Result<usize, SyncError> = match &src.current_chapter {
                            None => Ok(chapters.len()),
                            Some(marker) => count_new_chapters(&chapters, marker.as_str()),
                        };
                        cache.set(src.domain.as_str(), src.path.as_str(), chapters, now);
                        match counted {
                            Ok(count) => {
                                self.phase = SyncPhase::AwaitCountSave { count };
                                SyncAction::SaveUnreadCount { source_id: src.source_id, count }
                            },
                            Err(e) => {
                                if retry {
                                    let msg = String::from_str(
                                        "Failed to count new chapters: ",
                                    ).concat(e.message().as_str());
                                    let r = failure_result(&src, msg);
                                    self.finish_current(r, cache, now)
                                } else {
                                    // the cached feed was stale: one fresh
                                    // fetch, bypassing the cache
                                    let url = strat.chapters_url(
                                        src.path.as_str(),
                                        external_id.as_ref(),
                                    ).unwrap();
                                    self.phase = SyncPhase::AwaitFeedPage {
                                        external_id,
                                        retry: true,
                                    };
                                    SyncAction::Fetch { url }
                                }
                            },
                        }
                    },
                },
                SyncEvent::FetchFailed(m) => {
                    let detail = String::from_str("HTTP error: ").concat(m.as_str());
                    let msg = String::from_str("Failed to fetch chapters: ").concat(
                        detail.as_str(),
                    );
                    let r = failure_result(&src, msg);
                    self.finish_current(r, cache, now)
                },
                _ => {
                    // a fetch outcome is the only event this phase admits
                    proof {
                        assert(false);
                    }
                    SyncAction::PassComplete
                },
            },
            SyncPhase::AwaitCountSave { count } => match event {
                SyncEvent::SaveOk | SyncEvent::SaveFailed => {
                    let r = success_result(&src, count);
                    self.finish_current(r, cache, now)
                },
                _ => {
                    // a save outcome is the only event this phase admits
                    proof {
                        assert(false);
                    }
                    SyncAction::PassComplete
                },
            },
        }
    }

    /// Law (batch isolation): a completed pass over N sources holds exactly
    /// N results, in source order; each result carries its own source's
    /// identifier, name and domain; and every source on an unsupported
    /// domain carries the "no strategy" error with count 0 — no source's
    /// failure removes or corrupts another's result.
    pub proof fn lemma_pass_isolation(self)
        requires
            self.wf(),
            self.spec_phase() is Complete,
        ensures
            self.spec_results().len() == self.spec_sources().len(),
            forall|j: int|
                0 <= j < self.spec_results().len() ==> result_matches_source(
                    #[trigger] self.spec_results()[j],
                    self.spec_sources()[j],
                ),
            forall|j: int|
                0 <= j < self.spec_results().len() && !spec_domain_supported(
                    self.spec_sources()[j].domain@,
                ) ==> is_unsupported_result(
                    #[trigger] self.spec_results()[j],
                    self.spec_sources()[j],
                ),
    {
    }

    /// Law (lazy identifier extraction): an identifier extraction is only
    /// ever in flight for a source that has none stored; once one is
    /// persisted, a later pass never asks for the canonical page again.
    pub proof fn lemma_extract_only_when_missing(self)
        requires
            self.wf(),
            self.spec_phase() is AwaitIdPage,
        ensures
            self.current().external_manga_id is None,
            site_uses_external_id(spec_strategy_for(self.current().domain@)->Some_0),
    {
    }

    /// Starts the pass: processes sources until the first one that needs
    /// the driver, or completes at once when none does.
    pub fn start(&mut self, cache: &ChapterCache, now: u64) -> (a: SyncAction)
        requires
            old(self).wf(),
            old(self).spec_phase() is Ready,
        ensures
            final(self).wf(),
            final(self).spec_sources() == old(self).spec_sources(),
            final(self).spec_results().subrange(0, old(self).spec_results().len() as int) == old(
                self,
            ).spec_results(),
            final(self).cascade_post(
                old(self).spec_results().len() as int,
                cache@,
                cache.spec_ttl(),
                now,
                a,
            ),
    {
        self.advance(cache, now)
    }
}

/// The synchronization service: the strategy registry and the shared feed
/// cache, from which passes are driven. The caller performs the fetches and
/// the persistence writes a pass asks for.
pub struct SyncService {
    pub registry: crate::strategies::StrategyRegistry,
    pub cache: ChapterCache,
}

impl SyncService {
    /// A service with the full registry and an empty cache.
    pub fn new() -> (r: SyncService)
        ensures
            r.cache@ == Map::<Seq<char>, (u64, Seq<ChapterLink>)>::empty(),
            r.cache.spec_ttl() == crate::cache::CACHE_TTL_SECONDS,
    {
        SyncService {
            registry: crate::strategies::StrategyRegistry::new(),
            cache: ChapterCache::new(),
        }
    }

    /// Begins the batch pass over the loaded sources, one result per source;
    /// a pass over a single source serves the on-demand refresh.
    pub fn begin_pass(&self, sources: Vec<SyncSourceInfo>) -> (p: SyncPass)
        ensures
            p.spec_sources() == sources@,
            p.spec_results() == Seq::<SyncResult>::empty(),
            p.spec_phase() is Ready,
            p.wf(),
    {
        SyncPass::new(sources)
    }
}

} // verus!
