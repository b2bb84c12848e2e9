use vstd::prelude::*;

use crate::aggregate::aggregate;
use crate::aggregate::is_stable_sort_by_recency;
use crate::aggregate::models_concat;
use crate::article::ArticleModel;
use crate::article::NewsArticle;
use crate::article::models;
use crate::cache::NewsCache;
use crate::clock::now_timestamp;
use crate::parse::parse_rss;
use crate::parse::spec_parse_feed;

verus! {

/// How long the scheduler waits between refresh cycles, in seconds.
pub const REFRESH_INTERVAL_SECS: u64 = 300;

/// What one source's retrieval came back with: the response body on success,
/// nothing on a transport failure (network error or non-success response).
pub struct SourceFetch {
    /// The human-readable name of the source.
    pub source: String,
    /// The response body, or `None` when the retrieval failed.
    pub body: Option<String>,
}

/// The mathematical content of a `SourceFetch`.
pub ghost struct SourceFetchModel {
    pub source: Seq<char>,
    pub body: Option<Seq<char>>,
}

impl View for SourceFetch {
    type V = SourceFetchModel;

    open spec fn view(&self) -> SourceFetchModel {
        SourceFetchModel {
            source: self.source@,
            body: match self.body {
                Some(ref b) => Some(b@),
                None => None,
            },
        }
    }
}

/// One source's contribution to a cycle: its feed's well-formed items, or
/// nothing when the retrieval failed — a failing source is fully isolated.
pub open spec fn spec_source_articles(f: SourceFetchModel, fallback_ts: i64) -> Seq<ArticleModel> {
    match f.body {
        Some(b) => spec_parse_feed(b, f.source, fallback_ts),
        None => Seq::empty(),
    }
}

/// Every source's articles, concatenated in configured-source order.
pub open spec fn spec_collected(fs: Seq<SourceFetchModel>, fallback_ts: i64) -> Seq<ArticleModel>
    decreases fs.len(),
{
    if fs.len() == 0 {
        Seq::empty()
    } else {
        spec_source_articles(fs[0], fallback_ts) + spec_collected(fs.drop_first(), fallback_ts)
    }
}

/// The models of a sequence of fetch outcomes.
pub open spec fn fetch_models(fs: Seq<SourceFetch>) -> Seq<SourceFetchModel> {
    fs.map_values(|f: SourceFetch| f@)
}

/// `spec_collected` grows by one source's articles at the end.
proof fn lemma_collected_push(fs: Seq<SourceFetchModel>, f: SourceFetchModel, fallback_ts: i64)
    ensures
        spec_collected(fs.push(f), fallback_ts) == spec_collected(fs, fallback_ts)
            + spec_source_articles(f, fallback_ts),
    decreases fs.len(),
{
    if fs.len() == 0 {
        assert(spec_collected(Seq::<SourceFetchModel>::empty(), fallback_ts)
            == Seq::<ArticleModel>::empty());
        assert(fs.push(f).drop_first() =~= Seq::<SourceFetchModel>::empty());
        assert(fs.push(f)[0] == f);
        assert(spec_collected(fs.push(f), fallback_ts) =~= spec_source_articles(f, fallback_ts));
        assert(spec_collected(fs, fallback_ts) + spec_source_articles(f, fallback_ts)
            =~= spec_source_articles(f, fallback_ts));
    } else {
        assert(fs.push(f).drop_first() =~= fs.drop_first().push(f));
        lemma_collected_push(fs.drop_first(), f, fallback_ts);
        assert(spec_collected(fs.push(f), fallback_ts) =~= spec_collected(fs, fallback_ts)
            + spec_source_articles(f, fallback_ts));
    }
}

/// The news of a whole cycle, given every source's fetch outcome: each
/// successful body parsed, failures contributing nothing, the lot
/// concatenated in source order and stably sorted newest first.
pub fn fetch_all_news(fetches: &Vec<SourceFetch>, fallback_ts: i64) -> (out: Vec<NewsArticle>)
    ensures
        is_stable_sort_by_recency(
            models(out@),
            spec_collected(fetch_models(fetches@), fallback_ts),
        ),
{
    let mut lists: Vec<Vec<NewsArticle>> = Vec::new();
    let n = fetches.len();
    let mut i: usize = 0;
    proof {
        assert(fetch_models(fetches@.subrange(0, 0)) =~= Seq::<SourceFetchModel>::empty());
        assert(models_concat(lists@) =~= Seq::<ArticleModel>::empty());
    }
    while i < n
        invariant
            n == fetches@.len(),
            0 <= i <= n,
            models_concat(lists@) == spec_collected(
                fetch_models(fetches@.subrange(0, i as int)),
                fallback_ts,
            ),
        decreases n - i,
    {
        let ghost lists_prev = lists@;
        let f = &fetches[i];
        let articles = match &f.body {
            Some(b) => parse_rss(b.as_str(), f.source.as_str(), fallback_ts),
            None => Vec::new(),
        };
        proof {
            assert(models(articles@) =~= spec_source_articles(fetches@[i as int]@, fallback_ts));
        }
        lists.push(articles);
        proof {
            lemma_models_concat_push(lists_prev, lists@[lists@.len() - 1]);
            lemma_collected_push(
                fetch_models(fetches@.subrange(0, i as int)),
                fetches@[i as int]@,
                fallback_ts,
            );
            assert(fetch_models(fetches@.subrange(0, i + 1)) =~= fetch_models(
                fetches@.subrange(0, i as int),
            ).push(fetches@[i as int]@));
        }
        i += 1;
    }
    proof {
        assert(fetches@.subrange(0, n as int) =~= fetches@);
    }
    aggregate(lists)
}

/// `models_concat` grows by one list's models at the end.
proof fn lemma_models_concat_push(lists: Seq<Vec<NewsArticle>>, v: Vec<NewsArticle>)
    ensures
        models_concat(lists.push(v)) == models_concat(lists) + models(v@),
    decreases lists.len(),
{
    if lists.len() == 0 {
        assert(models_concat(Seq::<Vec<NewsArticle>>::empty()) == Seq::<ArticleModel>::empty());
        assert(lists.push(v).drop_first() =~= Seq::<Vec<NewsArticle>>::empty());
        assert(lists.push(v)[0] == v);
        assert(models_concat(lists.push(v)) =~= models(v@));
        assert(models_concat(lists) + models(v@) =~= models(v@));
    } else {
        assert(lists.push(v).drop_first() =~= lists.drop_first().push(v));
        lemma_models_concat_push(lists.drop_first(), v);
        assert(models_concat(lists.push(v)) =~= models_concat(lists) + models(v@));
    }
}

/// One refresh cycle with an explicit date fallback: parse, aggregate, and
/// atomically replace the cache's contents with the result.
pub fn refresh_cycle(cache: &mut NewsCache, fetches: &Vec<SourceFetch>, fallback_ts: i64)
    ensures
        is_stable_sort_by_recency(
            final(cache)@,
            spec_collected(fetch_models(fetches@), fallback_ts),
        ),
{
    let items = fetch_all_news(fetches, fallback_ts);
    cache.replace(items);
}

/// One refresh cycle, taking the wall clock as the fallback timestamp for
/// dates that do not parse. Whatever the clock read, the cache afterwards
/// holds the stable by-recency sort of the cycle's articles under that
/// reading.
pub fn refresh_cycle_now(cache: &mut NewsCache, fetches: &Vec<SourceFetch>)
    ensures
        exists|fallback_ts: i64|
            is_stable_sort_by_recency(
                final(cache)@,
                spec_collected(fetch_models(fetches@), fallback_ts),
            ),
{
    let fallback_ts = now_timestamp();
    refresh_cycle(cache, fetches, fallback_ts);
}

/// The refresh scheduler's two states: running a cycle, or waiting out the
/// fixed interval. There is no terminal state.
pub enum SchedulerPhase {
    Fetching,
    IdleWaiting,
}

/// What the driving loop does in a phase.
pub enum SchedulerAction {
    /// Run one full fetch-aggregate-replace cycle.
    RunRefreshCycle,
    /// Sleep for the given number of seconds.
    WaitSeconds(u64),
}

/// One scheduler transition: what to do in the current phase, and the phase
/// that follows. The machine starts in `Fetching` (no initial delay) and
/// alternates forever between a cycle and a fixed wait, with no jitter and no
/// backoff.
pub fn scheduler_step(phase: &SchedulerPhase) -> (r: (SchedulerAction, SchedulerPhase))
    ensures
        phase is Fetching ==> r.0 is RunRefreshCycle && r.1 is IdleWaiting,
        phase is IdleWaiting ==> r == (
            SchedulerAction::WaitSeconds(REFRESH_INTERVAL_SECS),
            SchedulerPhase::Fetching,
        ),
{
    match phase {
        SchedulerPhase::Fetching => (SchedulerAction::RunRefreshCycle, SchedulerPhase::IdleWaiting),
        SchedulerPhase::IdleWaiting => (
            SchedulerAction::WaitSeconds(REFRESH_INTERVAL_SECS),
            SchedulerPhase::Fetching,
        ),
    }
}

} // verus!
