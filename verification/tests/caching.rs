use crypto_news::article::NewsArticle;
use crypto_news::cache::NewsCache;
use crypto_news::refresh::REFRESH_INTERVAL_SECS;
use crypto_news::refresh::SchedulerAction;
use crypto_news::refresh::SchedulerPhase;
use crypto_news::refresh::SourceFetch;
use crypto_news::refresh::refresh_cycle;
use crypto_news::refresh::refresh_cycle_now;
use crypto_news::refresh::scheduler_step;

fn article(title: &str, timestamp: i64) -> NewsArticle {
    NewsArticle {
        title: String::from(title),
        link: String::from("l"),
        description: String::from("d..."),
        source: String::from("s"),
        pub_date: String::from("p"),
        timestamp,
    }
}

#[test]
fn new_cache_is_empty() {
    let cache = NewsCache::new();
    assert_eq!(cache.snapshot().len(), 0);
}

#[test]
fn replace_then_snapshot_returns_exactly_the_replaced_sequence() {
    let mut cache = NewsCache::new();
    cache.replace(vec![article("a", 3), article("b", 2), article("c", 1)]);
    let snap = cache.snapshot();
    assert_eq!(snap.len(), 3);
    assert_eq!(snap[0].title, "a");
    assert_eq!(snap[1].title, "b");
    assert_eq!(snap[2].title, "c");
    assert_eq!(snap[0].timestamp, 3);
}

#[test]
fn replace_discards_all_prior_contents() {
    let mut cache = NewsCache::new();
    cache.replace(vec![article("old1", 1), article("old2", 2)]);
    cache.replace(vec![article("new", 9)]);
    let snap = cache.snapshot();
    assert_eq!(snap.len(), 1);
    assert_eq!(snap[0].title, "new");
}

#[test]
fn snapshot_is_a_copy_not_a_drain() {
    let mut cache = NewsCache::new();
    cache.replace(vec![article("a", 1)]);
    let first = cache.snapshot();
    let second = cache.snapshot();
    assert_eq!(first.len(), 1);
    assert_eq!(second.len(), 1);
    assert_eq!(second[0].title, "a");
}

#[test]
fn refresh_cycle_fills_cache_sorted() {
    let mut cache = NewsCache::new();
    let fetches = vec![SourceFetch {
        source: String::from("S"),
        body: Some(String::from(
            "<item><title>x</title><link>l</link><description>d</description><pubDate>Thu, 01 Jan 1970 00:01:40 GMT</pubDate></item>",
        )),
    }];
    refresh_cycle(&mut cache, &fetches, 0);
    let snap = cache.snapshot();
    assert_eq!(snap.len(), 1);
    assert_eq!(snap[0].timestamp, 100);
}

#[test]
fn refresh_cycle_now_uses_clock_for_bad_dates() {
    let mut cache = NewsCache::new();
    let fetches = vec![SourceFetch {
        source: String::from("S"),
        body: Some(String::from(
            "<item><title>x</title><link>l</link><description>d</description><pubDate>no date at all</pubDate></item>",
        )),
    }];
    let before = chrono::Utc::now().timestamp();
    refresh_cycle_now(&mut cache, &fetches);
    let after = chrono::Utc::now().timestamp();
    let snap = cache.snapshot();
    assert_eq!(snap.len(), 1);
    assert!(snap[0].timestamp >= before && snap[0].timestamp <= after);
    assert_eq!(snap[0].pub_date, "no date at all");
}

#[test]
fn scheduler_alternates_between_cycle_and_wait() {
    let (action, next) = scheduler_step(&SchedulerPhase::Fetching);
    assert!(matches!(action, SchedulerAction::RunRefreshCycle));
    assert!(matches!(next, SchedulerPhase::IdleWaiting));
    let (action2, next2) = scheduler_step(&next);
    assert!(matches!(action2, SchedulerAction::WaitSeconds(REFRESH_INTERVAL_SECS)));
    assert!(matches!(next2, SchedulerPhase::Fetching));
    assert_eq!(REFRESH_INTERVAL_SECS, 300);
}
