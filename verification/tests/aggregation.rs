use crypto_news::aggregate::aggregate;
use crypto_news::aggregate::sort_by_recency;
use crypto_news::article::NewsArticle;
use crypto_news::refresh::SourceFetch;
use crypto_news::refresh::fetch_all_news;

fn article(title: &str, source: &str, timestamp: i64) -> NewsArticle {
    NewsArticle {
        title: String::from(title),
        link: String::from("l"),
        description: String::from("d..."),
        source: String::from(source),
        pub_date: String::from("p"),
        timestamp,
    }
}

fn feed_with_date(title: &str, date: &str) -> String {
    format!(
        "<item><title>{}</title><link>l</link><description>d</description><pubDate>{}</pubDate></item>",
        title, date
    )
}

#[test]
fn sorts_newest_first() {
    let input = vec![article("a", "s", 100), article("b", "s", 300), article("c", "s", 200)];
    let out = sort_by_recency(input);
    let ts: Vec<i64> = out.iter().map(|a| a.timestamp).collect();
    assert_eq!(ts, vec![300, 200, 100]);
}

#[test]
fn sort_is_stable_for_equal_timestamps() {
    let input = vec![
        article("first", "A", 50),
        article("second", "B", 50),
        article("third", "C", 90),
        article("fourth", "D", 50),
    ];
    let out = sort_by_recency(input);
    let titles: Vec<&str> = out.iter().map(|a| a.title.as_str()).collect();
    assert_eq!(titles, vec!["third", "first", "second", "fourth"]);
}

#[test]
fn aggregate_concatenates_in_source_order_then_sorts() {
    let lists = vec![
        vec![article("a1", "A", 10), article("a2", "A", 10)],
        vec![article("b1", "B", 10)],
        vec![article("c1", "C", 99)],
    ];
    let out = aggregate(lists);
    let titles: Vec<&str> = out.iter().map(|a| a.title.as_str()).collect();
    assert_eq!(titles, vec!["c1", "a1", "a2", "b1"]);
}

#[test]
fn three_valid_feeds_sorted_by_recency() {
    let fetches = vec![
        SourceFetch {
            source: String::from("One"),
            body: Some(feed_with_date("t100", "Thu, 01 Jan 1970 00:01:40 GMT")),
        },
        SourceFetch {
            source: String::from("Two"),
            body: Some(feed_with_date("t300", "Thu, 01 Jan 1970 00:05:00 GMT")),
        },
        SourceFetch {
            source: String::from("Three"),
            body: Some(feed_with_date("t200", "Thu, 01 Jan 1970 00:03:20 GMT")),
        },
    ];
    let out = fetch_all_news(&fetches, 0);
    let ts: Vec<i64> = out.iter().map(|a| a.timestamp).collect();
    assert_eq!(ts, vec![300, 200, 100]);
    assert_eq!(out[0].source, "Two");
    assert_eq!(out[1].source, "Three");
    assert_eq!(out[2].source, "One");
}

#[test]
fn failing_source_is_isolated() {
    let fetches = vec![
        SourceFetch {
            source: String::from("Good1"),
            body: Some(feed_with_date("a", "Thu, 01 Jan 1970 00:05:00 GMT")),
        },
        SourceFetch { source: String::from("Broken"), body: None },
        SourceFetch {
            source: String::from("Good2"),
            body: Some(feed_with_date("b", "Thu, 01 Jan 1970 00:01:40 GMT")),
        },
    ];
    let out = fetch_all_news(&fetches, 0);
    assert_eq!(out.len(), 2);
    assert_eq!(out[0].source, "Good1");
    assert_eq!(out[1].source, "Good2");
}

#[test]
fn empty_fetch_list_yields_empty_news() {
    let out = fetch_all_news(&Vec::new(), 0);
    assert_eq!(out.len(), 0);
}
