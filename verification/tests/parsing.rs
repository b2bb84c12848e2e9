use crypto_news::article::NewsArticle;
use crypto_news::extract::ExtractError;
use crypto_news::extract::extract_text;
use crypto_news::parse::parse_rss;

fn item(title: &str, link: &str, desc: &str, date: &str) -> String {
    format!(
        "<item><title>{}</title><link>{}</link><description>{}</description><pubDate>{}</pubDate></item>",
        title, link, desc, date
    )
}

#[test]
fn extract_returns_first_tag_content() {
    let r = extract_text("<title>Hello</title>", "title");
    assert_eq!(r.unwrap(), "Hello");
}

#[test]
fn extract_uses_first_occurrences_only() {
    let r = extract_text("<t>a</t><t>b</t>", "t");
    assert_eq!(r.unwrap(), "a");
}

#[test]
fn extract_missing_tag_fails() {
    assert_eq!(extract_text("<title>Hello</title>", "link"), Err(ExtractError::TagMissing));
    assert_eq!(extract_text("<title>unterminated", "title"), Err(ExtractError::TagMissing));
}

#[test]
fn extract_closing_before_opening_fails() {
    assert_eq!(extract_text("</t>before<t>after", "t"), Err(ExtractError::InvalidPositions));
}

#[test]
fn extract_empty_content_fails() {
    assert_eq!(extract_text("<t></t>", "t"), Err(ExtractError::InvalidPositions));
}

#[test]
fn well_formed_item_yields_one_article() {
    let body = format!(
        "<channel><title>Feed</title>{}</channel>",
        item("Bitcoin rallies", "https://example.com/a", "Markets move", "not a date")
    );
    let articles = parse_rss(&body, "CoinDesk", 42);
    assert_eq!(articles.len(), 1);
    let a = &articles[0];
    assert_eq!(a.title, "Bitcoin rallies");
    assert_eq!(a.link, "https://example.com/a");
    assert_eq!(a.description, "Markets move...");
    assert_eq!(a.source, "CoinDesk");
    assert_eq!(a.pub_date, "not a date");
    assert_eq!(a.timestamp, 42);
}

#[test]
fn description_always_gets_ellipsis_and_is_truncated() {
    let long = "x".repeat(250);
    let body = item("T", "L", &long, "bad");
    let articles = parse_rss(&body, "S", 0);
    assert_eq!(articles.len(), 1);
    let d = &articles[0].description;
    assert!(d.ends_with("..."));
    assert_eq!(d.chars().count(), 203);
    let short_body = item("T", "L", "tiny", "bad");
    let short = parse_rss(&short_body, "S", 0);
    assert_eq!(short[0].description, "tiny...");
}

#[test]
fn missing_any_field_skips_fragment() {
    let no_title = "<item><link>L</link><description>D</description><pubDate>P</pubDate></item>";
    let no_link = "<item><title>T</title><description>D</description><pubDate>P</pubDate></item>";
    let no_desc = "<item><title>T</title><link>L</link><pubDate>P</pubDate></item>";
    let no_date = "<item><title>T</title><link>L</link><description>D</description></item>";
    for body in [no_title, no_link, no_desc, no_date] {
        assert_eq!(parse_rss(body, "S", 0).len(), 0);
    }
}

#[test]
fn skipped_fragment_does_not_drop_neighbours() {
    let body = format!(
        "{}<item><title>only</title></item>{}",
        item("first", "l1", "d1", "bad"),
        item("second", "l2", "d2", "bad")
    );
    let articles = parse_rss(&body, "S", 0);
    assert_eq!(articles.len(), 2);
    assert_eq!(articles[0].title, "first");
    assert_eq!(articles[1].title, "second");
}

#[test]
fn feed_metadata_before_first_item_is_discarded() {
    let body = format!("<title>The Feed Itself</title>{}", item("Story", "L", "D", "bad"));
    let articles = parse_rss(&body, "S", 0);
    assert_eq!(articles.len(), 1);
    assert_eq!(articles[0].title, "Story");
}

#[test]
fn body_without_items_yields_nothing() {
    assert_eq!(parse_rss("<channel><title>empty</title></channel>", "S", 0).len(), 0);
    assert_eq!(parse_rss("", "S", 0).len(), 0);
}

#[test]
fn rfc2822_date_gives_exact_timestamp() {
    let body = item("T", "L", "D", "Wed, 18 Feb 2015 23:16:09 GMT");
    let articles = parse_rss(&body, "S", 0);
    assert_eq!(articles.len(), 1);
    assert_eq!(articles[0].timestamp, 1424301369);
    assert_eq!(articles[0].pub_date, "Wed, 18 Feb 2015 23:16:09 GMT");
}

#[test]
fn unparseable_date_uses_fallback_and_keeps_raw_string() {
    let body = item("T", "L", "D", "the day after tomorrow");
    let articles = parse_rss(&body, "S", 7777);
    assert_eq!(articles.len(), 1);
    assert_eq!(articles[0].timestamp, 7777);
    assert_eq!(articles[0].pub_date, "the day after tomorrow");
}

#[test]
fn article_fields_are_plain_values() {
    let a = NewsArticle {
        title: String::from("t"),
        link: String::from("l"),
        description: String::from("d..."),
        source: String::from("s"),
        pub_date: String::from("p"),
        timestamp: 5,
    };
    let b = a.clone();
    assert_eq!(b.title, "t");
    assert_eq!(b.timestamp, 5);
}

#[test]
fn description_of_exactly_200_chars_is_kept_whole() {
    let exact = "y".repeat(200);
    let body = item("T", "L", &exact, "bad");
    let articles = parse_rss(&body, "S", 0);
    let d = &articles[0].description;
    assert_eq!(d.chars().count(), 203);
    assert!(d.starts_with(&exact));
}

#[test]
fn non_ascii_text_is_parsed_and_searched_safely() {
    let body = item("Café économie", "L", "Marchés à la hausse", "bad");
    let articles = parse_rss(&body, "Sé", 0);
    assert_eq!(articles.len(), 1);
    assert_eq!(articles[0].title, "Café économie");
    assert!(articles[0].matches_search("Café"));
    assert!(articles[0].matches_search("CAFÉ"));
    assert!(articles[0].matches_search("ÉCONOMIE"));
    assert!(articles[0].matches_search("MARCHÉS"));
    assert!(articles[0].matches_search("caf"));
    assert!(!articles[0].matches_search("bourse"));
}
