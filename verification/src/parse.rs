use vstd::prelude::*;

use crate::article::ArticleModel;
use crate::article::NewsArticle;
use crate::article::models;
use crate::clock::parse_rfc2822_timestamp;
use crate::clock::rfc2822_timestamp_of;
use crate::extract::extract_text;
use crate::extract::spec_extract;
use crate::text::find_first;
use crate::text::find_str;
use crate::text::lemma_find_from_props;

verus! {

/// The item boundary marker `<item>`.
pub open spec fn item_marker() -> Seq<char> {
    seq!['<', 'i', 't', 'e', 'm', '>']
}

pub open spec fn title_tag() -> Seq<char> {
    seq!['t', 'i', 't', 'l', 'e']
}

pub open spec fn link_tag() -> Seq<char> {
    seq!['l', 'i', 'n', 'k']
}

pub open spec fn description_tag() -> Seq<char> {
    seq!['d', 'e', 's', 'c', 'r', 'i', 'p', 't', 'i', 'o', 'n']
}

pub open spec fn pub_date_tag() -> Seq<char> {
    seq!['p', 'u', 'b', 'D', 'a', 't', 'e']
}

/// The ellipsis marker appended to every description.
pub open spec fn ellipsis() -> Seq<char> {
    seq!['.', '.', '.']
}

/// Description truncation: the first 200 characters of the extracted text,
/// with the ellipsis marker appended unconditionally.
pub open spec fn truncate_description(d: Seq<char>) -> Seq<char> {
    if d.len() <= 200 {
        d + ellipsis()
    } else {
        d.subrange(0, 200) + ellipsis()
    }
}

/// The article parsed from one item fragment, or `None` when any of the four
/// required fields cannot be extracted. The timestamp is the RFC 2822 reading
/// of the date string, or `fallback_ts` when the date does not parse; the raw
/// date string is kept either way.
pub open spec fn spec_parse_item(frag: Seq<char>, source: Seq<char>, fallback_ts: i64) -> Option<
    ArticleModel,
> {
    match (
        spec_extract(frag, title_tag()),
        spec_extract(frag, link_tag()),
        spec_extract(frag, description_tag()),
        spec_extract(frag, pub_date_tag()),
    ) {
        (Some(title), Some(link), Some(description), Some(pub_date)) => Some(
            ArticleModel {
                title,
                link,
                description: truncate_description(description),
                source,
                pub_date,
                timestamp: match rfc2822_timestamp_of(pub_date) {
                    Some(t) => t,
                    None => fallback_ts,
                },
            },
        ),
        _ => None,
    }
}

/// The fragments of the text that follows the first item marker: the runs of
/// text between consecutive markers, the tail after the last marker included.
pub open spec fn split_fragments(t: Seq<char>) -> Seq<Seq<char>>
    decreases t.len(),
    via split_fragments_decreases
{
    match find_first(t, item_marker()) {
        None => seq![t],
        Some(i) => seq![t.subrange(0, i)] + split_fragments(
            t.subrange(i + item_marker().len(), t.len() as int),
        ),
    }
}

#[via_fn]
proof fn split_fragments_decreases(t: Seq<char>) {
    match find_first(t, item_marker()) {
        Some(i) => lemma_find_from_props(t, item_marker(), 0),
        None => (),
    }
}

/// The item fragments of a whole feed body: everything before the first
/// `<item>` marker is feed-level metadata and yields none.
pub open spec fn feed_fragments(body: Seq<char>) -> Seq<Seq<char>> {
    match find_first(body, item_marker()) {
        None => Seq::empty(),
        Some(i) => split_fragments(body.subrange(i + item_marker().len(), body.len() as int)),
    }
}

/// The articles of a fragment sequence, in order; a fragment missing a field
/// contributes none.
pub open spec fn spec_parse_fragments(
    frags: Seq<Seq<char>>,
    source: Seq<char>,
    fallback_ts: i64,
) -> Seq<ArticleModel>
    decreases frags.len(),
{
    if frags.len() == 0 {
        Seq::empty()
    } else {
        (match spec_parse_item(frags[0], source, fallback_ts) {
            Some(a) => seq![a],
            None => Seq::empty(),
        }) + spec_parse_fragments(frags.drop_first(), source, fallback_ts)
    }
}

/// The articles of a whole feed body.
pub open spec fn spec_parse_feed(body: Seq<char>, source: Seq<char>, fallback_ts: i64) -> Seq<
    ArticleModel,
> {
    spec_parse_fragments(feed_fragments(body), source, fallback_ts)
}

/// Parses one item fragment: extracts the four required fields, truncates the
/// description, and derives the timestamp from the date string with
/// `fallback_ts` for dates that do not parse.
fn parse_item(frag: &str, source_name: &str, fallback_ts: i64) -> (r: Option<NewsArticle>)
    ensures
        match r {
            Some(a) => spec_parse_item(frag@, source_name@, fallback_ts) == Some(a@),
            None => spec_parse_item(frag@, source_name@, fallback_ts) is None,
        },
{
    proof {
        reveal_strlit("title");
        reveal_strlit("link");
        reveal_strlit("description");
        reveal_strlit("pubDate");
        assert("title"@ =~= title_tag());
        assert("link"@ =~= link_tag());
        assert("description"@ =~= description_tag());
        assert("pubDate"@ =~= pub_date_tag());
    }
    let title = extract_text(frag, "title");
    let link = extract_text(frag, "link");
    let description = extract_text(frag, "description");
    let pub_date = extract_text(frag, "pubDate");
    match (title, link, description, pub_date) {
        (Ok(title), Ok(link), Ok(description), Ok(pub_date)) => {
            let desc_len = description.as_str().unicode_len();
            let mut desc = if desc_len > 200 {
                String::from_str(description.as_str().substring_char(0, 200))
            } else {
                description
            };
            desc.append("...");
            proof {
                reveal_strlit("...");
                assert("..."@ =~= ellipsis());
            }
            let timestamp = match parse_rfc2822_timestamp(pub_date.as_str()) {
                Some(t) => t,
                None => fallback_ts,
            };
            Some(
                NewsArticle {
                    title,
                    link,
                    description: desc,
                    source: String::from_str(source_name),
                    pub_date,
                    timestamp,
                },
            )
        },
        _ => None,
    }
}

/// Splits a feed body on the `<item>` marker, discards what precedes the
/// first marker, and parses each fragment; fragments missing any of the four
/// required fields are skipped, so the result is exactly the feed's
/// well-formed items in document order.
pub fn parse_rss(feed_body: &str, source_name: &str, fallback_ts: i64) -> (articles: Vec<
    NewsArticle,
>)
    ensures
        models(articles@) == spec_parse_feed(feed_body@, source_name@, fallback_ts),
{
    let mut articles: Vec<NewsArticle> = Vec::new();
    proof {
        reveal_strlit("<item>");
        assert("<item>"@ =~= item_marker());
    }
    let body_len = feed_body.unicode_len();
    let first = find_str(feed_body, "<item>");
    match first {
        None => {
            assert(models(articles@) =~= spec_parse_feed(feed_body@, source_name@, fallback_ts));
            articles
        },
        Some(i) => {
            proof {
                lemma_find_from_props(feed_body@, item_marker(), 0);
            }
            let mut rest: &str = feed_body.substring_char(i + 6, body_len);
            loop
                invariant_except_break
                    spec_parse_feed(feed_body@, source_name@, fallback_ts) =~= models(articles@)
                        + spec_parse_fragments(split_fragments(rest@), source_name@, fallback_ts),
                ensures
                    models(articles@) == spec_parse_feed(feed_body@, source_name@, fallback_ts),
                decreases rest@.len(),
            {
                let rest_len = rest.unicode_len();
                let next = find_str(rest, "<item>");
                proof {
                    reveal_strlit("<item>");
                    assert("<item>"@ =~= item_marker());
                }
                match next {
                    None => {
                        assert(split_fragments(rest@) =~= seq![rest@]);
                        if let Some(a) = parse_item(rest, source_name, fallback_ts) {
                            proof {
                                lemma_parse_fragments_single(rest@, source_name@, fallback_ts);
                            }
                            articles.push(a);
                            assert(models(articles@) =~= spec_parse_feed(
                                feed_body@,
                                source_name@,
                                fallback_ts,
                            ));
                        } else {
                            proof {
                                lemma_parse_fragments_single(rest@, source_name@, fallback_ts);
                            }
                            assert(models(articles@) =~= spec_parse_feed(
                                feed_body@,
                                source_name@,
                                fallback_ts,
                            ));
                        }
                        break;
                    },
                    Some(j) => {
                        proof {
                            lemma_find_from_props(rest@, item_marker(), 0);
                        }
                        let frag = rest.substring_char(0, j);
                        let ghost prev_models = models(articles@);
                        let ghost tail = rest@.subrange(
                            j + item_marker().len(),
                            rest@.len() as int,
                        );
                        proof {
                            lemma_parse_fragments_step(rest@, j as int, source_name@, fallback_ts);
                        }
                        if let Some(a) = parse_item(frag, source_name, fallback_ts) {
                            articles.push(a);
                            assert(models(articles@) =~= prev_models + seq![a@]);
                        }
                        rest = rest.substring_char(j + 6, rest_len);
                        assert(rest@ == tail);
                    },
                }
            }
            articles
        },
    }
}

/// A fragment holding all four required fields yields exactly one article,
/// whose description ends with the ellipsis marker and, the marker aside, is
/// at most 200 characters long.
pub proof fn lemma_well_formed_item(frag: Seq<char>, source: Seq<char>, fallback_ts: i64)
    requires
        spec_extract(frag, title_tag()) is Some,
        spec_extract(frag, link_tag()) is Some,
        spec_extract(frag, description_tag()) is Some,
        spec_extract(frag, pub_date_tag()) is Some,
    ensures
        spec_parse_item(frag, source, fallback_ts) is Some,
        ({
            let d = spec_parse_item(frag, source, fallback_ts)->Some_0.description;
            &&& d.len() >= ellipsis().len()
            &&& d.subrange(d.len() - ellipsis().len(), d.len() as int) == ellipsis()
            &&& d.len() - ellipsis().len() <= 200
        }),
{
    let desc = spec_extract(frag, description_tag())->Some_0;
    let d = truncate_description(desc);
    if desc.len() <= 200 {
        assert(d.subrange(d.len() - ellipsis().len(), d.len() as int) =~= ellipsis());
    } else {
        assert(d.subrange(d.len() - ellipsis().len(), d.len() as int) =~= ellipsis());
    }
}

/// A fragment missing any one of the four required fields contributes no
/// article: no partial articles are ever emitted.
pub proof fn lemma_missing_field_skips(frag: Seq<char>, source: Seq<char>, fallback_ts: i64)
    requires
        spec_extract(frag, title_tag()) is None || spec_extract(frag, link_tag()) is None
            || spec_extract(frag, description_tag()) is None || spec_extract(
            frag,
            pub_date_tag(),
        ) is None,
    ensures
        spec_parse_item(frag, source, fallback_ts) is None,
{
}

/// A date string the RFC 2822 parser rejects does not drop the item: the
/// article gets the fallback timestamp, while the raw date string is kept.
pub proof fn lemma_unparsed_date_uses_fallback(
    frag: Seq<char>,
    source: Seq<char>,
    fallback_ts: i64,
)
    requires
        spec_parse_item(frag, source, fallback_ts) is Some,
        rfc2822_timestamp_of(spec_extract(frag, pub_date_tag())->Some_0) is None,
    ensures
        spec_parse_item(frag, source, fallback_ts)->Some_0.timestamp == fallback_ts,
        spec_parse_item(frag, source, fallback_ts)->Some_0.pub_date == spec_extract(
            frag,
            pub_date_tag(),
        )->Some_0,
{
}

/// Unfolds `spec_parse_fragments` for a single-fragment sequence.
proof fn lemma_parse_fragments_single(frag: Seq<char>, source: Seq<char>, fallback_ts: i64)
    ensures
        spec_parse_fragments(seq![frag], source, fallback_ts) == (match spec_parse_item(
            frag,
            source,
            fallback_ts,
        ) {
            Some(a) => seq![a],
            None => Seq::<ArticleModel>::empty(),
        }),
{
    let frags = seq![frag];
    assert(frags.drop_first() =~= Seq::<Seq<char>>::empty());
    assert(spec_parse_fragments(frags.drop_first(), source, fallback_ts)
        =~= Seq::<ArticleModel>::empty());
    match spec_parse_item(frag, source, fallback_ts) {
        Some(a) => {
            assert(spec_parse_fragments(frags, source, fallback_ts) =~= seq![a]);
        },
        None => {
            assert(spec_parse_fragments(frags, source, fallback_ts)
                =~= Seq::<ArticleModel>::empty());
        },
    }
}

/// Unfolds one marker step: the fragments of a text with a first marker at
/// `j` are the head fragment before `j` followed by the fragments of the
/// tail, and parsing concatenates accordingly.
proof fn lemma_parse_fragments_step(t: Seq<char>, j: int, source: Seq<char>, fallback_ts: i64)
    requires
        find_first(t, item_marker()) == Some(j),
    ensures
        spec_parse_fragments(split_fragments(t), source, fallback_ts) == (match spec_parse_item(
            t.subrange(0, j),
            source,
            fallback_ts,
        ) {
            Some(a) => seq![a],
            None => Seq::<ArticleModel>::empty(),
        }) + spec_parse_fragments(
            split_fragments(t.subrange(j + item_marker().len(), t.len() as int)),
            source,
            fallback_ts,
        ),
{
    lemma_find_from_props(t, item_marker(), 0);
    let head = t.subrange(0, j);
    let tail_frags = split_fragments(t.subrange(j + item_marker().len(), t.len() as int));
    let frags = split_fragments(t);
    assert(frags == seq![head] + tail_frags);
    assert(frags.len() == 1 + tail_frags.len());
    assert(frags[0] == head);
    assert(frags.drop_first() =~= tail_frags);
}

} // verus!
