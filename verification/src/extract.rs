use vstd::prelude::*;

use crate::text::find_first;
use crate::text::find_str;
use crate::text::occurs_at;

verus! {

/// Why field extraction failed for a tag.
#[derive(Debug, PartialEq, Eq)]
pub enum ExtractError {
    /// The opening or the closing marker does not occur in the text.
    TagMissing,
    /// Both markers occur, but the first closing marker does not lie strictly
    /// after the content start of the first opening marker.
    InvalidPositions,
}

/// The opening marker `<tag>`.
pub open spec fn start_marker(tag: Seq<char>) -> Seq<char> {
    seq!['<'] + tag + seq!['>']
}

/// The closing marker `</tag>`.
pub open spec fn end_marker(tag: Seq<char>) -> Seq<char> {
    seq!['<', '/'] + tag + seq!['>']
}

/// The content strictly between the first `<tag>` and the first `</tag>`
/// occurrence, or `None` when a marker is absent or the first closing marker
/// does not lie strictly after the opening marker's content start. The scan
/// is deliberately non-hierarchical: nested or repeated tags are resolved to
/// first occurrences only.
pub open spec fn spec_extract(xml: Seq<char>, tag: Seq<char>) -> Option<Seq<char>> {
    match (find_first(xml, start_marker(tag)), find_first(xml, end_marker(tag))) {
        (Some(s), Some(e)) => {
            let content_start = s + start_marker(tag).len();
            if content_start < e {
                Some(xml.subrange(content_start, e))
            } else {
                None
            }
        },
        _ => None,
    }
}

/// Builds the executable form of a marker: `prefix + tag + ">"`.
fn build_marker(prefix: &str, tag: &str) -> (r: String)
    ensures
        r@ == prefix@ + tag@ + ">"@,
{
    let mut m = String::new();
    m.append(prefix);
    m.append(tag);
    m.append(">");
    m
}

/// Returns the substring of `xml` strictly between the first `<tag>` and the
/// first `</tag>`, as `spec_extract` describes; reports which of the two
/// failure conditions held otherwise.
pub fn extract_text(xml: &str, tag: &str) -> (r: Result<String, ExtractError>)
    ensures
        match r {
            Ok(content) => spec_extract(xml@, tag@) == Some(content@),
            Err(e) => {
                &&& spec_extract(xml@, tag@) is None
                &&& (e == ExtractError::TagMissing <==> (find_first(xml@, start_marker(tag@)) is None
                    || find_first(xml@, end_marker(tag@)) is None))
            },
        },
{
    let sm = build_marker("<", tag);
    let em = build_marker("</", tag);
    proof {
        reveal_strlit("<");
        reveal_strlit("</");
        reveal_strlit(">");
        assert(sm@ =~= start_marker(tag@));
        assert(em@ =~= end_marker(tag@));
    }
    let xml_len = xml.unicode_len();
    let start = find_str(xml, sm.as_str());
    let end = find_str(xml, em.as_str());
    match (start, end) {
        (Some(s), Some(e)) => {
            proof {
                crate::text::lemma_find_from_props(xml@, sm@, 0);
                crate::text::lemma_find_from_props(xml@, em@, 0);
                assert(s + sm@.len() <= xml_len);
            }
            let content_start = s + sm.unicode_len();
            if content_start < e {
                let content = xml.substring_char(content_start, e);
                Ok(String::from_str(content))
            } else {
                Err(ExtractError::InvalidPositions)
            }
        },
        _ => Err(ExtractError::TagMissing),
    }
}

} // verus!
