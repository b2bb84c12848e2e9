use vstd::prelude::*;

use crate::text::contains_folded;
use crate::text::contains_str;
use crate::text::to_lowercase;

verus! {

/// The mathematical content of a `NewsArticle`: its texts as character
/// sequences, together with the ordering timestamp.
pub ghost struct ArticleModel {
    pub title: Seq<char>,
    pub link: Seq<char>,
    pub description: Seq<char>,
    pub source: Seq<char>,
    pub pub_date: Seq<char>,
    pub timestamp: i64,
}

/// One aggregated news item. Immutable once constructed; `timestamp` is
/// derived from `pub_date` at construction time and never re-derived.
pub struct NewsArticle {
    pub title: String,
    pub link: String,
    pub description: String,
    pub source: String,
    pub pub_date: String,
    pub timestamp: i64,
}

impl View for NewsArticle {
    type V = ArticleModel;

    open spec fn view(&self) -> ArticleModel {
        ArticleModel {
            title: self.title@,
            link: self.link@,
            description: self.description@,
            source: self.source@,
            pub_date: self.pub_date@,
            timestamp: self.timestamp,
        }
    }
}

impl Clone for NewsArticle {
    fn clone(&self) -> (r: Self)
        ensures
            r == *self,
    {
        NewsArticle {
            title: self.title.clone(),
            link: self.link.clone(),
            description: self.description.clone(),
            source: self.source.clone(),
            pub_date: self.pub_date.clone(),
            timestamp: self.timestamp,
        }
    }
}

/// The models of a sequence of articles.
pub open spec fn models(s: Seq<NewsArticle>) -> Seq<ArticleModel> {
    s.map_values(|a: NewsArticle| a@)
}

/// Whether an article matches a search term: an empty term matches every
/// article; otherwise the lowercased term must occur in the lowercased
/// title, description or source name.
pub open spec fn spec_matches(a: ArticleModel, term: Seq<char>) -> bool {
    ||| term.len() == 0
    ||| contains_folded(a.title, term)
    ||| contains_folded(a.description, term)
    ||| contains_folded(a.source, term)
}

/// An empty search term matches every article.
pub proof fn lemma_empty_term_matches(a: ArticleModel)
    ensures
        spec_matches(a, Seq::<char>::empty()),
{
}

impl NewsArticle {
    /// Case-insensitive search across title, description and source name.
    pub fn matches_search(&self, search_term: &str) -> (r: bool)
        ensures
            r == spec_matches(self@, search_term@),
    {
        if search_term.is_empty() {
            return true;
        }
        let term_lower = to_lowercase(search_term);
        let title_lower = to_lowercase(self.title.as_str());
        if contains_str(title_lower.as_str(), term_lower.as_str()) {
            return true;
        }
        let description_lower = to_lowercase(self.description.as_str());
        if contains_str(description_lower.as_str(), term_lower.as_str()) {
            return true;
        }
        let source_lower = to_lowercase(self.source.as_str());
        contains_str(source_lower.as_str(), term_lower.as_str())
    }
}

} // verus!
