use vstd::prelude::*;

use crate::aggregate::lemma_filter_singleton;
use crate::article::ArticleModel;
use crate::article::NewsArticle;
use crate::article::models;
use crate::article::spec_matches;

verus! {

/// The articles of `s` that match the search term, in their order in `s`.
pub open spec fn matching(s: Seq<ArticleModel>, term: Seq<char>) -> Seq<ArticleModel> {
    s.filter(|a: ArticleModel| spec_matches(a, term))
}

/// Read-side filtering of a cache snapshot: keeps, in order, exactly the
/// articles that match the search term. The snapshot is read, never changed.
pub fn filter_articles(articles: &Vec<NewsArticle>, search_term: &str) -> (r: Vec<NewsArticle>)
    ensures
        models(r@) == matching(models(articles@), search_term@),
{
    let mut r: Vec<NewsArticle> = Vec::new();
    let n = articles.len();
    let mut i: usize = 0;
    proof {
        assert(models(articles@.subrange(0, 0)) =~= Seq::<ArticleModel>::empty());
        assert(matching(Seq::<ArticleModel>::empty(), search_term@)
            =~= Seq::<ArticleModel>::empty());
    }
    while i < n
        invariant
            n == articles@.len(),
            0 <= i <= n,
            models(r@) == matching(models(articles@.subrange(0, i as int)), search_term@),
        decreases n - i,
    {
        let ghost pred = (|a: ArticleModel| spec_matches(a, search_term@));
        let ghost prefix = models(articles@.subrange(0, i as int));
        let a = &articles[i];
        proof {
            assert(models(articles@.subrange(0, i + 1)) =~= prefix + seq![articles@[i as int]@]);
            Seq::filter_distributes_over_add(prefix, seq![articles@[i as int]@], pred);
            lemma_filter_singleton(articles@[i as int]@, pred);
        }
        if a.matches_search(search_term) {
            r.push(a.clone());
            proof {
                assert(models(r@) =~= prefix.filter(pred) + seq![articles@[i as int]@]);
            }
        }
        i += 1;
    }
    proof {
        assert(articles@.subrange(0, n as int) =~= articles@);
    }
    r
}

} // verus!
