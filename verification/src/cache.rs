use vstd::prelude::*;

use crate::article::ArticleModel;
use crate::article::NewsArticle;
use crate::article::models;

verus! {

/// The shared article cache: exactly one ordered sequence of articles, the
/// most recently completed refresh. Writers replace the whole sequence;
/// readers copy it. (The surrounding process guards a `NewsCache` with a
/// read-write lock; these operations describe what one writer or reader does
/// while it holds its side of the lock.)
pub struct NewsCache {
    articles: Vec<NewsArticle>,
}

impl View for NewsCache {
    type V = Seq<ArticleModel>;

    closed spec fn view(&self) -> Seq<ArticleModel> {
        models(self.articles@)
    }
}

fn clone_articles(v: &Vec<NewsArticle>) -> (r: Vec<NewsArticle>)
    ensures
        r@ == v@,
{
    let mut r: Vec<NewsArticle> = Vec::new();
    let n = v.len();
    let mut i: usize = 0;
    while i < n
        invariant
            n == v@.len(),
            0 <= i <= n,
            r@ == v@.subrange(0, i as int),
        decreases n - i,
    {
        r.push(v[i].clone());
        proof {
            assert(r@ =~= v@.subrange(0, i + 1));
        }
        i += 1;
    }
    proof {
        assert(v@.subrange(0, n as int) =~= v@);
    }
    r
}

impl NewsCache {
    /// The empty cache of process start.
    pub fn new() -> (c: NewsCache)
        ensures
            c@ == Seq::<ArticleModel>::empty(),
    {
        proof {
            assert(models(Seq::<NewsArticle>::empty()) =~= Seq::<ArticleModel>::empty());
        }
        NewsCache { articles: Vec::new() }
    }

    /// Replaces the whole contents with a refresh cycle's result: afterwards
    /// the cache holds exactly the given sequence, nothing lost, nothing
    /// duplicated, nothing of the old contents kept.
    pub fn replace(&mut self, items: Vec<NewsArticle>)
        ensures
            final(self)@ == models(items@),
    {
        self.articles = items;
    }

    /// A point-in-time copy of the current contents, in cache order; the
    /// cache itself is not changed.
    pub fn snapshot(&self) -> (r: Vec<NewsArticle>)
        ensures
            models(r@) == self@,
    {
        clone_articles(&self.articles)
    }
}

} // verus!
