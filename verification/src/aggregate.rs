use vstd::prelude::*;
use vstd::seq_lib::group_filter_ensures;

use crate::article::ArticleModel;
use crate::article::NewsArticle;
use crate::article::models;

verus! {

broadcast use group_filter_ensures;

/// Sorted newest first: timestamps never increase along the sequence.
pub open spec fn sorted_by_recency(s: Seq<ArticleModel>) -> bool {
    forall|i: int, j: int| 0 <= i < j < s.len() ==> s[i].timestamp >= s[j].timestamp
}

/// The articles of `s` with timestamp `t`, in their order in `s`.
pub open spec fn with_timestamp(s: Seq<ArticleModel>, t: i64) -> Seq<ArticleModel> {
    s.filter(|a: ArticleModel| a.timestamp == t)
}

/// `out` is the stable sort of `input` by recency: sorted newest first, and
/// for every timestamp the articles carrying it are exactly those of `input`,
/// in their input order. These two clauses determine `out` uniquely.
pub open spec fn is_stable_sort_by_recency(out: Seq<ArticleModel>, input: Seq<ArticleModel>) -> bool {
    &&& sorted_by_recency(out)
    &&& forall|t: i64| with_timestamp(out, t) == with_timestamp(input, t)
}

/// A filter over a sequence without a satisfying element is empty.
pub(crate) proof fn lemma_filter_all_false(s: Seq<ArticleModel>, pred: spec_fn(ArticleModel) -> bool)
    requires
        forall|i: int| 0 <= i < s.len() ==> !pred(#[trigger] s[i]),
    ensures
        s.filter(pred) == Seq::<ArticleModel>::empty(),
    decreases s.len(),
{
    reveal(Seq::filter);
    if s.len() > 0 {
        lemma_filter_all_false(s.drop_last(), pred);
    }
}

/// The filter of a singleton keeps or drops its one element.
pub(crate) proof fn lemma_filter_singleton(a: ArticleModel, pred: spec_fn(ArticleModel) -> bool)
    ensures
        pred(a) ==> seq![a].filter(pred) == seq![a],
        !pred(a) ==> seq![a].filter(pred) == Seq::<ArticleModel>::empty(),
{
    reveal(Seq::filter);
    let s = seq![a];
    assert(s.drop_last().len() == 0);
    assert(s.drop_last().filter(pred) =~= s.drop_last());
    assert(s.last() == a);
    if pred(a) {
        assert(s.filter(pred) =~= s.drop_last().filter(pred).push(a));
        assert(s.drop_last().filter(pred).push(a) =~= s);
    } else {
        assert(s.filter(pred) =~= s.drop_last().filter(pred));
        assert(s.drop_last().filter(pred) =~= Seq::<ArticleModel>::empty());
    }
}

/// Stable insertion sort of the combined article list, newest first; articles
/// with equal timestamps keep their relative input order.
pub fn sort_by_recency(input: Vec<NewsArticle>) -> (out: Vec<NewsArticle>)
    ensures
        out@.len() == input@.len(),
        is_stable_sort_by_recency(models(out@), models(input@)),
{
    let input_len = input.len();
    let mut out: Vec<NewsArticle> = Vec::new();
    let mut idx: usize = 0;
    while idx < input_len
        invariant
            input_len == input@.len(),
            0 <= idx <= input_len,
            out@.len() == idx,
            sorted_by_recency(models(out@)),
            forall|t: i64| with_timestamp(models(out@), t) == with_timestamp(
                models(input@.subrange(0, idx as int)),
                t,
            ),
        decreases input_len - idx,
    {
        let x = input[idx].clone();
        let ghost m_old = models(out@);
        let mut p: usize = 0;
        while p < out.len() && out[p].timestamp >= x.timestamp
            invariant
                out@.len() == idx,
                x@ == models(input@)[idx as int],
                0 <= p <= out@.len(),
                forall|q: int| 0 <= q < p ==> models(out@)[q].timestamp >= x@.timestamp,
            decreases out@.len() - p,
        {
            p += 1;
        }
        proof {
            assert(forall|q: int|
                p <= q < m_old.len() ==> #[trigger] m_old[q].timestamp < x@.timestamp) by {
                if p < m_old.len() {
                    assert(m_old[p as int].timestamp < x@.timestamp);
                    assert forall|q: int|
                        p <= q < m_old.len() implies #[trigger] m_old[q].timestamp
                        < x@.timestamp by {
                        assert(m_old[q].timestamp <= m_old[p as int].timestamp);
                    }
                }
            }
        }
        out.insert(p, x);
        proof {
            let m_new = models(out@);
            let pre = m_old.subrange(0, p as int);
            let post = m_old.subrange(p as int, m_old.len() as int);
            assert(m_new =~= pre + seq![x@] + post);
            assert(m_old =~= pre + post);
            // Sortedness of the new sequence.
            assert forall|i: int, j: int|
                0 <= i < j < m_new.len() implies m_new[i].timestamp >= m_new[j].timestamp by {
                assert(forall|q: int| 0 <= q < p ==> #[trigger] m_new[q] == m_old[q]);
                assert(m_new[p as int] == x@);
                assert(forall|q: int|
                    p < q < m_new.len() ==> #[trigger] m_new[q] == m_old[q - 1]);
            }
            // Per-timestamp order preservation.
            let prefix_old = models(input@.subrange(0, idx as int));
            let prefix_new = models(input@.subrange(0, idx + 1));
            assert(prefix_new =~= prefix_old + seq![x@]);
            assert forall|t: i64| with_timestamp(m_new, t) == with_timestamp(prefix_new, t) by {
                let pred = (|a: ArticleModel| a.timestamp == t);
                Seq::filter_distributes_over_add(pre + seq![x@], post, pred);
                Seq::filter_distributes_over_add(pre, seq![x@], pred);
                Seq::filter_distributes_over_add(pre, post, pred);
                Seq::filter_distributes_over_add(prefix_old, seq![x@], pred);
                lemma_filter_singleton(x@, pred);
                if t == x@.timestamp {
                    lemma_filter_all_false(post, pred);
                    assert(with_timestamp(m_new, t) =~= with_timestamp(m_old, t) + seq![x@]);
                    assert(with_timestamp(prefix_new, t) =~= with_timestamp(prefix_old, t)
                        + seq![x@]);
                } else {
                    assert(with_timestamp(m_new, t) =~= with_timestamp(m_old, t));
                    assert(with_timestamp(prefix_new, t) =~= with_timestamp(prefix_old, t));
                }
            }
        }
        idx += 1;
    }
    proof {
        assert(input@.subrange(0, input_len as int) =~= input@);
    }
    out
}

/// The models of per-source article lists, concatenated in source order.
pub open spec fn models_concat(lists: Seq<Vec<NewsArticle>>) -> Seq<ArticleModel>
    decreases lists.len(),
{
    if lists.len() == 0 {
        Seq::empty()
    } else {
        models(lists[0]@) + models_concat(lists.drop_first())
    }
}

/// Concatenates the per-source article lists in source order.
pub fn concat_articles(lists: Vec<Vec<NewsArticle>>) -> (out: Vec<NewsArticle>)
    ensures
        models(out@) == models_concat(lists@),
{
    let ghost orig = lists@;
    let mut lists = lists;
    let mut out: Vec<NewsArticle> = Vec::new();
    proof {
        assert(models(out@) + models_concat(lists@) =~= models_concat(orig));
    }
    while lists.len() > 0
        invariant
            models(out@) + models_concat(lists@) == models_concat(orig),
        decreases lists@.len(),
    {
        let ghost lists_prev = lists@;
        let ghost out_prev = out@;
        let mut v = lists.remove(0);
        proof {
            assert(lists@ =~= lists_prev.drop_first());
            assert(models_concat(lists_prev) == models(lists_prev[0]@) + models_concat(
                lists_prev.drop_first(),
            ));
        }
        let ghost v_view = v@;
        out.append(&mut v);
        proof {
            assert(models(out@) =~= models(out_prev) + models(v_view));
            assert(models(out@) + models_concat(lists@) =~= models_concat(orig));
        }
    }
    proof {
        assert(models(out@) =~= models(out@) + models_concat(lists@));
    }
    out
}

/// The Aggregator: concatenates every source's articles in source order and
/// sorts the whole by timestamp, newest first, stably.
pub fn aggregate(lists: Vec<Vec<NewsArticle>>) -> (out: Vec<NewsArticle>)
    ensures
        is_stable_sort_by_recency(models(out@), models_concat(lists@)),
{
    let combined = concat_articles(lists);
    sort_by_recency(combined)
}

} // verus!
