//! The order of a feed: sorted, with one item per link.
use vstd::prelude::*;
use crate::model::Article;
use crate::text::{trim, trimmed};

verus! {

/// Whether the article source ranked the batch: some article carries a rank.
pub open spec fn ranked(arts: Seq<Article>) -> bool {
    exists|i: int| 0 <= i < arts.len() && (#[trigger] arts[i]).article_rank is Some
}

/// Where a ranked article stands: by its rank, and after all ranked ones where it has none.
pub open spec fn rank_key(a: Article) -> int {
    match a.article_rank {
        Some(r) => r as int,
        None => i32::MAX as int + 1,
    }
}

/// The key that orders article `i`: its rank in a ranked batch, else its id, highest first.
pub open spec fn order_key(arts: Seq<Article>, i: int) -> int {
    if ranked(arts) {
        rank_key(arts[i])
    } else {
        -(arts[i].id as int)
    }
}

/// Whether article `i` comes before article `j`: a lower key, or an equal key and an
/// earlier place in the batch.
pub open spec fn precedes(arts: Seq<Article>, i: int, j: int) -> bool {
    order_key(arts, i) < order_key(arts, j) || (order_key(arts, i) == order_key(arts, j) && i < j)
}

/// The text by which two articles count as the same: the trimmed link.
pub open spec fn link_key(arts: Seq<Article>, i: int) -> Seq<char> {
    trimmed(arts[i].link@)
}

/// Whether no article before `i` has its link: the first one seen, which the feed keeps.
pub open spec fn first_seen(arts: Seq<Article>, i: int) -> bool {
    forall|j: int|
        0 <= j < arts.len() && #[trigger] precedes(arts, j, i) ==> link_key(arts, j) != link_key(arts, i)
}

/// Whether `r` lists, as places in `arts`, exactly the articles seen first, in feed order.
pub open spec fn is_feed_order(arts: Seq<Article>, r: Seq<usize>) -> bool {
    &&& forall|k: int| 0 <= k < r.len() ==> #[trigger] r[k] < arts.len() && first_seen(arts, r[k] as int)
    &&& forall|a: int, b: int| 0 <= a < b < r.len() ==> precedes(arts, #[trigger] r[a] as int, #[trigger] r[b] as int)
    &&& forall|i: int| 0 <= i < arts.len() && first_seen(arts, i) ==> exists|k: int| 0 <= k < r.len() && #[trigger] r[k] == i
}

fn is_ranked(articles: &Vec<Article>) -> (r: bool)
    ensures
        r == ranked(articles@),
{
    let mut i: usize = 0;
    while i < articles.len()
        invariant
            i <= articles@.len(),
            forall|j: int| 0 <= j < i ==> (#[trigger] articles@[j]).article_rank is None,
        decreases articles@.len() - i,
    {
        if articles[i].article_rank.is_some() {
            return true;
        }
        i = i + 1;
    }
    false
}

fn order_key_of(a: &Article, ranked: bool) -> (k: i64)
    ensures
        k == if ranked { rank_key(*a) } else { -(a.id as int) },
{
    if ranked {
        match a.article_rank {
            Some(r) => r as i64,
            None => i32::MAX as i64 + 1,
        }
    } else {
        -(a.id as i64)
    }
}

/// The feed order of `articles`: places sorted by `precedes`, one per trimmed link, the
/// first seen kept.
pub fn assemble_order(articles: &Vec<Article>) -> (r: Vec<usize>)
    ensures
        is_feed_order(articles@, r@),
{
    let ghost arts = articles@;
    let n = articles.len();
    let is_r = is_ranked(articles);
    let mut okeys: Vec<i64> = Vec::new();
    let mut lkeys: Vec<String> = Vec::new();
    for i in 0..n
        invariant
            n == arts.len(),
            arts == articles@,
            is_r == ranked(arts),
            okeys@.len() == i,
            lkeys@.len() == i,
            forall|j: int| 0 <= j < i ==> #[trigger] okeys@[j] == order_key(arts, j),
            forall|j: int| 0 <= j < i ==> #[trigger] lkeys@[j]@ == link_key(arts, j),
    {
        okeys.push(order_key_of(&articles[i], is_r));
        lkeys.push(trim(articles[i].link.as_str()));
    }
    let mut r: Vec<usize> = Vec::new();
    for i in 0..n
        invariant
            n == arts.len(),
            okeys@.len() == n,
            lkeys@.len() == n,
            forall|j: int| 0 <= j < n ==> #[trigger] okeys@[j] == order_key(arts, j),
            forall|j: int| 0 <= j < n ==> #[trigger] lkeys@[j]@ == link_key(arts, j),
            forall|k: int| 0 <= k < r@.len() ==> #[trigger] r@[k] < i && first_seen(arts, r@[k] as int),
            forall|a: int, b: int| 0 <= a < b < r@.len() ==> precedes(arts, #[trigger] r@[a] as int, #[trigger] r@[b] as int),
            forall|j: int| 0 <= j < i && first_seen(arts, j) ==> exists|k: int| 0 <= k < r@.len() && #[trigger] r@[k] == j,
    {
        let mut seen = true;
        for j in 0..n
            invariant
                n == arts.len(),
                i < n,
                okeys@.len() == n,
                lkeys@.len() == n,
                forall|j: int| 0 <= j < n ==> #[trigger] okeys@[j] == order_key(arts, j),
                forall|j: int| 0 <= j < n ==> #[trigger] lkeys@[j]@ == link_key(arts, j),
                seen == forall|jj: int| 0 <= jj < j && #[trigger] precedes(arts, jj, i as int) ==> link_key(arts, jj) != link_key(arts, i as int),
        {
            let before = okeys[j] < okeys[i] || (okeys[j] == okeys[i] && j < i);
            let same = lkeys[j] == lkeys[i];
            proof {
                assert(okeys@[j as int] == order_key(arts, j as int));
                assert(okeys@[i as int] == order_key(arts, i as int));
                assert(lkeys@[j as int]@ == link_key(arts, j as int));
                assert(lkeys@[i as int]@ == link_key(arts, i as int));
                assert(before == precedes(arts, j as int, i as int));
            }
            if before && same {
                seen = false;
            }
        }
        if seen {
            let mut p: usize = 0;
            while p < r.len() && !(okeys[i] < okeys[r[p]] || (okeys[i] == okeys[r[p]] && i < r[p]))
                invariant
                    n == arts.len(),
                    i < n,
                    p <= r@.len(),
                    okeys@.len() == n,
                    forall|j: int| 0 <= j < n ==> #[trigger] okeys@[j] == order_key(arts, j),
                    forall|k: int| 0 <= k < r@.len() ==> #[trigger] r@[k] < i,
                    forall|q: int| 0 <= q < p ==> precedes(arts, #[trigger] r@[q] as int, i as int),
                decreases r@.len() - p,
            {
                p = p + 1;
            }
            let ghost old_r = r@;
            r.insert(p, i);
            proof {
                assert forall|a: int, b: int| 0 <= a < b < r@.len() implies precedes(arts, #[trigger] r@[a] as int, #[trigger] r@[b] as int) by {
                    if b < p {
                        assert(r@[a] == old_r[a] && r@[b] == old_r[b]);
                    } else if b == p {
                        assert(r@[a] == old_r[a]);
                    } else if a == p {
                        assert(r@[b] == old_r[b - 1]);
                        if b - 1 > p {
                            assert(precedes(arts, old_r[p as int] as int, old_r[b - 1] as int));
                        }
                    } else if a < p {
                        assert(r@[a] == old_r[a] && r@[b] == old_r[b - 1]);
                    } else {
                        assert(r@[a] == old_r[a - 1] && r@[b] == old_r[b - 1]);
                    }
                }
                assert forall|j: int| 0 <= j < i + 1 && first_seen(arts, j) implies exists|k: int| 0 <= k < r@.len() && #[trigger] r@[k] == j by {
                    if j == i {
                        assert(r@[p as int] == j);
                    } else {
                        let k = choose|k: int| 0 <= k < old_r.len() && old_r[k] == j;
                        if k < p {
                            assert(r@[k] == j);
                        } else {
                            assert(r@[k + 1] == j);
                        }
                    }
                }
                assert forall|k: int| 0 <= k < r@.len() implies #[trigger] r@[k] < i + 1 && first_seen(arts, r@[k] as int) by {
                    if k < p {
                        assert(r@[k] == old_r[k]);
                    } else if k > p {
                        assert(r@[k] == old_r[k - 1]);
                    }
                }
            }
        } else {
            proof {
                assert(!first_seen(arts, i as int));
            }
        }
    }
    r
}

} // verus!
