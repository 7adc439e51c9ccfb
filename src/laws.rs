//! Properties of the feed that hold across inputs and across calls.
use vstd::prelude::*;
use vstd::set_lib::{lemma_int_range, lemma_len_subset, set_int_range};
use crate::channel::{
    channel_legal, channel_matches, comma_joined, dates_writable, feed_title_of, filter_words, items_follow,
    printable, FeedChannel,
};
use crate::clock::writable;
use crate::escape::{xml_legal, xml_legal_char};
use crate::handler::feed_ok;
use crate::clock::rfc2822_of;
use crate::escape::{html_char, html_escaped};
use crate::feed::{first_seen, is_feed_order, link_key, precedes};
use crate::identity::{guid_of, thread_of};
use crate::item::{date_text, description_of, footer_of, pub_seconds, summary_text, with_breaks, FeedItem};
use crate::link::{canonical_link_of, url_parts};
use crate::text::ascii_lower;
use crate::item::item_matches;
use crate::model::{Article, RssQuery};

verus! {

/// Whether the places `r` are listed in strictly increasing feed order.
pub open spec fn ordered(arts: Seq<Article>, r: Seq<usize>) -> bool {
    forall|a: int, b: int| 0 <= a < b < r.len() ==> precedes(arts, #[trigger] r[a] as int, #[trigger] r[b] as int)
}

proof fn lemma_ordered_unique(arts: Seq<Article>, r1: Seq<usize>, r2: Seq<usize>)
    requires
        ordered(arts, r1),
        ordered(arts, r2),
        forall|x: usize| r1.contains(x) <==> r2.contains(x),
    ensures
        r1 == r2,
    decreases r1.len(),
{
    if r1.len() == 0 {
        if r2.len() > 0 {
            assert(r2.contains(r2[0]));
        }
        assert(r1 =~= r2);
    } else {
        assert(r1.contains(r1[0]));
        assert(r2.contains(r1[0]));
        if r1[0] != r2[0] {
            let k2 = choose|k: int| 0 <= k < r2.len() && r2[k] == r1[0];
            assert(r2.contains(r2[0]));
            let k1 = choose|k: int| 0 <= k < r1.len() && r1[k] == r2[0];
            assert(precedes(arts, r2[0] as int, r2[k2] as int));
            assert(precedes(arts, r1[0] as int, r1[k1] as int));
        }
        let t1 = r1.drop_first();
        let t2 = r2.drop_first();
        assert forall|x: usize| t1.contains(x) <==> t2.contains(x) by {
            if t1.contains(x) {
                let k = choose|k: int| 0 <= k < t1.len() && t1[k] == x;
                assert(r1[k + 1] == x);
                assert(precedes(arts, r1[0] as int, r1[k + 1] as int));
                assert(r1.contains(x));
                let j = choose|j: int| 0 <= j < r2.len() && r2[j] == x;
                assert(j != 0);
                assert(t2[j - 1] == x);
            }
            if t2.contains(x) {
                let k = choose|k: int| 0 <= k < t2.len() && t2[k] == x;
                assert(r2[k + 1] == x);
                assert(precedes(arts, r2[0] as int, r2[k + 1] as int));
                assert(r2.contains(x));
                let j = choose|j: int| 0 <= j < r1.len() && r1[j] == x;
                assert(j != 0);
                assert(t1[j - 1] == x);
            }
        }
        assert forall|a: int, b: int| 0 <= a < b < t1.len() implies precedes(arts, #[trigger] t1[a] as int, #[trigger] t1[b] as int) by {
            assert(t1[a] == r1[a + 1] && t1[b] == r1[b + 1]);
        }
        assert forall|a: int, b: int| 0 <= a < b < t2.len() implies precedes(arts, #[trigger] t2[a] as int, #[trigger] t2[b] as int) by {
            assert(t2[a] == r2[a + 1] && t2[b] == r2[b + 1]);
        }
        lemma_ordered_unique(arts, t1, t2);
        assert(r1 =~= seq![r1[0]] + t1);
        assert(r2 =~= seq![r2[0]] + t2);
    }
}

/// A batch has one feed order: the same articles, in the same order, come out of every
/// assembly of it.
pub proof fn lemma_feed_order_unique(arts: Seq<Article>, r1: Seq<usize>, r2: Seq<usize>)
    requires
        is_feed_order(arts, r1),
        is_feed_order(arts, r2),
    ensures
        r1 == r2,
{
    assert forall|x: usize| r1.contains(x) <==> r2.contains(x) by {
        if r1.contains(x) {
            let k = choose|k: int| 0 <= k < r1.len() && r1[k] == x;
            assert(r1[k] < arts.len());
        }
        if r2.contains(x) {
            let k = choose|k: int| 0 <= k < r2.len() && r2[k] == x;
            assert(r2[k] < arts.len());
        }
    }
    lemma_ordered_unique(arts, r1, r2);
}

} // verus!

verus! {

/// Two channels built from one batch under one filter set at one second agree on every
/// text: title, metadata, and each item in turn.
pub proof fn lemma_channels_agree(c1: FeedChannel, c2: FeedChannel, arts: Seq<Article>, q: RssQuery, now: i64)
    requires
        channel_matches(c1, arts, q, now),
        channel_matches(c2, arts, q, now),
    ensures
        c1.title@ == c2.title@,
        c1.link@ == c2.link@,
        c1.description@ == c2.description@,
        c1.last_build_date@ == c2.last_build_date@,
        c1.items@.len() == c2.items@.len(),
        forall|k: int| 0 <= k < c1.items@.len() ==> {
            &&& (#[trigger] c1.items@[k]).title@ == c2.items@[k].title@
            &&& c1.items@[k].description@ == c2.items@[k].description@
            &&& c1.items@[k].guid.value@ == c2.items@[k].guid.value@
            &&& c1.items@[k].guid.is_permalink == c2.items@[k].guid.is_permalink
            &&& c1.items@[k].pub_date@ == c2.items@[k].pub_date@
        },
{
    let r1 = choose|r: Seq<usize>| is_feed_order(arts, r) && items_follow(c1.items@, arts, r, now);
    let r2 = choose|r: Seq<usize>| is_feed_order(arts, r) && items_follow(c2.items@, arts, r, now);
    lemma_feed_order_unique(arts, r1, r2);
    assert forall|k: int| 0 <= k < c1.items@.len() implies {
        &&& (#[trigger] c1.items@[k]).title@ == c2.items@[k].title@
        &&& c1.items@[k].description@ == c2.items@[k].description@
        &&& c1.items@[k].guid.value@ == c2.items@[k].guid.value@
        &&& c1.items@[k].guid.is_permalink == c2.items@[k].guid.is_permalink
        &&& c1.items@[k].pub_date@ == c2.items@[k].pub_date@
    } by {
        assert(item_matches(c1.items@[k], arts[r1[k] as int], r1.len() as int, k, now));
        assert(item_matches(c2.items@[k], arts[r2[k] as int], r2.len() as int, k, now));
    }
}

} // verus!

verus! {

/// Two feeds built from one batch under one filter set list the same items in the same
/// order, with the same titles, descriptions and GUIDs, whatever the build times.
pub proof fn lemma_feed_deterministic(
    c1: FeedChannel,
    c2: FeedChannel,
    arts: Seq<Article>,
    q: RssQuery,
    now1: i64,
    now2: i64,
)
    requires
        channel_matches(c1, arts, q, now1),
        channel_matches(c2, arts, q, now2),
    ensures
        c1.items@.len() == c2.items@.len(),
        forall|k: int| 0 <= k < c1.items@.len() ==> {
            &&& (#[trigger] c1.items@[k]).guid.value@ == c2.items@[k].guid.value@
            &&& c1.items@[k].guid.is_permalink == c2.items@[k].guid.is_permalink
            &&& c1.items@[k].title@ == c2.items@[k].title@
            &&& c1.items@[k].description@ == c2.items@[k].description@
        },
{
    let r1 = choose|r: Seq<usize>| is_feed_order(arts, r) && items_follow(c1.items@, arts, r, now1);
    let r2 = choose|r: Seq<usize>| is_feed_order(arts, r) && items_follow(c2.items@, arts, r, now2);
    lemma_feed_order_unique(arts, r1, r2);
    assert forall|k: int| 0 <= k < c1.items@.len() implies {
        &&& (#[trigger] c1.items@[k]).guid.value@ == c2.items@[k].guid.value@
        &&& c1.items@[k].guid.is_permalink == c2.items@[k].guid.is_permalink
        &&& c1.items@[k].title@ == c2.items@[k].title@
        &&& c1.items@[k].description@ == c2.items@[k].description@
    } by {
        assert(item_matches(c1.items@[k], arts[r1[k] as int], r1.len() as int, k, now1));
        assert(item_matches(c2.items@[k], arts[r2[k] as int], r2.len() as int, k, now2));
    }
}

proof fn lemma_earliest_with_link(arts: Seq<Article>, key: Seq<char>, n: int) -> (m: int)
    requires
        0 < n <= arts.len(),
        exists|j: int| 0 <= j < n && link_key(arts, j) == key,
    ensures
        0 <= m < n,
        link_key(arts, m) == key,
        forall|j: int| 0 <= j < n && link_key(arts, j) == key && j != m ==> precedes(arts, m, j),
    decreases n,
{
    if exists|j: int| 0 <= j < n - 1 && link_key(arts, j) == key {
        let m0 = lemma_earliest_with_link(arts, key, n - 1);
        if link_key(arts, n - 1) == key && precedes(arts, n - 1, m0) {
            n - 1
        } else {
            m0
        }
    } else {
        n - 1
    }
}

/// Whether the feed order `r` has an item with the link of article `i`: that article's own
/// or one that precedes it.
pub open spec fn has_item_for(arts: Seq<Article>, r: Seq<usize>, i: int) -> bool {
    exists|k: int|
        0 <= k < r.len() && link_key(arts, #[trigger] r[k] as int) == link_key(arts, i) && (r[k] == i
            || precedes(arts, r[k] as int, i))
}

/// In feed order no two items share a link, and every article's link has an item: that of
/// the article itself or of one before it.
pub proof fn lemma_dedup(arts: Seq<Article>, r: Seq<usize>)
    requires
        is_feed_order(arts, r),
    ensures
        forall|a: int, b: int| 0 <= a < b < r.len() ==> link_key(arts, #[trigger] r[a] as int) != link_key(arts, #[trigger] r[b] as int),
        forall|i: int| 0 <= i < arts.len() ==> #[trigger] has_item_for(arts, r, i),
{
    assert forall|a: int, b: int| 0 <= a < b < r.len() implies link_key(arts, #[trigger] r[a] as int) != link_key(arts, #[trigger] r[b] as int) by {
        assert(precedes(arts, r[a] as int, r[b] as int));
        assert(first_seen(arts, r[b] as int));
    }
    assert forall|i: int| 0 <= i < arts.len() implies #[trigger] has_item_for(arts, r, i) by {
        let m = lemma_earliest_with_link(arts, link_key(arts, i), arts.len() as int);
        assert(first_seen(arts, m)) by {
            assert forall|j: int| 0 <= j < arts.len() && #[trigger] precedes(arts, j, m) implies link_key(arts, j) != link_key(arts, m) by {
                if link_key(arts, j) == link_key(arts, m) {
                    assert(j != m);
                    assert(precedes(arts, m, j));
                }
            }
        }
        let k = choose|k: int| 0 <= k < r.len() && r[k] == m;
        assert(link_key(arts, r[k] as int) == link_key(arts, i));
        assert(m == i || precedes(arts, m, i));
    }
}

/// The hash identity ignores the letter case of the host and everything after the path:
/// two articles without a thread, whose links parse to hosts equal but for ASCII case and
/// to one path, get one GUID.
pub proof fn lemma_guid_stable(
    a1: Article,
    a2: Article,
    h1: Seq<char>,
    h2: Seq<char>,
    path: Seq<char>,
    q1: Option<Seq<char>>,
    q2: Option<Seq<char>>,
)
    requires
        thread_of(a1) is None,
        thread_of(a2) is None,
        url_parts(a1.link@) == Some((Some(h1), path, q1)),
        url_parts(a2.link@) == Some((Some(h2), path, q2)),
        ascii_lower(h1) == ascii_lower(h2),
    ensures
        guid_of(a1) == guid_of(a2),
        !guid_of(a1).1,
{
    assert(canonical_link_of(a1.link@) == canonical_link_of(a2.link@));
}

/// Items whose articles carry one date text get publication seconds that fall by one per
/// place in the feed, and pairwise different pubDate texts: later places are earlier.
pub proof fn lemma_pub_dates_distinct(items: Seq<FeedItem>, arts: Seq<Article>, r: Seq<usize>, now: i64)
    requires
        is_feed_order(arts, r),
        items_follow(items, arts, r, now),
        forall|i: int, j: int| 0 <= i < arts.len() && 0 <= j < arts.len() ==> date_text(#[trigger] arts[i]) == date_text(#[trigger] arts[j]),
    ensures
        forall|a: int, b: int| 0 <= a < b < items.len() ==>
            pub_seconds(arts[#[trigger] r[a] as int], r.len() as int, a, now) > pub_seconds(arts[#[trigger] r[b] as int], r.len() as int, b, now),
        forall|a: int| 0 <= a < items.len() ==> (#[trigger] items[a]).pub_date@ == rfc2822_of(pub_seconds(arts[r[a] as int], r.len() as int, a, now)),
        forall|a: int, b: int| 0 <= a < b < items.len() ==> (#[trigger] items[a]).pub_date@ != (#[trigger] items[b]).pub_date@,
{
    let n = r.len() as int;
    assert forall|a: int, b: int| 0 <= a < b < items.len() implies
        pub_seconds(arts[#[trigger] r[a] as int], n, a, now) > pub_seconds(arts[#[trigger] r[b] as int], n, b, now) by {
        assert(r[a] < arts.len() && r[b] < arts.len());
        assert(date_text(arts[r[a] as int]) == date_text(arts[r[b] as int]));
    }
    assert forall|a: int| 0 <= a < items.len() implies (#[trigger] items[a]).pub_date@ == rfc2822_of(pub_seconds(arts[r[a] as int], n, a, now)) by {
        assert(item_matches(items[a], arts[r[a] as int], n, a, now));
    }
    assert forall|a: int, b: int| 0 <= a < b < items.len() implies (#[trigger] items[a]).pub_date@ != (#[trigger] items[b]).pub_date@ by {
        let ta = pub_seconds(arts[r[a] as int], n, a, now);
        let tb = pub_seconds(arts[r[b] as int], n, b, now);
        assert(item_matches(items[a], arts[r[a] as int], n, a, now));
        assert(item_matches(items[b], arts[r[b] as int], n, b, now));
        assert(r[a] < arts.len() && r[b] < arts.len());
        assert(date_text(arts[r[a] as int]) == date_text(arts[r[b] as int]));
        assert(ta != tb);
        assert(rfc2822_of(tb) != items[a].pub_date@);
    }
}

/// Escaped text holds no angle bracket, so user text can never open or close a tag.
pub proof fn lemma_escaped_has_no_tags(s: Seq<char>)
    ensures
        forall|i: int| 0 <= i < html_escaped(s).len() ==> #[trigger] html_escaped(s)[i] != '<' && html_escaped(s)[i] != '>',
    decreases s.len(),
{
    if s.len() > 0 {
        lemma_escaped_has_no_tags(s.drop_last());
        let e = html_escaped(s.drop_last());
        let t = html_char(s.last());
        assert forall|i: int| 0 <= i < html_escaped(s).len() implies #[trigger] html_escaped(s)[i] != '<' && html_escaped(s)[i] != '>' by {
            if i < e.len() {
                assert(html_escaped(s)[i] == e[i]);
            } else {
                assert(html_escaped(s)[i] == t[i - e.len()]);
            }
        }
    }
}

/// In text free of angle brackets with its line feeds made line breaks, every `<` and
/// every `>` belongs to a `<br>`.
pub proof fn lemma_breaks_are_the_only_tags(s: Seq<char>)
    requires
        forall|i: int| 0 <= i < s.len() ==> #[trigger] s[i] != '<' && s[i] != '>',
    ensures
        forall|i: int| 0 <= i < with_breaks(s).len() && #[trigger] with_breaks(s)[i] == '<' ==> i + 4 <= with_breaks(s).len()
            && with_breaks(s).subrange(i, i + 4) == "<br>"@,
        forall|i: int| 0 <= i < with_breaks(s).len() && #[trigger] with_breaks(s)[i] == '>' ==> i >= 3
            && with_breaks(s).subrange(i - 3, i + 1) == "<br>"@,
    decreases s.len(),
{
    reveal_strlit("<br>");
    if s.len() > 0 {
        let p = s.drop_last();
        lemma_breaks_are_the_only_tags(p);
        let w = with_breaks(p);
        let full = with_breaks(s);
        let t = if s.last() == '\n' { "<br>"@ } else { seq![s.last()] };
        assert(full == w + t);
        assert forall|i: int| 0 <= i < full.len() && #[trigger] full[i] == '<' implies i + 4 <= full.len()
            && full.subrange(i, i + 4) == "<br>"@ by {
            if i < w.len() {
                assert(w[i] == '<');
                assert(full.subrange(i, i + 4) =~= w.subrange(i, i + 4));
            } else {
                assert(s.last() == '\n');
                assert(i == w.len());
                assert(full.subrange(i, i + 4) =~= t);
            }
        }
        assert forall|i: int| 0 <= i < full.len() && #[trigger] full[i] == '>' implies i >= 3
            && full.subrange(i - 3, i + 1) == "<br>"@ by {
            if i < w.len() {
                assert(w[i] == '>');
                assert(full.subrange(i - 3, i + 1) =~= w.subrange(i - 3, i + 1));
            } else {
                assert(s.last() == '\n');
                assert(i == w.len() + 3);
                assert(full.subrange(i - 3, i + 1) =~= t);
            }
        }
    }
}

/// In an item's description, the summary part holds no markup but the line breaks.
pub proof fn lemma_summary_is_escaped(a: Article)
    ensures
        description_of(a) == with_breaks(html_escaped(summary_text(a))) + "<br><br><small>"@ + footer_of(a) + "</small>"@,
        forall|i: int| 0 <= i < with_breaks(html_escaped(summary_text(a))).len()
            && #[trigger] with_breaks(html_escaped(summary_text(a)))[i] == '<' ==> with_breaks(
            html_escaped(summary_text(a)),
        ).subrange(i, i + 4) == "<br>"@,
{
    lemma_escaped_has_no_tags(summary_text(a));
    lemma_breaks_are_the_only_tags(html_escaped(summary_text(a)));
}

} // verus!

verus! {

/// A feed order lists no more places than the batch has articles.
pub proof fn lemma_order_len(arts: Seq<Article>, r: Seq<usize>)
    requires
        is_feed_order(arts, r),
    ensures
        r.len() <= arts.len(),
{
    let s = r.map_values(|x: usize| x as int);
    assert forall|i: int, j: int| 0 <= i < s.len() && 0 <= j < s.len() && i != j implies s[i] != s[j] by {
        if i < j {
            assert(precedes(arts, r[i] as int, r[j] as int));
        } else {
            assert(precedes(arts, r[j] as int, r[i] as int));
        }
    }
    assert(s.no_duplicates());
    s.unique_seq_to_set();
    lemma_int_range(0, arts.len() as int);
    assert forall|x: int| s.to_set().contains(x) implies set_int_range(0, arts.len() as int).contains(x) by {
        let k = choose|k: int| 0 <= k < s.len() && s[k] == x;
        assert(r[k] < arts.len());
    }
    lemma_len_subset(s.to_set(), set_int_range(0, arts.len() as int));
}

} // verus!

verus! {

proof fn lemma_concat_printable(a: Seq<char>, b: Seq<char>)
    requires
        printable(a),
        printable(b),
    ensures
        printable(a + b),
{
    assert forall|i: int| 0 <= i < (a + b).len() implies ' ' <= #[trigger] (a + b)[i] <= '~' by {
        if i < a.len() {
            assert((a + b)[i] == a[i]);
        } else {
            assert((a + b)[i] == b[i - a.len()]);
        }
    }
}

proof fn lemma_joined_printable(ws: Seq<Seq<char>>)
    requires
        forall|i: int| 0 <= i < ws.len() ==> printable(#[trigger] ws[i]),
    ensures
        printable(comma_joined(ws)),
    decreases ws.len(),
{
    reveal_strlit(", ");
    if ws.len() > 1 {
        let p = ws.drop_last();
        assert forall|i: int| 0 <= i < p.len() implies printable(#[trigger] p[i]) by {
            assert(p[i] == ws[i]);
        }
        lemma_joined_printable(p);
        assert(printable(ws[ws.len() - 1]));
        lemma_concat_printable(comma_joined(p), ", "@);
        lemma_concat_printable(comma_joined(p) + ", "@, ws.last());
    } else if ws.len() == 1 {
        assert(printable(ws[0]));
    }
}

/// The feed's title is printable ASCII under every filter set.
pub proof fn lemma_title_printable(q: RssQuery)
    ensures
        printable(feed_title_of(q)),
{
    reveal_strlit("Flagged");
    reveal_strlit("Dead");
    reveal_strlit("Dupe");
    reveal_strlit("Filtered");
    reveal_strlit("Gopher Signal");
    reveal_strlit("Gopher Signal - ");
    let ws = filter_words(q);
    assert forall|i: int| 0 <= i < ws.len() implies printable(#[trigger] ws[i]) by {
        assert(ws[i] == "Flagged"@ || ws[i] == "Dead"@ || ws[i] == "Dupe"@ || ws[i] == "Filtered"@);
    }
    lemma_joined_printable(ws);
    lemma_concat_printable("Gopher Signal - "@, comma_joined(ws));
}

proof fn lemma_printable_legal(s: Seq<char>)
    requires
        printable(s),
    ensures
        xml_legal(s),
{
    assert forall|i: int| 0 <= i < s.len() implies xml_legal_char(#[trigger] s[i]) by {
        assert(' ' <= s[i] <= '~');
    }
}

/// An empty batch has a feed, with no items, wherever the build time can be written; so
/// the answer to it is a 200 with that document.
pub proof fn lemma_empty_batch_feed(q: RssQuery, now: i64)
    requires
        writable(now as int),
    ensures
        feed_ok(Seq::<Article>::empty(), q, now),
        forall|ch: FeedChannel| channel_matches(ch, Seq::<Article>::empty(), q, now) ==> ch.items@.len() == 0,
{
    let arts = Seq::<Article>::empty();
    assert forall|r: Seq<usize>| is_feed_order(arts, r) implies dates_writable(arts, r, now) by {
        lemma_order_len(arts, r);
    }
    assert forall|ch: FeedChannel| channel_matches(ch, arts, q, now) implies ch.items@.len() == 0 && channel_legal(ch) by {
        let r = choose|r: Seq<usize>| is_feed_order(arts, r) && items_follow(ch.items@, arts, r, now);
        lemma_order_len(arts, r);
        reveal_strlit("https://gophersignal.com");
        reveal_strlit("Latest articles from Gopher Signal");
        lemma_title_printable(q);
        lemma_printable_legal(ch.title@);
        assert(printable(ch.link@));
        lemma_printable_legal(ch.link@);
        assert(printable(ch.description@));
        lemma_printable_legal(ch.description@);
        lemma_printable_legal(ch.last_build_date@);
    }
    assert forall|ch: FeedChannel| channel_matches(ch, Seq::<Article>::empty(), q, now) implies ch.items@.len() == 0 by {
        let r = choose|r: Seq<usize>| is_feed_order(arts, r) && items_follow(ch.items@, arts, r, now);
        lemma_order_len(arts, r);
    }
}

/// A channel lists one item per trimmed link of its batch, in feed order: its items come
/// from articles with pairwise different links, and every article's link has an item, from
/// that article or one before it.
pub proof fn lemma_channel_dedup(ch: FeedChannel, arts: Seq<Article>, q: RssQuery, now: i64)
    requires
        channel_matches(ch, arts, q, now),
    ensures
        exists|r: Seq<usize>| {
            &&& is_feed_order(arts, r)
            &&& ch.items@.len() == r.len()
            &&& forall|k: int| 0 <= k < r.len() ==> (#[trigger] ch.items@[k]).title@ == arts[r[k] as int].title@
                && (ch.items@[k].guid.value@, ch.items@[k].guid.is_permalink) == guid_of(arts[r[k] as int])
            &&& forall|a: int, b: int| 0 <= a < b < r.len() ==> link_key(arts, #[trigger] r[a] as int) != link_key(arts, #[trigger] r[b] as int)
            &&& forall|i: int| 0 <= i < arts.len() ==> #[trigger] has_item_for(arts, r, i)
        },
{
    let r = choose|r: Seq<usize>| is_feed_order(arts, r) && items_follow(ch.items@, arts, r, now);
    lemma_dedup(arts, r);
    assert forall|k: int| 0 <= k < r.len() implies (#[trigger] ch.items@[k]).title@ == arts[r[k] as int].title@
        && (ch.items@[k].guid.value@, ch.items@[k].guid.is_permalink) == guid_of(arts[r[k] as int]) by {
        assert(item_matches(ch.items@[k], arts[r[k] as int], r.len() as int, k, now));
    }
}

} // verus!
