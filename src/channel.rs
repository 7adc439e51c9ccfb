//! The feed channel: its title, its items in order, and its RSS 2.0 text.
use vstd::prelude::*;
use crate::clock::{rfc2822, rfc2822_of, writable};
use crate::escape::{push_xml_text, xml_escaped, xml_legal};
use crate::feed::{assemble_order, is_feed_order};
use crate::item::{build_rss_item, item_matches, item_writable, FeedItem};
use crate::errors::AppError;
use crate::model::{Article, RssQuery};

verus! {

/// A feed channel: metadata and items, ready to be written as RSS.
#[derive(Clone, Debug)]
pub struct FeedChannel {
    pub title: String,
    pub link: String,
    pub description: String,
    pub last_build_date: String,
    pub items: Vec<FeedItem>,
}

/// Whether a flag filter is switched on.
pub open spec fn flag_on(f: Option<bool>) -> bool {
    f == Some(true)
}

/// Whether a threshold filter asks for more than zero.
pub open spec fn above_zero(m: Option<u32>) -> bool {
    m is Some && m->0 > 0
}

/// The words naming the filters in force, in a fixed order.
pub open spec fn filter_words(q: RssQuery) -> Seq<Seq<char>> {
    (if flag_on(q.flagged) { seq!["Flagged"@] } else { seq![] }) + (if flag_on(q.dead) {
        seq!["Dead"@]
    } else {
        seq![]
    }) + (if flag_on(q.dupe) { seq!["Dupe"@] } else { seq![] }) + (if above_zero(q.min_upvotes)
        || above_zero(q.min_comments) {
        seq!["Filtered"@]
    } else {
        seq![]
    })
}

/// `words` joined by a comma and a space.
pub open spec fn comma_joined(words: Seq<Seq<char>>) -> Seq<char>
    decreases words.len(),
{
    if words.len() == 0 {
        seq![]
    } else if words.len() == 1 {
        words[0]
    } else {
        comma_joined(words.drop_last()) + ", "@ + words.last()
    }
}

/// The feed's title: the site's name, followed by the filters in force where there are any.
pub open spec fn feed_title_of(q: RssQuery) -> Seq<char> {
    if filter_words(q).len() == 0 {
        "Gopher Signal"@
    } else {
        "Gopher Signal - "@ + comma_joined(filter_words(q))
    }
}

/// Whether `items` are the items built from `arts` in the feed order `r`.
pub open spec fn items_follow(items: Seq<FeedItem>, arts: Seq<Article>, r: Seq<usize>, now: i64) -> bool {
    &&& items.len() == r.len()
    &&& forall|k: int| 0 <= k < r.len() ==> item_matches(#[trigger] items[k], arts[r[k] as int], r.len() as int, k, now)
}

/// Whether every item of the feed order `r` has a date that RFC 2822 can write.
pub open spec fn dates_writable(arts: Seq<Article>, r: Seq<usize>, now: i64) -> bool {
    forall|k: int| 0 <= k < r.len() ==> item_writable(arts[#[trigger] r[k] as int], r.len() as int, k, now)
}

/// Whether `s` is printable ASCII throughout.
pub open spec fn printable(s: Seq<char>) -> bool {
    forall|i: int| 0 <= i < s.len() ==> ' ' <= #[trigger] s[i] <= '~'
}

/// Whether `ch` is the channel of `arts` under the filters `q`, built at the second `now`.
pub open spec fn channel_matches(ch: FeedChannel, arts: Seq<Article>, q: RssQuery, now: i64) -> bool {
    &&& ch.title@ == feed_title_of(q)
    &&& ch.link@ == "https://gophersignal.com"@
    &&& ch.description@ == "Latest articles from Gopher Signal"@
    &&& ch.last_build_date@ == rfc2822_of(now as int)
    &&& printable(ch.last_build_date@)
    &&& exists|r: Seq<usize>| is_feed_order(arts, r) && items_follow(ch.items@, arts, r, now)
}

/// Whether the channel of `arts` can be built at `now`: the build time and every item's
/// date can be written.
pub open spec fn channel_buildable(arts: Seq<Article>, now: i64) -> bool {
    &&& writable(now as int)
    &&& forall|r: Seq<usize>| is_feed_order(arts, r) ==> dates_writable(arts, r, now)
}

/// The title of the feed under the filters `query`.
pub fn build_feed_title(query: &RssQuery) -> (r: String)
    ensures
        r@ == feed_title_of(*query),
{
    let mut words: Vec<&str> = Vec::new();
    if query.flagged == Some(true) {
        words.push("Flagged");
    }
    if query.dead == Some(true) {
        words.push("Dead");
    }
    if query.dupe == Some(true) {
        words.push("Dupe");
    }
    let up = match query.min_upvotes { Some(m) => m > 0, None => false };
    let com = match query.min_comments { Some(m) => m > 0, None => false };
    if up || com {
        words.push("Filtered");
    }
    let ghost ws = words@.map_values(|w: &str| w@);
    assert(ws =~= filter_words(*query));
    if words.len() == 0 {
        return String::from_str("Gopher Signal");
    }
    let mut out = String::from_str("Gopher Signal - ");
    let mut i: usize = 0;
    while i < words.len()
        invariant
            i <= words@.len(),
            ws == words@.map_values(|w: &str| w@),
            out@ == "Gopher Signal - "@ + comma_joined(ws.take(i as int)),
        decreases words@.len() - i,
    {
        if i > 0 {
            out.append(", ");
        }
        out.append(words[i]);
        proof {
            assert(ws.take(i as int + 1).drop_last() =~= ws.take(i as int));
            if i == 0 {
                assert(ws.take(0) =~= Seq::<Seq<char>>::empty());
            }
        }
        i = i + 1;
    }
    proof {
        assert(ws.take(ws.len() as int) =~= ws);
    }
    out
}

/// The items of `articles` in feed order, where every date can be written.
pub fn build_feed_items(articles: &Vec<Article>, now: i64) -> (r: Option<Vec<FeedItem>>)
    ensures
        r is Some <==> forall|o: Seq<usize>| is_feed_order(articles@, o) ==> dates_writable(articles@, o, now),
        writable(now as int) && writable(now - articles@.len()) ==> r is Some,
        r is Some ==> exists|o: Seq<usize>| is_feed_order(articles@, o) && items_follow(r->0@, articles@, o, now),
{
    let order = assemble_order(articles);
    proof {
        crate::laws::lemma_order_len(articles@, order@);
    }
    let mut items: Vec<FeedItem> = Vec::new();
    let mut k: usize = 0;
    while k < order.len()
        invariant
            k <= order@.len(),
            is_feed_order(articles@, order@),
            items@.len() == k,
            order@.len() <= articles@.len(),
            forall|j: int| 0 <= j < k ==> item_matches(#[trigger] items@[j], articles@[order@[j] as int], order@.len() as int, j, now),
            forall|j: int| 0 <= j < k ==> item_writable(articles@[#[trigger] order@[j] as int], order@.len() as int, j, now),
        decreases order@.len() - k,
    {
        match build_rss_item(&articles[order[k]], order.len(), k, now) {
            Some(it) => {
                items.push(it);
            },
            None => {
                proof {
                    assert forall|o: Seq<usize>| is_feed_order(articles@, o) implies o == order@ by {
                        crate::laws::lemma_feed_order_unique(articles@, o, order@);
                    }
                    assert(!dates_writable(articles@, order@, now));
                    assert(!writable(now - k));
                }
                return None;
            },
        }
        k = k + 1;
    }
    proof {
        assert(items_follow(items@, articles@, order@, now));
        assert forall|o: Seq<usize>| is_feed_order(articles@, o) implies dates_writable(articles@, o, now) by {
            crate::laws::lemma_feed_order_unique(articles@, o, order@);
        }
    }
    Some(items)
}

} // verus!

verus! {

/// An XML element that holds `text`.
pub open spec fn element(name: Seq<char>, text: Seq<char>) -> Seq<char> {
    "<"@ + name + ">"@ + xml_escaped(text) + "</"@ + name + ">"@
}

/// The RSS text of one item.
pub open spec fn item_xml(it: FeedItem) -> Seq<char> {
    "<item>"@ + element("title"@, it.title@) + element("description"@, it.description@)
        + "<guid isPermaLink=\""@ + (if it.guid.is_permalink { "true"@ } else { "false"@ }) + "\">"@
        + xml_escaped(it.guid.value@) + "</guid>"@ + element("pubDate"@, it.pub_date@) + "</item>"@
}

/// The RSS text of `items`, one after the other.
pub open spec fn items_xml(items: Seq<FeedItem>) -> Seq<char>
    decreases items.len(),
{
    if items.len() == 0 {
        seq![]
    } else {
        items_xml(items.drop_last()) + item_xml(items.last())
    }
}

/// Whether XML can carry every text of the item.
pub open spec fn item_legal(it: FeedItem) -> bool {
    xml_legal(it.title@) && xml_legal(it.description@) && xml_legal(it.guid.value@) && xml_legal(it.pub_date@)
}

/// Whether XML can carry every text of the channel.
pub open spec fn channel_legal(ch: FeedChannel) -> bool {
    &&& xml_legal(ch.title@)
    &&& xml_legal(ch.link@)
    &&& xml_legal(ch.description@)
    &&& xml_legal(ch.last_build_date@)
    &&& forall|k: int| 0 <= k < ch.items@.len() ==> item_legal(#[trigger] ch.items@[k])
}

/// The RSS 2.0 document of the channel.
pub open spec fn channel_xml(ch: FeedChannel) -> Seq<char> {
    "<?xml version=\"1.0\" encoding=\"utf-8\"?><rss version=\"2.0\"><channel>"@ + element("title"@, ch.title@)
        + element("link"@, ch.link@) + element("description"@, ch.description@) + element(
        "lastBuildDate"@,
        ch.last_build_date@,
    ) + items_xml(ch.items@) + "</channel></rss>"@
}

fn push_element(out: &mut String, name: &str, text: &str) -> (ok: bool)
    ensures
        ok == xml_legal(text@),
        ok ==> final(out)@ == old(out)@ + element(name@, text@),
{
    out.append("<");
    out.append(name);
    out.append(">");
    let ok = push_xml_text(out, text);
    out.append("</");
    out.append(name);
    out.append(">");
    proof {
        if ok {
            assert(final(out)@ =~= old(out)@ + element(name@, text@));
        }
    }
    ok
}

fn push_item(out: &mut String, it: &FeedItem) -> (ok: bool)
    ensures
        ok == item_legal(*it),
        ok ==> final(out)@ == old(out)@ + item_xml(*it),
{
    let ghost start = out@;
    out.append("<item>");
    let a = push_element(out, "title", it.title.as_str());
    let b = push_element(out, "description", it.description.as_str());
    if it.guid.is_permalink {
        out.append("<guid isPermaLink=\"true\">");
    } else {
        out.append("<guid isPermaLink=\"false\">");
    }
    proof {
        reveal_strlit("<guid isPermaLink=\"true\">");
        reveal_strlit("<guid isPermaLink=\"false\">");
        reveal_strlit("<guid isPermaLink=\"");
        reveal_strlit("true");
        reveal_strlit("false");
        reveal_strlit("\">");
    }
    let c = push_xml_text(out, it.guid.value.as_str());
    out.append("</guid>");
    let d = push_element(out, "pubDate", it.pub_date.as_str());
    out.append("</item>");
    proof {
        if a && b && c && d {
            let g = if it.guid.is_permalink { "true"@ } else { "false"@ };
            assert("<guid isPermaLink=\""@ + g + "\">"@ =~= if it.guid.is_permalink {
                "<guid isPermaLink=\"true\">"@
            } else {
                "<guid isPermaLink=\"false\">"@
            });
            assert(final(out)@ =~= start + item_xml(*it));
        }
    }
    a && b && c && d
}

impl FeedChannel {
    /// The channel as an RSS 2.0 document, where XML can carry all of its text.
    pub fn to_xml(&self) -> (r: Option<String>)
        ensures
            r is Some <==> channel_legal(*self),
            r is Some ==> r->0@ == channel_xml(*self),
    {
        let mut out = String::from_str("<?xml version=\"1.0\" encoding=\"utf-8\"?><rss version=\"2.0\"><channel>");
        let a = push_element(&mut out, "title", self.title.as_str());
        let b = push_element(&mut out, "link", self.link.as_str());
        let c = push_element(&mut out, "description", self.description.as_str());
        let d = push_element(&mut out, "lastBuildDate", self.last_build_date.as_str());
        if !(a && b && c && d) {
            return None;
        }
        let ghost head = out@;
        let mut k: usize = 0;
        while k < self.items.len()
            invariant
                k <= self.items@.len(),
                out@ == head + items_xml(self.items@.take(k as int)),
                forall|j: int| 0 <= j < k ==> item_legal(#[trigger] self.items@[j]),
            decreases self.items@.len() - k,
        {
            if !push_item(&mut out, &self.items[k]) {
                return None;
            }
            proof {
                assert(self.items@.take(k as int + 1).drop_last() =~= self.items@.take(k as int));
            }
            k = k + 1;
        }
        out.append("</channel></rss>");
        proof {
            assert(self.items@.take(k as int) =~= self.items@);
            assert(out@ =~= channel_xml(*self));
        }
        Some(out)
    }
}

} // verus!

verus! {

/// The channel of `articles` under the filters `query`, built at the second `now`; it fails
/// only where RFC 2822 cannot write the build time or a second counted back from it.
pub fn build_rss_channel(articles: &Vec<Article>, query: &RssQuery, now: i64) -> (r: Result<FeedChannel, AppError>)
    ensures
        r is Ok <==> channel_buildable(articles@, now),
        writable(now as int) && writable(now - articles@.len()) ==> r is Ok,
        r is Ok ==> channel_matches(r->Ok_0, articles@, *query, now),
        r is Err ==> r->Err_0 is RssBuild && r->Err_0->RssBuild_0@ == "date out of range"@,
{
    let last_build_date = match rfc2822(now) {
        Some(d) => d,
        None => return Err(AppError::RssBuild(String::from_str("date out of range"))),
    };
    let items = match build_feed_items(articles, now) {
        Some(v) => v,
        None => return Err(AppError::RssBuild(String::from_str("date out of range"))),
    };
    Ok(FeedChannel {
        title: build_feed_title(query),
        link: String::from_str("https://gophersignal.com"),
        description: String::from_str("Latest articles from Gopher Signal"),
        last_build_date,
        items,
    })
}

} // verus!
