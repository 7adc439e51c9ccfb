//! The answer to a feed request, decided from what the article source returned.
use vstd::prelude::*;
use crate::channel::{item_legal, build_rss_channel, channel_buildable, channel_legal, channel_matches, channel_xml, FeedChannel};
use crate::clock::now_seconds;
use crate::errors::AppError;
use crate::model::{Article, RssQuery};

verus! {

/// An HTTP answer: status, content type, and body.
#[derive(Clone, Debug)]
pub struct FeedResponse {
    pub status: u16,
    pub content_type: String,
    pub body: String,
}

/// The media type of a feed.
pub open spec fn rss_content_type() -> Seq<char> {
    "application/rss+xml; charset=utf-8"@
}

/// The media type of an error message.
pub open spec fn text_content_type() -> Seq<char> {
    "text/plain; charset=utf-8"@
}

/// Whether the feed of `arts` can be built at `now` and written as XML.
pub open spec fn feed_ok(arts: Seq<Article>, q: RssQuery, now: i64) -> bool {
    &&& channel_buildable(arts, now)
    &&& forall|ch: FeedChannel| channel_matches(ch, arts, q, now) ==> channel_legal(ch)
}

/// The error text of a batch whose feed cannot be written.
pub open spec fn build_failure_of(arts: Seq<Article>, now: i64) -> Seq<char> {
    if channel_buildable(arts, now) {
        "RSS build error: text that XML cannot carry"@
    } else {
        "RSS build error: date out of range"@
    }
}

/// The answer that reports `e`: its status, and its message as plain text.
pub fn error_response(e: &AppError) -> (r: FeedResponse)
    ensures
        r.status == e.status_of(),
        r.content_type@ == text_content_type(),
        r.body@ == e.message_of(),
{
    FeedResponse {
        status: e.status_code(),
        content_type: String::from_str("text/plain; charset=utf-8"),
        body: e.message(),
    }
}

/// The answer that carries `channel` as an RSS document, where XML can carry its text.
pub fn build_rss_response(channel: &FeedChannel) -> (r: Result<FeedResponse, AppError>)
    ensures
        r is Ok <==> channel_legal(*channel),
        r is Ok ==> r->Ok_0.status == 200 && r->Ok_0.content_type@ == rss_content_type()
            && r->Ok_0.body@ == channel_xml(*channel),
        r is Err ==> r->Err_0 is RssBuild && r->Err_0->RssBuild_0@ == "text that XML cannot carry"@,
{
    match channel.to_xml() {
        Some(body) => Ok(
            FeedResponse {
                status: 200,
                content_type: String::from_str("application/rss+xml; charset=utf-8"),
                body,
            },
        ),
        None => Err(AppError::RssBuild(String::from_str("text that XML cannot carry"))),
    }
}

/// The answer to a feed request under `query` at the second `now`, given what the article
/// source returned: the feed, or the failure that stopped it.
pub fn respond(fetched: Result<Vec<Article>, String>, query: &RssQuery, now: i64) -> (r: FeedResponse)
    ensures
        fetched is Err ==> r.status == 502 && r.content_type@ == text_content_type() && r.body@
            == "Article fetch error: "@ + fetched->Err_0@,
        fetched is Ok ==> (r.status == 200 <==> feed_ok(fetched->Ok_0@, *query, now)),
        fetched is Ok && r.status == 200 ==> r.content_type@ == rss_content_type() && exists|ch: FeedChannel|
            channel_matches(ch, fetched->Ok_0@, *query, now) && r.body@ == channel_xml(ch),
        fetched is Ok && r.status != 200 ==> r.status == 500 && r.content_type@ == text_content_type()
            && r.body@ == build_failure_of(fetched->Ok_0@, now),
{
    let articles = match fetched {
        Ok(a) => a,
        Err(m) => return error_response(&AppError::ArticleFetch(m)),
    };
    let channel = match build_rss_channel(&articles, query, now) {
        Ok(c) => c,
        Err(e) => {
            proof {
                reveal_strlit("RSS build error: date out of range");
                reveal_strlit("RSS build error: ");
                reveal_strlit("date out of range");
                assert(e.message_of() =~= build_failure_of(articles@, now));
            }
            return error_response(&e);
        },
    };
    match build_rss_response(&channel) {
        Ok(resp) => {
            proof {
                assert forall|ch: FeedChannel| channel_matches(ch, articles@, *query, now) implies channel_legal(ch) by {
                    crate::laws::lemma_channels_agree(channel, ch, articles@, *query, now);
                    assert forall|k: int| 0 <= k < ch.items@.len() implies item_legal(#[trigger] ch.items@[k]) by {
                        assert(item_legal(channel.items@[k]));
                    }
                }
            }
            resp
        },
        Err(e) => {
            proof {
                reveal_strlit("RSS build error: text that XML cannot carry");
                reveal_strlit("RSS build error: ");
                reveal_strlit("text that XML cannot carry");
                assert(e.message_of() =~= build_failure_of(articles@, now));
            }
            error_response(&e)
        },
    }
}

/// The answer to a feed request under `query`, built at the current time.
pub fn generate_rss_feed(fetched: Result<Vec<Article>, String>, query: &RssQuery) -> (r: FeedResponse)
    ensures
        fetched is Err ==> r.status == 502 && r.content_type@ == text_content_type() && r.body@
            == "Article fetch error: "@ + fetched->Err_0@,
        fetched is Ok ==> r.status == 200 || r.status == 500,
        fetched is Ok && r.status == 200 ==> r.content_type@ == rss_content_type() && exists|ch: FeedChannel, now: i64|
            feed_ok(fetched->Ok_0@, *query, now) && channel_matches(ch, fetched->Ok_0@, *query, now)
                && r.body@ == channel_xml(ch),
        fetched is Ok && r.status == 500 ==> r.content_type@ == text_content_type() && exists|now: i64|
            !feed_ok(fetched->Ok_0@, *query, now) && r.body@ == build_failure_of(fetched->Ok_0@, now),
{
    let now = now_seconds();
    let ghost arts = if fetched is Ok { fetched->Ok_0@ } else { Seq::<Article>::empty() };
    let r = respond(fetched, query, now);
    proof {
        if fetched is Ok && r.status == 200 {
            let ch = choose|ch: FeedChannel| channel_matches(ch, arts, *query, now) && r.body@ == channel_xml(ch);
            assert(feed_ok(arts, *query, now) && channel_matches(ch, arts, *query, now) && r.body@ == channel_xml(ch));
        }
        if fetched is Ok && r.status == 500 {
            assert(!feed_ok(arts, *query, now) && r.body@ == build_failure_of(arts, now));
        }
    }
    r
}

} // verus!
