use rss_feed::channel::{build_feed_title, build_rss_channel};
use rss_feed::feed::assemble_order;
use rss_feed::handler::respond;
use rss_feed::identity::build_item_guid;
use rss_feed::item::{build_item_description, build_item_footer, build_rss_item, format_pub_date};
use rss_feed::link::{canonical_link, display_domain};
use rss_feed::model::{Article, RssQuery};

const NOW: i64 = 1_700_000_000;

fn article(id: i32, link: &str, created_at: &str) -> Article {
    Article {
        id,
        hn_id: None,
        title: format!("Title {}", id),
        link: link.to_string(),
        article_rank: None,
        content: None,
        summary: Some(format!("Summary {}", id)),
        source: "Example".to_string(),
        upvotes: None,
        comment_count: None,
        comment_link: None,
        flagged: false,
        dead: false,
        dupe: false,
        created_at: created_at.to_string(),
        updated_at: created_at.to_string(),
        published_at: None,
        commit_hash: None,
        model_name: None,
    }
}

fn no_filters() -> RssQuery {
    RssQuery { flagged: None, dead: None, dupe: None, min_upvotes: None, min_comments: None }
}

#[test]
fn three_articles_with_a_duplicate_link() {
    let ts = "2022-01-01T00:00:00Z";
    let batch = vec![
        article(1, "https://b.com/two", ts),
        article(3, "https://a.com/one", ts),
        article(2, "https://b.com/two", ts),
    ];
    let ch = build_rss_channel(&batch, &no_filters(), NOW).unwrap();
    assert_eq!(ch.items.len(), 2);
    assert_eq!(ch.items[0].title, "Title 3");
    assert_eq!(ch.items[1].title, "Title 2");
    assert_ne!(ch.items[0].pub_date, ch.items[1].pub_date);
    assert_ne!(ch.items[0].guid.value, ch.items[1].guid.value);
    assert_eq!(ch.items[0].pub_date, "Sat, 1 Jan 2022 00:00:00 +0000");
    assert_eq!(ch.items[1].pub_date, "Fri, 31 Dec 2021 23:59:59 +0000");
}

#[test]
fn dedup_keeps_first_seen_in_feed_order() {
    let ts = "2022-01-01T00:00:00Z";
    let batch = vec![
        article(5, "https://x.com/a", ts),
        article(9, " https://x.com/a ", ts),
        article(7, "https://x.com/b", ts),
    ];
    assert_eq!(assemble_order(&batch), vec![1, 2]);
}

#[test]
fn dedup_is_case_sensitive() {
    let ts = "2022-01-01T00:00:00Z";
    let batch = vec![article(2, "https://x.com/A", ts), article(1, "https://x.com/a", ts)];
    assert_eq!(assemble_order(&batch), vec![0, 1]);
}

#[test]
fn equal_ids_keep_batch_order() {
    let ts = "2022-01-01T00:00:00Z";
    let batch = vec![article(4, "https://x.com/a", ts), article(4, "https://x.com/b", ts)];
    assert_eq!(assemble_order(&batch), vec![0, 1]);
}

#[test]
fn ranked_batch_follows_rank() {
    let ts = "2022-01-01T00:00:00Z";
    let mut a = article(1, "https://x.com/a", ts);
    let mut b = article(2, "https://x.com/b", ts);
    let c = article(3, "https://x.com/c", ts);
    a.article_rank = Some(2);
    b.article_rank = Some(1);
    let batch = vec![a, b, c];
    assert_eq!(assemble_order(&batch), vec![1, 0, 2]);
}

#[test]
fn empty_batch() {
    assert!(assemble_order(&Vec::new()).is_empty());
}

#[test]
fn many_records_with_one_date_get_distinct_dates() {
    let ts = "2023-06-30T12:00:00Z";
    let batch: Vec<Article> =
        (1..=6).map(|i| article(i, &format!("https://x.com/{}", i), ts)).collect();
    let ch = build_rss_channel(&batch, &no_filters(), NOW).unwrap();
    assert_eq!(ch.items.len(), 6);
    for i in 0..6 {
        for j in (i + 1)..6 {
            assert_ne!(ch.items[i].pub_date, ch.items[j].pub_date);
        }
    }
    assert_eq!(ch.items[0].title, "Title 6");
    assert_eq!(ch.items[5].pub_date, "Fri, 30 Jun 2023 11:59:55 +0000");
}

#[test]
fn two_builds_give_identical_guids_and_order() {
    let ts = "2022-01-01T00:00:00Z";
    let batch = vec![
        article(1, "https://b.com/two", ts),
        article(3, "https://a.com/one", ts),
        article(2, "https://c.com/three", ts),
    ];
    let c1 = build_rss_channel(&batch, &no_filters(), NOW).unwrap();
    let c2 = build_rss_channel(&batch, &no_filters(), NOW + 3600).unwrap();
    assert_eq!(c1.items.len(), c2.items.len());
    for k in 0..c1.items.len() {
        assert_eq!(c1.items[k].guid.value, c2.items[k].guid.value);
        assert_eq!(c1.items[k].title, c2.items[k].title);
    }
}

#[test]
fn published_at_is_preferred() {
    let mut a = article(1, "https://x.com/a", "2022-01-01T00:00:00Z");
    a.published_at = Some("2022-03-04T05:06:07+01:00".to_string());
    assert_eq!(format_pub_date(&a, 1, 0, NOW).unwrap(), "Fri, 4 Mar 2022 04:06:07 +0000");
}

#[test]
fn malformed_date_falls_back_to_build_time() {
    let a = article(1, "https://x.com/a", "yesterday");
    assert_eq!(format_pub_date(&a, 1, 0, NOW).unwrap(), "Tue, 14 Nov 2023 22:13:20 +0000");
    assert_eq!(format_pub_date(&a, 21, 20, NOW).unwrap(), "Tue, 14 Nov 2023 22:13:00 +0000");
}

#[test]
fn date_before_year_zero_falls_back_to_build_time() {
    let a = article(1, "https://x.com/a", "0000-01-01T00:00:00Z");
    assert_eq!(format_pub_date(&a, 1, 0, NOW).unwrap(), "Sat, 1 Jan 0000 00:00:00 +0000");
    assert_eq!(format_pub_date(&a, 2, 0, NOW).unwrap(), "Tue, 14 Nov 2023 22:13:20 +0000");
    assert_eq!(format_pub_date(&a, 2, 1, NOW).unwrap(), "Tue, 14 Nov 2023 22:13:19 +0000");
    assert!(build_rss_item(&a, 2, 1, NOW).is_some());
    let batch = vec![a.clone(), article(0, "https://x.com/b", "0000-01-01T00:00:00Z")];
    let ch = build_rss_channel(&batch, &no_filters(), NOW).unwrap();
    assert_eq!(ch.items.len(), 2);
    assert_eq!(ch.items[0].pub_date, "Tue, 14 Nov 2023 22:13:20 +0000");
    assert_eq!(ch.items[1].pub_date, "Tue, 14 Nov 2023 22:13:19 +0000");
}

#[test]
fn build_time_beyond_year_9999_cannot_be_written() {
    let a = article(1, "yesterday", "not a date");
    assert!(format_pub_date(&a, 1, 0, 253_402_300_800).is_none());
    assert!(build_rss_item(&a, 1, 0, 253_402_300_800).is_none());
}

#[test]
fn guid_ignores_host_case_and_query() {
    let a = article(1, "https://www.Example.com/x", "2022-01-01T00:00:00Z");
    let b = article(2, "https://WWW.EXAMPLE.COM/x?utm_source=feed#top", "2022-01-01T00:00:00Z");
    let ga = build_item_guid(&a);
    let gb = build_item_guid(&b);
    assert_eq!(ga.value, gb.value);
    assert!(!ga.is_permalink);
}

#[test]
fn guid_hashes_canonical_link() {
    let a = article(1, "https://Example.com/x?ref=1", "2022-01-01T00:00:00Z");
    assert_eq!(canonical_link("https://Example.com/x?ref=1"), "example.com/x");
    assert_eq!(build_item_guid(&a).value, "hash:ac56f2cb9b87ec2797fd367234a44380d42f11e9");
}

#[test]
fn guid_of_unparsed_link_hashes_raw_text() {
    let a = article(1, "a.com/page", "2022-01-01T00:00:00Z");
    assert_eq!(canonical_link("a.com/page"), "a.com/page");
    assert_eq!(build_item_guid(&a).value, "hash:64daae4ad28d7c4ea3b6a03cb5a751f163de041f");
}

#[test]
fn guid_from_hn_id() {
    let mut a = article(1, "https://x.com/a", "2022-01-01T00:00:00Z");
    a.hn_id = Some(42);
    let g = build_item_guid(&a);
    assert_eq!(g.value, "thread:42");
    assert!(g.is_permalink);
}

#[test]
fn guid_from_discussion_link() {
    let mut a = article(1, "https://x.com/a", "2022-01-01T00:00:00Z");
    a.hn_id = Some(0);
    a.comment_link = Some("https://news.ycombinator.com/item?id=31337".to_string());
    let g = build_item_guid(&a);
    assert_eq!(g.value, "thread:31337");
    assert!(g.is_permalink);
    a.comment_link = Some("https://example.com/item?id=31337".to_string());
    assert!(build_item_guid(&a).value.starts_with("hash:"));
}

#[test]
fn domain_strips_www() {
    assert_eq!(display_domain("https://www.Example.com/x"), "example.com");
    assert_eq!(display_domain("https://news.example.org/a"), "news.example.org");
    assert_eq!(display_domain("not a url"), "source");
}

#[test]
fn summary_script_is_escaped() {
    let mut a = article(1, "https://x.com/a", "2022-01-01T00:00:00Z");
    a.summary = Some("<script>alert('x')</script>\nnext".to_string());
    let d = build_item_description(&a);
    assert!(d.starts_with("&lt;script&gt;alert(&#x27;x&#x27;)&lt;/script&gt;<br>next<br><br><small>"));
    assert!(!d.contains("<script>"));
    let body = respond(Ok(vec![a]), &no_filters(), NOW).body;
    assert!(!body.contains("<script>"));
    assert!(body.contains("&amp;lt;script&amp;gt;"));
}

#[test]
fn blank_summary_reads_no_summary() {
    let mut a = article(1, "https://x.com/a", "2022-01-01T00:00:00Z");
    a.summary = Some("  \n ".to_string());
    assert!(build_item_description(&a).starts_with("No summary<br><br><small>"));
    a.summary = None;
    assert!(build_item_description(&a).starts_with("No summary<br><br><small>"));
    a.summary = Some("\u{A0}".to_string());
    assert!(build_item_description(&a).starts_with("No summary<br><br><small>"));
    a.summary = Some("\u{3000}\u{B}\u{C}".to_string());
    assert!(build_item_description(&a).starts_with("No summary<br><br><small>"));
    a.summary = Some(" x ".to_string());
    assert!(build_item_description(&a).starts_with(" x <br><br><small>"));
}

#[test]
fn footer_lists_counts_provenance_and_domain() {
    let mut a = article(1, "https://www.x.com/a?b=1&c=2", "2022-01-01T00:00:00Z");
    a.upvotes = Some(10);
    a.comment_count = Some(2);
    a.comment_link = Some("https://news.ycombinator.com/item?id=7&x=1".to_string());
    a.model_name = Some("premium-model".to_string());
    a.commit_hash = Some("abc123".to_string());
    assert_eq!(
        build_item_footer(&a),
        "\u{25B2} 10 \u{b7} <a href=\"https://news.ycombinator.com/item?id=7&amp;x=1\">\u{1F4AC} 2</a> \u{b7} \u{1F916} premium-model \u{b7} \u{1F528} abc123 \u{b7} <a href=\"https://www.x.com/a?b=1&amp;c=2\">\u{1F310} x.com</a>"
    );
}

#[test]
fn footer_without_comments_or_link() {
    let mut a = article(1, "https://x.com/a", "2022-01-01T00:00:00Z");
    a.comment_count = Some(3);
    a.model_name = Some(String::new());
    assert_eq!(
        build_item_footer(&a),
        "\u{25B2} 0 \u{b7} \u{1F4AC} 3 \u{b7} <a href=\"https://x.com/a\">\u{1F310} x.com</a>"
    );
    a.hn_id = Some(99);
    assert!(build_item_footer(&a)
        .contains("<a href=\"https://news.ycombinator.com/item?id=99\">\u{1F4AC} 3</a>"));
}

#[test]
fn title_names_active_filters() {
    assert_eq!(build_feed_title(&no_filters()), "Gopher Signal");
    let q = RssQuery {
        flagged: Some(true),
        dead: Some(false),
        dupe: Some(true),
        min_upvotes: Some(0),
        min_comments: Some(5),
    };
    assert_eq!(build_feed_title(&q), "Gopher Signal - Flagged, Dupe, Filtered");
    let q = RssQuery { flagged: None, dead: Some(true), dupe: None, min_upvotes: Some(0), min_comments: None };
    assert_eq!(build_feed_title(&q), "Gopher Signal - Dead");
}
