use rss_feed::channel::build_rss_channel;
use rss_feed::errors::AppError;
use rss_feed::handler::{build_rss_response, error_response, generate_rss_feed, respond};
use rss_feed::model::{ApiResponse, AppConfig, Article, RssQuery};
use rss_feed::published::prune_published_articles;
use rss_feed::text::{decimal_string, trim};
use std::collections::HashSet;

const NOW: i64 = 1_700_000_000;

fn article(id: i32, link: &str) -> Article {
    Article {
        id,
        hn_id: Some(42),
        title: "Test Article".to_string(),
        link: link.to_string(),
        article_rank: None,
        content: Some("Some content".to_string()),
        summary: Some("Test summary".to_string()),
        source: "Example".to_string(),
        upvotes: Some(10),
        comment_count: Some(2),
        comment_link: Some("http://example.com/comments".to_string()),
        flagged: false,
        dead: false,
        dupe: false,
        created_at: "2022-01-01T00:00:00Z".to_string(),
        updated_at: "2022-01-01T00:00:00Z".to_string(),
        published_at: None,
        commit_hash: Some("abc123".to_string()),
        model_name: Some("premium-model".to_string()),
    }
}

fn no_filters() -> RssQuery {
    RssQuery { flagged: None, dead: None, dupe: None, min_upvotes: None, min_comments: None }
}

#[test]
fn empty_batch_gives_empty_channel() {
    let r = respond(Ok(Vec::new()), &no_filters(), NOW);
    assert_eq!(r.status, 200);
    assert_eq!(r.content_type, "application/rss+xml; charset=utf-8");
    assert_eq!(
        r.body,
        "<?xml version=\"1.0\" encoding=\"utf-8\"?><rss version=\"2.0\"><channel><title>Gopher Signal</title><link>https://gophersignal.com</link><description>Latest articles from Gopher Signal</description><lastBuildDate>Tue, 14 Nov 2023 22:13:20 +0000</lastBuildDate></channel></rss>"
    );
    assert!(!r.body.contains("<item>"));
}

#[test]
fn fetch_failure_gives_server_error() {
    let r = respond(Err("connection refused".to_string()), &no_filters(), NOW);
    assert_eq!(r.status, 502);
    assert_eq!(r.content_type, "text/plain; charset=utf-8");
    assert_eq!(r.body, "Article fetch error: connection refused");
    assert!(!r.body.contains("<?xml"));
    let r = generate_rss_feed(Err("timeout".to_string()), &no_filters());
    assert_eq!(r.status, 502);
}

#[test]
fn one_item_document() {
    let r = respond(Ok(vec![article(1, "http://example.com")]), &no_filters(), NOW);
    assert_eq!(r.status, 200);
    assert!(r.body.contains("<item><title>Test Article</title><description>Test summary&lt;br&gt;&lt;br&gt;&lt;small&gt;"));
    assert!(r.body.contains("<guid isPermaLink=\"true\">thread:42</guid><pubDate>Sat, 1 Jan 2022 00:00:00 +0000</pubDate></item></channel></rss>"));
    assert_eq!(r.body.matches("<item>").count(), 1);
}

#[test]
fn live_build_succeeds() {
    let r = generate_rss_feed(Ok(vec![article(1, "http://example.com")]), &no_filters());
    assert_eq!(r.status, 200);
    assert!(r.body.starts_with("<?xml"));
}

#[test]
fn illegal_character_fails_the_build() {
    let mut a = article(1, "http://example.com");
    a.title = "bell \u{7}".to_string();
    let r = respond(Ok(vec![a.clone()]), &no_filters(), NOW);
    assert_eq!(r.status, 500);
    assert_eq!(r.body, "RSS build error: text that XML cannot carry");
    let ch = build_rss_channel(&vec![a], &no_filters(), NOW).unwrap();
    assert!(matches!(build_rss_response(&ch), Err(AppError::RssBuild(_))));
}

#[test]
fn build_time_out_of_range() {
    let r = respond(Ok(Vec::new()), &no_filters(), i64::MAX);
    assert_eq!(r.status, 500);
    assert_eq!(r.body, "RSS build error: date out of range");
}

#[test]
fn error_statuses_and_messages() {
    let e = AppError::ArticleFetch("x".to_string());
    assert_eq!(e.status_code(), 502);
    assert_eq!(e.message(), "Article fetch error: x");
    assert_eq!(AppError::AddrParse("p".to_string()).status_code(), 400);
    assert_eq!(AppError::Io("disk".to_string()).message(), "IO error: disk");
    assert_eq!(AppError::BoxedError("b".to_string()).status_code(), 500);
    let r = error_response(&AppError::RssBuild("bad".to_string()));
    assert_eq!(r.status, 500);
    assert_eq!(r.body, "RSS build error: bad");
}

#[test]
fn upstream_params_forward_filters() {
    let q = RssQuery { flagged: Some(true), dead: None, dupe: Some(false), min_upvotes: Some(15), min_comments: None };
    assert_eq!(
        q.upstream_params(),
        vec![
            ("flagged".to_string(), "true".to_string()),
            ("dupe".to_string(), "false".to_string()),
            ("min_upvotes".to_string(), "15".to_string()),
        ]
    );
    assert!(no_filters().upstream_params().is_empty());
}

#[test]
fn config_defaults_and_overrides() {
    let c = AppConfig::with_defaults(None, None);
    assert_eq!(c.port, "9090");
    assert_eq!(c.api_url, "https://gophersignal.com/api/v1/articles");
    let c = AppConfig::with_defaults(Some("8000".to_string()), Some("http://example.com/api".to_string()));
    assert_eq!(c.port, "8000");
    assert_eq!(c.api_url, "http://example.com/api");
}

#[test]
fn envelope_without_articles_is_empty() {
    let r = ApiResponse { code: 200, status: "OK".to_string(), total_count: 0, articles: None };
    assert!(r.into_articles().is_empty());
    let r = ApiResponse {
        code: 200,
        status: "OK".to_string(),
        total_count: 1,
        articles: Some(vec![article(1, "http://example.com")]),
    };
    let v = r.into_articles();
    assert_eq!(v.len(), 1);
    assert_eq!(v[0].commit_hash.as_deref(), Some("abc123"));
}

#[test]
fn prune_clears_full_set() {
    let mut s: HashSet<String> = (0..1000).map(|i| format!("https://x.com/{}", i)).collect();
    prune_published_articles(&mut s);
    assert!(s.is_empty());
    let mut s: HashSet<String> = (0..999).map(|i| format!("https://x.com/{}", i)).collect();
    prune_published_articles(&mut s);
    assert_eq!(s.len(), 999);
}

#[test]
fn decimal_and_trim_helpers() {
    assert_eq!(decimal_string(0), "0");
    assert_eq!(decimal_string(-42), "-42");
    assert_eq!(decimal_string(i64::MIN), "-9223372036854775808");
    assert_eq!(trim("\u{3000} a b\t\n"), "a b");
    assert_eq!(trim("   "), "");
}
