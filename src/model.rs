//! The records that come from the article source, and the request's filters.
use vstd::prelude::*;
use crate::text::{decimal_of, decimal_string};

verus! {

/// One syndicated story as the article source delivers it.
#[derive(Clone, Debug)]
pub struct Article {
    pub id: i32,
    pub hn_id: Option<i32>,
    pub title: String,
    pub link: String,
    pub article_rank: Option<i32>,
    pub content: Option<String>,
    pub summary: Option<String>,
    pub source: String,
    pub upvotes: Option<i32>,
    pub comment_count: Option<i32>,
    pub comment_link: Option<String>,
    pub flagged: bool,
    pub dead: bool,
    pub dupe: bool,
    pub created_at: String,
    pub updated_at: String,
    pub published_at: Option<String>,
    pub commit_hash: Option<String>,
    pub model_name: Option<String>,
}

/// The envelope in which the article source returns a batch.
#[derive(Clone, Debug)]
pub struct ApiResponse {
    pub code: u32,
    pub status: String,
    pub total_count: u32,
    pub articles: Option<Vec<Article>>,
}

impl ApiResponse {
    /// The batch that the envelope carries; an envelope without one carries an empty batch.
    pub fn into_articles(self) -> (r: Vec<Article>)
        ensures
            r@ == match self.articles {
                Some(v) => v@,
                None => Seq::<Article>::empty(),
            },
    {
        match self.articles {
            Some(v) => v,
            None => Vec::new(),
        }
    }
}

/// The filters of one feed request, handed on to the article source.
#[derive(Clone, Debug)]
pub struct RssQuery {
    pub flagged: Option<bool>,
    pub dead: Option<bool>,
    pub dupe: Option<bool>,
    pub min_upvotes: Option<u32>,
    pub min_comments: Option<u32>,
}

/// The text of a flag as the article source reads it.
pub open spec fn bool_text(b: bool) -> Seq<char> {
    if b {
        "true"@
    } else {
        "false"@
    }
}

/// The parameter for a flag filter, where it is set.
pub open spec fn flag_param(name: Seq<char>, v: Option<bool>) -> Seq<(Seq<char>, Seq<char>)> {
    match v {
        Some(b) => seq![(name, bool_text(b))],
        None => seq![],
    }
}

/// The parameter for a threshold filter, where it is set.
pub open spec fn count_param(name: Seq<char>, v: Option<u32>) -> Seq<(Seq<char>, Seq<char>)> {
    match v {
        Some(n) => seq![(name, decimal_of(n as nat))],
        None => seq![],
    }
}

/// The query parameters handed on to the article source: each filter that is set, in a
/// fixed order.
pub open spec fn upstream_params_of(q: RssQuery) -> Seq<(Seq<char>, Seq<char>)> {
    flag_param("flagged"@, q.flagged) + flag_param("dead"@, q.dead) + flag_param("dupe"@, q.dupe)
        + count_param("min_upvotes"@, q.min_upvotes) + count_param("min_comments"@, q.min_comments)
}

/// A parameter's name and value as characters.
pub open spec fn pair_view(p: (String, String)) -> (Seq<char>, Seq<char>) {
    (p.0@, p.1@)
}

impl RssQuery {
    /// The query parameters to hand on to the article source.
    pub fn upstream_params(&self) -> (r: Vec<(String, String)>)
        ensures
            r@.map_values(|p: (String, String)| pair_view(p)) == upstream_params_of(*self),
    {
        let mut r: Vec<(String, String)> = Vec::new();
        let ghost q = *self;
        if let Some(b) = self.flagged {
            r.push((String::from_str("flagged"), String::from_str(if b { "true" } else { "false" })));
        }
        let ghost s1 = r@.map_values(|p: (String, String)| pair_view(p));
        assert(s1 =~= flag_param("flagged"@, q.flagged));
        if let Some(b) = self.dead {
            r.push((String::from_str("dead"), String::from_str(if b { "true" } else { "false" })));
        }
        let ghost s2 = r@.map_values(|p: (String, String)| pair_view(p));
        assert(s2 =~= s1 + flag_param("dead"@, q.dead));
        if let Some(b) = self.dupe {
            r.push((String::from_str("dupe"), String::from_str(if b { "true" } else { "false" })));
        }
        let ghost s3 = r@.map_values(|p: (String, String)| pair_view(p));
        assert(s3 =~= s2 + flag_param("dupe"@, q.dupe));
        if let Some(n) = self.min_upvotes {
            r.push((String::from_str("min_upvotes"), decimal_string(n as i64)));
        }
        let ghost s4 = r@.map_values(|p: (String, String)| pair_view(p));
        assert(s4 =~= s3 + count_param("min_upvotes"@, q.min_upvotes));
        if let Some(n) = self.min_comments {
            r.push((String::from_str("min_comments"), decimal_string(n as i64)));
        }
        let ghost s5 = r@.map_values(|p: (String, String)| pair_view(p));
        assert(s5 =~= s4 + count_param("min_comments"@, q.min_comments));
        r
    }
}

/// Where the service listens and where it fetches articles from.
#[derive(Clone, Debug)]
pub struct AppConfig {
    pub port: String,
    pub api_url: String,
}

/// The port that the service listens on unless one is configured.
pub open spec fn default_port() -> Seq<char> {
    "9090"@
}

/// The article source used unless one is configured.
pub open spec fn default_api_url() -> Seq<char> {
    "https://gophersignal.com/api/v1/articles"@
}

impl AppConfig {
    /// The configuration from the values that were set, each missing one taking its default.
    pub fn with_defaults(port: Option<String>, api_url: Option<String>) -> (r: AppConfig)
        ensures
            r.port@ == match port {
                Some(p) => p@,
                None => default_port(),
            },
            r.api_url@ == match api_url {
                Some(u) => u@,
                None => default_api_url(),
            },
    {
        let port = match port {
            Some(p) => p,
            None => String::from_str("9090"),
        };
        let api_url = match api_url {
            Some(u) => u,
            None => String::from_str("https://gophersignal.com/api/v1/articles"),
        };
        AppConfig { port, api_url }
    }
}

/// The article source reached over HTTP; the network side lives with the server.
#[derive(Clone, Copy, Debug)]
pub struct HttpArticlesClient;

} // verus!
