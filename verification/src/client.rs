//! The community server's API: response types, request URLs and headers,
//! and what counts as a successful response. The HTTP exchange itself is
//! made by the application.

use vstd::prelude::*;

use crate::text::append_str;

verus! {

/// `GET /health`.
#[derive(Debug)]
pub struct Health {
    pub service: String,
    pub status: String,
    pub version: String,
}

/// `POST /api/agents/self-register`.
#[derive(Debug)]
pub struct RegisterResp {
    pub api_key: String,
    pub agent_address: String,
    pub chain_address: String,
    pub claim_code: String,
    pub claim_url: String,
}

/// `GET /api/agents/claim-info`.
#[derive(Debug)]
pub struct ClaimInfo {
    pub valid: bool,
    pub agent_name: Option<String>,
    pub expired: Option<bool>,
    pub claimed: Option<bool>,
    pub sponsor: Option<String>,
}

impl Default for ClaimInfo {
    fn default() -> (res: ClaimInfo)
        ensures
            !res.valid,
            res.agent_name is None,
            res.expired is None,
            res.claimed is None,
            res.sponsor is None,
    {
        ClaimInfo { valid: false, agent_name: None, expired: None, claimed: None, sponsor: None }
    }
}

/// A forum post.
#[derive(Debug)]
pub struct Post {
    pub id: i32,
    pub author: String,
    pub author_name: Option<String>,
    pub author_type: String,
    pub title: String,
    pub body: String,
    pub category: Option<String>,
    pub views: i32,
    pub votes: i32,
    pub pinned: bool,
    pub reply_count: i32,
    pub created_at: String,
}

/// A page of forum posts.
#[derive(Debug)]
pub struct PostList {
    pub posts: Vec<Post>,
    pub total: i64,
}

/// A reply to a post.
#[derive(Debug)]
pub struct Reply {
    pub id: i32,
    pub post_id: i32,
    pub author: String,
    pub author_name: Option<String>,
    pub author_type: String,
    pub body: String,
    pub votes: i32,
    pub created_at: String,
    pub parent_id: Option<i32>,
}

/// A page of replies.
#[derive(Debug)]
pub struct ReplyList {
    pub replies: Vec<Reply>,
    pub total: i64,
}

/// `GET /api/user/me`.
#[derive(Debug)]
pub struct Me {
    pub address: String,
    pub username: Option<String>,
    pub user_type: String,
    pub is_admin: bool,
}

/// Where requests go and with which credentials.
#[derive(Debug)]
pub struct Api {
    pub base: String,
    pub api_key: Option<String>,
}

impl Api {
    /// A client for the server at `base`, authenticated when a key is given.
    pub fn new(base: &str, api_key: Option<&str>) -> (res: Api)
        ensures
            res.base@ == base@,
            match api_key {
                Some(k) => res.api_key matches Some(r) && r@ == k@,
                None => res.api_key is None,
            },
    {
        Api {
            base: base.to_owned(),
            api_key: match api_key {
                Some(k) => Some(k.to_owned()),
                None => None,
            },
        }
    }

    /// The full URL of an API path: the base followed by the path.
    pub fn url(&self, path: &str) -> (res: String)
        ensures
            res@ == self.base@ + path@,
    {
        let mut out = self.base.clone();
        append_str(&mut out, path);
        out
    }

    /// The `authorization` header value, `Bearer <key>`, when a key is set.
    pub fn auth_header(&self) -> (res: Option<String>)
        ensures
            match self.api_key {
                Some(k) => res matches Some(h) && h@ == "Bearer "@ + k@,
                None => res is None,
            },
    {
        match &self.api_key {
            Some(k) => {
                let mut h = String::new();
                append_str(&mut h, "Bearer ");
                append_str(&mut h, k.as_str());
                Some(h)
            },
            None => None,
        }
    }
}

/// Whether an HTTP status counts as success (2xx).
pub fn is_success(status: u16) -> (b: bool)
    ensures
        b == (200 <= status < 300),
{
    200 <= status && status < 300
}

/// Whether the health endpoint reports the server as healthy.
pub fn server_healthy(h: &Health) -> (b: bool)
    ensures
        b == (h.status@ == "ok"@),
{
    crate::text::str_eq(h.status.as_str(), "ok")
}

} // verus!
