use community_agent::client::{is_success, server_healthy, Api, ClaimInfo, Health, Me, Post, RegisterResp};
use community_agent::cmd::agent_view::{agent_display_name, agent_paths, check_agent_address};
use community_agent::cmd::bootstrap::{bail_out, ensure_awp_registered, install_plan, wallet_init_needed, Registration};
use community_agent::cmd::briefing::suggestions;
use community_agent::cmd::claim_info::{claim_info_ok, claim_info_path, claim_state};
use community_agent::cmd::contribute::{contributions_path, submit_failed, submit_ok};
use community_agent::cmd::epoch::{
    check_pool, claim_all_done, claim_path, pending_internal, row_epoch_id, row_pool,
    unclaimed_indices, ClaimRow, ClaimTally,
};
use community_agent::cmd::feed::{author_display, body_preview, check_sort, feed_ok, feed_path};
use community_agent::cmd::keys::{is_active, key_entry, keys_ok};
use community_agent::cmd::opportunities::{build_menu, opportunities_ok, rank_categories, Category, MenuItem, Proposal, Topic};
use community_agent::cmd::post::{check_post, post_rejected};
use community_agent::cmd::register::{preflight_blocks, register_failed, registered_saved, saved_registration};
use community_agent::cmd::reply::{check_reply, reply_path};
use community_agent::cmd::smoke_test::{
    awp_check, binary_check, bootstrap_search, identity_check, path_candidates, readiness, server_check,
    server_unreachable_check, smoke_ok, smoke_search, split_colon, wallet_check,
};
use community_agent::keyring::StoredIdentity;
use community_agent::cmd::status::status_ok;
use community_agent::cmd::use_key::{join_names, use_not_found, use_save_failed};
use community_agent::cmd::vote::{check_vote, vote_route};
use community_agent::output::{Internal, Output, Payload};
use serde_json::Value;

fn code(o: &Output) -> String {
    o.error.as_ref().unwrap().code.clone()
}

fn row(claimed: Option<bool>, epoch: Option<i64>, pool: Option<&str>) -> ClaimRow {
    ClaimRow { claimed, epoch_id: epoch, pool_type: pool.map(|p| p.to_string()) }
}

#[test]
fn claim_all_only_claims_rows_marked_unclaimed() {
    let rows = vec![
        row(Some(true), Some(1), None),
        row(Some(false), Some(2), Some("royalty")),
        row(None, Some(3), None),
        row(Some(false), None, None),
    ];
    assert_eq!(unclaimed_indices(&rows), vec![1, 3]);
    assert_eq!(row_epoch_id(&rows[1]), 2);
    assert_eq!(row_epoch_id(&rows[3]), 0);
    assert_eq!(row_epoch_id(&row(None, Some(4294967297), None)), 1);
    assert_eq!(row_pool(&rows[1]), "royalty");
    assert_eq!(row_pool(&rows[3]), "active");
}

#[test]
fn claim_paths_and_pools() {
    assert_eq!(claim_path(12), "/api/epochs/12/claim");
    assert!(check_pool("active").is_ok());
    assert!(check_pool("royalty").is_ok());
    let e = check_pool("other").unwrap_err();
    assert_eq!(code(&e), "BAD_POOL");
    assert_eq!(e.user_message, "invalid pool: other");
}

#[test]
fn claim_all_summary() {
    let o = claim_all_done(2, 0, "3.5000", Value::Null);
    assert_eq!(o.user_message, "claimed 2 row(s), total 3.5000 aCOM");
    assert_eq!(o.internal.next_action.as_deref(), Some("done"));
    let o = claim_all_done(1, 2, "1.0000", Value::Null);
    assert_eq!(o.user_message, "claimed 1 row(s) (1.0000 aCOM); 2 failure(s)");
    assert_eq!(o.internal.next_action.as_deref(), Some("review_failures"));
}

#[test]
fn pending_claims_suggest_claim_all() {
    let i = pending_internal(3, "done");
    assert_eq!(i.next_action.as_deref(), Some("claim_pending"));
    assert_eq!(i.next_command.as_deref(), Some("community-agent epoch claim-all"));
    let i = pending_internal(0, "nothing_to_claim");
    assert_eq!(i.next_action.as_deref(), Some("nothing_to_claim"));
    assert!(i.next_command.is_none());
}

fn post(author: &str, name: Option<&str>, body: &str) -> Post {
    Post {
        id: 1,
        author: author.into(),
        author_name: name.map(|n| n.into()),
        author_type: "agent".into(),
        title: "t".into(),
        body: body.into(),
        category: None,
        views: 0,
        votes: 0,
        pinned: false,
        reply_count: 0,
        created_at: "now".into(),
    }
}

#[test]
fn feed_validation_and_path() {
    assert!(check_sort("hot").is_ok());
    let e = check_sort("old").unwrap_err();
    assert_eq!(code(&e), "BAD_SORT");
    assert_eq!(e.user_message, "invalid sort 'old'");
    assert_eq!(feed_path("new", None, 20), "/api/forum/posts?sort=new&limit=20");
    assert_eq!(feed_path("top", Some("dev"), 5), "/api/forum/posts?sort=top&limit=5&category=dev");
}

#[test]
fn feed_display_fields() {
    let p = post("0x1234567890abcdef1234567890abcdef12345678", None, "short");
    assert_eq!(author_display(&p), "0x1234\u{2026}5678");
    let p = post("0x12", Some("Ann"), &"b".repeat(300));
    assert_eq!(author_display(&p), "Ann");
    assert_eq!(body_preview(&p).chars().count(), 241);
    let o = feed_ok(2, 10, Value::Null);
    assert_eq!(o.user_message, "2 posts (2/10)");
}

#[test]
fn post_checks() {
    let title = "A substantive title";
    let body = "x".repeat(60);
    assert!(check_post(Some("k"), title, &body).is_ok());
    assert_eq!(code(&check_post(None, title, &body).unwrap_err()), "UNAUTHENTICATED");
    assert_eq!(code(&check_post(Some("k"), "   short   ", &body).unwrap_err()), "BAD_TITLE");
    assert_eq!(code(&check_post(Some("k"), title, "too short").unwrap_err()), "BAD_BODY");
    assert_eq!(code(&check_post(Some("k"), title, &"y".repeat(5001)).unwrap_err()), "BAD_BODY");
}

#[test]
fn post_rejection_retryability() {
    assert!(post_rejected("HTTP 429: slow down").error.unwrap().retryable);
    assert!(!post_rejected("HTTP 400: too similar to a recent post").error.unwrap().retryable);
    assert!(!post_rejected("HTTP 400: looks like spam").error.unwrap().retryable);
}

#[test]
fn reply_checks_and_path() {
    assert!(check_reply(Some("k"), "a real sentence here").is_ok());
    assert_eq!(code(&check_reply(Some("k"), "  hi  ").unwrap_err()), "BAD_BODY");
    assert_eq!(code(&check_reply(None, "a real sentence here").unwrap_err()), "UNAUTHENTICATED");
    assert_eq!(reply_path(7), "/api/forum/posts/7/replies");
}

#[test]
fn vote_routes() {
    assert!(check_vote(Some("k"), "post").is_ok());
    assert_eq!(code(&check_vote(Some("k"), "user").unwrap_err()), "BAD_TARGET");
    assert_eq!(code(&check_vote(None, "post").unwrap_err()), "UNAUTHENTICATED");
    assert_eq!(vote_route("post", 3, true), ("/api/forum/posts/3/vote".into(), "upvoted post".into()));
    assert_eq!(vote_route("reply", 4, false), ("/api/forum/replies/4/vote".into(), "unvoted reply".into()));
}

#[test]
fn claim_info_states() {
    let mut info = ClaimInfo::default();
    assert_eq!(claim_state(&info), "UNKNOWN");
    info.valid = true;
    assert_eq!(claim_state(&info), "PENDING");
    info.expired = Some(true);
    assert_eq!(claim_state(&info), "EXPIRED");
    info.claimed = Some(true);
    assert_eq!(claim_state(&info), "CLAIMED");
    let o = claim_info_ok("abcdefghijklmnopqrstuvwxyz", &info, Value::Null);
    assert_eq!(o.user_message, "claim abcdefghijklmnopqrst\u{2026} \u{2014} state: CLAIMED");
    assert_eq!(o.internal.next_action.as_deref(), Some("done"));
    assert_eq!(claim_info_path("a b"), "/api/agents/claim-info?code=a%20b");
}

#[test]
fn contribute_paths_and_outputs() {
    assert_eq!(contributions_path(0), "/api/contributions/me?limit=1");
    assert_eq!(contributions_path(500), "/api/contributions/me?limit=100");
    assert_eq!(contributions_path(20), "/api/contributions/me?limit=20");
    assert_eq!(submit_ok("approved", "1.00", Value::Null).internal.next_action.as_deref(), Some("done"));
    assert_eq!(submit_ok("pending", "1.00", Value::Null).internal.next_action.as_deref(), Some("wait_review"));
    assert!(submit_failed("x").error.unwrap().hint.unwrap().contains("forum_reply"));
}

#[test]
fn agent_addresses() {
    assert_eq!(
        check_agent_address(" 0x00112233445566778899aabbccddeeff00112233 ").unwrap(),
        "0x00112233445566778899aabbccddeeff00112233"
    );
    assert_eq!(check_agent_address("agent_ab12").unwrap(), "agent_ab12");
    assert_eq!(code(&check_agent_address("agent_").unwrap_err()), "BAD_ADDRESS");
    assert_eq!(code(&check_agent_address("0x12").unwrap_err()), "BAD_ADDRESS");
    let (d, c, p, r) = agent_paths("agent_x");
    assert_eq!(d, "/api/agents/agent_x/detail");
    assert_eq!(c, "/api/contributions/agent/agent_x");
    assert_eq!(p, "/api/forum/by-author/agent_x?limit=5");
    assert_eq!(r, "/api/forum/replies/by-author/agent_x?limit=5");
    assert_eq!(agent_display_name(Some(Some("n")), Some(Some("u"))), "n");
    assert_eq!(agent_display_name(Some(None), Some(Some("u"))), "(unnamed)");
    assert_eq!(agent_display_name(None, Some(Some("u"))), "u");
    assert_eq!(agent_display_name(None, None), "(unnamed)");
}

#[test]
fn keys_listing() {
    assert!(is_active(Some("a"), "a"));
    assert!(!is_active(None, "a"));
    let ident = |n: &str| StoredIdentity {
        name: n.into(),
        api_key: "abcdefgh12345678wxyz".into(),
        agent_address: "agent_1".into(),
        chain_address: "0xc".into(),
        created_at: "t".into(),
        claim_code: "cc".into(),
        claim_url: "cu".into(),
    };
    let e = key_entry(&ident("a"), Some("a"));
    assert!(e.active);
    assert_eq!(e.api_key_preview, "abcdefgh...wxyz");
    assert!(!key_entry(&ident("b"), Some("a")).active);
    let o = keys_ok(Some("a"), vec![e], None);
    assert_eq!(o.user_message, "1 identity stored, active: a");
    assert_eq!(o.internal.next_action.as_deref(), Some("done"));
    match o.data {
        Some(Payload::Keys(l)) => {
            assert_eq!(l.active.as_deref(), Some("a"));
            assert_eq!(l.identities.len(), 1);
            assert_eq!(l.identities[0].api_key_preview, "abcdefgh...wxyz");
        }
        _ => panic!("expected the keys listing"),
    }
    let two = vec![key_entry(&ident("a"), None), key_entry(&ident("b"), None)];
    assert_eq!(keys_ok(None, two, None).user_message, "2 identities stored, active: (none)");
    assert!(keys_ok(None, vec![], None).user_message.starts_with("no identities stored"));
}

#[test]
fn use_key_not_found_lists_available() {
    assert_eq!(join_names(&vec!["a".into(), "b".into()]), "a, b");
    let o = use_not_found("x", &vec![]);
    assert_eq!(o.internal.hint.as_deref(), Some("available: (none)"));
    let o = use_not_found("x", &vec!["a".into(), "b".into()]);
    assert_eq!(o.internal.hint.as_deref(), Some("available: a, b"));
    assert_eq!(code(&o), "IDENTITY_NOT_FOUND");
}

#[test]
fn opportunities_menu_order_and_limits() {
    let cats = vec![
        Category { ty: Some("skill".into()), count: Some(4), score: 10 },
        Category { ty: None, count: None, score: 10 },
        Category { ty: Some("tutorial".into()), count: None, score: 10 },
        Category { ty: Some("bug_fix".into()), count: Some(1), score: 10 },
    ];
    let topics = vec![
        Topic { id: Some(0), title: None, reply_count: None, views: None },
        Topic { id: Some(9), title: Some("T".into()), reply_count: Some(2), views: Some(30) },
    ];
    let prs = vec![Proposal { id: Some(5), title: None }, Proposal { id: Some(6), title: None }, Proposal { id: Some(7), title: None }];
    let menu = build_menu(cats, &topics, &prs);
    assert_eq!(menu.len(), 5);
    match &menu[0] {
        MenuItem::Contribution { ty, cmd, why } => {
            assert_eq!(ty, "skill");
            assert_eq!(cmd, "community-agent contribute submit --type skill --title \"<short title>\" --description \"<details>\"");
            assert_eq!(why, "category active \u{2014} 4 contribution(s) approved historically");
        }
        _ => panic!("expected a contribution"),
    }
    match &menu[2] {
        MenuItem::Reply { post_id, cmd, why, .. } => {
            assert_eq!(*post_id, 9);
            assert_eq!(cmd, "community-agent reply --post-id 9 --body \"<your reply>\"");
            assert_eq!(why, "hot topic \u{2014} 2 replies, 30 views");
        }
        _ => panic!("expected a reply"),
    }
    match &menu[4] {
        MenuItem::Review { pr_id, .. } => assert_eq!(*pr_id, 6),
        _ => panic!("expected a review"),
    }
    assert_eq!(opportunities_ok(1, Value::Null).user_message, "1 opportunity ranked by ROI");
    assert_eq!(opportunities_ok(5, Value::Null).user_message, "5 opportunities ranked by ROI");
}

#[test]
fn briefing_suggestions() {
    let s = suggestions(false, 3, "1.00", 2);
    assert_eq!(s.len(), 1);
    assert_eq!(s[0].cmd, "community-agent register --name <X>");
    let s = suggestions(true, 3, "1.50", 2);
    assert_eq!(s.len(), 3);
    assert_eq!(s[0].why, "3 unclaimed reward(s), total 1.50 aCOM");
    assert_eq!(s[1].why, "2 reply(ies) waiting on you \u{2014} go answer");
    assert_eq!(s[2].cmd, "community-agent opportunities");
    assert_eq!(suggestions(true, 0, "0.00", 0).len(), 1);
}

#[test]
fn smoke_test_search_and_report() {
    assert_eq!(split_colon("/a::/b"), vec!["/a", "", "/b"]);
    assert_eq!(path_candidates("/usr/bin:/bin/", "awp-wallet"), vec!["/usr/bin/awp-wallet", "/bin/awp-wallet"]);
    assert!(smoke_search(None, "/h").is_empty());
    assert_eq!(smoke_search(Some("/x"), "/h").len(), 5);
    let b = bootstrap_search(None, "/h");
    assert_eq!(b, vec![
        "/h/awp-wallet/bin/awp-wallet",
        "/h/.local/bin/awp-wallet",
        "/h/.npm-global/bin/awp-wallet",
        "/h/.yarn/bin/awp-wallet",
        "/usr/local/bin/awp-wallet",
    ]);
    let o = smoke_ok(false, Some("wallet_not_installed"), Value::Null);
    assert_eq!(o.user_message, "readiness check failed: wallet_not_installed");
    assert_eq!(o.internal.next_action.as_deref(), Some("fix:wallet_not_installed"));
    assert_eq!(o.internal.next_command.as_deref(), Some("community-agent bootstrap"));
    let o = smoke_ok(true, None, Value::Null);
    assert_eq!(o.internal.next_action.as_deref(), Some("ready"));
}

#[test]
fn bootstrap_decisions() {
    assert_eq!(ensure_awp_registered(true, None), Ok("already registered".into()));
    let r = Registration { registered: true, auto_registered: true, message: String::new() };
    assert_eq!(ensure_awp_registered(false, Some(&r)), Ok("auto-registered via gasless relay".into()));
    let r = Registration { registered: false, auto_registered: false, message: "nope".into() };
    assert_eq!(ensure_awp_registered(false, Some(&r)), Err("ensure_registered returned not-registered: nope".into()));
    let p = install_plan(false, true);
    assert!(p.clone && p.remove_remnant);
    let p = install_plan(true, true);
    assert!(!p.clone && !p.remove_remnant);
    let o = bail_out("WALLET_INIT_FAILED", "boom".into(), "h", "investigate_wallet");
    assert_eq!(code(&o), "WALLET_INIT_FAILED");
    assert_eq!(o.error.as_ref().unwrap().domain, "bootstrap");
}

#[test]
fn register_decisions() {
    assert!(preflight_blocks(Some(false)));
    assert!(!preflight_blocks(Some(true)));
    assert!(!preflight_blocks(None));
    assert!(!register_failed("HTTP 409: name already taken", Value::Null).error.unwrap().retryable);
    assert!(register_failed("HTTP 500", Value::Null).error.unwrap().retryable);
}

#[test]
fn status_and_client() {
    let me = Me { address: "0xa".into(), username: Some("bot".into()), user_type: "agent".into(), is_admin: false };
    assert_eq!(status_ok(true, Some(&me), Value::Null).user_message, "server ok \u{b7} authenticated as bot (agent)");
    assert_eq!(status_ok(true, None, Value::Null).internal.next_action.as_deref(), Some("register"));
    let api = Api::new("https://x", Some("k"));
    assert_eq!(api.url("/health"), "https://x/health");
    assert_eq!(api.auth_header(), Some("Bearer k".to_string()));
    assert_eq!(Api::new("https://x", None).auth_header(), None);
    assert!(is_success(204));
    assert!(!is_success(301));
    let h = Health { service: "s".into(), status: "ok".into(), version: "1".into() };
    assert!(server_healthy(&h));
}

#[test]
fn output_constructors() {
    let o = Output::ok("m".into(), Value::Bool(true), Internal::default());
    assert!(o.ok && o.error.is_none());
    let o = Output::error("m".into(), "C", "d", true, "h", Internal::action("retry"));
    assert!(!o.ok && o.data.is_none());
    let o = Output::error_with_debug("m".into(), "C", "d", false, "h", Value::Bool(true), Internal::default());
    assert_eq!(o.error.unwrap().debug, Some(Value::Bool(true)));
}

#[test]
fn opportunities_rank_categories_by_score_highest_first() {
    let cat = |t: &str, score: i64| Category { ty: Some(t.into()), count: None, score };
    let ranked = rank_categories(vec![cat("low", 1), cat("high", 9), cat("mid", 5), cat("mid2", 5), cat("top", 20)]);
    let order: Vec<&str> = ranked.iter().map(|c| c.ty.as_deref().unwrap()).collect();
    assert_eq!(order, vec!["top", "high", "mid", "mid2", "low"]);
    let menu = build_menu(vec![cat("low", 1), cat("high", 9), cat("x", 2), cat("best", 30)], &vec![], &vec![]);
    let tys: Vec<String> = menu
        .iter()
        .map(|m| match m {
            MenuItem::Contribution { ty, .. } => ty.clone(),
            _ => panic!("expected a contribution"),
        })
        .collect();
    assert_eq!(tys, vec!["best", "high", "x"]);
}

#[test]
fn saved_registration_shows_only_the_key_preview() {
    let r = RegisterResp {
        api_key: "cak_0123456789abcdefSECRET".into(),
        agent_address: "agent_7".into(),
        chain_address: "0xabc".into(),
        claim_code: "code".into(),
        claim_url: "https://c/claim".into(),
    };
    let d = saved_registration(&r, "/home/u/.community/keys/bot.json");
    assert_eq!(d.api_key_preview, "cak_0123...CRET");
    assert_eq!(d.key_path, "/home/u/.community/keys/bot.json");
    assert_eq!(d.agent_address, "agent_7");
    assert_eq!(d.claim_url, "https://c/claim");
    let o = registered_saved("bot", d);
    assert!(o.ok);
    assert_eq!(o.internal.next_action.as_deref(), Some("wait_for_claim"));
    match o.data {
        Some(Payload::Saved(s)) => assert!(!s.api_key_preview.contains("SECRET")),
        _ => panic!("expected the saved registration"),
    }
}

#[test]
fn readiness_matrix_checks() {
    let healthy = Health { service: "community".into(), status: "ok".into(), version: "1.2".into() };
    let c = server_check(&healthy);
    assert!(c.ok);
    assert_eq!(c.detail, "community v1.2 status=ok");
    let sick = Health { service: "community".into(), status: "degraded".into(), version: "1.2".into() };
    let s = server_check(&sick);
    assert!(!s.ok);
    assert_eq!(s.tag.as_deref(), Some("server_unhealthy"));
    let u = server_unreachable_check("timeout");
    assert_eq!(u.detail, "unreachable: timeout");
    assert_eq!(u.tag.as_deref(), Some("server_unreachable"));
    assert_eq!(binary_check("0.1.0").detail, "community-agent 0.1.0");
    assert_eq!(wallet_check(false, None).tag.as_deref(), Some("wallet_not_installed"));
    assert_eq!(wallet_check(true, None).tag.as_deref(), Some("wallet_not_initialized"));
    assert_eq!(wallet_check(true, Some("0xa")).detail, "initialized: 0xa");
    assert_eq!(awp_check(Ok(true)).detail, "registered");
    assert_eq!(awp_check(Ok(false)).tag.as_deref(), Some("awp_not_registered"));
    assert_eq!(awp_check(Err("rpc down")).detail, "check failed: rpc down");
    let me = Me { address: "0xa".into(), username: None, user_type: "agent".into(), is_admin: false };
    assert_eq!(identity_check(Some(Ok(&me))).detail, "authenticated as unnamed (agent)");
    assert_eq!(identity_check(Some(Err("401"))).tag.as_deref(), Some("identity_rejected"));
    assert!(identity_check(None).ok);

    let all = vec![binary_check("v"), server_check(&healthy), identity_check(None)];
    assert_eq!(readiness(&all), (true, None));
    let some = vec![binary_check("v"), server_check(&healthy), wallet_check(false, None), awp_check(Ok(false))];
    assert_eq!(readiness(&some), (false, Some("wallet_not_installed".to_string())));
    let unhealthy = vec![server_check(&sick), wallet_check(false, None)];
    assert_eq!(readiness(&unhealthy), (false, Some("server_unhealthy".to_string())));
}

#[test]
fn every_output_names_a_next_action() {
    assert_eq!(feed_failed_action(), Some("retry".to_string()));
    assert_eq!(check_pool("gold").unwrap_err().internal.next_action.as_deref(), Some("fix_command"));
    assert_eq!(submit_failed("bad type").internal.next_action.as_deref(), Some("fix_command"));
}

fn feed_failed_action() -> Option<String> {
    community_agent::cmd::feed::feed_failed("boom").internal.next_action
}

#[test]
fn claim_tally_partitions_rows() {
    let mut t = ClaimTally::new();
    for (row, ok) in [(0usize, true), (3, false), (4, true), (7, false)] {
        t.record(row, ok);
    }
    assert_eq!(t.claimed, vec![0, 4]);
    assert_eq!(t.failed, vec![3, 7]);
}

#[test]
fn wallet_init_runs_when_missing_or_forced() {
    assert!(wallet_init_needed(false, false));
    assert!(!wallet_init_needed(false, true));
    assert!(wallet_init_needed(true, true));
}

#[test]
fn use_key_write_failure_is_reported() {
    let o = use_save_failed("bot", "permission denied");
    assert!(!o.ok);
    assert_eq!(o.user_message, "could not make \"bot\" the active identity: permission denied");
    assert_eq!(code(&o), "KEYRING_WRITE_FAILED");
    assert_eq!(o.internal.next_action.as_deref(), Some("retry"));
}
