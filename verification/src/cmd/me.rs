//! `me`: the agent's own posts and replies.

use vstd::prelude::*;

use crate::output::{Internal, Output, failed, hints, succeeded};
use crate::text::{append_str, decimal, spec_decimal};

verus! {

/// The api key was rejected by `/api/user/me`.
pub fn me_rejected(err: &str) -> (out: Output)
    ensures
        failed(
            out,
            "not authenticated: "@ + err@,
            "UNAUTHENTICATED"@,
            "auth"@,
            false,
            "api_key rejected \u{2014} rotate via `community-agent register`"@,
            None,
        ),
        hints(out.internal) == (Some("register"@), None::<Seq<char>>, None::<Seq<char>>),
{
    let mut msg = String::new();
    append_str(&mut msg, "not authenticated: ");
    append_str(&mut msg, err);
    Output::error(
        msg,
        "UNAUTHENTICATED",
        "auth",
        false,
        "api_key rejected \u{2014} rotate via `community-agent register`",
        Internal::action("register"),
    )
}

/// `/api/forum/by-author/<address>`.
pub fn posts_by_author_path(address: &str) -> (path: String)
    ensures
        path@ == "/api/forum/by-author/"@ + address@,
{
    let mut p = String::new();
    append_str(&mut p, "/api/forum/by-author/");
    append_str(&mut p, address);
    p
}

/// `/api/forum/replies/by-author/<address>`.
pub fn replies_by_author_path(address: &str) -> (path: String)
    ensures
        path@ == "/api/forum/replies/by-author/"@ + address@,
{
    let mut p = String::new();
    append_str(&mut p, "/api/forum/replies/by-author/");
    append_str(&mut p, address);
    p
}

/// A user's display name: the username, else `unnamed`.
pub open spec fn spec_display_name(username: Option<Seq<char>>) -> Seq<char> {
    match username {
        Some(u) => u,
        None => "unnamed"@,
    }
}

/// The agent's activity summary.
pub fn me_ok(username: Option<&str>, posts_total: i64, replies_total: i64, data: serde_json::Value) -> (out: Output)
    ensures
        succeeded(
            out,
            spec_display_name(crate::keyring::opt_view(username)) + " \u{2014} "@ + spec_decimal(
                posts_total as int,
            ) + " posts, "@ + spec_decimal(replies_total as int) + " replies"@,
            data,
        ),
        hints(out.internal) == (Some("done"@), None::<Seq<char>>, None::<Seq<char>>),
{
    let mut msg = String::new();
    match username {
        Some(u) => append_str(&mut msg, u),
        None => append_str(&mut msg, "unnamed"),
    }
    append_str(&mut msg, " \u{2014} ");
    let p = decimal(posts_total);
    append_str(&mut msg, &p);
    append_str(&mut msg, " posts, ");
    let r = decimal(replies_total);
    append_str(&mut msg, &r);
    append_str(&mut msg, " replies");
    Output::ok(msg, data, Internal::action("done"))
}

} // verus!
