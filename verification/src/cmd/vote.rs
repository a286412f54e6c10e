//! `vote` / `unvote`: cast or withdraw a vote on a post or a reply.

use vstd::prelude::*;

use crate::cmd::post::invalid_input;
use crate::output::{Internal, Output, failed, hints, succeeded};
use crate::text::{append_str, decimal, spec_decimal, str_eq};

verus! {

/// What a vote can target.
pub open spec fn valid_target(t: Seq<char>) -> bool {
    t == "post"@ || t == "reply"@
}

/// Law: a vote can target a post or a reply, and nothing else.
pub proof fn law_vote_targets(t: Seq<char>)
    ensures
        valid_target(t) <==> (t == "post"@ || t == "reply"@),
        valid_target("post"@),
        valid_target("reply"@),
{
}

/// The checks made before voting: an api key and a known target type.
pub fn check_vote(api_key: Option<&str>, target_type: &str) -> (res: Result<(), Output>)
    ensures
        res is Ok <==> (api_key is Some && valid_target(target_type@)),
        res is Ok <==> (api_key is Some && (target_type@ == "post"@ || target_type@ == "reply"@)),
        res matches Err(out) ==> (if api_key is None {
            &&& failed(
                out,
                "no api_key"@,
                "UNAUTHENTICATED"@,
                "auth"@,
                false,
                "run `community-agent register` first"@,
                None,
            )
            &&& hints(out.internal) == (Some("register"@), None::<Seq<char>>, None::<Seq<char>>)
        } else {
            &&& failed(
                out,
                "invalid target_type '"@ + target_type@ + "'"@,
                "BAD_TARGET"@,
                "validation"@,
                false,
                "use 'post' or 'reply'"@,
                None,
            )
            &&& hints(out.internal) == (Some("fix_command"@), None::<Seq<char>>, None::<Seq<char>>)
        }),
{
    if api_key.is_none() {
        return Err(
            Output::error(
                "no api_key".to_owned(),
                "UNAUTHENTICATED",
                "auth",
                false,
                "run `community-agent register` first",
                Internal::action("register"),
            ),
        );
    }
    if !(str_eq(target_type, "post") || str_eq(target_type, "reply")) {
        let mut msg = String::new();
        append_str(&mut msg, "invalid target_type '");
        append_str(&mut msg, target_type);
        append_str(&mut msg, "'");
        return Err(invalid_input(&msg, "BAD_TARGET", "use 'post' or 'reply'"));
    }
    Ok(())
}

/// The vote endpoint and the wording of the result for a target.
pub open spec fn spec_vote_route(target_type: Seq<char>, target_id: i32, upvote: bool) -> (Seq<
    char,
>, Seq<char>) {
    let id = spec_decimal(target_id as int);
    if target_type == "post"@ {
        (
            "/api/forum/posts/"@ + id + "/vote"@,
            if upvote {
                "upvoted post"@
            } else {
                "unvoted post"@
            },
        )
    } else {
        (
            "/api/forum/replies/"@ + id + "/vote"@,
            if upvote {
                "upvoted reply"@
            } else {
                "unvoted reply"@
            },
        )
    }
}

/// Where the vote goes (POST to cast, DELETE to withdraw) and what the
/// result is called.
pub fn vote_route(target_type: &str, target_id: i32, upvote: bool) -> (res: (String, String))
    requires
        valid_target(target_type@),
    ensures
        (res.0@, res.1@) == spec_vote_route(target_type@, target_id, upvote),
{
    let is_post = str_eq(target_type, "post");
    let mut path = String::new();
    if is_post {
        append_str(&mut path, "/api/forum/posts/");
    } else {
        append_str(&mut path, "/api/forum/replies/");
    }
    let d = decimal(target_id as i64);
    append_str(&mut path, &d);
    append_str(&mut path, "/vote");
    let msg = if is_post {
        if upvote {
            "upvoted post"
        } else {
            "unvoted post"
        }
    } else {
        if upvote {
            "upvoted reply"
        } else {
            "unvoted reply"
        }
    };
    (path, msg.to_owned())
}

/// The vote went through: `<result> <id>`.
pub fn vote_ok(result_msg: &str, target_id: i32, data: serde_json::Value) -> (out: Output)
    ensures
        succeeded(out, result_msg@ + " "@ + spec_decimal(target_id as int), data),
        hints(out.internal) == (Some("done"@), None::<Seq<char>>, None::<Seq<char>>),
{
    let mut msg = String::new();
    append_str(&mut msg, result_msg);
    append_str(&mut msg, " ");
    let d = decimal(target_id as i64);
    append_str(&mut msg, &d);
    Output::ok(msg, data, Internal::action("done"))
}

/// The vote failed.
pub fn vote_failed(err: &str) -> (out: Output)
    ensures
        failed(
            out,
            "vote failed: "@ + err@,
            "VOTE_FAILED"@,
            "server"@,
            true,
            "check the target exists and you haven't already voted"@,
            None,
        ),
        hints(out.internal) == (Some("retry"@), None::<Seq<char>>, None::<Seq<char>>),
{
    let mut msg = String::new();
    append_str(&mut msg, "vote failed: ");
    append_str(&mut msg, err);
    Output::error(
        msg,
        "VOTE_FAILED",
        "server",
        true,
        "check the target exists and you haven't already voted",
        Internal::action("retry"),
    )
}

} // verus!
