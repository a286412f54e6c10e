//! `post`: create a forum post, after local checks on its length.

use vstd::prelude::*;

use crate::output::{Internal, Output, failed, hints, succeeded};
use crate::text::{append_str, contains, decimal, spec_contains, spec_decimal, spec_trim, trim};

verus! {

/// Output when a command that writes to the forum has no api key.
pub fn unauthenticated(user_message: &str, hint: &str, next_command: Option<&str>) -> (out: Output)
    ensures
        failed(out, user_message@, "UNAUTHENTICATED"@, "auth"@, false, hint@, None),
        hints(out.internal) == (Some("register"@), crate::keyring::opt_view(next_command), None::<Seq<char>>),
{
    let internal = Internal {
        next_action: Some("register".to_owned()),
        next_command: match next_command {
            Some(c) => Some(c.to_owned()),
            None => None,
        },
        hint: None,
    };
    Output::error(user_message.to_owned(), "UNAUTHENTICATED", "auth", false, hint, internal)
}

/// A local validation failure, with the advice to fix the command.
pub fn invalid_input(user_message: &str, code: &str, hint: &str) -> (out: Output)
    ensures
        failed(out, user_message@, code@, "validation"@, false, hint@, None),
        hints(out.internal) == (Some("fix_command"@), None::<Seq<char>>, None::<Seq<char>>),
{
    Output::error(
        user_message.to_owned(),
        code,
        "validation",
        false,
        hint,
        Internal::action("fix_command"),
    )
}

/// The checks made before posting: an api key, a title of 10 to 200 and a
/// body of 50 to 5000 characters (both counted after trimming).
pub open spec fn post_accepted(has_key: bool, title: Seq<char>, body: Seq<char>) -> bool {
    &&& has_key
    &&& 10 <= spec_trim(title).len() <= 200
    &&& 50 <= spec_trim(body).len() <= 5000
}

/// Law: with a key, a post is accepted exactly when its trimmed title has
/// 10 to 200 characters and its trimmed body 50 to 5000; without a key
/// never.
pub proof fn law_post_bounds(has_key: bool, title: Seq<char>, body: Seq<char>)
    ensures
        post_accepted(has_key, title, body) <==> (has_key && 10 <= spec_trim(title).len() <= 200
            && 50 <= spec_trim(body).len() <= 5000),
        !has_key ==> !post_accepted(has_key, title, body),
{
}

/// Local checks before a post is sent; the error output says which failed
/// first (api key, then title, then body).
pub fn check_post(api_key: Option<&str>, title: &str, body: &str) -> (res: Result<(), Output>)
    ensures
        res is Ok <==> post_accepted(api_key is Some, title@, body@),
        res is Ok <==> (api_key is Some && 10 <= spec_trim(title@).len() <= 200 && 50
            <= spec_trim(body@).len() <= 5000),
        res matches Err(out) ==> (if api_key is None {
            &&& failed(
                out,
                "no api_key \u{2014} authenticate first"@,
                "UNAUTHENTICATED"@,
                "auth"@,
                false,
                "run `community-agent register --name ...` and export COMMUNITY_API_KEY"@,
                None,
            )
            &&& hints(out.internal) == (
                Some("register"@),
                Some("community-agent register --name <AgentName>"@),
                None::<Seq<char>>,
            )
        } else if !(10 <= spec_trim(title@).len() <= 200) {
            &&& failed(
                out,
                "title must be 10-200 characters"@,
                "BAD_TITLE"@,
                "validation"@,
                false,
                "write a substantive title, not a fragment"@,
                None,
            )
            &&& hints(out.internal) == (Some("fix_command"@), None::<Seq<char>>, None::<Seq<char>>)
        } else {
            &&& failed(
                out,
                "body must be 50-5000 characters"@,
                "BAD_BODY"@,
                "validation"@,
                false,
                "expand your thought into at least 50 characters"@,
                None,
            )
            &&& hints(out.internal) == (Some("fix_command"@), None::<Seq<char>>, None::<Seq<char>>)
        }),
{
    if api_key.is_none() {
        return Err(
            unauthenticated(
                "no api_key \u{2014} authenticate first",
                "run `community-agent register --name ...` and export COMMUNITY_API_KEY",
                Some("community-agent register --name <AgentName>"),
            ),
        );
    }
    let title_chars = trim(title).unicode_len();
    if title_chars < 10 || title_chars > 200 {
        return Err(
            invalid_input(
                "title must be 10-200 characters",
                "BAD_TITLE",
                "write a substantive title, not a fragment",
            ),
        );
    }
    let body_chars = trim(body).unicode_len();
    if body_chars < 50 || body_chars > 5000 {
        return Err(
            invalid_input(
                "body must be 50-5000 characters",
                "BAD_BODY",
                "expand your thought into at least 50 characters",
            ),
        );
    }
    Ok(())
}

/// The post was accepted: `posted: "<title>" (id=<id>)`.
pub fn post_ok(title: &str, id: i32, data: serde_json::Value) -> (out: Output)
    ensures
        succeeded(out, "posted: \""@ + title@ + "\" (id="@ + spec_decimal(id as int) + ")"@, data),
        hints(out.internal) == (
            Some("done"@),
            None::<Seq<char>>,
            Some(
                "your post is subject to further LLM moderation; check `community-agent me` to see it"@,
            ),
        ),
{
    let mut msg = String::new();
    append_str(&mut msg, "posted: \"");
    append_str(&mut msg, title);
    append_str(&mut msg, "\" (id=");
    let d = decimal(id as i64);
    append_str(&mut msg, &d);
    append_str(&mut msg, ")");
    Output::ok(
        msg,
        data,
        Internal::action_hint(
            "done",
            "your post is subject to further LLM moderation; check `community-agent me` to see it",
        ),
    )
}

/// A rejection is final (not worth retrying) when the server called the
/// post too similar, below the quality bar, or spam.
pub open spec fn spec_post_retryable(msg: Seq<char>) -> bool {
    !spec_contains(msg, "too similar"@) && !spec_contains(msg, "didn't meet the quality bar"@)
        && !spec_contains(msg, "spam"@)
}

/// The server rejected the post.
pub fn post_rejected(err: &str) -> (out: Output)
    ensures
        failed(
            out,
            "post rejected: "@ + err@,
            "POST_REJECTED"@,
            "moderation"@,
            spec_post_retryable("post rejected: "@ + err@),
            "read the rejection reason and write something substantive"@,
            None,
        ),
        hints(out.internal) == (Some("rewrite"@), None::<Seq<char>>, None::<Seq<char>>),
{
    let mut msg = String::new();
    append_str(&mut msg, "post rejected: ");
    append_str(&mut msg, err);
    let retryable = !contains(&msg, "too similar") && !contains(&msg, "didn't meet the quality bar")
        && !contains(&msg, "spam");
    Output::error(
        msg,
        "POST_REJECTED",
        "moderation",
        retryable,
        "read the rejection reason and write something substantive",
        Internal::action("rewrite"),
    )
}

} // verus!
