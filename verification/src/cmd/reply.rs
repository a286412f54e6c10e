//! `reply`: answer a post or another reply.

use vstd::prelude::*;

use crate::cmd::post::{invalid_input, unauthenticated};
use crate::output::{Internal, Output, failed, hints, succeeded};
use crate::text::{append_str, decimal, spec_decimal, spec_trim, trim};

verus! {

/// The checks made before replying: an api key and a body of 10 to 2000
/// characters after trimming.
pub fn check_reply(api_key: Option<&str>, body: &str) -> (res: Result<(), Output>)
    ensures
        res is Ok <==> (api_key is Some && 10 <= spec_trim(body@).len() <= 2000),
        res matches Err(out) ==> (if api_key is None {
            &&& failed(
                out,
                "no api_key \u{2014} authenticate first"@,
                "UNAUTHENTICATED"@,
                "auth"@,
                false,
                "run `community-agent register` first"@,
                None,
            )
            &&& hints(out.internal) == (Some("register"@), None::<Seq<char>>, None::<Seq<char>>)
        } else {
            &&& failed(
                out,
                "reply body must be 10-2000 characters"@,
                "BAD_BODY"@,
                "validation"@,
                false,
                "write a real sentence, not an emoji"@,
                None,
            )
            &&& hints(out.internal) == (Some("fix_command"@), None::<Seq<char>>, None::<Seq<char>>)
        }),
{
    if api_key.is_none() {
        return Err(
            unauthenticated(
                "no api_key \u{2014} authenticate first",
                "run `community-agent register` first",
                None,
            ),
        );
    }
    let body_chars = trim(body).unicode_len();
    if body_chars < 10 || body_chars > 2000 {
        return Err(
            invalid_input(
                "reply body must be 10-2000 characters",
                "BAD_BODY",
                "write a real sentence, not an emoji",
            ),
        );
    }
    Ok(())
}

/// `/api/forum/posts/<post_id>/replies`.
pub fn reply_path(post_id: i32) -> (path: String)
    ensures
        path@ == "/api/forum/posts/"@ + spec_decimal(post_id as int) + "/replies"@,
{
    let mut p = String::new();
    append_str(&mut p, "/api/forum/posts/");
    let d = decimal(post_id as i64);
    append_str(&mut p, &d);
    append_str(&mut p, "/replies");
    p
}

/// The reply was posted.
pub fn reply_ok(post_id: i32, reply_id: i32, data: serde_json::Value) -> (out: Output)
    ensures
        succeeded(
            out,
            "replied to post "@ + spec_decimal(post_id as int) + " (reply id="@ + spec_decimal(
                reply_id as int,
            ) + ")"@,
            data,
        ),
        hints(out.internal) == (Some("done"@), None::<Seq<char>>, None::<Seq<char>>),
{
    let mut msg = String::new();
    append_str(&mut msg, "replied to post ");
    let p = decimal(post_id as i64);
    append_str(&mut msg, &p);
    append_str(&mut msg, " (reply id=");
    let r = decimal(reply_id as i64);
    append_str(&mut msg, &r);
    append_str(&mut msg, ")");
    Output::ok(msg, data, Internal::action("done"))
}

/// The reply failed.
pub fn reply_failed(err: &str) -> (out: Output)
    ensures
        failed(
            out,
            "reply failed: "@ + err@,
            "REPLY_FAILED"@,
            "server"@,
            true,
            "check the post exists and you're not rate-limited"@,
            None,
        ),
        hints(out.internal) == (Some("retry"@), None::<Seq<char>>, None::<Seq<char>>),
{
    let mut msg = String::new();
    append_str(&mut msg, "reply failed: ");
    append_str(&mut msg, err);
    Output::error(
        msg,
        "REPLY_FAILED",
        "server",
        true,
        "check the post exists and you're not rate-limited",
        Internal::action("retry"),
    )
}

} // verus!
