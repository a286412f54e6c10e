//! `contribute submit` / `contribute me`: contributions and their review
//! state.

use vstd::prelude::*;

use crate::output::{Internal, Output, failed, hints, succeeded};
use crate::text::{append_str, decimal, decimal_u64, spec_decimal, str_eq};

verus! {

/// The contribution types the server accepts, listed in help and hints.
pub open spec fn valid_types_text() -> Seq<char> {
    "skill, module_pr, bug_fix, bug_report, code_review, tutorial, skill_review, peer_review, translation, governance_vote, governance_proposal, forum_post, forum_reply"@
}

/// A submitted contribution's status, `?` when the server gave none.
pub fn submit_status(status: Option<&str>) -> (res: String)
    ensures
        res@ == match status {
            Some(s) => s@,
            None => "?"@,
        },
{
    match status {
        Some(s) => s.to_owned(),
        None => "?".to_owned(),
    }
}

/// The contribution was recorded (`score_text` is its base score printed
/// with two decimals); done when already approved, else awaiting review.
pub fn submit_ok(status: &str, score_text: &str, data: serde_json::Value) -> (out: Output)
    ensures
        succeeded(
            out,
            "contribution submitted (status="@ + status@ + ", base_score="@ + score_text@ + ")"@,
            data,
        ),
        hints(out.internal) == (
            Some(
                if status@ == "approved"@ {
                    "done"@
                } else {
                    "wait_review"@
                },
            ),
            None::<Seq<char>>,
            Some(
                "score is provisional until an admin reviews. Run `contribute me` later to check."@,
            ),
        ),
{
    let next = if str_eq(status, "approved") {
        "done"
    } else {
        "wait_review"
    };
    let mut msg = String::new();
    append_str(&mut msg, "contribution submitted (status=");
    append_str(&mut msg, status);
    append_str(&mut msg, ", base_score=");
    append_str(&mut msg, score_text);
    append_str(&mut msg, ")");
    Output::ok(
        msg,
        data,
        Internal::action_hint(
            next,
            "score is provisional until an admin reviews. Run `contribute me` later to check.",
        ),
    )
}

/// The server refused the contribution; the hint lists the valid types.
pub fn submit_failed(err: &str) -> (out: Output)
    ensures
        failed(
            out,
            "submit failed: "@ + err@,
            "SUBMIT_FAILED"@,
            "server"@,
            true,
            "valid types: "@ + valid_types_text()
                + ". title is required, description+reference_url optional."@,
            None,
        ),
        hints(out.internal) == (Some("fix_command"@), None::<Seq<char>>, None::<Seq<char>>),
{
    let mut msg = String::new();
    append_str(&mut msg, "submit failed: ");
    append_str(&mut msg, err);
    let mut hint = String::new();
    append_str(&mut hint, "valid types: ");
    append_str(
        &mut hint,
        "skill, module_pr, bug_fix, bug_report, code_review, tutorial, skill_review, peer_review, translation, governance_vote, governance_proposal, forum_post, forum_reply",
    );
    append_str(&mut hint, ". title is required, description+reference_url optional.");
    Output::error(msg, "SUBMIT_FAILED", "server", true, hint.as_str(), Internal::action("fix_command"))
}

/// Page sizes are kept between 1 and 100.
pub fn contributions_limit(limit: u32) -> (res: u32)
    ensures
        res == if limit < 1 {
            1
        } else if limit > 100 {
            100
        } else {
            limit
        },
{
    if limit < 1 {
        1
    } else if limit > 100 {
        100
    } else {
        limit
    }
}

/// `/api/contributions/me?limit=<limit clamped to 1..=100>`.
pub fn contributions_path(limit: u32) -> (path: String)
    ensures
        path@ == "/api/contributions/me?limit="@ + spec_decimal(
            (if limit < 1 {
                1
            } else if limit > 100 {
                100
            } else {
                limit
            }) as int,
        ),
{
    let mut p = String::new();
    append_str(&mut p, "/api/contributions/me?limit=");
    let d = decimal_u64(contributions_limit(limit) as u64);
    append_str(&mut p, &d);
    p
}

/// The agent's contributions: `<total> total contribution(s)`.
pub fn contributions_ok(total: i64, data: serde_json::Value) -> (out: Output)
    ensures
        succeeded(out, spec_decimal(total as int) + " total contribution(s)"@, data),
        hints(out.internal) == (Some("done"@), None::<Seq<char>>, None::<Seq<char>>),
{
    let mut msg = decimal(total);
    append_str(&mut msg, " total contribution(s)");
    Output::ok(msg, data, Internal::action("done"))
}

} // verus!
