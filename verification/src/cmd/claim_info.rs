//! `claim-info`: the state of an outstanding claim code.

use vstd::prelude::*;
use vstd::utf8::is_char_boundary;

use crate::client::ClaimInfo;
use crate::output::{Internal, Output, failed, hints};
use crate::text::{
    append_str, lemma_utf8_concat, spec_truncate_code, spec_urlencode, truncate_code, urlencoding,
    utf8,
};

verus! {

/// `/api/agents/claim-info?code=<percent-encoded code>`.
pub fn claim_info_path(code: &str) -> (path: String)
    ensures
        path@ == "/api/agents/claim-info?code="@ + spec_urlencode(code@),
{
    let mut p = String::new();
    append_str(&mut p, "/api/agents/claim-info?code=");
    let e = urlencoding(code);
    append_str(&mut p, &e);
    p
}

/// A claim code's state: claimed, else expired, else pending when valid,
/// else unknown.
pub open spec fn spec_claim_state(info: ClaimInfo) -> Seq<char> {
    if info.claimed == Some(true) {
        "CLAIMED"@
    } else if info.expired == Some(true) {
        "EXPIRED"@
    } else if info.valid {
        "PENDING"@
    } else {
        "UNKNOWN"@
    }
}

/// What to do next in each state: wait while pending, nothing once
/// claimed, else get a new code.
pub open spec fn spec_claim_next_action(info: ClaimInfo) -> Seq<char> {
    if info.claimed == Some(true) {
        "done"@
    } else if info.expired == Some(true) {
        "regenerate"@
    } else if info.valid {
        "wait_for_claim"@
    } else {
        "regenerate"@
    }
}

pub fn claim_state(info: &ClaimInfo) -> (state: &'static str)
    ensures
        state@ == spec_claim_state(*info),
{
    if info.claimed == Some(true) {
        "CLAIMED"
    } else if info.expired == Some(true) {
        "EXPIRED"
    } else if info.valid {
        "PENDING"
    } else {
        "UNKNOWN"
    }
}

/// The claim code's state, reported under a shortened code.
pub fn claim_info_ok(code: &str, info: &ClaimInfo, data: serde_json::Value) -> (out: Output)
    requires
        utf8(code@).len() > 20 ==> is_char_boundary(utf8(code@), 20),
    ensures
        out.ok,
        utf8(out.user_message@) == utf8("claim "@) + spec_truncate_code(code@) + utf8(
            " \u{2014} state: "@ + spec_claim_state(*info),
        ),
        out.data == Some(crate::output::Payload::Json(data)),
        out.error is None,
        hints(out.internal) == (Some(spec_claim_next_action(*info)), None::<Seq<char>>, None::<Seq<char>>),
{
    let state = claim_state(info);
    let short = truncate_code(code);
    let mut msg = String::new();
    append_str(&mut msg, "claim ");
    append_str(&mut msg, &short);
    let mut tail = String::new();
    append_str(&mut tail, " \u{2014} state: ");
    append_str(&mut tail, state);
    append_str(&mut msg, &tail);
    proof {
        lemma_utf8_concat("claim "@, short@);
        lemma_utf8_concat("claim "@ + short@, tail@);
    }
    let next = if info.claimed == Some(true) {
        "done"
    } else if info.expired == Some(true) {
        "regenerate"
    } else if info.valid {
        "wait_for_claim"
    } else {
        "regenerate"
    };

    Output::ok(msg, data, Internal::action(next))
}

/// The claim-info request failed.
pub fn claim_info_failed(err: &str) -> (out: Output)
    ensures
        failed(
            out,
            "claim-info failed: "@ + err@,
            "CLAIM_INFO_FAILED"@,
            "server"@,
            true,
            "check the claim code is correct and hasn't been deleted"@,
            None,
        ),
        hints(out.internal) == (Some("fix_command"@), None::<Seq<char>>, None::<Seq<char>>),
{
    let mut msg = String::new();
    append_str(&mut msg, "claim-info failed: ");
    append_str(&mut msg, err);
    Output::error(
        msg,
        "CLAIM_INFO_FAILED",
        "server",
        true,
        "check the claim code is correct and hasn't been deleted",
        Internal::action("fix_command"),
    )
}

} // verus!
