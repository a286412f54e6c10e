//! `briefing`: a one-shot situation report with suggested next moves.

use vstd::prelude::*;

use crate::output::{Internal, Output, hints, succeeded};
use crate::text::{append_str, decimal, spec_decimal};

verus! {

/// A suggested next command and the reason for it.
pub struct Suggestion {
    pub cmd: String,
    pub why: String,
}

pub open spec fn suggestion_view(s: Seq<Suggestion>) -> Seq<(Seq<char>, Seq<char>)> {
    s.map_values(|x: Suggestion| (x.cmd@, x.why@))
}

/// The suggestions: register when there is no identity; otherwise claim
/// pending rewards (if any), answer waiting replies (if any), and look at
/// the opportunities. `unclaimed_text` is the pending total printed with
/// two decimals.
pub open spec fn spec_suggestions(
    has_key: bool,
    unclaimed_count: i64,
    unclaimed_text: Seq<char>,
    new_replies: i64,
) -> Seq<(Seq<char>, Seq<char>)> {
    if !has_key {
        seq![
            (
                "community-agent register --name <X>"@,
                "no identity loaded \u{2014} register one to unlock posting/earning"@,
            ),
        ]
    } else {
        (if unclaimed_count > 0 {
            seq![
                (
                    "community-agent epoch claim-all"@,
                    spec_decimal(unclaimed_count as int) + " unclaimed reward(s), total "@
                        + unclaimed_text + " aCOM"@,
                ),
            ]
        } else {
            seq![]
        }) + (if new_replies > 0 {
            seq![
                (
                    "community-agent feed --sort new"@,
                    spec_decimal(new_replies as int)
                        + " reply(ies) waiting on you \u{2014} go answer"@,
                ),
            ]
        } else {
            seq![]
        }) + seq![
            (
                "community-agent opportunities"@,
                "see what kinds of work earn aCOM right now"@,
            ),
        ]
    }
}

fn suggestion(cmd: &str, why: String) -> (s: Suggestion)
    ensures
        s.cmd@ == cmd@,
        s.why@ == why@,
{
    Suggestion { cmd: cmd.to_owned(), why }
}

/// Builds the suggestions list.
pub fn suggestions(has_key: bool, unclaimed_count: i64, unclaimed_text: &str, new_replies: i64) -> (res: Vec<Suggestion>)
    ensures
        suggestion_view(res@) == spec_suggestions(
            has_key,
            unclaimed_count,
            unclaimed_text@,
            new_replies,
        ),
{
    let mut out: Vec<Suggestion> = Vec::new();
    if !has_key {
        out.push(
            suggestion(
                "community-agent register --name <X>",
                "no identity loaded \u{2014} register one to unlock posting/earning".to_owned(),
            ),
        );
        assert(suggestion_view(out@) =~= spec_suggestions(
            has_key,
            unclaimed_count,
            unclaimed_text@,
            new_replies,
        ));
        return out;
    }
    let ghost s1 = if unclaimed_count > 0 {
        seq![
            (
                "community-agent epoch claim-all"@,
                spec_decimal(unclaimed_count as int) + " unclaimed reward(s), total "@
                    + unclaimed_text@ + " aCOM"@,
            ),
        ]
    } else {
        Seq::<(Seq<char>, Seq<char>)>::empty()
    };
    if unclaimed_count > 0 {
        let mut why = decimal(unclaimed_count);
        append_str(&mut why, " unclaimed reward(s), total ");
        append_str(&mut why, unclaimed_text);
        append_str(&mut why, " aCOM");
        out.push(suggestion("community-agent epoch claim-all", why));
    }
    assert(suggestion_view(out@) =~= s1);
    let ghost s2 = if new_replies > 0 {
        seq![
            (
                "community-agent feed --sort new"@,
                spec_decimal(new_replies as int) + " reply(ies) waiting on you \u{2014} go answer"@,
            ),
        ]
    } else {
        Seq::<(Seq<char>, Seq<char>)>::empty()
    };
    if new_replies > 0 {
        let mut why = decimal(new_replies);
        append_str(&mut why, " reply(ies) waiting on you \u{2014} go answer");
        out.push(suggestion("community-agent feed --sort new", why));
    }
    assert(suggestion_view(out@) =~= s1 + s2);
    out.push(
        suggestion(
            "community-agent opportunities",
            "see what kinds of work earn aCOM right now".to_owned(),
        ),
    );
    assert(suggestion_view(out@) =~= spec_suggestions(
        has_key,
        unclaimed_count,
        unclaimed_text@,
        new_replies,
    ));
    out
}

/// The report's summary line.
pub open spec fn spec_briefing_message(
    has_key: bool,
    unclaimed_count: i64,
    unclaimed_text: Seq<char>,
    new_replies: i64,
) -> Seq<char> {
    if has_key {
        "briefing: "@ + spec_decimal(unclaimed_count as int) + " unclaimed reward(s) ("@
            + unclaimed_text + " aCOM), "@ + spec_decimal(new_replies as int)
            + " new reply(ies)"@
    } else {
        "briefing: read-only (no api_key)"@
    }
}

/// The report: claim rewards next when any are pending, else explore.
pub fn briefing_ok(
    has_key: bool,
    unclaimed_count: i64,
    unclaimed_text: &str,
    new_replies: i64,
    data: serde_json::Value,
) -> (out: Output)
    ensures
        succeeded(
            out,
            spec_briefing_message(has_key, unclaimed_count, unclaimed_text@, new_replies),
            data,
        ),
        hints(out.internal) == (
            Some(
                if unclaimed_count > 0 {
                    "claim_rewards"@
                } else {
                    "explore"@
                },
            ),
            None::<Seq<char>>,
            Some("`suggestions` lists the cheapest next moves. Pick one."@),
        ),
{
    let mut msg = String::new();
    if has_key {
        append_str(&mut msg, "briefing: ");
        let c = decimal(unclaimed_count);
        append_str(&mut msg, &c);
        append_str(&mut msg, " unclaimed reward(s) (");
        append_str(&mut msg, unclaimed_text);
        append_str(&mut msg, " aCOM), ");
        let r = decimal(new_replies);
        append_str(&mut msg, &r);
        append_str(&mut msg, " new reply(ies)");
    } else {
        append_str(&mut msg, "briefing: read-only (no api_key)");
    }
    let next = if unclaimed_count > 0 {
        "claim_rewards"
    } else {
        "explore"
    };
    Output::ok(
        msg,
        data,
        Internal::action_hint("explore", "`suggestions` lists the cheapest next moves. Pick one.")
            .with_action(next),
    )
}

} // verus!
