//! Epoch rewards: listing epochs, the agent's claims, claiming one row
//! and claiming every unclaimed row in one pass.

use vstd::prelude::*;

use crate::output::{Internal, Output, failed, hints, succeeded};
use crate::text::{append_str, decimal, decimal_u64, spec_decimal, str_eq};

verus! {

/// What the claim-all pass reads from one row of `my-claims`.
pub struct ClaimRow {
    /// The row's `claimed` flag, when it is a boolean.
    pub claimed: Option<bool>,
    /// The row's `epoch_id`, when it is an integer.
    pub epoch_id: Option<i64>,
    /// The row's `pool_type`, when it is a string.
    pub pool_type: Option<String>,
}

/// A row is claimed only when it says `claimed: false`; a row without the
/// flag counts as settled.
pub open spec fn spec_is_unclaimed(r: ClaimRow) -> bool {
    r.claimed == Some(false)
}

/// Positions of the unclaimed rows, in order.
pub open spec fn spec_unclaimed_indices(rows: Seq<ClaimRow>) -> Seq<usize>
    decreases rows.len(),
{
    if rows.len() == 0 {
        seq![]
    } else if spec_is_unclaimed(rows.last()) {
        spec_unclaimed_indices(rows.drop_last()).push((rows.len() - 1) as usize)
    } else {
        spec_unclaimed_indices(rows.drop_last())
    }
}

/// The rows `claim-all` will claim: exactly the unclaimed ones, in order.
pub fn unclaimed_indices(rows: &Vec<ClaimRow>) -> (res: Vec<usize>)
    ensures
        res@ == spec_unclaimed_indices(rows@),
        forall|i: int|
            0 <= i < rows@.len() ==> (#[trigger] rows@[i].claimed == Some(false) <==> res@.contains(
                i as usize,
            )),
        forall|k: int| 0 <= k < res@.len() ==> #[trigger] res@[k] < rows@.len(),
{
    let mut out: Vec<usize> = Vec::new();
    let mut i: usize = 0;
    while i < rows.len()
        invariant
            i <= rows@.len(),
            out@ == spec_unclaimed_indices(rows@.take(i as int)),
        decreases rows@.len() - i,
    {
        proof {
            let t = rows@.take(i + 1);
            assert(t.drop_last() =~= rows@.take(i as int));
            assert(t.last() == rows@[i as int]);
        }
        let unclaimed = match rows[i].claimed {
            Some(c) => !c,
            None => false,
        };
        if unclaimed {
            out.push(i);
        }
        i = i + 1;
    }
    assert(rows@.take(rows@.len() as int) =~= rows@);
    proof {
        law_claim_all_selects_claimed_false(rows@);
    }
    out
}

/// Law: claim-all never claims a row again: every position it claims is a
/// row marked `claimed: false`, positions come in increasing order (each
/// row at most once), and every row marked `claimed: false` is claimed.
pub proof fn law_claim_all_skips_settled(rows: Seq<ClaimRow>)
    requires
        rows.len() <= usize::MAX,
    ensures
        forall|k: int|
            0 <= k < spec_unclaimed_indices(rows).len() ==> #[trigger] spec_unclaimed_indices(
                rows,
            )[k] < rows.len() && spec_is_unclaimed(rows[spec_unclaimed_indices(rows)[k] as int]),
        forall|k: int, l: int|
            0 <= k < l < spec_unclaimed_indices(rows).len() ==> #[trigger] spec_unclaimed_indices(
                rows,
            )[k] < #[trigger] spec_unclaimed_indices(rows)[l],
        forall|i: int|
            0 <= i < rows.len() && spec_is_unclaimed(#[trigger] rows[i]) ==> spec_unclaimed_indices(
                rows,
            ).contains(i as usize),
    decreases rows.len(),
{
    if rows.len() > 0 {
        let front = rows.drop_last();
        law_claim_all_skips_settled(front);
        let f = spec_unclaimed_indices(front);
        let r = spec_unclaimed_indices(rows);
        let last = (rows.len() - 1) as usize;
        assert forall|i: int| 0 <= i < front.len() implies rows[i] == #[trigger] front[i] by {}
        if spec_is_unclaimed(rows.last()) {
            assert(r == f.push(last));
            assert forall|k: int| 0 <= k < r.len() implies #[trigger] r[k] < rows.len()
                && spec_is_unclaimed(rows[r[k] as int]) by {
                if k < f.len() {
                    assert(r[k] == f[k]);
                    assert(front[f[k] as int] == rows[f[k] as int]);
                }
            }
            assert forall|k: int, l: int| 0 <= k < l < r.len() implies #[trigger] r[k]
                < #[trigger] r[l] by {
                assert(r[k] == f[k]);
                if l < f.len() {
                    assert(r[l] == f[l]);
                }
            }
            assert forall|i: int|
                0 <= i < rows.len() && spec_is_unclaimed(#[trigger] rows[i]) implies r.contains(
                i as usize,
            ) by {
                if i < rows.len() - 1 {
                    assert(front[i] == rows[i]);
                    assert(f.contains(i as usize));
                    let k = choose|k: int| 0 <= k < f.len() && f[k] == i as usize;
                    assert(r[k] == i as usize);
                } else {
                    assert(r[f.len() as int] == i as usize);
                }
            }
        } else {
            assert(r == f);
            assert forall|k: int| 0 <= k < r.len() implies #[trigger] r[k] < rows.len()
                && spec_is_unclaimed(rows[r[k] as int]) by {
                assert(front[f[k] as int] == rows[f[k] as int]);
            }
            assert forall|i: int|
                0 <= i < rows.len() && spec_is_unclaimed(#[trigger] rows[i]) implies r.contains(
                i as usize,
            ) by {
                assert(i < rows.len() - 1);
                assert(front[i] == rows[i]);
            }
        }
    }
}

/// Where claim-all's rows went: the rows claimed now and the rows whose
/// claim failed, each in the order they were tried.
#[derive(Debug)]
pub struct ClaimTally {
    pub claimed: Vec<usize>,
    pub failed: Vec<usize>,
}

/// The tally after trying `rows` in order, `oks[k]` telling whether the
/// claim of `rows[k]` went through.
pub open spec fn spec_tally(rows: Seq<usize>, oks: Seq<bool>) -> (Seq<usize>, Seq<usize>)
    decreases rows.len(),
{
    if rows.len() == 0 || oks.len() != rows.len() {
        (seq![], seq![])
    } else {
        let (c, f) = spec_tally(rows.drop_last(), oks.drop_last());
        if oks.last() {
            (c.push(rows.last()), f)
        } else {
            (c, f.push(rows.last()))
        }
    }
}

impl ClaimTally {
    /// Nothing tried yet.
    pub fn new() -> (t: ClaimTally)
        ensures
            t.claimed@ == Seq::<usize>::empty(),
            t.failed@ == Seq::<usize>::empty(),
    {
        ClaimTally { claimed: Vec::new(), failed: Vec::new() }
    }

    /// Records the outcome of claiming `row`: claimed when `ok`, else
    /// failed.
    pub fn record(&mut self, row: usize, ok: bool)
        ensures
            ok ==> final(self).claimed@ == old(self).claimed@.push(row) && final(self).failed@
                == old(self).failed@,
            !ok ==> final(self).failed@ == old(self).failed@.push(row) && final(self).claimed@
                == old(self).claimed@,
    {
        if ok {
            self.claimed.push(row);
        } else {
            self.failed.push(row);
        }
    }
}

/// `row` was tried and its claim's outcome was `ok`.
pub open spec fn tried_with(rows: Seq<usize>, oks: Seq<bool>, row: usize, ok: bool) -> bool {
    exists|k: int| 0 <= k < rows.len() && rows[k] == row && oks[k] == ok
}

proof fn lemma_tally_sources(rows: Seq<usize>, oks: Seq<bool>)
    requires
        rows.len() == oks.len(),
    ensures
        forall|i: int|
            0 <= i < spec_tally(rows, oks).0.len() ==> tried_with(
                rows,
                oks,
                #[trigger] spec_tally(rows, oks).0[i],
                true,
            ),
        forall|i: int|
            0 <= i < spec_tally(rows, oks).1.len() ==> tried_with(
                rows,
                oks,
                #[trigger] spec_tally(rows, oks).1[i],
                false,
            ),
    decreases rows.len(),
{
    if rows.len() > 0 {
        let r0 = rows.drop_last();
        let o0 = oks.drop_last();
        lemma_tally_sources(r0, o0);
        let c = spec_tally(r0, o0).0;
        let f = spec_tally(r0, o0).1;
        let c1 = spec_tally(rows, oks).0;
        let f1 = spec_tally(rows, oks).1;
        let n = rows.len() - 1;
        assert(rows.last() == rows[n] && oks.last() == oks[n]);
        if oks[n] {
            assert(c1 == c.push(rows[n]) && f1 == f);
        } else {
            assert(c1 == c && f1 == f.push(rows[n]));
        }
        assert forall|i: int| 0 <= i < c1.len() implies tried_with(rows, oks, #[trigger] c1[i], true) by {
            if i < c.len() {
                assert(c1[i] == c[i]);
                assert(tried_with(r0, o0, c[i], true));
                let k = choose|k: int| 0 <= k < r0.len() && r0[k] == c[i] && o0[k] == true;
                assert(rows[k] == r0[k] && oks[k] == o0[k]);
            } else {
                assert(rows[n] == c1[i] && oks[n] == true);
            }
        }
        assert forall|i: int| 0 <= i < f1.len() implies tried_with(rows, oks, #[trigger] f1[i], false) by {
            if i < f.len() {
                assert(f1[i] == f[i]);
                assert(tried_with(r0, o0, f[i], false));
                let k = choose|k: int| 0 <= k < r0.len() && r0[k] == f[i] && o0[k] == false;
                assert(rows[k] == r0[k] && oks[k] == o0[k]);
            } else {
                assert(rows[n] == f1[i] && oks[n] == false);
            }
        }
    }
}

proof fn lemma_tally_counts(rows: Seq<usize>, oks: Seq<bool>)
    requires
        rows.len() == oks.len(),
    ensures
        spec_tally(rows, oks).0.len() + spec_tally(rows, oks).1.len() == rows.len(),
        spec_tally(rows, oks).0.to_multiset().add(spec_tally(rows, oks).1.to_multiset())
            == rows.to_multiset(),
    decreases rows.len(),
{
    broadcast use vstd::seq_lib::group_to_multiset_ensures;

    if rows.len() == 0 {
        assert(rows.to_multiset() =~= vstd::multiset::Multiset::empty());
    } else {
        let r0 = rows.drop_last();
        let o0 = oks.drop_last();
        lemma_tally_counts(r0, o0);
        assert(rows =~= r0.push(rows.last()));
        let c = spec_tally(r0, o0).0;
        let f = spec_tally(r0, o0).1;
        if oks.last() {
            assert(c.push(rows.last()).to_multiset().add(f.to_multiset()) =~= c.to_multiset().add(
                f.to_multiset(),
            ).insert(rows.last()));
        } else {
            assert(c.to_multiset().add(f.push(rows.last()).to_multiset()) =~= c.to_multiset().add(
                f.to_multiset(),
            ).insert(rows.last()));
        }
    }
}

/// Law: claim-all's outcome split partitions the rows it tried: every row
/// is either claimed or failed, never both and never lost, a claimed row
/// is one whose claim went through and a failed row one whose claim did
/// not.
pub proof fn law_claim_tally_partition(rows: Seq<usize>, oks: Seq<bool>)
    requires
        rows.len() == oks.len(),
    ensures
        spec_tally(rows, oks).0.len() + spec_tally(rows, oks).1.len() == rows.len(),
        spec_tally(rows, oks).0.to_multiset().add(spec_tally(rows, oks).1.to_multiset())
            == rows.to_multiset(),
        forall|i: int|
            0 <= i < spec_tally(rows, oks).0.len() ==> tried_with(
                rows,
                oks,
                #[trigger] spec_tally(rows, oks).0[i],
                true,
            ),
        forall|i: int|
            0 <= i < spec_tally(rows, oks).1.len() ==> tried_with(
                rows,
                oks,
                #[trigger] spec_tally(rows, oks).1[i],
                false,
            ),
{
    lemma_tally_counts(rows, oks);
    lemma_tally_sources(rows, oks);
}

/// Law: claim-all selects a row exactly when its `claimed` flag is
/// `false`, whatever its pool and epoch; a row without the flag, or
/// marked claimed, is never selected.
pub proof fn law_claim_all_selects_claimed_false(rows: Seq<ClaimRow>)
    requires
        rows.len() <= usize::MAX,
    ensures
        forall|i: int|
            0 <= i < rows.len() ==> (#[trigger] rows[i].claimed == Some(false)
                <==> spec_unclaimed_indices(rows).contains(i as usize)),
        forall|k: int|
            0 <= k < spec_unclaimed_indices(rows).len() ==> #[trigger] spec_unclaimed_indices(
                rows,
            )[k] < rows.len(),
{
    law_claim_all_skips_settled(rows);
    let r = spec_unclaimed_indices(rows);
    assert forall|i: int| 0 <= i < rows.len() implies (#[trigger] rows[i].claimed == Some(false)
        <==> r.contains(i as usize)) by {
        if r.contains(i as usize) {
            let k = choose|k: int| 0 <= k < r.len() && r[k] == i as usize;
            assert(spec_is_unclaimed(rows[r[k] as int]));
            assert(r[k] as int == i);
        }
        if rows[i].claimed == Some(false) {
            assert(spec_is_unclaimed(rows[i]));
        }
    }
}

/// The epoch id a row is claimed under: its `epoch_id` (0 when missing),
/// truncated to 32 bits.
pub fn row_epoch_id(row: &ClaimRow) -> (id: i32)
    ensures
        id == (match row.epoch_id {
            Some(e) => e,
            None => 0,
        }) as i32,
{
    match row.epoch_id {
        Some(e) => e as i32,
        None => 0,
    }
}

/// The pool a row is claimed from: its `pool_type`, else `active`.
pub fn row_pool(row: &ClaimRow) -> (pool: String)
    ensures
        pool@ == match row.pool_type {
            Some(p) => p@,
            None => "active"@,
        },
{
    match &row.pool_type {
        Some(p) => p.clone(),
        None => "active".to_owned(),
    }
}

/// `/api/epochs/<id>/claim`.
pub fn claim_path(id: i32) -> (path: String)
    ensures
        path@ == "/api/epochs/"@ + spec_decimal(id as int) + "/claim"@,
{
    let mut p = String::new();
    append_str(&mut p, "/api/epochs/");
    let d = decimal(id as i64);
    append_str(&mut p, &d);
    append_str(&mut p, "/claim");
    p
}

/// A command that needs an api key was run without one.
pub fn no_api_key(user_message: &str, hint: &str) -> (out: Output)
    ensures
        failed(out, user_message@, "NO_API_KEY"@, "auth"@, false, hint@, None),
        hints(out.internal) == (Some("register"@), None::<Seq<char>>, None::<Seq<char>>),
{
    Output::error(user_message.to_owned(), "NO_API_KEY", "auth", false, hint, Internal::action("register"))
}

/// Only the `active` and `royalty` pools can be claimed.
pub fn check_pool(pool: &str) -> (res: Result<(), Output>)
    ensures
        res is Ok <==> (pool@ == "active"@ || pool@ == "royalty"@),
        res matches Err(out) ==> failed(
            out,
            "invalid pool: "@ + pool@,
            "BAD_POOL"@,
            "validation"@,
            false,
            "pool must be 'active' or 'royalty'"@,
            None,
        ) && hints(out.internal) == (Some("fix_command"@), None::<Seq<char>>, None::<Seq<char>>),
{
    if str_eq(pool, "active") || str_eq(pool, "royalty") {
        return Ok(());
    }
    let mut msg = String::new();
    append_str(&mut msg, "invalid pool: ");
    append_str(&mut msg, pool);
    Err(
        Output::error(
            msg,
            "BAD_POOL",
            "validation",
            false,
            "pool must be 'active' or 'royalty'",
            Internal::action("fix_command"),
        ),
    )
}

/// A single claim went through.
pub fn claim_ok(id: i32, pool: &str, data: serde_json::Value) -> (out: Output)
    ensures
        succeeded(out, "claimed epoch "@ + spec_decimal(id as int) + " pool="@ + pool@, data),
        hints(out.internal) == (Some("done"@), None::<Seq<char>>, None::<Seq<char>>),
{
    let mut msg = String::new();
    append_str(&mut msg, "claimed epoch ");
    let d = decimal(id as i64);
    append_str(&mut msg, &d);
    append_str(&mut msg, " pool=");
    append_str(&mut msg, pool);
    Output::ok(msg, data, Internal::action("done"))
}

/// A single claim was refused by the server.
pub fn claim_failed(err: &str) -> (out: Output)
    ensures
        failed(
            out,
            "claim failed: "@ + err@,
            "CLAIM_FAILED"@,
            "server"@,
            true,
            "if 'already claimed', the row is settled \u{2014} nothing to do"@,
            None,
        ),
        hints(out.internal) == (Some("retry"@), None::<Seq<char>>, None::<Seq<char>>),
{
    let mut msg = String::new();
    append_str(&mut msg, "claim failed: ");
    append_str(&mut msg, err);
    Output::error(
        msg,
        "CLAIM_FAILED",
        "server",
        true,
        "if 'already claimed', the row is settled \u{2014} nothing to do",
        Internal::action("retry"),
    )
}

/// `epoch list`: how many epochs came back.
pub fn list_ok(count: usize, data: serde_json::Value) -> (out: Output)
    ensures
        succeeded(out, spec_decimal(count as int) + " epoch(s) returned"@, data),
        hints(out.internal) == (Some("done"@), None::<Seq<char>>, None::<Seq<char>>),
{
    let mut msg = decimal_u64(count as u64);
    append_str(&mut msg, " epoch(s) returned");
    Output::ok(msg, data, Internal::action("done"))
}

/// `epoch current`.
pub fn current_ok(data: serde_json::Value) -> (out: Output)
    ensures
        succeeded(out, "current epoch"@, data),
        hints(out.internal) == (Some("done"@), None::<Seq<char>>, None::<Seq<char>>),
{
    Output::ok("current epoch".to_owned(), data, Internal::action("done"))
}

/// What to suggest after reading the agent's claims: claim them when any
/// are pending, else `zero_action`.
pub fn pending_internal(unclaimed_count: i64, zero_action: &str) -> (res: Internal)
    ensures
        unclaimed_count > 0 ==> hints(res) == (
            Some("claim_pending"@),
            Some("community-agent epoch claim-all"@),
            None::<Seq<char>>,
        ),
        unclaimed_count <= 0 ==> hints(res) == (Some(zero_action@), None::<Seq<char>>, None::<Seq<char>>),
{
    if unclaimed_count > 0 {
        Internal {
            next_action: Some("claim_pending".to_owned()),
            next_command: Some("community-agent epoch claim-all".to_owned()),
            hint: None,
        }
    } else {
        Internal::action(zero_action)
    }
}

/// `epoch my`: the pending rows and their total (`total_text` is the
/// total already printed with four decimals).
pub fn my_ok(unclaimed_count: i64, total_text: &str, data: serde_json::Value) -> (out: Output)
    ensures
        succeeded(
            out,
            spec_decimal(unclaimed_count as int) + " unclaimed row(s), "@ + total_text@ + " aCOM"@,
            data,
        ),
        unclaimed_count > 0 ==> hints(out.internal) == (
            Some("claim_pending"@),
            Some("community-agent epoch claim-all"@),
            None::<Seq<char>>,
        ),
        unclaimed_count <= 0 ==> hints(out.internal) == (Some("nothing_to_claim"@), None::<Seq<char>>, None::<Seq<char>>),
{
    let mut msg = decimal(unclaimed_count);
    append_str(&mut msg, " unclaimed row(s), ");
    append_str(&mut msg, total_text);
    append_str(&mut msg, " aCOM");
    Output::ok(msg, data, pending_internal(unclaimed_count, "nothing_to_claim"))
}

/// The claims list could not be read.
pub fn my_claims_failed(err: &str) -> (out: Output)
    ensures
        failed(
            out,
            "could not list claims: "@ + err@,
            "MY_CLAIMS_FAILED"@,
            "server"@,
            true,
            "retry after a moment"@,
            None,
        ),
        hints(out.internal) == (Some("retry"@), None::<Seq<char>>, None::<Seq<char>>),
{
    let mut msg = String::new();
    append_str(&mut msg, "could not list claims: ");
    append_str(&mut msg, err);
    Output::error(
        msg,
        "MY_CLAIMS_FAILED",
        "server",
        true,
        "retry after a moment",
        Internal::action("retry"),
    )
}

/// `claim-all` with nothing pending.
pub fn claim_all_nothing(data: serde_json::Value) -> (out: Output)
    ensures
        succeeded(out, "nothing to claim \u{2014} all rows already settled"@, data),
        hints(out.internal) == (Some("done"@), None::<Seq<char>>, None::<Seq<char>>),
{
    Output::ok(
        "nothing to claim \u{2014} all rows already settled".to_owned(),
        data,
        Internal::action("done"),
    )
}

/// The summary of a claim-all pass (`total_text` is the claimed total
/// printed with four decimals).
pub open spec fn spec_claim_all_message(claimed: nat, failures: nat, total_text: Seq<char>) -> Seq<
    char,
> {
    if failures == 0 {
        "claimed "@ + spec_decimal(claimed as int) + " row(s), total "@ + total_text + " aCOM"@
    } else {
        "claimed "@ + spec_decimal(claimed as int) + " row(s) ("@ + total_text + " aCOM); "@
            + spec_decimal(failures as int) + " failure(s)"@
    }
}

/// `claim-all` after the pass: done when nothing failed, else the
/// failures are to be reviewed.
pub fn claim_all_done(claimed: usize, failures: usize, total_text: &str, data: serde_json::Value) -> (out: Output)
    ensures
        succeeded(out, spec_claim_all_message(claimed as nat, failures as nat, total_text@), data),
        failures == 0 ==> hints(out.internal) == (Some("done"@), None::<Seq<char>>, None::<Seq<char>>),
        failures > 0 ==> hints(out.internal) == (Some("review_failures"@), None::<Seq<char>>, None::<Seq<char>>),
{
    let mut msg = String::new();
    append_str(&mut msg, "claimed ");
    let c = decimal_u64(claimed as u64);
    append_str(&mut msg, &c);
    if failures == 0 {
        append_str(&mut msg, " row(s), total ");
        append_str(&mut msg, total_text);
        append_str(&mut msg, " aCOM");
        Output::ok(msg, data, Internal::action("done"))
    } else {
        append_str(&mut msg, " row(s) (");
        append_str(&mut msg, total_text);
        append_str(&mut msg, " aCOM); ");
        let f = decimal_u64(failures as u64);
        append_str(&mut msg, &f);
        append_str(&mut msg, " failure(s)");
        Output::ok(msg, data, Internal::action("review_failures"))
    }
}

} // verus!
