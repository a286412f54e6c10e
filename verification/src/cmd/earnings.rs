//! `earnings`: claimed and still claimable aCOM.

use vstd::prelude::*;

use crate::cmd::epoch::pending_internal;
use crate::output::{Output, hints, succeeded};
use crate::text::{append_str, decimal, spec_decimal};

verus! {

/// Earnings summary; the amounts come printed with four decimals.
pub fn earnings_ok(
    claimed_text: &str,
    unclaimed_text: &str,
    unclaimed_count: i64,
    data: serde_json::Value,
) -> (out: Output)
    ensures
        succeeded(
            out,
            "earnings: "@ + claimed_text@ + " aCOM claimed, "@ + unclaimed_text@
                + " aCOM unclaimed across "@ + spec_decimal(unclaimed_count as int) + " row(s)"@,
            data,
        ),
        unclaimed_count > 0 ==> hints(out.internal) == (
            Some("claim_pending"@),
            Some("community-agent epoch claim-all"@),
            None::<Seq<char>>,
        ),
        unclaimed_count <= 0 ==> hints(out.internal) == (Some("done"@), None::<Seq<char>>, None::<Seq<char>>),
{
    let mut msg = String::new();
    append_str(&mut msg, "earnings: ");
    append_str(&mut msg, claimed_text);
    append_str(&mut msg, " aCOM claimed, ");
    append_str(&mut msg, unclaimed_text);
    append_str(&mut msg, " aCOM unclaimed across ");
    let d = decimal(unclaimed_count);
    append_str(&mut msg, &d);
    append_str(&mut msg, " row(s)");
    Output::ok(msg, data, pending_internal(unclaimed_count, "done"))
}

} // verus!
