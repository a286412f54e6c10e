//! `feed`: the latest forum posts, shortened for display.

use vstd::prelude::*;
use vstd::utf8::is_char_boundary;

use crate::client::Post;
use crate::output::{Internal, Output, failed, hints, succeeded};
use crate::text::{
    append_str, decimal, decimal_u64, short_addr, spec_decimal, spec_short_addr, spec_truncate,
    str_eq, truncate, utf8,
};

verus! {

/// The sort orders the server knows.
pub open spec fn valid_sort(sort: Seq<char>) -> bool {
    sort == "hot"@ || sort == "new"@ || sort == "top"@
}

/// Law: the feed accepts exactly the three sort orders `hot`, `new` and
/// `top`, and nothing else.
pub proof fn law_sort_orders(sort: Seq<char>)
    ensures
        valid_sort(sort) <==> (sort == "hot"@ || sort == "new"@ || sort == "top"@),
        valid_sort("hot"@),
        valid_sort("new"@),
        valid_sort("top"@),
{
}

/// Rejects an unknown sort order before any request is made.
pub fn check_sort(sort: &str) -> (res: Result<(), Output>)
    ensures
        res is Ok <==> valid_sort(sort@),
        res is Ok <==> (sort@ == "hot"@ || sort@ == "new"@ || sort@ == "top"@),
        res matches Err(out) ==> failed(
            out,
            "invalid sort '"@ + sort@ + "'"@,
            "BAD_SORT"@,
            "validation"@,
            false,
            "use one of: hot, new, top"@,
            None,
        ) && hints(out.internal) == (Some("fix_command"@), None::<Seq<char>>, None::<Seq<char>>),
{
    if str_eq(sort, "hot") || str_eq(sort, "new") || str_eq(sort, "top") {
        return Ok(());
    }
    let mut msg = String::new();
    append_str(&mut msg, "invalid sort '");
    append_str(&mut msg, sort);
    append_str(&mut msg, "'");
    Err(
        Output::error(
            msg,
            "BAD_SORT",
            "validation",
            false,
            "use one of: hot, new, top",
            Internal::action("fix_command"),
        ),
    )
}

/// `/api/forum/posts?sort=<sort>&limit=<limit>[&category=<category>]`.
pub open spec fn spec_feed_path(sort: Seq<char>, category: Option<Seq<char>>, limit: u32) -> Seq<
    char,
> {
    let base = "/api/forum/posts?sort="@ + sort + "&limit="@ + spec_decimal(limit as int);
    match category {
        Some(c) => base + "&category="@ + c,
        None => base,
    }
}

/// The request path for the feed.
pub fn feed_path(sort: &str, category: Option<&str>, limit: u32) -> (path: String)
    ensures
        path@ == spec_feed_path(sort@, crate::keyring::opt_view(category), limit),
{
    let mut p = String::new();
    append_str(&mut p, "/api/forum/posts?sort=");
    append_str(&mut p, sort);
    append_str(&mut p, "&limit=");
    let d = decimal_u64(limit as u64);
    append_str(&mut p, &d);
    if let Some(c) = category {
        append_str(&mut p, "&category=");
        append_str(&mut p, c);
    }
    p
}

/// Whether a post's author address can be shortened: the address is cut
/// by bytes, which needs character boundaries at both cut points.
pub open spec fn author_sliceable(p: Post) -> bool {
    let b = utf8(p.author@);
    b.len() > 12 ==> is_char_boundary(b, 6) && is_char_boundary(b, b.len() - 4)
}

/// The author shown for a post: its author name, else its shortened
/// address.
pub fn author_display(p: &Post) -> (res: String)
    requires
        p.author_name is None ==> author_sliceable(*p),
    ensures
        match p.author_name {
            Some(n) => res@ == n@,
            None => utf8(res@) == spec_short_addr(p.author@),
        },
{
    match &p.author_name {
        Some(n) => n.clone(),
        None => short_addr(p.author.as_str()),
    }
}

/// The body shown for a post: at most 240 characters.
pub fn body_preview(p: &Post) -> (res: String)
    ensures
        res@ == spec_truncate(p.body@, 240),
{
    truncate(p.body.as_str(), 240)
}

/// The feed listing: `<n> posts (<n>/<total>)`.
pub fn feed_ok(count: usize, total: i64, data: serde_json::Value) -> (out: Output)
    ensures
        succeeded(
            out,
            spec_decimal(count as int) + " posts ("@ + spec_decimal(count as int) + "/"@
                + spec_decimal(total as int) + ")"@,
            data,
        ),
        hints(out.internal) == (
            Some("done"@),
            None::<Seq<char>>,
            Some("use `community-agent reply --post-id <id> --body ...` to engage with a post"@),
        ),
{
    let n = decimal_u64(count as u64);
    let mut msg = n.clone();
    append_str(&mut msg, " posts (");
    append_str(&mut msg, &n);
    append_str(&mut msg, "/");
    let t = decimal(total);
    append_str(&mut msg, &t);
    append_str(&mut msg, ")");
    Output::ok(
        msg,
        data,
        Internal::action_hint(
            "done",
            "use `community-agent reply --post-id <id> --body ...` to engage with a post",
        ),
    )
}

/// The feed request failed.
pub fn feed_failed(err: &str) -> (out: Output)
    ensures
        failed(
            out,
            "feed failed: "@ + err@,
            "FEED_FAILED"@,
            "server"@,
            true,
            "check server reachable"@,
            None,
        ),
        hints(out.internal) == (Some("retry"@), None::<Seq<char>>, None::<Seq<char>>),
{
    let mut msg = String::new();
    append_str(&mut msg, "feed failed: ");
    append_str(&mut msg, err);
    Output::error(
        msg,
        "FEED_FAILED",
        "server",
        true,
        "check server reachable",
        Internal::action("retry"),
    )
}

} // verus!
