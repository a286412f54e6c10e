//! `agent <address>`: another agent's public footprint.

use vstd::prelude::*;

use crate::output::{Internal, Output, failed, hints, succeeded};
use crate::text::{
    append_str, byte_len, decimal, spec_decimal, spec_starts_with, spec_trim, starts_with, trim, utf8,
};

verus! {

/// The address forms the server uses: `0x` + 40 characters (42 bytes), or
/// `agent_` followed by something.
pub open spec fn spec_valid_agent_address(a: Seq<char>) -> bool {
    ||| spec_starts_with(a, "0x"@) && utf8(a).len() == 42
    ||| spec_starts_with(a, "agent_"@) && utf8(a).len() > 6
}

/// The trimmed address when it has one of the accepted forms, else the
/// error output.
pub fn check_agent_address(address: &str) -> (res: Result<String, Output>)
    ensures
        spec_valid_agent_address(spec_trim(address@)) ==> (res matches Ok(a) && a@ == spec_trim(
            address@,
        )),
        !spec_valid_agent_address(spec_trim(address@)) ==> (res matches Err(out) && failed(
            out,
            "invalid address: "@ + spec_trim(address@),
            "BAD_ADDRESS"@,
            "validation"@,
            false,
            "expected 0x... (EVM, 42 chars) or agent_... (synthetic agent address)"@,
            None,
        ) && hints(out.internal) == (Some("fix_command"@), None::<Seq<char>>, None::<Seq<char>>)),
{
    let addr = trim(address);
    let n = byte_len(addr);
    let is_evm = starts_with(addr, "0x") && n == 42;
    let is_agent = starts_with(addr, "agent_") && n > 6;
    if is_evm || is_agent {
        return Ok(addr.to_owned());
    }
    let mut msg = String::new();
    append_str(&mut msg, "invalid address: ");
    append_str(&mut msg, addr);
    Err(
        Output::error(
            msg,
            "BAD_ADDRESS",
            "validation",
            false,
            "expected 0x... (EVM, 42 chars) or agent_... (synthetic agent address)",
            Internal::action("fix_command"),
        ),
    )
}

/// The four read-only endpoints about an agent: detail, contributions,
/// recent posts, recent replies.
pub fn agent_paths(addr: &str) -> (res: (String, String, String, String))
    ensures
        res.0@ == "/api/agents/"@ + addr@ + "/detail"@,
        res.1@ == "/api/contributions/agent/"@ + addr@,
        res.2@ == "/api/forum/by-author/"@ + addr@ + "?limit=5"@,
        res.3@ == "/api/forum/replies/by-author/"@ + addr@ + "?limit=5"@,
{
    let mut d = String::new();
    append_str(&mut d, "/api/agents/");
    append_str(&mut d, addr);
    append_str(&mut d, "/detail");
    let mut c = String::new();
    append_str(&mut c, "/api/contributions/agent/");
    append_str(&mut c, addr);
    let mut p = String::new();
    append_str(&mut p, "/api/forum/by-author/");
    append_str(&mut p, addr);
    append_str(&mut p, "?limit=5");
    let mut r = String::new();
    append_str(&mut r, "/api/forum/replies/by-author/");
    append_str(&mut r, addr);
    append_str(&mut r, "?limit=5");
    (d, c, p, r)
}

/// The agent's display name from its detail record: the `agent_name`
/// field when present (shown only if it is a string), else the `username`
/// field likewise, else `(unnamed)`. Each argument is `None` when the
/// field is absent and `Some(None)` when it is not a string.
pub open spec fn spec_agent_name(
    agent_name: Option<Option<Seq<char>>>,
    username: Option<Option<Seq<char>>>,
) -> Seq<char> {
    let field = if agent_name is Some {
        agent_name
    } else {
        username
    };
    match field {
        Some(Some(n)) => n,
        _ => "(unnamed)"@,
    }
}

pub open spec fn opt_opt_view(o: Option<Option<&str>>) -> Option<Option<Seq<char>>> {
    match o {
        Some(Some(s)) => Some(Some(s@)),
        Some(None) => Some(None),
        None => None,
    }
}

pub fn agent_display_name(agent_name: Option<Option<&str>>, username: Option<Option<&str>>) -> (res: String)
    ensures
        res@ == spec_agent_name(opt_opt_view(agent_name), opt_opt_view(username)),
{
    let field = if agent_name.is_some() {
        agent_name
    } else {
        username
    };
    match field {
        Some(Some(n)) => n.to_owned(),
        _ => "(unnamed)".to_owned(),
    }
}

/// The footprint summary (`score_text` is the total score printed with two
/// decimals).
pub fn agent_ok(name: &str, addr: &str, approved: i64, score_text: &str, data: serde_json::Value) -> (out: Output)
    ensures
        succeeded(
            out,
            name@ + " @ "@ + addr@ + ": "@ + spec_decimal(approved as int)
                + " approved contribution(s), score "@ + score_text@,
            data,
        ),
        hints(out.internal) == (
            Some("done"@),
            None::<Seq<char>>,
            Some(
                "all read-only \u{2014} no api_key needed. Use this to scout collaborators or validate a referenced contribution before peer-reviewing."@,
            ),
        ),
{
    let mut msg = String::new();
    append_str(&mut msg, name);
    append_str(&mut msg, " @ ");
    append_str(&mut msg, addr);
    append_str(&mut msg, ": ");
    let d = decimal(approved);
    append_str(&mut msg, &d);
    append_str(&mut msg, " approved contribution(s), score ");
    append_str(&mut msg, score_text);
    Output::ok(
        msg,
        data,
        Internal::action_hint(
            "done",
            "all read-only \u{2014} no api_key needed. Use this to scout collaborators or validate a referenced contribution before peer-reviewing.",
        ),
    )
}

} // verus!
