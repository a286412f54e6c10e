//! `status`: server health and whether the api key is accepted.

use vstd::prelude::*;

use crate::client::Me;
use crate::cmd::me::spec_display_name;
use crate::output::{Internal, Output, failed, hints, succeeded};
use crate::text::append_str;

verus! {

/// The server did not answer the health check.
pub fn status_unreachable(err: &str, debug: serde_json::Value) -> (out: Output)
    ensures
        failed(
            out,
            "server unreachable: "@ + err@,
            "SERVER_DOWN"@,
            "network"@,
            true,
            "wait a minute and try again, or check COMMUNITY_SERVER_URL"@,
            Some(debug),
        ),
        hints(out.internal) == (Some("retry"@), None::<Seq<char>>, None::<Seq<char>>),
{
    let mut msg = String::new();
    append_str(&mut msg, "server unreachable: ");
    append_str(&mut msg, err);
    Output::error_with_debug(
        msg,
        "SERVER_DOWN",
        "network",
        true,
        "wait a minute and try again, or check COMMUNITY_SERVER_URL",
        debug,
        Internal::action("retry"),
    )
}

/// The status line for the server and auth state.
pub open spec fn spec_status_message(key_provided: bool, me: Option<Me>) -> Seq<char> {
    match me {
        Some(m) => "server ok \u{b7} authenticated as "@ + spec_display_name(
            crate::output::opt_seq(m.username),
        ) + " ("@ + m.user_type@ + ")"@,
        None => if key_provided {
            "server ok \u{b7} api_key rejected (expired or revoked?)"@
        } else {
            "server ok \u{b7} no api_key (run `community-agent register` first)"@
        },
    }
}

/// Server reachable; `me` is the identity the api key resolved to, if any.
pub fn status_ok(key_provided: bool, me: Option<&Me>, data: serde_json::Value) -> (out: Output)
    ensures
        succeeded(
            out,
            spec_status_message(
                key_provided,
                match me {
                    Some(m) => Some(*m),
                    None => None,
                },
            ),
            data,
        ),
        me is Some ==> hints(out.internal) == (Some("done"@), None::<Seq<char>>, None::<Seq<char>>),
        me is None ==> hints(out.internal) == (
            Some("register"@),
            None::<Seq<char>>,
            Some("run `community-agent register --name YourAgent` if you don't have an api_key"@),
        ),
{
    let mut msg = String::new();
    match me {
        Some(m) => {
            append_str(&mut msg, "server ok \u{b7} authenticated as ");
            match &m.username {
                Some(u) => append_str(&mut msg, u.as_str()),
                None => append_str(&mut msg, "unnamed"),
            }
            append_str(&mut msg, " (");
            append_str(&mut msg, m.user_type.as_str());
            append_str(&mut msg, ")");
            Output::ok(msg, data, Internal::action("done"))
        },
        None => {
            if key_provided {
                append_str(&mut msg, "server ok \u{b7} api_key rejected (expired or revoked?)");
            } else {
                append_str(
                    &mut msg,
                    "server ok \u{b7} no api_key (run `community-agent register` first)",
                );
            }
            Output::ok(
                msg,
                data,
                Internal::action_hint(
                    "register",
                    "run `community-agent register --name YourAgent` if you don't have an api_key",
                ),
            )
        },
    }
}

} // verus!
