//! `awp-register`: make sure the agent's wallet is registered on AWP.

use vstd::prelude::*;

use crate::output::{Internal, Output, failed, hints, succeeded};
use crate::text::append_str;

verus! {

/// No wallet address could be resolved.
pub fn no_address(err: &str) -> (out: Output)
    ensures
        failed(
            out,
            err@,
            "NO_ADDRESS"@,
            "config"@,
            false,
            "pass --address 0x... or export COMMUNITY_AWP_ADDRESS"@,
            None,
        ),
        hints(out.internal) == (Some("fix_command"@), None::<Seq<char>>, None::<Seq<char>>),
{
    Output::error(
        err.to_owned(),
        "NO_ADDRESS",
        "config",
        false,
        "pass --address 0x... or export COMMUNITY_AWP_ADDRESS",
        Internal::action("fix_command"),
    )
}

/// Already registered: nothing to sign.
pub fn already_registered(address: &str, data: serde_json::Value) -> (out: Output)
    ensures
        succeeded(out, address@ + " is already registered on AWP \u{2014} nothing to do"@, data),
        hints(out.internal) == (Some("done"@), None::<Seq<char>>, None::<Seq<char>>),
{
    let mut msg = String::new();
    append_str(&mut msg, address);
    append_str(&mut msg, " is already registered on AWP \u{2014} nothing to do");
    Output::ok(msg, data, Internal::action("done"))
}

/// The registration state could not be read.
pub fn check_failed(err: &str) -> (out: Output)
    ensures
        failed(
            out,
            "could not verify registration status: "@ + err@,
            "AWP_CHECK_FAILED"@,
            "network"@,
            true,
            "wait a minute and retry; the chain RPC may be flaky"@,
            None,
        ),
        hints(out.internal) == (Some("retry"@), None::<Seq<char>>, None::<Seq<char>>),
{
    let mut msg = String::new();
    append_str(&mut msg, "could not verify registration status: ");
    append_str(&mut msg, err);
    Output::error(
        msg,
        "AWP_CHECK_FAILED",
        "network",
        true,
        "wait a minute and retry; the chain RPC may be flaky",
        Internal::action("retry"),
    )
}

/// Registration ran; its own message is reported.
pub fn registration_done(message: &str, data: serde_json::Value) -> (out: Output)
    ensures
        succeeded(out, message@, data),
        hints(out.internal) == (Some("done"@), None::<Seq<char>>, None::<Seq<char>>),
{
    Output::ok(message.to_owned(), data, Internal::action("done"))
}

/// Registration failed.
pub fn registration_failed(err: &str) -> (out: Output)
    ensures
        failed(
            out,
            "registration failed: "@ + err@,
            "AWP_REGISTER_FAILED"@,
            "chain"@,
            true,
            "verify awp-wallet is installed (for signing) or set COMMUNITY_AWP_PRIVATE_KEY"@,
            None,
        ),
        hints(out.internal) == (Some("retry"@), None::<Seq<char>>, None::<Seq<char>>),
{
    let mut msg = String::new();
    append_str(&mut msg, "registration failed: ");
    append_str(&mut msg, err);
    Output::error(
        msg,
        "AWP_REGISTER_FAILED",
        "chain",
        true,
        "verify awp-wallet is installed (for signing) or set COMMUNITY_AWP_PRIVATE_KEY",
        Internal::action("retry"),
    )
}

} // verus!
