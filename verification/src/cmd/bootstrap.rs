//! `bootstrap`: install `awp-wallet`, initialise it and register the
//! wallet on AWP. Each stage is skipped when already done.

use vstd::prelude::*;

use crate::keyring::{path_join, spec_join};
use crate::output::{Internal, Output, failed, hints, succeeded};
use crate::text::append_str;

verus! {

/// What the AWP registration client reports after trying to register.
pub struct Registration {
    pub registered: bool,
    pub auto_registered: bool,
    pub message: String,
}

/// The summary of the registration stage, or why it failed.
pub open spec fn spec_registration_summary(
    already_registered: bool,
    r: Option<Registration>,
) -> Result<Seq<char>, Seq<char>> {
    if already_registered {
        Ok("already registered"@)
    } else {
        let reg = r->Some_0;
        if reg.registered {
            Ok(
                if reg.auto_registered {
                    "auto-registered via gasless relay"@
                } else {
                    "registration confirmed"@
                },
            )
        } else {
            Err("ensure_registered returned not-registered: "@ + reg.message@)
        }
    }
}

pub open spec fn view_result(r: Result<String, String>) -> Result<Seq<char>, Seq<char>> {
    match r {
        Ok(s) => Ok(s@),
        Err(s) => Err(s@),
    }
}

/// Law: the registration stage fails only when the wallet was not already
/// registered and the registration client reports it still is not;
/// whenever the client reports it registered, the stage succeeds, whatever
/// `auto_registered` says.
pub proof fn law_registration_stage(already_registered: bool, r: Option<Registration>)
    requires
        !already_registered ==> r is Some,
    ensures
        spec_registration_summary(already_registered, r) is Err <==> (!already_registered
            && !r->Some_0.registered),
        !already_registered && r->Some_0.registered ==> spec_registration_summary(
            already_registered,
            r,
        ) is Ok,
        already_registered ==> spec_registration_summary(already_registered, r) == Ok::<
            Seq<char>,
            Seq<char>,
        >("already registered"@),
{
}

/// Stage 3's decision: nothing to do when the address is registered,
/// otherwise what registering it produced (`r`, which is then present).
pub fn ensure_awp_registered(already_registered: bool, r: Option<&Registration>) -> (res: Result<
    String,
    String,
>)
    requires
        !already_registered ==> r is Some,
    ensures
        view_result(res) == spec_registration_summary(
            already_registered,
            match r {
                Some(x) => Some(*x),
                None => None,
            },
        ),
        already_registered ==> res is Ok,
        !already_registered ==> (res is Ok <==> r->Some_0.registered),
        !already_registered && r->Some_0.registered && !r->Some_0.auto_registered ==> (res matches Ok(
            m,
        ) && m@ == "registration confirmed"@),
{
    if already_registered {
        return Ok("already registered".to_owned());
    }
    let reg = r.unwrap();
    if reg.registered {
        if reg.auto_registered {
            Ok("auto-registered via gasless relay".to_owned())
        } else {
            Ok("registration confirmed".to_owned())
        }
    } else {
        let mut msg = String::new();
        append_str(&mut msg, "ensure_registered returned not-registered: ");
        append_str(&mut msg, reg.message.as_str());
        Err(msg)
    }
}

/// Where `awp-wallet` is cloned: `$HOME/awp-wallet`.
pub fn install_dir(home: &str) -> (res: String)
    ensures
        res@ == spec_join(home@, "awp-wallet"@),
{
    path_join(home, "awp-wallet")
}

/// What stage 1 does when the binary is not found: a directory without a
/// `.git` is a remnant of a failed clone and is removed first; without a
/// `.git` the repository is cloned; the install script always runs.
pub struct InstallPlan {
    pub remove_remnant: bool,
    pub clone: bool,
}

pub fn install_plan(git_dir_exists: bool, target_exists: bool) -> (p: InstallPlan)
    ensures
        p.clone == !git_dir_exists,
        p.remove_remnant == (!git_dir_exists && target_exists),
{
    InstallPlan { remove_remnant: !git_dir_exists && target_exists, clone: !git_dir_exists }
}

/// Whether stage 2 runs `awp-wallet init`: when the wallet reports no
/// address yet, or when `--force` asks for a fresh keypair anyway.
pub fn wallet_init_needed(force: bool, has_address: bool) -> (b: bool)
    ensures
        b == (force || !has_address),
{
    force || !has_address
}

/// A failed stage: what went wrong, retryable, with the next action.
pub fn bail_out(code: &str, msg: String, hint: &str, next_action: &str) -> (out: Output)
    ensures
        failed(out, msg@, code@, "bootstrap"@, true, hint@, None),
        hints(out.internal) == (Some(next_action@), None::<Seq<char>>, None::<Seq<char>>),
{
    Output::error(msg, code, "bootstrap", true, hint, Internal::action(next_action))
}

/// `<prefix><detail>`, for stage failure messages.
pub fn stage_failure(prefix: &str, detail: &str) -> (res: String)
    ensures
        res@ == prefix@ + detail@,
{
    let mut m = String::new();
    append_str(&mut m, prefix);
    append_str(&mut m, detail);
    m
}

/// Every stage done.
pub fn bootstrap_ok(address: &str, data: serde_json::Value) -> (out: Output)
    ensures
        succeeded(
            out,
            "bootstrap complete \u{2014} wallet "@ + address@ + " is registered on AWP"@,
            data,
        ),
        hints(out.internal) == (
            Some("create_community_identity"@),
            Some("community-agent register --name <your_agent_name>"@),
            Some("--address is auto-resolved from awp-wallet; no need to pass it explicitly."@),
        ),
{
    let mut msg = String::new();
    append_str(&mut msg, "bootstrap complete \u{2014} wallet ");
    append_str(&mut msg, address);
    append_str(&mut msg, " is registered on AWP");
    Output::ok(
        msg,
        data,
        Internal {
            next_action: Some("create_community_identity".to_owned()),
            next_command: Some("community-agent register --name <your_agent_name>".to_owned()),
            hint: Some(
                "--address is auto-resolved from awp-wallet; no need to pass it explicitly.".to_owned(),
            ),
        },
    )
}

} // verus!
