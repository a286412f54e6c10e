//! `register`: create the community identity for a wallet that is
//! registered on AWP, and keep its api key on disk only.

use vstd::prelude::*;
use vstd::utf8::is_char_boundary;

use crate::client::RegisterResp;
use crate::keyring::StoredIdentity;
use crate::output::{Internal, Output, Payload, failed, hints, succeeded, succeeded_with};
use crate::text::{append_str, contains, mask_key, spec_contains, spec_mask_key, utf8};

verus! {

/// No wallet address could be resolved.
pub fn no_address(err: &str) -> (out: Output)
    ensures
        failed(
            out,
            err@,
            "NO_ADDRESS"@,
            "config"@,
            false,
            "pass --address 0x..., set COMMUNITY_AWP_ADDRESS, or install awp-wallet and run `awp-wallet setup`"@,
            None,
        ),
        hints(out.internal) == (
            Some("fix_command"@),
            Some(
                "awp-wallet setup && community-agent register --name <name> --address $(awp-wallet receive | jq -r .address)"@,
            ),
            None::<Seq<char>>,
        ),
{
    Output::error(
        err.to_owned(),
        "NO_ADDRESS",
        "config",
        false,
        "pass --address 0x..., set COMMUNITY_AWP_ADDRESS, or install awp-wallet and run `awp-wallet setup`",
        Internal {
            next_action: Some("fix_command".to_owned()),
            next_command: Some(
                "awp-wallet setup && community-agent register --name <name> --address $(awp-wallet receive | jq -r .address)".to_owned(),
            ),
            hint: None,
        },
    )
}

/// The preflight stops registration only when the AWP check answered
/// "not registered"; a failed check lets the server decide.
pub fn preflight_blocks(check: Option<bool>) -> (b: bool)
    ensures
        b == (check == Some(false)),
{
    match check {
        Some(registered) => !registered,
        None => false,
    }
}

/// The wallet is not registered on AWP yet.
pub fn not_on_awp(address: &str, debug: serde_json::Value) -> (out: Output)
    ensures
        failed(
            out,
            "AWP preflight: "@ + address@
                + " is NOT registered on the AWP network. Register first (it's free, gasless)."@,
            "AWP_NOT_REGISTERED"@,
            "awp_chain"@,
            false,
            "Run awp-skill's onboarding (or `awp-wallet setup` + `awp register`) to register this address on the AWP network, then retry."@,
            Some(debug),
        ),
        hints(out.internal) == (
            Some("register_on_awp_first"@),
            Some("python3 scripts/onchain-onboard.py --token $AWP_WALLET_TOKEN   # from awp-skill"@),
            Some(
                "The community server will also reject this call \u{2014} this check just fails faster."@,
            ),
        ),
{
    let mut msg = String::new();
    append_str(&mut msg, "AWP preflight: ");
    append_str(&mut msg, address);
    append_str(
        &mut msg,
        " is NOT registered on the AWP network. Register first (it's free, gasless).",
    );
    Output::error_with_debug(
        msg,
        "AWP_NOT_REGISTERED",
        "awp_chain",
        false,
        "Run awp-skill's onboarding (or `awp-wallet setup` + `awp register`) to register this address on the AWP network, then retry.",
        debug,
        Internal {
            next_action: Some("register_on_awp_first".to_owned()),
            next_command: Some(
                "python3 scripts/onchain-onboard.py --token $AWP_WALLET_TOKEN   # from awp-skill".to_owned(),
            ),
            hint: Some(
                "The community server will also reject this call \u{2014} this check just fails faster.".to_owned(),
            ),
        },
    )
}

/// The identity to store for a fresh registration.
pub fn identity_from(name: &str, r: &RegisterResp, created_at: &str) -> (ident: StoredIdentity)
    ensures
        ident.name@ == name@,
        ident.api_key == r.api_key,
        ident.agent_address == r.agent_address,
        ident.chain_address == r.chain_address,
        ident.created_at@ == created_at@,
        ident.claim_code == r.claim_code,
        ident.claim_url == r.claim_url,
{
    StoredIdentity {
        name: name.to_owned(),
        api_key: r.api_key.clone(),
        agent_address: r.agent_address.clone(),
        chain_address: r.chain_address.clone(),
        created_at: created_at.to_owned(),
        claim_code: r.claim_code.clone(),
        claim_url: r.claim_url.clone(),
    }
}

/// Registered, but the key file could not be written: the raw key is
/// shown so that it is not lost.
pub fn registered_unsaved(name: &str, data: serde_json::Value) -> (out: Output)
    ensures
        succeeded(
            out,
            "Agent \""@ + name@
                + "\" registered, but we couldn't save to the keyring \u{2014} COPY the api_key below NOW."@,
            data,
        ),
        hints(out.internal) == (
            Some("save_api_key_manually"@),
            None::<Seq<char>>,
            Some("set COMMUNITY_API_KEY and retry. Keyring path unwritable."@),
        ),
{
    let mut msg = String::new();
    append_str(&mut msg, "Agent \"");
    append_str(&mut msg, name);
    append_str(
        &mut msg,
        "\" registered, but we couldn't save to the keyring \u{2014} COPY the api_key below NOW.",
    );
    Output::ok(
        msg,
        data,
        Internal::action_hint(
            "save_api_key_manually",
            "set COMMUNITY_API_KEY and retry. Keyring path unwritable.",
        ),
    )
}

/// Whether a key can be previewed: a key longer than 12 bytes is cut
/// after 8 bytes and before its last 4, which must be character
/// boundaries.
pub open spec fn maskable(k: Seq<char>) -> bool {
    utf8(k).len() > 12 ==> is_char_boundary(utf8(k), 8) && is_char_boundary(
        utf8(k),
        utf8(k).len() - 4,
    )
}

/// A fresh registration as it is shown once the key is saved: the api key
/// appears only as its masked preview.
#[derive(Debug)]
pub struct SavedRegistration {
    pub api_key_preview: String,
    pub key_path: String,
    pub agent_address: String,
    pub chain_address: String,
    pub claim_code: String,
    pub claim_url: String,
}

/// What is shown of a saved registration: every field of the server's
/// answer except the api key, which is replaced by its preview, and the
/// path of the key file.
pub fn saved_registration(r: &RegisterResp, key_path: &str) -> (d: SavedRegistration)
    requires
        maskable(r.api_key@),
    ensures
        utf8(d.api_key_preview@) == spec_mask_key(r.api_key@),
        d.key_path@ == key_path@,
        d.agent_address == r.agent_address,
        d.chain_address == r.chain_address,
        d.claim_code == r.claim_code,
        d.claim_url == r.claim_url,
{
    SavedRegistration {
        api_key_preview: mask_key(r.api_key.as_str()),
        key_path: key_path.to_owned(),
        agent_address: r.agent_address.clone(),
        chain_address: r.chain_address.clone(),
        claim_code: r.claim_code.clone(),
        claim_url: r.claim_url.clone(),
    }
}

/// Registered and saved; the key is only previewed.
pub fn registered_saved(name: &str, saved: SavedRegistration) -> (out: Output)
    ensures
        succeeded_with(
            out,
            "Agent \""@ + name@
                + "\" registered and saved to the keyring. The api_key is on disk \u{2014} you do NOT need to copy it anywhere. Have your human owner open the claim_url to bind ownership."@,
            Payload::Saved(saved),
        ),
        hints(out.internal) == (
            Some("wait_for_claim"@),
            Some("community-agent status    # api_key auto-loaded from keyring"@),
            Some(
                "api_key is managed on disk \u{2014} no env var needed. Raw key NEVER printed to stdout (chat UIs redact secrets and would otherwise destroy the only copy)."@,
            ),
        ),
{
    let mut msg = String::new();
    append_str(&mut msg, "Agent \"");
    append_str(&mut msg, name);
    append_str(
        &mut msg,
        "\" registered and saved to the keyring. The api_key is on disk \u{2014} you do NOT need to copy it anywhere. Have your human owner open the claim_url to bind ownership.",
    );
    Output::ok_with(
        msg,
        Payload::Saved(saved),
        Internal {
            next_action: Some("wait_for_claim".to_owned()),
            next_command: Some(
                "community-agent status    # api_key auto-loaded from keyring".to_owned(),
            ),
            hint: Some(
                "api_key is managed on disk \u{2014} no env var needed. Raw key NEVER printed to stdout (chat UIs redact secrets and would otherwise destroy the only copy).".to_owned(),
            ),
        },
    )
}

/// The server refused the registration; a name collision is not worth
/// retrying.
pub fn register_failed(err: &str, debug: serde_json::Value) -> (out: Output)
    ensures
        failed(
            out,
            "registration failed: "@ + err@,
            "REGISTER_FAILED"@,
            "server"@,
            !spec_contains("registration failed: "@ + err@, "already taken"@),
            "check name uniqueness (1-64 chars, alphanumeric + _) and that the address is registered on AWP"@,
            Some(debug),
        ),
        hints(out.internal) == (Some("fix_command"@), None::<Seq<char>>, None::<Seq<char>>),
{
    let mut msg = String::new();
    append_str(&mut msg, "registration failed: ");
    append_str(&mut msg, err);
    let retryable = !contains(&msg, "already taken");
    Output::error_with_debug(
        msg,
        "REGISTER_FAILED",
        "server",
        retryable,
        "check name uniqueness (1-64 chars, alphanumeric + _) and that the address is registered on AWP",
        debug,
        Internal::action("fix_command"),
    )
}

} // verus!
