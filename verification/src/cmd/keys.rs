//! `keys`: the stored identities, with masked key previews.

use vstd::prelude::*;

use crate::cmd::register::maskable;
use crate::keyring::{StoredIdentity, opt_view};
use crate::output::{Internal, Output, Payload, hints, opt_seq};
use crate::text::{append_str, decimal_u64, mask_key, spec_decimal, spec_mask_key, str_eq, utf8};

verus! {

/// Whether `name` is the active identity.
pub fn is_active(current: Option<&str>, name: &str) -> (b: bool)
    ensures
        b == (opt_view(current) == Some(name@)),
{
    match current {
        Some(c) => str_eq(c, name),
        None => false,
    }
}

/// The summary line for the keyring listing.
pub open spec fn spec_keys_message(count: nat, current: Option<Seq<char>>) -> Seq<char> {
    if count == 0 {
        "no identities stored \u{2014} run `community-agent register --name <X>`"@
    } else {
        spec_decimal(count as int) + (if count == 1 {
            " identity"@
        } else {
            " identities"@
        }) + " stored, active: "@ + match current {
            Some(c) => c,
            None => "(none)"@,
        }
    }
}

/// One stored identity as listed: the api key only as its masked preview.
#[derive(Debug)]
pub struct KeyEntry {
    pub name: String,
    pub active: bool,
    pub api_key_preview: String,
    pub agent_address: String,
    pub chain_address: String,
    pub created_at: String,
}

/// The keyring listing: the active name, the entries and where the keys
/// are kept.
#[derive(Debug)]
pub struct KeyListing {
    pub active: Option<String>,
    pub identities: Vec<KeyEntry>,
    pub keys_dir: Option<String>,
}

/// The listing entry of a stored identity.
pub fn key_entry(ident: &StoredIdentity, current: Option<&str>) -> (e: KeyEntry)
    requires
        maskable(ident.api_key@),
    ensures
        e.name == ident.name,
        e.active == (opt_view(current) == Some(ident.name@)),
        utf8(e.api_key_preview@) == spec_mask_key(ident.api_key@),
        e.agent_address == ident.agent_address,
        e.chain_address == ident.chain_address,
        e.created_at == ident.created_at,
{
    KeyEntry {
        name: ident.name.clone(),
        active: is_active(current, ident.name.as_str()),
        api_key_preview: mask_key(ident.api_key.as_str()),
        agent_address: ident.agent_address.clone(),
        chain_address: ident.chain_address.clone(),
        created_at: ident.created_at.clone(),
    }
}

/// The keyring listing.
pub fn keys_ok(current: Option<&str>, identities: Vec<KeyEntry>, keys_dir: Option<String>) -> (out:
    Output)
    ensures
        out.data matches Some(Payload::Keys(l)) && opt_seq(l.active) == opt_view(current)
            && l.identities == identities && l.keys_dir == keys_dir,
        out.ok,
        out.user_message@ == spec_keys_message(identities@.len(), opt_view(current)),
        out.error is None,
        hints(out.internal) == (
            Some("done"@),
            None::<Seq<char>>,
            Some(
                "raw api_keys are stored on disk only (mode 600). switch with `community-agent use <name>`."@,
            ),
        ),
{
    let count = identities.len();
    let mut msg = String::new();
    if count == 0 {
        append_str(&mut msg, "no identities stored \u{2014} run `community-agent register --name <X>`");
    } else {
        let d = decimal_u64(count as u64);
        append_str(&mut msg, &d);
        if count == 1 {
            append_str(&mut msg, " identity");
        } else {
            append_str(&mut msg, " identities");
        }
        append_str(&mut msg, " stored, active: ");
        match current {
            Some(c) => append_str(&mut msg, c),
            None => append_str(&mut msg, "(none)"),
        }
    }
    let active = match current {
        Some(c) => Some(c.to_owned()),
        None => None,
    };
    Output::ok_with(
        msg,
        Payload::Keys(KeyListing { active, identities, keys_dir }),
        Internal::action_hint(
            "done",
            "raw api_keys are stored on disk only (mode 600). switch with `community-agent use <name>`.",
        ),
    )
}

} // verus!
