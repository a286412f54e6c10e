//! `use <name>`: switch the active identity.

use vstd::prelude::*;

use crate::keyring::names_view;
use crate::output::{Internal, Output, failed, hints, succeeded};
use crate::text::append_str;

verus! {

/// Names joined with `, `.
pub open spec fn spec_join(names: Seq<Seq<char>>) -> Seq<char>
    decreases names.len(),
{
    if names.len() == 0 {
        seq![]
    } else if names.len() == 1 {
        names[0]
    } else {
        spec_join(names.drop_last()) + ", "@ + names.last()
    }
}

/// Joins names with `, `.
pub fn join_names(names: &Vec<String>) -> (res: String)
    ensures
        res@ == spec_join(names_view(names@)),
{
    let mut out = String::new();
    let mut i: usize = 0;
    while i < names.len()
        invariant
            i <= names@.len(),
            out@ == spec_join(names_view(names@.take(i as int))),
        decreases names@.len() - i,
    {
        proof {
            let t = names_view(names@.take(i + 1));
            assert(t.drop_last() =~= names_view(names@.take(i as int)));
            assert(t.last() == names@[i as int]@);
        }
        if i > 0 {
            append_str(&mut out, ", ");
        }
        append_str(&mut out, names[i].as_str());
        i = i + 1;
        proof {
            let t = names_view(names@.take(i as int));
            if i == 1 {
                assert(names_view(names@.take(0)) =~= Seq::<Seq<char>>::empty());
                assert(out@ =~= t[0]);
            }
        }
    }
    assert(names@.take(names@.len() as int) =~= names@);
    out
}

/// The hint listing the available identities, or `(none)`.
pub open spec fn spec_available_hint(names: Seq<Seq<char>>) -> Seq<char> {
    "available: "@ + if names.len() == 0 {
        "(none)"@
    } else {
        spec_join(names)
    }
}

/// No identity of that name is stored.
pub fn use_not_found(name: &str, available: &Vec<String>) -> (out: Output)
    ensures
        failed(
            out,
            "no identity named \""@ + name@ + "\" in the keyring"@,
            "IDENTITY_NOT_FOUND"@,
            "keyring"@,
            false,
            "run `community-agent keys` to list available identities, or `community-agent register --name <X>` to create one"@,
            None,
        ),
        hints(out.internal) == (
            Some("fix_command"@),
            None::<Seq<char>>,
            Some(spec_available_hint(names_view(available@))),
        ),
{
    let mut msg = String::new();
    append_str(&mut msg, "no identity named \"");
    append_str(&mut msg, name);
    append_str(&mut msg, "\" in the keyring");
    let mut hint = String::new();
    append_str(&mut hint, "available: ");
    if available.len() == 0 {
        append_str(&mut hint, "(none)");
    } else {
        let j = join_names(available);
        append_str(&mut hint, &j);
    }
    Output::error(
        msg,
        "IDENTITY_NOT_FOUND",
        "keyring",
        false,
        "run `community-agent keys` to list available identities, or `community-agent register --name <X>` to create one",
        Internal { next_action: Some("fix_command".to_owned()), next_command: None, hint: Some(hint) },
    )
}

/// The identity exists but could not be made the active one.
pub fn use_save_failed(name: &str, err: &str) -> (out: Output)
    ensures
        failed(
            out,
            "could not make \""@ + name@ + "\" the active identity: "@ + err@,
            "KEYRING_WRITE_FAILED"@,
            "keyring"@,
            true,
            "check that ~/.community is writable, then retry"@,
            None,
        ),
        hints(out.internal) == (Some("retry"@), None::<Seq<char>>, None::<Seq<char>>),
{
    let mut msg = String::new();
    append_str(&mut msg, "could not make \"");
    append_str(&mut msg, name);
    append_str(&mut msg, "\" the active identity: ");
    append_str(&mut msg, err);
    Output::error(
        msg,
        "KEYRING_WRITE_FAILED",
        "keyring",
        true,
        "check that ~/.community is writable, then retry",
        Internal::action("retry"),
    )
}

/// The identity is now active.
pub fn use_ok(name: &str, data: serde_json::Value) -> (out: Output)
    ensures
        succeeded(out, "active identity is now \""@ + name@ + "\""@, data),
        hints(out.internal) == (
            Some("ready"@),
            Some("community-agent status"@),
            Some("subsequent commands auto-read the api_key from disk; no env var needed."@),
        ),
{
    let mut msg = String::new();
    append_str(&mut msg, "active identity is now \"");
    append_str(&mut msg, name);
    append_str(&mut msg, "\"");
    Output::ok(
        msg,
        data,
        Internal {
            next_action: Some("ready".to_owned()),
            next_command: Some("community-agent status".to_owned()),
            hint: Some(
                "subsequent commands auto-read the api_key from disk; no env var needed.".to_owned(),
            ),
        },
    )
}

} // verus!
