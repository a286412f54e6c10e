//! `smoke-test`: the read-only readiness check, and where the
//! `awp-wallet` binary is looked for.

use vstd::prelude::*;

use crate::client::{Health, Me, server_healthy};
use crate::cmd::me::spec_display_name;
use crate::keyring::{names_view, opt_view, path_join, spec_join};
use crate::output::{Internal, Output, hints, opt_seq, succeeded};
use crate::text::{append_str, push_char, str_eq};

verus! {

/// The pieces of `s` between `:` separators (what `str::split(':')`
/// yields; there is always at least one piece).
pub open spec fn spec_split_colon(s: Seq<char>) -> Seq<Seq<char>>
    decreases s.len(),
{
    if s.len() == 0 {
        seq![seq![]]
    } else {
        let r = spec_split_colon(s.drop_last());
        if s.last() == ':' {
            r.push(seq![])
        } else {
            r.update(r.len() - 1, r.last().push(s.last()))
        }
    }
}

proof fn lemma_split_nonempty(s: Seq<char>)
    ensures
        spec_split_colon(s).len() >= 1,
    decreases s.len(),
{
    if s.len() > 0 {
        lemma_split_nonempty(s.drop_last());
    }
}

/// Splits a `PATH`-style value on `:`.
pub fn split_colon(s: &str) -> (res: Vec<String>)
    ensures
        names_view(res@) == spec_split_colon(s@),
{
    let n = s.unicode_len();
    let mut done: Vec<String> = Vec::new();
    let mut cur = String::new();
    let mut i: usize = 0;
    assert(s@.take(0) =~= Seq::<char>::empty());
    assert(names_view(done@).push(cur@) =~= spec_split_colon(s@.take(0)));
    while i < n
        invariant
            i <= n,
            n == s@.len(),
            names_view(done@).push(cur@) == spec_split_colon(s@.take(i as int)),
        decreases n - i,
    {
        let c = s.get_char(i);
        proof {
            let t = s@.take(i + 1);
            assert(t.drop_last() =~= s@.take(i as int));
            assert(t.last() == c);
            lemma_split_nonempty(s@.take(i as int));
        }
        let ghost prev = names_view(done@).push(cur@);
        if c == ':' {
            let finished = cur;
            done.push(finished);
            cur = String::new();
            assert(names_view(done@).push(cur@) =~= prev.push(Seq::<char>::empty()));
        } else {
            push_char(&mut cur, c);
            assert(names_view(done@).push(cur@) =~= prev.update(
                prev.len() - 1,
                prev.last().push(c),
            ));
        }
        i = i + 1;
    }
    done.push(cur);
    assert(s@.take(n as int) =~= s@);
    assert(names_view(done@) =~= spec_split_colon(s@));
    done
}

/// Each `PATH` directory joined with the binary's name.
pub open spec fn spec_path_candidates(path: Seq<char>, binary: Seq<char>) -> Seq<Seq<char>> {
    spec_split_colon(path).map_values(|d: Seq<char>| spec_join(d, binary))
}

/// The candidate locations of `binary` along a `PATH` value, in order.
pub fn path_candidates(path: &str, binary: &str) -> (res: Vec<String>)
    ensures
        names_view(res@) == spec_path_candidates(path@, binary@),
{
    let dirs = split_colon(path);
    let mut out: Vec<String> = Vec::new();
    let mut i: usize = 0;
    while i < dirs.len()
        invariant
            i <= dirs@.len(),
            names_view(dirs@) == spec_split_colon(path@),
            out@.len() == i,
            names_view(out@) == names_view(dirs@).take(i as int).map_values(
                |d: Seq<char>| spec_join(d, binary@),
            ),
        decreases dirs@.len() - i,
    {
        let p = path_join(dirs[i].as_str(), binary);
        let ghost before = names_view(out@);
        out.push(p);
        i = i + 1;
        proof {
            let f = |d: Seq<char>| spec_join(d, binary@);
            let want = names_view(dirs@).take(i as int).map_values(f);
            assert(names_view(dirs@)[i - 1] == dirs@[i - 1]@);
            assert(want.len() == i);
            assert(names_view(out@).len() == i);
            assert forall|k: int| 0 <= k < want.len() implies #[trigger] names_view(out@)[k]
                == want[k] by {
                if k < i - 1 {
                    assert(names_view(out@)[k] == before[k]);
                }
            }
            assert(names_view(out@) =~= want);
        }
    }
    assert(names_view(dirs@).take(dirs@.len() as int) =~= names_view(dirs@));
    out
}

/// The well-known install locations of `awp-wallet` under `home` (the
/// bootstrap search also looks in yarn's bin directory).
pub open spec fn spec_well_known(home: Seq<char>, with_yarn: bool) -> Seq<Seq<char>> {
    let base = seq![
        home + "/awp-wallet/bin/awp-wallet"@,
        home + "/.local/bin/awp-wallet"@,
        home + "/.npm-global/bin/awp-wallet"@,
    ];
    let mid = if with_yarn {
        base.push(home + "/.yarn/bin/awp-wallet"@)
    } else {
        base
    };
    mid.push("/usr/local/bin/awp-wallet"@)
}

fn home_path(home: &str, suffix: &str) -> (res: String)
    ensures
        res@ == home@ + suffix@,
{
    let mut s = home.to_owned();
    append_str(&mut s, suffix);
    s
}

/// The well-known locations, in the order they are tried.
pub fn well_known_wallet_paths(home: &str, with_yarn: bool) -> (res: Vec<String>)
    ensures
        names_view(res@) == spec_well_known(home@, with_yarn),
{
    let mut v: Vec<String> = Vec::new();
    v.push(home_path(home, "/awp-wallet/bin/awp-wallet"));
    v.push(home_path(home, "/.local/bin/awp-wallet"));
    v.push(home_path(home, "/.npm-global/bin/awp-wallet"));
    if with_yarn {
        v.push(home_path(home, "/.yarn/bin/awp-wallet"));
    }
    v.push("/usr/local/bin/awp-wallet".to_owned());
    assert(names_view(v@) =~= spec_well_known(home@, with_yarn));
    v
}

/// Where the readiness check looks for `awp-wallet`, in order: along
/// `PATH`, then the well-known places; nowhere when `PATH` is unset.
pub open spec fn spec_smoke_search(path: Option<Seq<char>>, home: Seq<char>) -> Seq<Seq<char>> {
    match path {
        None => seq![],
        Some(p) => spec_path_candidates(p, "awp-wallet"@) + spec_well_known(home, false),
    }
}

/// Where bootstrap looks for `awp-wallet`, in order: along `PATH` (when it
/// is set), then the well-known places including yarn's.
pub open spec fn spec_bootstrap_search(path: Option<Seq<char>>, home: Seq<char>) -> Seq<Seq<char>> {
    match path {
        None => spec_well_known(home, true),
        Some(p) => spec_path_candidates(p, "awp-wallet"@) + spec_well_known(home, true),
    }
}

fn append_all(out: &mut Vec<String>, more: Vec<String>)
    ensures
        names_view(final(out)@) == names_view(old(out)@) + names_view(more@),
{
    let mut more = more;
    let ghost m = names_view(more@);
    let ghost o = names_view(out@);
    out.append(&mut more);
    assert(names_view(out@) =~= o + m);
}

/// The readiness check's search list.
pub fn smoke_search(path: Option<&str>, home: &str) -> (res: Vec<String>)
    ensures
        names_view(res@) == spec_smoke_search(crate::keyring::opt_view(path), home@),
{
    match path {
        None => {
            let v: Vec<String> = Vec::new();
            assert(names_view(v@) =~= Seq::<Seq<char>>::empty());
            v
        },
        Some(p) => {
            let mut v = path_candidates(p, "awp-wallet");
            append_all(&mut v, well_known_wallet_paths(home, false));
            v
        },
    }
}

/// Bootstrap's search list.
pub fn bootstrap_search(path: Option<&str>, home: &str) -> (res: Vec<String>)
    ensures
        names_view(res@) == spec_bootstrap_search(crate::keyring::opt_view(path), home@),
{
    match path {
        None => well_known_wallet_paths(home, true),
        Some(p) => {
            let mut v = path_candidates(p, "awp-wallet");
            append_all(&mut v, well_known_wallet_paths(home, true));
            v
        },
    }
}

/// One row of the readiness matrix: which component, whether it passed,
/// what was found, and the failure tag when it did not pass.
#[derive(Debug)]
pub struct Check {
    pub name: String,
    pub ok: bool,
    pub detail: String,
    pub tag: Option<String>,
}

/// The content of a check, as text.
pub open spec fn check_view(c: Check) -> (Seq<char>, bool, Seq<char>, Option<Seq<char>>) {
    (c.name@, c.ok, c.detail@, opt_seq(c.tag))
}

fn make_check(name: &str, ok: bool, detail: String, tag: Option<&str>) -> (c: Check)
    ensures
        check_view(c) == (name@, ok, detail@, opt_view(tag)),
{
    Check {
        name: name.to_owned(),
        ok,
        detail,
        tag: match tag {
            Some(t) => Some(t.to_owned()),
            None => None,
        },
    }
}

/// The binary runs: always passes, naming the version.
pub fn binary_check(version: &str) -> (c: Check)
    ensures
        check_view(c) == ("binary"@, true, "community-agent "@ + version@, None::<Seq<char>>),
{
    let mut d = String::new();
    append_str(&mut d, "community-agent ");
    append_str(&mut d, version);
    make_check("binary", true, d, None)
}

/// The server answered its health check: it passes when it reports `ok`.
pub fn server_check(h: &Health) -> (c: Check)
    ensures
        c.ok == (h.status@ == "ok"@),
        check_view(c) == (
            "server"@,
            h.status@ == "ok"@,
            h.service@ + " v"@ + h.version@ + " status="@ + h.status@,
            if h.status@ == "ok"@ {
                None
            } else {
                Some("server_unhealthy"@)
            },
        ),
{
    let ok = server_healthy(h);
    let mut d = String::new();
    append_str(&mut d, h.service.as_str());
    append_str(&mut d, " v");
    append_str(&mut d, h.version.as_str());
    append_str(&mut d, " status=");
    append_str(&mut d, h.status.as_str());
    make_check(
        "server",
        ok,
        d,
        if ok {
            None
        } else {
            Some("server_unhealthy")
        },
    )
}

/// The server did not answer.
pub fn server_unreachable_check(err: &str) -> (c: Check)
    ensures
        check_view(c) == ("server"@, false, "unreachable: "@ + err@, Some("server_unreachable"@)),
{
    let mut d = String::new();
    append_str(&mut d, "unreachable: ");
    append_str(&mut d, err);
    make_check("server", false, d, Some("server_unreachable"))
}

/// The wallet: installed (`installed`) and reporting an address
/// (`address`).
pub fn wallet_check(installed: bool, address: Option<&str>) -> (c: Check)
    ensures
        check_view(c) == if !installed {
            (
                "wallet"@,
                false,
                "awp-wallet not on PATH (run `community-agent bootstrap`)"@,
                Some("wallet_not_installed"@),
            )
        } else {
            match address {
                Some(a) => ("wallet"@, true, "initialized: "@ + a@, None),
                None => (
                    "wallet"@,
                    false,
                    "installed but not initialized (run `community-agent bootstrap`)"@,
                    Some("wallet_not_initialized"@),
                ),
            }
        },
{
    if !installed {
        return make_check(
            "wallet",
            false,
            "awp-wallet not on PATH (run `community-agent bootstrap`)".to_owned(),
            Some("wallet_not_installed"),
        );
    }
    match address {
        Some(a) => {
            let mut d = String::new();
            append_str(&mut d, "initialized: ");
            append_str(&mut d, a);
            make_check("wallet", true, d, None)
        },
        None => make_check(
            "wallet",
            false,
            "installed but not initialized (run `community-agent bootstrap`)".to_owned(),
            Some("wallet_not_initialized"),
        ),
    }
}

/// The wallet's AWP registration: registered, not registered, or the
/// check failed with `Err(message)`.
pub fn awp_check(registered: Result<bool, &str>) -> (c: Check)
    ensures
        check_view(c) == match registered {
            Ok(true) => ("awp_registration"@, true, "registered"@, None),
            Ok(false) => (
                "awp_registration"@,
                false,
                "NOT registered (run `community-agent bootstrap`)"@,
                Some("awp_not_registered"@),
            ),
            Err(e) => (
                "awp_registration"@,
                false,
                "check failed: "@ + e@,
                Some("awp_check_failed"@),
            ),
        },
{
    match registered {
        Ok(true) => make_check("awp_registration", true, "registered".to_owned(), None),
        Ok(false) => make_check(
            "awp_registration",
            false,
            "NOT registered (run `community-agent bootstrap`)".to_owned(),
            Some("awp_not_registered"),
        ),
        Err(e) => {
            let mut d = String::new();
            append_str(&mut d, "check failed: ");
            append_str(&mut d, e);
            make_check("awp_registration", false, d, Some("awp_check_failed"))
        },
    }
}

/// The community identity: skipped without an api key, else whether
/// `/api/user/me` accepted it (`Err(message)` when it did not).
pub fn identity_check(me: Option<Result<&Me, &str>>) -> (c: Check)
    ensures
        check_view(c) == match me {
            None => (
                "identity"@,
                true,
                "skipped \u{2014} no api_key in env (expected on a fresh machine)"@,
                None,
            ),
            Some(Ok(m)) => (
                "identity"@,
                true,
                "authenticated as "@ + spec_display_name(opt_seq(m.username)) + " ("@
                    + m.user_type@ + ")"@,
                None,
            ),
            Some(Err(e)) => (
                "identity"@,
                false,
                "api_key rejected: "@ + e@,
                Some("identity_rejected"@),
            ),
        },
{
    match me {
        None => make_check(
            "identity",
            true,
            "skipped \u{2014} no api_key in env (expected on a fresh machine)".to_owned(),
            None,
        ),
        Some(Ok(m)) => {
            let mut d = String::new();
            append_str(&mut d, "authenticated as ");
            match &m.username {
                Some(u) => append_str(&mut d, u.as_str()),
                None => append_str(&mut d, "unnamed"),
            }
            append_str(&mut d, " (");
            append_str(&mut d, m.user_type.as_str());
            append_str(&mut d, ")");
            make_check("identity", true, d, None)
        },
        Some(Err(e)) => {
            let mut d = String::new();
            append_str(&mut d, "api_key rejected: ");
            append_str(&mut d, e);
            make_check("identity", false, d, Some("identity_rejected"))
        },
    }
}

/// Whether every check passed.
pub open spec fn spec_all_passed(cs: Seq<Check>) -> bool {
    forall|i: int| 0 <= i < cs.len() ==> #[trigger] cs[i].ok
}

/// The failure tag of the first check that did not pass.
pub open spec fn spec_first_failure(cs: Seq<Check>) -> Option<Seq<char>>
    decreases cs.len(),
{
    if cs.len() == 0 {
        None
    } else if !cs[0].ok {
        opt_seq(cs[0].tag)
    } else {
        spec_first_failure(cs.drop_first())
    }
}

/// The verdict over the matrix: whether every check passed, and the
/// failure tag of the first one that did not.
pub fn readiness(checks: &Vec<Check>) -> (res: (bool, Option<String>))
    ensures
        res.0 == spec_all_passed(checks@),
        opt_seq(res.1) == spec_first_failure(checks@),
{
    let mut i: usize = 0;
    assert(checks@.skip(0) =~= checks@);
    while i < checks.len()
        invariant
            i <= checks@.len(),
            forall|k: int| 0 <= k < i ==> #[trigger] checks@[k].ok,
            spec_first_failure(checks@) == spec_first_failure(checks@.skip(i as int)),
        decreases checks@.len() - i,
    {
        let ghost t = checks@.skip(i as int);
        assert(t[0] == checks@[i as int]);
        if !checks[i].ok {
            let tag = match &checks[i].tag {
                Some(t) => Some(t.clone()),
                None => None,
            };
            return (false, tag);
        }
        assert(t.drop_first() =~= checks@.skip(i + 1));
        i = i + 1;
    }
    assert(checks@.skip(i as int) =~= Seq::<Check>::empty());
    (true, None)
}

/// The command that fixes the first failing check, if there is one.
pub open spec fn spec_fix_command(fail: Seq<char>) -> Option<Seq<char>> {
    if fail == "server_unreachable"@ {
        Some("wait and retry; check COMMUNITY_SERVER_URL"@)
    } else if fail == "wallet_not_installed"@ || fail == "wallet_not_initialized"@ || fail
        == "awp_not_registered"@ || fail == "awp_check_failed"@ {
        Some("community-agent bootstrap"@)
    } else if fail == "identity_rejected"@ {
        Some("community-agent register --name <new_name>"@)
    } else {
        None
    }
}

/// The readiness report: ready when every check passed, else what to fix
/// first (`first_fail` is the first failing check, if any was recorded).
pub fn smoke_ok(all_ok: bool, first_fail: Option<&str>, data: serde_json::Value) -> (out: Output)
    ensures
        all_ok ==> succeeded(out, "all readiness checks passed"@, data) && hints(out.internal) == (
            Some("ready"@),
            None::<Seq<char>>,
            Some(
                "runtime is ready \u{2014} next: `community-agent register --name <X>` (if identity is missing) or `community-agent feed` (if already registered)"@,
            ),
        ),
        !all_ok ==> ({
            let fail = match first_fail {
                Some(f) => f@,
                None => seq![],
            };
            &&& succeeded(out, "readiness check failed: "@ + fail, data)
            &&& hints(out.internal) == (
                Some("fix:"@ + fail),
                spec_fix_command(fail),
                Some("see `checks` array for the failing component"@),
            )
        }),
{
    if all_ok {
        return Output::ok(
            "all readiness checks passed".to_owned(),
            data,
            Internal {
                next_action: Some("ready".to_owned()),
                next_command: None,
                hint: Some(
                    "runtime is ready \u{2014} next: `community-agent register --name <X>` (if identity is missing) or `community-agent feed` (if already registered)".to_owned(),
                ),
            },
        );
    }
    let fail: &str = match first_fail {
        Some(f) => f,
        None => "",
    };
    proof {
        reveal_strlit("");
        assert(fail@ =~= match first_fail {
            Some(f) => f@,
            None => Seq::<char>::empty(),
        });
    }
    let next_command = if str_eq(fail, "server_unreachable") {
        Some("wait and retry; check COMMUNITY_SERVER_URL".to_owned())
    } else if str_eq(fail, "wallet_not_installed") || str_eq(fail, "wallet_not_initialized")
        || str_eq(fail, "awp_not_registered") || str_eq(fail, "awp_check_failed") {
        Some("community-agent bootstrap".to_owned())
    } else if str_eq(fail, "identity_rejected") {
        Some("community-agent register --name <new_name>".to_owned())
    } else {
        None
    };
    let mut action = String::new();
    append_str(&mut action, "fix:");
    append_str(&mut action, fail);
    let mut msg = String::new();
    append_str(&mut msg, "readiness check failed: ");
    append_str(&mut msg, fail);
    Output::ok(
        msg,
        data,
        Internal {
            next_action: Some(action),
            next_command,
            hint: Some("see `checks` array for the failing component".to_owned()),
        },
    )
}

} // verus!
