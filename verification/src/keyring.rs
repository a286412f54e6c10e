//! On-disk keyring layout: identities live under
//! `$HOME/.community/keys/<name>.json`, the active one is named in
//! `$HOME/.community/current`. The file system itself is touched by the
//! application; this module decides every path and name.

use vstd::prelude::*;

use crate::order::{seq_le, seq_lt, sorted, str_lt, lemma_lt_total, lemma_lt_transitive};
use crate::text::{
    append_str, is_name_char, law_sanitize_idempotent, push_char, sanitize, spec_sanitize,
    spec_trim, trim, trim_end, trim_start,
};

verus! {

/// An agent identity as stored in its key file.
#[derive(Debug, Clone)]
pub struct StoredIdentity {
    pub name: String,
    pub api_key: String,
    pub agent_address: String,
    pub chain_address: String,
    pub created_at: String,
    pub claim_code: String,
    pub claim_url: String,
}

/// Why a keyring path could not be formed.
#[derive(PartialEq, Eq, Structural, Debug, Clone, Copy)]
pub enum KeyringError {
    /// `HOME` is unset (or not valid Unicode).
    HomeNotSet,
}

/// `base` joined with the relative component `comp`, with a `/` between
/// them unless `base` is empty or already ends in `/` (what
/// `PathBuf::join` does on Unix for a relative component).
pub open spec fn spec_join(base: Seq<char>, comp: Seq<char>) -> Seq<char> {
    if base.len() == 0 {
        comp
    } else if base.last() == '/' {
        base + comp
    } else {
        base + seq!['/'] + comp
    }
}

/// Joins a relative path component onto a directory path.
pub fn path_join(base: &str, comp: &str) -> (res: String)
    ensures
        res@ == spec_join(base@, comp@),
{
    let n = base.unicode_len();
    let mut out = base.to_owned();
    if n > 0 && base.get_char(n - 1) != '/' {
        push_char(&mut out, '/');
    }
    append_str(&mut out, comp);
    out
}

pub open spec fn spec_config_dir(home: Seq<char>) -> Seq<char> {
    spec_join(home, ".community"@)
}

pub open spec fn spec_keys_dir(home: Seq<char>) -> Seq<char> {
    spec_join(spec_config_dir(home), "keys"@)
}

pub open spec fn spec_current_file(home: Seq<char>) -> Seq<char> {
    spec_join(spec_config_dir(home), "current"@)
}

/// The key file of the identity called `name`.
pub open spec fn spec_identity_file(home: Seq<char>, name: Seq<char>) -> Seq<char> {
    spec_join(spec_keys_dir(home), spec_sanitize(name) + ".json"@)
}

/// `$HOME/.community`, or an error when `HOME` is not available.
pub fn config_dir(home: Option<&str>) -> (res: Result<String, KeyringError>)
    ensures
        match home {
            None => res == Err::<String, KeyringError>(KeyringError::HomeNotSet),
            Some(h) => res matches Ok(p) && p@ == spec_config_dir(h@),
        },
{
    match home {
        None => Err(KeyringError::HomeNotSet),
        Some(h) => Ok(path_join(h, ".community")),
    }
}

/// `$HOME/.community/keys`.
pub fn keys_dir(home: Option<&str>) -> (res: Result<String, KeyringError>)
    ensures
        match home {
            None => res == Err::<String, KeyringError>(KeyringError::HomeNotSet),
            Some(h) => res matches Ok(p) && p@ == spec_keys_dir(h@),
        },
{
    let dir = config_dir(home)?;
    Ok(path_join(&dir, "keys"))
}

/// `$HOME/.community/current`.
pub fn current_file(home: Option<&str>) -> (res: Result<String, KeyringError>)
    ensures
        match home {
            None => res == Err::<String, KeyringError>(KeyringError::HomeNotSet),
            Some(h) => res matches Ok(p) && p@ == spec_current_file(h@),
        },
{
    let dir = config_dir(home)?;
    Ok(path_join(&dir, "current"))
}

/// `$HOME/.community/keys/<sanitized name>.json`, where both saving and
/// loading an identity look.
pub fn identity_file(home: Option<&str>, name: &str) -> (res: Result<String, KeyringError>)
    ensures
        match home {
            None => res == Err::<String, KeyringError>(KeyringError::HomeNotSet),
            Some(h) => res matches Ok(p) && p@ == spec_identity_file(h@, name@),
        },
{
    let dir = keys_dir(home)?;
    let mut file = sanitize(name);
    append_str(&mut file, ".json");
    Ok(path_join(&dir, &file))
}

/// What `set_current` writes into the `current` file for `name`.
pub fn current_file_contents(name: &str) -> (res: String)
    ensures
        res@ == spec_sanitize(name@),
{
    sanitize(name)
}

/// The identity name held by the `current` file: its trimmed contents,
/// or nothing when they are blank.
pub open spec fn spec_current_name(contents: Seq<char>) -> Option<Seq<char>> {
    let t = spec_trim(contents);
    if t.len() == 0 {
        None
    } else {
        Some(t)
    }
}

/// Reads the active identity's name out of the `current` file contents.
pub fn current_name(contents: &str) -> (res: Option<String>)
    ensures
        match spec_current_name(contents@) {
            None => res is None,
            Some(t) => res matches Some(n) && n@ == t,
        },
{
    let t = trim(contents);
    if t.unicode_len() == 0 {
        None
    } else {
        Some(t.to_owned())
    }
}

/// Sanitized names contain no white space.
proof fn lemma_sanitized_no_ws(s: Seq<char>)
    ensures
        spec_trim(spec_sanitize(s)) == spec_sanitize(s),
{
    let t = spec_sanitize(s);
    law_sanitize_idempotent(s);
    if t.len() > 0 {
        assert(is_name_char(t[0]));
        assert(is_name_char(t.last()));
    }
    assert(trim_start(t) == t);
    assert(trim_end(t) == t);
}

/// Law: after `set_current(name)` (which writes `current_file_contents`),
/// the identity that `load_current` reads is the one `save_identity`
/// stored under `name`: the `current` file names a key file, and that
/// key file is exactly the one saved for `name`, whenever `name` is not
/// empty.
pub proof fn law_current_roundtrip(home: Seq<char>, name: Seq<char>)
    requires
        name.len() > 0,
    ensures
        spec_current_name(spec_sanitize(name)) == Some(spec_sanitize(name)),
        spec_identity_file(home, spec_sanitize(name)) == spec_identity_file(home, name),
{
    lemma_sanitized_no_ws(name);
    law_sanitize_idempotent(name);
}

/// The api key to use: a non-empty `--api-key` flag first, then a
/// non-empty `COMMUNITY_API_KEY`, then the active keyring identity's key.
pub open spec fn spec_resolve_api_key(
    flag: Option<Seq<char>>,
    env: Option<Seq<char>>,
    stored: Option<Seq<char>>,
) -> Option<Seq<char>> {
    if flag matches Some(f) && f.len() > 0 {
        flag
    } else if env matches Some(e) && e.len() > 0 {
        env
    } else {
        stored
    }
}

pub open spec fn opt_view(o: Option<&str>) -> Option<Seq<char>> {
    match o {
        Some(s) => Some(s@),
        None => None,
    }
}

pub open spec fn opt_string_view(o: Option<String>) -> Option<Seq<char>> {
    match o {
        Some(s) => Some(s@),
        None => None,
    }
}

/// Resolves the api key from the CLI flag, the environment and the
/// keyring's active identity, in that order.
pub fn resolve_api_key(flag: Option<&str>, env: Option<&str>, stored: Option<&str>) -> (res:
    Option<String>)
    ensures
        opt_string_view(res) == spec_resolve_api_key(opt_view(flag), opt_view(env), opt_view(stored)),
{
    if let Some(k) = flag {
        if k.unicode_len() > 0 {
            return Some(k.to_owned());
        }
    }
    if let Some(k) = env {
        if k.unicode_len() > 0 {
            return Some(k.to_owned());
        }
    }
    match stored {
        Some(k) => Some(k.to_owned()),
        None => None,
    }
}

/// Whether the keyring has to be read to resolve the api key.
pub fn needs_stored_key(flag: Option<&str>, env: Option<&str>) -> (b: bool)
    ensures
        b == !((opt_view(flag) matches Some(f) && f.len() > 0) || (opt_view(env) matches Some(e)
            && e.len() > 0)),
{
    let f = match flag {
        Some(k) => k.unicode_len() > 0,
        None => false,
    };
    let e = match env {
        Some(k) => k.unicode_len() > 0,
        None => false,
    };
    !(f || e)
}

/// Index of the last `.` in `s`, or -1.
pub open spec fn last_dot(s: Seq<char>) -> int
    decreases s.len(),
{
    if s.len() == 0 {
        -1
    } else if s.last() == '.' {
        s.len() - 1
    } else {
        last_dot(s.drop_last())
    }
}

proof fn lemma_last_dot(s: Seq<char>)
    ensures
        -1 <= last_dot(s) < s.len(),
        last_dot(s) >= 0 ==> s[last_dot(s)] == '.',
        forall|i: int| last_dot(s) < i < s.len() ==> s[i] != '.',
    decreases s.len(),
{
    if s.len() > 0 && s.last() != '.' {
        lemma_last_dot(s.drop_last());
        assert forall|i: int| last_dot(s) < i < s.len() implies s[i] != '.' by {
            if i < s.len() - 1 {
                assert(s[i] == s.drop_last()[i]);
            }
        }
    }
}

/// The identity name a key file stands for: the stem of a file whose
/// extension is `json` (a leading dot does not start an extension).
pub open spec fn json_stem(file: Seq<char>) -> Option<Seq<char>> {
    let d = last_dot(file);
    if d > 0 && file.subrange(d + 1, file.len() as int) == "json"@ {
        Some(file.take(d))
    } else {
        None
    }
}

fn json_stem_exec(file: &str) -> (res: Option<String>)
    ensures
        opt_string_view(res) == json_stem(file@),
{
    proof {
        lemma_last_dot(file@);
    }
    let n = file.unicode_len();
    let mut d: usize = n;
    while d > 0 && file.get_char(d - 1) != '.'
        invariant
            d <= n,
            n == file@.len(),
            forall|i: int| d <= i < n ==> file@[i] != '.',
        decreases d,
    {
        d = d - 1;
    }
    if d <= 1 {
        proof {
            if last_dot(file@) > 0 {
                assert(file@[last_dot(file@)] == '.');
            }
        }
        return None;
    }
    let dot = d - 1;
    assert(last_dot(file@) == dot) by {
        if last_dot(file@) > dot {
            assert(file@[last_dot(file@)] == '.');
        }
        if last_dot(file@) < dot {
            assert(file@[dot as int] == '.');
        }
    }
    let ext = file.substring_char(d, n);
    proof {
        reveal_strlit("json");
    }
    let is_json = ext.unicode_len() == 4 && ext.get_char(0) == 'j' && ext.get_char(1) == 's'
        && ext.get_char(2) == 'o' && ext.get_char(3) == 'n';
    if is_json {
        assert(ext@ =~= "json"@);
        Some(file.substring_char(0, dot).to_owned())
    } else {
        assert(ext@ != "json"@) by {
            if ext@ == "json"@ {
                assert(ext@[0] == 'j' && ext@[1] == 's' && ext@[2] == 'o' && ext@[3] == 'n');
            }
        }
        None
    }
}

pub open spec fn names_view(v: Seq<String>) -> Seq<Seq<char>> {
    v.map_values(|s: String| s@)
}

/// The identity names found among the file names of the keys directory,
/// before sorting.
pub open spec fn spec_stems(files: Seq<Seq<char>>) -> Seq<Seq<char>> {
    files.filter_map(|f: Seq<char>| json_stem(f))
}

/// Inserts `x` into a sorted vector, keeping it sorted.
fn insert_sorted(v: &mut Vec<String>, x: String)
    requires
        sorted(names_view(old(v)@)),
    ensures
        sorted(names_view(final(v)@)),
        names_view(final(v)@).to_multiset() == names_view(old(v)@).to_multiset().insert(x@),
{
    let n = v.len();
    let mut p: usize = 0;
    while p < n && !str_lt(&x, &v[p])
        invariant
            p <= n,
            n == v@.len(),
            forall|i: int| 0 <= i < p ==> seq_le(#[trigger] v@[i]@, x@),
        decreases n - p,
    {
        proof {
            lemma_lt_total(x@, v@[p as int]@);
        }
        p = p + 1;
    }
    let ghost before = names_view(v@);
    proof {
        assert forall|i: int| p <= i < n implies seq_lt(x@, #[trigger] v@[i]@) by {
            assert(seq_lt(x@, v@[p as int]@));
            if i > p {
                assert(seq_le(v@[p as int]@, v@[i]@)) by {
                    assert(names_view(v@)[p as int] == v@[p as int]@);
                    assert(names_view(v@)[i] == v@[i]@);
                }
                if v@[p as int]@ != v@[i]@ {
                    lemma_lt_transitive(x@, v@[p as int]@, v@[i]@);
                }
            }
        }
    }
    let ghost xv = x@;
    v.insert(p, x);
    proof {
        let after = names_view(v@);
        assert(after =~= before.insert(p as int, xv));
        vstd::seq_lib::to_multiset_insert(before, p as int, xv);
        assert forall|i: int, j: int| 0 <= i < j < after.len() implies seq_le(
            #[trigger] after[i],
            #[trigger] after[j],
        ) by {
            if j < p {
                assert(after[i] == before[i] && after[j] == before[j]);
            } else if j == p {
                assert(after[i] == before[i]);
            } else if i < p {
                assert(after[i] == before[i] && after[j] == before[j - 1]);
                assert(seq_le(before[i], xv));
                assert(seq_lt(xv, before[j - 1]));
                if before[i] != xv {
                    lemma_lt_transitive(before[i], xv, before[j - 1]);
                }
            } else if i == p {
                assert(after[j] == before[j - 1]);
            } else {
                assert(after[i] == before[i - 1] && after[j] == before[j - 1]);
            }
        }
    }
}

/// The sorted identity names among the given key-directory file names:
/// every `<stem>.json` contributes `<stem>`.
pub fn identity_names(files: &Vec<String>) -> (res: Vec<String>)
    ensures
        sorted(names_view(res@)),
        names_view(res@).to_multiset() == spec_stems(names_view(files@)).to_multiset(),
{
    let mut out: Vec<String> = Vec::new();
    let mut i: usize = 0;
    proof {
        let e = names_view(files@.take(0));
        assert(e =~= Seq::<Seq<char>>::empty());
        assert(spec_stems(e) =~= Seq::<Seq<char>>::empty());
        assert(names_view(out@) =~= Seq::<Seq<char>>::empty());
    }
    while i < files.len()
        invariant
            i <= files@.len(),
            sorted(names_view(out@)),
            names_view(out@).to_multiset() == spec_stems(names_view(files@.take(i as int))).to_multiset(),
        decreases files@.len() - i,
    {
        let ghost prev = names_view(files@.take(i as int));
        let stem = json_stem_exec(&files[i]);
        proof {
            let next = names_view(files@.take(i + 1));
            assert(next.drop_last() =~= prev);
            assert(next.last() == files@[i as int]@);
        }
        match stem {
            Some(s) => {
                proof {
                    let next = names_view(files@.take(i + 1));
                    assert(spec_stems(next) == spec_stems(prev) + seq![s@]);
                    vstd::seq_lib::to_multiset_build(spec_stems(prev), s@);
                    assert(spec_stems(prev) + seq![s@] =~= spec_stems(prev).push(s@));
                }
                insert_sorted(&mut out, s);
            },
            None => {
                proof {
                    let next = names_view(files@.take(i + 1));
                    assert(spec_stems(next) == spec_stems(prev));
                }
            },
        }
        i = i + 1;
    }
    assert(files@.take(files@.len() as int) =~= files@);
    out
}

} // verus!
