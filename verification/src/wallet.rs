//! Wallet helpers: address normalisation and resolution, reading the
//! address that `awp-wallet receive` reports, Keccak-256 digests, and
//! recoverable ECDSA signatures over secp256k1 for AWP chain operations.

use sha3::Digest;
use vstd::prelude::*;
use vstd::string::*;

use crate::keyring::opt_view;
use crate::text::{
    append_str, byte_len, decimal_u64, is_ws, spec_decimal, spec_starts_with, spec_trim, starts_with, trim, trim_start, utf8,
};

verus! {

/// Why an address or key could not be resolved, or a digest not signed.
#[derive(PartialEq, Eq, Structural, Debug, Clone, Copy)]
pub enum WalletError {
    /// The address is not 40 hex characters long (its byte length).
    BadAddressLength(usize),
    /// The address holds something other than hex digits.
    NonHexAddress,
    /// No address came from the flag, the environment or `awp-wallet`.
    NoAddress,
    /// Neither private-key variable is set.
    NoPrivateKey,
    /// The private key is not valid hex.
    BadKeyHex,
    /// The private key is not a valid secp256k1 secret scalar.
    InvalidKey,
    /// Signing the digest failed.
    SignFailed,
}

/// The message shown for each wallet error.
pub open spec fn spec_wallet_error_message(e: WalletError) -> Seq<char> {
    match e {
        WalletError::BadAddressLength(n) => "address must be 40 hex chars (got "@ + spec_decimal(
            n as int,
        ) + ")"@,
        WalletError::NonHexAddress => "address contains non-hex chars"@,
        WalletError::NoAddress => "no AWP address available \u{2014} pass --address 0x..., set COMMUNITY_AWP_ADDRESS, or install awp-wallet so `awp-wallet receive` works"@,
        WalletError::NoPrivateKey => "no private key \u{2014} set COMMUNITY_AWP_PRIVATE_KEY or AWP_PRIVATE_KEY"@,
        WalletError::BadKeyHex => "decode private key hex"@,
        WalletError::InvalidKey => "invalid private key"@,
        WalletError::SignFailed => "sign prehash"@,
    }
}

impl WalletError {
    /// The error's message.
    pub fn message(&self) -> (res: String)
        ensures
            res@ == spec_wallet_error_message(*self),
    {
        match self {
            WalletError::BadAddressLength(n) => {
                let mut m = String::new();
                append_str(&mut m, "address must be 40 hex chars (got ");
                let d = decimal_u64(*n as u64);
                append_str(&mut m, &d);
                append_str(&mut m, ")");
                m
            },
            WalletError::NonHexAddress => "address contains non-hex chars".to_owned(),
            WalletError::NoAddress => "no AWP address available \u{2014} pass --address 0x..., set COMMUNITY_AWP_ADDRESS, or install awp-wallet so `awp-wallet receive` works".to_owned(),
            WalletError::NoPrivateKey => "no private key \u{2014} set COMMUNITY_AWP_PRIVATE_KEY or AWP_PRIVATE_KEY".to_owned(),
            WalletError::BadKeyHex => "decode private key hex".to_owned(),
            WalletError::InvalidKey => "invalid private key".to_owned(),
            WalletError::SignFailed => "sign prehash".to_owned(),
        }
    }
}

/// The lower-case form of a string, as `str::to_lowercase` computes it
/// (Unicode case mapping).
pub uninterp spec fn spec_to_lowercase(s: Seq<char>) -> Seq<char>;

/// Text made only of ASCII characters.
pub open spec fn is_ascii_text(s: Seq<char>) -> bool {
    forall|i: int| 0 <= i < s.len() ==> #[trigger] s[i] <= '\u{7f}'
}

/// ASCII lower-casing of one character: `A`-`Z` become `a`-`z`, every
/// other character stays.
pub open spec fn ascii_lower_char(c: char) -> char {
    if 'A' <= c && c <= 'Z' {
        (c as int + 32) as char
    } else {
        c
    }
}

/// ASCII lower-casing, character by character.
pub open spec fn ascii_lower(s: Seq<char>) -> Seq<char> {
    Seq::new(s.len(), |i: int| ascii_lower_char(s[i]))
}

/// std's `str::to_lowercase`: the result is the string's Unicode
/// lower-case equivalent, named by `spec_to_lowercase`; being lower case
/// it holds no ASCII capital letter. On ASCII text it maps `A`-`Z` to
/// `a`-`z` one for one and keeps every other character. Nothing more of
/// the Unicode mapping is stated.
#[verifier::external_body]
fn to_lowercase(s: &str) -> (res: String)
    ensures
        res@ == spec_to_lowercase(s@),
        forall|i: int| 0 <= i < res@.len() ==> !('A' <= #[trigger] res@[i] && res@[i] <= 'Z'),
        is_ascii_text(s@) ==> res@ == ascii_lower(s@),
{
    s.to_lowercase()
}

/// An ASCII hex digit, either case.
pub open spec fn is_hex_digit(c: char) -> bool {
    ||| ('0' <= c && c <= '9')
    ||| ('a' <= c && c <= 'f')
    ||| ('A' <= c && c <= 'F')
}

fn is_hex_digit_exec(c: char) -> (b: bool)
    ensures
        b == is_hex_digit(c),
{
    ('0' <= c && c <= '9') || ('a' <= c && c <= 'f') || ('A' <= c && c <= 'F')
}

/// `s` without one leading `0x`, if it has one.
pub open spec fn strip_0x(s: Seq<char>) -> Seq<char> {
    if spec_starts_with(s, "0x"@) {
        s.skip(2)
    } else {
        s
    }
}

/// The check applied to an already trimmed and lower-cased address.
pub open spec fn spec_check_hex_address(lowered: Seq<char>) -> Result<Seq<char>, WalletError> {
    let s = strip_0x(lowered);
    if utf8(s).len() != 40 {
        Err(WalletError::BadAddressLength(utf8(s).len() as usize))
    } else if !(forall|i: int| 0 <= i < s.len() ==> is_hex_digit(#[trigger] s[i])) {
        Err(WalletError::NonHexAddress)
    } else {
        Ok("0x"@ + s)
    }
}

pub open spec fn result_view(r: Result<String, WalletError>) -> Result<Seq<char>, WalletError> {
    match r {
        Ok(s) => Ok(s@),
        Err(e) => Err(e),
    }
}

/// Checks an address that has been trimmed and lower-cased: one leading
/// `0x` is dropped, then exactly 40 bytes of hex digits must remain.
pub fn check_hex_address(lowered: &str) -> (res: Result<String, WalletError>)
    ensures
        result_view(res) == spec_check_hex_address(lowered@),
{
    proof {
        reveal_strlit("0x");
    }
    let s: &str = if starts_with(lowered, "0x") {
        lowered.substring_char(2, lowered.unicode_len())
    } else {
        lowered
    };
    assert(s@ =~= strip_0x(lowered@));
    let n = byte_len(s);
    if n != 40 {
        return Err(WalletError::BadAddressLength(n));
    }
    let len = s.unicode_len();
    let mut i: usize = 0;
    while i < len
        invariant
            i <= len,
            len == s@.len(),
            utf8(s@).len() == 40,
            s@ == strip_0x(lowered@),
            forall|j: int| 0 <= j < i ==> is_hex_digit(#[trigger] s@[j]),
        decreases len - i,
    {
        if !is_hex_digit_exec(s.get_char(i)) {
            assert(!is_hex_digit(s@[i as int]));
            return Err(WalletError::NonHexAddress);
        }
        i = i + 1;
    }
    let mut out = String::new();
    append_str(&mut out, "0x");
    append_str(&mut out, s);
    Ok(out)
}

/// Law: a normalised address passes the check again unchanged, and it is
/// `0x` followed by 40 hex digits.
pub proof fn law_check_hex_address_idempotent(lowered: Seq<char>)
    requires
        spec_check_hex_address(lowered) is Ok,
    ensures
        spec_check_hex_address(spec_check_hex_address(lowered)->Ok_0) == spec_check_hex_address(
            lowered,
        ),
        spec_check_hex_address(lowered)->Ok_0.len() == 42,
{
    reveal_strlit("0x");
    let s = strip_0x(lowered);
    let r = "0x"@ + s;
    assert(spec_starts_with(r, "0x"@)) by {
        assert(r.take(2) =~= "0x"@);
    }
    assert(strip_0x(r) =~= s);
    assert(forall|i: int| 0 <= i < s.len() ==> '\0' <= #[trigger] s[i] <= '\u{7f}');
    vstd::utf8::is_ascii_chars_encode_utf8(s);
}

/// The normalised form of a user-supplied address: trimmed, lower-cased,
/// then checked.
pub open spec fn spec_normalize_hex_address(a: Seq<char>) -> Result<Seq<char>, WalletError> {
    spec_check_hex_address(spec_to_lowercase(spec_trim(a)))
}

/// A lower-case hex digit.
pub open spec fn is_lower_hex_digit(c: char) -> bool {
    ('0' <= c && c <= '9') || ('a' <= c && c <= 'f')
}

/// The normal form of an address: `0x` followed by 40 lower-case hex
/// digits.
pub open spec fn is_normal_address(s: Seq<char>) -> bool {
    &&& s.len() == 42
    &&& s[0] == '0'
    &&& s[1] == 'x'
    &&& forall|i: int| 2 <= i < 42 ==> is_lower_hex_digit(#[trigger] s[i])
}

proof fn lemma_normal_address_trimmed(s: Seq<char>)
    requires
        is_normal_address(s),
    ensures
        spec_trim(s) == s,
        is_ascii_text(s),
{
    assert(!is_ws(s[0]));
    assert(trim_start(s) == s);
    assert(s.last() == s[41]);
    assert(is_lower_hex_digit(s[41]));
    assert(!is_ws(s.last()));
}

/// Normalises an EVM address to lower-case `0x` + 40 hex digits; the
/// normal form normalises to itself.
pub fn normalize_hex_address(a: &str) -> (res: Result<String, WalletError>)
    ensures
        result_view(res) == spec_normalize_hex_address(a@),
        res matches Ok(r) ==> is_normal_address(r@),
        res matches Ok(r) ==> spec_normalize_hex_address(r@) == Ok::<Seq<char>, WalletError>(r@),
        is_ascii_text(spec_trim(a@)) ==> result_view(res) == spec_check_hex_address(
            ascii_lower(spec_trim(a@)),
        ),
{
    let t = trim(a);
    let lowered = to_lowercase(t);
    let res = check_hex_address(&lowered);
    match res {
        Ok(out) => {
            proof {
                law_check_hex_address_idempotent(lowered@);
                reveal_strlit("0x");
                assert forall|i: int| 2 <= i < 42 implies is_lower_hex_digit(#[trigger] out@[i]) by {
                    if spec_starts_with(lowered@, "0x"@) {
                        assert(out@[i] == lowered@[i]);
                    } else {
                        assert(out@[i] == lowered@[i - 2]);
                    }
                    assert(is_hex_digit(out@[i]));
                }
                assert(out@[0] == '0' && out@[1] == 'x');
                lemma_normal_address_trimmed(out@);
                assert(ascii_lower(out@) =~= out@);
            }
            // Lower-casing the normal form again leaves it unchanged, which
            // is what makes normalising idempotent.
            let again = to_lowercase(out.as_str());
            assert(again@ == spec_to_lowercase(spec_trim(out@)));
            Ok(out)
        },
        Err(e) => Err(e),
    }
}

/// The address to use: the explicit flag, else `COMMUNITY_AWP_ADDRESS`,
/// else `AWP_ADDRESS`, else what `awp-wallet receive` reported; the first
/// one present is normalised (and its error, if any, is final).
pub open spec fn spec_resolve_address(
    explicit: Option<Seq<char>>,
    community_env: Option<Seq<char>>,
    awp_env: Option<Seq<char>>,
    wallet: Option<Seq<char>>,
) -> Result<Seq<char>, WalletError> {
    if explicit is Some {
        spec_normalize_hex_address(explicit->Some_0)
    } else if community_env is Some {
        spec_normalize_hex_address(community_env->Some_0)
    } else if awp_env is Some {
        spec_normalize_hex_address(awp_env->Some_0)
    } else if wallet is Some {
        spec_normalize_hex_address(wallet->Some_0)
    } else {
        Err(WalletError::NoAddress)
    }
}

/// Resolves the agent's EVM address from its sources, in order.
pub fn resolve_address(
    explicit: Option<&str>,
    community_env: Option<&str>,
    awp_env: Option<&str>,
    wallet: Option<&str>,
) -> (res: Result<String, WalletError>)
    ensures
        result_view(res) == spec_resolve_address(
            opt_view(explicit),
            opt_view(community_env),
            opt_view(awp_env),
            opt_view(wallet),
        ),
        res matches Ok(r) ==> is_normal_address(r@),
{
    if let Some(a) = explicit {
        return normalize_hex_address(a);
    }
    if let Some(a) = community_env {
        return normalize_hex_address(a);
    }
    if let Some(a) = awp_env {
        return normalize_hex_address(a);
    }
    if let Some(a) = wallet {
        return normalize_hex_address(a);
    }
    Err(WalletError::NoAddress)
}

/// Whether `awp-wallet receive` has to be asked: only when neither the
/// flag nor either environment variable gives an address.
pub fn needs_wallet_lookup(
    explicit: Option<&str>,
    community_env: Option<&str>,
    awp_env: Option<&str>,
) -> (b: bool)
    ensures
        b == (explicit is None && community_env is None && awp_env is None),
{
    explicit.is_none() && community_env.is_none() && awp_env.is_none()
}

pub open spec fn opt_string_view(o: Option<String>) -> Option<Seq<char>> {
    match o {
        Some(s) => Some(s@),
        None => None,
    }
}

/// The string serde_json finds under `key` in `text`: `None` unless `text`
/// parses as a JSON value holding a string at that key.
pub uninterp spec fn spec_json_str_field(text: Seq<char>, key: Seq<char>) -> Option<Seq<char>>;

/// serde_json's `from_str` into a `Value`, then `Value::get(key)` and
/// `Value::as_str`: the string at `key` when `text` is JSON with one there.
/// The parse is a function of `text` alone; it is named by
/// `spec_json_str_field`, not stated.
#[verifier::external_body]
fn json_str_field(text: &str, key: &str) -> (res: Option<String>)
    ensures
        opt_string_view(res) == spec_json_str_field(text@, key@),
{
    let v: serde_json::Value = serde_json::from_str(text).ok()?;
    v.get(key).and_then(|x| x.as_str()).map(|s| s.to_owned())
}

/// The address in `awp-wallet receive` output when resolving the agent's
/// address: the JSON `address` string if there is one, else the trimmed
/// output when it starts with `0x`.
pub open spec fn spec_receive_address(stdout: Seq<char>) -> Option<Seq<char>> {
    let json_address = spec_json_str_field(stdout, "address"@);
    if json_address is Some {
        json_address
    } else if spec_starts_with(spec_trim(stdout), "0x"@) {
        Some(spec_trim(stdout))
    } else {
        None
    }
}

/// Picks the address out of `awp-wallet receive` output.
pub fn receive_address(stdout: &str) -> (res: Option<String>)
    ensures
        opt_string_view(res) == spec_receive_address(stdout@),
{
    let json_address = json_str_field(stdout, "address");
    if json_address.is_some() {
        return json_address;
    }
    let t = trim(stdout);
    if starts_with(t, "0x") {
        Some(t.to_owned())
    } else {
        None
    }
}

/// The wallet address during bootstrap and the readiness check: the JSON
/// `eoaAddress`, then `address`, each only when it starts with `0x`; else
/// the trimmed output when it starts with `0x` and is 42 bytes long.
pub open spec fn spec_wallet_address(stdout: Seq<char>) -> Option<Seq<char>> {
    let eoa = spec_json_str_field(stdout, "eoaAddress"@);
    let address = spec_json_str_field(stdout, "address"@);
    if eoa matches Some(a) && spec_starts_with(a, "0x"@) {
        eoa
    } else if address matches Some(a) && spec_starts_with(a, "0x"@) {
        address
    } else if spec_starts_with(spec_trim(stdout), "0x"@) && utf8(spec_trim(stdout)).len() == 42 {
        Some(spec_trim(stdout))
    } else {
        None
    }
}

/// Reads the wallet address from `awp-wallet receive` output.
pub fn read_wallet_address(stdout: &str) -> (res: Option<String>)
    ensures
        opt_string_view(res) == spec_wallet_address(stdout@),
{
    let eoa = json_str_field(stdout, "eoaAddress");
    if let Some(a) = eoa {
        if starts_with(a.as_str(), "0x") {
            return Some(a);
        }
    }
    let address = json_str_field(stdout, "address");
    if let Some(a) = address {
        if starts_with(a.as_str(), "0x") {
            return Some(a);
        }
    }
    let t = trim(stdout);
    if starts_with(t, "0x") && byte_len(t) == 42 {
        Some(t.to_owned())
    } else {
        None
    }
}


/// Lower-case hex digit of a value below 16.
pub open spec fn hex_lower(n: u8) -> char {
    if n < 10 {
        (48 + n) as char
    } else {
        (87 + n) as char
    }
}

/// Two lower-case hex digits per byte (what `hex::encode` produces).
pub open spec fn spec_hex_lower(bs: Seq<u8>) -> Seq<char>
    decreases bs.len(),
{
    if bs.len() == 0 {
        seq![]
    } else {
        spec_hex_lower(bs.drop_last()) + seq![hex_lower(bs.last() / 16), hex_lower(bs.last() % 16)]
    }
}

/// `hex::encode`: each byte becomes two lower-case hex digits, high
/// nibble first (the crate encodes with the table `0123456789abcdef`).
#[verifier::external_body]
fn hex_encode(bytes: &[u8]) -> (res: String)
    ensures
        res@ == spec_hex_lower(bytes@),
{
    hex::encode(bytes)
}

/// Value of an ASCII hex digit byte, either case.
pub open spec fn hex_value(b: u8) -> Option<u8> {
    if 48 <= b <= 57 {
        Some((b - 48) as u8)
    } else if 97 <= b <= 102 {
        Some((b - 87) as u8)
    } else if 65 <= b <= 70 {
        Some((b - 55) as u8)
    } else {
        None
    }
}

/// Decoding of an even number of hex digit bytes, two per byte.
pub open spec fn spec_hex_decode(bs: Seq<u8>) -> Option<Seq<u8>>
    decreases bs.len(),
{
    if bs.len() % 2 != 0 {
        None
    } else if bs.len() == 0 {
        Some(seq![])
    } else {
        match (
            spec_hex_decode(bs.take(bs.len() - 2)),
            hex_value(bs[bs.len() - 2]),
            hex_value(bs[bs.len() - 1]),
        ) {
            (Some(front), Some(hi), Some(lo)) => Some(front.push((hi * 16 + lo) as u8)),
            _ => None,
        }
    }
}

#[verifier::external_type_specification]
#[verifier::external_body]
pub struct ExFromHexError(hex::FromHexError);

/// `hex::decode`: an input of odd length, or with a byte that is not a
/// hex digit, is an error; otherwise each pair of digits (either case)
/// gives one byte, high nibble first.
#[verifier::external_body]
fn hex_decode(text: &str) -> (res: Result<Vec<u8>, hex::FromHexError>)
    ensures
        match spec_hex_decode(text.spec_bytes()) {
            Some(v) => res matches Ok(r) && r@ == v,
            None => res is Err,
        },
{
    hex::decode(text)
}

/// Law: decoding what `hex::encode` produced gives the bytes back.
pub proof fn law_hex_roundtrip(bs: Seq<u8>)
    ensures
        spec_hex_decode(utf8(spec_hex_lower(bs))) == Some(bs),
    decreases bs.len(),
{
    let h = spec_hex_lower(bs);
    lemma_hex_lower_ascii(bs);
    vstd::utf8::is_ascii_chars_encode_utf8(h);
    if bs.len() == 0 {
        assert(utf8(h) =~= Seq::<u8>::empty());
    } else {
        let front = bs.drop_last();
        let b = bs.last();
        law_hex_roundtrip(front);
        let hf = spec_hex_lower(front);
        lemma_hex_lower_ascii(front);
        vstd::utf8::is_ascii_chars_encode_utf8(hf);
        let u = utf8(h);
        assert(u.len() == 2 * bs.len());
        assert(u.take(u.len() - 2) =~= utf8(hf)) by {
            assert forall|i: int| 0 <= i < u.len() - 2 implies #[trigger] u.take(u.len() - 2)[i]
                == utf8(hf)[i] by {
                assert(h[i] == hf[i]);
            }
        }
        let hi = b / 16;
        let lo = b % 16;
        assert(u[u.len() - 2] == hex_lower(hi) as u8);
        assert(u[u.len() - 1] == hex_lower(lo) as u8);
        assert(hex_value(hex_lower(hi) as u8) == Some(hi));
        assert(hex_value(hex_lower(lo) as u8) == Some(lo));
        assert(front.push(((hi * 16 + lo) as u8)) =~= bs);
    }
}

proof fn lemma_hex_lower_ascii(bs: Seq<u8>)
    ensures
        spec_hex_lower(bs).len() == 2 * bs.len(),
        vstd::utf8::is_ascii_chars(spec_hex_lower(bs)),
    decreases bs.len(),
{
    if bs.len() > 0 {
        lemma_hex_lower_ascii(bs.drop_last());
    }
}

/// Keccak-256 digest of `data`, as sha3's `Keccak256` computes it.
pub uninterp spec fn spec_keccak256(data: Seq<u8>) -> Seq<u8>;

/// sha3's `Keccak256::digest`: the 32-byte Keccak-256 digest of `data`,
/// named by `spec_keccak256`.
#[verifier::external_body]
fn keccak256(data: &[u8]) -> (res: [u8; 32])
    ensures
        res@ == spec_keccak256(data@),
{
    sha3::Keccak256::digest(data).into()
}

/// Keccak-256 digest as `0x`-prefixed lower-case hex.
pub fn keccak256_hex(data: &[u8]) -> (res: String)
    ensures
        res@ == "0x"@ + spec_hex_lower(spec_keccak256(data@)),
        res@.len() == 66,
{
    let digest = keccak256(data);
    let hex = hex_encode(digest.as_slice());
    let mut out = String::new();
    append_str(&mut out, "0x");
    append_str(&mut out, &hex);
    proof {
        reveal_strlit("0x");
        lemma_hex_lower_ascii(digest@);
    }
    out
}

/// `s` with every leading `0x` removed (what `trim_start_matches("0x")`
/// does).
pub open spec fn strip_all_0x(s: Seq<char>) -> Seq<char>
    decreases s.len(),
{
    if s.len() >= 2 && s[0] == '0' && s[1] == 'x' {
        strip_all_0x(s.skip(2))
    } else {
        s
    }
}

fn strip_all_0x_exec(s: &str) -> (res: &str)
    ensures
        res@ == strip_all_0x(s@),
{
    let n = s.unicode_len();
    let mut i: usize = 0;
    assert(s@.skip(0) =~= s@);
    loop
        invariant
            i <= n,
            n == s@.len(),
            strip_all_0x(s@) == strip_all_0x(s@.skip(i as int)),
        decreases n - i,
    {
        let t = Ghost(s@.skip(i as int));
        if n - i >= 2 && s.get_char(i) == '0' && s.get_char(i + 1) == 'x' {
            assert(t@[0] == '0' && t@[1] == 'x');
            assert(t@.skip(2) =~= s@.skip(i + 2));
            i = i + 2;
        } else {
            assert(!(t@.len() >= 2 && t@[0] == '0' && t@[1] == 'x'));
            let r = s.substring_char(i, n);
            assert(r@ =~= t@);
            return r;
        }
    }
}

/// Big-endian value of a byte string.
pub open spec fn be_value(bs: Seq<u8>) -> nat
    decreases bs.len(),
{
    if bs.len() == 0 {
        0
    } else {
        be_value(bs.drop_last()) * 256 + (bs.last() as nat)
    }
}

/// The order of the secp256k1 group.
pub open spec fn secp256k1_order() -> nat {
    0xFFFFFFFFFFFFFFFFFFFFFFFFFFFFFFFEBAAEDCE6AF48A03BBFD25E8CD0364141nat
}

/// Bytes k256 accepts as a secret key: 24 to 32 bytes whose big-endian
/// value is a non-zero scalar below the group order.
pub open spec fn spec_secret_key_ok(bs: Seq<u8>) -> bool {
    24 <= bs.len() <= 32 && 0 < be_value(bs) < secp256k1_order()
}

/// k256's `SigningKey::from_slice` accepts exactly the slices of 24 to 32
/// bytes (shorter ones are zero-padded on the left) whose big-endian value
/// is non-zero and below the curve order.
#[verifier::external_body]
fn secret_key_accepted(bytes: &[u8]) -> (b: bool)
    ensures
        b == spec_secret_key_ok(bytes@),
{
    k256::ecdsa::SigningKey::from_slice(bytes).is_ok()
}

/// The recoverable ECDSA signature that k256 produces for a secret key and
/// a prehashed message (deterministic nonces, RFC 6979): the 64 bytes
/// `r || s` and the recovery id; `None` when signing fails.
pub uninterp spec fn spec_sign_prehash(secret: Seq<u8>, digest: Seq<u8>) -> Option<(Seq<u8>, u8)>;

/// k256's `SigningKey::sign_prehash_recoverable` on the key built from
/// `secret`: its result is named by `spec_sign_prehash`; a signature is 64
/// bytes and a recovery id is at most 3.
#[verifier::external_body]
fn sign_prehash_recoverable(secret: &[u8], digest: &[u8; 32]) -> (res: Option<(Vec<u8>, u8)>)
    requires
        spec_secret_key_ok(secret@),
    ensures
        match spec_sign_prehash(secret@, digest@) {
            Some((sig, v)) => res matches Some((rs, rv)) && rs@ == sig && rv == v,
            None => res is None,
        },
        res matches Some((rs, rv)) ==> rs@.len() == 64 && rv <= 3,
{
    match k256::ecdsa::SigningKey::from_slice(secret) {
        Ok(key) => match key.sign_prehash_recoverable(digest) {
            Ok((sig, recid)) => Some((sig.to_bytes().to_vec(), recid.to_byte())),
            Err(_) => None,
        },
        Err(_) => None,
    }
}

/// A secp256k1 private key, held as the bytes it was read from.
pub struct PrivateKey {
    secret: Vec<u8>,
}

impl PrivateKey {
    #[verifier::type_invariant]
    spec fn inv(self) -> bool {
        spec_secret_key_ok(self.secret@)
    }

    /// The key's bytes.
    pub closed spec fn secret(self) -> Seq<u8> {
        self.secret@
    }
}

/// The private key text to use: `COMMUNITY_AWP_PRIVATE_KEY`, else
/// `AWP_PRIVATE_KEY`; any leading `0x` is dropped and the rest decoded as
/// hex, which must be a valid secp256k1 secret key.
pub open spec fn spec_private_key_bytes(
    primary: Option<Seq<char>>,
    fallback: Option<Seq<char>>,
) -> Result<Seq<u8>, WalletError> {
    let text = if primary is Some {
        primary
    } else {
        fallback
    };
    match text {
        None => Err(WalletError::NoPrivateKey),
        Some(t) => match spec_hex_decode(utf8(strip_all_0x(t))) {
            None => Err(WalletError::BadKeyHex),
            Some(b) => if spec_secret_key_ok(b) {
                Ok(b)
            } else {
                Err(WalletError::InvalidKey)
            },
        },
    }
}

/// Reads the signing key from the values of `COMMUNITY_AWP_PRIVATE_KEY`
/// and `AWP_PRIVATE_KEY`.
pub fn resolve_private_key(primary: Option<&str>, fallback: Option<&str>) -> (res: Result<
    PrivateKey,
    WalletError,
>)
    ensures
        match spec_private_key_bytes(opt_view(primary), opt_view(fallback)) {
            Ok(b) => res matches Ok(k) && k.secret() == b,
            Err(e) => res == Err::<PrivateKey, WalletError>(e),
        },
{
    let text = match primary {
        Some(t) => t,
        None => match fallback {
            Some(t) => t,
            None => return Err(WalletError::NoPrivateKey),
        },
    };
    let stripped = strip_all_0x_exec(text);
    let bytes = match hex_decode(stripped) {
        Ok(b) => b,
        Err(_) => return Err(WalletError::BadKeyHex),
    };
    if !secret_key_accepted(bytes.as_slice()) {
        return Err(WalletError::InvalidKey);
    }
    Ok(PrivateKey { secret: bytes })
}

/// The 65-byte signature `r || s || v` with `v = 27 + recovery id`, as
/// `0x`-prefixed lower-case hex.
pub open spec fn spec_sign_digest(secret: Seq<u8>, digest: Seq<u8>) -> Result<Seq<char>, WalletError> {
    match spec_sign_prehash(secret, digest) {
        Some((sig, v)) => Ok("0x"@ + spec_hex_lower(sig.push((27 + v) as u8))),
        None => Err(WalletError::SignFailed),
    }
}

/// Signs a 32-byte digest and returns the recoverable signature as hex.
pub fn sign_digest(key: &PrivateKey, digest: &[u8; 32]) -> (res: Result<String, WalletError>)
    ensures
        result_view(res) == spec_sign_digest(key.secret(), digest@),
        res matches Ok(s) ==> s@.len() == 132,
{
    proof {
        use_type_invariant(key);
    }
    match sign_prehash_recoverable(key.secret.as_slice(), digest) {
        Some((sig, v)) => {
            let mut bytes = sig;
            bytes.push(27 + v);
            let hex = hex_encode(bytes.as_slice());
            let mut out = String::new();
            append_str(&mut out, "0x");
            append_str(&mut out, &hex);
            proof {
                reveal_strlit("0x");
                lemma_hex_lower_ascii(bytes@);
            }
            Ok(out)
        },
        None => Err(WalletError::SignFailed),
    }
}

} // verus!
