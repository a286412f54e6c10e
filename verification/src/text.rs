//! String helpers: UTF-8 byte views of strings, masking, truncation,
//! file-name sanitising and URL encoding.

use vstd::prelude::*;
use vstd::string::*;
use vstd::utf8::*;

verus! {

broadcast use vstd::utf8::group_utf8_lib;

/// The UTF-8 bytes of a character sequence (what Rust's `str::len` counts).
pub open spec fn utf8(s: Seq<char>) -> Seq<u8> {
    encode_utf8(s)
}

/// UTF-8 encoding distributes over concatenation.
pub proof fn lemma_utf8_concat(a: Seq<char>, b: Seq<char>)
    ensures
        utf8(a + b) == utf8(a) + utf8(b),
    decreases a.len(),
{
    if a.len() == 0 {
        assert(a + b =~= b);
        assert(utf8(a) =~= Seq::<u8>::empty());
        assert(utf8(a) + utf8(b) =~= utf8(b));
    } else {
        lemma_utf8_concat(a.drop_first(), b);
        assert((a + b).drop_first() =~= a.drop_first() + b);
        assert((a + b)[0] == a[0]);
        assert(utf8(a + b) =~= encode_scalar(a[0] as u32) + utf8(a.drop_first() + b));
        assert(utf8(a) =~= encode_scalar(a[0] as u32) + utf8(a.drop_first()));
        assert(utf8(a + b) =~= utf8(a) + utf8(b));
    }
}

/// Appends one character to a string (std's `String::push`).
#[verifier::external_body]
pub(crate) fn push_char(s: &mut String, c: char)
    ensures
        final(s)@ == old(s)@.push(c),
{
    s.push(c);
}

/// Law: the preview never carries a whole key. A key of at most 12 bytes
/// shows only `*`s, one per byte; a longer key shows 15 bytes: its first 8
/// bytes, `...`, and its last 4 bytes, so at most 12 of its bytes appear.
pub proof fn law_mask_key_hides(k: Seq<char>)
    ensures
        utf8(k).len() <= 12 ==> spec_mask_key(k).len() == utf8(k).len() && forall|i: int|
            0 <= i < spec_mask_key(k).len() ==> #[trigger] spec_mask_key(k)[i] == 42u8,
        utf8(k).len() > 12 ==> {
            &&& spec_mask_key(k).len() == 15
            &&& spec_mask_key(k).subrange(0, 8) == utf8(k).subrange(0, 8)
            &&& spec_mask_key(k).subrange(8, 11) == seq![46u8, 46u8, 46u8]
            &&& spec_mask_key(k).subrange(11, 15) == utf8(k).subrange(
                utf8(k).len() - 4,
                utf8(k).len() as int,
            )
        },
{
    let b = utf8(k);
    if b.len() > 12 {
        let m = spec_mask_key(k);
        assert(m.subrange(0, 8) =~= b.subrange(0, 8));
        assert(m.subrange(8, 11) =~= seq![46u8, 46u8, 46u8]);
        assert(m.subrange(11, 15) =~= b.subrange(b.len() - 4, b.len() as int));
    }
}

/// Byte length of a string slice, as `str::len` reports it.
pub fn byte_len(k: &str) -> (n: usize)
    ensures
        n == utf8(k@).len(),
{
    k.as_bytes().len()
}

/// `n` copies of `c`.
pub open spec fn repeat_char(c: char, n: nat) -> Seq<char> {
    Seq::new(n, |_i: int| c)
}

/// The masked preview of an api key, over the key's UTF-8 bytes: a key of
/// at most 12 bytes becomes one `*` per byte; a longer key shows its first
/// 8 and last 4 bytes around `...`.
pub open spec fn spec_mask_key(k: Seq<char>) -> Seq<u8> {
    let b = utf8(k);
    if b.len() <= 12 {
        Seq::new(b.len(), |_i: int| 42u8)
    } else {
        b.subrange(0, 8) + seq![46u8, 46u8, 46u8] + b.subrange(b.len() - 4, b.len() as int)
    }
}

/// First-8 + last-4 preview of an api key for display.
pub fn mask_key(k: &str) -> (res: String)
    requires
        k.spec_bytes().len() > 12 ==> is_char_boundary(k.spec_bytes(), 8) && is_char_boundary(
            k.spec_bytes(),
            k.spec_bytes().len() - 4,
        ),
    ensures
        utf8(res@) == spec_mask_key(k@),
{
    let n = byte_len(k);
    if n <= 12 {
        let mut out = String::new();
        let mut i: usize = 0;
        while i < n
            invariant
                i <= n,
                out@ == repeat_char('*', i as nat),
            decreases n - i,
        {
            push_char(&mut out, '*');
            i = i + 1;
            assert(out@ =~= repeat_char('*', i as nat));
        }
        proof {
            assert(is_ascii_chars(out@));
            assert(utf8(out@).len() == n);
            assert forall|j: int| 0 <= j < n implies #[trigger] utf8(out@)[j] == 42u8 by {
                assert(out@[j] == '*');
                assert(('*' as u8) == 42u8);
            }
            assert(utf8(out@) =~= Seq::new(n as nat, |_i: int| 42u8));
        }
        out
    } else {
        let (head, _) = k.split_at(8);
        let (_, tail) = k.split_at(n - 4);
        let mut out = head.to_owned();
        out.append("...");
        out.append(tail);
        proof {
            reveal_strlit("...");
            lemma_utf8_concat(head@, "..."@);
            lemma_utf8_concat(head@ + "..."@, tail@);
            assert(is_ascii_chars("..."@));
            assert(utf8("..."@) =~= seq![46u8, 46u8, 46u8]);
        }
        out
    }
}


/// The horizontal ellipsis `…` that marks a shortened string.
pub open spec fn ellipsis() -> char {
    '\u{2026}'
}

/// A long address keeps its first 6 and last 4 bytes around `…`.
pub open spec fn spec_short_addr(a: Seq<char>) -> Seq<u8> {
    let b = utf8(a);
    if b.len() > 12 {
        b.subrange(0, 6) + utf8(seq![ellipsis()]) + b.subrange(b.len() - 4, b.len() as int)
    } else {
        b
    }
}

/// Compact display form of an author address.
pub fn short_addr(a: &str) -> (res: String)
    requires
        a.spec_bytes().len() > 12 ==> is_char_boundary(a.spec_bytes(), 6) && is_char_boundary(
            a.spec_bytes(),
            a.spec_bytes().len() - 4,
        ),
    ensures
        utf8(res@) == spec_short_addr(a@),
{
    let n = byte_len(a);
    if n > 12 {
        let (head, _) = a.split_at(6);
        let (_, tail) = a.split_at(n - 4);
        let mut out = head.to_owned();
        out.append("\u{2026}");
        out.append(tail);
        proof {
            reveal_strlit("\u{2026}");
            assert("\u{2026}"@ =~= seq![ellipsis()]);
            lemma_utf8_concat(head@, "\u{2026}"@);
            lemma_utf8_concat(head@ + "\u{2026}"@, tail@);
        }
        out
    } else {
        a.to_owned()
    }
}

/// A claim code longer than 20 bytes keeps its first 20 bytes and gets `…`.
pub open spec fn spec_truncate_code(c: Seq<char>) -> Seq<u8> {
    let b = utf8(c);
    if b.len() > 20 {
        b.subrange(0, 20) + utf8(seq![ellipsis()])
    } else {
        b
    }
}

/// Display form of a claim code.
pub fn truncate_code(c: &str) -> (res: String)
    requires
        c.spec_bytes().len() > 20 ==> is_char_boundary(c.spec_bytes(), 20),
    ensures
        utf8(res@) == spec_truncate_code(c@),
{
    let n = byte_len(c);
    if n > 20 {
        let (head, _) = c.split_at(20);
        let mut out = head.to_owned();
        out.append("\u{2026}");
        proof {
            reveal_strlit("\u{2026}");
            assert("\u{2026}"@ =~= seq![ellipsis()]);
            lemma_utf8_concat(head@, "\u{2026}"@);
        }
        out
    } else {
        c.to_owned()
    }
}

/// At most `max` characters, with `…` appended when something was cut.
pub open spec fn spec_truncate(s: Seq<char>, max: nat) -> Seq<char> {
    if s.len() <= max {
        s
    } else {
        s.take(max as int).push(ellipsis())
    }
}

/// Shortens a post body for the feed listing, counting characters.
pub fn truncate(s: &str, max: usize) -> (res: String)
    ensures
        res@ == spec_truncate(s@, max as nat),
        res@.len() <= max + 1,
        s@.len() <= max ==> res@ == s@,
{
    let n = s.unicode_len();
    if n <= max {
        s.to_owned()
    } else {
        let mut out = s.substring_char(0, max).to_owned();
        push_char(&mut out, '\u{2026}');
        proof {
            assert(s@.subrange(0, max as int) =~= s@.take(max as int));
        }
        out
    }
}

/// Characters a key-file name keeps unchanged.
pub open spec fn is_name_char(c: char) -> bool {
    ||| ('a' <= c && c <= 'z')
    ||| ('A' <= c && c <= 'Z')
    ||| ('0' <= c && c <= '9')
    ||| c == '_'
    ||| c == '-'
}

pub open spec fn sanitize_char(c: char) -> char {
    if is_name_char(c) {
        c
    } else {
        '_'
    }
}

/// Each character outside `[A-Za-z0-9_-]` becomes `_`.
pub open spec fn spec_sanitize(s: Seq<char>) -> Seq<char> {
    Seq::new(s.len(), |i: int| sanitize_char(s[i]))
}

pub fn is_name_char_exec(c: char) -> (b: bool)
    ensures
        b == is_name_char(c),
{
    ('a' <= c && c <= 'z') || ('A' <= c && c <= 'Z') || ('0' <= c && c <= '9') || c == '_'
        || c == '-'
}

/// File-name-safe form of an identity name.
pub fn sanitize(name: &str) -> (res: String)
    ensures
        res@ == spec_sanitize(name@),
{
    let n = name.unicode_len();
    let mut out = String::new();
    let mut i: usize = 0;
    while i < n
        invariant
            i <= n,
            n == name@.len(),
            out@ =~= spec_sanitize(name@.take(i as int)),
        decreases n - i,
    {
        let c = name.get_char(i);
        if is_name_char_exec(c) {
            push_char(&mut out, c);
        } else {
            push_char(&mut out, '_');
        }
        i = i + 1;
        assert(out@ =~= spec_sanitize(name@.take(i as int)));
    }
    assert(name@.take(n as int) =~= name@);
    out
}

/// Sanitising twice is the same as sanitising once, the result has the
/// same number of characters, and every character is file-name safe.
pub proof fn law_sanitize_idempotent(s: Seq<char>)
    ensures
        spec_sanitize(spec_sanitize(s)) == spec_sanitize(s),
        spec_sanitize(s).len() == s.len(),
        forall|i: int| 0 <= i < s.len() ==> is_name_char(#[trigger] spec_sanitize(s)[i]),
{
    assert(spec_sanitize(spec_sanitize(s)) =~= spec_sanitize(s));
}


/// Characters that `urlencoding` passes through unchanged.
pub open spec fn is_unreserved(c: char) -> bool {
    ||| ('a' <= c && c <= 'z')
    ||| ('A' <= c && c <= 'Z')
    ||| ('0' <= c && c <= '9')
    ||| c == '_'
    ||| c == '-'
    ||| c == '.'
}

/// Upper-case hex digit of a value below 16.
pub open spec fn hex_upper(n: u8) -> char {
    if n < 10 {
        (48 + n) as char
    } else {
        (55 + n) as char
    }
}

/// `%XX` for each byte, upper-case hex.
pub open spec fn percent_bytes(bs: Seq<u8>) -> Seq<char>
    decreases bs.len(),
{
    if bs.len() == 0 {
        seq![]
    } else {
        percent_bytes(bs.drop_last()) + seq!['%', hex_upper(bs.last() / 16), hex_upper(
            bs.last() % 16,
        )]
    }
}

/// The encoding of one character: itself when unreserved, else its UTF-8
/// bytes percent-encoded.
pub open spec fn encode_url_char(c: char) -> Seq<char> {
    if is_unreserved(c) {
        seq![c]
    } else {
        percent_bytes(encode_scalar(c as u32))
    }
}

pub open spec fn spec_urlencode(s: Seq<char>) -> Seq<char>
    decreases s.len(),
{
    if s.len() == 0 {
        seq![]
    } else {
        spec_urlencode(s.drop_last()) + encode_url_char(s.last())
    }
}

fn is_unreserved_exec(c: char) -> (b: bool)
    ensures
        b == is_unreserved(c),
{
    ('a' <= c && c <= 'z') || ('A' <= c && c <= 'Z') || ('0' <= c && c <= '9') || c == '_' || c
        == '-' || c == '.'
}

fn hex_upper_exec(n: u8) -> (c: char)
    requires
        n < 16,
    ensures
        c == hex_upper(n),
{
    if n < 10 {
        (48 + n) as char
    } else {
        (55 + n) as char
    }
}

/// The UTF-8 bytes of one character.
pub fn char_utf8(c: char) -> (bytes: Vec<u8>)
    ensures
        bytes@ == encode_scalar(c as u32),
{
    let v = c as u32;
    let mut out: Vec<u8> = Vec::new();
    if v <= 0x7F {
        out.push((v & 0x7F) as u8);
    } else if v <= 0x7FF {
        out.push(0xC0 | ((v >> 6) & 0x1F) as u8);
        out.push(0x80 | (v & 0x3F) as u8);
    } else if v <= 0xFFFF {
        out.push(0xE0 | ((v >> 12) & 0x0F) as u8);
        out.push(0x80 | ((v >> 6) & 0x3F) as u8);
        out.push(0x80 | (v & 0x3F) as u8);
    } else {
        out.push(0xF0 | ((v >> 18) & 0x7) as u8);
        out.push(0x80 | ((v >> 12) & 0x3F) as u8);
        out.push(0x80 | ((v >> 6) & 0x3F) as u8);
        out.push(0x80 | (v & 0x3F) as u8);
    }
    proof {
        char_is_scalar(c);
    }
    assert(out@ =~= encode_scalar(c as u32));
    out
}

/// Percent-encodes a claim code for use in a query string.
pub fn urlencoding(s: &str) -> (res: String)
    ensures
        res@ == spec_urlencode(s@),
{
    let n = s.unicode_len();
    let mut out = String::new();
    let mut i: usize = 0;
    while i < n
        invariant
            i <= n,
            n == s@.len(),
            out@ == spec_urlencode(s@.take(i as int)),
        decreases n - i,
    {
        let c = s.get_char(i);
        let ghost before = out@;
        if is_unreserved_exec(c) {
            push_char(&mut out, c);
            assert(out@ =~= before + encode_url_char(c));
        } else {
            let bytes = char_utf8(c);
            let mut j: usize = 0;
            while j < bytes.len()
                invariant
                    j <= bytes@.len(),
                    bytes@ == encode_scalar(c as u32),
                    out@ == before + percent_bytes(bytes@.take(j as int)),
                decreases bytes@.len() - j,
            {
                let b = bytes[j];
                push_char(&mut out, '%');
                push_char(&mut out, hex_upper_exec(b / 16));
                push_char(&mut out, hex_upper_exec(b % 16));
                proof {
                    let t = bytes@.take(j + 1);
                    assert(t.drop_last() =~= bytes@.take(j as int));
                    assert(t.last() == b);
                }
                j = j + 1;
                assert(out@ =~= before + percent_bytes(bytes@.take(j as int)));
            }
            assert(bytes@.take(bytes@.len() as int) =~= bytes@);
        }
        proof {
            let t = s@.take(i + 1);
            assert(t.drop_last() =~= s@.take(i as int));
            assert(t.last() == c);
        }
        i = i + 1;
        assert(out@ =~= spec_urlencode(s@.take(i as int)));
    }
    assert(s@.take(n as int) =~= s@);
    out
}

/// Text made only of unreserved characters is left as it is.
pub proof fn law_urlencode_unreserved_identity(s: Seq<char>)
    requires
        forall|i: int| 0 <= i < s.len() ==> is_unreserved(#[trigger] s[i]),
    ensures
        spec_urlencode(s) == s,
    decreases s.len(),
{
    if s.len() > 0 {
        law_urlencode_unreserved_identity(s.drop_last());
        assert(s.drop_last() + seq![s.last()] =~= s);
    }
}

/// The value of an upper-case hex digit.
pub open spec fn upper_hex_value(c: char) -> Option<int> {
    if '0' <= c && c <= '9' {
        Some(c as int - 48)
    } else if 'A' <= c && c <= 'F' {
        Some(c as int - 55)
    } else {
        None
    }
}

/// Percent-decoding to bytes: `%XX` with upper-case hex digits gives the
/// byte 0xXX; any other character gives its own UTF-8 bytes.
pub open spec fn percent_decode(s: Seq<char>) -> Seq<u8>
    decreases s.len(),
{
    if s.len() == 0 {
        seq![]
    } else if s[0] == '%' && s.len() >= 3 && upper_hex_value(s[1]) is Some && upper_hex_value(
        s[2],
    ) is Some {
        seq![(upper_hex_value(s[1])->Some_0 * 16 + upper_hex_value(s[2])->Some_0) as u8]
            + percent_decode(s.skip(3))
    } else {
        encode_scalar(s[0] as u32) + percent_decode(s.skip(1))
    }
}

proof fn lemma_hex_upper_value(n: u8)
    requires
        n < 16,
    ensures
        upper_hex_value(hex_upper(n)) == Some(n as int),
{
    if n < 10 {
        assert(hex_upper(n) as int == 48 + n);
    } else {
        assert(hex_upper(n) as int == 55 + n);
    }
}

proof fn lemma_decode_percent_bytes(bs: Seq<u8>, y: Seq<char>)
    ensures
        percent_decode(percent_bytes(bs) + y) == bs + percent_decode(y),
    decreases bs.len(),
{
    if bs.len() == 0 {
        assert(percent_bytes(bs) + y =~= y);
        assert(bs + percent_decode(y) =~= percent_decode(y));
    } else {
        let f = bs.drop_last();
        let b = bs.last();
        let t = seq!['%', hex_upper(b / 16), hex_upper(b % 16)];
        assert(percent_bytes(bs) + y =~= percent_bytes(f) + (t + y));
        lemma_decode_percent_bytes(f, t + y);
        lemma_hex_upper_value(b / 16);
        lemma_hex_upper_value(b % 16);
        let ty = t + y;
        assert(ty[0] == '%' && ty[1] == hex_upper(b / 16) && ty[2] == hex_upper(b % 16));
        assert(ty.skip(3) =~= y);
        assert(((b / 16) as int * 16 + (b % 16) as int) as u8 == b);
        assert(percent_decode(ty) == seq![b] + percent_decode(y));
        assert(f + (seq![b] + percent_decode(y)) =~= bs + percent_decode(y));
    }
}

proof fn lemma_decode_url_char(c: char, y: Seq<char>)
    ensures
        percent_decode(encode_url_char(c) + y) == encode_scalar(c as u32) + percent_decode(y),
{
    if is_unreserved(c) {
        let cy = seq![c] + y;
        assert(cy[0] == c);
        assert(cy.skip(1) =~= y);
    } else {
        lemma_decode_percent_bytes(encode_scalar(c as u32), y);
    }
}

proof fn lemma_decode_urlencode(s: Seq<char>, y: Seq<char>)
    ensures
        percent_decode(spec_urlencode(s) + y) == utf8(s) + percent_decode(y),
    decreases s.len(),
{
    if s.len() == 0 {
        assert(spec_urlencode(s) + y =~= y);
        assert(utf8(s) =~= Seq::<u8>::empty());
        assert(utf8(s) + percent_decode(y) =~= percent_decode(y));
    } else {
        let f = s.drop_last();
        let c = s.last();
        let e = encode_url_char(c);
        assert(spec_urlencode(s) + y =~= spec_urlencode(f) + (e + y));
        lemma_decode_urlencode(f, e + y);
        lemma_decode_url_char(c, y);
        lemma_utf8_concat(f, seq![c]);
        assert(f + seq![c] =~= s);
        let one = seq![c];
        assert(one.drop_first() =~= Seq::<char>::empty());
        assert(utf8(one.drop_first()) =~= Seq::<u8>::empty());
        assert(one[0] == c);
        assert(utf8(one) == encode_scalar(one[0] as u32) + utf8(one.drop_first()));
        assert(utf8(one) =~= encode_scalar(c as u32));
        assert(utf8(f) + (encode_scalar(c as u32) + percent_decode(y)) =~= utf8(s) + percent_decode(
            y,
        ));
    }
}

/// Law: percent-decoding what `urlencoding` produced gives back the text's
/// UTF-8 bytes, and so the text itself.
pub proof fn law_urlencode_decodes(s: Seq<char>)
    ensures
        percent_decode(spec_urlencode(s)) == utf8(s),
        vstd::utf8::decode_utf8(percent_decode(spec_urlencode(s))) == s,
{
    lemma_decode_urlencode(s, seq![]);
    assert(spec_urlencode(s) + Seq::<char>::empty() =~= spec_urlencode(s));
    assert(utf8(s) + percent_decode(Seq::<char>::empty()) =~= utf8(s));
    vstd::utf8::encode_utf8_decode_utf8(s);
}

/// `percent_bytes` writes only `%` and upper-case hex digits.
proof fn lemma_percent_bytes_ascii(bs: Seq<u8>)
    ensures
        forall|i: int|
            0 <= i < percent_bytes(bs).len() ==> is_url_safe(#[trigger] percent_bytes(bs)[i]),
    decreases bs.len(),
{
    if bs.len() > 0 {
        lemma_percent_bytes_ascii(bs.drop_last());
        let b = bs.last();
        assert(is_url_safe(hex_upper(b / 16)));
        assert(is_url_safe(hex_upper(b % 16)));
        let a = percent_bytes(bs.drop_last());
        let e = seq!['%', hex_upper(b / 16), hex_upper(b % 16)];
        assert(percent_bytes(bs) == a + e);
        assert forall|i: int| 0 <= i < (a + e).len() implies is_url_safe(#[trigger] (a + e)[i]) by {
            if i < a.len() {
                assert((a + e)[i] == a[i]);
            } else {
                assert((a + e)[i] == e[i - a.len()]);
            }
        }
    }
}

/// What can appear in an encoded string: unreserved characters and `%`.
pub open spec fn is_url_safe(c: char) -> bool {
    is_unreserved(c) || c == '%'
}

/// The encoded form only holds unreserved characters and `%`.
pub proof fn law_urlencode_safe(s: Seq<char>)
    ensures
        forall|i: int|
            0 <= i < spec_urlencode(s).len() ==> is_url_safe(#[trigger] spec_urlencode(s)[i]),
    decreases s.len(),
{
    if s.len() > 0 {
        law_urlencode_safe(s.drop_last());
        let c = s.last();
        if !is_unreserved(c) {
            lemma_percent_bytes_ascii(encode_scalar(c as u32));
        }
        let a = spec_urlencode(s.drop_last());
        let e = encode_url_char(c);
        assert forall|i: int| 0 <= i < (a + e).len() implies is_url_safe(#[trigger] (a + e)[i]) by {
            if i < a.len() {
                assert((a + e)[i] == a[i]);
            } else {
                assert((a + e)[i] == e[i - a.len()]);
            }
        }
    }
}


/// Unicode `White_Space` (what `char::is_whitespace` accepts).
pub open spec fn is_ws(c: char) -> bool {
    ||| ('\u{9}' <= c && c <= '\u{d}')
    ||| c == ' '
    ||| c == '\u{85}'
    ||| c == '\u{a0}'
    ||| c == '\u{1680}'
    ||| ('\u{2000}' <= c && c <= '\u{200a}')
    ||| c == '\u{2028}'
    ||| c == '\u{2029}'
    ||| c == '\u{202f}'
    ||| c == '\u{205f}'
    ||| c == '\u{3000}'
}

pub fn is_ws_exec(c: char) -> (b: bool)
    ensures
        b == is_ws(c),
{
    ('\u{9}' <= c && c <= '\u{d}') || c == ' ' || c == '\u{85}' || c == '\u{a0}' || c
        == '\u{1680}' || ('\u{2000}' <= c && c <= '\u{200a}') || c == '\u{2028}' || c
        == '\u{2029}' || c == '\u{202f}' || c == '\u{205f}' || c == '\u{3000}'
}

pub open spec fn trim_start(s: Seq<char>) -> Seq<char>
    decreases s.len(),
{
    if s.len() > 0 && is_ws(s[0]) {
        trim_start(s.drop_first())
    } else {
        s
    }
}

pub open spec fn trim_end(s: Seq<char>) -> Seq<char>
    decreases s.len(),
{
    if s.len() > 0 && is_ws(s.last()) {
        trim_end(s.drop_last())
    } else {
        s
    }
}

/// Leading and trailing white space removed (what `str::trim` does).
pub open spec fn spec_trim(s: Seq<char>) -> Seq<char> {
    trim_end(trim_start(s))
}

/// Removes leading and trailing white space.
pub fn trim(s: &str) -> (res: &str)
    ensures
        res@ == spec_trim(s@),
{
    let n = s.unicode_len();
    let mut i: usize = 0;
    assert(s@.subrange(0, n as int) =~= s@);
    while i < n && is_ws_exec(s.get_char(i))
        invariant
            i <= n,
            n == s@.len(),
            trim_start(s@) == trim_start(s@.subrange(i as int, n as int)),
        decreases n - i,
    {
        assert(s@.subrange(i as int, n as int).drop_first() =~= s@.subrange(i + 1, n as int));
        i = i + 1;
    }
    let mut j: usize = n;
    while j > i && is_ws_exec(s.get_char(j - 1))
        invariant
            i <= j <= n,
            n == s@.len(),
            trim_start(s@) == s@.subrange(i as int, n as int),
            trim_end(s@.subrange(i as int, n as int)) == trim_end(s@.subrange(i as int, j as int)),
        decreases j - i,
    {
        assert(s@.subrange(i as int, j as int).drop_last() =~= s@.subrange(i as int, j - 1));
        j = j - 1;
    }
    s.substring_char(i, j)
}

/// Decimal digit character for a value below 10.
pub open spec fn digit_char(d: int) -> char {
    (48 + d) as char
}

/// Decimal representation of a natural number.
pub open spec fn spec_decimal_nat(n: nat) -> Seq<char>
    decreases n,
{
    if n < 10 {
        seq![digit_char(n as int)]
    } else {
        spec_decimal_nat(n / 10).push(digit_char((n % 10) as int))
    }
}

/// Decimal representation of an integer, `-` first when negative.
pub open spec fn spec_decimal(i: int) -> Seq<char> {
    if i < 0 {
        seq!['-'] + spec_decimal_nat((-i) as nat)
    } else {
        spec_decimal_nat(i as nat)
    }
}

/// Appends the decimal digits of `n`.
fn push_decimal_u64(out: &mut String, n: u64)
    ensures
        final(out)@ == old(out)@ + spec_decimal_nat(n as nat),
    decreases n,
{
    if n < 10 {
        push_char(out, (48 + n as u8) as char);
        assert(final(out)@ =~= old(out)@ + spec_decimal_nat(n as nat));
    } else {
        push_decimal_u64(out, n / 10);
        push_char(out, (48 + (n % 10) as u8) as char);
        assert(final(out)@ =~= old(out)@ + spec_decimal_nat(n as nat));
    }
}

/// Decimal text of an unsigned integer.
pub fn decimal_u64(n: u64) -> (res: String)
    ensures
        res@ == spec_decimal(n as int),
{
    let mut out = String::new();
    push_decimal_u64(&mut out, n);
    assert(out@ =~= spec_decimal(n as int));
    out
}

/// Decimal text of a signed integer, as `format!("{}")` prints it.
pub fn decimal(i: i64) -> (res: String)
    ensures
        res@ == spec_decimal(i as int),
{
    let mut out = String::new();
    if i < 0 {
        push_char(&mut out, '-');
        let m: u64 = if i == i64::MIN {
            9223372036854775808u64
        } else {
            (-i) as u64
        };
        push_decimal_u64(&mut out, m);
    } else {
        push_decimal_u64(&mut out, i as u64);
    }
    assert(out@ =~= spec_decimal(i as int));
    out
}

/// `needle` occurs in `hay` at position `i`.
pub open spec fn occurs_at(hay: Seq<char>, needle: Seq<char>, i: int) -> bool {
    0 <= i && i + needle.len() <= hay.len() && hay.subrange(i, i + needle.len()) == needle
}

/// `needle` occurs somewhere in `hay` (what `str::contains` tests).
pub open spec fn spec_contains(hay: Seq<char>, needle: Seq<char>) -> bool {
    exists|i: int| occurs_at(hay, needle, i)
}

/// `hay` begins with `prefix`.
pub open spec fn spec_starts_with(hay: Seq<char>, prefix: Seq<char>) -> bool {
    prefix.len() <= hay.len() && hay.take(prefix.len() as int) == prefix
}

fn matches_at(hay: &str, needle: &str, i: usize, hn: usize, nn: usize) -> (b: bool)
    requires
        hn == hay@.len(),
        nn == needle@.len(),
        i + nn <= hn,
    ensures
        b == (hay@.subrange(i as int, i + nn) == needle@),
{
    let mut k: usize = 0;
    while k < nn
        invariant
            k <= nn,
            hn == hay@.len(),
            nn == needle@.len(),
            i + nn <= hn,
            forall|t: int| 0 <= t < k ==> hay@[i + t] == needle@[t],
        decreases nn - k,
    {
        if hay.get_char(i + k) != needle.get_char(k) {
            assert(hay@.subrange(i as int, i + nn)[k as int] != needle@[k as int]);
            return false;
        }
        k = k + 1;
    }
    assert(hay@.subrange(i as int, i + nn) =~= needle@);
    true
}

/// Whether `needle` occurs in `hay`.
pub fn contains(hay: &str, needle: &str) -> (b: bool)
    ensures
        b == spec_contains(hay@, needle@),
{
    let hn = hay.unicode_len();
    let nn = needle.unicode_len();
    if nn > hn {
        return false;
    }
    if nn == 0 {
        assert(hay@.subrange(0, 0) =~= needle@);
        assert(occurs_at(hay@, needle@, 0));
        return true;
    }
    let mut i: usize = 0;
    while i <= hn - nn
        invariant
            hn == hay@.len(),
            nn == needle@.len(),
            0 < nn <= hn,
            i <= hn - nn + 1,
            forall|t: int| 0 <= t < i ==> !occurs_at(hay@, needle@, t),
        decreases hn - nn + 1 - i,
    {
        if matches_at(hay, needle, i, hn, nn) {
            assert(occurs_at(hay@, needle@, i as int));
            return true;
        }
        i = i + 1;
    }
    false
}

/// Whether `hay` begins with `prefix`.
pub fn starts_with(hay: &str, prefix: &str) -> (b: bool)
    ensures
        b == spec_starts_with(hay@, prefix@),
{
    let hn = hay.unicode_len();
    let pn = prefix.unicode_len();
    if pn > hn {
        return false;
    }
    let r = matches_at(hay, prefix, 0, hn, pn);
    assert(hay@.subrange(0, pn as int) =~= hay@.take(pn as int));
    r
}

/// Whether two strings are equal.
pub fn str_eq(a: &str, b: &str) -> (r: bool)
    ensures
        r == (a@ == b@),
{
    let an = a.unicode_len();
    let bn = b.unicode_len();
    if an != bn {
        return false;
    }
    let r = matches_at(a, b, 0, an, bn);
    assert(a@.subrange(0, an as int) =~= a@);
    r
}

/// Appends `s` to `out`.
pub fn append_str(out: &mut String, s: &str)
    ensures
        final(out)@ == old(out)@ + s@,
{
    out.append(s);
}

} // verus!
