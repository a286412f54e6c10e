//! Lexicographic order on character sequences, the order in which
//! `String`s sort (UTF-8 byte order agrees with code-point order).

use vstd::prelude::*;

verus! {

/// `a` sorts strictly before `b`.
pub open spec fn seq_lt(a: Seq<char>, b: Seq<char>) -> bool
    decreases a.len(),
{
    if a.len() == 0 {
        b.len() > 0
    } else if b.len() == 0 {
        false
    } else if a[0] != b[0] {
        (a[0] as u32) < (b[0] as u32)
    } else {
        seq_lt(a.drop_first(), b.drop_first())
    }
}

/// `a` sorts before `b` or equals it.
pub open spec fn seq_le(a: Seq<char>, b: Seq<char>) -> bool {
    a == b || seq_lt(a, b)
}

/// Every element sorts before or equal to every later one.
pub open spec fn sorted(v: Seq<Seq<char>>) -> bool {
    forall|i: int, j: int| 0 <= i < j < v.len() ==> seq_le(#[trigger] v[i], #[trigger] v[j])
}

proof fn lemma_char_u32_injective(x: char, y: char)
    requires
        x != y,
    ensures
        (x as u32) != (y as u32),
{
    vstd::utf8::char_u32_cast(x, x as u32);
    vstd::utf8::char_u32_cast(y, y as u32);
}

/// No sequence sorts before itself.
pub proof fn lemma_lt_irreflexive(a: Seq<char>)
    ensures
        !seq_lt(a, a),
    decreases a.len(),
{
    if a.len() > 0 {
        lemma_lt_irreflexive(a.drop_first());
    }
}

/// Two distinct sequences are ordered one way, and not both ways.
pub proof fn lemma_lt_total(a: Seq<char>, b: Seq<char>)
    ensures
        a != b ==> (seq_lt(a, b) || seq_lt(b, a)),
        !(seq_lt(a, b) && seq_lt(b, a)),
    decreases a.len(),
{
    if a.len() > 0 && b.len() > 0 {
        if a[0] == b[0] {
            lemma_lt_total(a.drop_first(), b.drop_first());
            if a != b {
                assert(a.drop_first() != b.drop_first()) by {
                    if a.drop_first() == b.drop_first() {
                        assert(a =~= seq![a[0]] + a.drop_first());
                        assert(b =~= seq![b[0]] + b.drop_first());
                    }
                }
            }
        } else {
            lemma_char_u32_injective(a[0], b[0]);
        }
    } else if a.len() == 0 && b.len() == 0 {
        assert(a =~= b);
    }
}

/// Sorting before is transitive.
pub proof fn lemma_lt_transitive(a: Seq<char>, b: Seq<char>, c: Seq<char>)
    requires
        seq_lt(a, b),
        seq_lt(b, c),
    ensures
        seq_lt(a, c),
    decreases a.len(),
{
    if a.len() > 0 && b.len() > 0 && c.len() > 0 {
        if a[0] == b[0] && b[0] == c[0] {
            lemma_lt_transitive(a.drop_first(), b.drop_first(), c.drop_first());
        } else if a[0] == b[0] {
            lemma_char_u32_injective(b[0], c[0]);
        } else if b[0] == c[0] {
            lemma_char_u32_injective(a[0], b[0]);
        } else {
            if a[0] == c[0] {
                lemma_char_u32_injective(a[0], b[0]);
            } else {
                lemma_char_u32_injective(a[0], c[0]);
            }
        }
    }
}

/// Whether `a` sorts strictly before `b`.
pub fn str_lt(a: &str, b: &str) -> (r: bool)
    ensures
        r == seq_lt(a@, b@),
{
    let an = a.unicode_len();
    let bn = b.unicode_len();
    let mut k: usize = 0;
    assert(a@.skip(0) =~= a@);
    assert(b@.skip(0) =~= b@);
    while k < an && k < bn
        invariant
            k <= an,
            k <= bn,
            an == a@.len(),
            bn == b@.len(),
            seq_lt(a@, b@) == seq_lt(a@.skip(k as int), b@.skip(k as int)),
        decreases an - k,
    {
        let x = a.get_char(k);
        let y = b.get_char(k);
        if x != y {
            proof {
                assert(a@.skip(k as int)[0] == x);
                assert(b@.skip(k as int)[0] == y);
            }
            return (x as u32) < (y as u32);
        }
        proof {
            assert(a@.skip(k as int).drop_first() =~= a@.skip(k + 1));
            assert(b@.skip(k as int).drop_first() =~= b@.skip(k + 1));
        }
        k = k + 1;
    }
    k == an && k < bn
}

} // verus!
