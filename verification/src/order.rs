//! The order of names: the lexicographic order of their UTF-8 bytes, which
//! is the order of `String`'s comparison.
use vstd::prelude::*;
use vstd::utf8::{encode_utf8, encode_utf8_decode_utf8};

verus! {

/// `a` comes strictly before `b` in lexicographic order.
pub open spec fn lex_lt(a: Seq<u8>, b: Seq<u8>) -> bool
    decreases a.len(),
{
    if a.len() == 0 {
        b.len() > 0
    } else if b.len() == 0 {
        false
    } else if a[0] < b[0] {
        true
    } else if a[0] > b[0] {
        false
    } else {
        lex_lt(a.drop_first(), b.drop_first())
    }
}

/// Name `x` sorts strictly before name `y`.
pub open spec fn name_lt(x: Seq<char>, y: Seq<char>) -> bool {
    lex_lt(encode_utf8(x), encode_utf8(y))
}

pub proof fn lemma_lex_irreflexive(a: Seq<u8>)
    ensures
        !lex_lt(a, a),
    decreases a.len(),
{
    if a.len() > 0 {
        lemma_lex_irreflexive(a.drop_first());
    }
}

pub proof fn lemma_lex_transitive(a: Seq<u8>, b: Seq<u8>, c: Seq<u8>)
    requires
        lex_lt(a, b),
        lex_lt(b, c),
    ensures
        lex_lt(a, c),
    decreases a.len(),
{
    if a.len() > 0 && b.len() > 0 && c.len() > 0 {
        if a[0] == b[0] && b[0] == c[0] {
            lemma_lex_transitive(a.drop_first(), b.drop_first(), c.drop_first());
        }
    }
}

pub proof fn lemma_lex_total(a: Seq<u8>, b: Seq<u8>)
    requires
        a != b,
    ensures
        lex_lt(a, b) || lex_lt(b, a),
    decreases a.len(),
{
    if a.len() == 0 {
        assert(b.len() > 0) by {
            if b.len() == 0 {
                assert(a =~= b);
            }
        }
    } else if b.len() > 0 && a[0] == b[0] {
        if a.drop_first() == b.drop_first() {
            assert(a =~= seq![a[0]] + a.drop_first());
            assert(b =~= seq![b[0]] + b.drop_first());
        }
        lemma_lex_total(a.drop_first(), b.drop_first());
    }
}

pub proof fn lemma_lex_asymmetric(a: Seq<u8>, b: Seq<u8>)
    requires
        lex_lt(a, b),
    ensures
        !lex_lt(b, a),
{
    if lex_lt(b, a) {
        lemma_lex_transitive(a, b, a);
        lemma_lex_irreflexive(a);
    }
}

/// Comparing from a shared prefix of length `i` on.
proof fn lemma_lex_after_prefix(a: Seq<u8>, b: Seq<u8>, i: int)
    requires
        0 <= i <= a.len(),
        i <= b.len(),
        a.take(i) == b.take(i),
    ensures
        lex_lt(a, b) == lex_lt(a.skip(i), b.skip(i)),
    decreases i,
{
    if i > 0 {
        assert(a[0] == a.take(i)[0]);
        assert(b[0] == b.take(i)[0]);
        assert(a.drop_first().take(i - 1) =~= a.take(i).drop_first());
        assert(b.drop_first().take(i - 1) =~= b.take(i).drop_first());
        lemma_lex_after_prefix(a.drop_first(), b.drop_first(), i - 1);
        assert(a.drop_first().skip(i - 1) =~= a.skip(i));
        assert(b.drop_first().skip(i - 1) =~= b.skip(i));
    } else {
        assert(a.skip(0) =~= a);
        assert(b.skip(0) =~= b);
    }
}

pub proof fn lemma_name_irreflexive(x: Seq<char>)
    ensures
        !name_lt(x, x),
{
    lemma_lex_irreflexive(encode_utf8(x));
}

pub proof fn lemma_name_transitive(x: Seq<char>, y: Seq<char>, z: Seq<char>)
    requires
        name_lt(x, y),
        name_lt(y, z),
    ensures
        name_lt(x, z),
{
    lemma_lex_transitive(encode_utf8(x), encode_utf8(y), encode_utf8(z));
}

/// Distinct names are ordered one way or the other.
pub proof fn lemma_name_total(x: Seq<char>, y: Seq<char>)
    requires
        x != y,
    ensures
        name_lt(x, y) || name_lt(y, x),
{
    encode_utf8_decode_utf8(x);
    encode_utf8_decode_utf8(y);
    lemma_lex_total(encode_utf8(x), encode_utf8(y));
}

pub proof fn lemma_name_asymmetric(x: Seq<char>, y: Seq<char>)
    requires
        name_lt(x, y),
    ensures
        !name_lt(y, x),
{
    lemma_lex_asymmetric(encode_utf8(x), encode_utf8(y));
}

/// Whether name `a` sorts strictly before name `b` (`String`'s `<`).
pub fn name_less(a: &str, b: &str) -> (r: bool)
    ensures
        r == name_lt(a@, b@),
{
    let x = a.as_bytes();
    let y = b.as_bytes();
    let la = x.len();
    let lb = y.len();
    let mut i: usize = 0;
    while i < la && i < lb && x[i] == y[i]
        invariant
            la == x@.len(),
            lb == y@.len(),
            i <= la,
            i <= lb,
            x@.take(i as int) == y@.take(i as int),
        decreases la - i,
    {
        proof {
            assert(x@.take(i + 1) =~= x@.take(i as int).push(x@[i as int]));
            assert(y@.take(i + 1) =~= y@.take(i as int).push(y@[i as int]));
        }
        i = i + 1;
    }
    proof {
        lemma_lex_after_prefix(x@, y@, i as int);
    }
    if i == la {
        i < lb
    } else if i == lb {
        false
    } else {
        x[i] < y[i]
    }
}

/// A proper prefix sorts first.
pub proof fn lemma_lex_prefix_first(a: Seq<u8>, b: Seq<u8>)
    requires
        b.len() > 0,
    ensures
        lex_lt(a, a + b),
    decreases a.len(),
{
    if a.len() > 0 {
        assert((a + b).drop_first() =~= a.drop_first() + b);
        lemma_lex_prefix_first(a.drop_first(), b);
    } else {
        assert(a + b =~= b);
    }
}

/// At the first byte where two sequences differ, the smaller byte sorts
/// first, whatever follows.
pub proof fn lemma_lex_first_difference(a: Seq<u8>, b: Seq<u8>, k: int)
    requires
        0 <= k < a.len(),
        k < b.len(),
        a.take(k) == b.take(k),
        a[k] < b[k],
    ensures
        lex_lt(a, b),
    decreases k,
{
    if k > 0 {
        assert(a[0] == a.take(k)[0]);
        assert(b[0] == b.take(k)[0]);
        assert(a.drop_first().take(k - 1) =~= a.take(k).drop_first());
        assert(b.drop_first().take(k - 1) =~= b.take(k).drop_first());
        lemma_lex_first_difference(a.drop_first(), b.drop_first(), k - 1);
    }
}

/// Names sort by their UTF-8 bytes: a name that extends another sorts
/// after it, and at the first differing byte the smaller byte sorts first.
pub proof fn lemma_name_order_is_byte_order(x: Seq<char>, y: Seq<char>, k: int)
    ensures
        encode_utf8(x).len() < encode_utf8(y).len() && encode_utf8(y).take(encode_utf8(x).len() as int)
            == encode_utf8(x) ==> name_lt(x, y),
        0 <= k < encode_utf8(x).len() && k < encode_utf8(y).len() && encode_utf8(x).take(k)
            == encode_utf8(y).take(k) && encode_utf8(x)[k] < encode_utf8(y)[k] ==> name_lt(x, y),
{
    let a = encode_utf8(x);
    let b = encode_utf8(y);
    if a.len() < b.len() && b.take(a.len() as int) == a {
        let rest = b.subrange(a.len() as int, b.len() as int);
        assert(a + rest =~= b);
        lemma_lex_prefix_first(a, rest);
    }
    if 0 <= k < a.len() && k < b.len() && a.take(k) == b.take(k) && a[k] < b[k] {
        lemma_lex_first_difference(a, b, k);
    }
}

} // verus!
