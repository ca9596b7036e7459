//! Byte-wise lexicographic order of text values, the order in which named
//! values are kept and reported.

use vstd::prelude::*;
use vstd::utf8::*;
use vstd::string::StringSliceAdditionalSpecFns;

verus! {

broadcast use vstd::string::group_string_axioms;

/// Strict lexicographic order on byte sequences.
pub open spec fn lex_lt(a: Seq<u8>, b: Seq<u8>) -> bool
    decreases a.len(),
{
    if b.len() == 0 {
        false
    } else if a.len() == 0 {
        true
    } else if a[0] != b[0] {
        a[0] < b[0]
    } else {
        lex_lt(a.drop_first(), b.drop_first())
    }
}

/// Strict order on text values: the lexicographic order of their UTF-8
/// encodings.
pub open spec fn text_lt(a: Seq<char>, b: Seq<char>) -> bool {
    lex_lt(encode_utf8(a), encode_utf8(b))
}

/// A sequence of text values in strictly increasing order (hence without
/// repetitions).
pub open spec fn strictly_sorted(s: Seq<Seq<char>>) -> bool {
    forall|i: int, j: int| 0 <= i < j < s.len() ==> text_lt(#[trigger] s[i], #[trigger] s[j])
}

/// No byte sequence precedes itself.
pub proof fn lemma_lex_irreflexive(a: Seq<u8>)
    ensures
        !lex_lt(a, a),
    decreases a.len(),
{
    if a.len() > 0 {
        lemma_lex_irreflexive(a.drop_first());
    }
}

/// Of two byte sequences, at most one precedes the other.
pub proof fn lemma_lex_asymmetric(a: Seq<u8>, b: Seq<u8>)
    ensures
        lex_lt(a, b) ==> !lex_lt(b, a),
    decreases a.len(),
{
    if a.len() > 0 && b.len() > 0 && a[0] == b[0] {
        lemma_lex_asymmetric(a.drop_first(), b.drop_first());
    }
}

/// The byte order is transitive.
pub proof fn lemma_lex_transitive(a: Seq<u8>, b: Seq<u8>, c: Seq<u8>)
    requires
        lex_lt(a, b),
        lex_lt(b, c),
    ensures
        lex_lt(a, c),
    decreases a.len(),
{
    if a.len() > 0 && a[0] == b[0] && b[0] == c[0] {
        lemma_lex_transitive(a.drop_first(), b.drop_first(), c.drop_first());
    }
}

/// Of two different byte sequences, one precedes the other.
pub proof fn lemma_lex_total(a: Seq<u8>, b: Seq<u8>)
    requires
        a != b,
    ensures
        lex_lt(a, b) || lex_lt(b, a),
    decreases a.len(),
{
    if a.len() == 0 && b.len() == 0 {
        assert(a =~= b);
    } else if a.len() > 0 && b.len() > 0 && a[0] == b[0] {
        if a.drop_first() == b.drop_first() {
            assert(a =~= seq![a[0]] + a.drop_first());
            assert(b =~= seq![b[0]] + b.drop_first());
        }
        lemma_lex_total(a.drop_first(), b.drop_first());
    }
}

/// No text value precedes itself.
pub proof fn lemma_text_irreflexive(a: Seq<char>)
    ensures
        !text_lt(a, a),
{
    lemma_lex_irreflexive(encode_utf8(a));
}

/// Of two text values, at most one precedes the other.
pub proof fn lemma_text_asymmetric(a: Seq<char>, b: Seq<char>)
    ensures
        text_lt(a, b) ==> !text_lt(b, a),
{
    lemma_lex_asymmetric(encode_utf8(a), encode_utf8(b));
}

/// The text order is transitive.
pub proof fn lemma_text_transitive(a: Seq<char>, b: Seq<char>, c: Seq<char>)
    requires
        text_lt(a, b),
        text_lt(b, c),
    ensures
        text_lt(a, c),
{
    lemma_lex_transitive(encode_utf8(a), encode_utf8(b), encode_utf8(c));
}

/// Different text values have different UTF-8 encodings.
pub proof fn lemma_encode_injective(a: Seq<char>, b: Seq<char>)
    ensures
        encode_utf8(a) == encode_utf8(b) ==> a == b,
{
    encode_utf8_decode_utf8(a);
    encode_utf8_decode_utf8(b);
}

/// The text order is total: of two different text values, one precedes the
/// other, so every set of names has exactly one sorted arrangement.
pub proof fn lemma_text_total(a: Seq<char>, b: Seq<char>)
    requires
        a != b,
    ensures
        text_lt(a, b) || text_lt(b, a),
{
    lemma_encode_injective(a, b);
    lemma_lex_total(encode_utf8(a), encode_utf8(b));
}

/// Inserting a value at the place where it belongs keeps a sequence sorted.
pub proof fn lemma_sorted_insert(s: Seq<Seq<char>>, i: int, x: Seq<char>)
    requires
        strictly_sorted(s),
        0 <= i <= s.len(),
        forall|j: int| 0 <= j < i ==> text_lt(#[trigger] s[j], x),
        i < s.len() ==> text_lt(x, s[i]),
    ensures
        strictly_sorted(s.insert(i, x)),
{
    let t = s.insert(i, x);
    assert forall|a: int, b: int| 0 <= a < b < t.len() implies text_lt(#[trigger] t[a], #[trigger] t[b]) by {
        if b < i {
        } else if b == i {
        } else if a < i {
            assert(text_lt(s[a], x));
            assert(t[b] == s[b - 1]);
            if b - 1 > i {
                lemma_text_transitive(x, s[i], s[b - 1]);
            }
            lemma_text_transitive(s[a], x, s[b - 1]);
        } else if a == i {
            if b - 1 > i {
                lemma_text_transitive(x, s[i], s[b - 1]);
            }
        } else {
            assert(t[a] == s[a - 1] && t[b] == s[b - 1]);
        }
    }
}

/// Removing a value keeps a sequence sorted.
pub proof fn lemma_sorted_remove(s: Seq<Seq<char>>, i: int)
    requires
        strictly_sorted(s),
        0 <= i < s.len(),
    ensures
        strictly_sorted(s.remove(i)),
{
    let t = s.remove(i);
    assert forall|a: int, b: int| 0 <= a < b < t.len() implies text_lt(#[trigger] t[a], #[trigger] t[b]) by {
        if b < i {
        } else if a < i {
            assert(t[b] == s[b + 1]);
        } else {
            assert(t[a] == s[a + 1] && t[b] == s[b + 1]);
        }
    }
}

/// A strictly sorted sequence is determined by the values it contains.
pub proof fn lemma_sorted_unique(a: Seq<Seq<char>>, b: Seq<Seq<char>>)
    requires
        strictly_sorted(a),
        strictly_sorted(b),
        forall|x: Seq<char>| a.contains(x) <==> b.contains(x),
    ensures
        a == b,
    decreases a.len(),
{
    if a.len() == 0 {
        if b.len() > 0 {
            assert(b.contains(b[0]));
        }
        assert(a =~= b);
    } else {
        assert(a.contains(a[0]));
        assert(b.len() > 0);
        assert(b.contains(b[0]));
        let ia = choose|k: int| 0 <= k < a.len() && a[k] == b[0];
        let ib = choose|k: int| 0 <= k < b.len() && b[k] == a[0];
        if a[0] != b[0] {
            assert(ia > 0 && ib > 0);
            assert(text_lt(a[0], a[ia]));
            assert(text_lt(b[0], b[ib]));
            lemma_text_asymmetric(a[0], b[0]);
        }
        let a2 = a.drop_first();
        let b2 = b.drop_first();
        assert forall|j: int, k: int| 0 <= j < k < a2.len() implies text_lt(#[trigger] a2[j], #[trigger] a2[k]) by {
            assert(a2[j] == a[j + 1] && a2[k] == a[k + 1]);
        }
        assert forall|j: int, k: int| 0 <= j < k < b2.len() implies text_lt(#[trigger] b2[j], #[trigger] b2[k]) by {
            assert(b2[j] == b[j + 1] && b2[k] == b[k + 1]);
        }
        assert forall|x: Seq<char>| a2.contains(x) <==> b2.contains(x) by {
            if a2.contains(x) {
                let j = choose|j: int| 0 <= j < a2.len() && a2[j] == x;
                assert(a[j + 1] == x);
                assert(a.contains(x));
                let k = choose|k: int| 0 <= k < b.len() && b[k] == x;
                if k == 0 {
                    assert(text_lt(a[0], a[j + 1]));
                    lemma_text_irreflexive(x);
                }
                assert(b2[k - 1] == x);
            }
            if b2.contains(x) {
                let j = choose|j: int| 0 <= j < b2.len() && b2[j] == x;
                assert(b[j + 1] == x);
                assert(b.contains(x));
                let k = choose|k: int| 0 <= k < a.len() && a[k] == x;
                if k == 0 {
                    assert(text_lt(b[0], b[j + 1]));
                    lemma_text_irreflexive(x);
                }
                assert(a2[k - 1] == x);
            }
        }
        lemma_sorted_unique(a2, b2);
        assert(a =~= seq![a[0]] + a2);
        assert(b =~= seq![b[0]] + b2);
    }
}

/// Position of a value in a strictly sorted sequence, or where it belongs.
pub open spec fn is_lower_bound(s: Seq<Seq<char>>, x: Seq<char>, pos: int, found: bool) -> bool {
    &&& 0 <= pos <= s.len()
    &&& forall|j: int| 0 <= j < pos ==> text_lt(#[trigger] s[j], x)
    &&& found ==> pos < s.len() && s[pos] == x
    &&& !found ==> (pos < s.len() ==> text_lt(x, s[pos]))
}

/// In a strictly sorted sequence, a lower bound that was not a hit means
/// the value is absent; a hit is the only occurrence.
pub proof fn lemma_lower_bound(s: Seq<Seq<char>>, x: Seq<char>, pos: int, found: bool)
    requires
        strictly_sorted(s),
        is_lower_bound(s, x, pos, found),
    ensures
        found <==> s.contains(x),
        forall|j: int| 0 <= j < s.len() && s[j] == x ==> j == pos,
{
    assert forall|j: int| 0 <= j < s.len() && s[j] == x implies j == pos && found by {
        lemma_text_irreflexive(x);
        if j < pos {
            assert(text_lt(s[j], x));
        } else if j > pos {
            if found {
                assert(text_lt(s[pos], s[j]));
            } else {
                assert(text_lt(x, s[pos]));
                lemma_text_transitive(x, s[pos], s[j]);
            }
        } else if !found {
            assert(text_lt(x, s[pos]));
        }
    }
    if found {
        assert(s[pos] == x);
    }
}

/// Outcome of comparing two text values.
#[derive(Clone, Copy, Debug, PartialEq, Eq, Structural)]
pub enum TextOrder {
    Less,
    Equal,
    Greater,
}

/// Compares two text values byte-wise.
pub fn compare_text(a: &str, b: &str) -> (r: TextOrder)
    ensures
        r == TextOrder::Less <==> text_lt(a@, b@),
        r == TextOrder::Equal <==> a@ == b@,
        r == TextOrder::Greater <==> text_lt(b@, a@),
{
    let x = a.as_bytes();
    let y = b.as_bytes();
    let ghost ex = encode_utf8(a@);
    let ghost ey = encode_utf8(b@);
    let mut i: usize = 0;
    assert(ex.skip(0) =~= ex);
    assert(ey.skip(0) =~= ey);
    while i < x.len() && i < y.len()
        invariant
            x@ == ex,
            y@ == ey,
            ex == encode_utf8(a@),
            ey == encode_utf8(b@),
            0 <= i <= x@.len(),
            i <= y@.len(),
            ex.take(i as int) == ey.take(i as int),
            lex_lt(ex, ey) == lex_lt(ex.skip(i as int), ey.skip(i as int)),
            lex_lt(ey, ex) == lex_lt(ey.skip(i as int), ex.skip(i as int)),
        decreases x@.len() - i,
    {
        let p = x[i];
        let q = y[i];
        assert(ex.skip(i as int)[0] == p);
        assert(ey.skip(i as int)[0] == q);
        assert(ex[i as int] == p && ey[i as int] == q);
        if p < q {
            proof {
                lemma_lex_asymmetric(ex, ey);
                lemma_encode_injective(a@, b@);
            }
            return TextOrder::Less;
        }
        if q < p {
            proof {
                lemma_lex_asymmetric(ex, ey);
                lemma_encode_injective(a@, b@);
            }
            return TextOrder::Greater;
        }
        assert(ex.skip(i as int).drop_first() =~= ex.skip(i + 1));
        assert(ey.skip(i as int).drop_first() =~= ey.skip(i + 1));
        assert(ex.take(i + 1) =~= ex.take(i as int).push(p));
        assert(ey.take(i + 1) =~= ey.take(i as int).push(q));
        i = i + 1;
    }
    proof {
        lemma_lex_asymmetric(ex, ey);
        lemma_encode_injective(a@, b@);
    }
    if x.len() == y.len() {
        assert(ex =~= ex.take(i as int));
        assert(ey =~= ey.take(i as int));
        proof {
            lemma_lex_irreflexive(ex);
        }
        TextOrder::Equal
    } else if x.len() < y.len() {
        TextOrder::Less
    } else {
        TextOrder::Greater
    }
}

} // verus!
