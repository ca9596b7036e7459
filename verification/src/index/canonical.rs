//! Laws of the canonical encodings: distinct key values, and distinct key
//! definitions, never share canonical bytes.

use crate::encoding::{be_bytes_u128, be_bytes_u64, encoded_text};
use crate::index::key::{
    encode_fields, encode_items, encode_key, encode_key_definition, encode_names,
    key_definition_tag, KeyValue,
};
use crate::order::lemma_encode_injective;
use vstd::prelude::*;
use vstd::utf8::encode_utf8;

verus! {

/// Splitting two equal concatenations whose first parts have equal lengths.
pub proof fn lemma_concat_split<A>(a1: Seq<A>, r1: Seq<A>, a2: Seq<A>, r2: Seq<A>)
    requires
        a1.len() == a2.len(),
        a1 + r1 == a2 + r2,
    ensures
        a1 == a2,
        r1 == r2,
{
    assert(a1 =~= (a1 + r1).take(a1.len() as int));
    assert(a2 =~= (a2 + r2).take(a2.len() as int));
    assert(r1 =~= (a1 + r1).skip(a1.len() as int));
    assert(r2 =~= (a2 + r2).skip(a2.len() as int));
}

/// Big-endian bytes determine a `u64`.
pub proof fn lemma_be_u64_injective(x: u64, y: u64)
    requires
        be_bytes_u64(x) == be_bytes_u64(y),
    ensures
        x == y,
{
    let bx = be_bytes_u64(x);
    let by = be_bytes_u64(y);
    assert(bx[0] == by[0] && bx[1] == by[1] && bx[2] == by[2] && bx[3] == by[3]);
    assert(bx[4] == by[4] && bx[5] == by[5] && bx[6] == by[6] && bx[7] == by[7]);
    let b0 = ((x >> 56u64) & 0xff) as u8;
    assert(bx[0] == b0);
    assert(x == y) by (bit_vector)
        requires
            ((x >> 56u64) & 0xff) as u8 == ((y >> 56u64) & 0xff) as u8,
            ((x >> 48u64) & 0xff) as u8 == ((y >> 48u64) & 0xff) as u8,
            ((x >> 40u64) & 0xff) as u8 == ((y >> 40u64) & 0xff) as u8,
            ((x >> 32u64) & 0xff) as u8 == ((y >> 32u64) & 0xff) as u8,
            ((x >> 24u64) & 0xff) as u8 == ((y >> 24u64) & 0xff) as u8,
            ((x >> 16u64) & 0xff) as u8 == ((y >> 16u64) & 0xff) as u8,
            ((x >> 8u64) & 0xff) as u8 == ((y >> 8u64) & 0xff) as u8,
            ((x >> 0u64) & 0xff) as u8 == ((y >> 0u64) & 0xff) as u8,
    ;
}

/// Big-endian bytes determine a `u128`.
pub proof fn lemma_be_u128_injective(x: u128, y: u128)
    requires
        be_bytes_u128(x) == be_bytes_u128(y),
    ensures
        x == y,
{
    let bx = be_bytes_u128(x);
    let by = be_bytes_u128(y);
    assert(forall|k: int| 0 <= k < 16 ==> bx[k] == by[k]);
    assert(bx[0] == by[0] && bx[1] == by[1] && bx[2] == by[2] && bx[3] == by[3]);
    assert(bx[4] == by[4] && bx[5] == by[5] && bx[6] == by[6] && bx[7] == by[7]);
    assert(bx[8] == by[8] && bx[9] == by[9] && bx[10] == by[10] && bx[11] == by[11]);
    assert(bx[12] == by[12] && bx[13] == by[13] && bx[14] == by[14] && bx[15] == by[15]);
    assert(x == y) by (bit_vector)
        requires
            ((x >> 120u128) & 0xff) as u8 == ((y >> 120u128) & 0xff) as u8,
            ((x >> 112u128) & 0xff) as u8 == ((y >> 112u128) & 0xff) as u8,
            ((x >> 104u128) & 0xff) as u8 == ((y >> 104u128) & 0xff) as u8,
            ((x >> 96u128) & 0xff) as u8 == ((y >> 96u128) & 0xff) as u8,
            ((x >> 88u128) & 0xff) as u8 == ((y >> 88u128) & 0xff) as u8,
            ((x >> 80u128) & 0xff) as u8 == ((y >> 80u128) & 0xff) as u8,
            ((x >> 72u128) & 0xff) as u8 == ((y >> 72u128) & 0xff) as u8,
            ((x >> 64u128) & 0xff) as u8 == ((y >> 64u128) & 0xff) as u8,
            ((x >> 56u128) & 0xff) as u8 == ((y >> 56u128) & 0xff) as u8,
            ((x >> 48u128) & 0xff) as u8 == ((y >> 48u128) & 0xff) as u8,
            ((x >> 40u128) & 0xff) as u8 == ((y >> 40u128) & 0xff) as u8,
            ((x >> 32u128) & 0xff) as u8 == ((y >> 32u128) & 0xff) as u8,
            ((x >> 24u128) & 0xff) as u8 == ((y >> 24u128) & 0xff) as u8,
            ((x >> 16u128) & 0xff) as u8 == ((y >> 16u128) & 0xff) as u8,
            ((x >> 8u128) & 0xff) as u8 == ((y >> 8u128) & 0xff) as u8,
            ((x >> 0u128) & 0xff) as u8 == ((y >> 0u128) & 0xff) as u8,
    ;
}

/// Reading a signed integer as unsigned loses nothing.
pub proof fn lemma_i128_as_u128_injective(i: i128, j: i128)
    requires
        i as u128 == j as u128,
    ensures
        i == j,
{
    assert(i == j) by (bit_vector)
        requires
            i as u128 == j as u128,
    ;
}

/// The encoding of items, read from the front.
pub proof fn lemma_encode_items_front(items: Seq<KeyValue>)
    requires
        items.len() > 0,
    ensures
        encode_items(items) == encode_key(items[0]) + encode_items(items.drop_first()),
    decreases items.len(),
{
    if items.len() == 1 {
        assert(items.drop_last() =~= Seq::<KeyValue>::empty());
        assert(items.drop_first() =~= Seq::<KeyValue>::empty());
        assert(encode_items(items.drop_last()) == Seq::<u8>::empty());
        assert(encode_items(items.drop_first()) == Seq::<u8>::empty());
        assert(encode_items(items) =~= encode_key(items[0]));
    } else {
        let d = items.drop_last();
        lemma_encode_items_front(d);
        assert(d[0] == items[0]);
        assert(d.drop_first() =~= items.drop_first().drop_last());
        assert(items.drop_first().last() == items.last());
        assert(encode_items(items) =~= encode_key(items[0]) + encode_items(items.drop_first()));
    }
}

/// The encoding of named fields, read from the front.
pub proof fn lemma_encode_fields_front(fs: Seq<(Seq<char>, KeyValue)>)
    requires
        fs.len() > 0,
    ensures
        encode_fields(fs) == encoded_text(fs[0].0) + encode_key(fs[0].1) + encode_fields(fs.drop_first()),
    decreases fs.len(),
{
    if fs.len() == 1 {
        assert(fs.drop_last() =~= Seq::<(Seq<char>, KeyValue)>::empty());
        assert(fs.drop_first() =~= Seq::<(Seq<char>, KeyValue)>::empty());
        assert(encode_fields(fs.drop_last()) == Seq::<u8>::empty());
        assert(encode_fields(fs.drop_first()) == Seq::<u8>::empty());
        assert(encode_fields(fs) =~= encoded_text(fs[0].0) + encode_key(fs[0].1));
    } else {
        let d = fs.drop_last();
        lemma_encode_fields_front(d);
        assert(d[0] == fs[0]);
        assert(d.drop_first() =~= fs.drop_first().drop_last());
        assert(fs.drop_first().last() == fs.last());
        assert(encode_fields(fs) =~= encoded_text(fs[0].0) + encode_key(fs[0].1) + encode_fields(fs.drop_first()));
    }
}

/// The encoding of names, read from the front.
pub proof fn lemma_encode_names_front(names: Seq<Seq<char>>)
    requires
        names.len() > 0,
    ensures
        encode_names(names) == encoded_text(names[0]) + encode_names(names.drop_first()),
    decreases names.len(),
{
    if names.len() == 1 {
        assert(names.drop_last() =~= Seq::<Seq<char>>::empty());
        assert(names.drop_first() =~= Seq::<Seq<char>>::empty());
        assert(encode_names(names.drop_last()) == Seq::<u8>::empty());
        assert(encode_names(names.drop_first()) == Seq::<u8>::empty());
        assert(encode_names(names) =~= encoded_text(names[0]));
    } else {
        let d = names.drop_last();
        lemma_encode_names_front(d);
        assert(d[0] == names[0]);
        assert(d.drop_first() =~= names.drop_first().drop_last());
        assert(names.drop_first().last() == names.last());
        assert(encode_names(names) =~= encoded_text(names[0]) + encode_names(names.drop_first()));
    }
}

/// Every encoding starts with a tag byte.
pub proof fn lemma_key_nonempty(v: KeyValue)
    ensures
        encode_key(v).len() >= 1,
        encode_key(v)[0] == match v {
            KeyValue::Null => 0x00u8,
            KeyValue::Bool(b) => if b {
                0x02u8
            } else {
                0x01u8
            },
            KeyValue::Integer(_) => 0x03u8,
            KeyValue::Unsigned(_) => 0x04u8,
            KeyValue::Text(_) => 0x05u8,
            KeyValue::Bytes(_) => 0x06u8,
            KeyValue::Sequence(_) => 0x07u8,
            KeyValue::Fields(_) => 0x08u8,
        },
{
}

/// Every encoded item takes at least one byte.
pub proof fn lemma_items_len(items: Seq<KeyValue>)
    ensures
        items.len() <= encode_items(items).len(),
    decreases items.len(),
{
    if items.len() > 0 {
        lemma_items_len(items.drop_last());
        lemma_key_nonempty(items.last());
    }
}

/// Every encoded field takes at least one byte.
pub proof fn lemma_fields_len(fs: Seq<(Seq<char>, KeyValue)>)
    ensures
        fs.len() <= encode_fields(fs).len(),
    decreases fs.len(),
{
    if fs.len() > 0 {
        lemma_fields_len(fs.drop_last());
    }
}

/// Every encoded name takes at least one byte.
pub proof fn lemma_names_len(names: Seq<Seq<char>>)
    ensures
        names.len() <= encode_names(names).len(),
    decreases names.len(),
{
    if names.len() > 0 {
        lemma_names_len(names.drop_last());
    }
}

/// A length-prefixed text followed by anything determines the text and
/// what follows, as long as both texts fit the length field.
pub proof fn lemma_text_prefix(x: Seq<char>, y: Seq<char>, s: Seq<u8>, t: Seq<u8>)
    requires
        encoded_text(x) + s == encoded_text(y) + t,
        encode_utf8(x).len() <= u64::MAX,
        encode_utf8(y).len() <= u64::MAX,
    ensures
        x == y,
        s == t,
{
    let ux = encode_utf8(x);
    let uy = encode_utf8(y);
    assert(encoded_text(x) + s =~= be_bytes_u64(ux.len() as u64) + (ux + s));
    assert(encoded_text(y) + t =~= be_bytes_u64(uy.len() as u64) + (uy + t));
    lemma_concat_split(be_bytes_u64(ux.len() as u64), ux + s, be_bytes_u64(uy.len() as u64), uy + t);
    lemma_be_u64_injective(ux.len() as u64, uy.len() as u64);
    lemma_concat_split(ux, s, uy, t);
    lemma_encode_injective(x, y);
}

/// An encoded key value followed by anything determines the value and
/// what follows, as long as both encodings fit the length fields.
pub proof fn lemma_key_prefix(a: KeyValue, b: KeyValue, s: Seq<u8>, t: Seq<u8>)
    requires
        encode_key(a) + s == encode_key(b) + t,
        encode_key(a).len() <= u64::MAX,
        encode_key(b).len() <= u64::MAX,
    ensures
        a == b,
        s == t,
    decreases a,
{
    lemma_key_nonempty(a);
    lemma_key_nonempty(b);
    assert((encode_key(a) + s)[0] == encode_key(a)[0]);
    assert((encode_key(b) + t)[0] == encode_key(b)[0]);
    match a {
        KeyValue::Null => {
            lemma_concat_split(encode_key(a), s, encode_key(b), t);
        },
        KeyValue::Bool(_) => {
            lemma_concat_split(encode_key(a), s, encode_key(b), t);
        },
        KeyValue::Integer(i) => {
            let j = b->Integer_0;
            lemma_concat_split(encode_key(a), s, encode_key(b), t);
            lemma_concat_split(seq![0x03u8], be_bytes_u128(i as u128), seq![0x03u8], be_bytes_u128(j as u128));
            lemma_be_u128_injective(i as u128, j as u128);
            lemma_i128_as_u128_injective(i, j);
        },
        KeyValue::Unsigned(u) => {
            let v = b->Unsigned_0;
            lemma_concat_split(encode_key(a), s, encode_key(b), t);
            lemma_concat_split(seq![0x04u8], be_bytes_u128(u), seq![0x04u8], be_bytes_u128(v));
            lemma_be_u128_injective(u, v);
        },
        KeyValue::Text(x) => {
            let y = b->Text_0;
            assert(encode_key(a) + s =~= seq![0x05u8] + (encoded_text(x) + s));
            assert(encode_key(b) + t =~= seq![0x05u8] + (encoded_text(y) + t));
            lemma_concat_split(seq![0x05u8], encoded_text(x) + s, seq![0x05u8], encoded_text(y) + t);
            lemma_text_prefix(x, y, s, t);
        },
        KeyValue::Bytes(x) => {
            let y = b->Bytes_0;
            assert(encode_key(a) + s =~= seq![0x06u8] + (be_bytes_u64(x.len() as u64) + (x + s)));
            assert(encode_key(b) + t =~= seq![0x06u8] + (be_bytes_u64(y.len() as u64) + (y + t)));
            lemma_concat_split(
                seq![0x06u8],
                be_bytes_u64(x.len() as u64) + (x + s),
                seq![0x06u8],
                be_bytes_u64(y.len() as u64) + (y + t),
            );
            lemma_concat_split(be_bytes_u64(x.len() as u64), x + s, be_bytes_u64(y.len() as u64), y + t);
            lemma_be_u64_injective(x.len() as u64, y.len() as u64);
            lemma_concat_split(x, s, y, t);
        },
        KeyValue::Sequence(xs) => {
            let ys = b->Sequence_0;
            assert(encode_key(a) + s =~= seq![0x07u8] + (be_bytes_u64(xs.len() as u64) + (encode_items(xs) + s)));
            assert(encode_key(b) + t =~= seq![0x07u8] + (be_bytes_u64(ys.len() as u64) + (encode_items(ys) + t)));
            lemma_concat_split(
                seq![0x07u8],
                be_bytes_u64(xs.len() as u64) + (encode_items(xs) + s),
                seq![0x07u8],
                be_bytes_u64(ys.len() as u64) + (encode_items(ys) + t),
            );
            lemma_concat_split(
                be_bytes_u64(xs.len() as u64),
                encode_items(xs) + s,
                be_bytes_u64(ys.len() as u64),
                encode_items(ys) + t,
            );
            lemma_be_u64_injective(xs.len() as u64, ys.len() as u64);
            lemma_items_len(xs);
            lemma_items_len(ys);
            lemma_items_prefix(xs, ys, s, t);
        },
        KeyValue::Fields(xs) => {
            let ys = b->Fields_0;
            assert(encode_key(a) + s =~= seq![0x08u8] + (be_bytes_u64(xs.len() as u64) + (encode_fields(xs) + s)));
            assert(encode_key(b) + t =~= seq![0x08u8] + (be_bytes_u64(ys.len() as u64) + (encode_fields(ys) + t)));
            lemma_concat_split(
                seq![0x08u8],
                be_bytes_u64(xs.len() as u64) + (encode_fields(xs) + s),
                seq![0x08u8],
                be_bytes_u64(ys.len() as u64) + (encode_fields(ys) + t),
            );
            lemma_concat_split(
                be_bytes_u64(xs.len() as u64),
                encode_fields(xs) + s,
                be_bytes_u64(ys.len() as u64),
                encode_fields(ys) + t,
            );
            lemma_be_u64_injective(xs.len() as u64, ys.len() as u64);
            lemma_fields_len(xs);
            lemma_fields_len(ys);
            lemma_fields_prefix(xs, ys, s, t);
        },
    }
}

/// Encoded items of equal count followed by anything determine the items
/// and what follows.
pub proof fn lemma_items_prefix(xs: Seq<KeyValue>, ys: Seq<KeyValue>, s: Seq<u8>, t: Seq<u8>)
    requires
        xs.len() == ys.len(),
        encode_items(xs) + s == encode_items(ys) + t,
        encode_items(xs).len() <= u64::MAX,
        encode_items(ys).len() <= u64::MAX,
    ensures
        xs == ys,
        s == t,
    decreases xs,
{
    if xs.len() == 0 {
        assert(encode_items(xs) =~= Seq::<u8>::empty());
        assert(encode_items(ys) =~= Seq::<u8>::empty());
        assert(s =~= encode_items(xs) + s);
        assert(t =~= encode_items(ys) + t);
        assert(xs =~= ys);
    } else {
        lemma_encode_items_front(xs);
        lemma_encode_items_front(ys);
        let r1 = encode_items(xs.drop_first()) + s;
        let r2 = encode_items(ys.drop_first()) + t;
        assert(encode_items(xs) + s =~= encode_key(xs[0]) + r1);
        assert(encode_items(ys) + t =~= encode_key(ys[0]) + r2);
        lemma_key_prefix(xs[0], ys[0], r1, r2);
        lemma_items_prefix(xs.drop_first(), ys.drop_first(), s, t);
        assert(xs =~= ys) by {
            assert forall|k: int| 0 <= k < xs.len() implies xs[k] == ys[k] by {
                if k > 0 {
                    assert(xs[k] == xs.drop_first()[k - 1]);
                    assert(ys[k] == ys.drop_first()[k - 1]);
                }
            }
        }
    }
}

/// Encoded fields of equal count followed by anything determine the fields
/// and what follows.
pub proof fn lemma_fields_prefix(
    xs: Seq<(Seq<char>, KeyValue)>,
    ys: Seq<(Seq<char>, KeyValue)>,
    s: Seq<u8>,
    t: Seq<u8>,
)
    requires
        xs.len() == ys.len(),
        encode_fields(xs) + s == encode_fields(ys) + t,
        encode_fields(xs).len() <= u64::MAX,
        encode_fields(ys).len() <= u64::MAX,
    ensures
        xs == ys,
        s == t,
    decreases xs,
{
    if xs.len() == 0 {
        assert(encode_fields(xs) =~= Seq::<u8>::empty());
        assert(encode_fields(ys) =~= Seq::<u8>::empty());
        assert(s =~= encode_fields(xs) + s);
        assert(t =~= encode_fields(ys) + t);
        assert(xs =~= ys);
    } else {
        lemma_encode_fields_front(xs);
        lemma_encode_fields_front(ys);
        let r1 = encode_fields(xs.drop_first()) + s;
        let r2 = encode_fields(ys.drop_first()) + t;
        let q1 = encode_key(xs[0].1) + r1;
        let q2 = encode_key(ys[0].1) + r2;
        assert(encode_fields(xs) + s =~= encoded_text(xs[0].0) + q1);
        assert(encode_fields(ys) + t =~= encoded_text(ys[0].0) + q2);
        assert(encode_utf8(xs[0].0).len() <= encode_fields(xs).len());
        assert(encode_utf8(ys[0].0).len() <= encode_fields(ys).len());
        lemma_text_prefix(xs[0].0, ys[0].0, q1, q2);
        assert(decreases_to!(xs => xs[0]));
        lemma_key_prefix(xs[0].1, ys[0].1, r1, r2);
        lemma_fields_prefix(xs.drop_first(), ys.drop_first(), s, t);
        assert(xs =~= ys) by {
            assert forall|k: int| 0 <= k < xs.len() implies xs[k] == ys[k] by {
                if k > 0 {
                    assert(xs[k] == xs.drop_first()[k - 1]);
                    assert(ys[k] == ys.drop_first()[k - 1]);
                }
            }
        }
    }
}

/// The canonical encoding of key material is injective: two key values
/// with the same canonical bytes are the same value. (Every encoding held
/// in memory fits the 64-bit length fields.)
pub proof fn law_canonical_key_encoding_is_injective(a: KeyValue, b: KeyValue)
    requires
        encode_key(a).len() <= u64::MAX,
        encode_key(b).len() <= u64::MAX,
    ensures
        encode_key(a) == encode_key(b) ==> a == b,
{
    if encode_key(a) == encode_key(b) {
        let e = Seq::<u8>::empty();
        assert(encode_key(a) + e =~= encode_key(b) + e);
        lemma_key_prefix(a, b, e, e);
    }
}

/// Encoded names of equal count followed by anything determine the names
/// and what follows.
pub proof fn lemma_names_prefix(xs: Seq<Seq<char>>, ys: Seq<Seq<char>>, s: Seq<u8>, t: Seq<u8>)
    requires
        xs.len() == ys.len(),
        encode_names(xs) + s == encode_names(ys) + t,
        encode_names(xs).len() <= u64::MAX,
        encode_names(ys).len() <= u64::MAX,
    ensures
        xs == ys,
        s == t,
    decreases xs.len(),
{
    if xs.len() == 0 {
        assert(encode_names(xs) =~= Seq::<u8>::empty());
        assert(encode_names(ys) =~= Seq::<u8>::empty());
        assert(s =~= encode_names(xs) + s);
        assert(t =~= encode_names(ys) + t);
        assert(xs =~= ys);
    } else {
        lemma_encode_names_front(xs);
        lemma_encode_names_front(ys);
        let r1 = encode_names(xs.drop_first()) + s;
        let r2 = encode_names(ys.drop_first()) + t;
        assert(encode_names(xs) + s =~= encoded_text(xs[0]) + r1);
        assert(encode_names(ys) + t =~= encoded_text(ys[0]) + r2);
        lemma_text_prefix(xs[0], ys[0], r1, r2);
        lemma_names_prefix(xs.drop_first(), ys.drop_first(), s, t);
        assert(xs =~= ys) by {
            assert forall|k: int| 0 <= k < xs.len() implies xs[k] == ys[k] by {
                if k > 0 {
                    assert(xs[k] == xs.drop_first()[k - 1]);
                    assert(ys[k] == ys.drop_first()[k - 1]);
                }
            }
        }
    }
}

/// The canonical encoding of key definitions is injective: two definitions
/// with the same canonical bytes have the same field names in the same
/// order.
pub proof fn law_canonical_definition_encoding_is_injective(a: Seq<Seq<char>>, b: Seq<Seq<char>>)
    requires
        encode_key_definition(a).len() <= u64::MAX,
        encode_key_definition(b).len() <= u64::MAX,
    ensures
        encode_key_definition(a) == encode_key_definition(b) ==> a == b,
{
    if encode_key_definition(a) == encode_key_definition(b) {
        let tag = key_definition_tag();
        assert(encode_key_definition(a) =~= tag + (be_bytes_u64(a.len() as u64) + encode_names(a)));
        assert(encode_key_definition(b) =~= tag + (be_bytes_u64(b.len() as u64) + encode_names(b)));
        lemma_concat_split(
            tag,
            be_bytes_u64(a.len() as u64) + encode_names(a),
            tag,
            be_bytes_u64(b.len() as u64) + encode_names(b),
        );
        lemma_concat_split(be_bytes_u64(a.len() as u64), encode_names(a), be_bytes_u64(b.len() as u64), encode_names(b));
        lemma_be_u64_injective(a.len() as u64, b.len() as u64);
        lemma_names_len(a);
        lemma_names_len(b);
        let e = Seq::<u8>::empty();
        assert(encode_names(a) + e =~= encode_names(b) + e);
        lemma_names_prefix(a, b, e, e);
    }
}

} // verus!
