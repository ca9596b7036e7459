//! Character- and byte-level helpers shared by the validated text values.

use vstd::prelude::*;
use vstd::utf8::*;
use vstd::string::StringSliceAdditionalSpecFns;

verus! {

broadcast use vstd::string::group_string_axioms;

/// A Unicode control character (general category `Cc`): `U+0000..=U+001F`
/// and `U+007F..=U+009F`.
pub open spec fn is_control(c: char) -> bool {
    (c as u32) <= 0x1f || (0x7f <= (c as u32) && (c as u32) <= 0x9f)
}

/// Executable control-character test.
pub fn char_is_control(c: char) -> (r: bool)
    ensures
        r == is_control(c),
{
    let v = c as u32;
    v <= 0x1f || (0x7f <= v && v <= 0x9f)
}

/// Number of bytes in the UTF-8 encoding of a character sequence.
pub open spec fn utf8_len(s: Seq<char>) -> nat {
    encode_utf8(s).len()
}

/// Byte offset of the character at position `i` in the UTF-8 encoding.
pub open spec fn byte_offset(s: Seq<char>, i: int) -> nat {
    utf8_len(s.take(i))
}

/// Position of the first control character at or after `i`.
pub open spec fn first_control_from(s: Seq<char>, i: int) -> Option<int>
    decreases s.len() - i,
{
    if i < 0 || i >= s.len() {
        None
    } else if is_control(s[i]) {
        Some(i)
    } else {
        first_control_from(s, i + 1)
    }
}

/// Byte offset of the first control character, if any.
pub open spec fn control_byte_index(s: Seq<char>) -> Option<nat> {
    match first_control_from(s, 0) {
        Some(i) => Some(byte_offset(s, i)),
        None => None,
    }
}

/// No control character occurs in `s`.
pub open spec fn has_no_control(s: Seq<char>) -> bool {
    forall|i: int| 0 <= i < s.len() ==> !is_control(#[trigger] s[i])
}

pub proof fn lemma_first_control_from_none(s: Seq<char>, i: int)
    requires
        0 <= i,
    ensures
        first_control_from(s, i) is None <==> (forall|j: int|
            i <= j < s.len() ==> !is_control(#[trigger] s[j])),
        first_control_from(s, i) matches Some(k) ==> i <= k < s.len() && is_control(s[k]) && (
        forall|j: int| i <= j < k ==> !is_control(#[trigger] s[j])),
    decreases s.len() - i,
{
    if i < s.len() {
        lemma_first_control_from_none(s, i + 1);
    }
}

pub proof fn lemma_control_byte_index_none(s: Seq<char>)
    ensures
        control_byte_index(s) is None <==> has_no_control(s),
{
    lemma_first_control_from_none(s, 0);
}

pub proof fn lemma_encode_utf8_concat(a: Seq<char>, b: Seq<char>)
    ensures
        encode_utf8(a + b) == encode_utf8(a) + encode_utf8(b),
    decreases a.len(),
{
    if a.len() == 0 {
        assert(a + b =~= b);
        assert(encode_utf8(a) =~= Seq::<u8>::empty());
        assert(encode_utf8(a) + encode_utf8(b) =~= encode_utf8(b));
    } else {
        assert((a + b).drop_first() =~= a.drop_first() + b);
        lemma_encode_utf8_concat(a.drop_first(), b);
        assert((a + b)[0] == a[0]);
        assert(encode_utf8(a + b) == encode_scalar(a[0] as u32) + encode_utf8(a.drop_first() + b));
        assert(encode_utf8(a + b) =~= encode_utf8(a) + encode_utf8(b));
    }
}

/// Width in bytes of the UTF-8 encoding of one character.
pub open spec fn char_width(c: char) -> nat {
    encode_scalar(c as u32).len()
}

pub proof fn lemma_byte_offset_step(s: Seq<char>, i: int)
    requires
        0 <= i < s.len(),
    ensures
        byte_offset(s, i + 1) == byte_offset(s, i) + char_width(s[i]),
{
    let c = s[i];
    assert(s.take(i + 1) =~= s.take(i) + seq![c]);
    lemma_encode_utf8_concat(s.take(i), seq![c]);
    assert(seq![c].drop_first() =~= Seq::<char>::empty());
    assert(encode_utf8(seq![c]) =~= encode_scalar(c as u32) + encode_utf8(Seq::<char>::empty()));
}

pub proof fn lemma_byte_offset_bound(s: Seq<char>, i: int)
    requires
        0 <= i <= s.len(),
    ensures
        byte_offset(s, i) <= utf8_len(s),
{
    assert(s =~= s.take(i) + s.skip(i));
    lemma_encode_utf8_concat(s.take(i), s.skip(i));
}

/// Number of bytes in the UTF-8 encoding of a text value, computed.
pub fn text_byte_len(s: &str) -> (n: usize)
    ensures
        n == utf8_len(s@),
{
    s.as_bytes().len()
}

/// Executable UTF-8 width of a character.
pub fn utf8_char_width(c: char) -> (w: usize)
    ensures
        w == char_width(c),
        1 <= w <= 4,
{
    let v = c as u32;
    proof {
        char_is_scalar(c);
    }
    if v < 0x80 {
        1
    } else if v < 0x800 {
        2
    } else if v < 0x10000 {
        3
    } else {
        4
    }
}

/// Byte offset of the first Unicode control character in `s`, if any.
pub fn find_control_byte(s: &str) -> (r: Option<usize>)
    ensures
        r matches Some(b) ==> control_byte_index(s@) == Some(b as nat),
        r is None ==> control_byte_index(s@) is None,
{
    let mut offset: usize = 0;
    let ghost chars = s@;
    let total = s.as_bytes().len();
    proof {
        lemma_byte_offset_bound(chars, 0);
    }
    for c in it: s.chars()
        invariant
            chars == s@,
            it.seq() == chars,
            offset == byte_offset(chars, it.index() as int),
            first_control_from(chars, 0) == first_control_from(chars, it.index() as int),
            utf8_len(chars) == total,
    {
        let ghost i = it.index() as int;
        if char_is_control(c) {
            return Some(offset);
        }
        let w = utf8_char_width(c);
        proof {
            lemma_byte_offset_step(chars, i);
            lemma_byte_offset_bound(chars, i + 1);
        }
        offset = offset + w;
    }
    None
}

/// Fault of an opaque text value, which must be non-empty and free of
/// control characters: `None` when valid, `Some(None)` when empty,
/// `Some(Some(i))` when a control character starts at byte `i`.
pub open spec fn opaque_text_fault(s: Seq<char>) -> Option<Option<usize>> {
    if s.len() == 0 {
        Some(None)
    } else {
        match control_byte_index(s) {
            Some(i) => Some(Some(i as usize)),
            None => None,
        }
    }
}

/// Checks an opaque text value.
pub fn check_opaque_text(value: &str) -> (r: Option<Option<usize>>)
    ensures
        r == opaque_text_fault(value@),
        r is None <==> value@.len() > 0 && has_no_control(value@),
{
    proof {
        lemma_control_byte_index_none(value@);
    }
    if value.is_empty() {
        return Some(None);
    }
    match find_control_byte(value) {
        Some(index) => Some(Some(index)),
        None => None,
    }
}

} // verus!
