//! Rendering of values as text for messages: decimal and hexadecimal
//! numbers, quoted strings, and comma-separated lists.

use vstd::prelude::*;
use vstd::string::StringExecFns;

verus! {

/// The decimal digit character of `d`.
pub open spec fn digit_char(d: nat) -> char {
    (48 + d) as char
}

/// Decimal notation of a natural number, without leading zeros.
pub open spec fn decimal_text(n: nat) -> Seq<char>
    decreases n,
{
    if n < 10 {
        seq![digit_char(n)]
    } else {
        decimal_text(n / 10).push(digit_char(n % 10))
    }
}

/// Decimal notation of an integer, with a leading `-` when negative.
pub open spec fn signed_text(i: int) -> Seq<char> {
    if i < 0 {
        "-"@ + decimal_text((-i) as nat)
    } else {
        decimal_text(i as nat)
    }
}

/// `true` or `false`.
pub open spec fn bool_text(b: bool) -> Seq<char> {
    if b {
        "true"@
    } else {
        "false"@
    }
}

/// Upper-case hexadecimal digit character of `d`.
pub open spec fn hex_char(d: nat) -> char {
    if d < 10 {
        (48 + d) as char
    } else {
        (55 + d) as char
    }
}

/// Two upper-case hexadecimal digits of a byte.
pub open spec fn hex_byte_text(b: u8) -> Seq<char> {
    seq![hex_char((b / 16) as nat), hex_char((b % 16) as nat)]
}

/// Texts joined by `, `.
pub open spec fn joined(parts: Seq<Seq<char>>) -> Seq<char>
    decreases parts.len(),
{
    if parts.len() == 0 {
        Seq::empty()
    } else if parts.len() == 1 {
        parts[0]
    } else {
        joined(parts.drop_last()) + ", "@ + parts.last()
    }
}

/// Joining one more part.
pub proof fn lemma_joined_push(parts: Seq<Seq<char>>, p: Seq<char>)
    ensures
        joined(parts.push(p)) == if parts.len() == 0 {
            p
        } else {
            joined(parts) + ", "@ + p
        },
{
    assert(parts.push(p).drop_last() =~= parts);
}

/// The debug rendering of a string: the string in double quotes, with the
/// characters that need it escaped, as the standard library writes it.
pub uninterp spec fn debug_quoted(s: Seq<char>) -> Seq<char>;

/// Appends `t` to `s`.
pub fn push_text(s: &mut String, t: &str)
    ensures
        final(s)@ == old(s)@ + t@,
{
    s.append(t);
}

/// The debug rendering of `t`, as `<str as Debug>::fmt` writes it: trusted
/// to equal [`debug_quoted`] of `t`, a function of the text alone whose
/// escaping rules are left unstated.
#[verifier::external_body]
fn quoted_text(t: &str) -> (r: String)
    ensures
        r@ == debug_quoted(t@),
{
    format!("{t:?}")
}

/// Appends the debug rendering of `t` to `s`.
pub fn push_quoted(s: &mut String, t: &str)
    ensures
        final(s)@ == old(s)@ + debug_quoted(t@),
{
    let q = quoted_text(t);
    s.append(q.as_str());
}

fn digit_text(d: u128) -> (r: &'static str)
    requires
        d < 16,
    ensures
        r@ == seq![hex_char(d as nat)],
{
    if d == 0 {
        proof { reveal_strlit("0"); }
        "0"
    } else if d == 1 {
        proof { reveal_strlit("1"); }
        "1"
    } else if d == 2 {
        proof { reveal_strlit("2"); }
        "2"
    } else if d == 3 {
        proof { reveal_strlit("3"); }
        "3"
    } else if d == 4 {
        proof { reveal_strlit("4"); }
        "4"
    } else if d == 5 {
        proof { reveal_strlit("5"); }
        "5"
    } else if d == 6 {
        proof { reveal_strlit("6"); }
        "6"
    } else if d == 7 {
        proof { reveal_strlit("7"); }
        "7"
    } else if d == 8 {
        proof { reveal_strlit("8"); }
        "8"
    } else if d == 9 {
        proof { reveal_strlit("9"); }
        "9"
    } else if d == 10 {
        proof { reveal_strlit("A"); }
        "A"
    } else if d == 11 {
        proof { reveal_strlit("B"); }
        "B"
    } else if d == 12 {
        proof { reveal_strlit("C"); }
        "C"
    } else if d == 13 {
        proof { reveal_strlit("D"); }
        "D"
    } else if d == 14 {
        proof { reveal_strlit("E"); }
        "E"
    } else {
        proof { reveal_strlit("F"); }
        "F"
    }
}

/// Appends the decimal notation of `n` to `s`.
pub fn push_decimal(s: &mut String, n: u128)
    ensures
        final(s)@ == old(s)@ + decimal_text(n as nat),
    decreases n,
{
    if n >= 10 {
        push_decimal(s, n / 10);
    }
    push_text(s, digit_text(n % 10));
    assert(final(s)@ =~= old(s)@ + decimal_text(n as nat));
}

/// Appends the signed decimal notation of `n` to `s`.
pub fn push_signed(s: &mut String, n: i128)
    ensures
        final(s)@ == old(s)@ + signed_text(n as int),
{
    if n < 0 {
        push_text(s, "-");
        let magnitude: u128 = (-(n + 1)) as u128 + 1;
        push_decimal(s, magnitude);
        assert(final(s)@ =~= old(s)@ + signed_text(n as int));
    } else {
        push_decimal(s, n as u128);
    }
}

/// Appends `true` or `false` to `s`.
pub fn push_bool(s: &mut String, b: bool)
    ensures
        final(s)@ == old(s)@ + bool_text(b),
{
    if b {
        push_text(s, "true");
    } else {
        push_text(s, "false");
    }
}

/// Appends the two upper-case hexadecimal digits of `b` to `s`.
pub fn push_hex_byte(s: &mut String, b: u8)
    ensures
        final(s)@ == old(s)@ + hex_byte_text(b),
{
    push_text(s, digit_text((b / 16) as u128));
    push_text(s, digit_text((b % 16) as u128));
    assert(final(s)@ =~= old(s)@ + hex_byte_text(b));
}

/// The decimal notations of bytes, joined by `, `.
pub open spec fn byte_list_text(bs: Seq<u8>) -> Seq<char> {
    joined(bs.map_values(|b: u8| decimal_text(b as nat)))
}

/// Appends the decimal notations of `bs`, joined by `, `, to `s`.
pub fn push_byte_list(s: &mut String, bs: &[u8])
    ensures
        final(s)@ == old(s)@ + byte_list_text(bs@),
{
    let ghost s0 = s@;
    let ghost parts = bs@.map_values(|b: u8| decimal_text(b as nat));
    let mut i: usize = 0;
    while i < bs.len()
        invariant
            0 <= i <= bs@.len(),
            parts == bs@.map_values(|b: u8| decimal_text(b as nat)),
            s@ == s0 + joined(parts.take(i as int)),
        decreases bs@.len() - i,
    {
        proof {
            lemma_joined_push(parts.take(i as int), parts[i as int]);
            assert(parts.take(i + 1) =~= parts.take(i as int).push(parts[i as int]));
        }
        if i > 0 {
            push_text(s, ", ");
        }
        push_decimal(s, bs[i] as u128);
        assert(s@ =~= s0 + joined(parts.take(i + 1)));
        i = i + 1;
    }
    assert(parts.take(bs@.len() as int) =~= parts);
}

} // verus!
