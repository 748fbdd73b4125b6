//! Text helpers: characters of a string, decimal numbers, padding.

use vstd::prelude::*;
use vstd::utf8::{decode_utf8, encode_utf8, encode_utf8_decode_utf8, is_char_boundary};
use vstd::string::*;
use vstd::std_specs::iter::IteratorSpec;

verus! {

broadcast use vstd::string::group_string_axioms;

/// Appends `c` to `s` (`String::push`).
#[verifier::external_body]
pub(crate) fn push_char(s: &mut String, c: char)
    ensures
        final(s)@ == old(s)@.push(c),
{
    s.push(c);
}

/// The characters of `s`, in order.
pub fn to_chars(s: &str) -> (v: Vec<char>)
    ensures
        v@ == s@,
{
    let mut v: Vec<char> = Vec::new();
    for c in iter: s.chars()
        invariant
            v@ == iter.seq().take(iter.index() as int),
    {
        v.push(c);
    }
    assert(v@ =~= s@);
    v
}

/// A `String` holding the characters of `v`.
pub fn from_chars(v: &Vec<char>) -> (s: String)
    ensures
        s@ == v@,
{
    let mut s = String::new();
    let mut i: usize = 0;
    while i < v.len()
        invariant
            i <= v.len(),
            s@ == v@.take(i as int),
        decreases v.len() - i,
    {
        push_char(&mut s, v[i]);
        i = i + 1;
        assert(s@ =~= v@.take(i as int));
    }
    assert(v@.take(v.len() as int) =~= v@);
    s
}

/// An owned copy of `lit`.
pub fn owned(lit: &str) -> (s: String)
    ensures
        s@ == lit@,
{
    lit.to_string()
}

/// Appends the characters of `tail` to `s`.
pub fn push_str(s: &mut String, tail: &str)
    ensures
        final(s)@ == old(s)@ + tail@,
{
    s.append(tail);
}

/// Whether `s` holds exactly the characters of `lit`.
pub fn string_is(s: &String, lit: &str) -> (r: bool)
    ensures
        r == (s@ == lit@),
{
    let other = owned(lit);
    *s == other
}

/// Whether two strings hold the same characters.
pub fn same_text(a: &String, b: &String) -> (r: bool)
    ensures
        r == (a@ == b@),
{
    *a == *b
}

/// The character of the decimal digit `d`.
pub open spec fn digit_char(d: nat) -> char
    recommends
        d < 10,
{
    ((d + 48) as u8) as char
}

/// The decimal representation of `n`, without leading zeros ("0" for zero).
pub open spec fn decimal(n: nat) -> Seq<char>
    decreases n,
{
    if n < 10 {
        seq![digit_char(n)]
    } else {
        decimal(n / 10).push(digit_char(n % 10))
    }
}

/// The decimal representation of the integer `n`, with a leading `-` when
/// it is negative.
pub open spec fn signed_decimal(n: int) -> Seq<char> {
    if n < 0 {
        seq!['-'] + decimal((-n) as nat)
    } else {
        decimal(n as nat)
    }
}

/// `s` preceded by as many `fill` characters as bring it to `width`
/// characters (unchanged when it is already that long).
pub open spec fn pad_left(s: Seq<char>, width: nat, fill: char) -> Seq<char> {
    if s.len() >= width {
        s
    } else {
        Seq::new((width - s.len()) as nat, |_i: int| fill) + s
    }
}

/// `s` followed by as many `fill` characters as bring it to `width`
/// characters (unchanged when it is already that long).
pub open spec fn pad_right(s: Seq<char>, width: nat, fill: char) -> Seq<char> {
    if s.len() >= width {
        s
    } else {
        s + Seq::new((width - s.len()) as nat, |_i: int| fill)
    }
}

fn push_digit(out: &mut String, d: u128)
    requires
        d < 10,
    ensures
        final(out)@ == old(out)@.push(digit_char(d as nat)),
{
    let c = ((d as u8) + 48u8) as char;
    push_char(out, c);
}

/// Appends the decimal representation of `n` to `out`.
pub fn push_decimal(out: &mut String, n: u128)
    ensures
        final(out)@ == old(out)@ + decimal(n as nat),
    decreases n,
{
    if n < 10 {
        push_digit(out, n);
        assert(old(out)@.push(digit_char(n as nat)) =~= old(out)@ + decimal(n as nat));
    } else {
        push_decimal(out, n / 10);
        push_digit(out, n % 10);
        assert(old(out)@ + decimal((n / 10) as nat) + seq![digit_char((n % 10) as nat)]
            =~= old(out)@ + decimal(n as nat));
    }
}

/// The decimal representation of `n`.
pub fn decimal_string(n: u128) -> (s: String)
    ensures
        s@ == decimal(n as nat),
{
    let mut s = String::new();
    push_decimal(&mut s, n);
    assert(s@ =~= decimal(n as nat));
    s
}

/// Appends the decimal representation of the signed `n` to `out`.
pub fn push_signed_decimal(out: &mut String, n: i128)
    requires
        n > i128::MIN,
    ensures
        final(out)@ == old(out)@ + signed_decimal(n as int),
{
    if n < 0 {
        push_char(out, '-');
        push_decimal(out, (-n) as u128);
        assert(old(out)@.push('-') + decimal((-n) as nat) =~= old(out)@ + signed_decimal(n as int));
    } else {
        push_decimal(out, n as u128);
    }
}

/// The number of characters in `s`.
pub fn char_count(s: &String) -> (n: usize)
    ensures
        n == s@.len(),
{
    s.as_str().unicode_len()
}

/// `s` preceded by `fill` characters up to `width` characters.
pub fn padded_left(s: &String, width: usize, fill: char) -> (r: String)
    ensures
        r@ == pad_left(s@, width as nat, fill),
{
    let n = char_count(s);
    let mut r = String::new();
    if n < width {
        let mut i: usize = 0;
        while i < width - n
            invariant
                n == s@.len(),
                n < width,
                i <= width - n,
                r@ == Seq::new(i as nat, |_k: int| fill),
            decreases width - n - i,
        {
            push_char(&mut r, fill);
            i = i + 1;
            assert(r@ =~= Seq::new(i as nat, |_k: int| fill));
        }
    }
    r.append(s.as_str());
    assert(r@ =~= pad_left(s@, width as nat, fill));
    r
}

/// `s` followed by `fill` characters up to `width` characters.
pub fn padded_right(s: &String, width: usize, fill: char) -> (r: String)
    ensures
        r@ == pad_right(s@, width as nat, fill),
{
    let n = char_count(s);
    let mut r = s.clone();
    if n < width {
        let mut i: usize = 0;
        while i < width - n
            invariant
                n == s@.len(),
                n < width,
                i <= width - n,
                r@ == s@ + Seq::new(i as nat, |_k: int| fill),
            decreases width - n - i,
        {
            push_char(&mut r, fill);
            i = i + 1;
            assert(r@ =~= s@ + Seq::new(i as nat, |_k: int| fill));
        }
    }
    assert(r@ =~= pad_right(s@, width as nat, fill));
    r
}

/// How many bytes of the UTF-8 encoding of `s` a cut after at most `max`
/// bytes keeps.
pub open spec fn byte_cut(s: Seq<char>, max: nat) -> int {
    let n = encode_utf8(s).len();
    if n < max {
        n as int
    } else {
        max as int
    }
}

/// The characters of the first `max` bytes of `s` (all of `s` when it is
/// shorter).
pub open spec fn byte_prefix(s: Seq<char>, max: nat) -> Seq<char> {
    decode_utf8(encode_utf8(s).subrange(0, byte_cut(s, max)))
}

/// Whether cutting `s` after its first `max` bytes splits no character;
/// the length of `s` in bytes fits a `usize`, as every string's does.
pub open spec fn byte_cut_ok(s: Seq<char>, max: nat) -> bool {
    &&& is_char_boundary(encode_utf8(s), byte_cut(s, max))
    &&& encode_utf8(s).len() <= usize::MAX
}

/// The first `max` bytes of `s` (all of it when shorter), as `&s[..n]`
/// cuts them.
pub fn leading_bytes(s: &str, max: usize) -> (r: &str)
    requires
        byte_cut_ok(s@, max as nat),
    ensures
        r@ == byte_prefix(s@, max as nat),
{
    assert(s.spec_bytes() == encode_utf8(s@));
    let n: usize = if s.len() < max {
        s.len()
    } else {
        max
    };
    let (head, _rest) = s.split_at(n);
    proof {
        encode_utf8_decode_utf8(head@);
    }
    head
}

} // verus!
