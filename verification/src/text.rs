//! Texts as sequences of characters.

use vstd::prelude::*;
use vstd::std_specs::iter::IteratorSpec;
use vstd::utf8::{encode_utf8, is_char_boundary, pop_first_scalar, encode_utf8_first_scalar, encode_utf8_valid_utf8};

verus! {

broadcast use vstd::string::group_string_axioms;

/// The characters of `s`, in order.
pub fn chars_of(s: &str) -> (chars: Vec<char>)
    ensures
        chars@ == s@,
{
    let mut it = s.chars();
    let mut chars: Vec<char> = Vec::new();
    loop
        invariant
            chars@ + it.remaining() == s@,
            it.decrease() is Some,
        ensures
            chars@ == s@,
        decreases it.decrease()->0,
    {
        match it.next() {
            Some(c) => {
                chars.push(c);
            },
            None => {
                break;
            },
        }
    }
    chars
}

} // verus!

verus! {

/// Whether `pattern` occurs in `s` as a run of consecutive characters.
pub open spec fn contains_text(s: Seq<char>, pattern: Seq<char>) -> bool {
    exists|i: int|
        0 <= i && i + pattern.len() <= s.len() && #[trigger] s.subrange(i, i + pattern.len())
            == pattern
}

/// The decimal digit character for `d`, which is below ten.
pub open spec fn digit_char(d: int) -> char {
    if d == 0 {
        '0'
    } else if d == 1 {
        '1'
    } else if d == 2 {
        '2'
    } else if d == 3 {
        '3'
    } else if d == 4 {
        '4'
    } else if d == 5 {
        '5'
    } else if d == 6 {
        '6'
    } else if d == 7 {
        '7'
    } else if d == 8 {
        '8'
    } else {
        '9'
    }
}

/// The decimal digits of `n`, most significant first, without leading zeros.
pub open spec fn decimal_digits(n: nat) -> Seq<char>
    decreases n,
{
    if n < 10 {
        seq![digit_char(n as int)]
    } else {
        decimal_digits(n / 10).push(digit_char((n % 10) as int))
    }
}

/// The decimal notation of `n`, with a leading `-` where it is negative.
pub open spec fn decimal_text(n: int) -> Seq<char> {
    if n < 0 {
        seq!['-'] + decimal_digits((-n) as nat)
    } else {
        decimal_digits(n as nat)
    }
}

/// The value of the decimal digit character `c`.
pub open spec fn digit_value(c: char) -> int {
    if c == '0' {
        0
    } else if c == '1' {
        1
    } else if c == '2' {
        2
    } else if c == '3' {
        3
    } else if c == '4' {
        4
    } else if c == '5' {
        5
    } else if c == '6' {
        6
    } else if c == '7' {
        7
    } else if c == '8' {
        8
    } else if c == '9' {
        9
    } else {
        -1
    }
}

/// The number that the decimal digits `s` denote, most significant first.
pub open spec fn digits_value(s: Seq<char>) -> int
    decreases s.len(),
{
    if s.len() == 0 {
        0
    } else {
        digits_value(s.drop_last()) * 10 + digit_value(s.last())
    }
}

/// The decimal notation of `n` reads back as `n`: it is made of digit
/// characters only, the first of which is `0` only for zero itself.
pub proof fn law_decimal_digits_denote_the_number(n: nat)
    ensures
        digits_value(decimal_digits(n)) == n,
        decimal_digits(n).len() > 0,
        forall|i: int| 0 <= i < decimal_digits(n).len() ==> 0 <= #[trigger] digit_value(decimal_digits(n)[i]) <= 9,
        n > 0 ==> decimal_digits(n)[0] != '0',
    decreases n,
{
    if n >= 10 {
        law_decimal_digits_denote_the_number(n / 10);
        let s = decimal_digits(n);
        assert(s.drop_last() =~= decimal_digits(n / 10));
        assert(n == (n / 10) * 10 + n % 10);
        assert(s[0] == decimal_digits(n / 10)[0]);
        let d = (n % 10) as int;
        assert(0 <= d < 10);
        assert(digit_value(digit_char(d)) == d);
        assert(s.last() == digit_char(d));
        assert(digits_value(s) == digits_value(s.drop_last()) * 10 + digit_value(s.last()));
    } else {
        let s = decimal_digits(n);
        assert(s.drop_last() =~= Seq::<char>::empty());
        assert(digit_value(digit_char(n as int)) == n);
        assert(digits_value(s) == digits_value(s.drop_last()) * 10 + digit_value(s.last()));
    }
}

/// The decimal notation of a negative number is `-` followed by the digits of
/// its magnitude; that of any other number is its digits alone.
pub proof fn law_decimal_text_sign(n: int)
    ensures
        n < 0 ==> decimal_text(n)[0] == '-' && decimal_text(n).drop_first() == decimal_digits((-n) as nat),
        n >= 0 ==> decimal_text(n) == decimal_digits(n as nat),
{
    if n < 0 {
        assert(decimal_text(n).drop_first() =~= decimal_digits((-n) as nat));
    }
}

/// A text contains `rm` exactly where an `r` is directly followed by an `m`.
pub proof fn law_rm_found_anywhere(s: Seq<char>)
    ensures
        contains_text(s, "rm"@) <==> exists|i: int| 0 <= i && i + 1 < s.len() && #[trigger] s[i] == 'r' && s[i + 1] == 'm',
{
    reveal_strlit("rm");
    if contains_text(s, "rm"@) {
        let i = choose|i: int| 0 <= i && i + 2 <= s.len() && #[trigger] s.subrange(i, i + 2) == "rm"@;
        assert(s.subrange(i, i + 2)[0] == s[i]);
        assert(s.subrange(i, i + 2)[1] == s[i + 1]);
    }
    if exists|i: int| 0 <= i && i + 1 < s.len() && #[trigger] s[i] == 'r' && s[i + 1] == 'm' {
        let i = choose|i: int| 0 <= i && i + 1 < s.len() && #[trigger] s[i] == 'r' && s[i + 1] == 'm';
        assert(s.subrange(i, i + 2) =~= "rm"@);
    }
}

fn digit_text(d: u64) -> (text: &'static str)
    requires
        d < 10,
    ensures
        text@ == seq![digit_char(d as int)],
{
    if d == 0 {
        proof { reveal_strlit("0"); }
        "0"
    } else if d == 1 {
        proof { reveal_strlit("1"); }
        "1"
    } else if d == 2 {
        proof { reveal_strlit("2"); }
        "2"
    } else if d == 3 {
        proof { reveal_strlit("3"); }
        "3"
    } else if d == 4 {
        proof { reveal_strlit("4"); }
        "4"
    } else if d == 5 {
        proof { reveal_strlit("5"); }
        "5"
    } else if d == 6 {
        proof { reveal_strlit("6"); }
        "6"
    } else if d == 7 {
        proof { reveal_strlit("7"); }
        "7"
    } else if d == 8 {
        proof { reveal_strlit("8"); }
        "8"
    } else {
        proof { reveal_strlit("9"); }
        "9"
    }
}

/// The decimal digits of `n`.
pub fn natural_text(n: u64) -> (text: String)
    ensures
        text@ == decimal_digits(n as nat),
    decreases n,
{
    if n < 10 {
        String::from_str(digit_text(n))
    } else {
        let mut text = natural_text(n / 10);
        text.append(digit_text(n % 10));
        text
    }
}

/// The decimal notation of `n`, as `Display` writes an integer.
pub fn integer_text(n: i32) -> (text: String)
    ensures
        text@ == decimal_text(n as int),
{
    if n < 0 {
        let magnitude: i64 = -(n as i64);
        let mut text = String::from_str("-");
        proof { reveal_strlit("-"); }
        let digits = natural_text(magnitude as u64);
        text.append(digits.as_str());
        text
    } else {
        natural_text(n as u64)
    }
}

} // verus!

verus! {

/// Whether `s` holds the same characters as `literal`.
pub fn text_equals(s: &String, literal: &str) -> (same: bool)
    ensures
        same == (s@ == literal@),
{
    *s == String::from_str(literal)
}

/// `s` with `c` inserted before position `i`.
pub open spec fn insert_at(s: Seq<char>, i: int, c: char) -> Seq<char> {
    s.take(i) + seq![c] + s.skip(i)
}

/// `s` without the character just before position `i`.
pub open spec fn remove_before(s: Seq<char>, i: int) -> Seq<char> {
    s.take(i - 1) + s.skip(i)
}

/// The UTF-8 encoding of a concatenation is the concatenation of the
/// encodings.
pub proof fn lemma_encode_utf8_concat(a: Seq<char>, b: Seq<char>)
    ensures
        encode_utf8(a + b) == encode_utf8(a) + encode_utf8(b),
    decreases a.len(),
{
    if a.len() == 0 {
        assert(a + b =~= b);
        assert(encode_utf8(a) + encode_utf8(b) =~= encode_utf8(b));
    } else {
        lemma_encode_utf8_concat(a.drop_first(), b);
        assert((a + b).drop_first() =~= a.drop_first() + b);
        assert((a + b)[0] == a[0]);
        assert(encode_utf8(a + b) =~= encode_utf8(a) + encode_utf8(b));
    }
}

/// The encoding of a prefix ends on a character boundary of the encoding of
/// the whole text.
pub proof fn lemma_prefix_ends_on_boundary(a: Seq<char>, b: Seq<char>)
    ensures
        is_char_boundary(encode_utf8(a + b), encode_utf8(a).len() as int),
    decreases a.len(),
{
    broadcast use encode_utf8_valid_utf8;

    if a.len() == 0 {
    } else {
        let c = a + b;
        let bytes = encode_utf8(c);
        encode_utf8_first_scalar(c);
        assert(c.drop_first() =~= a.drop_first() + b);
        assert(pop_first_scalar(bytes) =~= encode_utf8(c.drop_first()));
        assert(c[0] == a[0]);
        lemma_encode_utf8_concat(a, b);
        lemma_prefix_ends_on_boundary(a.drop_first(), b);
        assert(encode_utf8(a).len() == encode_utf8(seq![a[0]]).len() + encode_utf8(a.drop_first()).len()) by {
            reveal_with_fuel(encode_utf8, 2);
        }
    }
}

/// Inserting the encoding of `c` into the encoding of `s` at the byte offset
/// of position `i` encodes `s` with `c` inserted at position `i`.
pub proof fn lemma_insert_encoded(s: Seq<char>, i: int, c: char)
    requires
        0 <= i <= s.len(),
    ensures
        is_char_boundary(encode_utf8(s), encode_utf8(s.take(i)).len() as int),
        encode_utf8(s).take(encode_utf8(s.take(i)).len() as int) + encode_utf8(seq![c])
            + encode_utf8(s).skip(encode_utf8(s.take(i)).len() as int)
            == encode_utf8(insert_at(s, i, c)),
{
    let a = s.take(i);
    let b = s.skip(i);
    assert(a + b =~= s);
    lemma_prefix_ends_on_boundary(a, b);
    lemma_encode_utf8_concat(a, b);
    lemma_encode_utf8_concat(a, seq![c]);
    lemma_encode_utf8_concat(a + seq![c], b);
    let n = encode_utf8(a).len() as int;
    assert(encode_utf8(s).take(n) =~= encode_utf8(a));
    assert(encode_utf8(s).skip(n) =~= encode_utf8(b));
}

/// Removing the character just before position `i + 1` of `s` with `c`
/// inserted at `i` gives back `s`.
pub proof fn lemma_remove_undoes_insert(s: Seq<char>, i: int, c: char)
    requires
        0 <= i <= s.len(),
    ensures
        remove_before(insert_at(s, i, c), i + 1) == s,
{
    let t = insert_at(s, i, c);
    assert(t.take(i) =~= s.take(i));
    assert(t.skip(i + 1) =~= s.skip(i));
    assert(s.take(i) + s.skip(i) =~= s);
}

} // verus!
