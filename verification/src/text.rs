//! Character buffers and the decimal rendering of integers.
use vstd::prelude::*;
use vstd::utf8::{encode_scalar, encode_utf8};

verus! {

/// The decimal digit character for `d` (0..=9).
pub open spec fn digit_char(d: int) -> char {
    (d + 48) as char
}

/// The decimal digits of `n`, most significant first, without leading zeros
/// (`0` is the single digit `0`).
pub open spec fn decimal(n: nat) -> Seq<char>
    decreases n,
{
    if n < 10 {
        seq![digit_char(n as int)]
    } else {
        decimal(n / 10).push(digit_char((n % 10) as int))
    }
}

/// `s` preceded by as many `0` as it takes to reach `width` characters.
pub open spec fn zero_pad(s: Seq<char>, width: nat) -> Seq<char> {
    if s.len() >= width {
        s
    } else {
        Seq::new((width - s.len()) as nat, |_i: int| '0') + s
    }
}

/// Decimal digits of `n`, zero-padded to at least `width` characters.
pub open spec fn padded(n: nat, width: nat) -> Seq<char> {
    zero_pad(decimal(n), width)
}

/// Number of bytes of the UTF-8 encoding of `c`.
pub open spec fn utf8_width(c: char) -> nat {
    if (c as u32) < 0x80 {
        1
    } else if (c as u32) < 0x800 {
        2
    } else if (c as u32) < 0x10000 {
        3
    } else {
        4
    }
}

/// Number of bytes of the UTF-8 encoding of `s`.
pub open spec fn utf8_len(s: Seq<char>) -> nat
    decreases s.len(),
{
    if s.len() == 0 {
        0
    } else {
        utf8_width(s[0]) + utf8_len(s.drop_first())
    }
}

/// The width of a character is the number of bytes of its UTF-8 encoding.
pub proof fn law_utf8_width_is_encoding_length(c: char)
    ensures
        utf8_width(c) == encode_scalar(c as u32).len(),
{
    vstd::utf8::char_is_scalar(c);
}

/// The byte length of a text is the length of its UTF-8 encoding.
pub proof fn law_utf8_len_is_encoding_length(s: Seq<char>)
    ensures
        utf8_len(s) == encode_utf8(s).len(),
    decreases s.len(),
{
    if s.len() > 0 {
        law_utf8_width_is_encoding_length(s[0]);
        law_utf8_len_is_encoding_length(s.drop_first());
    }
}

/// Whether every character of `s` is a decimal digit.
pub open spec fn all_digits(s: Seq<char>) -> bool {
    forall|i: int| 0 <= i < s.len() ==> '0' <= #[trigger] s[i] && s[i] <= '9'
}

/// The number that the decimal digits `s` stand for, most significant first.
pub open spec fn digits_value(s: Seq<char>) -> nat
    decreases s.len(),
{
    if s.len() == 0 {
        0
    } else {
        digits_value(s.drop_last()) * 10 + ((s.last() as int) - 48) as nat
    }
}

/// The decimal text of `n` is made of digits, has no leading zero unless it
/// is the single digit `0`, and reads back as `n`.
pub proof fn law_decimal_digits(n: nat)
    ensures
        decimal(n).len() >= 1,
        all_digits(decimal(n)),
        digits_value(decimal(n)) == n,
        decimal(n).len() > 1 ==> decimal(n)[0] != '0',
    decreases n,
{
    if n < 10 {
        assert(digit_char(n as int) as int == n + 48);
        assert(decimal(n).drop_last() =~= Seq::<char>::empty());
        assert(decimal(n).last() == digit_char(n as int));
        assert(digits_value(decimal(n)) == digits_value(Seq::<char>::empty()) * 10 + ((digit_char(
            n as int,
        ) as int) - 48) as nat);
    } else {
        law_decimal_digits(n / 10);
        let d = decimal(n);
        let p = decimal(n / 10);
        assert(digit_char((n % 10) as int) as int == n % 10 + 48);
        assert(d.drop_last() =~= p);
        assert(d.last() == digit_char((n % 10) as int));
        assert(digits_value(d) == digits_value(p) * 10 + ((d.last() as int) - 48) as nat);
        assert((n / 10) * 10 + n % 10 == n);
        assert forall|i: int| 0 <= i < d.len() implies '0' <= #[trigger] d[i] && d[i] <= '9' by {
            if i < p.len() {
                assert(d[i] == p[i]);
            }
        }
        if n / 10 < 10 {
            assert(p[0] == digit_char((n / 10) as int));
            assert(digit_char((n / 10) as int) as int == n / 10 + 48);
        } else {
            lemma_decimal_len(n / 100);
            assert(p.len() == decimal(n / 10 / 10).len() + 1);
        }
        assert(d[0] == p[0]);
    }
}

proof fn lemma_zeros_value(k: nat, s: Seq<char>)
    ensures
        digits_value(Seq::new(k, |_i: int| '0') + s) == digits_value(s),
    decreases s.len(), k,
{
    let z = Seq::new(k, |_i: int| '0');
    if s.len() == 0 {
        assert(z + s =~= z);
        if k > 0 {
            assert(z.drop_last() =~= Seq::new((k - 1) as nat, |_i: int| '0'));
            lemma_zeros_value((k - 1) as nat, s);
            assert(Seq::new((k - 1) as nat, |_i: int| '0') + s =~= Seq::new((k - 1) as nat, |_i: int| '0'));
        }
    } else {
        assert((z + s).drop_last() =~= z + s.drop_last());
        lemma_zeros_value(k, s.drop_last());
    }
}

/// The zero-padded decimal text of `n` is made of digits, is `width`
/// characters long unless `n` needs more, and reads back as `n`.
pub proof fn law_padded_digits(n: nat, width: nat)
    ensures
        padded(n, width).len() == if decimal(n).len() >= width {
            decimal(n).len()
        } else {
            width
        },
        all_digits(padded(n, width)),
        digits_value(padded(n, width)) == n,
{
    law_decimal_digits(n);
    let d = decimal(n);
    if d.len() < width {
        let k = (width - d.len()) as nat;
        let z = Seq::new(k, |_i: int| '0');
        lemma_zeros_value(k, d);
        let p = z + d;
        assert forall|i: int| 0 <= i < p.len() implies '0' <= #[trigger] p[i] && p[i] <= '9' by {
            if i >= k {
                assert(p[i] == d[i - k]);
            }
        }
    }
}

/// Whether `c` occurs in `s`.
pub open spec fn has_char(s: Seq<char>, c: char) -> bool {
    exists|i: int| 0 <= i < s.len() && s[i] == c
}

/// Appends the characters of `s` to `buf`.
pub fn push_str(buf: &mut Vec<char>, s: &str)
    ensures
        final(buf)@ == old(buf)@ + s@,
{
    let ghost start = buf@;
    for c in it: s.chars()
        invariant
            buf@ == start + it.seq().take(it.index() as int),
            it.seq() == s@,
    {
        buf.push(c);
    }
}

/// Appends the characters of `s` to `buf`.
pub fn push_chars(buf: &mut Vec<char>, s: &Vec<char>)
    ensures
        final(buf)@ == old(buf)@ + s@,
{
    let ghost start = buf@;
    let mut i: usize = 0;
    while i < s.len()
        invariant
            i <= s.len(),
            buf@ == start + s@.take(i as int),
        decreases s.len() - i,
    {
        buf.push(s[i]);
        i = i + 1;
        assert(s@.take(i as int) =~= s@.take(i - 1).push(s@[i - 1]));
    }
    assert(s@.take(s.len() as int) =~= s@);
}

/// The decimal digit character for `d`.
pub fn digit(d: u64) -> (c: char)
    requires
        d < 10,
    ensures
        c == digit_char(d as int),
{
    ((d as u8) + 48) as char
}

/// Appends the decimal digits of `n` to `buf`.
pub fn push_decimal(buf: &mut Vec<char>, n: u64)
    ensures
        final(buf)@ == old(buf)@ + decimal(n as nat),
    decreases n,
{
    if n < 10 {
        buf.push(digit(n));
        assert(decimal(n as nat) =~= seq![digit_char(n as int)]);
    } else {
        push_decimal(buf, n / 10);
        buf.push(digit(n % 10));
    }
}

/// Appends the decimal digits of `n`, zero-padded to at least `width`
/// characters, to `buf`.
pub fn push_padded(buf: &mut Vec<char>, n: u64, width: usize)
    ensures
        final(buf)@ == old(buf)@ + padded(n as nat, width as nat),
{
    let mut digits: Vec<char> = Vec::new();
    push_decimal(&mut digits, n);
    let ghost start = buf@;
    let mut k: usize = digits.len();
    while k < width
        invariant
            digits.len() <= k <= width || (k == digits.len() && k >= width),
            digits@ == decimal(n as nat),
            buf@ == start + Seq::new((k - digits.len()) as nat, |_i: int| '0'),
        decreases width - k,
    {
        buf.push('0');
        k = k + 1;
        assert(Seq::new((k - digits.len()) as nat, |_i: int| '0') =~= Seq::new(
            (k - 1 - digits.len()) as nat,
            |_i: int| '0',
        ).push('0'));
    }
    push_chars(buf, &digits);
    assert(buf@ =~= start + padded(n as nat, width as nat));
}

/// Appends the decimal rendering of a signed integer (a leading `-` for
/// negative values) to `buf`.
pub fn push_signed_decimal(buf: &mut Vec<char>, n: i64)
    ensures
        final(buf)@ == old(buf)@ + signed_decimal(n as int),
{
    if n < 0 {
        buf.push('-');
        let m: u64 = if n == i64::MIN {
            9223372036854775808u64
        } else {
            (-n) as u64
        };
        push_decimal(buf, m);
    } else {
        push_decimal(buf, n as u64);
    }
}

/// Decimal rendering of an integer, with a leading `-` when negative.
pub open spec fn signed_decimal(n: int) -> Seq<char> {
    if n < 0 {
        seq!['-'] + decimal((-n) as nat)
    } else {
        decimal(n as nat)
    }
}

/// Number of bytes of the UTF-8 encoding of `c`.
pub fn char_utf8_width(c: char) -> (w: usize)
    ensures
        w == utf8_width(c),
{
    let v = c as u32;
    if v < 0x80 {
        1
    } else if v < 0x800 {
        2
    } else if v < 0x10000 {
        3
    } else {
        4
    }
}

/// A `String` holding the characters of `v`.
///
/// Trusted: collects the characters with `String::from_iter`, which std
/// documents as concatenating them in order.
#[verifier::external_body]
pub(crate) fn chars_to_string(v: &Vec<char>) -> (s: String)
    ensures
        s@ == v@,
{
    String::from_iter(v.iter())
}

/// Appends `c` to `s`.
///
/// Trusted: calls `String::push`, which std documents as appending the
/// character to the end of the string.
#[verifier::external_body]
pub(crate) fn string_push(s: &mut String, c: char)
    ensures
        final(s)@ == old(s)@.push(c),
{
    s.push(c)
}

/// Empties `s`.
///
/// Trusted: calls `String::clear`, which std documents as removing all the
/// contents.
#[verifier::external_body]
pub(crate) fn string_clear(s: &mut String)
    ensures
        final(s)@ == Seq::<char>::empty(),
{
    s.clear()
}


/// The character sequences held by a list of strings.
pub open spec fn texts(v: Seq<String>) -> Seq<Seq<char>> {
    v.map_values(|s: String| s@)
}

/// Appends copies of the strings of `src` to `dst`.
pub fn extend_strings(dst: &mut Vec<String>, src: &[String])
    ensures
        texts(final(dst)@) == texts(old(dst)@) + texts(src@),
{
    let ghost start = dst@;
    let mut i: usize = 0;
    while i < src.len()
        invariant
            i <= src@.len(),
            texts(dst@) =~~= texts(start) + texts(src@.take(i as int)),
        decreases src.len() - i,
    {
        let ghost before = dst@;
        dst.push(src[i].clone());
        i = i + 1;
        proof {
            assert(texts(dst@) =~~= texts(before).push(src@[i - 1]@));
            assert(src@.take(i as int) =~= src@.take(i - 1).push(src@[i - 1]));
            assert(texts(src@.take(i as int)) =~~= texts(src@.take(i - 1)).push(src@[i - 1]@));
        }
    }
    proof {
        assert(src@.take(src@.len() as int) =~= src@);
        assert(texts(dst@) =~~= texts(start) + texts(src@));
    }
}

/// `s` preceded by as many spaces as it takes to reach `width` characters.
pub open spec fn space_pad(s: Seq<char>, width: nat) -> Seq<char> {
    if s.len() >= width {
        s
    } else {
        Seq::new((width - s.len()) as nat, |_i: int| ' ') + s
    }
}

/// Appends the decimal digits of `n`, right-aligned with spaces to at least
/// `width` characters, to `buf`.
pub fn push_right_aligned(buf: &mut Vec<char>, n: u64, width: usize)
    ensures
        final(buf)@ == old(buf)@ + space_pad(decimal(n as nat), width as nat),
{
    let mut digits: Vec<char> = Vec::new();
    push_decimal(&mut digits, n);
    let ghost start = buf@;
    let mut k: usize = digits.len();
    while k < width
        invariant
            digits.len() <= k <= width || (k == digits.len() && k >= width),
            digits@ == decimal(n as nat),
            buf@ == start + Seq::new((k - digits.len()) as nat, |_i: int| ' '),
        decreases width - k,
    {
        buf.push(' ');
        k = k + 1;
        assert(Seq::new((k - digits.len()) as nat, |_i: int| ' ') =~= Seq::new(
            (k - 1 - digits.len()) as nat,
            |_i: int| ' ',
        ).push(' '));
    }
    push_chars(buf, &digits);
    assert(buf@ =~= start + space_pad(decimal(n as nat), width as nat));
}


/// `decimal(n)` has at most four digits when `n` is below 10000, and at
/// least one digit always.
pub proof fn lemma_decimal_len(n: nat)
    ensures
        decimal(n).len() >= 1,
        n < 10 ==> decimal(n).len() == 1,
        n < 100 ==> decimal(n).len() <= 2,
        n < 1000 ==> decimal(n).len() <= 3,
        n < 10000 ==> decimal(n).len() <= 4,
    decreases n,
{
    if n >= 10 {
        lemma_decimal_len(n / 10);
    }
}

/// Zero padding to `width` gives exactly `width` characters when the digits
/// fit.
pub proof fn lemma_padded_len(n: nat, width: nat)
    requires
        decimal(n).len() <= width,
    ensures
        padded(n, width).len() == width,
{
}

} // verus!
