//! 128-bit identifiers and their canonical text form.
use vstd::prelude::*;

use vstd::arithmetic::power::pow;

use crate::text::digit_char;

verus! {

/// A 128-bit universally unique identifier, as its big-endian integer value.
#[derive(Clone, Copy, Debug, PartialEq, Eq, Structural)]
pub struct Uuid(pub u128);

/// Lower-case hexadecimal digit for `d` (0..=15).
pub open spec fn hex_char(d: int) -> char {
    if d < 10 {
        digit_char(d)
    } else {
        (d - 10 + 97) as char
    }
}

/// The `n` least significant hexadecimal digits of `v`, most significant first.
pub open spec fn hex_digits(v: nat, n: nat) -> Seq<char>
    decreases n,
{
    if n == 0 {
        Seq::empty()
    } else {
        hex_digits(v / 16, (n - 1) as nat).push(hex_char((v % 16) as int))
    }
}

/// The hyphenated lower-case form of a UUID: 32 hexadecimal digits grouped
/// 8-4-4-4-12.
pub open spec fn uuid_text(v: u128) -> Seq<char> {
    let h = hex_digits(v as nat, 32);
    h.subrange(0, 8) + seq!['-'] + h.subrange(8, 12) + seq!['-'] + h.subrange(12, 16) + seq!['-']
        + h.subrange(16, 20) + seq!['-'] + h.subrange(20, 32)
}

/// Whether `c` is a lower-case hexadecimal digit.
pub open spec fn is_lower_hex(c: char) -> bool {
    ('0' <= c && c <= '9') || ('a' <= c && c <= 'f')
}

proof fn lemma_hex_digits(v: nat, n: nat)
    ensures
        hex_digits(v, n).len() == n,
        forall|i: int| 0 <= i < n ==> is_lower_hex(#[trigger] hex_digits(v, n)[i]),
    decreases n,
{
    if n > 0 {
        lemma_hex_digits(v / 16, (n - 1) as nat);
        let d = (v % 16) as int;
        assert(is_lower_hex(hex_char(d)));
        let h = hex_digits(v, n);
        assert forall|i: int| 0 <= i < n implies is_lower_hex(#[trigger] h[i]) by {
            if i < n - 1 {
                assert(h[i] == hex_digits(v / 16, (n - 1) as nat)[i]);
            }
        }
    }
}

/// The text form of every UUID is 36 characters: lower-case hexadecimal
/// digits with hyphens at positions 8, 13, 18 and 23.
pub proof fn law_uuid_text_shape(v: u128)
    ensures
        uuid_text(v).len() == 36,
        forall|i: int|
            0 <= i < 36 ==> if i == 8 || i == 13 || i == 18 || i == 23 {
                #[trigger] uuid_text(v)[i] == '-'
            } else {
                is_lower_hex(uuid_text(v)[i])
            },
{
    let h = hex_digits(v as nat, 32);
    lemma_hex_digits(v as nat, 32);
    let t = uuid_text(v);
    assert forall|i: int| 0 <= i < 36 implies if i == 8 || i == 13 || i == 18 || i == 23 {
        #[trigger] t[i] == '-'
    } else {
        is_lower_hex(t[i])
    } by {
        if i < 8 {
            assert(t[i] == h[i]);
        } else if 8 < i < 13 {
            assert(t[i] == h[i - 1]);
        } else if 13 < i < 18 {
            assert(t[i] == h[i - 2]);
        } else if 18 < i < 23 {
            assert(t[i] == h[i - 3]);
        } else if 23 < i {
            assert(t[i] == h[i - 4]);
        }
    }
}

/// Value of a lower-case hexadecimal digit.
pub open spec fn hex_digit_value(c: char) -> int {
    if c <= '9' {
        (c as int) - 48
    } else {
        (c as int) - 87
    }
}

/// The number that the hexadecimal digits `s` stand for, most significant
/// first.
pub open spec fn hex_value(s: Seq<char>) -> nat
    decreases s.len(),
{
    if s.len() == 0 {
        0
    } else {
        hex_value(s.drop_last()) * 16 + hex_digit_value(s.last()) as nat
    }
}

/// The 32 hexadecimal digits of a hyphenated UUID text, hyphens left out.
pub open spec fn uuid_text_digits(t: Seq<char>) -> Seq<char> {
    t.subrange(0, 8) + t.subrange(9, 13) + t.subrange(14, 18) + t.subrange(19, 23) + t.subrange(
        24,
        36,
    )
}

proof fn lemma_hex_digits_value(v: nat, n: nat)
    ensures
        hex_value(hex_digits(v, n)) == v % pow(16, n) as nat,
        pow(16, n) > 0,
    decreases n,
{
    reveal(pow);
    if n == 0 {
        assert(hex_digits(v, n) =~= Seq::<char>::empty());
    } else {
        lemma_hex_digits_value(v / 16, (n - 1) as nat);
        let h = hex_digits(v, n);
        let d = (v % 16) as int;
        assert(h.drop_last() =~= hex_digits(v / 16, (n - 1) as nat));
        assert(h.last() == hex_char(d));
        assert(hex_digit_value(hex_char(d)) == d);
        let q = pow(16, (n - 1) as nat);
        assert(pow(16, n) == 16 * q);
        vstd::arithmetic::div_mod::lemma_breakdown(v as int, 16, q);
    }
}

/// Reading the digits of a UUID's text form as a hexadecimal number, hyphens
/// left out, gives the UUID back: the text names the identifier exactly.
pub proof fn law_uuid_text_value(v: u128)
    ensures
        hex_value(uuid_text_digits(uuid_text(v))) == v,
{
    let h = hex_digits(v as nat, 32);
    lemma_hex_digits(v as nat, 32);
    lemma_hex_digits_value(v as nat, 32);
    assert(pow(16, 32) == 0x1_0000_0000_0000_0000_0000_0000_0000_0000int) by {
        reveal_with_fuel(pow, 33);
    }
    vstd::arithmetic::div_mod::lemma_small_mod(v as nat, pow(16, 32) as nat);
    assert(uuid_text_digits(uuid_text(v)) =~= h);
}

/// Text form of a UUID.
///
/// Trusted: formats `uuid::Uuid::from_u128(v)` with its `Display` impl, which
/// writes the 16 big-endian bytes as 32 lower-case hexadecimal digits grouped
/// 8-4-4-4-12 with hyphens (uuid's `format_hyphenated`).
#[verifier::external_body]
fn uuid_to_string(v: u128) -> (s: String)
    ensures
        s@ == uuid_text(v),
{
    format!("{}", ::uuid::Uuid::from_u128(v))
}

impl Uuid {
    /// The hyphenated lower-case text form of this identifier.
    pub fn to_text(&self) -> (s: String)
        ensures
            s@ == uuid_text(self.0),
    {
        uuid_to_string(self.0)
    }
}

} // verus!
