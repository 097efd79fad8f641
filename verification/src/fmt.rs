//! Decimal, grouped-decimal, hexadecimal and ether-denominated text
//! formatting used by the dashboard renderer.

use vstd::prelude::*;
use num_format::{Locale, ToFormattedString};

verus! {

use vstd::string::StringExecFns;
use vstd::string::StrSliceExecFns;

/// The character for a single decimal digit value.
pub open spec fn dec_digit(d: nat) -> char {
    if d == 0 {
        '0'
    } else if d == 1 {
        '1'
    } else if d == 2 {
        '2'
    } else if d == 3 {
        '3'
    } else if d == 4 {
        '4'
    } else if d == 5 {
        '5'
    } else if d == 6 {
        '6'
    } else if d == 7 {
        '7'
    } else if d == 8 {
        '8'
    } else {
        '9'
    }
}

/// The decimal digit string of a natural number, without sign or padding.
pub open spec fn dec_of(n: nat) -> Seq<char>
    decreases n,
{
    if n < 10 {
        seq![dec_digit(n)]
    } else {
        dec_of(n / 10).push(dec_digit(n % 10))
    }
}

/// The decimal string of an integer, with a leading minus sign when negative.
pub open spec fn int_dec_of(n: int) -> Seq<char> {
    if n < 0 {
        seq!['-'] + dec_of((-n) as nat)
    } else {
        dec_of(n as nat)
    }
}

/// `s` left-padded with `'0'` characters up to width `w`.
pub open spec fn pad_left_zeros(s: Seq<char>, w: nat) -> Seq<char> {
    if s.len() >= w {
        s
    } else {
        Seq::new((w - s.len()) as nat, |i: int| '0') + s
    }
}

/// The decimal digit string of a natural number with a `','` between each
/// group of three digits, counted from the right.
pub open spec fn grouped_nat(n: nat) -> Seq<char>
    decreases n,
{
    if n < 1000 {
        dec_of(n)
    } else {
        grouped_nat(n / 1000) + seq![','] + pad_left_zeros(dec_of(n % 1000), 3)
    }
}

/// The grouped decimal string of an integer, with a leading minus sign when
/// negative.
pub open spec fn grouped_of(n: int) -> Seq<char> {
    if n < 0 {
        seq!['-'] + grouped_nat((-n) as nat)
    } else {
        grouped_nat(n as nat)
    }
}

/// The lower-case character for a single hexadecimal digit value.
pub open spec fn hex_digit(d: nat) -> char {
    if d == 10 {
        'a'
    } else if d == 11 {
        'b'
    } else if d == 12 {
        'c'
    } else if d == 13 {
        'd'
    } else if d == 14 {
        'e'
    } else if d == 15 {
        'f'
    } else {
        dec_digit(d)
    }
}

/// The lower-case hexadecimal encoding of a byte string: two digits per
/// byte, high nibble first.
pub open spec fn hex_of(bytes: Seq<u8>) -> Seq<char>
    decreases bytes.len(),
{
    if bytes.len() == 0 {
        Seq::empty()
    } else {
        hex_of(bytes.drop_last()) + seq![
            hex_digit((bytes.last() / 16) as nat),
            hex_digit((bytes.last() % 16) as nat),
        ]
    }
}

/// Powers of ten.
pub open spec fn pow10(k: nat) -> nat
    decreases k,
{
    if k == 0 {
        1
    } else {
        10 * pow10((k - 1) as nat)
    }
}

/// A decimal digit string is never empty.
pub proof fn lemma_dec_of_len_pos(n: nat)
    ensures
        dec_of(n).len() >= 1,
    decreases n,
{
    if n >= 10 {
        lemma_dec_of_len_pos(n / 10);
    }
}

/// A number below `pow10(k)` has at most `k` decimal digits.
pub proof fn lemma_dec_of_len_le(n: nat, k: nat)
    requires
        k >= 1,
        n < pow10(k),
    ensures
        dec_of(n).len() <= k,
    decreases k,
{
    if n < 10 {
    } else {
        assert(pow10(k) == 10 * pow10((k - 1) as nat));
        assert(pow10((k - 1) as nat) >= 1) by {
            lemma_pow10_pos((k - 1) as nat);
        }
        assert(k >= 2) by {
            if k == 1 {
                assert(pow10(1nat) == 10);
            }
        }
        assert(n / 10 < pow10((k - 1) as nat)) by (nonlinear_arith)
            requires
                n < 10 * pow10((k - 1) as nat),
        ;
        lemma_dec_of_len_le(n / 10, (k - 1) as nat);
    }
}

/// Powers of ten are positive.
pub proof fn lemma_pow10_pos(k: nat)
    ensures
        pow10(k) >= 1,
    decreases k,
{
    if k > 0 {
        lemma_pow10_pos((k - 1) as nat);
    }
}

/// A one-character string for a single decimal digit value.
fn digit_str(d: u8) -> (r: &'static str)
    requires
        d < 10,
    ensures
        r@ == seq![dec_digit(d as nat)],
{
    proof {
        reveal_strlit("0");
        reveal_strlit("1");
        reveal_strlit("2");
        reveal_strlit("3");
        reveal_strlit("4");
        reveal_strlit("5");
        reveal_strlit("6");
        reveal_strlit("7");
        reveal_strlit("8");
        reveal_strlit("9");
    }
    let r = match d {
        0 => "0",
        1 => "1",
        2 => "2",
        3 => "3",
        4 => "4",
        5 => "5",
        6 => "6",
        7 => "7",
        8 => "8",
        _ => "9",
    };
    proof {
        assert(r@ =~= seq![dec_digit(d as nat)]);
    }
    r
}

/// Formats a natural number in decimal.
pub fn u128_to_decimal(n: u128) -> (s: String)
    ensures
        s@ == dec_of(n as nat),
    decreases n,
{
    if n < 10 {
        String::from_str(digit_str(n as u8))
    } else {
        let mut s = u128_to_decimal(n / 10);
        s.append(digit_str((n % 10) as u8));
        s
    }
}

/// Formats a signed integer in decimal, with a minus sign when negative.
pub fn i64_to_decimal(n: i64) -> (s: String)
    ensures
        s@ == int_dec_of(n as int),
{
    if n < 0 {
        let magnitude: u128 = (-(n as i128)) as u128;
        let mut s = String::from_str("-");
        let digits = u128_to_decimal(magnitude);
        s.append(digits.as_str());
        proof {
            reveal_strlit("-");
            assert(s@ =~= int_dec_of(n as int));
        }
        s
    } else {
        u128_to_decimal(n as u128)
    }
}

/// Relies on `num_format`: `to_formatted_string` with `Locale::en` writes the
/// decimal digits with a `','` between three-digit groups from the right and
/// a leading `'-'` for negative numbers.
#[verifier::external_body]
pub fn pretty_int(i: &i64) -> (r: String)
    ensures
        r@ == grouped_of(*i as int),
{
    i.to_formatted_string(&Locale::en)
}

/// Relies on `hex::encode`: two lower-case hexadecimal digits per input
/// byte, high nibble first.
#[verifier::external_body]
pub(crate) fn hex_str(bytes: &[u8]) -> (r: String)
    ensures
        r@ == hex_of(bytes@),
{
    hex::encode(bytes)
}

/// One quintillion: the number of wei in one ether.
pub const WEI_PER_ETH: u128 = 1000000000000000000;

/// The full decimal ether representation of a wei amount: the whole-ether
/// part, a dot, and exactly eighteen fractional digits.
pub open spec fn eth_full_of(wei: nat) -> Seq<char> {
    dec_of(wei / (WEI_PER_ETH as nat)) + seq!['.'] + pad_left_zeros(
        dec_of(wei % (WEI_PER_ETH as nat)),
        18,
    )
}

/// A wei amount rendered in ether, truncated to six characters.
pub open spec fn eth_of(wei: nat) -> Seq<char> {
    eth_full_of(wei).take(6)
}

/// Counts the decimal digits of a natural number.
fn decimal_len(n: u128) -> (c: usize)
    ensures
        c == dec_of(n as nat).len(),
{
    let mut m = n;
    let mut c: usize = 1;
    while m >= 10
        invariant
            c >= 1,
            dec_of(n as nat).len() == dec_of(m as nat).len() + c - 1,
        decreases m,
    {
        proof {
            assert(pow10(39) > u128::MAX) by {
                reveal_with_fuel(pow10, 40);
            }
            lemma_dec_of_len_le(n as nat, 39);
            lemma_dec_of_len_pos((m / 10) as nat);
        }
        m = m / 10;
        c = c + 1;
    }
    c
}

/// Formats a wei amount as ether: the whole-ether part, a dot, and the
/// fractional digits, the whole truncated to six characters.
pub fn wei_to_eth(wei: &u128) -> (s: String)
    ensures
        s@ == eth_of(*wei as nat),
{
    let whole = *wei / WEI_PER_ETH;
    let frac = *wei % WEI_PER_ETH;
    let mut s = u128_to_decimal(whole);
    s.append(".");
    let frac_digits = u128_to_decimal(frac);
    let frac_len = decimal_len(frac);
    proof {
        assert(pow10(18) == WEI_PER_ETH) by {
            reveal_with_fuel(pow10, 19);
        }
        lemma_dec_of_len_le(frac as nat, 18);
        lemma_dec_of_len_pos(frac as nat);
        lemma_dec_of_len_pos(whole as nat);
    }
    let ghost base: Seq<char> = s@;
    let mut i = frac_len;
    while i < 18
        invariant
            frac_len <= i <= 18,
            s@ == base + Seq::new((i - frac_len) as nat, |j: int| '0'),
        decreases 18 - i,
    {
        s.append("0");
        i = i + 1;
        proof {
            reveal_strlit("0");
            assert(s@ =~= base + Seq::new((i - frac_len) as nat, |j: int| '0'));
        }
    }
    s.append(frac_digits.as_str());
    proof {
        reveal_strlit(".");
        assert(s@ =~= eth_full_of(*wei as nat));
        assert(s@.len() >= 20);
    }
    let truncated = s.as_str().substring_char(0, 6);
    let r = String::from_str(truncated);
    proof {
        assert(r@ =~= eth_of(*wei as nat));
    }
    r
}

} // verus!
