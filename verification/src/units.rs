//! Amounts of the native token in decimal notation: a text such as `0.000001`
//! in whole tokens, against the integer number of base units (wei), of which
//! one token holds `10^18`.

use vstd::prelude::*;
use crate::decimal::{
    decimal_text, decimal_value, digit_value, is_decimal_text, lemma_decimal_text_denotes,
    lemma_decimal_value_concat, pow10,
};
use crate::uint256::{max_uint256, Uint256};

verus! {

/// The number of decimal places of the native token.
pub const ETHER_DECIMALS: usize = 18;

/// The number of base units in one token, `10^18`.
pub const WEI_PER_ETHER: u64 = 1_000_000_000_000_000_000;

/// The position of the first `.` in the text, or its length where it has none.
pub open spec fn first_dot(s: Seq<char>) -> int
    decreases s.len(),
{
    if s.len() == 0 || s[0] == '.' {
        0
    } else {
        1 + first_dot(s.skip(1))
    }
}

/// What stands before the first `.`.
pub open spec fn whole_part(s: Seq<char>) -> Seq<char> {
    s.take(first_dot(s))
}

/// What stands after the first `.`; empty where the text has none.
pub open spec fn fraction_part(s: Seq<char>) -> Seq<char> {
    if first_dot(s) < s.len() {
        s.skip(first_dot(s) + 1)
    } else {
        Seq::empty()
    }
}

/// The decimal places that a base unit can hold: the first 18 of the fraction.
pub open spec fn kept_fraction(s: Seq<char>) -> Seq<char> {
    if fraction_part(s).len() > 18 {
        fraction_part(s).take(18)
    } else {
        fraction_part(s)
    }
}

/// Whether the text is an amount that base units hold without loss: decimal
/// digits with at most one `.`, at least one digit, and nothing but zeros
/// after the 18th decimal place.
pub open spec fn is_amount_text(s: Seq<char>) -> bool {
    &&& is_decimal_text(whole_part(s))
    &&& is_decimal_text(fraction_part(s))
    &&& whole_part(s).len() + fraction_part(s).len() > 0
    &&& forall|i: int|
        18 <= i < fraction_part(s).len() ==> (#[trigger] fraction_part(s)[i]) == '0'
}

/// The number of base units that an amount text denotes.
pub open spec fn amount_wei(s: Seq<char>) -> nat {
    decimal_value(whole_part(s)) * pow10(18) + decimal_value(kept_fraction(s)) * pow10(
        (18 - kept_fraction(s).len()) as nat,
    )
}

/// A text of `k` zeros.
pub open spec fn zeros(k: nat) -> Seq<char> {
    Seq::new(k, |i: int| '0')
}

/// The notation of a number of base units in whole tokens: the whole part, a
/// `.`, and exactly 18 decimal places.
pub open spec fn ether_text(n: nat) -> Seq<char> {
    let d = decimal_text(n);
    if d.len() <= 18 {
        seq!['0', '.'] + zeros((18 - d.len()) as nat) + d
    } else {
        d.take(d.len() - 18) + seq!['.'] + d.skip(d.len() - 18)
    }
}

/// The first `.` stands at `p` where no `.` stands before `p` and either the
/// text ends at `p` or a `.` stands there.
pub proof fn lemma_first_dot_at(s: Seq<char>, p: int)
    requires
        0 <= p <= s.len(),
        forall|i: int| 0 <= i < p ==> s[i] != '.',
        p < s.len() ==> s[p] == '.',
    ensures
        first_dot(s) == p,
    decreases p,
{
    if p > 0 {
        let rest = s.skip(1);
        assert(s[0] != '.');
        assert forall|i: int| 0 <= i < p - 1 implies rest[i] != '.' by {
            assert(rest[i] == s[i + 1]);
        }
        lemma_first_dot_at(rest, p - 1);
    }
}

/// One token holds `10^18` base units: ten to the number of its decimal
/// places.
pub proof fn lemma_pow10_18()
    ensures
        pow10(ETHER_DECIMALS as nat) == WEI_PER_ETHER,
        pow10(18) == 1_000_000_000_000_000_000,
{
    reveal_with_fuel(pow10, 19);
}

/// A text of zeros is a decimal text that denotes zero.
pub proof fn lemma_zeros(k: nat)
    ensures
        is_decimal_text(zeros(k)),
        decimal_value(zeros(k)) == 0,
    decreases k,
{
    if k > 0 {
        lemma_zeros((k - 1) as nat);
        assert(zeros(k).drop_last() == zeros((k - 1) as nat));
    }
}

/// The text of a whole part, a `.`, and decimal places filled up with zeros
/// to 18.
pub open spec fn fixed_point_text(whole: Seq<char>, places: Seq<char>) -> Seq<char> {
    whole + seq!['.'] + places + zeros((18 - places.len()) as nat)
}

/// Whether the text is decimal digits, a `.`, and exactly 18 decimal digits.
pub open spec fn is_fixed_point_text(s: Seq<char>) -> bool {
    &&& first_dot(s) < s.len()
    &&& is_decimal_text(whole_part(s))
    &&& is_decimal_text(fraction_part(s))
    &&& fraction_part(s).len() == 18
}

/// Calls `parse_ether` of `ethers::utils` on a text of digits, a `.` and 18
/// digits. On such a text that function takes the `.` out, reads the digits
/// that are left with `U256::from_dec_str`, and multiplies by `10^0`: it gives
/// the number that all the digits denote together, and fails exactly where
/// that number leaves 256 bits. Other texts are kept out, because it also
/// takes underscores out, reads a leading `-`, cuts decimal places after the
/// 18th, and panics where the multiplication overflows.
#[verifier::external_body]
fn outside_parse_ether(s: &str) -> (r: Option<Uint256>)
    requires
        is_fixed_point_text(s@),
    ensures
        r is Some <==> decimal_value(whole_part(s@) + fraction_part(s@)) <= max_uint256(),
        r matches Some(v) ==> v@ == decimal_value(whole_part(s@) + fraction_part(s@)),
{
    match ethers::utils::parse_ether(s) {
        Ok(v) => Some(Uint256 { limbs: v.0 }),
        Err(_) => None,
    }
}

/// Whether every character of the text is a decimal digit.
fn all_digits(s: &str) -> (r: bool)
    ensures
        r == is_decimal_text(s@),
{
    let n = s.unicode_len();
    let mut i: usize = 0;
    while i < n
        invariant
            i <= n,
            n == s@.len(),
            forall|j: int| 0 <= j < i ==> '0' <= #[trigger] s@[j] <= '9',
        decreases n - i,
    {
        let c = s.get_char(i);
        if c < '0' || c > '9' {
            assert(!('0' <= s@[i as int] <= '9'));
            return false;
        }
        i += 1;
    }
    true
}

/// Whether nothing but zeros stands after the 18th character.
fn zeros_after_18(s: &str) -> (r: bool)
    ensures
        r == (forall|i: int| 18 <= i < s@.len() ==> (#[trigger] s@[i]) == '0'),
{
    let n = s.unicode_len();
    let mut i: usize = 18;
    while i < n
        invariant
            18 <= i,
            n == s@.len(),
            forall|j: int| 18 <= j < i ==> (#[trigger] s@[j]) == '0',
        decreases n - i,
    {
        if s.get_char(i) != '0' {
            assert(s@[i as int] != '0');
            return false;
        }
        i += 1;
    }
    true
}

/// The two sides of the first `.` of the text.
fn split_at_first_dot(s: &str) -> (r: (&str, &str))
    ensures
        r.0@ == whole_part(s@),
        r.1@ == fraction_part(s@),
{
    let n = s.unicode_len();
    let mut p: usize = 0;
    while p < n && s.get_char(p) != '.'
        invariant
            p <= n,
            n == s@.len(),
            forall|i: int| 0 <= i < p ==> s@[i] != '.',
        decreases n - p,
    {
        p += 1;
    }
    proof {
        lemma_first_dot_at(s@, p as int);
    }
    let whole = s.substring_char(0, p);
    let fraction = if p < n {
        s.substring_char(p + 1, n)
    } else {
        s.substring_char(n, n)
    };
    assert(whole@ == whole_part(s@));
    assert(fraction@ == fraction_part(s@));
    (whole, fraction)
}

/// The whole part, a `.`, and the decimal places filled up with zeros to 18.
fn fixed_point(whole: &str, places: &str) -> (r: String)
    requires
        places@.len() <= 18,
    ensures
        r@ == fixed_point_text(whole@, places@),
{
    let mut out = String::new();
    out.append(whole);
    out.push('.');
    out.append(places);
    let mut k: usize = places.unicode_len();
    while k < 18
        invariant
            places@.len() <= k <= 18,
            out@ == whole@ + seq!['.'] + places@ + zeros((k - places@.len()) as nat),
        decreases 18 - k,
    {
        out.push('0');
        k += 1;
        assert(out@ == whole@ + seq!['.'] + places@ + zeros((k - places@.len()) as nat));
    }
    out
}

/// A text of digits, a `.`, and up to 18 digits filled up with zeros is a
/// fixed-point text, and all its digits together denote the whole part in
/// base units plus the decimal places in base units.
pub proof fn lemma_fixed_point_text(whole: Seq<char>, places: Seq<char>)
    requires
        is_decimal_text(whole),
        is_decimal_text(places),
        places.len() <= 18,
    ensures
        is_fixed_point_text(fixed_point_text(whole, places)),
        decimal_value(
            whole_part(fixed_point_text(whole, places)) + fraction_part(
                fixed_point_text(whole, places),
            ),
        ) == decimal_value(whole) * pow10(18) + decimal_value(places) * pow10(
            (18 - places.len()) as nat,
        ),
{
    let text = fixed_point_text(whole, places);
    let pad = zeros((18 - places.len()) as nat);
    let filled = places + pad;
    assert(text == whole + seq!['.'] + filled);
    assert forall|i: int| 0 <= i < whole.len() implies text[i] != '.' by {
        assert(text[i] == whole[i]);
        assert('0' <= whole[i] <= '9');
    }
    assert(text[whole.len() as int] == '.');
    lemma_first_dot_at(text, whole.len() as int);
    assert(whole_part(text) == whole);
    assert(fraction_part(text) == filled);
    lemma_zeros((18 - places.len()) as nat);
    assert forall|j: int| 0 <= j < filled.len() implies '0' <= #[trigger] filled[j] <= '9' by {
        if j < places.len() {
            assert(filled[j] == places[j]);
        } else {
            assert(filled[j] == pad[j - places.len()]);
        }
    }
    lemma_decimal_value_concat(whole, filled);
    lemma_decimal_value_concat(places, pad);
    assert(filled.len() == 18);
    assert(decimal_value(filled) == decimal_value(places) * pow10(pad.len()));
}

/// Reads an amount in whole tokens and gives it in base units. `None` exactly
/// where the text is no amount text or the amount leaves 256 bits.
pub fn parse_ether(s: &str) -> (r: Option<Uint256>)
    ensures
        r is Some <==> (is_amount_text(s@) && amount_wei(s@) <= max_uint256()),
        r matches Some(v) ==> v@ == amount_wei(s@),
{
    let (whole, fraction) = split_at_first_dot(s);
    let fraction_len = fraction.unicode_len();
    if whole.unicode_len() == 0 && fraction_len == 0 {
        return None;
    }
    if !all_digits(whole) || !all_digits(fraction) || !zeros_after_18(fraction) {
        return None;
    }
    assert(is_amount_text(s@));
    let kept = if fraction_len > 18 {
        fraction.substring_char(0, 18)
    } else {
        fraction
    };
    assert(kept@ == kept_fraction(s@));
    assert(is_decimal_text(kept@)) by {
        assert forall|j: int| 0 <= j < kept@.len() implies '0' <= #[trigger] kept@[j] <= '9' by {
            assert(kept@[j] == fraction@[j]);
        }
    }
    let fixed = fixed_point(whole, kept);
    proof {
        lemma_fixed_point_text(whole@, kept@);
    }
    outside_parse_ether(fixed.as_str())
}

/// Writes a number of base units in whole tokens, with 18 decimal places. The
/// text reads back as the same number.
pub fn format_ether(v: &Uint256) -> (r: String)
    ensures
        r@ == ether_text(v@),
        is_amount_text(r@),
        amount_wei(r@) == v@,
{
    proof {
        law_read_after_write_ether(v@);
    }
    let digits = v.to_decimal();
    let d = digits.as_str();
    let n = d.unicode_len();
    let mut out = String::new();
    if n <= 18 {
        out.push('0');
        out.push('.');
        let mut i: usize = n;
        while i < 18
            invariant
                n <= i <= 18,
                out@ == seq!['0', '.'] + zeros((i - n) as nat),
            decreases 18 - i,
        {
            out.push('0');
            i += 1;
            assert(out@ == seq!['0', '.'] + zeros((i - n) as nat));
        }
        out.append(d);
    } else {
        out.append(d.substring_char(0, n - 18));
        out.push('.');
        out.append(d.substring_char(n - 18, n));
        assert(out@ == d@.take(n - 18) + seq!['.'] + d@.skip(n - 18));
    }
    out
}

/// Writing a number of base units in whole tokens and reading the text again
/// gives the number back, whatever the number.
pub proof fn law_read_after_write_ether(n: nat)
    ensures
        is_amount_text(ether_text(n)),
        amount_wei(ether_text(n)) == n,
{
    let d = decimal_text(n);
    let text = ether_text(n);
    lemma_decimal_text_denotes(n);
    lemma_pow10_18();
    assert(pow10(0) == 1);
    if d.len() <= 18 {
        let pad = zeros((18 - d.len()) as nat);
        let fraction = pad + d;
        let zero = seq!['0'];
        lemma_first_dot_at(text, 1);
        assert(whole_part(text) == zero);
        assert(kept_fraction(text) == fraction);
        lemma_zeros((18 - d.len()) as nat);
        lemma_decimal_value_concat(pad, d);
        assert(decimal_value(zero) == 10 * decimal_value(zero.drop_last()) + digit_value(
            zero.last(),
        ));
        assert(decimal_value(pad) * pow10(d.len()) == 0) by (nonlinear_arith)
            requires
                decimal_value(pad) == 0,
        ;
        assert(amount_wei(text) == decimal_value(zero) * pow10(18) + decimal_value(fraction)
            * pow10(0));
    } else {
        let a = d.take(d.len() - 18);
        let b = d.skip(d.len() - 18);
        lemma_first_dot_at(text, a.len() as int);
        assert(whole_part(text) == a);
        assert(kept_fraction(text) == b);
        assert(a + b == d);
        lemma_decimal_value_concat(a, b);
        assert(b.len() == 18);
        assert(amount_wei(text) == decimal_value(a) * pow10(18) + decimal_value(b) * pow10(0));
    }
}

/// An amount text converts to base units and back without loss: the text
/// written for its base units denotes the same amount.
pub proof fn law_amount_round_trip(s: Seq<char>)
    requires
        is_amount_text(s),
    ensures
        is_amount_text(ether_text(amount_wei(s))),
        amount_wei(ether_text(amount_wei(s))) == amount_wei(s),
{
    law_read_after_write_ether(amount_wei(s));
}

} // verus!
