//! 20-byte account addresses and their hexadecimal notation.
//!
//! Reading an address is done by `ethers::types::H160` (the `Address` of
//! ethers); writing one is done here. The notation that is read is wider than
//! the one that is written: an optional `0x` in front, upper or lower case
//! digits, and blanks anywhere after the prefix.

use vstd::prelude::*;
use std::str::FromStr;

verus! {

/// Whether `c` is one of `0-9`, `a-f`, `A-F`.
pub open spec fn is_hex_digit(c: char) -> bool {
    ||| '0' <= c <= '9'
    ||| 'a' <= c <= 'f'
    ||| 'A' <= c <= 'F'
}

/// The value of a hexadecimal digit.
pub open spec fn hex_digit_value(c: char) -> nat {
    if '0' <= c <= '9' {
        (c as int - '0' as int) as nat
    } else if 'a' <= c <= 'f' {
        (c as int - 'a' as int + 10) as nat
    } else {
        (c as int - 'A' as int + 10) as nat
    }
}

/// The blanks that may stand between hexadecimal digits: space, carriage
/// return, line feed and tab.
pub open spec fn is_hex_blank(c: char) -> bool {
    c == ' ' || c == '\r' || c == '\n' || c == '\t'
}

/// The text without one leading `0x`, if it has one.
pub open spec fn without_prefix(s: Seq<char>) -> Seq<char> {
    if s.len() >= 2 && s[0] == '0' && s[1] == 'x' {
        s.skip(2)
    } else {
        s
    }
}

/// The text without its blanks.
pub open spec fn without_blanks(s: Seq<char>) -> Seq<char>
    decreases s.len(),
{
    if s.len() == 0 {
        Seq::empty()
    } else if is_hex_blank(s.last()) {
        without_blanks(s.drop_last())
    } else {
        without_blanks(s.drop_last()).push(s.last())
    }
}

/// Whether every character is a hexadecimal digit or a blank.
pub open spec fn is_hex_text(s: Seq<char>) -> bool {
    forall|i: int| 0 <= i < s.len() ==> is_hex_digit(#[trigger] s[i]) || is_hex_blank(s[i])
}

/// Whether the text denotes an address: after the optional prefix, nothing but
/// hexadecimal digits and blanks, and exactly 40 digits.
pub open spec fn is_address_text(s: Seq<char>) -> bool {
    &&& is_hex_text(without_prefix(s))
    &&& without_blanks(without_prefix(s)).len() == 40
}

/// The byte that two hexadecimal digits denote, the first being the upper half.
pub open spec fn hex_pair_value(hi: char, lo: char) -> u8 {
    (16 * hex_digit_value(hi) + hex_digit_value(lo)) as u8
}

/// The 20 bytes that an address text denotes.
pub open spec fn address_bytes(s: Seq<char>) -> Seq<u8> {
    let digits = without_blanks(without_prefix(s));
    Seq::new(20, |i: int| hex_pair_value(digits[2 * i], digits[2 * i + 1]))
}

/// The lower-case hexadecimal digit of a value below 16.
pub open spec fn hex_char(n: nat) -> char {
    if n < 10 {
        ('0' as int + n) as char
    } else {
        ('a' as int + n - 10) as char
    }
}

/// The digit in lower case.
pub open spec fn lower_hex(c: char) -> char {
    if 'A' <= c <= 'F' {
        (c as int - 'A' as int + 'a' as int) as char
    } else {
        c
    }
}

/// The 40 lower-case digits of 20 bytes, two for each byte.
pub open spec fn hex_digits_of(bytes: Seq<u8>) -> Seq<char> {
    Seq::new(
        2 * bytes.len(),
        |i: int|
            if i % 2 == 0 {
                hex_char((bytes[i / 2] / 16) as nat)
            } else {
                hex_char((bytes[i / 2] % 16) as nat)
            },
    )
}

/// The notation that is written: `0x`, then the lower-case digits.
pub open spec fn address_text(bytes: Seq<u8>) -> Seq<char> {
    seq!['0', 'x'] + hex_digits_of(bytes)
}

/// The canonical form of an address text: `0x`, then its digits in lower case,
/// without blanks.
pub open spec fn canonical_address_text(s: Seq<char>) -> Seq<char> {
    seq!['0', 'x'] + without_blanks(without_prefix(s)).map_values(|c: char| lower_hex(c))
}

/// A 20-byte account address.
#[derive(Clone, Copy, Debug, PartialEq, Eq)]
pub struct Address {
    pub bytes: [u8; 20],
}

impl View for Address {
    type V = Seq<u8>;

    open spec fn view(&self) -> Seq<u8> {
        self.bytes@
    }
}

/// Calls `from_str` of `ethers::types::H160`. That function drops one leading
/// `0x`, then reads two hexadecimal digits for each of the 20 bytes, passing
/// over space, carriage return, line feed and tab; it fails on any other
/// character, on fewer than 40 digits, and on anything but those blanks after
/// the last digit.
#[verifier::external_body]
fn outside_address_from_str(s: &str) -> (r: Option<Address>)
    ensures
        r is Some <==> is_address_text(s@),
        r matches Some(a) ==> a@ == address_bytes(s@),
{
    match ethers::types::H160::from_str(s) {
        Ok(h) => Some(Address { bytes: h.0 }),
        Err(_) => None,
    }
}

/// The lower-case hexadecimal digit of `n`.
fn hex_char_of(n: u8) -> (c: char)
    requires
        n < 16,
    ensures
        c == hex_char(n as nat),
{
    if n < 10 {
        ('0' as u8 + n) as char
    } else {
        ('a' as u8 + (n - 10)) as char
    }
}

impl Address {
    /// The address of 20 given bytes.
    pub fn from_bytes(bytes: [u8; 20]) -> (r: Address)
        ensures
            r@ == bytes@,
    {
        Address { bytes }
    }

    /// Reads an address. `None` exactly where the text is no address text.
    pub fn parse(s: &str) -> (r: Option<Address>)
        ensures
            r is Some <==> is_address_text(s@),
            r matches Some(a) ==> a@ == address_bytes(s@),
    {
        outside_address_from_str(s)
    }

    /// Writes the address: `0x` and 40 lower-case hexadecimal digits. The text
    /// reads back as the same address.
    pub fn to_hex(&self) -> (r: String)
        ensures
            r@ == address_text(self@),
            is_address_text(r@),
            address_bytes(r@) == self@,
    {
        proof {
            law_read_after_write(self@);
        }
        let mut out = String::new();
        out.push('0');
        out.push('x');
        let mut i: usize = 0;
        while i < 20
            invariant
                i <= 20,
                out@.len() == 2 + 2 * i,
                out@ == seq!['0', 'x'] + hex_digits_of(self@).take(2 * i as int),
            decreases 20 - i,
        {
            let b = self.bytes[i];
            out.push(hex_char_of(b / 16));
            out.push(hex_char_of(b % 16));
            i += 1;
        }
        out
    }
}

/// What holds of each hexadecimal digit: its value is below 16, writing the
/// value gives the digit in lower case, and the lower-case digit has the same
/// value.
pub proof fn lemma_hex_digit(c: char)
    requires
        is_hex_digit(c),
    ensures
        hex_digit_value(c) < 16,
        hex_char(hex_digit_value(c)) == lower_hex(c),
        is_hex_digit(lower_hex(c)),
        !is_hex_blank(lower_hex(c)),
        !is_hex_blank(c),
        hex_digit_value(lower_hex(c)) == hex_digit_value(c),
        lower_hex(lower_hex(c)) == lower_hex(c),
{
}

/// What holds of each value below 16: its digit is a lower-case hexadecimal
/// digit with that value.
pub proof fn lemma_hex_char(n: nat)
    requires
        n < 16,
    ensures
        is_hex_digit(hex_char(n)),
        !is_hex_blank(hex_char(n)),
        hex_digit_value(hex_char(n)) == n,
        lower_hex(hex_char(n)) == hex_char(n),
{
}

/// Dropping the blanks of a text of digits and blanks leaves digits only.
pub proof fn lemma_without_blanks_leaves_digits(s: Seq<char>)
    requires
        is_hex_text(s),
    ensures
        forall|j: int|
            0 <= j < without_blanks(s).len() ==> is_hex_digit(#[trigger] without_blanks(s)[j]),
    decreases s.len(),
{
    if s.len() > 0 {
        let rest = without_blanks(s.drop_last());
        lemma_without_blanks_leaves_digits(s.drop_last());
        assert forall|j: int| 0 <= j < without_blanks(s).len() implies is_hex_digit(
            #[trigger] without_blanks(s)[j],
        ) by {
            if j < rest.len() {
                assert(without_blanks(s)[j] == rest[j]);
            }
        }
    }
}

/// A text without blanks is left as it is.
pub proof fn lemma_without_blanks_of_digits(s: Seq<char>)
    requires
        forall|i: int| 0 <= i < s.len() ==> !is_hex_blank(#[trigger] s[i]),
    ensures
        without_blanks(s) == s,
    decreases s.len(),
{
    if s.len() > 0 {
        lemma_without_blanks_of_digits(s.drop_last());
    }
}

/// Reading an address text and writing the address again gives the canonical
/// form of the text. The canonical form is itself an address text, denotes the
/// same address, and is its own canonical form.
pub proof fn law_write_after_read_is_canonical(s: Seq<char>)
    requires
        is_address_text(s),
    ensures
        address_text(address_bytes(s)) == canonical_address_text(s),
        is_address_text(canonical_address_text(s)),
        address_bytes(canonical_address_text(s)) == address_bytes(s),
        canonical_address_text(canonical_address_text(s)) == canonical_address_text(s),
{
    let digits = without_blanks(without_prefix(s));
    let lower = digits.map_values(|c: char| lower_hex(c));
    let bytes = address_bytes(s);
    let canonical = canonical_address_text(s);
    lemma_without_blanks_leaves_digits(without_prefix(s));
    assert forall|i: int| 0 <= i < 40 implies #[trigger] hex_digits_of(bytes)[i] == lower[i] by {
        let k = i / 2;
        lemma_hex_digit(digits[2 * k]);
        lemma_hex_digit(digits[2 * k + 1]);
    }
    assert forall|i: int| 0 <= i < lower.len() implies !is_hex_blank(#[trigger] lower[i])
        && is_hex_digit(lower[i]) by {
        lemma_hex_digit(digits[i]);
    }
    assert(without_prefix(canonical) == lower);
    lemma_without_blanks_of_digits(lower);
    assert forall|i: int| 0 <= i < 20 implies #[trigger] address_bytes(canonical)[i]
        == bytes[i] by {
        lemma_hex_digit(digits[2 * i]);
        lemma_hex_digit(digits[2 * i + 1]);
    }
    let again = lower.map_values(|c: char| lower_hex(c));
    assert forall|i: int| 0 <= i < 40 implies #[trigger] again[i] == lower[i] by {
        lemma_hex_digit(digits[i]);
    }
}

/// Writing an address and reading the text again gives the address back.
pub proof fn law_read_after_write(bytes: Seq<u8>)
    requires
        bytes.len() == 20,
    ensures
        is_address_text(address_text(bytes)),
        address_bytes(address_text(bytes)) == bytes,
        canonical_address_text(address_text(bytes)) == address_text(bytes),
{
    let text = address_text(bytes);
    let digits = hex_digits_of(bytes);
    assert(without_prefix(text) == digits);
    assert forall|i: int| 0 <= i < digits.len() implies !is_hex_blank(#[trigger] digits[i])
        && is_hex_digit(digits[i]) && lower_hex(digits[i]) == digits[i] by {
        lemma_hex_char((bytes[i / 2] / 16) as nat);
        lemma_hex_char((bytes[i / 2] % 16) as nat);
    }
    lemma_without_blanks_of_digits(digits);
    assert forall|i: int| 0 <= i < 20 implies #[trigger] address_bytes(text)[i] == bytes[i] by {
        lemma_hex_char((bytes[i] / 16) as nat);
        lemma_hex_char((bytes[i] % 16) as nat);
    }
}

} // verus!
