//! Identifiers: the 128-bit values that name one request or one stored row,
//! and the text form in which they travel in headers and log fields.

use vstd::prelude::*;

verus! {

/// A 128-bit universally unique identifier, held as one big-endian number:
/// the first byte of the identifier is the most significant byte of `bits`.
#[derive(Clone, Copy, Debug, PartialEq, Eq, Structural)]
pub struct Uuid {
    pub bits: u128,
}

/// The version field holds 4 (random) and the variant field holds the two
/// bits `10`.
pub open spec fn is_v4(bits: u128) -> bool {
    (bits >> 76u128) & 0xfu128 == 4u128 && (bits >> 62u128) & 0x3u128 == 2u128
}

/// The `k`-th hexadecimal digit of `bits`, counted from the most significant
/// one, for `0 <= k < 32`.
pub open spec fn nibble(bits: u128, k: int) -> u8 {
    ((bits >> (((31 - k) * 4) as u128)) & 0xfu128) as u8
}

/// The lower-case hexadecimal digit for a value below 16.
pub open spec fn hex_digit(n: u8) -> char {
    if n < 10 {
        (n + 48) as u8 as char
    } else {
        (n + 87) as u8 as char
    }
}

/// A hyphen stands at this position of the text form.
pub open spec fn is_hyphen_at(i: int) -> bool {
    i == 8 || i == 13 || i == 18 || i == 23
}

/// The number of hyphens before position `i` of the text form.
pub open spec fn hyphens_before(i: int) -> int {
    if i > 23 {
        4
    } else if i > 18 {
        3
    } else if i > 13 {
        2
    } else if i > 8 {
        1
    } else {
        0
    }
}

/// The character at position `i` of the text form, for `0 <= i < 36`.
pub open spec fn text_char(bits: u128, i: int) -> char {
    if is_hyphen_at(i) {
        '-'
    } else {
        hex_digit(nibble(bits, i - hyphens_before(i)))
    }
}

/// The text form of an identifier: 32 lower-case hexadecimal digits in groups
/// of 8, 4, 4, 4 and 12, with a hyphen between two groups.
pub open spec fn hyphenated(bits: u128) -> Seq<char> {
    Seq::new(36, |i: int| text_char(bits, i))
}

/// A printable ASCII character: a header value made of these is accepted by
/// every HTTP implementation.
pub open spec fn is_visible_ascii(c: char) -> bool {
    32 <= c as u32 && (c as u32) < 127
}

/// Every character of the text is printable ASCII.
pub open spec fn is_header_text(text: Seq<char>) -> bool {
    forall|i: int| 0 <= i < text.len() ==> is_visible_ascii(#[trigger] text[i])
}

/// Asks the `uuid` crate for a random identifier, `uuid::Uuid::new_v4`, and
/// hands it back as a number. The crate fills 122 bits from the operating
/// system's random source and fixes the other six: the version field to 4,
/// the variant field to `10`. The contract claims the six fixed bits and
/// nothing of the others. The crate panics where the system has no random
/// source to offer.
#[verifier::external_body]
fn random_bits() -> (bits: u128)
    ensures
        is_v4(bits),
{
    ::uuid::Uuid::new_v4().as_u128()
}

/// Lets the `uuid` crate print an identifier, through `Display` of
/// `uuid::Uuid`. The contract claims that the text is the hyphenated
/// lower-case form, as `hyphenated` spells it out.
#[verifier::external_body]
fn hyphenate(bits: u128) -> (text: String)
    ensures
        text@ == hyphenated(bits),
{
    ::uuid::Uuid::from_u128(bits).to_string()
}

impl Uuid {
    /// Whether this is a version 4 (random) identifier.
    pub open spec fn is_random(self) -> bool {
        is_v4(self.bits)
    }

    /// The text form, as a sequence of characters.
    pub open spec fn text(self) -> Seq<char> {
        hyphenated(self.bits)
    }

    /// A fresh random identifier.
    pub fn new_v4() -> (id: Uuid)
        ensures
            id.is_random(),
    {
        Uuid { bits: random_bits() }
    }

    /// The text form: 36 characters, fit to stand in a header.
    pub fn to_text(&self) -> (text: String)
        ensures
            text@ == self.text(),
            text@.len() == 36,
            is_header_text(text@),
    {
        proof {
            lemma_text_is_header_text(self.bits);
        }
        hyphenate(self.bits)
    }
}

/// The correlation identifier of one request: made when the request arrives,
/// written to its trace and sent back on its response.
#[derive(Clone, Copy, Debug, PartialEq, Eq, Structural)]
pub struct RequestId {
    pub uuid: Uuid,
}

impl RequestId {
    /// The value of the header that carries the identifier.
    pub open spec fn text(self) -> Seq<char> {
        self.uuid.text()
    }

    pub fn new(uuid: Uuid) -> (id: RequestId)
        ensures
            id.uuid == uuid,
    {
        RequestId { uuid }
    }

    /// The value of the header that carries the identifier. Every character
    /// of it is printable ASCII, so it is a valid header value.
    pub fn header_value(&self) -> (text: String)
        ensures
            text@ == self.text(),
            is_header_text(text@),
    {
        self.uuid.to_text()
    }
}

/// A digit of the text form is one of `0`..`9`, `a`..`f`.
pub proof fn lemma_hex_digit_range(n: u8)
    requires
        n < 16,
    ensures
        ('0' <= hex_digit(n) && hex_digit(n) <= '9') || ('a' <= hex_digit(n) && hex_digit(n)
            <= 'f'),
        is_visible_ascii(hex_digit(n)),
{
}

/// The text form of any identifier has 36 printable ASCII characters.
pub proof fn lemma_text_is_header_text(bits: u128)
    ensures
        hyphenated(bits).len() == 36,
        is_header_text(hyphenated(bits)),
{
    assert forall|i: int| 0 <= i < 36 implies is_visible_ascii(
        #[trigger] hyphenated(bits)[i],
    ) by {
        if !is_hyphen_at(i) {
            let k = i - hyphens_before(i);
            let s = ((31 - k) * 4) as u128;
            assert((bits >> s) & 0xfu128 < 16u128) by (bit_vector);
            lemma_hex_digit_range(nibble(bits, k));
        }
    }
}

/// The position in the text form of the `k`-th digit, for `0 <= k < 32`.
pub open spec fn digit_position(k: int) -> int {
    if k >= 20 {
        k + 4
    } else if k >= 16 {
        k + 3
    } else if k >= 12 {
        k + 2
    } else if k >= 8 {
        k + 1
    } else {
        k
    }
}

/// Two identifiers with the same `k`-th character of digits have the same
/// `k`-th digit.
proof fn lemma_same_digit(a: u128, b: u128, k: int)
    requires
        0 <= k < 32,
        hyphenated(a) == hyphenated(b),
    ensures
        (a >> (((31 - k) * 4) as u128)) & 0xfu128 == (b >> (((31 - k) * 4) as u128)) & 0xfu128,
{
    let i = digit_position(k);
    let s = ((31 - k) * 4) as u128;
    assert(!is_hyphen_at(i) && i - hyphens_before(i) == k);
    assert(hyphenated(a)[i] == text_char(a, i));
    assert(hyphenated(b)[i] == text_char(b, i));
    assert((a >> s) & 0xfu128 < 16u128) by (bit_vector);
    assert((b >> s) & 0xfu128 < 16u128) by (bit_vector);
    let n = nibble(a, k);
    let m = nibble(b, k);
    assert(hex_digit(n) == hex_digit(m));
    assert(n == m);
}

/// The text form tells identifiers apart. Two identifiers with the same
/// text are the same identifier, so requests with different correlation
/// identifiers get different header values.
pub proof fn lemma_text_is_injective(a: Uuid, b: Uuid)
    requires
        a.text() == b.text(),
    ensures
        a == b,
{
    let x = a.bits;
    let y = b.bits;
    lemma_same_digit(x, y, 31);
    lemma_same_digit(x, y, 30);
    lemma_same_digit(x, y, 29);
    lemma_same_digit(x, y, 28);
    lemma_same_digit(x, y, 27);
    lemma_same_digit(x, y, 26);
    lemma_same_digit(x, y, 25);
    lemma_same_digit(x, y, 24);
    lemma_same_digit(x, y, 23);
    lemma_same_digit(x, y, 22);
    lemma_same_digit(x, y, 21);
    lemma_same_digit(x, y, 20);
    lemma_same_digit(x, y, 19);
    lemma_same_digit(x, y, 18);
    lemma_same_digit(x, y, 17);
    lemma_same_digit(x, y, 16);
    lemma_same_digit(x, y, 15);
    lemma_same_digit(x, y, 14);
    lemma_same_digit(x, y, 13);
    lemma_same_digit(x, y, 12);
    lemma_same_digit(x, y, 11);
    lemma_same_digit(x, y, 10);
    lemma_same_digit(x, y, 9);
    lemma_same_digit(x, y, 8);
    lemma_same_digit(x, y, 7);
    lemma_same_digit(x, y, 6);
    lemma_same_digit(x, y, 5);
    lemma_same_digit(x, y, 4);
    lemma_same_digit(x, y, 3);
    lemma_same_digit(x, y, 2);
    lemma_same_digit(x, y, 1);
    lemma_same_digit(x, y, 0);
    lemma_digits_make_the_number(x, y);
}

/// Two numbers with the same 32 hexadecimal digits are the same number.
proof fn lemma_digits_make_the_number(a: u128, b: u128)
    by (bit_vector)
    requires
        (a >> 0u128) & 0xfu128 == (b >> 0u128) & 0xfu128,
        (a >> 4u128) & 0xfu128 == (b >> 4u128) & 0xfu128,
        (a >> 8u128) & 0xfu128 == (b >> 8u128) & 0xfu128,
        (a >> 12u128) & 0xfu128 == (b >> 12u128) & 0xfu128,
        (a >> 16u128) & 0xfu128 == (b >> 16u128) & 0xfu128,
        (a >> 20u128) & 0xfu128 == (b >> 20u128) & 0xfu128,
        (a >> 24u128) & 0xfu128 == (b >> 24u128) & 0xfu128,
        (a >> 28u128) & 0xfu128 == (b >> 28u128) & 0xfu128,
        (a >> 32u128) & 0xfu128 == (b >> 32u128) & 0xfu128,
        (a >> 36u128) & 0xfu128 == (b >> 36u128) & 0xfu128,
        (a >> 40u128) & 0xfu128 == (b >> 40u128) & 0xfu128,
        (a >> 44u128) & 0xfu128 == (b >> 44u128) & 0xfu128,
        (a >> 48u128) & 0xfu128 == (b >> 48u128) & 0xfu128,
        (a >> 52u128) & 0xfu128 == (b >> 52u128) & 0xfu128,
        (a >> 56u128) & 0xfu128 == (b >> 56u128) & 0xfu128,
        (a >> 60u128) & 0xfu128 == (b >> 60u128) & 0xfu128,
        (a >> 64u128) & 0xfu128 == (b >> 64u128) & 0xfu128,
        (a >> 68u128) & 0xfu128 == (b >> 68u128) & 0xfu128,
        (a >> 72u128) & 0xfu128 == (b >> 72u128) & 0xfu128,
        (a >> 76u128) & 0xfu128 == (b >> 76u128) & 0xfu128,
        (a >> 80u128) & 0xfu128 == (b >> 80u128) & 0xfu128,
        (a >> 84u128) & 0xfu128 == (b >> 84u128) & 0xfu128,
        (a >> 88u128) & 0xfu128 == (b >> 88u128) & 0xfu128,
        (a >> 92u128) & 0xfu128 == (b >> 92u128) & 0xfu128,
        (a >> 96u128) & 0xfu128 == (b >> 96u128) & 0xfu128,
        (a >> 100u128) & 0xfu128 == (b >> 100u128) & 0xfu128,
        (a >> 104u128) & 0xfu128 == (b >> 104u128) & 0xfu128,
        (a >> 108u128) & 0xfu128 == (b >> 108u128) & 0xfu128,
        (a >> 112u128) & 0xfu128 == (b >> 112u128) & 0xfu128,
        (a >> 116u128) & 0xfu128 == (b >> 116u128) & 0xfu128,
        (a >> 120u128) & 0xfu128 == (b >> 120u128) & 0xfu128,
        (a >> 124u128) & 0xfu128 == (b >> 124u128) & 0xfu128,
    ensures
        a == b,
{
}

} // verus!
