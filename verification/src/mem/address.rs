//! 16-bit addresses with wrapping arithmetic and little-endian composition.

use vstd::arithmetic::power2::pow2;
use vstd::prelude::*;
use vstd::std_specs::convert::FromSpecImpl;
use vstd::std_specs::ops::{AddSpecImpl, SubSpecImpl};
use vstd::string::StringSliceAdditionalSpecFns;

verus! {

/// A location in a 16-bit address space. All arithmetic on it wraps
/// modulo 2^16.
#[derive(Clone, Copy, Debug, Default, PartialEq, Eq, Structural, PartialOrd, Ord, Hash)]
pub struct Address(pub u16);

/// `value` reduced into the 16-bit address space.
pub open spec fn wrap16(value: int) -> u16 {
    (value % 0x1_0000) as u16
}

/// The 16-bit value whose little-endian bytes are `low` then `high`.
pub open spec fn le_word(low: u8, high: u8) -> u16 {
    (low + 256 * high) as u16
}

/// `value` with everything above its `n_bits` least significant bits
/// dropped.
pub open spec fn low_bits(value: u16, n_bits: u8) -> u16 {
    if n_bits >= 16 {
        value
    } else {
        (value as int % pow2(n_bits as nat) as int) as u16
    }
}

impl Address {
    /// The address as an index into an array that covers the address space.
    pub fn as_usize(&self) -> (index: usize)
        ensures
            index == self.0,
    {
        self.0 as usize
    }

    /// Keep only the `n_bits` least significant address lines. This models
    /// incomplete address decoding, which mirrors a small device throughout
    /// a larger region.
    pub fn alias(&self, n_bits: u8) -> (aliased: Address)
        ensures
            aliased.0 == low_bits(self.0, n_bits),
    {
        if n_bits >= 16 {
            *self
        } else {
            let bit: u16 = 1u16 << n_bits;
            let value = self.0;
            proof {
                let n = n_bits as u16;
                vstd::bits::lemma_u16_pow2_no_overflow(n as nat);
                vstd::bits::lemma_u16_shl_is_mul(1, n);
                vstd::bits::lemma_u16_low_bits_mask_is_mod(value, n as nat);
                assert(1u16 << n_bits == 1u16 << n) by (bit_vector)
                    requires
                        n == n_bits as u16,
                ;
            }
            Address(value & (bit - 1))
        }
    }

    /// The address as its low byte followed by its high byte.
    pub fn to_le_bytes(&self) -> (bytes: [u8; 2])
        ensures
            bytes[0] == self.0 % 256,
            bytes[1] == self.0 / 256,
            le_word(bytes[0], bytes[1]) == self.0,
    {
        let value = self.0;
        let low: u8 = (value & 0xFF) as u8;
        let high: u8 = (value >> 8) as u8;
        assert(low == value % 256 && high == value / 256) by (bit_vector)
            requires
                low == (value & 0xFF) as u8,
                high == (value >> 8) as u8,
        ;
        [low, high]
    }

    /// The address whose low byte is `low` and whose high byte is `high`.
    pub fn from_le_bytes(low: u8, high: u8) -> (addr: Address)
        ensures
            addr.0 == le_word(low, high),
            addr.0 % 256 == low,
            addr.0 / 256 == high,
    {
        let l: u16 = low as u16;
        let h: u16 = high as u16;
        let value: u16 = l | (h << 8);
        assert(value == l + 256 * h) by (bit_vector)
            requires
                value == l | (h << 8),
                l < 256,
                h < 256,
        ;
        Address(value)
    }

    /// The address as text: `0x` and four hexadecimal digits.
    pub fn to_string(&self) -> (text: String)
        ensures
            text@ == crate::text::word_text(self.0),
    {
        let mut text = String::new();
        crate::text::push_word(&mut text, self.0);
        text
    }

    /// The address `delta` locations further on, where a negative `delta`
    /// goes back.
    pub fn offset(self, delta: i16) -> (moved: Address)
        ensures
            moved.0 == wrap16(self.0 + delta),
    {
        Address(self.0.wrapping_add_signed(delta))
    }
}

impl From<u16> for Address {
    fn from(addr: u16) -> (a: Address) {
        Address(addr)
    }
}

impl FromSpecImpl<u16> for Address {
    open spec fn obeys_from_spec() -> bool {
        true
    }

    open spec fn from_spec(addr: u16) -> Address {
        Address(addr)
    }
}

/// A single byte names a location in the zero page: it becomes the low byte
/// of the address, under a high byte of zero.
impl From<u8> for Address {
    fn from(addr: u8) -> (a: Address) {
        Address(addr as u16)
    }
}

impl FromSpecImpl<u8> for Address {
    open spec fn obeys_from_spec() -> bool {
        true
    }

    open spec fn from_spec(addr: u8) -> Address {
        Address(addr as u16)
    }
}

/// Two bytes are read as a little-endian address.
impl From<[u8; 2]> for Address {
    fn from(bytes: [u8; 2]) -> (a: Address) {
        Address::from_le_bytes(bytes[0], bytes[1])
    }
}

impl FromSpecImpl<[u8; 2]> for Address {
    open spec fn obeys_from_spec() -> bool {
        true
    }

    open spec fn from_spec(bytes: [u8; 2]) -> Address {
        Address(le_word(bytes[0], bytes[1]))
    }
}

impl core::ops::Add<u8> for Address {
    type Output = Address;

    fn add(self, other: u8) -> (sum: Address) {
        Address(self.0.wrapping_add(other as u16))
    }
}

impl AddSpecImpl<u8> for Address {
    open spec fn obeys_add_spec() -> bool {
        true
    }

    open spec fn add_req(self, other: u8) -> bool {
        true
    }

    open spec fn add_spec(self, other: u8) -> Address {
        Address(wrap16(self.0 + other))
    }
}

impl core::ops::Sub<u8> for Address {
    type Output = Address;

    fn sub(self, other: u8) -> (difference: Address) {
        Address(self.0.wrapping_sub(other as u16))
    }
}

impl SubSpecImpl<u8> for Address {
    open spec fn obeys_sub_spec() -> bool {
        true
    }

    open spec fn sub_req(self, other: u8) -> bool {
        true
    }

    open spec fn sub_spec(self, other: u8) -> Address {
        Address(wrap16(self.0 - other))
    }
}

/// A signed byte is sign-extended before it is added.
impl core::ops::Add<i8> for Address {
    type Output = Address;

    fn add(self, other: i8) -> (sum: Address) {
        self.offset(other as i16)
    }
}

impl AddSpecImpl<i8> for Address {
    open spec fn obeys_add_spec() -> bool {
        true
    }

    open spec fn add_req(self, other: i8) -> bool {
        true
    }

    open spec fn add_spec(self, other: i8) -> Address {
        Address(wrap16(self.0 + other))
    }
}

impl core::ops::Sub<i8> for Address {
    type Output = Address;

    fn sub(self, other: i8) -> (difference: Address) {
        let delta: i16 = 0 - (other as i16);
        self.offset(delta)
    }
}

impl SubSpecImpl<i8> for Address {
    open spec fn obeys_sub_spec() -> bool {
        true
    }

    open spec fn sub_req(self, other: i8) -> bool {
        true
    }

    open spec fn sub_spec(self, other: i8) -> Address {
        Address(wrap16(self.0 - other))
    }
}

impl core::ops::Add<u16> for Address {
    type Output = Address;

    fn add(self, other: u16) -> (sum: Address) {
        Address(self.0.wrapping_add(other))
    }
}

impl AddSpecImpl<u16> for Address {
    open spec fn obeys_add_spec() -> bool {
        true
    }

    open spec fn add_req(self, other: u16) -> bool {
        true
    }

    open spec fn add_spec(self, other: u16) -> Address {
        Address(wrap16(self.0 + other))
    }
}

impl core::ops::Sub<u16> for Address {
    type Output = Address;

    fn sub(self, other: u16) -> (difference: Address) {
        Address(self.0.wrapping_sub(other))
    }
}

impl SubSpecImpl<u16> for Address {
    open spec fn obeys_sub_spec() -> bool {
        true
    }

    open spec fn sub_req(self, other: u16) -> bool {
        true
    }

    open spec fn sub_spec(self, other: u16) -> Address {
        Address(wrap16(self.0 - other))
    }
}

impl core::ops::Add<i16> for Address {
    type Output = Address;

    fn add(self, other: i16) -> (sum: Address) {
        self.offset(other)
    }
}

impl AddSpecImpl<i16> for Address {
    open spec fn obeys_add_spec() -> bool {
        true
    }

    open spec fn add_req(self, other: i16) -> bool {
        true
    }

    open spec fn add_spec(self, other: i16) -> Address {
        Address(wrap16(self.0 + other))
    }
}

impl core::ops::Sub<i16> for Address {
    type Output = Address;

    fn sub(self, other: i16) -> (difference: Address) {
        if other >= 0 {
            Address(self.0.wrapping_sub(other as u16))
        } else {
            // Going back by a negative amount goes forward; -other is at
            // most 2^15, which an i16 cannot hold but a u16 can.
            let back: i16 = other + 1;
            let forward: u16 = (0 - back) as u16;
            Address(self.0.wrapping_add(forward).wrapping_add(1))
        }
    }
}

impl SubSpecImpl<i16> for Address {
    open spec fn obeys_sub_spec() -> bool {
        true
    }

    open spec fn sub_req(self, other: i16) -> bool {
        true
    }

    open spec fn sub_spec(self, other: i16) -> Address {
        Address(wrap16(self.0 - other))
    }
}

/// An index can be added as long as it is itself within the address space.
impl core::ops::Add<usize> for Address {
    type Output = Address;

    fn add(self, other: usize) -> (sum: Address) {
        Address(self.0.wrapping_add(other as u16))
    }
}

impl AddSpecImpl<usize> for Address {
    open spec fn obeys_add_spec() -> bool {
        true
    }

    open spec fn add_req(self, other: usize) -> bool {
        other <= 0xFFFF
    }

    open spec fn add_spec(self, other: usize) -> Address {
        Address(wrap16(self.0 + other))
    }
}

impl core::ops::Sub<usize> for Address {
    type Output = Address;

    fn sub(self, other: usize) -> (difference: Address) {
        Address(self.0.wrapping_sub(other as u16))
    }
}

impl SubSpecImpl<usize> for Address {
    open spec fn obeys_sub_spec() -> bool {
        true
    }

    open spec fn sub_req(self, other: usize) -> bool {
        other <= 0xFFFF
    }

    open spec fn sub_spec(self, other: usize) -> Address {
        Address(wrap16(self.0 - other))
    }
}

impl core::ops::AddAssign<u8> for Address {
    fn add_assign(&mut self, other: u8)
        ensures
            final(self).0 == wrap16(old(self).0 + other),
    {
        self.0 = self.0.wrapping_add(other as u16);
    }
}

impl core::ops::SubAssign<u8> for Address {
    fn sub_assign(&mut self, other: u8)
        ensures
            final(self).0 == wrap16(old(self).0 - other),
    {
        self.0 = self.0.wrapping_sub(other as u16);
    }
}

impl core::ops::AddAssign<i8> for Address {
    fn add_assign(&mut self, other: i8)
        ensures
            final(self).0 == wrap16(old(self).0 + other),
    {
        *self = *self + other;
    }
}

impl core::ops::SubAssign<i8> for Address {
    fn sub_assign(&mut self, other: i8)
        ensures
            final(self).0 == wrap16(old(self).0 - other),
    {
        *self = *self - other;
    }
}

impl core::ops::AddAssign<u16> for Address {
    fn add_assign(&mut self, other: u16)
        ensures
            final(self).0 == wrap16(old(self).0 + other),
    {
        self.0 = self.0.wrapping_add(other);
    }
}

impl core::ops::SubAssign<u16> for Address {
    fn sub_assign(&mut self, other: u16)
        ensures
            final(self).0 == wrap16(old(self).0 - other),
    {
        self.0 = self.0.wrapping_sub(other);
    }
}

impl core::ops::AddAssign<i16> for Address {
    fn add_assign(&mut self, other: i16)
        ensures
            final(self).0 == wrap16(old(self).0 + other),
    {
        *self = *self + other;
    }
}

impl core::ops::SubAssign<i16> for Address {
    fn sub_assign(&mut self, other: i16)
        ensures
            final(self).0 == wrap16(old(self).0 - other),
    {
        *self = *self - other;
    }
}

/// Why a text was not accepted as an address.
#[derive(Clone, Copy, Debug, PartialEq, Eq, Structural)]
pub enum AddressError {
    /// No digits were given.
    Empty,
    /// More than four digits were given: the value would not fit in 16 bits.
    TooLong,
    /// Something other than a hexadecimal digit was given.
    InvalidHex,
}

/// Whether `byte` is an ASCII hexadecimal digit, of either case.
pub open spec fn is_hex_digit(byte: u8) -> bool {
    ||| 0x30 <= byte <= 0x39
    ||| 0x41 <= byte <= 0x46
    ||| 0x61 <= byte <= 0x66
}

/// The number that the hexadecimal digit `byte` stands for.
pub open spec fn hex_digit_value(byte: u8) -> int {
    if 0x30 <= byte <= 0x39 {
        byte - 0x30
    } else if 0x41 <= byte <= 0x46 {
        byte - 0x41 + 10
    } else {
        byte - 0x61 + 10
    }
}

/// Whether every byte of `digits` is a hexadecimal digit.
pub open spec fn all_hex_digits(digits: Seq<u8>) -> bool {
    forall|i: int| 0 <= i < digits.len() ==> is_hex_digit(#[trigger] digits[i])
}

/// The number written by `digits`, most significant digit first.
pub open spec fn hex_value(digits: Seq<u8>) -> int
    decreases digits.len(),
{
    if digits.len() == 0 {
        0
    } else {
        16 * hex_value(digits.drop_last()) + hex_digit_value(digits.last())
    }
}

/// Whether `text` starts with the two characters `0x`.
pub open spec fn has_hex_prefix(text: Seq<u8>) -> bool {
    text.len() >= 2 && text[0] == 0x30 && text[1] == 0x78
}

/// The digits of `text`: what follows an optional leading `0x`.
pub open spec fn digits_of(text: Seq<u8>) -> Seq<u8> {
    if has_hex_prefix(text) {
        text.skip(2)
    } else {
        text
    }
}

/// What parsing the UTF-8 bytes `text` as an address gives: between one and
/// four hexadecimal digits, optionally after `0x`, name the address of that
/// value.
pub open spec fn parse_address(text: Seq<u8>) -> Result<Address, AddressError> {
    let digits = digits_of(text);
    if digits.len() == 0 {
        Err(AddressError::Empty)
    } else if digits.len() > 4 {
        Err(AddressError::TooLong)
    } else if !all_hex_digits(digits) {
        Err(AddressError::InvalidHex)
    } else {
        Ok(Address(hex_value(digits) as u16))
    }
}

#[verifier::external_type_specification]
#[verifier::external_body]
pub struct ExFromHexError(hex::FromHexError);

/// Decodes four hexadecimal digits into two bytes with `hex::FromHex` for
/// `[u8; 2]`. Trusted: the call succeeds exactly when all four bytes are
/// hexadecimal digits, and then each output byte is made of two digits in
/// order, the first of them the more significant.
#[verifier::external_body]
fn decode_hex_word(digits: &[u8; 4]) -> (decoded: Result<[u8; 2], hex::FromHexError>)
    ensures
        decoded is Ok <==> all_hex_digits(digits@),
        decoded matches Ok(bytes) ==> {
            &&& bytes[0] == 16 * hex_digit_value(digits[0]) + hex_digit_value(digits[1])
            &&& bytes[1] == 16 * hex_digit_value(digits[2]) + hex_digit_value(digits[3])
        },
{
    hex::FromHex::from_hex(digits)
}

/// Leading zeros change neither the value of a digit string nor whether it
/// is one.
proof fn lemma_zero_padding(digits: Seq<u8>, padded: Seq<u8>)
    requires
        1 <= digits.len() <= 4,
        padded.len() == 4,
        forall|i: int| 0 <= i < 4 - digits.len() ==> padded[i] == 0x30,
        forall|i: int| 0 <= i < digits.len() ==> padded[4 - digits.len() + i] == digits[i],
    ensures
        all_hex_digits(padded) <==> all_hex_digits(digits),
        hex_value(padded) == hex_value(digits),
        hex_value(padded) == 4096 * hex_digit_value(padded[0]) + 256 * hex_digit_value(padded[1])
            + 16 * hex_digit_value(padded[2]) + hex_digit_value(padded[3]),
        all_hex_digits(padded) ==> 0 <= hex_value(padded) < 0x1_0000,
{
    let n = digits.len() as int;
    if all_hex_digits(padded) {
        assert forall|i: int| 0 <= i < n implies is_hex_digit(#[trigger] digits[i]) by {
            assert(is_hex_digit(padded[4 - n + i]));
        }
    }
    if all_hex_digits(digits) {
        assert forall|i: int| 0 <= i < 4 implies is_hex_digit(#[trigger] padded[i]) by {
            if i >= 4 - n {
                assert(is_hex_digit(digits[i - (4 - n)]));
            }
        }
    }
    let p3 = padded.drop_last();
    let p2 = p3.drop_last();
    let p1 = p2.drop_last();
    let p0 = p1.drop_last();
    assert(p0.len() == 0);
    assert(hex_value(p0) == 0);
    assert(hex_value(p1) == hex_digit_value(padded[0]));
    assert(hex_value(p2) == 16 * hex_value(p1) + hex_digit_value(padded[1]));
    assert(hex_value(p3) == 16 * hex_value(p2) + hex_digit_value(padded[2]));
    assert(hex_value(padded) == 16 * hex_value(p3) + hex_digit_value(padded[3]));
    if n == 4 {
        assert(padded =~= digits);
    } else if n == 3 {
        let d2 = digits.drop_last();
        let d1 = d2.drop_last();
        let d0 = d1.drop_last();
        assert(hex_value(d0) == 0);
        assert(hex_value(d1) == hex_digit_value(digits[0]));
        assert(hex_value(d2) == 16 * hex_value(d1) + hex_digit_value(digits[1]));
        assert(hex_value(digits) == 16 * hex_value(d2) + hex_digit_value(digits[2]));
    } else if n == 2 {
        let d1 = digits.drop_last();
        let d0 = d1.drop_last();
        assert(hex_value(d0) == 0);
        assert(hex_value(d1) == hex_digit_value(digits[0]));
        assert(hex_value(digits) == 16 * hex_value(d1) + hex_digit_value(digits[1]));
    } else {
        let d0 = digits.drop_last();
        assert(hex_value(d0) == 0);
        assert(hex_value(digits) == hex_digit_value(digits[0]));
    }
    if all_hex_digits(padded) {
        assert(is_hex_digit(padded[0]) && is_hex_digit(padded[1]) && is_hex_digit(padded[2])
            && is_hex_digit(padded[3]));
    }
}

impl Address {
    /// Read an address from text: one to four hexadecimal digits, with or
    /// without a leading `0x`. Fewer than four digits are taken as the low
    /// end of the address.
    pub fn parse(text: &str) -> (parsed: Result<Address, AddressError>)
        ensures
            parsed == parse_address(text.spec_bytes()),
    {
        let bytes = text.as_bytes();
        let len = bytes.len();
        let start: usize = if len >= 2 && bytes[0] == 0x30 && bytes[1] == 0x78 {
            2
        } else {
            0
        };
        let count: usize = len - start;
        let ghost digits = digits_of(text.spec_bytes());
        assert(digits.len() == count);
        if count == 0 {
            return Err(AddressError::Empty);
        }
        if count > 4 {
            return Err(AddressError::TooLong);
        }
        let mut padded: [u8; 4] = [0x30u8; 4];
        let lead: usize = 4 - count;
        let mut i: usize = 0;
        while i < count
            invariant
                1 <= count <= 4,
                lead == 4 - count,
                i <= count,
                start + count == len,
                len == bytes@.len(),
                bytes@ == text.spec_bytes(),
                digits == digits_of(text.spec_bytes()),
                digits.len() == count,
                forall|k: int| 0 <= k < count ==> digits[k] == bytes@[start + k],
                forall|k: int| 0 <= k < lead ==> padded[k] == 0x30,
                forall|k: int| 0 <= k < i ==> padded[lead + k] == digits[k],
            decreases count - i,
        {
            padded[lead + i] = bytes[start + i];
            i += 1;
        }
        proof {
            lemma_zero_padding(digits, padded@);
        }
        match decode_hex_word(&padded) {
            Ok(word) => {
                let addr = Address::from_le_bytes(word[1], word[0]);
                assert(addr.0 == hex_value(digits));
                Ok(addr)
            },
            Err(_) => Err(AddressError::InvalidHex),
        }
    }
}

impl core::str::FromStr for Address {
    type Err = AddressError;

    fn from_str(text: &str) -> (parsed: Result<Address, AddressError>)
        ensures
            parsed == parse_address(text.spec_bytes()),
    {
        Address::parse(text)
    }
}

} // verus!
