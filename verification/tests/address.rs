use nes::mem::address::AddressError;
use nes::mem::Address;

#[test]
fn test_address_parsing() {
    let addr: Address = "0x0400".parse().unwrap();
    assert_eq!(addr, Address(0x400));

    let truncated: Address = "0x400".parse().unwrap();
    assert_eq!(truncated, Address(0x400));

    let one_byte: Address = "0x42".parse().unwrap();
    assert_eq!(one_byte, Address(0x42));

    let truncated_one_byte: Address = "0x042".parse().unwrap();
    assert_eq!(truncated_one_byte, Address(0x042));

    let no_hex_prefix: Address = "400".parse().unwrap();
    assert_eq!(no_hex_prefix, Address(0x400));

    let too_big: Result<Address, AddressError> = "0xDEADBEEF".parse();
    assert!(too_big.is_err());

    let not_a_number: Result<Address, AddressError> = "invalid".parse();
    assert!(not_a_number.is_err());
}

#[test]
fn parse_decodes_every_digit() {
    assert_eq!(Address::parse("0xABCD"), Ok(Address(0xABCD)));
    assert_eq!(Address::parse("abcd"), Ok(Address(0xABCD)));
    assert_eq!(Address::parse("0x1234"), Ok(Address(0x1234)));
    assert_eq!(Address::parse("FfFf"), Ok(Address(0xFFFF)));
    assert_eq!(Address::parse("0"), Ok(Address(0)));
    assert_eq!(Address::parse("9"), Ok(Address(9)));
    assert_eq!(Address::parse("0x3699"), Ok(Address(0x3699)));
}

#[test]
fn address_parse_errors() {
    assert_eq!(Address::parse(""), Err(AddressError::Empty));
    assert_eq!(Address::parse("0x"), Err(AddressError::Empty));
    assert_eq!(Address::parse("12345"), Err(AddressError::TooLong));
    assert_eq!(Address::parse("0xDEADBEEF"), Err(AddressError::TooLong));
    assert_eq!(Address::parse("invalid"), Err(AddressError::TooLong));
    assert_eq!(Address::parse("12g4"), Err(AddressError::InvalidHex));
    assert_eq!(Address::parse("0X12"), Err(AddressError::InvalidHex));
    assert_eq!(Address::parse("-1"), Err(AddressError::InvalidHex));
    assert_eq!(Address::parse("xyz"), Err(AddressError::InvalidHex));
    assert_eq!(Address::parse(" 12"), Err(AddressError::InvalidHex));
}

#[test]
fn arithmetic_wraps() {
    assert_eq!(Address(0xFFFF) + 1u8, Address(0x0000));
    assert_eq!(Address(0xFFFF) + 2u16, Address(0x0001));
    assert_eq!(Address(0x0000) - 1u8, Address(0xFFFF));
    assert_eq!(Address(0x0001) - 2u16, Address(0xFFFF));
    assert_eq!(Address(0x1234) + 0x10u8, Address(0x1244));
    assert_eq!(Address(0x1234) + 0x1000usize, Address(0x2234));
    assert_eq!(Address(0x1234) - 0x1000usize, Address(0x0234));
}

#[test]
fn signed_offsets_are_sign_extended() {
    assert_eq!(Address(0x0600) + (-2i8), Address(0x05FE));
    assert_eq!(Address(0x0600) + 127i8, Address(0x067F));
    assert_eq!(Address(0x0600) + (-128i8), Address(0x0580));
    assert_eq!(Address(0x0000) + (-1i8), Address(0xFFFF));
    assert_eq!(Address(0x0600) - (-128i8), Address(0x0680));
    assert_eq!(Address(0x0600) - 1i8, Address(0x05FF));
    assert_eq!(Address(0x0600) + (-0x0601i16), Address(0xFFFF));
    assert_eq!(Address(0x0600) - i16::MIN, Address(0x8600));
    assert_eq!(Address(0x0600) + i16::MIN, Address(0x8600));
    assert_eq!(Address(0x0010).offset(-0x11), Address(0xFFFF));
}

#[test]
fn assigning_operators() {
    let mut addr = Address(0xFFFE);
    addr += 1u8;
    assert_eq!(addr, Address(0xFFFF));
    addr += 1u16;
    assert_eq!(addr, Address(0x0000));
    addr -= 1u8;
    assert_eq!(addr, Address(0xFFFF));
    addr -= 0xFFu16;
    assert_eq!(addr, Address(0xFF00));
    addr += -1i8;
    assert_eq!(addr, Address(0xFEFF));
    addr -= -1i8;
    assert_eq!(addr, Address(0xFF00));
    addr += -0x100i16;
    assert_eq!(addr, Address(0xFE00));
    addr -= -0x100i16;
    assert_eq!(addr, Address(0xFF00));
}

#[test]
fn little_endian_bytes() {
    assert_eq!(Address(0x1234).to_le_bytes(), [0x34, 0x12]);
    assert_eq!(Address::from([0x34u8, 0x12u8]), Address(0x1234));
    assert_eq!(Address::from_le_bytes(0xFF, 0x00), Address(0x00FF));
    assert_eq!(Address::from(0x42u8), Address(0x0042));
    assert_eq!(Address::from(0xBEEFu16), Address(0xBEEF));
    assert_eq!(Address(0xBEEF).as_usize(), 0xBEEF);
}

#[test]
fn alias_keeps_low_bits() {
    assert_eq!(Address(0x1234).alias(11), Address(0x0234));
    assert_eq!(Address(0x0800).alias(11), Address(0x0000));
    assert_eq!(Address(0x3FFF).alias(3), Address(0x0007));
    assert_eq!(Address(0x3F1F).alias(5), Address(0x001F));
    assert_eq!(Address(0xFFFF).alias(0), Address(0x0000));
    assert_eq!(Address(0xFFFF).alias(15), Address(0x7FFF));
    assert_eq!(Address(0xFFFF).alias(16), Address(0xFFFF));
    assert_eq!(Address(0xFFFF).alias(200), Address(0xFFFF));
}

#[test]
fn addresses_are_ordered() {
    assert!(Address(0x1FFF) < Address(0x2000));
    assert!(Address(0x4020) >= Address(0x4020));
    assert_eq!(Address::default(), Address(0));
}

#[test]
fn addresses_as_text() {
    assert_eq!(Address(0x0400).to_string(), "0x0400");
    assert_eq!(Address(0xBEEF).to_string(), "0xBEEF");
    assert_eq!(Address(0x0000).to_string(), "0x0000");
    assert_eq!(Address(0x00A9).to_string(), "0x00A9");
}
