//! Natural-literal decoding across the four bases.

use paracell::natlit::{parse_nat, NatParseError};

#[test]
fn test_parse_nat() {
    let hex = parse_nat("0xEF").unwrap();
    let dec = parse_nat("1024").unwrap();
    let oct = parse_nat("0o644").unwrap();
    let bin = parse_nat("0b1001").unwrap();
    assert_eq!(hex, 0xEF);
    assert_eq!(dec, 1024);
    assert_eq!(oct, 0o644);
    assert_eq!(bin, 0b1001);
}

#[test]
fn decoding_is_exact_in_every_base() {
    assert_eq!(parse_nat("0xEF").unwrap(), 239);
    assert_eq!(parse_nat("1024").unwrap(), 1024);
    assert_eq!(parse_nat("0o644").unwrap(), 420);
    assert_eq!(parse_nat("0b1001").unwrap(), 9);
}

#[test]
fn lower_and_upper_hex_digits_decode() {
    assert_eq!(parse_nat("0xef").unwrap(), 239);
    assert_eq!(parse_nat("0xEf").unwrap(), 239);
    assert_eq!(parse_nat("0").unwrap(), 0);
    assert_eq!(parse_nat("00007").unwrap(), 7);
}

#[test]
fn empty_digit_sequences_are_malformed() {
    assert_eq!(parse_nat(""), Err(NatParseError::Malformed));
    assert_eq!(parse_nat("0x"), Err(NatParseError::Malformed));
    assert_eq!(parse_nat("0o"), Err(NatParseError::Malformed));
    assert_eq!(parse_nat("0b"), Err(NatParseError::Malformed));
}

#[test]
fn digits_outside_the_base_are_malformed() {
    assert_eq!(parse_nat("0b102"), Err(NatParseError::Malformed));
    assert_eq!(parse_nat("0o648"), Err(NatParseError::Malformed));
    assert_eq!(parse_nat("12a9"), Err(NatParseError::Malformed));
    assert_eq!(parse_nat("0xG1"), Err(NatParseError::Malformed));
    assert_eq!(parse_nat("-3"), Err(NatParseError::Malformed));
}

#[test]
fn values_beyond_the_widest_machine_form_overflow() {
    // one digit past u128::MAX
    assert_eq!(
        parse_nat("0x100000000000000000000000000000000"),
        Err(NatParseError::Overflow)
    );
    assert_eq!(
        parse_nat("340282366920938463463374607431768211456"),
        Err(NatParseError::Overflow)
    );
    // exactly u128::MAX still decodes
    assert_eq!(
        parse_nat("0xFFFFFFFFFFFFFFFFFFFFFFFFFFFFFFFF").unwrap(),
        u128::MAX
    );
}

#[test]
fn malformed_digits_take_precedence_over_overflow() {
    // far too large, but the stray letter makes it malformed
    assert_eq!(
        parse_nat("999999999999999999999999999999999999999z"),
        Err(NatParseError::Malformed)
    );
}
