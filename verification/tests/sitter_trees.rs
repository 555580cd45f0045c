//! The tree-sitter-style tree family: base-tagged literals and the small
//! type/expression inventory.

use paracell::natlit::parse_nat;
use paracell::sitter::{Expr, Ident, Nat, StructType, TopLevel, Type};

#[test]
fn flow_test_parse_nat() {
    let v = match Expr::Nat(Nat::Hex(parse_nat("0xEF").unwrap() as usize)) {
        Expr::Nat(v) => v.to_usize(),
        _ => panic!(),
    };
    assert_eq!(v, 0xEF);
    let v = match Expr::Nat(Nat::Dec(parse_nat("1024").unwrap() as usize)) {
        Expr::Nat(v) => v.to_usize(),
        _ => panic!(),
    };
    assert_eq!(v, 1024);
    let v = match Expr::Nat(Nat::Oct(parse_nat("0o644").unwrap() as usize)) {
        Expr::Nat(v) => v.to_usize(),
        _ => panic!(),
    };
    assert_eq!(v, 0o644);
    let v = match Expr::Nat(Nat::Bin(parse_nat("0b1001").unwrap() as usize)) {
        Expr::Nat(v) => v.to_usize(),
        _ => panic!(),
    };
    assert_eq!(v, 0b1001);
}

#[test]
fn test_parse_ident() {
    let v = match Expr::Ident(Ident { ident: "_IdentOfRecord32Bit_".to_string() }) {
        Expr::Ident(v) => v.ident,
        _ => panic!(),
    };
    assert_eq!(v, "_IdentOfRecord32Bit_");
}

#[test]
fn test_parse_type() {
    let top: Result<TopLevel, ()> = Ok(TopLevel::Type(Type::Struct(StructType {})));
    match top {
        Ok(_v) => {}
        Err(e) => panic!("{:?}", e),
    }
}

#[test]
fn to_usize_strips_the_base_tag() {
    assert_eq!(Nat::Hex(239).to_usize(), 239);
    assert_eq!(Nat::Dec(1024).to_usize(), 1024);
    assert_eq!(Nat::Oct(420).to_usize(), 420);
    assert_eq!(Nat::Bin(9).to_usize(), 9);
}
