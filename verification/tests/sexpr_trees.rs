//! Variant narrowing over trees of the prefix/list family, on the same
//! shapes the prefix/list grammar produces.

#![allow(non_snake_case)]

use paracell::sexpr::{BinaryOpExpr, BinaryOperator, Field, Ident, Item, LetDecl, List,
    ListLead, Nat, UnaryOpExpr, UnaryOperator, VarDecl, Variant};

fn ident(s: &str) -> Ident {
    Ident { lit: s.to_string() }
}

fn field(name: &str, ty: &str) -> Item {
    Item::Field(Box::new(Field {
        ident: ident(name),
        ty: Item::Ident(ident(ty)),
    }))
}

#[test]
fn test_parse_item() {
    let item = Item::List(List {
        lead: ListLead::Record,
        items: vec![field("A", "Nat"), field("B", "Nat")],
    });

    let mut v = item.as_List().unwrap();

    match v.lead {
        ListLead::Record => {}
        _ => panic!(),
    }

    let field2 = v.items.pop().unwrap().as_Field().unwrap();
    let field1 = v.items.pop().unwrap().as_Field().unwrap();

    assert_eq!(field1.ident.lit, "A");
    assert_eq!(field2.ident.lit, "B");

    assert_eq!(field1.ty.as_Ident().unwrap().lit, "Nat");
    assert_eq!(field2.ty.as_Ident().unwrap().lit, "Nat");
}

#[test]
fn narrowing_list_family_variants() {
    let n = Item::Nat(Nat { val: 5 });
    assert_eq!(n.as_Nat().unwrap().val, 5);
    assert!(Item::Ident(ident("x")).as_Nat().is_none());
    assert_eq!(Item::Ident(ident("x")).as_Ident().unwrap().lit, "x");
    assert!(field("A", "Nat").as_Field().is_some());
    assert!(field("A", "Nat").as_Variant().is_none());
    assert!(Item::Variant(Box::new(Variant {
        ident: ident("A"),
        ty: Item::Ident(ident("Nat")),
    }))
    .as_Variant()
    .is_some());
    assert!(Item::LetDecl(Box::new(LetDecl {
        ident: ident("v"),
        expr: Item::Nat(Nat { val: 1 }),
    }))
    .as_LetDecl()
    .is_some());
    assert!(Item::VarDecl(Box::new(VarDecl {
        ident: ident("v"),
        expr: Item::Nat(Nat { val: 1 }),
    }))
    .as_VarDecl()
    .is_some());
    assert!(Item::UnaryOpExpr(Box::new(UnaryOpExpr {
        op: UnaryOperator::Invert,
        expr: Item::Nat(Nat { val: 1 }),
    }))
    .as_UnaryOpExpr()
    .is_some());
    assert!(Item::BinaryOpExpr(Box::new(BinaryOpExpr {
        op: BinaryOperator::Add,
        left: Item::Nat(Nat { val: 1 }),
        right: Item::Nat(Nat { val: 2 }),
    }))
    .as_BinaryOpExpr()
    .is_some());
    assert!(Item::Nat(Nat { val: 5 }).as_List().is_none());
}
