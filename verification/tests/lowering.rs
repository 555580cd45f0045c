//! Lowering of both surface families into the canonical semantic tree.

use paracell::flow;
use paracell::lower::{lower_flow_block, lower_flow_decl, lower_flow_expr, lower_flow_item,
    lower_flow_type, lower_sexpr_expr, lower_sexpr_item, lower_sexpr_type, ItemKind, Lowered,
    LowerError};
use paracell::natlit::NatParseError;
use paracell::sem;
use paracell::sexpr;

fn fident(s: &str) -> flow::Ident {
    flow::Ident { lit: s.to_string() }
}

fn fident_item(s: &str) -> flow::Item {
    flow::Item::Ident(fident(s))
}

fn fnat(v: u128) -> flow::Item {
    flow::Item::Nat(flow::Nat { val: v })
}

fn ftyped(name: &str, ty: &str) -> flow::TypedIdent {
    flow::TypedIdent { ident: fident(name), ty: fident_item(ty) }
}

fn sident_item(s: &str) -> sexpr::Item {
    sexpr::Item::Ident(sexpr::Ident { lit: s.to_string() })
}

fn snat(v: u128) -> sexpr::Item {
    sexpr::Item::Nat(sexpr::Nat { val: v })
}

fn sfield(name: &str, ty: &str) -> sexpr::Item {
    sexpr::Item::Field(Box::new(sexpr::Field {
        ident: sexpr::Ident { lit: name.to_string() },
        ty: sident_item(ty),
    }))
}

fn expr_nat_val(e: &sem::Expr) -> u128 {
    match e {
        sem::Expr::Nat(n) => n.val.clone().unwrap(),
        _ => panic!("expected a literal"),
    }
}

#[test]
fn test_parse() {}

#[test]
fn record_field_order_is_preserved_by_both_syntaxes() {
    let from_flow = lower_flow_type(&flow::Item::RecordType(Box::new(flow::RecordType {
        fields: vec![ftyped("A", "Nat"), ftyped("B", "Nat")],
    })))
    .unwrap();

    let from_sexpr = lower_sexpr_type(&sexpr::Item::List(sexpr::List {
        lead: sexpr::ListLead::Record,
        items: vec![sfield("A", "Nat"), sfield("B", "Nat")],
    }))
    .unwrap();

    for t in [&from_flow, &from_sexpr] {
        match t {
            sem::Type::Record(r) => {
                assert_eq!(r.kind, sem::RecordTypeKind::Struct);
                assert_eq!(r.idents.len(), 2);
                assert_eq!(r.idents[0].lit, "A");
                assert_eq!(r.idents[1].lit, "B");
                assert_eq!(r.fields.len(), 2);
                for f in &r.fields {
                    match f {
                        sem::Type::Ident(i) => assert_eq!(i.lit, "Nat"),
                        _ => panic!("expected a type name"),
                    }
                }
            }
            _ => panic!("expected a record type"),
        }
    }
}

#[test]
fn union_variant_order_is_preserved() {
    let t = lower_flow_type(&flow::Item::UnionType(Box::new(flow::UnionType {
        variants: vec![ftyped("A", "Nat"), ftyped("B", "Nat")],
    })))
    .unwrap();
    match t {
        sem::Type::Union(u) => {
            assert_eq!(u.idents[0].lit, "A");
            assert_eq!(u.idents[1].lit, "B");
        }
        _ => panic!("expected a union type"),
    }
}

#[test]
fn match_pair_order_is_preserved() {
    let e = lower_flow_expr(&flow::Item::Match(Box::new(flow::Match {
        expr: fident_item("nat"),
        patterns: vec![
            flow::Pattern { pattern: fnat(1), expr: fnat(2) },
            flow::Pattern { pattern: fnat(3), expr: fnat(4) },
        ],
    })))
    .unwrap();
    match e {
        sem::Expr::Match(m) => {
            assert_eq!(m.arms.len(), 2);
            assert_eq!(expr_nat_val(&m.arms[0].pattern), 1);
            assert_eq!(expr_nat_val(&m.arms[0].result), 2);
            assert_eq!(expr_nat_val(&m.arms[1].pattern), 3);
            assert_eq!(expr_nat_val(&m.arms[1].result), 4);
        }
        _ => panic!("expected a match"),
    }
}

#[test]
fn identical_match_pairs_are_not_deduplicated() {
    let e = lower_flow_expr(&flow::Item::Match(Box::new(flow::Match {
        expr: fident_item("nat"),
        patterns: vec![
            flow::Pattern { pattern: fnat(1), expr: fnat(2) },
            flow::Pattern { pattern: fnat(1), expr: fnat(2) },
        ],
    })))
    .unwrap();
    match e {
        sem::Expr::Match(m) => {
            assert_eq!(m.arms.len(), 2);
            assert_eq!(expr_nat_val(&m.arms[0].pattern), 1);
            assert_eq!(expr_nat_val(&m.arms[1].pattern), 1);
        }
        _ => panic!("expected a match"),
    }
}

#[test]
fn block_with_trailing_expression_has_a_value() {
    let b = lower_flow_block(&flow::Block {
        elems: vec![
            flow::Item::LetDecl(Box::new(flow::LetDecl { ident: fident("v"), expr: fnat(1) })),
            fident_item("v"),
        ],
    })
    .unwrap();
    assert_eq!(b.stmts.len(), 1);
    match b.expr {
        Some(sem::Expr::Ident(i)) => assert_eq!(i.lit, "v"),
        _ => panic!("expected a trailing value"),
    }
}

#[test]
fn block_with_trailing_declaration_has_no_value() {
    let b = lower_flow_block(&flow::Block {
        elems: vec![
            fident_item("v"),
            flow::Item::LetDecl(Box::new(flow::LetDecl { ident: fident("v"), expr: fnat(1) })),
        ],
    })
    .unwrap();
    assert_eq!(b.stmts.len(), 2);
    assert!(b.expr.is_none());
}

#[test]
fn empty_block_has_no_value() {
    let b = lower_flow_block(&flow::Block { elems: vec![] }).unwrap();
    assert_eq!(b.stmts.len(), 0);
    assert!(b.expr.is_none());
}

#[test]
fn logical_not_is_an_unsupported_construct() {
    let r = lower_flow_expr(&flow::Item::UnaryOpExpr(Box::new(flow::UnaryOpExpr {
        op: flow::UnaryOperator::Not,
        expr: fident_item("x"),
    })));
    assert!(matches!(r, Err(LowerError::NotOperator)));

    let r = lower_sexpr_expr(&sexpr::Item::UnaryOpExpr(Box::new(sexpr::UnaryOpExpr {
        op: sexpr::UnaryOperator::Not,
        expr: sident_item("x"),
    })));
    assert!(matches!(r, Err(LowerError::NotOperator)));
}

#[test]
fn pipe_is_an_unsupported_construct() {
    let r = lower_flow_expr(&flow::Item::BinaryOpExpr(Box::new(flow::BinaryOpExpr {
        op: flow::BinaryOperator::Pipe,
        left: fnat(1),
        right: fnat(2),
    })));
    assert!(matches!(r, Err(LowerError::PipeOperator)));
}

#[test]
fn return_list_is_an_unsupported_construct() {
    let r = lower_sexpr_expr(&sexpr::Item::List(sexpr::List {
        lead: sexpr::ListLead::Return,
        items: vec![snat(1)],
    }));
    assert!(matches!(r, Err(LowerError::ReturnList)));
}

#[test]
fn apply_arguments_become_a_positional_record() {
    let e = lower_flow_expr(&flow::Item::ApplyExpr(Box::new(flow::ApplyExpr {
        func: fident_item("Invoke"),
        params: flow::Tuple {
            elems: vec![
                fnat(1),
                fnat(2),
                flow::Item::BinaryOpExpr(Box::new(flow::BinaryOpExpr {
                    op: flow::BinaryOperator::Add,
                    left: fnat(3),
                    right: fnat(4),
                })),
            ],
        },
    })))
    .unwrap();
    match e {
        sem::Expr::Apply(a) => {
            match &a.func {
                sem::Expr::Ident(i) => assert_eq!(i.lit, "Invoke"),
                _ => panic!("expected a callee name"),
            }
            assert_eq!(a.params.kind, sem::RecordTypeKind::Tuple);
            assert_eq!(a.params.idents.len(), 3);
            assert_eq!(a.params.idents[0].lit, "0");
            assert_eq!(a.params.idents[1].lit, "1");
            assert_eq!(a.params.idents[2].lit, "2");
            assert_eq!(expr_nat_val(&a.params.exprs[0]), 1);
            assert_eq!(expr_nat_val(&a.params.exprs[1]), 2);
        }
        _ => panic!("expected an apply"),
    }
}

#[test]
fn positional_names_count_in_decimal() {
    let args: Vec<flow::Item> = (0..12).map(|v| fnat(v)).collect();
    let e = lower_flow_expr(&flow::Item::ApplyExpr(Box::new(flow::ApplyExpr {
        func: fident_item("f"),
        params: flow::Tuple { elems: args },
    })))
    .unwrap();
    match e {
        sem::Expr::Apply(a) => {
            assert_eq!(a.params.idents[9].lit, "9");
            assert_eq!(a.params.idents[10].lit, "10");
            assert_eq!(a.params.idents[11].lit, "11");
        }
        _ => panic!("expected an apply"),
    }
}

#[test]
fn type_tuple_becomes_a_positional_record() {
    let t = lower_flow_type(&flow::Item::TypeTuple(Box::new(flow::TypeTuple {
        elems: vec![fident_item("Nat"), fident_item("Bit")],
    })))
    .unwrap();
    match t {
        sem::Type::Record(r) => {
            assert_eq!(r.kind, sem::RecordTypeKind::Tuple);
            assert_eq!(r.idents[0].lit, "0");
            assert_eq!(r.idents[1].lit, "1");
        }
        _ => panic!("expected a record type"),
    }
}

#[test]
fn let_bound_function_literal_becomes_a_function_declaration() {
    let d = lower_flow_decl(&flow::Item::LetDecl(Box::new(flow::LetDecl {
        ident: fident("Divide"),
        expr: flow::Item::Func(Box::new(flow::Func {
            params: vec![ftyped("a", "Nat"), ftyped("b", "Nat")],
            result: fident_item("Nat"),
            block: flow::Block {
                elems: vec![flow::Item::BinaryOpExpr(Box::new(flow::BinaryOpExpr {
                    op: flow::BinaryOperator::Add,
                    left: fident_item("a"),
                    right: fident_item("b"),
                }))],
            },
        })),
    })))
    .unwrap();
    match d {
        sem::Decl::Func(f) => {
            assert_eq!(f.ident.lit, "Divide");
            assert_eq!(f.params.kind, sem::RecordTypeKind::Struct);
            assert_eq!(f.params.idents[0].lit, "a");
            assert_eq!(f.params.idents[1].lit, "b");
            match f.result {
                sem::Type::Ident(i) => assert_eq!(i.lit, "Nat"),
                _ => panic!("expected a result type name"),
            }
            assert_eq!(f.block.stmts.len(), 0);
            assert!(f.block.expr.is_some());
        }
        _ => panic!("expected a function declaration"),
    }
}

#[test]
fn type_alias_keeps_origin_and_alias() {
    let d = lower_flow_decl(&flow::Item::TypeAliasDecl(Box::new(flow::TypeAliasDecl {
        ident: fident("Word"),
        ty: fident_item("Nat"),
    })))
    .unwrap();
    match d {
        sem::Decl::TypeAlias(a) => {
            assert_eq!(a.alias.lit, "Word");
            match a.origin {
                sem::Type::Ident(i) => assert_eq!(i.lit, "Nat"),
                _ => panic!("expected the aliased type name"),
            }
        }
        _ => panic!("expected a type alias"),
    }
}

#[test]
fn literals_lower_to_successful_outcomes() {
    let e = lower_flow_expr(&fnat(5)).unwrap();
    assert_eq!(expr_nat_val(&e), 5);
    let e = lower_sexpr_expr(&snat(7)).unwrap();
    assert_eq!(expr_nat_val(&e), 7);
}

#[test]
fn canonical_literal_stores_the_decoding_outcome() {
    assert_eq!(sem::Nat::from_text("0xEF").val, Ok(239));
    assert_eq!(sem::Nat::from_text("0x").val, Err(NatParseError::Malformed));
    assert_eq!(
        sem::Nat::from_text("0x100000000000000000000000000000000").val,
        Err(NatParseError::Overflow)
    );
}

#[test]
fn misplaced_items_name_their_kind() {
    assert!(matches!(
        lower_flow_type(&fnat(1)),
        Err(LowerError::TypeExpected(ItemKind::Nat))
    ));
    assert!(matches!(
        lower_flow_expr(&flow::Item::RecordType(Box::new(flow::RecordType { fields: vec![] }))),
        Err(LowerError::ExprExpected(ItemKind::RecordType))
    ));
    assert!(matches!(
        lower_flow_decl(&fnat(1)),
        Err(LowerError::DeclExpected(ItemKind::Nat))
    ));
    // a failure deep in a record field names the offending node
    assert!(matches!(
        lower_flow_type(&flow::Item::RecordType(Box::new(flow::RecordType {
            fields: vec![flow::TypedIdent { ident: fident("A"), ty: fnat(1) }],
        }))),
        Err(LowerError::TypeExpected(ItemKind::Nat))
    ));
}

#[test]
fn malformed_lists_are_rejected_by_shape() {
    assert!(matches!(
        lower_sexpr_type(&sexpr::Item::List(sexpr::List {
            lead: sexpr::ListLead::Record,
            items: vec![snat(1)],
        })),
        Err(LowerError::FieldExpected(ItemKind::Nat))
    ));
    assert!(matches!(
        lower_sexpr_type(&sexpr::Item::List(sexpr::List {
            lead: sexpr::ListLead::Union,
            items: vec![sfield("A", "Nat")],
        })),
        Err(LowerError::VariantExpected(ItemKind::Field))
    ));
    assert!(matches!(
        lower_sexpr_type(&sexpr::Item::List(sexpr::List {
            lead: sexpr::ListLead::Func,
            items: vec![],
        })),
        Err(LowerError::FuncShape)
    ));
    assert!(matches!(
        lower_sexpr_expr(&sexpr::Item::List(sexpr::List {
            lead: sexpr::ListLead::Match,
            items: vec![sident_item("x"), snat(1)],
        })),
        Err(LowerError::MatchShape)
    ));
    assert!(matches!(
        lower_sexpr_expr(&sexpr::Item::List(sexpr::List {
            lead: sexpr::ListLead::Apply,
            items: vec![],
        })),
        Err(LowerError::ExprExpected(ItemKind::List))
    ));
}

#[test]
fn sexpr_match_list_lowers_in_pairs() {
    let e = lower_sexpr_expr(&sexpr::Item::List(sexpr::List {
        lead: sexpr::ListLead::Match,
        items: vec![sident_item("nat"), snat(1), snat(2), snat(3), snat(4)],
    }))
    .unwrap();
    match e {
        sem::Expr::Match(m) => {
            assert_eq!(m.arms.len(), 2);
            assert_eq!(expr_nat_val(&m.arms[0].pattern), 1);
            assert_eq!(expr_nat_val(&m.arms[0].result), 2);
            assert_eq!(expr_nat_val(&m.arms[1].pattern), 3);
            assert_eq!(expr_nat_val(&m.arms[1].result), 4);
        }
        _ => panic!("expected a match"),
    }
}

#[test]
fn operators_map_to_their_canonical_counterparts() {
    let e = lower_flow_expr(&flow::Item::UnaryOpExpr(Box::new(flow::UnaryOpExpr {
        op: flow::UnaryOperator::Invert,
        expr: fnat(1),
    })))
    .unwrap();
    match e {
        sem::Expr::Unary(u) => {
            assert!(matches!(u.op, sem::UnaryOperator::Invert));
            assert_eq!(expr_nat_val(&u.expr), 1);
        }
        _ => panic!("expected a unary expression"),
    }

    let e = lower_sexpr_expr(&sexpr::Item::BinaryOpExpr(Box::new(sexpr::BinaryOpExpr {
        op: sexpr::BinaryOperator::Mod,
        left: snat(7),
        right: snat(3),
    })))
    .unwrap();
    match e {
        sem::Expr::Binary(b) => {
            assert!(matches!(b.op, sem::BinaryOperator::Mod));
            assert_eq!(expr_nat_val(&b.left), 7);
            assert_eq!(expr_nat_val(&b.right), 3);
        }
        _ => panic!("expected a binary expression"),
    }
}

#[test]
fn tuples_lower_elementwise_in_order() {
    let e = lower_flow_expr(&flow::Item::Tuple(flow::Tuple {
        elems: vec![fnat(10), fnat(20), fnat(30)],
    }))
    .unwrap();
    match e {
        sem::Expr::Tuple(t) => {
            assert_eq!(t.exprs.len(), 3);
            assert_eq!(expr_nat_val(&t.exprs[0]), 10);
            assert_eq!(expr_nat_val(&t.exprs[1]), 20);
            assert_eq!(expr_nat_val(&t.exprs[2]), 30);
        }
        _ => panic!("expected a tuple"),
    }
}

#[test]
fn a_root_lowers_by_its_kind() {
    let d = lower_flow_item(&flow::Item::LetDecl(Box::new(flow::LetDecl {
        ident: fident("v"),
        expr: fnat(1),
    })))
    .unwrap();
    assert!(matches!(d, Lowered::Decl(sem::Decl::Let(_))));

    let t = lower_flow_item(&flow::Item::RecordType(Box::new(flow::RecordType {
        fields: vec![ftyped("A", "Nat")],
    })))
    .unwrap();
    assert!(matches!(t, Lowered::Type(sem::Type::Record(_))));

    let e = lower_flow_item(&fnat(3)).unwrap();
    assert!(matches!(e, Lowered::Expr(sem::Expr::Nat(_))));

    let s = lower_sexpr_item(&sexpr::Item::List(sexpr::List {
        lead: sexpr::ListLead::Record,
        items: vec![sfield("A", "Nat")],
    }))
    .unwrap();
    assert!(matches!(s, Lowered::Type(sem::Type::Record(_))));

    let s = lower_sexpr_item(&snat(2)).unwrap();
    assert!(matches!(s, Lowered::Expr(sem::Expr::Nat(_))));

    let s = lower_sexpr_item(&sexpr::Item::VarDecl(Box::new(sexpr::VarDecl {
        ident: sexpr::Ident { lit: "v".to_string() },
        expr: snat(1),
    })))
    .unwrap();
    assert!(matches!(s, Lowered::Decl(sem::Decl::Var(_))));
}

#[test]
fn sexpr_func_list_lowers_to_a_function_type() {
    let t = lower_sexpr_type(&sexpr::Item::List(sexpr::List {
        lead: sexpr::ListLead::Func,
        items: vec![sfield("a", "Nat"), sfield("b", "Nat"), sident_item("Nat")],
    }))
    .unwrap();
    match t {
        sem::Type::Func(f) => {
            assert_eq!(f.params.idents.len(), 2);
            assert_eq!(f.params.idents[0].lit, "a");
            assert_eq!(f.params.idents[1].lit, "b");
            match &f.result {
                sem::Type::Ident(i) => assert_eq!(i.lit, "Nat"),
                _ => panic!("expected a result type name"),
            }
        }
        _ => panic!("expected a function type"),
    }
}
