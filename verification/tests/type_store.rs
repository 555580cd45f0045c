//! The shared, mutable, possibly recursive type graph.

use paracell::typ::{func_eq, type_eq, FuncType, Nat, PrimitiveType, RecordHandle, RecordType,
    ResolveError, StateType, Type, TypeStore, UnionHandle};

fn nat_ty() -> Type {
    Type::Primitive(PrimitiveType::Nat(Nat { width: None }))
}

fn nat_w(w: usize) -> Type {
    Type::Primitive(PrimitiveType::Nat(Nat { width: Some(w) }))
}

fn named(n: &str, t: Type) -> (Option<String>, Type) {
    (Some(n.to_string()), t)
}

#[test]
fn structural_equality_is_order_independent_over_names() {
    let mut s = TypeStore::new();
    let ab = s.create_record(vec![named("A", nat_ty()), named("B", nat_ty())]);
    let ba = s.create_record(vec![named("B", nat_ty()), named("A", nat_ty())]);
    assert!(s.record_eq(ab, ba));
    assert!(s.record_eq(ba, ab));
}

#[test]
fn structural_equality_distinguishes_field_types_and_names() {
    let mut s = TypeStore::new();
    let a8 = s.create_record(vec![named("A", nat_w(8))]);
    let a16 = s.create_record(vec![named("A", nat_w(16))]);
    let b8 = s.create_record(vec![named("B", nat_w(8))]);
    let a8_again = s.create_record(vec![named("A", nat_w(8))]);
    assert!(!s.record_eq(a8, a16));
    assert!(!s.record_eq(a8, b8));
    assert!(s.record_eq(a8, a8_again));
}

#[test]
fn a_handle_is_always_compatible_with_itself() {
    let mut s = TypeStore::new();
    let h = s.create_record(vec![named("A", nat_ty())]);
    assert!(s.record_eq(h, h));
    let u = s.create_union(vec![nat_w(8)]);
    assert!(s.union_eq(u, u));
}

#[test]
fn extension_is_visible_through_every_reference() {
    let mut s = TypeStore::new();
    // forward declaration: an empty aggregate, shared before completion
    let declared = s.create_record(vec![]);
    let shared_elsewhere = declared;
    assert_eq!(
        s.resolve_field(shared_elsewhere, "Size"),
        Err(ResolveError::FieldNotFound)
    );
    // complete the record through the first reference
    s.extend_record(declared, vec![named("Size", nat_w(32))]);
    // the name added after sharing resolves through the other reference
    assert_eq!(s.resolve_field(shared_elsewhere, "Size"), Ok(0));
}

#[test]
fn extension_keeps_earlier_fields_and_appends() {
    let mut s = TypeStore::new();
    let h = s.create_record(vec![named("A", nat_w(8))]);
    s.extend_record(h, vec![named("B", nat_w(16)), (None, nat_w(24))]);
    assert_eq!(s.resolve_field(h, "A"), Ok(0));
    assert_eq!(s.resolve_field(h, "B"), Ok(1));
    assert_eq!(s.resolve_field(h, "C"), Err(ResolveError::FieldNotFound));
}

#[test]
fn a_later_field_shadows_an_earlier_name() {
    let mut s = TypeStore::new();
    let h = s.create_record(vec![named("A", nat_w(8))]);
    s.extend_record(h, vec![named("A", nat_w(16))]);
    assert_eq!(s.resolve_field(h, "A"), Ok(1));
}

#[test]
fn a_record_may_contain_a_field_of_its_own_type() {
    let mut s = TypeStore::new();
    let h = s.create_record(vec![]);
    s.extend_record(h, vec![named("Value", nat_ty()), named("Next", Type::Record(h))]);
    assert_eq!(s.resolve_field(h, "Next"), Ok(1));
    assert!(s.record_eq(h, h));
}

#[test]
fn mutually_recursive_records_reference_each_other() {
    let mut s = TypeStore::new();
    let a = s.create_record(vec![]);
    let b = s.create_record(vec![named("Peer", Type::Record(a))]);
    s.extend_record(a, vec![named("Peer", Type::Record(b))]);
    assert_eq!(s.resolve_field(a, "Peer"), Ok(0));
    assert_eq!(s.resolve_field(b, "Peer"), Ok(0));
}

#[test]
fn unions_match_members_by_shape_in_order() {
    let mut s = TypeStore::new();
    let u1 = s.create_union(vec![nat_w(8), nat_w(16)]);
    let u2 = s.create_union(vec![nat_w(8), nat_w(16)]);
    let u3 = s.create_union(vec![nat_w(16), nat_w(8)]);
    assert!(s.union_eq(u1, u2));
    assert!(!s.union_eq(u1, u3));
}

#[test]
fn union_extension_is_visible_through_every_reference() {
    let mut s = TypeStore::new();
    let u = s.create_union(vec![nat_w(8)]);
    let shared = u;
    s.extend_union(u, vec![nat_w(16)]);
    let grown = s.create_union(vec![nat_w(8), nat_w(16)]);
    assert!(s.union_eq(shared, grown));
}

#[test]
fn equality_of_nested_aggregates_goes_by_handle() {
    let mut s = TypeStore::new();
    let inner1 = s.create_record(vec![named("X", nat_ty())]);
    let inner2 = s.create_record(vec![named("X", nat_ty())]);
    let via1 = s.create_record(vec![named("Inner", Type::Record(inner1))]);
    let via1_again = s.create_record(vec![named("Inner", Type::Record(inner1))]);
    let via2 = s.create_record(vec![named("Inner", Type::Record(inner2))]);
    // same member handle: structurally equal records
    assert!(s.record_eq(via1, via1_again));
    // distinct member handles are distinct member types, even though the
    // two inner records are themselves structurally equal
    assert!(s.record_eq(inner1, inner2));
    assert!(!s.record_eq(via1, via2));
}

#[test]
fn positional_members_compare_pointwise() {
    let mut s = TypeStore::new();
    let t1 = s.create_record(vec![(None, nat_w(8)), (None, nat_w(16))]);
    let t2 = s.create_record(vec![(None, nat_w(8)), (None, nat_w(16))]);
    let t3 = s.create_record(vec![(None, nat_w(16)), (None, nat_w(8))]);
    assert!(s.record_eq(t1, t2));
    assert!(!s.record_eq(t1, t3));
}

#[test]
fn type_values_compare_by_width_and_handle() {
    let h = RecordHandle { id: 0 };
    assert!(type_eq(&nat_w(8), &nat_w(8)));
    assert!(!type_eq(&nat_w(8), &nat_w(16)));
    assert!(!type_eq(&nat_w(8), &nat_ty()));
    assert!(type_eq(&nat_ty(), &nat_ty()));
    assert!(!type_eq(&nat_ty(), &Type::Record(h)));
    assert!(type_eq(&Type::Record(h), &Type::Record(h)));
    assert!(!type_eq(&Type::Record(h), &Type::Record(RecordHandle { id: 1 })));
    assert!(!type_eq(&Type::Record(h), &Type::Union(UnionHandle { id: 0 })));
}

fn params_ab() -> RecordType {
    RecordType {
        elems: vec![nat_ty(), nat_ty()],
        names: vec![("a".to_string(), 0), ("b".to_string(), 1)],
    }
}

fn result_one(w: Option<usize>) -> RecordType {
    RecordType { elems: vec![Type::Primitive(PrimitiveType::Nat(Nat { width: w }))], names: vec![] }
}

#[test]
fn function_types_compare_their_parameter_and_result_records() {
    let f1 = FuncType { params: params_ab(), results: result_one(None) };
    let f2 = FuncType {
        params: RecordType {
            elems: vec![nat_ty(), nat_ty()],
            names: vec![("b".to_string(), 1), ("a".to_string(), 0)],
        },
        results: result_one(None),
    };
    let f3 = FuncType { params: params_ab(), results: result_one(Some(8)) };
    // parameter records agree independent of name order
    assert!(func_eq(&f1, &f2));
    // a differing result record separates the function types
    assert!(!func_eq(&f1, &f3));
}

#[test]
fn state_marker_wraps_a_type_unchanged() {
    let st = StateType { typ: nat_w(8) };
    assert!(type_eq(&st.typ, &nat_w(8)));
}
