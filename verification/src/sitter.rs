//! Surface tree of the infix/block syntax as produced by the
//! tree-sitter-style front end.
//!
//! This family is the smallest of the three: its natural literal remembers
//! which of the four bases it was written in, and its record and union type
//! forms are bare keyword markers. It shares the canonical tree's atom
//! semantics: the value of a literal is the same whatever base spelled it.

use vstd::prelude::*;

verus! {

/// Natural literal tagged with the base it was written in.
#[derive(Clone, Copy, Debug)]
pub enum Nat {
    Hex(usize),
    Dec(usize),
    Oct(usize),
    Bin(usize),
}

impl Nat {
    /// The literal's value, whatever base spelled it.
    pub open spec fn value(self) -> usize {
        match self {
            Nat::Hex(v) => v,
            Nat::Dec(v) => v,
            Nat::Oct(v) => v,
            Nat::Bin(v) => v,
        }
    }

    /// Strip the base tag: a hexadecimal, decimal, octal or binary literal
    /// all denote the plain value they decoded to.
    pub fn to_usize(&self) -> (r: usize)
        ensures
            r == self.value(),
    {
        match self {
            Nat::Hex(v) => *v,
            Nat::Dec(v) => *v,
            Nat::Oct(v) => *v,
            Nat::Bin(v) => *v,
        }
    }
}

/// Identifier: an immutable text label.
#[derive(Clone, Debug)]
pub struct Ident {
    pub ident: String,
}

/// A name paired with a type.
#[derive(Clone, Debug)]
pub struct TypedIdent {
    pub ident: Ident,
    pub typ: Type,
}

/// Record-type form; a bare marker in this family.
#[derive(Clone, Debug)]
pub struct StructType {}

/// Union-type form; a bare marker in this family.
#[derive(Clone, Debug)]
pub struct UnionType {}

/// Type expressions of this family.
#[derive(Clone, Debug)]
pub enum Type {
    Struct(StructType),
    Union(UnionType),
    Ident(Ident),
}

/// Expressions of this family.
#[derive(Clone, Debug)]
pub enum Expr {
    Nat(Nat),
    Type(Type),
    Ident(Ident),
}

/// A whole parse: an expression or a type.
#[derive(Clone, Debug)]
pub enum TopLevel {
    Expr(Expr),
    Type(Type),
}

} // verus!
