//! Surface tree of the prefix/list syntax.
//!
//! In this family most constructs are uniformly shaped lists tagged with a
//! lead marker (record, union, func, match, apply, return) whose elements are
//! further items; only literals, identifiers, operator applications, field and
//! variant pairs and let/var bindings have dedicated node kinds. Trees of this
//! family are immutable once produced and are unified with the infix/block
//! family by the lowering step.

#![allow(non_snake_case)]

use vstd::prelude::*;

verus! {

/// Natural literal carrying the raw decoded value.
#[derive(Clone, Debug)]
pub struct Nat {
    pub val: u128,
}

/// Identifier: an immutable text label compared by literal string equality.
#[derive(Clone, Debug)]
pub struct Ident {
    pub lit: String,
}

/// Unary operators. `Not` has no canonical counterpart and is rejected by
/// lowering.
#[derive(Clone, Copy, Debug)]
pub enum UnaryOperator {
    Invert,
    Not,
}

/// Binary operators of this family; all seven have canonical counterparts.
#[derive(Clone, Copy, Debug)]
pub enum BinaryOperator {
    Add,
    Sub,
    Mul,
    Div,
    Mod,
    And,
    Or,
}

/// One named record field: `(field A Nat)`.
#[derive(Debug)]
pub struct Field {
    pub ident: Ident,
    pub ty: Item,
}

/// One named union variant with its payload type.
#[derive(Debug)]
pub struct Variant {
    pub ident: Ident,
    pub ty: Item,
}

/// The lead marker that classifies a list node.
#[derive(Clone, Copy, Debug)]
pub enum ListLead {
    Union,
    Record,
    Func,
    Match,
    Apply,
    Return,
}

/// Uniform list node: a lead marker plus ordered items.
#[derive(Debug)]
pub struct List {
    pub lead: ListLead,
    pub items: Vec<Item>,
}

/// Unary operator applied to an expression.
#[derive(Debug)]
pub struct UnaryOpExpr {
    pub op: UnaryOperator,
    pub expr: Item,
}

/// Binary operator applied to two expressions.
#[derive(Debug)]
pub struct BinaryOpExpr {
    pub op: BinaryOperator,
    pub left: Item,
    pub right: Item,
}

/// Immutable binding of a name to an initializer expression.
#[derive(Debug)]
pub struct LetDecl {
    pub ident: Ident,
    pub expr: Item,
}

/// Mutable binding of a name to an initializer expression.
#[derive(Debug)]
pub struct VarDecl {
    pub ident: Ident,
    pub expr: Item,
}

/// The single tagged union every node of this family belongs to.
#[derive(Debug)]
pub enum Item {
    Nat(Nat),
    Ident(Ident),
    Field(Box<Field>),
    Variant(Box<Variant>),
    LetDecl(Box<LetDecl>),
    VarDecl(Box<VarDecl>),
    UnaryOpExpr(Box<UnaryOpExpr>),
    BinaryOpExpr(Box<BinaryOpExpr>),
    List(List),
}

impl Item {
    /// Narrow to the `Nat` variant; absence is the normal outcome on any
    /// other variant.
    pub fn as_Nat(self) -> (r: Option<Nat>)
        ensures
            r == (match self {
                Item::Nat(v) => Some(v),
                _ => None::<Nat>,
            }),
    {
        match self {
            Item::Nat(v) => Some(v),
            _ => None,
        }
    }

    /// Narrow to the `Ident` variant.
    pub fn as_Ident(self) -> (r: Option<Ident>)
        ensures
            r == (match self {
                Item::Ident(v) => Some(v),
                _ => None::<Ident>,
            }),
    {
        match self {
            Item::Ident(v) => Some(v),
            _ => None,
        }
    }

    /// Narrow to the `Field` variant.
    pub fn as_Field(self) -> (r: Option<Box<Field>>)
        ensures
            r == (match self {
                Item::Field(v) => Some(v),
                _ => None::<Box<Field>>,
            }),
    {
        match self {
            Item::Field(v) => Some(v),
            _ => None,
        }
    }

    /// Narrow to the `Variant` variant.
    pub fn as_Variant(self) -> (r: Option<Box<Variant>>)
        ensures
            r == (match self {
                Item::Variant(v) => Some(v),
                _ => None::<Box<Variant>>,
            }),
    {
        match self {
            Item::Variant(v) => Some(v),
            _ => None,
        }
    }

    /// Narrow to the `LetDecl` variant.
    pub fn as_LetDecl(self) -> (r: Option<Box<LetDecl>>)
        ensures
            r == (match self {
                Item::LetDecl(v) => Some(v),
                _ => None::<Box<LetDecl>>,
            }),
    {
        match self {
            Item::LetDecl(v) => Some(v),
            _ => None,
        }
    }

    /// Narrow to the `VarDecl` variant.
    pub fn as_VarDecl(self) -> (r: Option<Box<VarDecl>>)
        ensures
            r == (match self {
                Item::VarDecl(v) => Some(v),
                _ => None::<Box<VarDecl>>,
            }),
    {
        match self {
            Item::VarDecl(v) => Some(v),
            _ => None,
        }
    }

    /// Narrow to the `UnaryOpExpr` variant.
    pub fn as_UnaryOpExpr(self) -> (r: Option<Box<UnaryOpExpr>>)
        ensures
            r == (match self {
                Item::UnaryOpExpr(v) => Some(v),
                _ => None::<Box<UnaryOpExpr>>,
            }),
    {
        match self {
            Item::UnaryOpExpr(v) => Some(v),
            _ => None,
        }
    }

    /// Narrow to the `BinaryOpExpr` variant.
    pub fn as_BinaryOpExpr(self) -> (r: Option<Box<BinaryOpExpr>>)
        ensures
            r == (match self {
                Item::BinaryOpExpr(v) => Some(v),
                _ => None::<Box<BinaryOpExpr>>,
            }),
    {
        match self {
            Item::BinaryOpExpr(v) => Some(v),
            _ => None,
        }
    }

    /// Narrow to the `List` variant.
    pub fn as_List(self) -> (r: Option<List>)
        ensures
            r == (match self {
                Item::List(v) => Some(v),
                _ => None::<List>,
            }),
    {
        match self {
            Item::List(v) => Some(v),
            _ => None,
        }
    }
}

} // verus!
