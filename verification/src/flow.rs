//! Surface tree of the infix/block syntax.
//!
//! This family keeps the conventional keyword-and-operator layout: records,
//! unions, functions, blocks, matches, tuples and applies each have a node
//! kind of their own, and every node is one variant of the single `Item`
//! union. Trees of this family are produced once per parse and immutable
//! afterwards; the lowering step turns them into the canonical semantic tree.

#![allow(non_snake_case)]

use vstd::prelude::*;

verus! {

/// Natural literal carrying the raw decoded value.
#[derive(Clone, Debug)]
pub struct Nat {
    pub val: u128,
}

/// Identifier: an immutable text label compared by literal string equality.
#[derive(Clone, Debug)]
pub struct Ident {
    pub lit: String,
}

/// Unary operators. `Not` has no canonical counterpart and is rejected by
/// lowering.
#[derive(Clone, Copy, Debug)]
pub enum UnaryOperator {
    Invert,
    Not,
}

/// Binary operators. `Pipe` has no canonical counterpart and is rejected by
/// lowering.
#[derive(Clone, Copy, Debug)]
pub enum BinaryOperator {
    Add,
    Sub,
    Mul,
    Div,
    Mod,
    And,
    Or,
    Pipe,
}

/// Record-type literal: an ordered sequence of named fields.
#[derive(Debug)]
pub struct RecordType {
    pub fields: Vec<TypedIdent>,
}

/// Union-type literal: an ordered sequence of named variants.
#[derive(Debug)]
pub struct UnionType {
    pub variants: Vec<TypedIdent>,
}

/// Function type: a parameter record plus a result type expression.
#[derive(Debug)]
pub struct FuncType {
    pub params: RecordType,
    pub result: Item,
}

/// Apply expression: a callee plus an ordered tuple of arguments.
#[derive(Debug)]
pub struct ApplyExpr {
    pub func: Item,
    pub params: Tuple,
}

/// A name paired with a type expression: the unit of record fields, union
/// variants and function parameters.
#[derive(Debug)]
pub struct TypedIdent {
    pub ident: Ident,
    pub ty: Item,
}

/// Immutable binding of a name to an initializer expression.
#[derive(Debug)]
pub struct LetDecl {
    pub ident: Ident,
    pub expr: Item,
}

/// Mutable binding of a name to an initializer expression.
#[derive(Debug)]
pub struct VarDecl {
    pub ident: Ident,
    pub expr: Item,
}

/// Function literal: parameters, result type and a body block.
#[derive(Debug)]
pub struct Func {
    pub params: Vec<TypedIdent>,
    pub result: Item,
    pub block: Block,
}

/// Binding of a name to an existing type expression.
#[derive(Debug)]
pub struct TypeAliasDecl {
    pub ident: Ident,
    pub ty: Item,
}

/// Ordered tuple of expressions.
#[derive(Debug)]
pub struct Tuple {
    pub elems: Vec<Item>,
}

/// Ordered tuple of type expressions.
#[derive(Debug)]
pub struct TypeTuple {
    pub elems: Vec<Item>,
}

/// Unary operator applied to an expression.
#[derive(Debug)]
pub struct UnaryOpExpr {
    pub op: UnaryOperator,
    pub expr: Item,
}

/// Binary operator applied to two expressions.
#[derive(Debug)]
pub struct BinaryOpExpr {
    pub op: BinaryOperator,
    pub left: Item,
    pub right: Item,
}

/// One pattern/result pair of a match. Patterns reuse the ordinary tree
/// shapes; there is no separate pattern sub-language.
#[derive(Debug)]
pub struct Pattern {
    pub pattern: Item,
    pub expr: Item,
}

/// Match expression: a scrutinee plus an ordered, first-match-wins list of
/// pattern/result pairs.
#[derive(Debug)]
pub struct Match {
    pub expr: Item,
    pub patterns: Vec<Pattern>,
}

/// Ordered sequence of tree items; the last item, if it is an expression,
/// is the block's value.
#[derive(Debug)]
pub struct Block {
    pub elems: Vec<Item>,
}

/// The single tagged union every node of this family belongs to.
#[derive(Debug)]
pub enum Item {
    Nat(Nat),
    Ident(Ident),
    Tuple(Tuple),
    Block(Box<Block>),
    Func(Box<Func>),
    Match(Box<Match>),
    TypeTuple(Box<TypeTuple>),
    RecordType(Box<RecordType>),
    UnionType(Box<UnionType>),
    FuncType(Box<FuncType>),
    UnaryOpExpr(Box<UnaryOpExpr>),
    BinaryOpExpr(Box<BinaryOpExpr>),
    ApplyExpr(Box<ApplyExpr>),
    LetDecl(Box<LetDecl>),
    VarDecl(Box<VarDecl>),
    TypeAliasDecl(Box<TypeAliasDecl>),
}

impl Item {
    /// Narrow to the `Nat` variant; absence is the normal outcome on any
    /// other variant.
    pub fn as_Nat(self) -> (r: Option<Nat>)
        ensures
            r == (match self {
                Item::Nat(v) => Some(v),
                _ => None::<Nat>,
            }),
    {
        match self {
            Item::Nat(v) => Some(v),
            _ => None,
        }
    }

    /// Narrow to the `Ident` variant.
    pub fn as_Ident(self) -> (r: Option<Ident>)
        ensures
            r == (match self {
                Item::Ident(v) => Some(v),
                _ => None::<Ident>,
            }),
    {
        match self {
            Item::Ident(v) => Some(v),
            _ => None,
        }
    }

    /// Narrow to the `Tuple` variant.
    pub fn as_Tuple(self) -> (r: Option<Tuple>)
        ensures
            r == (match self {
                Item::Tuple(v) => Some(v),
                _ => None::<Tuple>,
            }),
    {
        match self {
            Item::Tuple(v) => Some(v),
            _ => None,
        }
    }

    /// Narrow to the `Block` variant.
    pub fn as_Block(self) -> (r: Option<Box<Block>>)
        ensures
            r == (match self {
                Item::Block(v) => Some(v),
                _ => None::<Box<Block>>,
            }),
    {
        match self {
            Item::Block(v) => Some(v),
            _ => None,
        }
    }

    /// Narrow to the `Func` variant.
    pub fn as_Func(self) -> (r: Option<Box<Func>>)
        ensures
            r == (match self {
                Item::Func(v) => Some(v),
                _ => None::<Box<Func>>,
            }),
    {
        match self {
            Item::Func(v) => Some(v),
            _ => None,
        }
    }

    /// Narrow to the `Match` variant.
    pub fn as_Match(self) -> (r: Option<Box<Match>>)
        ensures
            r == (match self {
                Item::Match(v) => Some(v),
                _ => None::<Box<Match>>,
            }),
    {
        match self {
            Item::Match(v) => Some(v),
            _ => None,
        }
    }

    /// Narrow to the `TypeTuple` variant.
    pub fn as_TypeTuple(self) -> (r: Option<Box<TypeTuple>>)
        ensures
            r == (match self {
                Item::TypeTuple(v) => Some(v),
                _ => None::<Box<TypeTuple>>,
            }),
    {
        match self {
            Item::TypeTuple(v) => Some(v),
            _ => None,
        }
    }

    /// Narrow to the `RecordType` variant.
    pub fn as_RecordType(self) -> (r: Option<Box<RecordType>>)
        ensures
            r == (match self {
                Item::RecordType(v) => Some(v),
                _ => None::<Box<RecordType>>,
            }),
    {
        match self {
            Item::RecordType(v) => Some(v),
            _ => None,
        }
    }

    /// Narrow to the `UnionType` variant.
    pub fn as_UnionType(self) -> (r: Option<Box<UnionType>>)
        ensures
            r == (match self {
                Item::UnionType(v) => Some(v),
                _ => None::<Box<UnionType>>,
            }),
    {
        match self {
            Item::UnionType(v) => Some(v),
            _ => None,
        }
    }

    /// Narrow to the `FuncType` variant.
    pub fn as_FuncType(self) -> (r: Option<Box<FuncType>>)
        ensures
            r == (match self {
                Item::FuncType(v) => Some(v),
                _ => None::<Box<FuncType>>,
            }),
    {
        match self {
            Item::FuncType(v) => Some(v),
            _ => None,
        }
    }

    /// Narrow to the `UnaryOpExpr` variant.
    pub fn as_UnaryOpExpr(self) -> (r: Option<Box<UnaryOpExpr>>)
        ensures
            r == (match self {
                Item::UnaryOpExpr(v) => Some(v),
                _ => None::<Box<UnaryOpExpr>>,
            }),
    {
        match self {
            Item::UnaryOpExpr(v) => Some(v),
            _ => None,
        }
    }

    /// Narrow to the `BinaryOpExpr` variant.
    pub fn as_BinaryOpExpr(self) -> (r: Option<Box<BinaryOpExpr>>)
        ensures
            r == (match self {
                Item::BinaryOpExpr(v) => Some(v),
                _ => None::<Box<BinaryOpExpr>>,
            }),
    {
        match self {
            Item::BinaryOpExpr(v) => Some(v),
            _ => None,
        }
    }

    /// Narrow to the `ApplyExpr` variant.
    pub fn as_ApplyExpr(self) -> (r: Option<Box<ApplyExpr>>)
        ensures
            r == (match self {
                Item::ApplyExpr(v) => Some(v),
                _ => None::<Box<ApplyExpr>>,
            }),
    {
        match self {
            Item::ApplyExpr(v) => Some(v),
            _ => None,
        }
    }

    /// Narrow to the `LetDecl` variant.
    pub fn as_LetDecl(self) -> (r: Option<Box<LetDecl>>)
        ensures
            r == (match self {
                Item::LetDecl(v) => Some(v),
                _ => None::<Box<LetDecl>>,
            }),
    {
        match self {
            Item::LetDecl(v) => Some(v),
            _ => None,
        }
    }

    /// Narrow to the `VarDecl` variant.
    pub fn as_VarDecl(self) -> (r: Option<Box<VarDecl>>)
        ensures
            r == (match self {
                Item::VarDecl(v) => Some(v),
                _ => None::<Box<VarDecl>>,
            }),
    {
        match self {
            Item::VarDecl(v) => Some(v),
            _ => None,
        }
    }

    /// Narrow to the `TypeAliasDecl` variant.
    pub fn as_TypeAliasDecl(self) -> (r: Option<Box<TypeAliasDecl>>)
        ensures
            r == (match self {
                Item::TypeAliasDecl(v) => Some(v),
                _ => None::<Box<TypeAliasDecl>>,
            }),
    {
        match self {
            Item::TypeAliasDecl(v) => Some(v),
            _ => None,
        }
    }
}

} // verus!
