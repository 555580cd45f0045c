//! Tree family of the combined front end: one expression shape shared by
//! both of its grammars, with dedicated match, foreach and apply forms and a
//! small declaration inventory.
//!
//! As everywhere in the model, a natural literal carries its decoding
//! outcome, so a malformed or overflowing literal is a deferred failure the
//! consumer must check, never an abort.

use crate::natlit::NatParseError;
use vstd::prelude::*;

verus! {

/// Identifier: an immutable text label compared by literal string equality.
#[derive(Clone, Debug)]
pub struct Ident {
    pub lit: String,
}

/// Natural literal carrying its decoding outcome.
#[derive(Debug)]
pub struct Nat {
    pub val: Result<u128, NatParseError>,
}

/// Type expressions: the natural type or a type name.
#[derive(Debug)]
pub enum Type {
    Nat,
    Ident(Ident),
}

/// Unary operators.
#[derive(Clone, Copy, Debug)]
pub enum UnaryOperator {
    Invert,
}

/// Binary operators.
#[derive(Clone, Copy, Debug)]
pub enum BinaryOperator {
    Add,
    Sub,
    Mul,
    Div,
    Mod,
    And,
    Or,
}

/// Expression naming a binding.
#[derive(Debug)]
pub struct IdentExpr {
    pub ident: Ident,
}

/// Ordered tuple of expressions.
#[derive(Debug)]
pub struct TupleExpr {
    pub exprs: Vec<Expr>,
}

/// Unary operator applied to an expression.
#[derive(Debug)]
pub struct UnaryOperatorExpr {
    pub op: UnaryOperator,
    pub expr: Expr,
}

/// Binary operator applied to two expressions.
#[derive(Debug)]
pub struct BinaryOperatorExpr {
    pub op: BinaryOperator,
    pub left: Expr,
    pub right: Expr,
}

/// One condition/result pair of a match.
#[derive(Debug)]
pub struct Case {
    pub cond: Expr,
    pub expr: Expr,
}

/// Iteration of a binding over a collection expression.
#[derive(Debug)]
pub struct ForeachExpr {
    pub item: Ident,
    pub collection: Expr,
}

/// Match expression: a scrutinee plus an ordered, first-match-wins case
/// list.
#[derive(Debug)]
pub struct MatchExpr {
    pub expr: Expr,
    pub patterns: Vec<Case>,
}

/// Apply expression: a callee plus an ordered argument tuple.
#[derive(Debug)]
pub struct ApplyExpr {
    pub func: Expr,
    pub params: TupleExpr,
}

/// Expressions of this family.
#[derive(Debug)]
pub enum Expr {
    Ident(Box<IdentExpr>),
    Unary(Box<UnaryOperatorExpr>),
    Binary(Box<BinaryOperatorExpr>),
    Match(Box<MatchExpr>),
    Tuple(Box<TupleExpr>),
    Apply(Box<ApplyExpr>),
}

/// Immutable binding of a name to an initializer expression.
#[derive(Debug)]
pub struct LetDecl {
    pub ident: Ident,
    pub expr: Expr,
}

/// Mutable binding of a name to an initializer expression.
#[derive(Debug)]
pub struct VarDecl {
    pub ident: Ident,
    pub expr: Expr,
}

/// Function declaration: parameter types and a body expression.
#[derive(Debug)]
pub struct FuncDecl {
    pub params: Vec<Type>,
    pub expr: Expr,
}

/// Declarations of this family.
#[derive(Debug)]
pub enum Decl {
    Let(LetDecl),
    Var(VarDecl),
    Func(FuncDecl),
}

} // verus!
