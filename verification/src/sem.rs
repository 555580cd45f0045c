//! Canonical semantic tree.
//!
//! Both surface syntaxes lower into this single syntax-agnostic shape. Where
//! the surface families conflate everything into one `Item` union, the
//! canonical tree separates types, expressions, declarations and statements
//! into four tagged unions. A natural literal here carries its decoding
//! *outcome*, so a malformed or overflowing literal travels through lowering
//! as a deferred failure instead of being dropped. Record types carry a kind
//! tag telling a named-field (struct-like) record from a positional
//! (tuple-like) one, and a block makes the last-expression-is-value rule
//! explicit as an optional trailing expression.

use crate::natlit::NatParseError;
use vstd::prelude::*;

verus! {

/// Identifier: an immutable text label compared by literal string equality.
#[derive(Clone, Debug)]
pub struct Ident {
    pub lit: String,
}

/// Natural literal carrying its decoding outcome: the exact value, or the
/// cause of the deferred failure a later stage must check.
#[derive(Debug)]
pub struct Nat {
    pub val: Result<u128, NatParseError>,
}

impl Nat {
    /// Decode a literal in any of the four bases into its outcome. The
    /// failure of a malformed or overflowing literal is stored in the
    /// node, not raised, so the tree stays structurally valid while
    /// carrying the pending failure.
    pub fn from_text(s: &str) -> (n: Nat)
        ensures
            n.val == (if !crate::natlit::lit_wellformed(s@) {
                Err::<u128, NatParseError>(NatParseError::Malformed)
            } else if crate::natlit::lit_value(s@) > u128::MAX {
                Err::<u128, NatParseError>(NatParseError::Overflow)
            } else {
                Ok::<u128, NatParseError>(crate::natlit::lit_value(s@) as u128)
            }),
    {
        Nat { val: crate::natlit::parse_nat(s) }
    }
}

/// Unary operators of the canonical tree. The surface logical "not" has no
/// counterpart here and is rejected by lowering.
#[derive(Clone, Copy, Debug)]
pub enum UnaryOperator {
    Invert,
}

/// Binary operators of the canonical tree. The surface "pipe" operator has
/// no counterpart here and is rejected by lowering.
#[derive(Clone, Copy, Debug)]
pub enum BinaryOperator {
    Add,
    Sub,
    Mul,
    Div,
    Mod,
    And,
    Or,
}

/// Whether a record's fields are real names (struct-like) or synthesized
/// positional placeholders (tuple-like).
#[derive(Clone, Copy, Debug, PartialEq, Eq, Structural)]
pub enum RecordTypeKind {
    Struct,
    Tuple,
}

/// Record type: parallel sequences of field types and field names, in
/// declaration order.
#[derive(Debug)]
pub struct RecordType {
    pub kind: RecordTypeKind,
    pub fields: Vec<Type>,
    pub idents: Vec<Ident>,
}

/// Union type: parallel sequences of variant payload types and variant
/// names, in declaration order.
#[derive(Debug)]
pub struct UnionType {
    pub variants: Vec<Type>,
    pub idents: Vec<Ident>,
}

/// Function type: a parameter record plus a result type.
#[derive(Debug)]
pub struct FuncType {
    pub params: RecordType,
    pub result: Type,
}

/// Canonical type expressions.
#[derive(Debug)]
pub enum Type {
    Record(Box<RecordType>),
    Union(Box<UnionType>),
    Func(Box<FuncType>),
    Ident(Ident),
}

/// Ordered tuple of expressions.
#[derive(Debug)]
pub struct TupleExpr {
    pub exprs: Vec<Expr>,
}

/// Named record of expressions: parallel sequences of field names and field
/// values. Apply arguments are bound through this one mechanism, the same
/// machinery that serves record construction generally.
#[derive(Debug)]
pub struct RecordExpr {
    pub kind: RecordTypeKind,
    pub idents: Vec<Ident>,
    pub exprs: Vec<Expr>,
}

/// Apply expression: a callee plus its arguments as a named record. Field
/// names for positional arguments are synthesized purely positionally
/// (`"0"`, `"1"`, ...); the callee's declared parameter names are never
/// consulted.
#[derive(Debug)]
pub struct ApplyExpr {
    pub func: Expr,
    pub params: RecordExpr,
}

/// Block: an ordered statement sequence plus an optional trailing value
/// expression.
#[derive(Debug)]
pub struct BlockExpr {
    pub stmts: Vec<Stmt>,
    pub expr: Option<Expr>,
}

/// Unary operator applied to an expression.
#[derive(Debug)]
pub struct UnaryExpr {
    pub op: UnaryOperator,
    pub expr: Expr,
}

/// Binary operator applied to two expressions.
#[derive(Debug)]
pub struct BinaryExpr {
    pub op: BinaryOperator,
    pub left: Expr,
    pub right: Expr,
}

/// One pattern/result pair of a match. A pattern is an ordinary expression;
/// there is no separate pattern sub-language.
#[derive(Debug)]
pub struct MatchArm {
    pub pattern: Expr,
    pub result: Expr,
}

/// Match expression: a scrutinee plus an ordered, first-match-wins arm list.
/// Arm order is semantically load-bearing and is never reordered or
/// deduplicated.
#[derive(Debug)]
pub struct MatchExpr {
    pub expr: Expr,
    pub arms: Vec<MatchArm>,
}

/// Canonical expressions.
#[derive(Debug)]
pub enum Expr {
    Nat(Nat),
    Ident(Ident),
    Tuple(Box<TupleExpr>),
    Apply(Box<ApplyExpr>),
    Block(Box<BlockExpr>),
    Unary(Box<UnaryExpr>),
    Binary(Box<BinaryExpr>),
    Match(Box<MatchExpr>),
}

/// Immutable binding of a name to an initializer expression.
#[derive(Debug)]
pub struct LetDecl {
    pub ident: Ident,
    pub expr: Expr,
}

/// Mutable binding of a name to an initializer expression.
#[derive(Debug)]
pub struct VarDecl {
    pub ident: Ident,
    pub expr: Expr,
}

/// Function declaration: name, parameter record, result type and body block.
#[derive(Debug)]
pub struct FuncDecl {
    pub ident: Ident,
    pub params: RecordType,
    pub result: Type,
    pub block: BlockExpr,
}

/// Binding of a name to an existing type expression.
#[derive(Debug)]
pub struct TypeAliasDecl {
    pub origin: Type,
    pub alias: Ident,
}

/// Canonical declarations.
#[derive(Debug)]
pub enum Decl {
    Let(LetDecl),
    Var(VarDecl),
    Func(FuncDecl),
    TypeAlias(TypeAliasDecl),
}

/// Canonical statements: a declaration or an expression evaluated for
/// effect.
#[derive(Debug)]
pub enum Stmt {
    Decl(Decl),
    Expr(Expr),
}

} // verus!
