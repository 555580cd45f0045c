//! Lowering: the step that maps either surface tree family into the one
//! canonical semantic tree.
//!
//! Lowering is total over every syntactically valid surface tree except where
//! a construct has no canonical counterpart (the logical "not" operator, the
//! "pipe" operator, or an item standing in a position its kind cannot fill);
//! such a construct yields an explicit [`LowerError`] naming the offending
//! surface node kind, never a silent pass-through. Deferred literal failures
//! are carried through unchanged. Record and union field order, and match
//! pattern/result pair order, are preserved exactly.
//!
//! Positional placeholders (for tuple-like records and for apply arguments)
//! are synthesized purely positionally as the decimal position written out
//! (`"0"`, `"1"`, ...); a callee's declared parameter names are never
//! consulted.

use crate::flow;
use crate::sem;
use crate::sexpr;
use vstd::prelude::*;
use vstd::string::StringExecFns;

verus! {

// ------------------------------------------------------------------
// Synthesized positional names
// ------------------------------------------------------------------

/// The character for one decimal digit.
pub open spec fn dec_digit_char(d: nat) -> char {
    if d == 0 {
        '0'
    } else if d == 1 {
        '1'
    } else if d == 2 {
        '2'
    } else if d == 3 {
        '3'
    } else if d == 4 {
        '4'
    } else if d == 5 {
        '5'
    } else if d == 6 {
        '6'
    } else if d == 7 {
        '7'
    } else if d == 8 {
        '8'
    } else {
        '9'
    }
}

/// Decimal rendering of a natural number, most significant digit first.
pub open spec fn dec_repr(n: nat) -> Seq<char>
    decreases n,
{
    if n < 10 {
        seq![dec_digit_char(n)]
    } else {
        dec_repr(n / 10).push(dec_digit_char(n % 10))
    }
}

/// The one-character text of a decimal digit.
fn digit_str(d: usize) -> (r: &'static str)
    requires
        d < 10,
    ensures
        r@ == seq![dec_digit_char(d as nat)],
{
    proof {
        reveal_strlit("0");
        reveal_strlit("1");
        reveal_strlit("2");
        reveal_strlit("3");
        reveal_strlit("4");
        reveal_strlit("5");
        reveal_strlit("6");
        reveal_strlit("7");
        reveal_strlit("8");
        reveal_strlit("9");
    }
    let r = match d {
        0 => "0",
        1 => "1",
        2 => "2",
        3 => "3",
        4 => "4",
        5 => "5",
        6 => "6",
        7 => "7",
        8 => "8",
        _ => "9",
    };
    assert(r@ =~= seq![dec_digit_char(d as nat)]);
    r
}

/// Render a position as its decimal text, the synthesized field name for
/// positional record fields and apply arguments.
pub fn decimal_string(n: usize) -> (r: String)
    ensures
        r@ == dec_repr(n as nat),
    decreases n,
{
    if n < 10 {
        digit_str(n).to_owned()
    } else {
        let mut s = decimal_string(n / 10);
        s.append(digit_str(n % 10));
        proof {
            assert(s@ =~= dec_repr(n as nat));
        }
        s
    }
}

// ------------------------------------------------------------------
// Diagnostics
// ------------------------------------------------------------------

/// The kind of a surface tree node, as named by lowering diagnostics.
#[derive(Clone, Copy, Debug, PartialEq, Eq, Structural)]
pub enum ItemKind {
    Nat,
    Ident,
    Tuple,
    Block,
    Func,
    Match,
    TypeTuple,
    RecordType,
    UnionType,
    FuncType,
    UnaryOpExpr,
    BinaryOpExpr,
    ApplyExpr,
    LetDecl,
    VarDecl,
    TypeAliasDecl,
    Field,
    Variant,
    List,
}

/// The kind of a node of the infix/block family.
pub open spec fn flow_kind(i: flow::Item) -> ItemKind {
    match i {
        flow::Item::Nat(_) => ItemKind::Nat,
        flow::Item::Ident(_) => ItemKind::Ident,
        flow::Item::Tuple(_) => ItemKind::Tuple,
        flow::Item::Block(_) => ItemKind::Block,
        flow::Item::Func(_) => ItemKind::Func,
        flow::Item::Match(_) => ItemKind::Match,
        flow::Item::TypeTuple(_) => ItemKind::TypeTuple,
        flow::Item::RecordType(_) => ItemKind::RecordType,
        flow::Item::UnionType(_) => ItemKind::UnionType,
        flow::Item::FuncType(_) => ItemKind::FuncType,
        flow::Item::UnaryOpExpr(_) => ItemKind::UnaryOpExpr,
        flow::Item::BinaryOpExpr(_) => ItemKind::BinaryOpExpr,
        flow::Item::ApplyExpr(_) => ItemKind::ApplyExpr,
        flow::Item::LetDecl(_) => ItemKind::LetDecl,
        flow::Item::VarDecl(_) => ItemKind::VarDecl,
        flow::Item::TypeAliasDecl(_) => ItemKind::TypeAliasDecl,
    }
}

/// The kind of a node of the prefix/list family.
pub open spec fn sexpr_kind(i: sexpr::Item) -> ItemKind {
    match i {
        sexpr::Item::Nat(_) => ItemKind::Nat,
        sexpr::Item::Ident(_) => ItemKind::Ident,
        sexpr::Item::Field(_) => ItemKind::Field,
        sexpr::Item::Variant(_) => ItemKind::Variant,
        sexpr::Item::LetDecl(_) => ItemKind::LetDecl,
        sexpr::Item::VarDecl(_) => ItemKind::VarDecl,
        sexpr::Item::UnaryOpExpr(_) => ItemKind::UnaryOpExpr,
        sexpr::Item::BinaryOpExpr(_) => ItemKind::BinaryOpExpr,
        sexpr::Item::List(_) => ItemKind::List,
    }
}

/// Why lowering rejected a surface construct. Every rejection is an ordinary
/// value the caller branches on; nothing here aborts.
#[derive(Clone, Copy, Debug, PartialEq, Eq, Structural)]
pub enum LowerError {
    /// The logical "not" operator of a surface syntax has no canonical
    /// counterpart.
    NotOperator,
    /// The "pipe" operator of a surface syntax has no canonical counterpart.
    PipeOperator,
    /// An item of this kind cannot stand where a type is required.
    TypeExpected(ItemKind),
    /// An item of this kind cannot stand where an expression is required.
    ExprExpected(ItemKind),
    /// An item of this kind cannot stand where a declaration is required.
    DeclExpected(ItemKind),
    /// An item of this kind cannot stand in a record list, which holds only
    /// fields.
    FieldExpected(ItemKind),
    /// An item of this kind cannot stand in a union list, which holds only
    /// variants.
    VariantExpected(ItemKind),
    /// A function list does not have the shape parameters-then-result.
    FuncShape,
    /// A match list does not have the shape scrutinee then pattern/result
    /// pairs.
    MatchShape,
    /// The "return" list of the prefix/list syntax has no canonical
    /// counterpart.
    ReturnList,
}

// ------------------------------------------------------------------
// Lowering the infix/block family: types
// ------------------------------------------------------------------

/// Which items of the infix/block family lower to a canonical type.
pub open spec fn flow_is_type(i: flow::Item) -> bool
    decreases i,
{
    match i {
        flow::Item::Ident(_) => true,
        flow::Item::RecordType(r) => forall|k: int|
            0 <= k < r.fields.len() ==> flow_is_type(#[trigger] r.fields[k].ty),
        flow::Item::UnionType(u) => forall|k: int|
            0 <= k < u.variants.len() ==> flow_is_type(#[trigger] u.variants[k].ty),
        flow::Item::FuncType(f) => (forall|k: int|
            0 <= k < f.params.fields.len() ==> flow_is_type(#[trigger] f.params.fields[k].ty))
            && flow_is_type(f.result),
        flow::Item::TypeTuple(t) => forall|k: int|
            0 <= k < t.elems.len() ==> flow_is_type(#[trigger] t.elems[k]),
        _ => false,
    }
}

/// The canonical type a type-shaped item of the infix/block family lowers
/// to: identifiers map directly; a record literal becomes a named-field
/// (struct-like) record; a type tuple becomes a positional (tuple-like)
/// record with synthesized decimal names; field and variant order is
/// preserved exactly.
pub open spec fn flow_type_lowers_to(i: flow::Item, t: sem::Type) -> bool
    decreases i,
{
    match i {
        flow::Item::Ident(id) => (t matches sem::Type::Ident(x) && x.lit@ == id.lit@),
        flow::Item::RecordType(r) => (t matches sem::Type::Record(rr) && {
            let rv = *rr;
            let fs = r.fields;
            &&& rv.kind == sem::RecordTypeKind::Struct
            &&& rv.fields.len() == fs.len()
            &&& rv.idents.len() == fs.len()
            &&& (forall|k: int|
                0 <= k < fs.len() ==> (#[trigger] rv.idents[k]).lit@ == fs[k].ident.lit@)
            &&& (forall|k: int|
                0 <= k < fs.len() ==> flow_type_lowers_to(fs[k].ty, #[trigger] rv.fields[k]))
        }),
        flow::Item::UnionType(u) => (t matches sem::Type::Union(uu) && {
            let uv = *uu;
            let vs = u.variants;
            &&& uv.variants.len() == vs.len()
            &&& uv.idents.len() == vs.len()
            &&& (forall|k: int|
                0 <= k < vs.len() ==> (#[trigger] uv.idents[k]).lit@ == vs[k].ident.lit@)
            &&& (forall|k: int|
                0 <= k < vs.len() ==> flow_type_lowers_to(vs[k].ty, #[trigger] uv.variants[k]))
        }),
        flow::Item::FuncType(f) => (t matches sem::Type::Func(ff) && {
            let fv = *ff;
            let ps = f.params.fields;
            &&& fv.params.kind == sem::RecordTypeKind::Struct
            &&& fv.params.fields.len() == ps.len()
            &&& fv.params.idents.len() == ps.len()
            &&& (forall|k: int|
                0 <= k < ps.len() ==> (#[trigger] fv.params.idents[k]).lit@ == ps[k].ident.lit@)
            &&& (forall|k: int|
                0 <= k < ps.len() ==> flow_type_lowers_to(ps[k].ty, #[trigger] fv.params.fields[k]))
            &&& flow_type_lowers_to(f.result, fv.result)
        }),
        flow::Item::TypeTuple(tt) => (t matches sem::Type::Record(rr) && {
            let rv = *rr;
            let es = tt.elems;
            &&& rv.kind == sem::RecordTypeKind::Tuple
            &&& rv.fields.len() == es.len()
            &&& rv.idents.len() == es.len()
            &&& (forall|k: int|
                0 <= k < es.len() ==> (#[trigger] rv.idents[k]).lit@ == dec_repr(k as nat))
            &&& (forall|k: int|
                0 <= k < es.len() ==> flow_type_lowers_to(es[k], #[trigger] rv.fields[k]))
        }),
        _ => false,
    }
}

/// Lower an ordered field or parameter list: parallel canonical type and
/// name sequences, order preserved.
fn lower_flow_typed_idents(v: &Vec<flow::TypedIdent>) -> (r: Result<
    (Vec<sem::Type>, Vec<sem::Ident>),
    LowerError,
>)
    ensures
        r matches Ok(p) ==> {
            &&& p.0.len() == v.len()
            &&& p.1.len() == v.len()
            &&& (forall|k: int| 0 <= k < v.len() ==> (#[trigger] p.1[k]).lit@ == v[k].ident.lit@)
            &&& (forall|k: int|
                0 <= k < v.len() ==> flow_type_lowers_to(v[k].ty, #[trigger] p.0[k]))
        },
        r is Ok <==> (forall|k: int| 0 <= k < v.len() ==> flow_is_type(#[trigger] v[k].ty)),
    decreases v,
{
    let mut tys: Vec<sem::Type> = Vec::new();
    let mut ids: Vec<sem::Ident> = Vec::new();
    let n = v.len();
    let mut k: usize = 0;
    while k < n
        invariant
            k <= n,
            n == v.len(),
            tys.len() == k,
            ids.len() == k,
            forall|j: int| 0 <= j < k ==> (#[trigger] ids[j]).lit@ == v[j].ident.lit@,
            forall|j: int| 0 <= j < k ==> flow_type_lowers_to(v[j].ty, #[trigger] tys[j]),
            forall|j: int| 0 <= j < k ==> flow_is_type(#[trigger] v[j].ty),
        decreases n - k,
    {
        let f = &v[k];
        match lower_flow_type(&f.ty) {
            Ok(t) => {
                tys.push(t);
                ids.push(sem::Ident { lit: f.ident.lit.clone() });
            },
            Err(e) => {
                return Err(e);
            },
        }
        k += 1;
    }
    Ok((tys, ids))
}

/// Lower an ordered list of type expressions, synthesizing decimal
/// positional names.
fn lower_flow_type_list(v: &Vec<flow::Item>) -> (r: Result<
    (Vec<sem::Type>, Vec<sem::Ident>),
    LowerError,
>)
    ensures
        r matches Ok(p) ==> {
            &&& p.0.len() == v.len()
            &&& p.1.len() == v.len()
            &&& (forall|k: int| 0 <= k < v.len() ==> (#[trigger] p.1[k]).lit@ == dec_repr(k as nat))
            &&& (forall|k: int| 0 <= k < v.len() ==> flow_type_lowers_to(v[k], #[trigger] p.0[k]))
        },
        r is Ok <==> (forall|k: int| 0 <= k < v.len() ==> flow_is_type(#[trigger] v[k])),
    decreases v,
{
    let mut tys: Vec<sem::Type> = Vec::new();
    let mut ids: Vec<sem::Ident> = Vec::new();
    let n = v.len();
    let mut k: usize = 0;
    while k < n
        invariant
            k <= n,
            n == v.len(),
            tys.len() == k,
            ids.len() == k,
            forall|j: int| 0 <= j < k ==> (#[trigger] ids[j]).lit@ == dec_repr(j as nat),
            forall|j: int| 0 <= j < k ==> flow_type_lowers_to(v[j], #[trigger] tys[j]),
            forall|j: int| 0 <= j < k ==> flow_is_type(#[trigger] v[j]),
        decreases n - k,
    {
        match lower_flow_type(&v[k]) {
            Ok(t) => {
                tys.push(t);
                ids.push(sem::Ident { lit: decimal_string(k) });
            },
            Err(e) => {
                return Err(e);
            },
        }
        k += 1;
    }
    Ok((tys, ids))
}

/// Lower a type-shaped item of the infix/block family to a canonical type.
///
/// Succeeds exactly on type-shaped items (identifier, record, union,
/// function type, type tuple, recursively); any other kind in type position
/// is rejected with an error naming it.
pub fn lower_flow_type(i: &flow::Item) -> (r: Result<sem::Type, LowerError>)
    ensures
        r matches Ok(t) ==> flow_type_lowers_to(*i, t),
        r is Ok <==> flow_is_type(*i),
    decreases *i,
{
    match i {
        flow::Item::Ident(id) => Ok(sem::Type::Ident(sem::Ident { lit: id.lit.clone() })),
        flow::Item::RecordType(r) => match lower_flow_typed_idents(&r.fields) {
            Ok((tys, ids)) => Ok(
                sem::Type::Record(
                    Box::new(
                        sem::RecordType {
                            kind: sem::RecordTypeKind::Struct,
                            fields: tys,
                            idents: ids,
                        },
                    ),
                ),
            ),
            Err(e) => Err(e),
        },
        flow::Item::UnionType(u) => match lower_flow_typed_idents(&u.variants) {
            Ok((tys, ids)) => Ok(
                sem::Type::Union(Box::new(sem::UnionType { variants: tys, idents: ids })),
            ),
            Err(e) => Err(e),
        },
        flow::Item::FuncType(f) => match lower_flow_typed_idents(&f.params.fields) {
            Ok((tys, ids)) => match lower_flow_type(&f.result) {
                Ok(res) => Ok(
                    sem::Type::Func(
                        Box::new(
                            sem::FuncType {
                                params: sem::RecordType {
                                    kind: sem::RecordTypeKind::Struct,
                                    fields: tys,
                                    idents: ids,
                                },
                                result: res,
                            },
                        ),
                    ),
                ),
                Err(e) => Err(e),
            },
            Err(e) => Err(e),
        },
        flow::Item::TypeTuple(t) => match lower_flow_type_list(&t.elems) {
            Ok((tys, ids)) => Ok(
                sem::Type::Record(
                    Box::new(
                        sem::RecordType {
                            kind: sem::RecordTypeKind::Tuple,
                            fields: tys,
                            idents: ids,
                        },
                    ),
                ),
            ),
            Err(e) => Err(e),
        },
        _ => Err(LowerError::TypeExpected(kind_of_flow(i))),
    }
}

// ------------------------------------------------------------------
// Lowering the infix/block family: expressions, declarations, blocks
// ------------------------------------------------------------------

/// The canonical operator for a unary operator of the infix/block family;
/// `None` for the logical "not", which has no canonical counterpart.
pub open spec fn flow_unop_lowers(op: flow::UnaryOperator) -> Option<sem::UnaryOperator> {
    match op {
        flow::UnaryOperator::Invert => Some(sem::UnaryOperator::Invert),
        flow::UnaryOperator::Not => None,
    }
}

/// The canonical operator for a binary operator of the infix/block family;
/// `None` for "pipe", which has no canonical counterpart.
pub open spec fn flow_binop_lowers(op: flow::BinaryOperator) -> Option<sem::BinaryOperator> {
    match op {
        flow::BinaryOperator::Add => Some(sem::BinaryOperator::Add),
        flow::BinaryOperator::Sub => Some(sem::BinaryOperator::Sub),
        flow::BinaryOperator::Mul => Some(sem::BinaryOperator::Mul),
        flow::BinaryOperator::Div => Some(sem::BinaryOperator::Div),
        flow::BinaryOperator::Mod => Some(sem::BinaryOperator::Mod),
        flow::BinaryOperator::And => Some(sem::BinaryOperator::And),
        flow::BinaryOperator::Or => Some(sem::BinaryOperator::Or),
        flow::BinaryOperator::Pipe => None,
    }
}

/// Which items of the infix/block family lower to a canonical expression.
/// A bare function literal does not: it is supported only as the initializer
/// of a `let`, where it becomes a function declaration.
pub open spec fn flow_is_expr(i: flow::Item) -> bool
    decreases i, 0int,
{
    match i {
        flow::Item::Nat(_) => true,
        flow::Item::Ident(_) => true,
        flow::Item::Tuple(t) => forall|k: int|
            0 <= k < t.elems.len() ==> flow_is_expr(#[trigger] t.elems[k]),
        flow::Item::Block(b) => flow_is_block(*b),
        flow::Item::Match(m) => flow_is_expr(m.expr) && (forall|k: int|
            0 <= k < m.patterns.len() ==> flow_is_expr(#[trigger] m.patterns[k].pattern)
                && flow_is_expr(m.patterns[k].expr)),
        flow::Item::UnaryOpExpr(u) => flow_unop_lowers(u.op) is Some && flow_is_expr(u.expr),
        flow::Item::BinaryOpExpr(b) => flow_binop_lowers(b.op) is Some && flow_is_expr(b.left)
            && flow_is_expr(b.right),
        flow::Item::ApplyExpr(a) => flow_is_expr(a.func) && (forall|k: int|
            0 <= k < a.params.elems.len() ==> flow_is_expr(#[trigger] a.params.elems[k])),
        _ => false,
    }
}

/// Which items of the infix/block family lower to a canonical declaration.
pub open spec fn flow_is_decl(i: flow::Item) -> bool
    decreases i, 0int,
{
    match i {
        flow::Item::LetDecl(l) => match l.expr {
            flow::Item::Func(f) => (forall|k: int|
                0 <= k < f.params.len() ==> flow_is_type(#[trigger] f.params[k].ty))
                && flow_is_type(f.result) && flow_is_block(f.block),
            _ => flow_is_expr(l.expr),
        },
        flow::Item::VarDecl(v) => flow_is_expr(v.expr),
        flow::Item::TypeAliasDecl(a) => flow_is_type(a.ty),
        _ => false,
    }
}

/// Which items may stand as one statement of a block.
pub open spec fn flow_is_stmt(i: flow::Item) -> bool
    decreases i, 1int,
{
    flow_is_decl(i) || flow_is_expr(i)
}

/// Which blocks lower: every element must be statement-shaped.
pub open spec fn flow_is_block(b: flow::Block) -> bool
    decreases b, 2int,
{
    forall|k: int| 0 <= k < b.elems.len() ==> flow_is_stmt(#[trigger] b.elems[k])
}

/// The canonical expression an expression-shaped item of the infix/block
/// family lowers to. Literals carry their value as a successful decoding
/// outcome; match pattern/result pair order is preserved exactly; apply
/// arguments become a positional record with synthesized decimal names.
pub open spec fn flow_expr_lowers_to(i: flow::Item, e: sem::Expr) -> bool
    decreases i, 0int,
{
    match i {
        flow::Item::Nat(n) => (e matches sem::Expr::Nat(sn) && sn.val matches Ok(v) && v
            == n.val),
        flow::Item::Ident(id) => (e matches sem::Expr::Ident(x) && x.lit@ == id.lit@),
        flow::Item::Tuple(t) => (e matches sem::Expr::Tuple(te) && {
            let tv = *te;
            &&& tv.exprs.len() == t.elems.len()
            &&& (forall|k: int|
                0 <= k < t.elems.len() ==> flow_expr_lowers_to(
                    t.elems[k],
                    #[trigger] tv.exprs[k],
                ))
        }),
        flow::Item::Block(b) => (e matches sem::Expr::Block(be) && flow_block_lowers_to(
            *b,
            *be,
        )),
        flow::Item::Match(m) => (e matches sem::Expr::Match(me) && {
            let mv = *me;
            &&& flow_expr_lowers_to(m.expr, mv.expr)
            &&& mv.arms.len() == m.patterns.len()
            &&& (forall|k: int|
                0 <= k < m.patterns.len() ==> flow_expr_lowers_to(
                    m.patterns[k].pattern,
                    (#[trigger] mv.arms[k]).pattern,
                ) && flow_expr_lowers_to(m.patterns[k].expr, mv.arms[k].result))
        }),
        flow::Item::UnaryOpExpr(u) => (e matches sem::Expr::Unary(ue) && {
            &&& flow_unop_lowers(u.op) == Some(ue.op)
            &&& flow_expr_lowers_to(u.expr, ue.expr)
        }),
        flow::Item::BinaryOpExpr(b) => (e matches sem::Expr::Binary(be) && {
            &&& flow_binop_lowers(b.op) == Some(be.op)
            &&& flow_expr_lowers_to(b.left, be.left)
            &&& flow_expr_lowers_to(b.right, be.right)
        }),
        flow::Item::ApplyExpr(a) => (e matches sem::Expr::Apply(ae) && {
            let av = *ae;
            &&& flow_expr_lowers_to(a.func, av.func)
            &&& av.params.kind == sem::RecordTypeKind::Tuple
            &&& av.params.idents.len() == a.params.elems.len()
            &&& av.params.exprs.len() == a.params.elems.len()
            &&& (forall|k: int|
                0 <= k < a.params.elems.len() ==> (#[trigger] av.params.idents[k]).lit@
                    == dec_repr(k as nat))
            &&& (forall|k: int|
                0 <= k < a.params.elems.len() ==> flow_expr_lowers_to(
                    a.params.elems[k],
                    #[trigger] av.params.exprs[k],
                ))
        }),
        _ => false,
    }
}

/// The canonical declaration a declaration-shaped item lowers to. A `let`
/// whose initializer is a function literal becomes a named function
/// declaration; any other `let` or `var` keeps its initializer expression;
/// a type alias keeps its aliased type.
pub open spec fn flow_decl_lowers_to(i: flow::Item, d: sem::Decl) -> bool
    decreases i, 0int,
{
    match i {
        flow::Item::LetDecl(l) => match l.expr {
            flow::Item::Func(f) => (d matches sem::Decl::Func(fd) && {
                &&& fd.ident.lit@ == l.ident.lit@
                &&& fd.params.kind == sem::RecordTypeKind::Struct
                &&& fd.params.fields.len() == f.params.len()
                &&& fd.params.idents.len() == f.params.len()
                &&& (forall|k: int|
                    0 <= k < f.params.len() ==> (#[trigger] fd.params.idents[k]).lit@
                        == f.params[k].ident.lit@)
                &&& (forall|k: int|
                    0 <= k < f.params.len() ==> flow_type_lowers_to(
                        f.params[k].ty,
                        #[trigger] fd.params.fields[k],
                    ))
                &&& flow_type_lowers_to(f.result, fd.result)
                &&& flow_block_lowers_to(f.block, fd.block)
            }),
            _ => (d matches sem::Decl::Let(ld) && ld.ident.lit@ == l.ident.lit@
                && flow_expr_lowers_to(l.expr, ld.expr)),
        },
        flow::Item::VarDecl(v) => (d matches sem::Decl::Var(vd) && vd.ident.lit@ == v.ident.lit@
            && flow_expr_lowers_to(v.expr, vd.expr)),
        flow::Item::TypeAliasDecl(a) => (d matches sem::Decl::TypeAlias(td) && td.alias.lit@
            == a.ident.lit@ && flow_type_lowers_to(a.ty, td.origin)),
        _ => false,
    }
}

/// The canonical statement a statement-shaped item lowers to: declarations
/// lower as declarations, expressions as expressions.
pub open spec fn flow_stmt_lowers_to(i: flow::Item, s: sem::Stmt) -> bool
    decreases i, 1int,
{
    if flow_is_decl_kind(i) {
        s matches sem::Stmt::Decl(d) && flow_decl_lowers_to(i, d)
    } else {
        s matches sem::Stmt::Expr(e) && flow_expr_lowers_to(i, e)
    }
}

/// Whether an item's kind is a declaration kind (let, var, type alias).
pub open spec fn flow_is_decl_kind(i: flow::Item) -> bool {
    i matches flow::Item::LetDecl(_) || i matches flow::Item::VarDecl(_)
        || i matches flow::Item::TypeAliasDecl(_)
}

/// The canonical block a surface block lowers to: every element but the
/// last is a statement; the last element becomes the trailing value exactly
/// when it is expression-shaped, otherwise it is a statement and the block
/// has no value; an empty block has no value.
pub open spec fn flow_block_lowers_to(b: flow::Block, be: sem::BlockExpr) -> bool
    decreases b, 2int,
{
    let n = b.elems.len() as int;
    if n == 0 {
        be.stmts.len() == 0 && be.expr is None
    } else if !flow_is_decl_kind(b.elems[n - 1]) {
        &&& be.stmts.len() == n - 1
        &&& (forall|k: int|
            0 <= k < n - 1 ==> flow_stmt_lowers_to(b.elems[k], #[trigger] be.stmts[k]))
        &&& be.expr matches Some(e) && flow_expr_lowers_to(b.elems[n - 1], e)
    } else {
        &&& be.stmts.len() == n
        &&& (forall|k: int|
            0 <= k < n ==> flow_stmt_lowers_to(b.elems[k], #[trigger] be.stmts[k]))
        &&& be.expr is None
    }
}

/// Lower an ordered list of expressions (tuple elements or apply
/// arguments), order preserved.
fn lower_flow_expr_list(v: &Vec<flow::Item>) -> (r: Result<Vec<sem::Expr>, LowerError>)
    ensures
        r matches Ok(es) ==> {
            &&& es.len() == v.len()
            &&& (forall|k: int|
                0 <= k < v.len() ==> flow_expr_lowers_to(v[k], #[trigger] es[k]))
        },
        r is Ok <==> (forall|k: int| 0 <= k < v.len() ==> flow_is_expr(#[trigger] v[k])),
    decreases v, 3int,
{
    let mut es: Vec<sem::Expr> = Vec::new();
    let n = v.len();
    let mut k: usize = 0;
    while k < n
        invariant
            k <= n,
            n == v.len(),
            es.len() == k,
            forall|j: int| 0 <= j < k ==> flow_expr_lowers_to(v[j], #[trigger] es[j]),
            forall|j: int| 0 <= j < k ==> flow_is_expr(#[trigger] v[j]),
        decreases n - k,
    {
        match lower_flow_expr(&v[k]) {
            Ok(e) => es.push(e),
            Err(e) => {
                return Err(e);
            },
        }
        k += 1;
    }
    Ok(es)
}

/// Lower the ordered pattern/result pairs of a match, preserving pair
/// order exactly: pair `k` of the surface match becomes arm `k` of the
/// canonical match, and nothing is reordered or deduplicated.
fn lower_flow_arms(v: &Vec<flow::Pattern>) -> (r: Result<Vec<sem::MatchArm>, LowerError>)
    ensures
        r matches Ok(arms) ==> {
            &&& arms.len() == v.len()
            &&& (forall|k: int|
                0 <= k < v.len() ==> flow_expr_lowers_to(
                    v[k].pattern,
                    (#[trigger] arms[k]).pattern,
                ) && flow_expr_lowers_to(v[k].expr, arms[k].result))
        },
        r is Ok <==> (forall|k: int|
            0 <= k < v.len() ==> flow_is_expr((#[trigger] v[k]).pattern) && flow_is_expr(
                v[k].expr,
            )),
    decreases v, 3int,
{
    let mut arms: Vec<sem::MatchArm> = Vec::new();
    let n = v.len();
    let mut k: usize = 0;
    while k < n
        invariant
            k <= n,
            n == v.len(),
            arms.len() == k,
            forall|j: int|
                0 <= j < k ==> flow_expr_lowers_to(v[j].pattern, (#[trigger] arms[j]).pattern)
                    && flow_expr_lowers_to(v[j].expr, arms[j].result),
            forall|j: int|
                0 <= j < k ==> flow_is_expr((#[trigger] v[j]).pattern) && flow_is_expr(v[j].expr),
        decreases n - k,
    {
        let p = &v[k];
        let pat = match lower_flow_expr(&p.pattern) {
            Ok(e) => e,
            Err(e) => {
                return Err(e);
            },
        };
        let res = match lower_flow_expr(&p.expr) {
            Ok(e) => e,
            Err(e) => {
                return Err(e);
            },
        };
        arms.push(sem::MatchArm { pattern: pat, result: res });
        k += 1;
    }
    Ok(arms)
}

/// Synthesize the decimal positional names `"0" .. "n-1"`.
fn positional_idents(n: usize) -> (r: Vec<sem::Ident>)
    ensures
        r.len() == n,
        forall|k: int| 0 <= k < n ==> (#[trigger] r[k]).lit@ == dec_repr(k as nat),
{
    let mut ids: Vec<sem::Ident> = Vec::new();
    let mut k: usize = 0;
    while k < n
        invariant
            k <= n,
            ids.len() == k,
            forall|j: int| 0 <= j < k ==> (#[trigger] ids[j]).lit@ == dec_repr(j as nat),
        decreases n - k,
    {
        ids.push(sem::Ident { lit: decimal_string(k) });
        k += 1;
    }
    ids
}

/// Lower an expression-shaped item of the infix/block family to a
/// canonical expression.
///
/// Succeeds exactly on expression-shaped items. The logical "not" operator
/// and the "pipe" operator are rejected with their named errors; a bare
/// function literal and any type- or declaration-shaped item in expression
/// position are rejected with an error naming their kind.
pub fn lower_flow_expr(i: &flow::Item) -> (r: Result<sem::Expr, LowerError>)
    ensures
        r matches Ok(e) ==> flow_expr_lowers_to(*i, e),
        r is Ok <==> flow_is_expr(*i),
        (*i matches flow::Item::UnaryOpExpr(u) && u.op matches flow::UnaryOperator::Not) ==> r
            == Result::<sem::Expr, LowerError>::Err(LowerError::NotOperator),
        (*i matches flow::Item::BinaryOpExpr(b) && b.op matches flow::BinaryOperator::Pipe) ==> r
            == Result::<sem::Expr, LowerError>::Err(LowerError::PipeOperator),
    decreases *i, 0int,
{
    match i {
        flow::Item::Nat(n) => Ok(sem::Expr::Nat(sem::Nat { val: Ok(n.val) })),
        flow::Item::Ident(id) => Ok(sem::Expr::Ident(sem::Ident { lit: id.lit.clone() })),
        flow::Item::Tuple(t) => match lower_flow_expr_list(&t.elems) {
            Ok(es) => Ok(sem::Expr::Tuple(Box::new(sem::TupleExpr { exprs: es }))),
            Err(e) => Err(e),
        },
        flow::Item::Block(b) => match lower_flow_block(b) {
            Ok(be) => Ok(sem::Expr::Block(Box::new(be))),
            Err(e) => Err(e),
        },
        flow::Item::Match(m) => {
            let scrutinee = match lower_flow_expr(&m.expr) {
                Ok(e) => e,
                Err(e) => {
                    return Err(e);
                },
            };
            match lower_flow_arms(&m.patterns) {
                Ok(arms) => Ok(
                    sem::Expr::Match(Box::new(sem::MatchExpr { expr: scrutinee, arms })),
                ),
                Err(e) => Err(e),
            }
        },
        flow::Item::UnaryOpExpr(u) => match u.op {
            flow::UnaryOperator::Invert => match lower_flow_expr(&u.expr) {
                Ok(e) => Ok(
                    sem::Expr::Unary(
                        Box::new(sem::UnaryExpr { op: sem::UnaryOperator::Invert, expr: e }),
                    ),
                ),
                Err(e) => Err(e),
            },
            flow::UnaryOperator::Not => Err(LowerError::NotOperator),
        },
        flow::Item::BinaryOpExpr(b) => {
            let op = match b.op {
                flow::BinaryOperator::Add => sem::BinaryOperator::Add,
                flow::BinaryOperator::Sub => sem::BinaryOperator::Sub,
                flow::BinaryOperator::Mul => sem::BinaryOperator::Mul,
                flow::BinaryOperator::Div => sem::BinaryOperator::Div,
                flow::BinaryOperator::Mod => sem::BinaryOperator::Mod,
                flow::BinaryOperator::And => sem::BinaryOperator::And,
                flow::BinaryOperator::Or => sem::BinaryOperator::Or,
                flow::BinaryOperator::Pipe => {
                    return Err(LowerError::PipeOperator);
                },
            };
            let left = match lower_flow_expr(&b.left) {
                Ok(e) => e,
                Err(e) => {
                    return Err(e);
                },
            };
            let right = match lower_flow_expr(&b.right) {
                Ok(e) => e,
                Err(e) => {
                    return Err(e);
                },
            };
            Ok(sem::Expr::Binary(Box::new(sem::BinaryExpr { op, left, right })))
        },
        flow::Item::ApplyExpr(a) => {
            let func = match lower_flow_expr(&a.func) {
                Ok(e) => e,
                Err(e) => {
                    return Err(e);
                },
            };
            let es = match lower_flow_expr_list(&a.params.elems) {
                Ok(es) => es,
                Err(e) => {
                    return Err(e);
                },
            };
            let ids = positional_idents(a.params.elems.len());
            Ok(
                sem::Expr::Apply(
                    Box::new(
                        sem::ApplyExpr {
                            func,
                            params: sem::RecordExpr {
                                kind: sem::RecordTypeKind::Tuple,
                                idents: ids,
                                exprs: es,
                            },
                        },
                    ),
                ),
            )
        },
        _ => Err(LowerError::ExprExpected(kind_of_flow(i))),
    }
}

/// Lower a declaration-shaped item of the infix/block family to a
/// canonical declaration. A `let` bound to a function literal becomes a
/// named function declaration.
pub fn lower_flow_decl(i: &flow::Item) -> (r: Result<sem::Decl, LowerError>)
    ensures
        r matches Ok(d) ==> flow_decl_lowers_to(*i, d),
        r is Ok <==> flow_is_decl(*i),
    decreases *i, 0int,
{
    match i {
        flow::Item::LetDecl(l) => match &l.expr {
            flow::Item::Func(f) => {
                let (tys, ids) = match lower_flow_typed_idents(&f.params) {
                    Ok(p) => p,
                    Err(e) => {
                        return Err(e);
                    },
                };
                let result = match lower_flow_type(&f.result) {
                    Ok(t) => t,
                    Err(e) => {
                        return Err(e);
                    },
                };
                let block = match lower_flow_block(&f.block) {
                    Ok(b) => b,
                    Err(e) => {
                        return Err(e);
                    },
                };
                Ok(
                    sem::Decl::Func(
                        sem::FuncDecl {
                            ident: sem::Ident { lit: l.ident.lit.clone() },
                            params: sem::RecordType {
                                kind: sem::RecordTypeKind::Struct,
                                fields: tys,
                                idents: ids,
                            },
                            result,
                            block,
                        },
                    ),
                )
            },
            _ => match lower_flow_expr(&l.expr) {
                Ok(e) => Ok(
                    sem::Decl::Let(
                        sem::LetDecl { ident: sem::Ident { lit: l.ident.lit.clone() }, expr: e },
                    ),
                ),
                Err(e) => Err(e),
            },
        },
        flow::Item::VarDecl(v) => match lower_flow_expr(&v.expr) {
            Ok(e) => Ok(
                sem::Decl::Var(
                    sem::VarDecl { ident: sem::Ident { lit: v.ident.lit.clone() }, expr: e },
                ),
            ),
            Err(e) => Err(e),
        },
        flow::Item::TypeAliasDecl(a) => match lower_flow_type(&a.ty) {
            Ok(t) => Ok(
                sem::Decl::TypeAlias(
                    sem::TypeAliasDecl { origin: t, alias: sem::Ident { lit: a.ident.lit.clone() } },
                ),
            ),
            Err(e) => Err(e),
        },
        _ => Err(LowerError::DeclExpected(kind_of_flow(i))),
    }
}

/// Lower a statement-shaped item: a declaration lowers as a declaration,
/// anything else must lower as an expression.
pub fn lower_flow_stmt(i: &flow::Item) -> (r: Result<sem::Stmt, LowerError>)
    ensures
        r matches Ok(s) ==> flow_stmt_lowers_to(*i, s),
        r is Ok <==> flow_is_stmt(*i),
    decreases *i, 1int,
{
    match i {
        flow::Item::LetDecl(_) | flow::Item::VarDecl(_) | flow::Item::TypeAliasDecl(_) => {
            match lower_flow_decl(i) {
                Ok(d) => Ok(sem::Stmt::Decl(d)),
                Err(e) => Err(e),
            }
        },
        _ => match lower_flow_expr(i) {
            Ok(e) => Ok(sem::Stmt::Expr(e)),
            Err(e) => Err(e),
        },
    }
}

/// Lower a surface block by the block-splitting rule: every element but
/// the last becomes a statement; the last element becomes the trailing
/// value exactly when it is expression-shaped, otherwise it too is a
/// statement and the block has no value.
pub fn lower_flow_block(b: &flow::Block) -> (r: Result<sem::BlockExpr, LowerError>)
    ensures
        r matches Ok(be) ==> flow_block_lowers_to(*b, be),
        r is Ok <==> flow_is_block(*b),
        r matches Ok(be) ==> (b.elems.len() == 0 ==> be.stmts.len() == 0 && be.expr is None),
        r matches Ok(be) ==> (b.elems.len() > 0 && flow_is_decl_kind(b.elems@.last()) ==> be.expr
            is None && be.stmts.len() == b.elems.len()),
        r matches Ok(be) ==> (b.elems.len() > 0 && !flow_is_decl_kind(b.elems@.last()) ==> be.expr
            is Some && be.stmts.len() == b.elems.len() - 1),
    decreases *b, 2int,
{
    let n = b.elems.len();
    let mut stmts: Vec<sem::Stmt> = Vec::new();
    if n == 0 {
        return Ok(sem::BlockExpr { stmts, expr: None });
    }
    let mut k: usize = 0;
    while k < n - 1
        invariant
            k <= n - 1,
            n == b.elems.len(),
            n > 0,
            stmts.len() == k,
            forall|j: int| 0 <= j < k ==> flow_stmt_lowers_to(b.elems[j], #[trigger] stmts[j]),
            forall|j: int| 0 <= j < k ==> flow_is_stmt(#[trigger] b.elems[j]),
        decreases n - 1 - k,
    {
        match lower_flow_stmt(&b.elems[k]) {
            Ok(s) => stmts.push(s),
            Err(e) => {
                return Err(e);
            },
        }
        k += 1;
    }
    let last = &b.elems[n - 1];
    match last {
        flow::Item::LetDecl(_) | flow::Item::VarDecl(_) | flow::Item::TypeAliasDecl(_) => {
            match lower_flow_stmt(last) {
                Ok(s) => {
                    stmts.push(s);
                    Ok(sem::BlockExpr { stmts, expr: None })
                },
                Err(e) => Err(e),
            }
        },
        _ => match lower_flow_expr(last) {
            Ok(e) => Ok(sem::BlockExpr { stmts, expr: Some(e) }),
            Err(e) => Err(e),
        },
    }
}

// ------------------------------------------------------------------
// Lowering the prefix/list family
// ------------------------------------------------------------------

/// The canonical operator for a unary operator of the prefix/list family;
/// `None` for the logical "not", which has no canonical counterpart.
pub open spec fn sexpr_unop_lowers(op: sexpr::UnaryOperator) -> Option<sem::UnaryOperator> {
    match op {
        sexpr::UnaryOperator::Invert => Some(sem::UnaryOperator::Invert),
        sexpr::UnaryOperator::Not => None,
    }
}

/// The canonical operator for a binary operator of the prefix/list family;
/// all seven have counterparts.
pub open spec fn sexpr_binop_lowers(op: sexpr::BinaryOperator) -> sem::BinaryOperator {
    match op {
        sexpr::BinaryOperator::Add => sem::BinaryOperator::Add,
        sexpr::BinaryOperator::Sub => sem::BinaryOperator::Sub,
        sexpr::BinaryOperator::Mul => sem::BinaryOperator::Mul,
        sexpr::BinaryOperator::Div => sem::BinaryOperator::Div,
        sexpr::BinaryOperator::Mod => sem::BinaryOperator::Mod,
        sexpr::BinaryOperator::And => sem::BinaryOperator::And,
        sexpr::BinaryOperator::Or => sem::BinaryOperator::Or,
    }
}

/// Which items of the prefix/list family lower to a canonical type: an
/// identifier, a record list of fields, a union list of variants, or a
/// function list of parameter fields followed by one result type.
pub open spec fn sexpr_is_type(i: sexpr::Item) -> bool
    decreases i, 0int,
{
    match i {
        sexpr::Item::Ident(_) => true,
        sexpr::Item::List(l) => match l.lead {
            sexpr::ListLead::Record => forall|k: int|
                0 <= k < l.items.len() ==> ((#[trigger] l.items[k]) matches sexpr::Item::Field(f)
                    && sexpr_is_type(f.ty)),
            sexpr::ListLead::Union => forall|k: int|
                0 <= k < l.items.len() ==> ((#[trigger] l.items[k]) matches sexpr::Item::Variant(
                    v,
                ) && sexpr_is_type(v.ty)),
            sexpr::ListLead::Func => l.items.len() >= 1 && (forall|k: int|
                0 <= k < l.items.len() - 1 ==> ((#[trigger] l.items[k])
                    matches sexpr::Item::Field(f) && sexpr_is_type(f.ty))) && sexpr_is_type(
                l.items[l.items.len() - 1],
            ),
            _ => false,
        },
        _ => false,
    }
}

/// The canonical type a type-shaped item of the prefix/list family lowers
/// to; field and variant order is preserved exactly.
pub open spec fn sexpr_type_lowers_to(i: sexpr::Item, t: sem::Type) -> bool
    decreases i, 0int,
{
    match i {
        sexpr::Item::Ident(id) => (t matches sem::Type::Ident(x) && x.lit@ == id.lit@),
        sexpr::Item::List(l) => match l.lead {
            sexpr::ListLead::Record => (t matches sem::Type::Record(rr) && {
                let rv = *rr;
                &&& rv.kind == sem::RecordTypeKind::Struct
                &&& rv.fields.len() == l.items.len()
                &&& rv.idents.len() == l.items.len()
                &&& (forall|k: int|
                    0 <= k < l.items.len() ==> ((#[trigger] l.items[k])
                        matches sexpr::Item::Field(f) && rv.idents[k].lit@ == f.ident.lit@
                        && sexpr_type_lowers_to(f.ty, rv.fields[k])))
            }),
            sexpr::ListLead::Union => (t matches sem::Type::Union(uu) && {
                let uv = *uu;
                &&& uv.variants.len() == l.items.len()
                &&& uv.idents.len() == l.items.len()
                &&& (forall|k: int|
                    0 <= k < l.items.len() ==> ((#[trigger] l.items[k])
                        matches sexpr::Item::Variant(v) && uv.idents[k].lit@ == v.ident.lit@
                        && sexpr_type_lowers_to(v.ty, uv.variants[k])))
            }),
            sexpr::ListLead::Func => (t matches sem::Type::Func(ff) && {
                let fv = *ff;
                let n = l.items.len() as int;
                &&& n >= 1
                &&& fv.params.kind == sem::RecordTypeKind::Struct
                &&& fv.params.fields.len() == n - 1
                &&& fv.params.idents.len() == n - 1
                &&& (forall|k: int|
                    0 <= k < n - 1 ==> ((#[trigger] l.items[k]) matches sexpr::Item::Field(f)
                        && fv.params.idents[k].lit@ == f.ident.lit@ && sexpr_type_lowers_to(
                        f.ty,
                        fv.params.fields[k],
                    )))
                &&& sexpr_type_lowers_to(l.items[n - 1], fv.result)
            }),
            _ => false,
        },
        _ => false,
    }
}

/// Which items of the prefix/list family lower to a canonical expression.
pub open spec fn sexpr_is_expr(i: sexpr::Item) -> bool
    decreases i, 0int,
{
    match i {
        sexpr::Item::Nat(_) => true,
        sexpr::Item::Ident(_) => true,
        sexpr::Item::UnaryOpExpr(u) => sexpr_unop_lowers(u.op) is Some && sexpr_is_expr(u.expr),
        sexpr::Item::BinaryOpExpr(b) => sexpr_is_expr(b.left) && sexpr_is_expr(b.right),
        sexpr::Item::List(l) => match l.lead {
            sexpr::ListLead::Apply => l.items.len() >= 1 && (forall|k: int|
                0 <= k < l.items.len() ==> sexpr_is_expr(#[trigger] l.items[k])),
            sexpr::ListLead::Match => l.items.len() >= 1 && l.items.len() % 2 == 1 && (forall|
                k: int,
            |
                0 <= k < l.items.len() ==> sexpr_is_expr(#[trigger] l.items[k])),
            _ => false,
        },
        _ => false,
    }
}

/// The canonical expression an expression-shaped item of the prefix/list
/// family lowers to. An apply list is a callee followed by its arguments,
/// which become a positional record with synthesized decimal names; a match
/// list is a scrutinee followed by pattern/result pairs in order.
pub open spec fn sexpr_expr_lowers_to(i: sexpr::Item, e: sem::Expr) -> bool
    decreases i, 0int,
{
    match i {
        sexpr::Item::Nat(n) => (e matches sem::Expr::Nat(sn) && sn.val matches Ok(v) && v
            == n.val),
        sexpr::Item::Ident(id) => (e matches sem::Expr::Ident(x) && x.lit@ == id.lit@),
        sexpr::Item::UnaryOpExpr(u) => (e matches sem::Expr::Unary(ue) && sexpr_unop_lowers(u.op)
            == Some(ue.op) && sexpr_expr_lowers_to(u.expr, ue.expr)),
        sexpr::Item::BinaryOpExpr(b) => (e matches sem::Expr::Binary(be) && be.op
            == sexpr_binop_lowers(b.op) && sexpr_expr_lowers_to(b.left, be.left)
            && sexpr_expr_lowers_to(b.right, be.right)),
        sexpr::Item::List(l) => match l.lead {
            sexpr::ListLead::Apply => (e matches sem::Expr::Apply(ae) && {
                let av = *ae;
                let n = l.items.len() as int;
                &&& n >= 1
                &&& sexpr_expr_lowers_to(l.items[0], av.func)
                &&& av.params.kind == sem::RecordTypeKind::Tuple
                &&& av.params.idents.len() == n - 1
                &&& av.params.exprs.len() == n - 1
                &&& (forall|k: int|
                    0 <= k < n - 1 ==> (#[trigger] av.params.idents[k]).lit@ == dec_repr(k as nat))
                &&& (forall|k: int|
                    0 <= k < n - 1 ==> sexpr_expr_lowers_to(
                        l.items[k + 1],
                        #[trigger] av.params.exprs[k],
                    ))
            }),
            sexpr::ListLead::Match => (e matches sem::Expr::Match(me) && {
                let mv = *me;
                let n = l.items.len() as int;
                &&& n >= 1
                &&& n % 2 == 1
                &&& sexpr_expr_lowers_to(l.items[0], mv.expr)
                &&& mv.arms.len() == (n - 1) / 2
                &&& (forall|a: int|
                    0 <= a < mv.arms.len() ==> sexpr_expr_lowers_to(
                        l.items[2 * a + 1],
                        (#[trigger] mv.arms[a]).pattern,
                    ) && sexpr_expr_lowers_to(l.items[2 * a + 2], mv.arms[a].result))
            }),
            _ => false,
        },
        _ => false,
    }
}

/// Which items of the prefix/list family lower to a canonical declaration.
pub open spec fn sexpr_is_decl(i: sexpr::Item) -> bool
    decreases i, 0int,
{
    match i {
        sexpr::Item::LetDecl(l) => sexpr_is_expr(l.expr),
        sexpr::Item::VarDecl(v) => sexpr_is_expr(v.expr),
        _ => false,
    }
}

/// The canonical declaration a declaration-shaped item of the prefix/list
/// family lowers to.
pub open spec fn sexpr_decl_lowers_to(i: sexpr::Item, d: sem::Decl) -> bool
    decreases i, 0int,
{
    match i {
        sexpr::Item::LetDecl(l) => (d matches sem::Decl::Let(ld) && ld.ident.lit@ == l.ident.lit@
            && sexpr_expr_lowers_to(l.expr, ld.expr)),
        sexpr::Item::VarDecl(v) => (d matches sem::Decl::Var(vd) && vd.ident.lit@ == v.ident.lit@
            && sexpr_expr_lowers_to(v.expr, vd.expr)),
        _ => false,
    }
}

/// Lower the first `m` items of a list, which must all be fields, into
/// parallel canonical type and name sequences, order preserved.
fn lower_sexpr_fields_upto(v: &Vec<sexpr::Item>, m: usize) -> (r: Result<
    (Vec<sem::Type>, Vec<sem::Ident>),
    LowerError,
>)
    requires
        m <= v.len(),
    ensures
        r matches Ok(p) ==> {
            &&& p.0.len() == m
            &&& p.1.len() == m
            &&& (forall|k: int|
                0 <= k < m ==> ((#[trigger] v[k]) matches sexpr::Item::Field(f) && p.1[k].lit@
                    == f.ident.lit@ && sexpr_type_lowers_to(f.ty, p.0[k])))
        },
        r is Ok <==> (forall|k: int|
            0 <= k < m ==> ((#[trigger] v[k]) matches sexpr::Item::Field(f) && sexpr_is_type(
                f.ty,
            ))),
    decreases v, 3int,
{
    let mut tys: Vec<sem::Type> = Vec::new();
    let mut ids: Vec<sem::Ident> = Vec::new();
    let mut k: usize = 0;
    while k < m
        invariant
            k <= m <= v.len(),
            tys.len() == k,
            ids.len() == k,
            forall|j: int|
                0 <= j < k ==> ((#[trigger] v[j]) matches sexpr::Item::Field(f) && ids[j].lit@
                    == f.ident.lit@ && sexpr_type_lowers_to(f.ty, tys[j])),
            forall|j: int|
                0 <= j < k ==> ((#[trigger] v[j]) matches sexpr::Item::Field(f) && sexpr_is_type(
                    f.ty,
                )),
        decreases m - k,
    {
        match &v[k] {
            sexpr::Item::Field(f) => match lower_sexpr_type(&f.ty) {
                Ok(t) => {
                    tys.push(t);
                    ids.push(sem::Ident { lit: f.ident.lit.clone() });
                },
                Err(e) => {
                    return Err(e);
                },
            },
            other => {
                return Err(LowerError::FieldExpected(kind_of_sexpr(other)));
            },
        }
        k += 1;
    }
    Ok((tys, ids))
}

/// Lower every item of a union list, which must all be variants, into
/// parallel canonical type and name sequences, order preserved.
fn lower_sexpr_variants(v: &Vec<sexpr::Item>) -> (r: Result<
    (Vec<sem::Type>, Vec<sem::Ident>),
    LowerError,
>)
    ensures
        r matches Ok(p) ==> {
            &&& p.0.len() == v.len()
            &&& p.1.len() == v.len()
            &&& (forall|k: int|
                0 <= k < v.len() ==> ((#[trigger] v[k]) matches sexpr::Item::Variant(x)
                    && p.1[k].lit@ == x.ident.lit@ && sexpr_type_lowers_to(x.ty, p.0[k])))
        },
        r is Ok <==> (forall|k: int|
            0 <= k < v.len() ==> ((#[trigger] v[k]) matches sexpr::Item::Variant(x)
                && sexpr_is_type(x.ty))),
    decreases v, 3int,
{
    let mut tys: Vec<sem::Type> = Vec::new();
    let mut ids: Vec<sem::Ident> = Vec::new();
    let n = v.len();
    let mut k: usize = 0;
    while k < n
        invariant
            k <= n,
            n == v.len(),
            tys.len() == k,
            ids.len() == k,
            forall|j: int|
                0 <= j < k ==> ((#[trigger] v[j]) matches sexpr::Item::Variant(x) && ids[j].lit@
                    == x.ident.lit@ && sexpr_type_lowers_to(x.ty, tys[j])),
            forall|j: int|
                0 <= j < k ==> ((#[trigger] v[j]) matches sexpr::Item::Variant(x) && sexpr_is_type(
                    x.ty,
                )),
        decreases n - k,
    {
        match &v[k] {
            sexpr::Item::Variant(x) => match lower_sexpr_type(&x.ty) {
                Ok(t) => {
                    tys.push(t);
                    ids.push(sem::Ident { lit: x.ident.lit.clone() });
                },
                Err(e) => {
                    return Err(e);
                },
            },
            other => {
                return Err(LowerError::VariantExpected(kind_of_sexpr(other)));
            },
        }
        k += 1;
    }
    Ok((tys, ids))
}

/// Lower a type-shaped item of the prefix/list family to a canonical type.
///
/// Succeeds exactly on type-shaped items: an identifier, a record list of
/// fields, a union list of variants, or a function list of parameter fields
/// followed by one result type. Anything else in type position is rejected
/// with an error naming the offending kind or shape.
pub fn lower_sexpr_type(i: &sexpr::Item) -> (r: Result<sem::Type, LowerError>)
    ensures
        r matches Ok(t) ==> sexpr_type_lowers_to(*i, t),
        r is Ok <==> sexpr_is_type(*i),
    decreases *i, 0int,
{
    match i {
        sexpr::Item::Ident(id) => Ok(sem::Type::Ident(sem::Ident { lit: id.lit.clone() })),
        sexpr::Item::List(l) => match l.lead {
            sexpr::ListLead::Record => match lower_sexpr_fields_upto(&l.items, l.items.len()) {
                Ok((tys, ids)) => Ok(
                    sem::Type::Record(
                        Box::new(
                            sem::RecordType {
                                kind: sem::RecordTypeKind::Struct,
                                fields: tys,
                                idents: ids,
                            },
                        ),
                    ),
                ),
                Err(e) => Err(e),
            },
            sexpr::ListLead::Union => match lower_sexpr_variants(&l.items) {
                Ok((tys, ids)) => Ok(
                    sem::Type::Union(Box::new(sem::UnionType { variants: tys, idents: ids })),
                ),
                Err(e) => Err(e),
            },
            sexpr::ListLead::Func => {
                let n = l.items.len();
                if n == 0 {
                    return Err(LowerError::FuncShape);
                }
                let (tys, ids) = match lower_sexpr_fields_upto(&l.items, n - 1) {
                    Ok(p) => p,
                    Err(e) => {
                        return Err(e);
                    },
                };
                match lower_sexpr_type(&l.items[n - 1]) {
                    Ok(res) => Ok(
                        sem::Type::Func(
                            Box::new(
                                sem::FuncType {
                                    params: sem::RecordType {
                                        kind: sem::RecordTypeKind::Struct,
                                        fields: tys,
                                        idents: ids,
                                    },
                                    result: res,
                                },
                            ),
                        ),
                    ),
                    Err(e) => Err(e),
                }
            },
            _ => Err(LowerError::TypeExpected(ItemKind::List)),
        },
        _ => Err(LowerError::TypeExpected(kind_of_sexpr(i))),
    }
}

/// Lower the items of a list from position `start` on as expressions, order
/// preserved.
fn lower_sexpr_exprs_from(v: &Vec<sexpr::Item>, start: usize) -> (r: Result<
    Vec<sem::Expr>,
    LowerError,
>)
    requires
        start <= v.len(),
    ensures
        r matches Ok(es) ==> {
            &&& es.len() == v.len() - start
            &&& (forall|k: int|
                0 <= k < v.len() - start ==> sexpr_expr_lowers_to(
                    v[start + k],
                    #[trigger] es[k],
                ))
        },
        r is Ok <==> (forall|j: int| start <= j < v.len() ==> sexpr_is_expr(#[trigger] v[j])),
    decreases v, 3int,
{
    let mut es: Vec<sem::Expr> = Vec::new();
    let n = v.len();
    let mut k: usize = start;
    while k < n
        invariant
            start <= k <= n,
            n == v.len(),
            es.len() == k - start,
            forall|j: int|
                0 <= j < k - start ==> sexpr_expr_lowers_to(v[start + j], #[trigger] es[j]),
            forall|j: int| start <= j < k ==> sexpr_is_expr(#[trigger] v[j]),
        decreases n - k,
    {
        match lower_sexpr_expr(&v[k]) {
            Ok(e) => es.push(e),
            Err(e) => {
                return Err(e);
            },
        }
        k += 1;
    }
    Ok(es)
}

/// Lower the pattern/result pairs of a match list (everything after the
/// scrutinee), preserving pair order exactly.
fn lower_sexpr_arms(v: &Vec<sexpr::Item>) -> (r: Result<Vec<sem::MatchArm>, LowerError>)
    requires
        v.len() >= 1,
        v.len() % 2 == 1,
    ensures
        r matches Ok(arms) ==> {
            &&& arms.len() == (v.len() - 1) / 2
            &&& (forall|a: int|
                0 <= a < arms.len() ==> sexpr_expr_lowers_to(
                    v[2 * a + 1],
                    (#[trigger] arms[a]).pattern,
                ) && sexpr_expr_lowers_to(v[2 * a + 2], arms[a].result))
        },
        r is Ok <==> (forall|j: int| 1 <= j < v.len() ==> sexpr_is_expr(#[trigger] v[j])),
    decreases v, 3int,
{
    let mut arms: Vec<sem::MatchArm> = Vec::new();
    let n = v.len();
    let pairs = (n - 1) / 2;
    assert(2 * pairs == n - 1);
    let mut a: usize = 0;
    while a < pairs
        invariant
            a <= pairs,
            n == v.len(),
            2 * pairs == n - 1,
            arms.len() == a,
            forall|j: int|
                0 <= j < a ==> sexpr_expr_lowers_to(v[2 * j + 1], (#[trigger] arms[j]).pattern)
                    && sexpr_expr_lowers_to(v[2 * j + 2], arms[j].result),
            forall|j: int| 1 <= j < 2 * a + 1 ==> sexpr_is_expr(#[trigger] v[j]),
        decreases pairs - a,
    {
        let pat = match lower_sexpr_expr(&v[2 * a + 1]) {
            Ok(e) => e,
            Err(e) => {
                return Err(e);
            },
        };
        let res = match lower_sexpr_expr(&v[2 * a + 2]) {
            Ok(e) => e,
            Err(e) => {
                return Err(e);
            },
        };
        arms.push(sem::MatchArm { pattern: pat, result: res });
        a += 1;
    }
    Ok(arms)
}

/// Lower an expression-shaped item of the prefix/list family to a
/// canonical expression.
///
/// Succeeds exactly on expression-shaped items. The logical "not" operator
/// and the "return" list are rejected with their named errors; anything
/// else that is not expression-shaped is rejected with an error naming its
/// kind or shape.
pub fn lower_sexpr_expr(i: &sexpr::Item) -> (r: Result<sem::Expr, LowerError>)
    ensures
        r matches Ok(e) ==> sexpr_expr_lowers_to(*i, e),
        r is Ok <==> sexpr_is_expr(*i),
        (*i matches sexpr::Item::UnaryOpExpr(u) && u.op matches sexpr::UnaryOperator::Not) ==> r
            == Result::<sem::Expr, LowerError>::Err(LowerError::NotOperator),
        (*i matches sexpr::Item::List(l) && l.lead matches sexpr::ListLead::Return) ==> r
            == Result::<sem::Expr, LowerError>::Err(LowerError::ReturnList),
    decreases *i, 0int,
{
    match i {
        sexpr::Item::Nat(n) => Ok(sem::Expr::Nat(sem::Nat { val: Ok(n.val) })),
        sexpr::Item::Ident(id) => Ok(sem::Expr::Ident(sem::Ident { lit: id.lit.clone() })),
        sexpr::Item::UnaryOpExpr(u) => match u.op {
            sexpr::UnaryOperator::Invert => match lower_sexpr_expr(&u.expr) {
                Ok(e) => Ok(
                    sem::Expr::Unary(
                        Box::new(sem::UnaryExpr { op: sem::UnaryOperator::Invert, expr: e }),
                    ),
                ),
                Err(e) => Err(e),
            },
            sexpr::UnaryOperator::Not => Err(LowerError::NotOperator),
        },
        sexpr::Item::BinaryOpExpr(b) => {
            let op = match b.op {
                sexpr::BinaryOperator::Add => sem::BinaryOperator::Add,
                sexpr::BinaryOperator::Sub => sem::BinaryOperator::Sub,
                sexpr::BinaryOperator::Mul => sem::BinaryOperator::Mul,
                sexpr::BinaryOperator::Div => sem::BinaryOperator::Div,
                sexpr::BinaryOperator::Mod => sem::BinaryOperator::Mod,
                sexpr::BinaryOperator::And => sem::BinaryOperator::And,
                sexpr::BinaryOperator::Or => sem::BinaryOperator::Or,
            };
            let left = match lower_sexpr_expr(&b.left) {
                Ok(e) => e,
                Err(e) => {
                    return Err(e);
                },
            };
            let right = match lower_sexpr_expr(&b.right) {
                Ok(e) => e,
                Err(e) => {
                    return Err(e);
                },
            };
            Ok(sem::Expr::Binary(Box::new(sem::BinaryExpr { op, left, right })))
        },
        sexpr::Item::List(l) => match l.lead {
            sexpr::ListLead::Apply => {
                let n = l.items.len();
                if n == 0 {
                    return Err(LowerError::ExprExpected(ItemKind::List));
                }
                let func = match lower_sexpr_expr(&l.items[0]) {
                    Ok(e) => e,
                    Err(e) => {
                        return Err(e);
                    },
                };
                let es = match lower_sexpr_exprs_from(&l.items, 1) {
                    Ok(es) => es,
                    Err(e) => {
                        return Err(e);
                    },
                };
                let ids = positional_idents(n - 1);
                Ok(
                    sem::Expr::Apply(
                        Box::new(
                            sem::ApplyExpr {
                                func,
                                params: sem::RecordExpr {
                                    kind: sem::RecordTypeKind::Tuple,
                                    idents: ids,
                                    exprs: es,
                                },
                            },
                        ),
                    ),
                )
            },
            sexpr::ListLead::Match => {
                let n = l.items.len();
                if n == 0 || n % 2 == 0 {
                    return Err(LowerError::MatchShape);
                }
                let scrutinee = match lower_sexpr_expr(&l.items[0]) {
                    Ok(e) => e,
                    Err(e) => {
                        return Err(e);
                    },
                };
                match lower_sexpr_arms(&l.items) {
                    Ok(arms) => Ok(
                        sem::Expr::Match(Box::new(sem::MatchExpr { expr: scrutinee, arms })),
                    ),
                    Err(e) => Err(e),
                }
            },
            sexpr::ListLead::Return => Err(LowerError::ReturnList),
            _ => Err(LowerError::ExprExpected(ItemKind::List)),
        },
        _ => Err(LowerError::ExprExpected(kind_of_sexpr(i))),
    }
}

/// Lower a declaration-shaped item of the prefix/list family to a
/// canonical declaration.
pub fn lower_sexpr_decl(i: &sexpr::Item) -> (r: Result<sem::Decl, LowerError>)
    ensures
        r matches Ok(d) ==> sexpr_decl_lowers_to(*i, d),
        r is Ok <==> sexpr_is_decl(*i),
    decreases *i, 1int,
{
    match i {
        sexpr::Item::LetDecl(l) => match lower_sexpr_expr(&l.expr) {
            Ok(e) => Ok(
                sem::Decl::Let(
                    sem::LetDecl { ident: sem::Ident { lit: l.ident.lit.clone() }, expr: e },
                ),
            ),
            Err(e) => Err(e),
        },
        sexpr::Item::VarDecl(v) => match lower_sexpr_expr(&v.expr) {
            Ok(e) => Ok(
                sem::Decl::Var(
                    sem::VarDecl { ident: sem::Ident { lit: v.ident.lit.clone() }, expr: e },
                ),
            ),
            Err(e) => Err(e),
        },
        _ => Err(LowerError::DeclExpected(kind_of_sexpr(i))),
    }
}

// ------------------------------------------------------------------
// The lowering boundary: whole surface-tree roots
// ------------------------------------------------------------------

/// A lowered root: the canonical form a whole surface tree unified into.
#[derive(Debug)]
pub enum Lowered {
    Type(sem::Type),
    Expr(sem::Expr),
    Decl(sem::Decl),
}

/// Whether an item's kind is one of the type-literal kinds of the
/// infix/block family.
pub open spec fn flow_is_type_kind(i: flow::Item) -> bool {
    ||| i matches flow::Item::RecordType(_)
    ||| i matches flow::Item::UnionType(_)
    ||| i matches flow::Item::FuncType(_)
    ||| i matches flow::Item::TypeTuple(_)
}

/// Lower a surface-tree root of the infix/block family: a declaration
/// kind lowers as a declaration, a type-literal kind as a type, anything
/// else as an expression (a bare identifier root is read as an
/// expression).
pub fn lower_flow_item(i: &flow::Item) -> (r: Result<Lowered, LowerError>)
    ensures
        r matches Ok(l) ==> (match l {
            Lowered::Decl(d) => flow_is_decl_kind(*i) && flow_decl_lowers_to(*i, d),
            Lowered::Type(t) => flow_is_type_kind(*i) && flow_type_lowers_to(*i, t),
            Lowered::Expr(e) => !flow_is_decl_kind(*i) && !flow_is_type_kind(*i)
                && flow_expr_lowers_to(*i, e),
        }),
        r is Ok <==> (if flow_is_decl_kind(*i) {
            flow_is_decl(*i)
        } else if flow_is_type_kind(*i) {
            flow_is_type(*i)
        } else {
            flow_is_expr(*i)
        }),
{
    match i {
        flow::Item::LetDecl(_) | flow::Item::VarDecl(_) | flow::Item::TypeAliasDecl(_) => {
            match lower_flow_decl(i) {
                Ok(d) => Ok(Lowered::Decl(d)),
                Err(e) => Err(e),
            }
        },
        flow::Item::RecordType(_) | flow::Item::UnionType(_) | flow::Item::FuncType(_)
            | flow::Item::TypeTuple(_) => match lower_flow_type(i) {
            Ok(t) => Ok(Lowered::Type(t)),
            Err(e) => Err(e),
        },
        _ => match lower_flow_expr(i) {
            Ok(e) => Ok(Lowered::Expr(e)),
            Err(e) => Err(e),
        },
    }
}

/// Whether an item's kind is a declaration kind of the prefix/list family.
pub open spec fn sexpr_is_decl_kind(i: sexpr::Item) -> bool {
    i matches sexpr::Item::LetDecl(_) || i matches sexpr::Item::VarDecl(_)
}

/// Whether an item is a type-literal list of the prefix/list family.
pub open spec fn sexpr_is_type_kind(i: sexpr::Item) -> bool {
    i matches sexpr::Item::List(l) && (l.lead matches sexpr::ListLead::Record || l.lead
        matches sexpr::ListLead::Union || l.lead matches sexpr::ListLead::Func)
}

/// Lower a surface-tree root of the prefix/list family, classified the
/// same way: declaration kinds as declarations, record/union/func lists as
/// types, anything else as an expression.
pub fn lower_sexpr_item(i: &sexpr::Item) -> (r: Result<Lowered, LowerError>)
    ensures
        r matches Ok(l) ==> (match l {
            Lowered::Decl(d) => sexpr_is_decl_kind(*i) && sexpr_decl_lowers_to(*i, d),
            Lowered::Type(t) => sexpr_is_type_kind(*i) && sexpr_type_lowers_to(*i, t),
            Lowered::Expr(e) => !sexpr_is_decl_kind(*i) && !sexpr_is_type_kind(*i)
                && sexpr_expr_lowers_to(*i, e),
        }),
        r is Ok <==> (if sexpr_is_decl_kind(*i) {
            sexpr_is_decl(*i)
        } else if sexpr_is_type_kind(*i) {
            sexpr_is_type(*i)
        } else {
            sexpr_is_expr(*i)
        }),
{
    match i {
        sexpr::Item::LetDecl(_) | sexpr::Item::VarDecl(_) => match lower_sexpr_decl(i) {
            Ok(d) => Ok(Lowered::Decl(d)),
            Err(e) => Err(e),
        },
        sexpr::Item::List(l) => match l.lead {
            sexpr::ListLead::Record | sexpr::ListLead::Union | sexpr::ListLead::Func => {
                match lower_sexpr_type(i) {
                    Ok(t) => Ok(Lowered::Type(t)),
                    Err(e) => Err(e),
                }
            },
            _ => match lower_sexpr_expr(i) {
                Ok(e) => Ok(Lowered::Expr(e)),
                Err(e) => Err(e),
            },
        },
        _ => match lower_sexpr_expr(i) {
            Ok(e) => Ok(Lowered::Expr(e)),
            Err(e) => Err(e),
        },
    }
}

// ------------------------------------------------------------------
// Order-preservation laws
// ------------------------------------------------------------------

/// Record field order is preserved through lowering of the infix/block
/// family: when a surface record literal lowers, field `k` of the surface
/// record names field `k` of the canonical record, for every `k`, in
/// declaration order.
pub proof fn lemma_flow_record_field_order(i: flow::Item, t: sem::Type)
    requires
        i matches flow::Item::RecordType(_),
        flow_type_lowers_to(i, t),
    ensures
        t matches sem::Type::Record(_),
        ({
            let r = i->RecordType_0;
            let rr = t->Record_0;
            &&& rr.idents.len() == r.fields.len()
            &&& (forall|k: int|
                0 <= k < r.fields.len() ==> (#[trigger] rr.idents[k]).lit@
                    == r.fields[k].ident.lit@)
        }),
{
}

/// Union variant order is preserved through lowering of the infix/block
/// family, in the same pointwise sense.
pub proof fn lemma_flow_union_variant_order(i: flow::Item, t: sem::Type)
    requires
        i matches flow::Item::UnionType(_),
        flow_type_lowers_to(i, t),
    ensures
        t matches sem::Type::Union(_),
        ({
            let u = i->UnionType_0;
            let uu = t->Union_0;
            &&& uu.idents.len() == u.variants.len()
            &&& (forall|k: int|
                0 <= k < u.variants.len() ==> (#[trigger] uu.idents[k]).lit@
                    == u.variants[k].ident.lit@)
        }),
{
}

/// Record field order is preserved through lowering of the prefix/list
/// family: field `k` of a record list names field `k` of the canonical
/// record, so both surface syntaxes converge on the same field sequence.
pub proof fn lemma_sexpr_record_field_order(i: sexpr::Item, t: sem::Type)
    requires
        i matches sexpr::Item::List(l) && l.lead matches sexpr::ListLead::Record,
        sexpr_type_lowers_to(i, t),
    ensures
        t matches sem::Type::Record(_),
        ({
            let l = i->List_0;
            let rr = t->Record_0;
            &&& rr.idents.len() == l.items.len()
            &&& (forall|k: int|
                0 <= k < l.items.len() ==> ((#[trigger] l.items[k]) matches sexpr::Item::Field(f)
                    && rr.idents[k].lit@ == f.ident.lit@))
        }),
{
}

/// Match pattern order is preserved through lowering of the infix/block
/// family: arm `k` of the canonical match is the lowering of
/// pattern/result pair `k` of the surface match. Pairs are never reordered
/// or deduplicated, so ordered first-match-wins semantics is represented
/// exactly, and a later pair structurally identical to an earlier one is
/// kept in place.
pub proof fn lemma_flow_match_arm_order(i: flow::Item, e: sem::Expr)
    requires
        i matches flow::Item::Match(_),
        flow_expr_lowers_to(i, e),
    ensures
        e matches sem::Expr::Match(_),
        ({
            let m = i->Match_0;
            let me = e->Match_0;
            &&& me.arms.len() == m.patterns.len()
            &&& (forall|k: int|
                0 <= k < m.patterns.len() ==> flow_expr_lowers_to(
                    m.patterns[k].pattern,
                    (#[trigger] me.arms[k]).pattern,
                ) && flow_expr_lowers_to(m.patterns[k].expr, me.arms[k].result))
        }),
{
}

/// Match pattern order is preserved through lowering of the prefix/list
/// family: arm `a` of the canonical match lowers the pair standing at
/// positions `2a+1`, `2a+2` of the match list.
pub proof fn lemma_sexpr_match_arm_order(i: sexpr::Item, e: sem::Expr)
    requires
        i matches sexpr::Item::List(l) && l.lead matches sexpr::ListLead::Match,
        sexpr_expr_lowers_to(i, e),
    ensures
        e matches sem::Expr::Match(_),
        ({
            let l = i->List_0;
            let me = e->Match_0;
            &&& me.arms.len() == (l.items.len() - 1) / 2
            &&& (forall|a: int|
                0 <= a < me.arms.len() ==> sexpr_expr_lowers_to(
                    l.items[2 * a + 1],
                    (#[trigger] me.arms[a]).pattern,
                ) && sexpr_expr_lowers_to(l.items[2 * a + 2], me.arms[a].result))
        }),
{
}

/// The kind tag of an item of the prefix/list family, for diagnostics.
pub fn kind_of_sexpr(i: &sexpr::Item) -> (r: ItemKind)
    ensures
        r == sexpr_kind(*i),
{
    match i {
        sexpr::Item::Nat(_) => ItemKind::Nat,
        sexpr::Item::Ident(_) => ItemKind::Ident,
        sexpr::Item::Field(_) => ItemKind::Field,
        sexpr::Item::Variant(_) => ItemKind::Variant,
        sexpr::Item::LetDecl(_) => ItemKind::LetDecl,
        sexpr::Item::VarDecl(_) => ItemKind::VarDecl,
        sexpr::Item::UnaryOpExpr(_) => ItemKind::UnaryOpExpr,
        sexpr::Item::BinaryOpExpr(_) => ItemKind::BinaryOpExpr,
        sexpr::Item::List(_) => ItemKind::List,
    }
}

/// The kind tag of an item, for diagnostics.
pub fn kind_of_flow(i: &flow::Item) -> (r: ItemKind)
    ensures
        r == flow_kind(*i),
{
    match i {
        flow::Item::Nat(_) => ItemKind::Nat,
        flow::Item::Ident(_) => ItemKind::Ident,
        flow::Item::Tuple(_) => ItemKind::Tuple,
        flow::Item::Block(_) => ItemKind::Block,
        flow::Item::Func(_) => ItemKind::Func,
        flow::Item::Match(_) => ItemKind::Match,
        flow::Item::TypeTuple(_) => ItemKind::TypeTuple,
        flow::Item::RecordType(_) => ItemKind::RecordType,
        flow::Item::UnionType(_) => ItemKind::UnionType,
        flow::Item::FuncType(_) => ItemKind::FuncType,
        flow::Item::UnaryOpExpr(_) => ItemKind::UnaryOpExpr,
        flow::Item::BinaryOpExpr(_) => ItemKind::BinaryOpExpr,
        flow::Item::ApplyExpr(_) => ItemKind::ApplyExpr,
        flow::Item::LetDecl(_) => ItemKind::LetDecl,
        flow::Item::VarDecl(_) => ItemKind::VarDecl,
        flow::Item::TypeAliasDecl(_) => ItemKind::TypeAliasDecl,
    }
}

} // verus!
