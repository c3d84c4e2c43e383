//! The expression tree that the pass reads and rebuilds.
use vstd::prelude::*;

verus! {

/// A source position: byte offsets and a syntax context.
#[derive(Clone, Copy, Debug, PartialEq, Eq, Structural)]
pub struct Span {
    pub lo: u32,
    pub hi: u32,
    pub ctxt: u32,
}

/// Prefix operators.
#[derive(Clone, Copy, Debug, PartialEq, Eq, Structural)]
pub enum UnaryOp {
    Minus,
    Plus,
    Bang,
    Tilde,
    TypeOf,
    Void,
    Delete,
}

/// Infix operators.
#[derive(Clone, Copy, Debug, PartialEq, Eq, Structural)]
pub enum BinaryOp {
    EqEq,
    NotEq,
    EqEqEq,
    NotEqEq,
    Lt,
    LtEq,
    Gt,
    GtEq,
    LShift,
    RShift,
    ZeroFillRShift,
    Add,
    Sub,
    Mul,
    Div,
    Mod,
    BitOr,
    BitXor,
    BitAnd,
    LogicalOr,
    LogicalAnd,
    In,
    InstanceOf,
    Exp,
    NullishCoalescing,
}

/// Literals. A number keeps its source text.
#[derive(Debug, PartialEq, Eq)]
pub enum Lit {
    Str { span: Span, value: String },
    Bool { span: Span, is_true: bool },
    Null { span: Span },
    Num { span: Span, raw: String },
}

/// A binary expression `left op right`.
#[derive(Debug, PartialEq, Eq)]
pub struct BinExpr {
    pub span: Span,
    pub op: BinaryOp,
    pub left: Box<Expr>,
    pub right: Box<Expr>,
}

/// An expression.
///
/// `Compound` stands for every other shape of the grammar (member access,
/// conditional, array, object, function, sequence, ...): a tag naming the
/// shape and its child expressions in source order.
#[derive(Debug, PartialEq, Eq)]
pub enum Expr {
    Ident { span: Span, sym: String },
    Lit(Lit),
    Unary { span: Span, op: UnaryOp, arg: Box<Expr> },
    Bin(BinExpr),
    Call { span: Span, callee: Box<Expr>, args: Vec<Expr> },
    /// A reference to a named runtime helper, to be defined once per module
    /// by whoever injects helpers.
    Helper { span: Span, name: String },
    Compound { span: Span, kind: String, children: Vec<Expr> },
}

/// True iff a `typeof` operator occurs anywhere in `e`.
pub open spec fn contains_typeof(e: Expr) -> bool
    decreases e,
{
    match e {
        Expr::Unary { op, arg, .. } => op == UnaryOp::TypeOf || contains_typeof(*arg),
        Expr::Bin(b) => contains_typeof(*b.left) || contains_typeof(*b.right),
        Expr::Call { callee, args, .. } => contains_typeof(*callee) || any_contains_typeof(args@),
        Expr::Compound { children, .. } => any_contains_typeof(children@),
        _ => false,
    }
}

/// True iff a `typeof` operator occurs anywhere in one of `es`.
pub open spec fn any_contains_typeof(es: Seq<Expr>) -> bool
    decreases es,
{
    if es.len() == 0 {
        false
    } else {
        any_contains_typeof(es.drop_last()) || contains_typeof(es.last())
    }
}

/// `any_contains_typeof` holds exactly when some element contains `typeof`.
pub proof fn lemma_any_contains_typeof(es: Seq<Expr>)
    ensures
        any_contains_typeof(es) <==> exists|i: int|
            0 <= i < es.len() && #[trigger] contains_typeof(es[i]),
    decreases es.len(),
{
    if es.len() > 0 {
        let init = es.drop_last();
        lemma_any_contains_typeof(init);
        assert(any_contains_typeof(es) == (any_contains_typeof(init) || contains_typeof(es.last())));
        assert(es.last() == es[es.len() - 1]);
        if any_contains_typeof(init) {
            let i = choose|i: int| 0 <= i < init.len() && #[trigger] contains_typeof(init[i]);
            assert(contains_typeof(es[i]));
        }
        if exists|i: int| 0 <= i < es.len() && #[trigger] contains_typeof(es[i]) {
            let i = choose|i: int| 0 <= i < es.len() && #[trigger] contains_typeof(es[i]);
            if i < es.len() - 1 {
                assert(contains_typeof(init[i]));
            }
        }
    }
}

} // verus!
