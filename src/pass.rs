//! The pass: every `typeof x` becomes a call of the `typeof` runtime helper,
//! except where it is compared for equality with a tag string that a Symbol
//! value can never produce.
use vstd::prelude::*;
use crate::ast::{BinExpr, BinaryOp, Expr, Lit, Span, UnaryOp, any_contains_typeof, contains_typeof,
    lemma_any_contains_typeof};

verus! {

/// The tags `typeof` gives for every type but Symbol. `"symbol"` is not one.
pub open spec fn is_protected_tag(s: Seq<char>) -> bool {
    s == "undefined"@ || s == "object"@ || s == "boolean"@ || s == "number"@ || s == "string"@
        || s == "function"@
}

/// `e` is a string literal holding one of the protected tags, exactly.
pub open spec fn is_protected_literal(e: Expr) -> bool {
    match e {
        Expr::Lit(Lit::Str { value, .. }) => is_protected_tag(value@),
        _ => false,
    }
}

/// `e` is itself a `typeof` expression (not merely one that holds one).
pub open spec fn is_typeof(e: Expr) -> bool {
    match e {
        Expr::Unary { op, .. } => op == UnaryOp::TypeOf,
        _ => false,
    }
}

/// `==`, `!=`, `===` and `!==`.
pub open spec fn is_equality(op: BinaryOp) -> bool {
    op == BinaryOp::EqEq || op == BinaryOp::NotEq || op == BinaryOp::EqEqEq || op
        == BinaryOp::NotEqEq
}

/// An equality comparison of a `typeof` operand with a protected tag, in
/// either order: the pass leaves it as it stands.
pub open spec fn is_protected_comparison(b: BinExpr) -> bool {
    is_equality(b.op) && ((is_typeof(*b.left) && is_protected_literal(*b.right)) || (is_typeof(
        *b.right,
    ) && is_protected_literal(*b.left)))
}

/// `h` is a reference to the `typeof` runtime helper at `span`.
pub open spec fn is_typeof_helper(h: Expr, span: Span) -> bool {
    match h {
        Expr::Helper { span: s, name } => s == span && name@ == "typeof"@,
        _ => false,
    }
}

/// `r` is what the pass makes of `e`.
///
/// A tree without `typeof` is kept as it is. Otherwise the children are
/// rewritten first; then a `typeof x` becomes a call of the `typeof` helper
/// on the rewritten `x`, at the same span.
pub open spec fn folds_to(e: Expr, r: Expr) -> bool
    decreases e,
{
    if !contains_typeof(e) {
        r == e
    } else {
        match e {
            Expr::Unary { span, op, arg } => {
                if op == UnaryOp::TypeOf {
                    match r {
                        Expr::Call { span: s, callee, args } => s == span && is_typeof_helper(
                            *callee,
                            span,
                        ) && args@.len() == 1 && folds_to(*arg, args@[0]),
                        _ => false,
                    }
                } else {
                    match r {
                        Expr::Unary { span: s, op: o, arg: a } => s == span && o == op && folds_to(
                            *arg,
                            *a,
                        ),
                        _ => false,
                    }
                }
            },
            Expr::Bin(b) => match r {
                Expr::Bin(rb) => bin_folds_to(b, rb),
                _ => false,
            },
            Expr::Call { span, callee, args } => match r {
                Expr::Call { span: s, callee: c, args: a } => s == span && folds_to(*callee, *c)
                    && all_fold_to(args@, a@),
                _ => false,
            },
            Expr::Compound { span, kind, children } => match r {
                Expr::Compound { span: s, kind: k, children: c } => s == span && k == kind
                    && all_fold_to(children@, c@),
                _ => false,
            },
            _ => r == e,
        }
    }
}

/// `r` is what the pass makes of the binary expression `b`: a protected
/// comparison is kept whole, anything else has both operands rewritten.
pub open spec fn bin_folds_to(b: BinExpr, r: BinExpr) -> bool
    decreases b,
{
    if is_protected_comparison(b) {
        r == b
    } else {
        r.span == b.span && r.op == b.op && folds_to(*b.left, *r.left) && folds_to(
            *b.right,
            *r.right,
        )
    }
}

/// `rs` is `es` rewritten element by element.
pub open spec fn all_fold_to(es: Seq<Expr>, rs: Seq<Expr>) -> bool
    decreases es,
{
    es.len() == rs.len() && (es.len() > 0 ==> all_fold_to(es.drop_last(), rs.drop_last())
        && folds_to(es.last(), rs.last()))
}

/// `typeof x`, at `span`.
pub open spec fn typeof_of(span: Span, x: Expr) -> Expr {
    Expr::Unary { span, op: UnaryOp::TypeOf, arg: Box::new(x) }
}

/// The string literal `value`, at `span`.
pub open spec fn str_lit(span: Span, value: String) -> Expr {
    Expr::Lit(Lit::Str { span, value })
}

/// `left op right`, at `span`.
pub open spec fn bin(span: Span, op: BinaryOp, left: Expr, right: Expr) -> Expr {
    Expr::Bin(BinExpr { span, op, left: Box::new(left), right: Box::new(right) })
}

/// A call of the `typeof` helper on `arg`, at `span`.
pub open spec fn is_helper_call(r: Expr, span: Span, arg: Expr) -> bool {
    match r {
        Expr::Call { span: s, callee, args } => s == span && is_typeof_helper(*callee, span)
            && args@ == seq![arg],
        _ => false,
    }
}

/// Does `e` contain a `typeof` operator anywhere?
pub fn should_work(e: &Expr) -> (r: bool)
    ensures
        r == contains_typeof(*e),
    decreases e,
{
    match e {
        Expr::Unary { op: UnaryOp::TypeOf, .. } => true,
        Expr::Unary { arg, .. } => should_work(arg),
        Expr::Bin(b) => should_work(&b.left) || should_work(&b.right),
        Expr::Call { callee, args, .. } => should_work(callee) || any_should_work(args),
        Expr::Compound { children, .. } => any_should_work(children),
        _ => false,
    }
}

/// Does any expression of `es` contain a `typeof` operator?
fn any_should_work(es: &Vec<Expr>) -> (r: bool)
    ensures
        r == any_contains_typeof(es@),
    decreases es,
{
    proof {
        lemma_any_contains_typeof(es@);
    }
    let mut i: usize = 0;
    while i < es.len()
        invariant
            i <= es@.len(),
            forall|j: int| 0 <= j < i ==> !#[trigger] contains_typeof(es@[j]),
            any_contains_typeof(es@) <==> exists|j: int|
                0 <= j < es@.len() && #[trigger] contains_typeof(es@[j]),
        decreases es@.len() - i,
    {
        if should_work(&es[i]) {
            assert(contains_typeof(es@[i as int]));
            return true;
        }
        i = i + 1;
    }
    false
}

/// Is `e` a string literal whose value is exactly one of the protected tags?
pub fn is_non_symbol_literal(e: &Expr) -> (r: bool)
    ensures
        r == is_protected_literal(*e),
{
    match e {
        Expr::Lit(Lit::Str { value, .. }) => {
            *value == "undefined".to_owned() || *value == "object".to_owned() || *value
                == "boolean".to_owned() || *value == "number".to_owned() || *value
                == "string".to_owned() || *value == "function".to_owned()
        },
        _ => false,
    }
}

/// Is `e` itself a `typeof` expression?
fn is_typeof_expr(e: &Expr) -> (r: bool)
    ensures
        r == is_typeof(*e),
{
    match e {
        Expr::Unary { op: UnaryOp::TypeOf, .. } => true,
        _ => false,
    }
}

/// Is `op` one of `==`, `!=`, `===`, `!==`?
fn is_equality_op(op: BinaryOp) -> (r: bool)
    ensures
        r == is_equality(op),
{
    match op {
        BinaryOp::EqEq | BinaryOp::NotEq | BinaryOp::EqEqEq | BinaryOp::NotEqEq => true,
        _ => false,
    }
}

/// A reference to the `typeof` runtime helper.
fn typeof_helper(span: Span) -> (r: Expr)
    ensures
        is_typeof_helper(r, span),
{
    Expr::Helper { span, name: "typeof".to_owned() }
}

/// The pass. It holds no state: each tree is rewritten on its own.
#[derive(Clone, Copy, Debug)]
pub struct TypeOfSymbol;

impl TypeOfSymbol {
    /// Rewrites the `typeof` uses of `e` into helper calls, keeping
    /// comparisons with a protected tag as they are.
    pub fn fold_expr(&self, e: Expr) -> (r: Expr)
        ensures
            folds_to(e, r),
        decreases e,
    {
        if !should_work(&e) {
            return e;
        }
        match e {
            Expr::Unary { span, op, arg } => {
                let arg = self.fold_expr(*arg);
                match op {
                    UnaryOp::TypeOf => Expr::Call {
                        span,
                        callee: Box::new(typeof_helper(span)),
                        args: vec![arg],
                    },
                    _ => Expr::Unary { span, op, arg: Box::new(arg) },
                }
            },
            Expr::Bin(b) => Expr::Bin(self.fold_bin_expr(b)),
            Expr::Call { span, callee, args } => {
                let callee = self.fold_expr(*callee);
                let args = self.fold_exprs(args);
                Expr::Call { span, callee: Box::new(callee), args }
            },
            Expr::Compound { span, kind, children } => {
                let children = self.fold_exprs(children);
                Expr::Compound { span, kind, children }
            },
            other => other,
        }
    }

    /// Rewrites both operands of `b`, unless `b` compares a `typeof` operand
    /// for equality with a protected tag, in which case `b` is kept whole.
    pub fn fold_bin_expr(&self, b: BinExpr) -> (r: BinExpr)
        ensures
            bin_folds_to(b, r),
        decreases b,
    {
        if is_equality_op(b.op) {
            if is_typeof_expr(&b.left) && is_non_symbol_literal(&b.right) {
                return b;
            }
            if is_typeof_expr(&b.right) && is_non_symbol_literal(&b.left) {
                return b;
            }
        }
        let BinExpr { span, op, left, right } = b;
        let left = self.fold_expr(*left);
        let right = self.fold_expr(*right);
        BinExpr { span, op, left: Box::new(left), right: Box::new(right) }
    }

    /// Rewrites each expression of `es`, in order.
    fn fold_exprs(&self, es: Vec<Expr>) -> (r: Vec<Expr>)
        ensures
            all_fold_to(es@, r@),
        decreases es,
    {
        let ghost whole = es@;
        let mut out: Vec<Expr> = Vec::new();
        for c in it: es
            invariant
                it.seq() == whole,
                out@.len() == it.index(),
                all_fold_to(whole.subrange(0, it.index() as int), out@),
        {
            let rc = self.fold_expr(c);
            let ghost prev = out@;
            out.push(rc);
            assert(whole.subrange(0, it.index() + 1).drop_last() =~= whole.subrange(0, it.index() as int));
            assert(out@.drop_last() =~= prev);
        }
        assert(whole.subrange(0, whole.len() as int) =~= whole);
        out
    }
}

/// A tree without `typeof` comes out of the pass exactly as it went in,
/// spans included.
pub proof fn lemma_unchanged_without_typeof(e: Expr, r: Expr)
    requires
        !contains_typeof(e),
        folds_to(e, r),
    ensures
        r == e,
{
}

/// A `typeof x` that stands on its own becomes a call of the `typeof`
/// helper, at the same span, on what the pass makes of `x`.
pub proof fn lemma_typeof_becomes_helper_call(span: Span, x: Expr, r: Expr)
    requires
        folds_to(typeof_of(span, x), r),
    ensures
        exists|rx: Expr| folds_to(x, rx) && is_helper_call(r, span, rx),
{
    let rx = match r {
        Expr::Call { args, .. } => args@[0],
        _ => x,
    };
    match r {
        Expr::Call { args, .. } => assert(args@ =~= seq![rx]),
        _ => {},
    }
    assert(folds_to(x, rx) && is_helper_call(r, span, rx));
}

/// An equality comparison of `typeof x` with a protected tag is kept whole,
/// with the `typeof` on either side.
pub proof fn lemma_protected_comparison_kept(
    span: Span,
    op: BinaryOp,
    tspan: Span,
    x: Expr,
    lspan: Span,
    tag: String,
    r1: Expr,
    r2: Expr,
)
    requires
        is_equality(op),
        is_protected_tag(tag@),
        folds_to(bin(span, op, typeof_of(tspan, x), str_lit(lspan, tag)), r1),
        folds_to(bin(span, op, str_lit(lspan, tag), typeof_of(tspan, x)), r2),
    ensures
        r1 == bin(span, op, typeof_of(tspan, x), str_lit(lspan, tag)),
        r2 == bin(span, op, str_lit(lspan, tag), typeof_of(tspan, x)),
{
    reveal_with_fuel(folds_to, 2);
    assert(contains_typeof(typeof_of(tspan, x)));
}

/// Compared with a string literal that is not exactly a protected tag
/// (`"symbol"`, `"Undefined"`, ...), `typeof x` is still rewritten, on
/// either side; the comparison and the literal stay as they are.
pub proof fn lemma_unprotected_comparison_rewritten(
    span: Span,
    op: BinaryOp,
    tspan: Span,
    x: Expr,
    lspan: Span,
    value: String,
    r1: Expr,
    r2: Expr,
)
    requires
        !is_protected_tag(value@),
        folds_to(bin(span, op, typeof_of(tspan, x), str_lit(lspan, value)), r1),
        folds_to(bin(span, op, str_lit(lspan, value), typeof_of(tspan, x)), r2),
    ensures
        match r1 {
            Expr::Bin(b) => b.span == span && b.op == op && *b.right == str_lit(lspan, value)
                && exists|rx: Expr| folds_to(x, rx) && is_helper_call(*b.left, tspan, rx),
            _ => false,
        },
        match r2 {
            Expr::Bin(b) => b.span == span && b.op == op && *b.left == str_lit(lspan, value)
                && exists|rx: Expr| folds_to(x, rx) && is_helper_call(*b.right, tspan, rx),
            _ => false,
        },
{
    reveal_with_fuel(folds_to, 3);
    assert(contains_typeof(typeof_of(tspan, x)));
    assert(!contains_typeof(str_lit(lspan, value)));
    match r1 {
        Expr::Bin(b) => lemma_typeof_becomes_helper_call(tspan, x, *b.left),
        _ => {},
    }
    match r2 {
        Expr::Bin(b) => lemma_typeof_becomes_helper_call(tspan, x, *b.right),
        _ => {},
    }
}

/// `typeof x` compared with `"symbol"` is rewritten: `"symbol"` is not a
/// protected tag, since it is the one answer the helper corrects.
pub proof fn lemma_symbol_comparison_rewritten(
    span: Span,
    op: BinaryOp,
    tspan: Span,
    x: Expr,
    lspan: Span,
    value: String,
    r: Expr,
)
    requires
        value@ == "symbol"@,
        folds_to(bin(span, op, typeof_of(tspan, x), str_lit(lspan, value)), r),
    ensures
        match r {
            Expr::Bin(b) => b.span == span && b.op == op && *b.right == str_lit(lspan, value)
                && exists|rx: Expr| folds_to(x, rx) && is_helper_call(*b.left, tspan, rx),
            _ => false,
        },
{
    reveal_strlit("symbol");
    reveal_strlit("undefined");
    reveal_strlit("object");
    reveal_strlit("boolean");
    reveal_strlit("number");
    reveal_strlit("string");
    reveal_strlit("function");
    assert(!is_protected_tag(value@)) by {
        assert(value@.len() == 6 && value@[0] == 's' && value@[1] == 'y');
        assert("undefined"@.len() == 9 && "boolean"@.len() == 7 && "function"@.len() == 8);
        assert("object"@[0] == 'o' && "number"@[0] == 'n' && "string"@[1] == 't');
    }
    reveal_with_fuel(folds_to, 3);
    assert(contains_typeof(typeof_of(tspan, x)));
    assert(!contains_typeof(str_lit(lspan, value)));
    match r {
        Expr::Bin(b) => lemma_typeof_becomes_helper_call(tspan, x, *b.left),
        _ => {},
    }
}

} // verus!
