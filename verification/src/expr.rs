//! Arithmetic expression trees and their evaluator.
//!
//! An `Expression` is either a literal `i64` leaf or an interior node holding
//! an operator and two owned subtrees.  `eval` reduces a tree to a single
//! value by a post-order walk, with truncating (toward-zero) integer division,
//! reporting division by zero and overflow as errors instead of faulting.

use vstd::prelude::*;

verus! {

/// An operation to perform on two subexpressions.
#[derive(Debug)]
pub enum Operation {
    Add,
    Sub,
    Mul,
    Div,
}

/// An expression, in tree form.
#[derive(Debug)]
pub enum Expression {
    /// An operation on two subexpressions.
    Op { op: Operation, left: Box<Expression>, right: Box<Expression> },
    /// A literal value.
    Value(i64),
}

/// Why evaluation of an expression failed.
#[derive(Debug, Clone, Copy, PartialEq, Eq)]
pub enum EvalError {
    /// A `Div` node whose right subtree evaluated to zero.
    DivideByZero,
    /// An intermediate result fell outside the range of `i64`.
    Overflow,
}

/// Whether a mathematical integer fits in an `i64`.
pub open spec fn in_i64(x: int) -> bool {
    i64::MIN <= x <= i64::MAX
}

/// Truncating (toward-zero) division of `x` by `d`, for `d != 0`.
///
/// Ghost `/` is Euclidean division, which rounds toward negative infinity on
/// a negative dividend; this definition instead divides the magnitudes and
/// reapplies the sign, so `trunc_div(-7, 2) == -3`.
pub open spec fn trunc_div(x: int, d: int) -> int {
    if x == 0 {
        0
    } else if x > 0 && d > 0 {
        x / d
    } else if x < 0 && d < 0 {
        (x * -1) / (d * -1)
    } else if x < 0 {
        ((x * -1) / d) * -1
    } else {
        (x / (d * -1)) * -1
    }
}

/// The result of combining two fully evaluated operands under `op`:
/// the exact value where it fits in an `i64`, an error otherwise.
pub open spec fn apply_op(op: Operation, l: int, r: int) -> Result<int, EvalError> {
    match op {
        Operation::Add => if in_i64(l + r) {
            Ok(l + r)
        } else {
            Err(EvalError::Overflow)
        },
        Operation::Sub => if in_i64(l - r) {
            Ok(l - r)
        } else {
            Err(EvalError::Overflow)
        },
        Operation::Mul => if in_i64(l * r) {
            Ok(l * r)
        } else {
            Err(EvalError::Overflow)
        },
        Operation::Div => if r == 0 {
            Err(EvalError::DivideByZero)
        } else if in_i64(trunc_div(l, r)) {
            Ok(trunc_div(l, r))
        } else {
            Err(EvalError::Overflow)
        },
    }
}

/// The meaning of an expression tree: a post-order evaluation that
/// stops at the first error, taken in left-before-right order.
pub open spec fn eval_spec(e: Expression) -> Result<int, EvalError>
    decreases e,
{
    match e {
        Expression::Value(v) => Ok(v as int),
        Expression::Op { op, left, right } => match eval_spec(*left) {
            Err(err) => Err(err),
            Ok(l) => match eval_spec(*right) {
                Err(err) => Err(err),
                Ok(r) => apply_op(op, l, r),
            },
        },
    }
}

/// An executable evaluation result, read back as a mathematical one.
pub open spec fn result_view(r: Result<i64, EvalError>) -> Result<int, EvalError> {
    match r {
        Ok(v) => Ok(v as int),
        Err(err) => Err(err),
    }
}

/// Reduce an expression tree to its value by a post-order recursive walk.
///
/// Returns the exact value of the tree, `DivideByZero` if a `Div` node's
/// right subtree evaluates to zero, and `Overflow` if any intermediate
/// result falls outside the range of `i64`.
pub fn eval(e: Expression) -> (result: Result<i64, EvalError>)
    ensures
        result_view(result) == eval_spec(e),
    decreases e,
{
    match e {
        Expression::Value(v) => Ok(v),
        Expression::Op { op, left, right } => {
            let l = match eval(*left) {
                Ok(v) => v,
                Err(err) => {
                    return Err(err);
                },
            };
            let r = match eval(*right) {
                Ok(v) => v,
                Err(err) => {
                    return Err(err);
                },
            };
            let combined = match op {
                Operation::Add => l.checked_add(r),
                Operation::Sub => l.checked_sub(r),
                Operation::Mul => l.checked_mul(r),
                Operation::Div => {
                    if r == 0 {
                        return Err(EvalError::DivideByZero);
                    }
                    l.checked_div(r)
                },
            };
            match combined {
                Some(v) => Ok(v),
                None => Err(EvalError::Overflow),
            }
        },
    }
}

/// Law: a leaf evaluates to its own value.
pub proof fn lemma_eval_value(v: i64)
    ensures
        eval_spec(Expression::Value(v)) == Ok::<int, EvalError>(v as int),
{
}

/// Law: an `Add` node over two leaves evaluates to their sum,
/// whenever that sum fits in an `i64`.
pub proof fn lemma_eval_add(a: i64, b: i64)
    requires
        in_i64(a + b),
    ensures
        eval_spec(
            Expression::Op {
                op: Operation::Add,
                left: Box::new(Expression::Value(a)),
                right: Box::new(Expression::Value(b)),
            },
        ) == Ok::<int, EvalError>(a + b),
{
    assert(eval_spec(Expression::Value(a)) == Ok::<int, EvalError>(a as int));
    assert(eval_spec(Expression::Value(b)) == Ok::<int, EvalError>(b as int));
}

/// Law: a `Sub` node over two leaves evaluates to their difference,
/// whenever that difference fits in an `i64`.
pub proof fn lemma_eval_sub(a: i64, b: i64)
    requires
        in_i64(a - b),
    ensures
        eval_spec(
            Expression::Op {
                op: Operation::Sub,
                left: Box::new(Expression::Value(a)),
                right: Box::new(Expression::Value(b)),
            },
        ) == Ok::<int, EvalError>(a - b),
{
    assert(eval_spec(Expression::Value(a)) == Ok::<int, EvalError>(a as int));
    assert(eval_spec(Expression::Value(b)) == Ok::<int, EvalError>(b as int));
}

/// Law: a `Mul` node over two leaves evaluates to their product,
/// whenever that product fits in an `i64`.
pub proof fn lemma_eval_mul(a: i64, b: i64)
    requires
        in_i64(a * b),
    ensures
        eval_spec(
            Expression::Op {
                op: Operation::Mul,
                left: Box::new(Expression::Value(a)),
                right: Box::new(Expression::Value(b)),
            },
        ) == Ok::<int, EvalError>(a * b),
{
    assert(eval_spec(Expression::Value(a)) == Ok::<int, EvalError>(a as int));
    assert(eval_spec(Expression::Value(b)) == Ok::<int, EvalError>(b as int));
}

/// Law: a `Div` node over two leaves, with a nonzero divisor, evaluates to
/// the toward-zero truncated quotient, whenever that quotient fits in an
/// `i64` (every case except `i64::MIN / -1`).
pub proof fn lemma_eval_div(a: i64, b: i64)
    requires
        b != 0,
        in_i64(trunc_div(a as int, b as int)),
    ensures
        eval_spec(
            Expression::Op {
                op: Operation::Div,
                left: Box::new(Expression::Value(a)),
                right: Box::new(Expression::Value(b)),
            },
        ) == Ok::<int, EvalError>(trunc_div(a as int, b as int)),
{
    assert(eval_spec(Expression::Value(a)) == Ok::<int, EvalError>(a as int));
    assert(eval_spec(Expression::Value(b)) == Ok::<int, EvalError>(b as int));
}

/// Law: a `Div` node whose right subtree evaluates to zero fails with
/// `DivideByZero`, whatever the left subtree evaluates to.
pub proof fn lemma_eval_div_by_zero(a: i64)
    ensures
        eval_spec(
            Expression::Op {
                op: Operation::Div,
                left: Box::new(Expression::Value(a)),
                right: Box::new(Expression::Value(0)),
            },
        ) == Err::<int, EvalError>(EvalError::DivideByZero),
{
    assert(eval_spec(Expression::Value(a)) == Ok::<int, EvalError>(a as int));
    assert(eval_spec(Expression::Value(0)) == Ok::<int, EvalError>(0int));
}

/// Law: evaluation composes post-order.  An interior node evaluates by
/// fully evaluating its left subtree, then its right subtree, then
/// combining the two results under its operator.
pub proof fn lemma_eval_composes(op: Operation, left: Expression, right: Expression, x: int, y: int)
    requires
        eval_spec(left) == Ok::<int, EvalError>(x),
        eval_spec(right) == Ok::<int, EvalError>(y),
    ensures
        eval_spec(Expression::Op { op, left: Box::new(left), right: Box::new(right) })
            == apply_op(op, x, y),
{
}

} // verus!
