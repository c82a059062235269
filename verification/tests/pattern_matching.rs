use etudes::expr::{eval, EvalError, Expression, Operation};
use etudes::numbers::{divide_in_two, Halving};

#[test]
fn test_value() {
    assert_eq!(eval(Expression::Value(19)), Ok(19));
}

#[test]
fn test_sum() {
    assert_eq!(
        eval(Expression::Op {
            op: Operation::Add,
            left: Box::new(Expression::Value(10)),
            right: Box::new(Expression::Value(20)),
        }),
        Ok(30)
    );
}

#[test]
fn test_recursion() {
    let term1 = Expression::Op {
        op: Operation::Mul,
        left: Box::new(Expression::Value(10)),
        right: Box::new(Expression::Value(9)),
    };
    let term2 = Expression::Op {
        op: Operation::Mul,
        left: Box::new(Expression::Op {
            op: Operation::Sub,
            left: Box::new(Expression::Value(3)),
            right: Box::new(Expression::Value(4)),
        }),
        right: Box::new(Expression::Value(5)),
    };
    assert_eq!(
        eval(Expression::Op {
            op: Operation::Add,
            left: Box::new(term1),
            right: Box::new(term2),
        }),
        Ok(85)
    );
}

#[test]
fn test_zeros() {
    assert_eq!(
        eval(Expression::Op {
            op: Operation::Add,
            left: Box::new(Expression::Value(0)),
            right: Box::new(Expression::Value(0))
        }),
        Ok(0)
    );
    assert_eq!(
        eval(Expression::Op {
            op: Operation::Mul,
            left: Box::new(Expression::Value(0)),
            right: Box::new(Expression::Value(0))
        }),
        Ok(0)
    );
    assert_eq!(
        eval(Expression::Op {
            op: Operation::Sub,
            left: Box::new(Expression::Value(0)),
            right: Box::new(Expression::Value(0))
        }),
        Ok(0)
    );
}

#[test]
fn test_div() {
    assert_eq!(
        eval(Expression::Op {
            op: Operation::Div,
            left: Box::new(Expression::Value(10)),
            right: Box::new(Expression::Value(2)),
        }),
        Ok(5)
    )
}

#[test]
fn test_sub_of_values() {
    assert_eq!(
        eval(Expression::Op {
            op: Operation::Sub,
            left: Box::new(Expression::Value(3)),
            right: Box::new(Expression::Value(4)),
        }),
        Ok(-1)
    );
}

#[test]
fn test_mul_of_values() {
    assert_eq!(
        eval(Expression::Op {
            op: Operation::Mul,
            left: Box::new(Expression::Value(10)),
            right: Box::new(Expression::Value(9)),
        }),
        Ok(90)
    );
}

#[test]
fn test_div_truncates_toward_zero() {
    assert_eq!(
        eval(Expression::Op {
            op: Operation::Div,
            left: Box::new(Expression::Value(-7)),
            right: Box::new(Expression::Value(2)),
        }),
        Ok(-3)
    );
}

#[test]
fn test_div_by_zero_fails() {
    assert_eq!(
        eval(Expression::Op {
            op: Operation::Div,
            left: Box::new(Expression::Value(11)),
            right: Box::new(Expression::Value(0)),
        }),
        Err(EvalError::DivideByZero)
    );
}

#[test]
fn test_add_overflow_fails() {
    assert_eq!(
        eval(Expression::Op {
            op: Operation::Add,
            left: Box::new(Expression::Value(i64::MAX)),
            right: Box::new(Expression::Value(1)),
        }),
        Err(EvalError::Overflow)
    );
}

#[test]
fn test_div_overflow_fails() {
    assert_eq!(
        eval(Expression::Op {
            op: Operation::Div,
            left: Box::new(Expression::Value(i64::MIN)),
            right: Box::new(Expression::Value(-1)),
        }),
        Err(EvalError::Overflow)
    );
}

#[test]
fn test_error_propagates_from_left_subtree() {
    assert_eq!(
        eval(Expression::Op {
            op: Operation::Add,
            left: Box::new(Expression::Op {
                op: Operation::Div,
                left: Box::new(Expression::Value(1)),
                right: Box::new(Expression::Value(0)),
            }),
            right: Box::new(Expression::Value(5)),
        }),
        Err(EvalError::DivideByZero)
    );
}

#[test]
fn test_divide_in_two_even() {
    match divide_in_two(10) {
        Halving::Exact(half) => assert_eq!(half, 5),
        Halving::Uneven(_) => panic!("ten divides evenly"),
    }
    match divide_in_two(-4) {
        Halving::Exact(half) => assert_eq!(half, -2),
        Halving::Uneven(_) => panic!("minus four divides evenly"),
    }
}

#[test]
fn test_divide_in_two_odd() {
    match divide_in_two(7) {
        Halving::Exact(_) => panic!("seven does not divide evenly"),
        Halving::Uneven(message) => {
            assert_eq!(message, "cannot divide 7 into two equal parts");
        }
    }
    match divide_in_two(-3) {
        Halving::Exact(_) => panic!("minus three does not divide evenly"),
        Halving::Uneven(message) => {
            assert_eq!(message, "cannot divide -3 into two equal parts");
        }
    }
}
