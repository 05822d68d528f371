//! One step of compile-time integer folding: the value of a unary or binary
//! integer operation whose operands are known, when it fits in `i64`.
use vstd::prelude::*;
use crate::dialect::{PineDialect, dialect_version, dialect_number};
use crate::syntax::{BinaryOp, UnaryOp};
use crate::types::{PineType, ValueKind};

verus! {

/// Whether a mathematical integer fits in `i64`.
pub open spec fn fits_i64(v: int) -> bool {
    i64::MIN <= v <= i64::MAX
}

/// The quotient of `x` by `d` rounded towards zero, as Rust's `/` on
/// integers computes it.
pub open spec fn trunc_div(x: int, d: int) -> int {
    if (x >= 0) == (d > 0) {
        abs(x) / abs(d)
    } else {
        -(abs(x) / abs(d))
    }
}

/// The remainder that goes with `trunc_div`: it takes the sign of `x`.
pub open spec fn trunc_rem(x: int, d: int) -> int {
    x - d * trunc_div(x, d)
}

pub open spec fn abs(x: int) -> int {
    if x < 0 { -x } else { x }
}

/// The folded value of `op` on `value`: `+` keeps it, `-` negates it when the
/// negation fits, and `not` is no integer operation.
pub open spec fn folded_int_unary(op: UnaryOp, value: i64) -> Option<i64> {
    match op {
        UnaryOp::Plus => Some(value),
        UnaryOp::Minus => if fits_i64(-value) { Some((-value) as i64) } else { None },
        UnaryOp::Not => None,
    }
}

/// The folded value of `left op right`: the exact result of `+ - *`, the
/// quotient rounded towards zero (up to v5 only, where `/` on two integers
/// stays an integer) and the remainder, when the divisor is not zero and
/// the result fits in `i64`; no value for the other operators.  Like Rust's
/// `checked_rem`, the remainder of `i64::MIN` by `-1` has no value.
pub open spec fn folded_int_binary(op: BinaryOp, dialect: PineDialect, left: i64, right: i64) -> Option<i64> {
    let exact: Option<int> = match op {
        BinaryOp::Add => Some(left + right),
        BinaryOp::Sub => Some(left - right),
        BinaryOp::Mul => Some(left * right),
        BinaryOp::Div => if right != 0 && dialect_version(dialect) <= 5 {
            Some(trunc_div(left as int, right as int))
        } else {
            None
        },
        BinaryOp::Mod => if right != 0 && !(left == i64::MIN && right == -1) {
            Some(trunc_rem(left as int, right as int))
        } else {
            None
        },
        _ => None,
    };
    match exact {
        Some(v) => if fits_i64(v) { Some(v as i64) } else { None },
        None => None,
    }
}

/// Folds a unary operator applied to a known integer.
pub fn fold_int_unary(op: UnaryOp, value: i64) -> (r: Option<i64>)
    ensures
        r == folded_int_unary(op, value),
{
    match op {
        UnaryOp::Plus => Some(value),
        UnaryOp::Minus => if value == i64::MIN {
            None
        } else {
            Some(-value)
        },
        UnaryOp::Not => None,
    }
}

proof fn lemma_checked_div_is_trunc(x: i64, d: i64)
    requires
        d != 0,
    ensures
        x.checked_div(d) == (if fits_i64(trunc_div(x as int, d as int)) {
            Some(trunc_div(x as int, d as int) as i64)
        } else {
            None::<i64>
        }),
{
    let xi = x as int;
    let di = d as int;
    if xi == 0 {
        assert(abs(xi) / abs(di) == 0) by (nonlinear_arith)
            requires xi == 0, abs(di) > 0;
    } else if xi > 0 && di > 0 {
    } else if xi < 0 && di < 0 {
        assert(xi * -1 == abs(xi));
        assert(di * -1 == abs(di));
    } else if xi < 0 {
        assert(xi * -1 == abs(xi));
        assert((abs(xi) / di) * -1 == -(abs(xi) / abs(di)));
    } else {
        assert(di * -1 == abs(di));
        assert((xi / abs(di)) * -1 == -(abs(xi) / abs(di)));
    }
}

proof fn lemma_checked_rem_is_trunc(x: i64, d: i64)
    requires
        d != 0,
    ensures
        x.checked_rem(d) == (if fits_i64(trunc_rem(x as int, d as int)) && !(x == i64::MIN && d == -1) {
            Some(trunc_rem(x as int, d as int) as i64)
        } else {
            None::<i64>
        }),
{
    let xi = x as int;
    let di = d as int;
    let q = abs(xi) / abs(di);
    let m = abs(xi) % abs(di);
    assert(abs(xi) == abs(di) * q + m && 0 <= m < abs(di)) by (nonlinear_arith)
        requires abs(di) > 0, q == abs(xi) / abs(di), m == abs(xi) % abs(di), abs(xi) >= 0;
    assert(fits_i64(trunc_rem(xi, di))) by (nonlinear_arith)
        requires
            abs(xi) == abs(di) * q + m, 0 <= m < abs(di), abs(di) <= 0x8000_0000_0000_0000,
            trunc_rem(xi, di) == xi - di * trunc_div(xi, di),
            trunc_div(xi, di) == (if (xi >= 0) == (di > 0) { q } else { -q }),
            abs(xi) == (if xi < 0 { -xi } else { xi }), abs(di) == (if di < 0 { -di } else { di });
    let t = trunc_rem(xi, di);
    if xi == 0 {
        assert(q == 0) by (nonlinear_arith)
            requires xi == 0, abs(di) > 0, q == abs(xi) / abs(di);
        assert(t == 0);
    } else if xi > 0 && di > 0 {
        assert(xi % di == t) by (nonlinear_arith)
            requires di > 0, xi > 0, t == xi - di * q, q == xi / di;
    } else if xi < 0 && di < 0 {
        assert(((xi * -1) % (di * -1)) * -1 == t) by (nonlinear_arith)
            requires xi < 0, di < 0, t == xi - di * q, q == (-xi) / (-di);
    } else if xi < 0 {
        assert(((xi * -1) % di) * -1 == t) by (nonlinear_arith)
            requires xi < 0, di > 0, t == xi - di * (-q), q == (-xi) / di;
    } else {
        assert(xi % (di * -1) == t) by (nonlinear_arith)
            requires xi > 0, di < 0, t == xi - di * (-q), q == xi / (-di);
    }
}

/// Folds a binary operator applied to two known integers.
pub fn fold_int_binary(op: BinaryOp, dialect: PineDialect, left: i64, right: i64) -> (r: Option<i64>)
    ensures
        r == folded_int_binary(op, dialect, left, right),
{
    match op {
        BinaryOp::Add => left.checked_add(right),
        BinaryOp::Sub => left.checked_sub(right),
        BinaryOp::Mul => left.checked_mul(right),
        BinaryOp::Div => {
            if right == 0 || dialect_number(dialect) > 5 {
                None
            } else {
                proof {
                    lemma_checked_div_is_trunc(left, right);
                }
                left.checked_div(right)
            }
        },
        BinaryOp::Mod => {
            if right == 0 {
                None
            } else {
                proof {
                    lemma_checked_rem_is_trunc(left, right);
                    lemma_checked_div_is_trunc(left, right);
                }
                left.checked_rem(right)
            }
        },
        _ => None,
    }
}

/// Folded `+` and `*` do not depend on the order of their operands.
pub proof fn lemma_fold_add_mul_commute(dialect: PineDialect, a: i64, b: i64)
    ensures
        folded_int_binary(BinaryOp::Add, dialect, a, b) == folded_int_binary(BinaryOp::Add, dialect, b, a),
        folded_int_binary(BinaryOp::Mul, dialect, a, b) == folded_int_binary(BinaryOp::Mul, dialect, b, a),
{
    assert(a * b == b * a) by (nonlinear_arith);
}

/// Where both the folded quotient and the folded remainder exist, they give
/// back the dividend, and the remainder is smaller than the divisor and takes
/// the sign of the dividend.
pub proof fn lemma_fold_division_identity(dialect: PineDialect, left: i64, right: i64)
    requires
        folded_int_binary(BinaryOp::Div, dialect, left, right) is Some,
        folded_int_binary(BinaryOp::Mod, dialect, left, right) is Some,
    ensures
        ({
            let q = folded_int_binary(BinaryOp::Div, dialect, left, right)->0;
            let m = folded_int_binary(BinaryOp::Mod, dialect, left, right)->0;
            &&& left == q * right + m
            &&& abs(m as int) < abs(right as int)
            &&& (m == 0 || (m > 0) == (left > 0))
        }),
{
    let xi = left as int;
    let di = right as int;
    let q = abs(xi) / abs(di);
    let m = abs(xi) % abs(di);
    assert(abs(xi) == abs(di) * q + m && 0 <= m < abs(di)) by (nonlinear_arith)
        requires abs(di) > 0, q == abs(xi) / abs(di), m == abs(xi) % abs(di), abs(xi) >= 0;
    let t = trunc_div(xi, di);
    assert(xi == t * di + (xi - di * t)) by (nonlinear_arith);
    if (xi >= 0) == (di > 0) {
        assert(xi - di * t == (if xi >= 0 { m } else { -m })) by (nonlinear_arith)
            requires
                t == q, abs(xi) == abs(di) * q + m,
                (xi >= 0) == (di > 0),
                abs(xi) == (if xi < 0 { -xi } else { xi }), abs(di) == (if di < 0 { -di } else { di });
    } else {
        assert(xi - di * t == (if xi >= 0 { m } else { -m })) by (nonlinear_arith)
            requires
                t == -q, abs(xi) == abs(di) * q + m,
                (xi >= 0) != (di > 0),
                abs(xi) == (if xi < 0 { -xi } else { xi }), abs(di) == (if di < 0 { -di } else { di });
    }
}

/// A constant integer for range validation, keeping apart an unknown value
/// and a statically integer value that `i64` cannot hold: the known integer
/// when there is one; otherwise, for an expression of integer type whose
/// numeric value is known, that value where it is exactly an `i64`
/// (`numeric` is `Some(Some(v))`) and `Err` where it is not (`Some(None)`).
pub open spec fn int_for_validation(
    int_value: Option<i64>,
    expr_type: Option<PineType>,
    numeric: Option<Option<i64>>,
) -> Option<Result<i64, ()>> {
    match int_value {
        Some(v) => Some(Ok(v)),
        None => match expr_type {
            Some(t) => if t.kind == ValueKind::Int {
                match numeric {
                    Some(Some(v)) => Some(Ok(v)),
                    Some(None) => Some(Err(())),
                    None => None,
                }
            } else {
                None
            },
            None => None,
        },
    }
}

pub fn known_const_int_for_validation(
    int_value: Option<i64>,
    expr_type: Option<PineType>,
    numeric: Option<Option<i64>>,
) -> (r: Option<Result<i64, ()>>)
    ensures
        r == int_for_validation(int_value, expr_type, numeric),
{
    if let Some(v) = int_value {
        return Some(Ok(v));
    }
    match expr_type {
        Some(t) => if t.kind == ValueKind::Int {
            match numeric {
                Some(Some(v)) => Some(Ok(v)),
                Some(None) => Some(Err(())),
                None => None,
            }
        } else {
            None
        },
        None => None,
    }
}

/// A constant integer for an argument that is consumed as an integer at run
/// time: the known integer; `Err` for an expression of integer type whose
/// value is known only as a number (it has become a float); none otherwise.
pub open spec fn strict_int_for_validation(
    int_value: Option<i64>,
    expr_type: Option<PineType>,
    numeric_known: bool,
) -> Option<Result<i64, ()>> {
    match int_value {
        Some(v) => Some(Ok(v)),
        None => match expr_type {
            Some(t) => if t.kind == ValueKind::Int && numeric_known {
                Some(Err(()))
            } else {
                None
            },
            None => None,
        },
    }
}

pub fn known_strict_const_int_for_validation(
    int_value: Option<i64>,
    expr_type: Option<PineType>,
    numeric_known: bool,
) -> (r: Option<Result<i64, ()>>)
    ensures
        r == strict_int_for_validation(int_value, expr_type, numeric_known),
{
    if let Some(v) = int_value {
        return Some(Ok(v));
    }
    match expr_type {
        Some(t) => if t.kind == ValueKind::Int && numeric_known {
            Some(Err(()))
        } else {
            None
        },
        None => None,
    }
}

} // verus!
