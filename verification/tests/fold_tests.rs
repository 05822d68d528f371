use pine_sema::call_parts::call_target_name;
use pine_sema::const_fold::{
    fold_int_binary, fold_int_unary, known_const_int_for_validation, known_strict_const_int_for_validation,
};
use pine_sema::syntax::{Expr, ExprKind, Literal, Span};
use pine_sema::types::{PineType, Qualifier, ValueKind};
use pine_sema::dialect::PineDialect;
use pine_sema::syntax::{BinaryOp, UnaryOp};

#[test]
fn folding_add_sub_mul_gives_exact_values() {
    assert_eq!(fold_int_binary(BinaryOp::Add, PineDialect::V6, 2, 3), Some(5));
    assert_eq!(fold_int_binary(BinaryOp::Sub, PineDialect::V6, 2, 3), Some(-1));
    assert_eq!(fold_int_binary(BinaryOp::Mul, PineDialect::V6, -4, 3), Some(-12));
}

#[test]
fn folding_overflow_gives_no_value() {
    assert_eq!(fold_int_binary(BinaryOp::Add, PineDialect::V6, i64::MAX, 1), None);
    assert_eq!(fold_int_binary(BinaryOp::Sub, PineDialect::V6, i64::MIN, 1), None);
    assert_eq!(fold_int_binary(BinaryOp::Mul, PineDialect::V6, i64::MAX, 2), None);
    assert_eq!(fold_int_unary(UnaryOp::Minus, i64::MIN), None);
}

#[test]
fn folding_division_rounds_towards_zero_up_to_v5() {
    assert_eq!(fold_int_binary(BinaryOp::Div, PineDialect::V5, 7, 2), Some(3));
    assert_eq!(fold_int_binary(BinaryOp::Div, PineDialect::V5, -7, 2), Some(-3));
    assert_eq!(fold_int_binary(BinaryOp::Div, PineDialect::V4, 7, -2), Some(-3));
    assert_eq!(fold_int_binary(BinaryOp::Div, PineDialect::V6, 7, 2), None);
    assert_eq!(fold_int_binary(BinaryOp::Div, PineDialect::V5, 7, 0), None);
    assert_eq!(fold_int_binary(BinaryOp::Div, PineDialect::V5, i64::MIN, -1), None);
}

#[test]
fn folding_remainder_takes_the_sign_of_the_dividend() {
    assert_eq!(fold_int_binary(BinaryOp::Mod, PineDialect::V6, 7, 2), Some(1));
    assert_eq!(fold_int_binary(BinaryOp::Mod, PineDialect::V6, -7, 2), Some(-1));
    assert_eq!(fold_int_binary(BinaryOp::Mod, PineDialect::V6, 7, -2), Some(1));
    assert_eq!(fold_int_binary(BinaryOp::Mod, PineDialect::V6, 7, 0), None);
    assert_eq!(fold_int_binary(BinaryOp::Mod, PineDialect::V6, i64::MIN, -1), None);
}

#[test]
fn folding_division_identity_holds_on_samples() {
    for (l, r) in [(17i64, 5i64), (-17, 5), (17, -5), (-17, -5), (0, 3)] {
        let q = fold_int_binary(BinaryOp::Div, PineDialect::V5, l, r).unwrap();
        let m = fold_int_binary(BinaryOp::Mod, PineDialect::V5, l, r).unwrap();
        assert_eq!(q * r + m, l);
    }
}

#[test]
fn folding_unary_plus_keeps_and_not_gives_nothing() {
    assert_eq!(fold_int_unary(UnaryOp::Plus, -9), Some(-9));
    assert_eq!(fold_int_unary(UnaryOp::Minus, 9), Some(-9));
    assert_eq!(fold_int_unary(UnaryOp::Not, 1), None);
    assert_eq!(fold_int_binary(BinaryOp::Eq, PineDialect::V6, 1, 1), None);
}

#[test]
fn constant_ints_for_validation() {
    let int = Some(PineType { qualifier: Qualifier::Const, kind: ValueKind::Int });
    let float = Some(PineType { qualifier: Qualifier::Const, kind: ValueKind::Float });
    assert_eq!(known_const_int_for_validation(Some(4), None, None), Some(Ok(4)));
    assert_eq!(known_const_int_for_validation(None, int, Some(Some(7))), Some(Ok(7)));
    assert_eq!(known_const_int_for_validation(None, int, Some(None)), Some(Err(())));
    assert_eq!(known_const_int_for_validation(None, float, Some(Some(7))), None);
    assert_eq!(known_const_int_for_validation(None, int, None), None);
    assert_eq!(known_strict_const_int_for_validation(Some(4), None, false), Some(Ok(4)));
    assert_eq!(known_strict_const_int_for_validation(None, int, true), Some(Err(())));
    assert_eq!(known_strict_const_int_for_validation(None, float, true), None);
    assert_eq!(known_strict_const_int_for_validation(None, int, false), None);
}

#[test]
fn a_call_needs_a_function_name() {
    let mut diags = Vec::new();
    let callee = Expr { kind: ExprKind::Identifier("ta.sma".to_string()), span: Span { start: 0, end: 6 } };
    assert_eq!(call_target_name(&callee, &mut diags), Some("ta.sma".to_string()));
    assert!(diags.is_empty());
    let callee = Expr { kind: ExprKind::Literal(Literal::Int(1)), span: Span { start: 3, end: 4 } };
    assert_eq!(call_target_name(&callee, &mut diags), None);
    assert_eq!(diags[0].code, "E_CALL_TARGET");
    assert_eq!(diags[0].message, "expected function name");
    assert_eq!(diags[0].span, Span { start: 3, end: 4 });
}
