use pine_sema::diagnostics::Diagnostic;
use pine_sema::strategy_exit::validate_strategy_exit_args;
use pine_sema::syntax::{CallArg, Expr, ExprKind, Literal, Span};

fn at(start: usize) -> Span {
    Span { start, end: start + 1 }
}

fn value(start: usize) -> Expr {
    Expr { kind: ExprKind::Literal(Literal::Int(1)), span: at(start) }
}

fn positional(start: usize) -> CallArg {
    CallArg { name: None, span: at(start), value: value(start) }
}

fn named(name: &str, start: usize) -> CallArg {
    CallArg { name: Some(name.to_string()), span: at(start), value: value(start) }
}

fn run(args: Vec<CallArg>) -> Vec<Diagnostic> {
    let mut diags = Vec::new();
    validate_strategy_exit_args(&args, &mut diags);
    diags
}

#[test]
fn exit_with_one_trigger_is_accepted() {
    assert!(run(vec![positional(0), positional(1), positional(2)]).is_empty());
    assert!(run(vec![named("id", 0), named("profit", 1), named("loss", 2)]).is_empty());
    assert!(run(vec![named("id", 0), named("trail_points", 1), named("trail_offset", 2)]).is_empty());
}

#[test]
fn exit_positional_arguments_past_the_fourth_must_be_named() {
    let diags = run(vec![positional(0), positional(1), positional(2), positional(3), positional(4)]);
    assert_eq!(diags.len(), 1);
    assert_eq!(diags[0].code, "E_CALL_ARG_NAME");
    assert_eq!(diags[0].message, "`strategy.exit` profit and loss arguments must be named arguments");
    assert_eq!(diags[0].span, at(4));
}

#[test]
fn exit_needs_a_trigger() {
    let diags = run(vec![named("id", 5), named("qty", 6)]);
    assert_eq!(diags.len(), 1);
    assert_eq!(diags[0].code, "E_CALL_ARITY");
    assert_eq!(diags[0].message, "`strategy.exit` requires one of `stop`, `limit`, `profit`, or `loss`");
    assert_eq!(diags[0].span, at(5));
    assert!(run(vec![named("id", 5), named("mystery", 6)]).is_empty());
    assert!(run(vec![named("from_entry", 5)]).is_empty());
}

#[test]
fn exit_rejects_two_triggers_of_one_family() {
    let diags = run(vec![named("id", 0), named("stop", 1), named("loss", 2)]);
    assert_eq!(
        diags.iter().map(|d| d.message.as_str()).collect::<Vec<_>>(),
        vec!["`strategy.exit` combined trigger families are not supported in the current strategy subset"]
    );
    assert_eq!(diags[0].span, at(2));
    let diags = run(vec![named("id", 0), named("stop", 1), named("limit", 2), named("profit", 3)]);
    assert_eq!(diags.len(), 1);
    assert_eq!(diags[0].span, at(2));
}

#[test]
fn exit_trailing_rules() {
    let diags = run(vec![named("id", 0), named("stop", 1), named("trail_price", 2), named("trail_offset", 3)]);
    assert_eq!(
        diags.iter().map(|d| d.message.as_str()).collect::<Vec<_>>(),
        vec!["`strategy.exit` cannot combine trailing exits with fixed stop, limit, profit, or loss triggers in the current strategy subset"]
    );
    assert_eq!(diags[0].span, at(1));
    let diags = run(vec![named("id", 0), named("trail_price", 1), named("trail_points", 2), named("trail_offset", 3)]);
    assert_eq!(
        diags.iter().map(|d| d.message.as_str()).collect::<Vec<_>>(),
        vec!["`strategy.exit` trailing exits require exactly one of `trail_price` or `trail_points` plus `trail_offset`"]
    );
    assert_eq!(diags[0].span, at(1));
    assert_eq!(run(vec![named("trail_offset", 7)]).len(), 1);
}
