use pine_sema::accepts::{accepts_expected_label, accepts_type, Accepts};
use pine_sema::call_checks::{
    accepts_matrix_element_arg, accepts_matrix_element_array_arg, call_arg_accepts_type,
    call_arg_matrix_cross_param_expected_diagnostic, call_arg_type_diagnostic,
    call_requirement_diagnostic, matrix_element_array_expected_type, matrix_element_expected_label,
};
use pine_sema::call_parts::{
    alias_qualified_method_name, bound_matrix_call_result_method_parts,
    builtin_map_call_result_method_name, builtin_matrix_call_result_method_name, const_call_name,
    expr_name, is_ta_vwap_bands_call, local_udf_call_result_method_parts, method_call_parts,
    postfix_call_result_method_parts, receiver_call_arg,
};
use pine_sema::dialect::{
    allows_legacy_v4_udf_reference_side_effect, allows_udf_collection_mutation_side_effect,
    allows_udf_output_or_declaration_side_effect, PineDialect,
};
use pine_sema::domains::merge_string_value_domains;
use pine_sema::effects::{contains_output_or_declaration_call, statement_contains_output_or_declaration_call};
use pine_sema::local_arrays::{binding_may_change, expr_may_rebind, local_array_mutation_spans, straight_expr};
use pine_sema::name_set::NameSet;
use pine_sema::names::{
    array_method_builtin_name, is_array_mutation_builtin, is_array_mutation_method_call_name,
    is_map_mutation_builtin, is_map_mutation_method_call_name, is_output_or_declaration_builtin,
    is_time_function_overload, is_timestamp_overload, map_method_builtin_name,
    unsupported_collection_mutation_udf_reason,
};
use pine_sema::operators::{binary_operator_label, unary_operator_label};
use pine_sema::reassigned::{
    collect_request_reassigned_names, collect_request_reassigned_names_from_expr,
    collect_request_reassigned_names_from_function_body,
};
use pine_sema::signatures::{arg_type_for_param_index, param_index_for_arg, BuiltinParam, BuiltinSignature};
use pine_sema::strategy::{
    is_strategy_state_variable, is_supported_strategy_trade_field_function,
    is_supported_strategy_value_function, strategy_exit_arg_family, StrategyExitArgFamily,
};
use pine_sema::syntax::{
    BinaryOp, CallArg, Expr, ExprKind, FunctionBody, FunctionParam, Literal, Span, Stmt, StmtKind,
    SwitchArm, SwitchArmResult, UnaryOp,
};
use pine_sema::text::{join_dotted, rsplit_once, split_once, starts_with, strip_prefix, strip_suffix};
use pine_sema::types::{can_assign, common_kind, pine_type_name, strongest_qualifier, PineType, Qualifier, ValueKind};
use pine_sema::udf_args::{
    complete_args, function_param_names, has_duplicate_param, report_udf_arg_error, resolve_udf_arg_indices,
    resolve_udf_arg_indices_with_defaults, UdfArgError,
};
use pine_sema::yields::{function_branch_has_return, function_statement_has_return};

fn sp(start: usize, end: usize) -> Span {
    Span { start, end }
}

fn t(q: Qualifier, k: ValueKind) -> PineType {
    PineType::new(q, k)
}

fn lit(n: i64) -> Expr {
    Expr { kind: ExprKind::Literal(Literal::Int(n)), span: sp(0, 1) }
}

fn ident(name: &str) -> Expr {
    Expr { kind: ExprKind::Identifier(name.to_string()), span: sp(0, 1) }
}

fn qualified(parts: &[&str], span: Span) -> Expr {
    Expr { kind: ExprKind::QualifiedName(parts.iter().map(|p| p.to_string()).collect()), span }
}

fn call(callee: Expr, args: Vec<CallArg>, span: Span) -> Expr {
    Expr { kind: ExprKind::Call { callee: Box::new(callee), args }, span }
}

fn pos(value: Expr) -> CallArg {
    let span = value.span;
    CallArg { name: None, span, value }
}

fn named(name: &str, value: Expr) -> CallArg {
    let span = value.span;
    CallArg { name: Some(name.to_string()), span, value }
}

fn stmt(kind: StmtKind) -> Stmt {
    Stmt { kind, span: sp(0, 1) }
}

fn expr_stmt(e: Expr) -> Stmt {
    stmt(StmtKind::Expr(e))
}

fn sorted(names: &NameSet) -> Vec<String> {
    let mut v = names.to_vec();
    v.sort();
    v
}

// ---- text ----

#[test]
fn text_helpers_split_and_strip() {
    assert_eq!(split_once("a.b.c", '.'), Some(("a", "b.c")));
    assert_eq!(rsplit_once("a.b.c", '.'), Some(("a.b", "c")));
    assert_eq!(split_once("abc", '.'), None);
    assert_eq!(strip_prefix("series int", "series "), Some("int"));
    assert_eq!(strip_prefix("int", "series "), None);
    assert_eq!(strip_suffix("map<int>", ">"), Some("map<int"));
    assert!(starts_with("simple bool", "simple "));
    assert!(!starts_with("sim", "simple "));
    assert_eq!(join_dotted(&vec!["ta".to_string(), "sma".to_string()]), "ta.sma");
    assert_eq!(join_dotted(&vec![]), "");
}

// ---- types and acceptors ----

#[test]
fn types_combine_and_print() {
    assert_eq!(pine_type_name(t(Qualifier::Series, ValueKind::FloatArray)), "series array<float>");
    assert_eq!(strongest_qualifier(Qualifier::Input, Qualifier::Const), Qualifier::Input);
    assert_eq!(strongest_qualifier(Qualifier::Simple, Qualifier::Series), Qualifier::Series);
    assert_eq!(common_kind(ValueKind::Int, ValueKind::Float), Some(ValueKind::Float));
    assert_eq!(common_kind(ValueKind::Na, ValueKind::Color), Some(ValueKind::Color));
    assert_eq!(common_kind(ValueKind::String, ValueKind::Bool), None);
    assert!(can_assign(t(Qualifier::Series, ValueKind::Float), t(Qualifier::Simple, ValueKind::Int)));
    assert!(!can_assign(t(Qualifier::Simple, ValueKind::Int), t(Qualifier::Simple, ValueKind::Float)));
    assert!(!can_assign(t(Qualifier::Input, ValueKind::Int), t(Qualifier::Simple, ValueKind::Int)));
    assert!(accepts_type(Accepts::NumericCompatible, t(Qualifier::Series, ValueKind::Int)));
    assert!(!accepts_type(Accepts::BoolCompatible, t(Qualifier::Series, ValueKind::Int)));
    assert_eq!(accepts_expected_label(Accepts::ColorCompatible), Some("color-compatible".to_string()));
    assert_eq!(accepts_expected_label(Accepts::Exact(t(Qualifier::Simple, ValueKind::Int))), Some("simple int".to_string()));
}

// ---- names ----

#[test]
fn method_names_map_to_namespaced_builtins() {
    assert_eq!(array_method_builtin_name("push"), Some("array.push"));
    assert_eq!(array_method_builtin_name("rows"), None);
    assert_eq!(map_method_builtin_name("put_all"), Some("map.put_all"));
    assert_eq!(map_method_builtin_name("push"), None);
    assert!(is_array_mutation_builtin("array.unshift"));
    assert!(is_array_mutation_builtin("matrix.swap_rows"));
    assert!(!is_array_mutation_builtin("array.get"));
    assert!(is_array_mutation_method_call_name("values.push"));
    assert!(is_array_mutation_method_call_name("a.b.clear"));
    assert!(!is_array_mutation_method_call_name("values.get"));
    assert!(!is_array_mutation_method_call_name("push"));
    assert!(is_map_mutation_builtin("map.remove"));
    assert!(!is_map_mutation_builtin("map.get"));
    assert!(is_map_mutation_method_call_name("m.put"));
    assert!(!is_map_mutation_method_call_name("m.keys"));
    assert!(is_output_or_declaration_builtin("plotshape"));
    assert!(is_output_or_declaration_builtin("input"));
    assert!(is_output_or_declaration_builtin("input.int"));
    assert!(is_output_or_declaration_builtin("table.cell_set_text_formatting"));
    assert!(!is_output_or_declaration_builtin("ta.sma"));
    assert!(!is_output_or_declaration_builtin("inputs"));
    assert!(is_time_function_overload("time_close"));
    assert!(!is_time_function_overload("timestamp"));
    assert!(is_timestamp_overload("timestamp"));
    assert_eq!(
        unsupported_collection_mutation_udf_reason("array.push"),
        "collection mutation via `array.push` is not supported inside user-defined functions"
    );
}

#[test]
fn strategy_name_tables() {
    assert!(is_strategy_state_variable("strategy.position_size"));
    assert!(!is_strategy_state_variable("strategy.entry"));
    assert!(is_supported_strategy_trade_field_function("strategy.opentrades.entry_price"));
    assert!(is_supported_strategy_value_function("strategy.default_entry_qty"));
    assert!(!is_supported_strategy_value_function("strategy.exit"));
    assert_eq!(strategy_exit_arg_family("from_entry"), Some(StrategyExitArgFamily::Identity));
    assert_eq!(strategy_exit_arg_family("trail_points"), Some(StrategyExitArgFamily::TrailingActivation));
    assert_eq!(strategy_exit_arg_family("alert_loss"), Some(StrategyExitArgFamily::Metadata));
    assert_eq!(strategy_exit_arg_family("qty_percent"), Some(StrategyExitArgFamily::PercentQuantity));
    assert_eq!(strategy_exit_arg_family("when"), None);
}

#[test]
fn operator_labels_and_dialect_allowances() {
    assert_eq!(binary_operator_label(BinaryOp::NotEq), "!=");
    assert_eq!(binary_operator_label(BinaryOp::Or), "or");
    assert_eq!(unary_operator_label(UnaryOp::Not), "not");
    assert!(allows_legacy_v4_udf_reference_side_effect(PineDialect::V4, "line.set_x2"));
    assert!(!allows_legacy_v4_udf_reference_side_effect(PineDialect::V5, "line.set_x2"));
    assert!(allows_udf_output_or_declaration_side_effect(PineDialect::V5, "box.new"));
    assert!(!allows_udf_output_or_declaration_side_effect(PineDialect::V4, "box.new"));
    assert!(allows_udf_output_or_declaration_side_effect(PineDialect::V4, "label.new"));
    assert!(allows_udf_collection_mutation_side_effect(PineDialect::V6, "array.unshift"));
    assert!(!allows_udf_collection_mutation_side_effect(PineDialect::V6, "array.push"));
}

// ---- signatures and call parts ----

fn matrix_sig() -> BuiltinSignature {
    BuiltinSignature {
        name: "matrix.set".to_string(),
        params: vec![
            BuiltinParam { name: "id".to_string(), accepts: Accepts::Matrix, optional: false },
            BuiltinParam { name: "row".to_string(), accepts: Accepts::IntCompatible, optional: false },
            BuiltinParam { name: "value".to_string(), accepts: Accepts::MatrixElementCompatible(0), optional: false },
        ],
        variadic: false,
    }
}

#[test]
fn arguments_bind_to_parameters_by_name_or_position() {
    let s = matrix_sig();
    assert_eq!(param_index_for_arg(&s, 0, &pos(lit(1))), Some(0));
    assert_eq!(param_index_for_arg(&s, 1, &named("value", lit(1))), Some(2));
    assert_eq!(param_index_for_arg(&s, 0, &named("nope", lit(1))), None);
    assert_eq!(param_index_for_arg(&s, 3, &pos(lit(1))), None);
    let args = vec![named("value", lit(1)), pos(lit(2))];
    let types = vec![Some(t(Qualifier::Const, ValueKind::Float)), Some(t(Qualifier::Series, ValueKind::IntMatrix))];
    assert_eq!(arg_type_for_param_index(&s, &args, &types, 2), Some(t(Qualifier::Const, ValueKind::Float)));
    assert_eq!(arg_type_for_param_index(&s, &args, &types, 1), Some(t(Qualifier::Series, ValueKind::IntMatrix)));
    assert_eq!(arg_type_for_param_index(&s, &args, &types, 0), None);
}

#[test]
fn matrix_element_checks_follow_the_matrix_argument() {
    let s = matrix_sig();
    let args = vec![pos(lit(1)), pos(lit(2)), pos(lit(3))];
    let types = vec![
        Some(t(Qualifier::Series, ValueKind::IntMatrix)),
        Some(t(Qualifier::Const, ValueKind::Int)),
        Some(t(Qualifier::Const, ValueKind::Float)),
    ];
    assert!(!call_arg_accepts_type(&s, &args, &types, Accepts::MatrixElementCompatible(0), t(Qualifier::Const, ValueKind::Float)));
    assert!(call_arg_accepts_type(&s, &args, &types, Accepts::MatrixElementCompatible(0), t(Qualifier::Const, ValueKind::Int)));
    let d = call_arg_matrix_cross_param_expected_diagnostic(
        &s, &args, &types, "value", Accepts::MatrixElementCompatible(0), t(Qualifier::Const, ValueKind::Float), sp(4, 5),
    )
    .unwrap();
    assert_eq!(d.message, "`matrix.set` argument `value` expects integer-compatible, got const float");
    assert_eq!(d.code, "E_CALL_ARG_TYPE");
    assert_eq!(accepts_matrix_element_arg(t(Qualifier::Series, ValueKind::Int), t(Qualifier::Const, ValueKind::Int)), None);
    assert_eq!(accepts_matrix_element_array_arg(t(Qualifier::Series, ValueKind::BoolMatrix), t(Qualifier::Series, ValueKind::BoolArray)), Some(true));
    assert_eq!(matrix_element_expected_label(t(Qualifier::Series, ValueKind::StringMatrix)), Some("string-compatible"));
    assert_eq!(matrix_element_array_expected_type(t(Qualifier::Series, ValueKind::ColorMatrix)), Some(t(Qualifier::Simple, ValueKind::ColorArray)));
    assert_eq!(
        call_arg_type_diagnostic("f", "x", t(Qualifier::Series, ValueKind::Label), sp(0, 1)).message,
        "`f` argument `x` does not accept series label"
    );
    assert_eq!(call_requirement_diagnostic("f", "two arguments", sp(0, 1)).message, "`f` requires two arguments");
}

#[test]
fn callee_names_and_method_parts() {
    assert_eq!(expr_name(&qualified(&["ta", "sma"], sp(0, 6))), Some("ta.sma".to_string()));
    assert_eq!(expr_name(&ident("plot")), Some("plot".to_string()));
    assert_eq!(expr_name(&lit(1)), None);
    assert_eq!(const_call_name(&qualified(&["math", "max"], sp(0, 8))), Some("math.max".to_string()));
    assert_eq!(method_call_parts(&qualified(&["m", "get"], sp(0, 5))), Some(("m", "get")));
    assert_eq!(method_call_parts(&qualified(&["a", "b", "c"], sp(0, 5))), None);
    assert_eq!(alias_qualified_method_name("lib.fn"), Some(("lib", "fn")));
    assert_eq!(alias_qualified_method_name("lib.ns.fn"), None);
    assert_eq!(alias_qualified_method_name(".fn"), None);
    assert_eq!(alias_qualified_method_name("lib."), None);
    let arg = receiver_call_arg("self", sp(3, 7));
    assert!(arg.name.is_none());
    assert_eq!(arg.span, sp(3, 7));
    assert_eq!(arg.value, Expr { kind: ExprKind::Identifier("self".to_string()), span: sp(3, 7) });
}

#[test]
fn call_result_methods_read_a_receiver_call_before_the_callee() {
    let producer = call(ident("make"), vec![], sp(0, 6));
    let callee = qualified(&["$call_result", "get"], sp(7, 10));
    let args = vec![pos(producer)];
    assert_eq!(postfix_call_result_method_parts(&callee, &args), Some(("$call_result", "get")));
    assert_eq!(local_udf_call_result_method_parts(&callee, &args), Some(("make", "get")));
    assert_eq!(builtin_matrix_call_result_method_name(&callee, &args), None);

    let late = qualified(&["$call_result", "get"], sp(2, 3));
    assert_eq!(postfix_call_result_method_parts(&late, &args), None);

    let matrix_callee = qualified(&["$builtin_matrix_result", "rows"], sp(7, 10));
    assert_eq!(builtin_matrix_call_result_method_name(&matrix_callee, &args), Some("rows"));
    let map_callee = qualified(&["$builtin_map_result", "keys"], sp(7, 10));
    assert_eq!(builtin_map_call_result_method_name(&map_callee, &args), Some("keys"));

    let bound_producer = call(qualified(&["m", "transpose"], sp(0, 11)), vec![], sp(0, 13));
    let bound_callee = qualified(&["m", "rows"], sp(14, 18));
    let bound_args = vec![pos(bound_producer)];
    assert_eq!(bound_matrix_call_result_method_parts(&bound_callee, &bound_args), Some(("m", "rows")));
    let other_producer = call(qualified(&["m", "rows"], sp(0, 6)), vec![], sp(0, 8));
    let other_args = vec![pos(other_producer)];
    assert_eq!(bound_matrix_call_result_method_parts(&bound_callee, &other_args), None);
}

#[test]
fn vwap_bands_need_a_multiplier() {
    assert!(is_ta_vwap_bands_call("ta.vwap", &[pos(lit(1)), pos(lit(2)), pos(lit(3))]));
    assert!(is_ta_vwap_bands_call("ta.vwap", &[named("stdev_mult", lit(1))]));
    assert!(!is_ta_vwap_bands_call("ta.vwap", &[pos(lit(1)), pos(lit(2))]));
    assert!(!is_ta_vwap_bands_call("ta.sma", &[pos(lit(1)), pos(lit(2)), pos(lit(3))]));
}

// ---- string domains ----

#[test]
fn string_domains_merge_without_repeats() {
    let merged = merge_string_value_domains(
        vec!["a".to_string(), "b".to_string()],
        vec!["b".to_string(), "c".to_string(), "a".to_string()],
    );
    assert_eq!(merged, Some(vec!["a".to_string(), "b".to_string(), "c".to_string()]));
    let full: Vec<String> = (0..64).map(|i| format!("v{i}")).collect();
    assert_eq!(merge_string_value_domains(full.clone(), vec!["v3".to_string()]), Some(full.clone()));
    assert_eq!(merge_string_value_domains(full, vec!["new".to_string()]), None);
}

// ---- user-defined function arguments ----

fn names(v: &[&str]) -> Vec<String> {
    v.iter().map(|s| s.to_string()).collect()
}

#[test]
fn udf_arguments_bind_positionally_then_by_name() {
    let params = names(&["a", "b", "c"]);
    assert_eq!(resolve_udf_arg_indices(&params, &[pos(lit(1)), named("c", lit(2)), named("b", lit(3))]), Ok(vec![0, 2, 1]));
    assert_eq!(
        resolve_udf_arg_indices(&params, &[named("d", lit(1))]),
        Err(UdfArgError::UnknownName { name: "d".to_string(), span: sp(0, 1) })
    );
    assert_eq!(
        resolve_udf_arg_indices(&params, &[named("a", lit(1)), named("a", lit(2))]),
        Err(UdfArgError::Duplicate { name: "a".to_string(), span: sp(0, 1) })
    );
    assert_eq!(
        resolve_udf_arg_indices(&params, &[named("a", lit(1)), pos(lit(2))]),
        Err(UdfArgError::PositionalAfterNamed { span: sp(0, 1) })
    );
    assert_eq!(
        resolve_udf_arg_indices(&params, &[pos(lit(1)), pos(lit(1)), pos(lit(1)), pos(lit(1))]),
        Err(UdfArgError::TooMany { span: sp(0, 1) })
    );
    assert_eq!(
        resolve_udf_arg_indices(&params, &[pos(lit(1))]),
        Err(UdfArgError::Missing { param: "b".to_string() })
    );
    let defaults = vec![None, Some(lit(5)), Some(lit(6))];
    assert_eq!(resolve_udf_arg_indices_with_defaults(&params, &[pos(lit(1))], &defaults), Ok(vec![0]));
    assert!(has_duplicate_param(&names(&["x", "y", "x"])));
    assert!(!has_duplicate_param(&names(&["x", "y"])));
    let fparams = vec![FunctionParam { name: "len".to_string(), declared_type: None, default_value: None, span: sp(0, 3) }];
    assert_eq!(function_param_names(&fparams), vec!["len".to_string()]);
}

#[test]
fn udf_argument_errors_are_reported() {
    let mut d = Vec::new();
    report_udf_arg_error(&mut d, "f", sp(0, 9), 2, 3, UdfArgError::TooMany { span: sp(6, 7) });
    report_udf_arg_error(&mut d, "f", sp(0, 9), 2, 1, UdfArgError::Missing { param: "b".to_string() });
    report_udf_arg_error(&mut d, "f", sp(0, 9), 2, 1, UdfArgError::UnknownName { name: "q".to_string(), span: sp(2, 3) });
    report_udf_arg_error(&mut d, "f", sp(0, 9), 2, 2, UdfArgError::Duplicate { name: "a".to_string(), span: sp(4, 5) });
    report_udf_arg_error(&mut d, "f", sp(0, 9), 2, 2, UdfArgError::PositionalAfterNamed { span: sp(4, 5) });
    let got: Vec<(&str, &str, Span)> = d.iter().map(|x| (x.code.as_str(), x.message.as_str(), x.span)).collect();
    assert_eq!(
        got,
        vec![
            ("E_FUNCTION_ARITY", "`f` expects 2 argument(s), got 3", sp(6, 7)),
            ("E_FUNCTION_ARITY", "`f` is missing argument `b`", sp(0, 9)),
            ("E_FUNCTION_ARG_NAME", "`f` has no argument named `q`", sp(2, 3)),
            ("E_FUNCTION_ARG_DUPLICATE", "`f` argument `a` is provided more than once", sp(4, 5)),
            (
                "E_FUNCTION_ARG_ORDER",
                "positional arguments cannot follow named arguments in user-defined function calls",
                sp(4, 5)
            ),
        ]
    );
}

// ---- walks over statements ----

#[test]
fn output_calls_are_found_inside_expressions_and_statements() {
    let plot = call(ident("plot"), vec![pos(lit(1))], sp(0, 1));
    let nested = Expr { kind: ExprKind::Group(Box::new(plot)), span: sp(0, 1) };
    assert!(contains_output_or_declaration_call(&nested));
    let push = call(qualified(&["xs", "push"], sp(0, 1)), vec![], sp(0, 1));
    assert!(contains_output_or_declaration_call(&push));
    let sma = call(qualified(&["ta", "sma"], sp(0, 1)), vec![pos(ident("close"))], sp(0, 1));
    assert!(!contains_output_or_declaration_call(&sma));
    let inner = call(ident("alert"), vec![], sp(0, 1));
    let outer = call(qualified(&["ta", "sma"], sp(0, 1)), vec![pos(inner)], sp(0, 1));
    assert!(contains_output_or_declaration_call(&outer));
    let switch = Expr {
        kind: ExprKind::Switch {
            selector: None,
            arms: vec![SwitchArm {
                condition: None,
                result: SwitchArmResult::Block(vec![expr_stmt(call(ident("fill"), vec![], sp(0, 1)))]),
            }],
        },
        span: sp(0, 1),
    };
    assert!(contains_output_or_declaration_call(&switch));
    let loop_stmt = stmt(StmtKind::While { condition: ident("c"), body: vec![] });
    assert!(statement_contains_output_or_declaration_call(&loop_stmt));
    assert!(!statement_contains_output_or_declaration_call(&stmt(StmtKind::Break)));
    assert!(!statement_contains_output_or_declaration_call(&stmt(StmtKind::Decl { name: "x".to_string(), value: lit(1) })));
}

#[test]
fn function_bodies_end_in_a_value() {
    let if_both = stmt(StmtKind::If {
        condition: ident("c"),
        then_branch: vec![expr_stmt(lit(1))],
        else_branch: vec![expr_stmt(lit(2))],
    });
    assert!(function_statement_has_return(&if_both));
    let if_then_only = stmt(StmtKind::If { condition: ident("c"), then_branch: vec![expr_stmt(lit(1))], else_branch: vec![] });
    assert!(function_statement_has_return(&if_then_only));
    let if_break = stmt(StmtKind::If {
        condition: ident("c"),
        then_branch: vec![expr_stmt(lit(1))],
        else_branch: vec![stmt(StmtKind::Break)],
    });
    assert!(!function_statement_has_return(&if_break));
    assert!(!function_branch_has_return(&[]));
    assert!(function_branch_has_return(&[stmt(StmtKind::Break), expr_stmt(lit(1))]));
}

#[test]
fn reassigned_names_are_collected_from_every_nesting() {
    let mut names = NameSet::new();
    let body = vec![
        stmt(StmtKind::Reassign { name: "a".to_string(), value: lit(1) }),
        stmt(StmtKind::FieldReassign { receiver: "p".to_string(), field: "x".to_string(), value: lit(1) }),
        stmt(StmtKind::If {
            condition: ident("c"),
            then_branch: vec![stmt(StmtKind::Reassign { name: "b".to_string(), value: lit(1) })],
            else_branch: vec![],
        }),
        stmt(StmtKind::Decl { name: "d".to_string(), value: lit(1) }),
    ];
    collect_request_reassigned_names(&body, &mut names);
    assert_eq!(sorted(&names), vec!["a", "b", "p"]);
    let mut from_body = NameSet::new();
    collect_request_reassigned_names_from_function_body(&FunctionBody::Block(body), &mut from_body);
    assert_eq!(sorted(&from_body), vec!["a", "b", "p"]);
    let mut from_expr = NameSet::new();
    let e = Expr {
        kind: ExprKind::If {
            condition: Box::new(ident("c")),
            then_branch: vec![stmt(StmtKind::Reassign { name: "z".to_string(), value: lit(1) })],
            else_branch: vec![],
        },
        span: sp(0, 1),
    };
    collect_request_reassigned_names_from_expr(&e, &mut from_expr);
    assert_eq!(sorted(&from_expr), vec!["z"]);
}

// ---- local arrays ----

fn decl(name: &str, value: Expr) -> Stmt {
    stmt(StmtKind::Decl { name: name.to_string(), value })
}

#[test]
fn straight_line_mutations_of_local_arrays_are_found() {
    let new_array = call(qualified(&["array", "new_float"], sp(0, 1)), vec![], sp(0, 1));
    let push_callee = qualified(&["array", "push"], sp(10, 20));
    let push = call(push_callee, vec![pos(ident("xs")), pos(lit(1))], sp(10, 25));
    let body = FunctionBody::Block(vec![decl("xs", new_array), expr_stmt(push)]);
    assert_eq!(local_array_mutation_spans(&body), vec![sp(10, 20)]);

    let new_array = call(qualified(&["array", "new_float"], sp(0, 1)), vec![], sp(0, 1));
    let push = call(qualified(&["array", "push"], sp(10, 20)), vec![pos(ident("xs")), pos(lit(1))], sp(10, 25));
    let body = FunctionBody::Block(vec![
        decl("xs", new_array),
        expr_stmt(push),
        stmt(StmtKind::Reassign { name: "xs".to_string(), value: ident("ys") }),
    ]);
    assert!(local_array_mutation_spans(&body).is_empty());
    assert!(local_array_mutation_spans(&FunctionBody::Expr(lit(1))).is_empty());

    assert!(straight_expr(&call(ident("f"), vec![pos(lit(1))], sp(0, 1))));
    let ternary = Expr {
        kind: ExprKind::Ternary { condition: Box::new(ident("c")), then_expr: Box::new(lit(1)), else_expr: Box::new(lit(2)) },
        span: sp(0, 1),
    };
    assert!(straight_expr(&ternary));
    let while_expr = Expr { kind: ExprKind::While { condition: Box::new(ident("c")), body: vec![] }, span: sp(0, 1) };
    assert!(!straight_expr(&while_expr));
    assert!(expr_may_rebind(&while_expr, "xs"));
    assert!(!expr_may_rebind(&ternary, "xs"));
    assert!(binding_may_change(&stmt(StmtKind::Reassign { name: "xs".to_string(), value: lit(1) }), "xs"));
    assert!(!binding_may_change(&stmt(StmtKind::Reassign { name: "ys".to_string(), value: lit(1) }), "xs"));
    assert!(binding_may_change(&stmt(StmtKind::Break), "xs"));
}

#[test]
fn omitted_defaults_complete_a_call_as_named_arguments() {
    let params = names(&["a", "b", "c"]);
    let at = |n: i64, span: Span| Expr { kind: ExprKind::Literal(Literal::Int(n)), span };
    let defaults = vec![None, Some(at(5, sp(50, 51))), Some(at(6, sp(60, 61)))];
    let completed = complete_args(&params, defaults, vec![pos(lit(1))], sp(10, 20)).unwrap();
    assert_eq!(
        completed,
        vec![
            pos(lit(1)),
            CallArg { name: Some("b".to_string()), span: sp(10, 10), value: at(5, sp(10, 10)) },
            CallArg { name: Some("c".to_string()), span: sp(10, 10), value: at(6, sp(10, 10)) },
        ]
    );
    let defaults = vec![None, Some(at(5, sp(50, 51))), Some(at(6, sp(60, 61)))];
    let completed = complete_args(&params, defaults, vec![pos(lit(1)), named("c", lit(2))], sp(10, 20)).unwrap();
    assert_eq!(
        completed,
        vec![
            pos(lit(1)),
            named("c", lit(2)),
            CallArg { name: Some("b".to_string()), span: sp(10, 10), value: at(5, sp(10, 10)) },
        ]
    );
    let defaults = vec![None, None, None];
    assert_eq!(complete_args(&params, defaults, vec![pos(lit(1))], sp(10, 20)), Ok(vec![pos(lit(1))]));
    let defaults = vec![None, Some(at(5, sp(50, 51))), None];
    assert_eq!(
        complete_args(&params, defaults, vec![pos(lit(1)), pos(lit(2)), pos(lit(3))], sp(10, 20)),
        Ok(vec![pos(lit(1)), pos(lit(2)), pos(lit(3))])
    );
    let defaults = vec![None, Some(at(5, sp(50, 51))), None];
    assert_eq!(
        complete_args(&params, defaults, vec![pos(lit(1))], sp(10, 20)),
        Err(UdfArgError::Missing { param: "c".to_string() })
    );
}

#[test]
fn udf_calls_refuse_recursion_deep_chains_and_effectful_arguments() {
    let mut d = Vec::new();
    let stack = vec!["outer".to_string(), "f".to_string()];
    assert!(!pine_sema::udf_calls::enter_udf_call("f", "lib.f", &stack, sp(1, 2), &mut d));
    assert!(pine_sema::udf_calls::enter_udf_call("g", "g", &stack, sp(1, 2), &mut d));
    let deep: Vec<String> = (0..64).map(|i| format!("h{i}")).collect();
    assert!(!pine_sema::udf_calls::enter_udf_call("g", "g", &deep, sp(3, 4), &mut d));
    let got: Vec<(&str, &str)> = d.iter().map(|x| (x.code.as_str(), x.message.as_str())).collect();
    assert_eq!(
        got,
        vec![
            ("E_RECURSIVE_FUNCTION", "recursive function `lib.f` is not supported"),
            ("E_FUNCTION_CALL_DEPTH", "user-defined function call chain is too deep"),
        ]
    );

    let input = |args: Vec<CallArg>, span: Span| call(qualified(&["input", "int"], span), args, span);
    let args = vec![
        pos(call(ident("plot"), vec![], sp(0, 1))),
        pos(input(vec![pos(lit(5))], sp(2, 3))),
        pos(input(vec![pos(call(ident("alert"), vec![], sp(4, 5)))], sp(4, 5))),
        pos(call(qualified(&["ta", "sma"], sp(6, 7)), vec![pos(ident("close"))], sp(6, 7))),
    ];
    assert_eq!(
        pine_sema::udf_calls::side_effecting_udf_arg_spans(PineDialect::V5, 0, 0, &args),
        vec![sp(0, 1), sp(4, 5)]
    );
    assert_eq!(
        pine_sema::udf_calls::side_effecting_udf_arg_spans(PineDialect::V4, 0, 0, &args),
        vec![sp(0, 1), sp(2, 3), sp(4, 5)]
    );
    assert_eq!(
        pine_sema::udf_calls::side_effecting_udf_arg_spans(PineDialect::V6, 1, 0, &args),
        vec![sp(0, 1), sp(2, 3), sp(4, 5)]
    );
}

#[test]
fn plain_binding_binds_every_parameter_once() {
    let params = names(&["a", "b", "c"]);
    let ix = resolve_udf_arg_indices(&params, &[named("c", lit(3)), named("a", lit(1)), named("b", lit(2))]).unwrap();
    assert_eq!(ix, vec![2, 0, 1]);
    assert!(resolve_udf_arg_indices(&params, &[pos(lit(1)), pos(lit(2))]).is_err());
}
