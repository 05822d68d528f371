use pine_sema::accepts::Accepts;
use pine_sema::bindings::{
    assignment_contextualized_type, reassignment_outcome, ReassignTarget, can_reassign, const_bool_symbol_value, const_color_symbol_value, const_int_symbol_value,
    const_string_symbol_value, declared_symbol_type, is_scalar_assignment_kind,
    reassigned_symbol_type, typed_na_scalar_reassigned_symbol_type,
};
use pine_sema::builtin_args::{resolve_param, validate_builtin_call_arg_bindings, validate_call_args};
use pine_sema::defaults::{
    check_function_default, function_default_values, normalize_default, record_default_shadowing, BuiltinNameFacts,
};
use pine_sema::diagnostics::{Diagnostic, Severity};
use pine_sema::dialect::PineDialect;
use pine_sema::drawing_options::{
    drawing_option_checks, removed_fill_transp_spans, table_contains, validate_drawing_option_args,
    DrawingArgFacts, OptionRule, OptionTable,
};
use pine_sema::map_templates::{is_supported_map_scalar_type, map_new_template_types};
use pine_sema::name_set::NameSet;
use pine_sema::registry::{drawing_call_result_builtin_name, drawing_method_builtin_name, BuiltinRegistry};
use pine_sema::signatures::{BuiltinParam, BuiltinSignature};
use pine_sema::strategy::{
    validate_script_declaration_call, validate_strategy_order_call, validate_strategy_state_variable,
    validate_strategy_value_function_call, ScriptMode,
};
use pine_sema::syntax::{CallArg, Expr, ExprKind, FunctionParam, Literal, Span, Stmt, StmtKind};
use pine_sema::type_rules::{
    expect_bool, expect_int, expect_non_zero_loop_step, history_offset_issue_report, infer_binary,
    infer_unary, merge_branch_types, validate_assignment, validate_history_offset, ConditionCheck,
    HistoryOffsetIssue,
};
use pine_sema::syntax::{BinaryOp, UnaryOp};
use pine_sema::types::{PineType, Qualifier, ValueKind};

fn t(q: Qualifier, k: ValueKind) -> PineType {
    PineType::new(q, k)
}

fn sp(start: usize, end: usize) -> Span {
    Span { start, end }
}

fn lit_int(n: i64, span: Span) -> Expr {
    Expr { kind: ExprKind::Literal(Literal::Int(n)), span }
}

fn ident(name: &str, span: Span) -> Expr {
    Expr { kind: ExprKind::Identifier(name.to_string()), span }
}

fn pos(span: Span) -> CallArg {
    CallArg { name: None, span, value: lit_int(1, span) }
}

fn named(name: &str, span: Span) -> CallArg {
    CallArg { name: Some(name.to_string()), span, value: lit_int(1, span) }
}

fn param(name: &str, accepts: Accepts, optional: bool) -> BuiltinParam {
    BuiltinParam { name: name.to_string(), accepts, optional }
}

fn sig(name: &str, params: Vec<BuiltinParam>, variadic: bool) -> BuiltinSignature {
    BuiltinSignature { name: name.to_string(), params, variadic }
}

fn messages(ds: &[Diagnostic]) -> Vec<(String, String)> {
    ds.iter().map(|d| (d.code.clone(), d.message.clone())).collect()
}

// ---- declarations and reassignments ----

#[test]
fn declared_type_keeps_declared_kind_and_takes_value_qualifier() {
    let r = declared_symbol_type(t(Qualifier::Series, ValueKind::Float), t(Qualifier::Const, ValueKind::Int));
    assert_eq!(r, t(Qualifier::Const, ValueKind::Float));
    let na = declared_symbol_type(t(Qualifier::Series, ValueKind::Float), t(Qualifier::Const, ValueKind::Na));
    assert_eq!(na, t(Qualifier::Series, ValueKind::Float));
}

#[test]
fn const_values_are_kept_only_for_matching_const_types() {
    assert_eq!(const_int_symbol_value(t(Qualifier::Const, ValueKind::Int), Some(5)), Some(5));
    assert_eq!(const_int_symbol_value(t(Qualifier::Input, ValueKind::Int), Some(5)), None);
    assert_eq!(const_int_symbol_value(t(Qualifier::Const, ValueKind::Float), Some(5)), None);
    assert_eq!(
        const_string_symbol_value(t(Qualifier::Const, ValueKind::String), Some("a".to_string())),
        Some("a".to_string())
    );
    assert_eq!(const_string_symbol_value(t(Qualifier::Simple, ValueKind::String), Some("a".to_string())), None);
    assert_eq!(const_bool_symbol_value(t(Qualifier::Const, ValueKind::Bool), Some(true)), Some(true));
    assert_eq!(const_bool_symbol_value(t(Qualifier::Const, ValueKind::Int), Some(true)), None);
    assert_eq!(const_color_symbol_value(t(Qualifier::Const, ValueKind::Color), Some(0xff0000)), Some(0xff0000));
    assert_eq!(const_color_symbol_value(t(Qualifier::Series, ValueKind::Color), Some(1)), None);
    assert_eq!(const_int_symbol_value(t(Qualifier::Const, ValueKind::Int), None), None);
}

#[test]
fn reassignment_promotes_to_series_except_for_na() {
    assert!(can_reassign(t(Qualifier::Series, ValueKind::Float), t(Qualifier::Const, ValueKind::Int)));
    assert!(can_reassign(t(Qualifier::Const, ValueKind::Int), t(Qualifier::Series, ValueKind::Int)));
    assert!(!can_reassign(t(Qualifier::Const, ValueKind::Int), t(Qualifier::Series, ValueKind::String)));
    assert!(can_reassign(t(Qualifier::Const, ValueKind::Int), t(Qualifier::Const, ValueKind::Na)));
    assert!(!can_reassign(t(Qualifier::Const, ValueKind::Na), t(Qualifier::Series, ValueKind::Int)));
    assert!(!can_reassign(t(Qualifier::Const, ValueKind::Int), t(Qualifier::Series, ValueKind::Na)));
}

#[test]
fn reassigned_type_widens_kind_and_qualifier() {
    assert_eq!(
        reassigned_symbol_type(t(Qualifier::Simple, ValueKind::Int), t(Qualifier::Series, ValueKind::Float)),
        t(Qualifier::Series, ValueKind::Float)
    );
    assert_eq!(
        reassigned_symbol_type(t(Qualifier::Series, ValueKind::Int), t(Qualifier::Const, ValueKind::String)),
        t(Qualifier::Series, ValueKind::Int)
    );
    assert_eq!(
        typed_na_scalar_reassigned_symbol_type(t(Qualifier::Series, ValueKind::Float), t(Qualifier::Simple, ValueKind::Int)),
        t(Qualifier::Simple, ValueKind::Float)
    );
    assert!(is_scalar_assignment_kind(ValueKind::Color));
    assert!(is_scalar_assignment_kind(ValueKind::Na));
    assert!(!is_scalar_assignment_kind(ValueKind::IntArray));
}

// ---- map templates ----

#[test]
fn map_new_templates_split_at_the_first_comma() {
    assert_eq!(map_new_template_types("map.new<string,float>"), Some(("string", "float")));
    assert_eq!(map_new_template_types("map.new<a,b,c>"), Some(("a", "b,c")));
    assert_eq!(map_new_template_types("map.new<int>"), None);
    assert_eq!(map_new_template_types("map.new<int,float"), None);
    assert_eq!(map_new_template_types("array.new<int,float>"), None);
    assert_eq!(map_new_template_types("map.new<,>"), Some(("", "")));
    assert!(is_supported_map_scalar_type("color"));
    assert!(is_supported_map_scalar_type("int"));
    assert!(!is_supported_map_scalar_type("line"));
    assert!(!is_supported_map_scalar_type("Int"));
}

// ---- registry and drawing methods ----

fn drawing_registry() -> BuiltinRegistry {
    BuiltinRegistry {
        signatures: vec![
            sig("box.set_right", vec![param("id", Accepts::BoxCompatible, false)], false),
            sig("label.set_text", vec![param("id", Accepts::LabelCompatible, false)], false),
            sig("line.set_x2", vec![param("id", Accepts::LabelCompatible, false)], false),
            sig("table.delete", vec![], false),
            sig("label.set_text", vec![param("other", Accepts::Numeric, false)], false),
        ],
    }
}

#[test]
fn registry_lookup_returns_the_first_signature_of_a_name() {
    let registry = drawing_registry();
    let found = registry.get("label.set_text").unwrap();
    assert_eq!(found.params[0].name, "id");
    assert!(registry.get("label.set_size").is_none());
}

#[test]
fn drawing_methods_resolve_to_registered_builtins_that_take_the_receiver() {
    let registry = drawing_registry();
    assert_eq!(
        drawing_method_builtin_name(&registry, ValueKind::Label, "set_text"),
        Some("label.set_text".to_string())
    );
    assert_eq!(drawing_method_builtin_name(&registry, ValueKind::Line, "set_x2"), None);
    assert_eq!(drawing_method_builtin_name(&registry, ValueKind::Table, "delete"), None);
    assert_eq!(drawing_method_builtin_name(&registry, ValueKind::Label, "set_size"), None);
    assert_eq!(drawing_method_builtin_name(&registry, ValueKind::Int, "set_text"), None);
    assert_eq!(
        drawing_call_result_builtin_name(&registry, ValueKind::Box, "set_right"),
        Some("box.set_right".to_string())
    );
    assert_eq!(drawing_call_result_builtin_name(&registry, ValueKind::Label, "set_text"), None);
    assert_eq!(drawing_call_result_builtin_name(&registry, ValueKind::Box, "set_left"), None);
}

// ---- function defaults ----

fn fparam(name: &str, declared: Option<&str>, default: Option<Expr>, span: Span) -> FunctionParam {
    FunctionParam {
        name: name.to_string(),
        declared_type: declared.map(|s| s.to_string()),
        default_value: default,
        span,
    }
}

fn no_facts() -> BuiltinNameFacts {
    BuiltinNameFacts { variable_type: None, constant: None }
}

fn variable(pine_type: PineType) -> BuiltinNameFacts {
    BuiltinNameFacts { variable_type: Some(pine_type), constant: None }
}

#[test]
fn function_defaults_keep_valid_scalars_and_report_the_rest() {
    let params = vec![
        fparam("a", None, None, sp(0, 1)),
        fparam("b", Some("int"), Some(lit_int(1, sp(10, 11))), sp(8, 11)),
        fparam("c", Some("simple int"), Some(ident("x", sp(20, 21))), sp(18, 21)),
        fparam("d", None, Some(ident("na", sp(30, 32))), sp(28, 32)),
        fparam("e", Some("array<int>"), Some(lit_int(1, sp(40, 41))), sp(38, 41)),
        fparam("f", None, Some(ident("y", sp(50, 51))), sp(48, 51)),
        fparam("g", Some("series float"), Some(lit_int(2, sp(60, 61))), sp(58, 61)),
    ];
    let facts = vec![
        no_facts(),
        no_facts(),
        variable(t(Qualifier::Series, ValueKind::Int)),
        variable(t(Qualifier::Const, ValueKind::Na)),
        no_facts(),
        no_facts(),
        no_facts(),
    ];
    let mut diagnostics = Vec::new();
    let kept = function_default_values(&params, 5, &NameSet::new(), facts, &mut diagnostics);
    assert_eq!(kept.len(), 7);
    assert!(kept[0].is_none());
    assert_eq!(kept[1], Some(lit_int(1, sp(10, 11))));
    assert!(kept[2].is_none());
    assert!(kept[3].is_none());
    assert!(kept[4].is_none());
    assert!(kept[5].is_none());
    assert_eq!(kept[6], Some(lit_int(2, sp(60, 61))));
    assert_eq!(
        messages(&diagnostics),
        vec![
            (
                "E_FUNCTION_DEFAULT_TYPE".to_string(),
                "default value cannot be assigned to parameter `c` of type `int`".to_string()
            ),
            (
                "E_FUNCTION_DEFAULT_TYPE".to_string(),
                "na defaults require an explicit scalar type; v6 bool defaults cannot be na".to_string()
            ),
            (
                "E_FUNCTION_DEFAULT_TYPE".to_string(),
                "default values for reference-type parameters are not supported".to_string()
            ),
            (
                "E_FUNCTION_DEFAULT".to_string(),
                "function defaults must be scalar literals, signed numeric literals, or supported built-in variables; calculations, user variables and calls are not supported".to_string()
            ),
        ]
    );
    assert_eq!(diagnostics[0].span, sp(20, 21));
    assert_eq!(diagnostics[1].span, sp(28, 32));
    assert_eq!(diagnostics[2].span, sp(38, 41));
    assert_eq!(diagnostics[3].span, sp(50, 51));
    assert!(diagnostics.iter().all(|d| d.severity == Severity::Error));
}

#[test]
fn na_bool_default_is_rejected_from_v6_only() {
    let p = fparam("flag", Some("bool"), Some(ident("na", sp(5, 7))), sp(0, 7));
    let mut diagnostics = Vec::new();
    let v5 = check_function_default(&p, Some((ident("na", sp(5, 7)), t(Qualifier::Const, ValueKind::Na))), 5, &mut diagnostics);
    assert_eq!(v5, Some(ident("na", sp(5, 7))));
    assert!(diagnostics.is_empty());
    let v6 = check_function_default(&p, Some((ident("na", sp(5, 7)), t(Qualifier::Const, ValueKind::Na))), 6, &mut diagnostics);
    assert!(v6.is_none());
    assert_eq!(diagnostics.len(), 1);
    assert_eq!(diagnostics[0].span, sp(0, 7));
}

#[test]
fn top_level_bindings_shadow_builtin_defaults() {
    let mut names = NameSet::new();
    let statements = vec![
        Stmt { kind: StmtKind::Decl { name: "close".to_string(), value: lit_int(1, sp(0, 1)) }, span: sp(0, 1) },
        Stmt {
            kind: StmtKind::TupleDecl { names: vec!["a".to_string(), "b".to_string()], value: lit_int(1, sp(0, 1)) },
            span: sp(0, 1),
        },
        Stmt { kind: StmtKind::Import(Some("ta2".to_string())), span: sp(0, 1) },
        Stmt { kind: StmtKind::Import(None), span: sp(0, 1) },
        Stmt { kind: StmtKind::Export(Some("exported".to_string())), span: sp(0, 1) },
        Stmt { kind: StmtKind::UserType("Point".to_string()), span: sp(0, 1) },
        Stmt { kind: StmtKind::Break, span: sp(0, 1) },
        Stmt { kind: StmtKind::Reassign { name: "close".to_string(), value: lit_int(1, sp(0, 1)) }, span: sp(0, 1) },
    ];
    for statement in &statements {
        record_default_shadowing(statement, &mut names);
    }
    let mut all = names.to_vec();
    all.sort();
    assert_eq!(all, vec!["Point", "a", "b", "close", "exported", "ta2"]);
}

// ---- built-in argument bindings ----

fn two_param_sig() -> BuiltinSignature {
    sig("f", vec![param("a", Accepts::IntCompatible, false), param("b", Accepts::IntCompatible, true)], false)
}

#[test]
fn builtin_bindings_report_unknown_names_order_duplicates_and_missing() {
    let s = two_param_sig();
    let mut diagnostics = Vec::new();
    assert!(!validate_builtin_call_arg_bindings(&s, &vec![], &mut diagnostics));
    assert_eq!(messages(&diagnostics), vec![("E_CALL_ARITY".to_string(), "`f` is missing argument `a`".to_string())]);
    assert_eq!(diagnostics[0].span, sp(0, 0));

    let mut diagnostics = Vec::new();
    assert!(!validate_builtin_call_arg_bindings(&s, &vec![named("z", sp(1, 2)), named("b", sp(3, 4))], &mut diagnostics));
    assert_eq!(messages(&diagnostics), vec![("E_CALL_ARG_NAME".to_string(), "`f` has no argument named `z`".to_string())]);

    let mut diagnostics = Vec::new();
    assert!(!validate_builtin_call_arg_bindings(&s, &vec![named("a", sp(1, 2)), pos(sp(3, 4))], &mut diagnostics));
    assert_eq!(
        messages(&diagnostics),
        vec![(
            "E_CALL_ARG_ORDER".to_string(),
            "positional arguments cannot follow named arguments in built-in calls".to_string()
        )]
    );
    assert_eq!(diagnostics[0].span, sp(3, 4));

    let mut diagnostics = Vec::new();
    assert!(!validate_builtin_call_arg_bindings(&s, &vec![pos(sp(1, 2)), named("a", sp(3, 4))], &mut diagnostics));
    assert_eq!(
        messages(&diagnostics),
        vec![("E_CALL_ARG_DUPLICATE".to_string(), "`f` argument `a` is provided more than once".to_string())]
    );

    let mut diagnostics = Vec::new();
    assert!(validate_builtin_call_arg_bindings(&s, &vec![named("b", sp(1, 2)), named("a", sp(3, 4))], &mut diagnostics));
    assert!(diagnostics.is_empty());
}

#[test]
fn variadic_tail_may_repeat_its_last_parameter() {
    let s = sig("math.max", vec![param("number", Accepts::NumericCompatible, false)], true);
    let mut diagnostics = Vec::new();
    assert!(validate_builtin_call_arg_bindings(&s, &vec![pos(sp(0, 1)), pos(sp(2, 3)), pos(sp(4, 5))], &mut diagnostics));
    assert!(diagnostics.is_empty());
}

#[test]
fn resolve_param_reports_unknown_names_only() {
    let s = two_param_sig();
    let mut diagnostics = Vec::new();
    assert_eq!(resolve_param(&s, 0, &pos(sp(0, 1)), &mut diagnostics).unwrap().name, "a");
    assert_eq!(resolve_param(&s, 0, &named("b", sp(0, 1)), &mut diagnostics).unwrap().name, "b");
    assert!(resolve_param(&s, 5, &pos(sp(0, 1)), &mut diagnostics).is_none());
    assert!(diagnostics.is_empty());
    assert!(resolve_param(&s, 0, &named("q", sp(6, 7)), &mut diagnostics).is_none());
    assert_eq!(messages(&diagnostics), vec![("E_CALL_ARG_NAME".to_string(), "`f` has no argument named `q`".to_string())]);
}

#[test]
fn call_args_report_arity_before_anything_else() {
    let s = two_param_sig();
    let mut diagnostics = Vec::new();
    validate_call_args(&s, &vec![], &vec![], &vec![], &mut diagnostics);
    assert_eq!(
        messages(&diagnostics),
        vec![("E_CALL_ARITY".to_string(), "`f` expects at least 1 argument(s), got 0".to_string())]
    );

    let mut diagnostics = Vec::new();
    let args = vec![pos(sp(0, 1)), pos(sp(2, 3)), pos(sp(4, 5))];
    let types = vec![Some(t(Qualifier::Const, ValueKind::Int)); 3];
    validate_call_args(&s, &args, &types, &vec![false; 3], &mut diagnostics);
    assert_eq!(
        messages(&diagnostics),
        vec![("E_CALL_ARITY".to_string(), "`f` expects at most 2 argument(s), got 3".to_string())]
    );
    assert_eq!(diagnostics[0].span, sp(4, 5));
}

#[test]
fn call_args_report_refused_types_unless_taken_as_is() {
    let s = two_param_sig();
    let args = vec![pos(sp(0, 1)), pos(sp(2, 3))];
    let types = vec![Some(t(Qualifier::Series, ValueKind::String)), Some(t(Qualifier::Const, ValueKind::Int))];
    let mut diagnostics = Vec::new();
    validate_call_args(&s, &args, &types, &vec![false, false], &mut diagnostics);
    assert_eq!(
        messages(&diagnostics),
        vec![(
            "E_CALL_ARG_TYPE".to_string(),
            "`f` argument `a` expects integer-compatible, got series string".to_string()
        )]
    );
    let mut diagnostics = Vec::new();
    validate_call_args(&s, &args, &types, &vec![true, false], &mut diagnostics);
    assert!(diagnostics.is_empty());
}

#[test]
fn pivot_overload_checks_bar_counts_by_name() {
    let s = sig(
        "ta.pivothigh",
        vec![
            param("source", Accepts::SeriesFloat, false),
            param("leftbars", Accepts::IntCompatible, false),
            param("rightbars", Accepts::IntCompatible, false),
        ],
        false,
    );
    let args = vec![named("leftbars", sp(0, 1)), named("bars", sp(2, 3))];
    let types = vec![Some(t(Qualifier::Series, ValueKind::Float)), Some(t(Qualifier::Const, ValueKind::Int))];
    let mut diagnostics = Vec::new();
    validate_call_args(&s, &args, &types, &vec![false, false], &mut diagnostics);
    assert_eq!(
        messages(&diagnostics),
        vec![
            (
                "E_CALL_ARG_TYPE".to_string(),
                "`ta.pivothigh` argument `leftbars` expects integer-compatible, got series float".to_string()
            ),
            (
                "E_CALL_ARG_NAME".to_string(),
                "`ta.pivothigh` two-argument overload has no argument named `bars`".to_string()
            ),
        ]
    );
}

#[test]
fn single_length_overload_checks_the_length() {
    let s = sig(
        "ta.highest",
        vec![param("source", Accepts::SeriesFloat, false), param("length", Accepts::IntCompatible, false)],
        false,
    );
    let mut diagnostics = Vec::new();
    validate_call_args(&s, &vec![named("len", sp(0, 3))], &vec![None], &vec![false], &mut diagnostics);
    assert_eq!(
        messages(&diagnostics),
        vec![(
            "E_CALL_ARG_NAME".to_string(),
            "`ta.highest` single-argument overload has no argument named `len`".to_string()
        )]
    );
    let mut diagnostics = Vec::new();
    validate_call_args(&s, &vec![pos(sp(0, 1))], &vec![Some(t(Qualifier::Simple, ValueKind::Int))], &vec![false], &mut diagnostics);
    assert!(diagnostics.is_empty());
}

// ---- operator and condition typing ----

#[test]
fn binary_operators_type_their_operands() {
    let mut d = Vec::new();
    assert_eq!(
        infer_binary(BinaryOp::Add, t(Qualifier::Const, ValueKind::Int), t(Qualifier::Series, ValueKind::Float), sp(0, 1), &mut d),
        Some(t(Qualifier::Series, ValueKind::Float))
    );
    assert_eq!(
        infer_binary(BinaryOp::Add, t(Qualifier::Simple, ValueKind::String), t(Qualifier::Const, ValueKind::String), sp(0, 1), &mut d),
        Some(t(Qualifier::Simple, ValueKind::String))
    );
    assert_eq!(
        infer_binary(BinaryOp::Div, t(Qualifier::Const, ValueKind::Int), t(Qualifier::Const, ValueKind::Int), sp(0, 1), &mut d),
        Some(t(Qualifier::Const, ValueKind::Float))
    );
    assert_eq!(
        infer_binary(BinaryOp::Mod, t(Qualifier::Const, ValueKind::Int), t(Qualifier::Input, ValueKind::Int), sp(0, 1), &mut d),
        Some(t(Qualifier::Input, ValueKind::Int))
    );
    assert_eq!(
        infer_binary(BinaryOp::Eq, t(Qualifier::Const, ValueKind::Na), t(Qualifier::Simple, ValueKind::Color), sp(0, 1), &mut d),
        Some(t(Qualifier::Simple, ValueKind::Bool))
    );
    assert_eq!(
        infer_binary(BinaryOp::Lt, t(Qualifier::Series, ValueKind::Int), t(Qualifier::Const, ValueKind::Float), sp(0, 1), &mut d),
        Some(t(Qualifier::Series, ValueKind::Bool))
    );
    assert!(d.is_empty());
    assert_eq!(
        infer_binary(BinaryOp::And, t(Qualifier::Series, ValueKind::Bool), t(Qualifier::Const, ValueKind::Int), sp(3, 9), &mut d),
        None
    );
    assert_eq!(
        infer_binary(BinaryOp::Add, t(Qualifier::Series, ValueKind::String), t(Qualifier::Const, ValueKind::Int), sp(3, 9), &mut d),
        None
    );
    assert_eq!(
        messages(&d),
        vec![
            (
                "E_OPERATOR_TYPE".to_string(),
                "operator `and` expects bool operands, got series bool and const int".to_string()
            ),
            (
                "E_OPERATOR_TYPE".to_string(),
                "operator `+` expects numeric or string operands, got series string and const int".to_string()
            ),
        ]
    );
    assert_eq!(d[0].span, sp(3, 9));
}

#[test]
fn unary_operators_keep_their_operand_type() {
    let mut d = Vec::new();
    assert_eq!(infer_unary(UnaryOp::Minus, t(Qualifier::Simple, ValueKind::Int), sp(0, 1), &mut d), Some(t(Qualifier::Simple, ValueKind::Int)));
    assert_eq!(infer_unary(UnaryOp::Not, t(Qualifier::Series, ValueKind::Bool), sp(0, 1), &mut d), Some(t(Qualifier::Series, ValueKind::Bool)));
    assert_eq!(infer_unary(UnaryOp::Not, t(Qualifier::Series, ValueKind::Int), sp(0, 1), &mut d), None);
    assert_eq!(
        messages(&d),
        vec![("E_OPERATOR_TYPE".to_string(), "operator `not` expects bool, got series int".to_string())]
    );
}

#[test]
fn conditions_must_be_bool_from_v6() {
    let mut d = Vec::new();
    assert_eq!(expect_bool(PineDialect::V5, t(Qualifier::Series, ValueKind::Int), sp(0, 1), &mut d), ConditionCheck::NumericAsBool);
    assert_eq!(expect_bool(PineDialect::V6, t(Qualifier::Series, ValueKind::Bool), sp(0, 1), &mut d), ConditionCheck::Bool);
    assert!(d.is_empty());
    assert_eq!(expect_bool(PineDialect::V6, t(Qualifier::Series, ValueKind::Float), sp(2, 4), &mut d), ConditionCheck::Rejected);
    assert_eq!(expect_bool(PineDialect::V4, t(Qualifier::Simple, ValueKind::String), sp(2, 4), &mut d), ConditionCheck::Rejected);
    assert_eq!(
        messages(&d),
        vec![
            ("E_CONDITION_TYPE".to_string(), "condition must be bool, got series float".to_string()),
            ("E_CONDITION_TYPE".to_string(), "condition must be bool, got simple string".to_string()),
        ]
    );
}

#[test]
fn loop_ranges_and_steps() {
    let mut d = Vec::new();
    expect_int(t(Qualifier::Series, ValueKind::Int), sp(0, 1), &mut d);
    expect_non_zero_loop_step(Some(2), sp(0, 1), &mut d);
    expect_non_zero_loop_step(None, sp(0, 1), &mut d);
    assert!(d.is_empty());
    expect_int(t(Qualifier::Const, ValueKind::Float), sp(1, 2), &mut d);
    expect_non_zero_loop_step(Some(0), sp(3, 4), &mut d);
    assert_eq!(
        messages(&d),
        vec![
            ("E_LOOP_RANGE_TYPE".to_string(), "for loop range must be int, got const float".to_string()),
            ("E_LOOP_STEP".to_string(), "for loop step cannot be zero".to_string()),
        ]
    );
    assert_eq!(d[1].span, sp(3, 4));
}

#[test]
fn assignments_and_ternaries() {
    let mut d = Vec::new();
    validate_assignment("x", t(Qualifier::Series, ValueKind::Float), t(Qualifier::Const, ValueKind::Int), sp(0, 1), &mut d);
    assert!(d.is_empty());
    validate_assignment("x", t(Qualifier::Simple, ValueKind::Int), t(Qualifier::Series, ValueKind::Int), sp(0, 1), &mut d);
    assert_eq!(
        messages(&d),
        vec![("E_ASSIGN_TYPE".to_string(), "cannot assign series int to `x` of type simple int".to_string())]
    );
    let mut d = Vec::new();
    let cond = t(Qualifier::Const, ValueKind::Bool);
    assert_eq!(
        merge_branch_types(cond, t(Qualifier::Series, ValueKind::Int), t(Qualifier::Const, ValueKind::Float), Some(false), sp(0, 1), &mut d),
        Some(t(Qualifier::Const, ValueKind::Float))
    );
    assert_eq!(
        merge_branch_types(cond, t(Qualifier::Series, ValueKind::Int), t(Qualifier::Const, ValueKind::Float), None, sp(0, 1), &mut d),
        Some(t(Qualifier::Series, ValueKind::Float))
    );
    assert_eq!(
        merge_branch_types(t(Qualifier::Input, ValueKind::Bool), t(Qualifier::Const, ValueKind::Int), t(Qualifier::Const, ValueKind::Na), Some(true), sp(0, 1), &mut d),
        Some(t(Qualifier::Input, ValueKind::Int))
    );
    assert!(d.is_empty());
    assert_eq!(
        merge_branch_types(cond, t(Qualifier::Series, ValueKind::Int), t(Qualifier::Const, ValueKind::String), None, sp(5, 6), &mut d),
        None
    );
    assert_eq!(
        messages(&d),
        vec![("E_BRANCH_TYPE".to_string(), "ternary branches have incompatible types int and string".to_string())]
    );
}

#[test]
fn history_offsets() {
    assert_eq!(validate_history_offset(Some(3), None), None);
    assert_eq!(validate_history_offset(Some(-1), Some(t(Qualifier::Const, ValueKind::Int))), Some(HistoryOffsetIssue::Negative));
    assert_eq!(validate_history_offset(None, None), Some(HistoryOffsetIssue::UnknownType));
    assert_eq!(validate_history_offset(None, Some(t(Qualifier::Series, ValueKind::Int))), None);
    assert_eq!(validate_history_offset(None, Some(t(Qualifier::Input, ValueKind::Float))), None);
    let series_float = t(Qualifier::Series, ValueKind::Float);
    assert_eq!(validate_history_offset(None, Some(series_float)), Some(HistoryOffsetIssue::UnsupportedType(series_float)));
    let (feature, message) = history_offset_issue_report(HistoryOffsetIssue::UnsupportedType(series_float));
    assert_eq!(feature, "dynamic_history_offset");
    assert_eq!(
        message,
        "dynamic history offsets require an integer expression in the current supported subset; got series float"
    );
    let (feature, _) = history_offset_issue_report(HistoryOffsetIssue::Negative);
    assert_eq!(feature, "negative_history_offset");
}

// ---- drawing options ----

#[test]
fn drawing_option_tables_dispatch_by_function_and_version() {
    let label = drawing_option_checks("label.new", PineDialect::V5);
    assert_eq!(label.len(), 7);
    assert_eq!(label[0].index, 3);
    assert_eq!(label[0].name, "xloc");
    assert_eq!(label[0].rule, OptionRule::LabelString(OptionTable::Xlocs));
    assert_eq!(label[3].rule, OptionRule::TextSize);
    assert_eq!(label[6].rule, OptionRule::TextFormatting);
    assert_eq!(drawing_option_checks("plot", PineDialect::V4).len(), 0);
    let plot = drawing_option_checks("plot", PineDialect::V5);
    assert_eq!(plot.len(), 1);
    assert_eq!(plot[0].rule, OptionRule::EnumString(OptionTable::PlotStyles));
    assert_eq!(drawing_option_checks("ta.sma", PineDialect::V6).len(), 0);
    assert!(table_contains(OptionTable::LabelStyles, "label.style_label_center"));
    assert!(!table_contains(OptionTable::BoxBorderStyles, "line.style_arrow_left"));
}

fn facts(domain: Option<Vec<&str>>, strict_int: Option<Option<i64>>, const_string: Option<&str>) -> DrawingArgFacts {
    DrawingArgFacts {
        string_domain: domain.map(|v| v.into_iter().map(|s| s.to_string()).collect()),
        strict_int,
        const_string: const_string.map(|s| s.to_string()),
    }
}

#[test]
fn drawing_option_values_outside_their_tables_are_reported() {
    let s = sig(
        "line.set_style",
        vec![param("id", Accepts::LineCompatible, false), param("style", Accepts::StringCompatible, false)],
        false,
    );
    let args = vec![pos(sp(0, 1)), pos(sp(2, 3))];
    let mut d = Vec::new();
    validate_drawing_option_args(&s, &args, PineDialect::V5, &vec![facts(None, None, None), facts(Some(vec!["line.style_dotted", "line.style_solid"]), None, None)], &mut d);
    assert!(d.is_empty());
    validate_drawing_option_args(&s, &args, PineDialect::V5, &vec![facts(None, None, None), facts(Some(vec!["line.style_dotted", "plot.style_area"]), None, None)], &mut d);
    validate_drawing_option_args(&s, &args, PineDialect::V5, &vec![facts(None, None, None), facts(None, None, None)], &mut d);
    assert_eq!(d.len(), 2);
    assert_eq!(
        d[0].message,
        "`line.set_style` argument `style` only supports line.style_solid, line.style_dotted, line.style_dashed, line.style_arrow_left, line.style_arrow_right, line.style_arrow_both"
    );
    assert_eq!(d[0].code, "E_CALL_ARG_VALUE");
    assert_eq!(d[1].span, sp(2, 3));

    let size = sig(
        "label.set_size",
        vec![param("id", Accepts::LabelCompatible, false), param("size", Accepts::StringCompatible, false)],
        false,
    );
    let mut d = Vec::new();
    let args = vec![pos(sp(0, 1)), named("size", sp(4, 8))];
    validate_drawing_option_args(&size, &args, PineDialect::V5, &vec![facts(None, None, None), facts(None, None, Some("size.huge"))], &mut d);
    assert!(d.is_empty());
    validate_drawing_option_args(&size, &args, PineDialect::V5, &vec![facts(None, None, None), facts(None, None, Some("size.giant"))], &mut d);
    assert_eq!(
        messages(&d),
        vec![(
            "E_CALL_ARG_VALUE".to_string(),
            "`label.set_size` argument `size` only supports size.auto, size.tiny, size.small, size.normal, size.large, size.huge or int sizes".to_string()
        )]
    );

    let fmt = sig(
        "label.set_text_formatting",
        vec![param("id", Accepts::LabelCompatible, false), param("text_formatting", Accepts::IntCompatible, false)],
        false,
    );
    let args = vec![pos(sp(0, 1)), pos(sp(2, 3))];
    let mut d = Vec::new();
    validate_drawing_option_args(&fmt, &args, PineDialect::V6, &vec![facts(None, None, None), facts(None, Some(Some(3)), None)], &mut d);
    assert!(d.is_empty());
    validate_drawing_option_args(&fmt, &args, PineDialect::V6, &vec![facts(None, None, None), facts(None, Some(Some(4)), None)], &mut d);
    validate_drawing_option_args(&fmt, &args, PineDialect::V6, &vec![facts(None, None, None), facts(None, Some(None), None)], &mut d);
    assert_eq!(d.len(), 2);
    assert_eq!(
        d[0].message,
        "`label.set_text_formatting` argument `text_formatting` only supports text.format_none, text.format_bold, text.format_italic, or text.format_bold + text.format_italic"
    );
}

#[test]
fn fill_transp_is_removed_in_v6() {
    let args = vec![pos(sp(0, 1)), named("transp", sp(2, 8)), named("color", sp(9, 12))];
    assert_eq!(removed_fill_transp_spans("fill", PineDialect::V6, &args), vec![sp(2, 8)]);
    assert!(removed_fill_transp_spans("fill", PineDialect::V5, &args).is_empty());
    assert!(removed_fill_transp_spans("plot", PineDialect::V6, &args).is_empty());
}

// ---- script declarations and strategy mode ----

#[test]
fn one_top_level_declaration_per_script() {
    let mut declaration = None;
    let mut d = Vec::new();
    assert!(!validate_script_declaration_call("plot", sp(0, 1), 0, 0, &mut declaration, &mut d));
    assert!(declaration.is_none());
    assert!(!validate_script_declaration_call("strategy", sp(0, 1), 1, 0, &mut declaration, &mut d));
    assert!(declaration.is_none());
    assert!(validate_script_declaration_call("strategy", sp(2, 3), 0, 0, &mut declaration, &mut d));
    assert_eq!(declaration, Some((ScriptMode::Strategy, sp(2, 3))));
    assert!(!validate_script_declaration_call("indicator", sp(4, 5), 0, 0, &mut declaration, &mut d));
    assert_eq!(declaration, Some((ScriptMode::Strategy, sp(2, 3))));
    assert_eq!(
        messages(&d),
        vec![
            ("E_SCRIPT_DECL_LOCATION".to_string(), "`strategy` declarations must be top-level".to_string()),
            (
                "E_SCRIPT_DECL_DUPLICATE".to_string(),
                "script already has a Strategy declaration; only one indicator(...) or strategy(...) declaration is allowed".to_string()
            ),
        ]
    );
    let mut indicator = None;
    assert!(!validate_script_declaration_call("indicator", sp(0, 1), 0, 0, &mut indicator, &mut d));
    assert_eq!(indicator, Some((ScriptMode::Indicator, sp(0, 1))));
}

#[test]
fn strategy_calls_outside_a_strategy_are_reported() {
    let indicator = Some((ScriptMode::Indicator, sp(0, 1)));
    let strategy = Some((ScriptMode::Strategy, sp(0, 1)));
    let mut d = Vec::new();
    assert!(validate_strategy_order_call("strategy.entry", sp(5, 6), strategy, &mut d));
    assert!(!validate_strategy_order_call("strategy.equity", sp(5, 6), indicator, &mut d));
    validate_strategy_value_function_call("strategy.convert_to_account", sp(5, 6), strategy, &mut d);
    assert!(!validate_strategy_state_variable("strategy.position_size", sp(5, 6), strategy, &mut d));
    assert!(d.is_empty());
    assert!(validate_strategy_order_call("strategy.risk.max_drawdown", sp(7, 8), None, &mut d));
    validate_strategy_value_function_call("strategy.closedtrades.profit", sp(9, 10), indicator, &mut d);
    assert!(validate_strategy_state_variable("strategy.equity", sp(11, 12), indicator, &mut d));
    assert!(!validate_strategy_state_variable("close", sp(11, 12), indicator, &mut d));
    assert_eq!(
        messages(&d),
        vec![
            (
                "E_STRATEGY_MODE".to_string(),
                "`strategy.risk.max_drawdown` is only supported in scripts declared with strategy(...)".to_string()
            ),
            (
                "E_STRATEGY_MODE".to_string(),
                "`strategy.closedtrades.profit` is only supported in scripts declared with strategy(...)".to_string()
            ),
            (
                "E_STRATEGY_MODE".to_string(),
                "`strategy.equity` is only supported in scripts declared with strategy(...)".to_string()
            ),
        ]
    );
}

// ---- overload selection ----

fn overload(params: &[(&str, Qualifier, ValueKind)]) -> pine_sema::overloads::OverloadCandidate {
    pine_sema::overloads::OverloadCandidate {
        params: params.iter().map(|(n, _, _)| n.to_string()).collect(),
        default_values: params.iter().map(|_| None).collect(),
        param_types: params
            .iter()
            .map(|(_, q, k)| Some(pine_sema::overloads::ParamTypeInfo { pine_type: t(*q, *k), user_type_name: None }))
            .collect(),
    }
}

#[test]
fn overloads_prefer_exact_and_earliest_known_parameters() {
    let candidates = vec![
        overload(&[("x", Qualifier::Series, ValueKind::Float)]),
        overload(&[("x", Qualifier::Simple, ValueKind::Int)]),
    ];
    let args = vec![pos(sp(0, 1))];
    assert_eq!(pine_sema::overloads::select_overload(&candidates, &args, &[Some(t(Qualifier::Const, ValueKind::Int))]), Some(1));
    assert_eq!(pine_sema::overloads::select_overload(&candidates, &args, &[Some(t(Qualifier::Series, ValueKind::Float))]), Some(0));
    assert_eq!(pine_sema::overloads::select_overload(&candidates, &args, &[Some(t(Qualifier::Series, ValueKind::Int))]), Some(0));
    assert_eq!(pine_sema::overloads::select_overload(&candidates, &args, &[Some(t(Qualifier::Const, ValueKind::String))]), None);
    assert_eq!(pine_sema::overloads::select_overload(&candidates, &args, &[None]), None);
    assert_eq!(pine_sema::overloads::select_overload(&candidates, &[pos(sp(0, 1)), pos(sp(2, 3))], &[None, None]), None);

    let crossed = vec![
        overload(&[("a", Qualifier::Series, ValueKind::Int), ("b", Qualifier::Simple, ValueKind::Float)]),
        overload(&[("a", Qualifier::Simple, ValueKind::Float), ("b", Qualifier::Series, ValueKind::Int)]),
    ];
    let two = vec![pos(sp(0, 1)), pos(sp(2, 3))];
    let ints = [Some(t(Qualifier::Const, ValueKind::Int)), Some(t(Qualifier::Const, ValueKind::Int))];
    assert_eq!(pine_sema::overloads::select_overload(&crossed, &two, &ints), Some(0));

    let single = vec![overload(&[("x", Qualifier::Simple, ValueKind::Bool)])];
    assert_eq!(pine_sema::overloads::select_overload(&single, &args, &[Some(t(Qualifier::Const, ValueKind::String))]), Some(0));
}

#[test]
fn for_in_loops_take_element_row_key_or_value_kinds() {
    let kinds = pine_sema::type_rules::for_in_expr_kinds(t(Qualifier::Series, ValueKind::FloatArray), true, None, None).unwrap();
    assert_eq!((kinds.index_kind, kinds.value_kind, kinds.user_type_name), (Some(ValueKind::Int), ValueKind::Float, None));
    let rows = pine_sema::type_rules::for_in_expr_kinds(t(Qualifier::Series, ValueKind::IntMatrix), false, None, None).unwrap();
    assert_eq!((rows.index_kind, rows.value_kind), (None, ValueKind::IntArray));
    let objects = pine_sema::type_rules::for_in_expr_kinds(
        t(Qualifier::Series, ValueKind::UserTypeArray),
        false,
        Some("Point".to_string()),
        None,
    )
    .unwrap();
    assert_eq!((objects.value_kind, objects.user_type_name), (ValueKind::UserType, Some("Point".to_string())));
    assert!(pine_sema::type_rules::for_in_expr_kinds(t(Qualifier::Series, ValueKind::UserTypeArray), false, None, None).is_none());
    let keys = pine_sema::type_rules::for_in_expr_kinds(
        t(Qualifier::Simple, ValueKind::PineMap),
        false,
        None,
        Some((ValueKind::String, ValueKind::Float)),
    )
    .unwrap();
    assert_eq!((keys.index_kind, keys.value_kind), (None, ValueKind::String));
    let entries = pine_sema::type_rules::for_in_expr_kinds(
        t(Qualifier::Simple, ValueKind::PineMap),
        true,
        None,
        Some((ValueKind::String, ValueKind::Float)),
    )
    .unwrap();
    assert_eq!((entries.index_kind, entries.value_kind), (Some(ValueKind::String), ValueKind::Float));
    assert!(pine_sema::type_rules::for_in_expr_kinds(t(Qualifier::Series, ValueKind::Float), false, None, None).is_none());
    assert_eq!(
        pine_sema::bindings::persistence_kind_for_slot(Some(3)),
        pine_sema::bindings::PersistenceKind::Var
    );
    assert_eq!(
        pine_sema::bindings::persistence_kind_for_slot(None),
        pine_sema::bindings::PersistenceKind::Transient
    );
}

fn walk_arms(has_selector: bool, selector_known: bool, tests: &[pine_sema::switch_selection::ArmTest]) -> Vec<(bool, bool, bool)> {
    let mut state = pine_sema::switch_selection::start_switch_selection(has_selector, selector_known);
    tests
        .iter()
        .map(|test| {
            let o = pine_sema::switch_selection::next_switch_arm(&mut state, *test);
            (o.reachable, o.commit, o.selected)
        })
        .collect()
}

#[test]
fn switch_arms_are_selected_statically_until_a_condition_is_unknown() {
    let known = |b| pine_sema::switch_selection::ArmTest::Known(b);
    let default = pine_sema::switch_selection::ArmTest::Default;
    let unknown = pine_sema::switch_selection::ArmTest::Unknown;
    assert_eq!(
        walk_arms(false, false, &[known(false), known(true), default]),
        vec![(true, false, false), (true, true, true), (false, false, false)]
    );
    assert_eq!(
        walk_arms(false, false, &[known(false), unknown, known(true), default]),
        vec![(true, false, false), (true, true, false), (true, true, false), (true, true, false)]
    );
    assert_eq!(
        walk_arms(true, true, &[known(false), default, known(true)]),
        vec![(true, false, false), (true, true, true), (false, false, false)]
    );
    assert_eq!(
        walk_arms(true, false, &[known(true), default]),
        vec![(true, true, false), (true, true, false)]
    );
}

#[test]
fn reassignments_widen_types_and_report_misfits() {
    assert_eq!(
        assignment_contextualized_type(t(Qualifier::Const, ValueKind::Int), &[Qualifier::Input, Qualifier::Simple]),
        t(Qualifier::Simple, ValueKind::Int)
    );
    assert_eq!(
        assignment_contextualized_type(t(Qualifier::Const, ValueKind::IntArray), &[Qualifier::Series]),
        t(Qualifier::Const, ValueKind::IntArray)
    );
    let plain = ReassignTarget { typed_na_scalar: false, legacy_v3_na_origin: false, pending_legacy_v3_na: false };
    let mut d = Vec::new();
    let r = reassignment_outcome("x", t(Qualifier::Simple, ValueKind::Int), t(Qualifier::Series, ValueKind::Float), plain, sp(0, 5), &mut d);
    assert_eq!(r.symbol_type, t(Qualifier::Series, ValueKind::Float));
    assert!(!r.valid);
    assert_eq!(
        messages(&d),
        vec![("E_ASSIGN_TYPE".to_string(), "cannot assign series float to `x` of type simple int".to_string())]
    );
    let mut d = Vec::new();
    let typed_na = ReassignTarget { typed_na_scalar: true, legacy_v3_na_origin: false, pending_legacy_v3_na: false };
    let r = reassignment_outcome("y", t(Qualifier::Series, ValueKind::Float), t(Qualifier::Const, ValueKind::Int), typed_na, sp(0, 5), &mut d);
    assert_eq!(r.symbol_type, t(Qualifier::Const, ValueKind::Float));
    assert!(r.valid);
    assert!(d.is_empty());
    let pending = ReassignTarget { typed_na_scalar: false, legacy_v3_na_origin: true, pending_legacy_v3_na: true };
    let r = reassignment_outcome("z", t(Qualifier::Series, ValueKind::Na), t(Qualifier::Simple, ValueKind::String), pending, sp(0, 5), &mut d);
    assert_eq!(r.symbol_type, t(Qualifier::Simple, ValueKind::String));
    assert!(r.valid && !r.settles_pending);
    assert!(d.is_empty());
    let r = reassignment_outcome("z", t(Qualifier::Series, ValueKind::Na), t(Qualifier::Series, ValueKind::Label), pending, sp(0, 5), &mut d);
    assert!(r.settles_pending);
    assert_eq!(
        messages(&d),
        vec![(
            "E_LEGACY_V3_NA_INFERENCE".to_string(),
            "Pine v3 untyped `na` declaration `z` must infer exactly one scalar type; series label is not compatible".to_string()
        )]
    );
}

#[test]
fn analysis_depth_and_lowering_limits() {
    let limits = pine_sema::limits::LoweringLimits::default();
    assert_eq!((limits.max_inline_depth, limits.max_hir_nodes, limits.max_temp_symbols), (64, 65536, 4096));
    let mut depth = 127u32;
    let mut d = Vec::new();
    assert!(pine_sema::limits::enter_expr_analysis(&mut depth, sp(0, 1), &mut d));
    assert_eq!(depth, 128);
    assert!(d.is_empty());
    assert!(!pine_sema::limits::enter_expr_analysis(&mut depth, sp(2, 3), &mut d));
    assert_eq!(depth, 128);
    assert_eq!(
        messages(&d),
        vec![("E_SEMA_EXPR_DEPTH".to_string(), "expression is too deeply nested for semantic analysis".to_string())]
    );
}

#[test]
fn compile_time_switch_and_branch_values() {
    let i = |n: i64| Some(pine_sema::const_selection::ConstScalar::Int(n));
    let known = |b| pine_sema::switch_selection::ArmTest::Known(b);
    let default = pine_sema::switch_selection::ArmTest::Default;
    let unknown = pine_sema::switch_selection::ArmTest::Unknown;
    let tests = [known(false), known(true), default];
    assert_eq!(pine_sema::const_selection::known_switch_result(false, &tests, &[i(1), i(2), i(3)]), i(2));
    let tests = [known(false), unknown, default];
    assert_eq!(pine_sema::const_selection::known_switch_result(false, &tests, &[i(1), i(4), i(4)]), i(4));
    assert_eq!(pine_sema::const_selection::known_switch_result(false, &tests, &[i(1), i(4), i(5)]), None);
    let no_default = [unknown, known(true)];
    assert_eq!(pine_sema::const_selection::known_switch_result(false, &no_default, &[i(4), i(4)]), None);
    let tests = [known(true), default];
    assert_eq!(pine_sema::const_selection::known_switch_result(true, &tests, &[i(7), i(7)]), i(7));
    assert_eq!(pine_sema::const_selection::known_switch_result(true, &tests, &[i(7), None]), None);
    assert_eq!(pine_sema::const_selection::known_switch_result(false, &[known(false)], &[i(1)]), None);
    let c = Some(pine_sema::const_selection::ConstScalar::Color(0xff00ff));
    assert_eq!(pine_sema::const_selection::known_branch_result(Some(false), i(1), c), c);
    assert_eq!(pine_sema::const_selection::known_branch_result(None, c, c), c);
    assert_eq!(pine_sema::const_selection::known_branch_result(None, i(1), i(2)), None);
    assert_eq!(pine_sema::const_selection::known_branch_result(None, None, None), None);
}

#[test]
fn defaults_are_normalized_to_literals_and_builtin_variables() {
    let shadowed = NameSet::new();
    let minus = |inner: Expr, span: Span| Expr { kind: ExprKind::Unary { op: UnaryOp::Minus, expr: Box::new(inner) }, span };
    let (e, ty) = normalize_default(&minus(lit_int(3, sp(1, 2)), sp(0, 2)), &shadowed, None, None).unwrap();
    assert_eq!(e, lit_int(-3, sp(0, 2)));
    assert_eq!(ty, t(Qualifier::Const, ValueKind::Int));
    assert!(normalize_default(&minus(lit_int(i64::MIN, sp(1, 2)), sp(0, 2)), &shadowed, None, None).is_none());
    let half = Expr { kind: ExprKind::Literal(Literal::Float(0.5f64.to_bits())), span: sp(1, 4) };
    let (e, ty) = normalize_default(&minus(half, sp(0, 4)), &shadowed, None, None).unwrap();
    assert_eq!(e, Expr { kind: ExprKind::Literal(Literal::Float((-0.5f64).to_bits())), span: sp(0, 4) });
    assert_eq!(ty, t(Qualifier::Const, ValueKind::Float));
    let inf = Expr { kind: ExprKind::Literal(Literal::Float(f64::INFINITY.to_bits())), span: sp(1, 4) };
    assert!(normalize_default(&minus(inf, sp(0, 4)), &shadowed, None, None).is_none());
    let close = ident("close", sp(5, 10));
    let series_float = t(Qualifier::Series, ValueKind::Float);
    assert_eq!(normalize_default(&close, &shadowed, Some(series_float), None), Some((ident("close", sp(5, 10)), series_float)));
    let mut hidden = NameSet::new();
    hidden.insert("close".to_string());
    assert!(normalize_default(&close, &hidden, Some(series_float), None).is_none());
    let red = Expr { kind: ExprKind::QualifiedName(vec!["color".to_string(), "red".to_string()]), span: sp(7, 16) };
    let (e, ty) = normalize_default(&red, &shadowed, None, Some(Literal::ColorHex("#ff5252".to_string()))).unwrap();
    assert_eq!(e, Expr { kind: ExprKind::Literal(Literal::ColorHex("#ff5252".to_string())), span: sp(7, 16) });
    assert_eq!(ty, t(Qualifier::Const, ValueKind::Color));
    assert!(normalize_default(&ident("x", sp(0, 1)), &shadowed, None, None).is_none());
}
