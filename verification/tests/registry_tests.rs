use pine_sema::defaults::BuiltinNameFacts;
use pine_sema::function_registry::{function_param_type, register_functions};
use pine_sema::name_set::NameSet;
use pine_sema::syntax::{Expr, ExprKind, FunctionBody, FunctionParam, Literal, Span, Stmt, StmtKind};
use pine_sema::types::{PineType, Qualifier, ValueKind};
use pine_sema::udf_calls::{check_function_arg_type, check_udf_arg_types};
use pine_sema::overloads::ParamTypeInfo;

fn sp(start: usize, end: usize) -> Span {
    Span { start, end }
}

fn set(names: &[&str]) -> NameSet {
    let mut s = NameSet::new();
    for n in names {
        s.insert(n.to_string());
    }
    s
}

fn param(name: &str, declared: Option<&str>, default: Option<Expr>, s: Span) -> FunctionParam {
    FunctionParam { name: name.to_string(), declared_type: declared.map(|t| t.to_string()), default_value: default, span: s }
}

fn function(name: &str, params: Vec<FunctionParam>, s: Span) -> Stmt {
    let body = FunctionBody::Expr(Expr { kind: ExprKind::Literal(Literal::Int(0)), span: s });
    Stmt { kind: StmtKind::Function { name: name.to_string(), params, body }, span: s }
}

fn none_facts(n: usize) -> Vec<BuiltinNameFacts> {
    (0..n).map(|_| BuiltinNameFacts { variable_type: None, constant: None }).collect()
}

#[test]
fn parameter_types_resolve_or_are_reported() {
    let ut = set(&["Point"]);
    let aut = set(&["Point"]);
    let mut d = Vec::new();
    let t = |q, k| PineType { qualifier: q, kind: k };
    assert_eq!(function_param_type("simple int", sp(0, 1), &ut, &aut, &mut d).unwrap().pine_type, t(Qualifier::Simple, ValueKind::Int));
    assert_eq!(function_param_type("float", sp(0, 1), &ut, &aut, &mut d).unwrap().pine_type, t(Qualifier::Series, ValueKind::Float));
    assert_eq!(function_param_type("array<box>", sp(0, 1), &ut, &aut, &mut d).unwrap().pine_type, t(Qualifier::Series, ValueKind::BoxArray));
    let udt = function_param_type("Point", sp(0, 1), &ut, &aut, &mut d).unwrap();
    assert_eq!((udt.pine_type.kind, udt.user_type_name), (ValueKind::UserType, Some("Point".to_string())));
    let arr = function_param_type("array<Point>", sp(0, 1), &ut, &aut, &mut d).unwrap();
    assert_eq!((arr.pine_type.kind, arr.user_type_name), (ValueKind::UserTypeArray, Some("Point".to_string())));
    assert!(d.is_empty());
    assert!(function_param_type("simple label", sp(3, 4), &ut, &aut, &mut d).is_none());
    assert!(function_param_type("matrix<int>", sp(5, 6), &ut, &aut, &mut d).is_none());
    assert_eq!(d[0].message, "function parameter type `label` is not supported");
    assert_eq!(d[0].code, "E_FUNCTION_PARAM_TYPE");
    assert_eq!(d[1].span, sp(5, 6));
}

#[test]
fn functions_are_registered_once_with_checked_names_and_params() {
    let program = vec![
        function("f", vec![param("a", Some("int"), None, sp(1, 2))], sp(0, 10)),
        function("f", vec![], sp(11, 20)),
        function("close", vec![], sp(21, 30)),
        function("g", vec![param("a", None, None, sp(31, 32)), param("a", None, None, sp(33, 34))], sp(31, 40)),
        function("h", vec![param("p", Some("widget"), None, sp(41, 42))], sp(41, 50)),
        function("k", vec![param("n", Some("int"), Some(Expr { kind: ExprKind::Literal(Literal::Int(3)), span: sp(53, 54) }), sp(51, 54))], sp(51, 60)),
    ];
    let facts = vec![none_facts(1), none_facts(0), none_facts(0), none_facts(2), none_facts(1), none_facts(1)];
    let mut d = Vec::new();
    let entries = register_functions(&program, 5, &set(&["close"]), &NameSet::new(), &NameSet::new(), facts, &mut d);
    let names: Vec<&str> = entries.iter().map(|e| e.name.as_str()).collect();
    assert_eq!(names, vec!["f", "k"]);
    assert_eq!(entries[1].statement, 5);
    assert_eq!(entries[1].default_values[0], Some(Expr { kind: ExprKind::Literal(Literal::Int(3)), span: sp(53, 54) }));
    let messages: Vec<&str> = d.iter().map(|x| x.message.as_str()).collect();
    assert_eq!(
        messages,
        vec![
            "function `f` is already defined",
            "function `close` conflicts with an existing symbol",
            "function `g` has duplicate parameter names",
            "function parameter type `widget` is not supported",
        ]
    );
}

#[test]
fn function_argument_types_are_checked_against_the_parameter() {
    let mut d = Vec::new();
    let simple_int = PineType { qualifier: Qualifier::Simple, kind: ValueKind::Int };
    let series_float = PineType { qualifier: Qualifier::Series, kind: ValueKind::Float };
    let const_int = PineType { qualifier: Qualifier::Const, kind: ValueKind::Int };
    assert!(check_function_arg_type("len", simple_int, sp(3, 8), const_int, &mut d));
    assert!(d.is_empty());
    assert!(!check_function_arg_type("len", simple_int, sp(3, 8), series_float, &mut d));
    assert_eq!(d.len(), 1);
    assert_eq!(d[0].code, "E_FUNCTION_ARG_TYPE");
    assert_eq!(d[0].message, "cannot pass series float to function parameter `len` of type simple int");
    assert_eq!(d[0].span, sp(3, 8));
}

#[test]
fn bound_arguments_are_checked_parameter_by_parameter() {
    let t = |q, k| PineType { qualifier: q, kind: k };
    let params = vec!["n".to_string(), "any".to_string(), "pts".to_string()];
    let types = vec![
        Some(ParamTypeInfo { pine_type: t(Qualifier::Simple, ValueKind::Int), user_type_name: None }),
        None,
        Some(ParamTypeInfo { pine_type: t(Qualifier::Series, ValueKind::UserTypeArray), user_type_name: Some("Point".to_string()) }),
    ];
    let spans = vec![sp(1, 2), sp(3, 4), sp(5, 6)];
    let args = vec![
        t(Qualifier::Series, ValueKind::Int),
        t(Qualifier::Series, ValueKind::Float),
        t(Qualifier::Series, ValueKind::UserTypeArray),
    ];
    let mut d = Vec::new();
    check_udf_arg_types(&params, &types, &spans, &args, &vec![None, None, Some("Line".to_string())], &mut d);
    assert_eq!(d.len(), 2);
    assert_eq!(d[0].message, "cannot pass series int to function parameter `n` of type simple int");
    assert_eq!(d[0].span, sp(1, 2));
    assert_eq!(d[1].message, "cannot pass a different user-defined type array to function parameter `pts`");
    assert_eq!(d[1].span, sp(5, 6));
    let mut d2 = Vec::new();
    check_udf_arg_types(&params, &types, &spans, &args, &vec![None, None, Some("Point".to_string())], &mut d2);
    assert_eq!(d2.len(), 1);
}
