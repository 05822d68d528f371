use pine_sema::analyzer::{AnalyzerState, StmtContext};
use pine_sema::dialect::PineDialect;
use pine_sema::function_registry::FunctionEntry;
use pine_sema::syntax::{BinaryOp, CallArg, Expr, ExprKind, Literal, Span, Stmt, StmtKind, UnaryOp};
use pine_sema::types::{PineType, Qualifier, ValueKind};

fn sp(start: usize, end: usize) -> Span {
    Span { start, end }
}

fn int_lit(n: i64, s: Span) -> Expr {
    Expr { kind: ExprKind::Literal(Literal::Int(n)), span: s }
}

fn boolean(b: bool, s: Span) -> Expr {
    Expr { kind: ExprKind::Literal(Literal::Bool(b)), span: s }
}

fn text(v: &str, s: Span) -> Expr {
    Expr { kind: ExprKind::Literal(Literal::String(v.to_string())), span: s }
}

fn ident(n: &str, s: Span) -> Expr {
    Expr { kind: ExprKind::Identifier(n.to_string()), span: s }
}

fn bin(op: BinaryOp, l: Expr, r: Expr, s: Span) -> Expr {
    Expr { kind: ExprKind::Binary { op, left: Box::new(l), right: Box::new(r) }, span: s }
}

fn stmt(kind: StmtKind, s: Span) -> Stmt {
    Stmt { kind, span: s }
}

fn top() -> StmtContext {
    StmtContext { in_loop: false, in_block: false, in_function: false }
}

fn ty(q: Qualifier, k: ValueKind) -> PineType {
    PineType { qualifier: q, kind: k }
}

#[test]
fn expressions_are_typed_through_scopes_and_operator_rules() {
    let mut st = AnalyzerState::new(PineDialect::V5);
    st.analyze_stmt(top(), &stmt(StmtKind::Decl { name: "x".to_string(), value: int_lit(1, sp(4, 5)) }, sp(0, 5)));
    assert_eq!(st.resolve("x"), Some(ty(Qualifier::Const, ValueKind::Int)));
    let sum = bin(BinaryOp::Add, ident("x", sp(0, 1)), int_lit(2, sp(4, 5)), sp(0, 5));
    assert_eq!(st.analyze_expr(&sum, 0), Some(ty(Qualifier::Const, ValueKind::Int)));
    let bad = bin(BinaryOp::Sub, text("a", sp(0, 3)), int_lit(2, sp(6, 7)), sp(0, 7));
    assert_eq!(st.analyze_expr(&bad, 0), None);
    assert_eq!(st.diagnostics.len(), 1);
    assert_eq!(st.diagnostics[0].span, sp(0, 7));
    let neg = Expr { kind: ExprKind::Unary { op: UnaryOp::Not, expr: Box::new(int_lit(1, sp(1, 2))) }, span: sp(0, 2) };
    assert_eq!(st.analyze_expr(&neg, 0), None);
    assert_eq!(st.diagnostics.len(), 2);
    assert_eq!(st.analyze_expr(&ident("nothing", sp(0, 7)), 0), None);
    assert_eq!(st.diagnostics.len(), 2);
}

#[test]
fn ternaries_check_their_condition_and_merge_branches() {
    let mut st = AnalyzerState::new(PineDialect::V6);
    let t = Expr {
        kind: ExprKind::Ternary {
            condition: Box::new(int_lit(1, sp(0, 1))),
            then_expr: Box::new(int_lit(1, sp(4, 5))),
            else_expr: Box::new(Expr { kind: ExprKind::Literal(Literal::Float(1.5f64.to_bits())), span: sp(8, 11) }),
        },
        span: sp(0, 11),
    };
    assert_eq!(st.analyze_expr(&t, 0), Some(ty(Qualifier::Const, ValueKind::Float)));
    assert_eq!(st.diagnostics.len(), 1);
    assert_eq!(st.diagnostics[0].code, "E_CONDITION_TYPE");
    assert_eq!(st.diagnostics[0].span, sp(0, 1));
}

#[test]
fn history_offsets_are_checked() {
    let mut st = AnalyzerState::new(PineDialect::V5);
    st.analyze_stmt(top(), &stmt(StmtKind::Decl { name: "p".to_string(), value: int_lit(1, sp(4, 5)) }, sp(0, 5)));
    let h = |offset: Expr| Expr {
        kind: ExprKind::History { expr: Box::new(ident("p", sp(0, 1))), offset: Box::new(offset) },
        span: sp(0, 6),
    };
    let minus_one = Expr { kind: ExprKind::Unary { op: UnaryOp::Minus, expr: Box::new(int_lit(1, sp(3, 4))) }, span: sp(2, 4) };
    assert_eq!(st.analyze_expr(&h(minus_one), 0), Some(ty(Qualifier::Series, ValueKind::Int)));
    assert_eq!(st.unsupported.len(), 1);
    assert_eq!(st.unsupported[0].0, "negative_history_offset");
    assert_eq!(st.unsupported[0].2, sp(2, 4));
    assert_eq!(st.analyze_expr(&h(int_lit(3, sp(2, 3))), 0), Some(ty(Qualifier::Series, ValueKind::Int)));
    assert_eq!(st.unsupported.len(), 1);
}

#[test]
fn statements_follow_scopes_and_placement_rules() {
    let mut st = AnalyzerState::new(PineDialect::V5);
    let body = vec![
        stmt(StmtKind::Decl { name: "inner".to_string(), value: ident("i", sp(20, 21)) }, sp(12, 21)),
        stmt(StmtKind::Break, sp(22, 27)),
        stmt(StmtKind::UserType("Point".to_string()), sp(28, 40)),
    ];
    let for_loop = stmt(
        StmtKind::For { var: "i".to_string(), from: int_lit(0, sp(4, 5)), to: int_lit(10, sp(9, 11)), step: Some(int_lit(0, sp(12, 13))), body },
        sp(0, 41),
    );
    st.analyze_stmt(top(), &for_loop);
    let codes: Vec<&str> = st.diagnostics.iter().map(|d| d.code.as_str()).collect();
    assert_eq!(codes, vec!["E_LOOP_STEP", "E_UDT_DECL_LOCATION"]);
    assert_eq!(st.resolve("inner"), None);
    assert_eq!(st.resolve("i"), None);
    assert_eq!(st.scopes.len(), 1);
    st.analyze_stmt(top(), &stmt(StmtKind::Continue, sp(50, 58)));
    assert_eq!(st.diagnostics.last().unwrap().message, "`continue` can only be used inside a loop");
    let features: Vec<&str> = st.features.iter().map(|f| f.0.as_str()).collect();
    assert_eq!(features, vec!["for", "user-defined types"]);
}

#[test]
fn conditions_loops_and_reassignments() {
    let mut st = AnalyzerState::new(PineDialect::V6);
    st.analyze_stmt(top(), &stmt(StmtKind::Reassign { name: "y".to_string(), value: int_lit(1, sp(5, 6)) }, sp(0, 6)));
    assert_eq!(st.diagnostics[0].message, "cannot reassign unknown symbol `y`");
    st.analyze_stmt(top(), &stmt(StmtKind::Decl { name: "g".to_string(), value: int_lit(1, sp(4, 5)) }, sp(0, 5)));
    let in_function = StmtContext { in_loop: false, in_block: false, in_function: true };
    st.analyze_stmt(in_function, &stmt(StmtKind::Reassign { name: "g".to_string(), value: int_lit(2, sp(5, 6)) }, sp(0, 6)));
    assert_eq!(st.unsupported[0].0, "function_side_effect");
    let w = stmt(
        StmtKind::While { condition: text("s", sp(6, 9)), body: vec![stmt(StmtKind::Break, sp(12, 17))] },
        sp(0, 18),
    );
    st.analyze_stmt(top(), &w);
    assert_eq!(st.diagnostics.len(), 2);
    assert_eq!(st.diagnostics[1].code, "E_CONDITION_TYPE");
    let i = stmt(
        StmtKind::If { condition: boolean(true, sp(3, 7)), then_branch: vec![stmt(StmtKind::Continue, sp(9, 17))], else_branch: vec![] },
        sp(0, 17),
    );
    st.analyze_stmt(top(), &i);
    assert_eq!(st.diagnostics.len(), 3);
    assert_eq!(st.diagnostics[2].code, "E_LOOP_CONTROL");
}

#[test]
fn type_queries_see_parameters_before_scopes_and_report_nothing() {
    let mut st = AnalyzerState::new(PineDialect::V5);
    st.analyze_stmt(top(), &stmt(StmtKind::Decl { name: "x".to_string(), value: int_lit(1, sp(4, 5)) }, sp(0, 5)));
    let params = vec![("x".to_string(), ty(Qualifier::Series, ValueKind::Float))];
    assert_eq!(st.type_of_expr_with_params(&ident("x", sp(0, 1)), &params), Some(ty(Qualifier::Series, ValueKind::Float)));
    assert_eq!(st.type_of_expr_with_params(&ident("x", sp(0, 1)), &Vec::new()), Some(ty(Qualifier::Const, ValueKind::Int)));
    let ratio = bin(BinaryOp::Div, ident("x", sp(0, 1)), int_lit(2, sp(4, 5)), sp(0, 5));
    assert_eq!(st.type_of_expr_with_params(&ratio, &Vec::new()), Some(ty(Qualifier::Const, ValueKind::Float)));
    let bad = bin(BinaryOp::Sub, text("a", sp(0, 3)), int_lit(2, sp(6, 7)), sp(0, 7));
    assert_eq!(st.type_of_expr_with_params(&bad, &Vec::new()), Some(ty(Qualifier::Const, ValueKind::Int)));
    let joined = bin(BinaryOp::Add, text("a", sp(0, 3)), text("b", sp(6, 9)), sp(0, 9));
    assert_eq!(st.type_of_expr_with_params(&joined, &params), Some(ty(Qualifier::Const, ValueKind::String)));
    let cmp = bin(BinaryOp::Lt, ident("x", sp(0, 1)), int_lit(2, sp(4, 5)), sp(0, 5));
    assert_eq!(st.type_of_expr_with_params(&cmp, &params), Some(ty(Qualifier::Series, ValueKind::Bool)));
    let pick = Expr {
        kind: ExprKind::Ternary {
            condition: Box::new(boolean(true, sp(0, 4))),
            then_expr: Box::new(int_lit(1, sp(7, 8))),
            else_expr: Box::new(ident("x", sp(11, 12))),
        },
        span: sp(0, 12),
    };
    assert_eq!(st.type_of_expr_with_params(&pick, &params), Some(ty(Qualifier::Const, ValueKind::Float)));
    assert_eq!(st.type_of_expr_with_params(&ident("nothing", sp(0, 7)), &params), None);
    assert!(st.diagnostics.is_empty());
}

#[test]
fn tuple_element_types_come_from_aliases_or_items() {
    let st = AnalyzerState::new(PineDialect::V5);
    let params = vec![("p".to_string(), ty(Qualifier::Series, ValueKind::Float))];
    let aliases = vec![
        ("pair".to_string(), vec![ty(Qualifier::Series, ValueKind::Int)]),
        ("pair".to_string(), vec![ty(Qualifier::Simple, ValueKind::Bool), ty(Qualifier::Series, ValueKind::Float)]),
    ];
    assert_eq!(
        st.tuple_element_types_with_context(&ident("pair", sp(0, 4)), &params, &aliases),
        Some(vec![ty(Qualifier::Simple, ValueKind::Bool), ty(Qualifier::Series, ValueKind::Float)])
    );
    assert_eq!(st.tuple_element_types_with_context(&ident("other", sp(0, 5)), &params, &aliases), None);
    let items = Expr { kind: ExprKind::Tuple(vec![ident("p", sp(1, 2)), int_lit(3, sp(4, 5))]), span: sp(0, 6) };
    assert_eq!(
        st.tuple_element_types_with_context(&items, &params, &aliases),
        Some(vec![ty(Qualifier::Series, ValueKind::Float), ty(Qualifier::Const, ValueKind::Int)])
    );
    let unknown = Expr { kind: ExprKind::Tuple(vec![ident("q", sp(1, 2)), int_lit(3, sp(4, 5))]), span: sp(0, 6) };
    assert_eq!(st.tuple_element_types_with_context(&unknown, &params, &aliases), None);
}

fn entry_f() -> FunctionEntry {
    FunctionEntry {
        name: "f".to_string(),
        params: vec!["a".to_string(), "b".to_string()],
        param_types: vec![None, None],
        default_values: vec![None, Some(int_lit(2, sp(30, 31)))],
        statement: 0,
        span: sp(20, 40),
    }
}

fn positional(value: Expr) -> CallArg {
    let span = value.span;
    CallArg { name: None, span, value }
}

#[test]
fn entering_a_user_function_call_binds_its_arguments() {
    let mut st = AnalyzerState::new(PineDialect::V5);
    let int_const = ty(Qualifier::Const, ValueKind::Int);
    let series_float = ty(Qualifier::Series, ValueKind::Float);
    let (args, ix, types) = st
        .bind_udf_call(entry_f(), &Vec::new(), 0, 0, sp(0, 1), sp(0, 10), vec![positional(int_lit(1, sp(2, 3)))], &vec![Some(series_float)], 0)
        .unwrap();
    assert_eq!(args.len(), 2);
    assert_eq!(args[1].name, Some("b".to_string()));
    assert_eq!(ix, vec![0, 1]);
    assert_eq!(types, vec![Some(series_float), Some(int_const)]);
    assert_eq!(st.features, vec![("function".to_string(), sp(20, 40))]);
    assert!(st.diagnostics.is_empty());
}

#[test]
fn entering_a_user_function_call_refuses_recursion_and_bad_arguments() {
    let mut st = AnalyzerState::new(PineDialect::V5);
    let stack = vec!["f".to_string()];
    assert!(st.bind_udf_call(entry_f(), &stack, 1, 0, sp(0, 1), sp(0, 10), Vec::new(), &Vec::new(), 0).is_none());
    assert_eq!(st.diagnostics.len(), 1);
    assert_eq!(st.diagnostics[0].code, "E_RECURSIVE_FUNCTION");
    assert_eq!(st.diagnostics[0].message, "recursive function `f` is not supported");
    let bad = CallArg { name: Some("zz".to_string()), span: sp(5, 9), value: int_lit(1, sp(8, 9)) };
    assert!(st.bind_udf_call(entry_f(), &Vec::new(), 0, 0, sp(0, 1), sp(0, 10), vec![bad], &vec![None], 0).is_none());
    assert_eq!(st.diagnostics.len(), 2);
    assert_eq!(st.diagnostics[1].code, "E_FUNCTION_ARG_NAME");
    assert_eq!(st.diagnostics[1].message, "`f` has no argument named `zz`");
    assert!(st.features.is_empty());
}

#[test]
fn type_queries_agree_with_analysis_when_it_gives_a_type() {
    let mut st = AnalyzerState::new(PineDialect::V5);
    st.analyze_stmt(top(), &stmt(StmtKind::Decl { name: "x".to_string(), value: int_lit(1, sp(4, 5)) }, sp(0, 5)));
    let exprs = vec![
        bin(BinaryOp::Mul, ident("x", sp(0, 1)), int_lit(2, sp(4, 5)), sp(0, 5)),
        bin(BinaryOp::Gte, ident("x", sp(0, 1)), int_lit(2, sp(4, 5)), sp(0, 5)),
        bin(BinaryOp::Add, text("a", sp(0, 3)), text("b", sp(6, 9)), sp(0, 9)),
        Expr {
            kind: ExprKind::Ternary {
                condition: Box::new(boolean(false, sp(0, 4))),
                then_expr: Box::new(int_lit(1, sp(7, 8))),
                else_expr: Box::new(ident("x", sp(11, 12))),
            },
            span: sp(0, 12),
        },
    ];
    for e in &exprs {
        let analysed = st.analyze_expr(e, 0);
        assert!(analysed.is_some());
        assert_eq!(st.type_of_expr_with_params(e, &Vec::new()), analysed);
    }
}

#[test]
fn a_function_body_sees_its_parameters_in_a_scope_of_their_own() {
    let mut st = AnalyzerState::new(PineDialect::V5);
    let body = bin(BinaryOp::Mul, ident("x", sp(8, 9)), int_lit(2, sp(12, 13)), sp(8, 13));
    let params = vec!["x".to_string()];
    let r = st.analyze_udf_expr_body(&params, &vec![ty(Qualifier::Series, ValueKind::Float)], &body, 0);
    assert_eq!(r, Some(ty(Qualifier::Series, ValueKind::Float)));
    assert_eq!(st.resolve("x"), None);
    assert_eq!(st.scopes.len(), 1);
    let bad = bin(BinaryOp::Mul, text("s", sp(8, 11)), ident("x", sp(14, 15)), sp(8, 15));
    assert_eq!(st.analyze_udf_expr_body(&params, &vec![ty(Qualifier::Simple, ValueKind::Int)], &bad, 0), None);
    assert_eq!(st.diagnostics.len(), 1);
    assert_eq!(st.diagnostics[0].span, sp(8, 15));
}
