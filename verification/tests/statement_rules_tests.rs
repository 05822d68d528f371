use pine_sema::statement_rules::{
    check_declaration_value, check_loop_control, check_top_level_declaration, loop_counter_type,
    nested_function_unsupported, reassign_target_issue, reassign_target_issue_report, ReassignTargetIssue,
    TopLevelDecl,
};
use pine_sema::syntax::Span;
use pine_sema::types::{PineType, Qualifier, ValueKind};

fn at(start: usize) -> Span {
    Span { start, end: start + 1 }
}

#[test]
fn declarations_of_types_and_methods_must_be_top_level() {
    let mut diags = Vec::new();
    assert_eq!(check_top_level_declaration(TopLevelDecl::UserType, 0, 0, at(1), &mut diags), "user-defined types");
    assert!(diags.is_empty());
    assert_eq!(check_top_level_declaration(TopLevelDecl::Method, 1, 0, at(2), &mut diags), "user-defined methods");
    check_top_level_declaration(TopLevelDecl::UserType, 0, 2, at(3), &mut diags);
    assert_eq!(diags.len(), 2);
    assert_eq!(diags[0].code, "E_METHOD_DECL_LOCATION");
    assert_eq!(diags[0].message, "user-defined method declarations must be top-level");
    assert_eq!(diags[1].code, "E_UDT_DECL_LOCATION");
    assert_eq!(diags[1].span, at(3));
}

#[test]
fn loop_control_outside_loops_is_reported() {
    let mut diags = Vec::new();
    check_loop_control(true, 1, at(0), &mut diags);
    assert!(diags.is_empty());
    check_loop_control(true, 0, at(1), &mut diags);
    check_loop_control(false, 0, at(2), &mut diags);
    assert_eq!(diags[0].message, "`break` can only be used inside a loop");
    assert_eq!(diags[1].message, "`continue` can only be used inside a loop");
    assert_eq!(diags[1].code, "E_LOOP_CONTROL");
}

#[test]
fn nested_functions_and_void_declarations() {
    assert_eq!(nested_function_unsupported(0, 0), None);
    assert_eq!(
        nested_function_unsupported(0, 1),
        Some(("block_local_function", "nested function declarations are not supported"))
    );
    let mut diags = Vec::new();
    check_declaration_value(PineType { qualifier: Qualifier::Series, kind: ValueKind::Float }, at(0), &mut diags);
    assert!(diags.is_empty());
    check_declaration_value(PineType { qualifier: Qualifier::Const, kind: ValueKind::Void }, at(4), &mut diags);
    assert_eq!(diags[0].code, "E_DECL_VALUE");
    assert_eq!(diags[0].span, at(4));
}

#[test]
fn reassignment_targets() {
    assert_eq!(reassign_target_issue(false, 1, true), Some(ReassignTargetIssue::Unknown));
    assert_eq!(reassign_target_issue(true, 1, true), Some(ReassignTargetIssue::GlobalFromFunction));
    assert_eq!(reassign_target_issue(true, 0, true), None);
    assert_eq!(reassign_target_issue(true, 1, false), None);
    let (code, message) = reassign_target_issue_report(ReassignTargetIssue::Unknown, "x");
    assert_eq!((code, message.as_str()), ("E_UNKNOWN_SYMBOL", "cannot reassign unknown symbol `x`"));
}

#[test]
fn loop_counter_takes_the_latest_qualifier() {
    let t = |q| Some(PineType { qualifier: q, kind: ValueKind::Int });
    assert_eq!(loop_counter_type(None, None, None), PineType { qualifier: Qualifier::Const, kind: ValueKind::Int });
    assert_eq!(loop_counter_type(t(Qualifier::Input), t(Qualifier::Const), None).qualifier, Qualifier::Input);
    assert_eq!(loop_counter_type(t(Qualifier::Simple), t(Qualifier::Series), t(Qualifier::Input)).qualifier, Qualifier::Series);
}
