//! Finding calls with side effects (output, declarations, drawing and
//! collection mutation) inside expressions and statements.
use vstd::prelude::*;
use crate::call_parts::{expr_name, name_of};
use crate::names::{
    is_output_or_declaration_name, is_output_or_declaration_builtin, array_mutation_names,
    is_array_mutation_builtin, is_array_mutation_method_call_name, map_mutation_names,
    is_map_mutation_builtin, is_map_mutation_method_call_name, last_segment, array_methods,
    map_methods,
};
use crate::syntax::{CallArg, Expr, ExprKind, Stmt, StmtKind, SwitchArm, SwitchArmResult};

verus! {

/// `receiver.method` names a mutating array method.
pub open spec fn is_array_mutation_method_name(n: Seq<char>) -> bool {
    match last_segment(n) {
        Some(m) => array_methods().contains(m) && array_mutation_names().contains("array."@ + m),
        None => false,
    }
}

/// `receiver.method` names a mutating map method.
pub open spec fn is_map_mutation_method_name(n: Seq<char>) -> bool {
    match last_segment(n) {
        Some(m) => map_methods().contains(m) && map_mutation_names().contains("map."@ + m),
        None => false,
    }
}

/// A callee name whose call has a side effect: output, declaration,
/// drawing, or mutation of an array, matrix or map.
pub open spec fn is_effect_call_name(n: Seq<char>) -> bool {
    ||| is_output_or_declaration_name(n)
    ||| array_mutation_names().contains(n)
    ||| is_array_mutation_method_name(n)
    ||| map_mutation_names().contains(n)
    ||| is_map_mutation_method_name(n)
}

/// Whether evaluating `e` may make a call with a side effect.  The offset
/// of a history reference is not looked into.
pub open spec fn expr_has_effect(e: Expr) -> bool
    decreases e,
{
    match e.kind {
        ExprKind::Call { callee, args } => (name_of(*callee) matches Some(n) && is_effect_call_name(n))
            || args_have_effect(args@),
        ExprKind::Unary { expr, .. } => expr_has_effect(*expr),
        ExprKind::History { expr, .. } => expr_has_effect(*expr),
        ExprKind::Group(expr) => expr_has_effect(*expr),
        ExprKind::Binary { left, right, .. } => expr_has_effect(*left) || expr_has_effect(*right),
        ExprKind::Ternary { condition, then_expr, else_expr } => expr_has_effect(*condition)
            || expr_has_effect(*then_expr) || expr_has_effect(*else_expr),
        ExprKind::If { condition, then_branch, else_branch } => expr_has_effect(*condition)
            || stmts_have_effect(then_branch@) || stmts_have_effect(else_branch@),
        ExprKind::Switch { selector, arms } => (selector matches Some(s) && expr_has_effect(*s))
            || arms_have_effect(arms@),
        ExprKind::For { from, to, step, body, .. } => expr_has_effect(*from) || expr_has_effect(*to)
            || (step matches Some(s) && expr_has_effect(*s)) || stmts_have_effect(body@),
        ExprKind::While { condition, body } => expr_has_effect(*condition) || stmts_have_effect(body@),
        ExprKind::ForIn { iterable, body, .. } => expr_has_effect(*iterable) || stmts_have_effect(body@),
        ExprKind::Tuple(items) => exprs_have_effect(items@),
        ExprKind::Literal(_) | ExprKind::Identifier(_) | ExprKind::QualifiedName(_) => false,
    }
}

/// Whether some argument may make a call with a side effect.
pub open spec fn args_have_effect(args: Seq<CallArg>) -> bool
    decreases args,
{
    if args.len() == 0 {
        false
    } else {
        expr_has_effect(args[0].value) || args_have_effect(args.subrange(1, args.len() as int))
    }
}

/// Whether some expression may make a call with a side effect.
pub open spec fn exprs_have_effect(es: Seq<Expr>) -> bool
    decreases es,
{
    if es.len() == 0 {
        false
    } else {
        expr_has_effect(es[0]) || exprs_have_effect(es.subrange(1, es.len() as int))
    }
}

/// Whether some arm may make a call with a side effect.
pub open spec fn arms_have_effect(arms: Seq<SwitchArm>) -> bool
    decreases arms,
{
    if arms.len() == 0 {
        false
    } else {
        (arms[0].condition matches Some(c) && expr_has_effect(c)) || arm_result_has_effect(arms[0].result)
            || arms_have_effect(arms.subrange(1, arms.len() as int))
    }
}

pub open spec fn arm_result_has_effect(r: SwitchArmResult) -> bool
    decreases r,
{
    match r {
        SwitchArmResult::Expr(e) => expr_has_effect(e),
        SwitchArmResult::Block(ss) => stmts_have_effect(ss@),
    }
}

/// Whether executing `s` may make a call with a side effect.  Loops are
/// taken to have one; declarations of functions, types and modules have
/// none.
pub open spec fn stmt_has_effect(s: Stmt) -> bool
    decreases s,
{
    match s.kind {
        StmtKind::Expr(e) => expr_has_effect(e),
        StmtKind::Decl { value, .. } => expr_has_effect(value),
        StmtKind::Reassign { value, .. } => expr_has_effect(value),
        StmtKind::FieldReassign { value, .. } => expr_has_effect(value),
        StmtKind::TupleDecl { value, .. } => expr_has_effect(value),
        StmtKind::ArrayFieldReassign { array, index, value, .. } => expr_has_effect(array)
            || expr_has_effect(index) || expr_has_effect(value),
        StmtKind::If { condition, then_branch, else_branch } => expr_has_effect(condition)
            || stmts_have_effect(then_branch@) || stmts_have_effect(else_branch@),
        StmtKind::For { .. } | StmtKind::ForIn { .. } | StmtKind::While { .. } => true,
        _ => false,
    }
}

/// Whether some statement may make a call with a side effect.
pub open spec fn stmts_have_effect(ss: Seq<Stmt>) -> bool
    decreases ss,
{
    if ss.len() == 0 {
        false
    } else {
        stmt_has_effect(ss[0]) || stmts_have_effect(ss.subrange(1, ss.len() as int))
    }
}

fn is_effect_call(name: &str) -> (r: bool)
    ensures
        r == is_effect_call_name(name@),
{
    is_output_or_declaration_builtin(name) || is_array_mutation_builtin(name)
        || is_array_mutation_method_call_name(name) || is_map_mutation_builtin(name)
        || is_map_mutation_method_call_name(name)
}

/// Whether evaluating `expr` may make a call with a side effect.
pub fn contains_output_or_declaration_call(expr: &Expr) -> (r: bool)
    ensures
        r == expr_has_effect(*expr),
    decreases *expr,
{
    match &expr.kind {
        ExprKind::Call { callee, args } => {
            let named = match expr_name(callee) {
                Some(name) => is_effect_call(name.as_str()),
                None => false,
            };
            named || args_contain_effect(args.as_slice())
        },
        ExprKind::Unary { expr, .. } => contains_output_or_declaration_call(expr),
        ExprKind::History { expr, .. } => contains_output_or_declaration_call(expr),
        ExprKind::Group(expr) => contains_output_or_declaration_call(expr),
        ExprKind::Binary { left, right, .. } => contains_output_or_declaration_call(left)
            || contains_output_or_declaration_call(right),
        ExprKind::Ternary { condition, then_expr, else_expr } => contains_output_or_declaration_call(condition)
            || contains_output_or_declaration_call(then_expr) || contains_output_or_declaration_call(else_expr),
        ExprKind::If { condition, then_branch, else_branch } => contains_output_or_declaration_call(condition)
            || stmts_contain_effect(then_branch.as_slice()) || stmts_contain_effect(else_branch.as_slice()),
        ExprKind::Switch { selector, arms } => {
            let in_selector = match selector {
                Some(s) => contains_output_or_declaration_call(s),
                None => false,
            };
            in_selector || arms_contain_effect(arms.as_slice())
        },
        ExprKind::For { from, to, step, body, .. } => {
            let in_step = match step {
                Some(s) => contains_output_or_declaration_call(s),
                None => false,
            };
            contains_output_or_declaration_call(from) || contains_output_or_declaration_call(to) || in_step
                || stmts_contain_effect(body.as_slice())
        },
        ExprKind::While { condition, body } => contains_output_or_declaration_call(condition)
            || stmts_contain_effect(body.as_slice()),
        ExprKind::ForIn { iterable, body, .. } => contains_output_or_declaration_call(iterable)
            || stmts_contain_effect(body.as_slice()),
        ExprKind::Tuple(items) => exprs_contain_effect(items.as_slice()),
        ExprKind::Literal(_) | ExprKind::Identifier(_) | ExprKind::QualifiedName(_) => false,
    }
}

fn args_contain_effect(args: &[CallArg]) -> (r: bool)
    ensures
        r == args_have_effect(args@),
    decreases args@,
{
    assert(args@.subrange(0, args@.len() as int) =~= args@);
    let mut i: usize = 0;
    while i < args.len()
        invariant
            i <= args@.len(),
            args_have_effect(args@) == args_have_effect(args@.subrange(i as int, args@.len() as int)),
        decreases args@.len() - i,
    {
        let ghost rest = args@.subrange(i as int, args@.len() as int);
        assert(rest[0] == args@[i as int]);
        assert(rest.subrange(1, rest.len() as int) =~= args@.subrange(i + 1, args@.len() as int));
        proof {
            assert(decreases_to!(args@ => args@[i as int]));
        }
        if contains_output_or_declaration_call(&args[i].value) {
            return true;
        }
        i = i + 1;
    }
    false
}

fn exprs_contain_effect(es: &[Expr]) -> (r: bool)
    ensures
        r == exprs_have_effect(es@),
    decreases es@,
{
    assert(es@.subrange(0, es@.len() as int) =~= es@);
    let mut i: usize = 0;
    while i < es.len()
        invariant
            i <= es@.len(),
            exprs_have_effect(es@) == exprs_have_effect(es@.subrange(i as int, es@.len() as int)),
        decreases es@.len() - i,
    {
        let ghost rest = es@.subrange(i as int, es@.len() as int);
        assert(rest[0] == es@[i as int]);
        assert(rest.subrange(1, rest.len() as int) =~= es@.subrange(i + 1, es@.len() as int));
        if contains_output_or_declaration_call(&es[i]) {
            return true;
        }
        i = i + 1;
    }
    false
}

fn arms_contain_effect(arms: &[SwitchArm]) -> (r: bool)
    ensures
        r == arms_have_effect(arms@),
    decreases arms@,
{
    assert(arms@.subrange(0, arms@.len() as int) =~= arms@);
    let mut i: usize = 0;
    while i < arms.len()
        invariant
            i <= arms@.len(),
            arms_have_effect(arms@) == arms_have_effect(arms@.subrange(i as int, arms@.len() as int)),
        decreases arms@.len() - i,
    {
        let ghost rest = arms@.subrange(i as int, arms@.len() as int);
        assert(rest[0] == arms@[i as int]);
        assert(rest.subrange(1, rest.len() as int) =~= arms@.subrange(i + 1, arms@.len() as int));
        proof {
            assert(decreases_to!(arms@ => arms@[i as int]));
        }
        let in_condition = match &arms[i].condition {
            Some(c) => contains_output_or_declaration_call(c),
            None => false,
        };
        if in_condition || switch_arm_result_contains_output_or_declaration_call(&arms[i].result) {
            return true;
        }
        i = i + 1;
    }
    false
}

/// Whether the result of a switch arm may make a call with a side effect.
pub fn switch_arm_result_contains_output_or_declaration_call(result: &SwitchArmResult) -> (r: bool)
    ensures
        r == arm_result_has_effect(*result),
    decreases *result,
{
    match result {
        SwitchArmResult::Expr(expr) => contains_output_or_declaration_call(expr),
        SwitchArmResult::Block(statements) => stmts_contain_effect(statements.as_slice()),
    }
}

fn stmts_contain_effect(ss: &[Stmt]) -> (r: bool)
    ensures
        r == stmts_have_effect(ss@),
    decreases ss@,
{
    assert(ss@.subrange(0, ss@.len() as int) =~= ss@);
    let mut i: usize = 0;
    while i < ss.len()
        invariant
            i <= ss@.len(),
            stmts_have_effect(ss@) == stmts_have_effect(ss@.subrange(i as int, ss@.len() as int)),
        decreases ss@.len() - i,
    {
        let ghost rest = ss@.subrange(i as int, ss@.len() as int);
        assert(rest[0] == ss@[i as int]);
        assert(rest.subrange(1, rest.len() as int) =~= ss@.subrange(i + 1, ss@.len() as int));
        if statement_contains_output_or_declaration_call(&ss[i]) {
            return true;
        }
        i = i + 1;
    }
    false
}

/// Whether executing `statement` may make a call with a side effect.
pub fn statement_contains_output_or_declaration_call(statement: &Stmt) -> (r: bool)
    ensures
        r == stmt_has_effect(*statement),
    decreases *statement,
{
    match &statement.kind {
        StmtKind::Expr(expr) => contains_output_or_declaration_call(expr),
        StmtKind::Decl { value, .. } => contains_output_or_declaration_call(value),
        StmtKind::Reassign { value, .. } => contains_output_or_declaration_call(value),
        StmtKind::FieldReassign { value, .. } => contains_output_or_declaration_call(value),
        StmtKind::TupleDecl { value, .. } => contains_output_or_declaration_call(value),
        StmtKind::ArrayFieldReassign { array, index, value, .. } => contains_output_or_declaration_call(array)
            || contains_output_or_declaration_call(index) || contains_output_or_declaration_call(value),
        StmtKind::If { condition, then_branch, else_branch } => contains_output_or_declaration_call(condition)
            || stmts_contain_effect(then_branch.as_slice()) || stmts_contain_effect(else_branch.as_slice()),
        StmtKind::For { .. } | StmtKind::ForIn { .. } | StmtKind::While { .. } => true,
        _ => false,
    }
}

/// Some argument may make a call with a side effect exactly when one of
/// them does.
pub proof fn lemma_args_have_effect_iff_some(args: Seq<CallArg>)
    ensures
        args_have_effect(args) <==> exists|i: int| 0 <= i < args.len() && #[trigger] expr_has_effect(args[i].value),
    decreases args.len(),
{
    if args.len() == 0 {
        assert(!args_have_effect(args));
    } else {
        let rest = args.subrange(1, args.len() as int);
        assert(args_have_effect(args) == (expr_has_effect(args[0].value) || args_have_effect(rest)));
        lemma_args_have_effect_iff_some(rest);
        if exists|i: int| 0 <= i < rest.len() && #[trigger] expr_has_effect(rest[i].value) {
            let i = choose|i: int| 0 <= i < rest.len() && #[trigger] expr_has_effect(rest[i].value);
            assert(rest[i] == args[i + 1]);
        }
        if exists|i: int| 0 <= i < args.len() && #[trigger] expr_has_effect(args[i].value) {
            let i = choose|i: int| 0 <= i < args.len() && #[trigger] expr_has_effect(args[i].value);
            if i > 0 {
                assert(rest[i - 1] == args[i]);
            }
        }
    }
}

/// Some expression of a list may make a call with a side effect exactly
/// when one of them does.
pub proof fn lemma_exprs_have_effect_iff_some(es: Seq<Expr>)
    ensures
        exprs_have_effect(es) <==> exists|i: int| 0 <= i < es.len() && #[trigger] expr_has_effect(es[i]),
    decreases es.len(),
{
    if es.len() == 0 {
        assert(!exprs_have_effect(es));
    } else {
        let rest = es.subrange(1, es.len() as int);
        assert(exprs_have_effect(es) == (expr_has_effect(es[0]) || exprs_have_effect(rest)));
        lemma_exprs_have_effect_iff_some(rest);
        if exists|i: int| 0 <= i < rest.len() && #[trigger] expr_has_effect(rest[i]) {
            let i = choose|i: int| 0 <= i < rest.len() && #[trigger] expr_has_effect(rest[i]);
            assert(rest[i] == es[i + 1]);
        }
        if exists|i: int| 0 <= i < es.len() && #[trigger] expr_has_effect(es[i]) {
            let i = choose|i: int| 0 <= i < es.len() && #[trigger] expr_has_effect(es[i]);
            if i > 0 {
                assert(rest[i - 1] == es[i]);
            }
        }
    }
}

} // verus!
