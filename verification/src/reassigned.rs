//! The names a piece of code may reassign, fields included, looking into
//! nested blocks and function bodies.
use vstd::prelude::*;
use crate::name_set::NameSet;
use crate::syntax::{CallArg, Expr, ExprKind, FunctionBody, Stmt, StmtKind, SwitchArm, SwitchArmResult};

verus! {

pub open spec fn reassigned_in_expr(e: Expr) -> Set<Seq<char>>
    decreases e,
{
    match e.kind {
        ExprKind::Unary { expr, .. } => reassigned_in_expr(*expr),
        ExprKind::Group(expr) => reassigned_in_expr(*expr),
        ExprKind::History { expr, offset } => reassigned_in_expr(*expr) + reassigned_in_expr(*offset),
        ExprKind::Binary { left, right, .. } => reassigned_in_expr(*left) + reassigned_in_expr(*right),
        ExprKind::Ternary { condition, then_expr, else_expr } => reassigned_in_expr(*condition)
            + reassigned_in_expr(*then_expr) + reassigned_in_expr(*else_expr),
        ExprKind::If { condition, then_branch, else_branch } => reassigned_in_expr(*condition)
            + reassigned_in_stmts(then_branch@) + reassigned_in_stmts(else_branch@),
        ExprKind::Switch { selector, arms } => (match selector {
            Some(s) => reassigned_in_expr(*s),
            None => Set::empty(),
        }) + reassigned_in_arms(arms@),
        ExprKind::For { from, to, step, body, .. } => reassigned_in_expr(*from) + reassigned_in_expr(*to)
            + (match step {
            Some(s) => reassigned_in_expr(*s),
            None => Set::empty(),
        }) + reassigned_in_stmts(body@),
        ExprKind::ForIn { iterable, body, .. } => reassigned_in_expr(*iterable) + reassigned_in_stmts(body@),
        ExprKind::While { condition, body } => reassigned_in_expr(*condition) + reassigned_in_stmts(body@),
        ExprKind::Tuple(items) => reassigned_in_exprs(items@),
        ExprKind::Call { callee, args } => reassigned_in_expr(*callee) + reassigned_in_args(args@),
        ExprKind::Literal(_) | ExprKind::Identifier(_) | ExprKind::QualifiedName(_) => Set::empty(),
    }
}

pub open spec fn reassigned_in_exprs(es: Seq<Expr>) -> Set<Seq<char>>
    decreases es,
{
    if es.len() == 0 {
        Set::empty()
    } else {
        reassigned_in_expr(es[0]) + reassigned_in_exprs(es.subrange(1, es.len() as int))
    }
}

pub open spec fn reassigned_in_args(args: Seq<CallArg>) -> Set<Seq<char>>
    decreases args,
{
    if args.len() == 0 {
        Set::empty()
    } else {
        reassigned_in_expr(args[0].value) + reassigned_in_args(args.subrange(1, args.len() as int))
    }
}

pub open spec fn reassigned_in_arms(arms: Seq<SwitchArm>) -> Set<Seq<char>>
    decreases arms,
{
    if arms.len() == 0 {
        Set::empty()
    } else {
        (match arms[0].condition {
            Some(c) => reassigned_in_expr(c),
            None => Set::empty(),
        }) + (match arms[0].result {
            SwitchArmResult::Expr(e) => reassigned_in_expr(e),
            SwitchArmResult::Block(ss) => reassigned_in_stmts(ss@),
        }) + reassigned_in_arms(arms.subrange(1, arms.len() as int))
    }
}

pub open spec fn reassigned_in_body(b: FunctionBody) -> Set<Seq<char>>
    decreases b,
{
    match b {
        FunctionBody::Expr(e) => reassigned_in_expr(e),
        FunctionBody::Block(ss) => reassigned_in_stmts(ss@),
    }
}

/// The names reassigned by a statement: the target of a reassignment, the
/// receiver of a field reassignment, and the names reassigned in what it
/// contains, function and method bodies included.
pub open spec fn reassigned_in_stmt(s: Stmt) -> Set<Seq<char>>
    decreases s,
{
    match s.kind {
        StmtKind::Expr(e) => reassigned_in_expr(e),
        StmtKind::Reassign { name, value } => reassigned_in_expr(value).insert(name@),
        StmtKind::FieldReassign { receiver, value, .. } => reassigned_in_expr(value).insert(receiver@),
        StmtKind::If { condition, then_branch, else_branch } => reassigned_in_expr(condition)
            + reassigned_in_stmts(then_branch@) + reassigned_in_stmts(else_branch@),
        StmtKind::For { from, to, step, body, .. } => reassigned_in_expr(from) + reassigned_in_expr(to)
            + (match step {
            Some(st) => reassigned_in_expr(st),
            None => Set::empty(),
        }) + reassigned_in_stmts(body@),
        StmtKind::ForIn { iterable, body, .. } => reassigned_in_expr(iterable) + reassigned_in_stmts(body@),
        StmtKind::While { condition, body } => reassigned_in_expr(condition) + reassigned_in_stmts(body@),
        StmtKind::Function { body, .. } => reassigned_in_body(body),
        StmtKind::Method(m) => reassigned_in_body(m.body),
        StmtKind::Decl { value, .. } => reassigned_in_expr(value),
        StmtKind::TupleDecl { value, .. } => reassigned_in_expr(value),
        StmtKind::ArrayFieldReassign { array, index, value, .. } => reassigned_in_expr(array)
            + reassigned_in_expr(index) + reassigned_in_expr(value),
        _ => Set::empty(),
    }
}

pub open spec fn reassigned_in_stmts(ss: Seq<Stmt>) -> Set<Seq<char>>
    decreases ss,
{
    if ss.len() == 0 {
        Set::empty()
    } else {
        reassigned_in_stmt(ss[0]) + reassigned_in_stmts(ss.subrange(1, ss.len() as int))
    }
}

/// Adds to `names` every name that `statements` may reassign.
pub fn collect_request_reassigned_names(statements: &[Stmt], names: &mut NameSet)
    requires
        old(names).wf(),
    ensures
        final(names).wf(),
        final(names)@ == old(names)@ + reassigned_in_stmts(statements@),
    decreases statements@,
{
    let ghost start = names@;
    assert(statements@.subrange(0, statements@.len() as int) =~= statements@);
    let mut i: usize = 0;
    while i < statements.len()
        invariant
            names.wf(),
            i <= statements@.len(),
            start + reassigned_in_stmts(statements@) == names@ + reassigned_in_stmts(
                statements@.subrange(i as int, statements@.len() as int),
            ),
        decreases statements@.len() - i,
    {
        let ghost rest = statements@.subrange(i as int, statements@.len() as int);
        assert(rest[0] == statements@[i as int]);
        assert(rest.subrange(1, rest.len() as int) =~= statements@.subrange(i + 1, statements@.len() as int));
        let ghost before = names@;
        collect_stmt(&statements[i], names);
        assert(before + reassigned_in_stmts(rest) =~= names@ + reassigned_in_stmts(
            statements@.subrange(i + 1, statements@.len() as int),
        ));
        i = i + 1;
    }
    assert(names@ + reassigned_in_stmts(statements@.subrange(i as int, statements@.len() as int)) =~= names@);
}

fn collect_stmt(statement: &Stmt, names: &mut NameSet)
    requires
        old(names).wf(),
    ensures
        final(names).wf(),
        final(names)@ == old(names)@ + reassigned_in_stmt(*statement),
    decreases *statement,
{
    let ghost start = names@;
    match &statement.kind {
        StmtKind::Expr(expr) => collect_request_reassigned_names_from_expr(expr, names),
        StmtKind::Reassign { name, value } => {
            names.insert(name.clone());
            collect_request_reassigned_names_from_expr(value, names);
            assert(names@ =~= start + reassigned_in_stmt(*statement));
        },
        StmtKind::FieldReassign { receiver, value, .. } => {
            names.insert(receiver.clone());
            collect_request_reassigned_names_from_expr(value, names);
            assert(names@ =~= start + reassigned_in_stmt(*statement));
        },
        StmtKind::If { condition, then_branch, else_branch } => {
            collect_request_reassigned_names_from_expr(condition, names);
            collect_request_reassigned_names(then_branch.as_slice(), names);
            collect_request_reassigned_names(else_branch.as_slice(), names);
            assert(names@ =~= start + reassigned_in_stmt(*statement));
        },
        StmtKind::For { from, to, step, body, .. } => {
            collect_request_reassigned_names_from_expr(from, names);
            collect_request_reassigned_names_from_expr(to, names);
            if let Some(step) = step {
                collect_request_reassigned_names_from_expr(step, names);
            }
            collect_request_reassigned_names(body.as_slice(), names);
            assert(names@ =~= start + reassigned_in_stmt(*statement));
        },
        StmtKind::ForIn { iterable, body, .. } => {
            collect_request_reassigned_names_from_expr(iterable, names);
            collect_request_reassigned_names(body.as_slice(), names);
            assert(names@ =~= start + reassigned_in_stmt(*statement));
        },
        StmtKind::While { condition, body } => {
            collect_request_reassigned_names_from_expr(condition, names);
            collect_request_reassigned_names(body.as_slice(), names);
            assert(names@ =~= start + reassigned_in_stmt(*statement));
        },
        StmtKind::Function { body, .. } => collect_request_reassigned_names_from_function_body(body, names),
        StmtKind::Method(method) => collect_request_reassigned_names_from_function_body(&method.body, names),
        StmtKind::Decl { value, .. } => collect_request_reassigned_names_from_expr(value, names),
        StmtKind::TupleDecl { value, .. } => collect_request_reassigned_names_from_expr(value, names),
        StmtKind::ArrayFieldReassign { array, index, value, .. } => {
            collect_request_reassigned_names_from_expr(array, names);
            collect_request_reassigned_names_from_expr(index, names);
            collect_request_reassigned_names_from_expr(value, names);
            assert(names@ =~= start + reassigned_in_stmt(*statement));
        },
        _ => {
            assert(names@ =~= start + reassigned_in_stmt(*statement));
        },
    }
}

/// Adds to `names` every name that a function body may reassign.
pub fn collect_request_reassigned_names_from_function_body(body: &FunctionBody, names: &mut NameSet)
    requires
        old(names).wf(),
    ensures
        final(names).wf(),
        final(names)@ == old(names)@ + reassigned_in_body(*body),
    decreases *body,
{
    match body {
        FunctionBody::Expr(expr) => collect_request_reassigned_names_from_expr(expr, names),
        FunctionBody::Block(statements) => collect_request_reassigned_names(statements.as_slice(), names),
    }
}

fn collect_exprs(es: &[Expr], names: &mut NameSet)
    requires
        old(names).wf(),
    ensures
        final(names).wf(),
        final(names)@ == old(names)@ + reassigned_in_exprs(es@),
    decreases es@,
{
    let ghost start = names@;
    assert(es@.subrange(0, es@.len() as int) =~= es@);
    let mut i: usize = 0;
    while i < es.len()
        invariant
            names.wf(),
            i <= es@.len(),
            start + reassigned_in_exprs(es@) == names@ + reassigned_in_exprs(es@.subrange(i as int, es@.len() as int)),
        decreases es@.len() - i,
    {
        let ghost rest = es@.subrange(i as int, es@.len() as int);
        assert(rest[0] == es@[i as int]);
        assert(rest.subrange(1, rest.len() as int) =~= es@.subrange(i + 1, es@.len() as int));
        let ghost before = names@;
        collect_request_reassigned_names_from_expr(&es[i], names);
        assert(before + reassigned_in_exprs(rest) =~= names@ + reassigned_in_exprs(
            es@.subrange(i + 1, es@.len() as int),
        ));
        i = i + 1;
    }
    assert(names@ + reassigned_in_exprs(es@.subrange(i as int, es@.len() as int)) =~= names@);
}

fn collect_args(args: &[CallArg], names: &mut NameSet)
    requires
        old(names).wf(),
    ensures
        final(names).wf(),
        final(names)@ == old(names)@ + reassigned_in_args(args@),
    decreases args@,
{
    let ghost start = names@;
    assert(args@.subrange(0, args@.len() as int) =~= args@);
    let mut i: usize = 0;
    while i < args.len()
        invariant
            names.wf(),
            i <= args@.len(),
            start + reassigned_in_args(args@) == names@ + reassigned_in_args(args@.subrange(i as int, args@.len() as int)),
        decreases args@.len() - i,
    {
        let ghost rest = args@.subrange(i as int, args@.len() as int);
        assert(rest[0] == args@[i as int]);
        assert(rest.subrange(1, rest.len() as int) =~= args@.subrange(i + 1, args@.len() as int));
        proof {
            assert(decreases_to!(args@ => args@[i as int]));
        }
        let ghost before = names@;
        collect_request_reassigned_names_from_expr(&args[i].value, names);
        assert(before + reassigned_in_args(rest) =~= names@ + reassigned_in_args(
            args@.subrange(i + 1, args@.len() as int),
        ));
        i = i + 1;
    }
    assert(names@ + reassigned_in_args(args@.subrange(i as int, args@.len() as int)) =~= names@);
}

fn collect_arms(arms: &[SwitchArm], names: &mut NameSet)
    requires
        old(names).wf(),
    ensures
        final(names).wf(),
        final(names)@ == old(names)@ + reassigned_in_arms(arms@),
    decreases arms@,
{
    let ghost start = names@;
    assert(arms@.subrange(0, arms@.len() as int) =~= arms@);
    let mut i: usize = 0;
    while i < arms.len()
        invariant
            names.wf(),
            i <= arms@.len(),
            start + reassigned_in_arms(arms@) == names@ + reassigned_in_arms(arms@.subrange(i as int, arms@.len() as int)),
        decreases arms@.len() - i,
    {
        let ghost rest = arms@.subrange(i as int, arms@.len() as int);
        assert(rest[0] == arms@[i as int]);
        assert(rest.subrange(1, rest.len() as int) =~= arms@.subrange(i + 1, arms@.len() as int));
        proof {
            assert(decreases_to!(arms@ => arms@[i as int]));
        }
        let ghost before = names@;
        let arm = &arms[i];
        if let Some(condition) = &arm.condition {
            collect_request_reassigned_names_from_expr(condition, names);
        }
        match &arm.result {
            SwitchArmResult::Expr(expr) => collect_request_reassigned_names_from_expr(expr, names),
            SwitchArmResult::Block(statements) => collect_request_reassigned_names(statements.as_slice(), names),
        }
        assert(before + reassigned_in_arms(rest) =~= names@ + reassigned_in_arms(
            arms@.subrange(i + 1, arms@.len() as int),
        ));
        i = i + 1;
    }
    assert(names@ + reassigned_in_arms(arms@.subrange(i as int, arms@.len() as int)) =~= names@);
}

/// Adds to `names` every name that `expr` may reassign.
pub fn collect_request_reassigned_names_from_expr(expr: &Expr, names: &mut NameSet)
    requires
        old(names).wf(),
    ensures
        final(names).wf(),
        final(names)@ == old(names)@ + reassigned_in_expr(*expr),
    decreases *expr,
{
    let ghost start = names@;
    match &expr.kind {
        ExprKind::Unary { expr, .. } => collect_request_reassigned_names_from_expr(expr, names),
        ExprKind::Group(expr) => collect_request_reassigned_names_from_expr(expr, names),
        ExprKind::History { expr: inner, offset } => {
            collect_request_reassigned_names_from_expr(inner, names);
            collect_request_reassigned_names_from_expr(offset, names);
            assert(names@ =~= start + reassigned_in_expr(*expr));
        },
        ExprKind::Binary { left, right, .. } => {
            collect_request_reassigned_names_from_expr(left, names);
            collect_request_reassigned_names_from_expr(right, names);
            assert(names@ =~= start + reassigned_in_expr(*expr));
        },
        ExprKind::Ternary { condition, then_expr, else_expr } => {
            collect_request_reassigned_names_from_expr(condition, names);
            collect_request_reassigned_names_from_expr(then_expr, names);
            collect_request_reassigned_names_from_expr(else_expr, names);
            assert(names@ =~= start + reassigned_in_expr(*expr));
        },
        ExprKind::If { condition, then_branch, else_branch } => {
            collect_request_reassigned_names_from_expr(condition, names);
            collect_request_reassigned_names(then_branch.as_slice(), names);
            collect_request_reassigned_names(else_branch.as_slice(), names);
            assert(names@ =~= start + reassigned_in_expr(*expr));
        },
        ExprKind::Switch { selector, arms } => {
            if let Some(selector) = selector {
                collect_request_reassigned_names_from_expr(selector, names);
            }
            collect_arms(arms.as_slice(), names);
            assert(names@ =~= start + reassigned_in_expr(*expr));
        },
        ExprKind::For { from, to, step, body, .. } => {
            collect_request_reassigned_names_from_expr(from, names);
            collect_request_reassigned_names_from_expr(to, names);
            if let Some(step) = step {
                collect_request_reassigned_names_from_expr(step, names);
            }
            collect_request_reassigned_names(body.as_slice(), names);
            assert(names@ =~= start + reassigned_in_expr(*expr));
        },
        ExprKind::ForIn { iterable, body, .. } => {
            collect_request_reassigned_names_from_expr(iterable, names);
            collect_request_reassigned_names(body.as_slice(), names);
            assert(names@ =~= start + reassigned_in_expr(*expr));
        },
        ExprKind::While { condition, body } => {
            collect_request_reassigned_names_from_expr(condition, names);
            collect_request_reassigned_names(body.as_slice(), names);
            assert(names@ =~= start + reassigned_in_expr(*expr));
        },
        ExprKind::Tuple(items) => collect_exprs(items.as_slice(), names),
        ExprKind::Call { callee, args } => {
            collect_request_reassigned_names_from_expr(callee, names);
            collect_args(args.as_slice(), names);
            assert(names@ =~= start + reassigned_in_expr(*expr));
        },
        ExprKind::Literal(_) | ExprKind::Identifier(_) | ExprKind::QualifiedName(_) => {
            assert(names@ =~= start + reassigned_in_expr(*expr));
        },
    }
}

} // verus!
