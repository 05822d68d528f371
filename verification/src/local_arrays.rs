//! Straight-line mutations of arrays that a function allocates itself.
//! Unknown control flow discards what is known; aliases and parameters do
//! not establish ownership.
use vstd::prelude::*;
use crate::call_parts::{expr_name, name_of};
use crate::name_set::NameSet;
use crate::syntax::{CallArg, Expr, ExprKind, FunctionBody, Span, Stmt, StmtKind, SwitchArm, SwitchArmResult};
use crate::text::{str_eq, opt_view};

verus! {

/// An expression made only of names, literals, operators, history
/// references, calls and tuples: no control flow.
pub open spec fn straight(e: Expr) -> bool
    decreases e,
{
    match e.kind {
        ExprKind::Literal(_) | ExprKind::Identifier(_) | ExprKind::QualifiedName(_) => true,
        ExprKind::Group(inner) => straight(*inner),
        ExprKind::Unary { expr, .. } => straight(*expr),
        ExprKind::Binary { left, right, .. } => straight(*left) && straight(*right),
        ExprKind::History { expr, offset } => straight(*expr) && straight(*offset),
        ExprKind::Call { callee, args } => straight(*callee) && args_straight(args@),
        ExprKind::Tuple(items) => exprs_straight(items@),
        ExprKind::Ternary { condition, then_expr, else_expr } => straight(*condition) && straight(*then_expr)
            && straight(*else_expr),
        _ => false,
    }
}

pub open spec fn args_straight(args: Seq<CallArg>) -> bool
    decreases args,
{
    args.len() == 0 || (straight(args[0].value) && args_straight(args.subrange(1, args.len() as int)))
}

pub open spec fn exprs_straight(es: Seq<Expr>) -> bool
    decreases es,
{
    es.len() == 0 || (straight(es[0]) && exprs_straight(es.subrange(1, es.len() as int)))
}

/// Whether evaluating `e` may rebind `name`: only a reassignment inside a
/// nested block does; loops are taken to.
pub open spec fn expr_rebinds(e: Expr, name: Seq<char>) -> bool
    decreases e,
{
    match e.kind {
        ExprKind::Literal(_) | ExprKind::Identifier(_) | ExprKind::QualifiedName(_) => false,
        ExprKind::Group(inner) => expr_rebinds(*inner, name),
        ExprKind::Unary { expr, .. } => expr_rebinds(*expr, name),
        ExprKind::Binary { left, right, .. } => expr_rebinds(*left, name) || expr_rebinds(*right, name),
        ExprKind::History { expr, offset } => expr_rebinds(*expr, name) || expr_rebinds(*offset, name),
        ExprKind::Call { callee, args } => expr_rebinds(*callee, name) || args_rebind(args@, name),
        ExprKind::Tuple(items) => exprs_rebind(items@, name),
        ExprKind::Ternary { condition, then_expr, else_expr } => expr_rebinds(*condition, name)
            || expr_rebinds(*then_expr, name) || expr_rebinds(*else_expr, name),
        ExprKind::If { condition, then_branch, else_branch } => expr_rebinds(*condition, name)
            || stmts_change(then_branch@, name) || stmts_change(else_branch@, name),
        ExprKind::Switch { selector, arms } => (selector matches Some(s) && expr_rebinds(*s, name))
            || arms_rebind(arms@, name),
        _ => true,
    }
}

pub open spec fn args_rebind(args: Seq<CallArg>, name: Seq<char>) -> bool
    decreases args,
{
    args.len() > 0 && (expr_rebinds(args[0].value, name) || args_rebind(args.subrange(1, args.len() as int), name))
}

pub open spec fn exprs_rebind(es: Seq<Expr>, name: Seq<char>) -> bool
    decreases es,
{
    es.len() > 0 && (expr_rebinds(es[0], name) || exprs_rebind(es.subrange(1, es.len() as int), name))
}

pub open spec fn arms_rebind(arms: Seq<SwitchArm>, name: Seq<char>) -> bool
    decreases arms,
{
    arms.len() > 0 && ((arms[0].condition matches Some(c) && expr_rebinds(c, name)) || match arms[0].result {
        SwitchArmResult::Expr(e) => expr_rebinds(e, name),
        SwitchArmResult::Block(ss) => stmts_change(ss@, name),
    } || arms_rebind(arms.subrange(1, arms.len() as int), name))
}

/// Whether executing `s` may change what `name` is bound to: a
/// reassignment of `name`, a rebinding inside what it evaluates, or a
/// statement form that cannot establish a stable binding.
pub open spec fn stmt_changes(s: Stmt, name: Seq<char>) -> bool
    decreases s,
{
    match s.kind {
        StmtKind::Reassign { name: target, value } => target@ == name || expr_rebinds(value, name),
        StmtKind::Decl { value, .. } => expr_rebinds(value, name),
        StmtKind::TupleDecl { value, .. } => expr_rebinds(value, name),
        StmtKind::Expr(value) => expr_rebinds(value, name),
        StmtKind::If { condition, then_branch, else_branch } => expr_rebinds(condition, name)
            || stmts_change(then_branch@, name) || stmts_change(else_branch@, name),
        _ => true,
    }
}

pub open spec fn stmts_change(ss: Seq<Stmt>, name: Seq<char>) -> bool
    decreases ss,
{
    ss.len() > 0 && (stmt_changes(ss[0], name) || stmts_change(ss.subrange(1, ss.len() as int), name))
}

/// A straight expression rebinds nothing.
pub proof fn lemma_straight_expr_rebinds_nothing(e: Expr, name: Seq<char>)
    requires
        straight(e),
    ensures
        !expr_rebinds(e, name),
    decreases e,
{
    match e.kind {
        ExprKind::Group(inner) => lemma_straight_expr_rebinds_nothing(*inner, name),
        ExprKind::Unary { expr, .. } => lemma_straight_expr_rebinds_nothing(*expr, name),
        ExprKind::Binary { left, right, .. } => {
            lemma_straight_expr_rebinds_nothing(*left, name);
            lemma_straight_expr_rebinds_nothing(*right, name);
        },
        ExprKind::History { expr, offset } => {
            lemma_straight_expr_rebinds_nothing(*expr, name);
            lemma_straight_expr_rebinds_nothing(*offset, name);
        },
        ExprKind::Call { callee, args } => {
            lemma_straight_expr_rebinds_nothing(*callee, name);
            lemma_straight_args_rebind_nothing(args@, name);
        },
        ExprKind::Tuple(items) => lemma_straight_exprs_rebind_nothing(items@, name),
        ExprKind::Ternary { condition, then_expr, else_expr } => {
            lemma_straight_expr_rebinds_nothing(*condition, name);
            lemma_straight_expr_rebinds_nothing(*then_expr, name);
            lemma_straight_expr_rebinds_nothing(*else_expr, name);
        },
        _ => {},
    }
}

proof fn lemma_straight_args_rebind_nothing(args: Seq<CallArg>, name: Seq<char>)
    requires
        args_straight(args),
    ensures
        !args_rebind(args, name),
    decreases args,
{
    if args.len() > 0 {
        lemma_straight_expr_rebinds_nothing(args[0].value, name);
        lemma_straight_args_rebind_nothing(args.subrange(1, args.len() as int), name);
    }
}

proof fn lemma_straight_exprs_rebind_nothing(es: Seq<Expr>, name: Seq<char>)
    requires
        exprs_straight(es),
    ensures
        !exprs_rebind(es, name),
    decreases es,
{
    if es.len() > 0 {
        lemma_straight_expr_rebinds_nothing(es[0], name);
        lemma_straight_exprs_rebind_nothing(es.subrange(1, es.len() as int), name);
    }
}

pub fn straight_expr(expr: &Expr) -> (r: bool)
    ensures
        r == straight(*expr),
    decreases *expr,
{
    match &expr.kind {
        ExprKind::Literal(_) | ExprKind::Identifier(_) | ExprKind::QualifiedName(_) => true,
        ExprKind::Group(inner) => straight_expr(inner),
        ExprKind::Unary { expr, .. } => straight_expr(expr),
        ExprKind::Binary { left, right, .. } => straight_expr(left) && straight_expr(right),
        ExprKind::History { expr, offset } => straight_expr(expr) && straight_expr(offset),
        ExprKind::Call { callee, args } => straight_expr(callee) && args_all_straight(args.as_slice()),
        ExprKind::Tuple(items) => exprs_all_straight(items.as_slice()),
        ExprKind::Ternary { condition, then_expr, else_expr } => straight_expr(condition) && straight_expr(then_expr)
            && straight_expr(else_expr),
        _ => false,
    }
}

fn stmts_may_change(ss: &[Stmt], name: &str) -> (r: bool)
    ensures
        r == stmts_change(ss@, name@),
    decreases ss@,
{
    let mut i: usize = 0;
    assert(ss@.subrange(0, ss@.len() as int) =~= ss@);
    while i < ss.len()
        invariant
            i <= ss@.len(),
            stmts_change(ss@, name@) == stmts_change(ss@.subrange(i as int, ss@.len() as int), name@),
        decreases ss@.len() - i,
    {
        let ghost rest = ss@.subrange(i as int, ss@.len() as int);
        assert(rest[0] == ss@[i as int]);
        assert(rest.subrange(1, rest.len() as int) =~= ss@.subrange(i + 1, ss@.len() as int));
        if binding_may_change(&ss[i], name) {
            return true;
        }
        i = i + 1;
    }
    false
}

/// Whether executing `stmt` may change what `name` is bound to.
pub fn binding_may_change(stmt: &Stmt, name: &str) -> (r: bool)
    ensures
        r == stmt_changes(*stmt, name@),
    decreases *stmt,
{
    match &stmt.kind {
        StmtKind::Reassign { name: target, value } => str_eq(target.as_str(), name) || expr_may_rebind(value, name),
        StmtKind::Decl { value, .. } => expr_may_rebind(value, name),
        StmtKind::TupleDecl { value, .. } => expr_may_rebind(value, name),
        StmtKind::Expr(value) => expr_may_rebind(value, name),
        StmtKind::If { condition, then_branch, else_branch } => expr_may_rebind(condition, name)
            || stmts_may_change(then_branch.as_slice(), name) || stmts_may_change(else_branch.as_slice(), name),
        _ => true,
    }
}

/// Whether evaluating `expr` may rebind `name`.
pub fn expr_may_rebind(expr: &Expr, name: &str) -> (r: bool)
    ensures
        r == expr_rebinds(*expr, name@),
    decreases *expr,
{
    match &expr.kind {
        ExprKind::Literal(_) | ExprKind::Identifier(_) | ExprKind::QualifiedName(_) => false,
        ExprKind::Group(inner) => expr_may_rebind(inner, name),
        ExprKind::Unary { expr, .. } => expr_may_rebind(expr, name),
        ExprKind::Binary { left, right, .. } => expr_may_rebind(left, name) || expr_may_rebind(right, name),
        ExprKind::History { expr, offset } => expr_may_rebind(expr, name) || expr_may_rebind(offset, name),
        ExprKind::Call { callee, args } => expr_may_rebind(callee, name) || args_may_rebind(args.as_slice(), name),
        ExprKind::Tuple(items) => exprs_may_rebind(items.as_slice(), name),
        ExprKind::Ternary { condition, then_expr, else_expr } => expr_may_rebind(condition, name)
            || expr_may_rebind(then_expr, name) || expr_may_rebind(else_expr, name),
        ExprKind::If { condition, then_branch, else_branch } => expr_may_rebind(condition, name)
            || stmts_may_change(then_branch.as_slice(), name) || stmts_may_change(else_branch.as_slice(), name),
        ExprKind::Switch { selector, arms } => {
            let in_selector = match selector {
                Some(s) => expr_may_rebind(s, name),
                None => false,
            };
            in_selector || arms_may_rebind(arms.as_slice(), name)
        },
        _ => true,
    }
}

fn args_all_straight(args: &[CallArg]) -> (r: bool)
    ensures
        r == args_straight(args@),
    decreases args@,
{
    let mut i: usize = 0;
    assert(args@.subrange(0, args@.len() as int) =~= args@);
    while i < args.len()
        invariant
            i <= args@.len(),
            args_straight(args@) == args_straight(args@.subrange(i as int, args@.len() as int)),
        decreases args@.len() - i,
    {
        let ghost rest = args@.subrange(i as int, args@.len() as int);
        assert(rest[0] == args@[i as int]);
        assert(rest.subrange(1, rest.len() as int) =~= args@.subrange(i + 1, args@.len() as int));
        proof {
            assert(decreases_to!(args@ => args@[i as int]));
        }
        if !straight_expr(&args[i].value) {
            return false;
        }
        i = i + 1;
    }
    true
}

fn exprs_all_straight(es: &[Expr]) -> (r: bool)
    ensures
        r == exprs_straight(es@),
    decreases es@,
{
    let mut i: usize = 0;
    assert(es@.subrange(0, es@.len() as int) =~= es@);
    while i < es.len()
        invariant
            i <= es@.len(),
            exprs_straight(es@) == exprs_straight(es@.subrange(i as int, es@.len() as int)),
        decreases es@.len() - i,
    {
        let ghost rest = es@.subrange(i as int, es@.len() as int);
        assert(rest[0] == es@[i as int]);
        assert(rest.subrange(1, rest.len() as int) =~= es@.subrange(i + 1, es@.len() as int));
        if !straight_expr(&es[i]) {
            return false;
        }
        i = i + 1;
    }
    true
}

fn args_may_rebind(args: &[CallArg], name: &str) -> (r: bool)
    ensures
        r == args_rebind(args@, name@),
    decreases args@,
{
    let mut i: usize = 0;
    assert(args@.subrange(0, args@.len() as int) =~= args@);
    while i < args.len()
        invariant
            i <= args@.len(),
            args_rebind(args@, name@) == args_rebind(args@.subrange(i as int, args@.len() as int), name@),
        decreases args@.len() - i,
    {
        let ghost rest = args@.subrange(i as int, args@.len() as int);
        assert(rest[0] == args@[i as int]);
        assert(rest.subrange(1, rest.len() as int) =~= args@.subrange(i + 1, args@.len() as int));
        proof {
            assert(decreases_to!(args@ => args@[i as int]));
        }
        if expr_may_rebind(&args[i].value, name) {
            return true;
        }
        i = i + 1;
    }
    false
}

fn exprs_may_rebind(es: &[Expr], name: &str) -> (r: bool)
    ensures
        r == exprs_rebind(es@, name@),
    decreases es@,
{
    let mut i: usize = 0;
    assert(es@.subrange(0, es@.len() as int) =~= es@);
    while i < es.len()
        invariant
            i <= es@.len(),
            exprs_rebind(es@, name@) == exprs_rebind(es@.subrange(i as int, es@.len() as int), name@),
        decreases es@.len() - i,
    {
        let ghost rest = es@.subrange(i as int, es@.len() as int);
        assert(rest[0] == es@[i as int]);
        assert(rest.subrange(1, rest.len() as int) =~= es@.subrange(i + 1, es@.len() as int));
        if expr_may_rebind(&es[i], name) {
            return true;
        }
        i = i + 1;
    }
    false
}

fn arms_may_rebind(arms: &[SwitchArm], name: &str) -> (r: bool)
    ensures
        r == arms_rebind(arms@, name@),
    decreases arms@,
{
    let mut i: usize = 0;
    assert(arms@.subrange(0, arms@.len() as int) =~= arms@);
    while i < arms.len()
        invariant
            i <= arms@.len(),
            arms_rebind(arms@, name@) == arms_rebind(arms@.subrange(i as int, arms@.len() as int), name@),
        decreases arms@.len() - i,
    {
        let ghost rest = arms@.subrange(i as int, arms@.len() as int);
        assert(rest[0] == arms@[i as int]);
        assert(rest.subrange(1, rest.len() as int) =~= arms@.subrange(i + 1, arms@.len() as int));
        proof {
            assert(decreases_to!(arms@ => arms@[i as int]));
        }
        let arm = &arms[i];
        let in_condition = match &arm.condition {
            Some(c) => expr_may_rebind(c, name),
            None => false,
        };
        let in_result = match &arm.result {
            SwitchArmResult::Expr(e) => expr_may_rebind(e, name),
            SwitchArmResult::Block(ss) => stmts_may_change(ss.as_slice(), name),
        };
        if in_condition || in_result {
            return true;
        }
        i = i + 1;
    }
    false
}

/// Constructors of scalar arrays.
pub open spec fn scalar_array_constructors() -> Set<Seq<char>> {
    set![
        "array.new<float>"@, "array.new_float"@, "array.new<int>"@, "array.new_int"@,
        "array.new<bool>"@, "array.new_bool"@, "array.new<string>"@, "array.new_string"@,
        "array.new<color>"@, "array.new_color"@,
    ]
}

fn is_scalar_array_constructor(name: &str) -> (r: bool)
    ensures
        r == scalar_array_constructors().contains(name@),
{
    str_eq(name, "array.new<float>") || str_eq(name, "array.new_float") || str_eq(name, "array.new<int>")
        || str_eq(name, "array.new_int") || str_eq(name, "array.new<bool>") || str_eq(name, "array.new_bool")
        || str_eq(name, "array.new<string>") || str_eq(name, "array.new_string")
        || str_eq(name, "array.new<color>") || str_eq(name, "array.new_color")
}

/// A statement whose evaluated expression is straight: a declaration, a
/// reassignment, a tuple declaration, or an expression statement.
pub open spec fn is_straight_stmt(s: Stmt) -> bool {
    match s.kind {
        StmtKind::Decl { value, .. } => straight(value),
        StmtKind::Reassign { value, .. } => straight(value),
        StmtKind::TupleDecl { value, .. } => straight(value),
        StmtKind::Expr(value) => straight(value),
        _ => false,
    }
}

/// `name = value` allocates a scalar array that no statement of the body
/// may rebind.
pub open spec fn allocates_owned_array(all: Seq<Stmt>, name: Seq<char>, value: Expr) -> bool {
    &&& value.kind matches ExprKind::Call { callee, .. } && name_of(*callee) matches Some(n)
        && scalar_array_constructors().contains(n)
    &&& !stmts_change(all, name)
}

/// `i` is the first argument named `id`.
pub open spec fn is_first_id_arg(args: Seq<CallArg>, i: int) -> bool {
    &&& 0 <= i < args.len()
    &&& opt_view(args[i].name) == Some("id"@)
    &&& forall|j: int| 0 <= j < i ==> opt_view(args[j].name) != Some("id"@)
}

/// The receiver of an array call: the first argument named `id`, else a
/// positional first argument.
pub open spec fn receiver_arg(args: Seq<CallArg>) -> Option<CallArg> {
    if exists|i: int| is_first_id_arg(args, i) {
        Some(args[choose|i: int| is_first_id_arg(args, i)])
    } else if args.len() > 0 && args[0].name is None {
        Some(args[0])
    } else {
        None
    }
}

/// The callee span of `array.clear(a)` or `array.push(a, ...)` whose
/// receiver `a` is an owned array.
pub open spec fn owned_mutation_span(owned: Set<Seq<char>>, e: Expr) -> Option<Span> {
    match e.kind {
        ExprKind::Call { callee, args } => if name_of(*callee) == Some("array.clear"@) || name_of(*callee)
            == Some("array.push"@) {
            match receiver_arg(args@) {
                Some(a) => match a.value.kind {
                    ExprKind::Identifier(r) => if owned.contains(r@) {
                        Some(callee.span)
                    } else {
                        None
                    },
                    _ => None,
                },
                None => None,
            }
        } else {
            None
        },
        _ => None,
    }
}

/// One statement of the scan: what is owned afterwards, and the mutation
/// spans found so far.
pub open spec fn scan_step(all: Seq<Stmt>, owned: Set<Seq<char>>, spans: Seq<Span>, s: Stmt) -> (Set<Seq<char>>, Seq<Span>) {
    if !is_straight_stmt(s) {
        (Set::empty(), spans)
    } else {
        match s.kind {
            StmtKind::Decl { name, value } => if allocates_owned_array(all, name@, value) {
                (owned.remove(name@).insert(name@), spans)
            } else {
                (owned.remove(name@), spans)
            },
            StmtKind::Reassign { name, .. } => (owned.remove(name@), spans),
            StmtKind::Expr(e) => if e.kind is Call {
                match owned_mutation_span(owned, e) {
                    Some(sp) => (owned, spans.push(sp)),
                    None => (owned, spans),
                }
            } else {
                (Set::empty(), spans)
            },
            StmtKind::TupleDecl { .. } => (owned, spans),
            _ => (Set::empty(), spans),
        }
    }
}

/// The state of the scan after the first `k` statements.
pub open spec fn scan(all: Seq<Stmt>, k: int) -> (Set<Seq<char>>, Seq<Span>)
    decreases k,
{
    if k <= 0 {
        (Set::empty(), Seq::empty())
    } else {
        let (owned, spans) = scan(all, k - 1);
        scan_step(all, owned, spans, all[k - 1])
    }
}

/// The callee spans of the straight-line mutations of owned arrays in a
/// function body.
pub open spec fn mutation_spans(body: FunctionBody) -> Seq<Span> {
    match body {
        FunctionBody::Block(ss) => scan(ss@, ss@.len() as int).1,
        FunctionBody::Expr(_) => Seq::empty(),
    }
}

fn receiver_of<'a>(args: &'a [CallArg]) -> (r: Option<&'a CallArg>)
    ensures
        match r {
            Some(a) => receiver_arg(args@) == Some(*a),
            None => receiver_arg(args@) is None,
        },
{
    let mut i: usize = 0;
    while i < args.len()
        invariant
            i <= args@.len(),
            forall|j: int| 0 <= j < i ==> opt_view(args@[j].name) != Some("id"@),
        decreases args@.len() - i,
    {
        let is_id = match &args[i].name {
            Some(n) => str_eq(n.as_str(), "id"),
            None => false,
        };
        if is_id {
            proof {
                assert(is_first_id_arg(args@, i as int));
                let k = choose|k: int| is_first_id_arg(args@, k);
                assert(is_first_id_arg(args@, k));
                if k < i {
                } else if k > i {
                    assert(opt_view(args@[i as int].name) != Some("id"@));
                }
            }
            return Some(&args[i]);
        }
        i = i + 1;
    }
    proof {
        if exists|k: int| is_first_id_arg(args@, k) {
            let k = choose|k: int| is_first_id_arg(args@, k);
            assert(is_first_id_arg(args@, k));
        }
    }
    if args.len() > 0 && args[0].name.is_none() {
        Some(&args[0])
    } else {
        None
    }
}

/// The callee spans of the straight-line `array.clear` and `array.push`
/// calls on arrays that the function body allocates itself.
pub fn local_array_mutation_spans(body: &FunctionBody) -> (r: Vec<Span>)
    ensures
        r@ == mutation_spans(*body),
{
    let statements = match body {
        FunctionBody::Block(statements) => statements,
        FunctionBody::Expr(_) => return Vec::new(),
    };
    let ghost all = statements@;
    let mut owned = NameSet::new();
    let mut spans: Vec<Span> = Vec::new();
    let mut i: usize = 0;
    while i < statements.len()
        invariant
            all == statements@,
            i <= all.len(),
            owned.wf(),
            (owned@, spans@) == scan(all, i as int),
        decreases all.len() - i,
    {
        let statement = &statements[i];
        let straight = match &statement.kind {
            StmtKind::Decl { value, .. } => straight_expr(value),
            StmtKind::Reassign { value, .. } => straight_expr(value),
            StmtKind::TupleDecl { value, .. } => straight_expr(value),
            StmtKind::Expr(value) => straight_expr(value),
            _ => false,
        };
        if !straight {
            owned.clear();
            i = i + 1;
            continue;
        }
        match &statement.kind {
            StmtKind::Decl { name, value } => {
                owned.remove(name.as_str());
                let allocates = match &value.kind {
                    ExprKind::Call { callee, .. } => match expr_name(callee) {
                        Some(callee_name) => is_scalar_array_constructor(callee_name.as_str()),
                        None => false,
                    },
                    _ => false,
                };
                if allocates && !stmts_may_change(statements.as_slice(), name.as_str()) {
                    owned.insert(name.clone());
                }
            },
            StmtKind::Reassign { name, .. } => {
                owned.remove(name.as_str());
            },
            StmtKind::Expr(e) => {
                match &e.kind {
                    ExprKind::Call { callee, args } => {
                        let mutates = match expr_name(callee) {
                            Some(callee_name) => str_eq(callee_name.as_str(), "array.clear") || str_eq(
                                callee_name.as_str(),
                                "array.push",
                            ),
                            None => false,
                        };
                        if mutates {
                            match receiver_of(args.as_slice()) {
                                Some(receiver) => match &receiver.value.kind {
                                    ExprKind::Identifier(receiver_name) => {
                                        if owned.contains(receiver_name.as_str()) {
                                            spans.push(callee.span);
                                        }
                                    },
                                    _ => {},
                                },
                                None => {},
                            }
                        }
                    },
                    _ => {
                        owned.clear();
                    },
                }
            },
            StmtKind::TupleDecl { .. } => {},
            _ => {
                owned.clear();
            },
        }
        i = i + 1;
    }
    spans
}

/// Statement `s` is a call of `array.clear` or `array.push` whose callee
/// spans `sp`.
pub open spec fn is_array_mutation_call_stmt(s: Stmt, sp: Span) -> bool {
    match s.kind {
        StmtKind::Expr(e) => match e.kind {
            ExprKind::Call { callee, .. } => callee.span == sp && (name_of(*callee) == Some("array.clear"@)
                || name_of(*callee) == Some("array.push"@)),
            _ => false,
        },
        _ => false,
    }
}

/// One of the first `k` statements is a call of `array.clear` or
/// `array.push` whose callee spans `sp`.
pub open spec fn is_array_mutation_call_among(all: Seq<Stmt>, k: int, sp: Span) -> bool {
    exists|i: int| 0 <= i < k && #[trigger] is_array_mutation_call_stmt(all[i], sp)
}

/// Every span found is the callee span of an `array.clear` or `array.push`
/// call that stands as a statement of the body.
pub proof fn lemma_mutation_spans_are_array_calls(all: Seq<Stmt>, k: int)
    requires
        0 <= k <= all.len(),
    ensures
        forall|j: int|
            0 <= j < scan(all, k).1.len() ==> #[trigger] is_array_mutation_call_among(all, k, scan(all, k).1[j]),
    decreases k,
{
    if k > 0 {
        lemma_mutation_spans_are_array_calls(all, k - 1);
        let prev = scan(all, k - 1).1;
        assert forall|j: int| 0 <= j < scan(all, k).1.len() implies #[trigger] is_array_mutation_call_among(
            all,
            k,
            scan(all, k).1[j],
        ) by {
            if j < prev.len() {
                assert(scan(all, k).1[j] == prev[j]);
                assert(is_array_mutation_call_among(all, k - 1, prev[j]));
                let i = choose|i: int| 0 <= i < k - 1 && #[trigger] is_array_mutation_call_stmt(all[i], prev[j]);
                assert(is_array_mutation_call_stmt(all[i], scan(all, k).1[j]));
            } else {
                assert(is_array_mutation_call_stmt(all[k - 1], scan(all, k).1[j]));
            }
        }
    }
}

/// Statement `s` declares `name` as a scalar array that the body allocates
/// and never rebinds.
pub open spec fn declares_owned_array(all: Seq<Stmt>, s: Stmt, name: Seq<char>) -> bool {
    s.kind matches StmtKind::Decl { name: n, value } && n@ == name && allocates_owned_array(all, name, value)
}

/// Only an allocation establishes ownership: every array the scan holds as
/// owned after the first `k` statements was declared by one of them as a
/// scalar array that no statement of the body may rebind; parameters and
/// aliases never are.
pub proof fn lemma_owned_arrays_were_allocated(all: Seq<Stmt>, k: int)
    requires
        0 <= k <= all.len(),
    ensures
        forall|n: Seq<char>|
            #[trigger] scan(all, k).0.contains(n) ==> exists|i: int|
                0 <= i < k && declares_owned_array(all, #[trigger] all[i], n),
    decreases k,
{
    if k > 0 {
        lemma_owned_arrays_were_allocated(all, k - 1);
        let prev = scan(all, k - 1).0;
        assert forall|n: Seq<char>| #[trigger] scan(all, k).0.contains(n) implies exists|i: int|
            0 <= i < k && declares_owned_array(all, #[trigger] all[i], n) by {
            if prev.contains(n) {
                let i = choose|i: int| 0 <= i < k - 1 && declares_owned_array(all, #[trigger] all[i], n);
                assert(0 <= i < k);
            } else {
                assert(declares_owned_array(all, all[k - 1], n));
            }
        }
    }
}

} // verus!
