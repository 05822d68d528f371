//! The analyzer's state and its walk over expressions and statements:
//! scopes of typed symbols, the diagnostics, the features used and those
//! not supported; the typing of the expressions whose rules stand in this
//! library, and the checks and scopes of statements.
use vstd::prelude::*;
use vstd::string::*;
use crate::builtin_args::DiagView;
use crate::const_fold::{folded_int_binary, folded_int_unary, fold_int_binary, fold_int_unary};
use crate::defaults::{literal_pine_type, literal_type};
use crate::diagnostics::{Diagnostic, Severity, diag_view, diag_views};
use crate::dialect::PineDialect;
use crate::limits::MAX_SEMA_EXPR_DEPTH;
use crate::syntax::{BinaryOp, CallArg, Expr, ExprKind, Literal, Span, Stmt, StmtKind, UnaryOp};
use crate::statement_rules::{
    ReassignTargetIssue, TopLevelDecl, declaration_value_diag, loop_control_diag, loop_qualifier, reassign_target_issue,
    reassign_target_issue_report, reassign_target_issue_spec, reassign_target_report, top_level_diag, top_level_feature,
    check_top_level_declaration, check_loop_control, check_declaration_value, loop_counter_type,
};
use crate::type_rules::{expect_int, expect_non_zero_loop_step, loop_range_error_diag};
use crate::type_rules::{
    ConditionCheck, binary_expectation, binary_result, branch_error_diag, branch_result, condition_check,
    condition_error_diag, expect_bool, history_offset_issue, history_offset_issue_report, history_offset_report,
    infer_binary, infer_unary, merge_branch_types, operator_error_diag, unary_expectation, unary_operator_error_diag,
    unary_result, validate_history_offset,
};
use crate::function_registry::FunctionEntry;
use crate::limits::MAX_FUNCTION_CALL_DEPTH;
use crate::udf_args::{
    UdfArgErrorView, complete_args, is_udf_arg_diagnostic, lemma_resolved_indices_bind_each_argument, name_views,
    no_defaults, omitted_defaults, report_udf_arg_error, resolve_args, resolve_udf_arg_indices,
};
use crate::udf_calls::{enter_udf_call, in_call_stack, side_effecting_arg_spans, side_effecting_udf_arg_spans};
use crate::types::{PineType, Qualifier, ValueKind, common_kind, later_qualifier, strongest_qualifier};
use crate::type_rules::{arithmetic_kind, numeric_result_kind};

verus! {

/// The state of an analysis: nested scopes of typed symbols (the innermost
/// last), the language version, the diagnostics, the unsupported features
/// (feature, reason, span) and the supported features used (feature, span).
pub struct AnalyzerState {
    pub scopes: Vec<Vec<(String, PineType)>>,
    pub dialect: PineDialect,
    pub diagnostics: Vec<Diagnostic>,
    pub unsupported: Vec<(String, String, Span)>,
    pub features: Vec<(String, Span)>,
}

/// The state as contracts see it.
pub struct AnalyzerView {
    pub scopes: Seq<Seq<(Seq<char>, PineType)>>,
    pub dialect: PineDialect,
    pub diags: Seq<DiagView>,
    pub unsupported: Seq<(Seq<char>, Seq<char>, Span)>,
    pub features: Seq<(Seq<char>, Span)>,
}

pub open spec fn scope_view(s: Seq<(String, PineType)>) -> Seq<(Seq<char>, PineType)> {
    s.map_values(|p: (String, PineType)| (p.0@, p.1))
}

pub open spec fn scopes_view(s: Seq<Vec<(String, PineType)>>) -> Seq<Seq<(Seq<char>, PineType)>> {
    s.map_values(|v: Vec<(String, PineType)>| scope_view(v@))
}

impl View for AnalyzerState {
    type V = AnalyzerView;

    open spec fn view(&self) -> AnalyzerView {
        AnalyzerView {
            scopes: scopes_view(self.scopes@),
            dialect: self.dialect,
            diags: diag_views(self.diagnostics@),
            unsupported: self.unsupported@.map_values(|u: (String, String, Span)| (u.0@, u.1@, u.2)),
            features: self.features@.map_values(|f: (String, Span)| (f.0@, f.1)),
        }
    }
}

/// The type the latest symbol of `name` in `scope` has.
pub open spec fn lookup_in_scope(scope: Seq<(Seq<char>, PineType)>, name: Seq<char>) -> Option<PineType>
    decreases scope.len(),
{
    if scope.len() == 0 {
        None
    } else if scope.last().0 == name {
        Some(scope.last().1)
    } else {
        lookup_in_scope(scope.drop_last(), name)
    }
}

/// The type of the symbol `name` resolves to: in the innermost scope that
/// has one, the latest.
pub open spec fn resolve_name(scopes: Seq<Seq<(Seq<char>, PineType)>>, name: Seq<char>) -> Option<PineType>
    decreases scopes.len(),
{
    if scopes.len() == 0 {
        None
    } else {
        match lookup_in_scope(scopes.last(), name) {
            Some(t) => Some(t),
            None => resolve_name(scopes.drop_last(), name),
        }
    }
}

/// Whether `name` resolves to a symbol of the outermost scope.
pub open spec fn resolves_to_global(scopes: Seq<Seq<(Seq<char>, PineType)>>, name: Seq<char>) -> bool
    decreases scopes.len(),
{
    if scopes.len() == 0 {
        false
    } else if scopes.len() == 1 {
        lookup_in_scope(scopes[0], name) is Some
    } else {
        lookup_in_scope(scopes.last(), name) is None && resolves_to_global(scopes.drop_last(), name)
    }
}

/// The integer a literal expression spells: an integer literal, grouped,
/// signed, or combined by arithmetic, as folding gives it.
pub open spec fn literal_int(dialect: PineDialect, e: Expr) -> Option<i64>
    decreases e,
{
    match e.kind {
        ExprKind::Literal(Literal::Int(n)) => Some(n),
        ExprKind::Group(inner) => literal_int(dialect, *inner),
        ExprKind::Unary { op, expr } => match literal_int(dialect, *expr) {
            Some(v) => folded_int_unary(op, v),
            None => None,
        },
        ExprKind::Binary { op, left, right } => match (literal_int(dialect, *left), literal_int(dialect, *right)) {
            (Some(a), Some(b)) => folded_int_binary(op, dialect, a, b),
            _ => None,
        },
        _ => None,
    }
}

/// The bool a literal expression spells: a bool literal, grouped, negated, or
/// combined by `and`/`or` with another one.
pub open spec fn literal_bool(e: Expr) -> Option<bool>
    decreases e,
{
    match e.kind {
        ExprKind::Literal(Literal::Bool(b)) => Some(b),
        ExprKind::Group(inner) => literal_bool(*inner),
        ExprKind::Unary { op, expr } => if op == UnaryOp::Not {
            match literal_bool(*expr) {
                Some(b) => Some(!b),
                None => None,
            }
        } else {
            None
        },
        ExprKind::Binary { op, left, right } => if op == BinaryOp::And || op == BinaryOp::Or {
            match (literal_bool(*left), literal_bool(*right)) {
                (Some(a), Some(b)) => Some(if op == BinaryOp::And { a && b } else { a || b }),
                _ => None,
            }
        } else {
            None
        },
        _ => None,
    }
}

pub open spec fn with_diag(v: AnalyzerView, d: DiagView) -> AnalyzerView {
    AnalyzerView { diags: v.diags.push(d), ..v }
}

pub open spec fn depth_diag(span: Span) -> DiagView {
    (Severity::Error, "E_SEMA_EXPR_DEPTH"@, "expression is too deeply nested for semantic analysis"@, span)
}

/// The analysis of `e` at nesting depth `depth`: the state after it and the
/// type of `e`.  Expressions of the kinds not listed here (names with
/// parts, calls, tuples, `if`, `switch` and loop expressions) are given no
/// type and leave the state as it is.
pub open spec fn expr_analysis(v: AnalyzerView, depth: int, e: Expr) -> (AnalyzerView, Option<PineType>)
    decreases e,
{
    if depth >= MAX_SEMA_EXPR_DEPTH {
        (with_diag(v, depth_diag(e.span)), None)
    } else {
        let d = depth + 1;
        match e.kind {
            ExprKind::Literal(l) => (
                if l is ColorHex {
                    AnalyzerView { features: v.features.push(("hex color literal"@, e.span)), ..v }
                } else {
                    v
                },
                Some(literal_type(l)),
            ),
            ExprKind::Identifier(name) => (v, resolve_name(v.scopes, name@)),
            ExprKind::Group(inner) => expr_analysis(v, d, *inner),
            ExprKind::Unary { op, expr } => {
                let (v1, t) = expr_analysis(v, d, *expr);
                match t {
                    None => (v1, None),
                    Some(t) => match unary_result(op, t) {
                        Some(r) => (v1, Some(r)),
                        None => (with_diag(v1, unary_operator_error_diag(op, unary_expectation(op), t, e.span)), None),
                    },
                }
            },
            ExprKind::Binary { op, left, right } => {
                let (v1, lt) = expr_analysis(v, d, *left);
                let (v2, rt) = expr_analysis(v1, d, *right);
                match (lt, rt) {
                    (Some(a), Some(b)) => match binary_result(op, a, b) {
                        Some(r) => (v2, Some(r)),
                        None => (with_diag(v2, operator_error_diag(op, binary_expectation(op), a, b, e.span)), None),
                    },
                    _ => (v2, None),
                }
            },
            ExprKind::Ternary { condition, then_expr, else_expr } => {
                let (v1, ct) = expr_analysis(v, d, *condition);
                let v1c = match ct {
                    Some(c) => if condition_check(v.dialect, c) == ConditionCheck::Rejected {
                        with_diag(v1, condition_error_diag(c, condition.span))
                    } else {
                        v1
                    },
                    None => v1,
                };
                let (v2, tt) = expr_analysis(v1c, d, *then_expr);
                let (v3, et) = expr_analysis(v2, d, *else_expr);
                match (ct, tt, et) {
                    (Some(c), Some(a), Some(b)) => match branch_result(c, a, b, literal_bool(*condition)) {
                        Some(r) => (v3, Some(r)),
                        None => (with_diag(v3, branch_error_diag(a, b, e.span)), None),
                    },
                    _ => (v3, None),
                }
            },
            ExprKind::History { expr, offset } => {
                let (v1, vt) = expr_analysis(v, d, *expr);
                let (v2, ot) = expr_analysis(v1, d, *offset);
                let v3 = match history_offset_issue(literal_int(v.dialect, *offset), ot) {
                    Some(issue) => AnalyzerView {
                        unsupported: v2.unsupported.push(
                            (history_offset_report(issue).0, history_offset_report(issue).1, offset.span),
                        ),
                        ..v2
                    },
                    None => v2,
                };
                (
                    v3,
                    match vt {
                        Some(t) => Some(PineType { qualifier: Qualifier::Series, kind: t.kind }),
                        None => None,
                    },
                )
            },
            _ => (v, None),
        }
    }
}

impl AnalyzerState {
    /// A fresh analysis: one, empty, scope.
    pub fn new(dialect: PineDialect) -> (r: AnalyzerState)
        ensures
            r@.scopes == seq![Seq::<(Seq<char>, PineType)>::empty()],
            r@.dialect == dialect,
            r@.diags == Seq::<DiagView>::empty(),
            r@.unsupported.len() == 0,
            r@.features.len() == 0,
    {
        let mut scopes: Vec<Vec<(String, PineType)>> = Vec::new();
        scopes.push(Vec::new());
        let r = AnalyzerState {
            scopes,
            dialect,
            diagnostics: Vec::new(),
            unsupported: Vec::new(),
            features: Vec::new(),
        };
        assert(scope_view(r.scopes@[0]@) =~= Seq::<(Seq<char>, PineType)>::empty());
        assert(scopes_view(r.scopes@) =~= seq![Seq::<(Seq<char>, PineType)>::empty()]);
        assert(diag_views(r.diagnostics@) =~= Seq::<DiagView>::empty());
        r
    }

    fn lookup_scope(scope: &Vec<(String, PineType)>, name: &str) -> (r: Option<PineType>)
        ensures
            r == lookup_in_scope(scope_view(scope@), name@),
    {
        let mut k: usize = scope.len();
        assert(scope@.take(k as int) =~= scope@);
        while k > 0
            invariant
                k <= scope@.len(),
                lookup_in_scope(scope_view(scope@), name@) == lookup_in_scope(
                    scope_view(scope@.take(k as int)),
                    name@,
                ),
            decreases k,
        {
            let ghost t = scope@.take(k as int);
            assert(scope_view(t).drop_last() =~= scope_view(scope@.take(k - 1)));
            assert(scope_view(t).last() == (scope@[k - 1].0@, scope@[k - 1].1));
            if crate::text::str_eq(scope[k - 1].0.as_str(), name) {
                return Some(scope[k - 1].1);
            }
            k = k - 1;
        }
        assert(scope_view(scope@.take(0)) =~= Seq::<(Seq<char>, PineType)>::empty());
        None
    }

    /// The type of the symbol `name` resolves to.
    pub fn resolve(&self, name: &str) -> (r: Option<PineType>)
        ensures
            r == resolve_name(self@.scopes, name@),
    {
        let mut k: usize = self.scopes.len();
        assert(self.scopes@.take(k as int) =~= self.scopes@);
        while k > 0
            invariant
                k <= self.scopes@.len(),
                resolve_name(self@.scopes, name@) == resolve_name(scopes_view(self.scopes@.take(k as int)), name@),
            decreases k,
        {
            let ghost t = self.scopes@.take(k as int);
            assert(scopes_view(t).drop_last() =~= scopes_view(self.scopes@.take(k - 1)));
            assert(scopes_view(t).last() == scope_view(self.scopes@[k - 1]@));
            match Self::lookup_scope(&self.scopes[k - 1], name) {
                Some(t) => {
                    return Some(t);
                },
                None => {},
            }
            k = k - 1;
        }
        assert(self@.scopes =~= scopes_view(self.scopes@.take(self.scopes@.len() as int)));
        assert(scopes_view(self.scopes@.take(0)) =~= Seq::<Seq<(Seq<char>, PineType)>>::empty());
        None
    }
}

/// The integer a literal expression spells, as `literal_int` states it.
pub fn literal_int_value(dialect: PineDialect, e: &Expr) -> (r: Option<i64>)
    ensures
        r == literal_int(dialect, *e),
    decreases e,
{
    match &e.kind {
        ExprKind::Literal(Literal::Int(n)) => Some(*n),
        ExprKind::Group(inner) => literal_int_value(dialect, inner),
        ExprKind::Unary { op, expr } => match literal_int_value(dialect, expr) {
            Some(v) => fold_int_unary(*op, v),
            None => None,
        },
        ExprKind::Binary { op, left, right } => {
            let a = literal_int_value(dialect, left);
            let b = literal_int_value(dialect, right);
            match (a, b) {
                (Some(a), Some(b)) => fold_int_binary(*op, dialect, a, b),
                _ => None,
            }
        },
        _ => None,
    }
}

/// The bool a literal expression spells, as `literal_bool` states it.
pub fn literal_bool_value(e: &Expr) -> (r: Option<bool>)
    ensures
        r == literal_bool(*e),
    decreases e,
{
    match &e.kind {
        ExprKind::Literal(Literal::Bool(b)) => Some(*b),
        ExprKind::Group(inner) => literal_bool_value(inner),
        ExprKind::Unary { op, expr } => match op {
            UnaryOp::Not => match literal_bool_value(expr) {
                Some(b) => Some(!b),
                None => None,
            },
            _ => None,
        },
        ExprKind::Binary { op, left, right } => match op {
            BinaryOp::And | BinaryOp::Or => {
                let a = literal_bool_value(left);
                let b = literal_bool_value(right);
                match (a, b) {
                    (Some(a), Some(b)) => Some(
                        if *op == BinaryOp::And {
                            a && b
                        } else {
                            a || b
                        },
                    ),
                    _ => None,
                }
            },
            _ => None,
        },
        _ => None,
    }
}

impl AnalyzerState {
    fn note_feature(&mut self, feature: &str, span: Span)
        ensures
            final(self)@ == (AnalyzerView { features: old(self)@.features.push((feature@, span)), ..old(self)@ }),
            final(self).scopes@ == old(self).scopes@,
    {
        let ghost before = self.features@;
        self.features.push((String::from_str(feature), span));
        assert(self@.features =~= old(self)@.features.push((feature@, span)));
    }

    fn note_unsupported(&mut self, feature: &str, reason: String, span: Span)
        ensures
            final(self)@ == (AnalyzerView {
                unsupported: old(self)@.unsupported.push((feature@, reason@, span)),
                ..old(self)@
            }),
            final(self).scopes@ == old(self).scopes@,
    {
        self.unsupported.push((String::from_str(feature), reason, span));
        assert(self@.unsupported =~= old(self)@.unsupported.push((feature@, reason@, span)));
    }

    fn report(&mut self, d: Diagnostic)
        ensures
            final(self)@ == with_diag(old(self)@, diag_view(d)),
            final(self).scopes@ == old(self).scopes@,
    {
        self.diagnostics.push(d);
        assert(self@.diags =~= old(self)@.diags.push(diag_view(d)));
    }

    /// Analyzes `expr` at nesting depth `depth`: its type, with what the
    /// analysis reports.
    #[verifier::rlimit(60)]
    pub fn analyze_expr(&mut self, expr: &Expr, depth: u32) -> (r: Option<PineType>)
        ensures
            (final(self)@, r) == expr_analysis(old(self)@, depth as int, *expr),
            final(self).scopes@ == old(self).scopes@,
        decreases expr,
    {
        if depth >= MAX_SEMA_EXPR_DEPTH {
            self.report(
                Diagnostic::error(
                    "E_SEMA_EXPR_DEPTH",
                    String::from_str("expression is too deeply nested for semantic analysis"),
                    expr.span,
                ),
            );
            return None;
        }
        let d = depth + 1;
        let dialect = self.dialect;
        match &expr.kind {
            ExprKind::Literal(l) => {
                if let Literal::ColorHex(_) = l {
                    self.note_feature("hex color literal", expr.span);
                }
                let r = Some(literal_pine_type(l));
                assert((self@, r) == expr_analysis(old(self)@, depth as int, *expr));
                r
            },
            ExprKind::Identifier(name) => {
                let r = self.resolve(name.as_str());
                assert((self@, r) == expr_analysis(old(self)@, depth as int, *expr));
                r
            },
            ExprKind::Group(inner) => {
                let r = self.analyze_expr(inner, d);
                assert((self@, r) == expr_analysis(old(self)@, depth as int, *expr));
                r
            },
            ExprKind::Unary { op, expr: operand } => {
                let t = match self.analyze_expr(operand, d) {
                    Some(t) => t,
                    None => {
                        return None;
                    },
                };
                let ghost mid = self@;
                let r = infer_unary(*op, t, expr.span, &mut self.diagnostics);
                proof {
                    if r is None {
                        assert(self@.diags =~= mid.diags.push(
                            unary_operator_error_diag(*op, unary_expectation(*op), t, expr.span),
                        ));
                    }
                }
                r
            },
            ExprKind::Binary { op, left, right } => {
                let lt = self.analyze_expr(left, d);
                let rt = self.analyze_expr(right, d);
                match (lt, rt) {
                    (Some(a), Some(b)) => {
                        let ghost mid = self@;
                        let r = infer_binary(*op, a, b, expr.span, &mut self.diagnostics);
                        proof {
                            if r is None {
                                assert(self@.diags =~= mid.diags.push(
                                    operator_error_diag(*op, binary_expectation(*op), a, b, expr.span),
                                ));
                            }
                        }
                        r
                    },
                    _ => None,
                }
            },
            ExprKind::Ternary { condition, then_expr, else_expr } => {
                let ct = self.analyze_expr(condition, d);
                if let Some(c) = ct {
                    let ghost mid = self@;
                    expect_bool(dialect, c, condition.span, &mut self.diagnostics);
                    proof {
                        if condition_check(dialect, c) == ConditionCheck::Rejected {
                            assert(self@.diags =~= mid.diags.push(condition_error_diag(c, condition.span)));
                        }
                    }
                }
                let tt = self.analyze_expr(then_expr, d);
                let et = self.analyze_expr(else_expr, d);
                match (ct, tt, et) {
                    (Some(c), Some(a), Some(b)) => {
                        let known = literal_bool_value(condition);
                        let ghost mid = self@;
                        let r = merge_branch_types(c, a, b, known, expr.span, &mut self.diagnostics);
                        proof {
                            if r is None {
                                assert(self@.diags =~= mid.diags.push(branch_error_diag(a, b, expr.span)));
                            }
                        }
                        r
                    },
                    _ => None,
                }
            },
            ExprKind::History { expr: value_expr, offset } => {
                let vt = self.analyze_expr(value_expr, d);
                let ot = self.analyze_expr(offset, d);
                let known = literal_int_value(dialect, offset);
                match validate_history_offset(known, ot) {
                    Some(issue) => {
                        let report = history_offset_issue_report(issue);
                        let ghost fv = report.0@;
                        let ghost rv = report.1@;
                        assert(fv == history_offset_report(issue).0);
                        assert(rv == history_offset_report(issue).1);
                        self.note_unsupported(report.0, report.1, offset.span);
                    },
                    None => {},
                }
                let r = match vt {
                    Some(t) => Some(PineType::new(Qualifier::Series, t.kind)),
                    None => None,
                };
                assert(self@.scopes == expr_analysis(old(self)@, depth as int, *expr).0.scopes);
                assert(self@.diags == expr_analysis(old(self)@, depth as int, *expr).0.diags);
                assert(self@.unsupported == expr_analysis(old(self)@, depth as int, *expr).0.unsupported);
                assert(self@.features == expr_analysis(old(self)@, depth as int, *expr).0.features);
                assert(r == expr_analysis(old(self)@, depth as int, *expr).1);
                r
            },
            _ => {
                assert((self@, None::<PineType>) == expr_analysis(old(self)@, depth as int, *expr));
                None
            },
        }
    }
}

/// Where a statement stands: inside a loop, inside a block (a branch or a
/// loop body), inside a function body.
#[derive(Clone, Copy, Debug, PartialEq, Eq, Structural)]
pub struct StmtContext {
    pub in_loop: bool,
    pub in_block: bool,
    pub in_function: bool,
}

pub open spec fn with_feature(v: AnalyzerView, feature: Seq<char>, span: Span) -> AnalyzerView {
    AnalyzerView { features: v.features.push((feature, span)), ..v }
}

pub open spec fn with_unsupported(v: AnalyzerView, feature: Seq<char>, reason: Seq<char>, span: Span) -> AnalyzerView {
    AnalyzerView { unsupported: v.unsupported.push((feature, reason, span)), ..v }
}

pub open spec fn push_scope(v: AnalyzerView) -> AnalyzerView {
    AnalyzerView { scopes: v.scopes.push(Seq::empty()), ..v }
}

pub open spec fn pop_scope(v: AnalyzerView) -> AnalyzerView {
    AnalyzerView { scopes: v.scopes.drop_last(), ..v }
}

/// Defines `name` with type `t` in the innermost scope.
pub open spec fn define(v: AnalyzerView, name: Seq<char>, t: PineType) -> AnalyzerView {
    AnalyzerView { scopes: v.scopes.update(v.scopes.len() - 1, v.scopes.last().push((name, t))), ..v }
}

/// Reports a condition that is not a bool and cannot be taken as one.
pub open spec fn checked_condition(v: AnalyzerView, t: Option<PineType>, span: Span) -> AnalyzerView {
    match t {
        Some(c) => if condition_check(v.dialect, c) == ConditionCheck::Rejected {
            with_diag(v, condition_error_diag(c, span))
        } else {
            v
        },
        None => v,
    }
}

/// Reports a loop bound that is not an int.
pub open spec fn checked_int(v: AnalyzerView, t: Option<PineType>, span: Span) -> AnalyzerView {
    match t {
        Some(b) => if b.kind != ValueKind::Int {
            with_diag(v, loop_range_error_diag(b, span))
        } else {
            v
        },
        None => v,
    }
}

pub open spec fn step_diag(span: Span) -> DiagView {
    (Severity::Error, "E_LOOP_STEP"@, "for loop step cannot be zero"@, span)
}

/// Analyzes the statements of `ss` from the `i`th on, in order.
pub open spec fn stmts_analysis(v: AnalyzerView, ctx: StmtContext, ss: Seq<Stmt>, i: int) -> AnalyzerView
    decreases ss, ss.len() - i,
{
    if i < 0 || i >= ss.len() {
        v
    } else {
        stmts_analysis(stmt_analysis(v, ctx, ss[i]), ctx, ss, i + 1)
    }
}

/// Analyzes `ss` in a scope of its own, as a block.
pub open spec fn block_analysis(v: AnalyzerView, ctx: StmtContext, ss: Seq<Stmt>) -> AnalyzerView
    decreases ss, ss.len() + 1,
{
    pop_scope(stmts_analysis(push_scope(v), ctx, ss, 0))
}

/// The analysis of a statement: its expressions are analyzed in source
/// order; conditions are checked as bools and loop bounds as ints; a loop
/// counter takes the latest qualifier of its bounds; branches and loop bodies
/// get scopes of their own; declarations define symbols of their value's
/// type; and the rules on where statements stand and on reassignment
/// targets apply.  Imports, `if`, `for` and `while` statements and type and
/// method declarations record their feature.  Statements of the kinds not
/// listed leave the state as it is.
pub open spec fn stmt_analysis(v: AnalyzerView, ctx: StmtContext, s: Stmt) -> AnalyzerView
    decreases s, 0int,
{
    let block = StmtContext { in_block: true, ..ctx };
    let in_loop = StmtContext { in_block: true, in_loop: true, ..ctx };
    match s.kind {
        StmtKind::Expr(e) => expr_analysis(v, 0, e).0,
        StmtKind::Import(_) => with_feature(v, "import"@, s.span),
        StmtKind::UserType(_) => {
            let v1 = if ctx.in_block || ctx.in_function {
                with_diag(v, top_level_diag(TopLevelDecl::UserType, s.span))
            } else {
                v
            };
            with_feature(v1, top_level_feature(TopLevelDecl::UserType), s.span)
        },
        StmtKind::Method(_) => {
            let v1 = if ctx.in_block || ctx.in_function {
                with_diag(v, top_level_diag(TopLevelDecl::Method, s.span))
            } else {
                v
            };
            with_feature(v1, top_level_feature(TopLevelDecl::Method), s.span)
        },
        StmtKind::Break => if !ctx.in_loop {
            with_diag(v, loop_control_diag(true, s.span))
        } else {
            v
        },
        StmtKind::Continue => if !ctx.in_loop {
            with_diag(v, loop_control_diag(false, s.span))
        } else {
            v
        },
        StmtKind::Function { .. } => if ctx.in_block || ctx.in_function {
            with_unsupported(v, "block_local_function"@, "nested function declarations are not supported"@, s.span)
        } else {
            v
        },
        StmtKind::If { condition, then_branch, else_branch } => {
            let (v1, ct) = expr_analysis(v, 0, condition);
            let v2 = with_feature(checked_condition(v1, ct, condition.span), "if"@, s.span);
            let v3 = block_analysis(v2, block, then_branch@);
            block_analysis(v3, block, else_branch@)
        },
        StmtKind::While { condition, body } => {
            let (v1, ct) = expr_analysis(v, 0, condition);
            let v2 = with_feature(checked_condition(v1, ct, condition.span), "while"@, s.span);
            block_analysis(v2, in_loop, body@)
        },
        StmtKind::For { var, from, to, step, body } => {
            let (v1, ft) = expr_analysis(v, 0, from);
            let (v2, tt) = expr_analysis(v1, 0, to);
            let (v3, st) = match step {
                Some(e) => expr_analysis(v2, 0, e),
                None => (v2, None),
            };
            let v4 = checked_int(checked_int(v3, ft, from.span), tt, to.span);
            let v5 = match (step, st) {
                (Some(e), Some(t)) => {
                    let w = checked_int(v4, Some(t), e.span);
                    if literal_int(v.dialect, e) == Some(0i64) {
                        with_diag(w, step_diag(e.span))
                    } else {
                        w
                    }
                },
                _ => v4,
            };
            let v6 = with_feature(v5, "for"@, s.span);
            let counter = PineType { qualifier: loop_qualifier(ft, tt, st), kind: ValueKind::Int };
            pop_scope(stmts_analysis(define(push_scope(v6), var@, counter), in_loop, body@, 0))
        },
        StmtKind::Decl { name, value } => {
            let (v1, t) = expr_analysis(v, 0, value);
            match t {
                Some(vt) => {
                    let v2 = if vt.kind == ValueKind::Void {
                        with_diag(v1, declaration_value_diag(value.span))
                    } else {
                        v1
                    };
                    define(v2, name@, vt)
                },
                None => v1,
            }
        },
        StmtKind::Reassign { name, value } => {
            let issue = reassign_target_issue_spec(
                resolve_name(v.scopes, name@) is Some,
                if ctx.in_function { 1 } else { 0 },
                resolves_to_global(v.scopes, name@),
            );
            let v1 = match issue {
                Some(ReassignTargetIssue::Unknown) => with_diag(
                    v,
                    (
                        Severity::Error,
                        reassign_target_report(ReassignTargetIssue::Unknown, name@).0,
                        reassign_target_report(ReassignTargetIssue::Unknown, name@).1,
                        s.span,
                    ),
                ),
                Some(ReassignTargetIssue::GlobalFromFunction) => with_unsupported(
                    v,
                    reassign_target_report(ReassignTargetIssue::GlobalFromFunction, name@).0,
                    reassign_target_report(ReassignTargetIssue::GlobalFromFunction, name@).1,
                    s.span,
                ),
                None => v,
            };
            expr_analysis(v1, 0, value).0
        },
        _ => v,
    }
}

impl AnalyzerState {
    fn open_scope(&mut self)
        ensures
            final(self)@ == push_scope(old(self)@),
            final(self).scopes@.len() == old(self).scopes@.len() + 1,
    {
        self.scopes.push(Vec::new());
        assert(scope_view(Seq::<(String, PineType)>::empty()) =~= Seq::<(Seq<char>, PineType)>::empty());
        assert(self@.scopes =~= old(self)@.scopes.push(Seq::empty()));
    }

    fn close_scope(&mut self)
        requires
            old(self).scopes@.len() > 0,
        ensures
            final(self)@ == pop_scope(old(self)@),
            final(self).scopes@.len() == old(self).scopes@.len() - 1,
    {
        let _ = self.scopes.pop();
        assert(self@.scopes =~= old(self)@.scopes.drop_last());
    }

    fn define_symbol(&mut self, name: &str, t: PineType)
        requires
            old(self).scopes@.len() > 0,
        ensures
            final(self)@ == define(old(self)@, name@, t),
            final(self).scopes@.len() == old(self).scopes@.len(),
    {
        let mut last = self.scopes.pop().unwrap();
        let ghost last0 = last@;
        last.push((String::from_str(name), t));
        assert(scope_view(last@) =~= scope_view(last0).push((name@, t)));
        self.scopes.push(last);
        assert(self@.scopes =~= old(self)@.scopes.update(
            old(self)@.scopes.len() - 1,
            old(self)@.scopes.last().push((name@, t)),
        ));
    }

    /// Analyzes the statements of `ss` from the `i`th on.
    fn analyze_stmts_from(&mut self, ctx: StmtContext, ss: &Vec<Stmt>, i: usize)
        requires
            old(self).scopes@.len() > 0,
            i <= ss@.len(),
        ensures
            final(self)@ == stmts_analysis(old(self)@, ctx, ss@, i as int),
            final(self).scopes@.len() == old(self).scopes@.len(),
        decreases ss@, ss@.len() - i,
    {
        if i >= ss.len() {
            return;
        }
        self.analyze_stmt(ctx, &ss[i]);
        self.analyze_stmts_from(ctx, ss, i + 1);
    }

    /// Analyzes `ss` in a scope of its own.
    fn analyze_block(&mut self, ctx: StmtContext, ss: &Vec<Stmt>)
        requires
            old(self).scopes@.len() > 0,
        ensures
            final(self)@ == block_analysis(old(self)@, ctx, ss@),
            final(self).scopes@.len() == old(self).scopes@.len(),
        decreases ss@, ss@.len() + 1,
    {
        self.open_scope();
        self.analyze_stmts_from(ctx, ss, 0);
        self.close_scope();
    }

    fn check_condition(&mut self, t: Option<PineType>, span: Span)
        ensures
            final(self)@ == checked_condition(old(self)@, t, span),
            final(self).scopes@ == old(self).scopes@,
    {
        if let Some(c) = t {
            let dialect = self.dialect;
            expect_bool(dialect, c, span, &mut self.diagnostics);
            assert(condition_check(dialect, c) == ConditionCheck::Rejected ==> self@.diags =~= old(self)@.diags.push(
                condition_error_diag(c, span),
            ));
        }
    }

    fn check_int(&mut self, t: Option<PineType>, span: Span)
        ensures
            final(self)@ == checked_int(old(self)@, t, span),
            final(self).scopes@ == old(self).scopes@,
    {
        if let Some(b) = t {
            expect_int(b, span, &mut self.diagnostics);
            assert(b.kind != ValueKind::Int ==> self@.diags =~= old(self)@.diags.push(loop_range_error_diag(b, span)));
        }
    }

    /// Analyzes a statement standing in `ctx`.
    pub fn analyze_stmt(&mut self, ctx: StmtContext, s: &Stmt)
        requires
            old(self).scopes@.len() > 0,
        ensures
            final(self)@ == stmt_analysis(old(self)@, ctx, *s),
            final(self).scopes@.len() == old(self).scopes@.len(),
        decreases s, 1int,
    {
        match &s.kind {
            StmtKind::Expr(e) => {
                let _ = self.analyze_expr(e, 0);
            },
            StmtKind::Import(_) => {
                self.note_feature("import", s.span);
            },
            StmtKind::UserType(_) => {
                let feature = check_top_level_declaration(
                    TopLevelDecl::UserType,
                    if ctx.in_block { 1 } else { 0 },
                    if ctx.in_function { 1 } else { 0 },
                    s.span,
                    &mut self.diagnostics,
                );
                proof {
                    if ctx.in_block || ctx.in_function {
                        assert(self@.diags =~= old(self)@.diags.push(top_level_diag(TopLevelDecl::UserType, s.span)));
                    }
                }
                self.note_feature(feature, s.span);
            },
            StmtKind::Method(_) => {
                let feature = check_top_level_declaration(
                    TopLevelDecl::Method,
                    if ctx.in_block { 1 } else { 0 },
                    if ctx.in_function { 1 } else { 0 },
                    s.span,
                    &mut self.diagnostics,
                );
                proof {
                    if ctx.in_block || ctx.in_function {
                        assert(self@.diags =~= old(self)@.diags.push(top_level_diag(TopLevelDecl::Method, s.span)));
                    }
                }
                self.note_feature(feature, s.span);
            },
            StmtKind::Break => {
                check_loop_control(true, if ctx.in_loop { 1 } else { 0 }, s.span, &mut self.diagnostics);
                assert(!ctx.in_loop ==> self@.diags =~= old(self)@.diags.push(loop_control_diag(true, s.span)));
            },
            StmtKind::Continue => {
                check_loop_control(false, if ctx.in_loop { 1 } else { 0 }, s.span, &mut self.diagnostics);
                assert(!ctx.in_loop ==> self@.diags =~= old(self)@.diags.push(loop_control_diag(false, s.span)));
            },
            StmtKind::Function { .. } => {
                if ctx.in_block || ctx.in_function {
                    self.note_unsupported(
                        "block_local_function",
                        String::from_str("nested function declarations are not supported"),
                        s.span,
                    );
                }
            },
            StmtKind::If { .. } | StmtKind::While { .. } | StmtKind::For { .. } => {
                self.analyze_compound_stmt(ctx, s);
            },
            StmtKind::Decl { .. } | StmtKind::Reassign { .. } => {
                self.analyze_binding_stmt(ctx, s);
            },
            _ => {},
        }
    }

    /// Analyzes an `if`, `while` or `for` statement.
    fn analyze_compound_stmt(&mut self, ctx: StmtContext, s: &Stmt)
        requires
            old(self).scopes@.len() > 0,
            s.kind is If || s.kind is While || s.kind is For,
        ensures
            final(self)@ == stmt_analysis(old(self)@, ctx, *s),
            final(self).scopes@.len() == old(self).scopes@.len(),
        decreases s, 0int,
    {
        let block = StmtContext { in_block: true, ..ctx };
        let in_loop = StmtContext { in_block: true, in_loop: true, ..ctx };
        let dialect = self.dialect;
        match &s.kind {
            StmtKind::If { condition, then_branch, else_branch } => {
                let ct = self.analyze_expr(condition, 0);
                self.check_condition(ct, condition.span);
                self.note_feature("if", s.span);
                self.analyze_block(block, then_branch);
                self.analyze_block(block, else_branch);
            },
            StmtKind::While { condition, body } => {
                let ct = self.analyze_expr(condition, 0);
                self.check_condition(ct, condition.span);
                self.note_feature("while", s.span);
                self.analyze_block(in_loop, body);
            },
            StmtKind::For { var, from, to, step, body } => {
                let ft = self.analyze_expr(from, 0);
                let tt = self.analyze_expr(to, 0);
                let st = match step {
                    Some(e) => self.analyze_expr(e, 0),
                    None => None,
                };
                self.check_int(ft, from.span);
                self.check_int(tt, to.span);
                match (step, st) {
                    (Some(e), Some(t)) => {
                        self.check_int(Some(t), e.span);
                        let known = literal_int_value(dialect, e);
                        let ghost mid = self@;
                        expect_non_zero_loop_step(known, e.span, &mut self.diagnostics);
                        assert(known == Some(0i64) ==> self@.diags =~= mid.diags.push(step_diag(e.span)));
                    },
                    _ => {},
                }
                self.note_feature("for", s.span);
                let counter = loop_counter_type(ft, tt, st);
                self.open_scope();
                self.define_symbol(var.as_str(), counter);
                self.analyze_stmts_from(in_loop, body, 0);
                self.close_scope();
            },
            _ => {},
        }
    }

    /// Analyzes a declaration or a reassignment.
    fn analyze_binding_stmt(&mut self, ctx: StmtContext, s: &Stmt)
        requires
            old(self).scopes@.len() > 0,
            s.kind is Decl || s.kind is Reassign,
        ensures
            final(self)@ == stmt_analysis(old(self)@, ctx, *s),
            final(self).scopes@.len() == old(self).scopes@.len(),
    {
        match &s.kind {
            StmtKind::Decl { name, value } => {
                let t = self.analyze_expr(value, 0);
                if let Some(vt) = t {
                    check_declaration_value(vt, value.span, &mut self.diagnostics);
                    self.define_symbol(name.as_str(), vt);
                }
            },
            StmtKind::Reassign { name, value } => {
                let resolved = self.resolve(name.as_str()).is_some();
                let global = self.resolves_globally(name.as_str());
                match reassign_target_issue(resolved, if ctx.in_function { 1 } else { 0 }, global) {
                    Some(issue) => {
                        let (code, message) = reassign_target_issue_report(issue, name.as_str());
                        match issue {
                            ReassignTargetIssue::Unknown => {
                                self.report(Diagnostic::error(code, message, s.span));
                            },
                            ReassignTargetIssue::GlobalFromFunction => {
                                self.note_unsupported(code, message, s.span);
                            },
                        }
                    },
                    None => {},
                }
                let _ = self.analyze_expr(value, 0);
            },
            _ => {},
        }
    }

    /// Whether `name` resolves to a symbol of the outermost scope.
    fn resolves_globally(&self, name: &str) -> (r: bool)
        ensures
            r == resolves_to_global(self@.scopes, name@),
    {
        let mut k: usize = self.scopes.len();
        assert(self.scopes@.take(k as int) =~= self.scopes@);
        while k > 1
            invariant
                1 <= k <= self.scopes@.len() || (k == 0 && self.scopes@.len() == 0),
                resolves_to_global(self@.scopes, name@) == resolves_to_global(
                    scopes_view(self.scopes@.take(k as int)),
                    name@,
                ),
            decreases k,
        {
            let ghost t = self.scopes@.take(k as int);
            assert(scopes_view(t).drop_last() =~= scopes_view(self.scopes@.take(k - 1)));
            assert(scopes_view(t).last() == scope_view(self.scopes@[k - 1]@));
            if Self::lookup_scope(&self.scopes[k - 1], name).is_some() {
                return false;
            }
            k = k - 1;
        }
        if k == 0 {
            return false;
        }
        assert(scopes_view(self.scopes@.take(1))[0] == scope_view(self.scopes@[0]@));
        Self::lookup_scope(&self.scopes[0], name).is_some()
    }
}

/// The type that a query gives of `left op right` from the types of its
/// sides, without checking that they fit the operator: `+` of two strings
/// is a string, the other arithmetic gives its numeric kind, comparisons
/// and logic give a bool; each as late-known as its later side.
pub open spec fn query_binary_type(op: BinaryOp, left: PineType, right: PineType) -> PineType {
    let q = later_qualifier(left.qualifier, right.qualifier);
    match op {
        BinaryOp::Add | BinaryOp::Sub | BinaryOp::Mul | BinaryOp::Div | BinaryOp::Mod => if op == BinaryOp::Add
            && left.kind == ValueKind::String && right.kind == ValueKind::String {
            PineType { qualifier: q, kind: ValueKind::String }
        } else {
            PineType { qualifier: q, kind: arithmetic_kind(op, left.kind, right.kind) }
        },
        _ => PineType { qualifier: q, kind: ValueKind::Bool },
    }
}

/// The type of `e` as a query sees it, where the names in `params` stand
/// for parameters of the given types, found before the scopes.  A query
/// reports nothing: operands are not checked against their operators.
/// Expressions of the kinds not listed (names with parts, calls, tuples,
/// `if`, `switch` and loop expressions) are given no type.
pub open spec fn expr_type(
    scopes: Seq<Seq<(Seq<char>, PineType)>>,
    params: Seq<(Seq<char>, PineType)>,
    e: Expr,
) -> Option<PineType>
    decreases e,
{
    match e.kind {
        ExprKind::Group(inner) => expr_type(scopes, params, *inner),
        ExprKind::Literal(l) => Some(literal_type(l)),
        ExprKind::Identifier(name) => match lookup_in_scope(params, name@) {
            Some(t) => Some(t),
            None => resolve_name(scopes, name@),
        },
        ExprKind::Unary { op, expr } => match expr_type(scopes, params, *expr) {
            Some(t) => Some(
                PineType { qualifier: t.qualifier, kind: if op == UnaryOp::Not { ValueKind::Bool } else { t.kind } },
            ),
            None => None,
        },
        ExprKind::Binary { op, left, right } => match (expr_type(scopes, params, *left), expr_type(scopes, params, *right)) {
            (Some(a), Some(b)) => Some(query_binary_type(op, a, b)),
            _ => None,
        },
        ExprKind::Ternary { condition, then_expr, else_expr } => match (
            expr_type(scopes, params, *condition),
            expr_type(scopes, params, *then_expr),
            expr_type(scopes, params, *else_expr),
        ) {
            (Some(c), Some(a), Some(b)) => branch_result(c, a, b, literal_bool(*condition)),
            _ => None,
        },
        ExprKind::History { expr, offset: _ } => match expr_type(scopes, params, *expr) {
            Some(t) => Some(PineType { qualifier: Qualifier::Series, kind: t.kind }),
            None => None,
        },
        _ => None,
    }
}

impl AnalyzerState {
    /// The type of `expr`, where the names in `param_types` stand for
    /// parameters of the given types; nothing is reported.
    pub fn type_of_expr_with_params(&self, expr: &Expr, param_types: &Vec<(String, PineType)>) -> (r: Option<PineType>)
        ensures
            r == expr_type(self@.scopes, scope_view(param_types@), *expr),
        decreases expr,
    {
        match &expr.kind {
            ExprKind::Group(inner) => self.type_of_expr_with_params(inner, param_types),
            ExprKind::Literal(l) => Some(literal_pine_type(l)),
            ExprKind::Identifier(name) => match Self::lookup_scope(param_types, name.as_str()) {
                Some(t) => Some(t),
                None => self.resolve(name.as_str()),
            },
            ExprKind::Unary { op, expr: operand } => match self.type_of_expr_with_params(operand, param_types) {
                Some(t) => {
                    let kind = if *op == UnaryOp::Not {
                        ValueKind::Bool
                    } else {
                        t.kind
                    };
                    Some(PineType { qualifier: t.qualifier, kind })
                },
                None => None,
            },
            ExprKind::Binary { op, left, right } => {
                let a = match self.type_of_expr_with_params(left, param_types) {
                    Some(a) => a,
                    None => {
                        return None;
                    },
                };
                let b = match self.type_of_expr_with_params(right, param_types) {
                    Some(b) => b,
                    None => {
                        return None;
                    },
                };
                let q = strongest_qualifier(a.qualifier, b.qualifier);
                let arithmetic = match op {
                    BinaryOp::Add | BinaryOp::Sub | BinaryOp::Mul | BinaryOp::Div | BinaryOp::Mod => true,
                    _ => false,
                };
                if !arithmetic {
                    Some(PineType { qualifier: q, kind: ValueKind::Bool })
                } else if *op == BinaryOp::Add && a.kind == ValueKind::String && b.kind == ValueKind::String {
                    Some(PineType { qualifier: q, kind: ValueKind::String })
                } else {
                    Some(PineType { qualifier: q, kind: numeric_result_kind(*op, a.kind, b.kind) })
                }
            },
            ExprKind::Ternary { condition, then_expr, else_expr } => {
                let c = match self.type_of_expr_with_params(condition, param_types) {
                    Some(c) => c,
                    None => {
                        return None;
                    },
                };
                let a = match self.type_of_expr_with_params(then_expr, param_types) {
                    Some(a) => a,
                    None => {
                        return None;
                    },
                };
                let b = match self.type_of_expr_with_params(else_expr, param_types) {
                    Some(b) => b,
                    None => {
                        return None;
                    },
                };
                let kind = match common_kind(a.kind, b.kind) {
                    Some(k) => k,
                    None => {
                        return None;
                    },
                };
                let branch = match literal_bool_value(condition) {
                    Some(true) => a.qualifier,
                    Some(false) => b.qualifier,
                    None => strongest_qualifier(a.qualifier, b.qualifier),
                };
                Some(PineType { qualifier: strongest_qualifier(c.qualifier, branch), kind })
            },
            ExprKind::History { expr: value, offset: _ } => match self.type_of_expr_with_params(value, param_types) {
                Some(t) => Some(PineType { qualifier: Qualifier::Series, kind: t.kind }),
                None => None,
            },
            _ => None,
        }
    }
}

/// The types of `items` as a query sees them, when each has one.
pub open spec fn items_types(
    scopes: Seq<Seq<(Seq<char>, PineType)>>,
    params: Seq<(Seq<char>, PineType)>,
    items: Seq<Expr>,
) -> Option<Seq<PineType>>
    decreases items.len(),
{
    if items.len() == 0 {
        Some(Seq::empty())
    } else {
        match (items_types(scopes, params, items.drop_last()), expr_type(scopes, params, items.last())) {
            (Some(ts), Some(t)) => Some(ts.push(t)),
            _ => None,
        }
    }
}

/// The element types given to the tuple alias `name`: the latest entry of
/// `aliases` under that name.
pub open spec fn alias_types(aliases: Seq<(Seq<char>, Seq<PineType>)>, name: Seq<char>) -> Option<Seq<PineType>>
    decreases aliases.len(),
{
    if aliases.len() == 0 {
        None
    } else if aliases.last().0 == name {
        Some(aliases.last().1)
    } else {
        alias_types(aliases.drop_last(), name)
    }
}

pub open spec fn aliases_view(aliases: Seq<(String, Vec<PineType>)>) -> Seq<(Seq<char>, Seq<PineType>)> {
    aliases.map_values(|a: (String, Vec<PineType>)| (a.0@, a.1@))
}

/// The element types of the tuple `e` stands for: those of a tuple alias it
/// names, or of each item of a tuple expression.  Other expressions (names
/// of symbols, calls, conditional tuples) are given none.
pub open spec fn tuple_types(
    scopes: Seq<Seq<(Seq<char>, PineType)>>,
    params: Seq<(Seq<char>, PineType)>,
    aliases: Seq<(Seq<char>, Seq<PineType>)>,
    e: Expr,
) -> Option<Seq<PineType>> {
    match e.kind {
        ExprKind::Identifier(name) => alias_types(aliases, name@),
        ExprKind::Tuple(items) => items_types(scopes, params, items@),
        _ => None,
    }
}

impl AnalyzerState {
    fn alias_lookup(aliases: &Vec<(String, Vec<PineType>)>, name: &str) -> (r: Option<Vec<PineType>>)
        ensures
            match r {
                Some(v) => alias_types(aliases_view(aliases@), name@) == Some(v@),
                None => alias_types(aliases_view(aliases@), name@) is None,
            },
    {
        let mut k: usize = aliases.len();
        assert(aliases@.take(k as int) =~= aliases@);
        while k > 0
            invariant
                k <= aliases@.len(),
                alias_types(aliases_view(aliases@), name@) == alias_types(aliases_view(aliases@.take(k as int)), name@),
            decreases k,
        {
            let ghost t = aliases@.take(k as int);
            assert(aliases_view(t).drop_last() =~= aliases_view(aliases@.take(k - 1)));
            assert(aliases_view(t).last() == (aliases@[k - 1].0@, aliases@[k - 1].1@));
            if crate::text::str_eq(aliases[k - 1].0.as_str(), name) {
                return Some(aliases[k - 1].1.clone());
            }
            k = k - 1;
        }
        assert(aliases_view(aliases@.take(0)) =~= Seq::<(Seq<char>, Seq<PineType>)>::empty());
        None
    }

    /// The element types of the tuple `expr` stands for, where the names in
    /// `param_types` stand for parameters and those in `tuple_aliases` for
    /// tuples of the given element types.
    pub fn tuple_element_types_with_context(
        &self,
        expr: &Expr,
        param_types: &Vec<(String, PineType)>,
        tuple_aliases: &Vec<(String, Vec<PineType>)>,
    ) -> (r: Option<Vec<PineType>>)
        ensures
            match r {
                Some(v) => tuple_types(self@.scopes, scope_view(param_types@), aliases_view(tuple_aliases@), *expr)
                    == Some(v@),
                None => tuple_types(self@.scopes, scope_view(param_types@), aliases_view(tuple_aliases@), *expr) is None,
            },
    {
        match &expr.kind {
            ExprKind::Identifier(name) => Self::alias_lookup(tuple_aliases, name.as_str()),
            ExprKind::Tuple(items) => {
                let ghost sc = self@.scopes;
                let ghost ps = scope_view(param_types@);
                let mut out: Vec<PineType> = Vec::new();
                let mut i: usize = 0;
                assert(tuple_types(sc, ps, aliases_view(tuple_aliases@), *expr) == items_types(sc, ps, items@));
                while i < items.len()
                    invariant
                        tuple_types(sc, ps, aliases_view(tuple_aliases@), *expr) == items_types(sc, ps, items@),
                        i <= items@.len(),
                        items_types(sc, ps, items@.take(i as int)) == Some(out@),
                        sc == self@.scopes,
                        ps == scope_view(param_types@),
                    decreases items@.len() - i,
                {
                    let ghost pre = items@.take(i as int);
                    assert(items@.take(i + 1).drop_last() =~= pre);
                    match self.type_of_expr_with_params(&items[i], param_types) {
                        Some(t) => {
                            assert(items@.take(i + 1).last() == items@[i as int]);
                            out.push(t);
                        },
                        None => {
                            proof {
                                assert(items@.take(i + 1).last() == items@[i as int]);
                                assert(items_types(sc, ps, items@.take(i + 1)) is None);
                                lemma_items_types_none_extends(sc, ps, items@, (i + 1) as int);
                            }
                            return None;
                        },
                    }
                    i = i + 1;
                }
                assert(items@.take(items@.len() as int) =~= items@);
                Some(out)
            },
            _ => None,
        }
    }
}

proof fn lemma_items_types_none_extends(
    scopes: Seq<Seq<(Seq<char>, PineType)>>,
    params: Seq<(Seq<char>, PineType)>,
    items: Seq<Expr>,
    k: int,
)
    requires
        0 < k <= items.len(),
        items_types(scopes, params, items.take(k)) is None,
    ensures
        items_types(scopes, params, items) is None,
    decreases items.len() - k,
{
    if k < items.len() {
        assert(items.take(k + 1).drop_last() =~= items.take(k));
        lemma_items_types_none_extends(scopes, params, items, k + 1);
    } else {
        assert(items.take(k) =~= items);
    }
}

/// The kinds a parameter default may resolve to in the caller: plain values,
/// not references.
pub open spec fn is_plain_default_kind(k: ValueKind) -> bool {
    k == ValueKind::Int || k == ValueKind::Float || k == ValueKind::Bool || k == ValueKind::String || k
        == ValueKind::Color || k == ValueKind::Na
}

pub open spec fn default_type_diag(span: Span) -> DiagView {
    (
        Severity::Error,
        "E_FUNCTION_DEFAULT_TYPE"@,
        "defaults that resolve to reference values in the caller are not supported"@,
        span,
    )
}

/// The types bound to the `n_params` parameters of a user-defined function
/// by the first `k` arguments of a completed call, with the analysis state
/// after them: the argument at `a` binds the parameter `ix[a]`; one the call
/// gave (before `explicit`) has the type of `given` at `a`, where there is
/// one; a default filled in is analysed in the caller, and reported when it
/// resolves to a reference.
pub open spec fn bound_arg_types(
    v: AnalyzerView,
    args: Seq<CallArg>,
    ix: Seq<usize>,
    explicit: int,
    given: Seq<Option<PineType>>,
    call_span: Span,
    depth: int,
    n_params: nat,
    k: int,
) -> (AnalyzerView, Seq<Option<PineType>>)
    decreases k,
{
    if k <= 0 {
        (v, Seq::new(n_params, |i: int| None::<PineType>))
    } else {
        let (v1, res) = bound_arg_types(v, args, ix, explicit, given, call_span, depth, n_params, k - 1);
        let a = k - 1;
        if a >= explicit {
            let (v2, t) = expr_analysis(v1, depth, args[a].value);
            let v3 = match t {
                Some(t) => if is_plain_default_kind(t.kind) {
                    v2
                } else {
                    with_diag(v2, default_type_diag(call_span))
                },
                None => v2,
            };
            (v3, res.update(ix[a] as int, t))
        } else {
            (v1, res.update(ix[a] as int, if a < given.len() { given[a] } else { None }))
        }
    }
}

impl AnalyzerState {
    /// The types bound to the `n_params` parameters of a user-defined
    /// function by the arguments of a completed call, as `bound_arg_types`
    /// states them; defaults filled in are analysed at nesting `depth`.
    pub fn bind_udf_arg_types(
        &mut self,
        n_params: usize,
        args: &Vec<CallArg>,
        arg_indices: &Vec<usize>,
        explicit_count: usize,
        arg_types: &Vec<Option<PineType>>,
        call_span: Span,
        depth: u32,
    ) -> (r: Vec<Option<PineType>>)
        requires
            arg_indices@.len() == args@.len(),
            forall|a: int| 0 <= a < arg_indices@.len() ==> arg_indices@[a] < n_params,
        ensures
            (final(self)@, r@) == bound_arg_types(
                old(self)@,
                args@,
                arg_indices@,
                explicit_count as int,
                arg_types@,
                call_span,
                depth as int,
                n_params as nat,
                args@.len() as int,
            ),
            final(self).scopes@ == old(self).scopes@,
    {
        let mut res: Vec<Option<PineType>> = Vec::new();
        let mut p: usize = 0;
        while p < n_params
            invariant
                p <= n_params,
                res@ == Seq::new(p as nat, |i: int| None::<PineType>),
            decreases n_params - p,
        {
            res.push(None);
            p = p + 1;
            assert(res@ =~= Seq::new(p as nat, |i: int| None::<PineType>));
        }
        let mut a: usize = 0;
        while a < args.len()
            invariant
                a <= args@.len(),
                arg_indices@.len() == args@.len(),
                forall|j: int| 0 <= j < arg_indices@.len() ==> arg_indices@[j] < n_params,
                res@.len() == n_params,
                (self@, res@) == bound_arg_types(
                    old(self)@,
                    args@,
                    arg_indices@,
                    explicit_count as int,
                    arg_types@,
                    call_span,
                    depth as int,
                    n_params as nat,
                    a as int,
                ),
                self.scopes@ == old(self).scopes@,
            decreases args@.len() - a,
        {
            let param = arg_indices[a];
            if a >= explicit_count {
                let t = self.analyze_expr(&args[a].value, depth);
                match t {
                    Some(ty) => {
                        let plain = match ty.kind {
                            ValueKind::Int | ValueKind::Float | ValueKind::Bool | ValueKind::String | ValueKind::Color
                            | ValueKind::Na => true,
                            _ => false,
                        };
                        if !plain {
                            self.report(
                                Diagnostic::error(
                                    "E_FUNCTION_DEFAULT_TYPE",
                                    String::from_str(
                                        "defaults that resolve to reference values in the caller are not supported",
                                    ),
                                    call_span,
                                ),
                            );
                        }
                    },
                    None => {},
                }
                res.set(param, t);
            } else {
                let t = if a < arg_types.len() {
                    arg_types[a]
                } else {
                    None
                };
                res.set(param, t);
            }
            a = a + 1;
        }
        res
    }
}

/// The diagnostic that stops a call of `name` from within the functions of
/// `stack`: recursion, or a call chain at its depth limit.
pub open spec fn call_entry_diag(stack: Seq<String>, name: Seq<char>, span: Span) -> Option<DiagView> {
    if in_call_stack(stack, name) {
        Some(
            (
                Severity::Error,
                "E_RECURSIVE_FUNCTION"@,
                "recursive function `"@ + name + "` is not supported"@,
                span,
            ),
        )
    } else if stack.len() >= MAX_FUNCTION_CALL_DEPTH {
        Some((Severity::Error, "E_FUNCTION_CALL_DEPTH"@, "user-defined function call chain is too deep"@, span))
    } else {
        None
    }
}

pub open spec fn side_effect_reason() -> Seq<char> {
    "side-effecting calls cannot be passed as user-defined function arguments"@
}

/// The state after each span of `spans` is noted as an argument that
/// passes a side effect.
pub open spec fn with_side_effects(v: AnalyzerView, spans: Seq<Span>) -> AnalyzerView {
    AnalyzerView {
        unsupported: v.unsupported + spans.map_values(|sp: Span| ("function_side_effect"@, side_effect_reason(), sp)),
        ..v
    }
}

/// The arguments of a call once the omitted defaults are filled in, or the
/// binding error that prevents it.
pub open spec fn completed_call_args(
    params: Seq<String>,
    defaults: Seq<Option<Expr>>,
    args: Seq<CallArg>,
    call_span: Span,
) -> Result<Seq<CallArg>, UdfArgErrorView> {
    if args.len() >= params.len() || no_defaults(defaults) {
        Ok(args)
    } else {
        match resolve_args(name_views(params), args, defaults) {
            Err(e) => Err(e),
            Ok(ix) => Ok(args + omitted_defaults(params, defaults, ix, call_span, params.len() as int)),
        }
    }
}

impl AnalyzerState {
    /// Enters a call of the user-defined function `entry` from within the
    /// functions of `function_stack` (at `function_depth` nested functions
    /// and `block_depth` nested blocks): refuses recursion and too deep a
    /// chain, notes the arguments that pass side effects, fills in omitted
    /// defaults, binds the arguments to the parameters, notes the use of a
    /// function and gives each parameter the type of the argument bound to
    /// it.  Returns the completed arguments, the parameter each binds and
    /// the parameters' types; what stops the call is reported.
    pub fn bind_udf_call(
        &mut self,
        entry: FunctionEntry,
        function_stack: &Vec<String>,
        function_depth: u32,
        block_depth: u32,
        span: Span,
        call_span: Span,
        args: Vec<CallArg>,
        arg_types: &Vec<Option<PineType>>,
        depth: u32,
    ) -> (r: Option<(Vec<CallArg>, Vec<usize>, Vec<Option<PineType>>)>)
        requires
            entry.default_values@.len() == entry.params@.len(),
        ensures
            final(self).scopes@ == old(self).scopes@,
            call_entry_diag(function_stack@, entry.name@, span) matches Some(d) ==> r is None && final(self)@ == with_diag(
                old(self)@,
                d,
            ),
            call_entry_diag(function_stack@, entry.name@, span) is None ==> ({
                let v1 = with_side_effects(
                    old(self)@,
                    side_effecting_arg_spans(
                        old(self)@.dialect,
                        function_depth == 0 && block_depth == 0,
                        args@,
                        args@.len() as int,
                    ),
                );
                match completed_call_args(entry.params@, entry.default_values@, args@, call_span) {
                    Err(e) => r is None && final(self)@ == with_diag(v1, diag_view(final(self).diagnostics@.last()))
                        && is_udf_arg_diagnostic(
                        final(self).diagnostics@.last(),
                        entry.name@,
                        span,
                        entry.params@.len() as nat,
                        args@.len() as nat,
                        e,
                    ),
                    Ok(c) => match resolve_args(name_views(entry.params@), c, Seq::empty()) {
                        Err(e) => r is None && final(self)@ == with_diag(v1, diag_view(final(self).diagnostics@.last()))
                            && is_udf_arg_diagnostic(
                            final(self).diagnostics@.last(),
                            entry.name@,
                            span,
                            entry.params@.len() as nat,
                            c.len(),
                            e,
                        ),
                        Ok(ix) => {
                            let v2 = with_feature(v1, "function"@, entry.span);
                            let (v3, types) = bound_arg_types(
                                v2,
                                c,
                                ix,
                                args@.len() as int,
                                arg_types@,
                                call_span,
                                depth as int,
                                entry.params@.len() as nat,
                                c.len() as int,
                            );
                            r matches Some(out) && out.0@ == c && out.1@ == ix && out.2@ == types && final(self)@ == v3
                        },
                    },
                }
            }),
    {
        let ghost v0 = self@;
        if !enter_udf_call(entry.name.as_str(), entry.name.as_str(), function_stack, span, &mut self.diagnostics) {
            proof {
                assert(self@.diags =~= v0.diags.push(call_entry_diag(function_stack@, entry.name@, span)->Some_0));
            }
            return None;
        }
        assert(self@ == v0);
        let spans = side_effecting_udf_arg_spans(self.dialect, function_depth, block_depth, &args);
        let mut i: usize = 0;
        while i < spans.len()
            invariant
                i <= spans@.len(),
                self@ == with_side_effects(v0, spans@.take(i as int)),
                self.scopes@ == old(self).scopes@,
            decreases spans@.len() - i,
        {
            self.note_unsupported(
                "function_side_effect",
                String::from_str("side-effecting calls cannot be passed as user-defined function arguments"),
                spans[i],
            );
            proof {
                let f = |sp: Span| ("function_side_effect"@, side_effect_reason(), sp);
                assert(spans@.take(i + 1).map_values(f) =~= spans@.take(i as int).map_values(f).push(f(spans@[i as int])));
                assert(self@.unsupported =~= v0.unsupported + spans@.take(i + 1).map_values(f));
            }
            i = i + 1;
        }
        assert(spans@.take(spans@.len() as int) =~= spans@);
        let ghost v1 = self@;
        let explicit_count = args.len();
        let completed = match complete_args(entry.params.as_slice(), entry.default_values, args, call_span) {
            Ok(c) => c,
            Err(e) => {
                let n = entry.params.len();
                report_udf_arg_error(&mut self.diagnostics, entry.name.as_str(), span, n, explicit_count, e);
                proof {
                    assert(self.diagnostics@.drop_last() =~= self.diagnostics@.subrange(0, v1.diags.len() as int));
                    assert(diag_views(self.diagnostics@) =~= diag_views(self.diagnostics@.drop_last()).push(
                        diag_view(self.diagnostics@.last()),
                    ));
                }
                return None;
            },
        };
        let indices = match resolve_udf_arg_indices(entry.params.as_slice(), completed.as_slice()) {
            Ok(ix) => ix,
            Err(e) => {
                let n = entry.params.len();
                let got = completed.len();
                report_udf_arg_error(&mut self.diagnostics, entry.name.as_str(), span, n, got, e);
                proof {
                    assert(self.diagnostics@.drop_last() =~= self.diagnostics@.subrange(0, v1.diags.len() as int));
                    assert(diag_views(self.diagnostics@) =~= diag_views(self.diagnostics@.drop_last()).push(
                        diag_view(self.diagnostics@.last()),
                    ));
                }
                return None;
            },
        };
        self.note_feature("function", entry.span);
        proof {
            lemma_resolved_indices_bind_each_argument(name_views(entry.params@), completed@, Seq::empty());
        }
        let types = self.bind_udf_arg_types(
            entry.params.len(),
            &completed,
            &indices,
            explicit_count,
            arg_types,
            call_span,
            depth,
        );
        Some((completed, indices, types))
    }
}

/// Analysing an expression changes neither the scopes nor the language
/// version.
pub proof fn lemma_expr_analysis_keeps_scopes(v: AnalyzerView, depth: int, e: Expr)
    ensures
        expr_analysis(v, depth, e).0.scopes == v.scopes,
        expr_analysis(v, depth, e).0.dialect == v.dialect,
    decreases e,
{
    if depth < MAX_SEMA_EXPR_DEPTH {
        let d = depth + 1;
        match e.kind {
            ExprKind::Group(inner) => lemma_expr_analysis_keeps_scopes(v, d, *inner),
            ExprKind::Unary { op, expr } => lemma_expr_analysis_keeps_scopes(v, d, *expr),
            ExprKind::Binary { op, left, right } => {
                lemma_expr_analysis_keeps_scopes(v, d, *left);
                lemma_expr_analysis_keeps_scopes(expr_analysis(v, d, *left).0, d, *right);
            },
            ExprKind::Ternary { condition, then_expr, else_expr } => {
                lemma_expr_analysis_keeps_scopes(v, d, *condition);
                let (v1, ct) = expr_analysis(v, d, *condition);
                let v1c = match ct {
                    Some(c) => if condition_check(v.dialect, c) == ConditionCheck::Rejected {
                        with_diag(v1, condition_error_diag(c, condition.span))
                    } else {
                        v1
                    },
                    None => v1,
                };
                lemma_expr_analysis_keeps_scopes(v1c, d, *then_expr);
                lemma_expr_analysis_keeps_scopes(expr_analysis(v1c, d, *then_expr).0, d, *else_expr);
            },
            ExprKind::History { expr, offset } => {
                lemma_expr_analysis_keeps_scopes(v, d, *expr);
                lemma_expr_analysis_keeps_scopes(expr_analysis(v, d, *expr).0, d, *offset);
            },
            _ => {},
        }
    }
}

/// A type query agrees with analysis: whenever analysing an expression
/// gives it a type, querying it with no parameters, in the scopes the
/// analysis started from, gives that type.
pub proof fn lemma_query_agrees_with_analysis(v: AnalyzerView, depth: int, e: Expr)
    ensures
        expr_analysis(v, depth, e).1 matches Some(t) ==> expr_type(v.scopes, Seq::empty(), e) == Some(t),
    decreases e,
{
    if depth < MAX_SEMA_EXPR_DEPTH {
        let d = depth + 1;
        match e.kind {
            ExprKind::Group(inner) => lemma_query_agrees_with_analysis(v, d, *inner),
            ExprKind::Identifier(name) => {
                assert(lookup_in_scope(Seq::<(Seq<char>, PineType)>::empty(), name@) is None);
            },
            ExprKind::Unary { op, expr } => lemma_query_agrees_with_analysis(v, d, *expr),
            ExprKind::Binary { op, left, right } => {
                lemma_query_agrees_with_analysis(v, d, *left);
                let v1 = expr_analysis(v, d, *left).0;
                lemma_expr_analysis_keeps_scopes(v, d, *left);
                lemma_query_agrees_with_analysis(v1, d, *right);
            },
            ExprKind::Ternary { condition, then_expr, else_expr } => {
                lemma_query_agrees_with_analysis(v, d, *condition);
                lemma_expr_analysis_keeps_scopes(v, d, *condition);
                let (v1, ct) = expr_analysis(v, d, *condition);
                let v1c = match ct {
                    Some(c) => if condition_check(v.dialect, c) == ConditionCheck::Rejected {
                        with_diag(v1, condition_error_diag(c, condition.span))
                    } else {
                        v1
                    },
                    None => v1,
                };
                assert(v1c.scopes == v.scopes);
                lemma_query_agrees_with_analysis(v1c, d, *then_expr);
                lemma_expr_analysis_keeps_scopes(v1c, d, *then_expr);
                let v2 = expr_analysis(v1c, d, *then_expr).0;
                lemma_query_agrees_with_analysis(v2, d, *else_expr);
            },
            ExprKind::History { expr, offset } => lemma_query_agrees_with_analysis(v, d, *expr),
            _ => {},
        }
    }
}

/// The state after the parameters `0..k` are defined, in order, with their
/// types in the innermost scope.
pub open spec fn define_params(v: AnalyzerView, params: Seq<Seq<char>>, types: Seq<PineType>, k: int) -> AnalyzerView
    decreases k,
{
    if k <= 0 {
        v
    } else {
        define(define_params(v, params, types, k - 1), params[k - 1], types[k - 1])
    }
}

/// The analysis of the expression body of a user-defined function whose
/// parameters are bound to `types`: in a scope of its own that holds the
/// parameters and is closed afterwards.
pub open spec fn udf_body_analysis(
    v: AnalyzerView,
    params: Seq<Seq<char>>,
    types: Seq<PineType>,
    depth: int,
    body: Expr,
) -> (AnalyzerView, Option<PineType>) {
    let (v1, t) = expr_analysis(define_params(push_scope(v), params, types, params.len() as int), depth, body);
    (pop_scope(v1), t)
}

proof fn lemma_define_params_keeps_outer_scopes(v: AnalyzerView, params: Seq<Seq<char>>, types: Seq<PineType>, k: int)
    requires
        v.scopes.len() > 0,
    ensures
        define_params(v, params, types, k).scopes.len() == v.scopes.len(),
        define_params(v, params, types, k).scopes.drop_last() == v.scopes.drop_last(),
        define_params(v, params, types, k).dialect == v.dialect,
    decreases k,
{
    if k > 0 {
        lemma_define_params_keeps_outer_scopes(v, params, types, k - 1);
        let w = define_params(v, params, types, k - 1);
        assert(define(w, params[k - 1], types[k - 1]).scopes.drop_last() =~= w.scopes.drop_last());
    }
}

impl AnalyzerState {
    /// Analyses the expression body of a user-defined function whose
    /// parameters `params` are bound to `types`, in a scope of their own:
    /// the body's type, with what its analysis reports.
    pub fn analyze_udf_expr_body(
        &mut self,
        params: &Vec<String>,
        types: &Vec<PineType>,
        body: &Expr,
        depth: u32,
    ) -> (r: Option<PineType>)
        requires
            types@.len() == params@.len(),
        ensures
            (final(self)@, r) == udf_body_analysis(old(self)@, name_views(params@), types@, depth as int, *body),
            final(self)@.scopes == old(self)@.scopes,
    {
        let ghost v0 = self@;
        let ghost ps = name_views(params@);
        self.open_scope();
        let mut i: usize = 0;
        while i < params.len()
            invariant
                i <= params@.len(),
                types@.len() == params@.len(),
                ps == name_views(params@),
                self@ == define_params(push_scope(v0), ps, types@, i as int),
                self.scopes@.len() > 0,
            decreases params@.len() - i,
        {
            self.define_symbol(params[i].as_str(), types[i]);
            i = i + 1;
        }
        let ghost v1 = self@;
        let r = self.analyze_expr(body, depth);
        proof {
            lemma_expr_analysis_keeps_scopes(v1, depth as int, *body);
            lemma_define_params_keeps_outer_scopes(push_scope(v0), ps, types@, params@.len() as int);
            assert(push_scope(v0).scopes.drop_last() =~= v0.scopes);
        }
        self.close_scope();
        r
    }
}

} // verus!
