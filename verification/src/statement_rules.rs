//! Rules on statements that depend only on where a statement stands and on
//! the types around it: top-level declarations, loop control, nested
//! functions, declaration values, reassignment targets and loop counters.
use vstd::prelude::*;
use vstd::string::*;
use crate::builtin_args::DiagView;
use crate::diagnostics::{Diagnostic, Severity, diag_view, diag_views};
use crate::syntax::Span;
use crate::types::{PineType, Qualifier, ValueKind, later_qualifier, qualifier_rank, strongest_qualifier};

verus! {

/// A declaration that must stand at the top level of a script.
#[derive(Clone, Copy, Debug, PartialEq, Eq, Structural)]
pub enum TopLevelDecl {
    UserType,
    Method,
}

pub open spec fn top_level_feature(kind: TopLevelDecl) -> Seq<char> {
    match kind {
        TopLevelDecl::UserType => "user-defined types"@,
        TopLevelDecl::Method => "user-defined methods"@,
    }
}

pub open spec fn top_level_diag(kind: TopLevelDecl, span: Span) -> DiagView {
    match kind {
        TopLevelDecl::UserType => (
            Severity::Error,
            "E_UDT_DECL_LOCATION"@,
            "user-defined type declarations must be top-level"@,
            span,
        ),
        TopLevelDecl::Method => (
            Severity::Error,
            "E_METHOD_DECL_LOCATION"@,
            "user-defined method declarations must be top-level"@,
            span,
        ),
    }
}

/// Whether a statement stands inside a block or a function.
pub open spec fn is_nested(block_depth: usize, function_depth: usize) -> bool {
    block_depth > 0 || function_depth > 0
}

/// Checks that a type or method declaration stands at the top level,
/// reporting it otherwise.  The result is the feature the declaration uses.
pub fn check_top_level_declaration(
    kind: TopLevelDecl,
    block_depth: usize,
    function_depth: usize,
    span: Span,
    diagnostics: &mut Vec<Diagnostic>,
) -> (r: &'static str)
    ensures
        r@ == top_level_feature(kind),
        is_nested(block_depth, function_depth) ==> diag_views(final(diagnostics)@) == diag_views(
            old(diagnostics)@,
        ).push(top_level_diag(kind, span)),
        !is_nested(block_depth, function_depth) ==> final(diagnostics)@ == old(diagnostics)@,
{
    if block_depth > 0 || function_depth > 0 {
        let ghost before = diagnostics@;
        let d = match kind {
            TopLevelDecl::UserType => Diagnostic::error(
                "E_UDT_DECL_LOCATION",
                String::from_str("user-defined type declarations must be top-level"),
                span,
            ),
            TopLevelDecl::Method => Diagnostic::error(
                "E_METHOD_DECL_LOCATION",
                String::from_str("user-defined method declarations must be top-level"),
                span,
            ),
        };
        diagnostics.push(d);
        assert(diag_views(diagnostics@) =~= diag_views(before).push(diag_view(d)));
    }
    match kind {
        TopLevelDecl::UserType => "user-defined types",
        TopLevelDecl::Method => "user-defined methods",
    }
}

pub open spec fn loop_control_diag(is_break: bool, span: Span) -> DiagView {
    (
        Severity::Error,
        "E_LOOP_CONTROL"@,
        if is_break {
            "`break` can only be used inside a loop"@
        } else {
            "`continue` can only be used inside a loop"@
        },
        span,
    )
}

/// Reports a `break` (or a `continue`) outside any loop.
pub fn check_loop_control(is_break: bool, loop_depth: usize, span: Span, diagnostics: &mut Vec<Diagnostic>)
    ensures
        loop_depth == 0 ==> diag_views(final(diagnostics)@) == diag_views(old(diagnostics)@).push(
            loop_control_diag(is_break, span),
        ),
        loop_depth > 0 ==> final(diagnostics)@ == old(diagnostics)@,
{
    if loop_depth == 0 {
        let ghost before = diagnostics@;
        let message = if is_break {
            String::from_str("`break` can only be used inside a loop")
        } else {
            String::from_str("`continue` can only be used inside a loop")
        };
        let d = Diagnostic::error("E_LOOP_CONTROL", message, span);
        diagnostics.push(d);
        assert(diag_views(diagnostics@) =~= diag_views(before).push(diag_view(d)));
    }
}

/// A function declared inside a block or another function is an
/// unsupported feature: the result names the feature and the reason.
pub fn nested_function_unsupported(block_depth: usize, function_depth: usize) -> (r: Option<
    (&'static str, &'static str),
>)
    ensures
        match r {
            Some((feature, reason)) => is_nested(block_depth, function_depth) && feature@ == "block_local_function"@
                && reason@ == "nested function declarations are not supported"@,
            None => !is_nested(block_depth, function_depth),
        },
{
    if block_depth > 0 || function_depth > 0 {
        Some(("block_local_function", "nested function declarations are not supported"))
    } else {
        None
    }
}

pub open spec fn declaration_value_diag(span: Span) -> DiagView {
    (
        Severity::Error,
        "E_DECL_VALUE"@,
        "declarations must be initialized with a value-producing expression"@,
        span,
    )
}

/// Reports a declaration initialised with an expression of no value.
pub fn check_declaration_value(value_type: PineType, value_span: Span, diagnostics: &mut Vec<Diagnostic>)
    ensures
        value_type.kind == ValueKind::Void ==> diag_views(final(diagnostics)@) == diag_views(old(diagnostics)@).push(
            declaration_value_diag(value_span),
        ),
        value_type.kind != ValueKind::Void ==> final(diagnostics)@ == old(diagnostics)@,
{
    if value_type.kind == ValueKind::Void {
        let ghost before = diagnostics@;
        let d = Diagnostic::error(
            "E_DECL_VALUE",
            String::from_str("declarations must be initialized with a value-producing expression"),
            value_span,
        );
        diagnostics.push(d);
        assert(diag_views(diagnostics@) =~= diag_views(before).push(diag_view(d)));
    }
}

/// What is wrong with the target of a reassignment.
#[derive(Clone, Copy, Debug, PartialEq, Eq, Structural)]
pub enum ReassignTargetIssue {
    /// No symbol of that name is in scope.
    Unknown,
    /// A user-defined function reassigns a global variable.
    GlobalFromFunction,
}

pub open spec fn reassign_target_issue_spec(resolved: bool, function_depth: usize, resolves_to_global: bool) -> Option<
    ReassignTargetIssue,
> {
    if !resolved {
        Some(ReassignTargetIssue::Unknown)
    } else if function_depth > 0 && resolves_to_global {
        Some(ReassignTargetIssue::GlobalFromFunction)
    } else {
        None
    }
}

/// Checks the target of a reassignment: it must be a known symbol, and a
/// user-defined function may not reassign a global one.
pub fn reassign_target_issue(resolved: bool, function_depth: usize, resolves_to_global: bool) -> (r: Option<
    ReassignTargetIssue,
>)
    ensures
        r == reassign_target_issue_spec(resolved, function_depth, resolves_to_global),
{
    if !resolved {
        Some(ReassignTargetIssue::Unknown)
    } else if function_depth > 0 && resolves_to_global {
        Some(ReassignTargetIssue::GlobalFromFunction)
    } else {
        None
    }
}

/// The code and message of a reassignment target issue, for `name`: an
/// error for an unknown symbol, and the feature and reason of an
/// unsupported one for a global reassigned from a function.
pub open spec fn reassign_target_report(issue: ReassignTargetIssue, name: Seq<char>) -> (Seq<char>, Seq<char>) {
    match issue {
        ReassignTargetIssue::Unknown => ("E_UNKNOWN_SYMBOL"@, "cannot reassign unknown symbol `"@ + name + "`"@),
        ReassignTargetIssue::GlobalFromFunction => (
            "function_side_effect"@,
            "reassigning global variables inside user-defined functions is not supported"@,
        ),
    }
}

pub fn reassign_target_issue_report(issue: ReassignTargetIssue, name: &str) -> (r: (&'static str, String))
    ensures
        (r.0@, r.1@) == reassign_target_report(issue, name@),
{
    match issue {
        ReassignTargetIssue::Unknown => {
            let mut message = String::from_str("cannot reassign unknown symbol `");
            message.append(name);
            message.append("`");
            ("E_UNKNOWN_SYMBOL", message)
        },
        ReassignTargetIssue::GlobalFromFunction => (
            "function_side_effect",
            String::from_str("reassigning global variables inside user-defined functions is not supported"),
        ),
    }
}

/// The qualifier of a loop bound, where its type is known.
pub open spec fn bound_qualifier(t: Option<PineType>) -> Qualifier {
    match t {
        Some(p) => p.qualifier,
        None => Qualifier::Const,
    }
}

/// The qualifier of a `for` loop: the latest of its bounds' and step's
/// qualifiers, `const` when none is known.
pub open spec fn loop_qualifier(from: Option<PineType>, to: Option<PineType>, step: Option<PineType>) -> Qualifier {
    later_qualifier(
        later_qualifier(later_qualifier(Qualifier::Const, bound_qualifier(from)), bound_qualifier(to)),
        bound_qualifier(step),
    )
}

/// The type of the counter of a `for` loop: an integer with the loop's
/// qualifier.
pub fn loop_counter_type(from: Option<PineType>, to: Option<PineType>, step: Option<PineType>) -> (r: PineType)
    ensures
        r.kind == ValueKind::Int,
        r.qualifier == loop_qualifier(from, to, step),
{
    let mut q = Qualifier::Const;
    if let Some(t) = from {
        q = strongest_qualifier(q, t.qualifier);
    }
    if let Some(t) = to {
        q = strongest_qualifier(q, t.qualifier);
    }
    if let Some(t) = step {
        q = strongest_qualifier(q, t.qualifier);
    }
    PineType { qualifier: q, kind: ValueKind::Int }
}

/// The counter of a `for` loop is known no earlier than any bound or step
/// whose type is known, and is one of their qualifiers, or `const`.
pub proof fn lemma_loop_counter_is_latest_bound(from: Option<PineType>, to: Option<PineType>, step: Option<PineType>)
    ensures
        qualifier_rank(loop_qualifier(from, to, step)) >= qualifier_rank(bound_qualifier(from)),
        qualifier_rank(loop_qualifier(from, to, step)) >= qualifier_rank(bound_qualifier(to)),
        qualifier_rank(loop_qualifier(from, to, step)) >= qualifier_rank(bound_qualifier(step)),
        loop_qualifier(from, to, step) == Qualifier::Const || loop_qualifier(from, to, step) == bound_qualifier(from)
            || loop_qualifier(from, to, step) == bound_qualifier(to) || loop_qualifier(from, to, step)
            == bound_qualifier(step),
{
}

} // verus!
