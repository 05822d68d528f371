//! The types of the legacy built-ins `iff`, `offset` and two-series `rsi`,
//! from the types of their ordered arguments.
use vstd::prelude::*;
use vstd::string::*;
use crate::builtin_args::DiagView;
use crate::diagnostics::{Diagnostic, Severity, diag_view, diag_views};
use crate::dialect::PineDialect;
use crate::syntax::Span;
use crate::type_rules::{
    ConditionCheck, HistoryOffsetIssue, branch_error_diag, branch_result, condition_check,
    condition_error_diag, expect_bool, history_offset_issue, merge_branch_types, validate_history_offset,
};
use crate::types::{PineType, Qualifier, ValueKind};

verus! {

/// A use of a feature outside the supported subset: the feature, why, and
/// where.
pub struct Unsupported {
    pub feature: &'static str,
    pub reason: &'static str,
    pub span: Span,
}

/// A result kind that a legacy `iff` may give: a scalar or `na`.
pub open spec fn is_iff_result_kind(k: ValueKind) -> bool {
    k == ValueKind::Int || k == ValueKind::Float || k == ValueKind::Bool || k == ValueKind::String
        || k == ValueKind::Color || k == ValueKind::Na
}

fn iff_result_kind(k: ValueKind) -> (r: bool)
    ensures
        r == is_iff_result_kind(k),
{
    match k {
        ValueKind::Int | ValueKind::Float | ValueKind::Bool | ValueKind::String | ValueKind::Color | ValueKind::Na => true,
        _ => false,
    }
}

/// The type of a legacy `iff(condition, then, else)`.  The condition is
/// checked as a bool first; branches that are not scalar make the call
/// unsupported; otherwise the type is that of the ternary over the same
/// branches.
pub fn analyze_legacy_iff(
    dialect: PineDialect,
    condition_type: PineType,
    then_type: PineType,
    else_type: PineType,
    condition_span: Span,
    condition_value: Option<bool>,
    call_span: Span,
    diagnostics: &mut Vec<Diagnostic>,
) -> (r: Result<Option<PineType>, Unsupported>)
    ensures
        ({
            let condition_diags: Seq<DiagView> = if condition_check(dialect, condition_type)
                == ConditionCheck::Rejected {
                seq![condition_error_diag(condition_type, condition_span)]
            } else {
                Seq::empty()
            };
            let scalar = is_iff_result_kind(then_type.kind) && is_iff_result_kind(else_type.kind);
            let merged = branch_result(condition_type, then_type, else_type, condition_value);
            let merge_diags: Seq<DiagView> = if scalar && merged is None {
                seq![branch_error_diag(then_type, else_type, call_span)]
            } else {
                Seq::empty()
            };
            &&& diag_views(final(diagnostics)@) == diag_views(old(diagnostics)@) + condition_diags + merge_diags
            &&& !scalar ==> (r matches Err(u) && u.feature@ == "iff.result"@ && u.span == call_span && u.reason@
                == "the current legacy iff slice supports scalar numeric, bool, string, color, and na results"@)
            &&& scalar ==> r == Ok::<Option<PineType>, Unsupported>(merged)
        }),
{
    let ghost start = diag_views(diagnostics@);
    expect_bool(dialect, condition_type, condition_span, diagnostics);
    let ghost checked = diag_views(diagnostics@);
    if !iff_result_kind(then_type.kind) || !iff_result_kind(else_type.kind) {
        assert(diag_views(diagnostics@) =~= checked + Seq::<DiagView>::empty());
        return Err(
            Unsupported {
                feature: "iff.result",
                reason: "the current legacy iff slice supports scalar numeric, bool, string, color, and na results",
                span: call_span,
            },
        );
    }
    let merged = merge_branch_types(condition_type, then_type, else_type, condition_value, call_span, diagnostics);
    proof {
        if merged is Some {
            assert(diag_views(diagnostics@) =~= checked + Seq::<DiagView>::empty());
        }
    }
    Ok(merged)
}

/// The type of a legacy `offset(source, offset)`: a series of the source's
/// kind, with what is wrong with the offset, if anything.  A tuple or void
/// source makes the call unsupported.
pub fn analyze_legacy_offset(
    source_type: PineType,
    source_span: Span,
    known_offset: Option<i64>,
    offset_type: PineType,
) -> (r: Result<(PineType, Option<HistoryOffsetIssue>), Unsupported>)
    ensures
        (source_type.kind == ValueKind::Tuple || source_type.kind == ValueKind::Void) ==> (r matches Err(u)
            && u.feature@ == "offset.source"@ && u.reason@
            == "legacy offset does not support tuple or void source values"@ && u.span == source_span),
        !(source_type.kind == ValueKind::Tuple || source_type.kind == ValueKind::Void) ==> r == Ok::<
            (PineType, Option<HistoryOffsetIssue>),
            Unsupported,
        >(
            (
                PineType { qualifier: Qualifier::Series, kind: source_type.kind },
                history_offset_issue(known_offset, Some(offset_type)),
            ),
        ),
{
    if source_type.kind == ValueKind::Tuple || source_type.kind == ValueKind::Void {
        return Err(
            Unsupported {
                feature: "offset.source",
                reason: "legacy offset does not support tuple or void source values",
                span: source_span,
            },
        );
    }
    let issue = validate_history_offset(known_offset, Some(offset_type));
    Ok((PineType::new(Qualifier::Series, source_type.kind), issue))
}

pub open spec fn is_int_or_float(k: ValueKind) -> bool {
    k == ValueKind::Int || k == ValueKind::Float
}

pub open spec fn rsi_overload_diag(span: Span) -> DiagView {
    (
        Severity::Error,
        "E_LEGACY_RSI_OVERLOAD"@,
        "Pine v4 two-series `rsi(x, y)` requires a series numeric first argument and a numeric second argument"@,
        span,
    )
}

/// The type of a v4 two-series `rsi(x, y)`: a float series, when `x` is a
/// numeric series and `y` numeric; otherwise the call is reported.
pub fn analyze_legacy_rsi_series(
    first: PineType,
    second: PineType,
    call_span: Span,
    diagnostics: &mut Vec<Diagnostic>,
) -> (r: Option<PineType>)
    ensures
        ({
            let accepted = first.qualifier == Qualifier::Series && is_int_or_float(first.kind) && is_int_or_float(
                second.kind,
            );
            &&& accepted ==> r == Some(PineType { qualifier: Qualifier::Series, kind: ValueKind::Float })
                && final(diagnostics)@ == old(diagnostics)@
            &&& !accepted ==> r is None && diag_views(final(diagnostics)@) == diag_views(old(diagnostics)@).push(
                rsi_overload_diag(call_span),
            )
        }),
{
    let numeric_first = first.kind == ValueKind::Int || first.kind == ValueKind::Float;
    let numeric_second = second.kind == ValueKind::Int || second.kind == ValueKind::Float;
    if first.qualifier != Qualifier::Series || !numeric_first || !numeric_second {
        let ghost before = diagnostics@;
        let d = Diagnostic::error(
            "E_LEGACY_RSI_OVERLOAD",
            String::from_str(
                "Pine v4 two-series `rsi(x, y)` requires a series numeric first argument and a numeric second argument",
            ),
            call_span,
        );
        diagnostics.push(d);
        assert(diag_views(diagnostics@) =~= diag_views(before).push(diag_view(d)));
        return None;
    }
    Some(PineType::new(Qualifier::Series, ValueKind::Float))
}

} // verus!
