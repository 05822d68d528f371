//! The limits that keep analysis and lowering bounded.
use vstd::prelude::*;
use vstd::string::*;
use crate::diagnostics::{Diagnostic, Severity, diag_view, diag_views};
use crate::syntax::Span;

verus! {

/// How deeply expressions may nest for semantic analysis.
pub const MAX_SEMA_EXPR_DEPTH: u32 = 128;

/// How deeply calls of user-defined functions may nest.
pub const MAX_FUNCTION_CALL_DEPTH: usize = 64;

/// How deeply function bodies may be inlined when lowering.
pub const MAX_LOWERING_INLINE_DEPTH: u32 = 64;

/// How many nodes lowering may produce.
pub const MAX_LOWERING_HIR_NODES: u32 = 65536;

/// How many temporary symbols lowering may create.
pub const MAX_LOWERING_TEMP_SYMBOLS: u32 = 4096;

/// The budget of lowering.
#[derive(Clone, Copy, Debug, PartialEq, Eq, Structural)]
pub struct LoweringLimits {
    pub max_inline_depth: u32,
    pub max_hir_nodes: u32,
    pub max_temp_symbols: u32,
}

impl Default for LoweringLimits {
    fn default() -> (r: LoweringLimits)
        ensures
            r.max_inline_depth == MAX_LOWERING_INLINE_DEPTH,
            r.max_hir_nodes == MAX_LOWERING_HIR_NODES,
            r.max_temp_symbols == MAX_LOWERING_TEMP_SYMBOLS,
    {
        LoweringLimits {
            max_inline_depth: MAX_LOWERING_INLINE_DEPTH,
            max_hir_nodes: MAX_LOWERING_HIR_NODES,
            max_temp_symbols: MAX_LOWERING_TEMP_SYMBOLS,
        }
    }
}

/// Enters the analysis of one more nested expression: refused, and
/// reported, at the depth limit; otherwise the depth grows by one.
pub fn enter_expr_analysis(expr_depth: &mut u32, span: Span, diagnostics: &mut Vec<Diagnostic>) -> (r: bool)
    ensures
        r == (*old(expr_depth) < MAX_SEMA_EXPR_DEPTH),
        r ==> *final(expr_depth) == *old(expr_depth) + 1 && final(diagnostics)@ == old(diagnostics)@,
        !r ==> *final(expr_depth) == *old(expr_depth) && diag_views(final(diagnostics)@) == diag_views(
            old(diagnostics)@,
        ).push(
            (
                Severity::Error,
                "E_SEMA_EXPR_DEPTH"@,
                "expression is too deeply nested for semantic analysis"@,
                span,
            ),
        ),
{
    if *expr_depth >= MAX_SEMA_EXPR_DEPTH {
        let ghost before = diagnostics@;
        let d = Diagnostic::error(
            "E_SEMA_EXPR_DEPTH",
            String::from_str("expression is too deeply nested for semantic analysis"),
            span,
        );
        diagnostics.push(d);
        assert(diag_views(diagnostics@) =~= diag_views(before).push(diag_view(d)));
        return false;
    }
    *expr_depth = *expr_depth + 1;
    true
}

} // verus!
