//! Checks made when a call to a user-defined function is entered: no
//! recursion, a bounded call chain, no side effects passed as arguments,
//! and arguments that fit the parameters' declared types.
use vstd::prelude::*;
use vstd::string::*;
use crate::call_parts::{expr_name, name_of};
use crate::diagnostics::{Diagnostic, Severity, diag_view, diag_views};
use crate::dialect::{PineDialect, dialect_number, dialect_version};
use crate::effects::{contains_output_or_declaration_call, expr_has_effect};
use crate::limits::MAX_FUNCTION_CALL_DEPTH;
use crate::syntax::{CallArg, Expr, ExprKind, Span};
use crate::text::{is_prefix, starts_with, str_eq};
use crate::types::{PineType, ValueKind, assignable, can_assign, pine_type_name, type_label};
use crate::overloads::ParamTypeInfo;
use crate::function_registry::param_type_view;
use crate::builtin_args::DiagView;

verus! {

pub open spec fn in_call_stack(stack: Seq<String>, name: Seq<char>) -> bool {
    exists|i: int| 0 <= i < stack.len() && #[trigger] stack[i]@ == name
}

/// Whether a call of `name` may be entered from within the functions of
/// `function_stack`: not while `name` is active, and not beyond the depth
/// limit.  What stops it is reported, naming the function `display_name`.
pub fn enter_udf_call(
    name: &str,
    display_name: &str,
    function_stack: &Vec<String>,
    span: Span,
    diagnostics: &mut Vec<Diagnostic>,
) -> (r: bool)
    ensures
        r == (!in_call_stack(function_stack@, name@) && function_stack@.len() < MAX_FUNCTION_CALL_DEPTH),
        in_call_stack(function_stack@, name@) ==> diag_views(final(diagnostics)@) == diag_views(
            old(diagnostics)@,
        ).push(
            (
                Severity::Error,
                "E_RECURSIVE_FUNCTION"@,
                "recursive function `"@ + display_name@ + "` is not supported"@,
                span,
            ),
        ),
        !in_call_stack(function_stack@, name@) && function_stack@.len() >= MAX_FUNCTION_CALL_DEPTH ==> diag_views(
            final(diagnostics)@,
        ) == diag_views(old(diagnostics)@).push(
            (Severity::Error, "E_FUNCTION_CALL_DEPTH"@, "user-defined function call chain is too deep"@, span),
        ),
        r ==> final(diagnostics)@ == old(diagnostics)@,
{
    let ghost before = diagnostics@;
    let mut i: usize = 0;
    while i < function_stack.len()
        invariant
            i <= function_stack@.len(),
            diagnostics@ == before,
            before == old(diagnostics)@,
            forall|j: int| 0 <= j < i ==> function_stack@[j]@ != name@,
        decreases function_stack@.len() - i,
    {
        if str_eq(function_stack[i].as_str(), name) {
            let mut message = String::from_str("recursive function `");
            message.append(display_name);
            message.append("` is not supported");
            let d = Diagnostic::error("E_RECURSIVE_FUNCTION", message, span);
            diagnostics.push(d);
            assert(diag_views(diagnostics@) =~= diag_views(before).push(diag_view(d)));

            return false;
        }
        i = i + 1;
    }
    if function_stack.len() >= MAX_FUNCTION_CALL_DEPTH {
        let d = Diagnostic::error(
            "E_FUNCTION_CALL_DEPTH",
            String::from_str("user-defined function call chain is too deep"),
            span,
        );
        diagnostics.push(d);
        assert(diag_views(diagnostics@) =~= diag_views(before).push(diag_view(d)));
        return false;
    }
    true
}

/// An argument that calls an `input.*` function directly, with arguments
/// free of side effects.
pub open spec fn is_direct_input_call(value: Expr) -> bool {
    value.kind matches ExprKind::Call { callee, args } && (name_of(*callee) matches Some(n) && is_prefix(
        "input."@,
        n,
    )) && forall|j: int| 0 <= j < args@.len() ==> !expr_has_effect(#[trigger] args@[j].value)
}

/// An argument of a user-defined function call that is reported for its
/// side effect: from v5 on, a direct `input.*` call at the top level of the
/// script is evaluated in the caller and allowed.
pub open spec fn side_effecting_arg(dialect: PineDialect, at_top_level: bool, arg: CallArg) -> bool {
    let direct_global_input = dialect_version(dialect) >= 5 && at_top_level && is_direct_input_call(arg.value);
    !direct_global_input && expr_has_effect(arg.value)
}

/// The spans of the first `k` arguments that are reported.
pub open spec fn side_effecting_arg_spans(dialect: PineDialect, at_top_level: bool, args: Seq<CallArg>, k: int) -> Seq<
    Span,
>
    decreases k,
{
    if k <= 0 {
        Seq::empty()
    } else {
        side_effecting_arg_spans(dialect, at_top_level, args, k - 1) + if side_effecting_arg(
            dialect,
            at_top_level,
            args[k - 1],
        ) {
            seq![args[k - 1].span]
        } else {
            Seq::empty()
        }
    }
}

fn args_free_of_effects(args: &Vec<CallArg>) -> (r: bool)
    ensures
        r == forall|j: int| 0 <= j < args@.len() ==> !expr_has_effect(#[trigger] args@[j].value),
{
    let mut j: usize = 0;
    while j < args.len()
        invariant
            j <= args@.len(),
            forall|q: int| 0 <= q < j ==> !expr_has_effect(#[trigger] args@[q].value),
        decreases args@.len() - j,
    {
        if contains_output_or_declaration_call(&args[j].value) {
            return false;
        }
        j = j + 1;
    }
    true
}

fn direct_input_call(value: &Expr) -> (r: bool)
    ensures
        r == is_direct_input_call(*value),
{
    match &value.kind {
        ExprKind::Call { callee, args } => {
            let named_input = match expr_name(callee) {
                Some(n) => starts_with(n.as_str(), "input."),
                None => false,
            };
            named_input && args_free_of_effects(args)
        },
        _ => false,
    }
}

/// The spans of the arguments of a user-defined function call that pass a
/// side effect, each to be reported as unsupported; `function_depth` and
/// `block_depth` say where the call stands.
pub fn side_effecting_udf_arg_spans(
    dialect: PineDialect,
    function_depth: u32,
    block_depth: u32,
    args: &Vec<CallArg>,
) -> (r: Vec<Span>)
    ensures
        r@ == side_effecting_arg_spans(dialect, function_depth == 0 && block_depth == 0, args@, args@.len() as int),
{
    let at_top_level = function_depth == 0 && block_depth == 0;
    let modern = dialect_number(dialect) >= 5;
    let mut out: Vec<Span> = Vec::new();
    let mut i: usize = 0;
    while i < args.len()
        invariant
            i <= args@.len(),
            at_top_level == (function_depth == 0 && block_depth == 0),
            modern == (dialect_version(dialect) >= 5),
            out@ == side_effecting_arg_spans(dialect, at_top_level, args@, i as int),
        decreases args@.len() - i,
    {
        let arg = &args[i];
        let direct_global_input = modern && at_top_level && direct_input_call(&arg.value);
        if !direct_global_input && contains_output_or_declaration_call(&arg.value) {
            out.push(arg.span);
        }
        i = i + 1;
    }
    out
}

pub open spec fn function_arg_type_diag(param: Seq<char>, expected: PineType, arg: PineType, span: Span) -> (
    Severity,
    Seq<char>,
    Seq<char>,
    Span,
) {
    (
        Severity::Error,
        "E_FUNCTION_ARG_TYPE"@,
        "cannot pass "@ + type_label(arg) + " to function parameter `"@ + param + "` of type "@ + type_label(
            expected,
        ),
        span,
    )
}

/// Checks that an argument of type `arg` may be passed to the parameter
/// `param` declared with type `expected` (at `expected_span`), reporting it
/// otherwise.  The result tells whether it may.
pub fn check_function_arg_type(
    param: &str,
    expected: PineType,
    expected_span: Span,
    arg: PineType,
    diagnostics: &mut Vec<Diagnostic>,
) -> (r: bool)
    ensures
        r == assignable(expected, arg),
        r ==> final(diagnostics)@ == old(diagnostics)@,
        !r ==> diag_views(final(diagnostics)@) == diag_views(old(diagnostics)@).push(
            function_arg_type_diag(param@, expected, arg, expected_span),
        ),
{
    if can_assign(expected, arg) {
        return true;
    }
    let mut m = String::from_str("cannot pass ");
    let a = pine_type_name(arg);
    m.append(a.as_str());
    m.append(" to function parameter `");
    m.append(param);
    m.append("` of type ");
    let e = pine_type_name(expected);
    m.append(e.as_str());
    let ghost before = diagnostics@;
    let d = Diagnostic::error("E_FUNCTION_ARG_TYPE", m, expected_span);
    diagnostics.push(d);
    assert(diag_views(diagnostics@) =~= diag_views(before).push(diag_view(d)));
    false
}

/// What the parameter `param`, declared with `expected` (its type and the
/// user-defined type it names, if any) at `span`, reports of an argument of
/// type `arg` that holds an array of the user-defined type `arg_array_type`
/// (when known): the argument's type must be assignable to the parameter's,
/// and an array of a user-defined type must be one of the type the
/// parameter names.
pub open spec fn param_arg_diags(
    param: Seq<char>,
    expected: Option<(PineType, Option<Seq<char>>)>,
    span: Span,
    arg: PineType,
    arg_array_type: Option<Seq<char>>,
) -> Seq<DiagView> {
    match expected {
        None => Seq::empty(),
        Some((e, name)) => {
            let first = if assignable(e, arg) {
                Seq::empty()
            } else {
                seq![function_arg_type_diag(param, e, arg, span)]
            };
            let second = if e.kind == ValueKind::UserTypeArray && name is Some && arg_array_type != name
                && arg.kind == ValueKind::UserTypeArray {
                seq![different_array_type_diag(param, span)]
            } else {
                Seq::empty()
            };
            first + second
        },
    }
}

pub open spec fn different_array_type_diag(param: Seq<char>, span: Span) -> DiagView {
    (
        Severity::Error,
        "E_FUNCTION_ARG_TYPE"@,
        "cannot pass a different user-defined type array to function parameter `"@ + param + "`"@,
        span,
    )
}

/// What the parameters `0..n` report of the arguments bound to them.
pub open spec fn udf_arg_type_diags(
    params: Seq<Seq<char>>,
    expected: Seq<Option<(PineType, Option<Seq<char>>)>>,
    spans: Seq<Span>,
    args: Seq<PineType>,
    arg_array_types: Seq<Option<Seq<char>>>,
    n: int,
) -> Seq<DiagView>
    decreases n,
{
    if n <= 0 {
        Seq::empty()
    } else {
        udf_arg_type_diags(params, expected, spans, args, arg_array_types, n - 1) + param_arg_diags(
            params[n - 1],
            expected[n - 1],
            spans[n - 1],
            args[n - 1],
            arg_array_types[n - 1],
        )
    }
}

pub open spec fn opt_name_views(names: Seq<Option<String>>) -> Seq<Option<Seq<char>>> {
    names.map_values(|o: Option<String>| match o {
        Some(n) => Some(n@),
        None => None,
    })
}

/// Checks the argument bound to each parameter of a user-defined function
/// against the parameter's declared type, in parameter order: `arg_types`
/// are the arguments' types, `arg_array_types` the user-defined type of
/// the arrays they hold, where known, and `spans` where each parameter's
/// type is declared.
pub fn check_udf_arg_types(
    params: &Vec<String>,
    param_types: &Vec<Option<ParamTypeInfo>>,
    spans: &Vec<Span>,
    arg_types: &Vec<PineType>,
    arg_array_types: &Vec<Option<String>>,
    diagnostics: &mut Vec<Diagnostic>,
)
    requires
        param_types@.len() == params@.len(),
        spans@.len() == params@.len(),
        arg_types@.len() == params@.len(),
        arg_array_types@.len() == params@.len(),
    ensures
        diag_views(final(diagnostics)@) == diag_views(old(diagnostics)@) + udf_arg_type_diags(
            params@.map_values(|p: String| p@),
            param_types@.map_values(|o: Option<ParamTypeInfo>| param_type_view(o)),
            spans@,
            arg_types@,
            opt_name_views(arg_array_types@),
            params@.len() as int,
        ),
{
    let ghost ps = params@.map_values(|p: String| p@);
    let ghost es = param_types@.map_values(|o: Option<ParamTypeInfo>| param_type_view(o));
    let ghost us = opt_name_views(arg_array_types@);
    let mut i: usize = 0;
    while i < params.len()
        invariant
            i <= params@.len(),
            param_types@.len() == params@.len(),
            spans@.len() == params@.len(),
            arg_types@.len() == params@.len(),
            arg_array_types@.len() == params@.len(),
            ps == params@.map_values(|p: String| p@),
            es == param_types@.map_values(|o: Option<ParamTypeInfo>| param_type_view(o)),
            us == opt_name_views(arg_array_types@),
            diag_views(diagnostics@) == diag_views(old(diagnostics)@) + udf_arg_type_diags(
                ps,
                es,
                spans@,
                arg_types@,
                us,
                i as int,
            ),
        decreases params@.len() - i,
    {
        let ghost before = diag_views(diagnostics@);
        let ghost step = param_arg_diags(ps[i as int], es[i as int], spans@[i as int], arg_types@[i as int], us[i as int]);
        match &param_types[i] {
            None => {
                assert(step =~= Seq::<DiagView>::empty());
            },
            Some(info) => {
                let expected = info.pine_type;
                let arg = arg_types[i];
                let ok = check_function_arg_type(params[i].as_str(), expected, spans[i], arg, diagnostics);
                let ghost mid = diag_views(diagnostics@);
                let mut different = false;
                if expected.kind == ValueKind::UserTypeArray && arg.kind == ValueKind::UserTypeArray {
                    match &info.user_type_name {
                        Some(name) => {
                            different = match &arg_array_types[i] {
                                Some(given) => !str_eq(given.as_str(), name.as_str()),
                                None => true,
                            };
                        },
                        None => {},
                    }
                }
                if different {
                    let mut m = String::from_str("cannot pass a different user-defined type array to function parameter `");
                    m.append(params[i].as_str());
                    m.append("`");
                    let d = Diagnostic::error("E_FUNCTION_ARG_TYPE", m, spans[i]);
                    diagnostics.push(d);
                    assert(diag_views(diagnostics@) =~= mid.push(diag_view(d)));
                }
                proof {
                    let first = if assignable(expected, arg) {
                        Seq::<DiagView>::empty()
                    } else {
                        seq![function_arg_type_diag(ps[i as int], expected, arg, spans@[i as int])]
                    };
                    if ok {
                        assert(mid =~= before + first);
                    } else {
                        assert(mid =~= before + first);
                    }
                    assert(diag_views(diagnostics@) =~= before + step);
                }
            },
        }
        assert(diag_views(diagnostics@) =~= diag_views(old(diagnostics)@) + udf_arg_type_diags(
            ps,
            es,
            spans@,
            arg_types@,
            us,
            (i + 1) as int,
        ));
        i = i + 1;
    }
}

} // verus!
