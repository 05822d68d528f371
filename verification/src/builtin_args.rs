//! Checking the arguments of a call to a built-in against its signature:
//! how many there are, which parameter each binds to, and what each admits.
use vstd::prelude::*;
use vstd::string::*;
use crate::accepts::{Accepts, admits};
use crate::call_checks::{
    call_arg_accepts_type, call_arg_accepts_type_expected_diagnostic, call_arg_admits,
    call_arg_matrix_cross_param_expected_diagnostic, call_arg_type_diagnostic, cross_param_label,
    does_not_accept_message, expects_message, refused_arg_message,
};
use crate::diagnostics::{Diagnostic, Severity, diag_view, diag_views};
use crate::names::{is_ta_extreme_length_overload, is_ta_pivot_default_source_overload};
use crate::signatures::{
    BuiltinParam, BuiltinSignature, arg_name, first_named, is_first_named, param_index_for_arg,
    param_slot,
};
use crate::syntax::{CallArg, Span};
use crate::text::{append_decimal, decimal, str_eq};
use crate::types::{PineType, ValueKind, type_label};

verus! {

/// A diagnostic as contracts see it.
pub type DiagView = (Severity, Seq<char>, Seq<char>, Span);

pub open spec fn unknown_arg_name_diag(function: Seq<char>, name: Seq<char>, span: Span) -> DiagView {
    (
        Severity::Error,
        "E_CALL_ARG_NAME"@,
        "`"@ + function + "` has no argument named `"@ + name + "`"@,
        span,
    )
}

pub open spec fn positional_after_named_diag(span: Span) -> DiagView {
    (
        Severity::Error,
        "E_CALL_ARG_ORDER"@,
        "positional arguments cannot follow named arguments in built-in calls"@,
        span,
    )
}

pub open spec fn duplicate_arg_diag(function: Seq<char>, param: Seq<char>, span: Span) -> DiagView {
    (
        Severity::Error,
        "E_CALL_ARG_DUPLICATE"@,
        "`"@ + function + "` argument `"@ + param + "` is provided more than once"@,
        span,
    )
}

pub open spec fn missing_arg_diag(function: Seq<char>, param: Seq<char>, span: Span) -> DiagView {
    (Severity::Error, "E_CALL_ARITY"@, "`"@ + function + "` is missing argument `"@ + param + "`"@, span)
}

/// The span of the first argument, or the empty span at the start when
/// there is none.
pub open spec fn first_arg_span(args: Seq<CallArg>) -> Span {
    if args.len() > 0 {
        args[0].span
    } else {
        Span { start: 0, end: 0 }
    }
}

/// The state of checking the bindings after a prefix of the arguments:
/// which parameters are bound, whether a named argument was seen, whether
/// all is well so far, and what was reported.
pub type BindingCheck = (Seq<bool>, bool, bool, Seq<DiagView>);

/// Binds the argument at `i` to parameter `p`: reported as a duplicate when
/// `p` is bound already, unless it repeats the tail of a variadic signature.
pub open spec fn bind_to_param(sig: BuiltinSignature, st: BindingCheck, i: int, arg: CallArg, p: int) -> BindingCheck {
    let (bound, saw_named, valid, diags) = st;
    let repeated_tail = sig.variadic && arg.name is None && i >= sig.params@.len();
    if bound[p] && !repeated_tail {
        (bound, saw_named, false, diags.push(duplicate_arg_diag(sig.name@, sig.params@[p].name@, arg.span)))
    } else {
        (bound.update(p, true), saw_named, valid, diags)
    }
}

/// Checks the argument at `i`.  A named argument binds to the first
/// parameter of its name; a positional one, which may not follow a named
/// one, to the parameter at its position, or to the last parameter of a
/// variadic signature once the positions run out.
pub open spec fn binding_step(sig: BuiltinSignature, st: BindingCheck, i: int, arg: CallArg) -> BindingCheck {
    let (bound, saw_named, valid, diags) = st;
    let n_params = sig.params@.len();
    match arg.name {
        Some(n) => match first_named(sig.params@, n@) {
            None => (bound, true, false, diags.push(unknown_arg_name_diag(sig.name@, n@, arg.span))),
            Some(p) => bind_to_param(sig, (bound, true, valid, diags), i, arg, p),
        },
        None => if saw_named {
            (bound, saw_named, false, diags.push(positional_after_named_diag(arg.span)))
        } else if i < n_params {
            bind_to_param(sig, st, i, arg, i)
        } else if sig.variadic && n_params > 0 {
            bind_to_param(sig, st, i, arg, n_params - 1)
        } else {
            st
        },
    }
}

/// The state after checking the bindings of all of `args`, in order.
pub open spec fn binding_fold(sig: BuiltinSignature, args: Seq<CallArg>) -> BindingCheck
    decreases args.len(),
{
    if args.len() == 0 {
        (Seq::new(sig.params@.len(), |p: int| false), false, true, Seq::empty())
    } else {
        binding_step(sig, binding_fold(sig, args.drop_last()), args.len() - 1, args.last())
    }
}

/// `p` is the first required parameter left unbound.
pub open spec fn is_first_unbound_required(params: Seq<BuiltinParam>, bound: Seq<bool>, p: int) -> bool {
    &&& 0 <= p < params.len()
    &&& !params[p].optional && !bound[p]
    &&& forall|q: int| 0 <= q < p ==> params[q].optional || bound[q]
}

/// Whether the arguments bind to the parameters, and what is reported on
/// them: the problems of each argument, or, when there are none, the first
/// required parameter that no argument binds to.
pub open spec fn builtin_arg_bindings(sig: BuiltinSignature, args: Seq<CallArg>) -> (bool, Seq<DiagView>) {
    let (bound, saw_named, valid, diags) = binding_fold(sig, args);
    if valid && exists|p: int| is_first_unbound_required(sig.params@, bound, p) {
        let p = choose|p: int| is_first_unbound_required(sig.params@, bound, p);
        (false, diags.push(missing_arg_diag(sig.name@, sig.params@[p].name@, first_arg_span(args))))
    } else {
        (valid, diags)
    }
}

proof fn lemma_binding_fold_len(sig: BuiltinSignature, args: Seq<CallArg>)
    ensures
        binding_fold(sig, args).0.len() == sig.params@.len(),
    decreases args.len(),
{
    if args.len() > 0 {
        lemma_binding_fold_len(sig, args.drop_last());
        let st = binding_fold(sig, args.drop_last());
        let arg = args.last();
        match arg.name {
            Some(n) => {
                if let Some(p) = first_named(sig.params@, n@) {
                    let k = choose|k: int| is_first_named(sig.params@, n@, k);
                    assert(is_first_named(sig.params@, n@, k));
                }
            },
            None => {},
        }
    }
}

proof fn lemma_first_named(params: Seq<BuiltinParam>, name: Seq<char>, i: int)
    requires
        is_first_named(params, name, i),
    ensures
        first_named(params, name) == Some(i),
{
    let k = choose|k: int| is_first_named(params, name, k);
    assert(is_first_named(params, name, k));
    if k < i {
        assert(params[k].name@ != name);
    } else if k > i {
        assert(params[i].name@ != name);
    }
}

proof fn lemma_first_unbound_required(params: Seq<BuiltinParam>, bound: Seq<bool>, p: int)
    requires
        is_first_unbound_required(params, bound, p),
    ensures
        (choose|q: int| is_first_unbound_required(params, bound, q)) == p,
{
    let k = choose|q: int| is_first_unbound_required(params, bound, q);
    assert(is_first_unbound_required(params, bound, k));
    if k < p {
        assert(params[k].optional || bound[k]);
    } else if k > p {
        assert(params[p].optional || bound[p]);
    }
}

/// What checking the bindings keeps true: all is well exactly while nothing
/// was reported, and each bound parameter is the one some argument binds to.
proof fn lemma_binding_fold_facts(sig: BuiltinSignature, args: Seq<CallArg>)
    ensures
        ({
            let st = binding_fold(sig, args);
            &&& st.0.len() == sig.params@.len()
            &&& st.2 <==> st.3.len() == 0
            &&& forall|p: int|
                0 <= p < st.0.len() && #[trigger] st.0[p] ==> exists|i: int|
                    0 <= i < args.len() && param_slot(sig, i, arg_name(#[trigger] args[i])) == Some(p)
        }),
    decreases args.len(),
{
    lemma_binding_fold_len(sig, args);
    if args.len() == 0 {
        return;
    }
    let prev_args = args.drop_last();
    lemma_binding_fold_facts(sig, prev_args);
    let prev = binding_fold(sig, prev_args);
    let st = binding_fold(sig, args);
    let k = args.len() - 1;
    let arg = args.last();
    assert(arg == args[k]);
    assert forall|i: int| 0 <= i < k implies prev_args[i] == args[i] by {}
    let slot = param_slot(sig, k, arg_name(arg));
    assert forall|p: int| 0 <= p < st.0.len() && #[trigger] st.0[p] implies exists|i: int|
        0 <= i < args.len() && param_slot(sig, i, arg_name(#[trigger] args[i])) == Some(p) by {
        if prev.0[p] {
            let i = choose|i: int| 0 <= i < prev_args.len() && param_slot(sig, i, arg_name(#[trigger] prev_args[i])) == Some(p);
            assert(prev_args[i] == args[i]);
        } else {
            match arg.name {
                Some(n) => {
                    if let Some(q) = first_named(sig.params@, n@) {
                        assert(slot == Some(q));
                        if q != p {
                            assert(st.0[p] == prev.0[p]);
                        }
                    }
                },
                None => {},
            }
            assert(slot == Some(p));
        }
    }
}

/// Existence of an unbound required parameter gives a first one.
proof fn lemma_first_unbound_required_exists(params: Seq<BuiltinParam>, bound: Seq<bool>, p: int)
    requires
        0 <= p < params.len(),
        !params[p].optional && !bound[p],
    ensures
        exists|q: int| is_first_unbound_required(params, bound, q),
    decreases p,
{
    if exists|q: int| 0 <= q < p && !params[q].optional && !bound[q] {
        let q = choose|q: int| 0 <= q < p && !params[q].optional && !bound[q];
        lemma_first_unbound_required_exists(params, bound, q);
    } else {
        assert(is_first_unbound_required(params, bound, p));
    }
}

/// The bindings of a built-in call are accepted exactly when nothing is
/// reported on them, and then every parameter that a call may not leave out
/// is the parameter of some argument.
pub proof fn lemma_accepted_bindings_cover_required_params(sig: BuiltinSignature, args: Seq<CallArg>)
    ensures
        builtin_arg_bindings(sig, args).0 <==> builtin_arg_bindings(sig, args).1.len() == 0,
        builtin_arg_bindings(sig, args).0 ==> forall|p: int|
            0 <= p < sig.params@.len() && !(#[trigger] sig.params@[p]).optional ==> exists|i: int|
                0 <= i < args.len() && param_slot(sig, i, arg_name(#[trigger] args[i])) == Some(p),
{
    lemma_binding_fold_facts(sig, args);
    let st = binding_fold(sig, args);
    if builtin_arg_bindings(sig, args).0 {
        assert forall|p: int| 0 <= p < sig.params@.len() && !(#[trigger] sig.params@[p]).optional implies exists|i: int|
            0 <= i < args.len() && param_slot(sig, i, arg_name(#[trigger] args[i])) == Some(p) by {
            if !st.0[p] {
                lemma_first_unbound_required_exists(sig.params@, st.0, p);
            }
        }
    }
}

fn unknown_arg_name_diagnostic(function_name: &str, name: &str, span: Span) -> (r: Diagnostic)
    ensures
        diag_view(r) == unknown_arg_name_diag(function_name@, name@, span),
{
    let mut message = String::from_str("`");
    message.append(function_name);
    message.append("` has no argument named `");
    message.append(name);
    message.append("`");
    Diagnostic::error("E_CALL_ARG_NAME", message, span)
}

fn first_param_named(params: &Vec<BuiltinParam>, name: &str) -> (r: Option<usize>)
    ensures
        match r {
            Some(p) => p < params@.len() && first_named(params@, name@) == Some(p as int),
            None => first_named(params@, name@) is None,
        },
{
    let mut p: usize = 0;
    while p < params.len()
        invariant
            p <= params@.len(),
            forall|q: int| 0 <= q < p ==> params@[q].name@ != name@,
        decreases params@.len() - p,
    {
        if str_eq(params[p].name.as_str(), name) {
            proof {
                lemma_first_named(params@, name@, p as int);
            }
            return Some(p);
        }
        p = p + 1;
    }
    assert(!exists|k: int| is_first_named(params@, name@, k));
    None
}

/// Checks that each argument of a built-in call binds to a parameter of its
/// own and that every required parameter is bound, reporting each problem.
pub fn validate_builtin_call_arg_bindings(
    signature: &BuiltinSignature,
    args: &Vec<CallArg>,
    diagnostics: &mut Vec<Diagnostic>,
) -> (r: bool)
    ensures
        r == builtin_arg_bindings(*signature, args@).0,
        diag_views(final(diagnostics)@) == diag_views(old(diagnostics)@) + builtin_arg_bindings(
            *signature,
            args@,
        ).1,
{
    let ghost sig = *signature;
    let ghost start = diagnostics@;
    let n_params = signature.params.len();
    let mut bound: Vec<bool> = Vec::new();
    while bound.len() < n_params
        invariant
            bound@.len() <= n_params,
            forall|q: int| 0 <= q < bound@.len() ==> !bound@[q],
        decreases n_params - bound@.len(),
    {
        bound.push(false);
    }
    let mut saw_named = false;
    let mut valid = true;
    assert(bound@ =~= Seq::new(n_params as nat, |p: int| false));
    assert(args@.take(0) =~= Seq::<CallArg>::empty());
    let mut i: usize = 0;
    while i < args.len()
        invariant
            n_params == sig.params@.len(),
            sig == *signature,
            i <= args@.len(),
            bound@.len() == n_params,
            (bound@, saw_named, valid, diag_views(diagnostics@).skip(start.len() as int)) == binding_fold(
                sig,
                args@.take(i as int),
            ),
            diag_views(diagnostics@).take(start.len() as int) == diag_views(start),
            diag_views(diagnostics@).len() >= start.len(),
        decreases args@.len() - i,
    {
        let ghost prev = (bound@, saw_named, valid, diag_views(diagnostics@).skip(start.len() as int));
        let ghost before = diagnostics@;
        let arg = &args[i];
        proof {
            lemma_binding_fold_len(sig, args@.take(i as int));
            assert(args@.take(i as int + 1).drop_last() =~= args@.take(i as int));
            assert(args@.take(i as int + 1).last() == args@[i as int]);
        }
        let mut target: Option<usize> = None;
        let mut pushed = false;
        match &arg.name {
            Some(name) => {
                saw_named = true;
                match first_param_named(&signature.params, name.as_str()) {
                    None => {
                        let d = unknown_arg_name_diagnostic(signature.name.as_str(), name.as_str(), arg.span);
                        diagnostics.push(d);
                        valid = false;
                        pushed = true;
                    },
                    Some(p) => {
                        target = Some(p);
                    },
                }
            },
            None => {
                if saw_named {
                    let d = Diagnostic::error(
                        "E_CALL_ARG_ORDER",
                        String::from_str("positional arguments cannot follow named arguments in built-in calls"),
                        arg.span,
                    );
                    diagnostics.push(d);
                    valid = false;
                    pushed = true;
                } else if i < n_params {
                    target = Some(i);
                } else if signature.variadic && n_params > 0 {
                    target = Some(n_params - 1);
                }
            },
        }
        if let Some(p) = target {
            let repeated_tail = signature.variadic && arg.name.is_none() && i >= n_params;
            if bound[p] && !repeated_tail {
                let mut message = String::from_str("`");
                message.append(signature.name.as_str());
                message.append("` argument `");
                message.append(signature.params[p].name.as_str());
                message.append("` is provided more than once");
                let d = Diagnostic::error("E_CALL_ARG_DUPLICATE", message, arg.span);
                diagnostics.push(d);
                valid = false;
                pushed = true;
            } else {
                bound.set(p, true);
            }
        }
        proof {
            let views = diag_views(diagnostics@);
            if pushed {
                assert(diagnostics@ == before.push(diagnostics@.last()));
                assert(views =~= diag_views(before).push(diag_view(diagnostics@.last())));
                assert(views.skip(start.len() as int) =~= prev.3.push(diag_view(diagnostics@.last())));
                assert(views.take(start.len() as int) =~= diag_views(before).take(start.len() as int));
            } else {
                assert(diagnostics@ == before);
            }
        }
        i = i + 1;
    }
    assert(args@.take(args@.len() as int) =~= args@);
    let ghost folded = binding_fold(sig, args@);
    let mut missing: Option<usize> = None;
    if valid {
        let mut p: usize = 0;
        while p < n_params && missing.is_none()
            invariant
                n_params == sig.params@.len(),
                sig == *signature,
                bound@.len() == n_params,
                p <= n_params,
                missing is None ==> forall|q: int| 0 <= q < p ==> sig.params@[q].optional || bound@[q],
                missing matches Some(m) ==> is_first_unbound_required(sig.params@, bound@, m as int),
            decreases n_params - p, (if missing is None { 1int } else { 0int }),
        {
            if !signature.params[p].optional && !bound[p] {
                missing = Some(p);
            } else {
                p = p + 1;
            }
        }
        proof {
            match missing {
                Some(m) => {
                    lemma_first_unbound_required(sig.params@, bound@, m as int);
                },
                None => {
                    assert forall|q: int| !is_first_unbound_required(sig.params@, bound@, q) by {}
                },
            }
        }
    }
    proof {
        assert(folded.0 =~= bound@);
    }
    match missing {
        Some(m) => {
            let span = if args.len() > 0 {
                args[0].span
            } else {
                Span { start: 0, end: 0 }
            };
            let mut message = String::from_str("`");
            message.append(signature.name.as_str());
            message.append("` is missing argument `");
            message.append(signature.params[m].name.as_str());
            message.append("`");
            let ghost before = diagnostics@;
            let d = Diagnostic::error("E_CALL_ARITY", message, span);
            diagnostics.push(d);
            proof {
                assert(diag_views(diagnostics@) =~= diag_views(before).push(diag_view(d)));
                assert(diag_views(before) =~= diag_views(before).take(start.len() as int) + diag_views(
                    before,
                ).skip(start.len() as int));
                assert(diag_views(diagnostics@) =~= diag_views(start) + folded.3.push(
                    missing_arg_diag(sig.name@, sig.params@[m as int].name@, first_arg_span(args@)),
                ));
            }
            false
        },
        None => {
            proof {
                let views = diag_views(diagnostics@);
                assert(views =~= views.take(start.len() as int) + views.skip(start.len() as int));
            }
            valid
        },
    }
}

proof fn lemma_param_slot_in_range(sig: BuiltinSignature, i: int, name: Option<Seq<char>>)
    requires
        sig.wf(),
        0 <= i,
    ensures
        param_slot(sig, i, name) matches Some(p) ==> 0 <= p < sig.params@.len(),
{
    if let Some(n) = name {
        if let Some(p) = first_named(sig.params@, n) {
            let k = choose|k: int| is_first_named(sig.params@, n, k);
            assert(is_first_named(sig.params@, n, k));
        }
    }
}

/// What resolving the parameter of an argument reports: a named argument
/// whose name no parameter has.
pub open spec fn resolve_param_report(sig: BuiltinSignature, arg: CallArg) -> Seq<DiagView> {
    match arg.name {
        Some(n) => if first_named(sig.params@, n@) is None {
            seq![unknown_arg_name_diag(sig.name@, n@, arg.span)]
        } else {
            Seq::empty()
        },
        None => Seq::empty(),
    }
}

/// The parameter the argument at `index` binds to, reporting a name that no
/// parameter has.
pub fn resolve_param<'a>(
    signature: &'a BuiltinSignature,
    index: usize,
    arg: &CallArg,
    diagnostics: &mut Vec<Diagnostic>,
) -> (r: Option<&'a BuiltinParam>)
    requires
        signature.wf(),
    ensures
        match param_slot(*signature, index as int, arg_name(*arg)) {
            Some(p) => r == Some(&signature.params@[p]),
            None => r is None,
        },
        diag_views(final(diagnostics)@) == diag_views(old(diagnostics)@) + resolve_param_report(
            *signature,
            *arg,
        ),
{
    let ghost before = diagnostics@;
    proof {
        lemma_param_slot_in_range(*signature, index as int, arg_name(*arg));
    }
    match param_index_for_arg(signature, index, arg) {
        Some(p) => {
            assert(diag_views(diagnostics@) =~= diag_views(before) + resolve_param_report(*signature, *arg));
            Some(&signature.params[p])
        },
        None => {
            if let Some(name) = &arg.name {
                let d = unknown_arg_name_diagnostic(signature.name.as_str(), name.as_str(), arg.span);
                diagnostics.push(d);
                assert(diag_views(diagnostics@) =~= diag_views(before).push(diag_view(d)));
            }
            assert(diag_views(diagnostics@) =~= diag_views(before) + resolve_param_report(*signature, *arg));
            None
        },
    }
}

/// How many parameters a call may not leave out.
pub open spec fn required_count(params: Seq<BuiltinParam>) -> nat
    decreases params.len(),
{
    if params.len() == 0 {
        0
    } else {
        required_count(params.drop_last()) + if params.last().optional {
            0nat
        } else {
            1nat
        }
    }
}

/// `` `f` expects <bound> <limit> argument(s), got <given> ``.
pub open spec fn arity_diag(function: Seq<char>, bound: Seq<char>, limit: nat, given: nat, span: Span) -> DiagView {
    (
        Severity::Error,
        "E_CALL_ARITY"@,
        "`"@ + function + "` expects "@ + bound + " "@ + decimal(limit) + " argument(s), got "@ + decimal(given),
        span,
    )
}

pub open spec fn too_few_args_diag(function: Seq<char>, required: nat, given: nat, span: Span) -> DiagView {
    arity_diag(function, "at least"@, required, given, span)
}

pub open spec fn too_many_args_diag(function: Seq<char>, allowed: nat, given: nat, span: Span) -> DiagView {
    arity_diag(function, "at most"@, allowed, given, span)
}

pub open spec fn overload_arg_name_diag(function: Seq<char>, overload: Seq<char>, name: Seq<char>, span: Span) -> DiagView {
    (
        Severity::Error,
        "E_CALL_ARG_NAME"@,
        "`"@ + function + "` "@ + overload + " overload has no argument named `"@ + name + "`"@,
        span,
    )
}

/// `ta.highest` and its kin, which may be called with a length alone.
pub open spec fn is_extreme_length_name(name: Seq<char>) -> bool {
    name == "ta.highest"@ || name == "ta.lowest"@ || name == "ta.highestbars"@ || name == "ta.lowestbars"@
}

/// `ta.pivothigh` and `ta.pivotlow`, which may be called with the bar counts alone.
pub open spec fn is_pivot_default_source_name(name: Seq<char>) -> bool {
    name == "ta.pivothigh"@ || name == "ta.pivotlow"@
}

/// The type of the argument at `i`, when it is known.
pub open spec fn type_at(types: Seq<Option<PineType>>, i: int) -> Option<PineType> {
    if 0 <= i < types.len() {
        types[i]
    } else {
        None
    }
}

/// What an argument that must be integer-compatible reports.
pub open spec fn int_arg_report(function: Seq<char>, param: Seq<char>, t: PineType, span: Span) -> Seq<DiagView> {
    if admits(Accepts::IntCompatible, t) {
        Seq::empty()
    } else {
        seq![(Severity::Error, "E_CALL_ARG_TYPE"@, refused_arg_message(function, param, Accepts::IntCompatible, t), span)]
    }
}

/// The message for an argument that its parameter refuses: what another
/// argument makes the parameter expect, else what the parameter admits,
/// else that it does not accept the argument's type.
pub open spec fn refused_call_arg_message(
    sig: BuiltinSignature,
    args: Seq<CallArg>,
    types: Seq<Option<PineType>>,
    param: Seq<char>,
    accepts: Accepts,
    t: PineType,
) -> Seq<char> {
    match cross_param_label(sig, args, types, accepts) {
        Some(l) => expects_message(sig.name@, param, l, type_label(t)),
        None => if !admits(accepts, t) {
            refused_arg_message(sig.name@, param, accepts, t)
        } else {
            does_not_accept_message(sig.name@, param, type_label(t))
        },
    }
}

/// The overload of a call: with a length alone, or with the bar counts alone.
pub open spec fn single_length_call(sig: BuiltinSignature, args: Seq<CallArg>) -> bool {
    is_extreme_length_name(sig.name@) && args.len() == 1
}

pub open spec fn pivot_counts_call(sig: BuiltinSignature, args: Seq<CallArg>) -> bool {
    is_pivot_default_source_name(sig.name@) && args.len() == 2
}

/// What the argument at `i` reports: under the bar-count overload, its name
/// and integer type; under the length overload, the same for the length;
/// otherwise a name no parameter has, and a type its parameter refuses,
/// unless the dialect takes the argument as it is or a user-type array is
/// joined.
pub open spec fn arg_report(
    sig: BuiltinSignature,
    args: Seq<CallArg>,
    types: Seq<Option<PineType>>,
    as_is: Seq<bool>,
    i: int,
) -> Seq<DiagView> {
    let arg = args[i];
    if pivot_counts_call(sig, args) {
        let expected = match arg.name {
            Some(n) => if n@ == "leftbars"@ || n@ == "rightbars"@ {
                Some(n@)
            } else {
                None
            },
            None => Some(if i == 0 { "leftbars"@ } else { "rightbars"@ }),
        };
        match expected {
            None => seq![overload_arg_name_diag(sig.name@, "two-argument"@, arg.name->Some_0@, arg.span)],
            Some(e) => match type_at(types, i) {
                None => Seq::empty(),
                Some(t) => int_arg_report(sig.name@, e, t, arg.span),
            },
        }
    } else if single_length_call(sig, args) && i == 0 {
        if arg.name matches Some(n) && n@ != "length"@ {
            seq![overload_arg_name_diag(sig.name@, "single-argument"@, arg.name->Some_0@, arg.span)]
        } else {
            match type_at(types, 0) {
                None => Seq::empty(),
                Some(t) => int_arg_report(sig.name@, "length"@, t, arg.span),
            }
        }
    } else {
        resolve_param_report(sig, arg) + match param_slot(sig, i, arg_name(arg)) {
            None => Seq::empty(),
            Some(p) => match type_at(types, i) {
                None => Seq::empty(),
                Some(t) => {
                    let param = sig.params@[p];
                    if (sig.name@ == "array.join"@ && param.name@ == "id"@ && t.kind == ValueKind::UserTypeArray)
                        || as_is[i] || call_arg_admits(sig, args, types, param.accepts, t) {
                        Seq::empty()
                    } else {
                        seq![
                            (
                                Severity::Error,
                                "E_CALL_ARG_TYPE"@,
                                refused_call_arg_message(sig, args, types, param.name@, param.accepts, t),
                                arg.span,
                            ),
                        ]
                    }
                },
            },
        }
    }
}

/// What the first `k` arguments report, in order.
pub open spec fn args_report(
    sig: BuiltinSignature,
    args: Seq<CallArg>,
    types: Seq<Option<PineType>>,
    as_is: Seq<bool>,
    k: int,
) -> Seq<DiagView>
    decreases k,
{
    if k <= 0 {
        Seq::empty()
    } else {
        args_report(sig, args, types, as_is, k - 1) + arg_report(sig, args, types, as_is, k - 1)
    }
}

/// What checking the arguments of a call reports: too few arguments, and
/// nothing else; or too many, then what their bindings report, then, when
/// the bindings are accepted, what each argument reports.  The two short
/// overloads skip the arity and binding checks.
pub open spec fn call_args_report(
    sig: BuiltinSignature,
    args: Seq<CallArg>,
    types: Seq<Option<PineType>>,
    as_is: Seq<bool>,
) -> Seq<DiagView> {
    let short = single_length_call(sig, args) || pivot_counts_call(sig, args);
    let n = args.len();
    if n < required_count(sig.params@) && !short {
        seq![too_few_args_diag(sig.name@, required_count(sig.params@), n, first_arg_span(args))]
    } else {
        let over = if !sig.variadic && n > sig.params@.len() {
            seq![too_many_args_diag(sig.name@, sig.params@.len(), n, args[sig.params@.len() as int].span)]
        } else {
            Seq::empty()
        };
        if short {
            over + args_report(sig, args, types, as_is, n as int)
        } else if !builtin_arg_bindings(sig, args).0 {
            over + builtin_arg_bindings(sig, args).1
        } else {
            over + builtin_arg_bindings(sig, args).1 + args_report(sig, args, types, as_is, n as int)
        }
    }
}

fn count_required(params: &Vec<BuiltinParam>) -> (r: usize)
    ensures
        r == required_count(params@),
{
    let mut count: usize = 0;
    let mut i: usize = 0;
    while i < params.len()
        invariant
            i <= params@.len(),
            count == required_count(params@.take(i as int)),
            count <= i,
        decreases params@.len() - i,
    {
        assert(params@.take(i as int + 1).drop_last() =~= params@.take(i as int));
        if !params[i].optional {
            count = count + 1;
        }
        i = i + 1;
    }
    assert(params@.take(params@.len() as int) =~= params@);
    count
}

fn arity_diagnostic(function_name: &str, bound_word: &str, limit: usize, given: usize, span: Span) -> (r: Diagnostic)
    ensures
        diag_view(r) == arity_diag(function_name@, bound_word@, limit as nat, given as nat, span),
{
    let mut message = String::from_str("`");
    message.append(function_name);
    message.append("` expects ");
    message.append(bound_word);
    message.append(" ");
    append_decimal(&mut message, limit);
    message.append(" argument(s), got ");
    append_decimal(&mut message, given);
    Diagnostic::error("E_CALL_ARITY", message, span)
}

fn overload_name_diagnostic(function_name: &str, overload: &str, name: &str, span: Span) -> (r: Diagnostic)
    ensures
        diag_view(r) == overload_arg_name_diag(function_name@, overload@, name@, span),
{
    let mut message = String::from_str("`");
    message.append(function_name);
    message.append("` ");
    message.append(overload);
    message.append(" overload has no argument named `");
    message.append(name);
    message.append("`");
    Diagnostic::error("E_CALL_ARG_NAME", message, span)
}

fn push_all(diagnostics: &mut Vec<Diagnostic>, d: Option<Diagnostic>)
    ensures
        diag_views(final(diagnostics)@) == diag_views(old(diagnostics)@) + match d {
            Some(x) => seq![diag_view(x)],
            None => Seq::empty(),
        },
{
    let ghost before = diagnostics@;
    if let Some(x) = d {
        diagnostics.push(x);
        assert(diag_views(diagnostics@) =~= diag_views(before) + seq![diag_view(x)]);
    } else {
        assert(diag_views(diagnostics@) =~= diag_views(before) + Seq::empty());
    }
}

fn check_int_arg(function_name: &str, param_name: &str, t: PineType, span: Span, diagnostics: &mut Vec<Diagnostic>)
    ensures
        diag_views(final(diagnostics)@) == diag_views(old(diagnostics)@) + int_arg_report(
            function_name@,
            param_name@,
            t,
            span,
        ),
{
    let d = call_arg_accepts_type_expected_diagnostic(function_name, param_name, Accepts::IntCompatible, t, span);
    push_all(diagnostics, d);
}

fn check_one_arg(
    signature: &BuiltinSignature,
    args: &Vec<CallArg>,
    arg_types: &Vec<Option<PineType>>,
    accepted_as_is: &Vec<bool>,
    single: bool,
    pivot: bool,
    index: usize,
    diagnostics: &mut Vec<Diagnostic>,
)
    requires
        signature.wf(),
        index < args@.len(),
        accepted_as_is@.len() == args@.len(),
        single == single_length_call(*signature, args@),
        pivot == pivot_counts_call(*signature, args@),
    ensures
        diag_views(final(diagnostics)@) == diag_views(old(diagnostics)@) + arg_report(
            *signature,
            args@,
            arg_types@,
            accepted_as_is@,
            index as int,
        ),
{
    proof {
        reveal_strlit("leftbars");
        reveal_strlit("rightbars");
        reveal_strlit("length");
    }
    let ghost before = diagnostics@;
    let arg = &args[index];
    let name = signature.name.as_str();
    let arg_type: Option<PineType> = if index < arg_types.len() {
        arg_types[index]
    } else {
        None
    };
    if pivot {
        let expected: &str = match &arg.name {
            Some(n) => {
                if str_eq(n.as_str(), "leftbars") || str_eq(n.as_str(), "rightbars") {
                    n.as_str()
                } else {
                    let d = overload_name_diagnostic(name, "two-argument", n.as_str(), arg.span);
                    diagnostics.push(d);
                    assert(diag_views(diagnostics@) =~= diag_views(before) + seq![diag_view(d)]);
                    return;
                }
            },
            None => if index == 0 {
                "leftbars"
            } else {
                "rightbars"
            },
        };
        match arg_type {
            None => {
                assert(diag_views(diagnostics@) =~= diag_views(before) + Seq::empty());
            },
            Some(t) => check_int_arg(name, expected, t, arg.span, diagnostics),
        }
        return;
    }
    if single && index == 0 {
        if let Some(n) = &arg.name {
            if !str_eq(n.as_str(), "length") {
                let d = overload_name_diagnostic(name, "single-argument", n.as_str(), arg.span);
                diagnostics.push(d);
                assert(diag_views(diagnostics@) =~= diag_views(before) + seq![diag_view(d)]);
                return;
            }
        }
        match arg_type {
            None => {
                assert(diag_views(diagnostics@) =~= diag_views(before) + Seq::empty());
            },
            Some(t) => check_int_arg(name, "length", t, arg.span, diagnostics),
        }
        return;
    }
    let param = match resolve_param(signature, index, arg, diagnostics) {
        Some(p) => p,
        None => {
            assert(diag_views(diagnostics@) =~= diag_views(before) + resolve_param_report(*signature, *arg)
                + Seq::empty());
            return;
        },
    };
    let ghost mid = diagnostics@;
    let t = match arg_type {
        Some(t) => t,
        None => {
            assert(diag_views(diagnostics@) =~= diag_views(before) + resolve_param_report(*signature, *arg)
                + Seq::empty());
            return;
        },
    };
    if str_eq(name, "array.join") && str_eq(param.name.as_str(), "id") && t.kind == ValueKind::UserTypeArray {
        assert(diag_views(diagnostics@) =~= diag_views(before) + resolve_param_report(*signature, *arg)
            + Seq::empty());
        return;
    }
    if accepted_as_is[index] {
        assert(diag_views(diagnostics@) =~= diag_views(before) + resolve_param_report(*signature, *arg)
            + Seq::empty());
        return;
    }
    if call_arg_accepts_type(signature, args.as_slice(), arg_types.as_slice(), param.accepts, t) {
        assert(diag_views(diagnostics@) =~= diag_views(before) + resolve_param_report(*signature, *arg)
            + Seq::empty());
        return;
    }
    let d = match call_arg_matrix_cross_param_expected_diagnostic(
        signature,
        args.as_slice(),
        arg_types.as_slice(),
        param.name.as_str(),
        param.accepts,
        t,
        arg.span,
    ) {
        Some(d) => d,
        None => match call_arg_accepts_type_expected_diagnostic(name, param.name.as_str(), param.accepts, t, arg.span) {
            Some(d) => d,
            None => call_arg_type_diagnostic(name, param.name.as_str(), t, arg.span),
        },
    };
    diagnostics.push(d);
    assert(diag_views(diagnostics@) =~= diag_views(before) + resolve_param_report(*signature, *arg) + seq![
        diag_view(d),
    ]);
}

/// Checks the arguments of a call to a built-in: their number, their
/// bindings, and the type of each against its parameter, reporting each
/// problem.  `accepted_as_is` tells, per argument, whether the script's
/// dialect takes it as it is for the parameter it binds to.  Checks that
/// single out particular built-ins come before and after this one.
pub fn validate_call_args(
    signature: &BuiltinSignature,
    args: &Vec<CallArg>,
    arg_types: &Vec<Option<PineType>>,
    accepted_as_is: &Vec<bool>,
    diagnostics: &mut Vec<Diagnostic>,
)
    requires
        signature.wf(),
        accepted_as_is@.len() == args@.len(),
    ensures
        diag_views(final(diagnostics)@) == diag_views(old(diagnostics)@) + call_args_report(
            *signature,
            args@,
            arg_types@,
            accepted_as_is@,
        ),
{
    let ghost start = diagnostics@;
    let name = signature.name.as_str();
    let n_args = args.len();
    let n_params = signature.params.len();
    let required = count_required(&signature.params);
    let single = is_ta_extreme_length_overload(name) && n_args == 1;
    let pivot = is_ta_pivot_default_source_overload(name) && n_args == 2;
    if n_args < required && !single && !pivot {
        let span = if n_args > 0 {
            args[0].span
        } else {
            Span { start: 0, end: 0 }
        };
        let d = arity_diagnostic(name, "at least", required, n_args, span);
        diagnostics.push(d);
        assert(diag_views(diagnostics@) =~= diag_views(start) + seq![diag_view(d)]);
        return;
    }
    if !signature.variadic && n_args > n_params {
        let d = arity_diagnostic(name, "at most", n_params, n_args, args[n_params].span);
        diagnostics.push(d);

    }
    let ghost after_arity = diagnostics@;
    if !single && !pivot {
        let ok = validate_builtin_call_arg_bindings(signature, args, diagnostics);
        if !ok {
            assert(diag_views(diagnostics@) =~= diag_views(start) + call_args_report(
                *signature,
                args@,
                arg_types@,
                accepted_as_is@,
            ));
            return;
        }
    }
    let ghost checked = diagnostics@;
    let mut i: usize = 0;
    while i < n_args
        invariant
            n_args == args@.len(),
            i <= n_args,
            signature.wf(),
            accepted_as_is@.len() == args@.len(),
            single == single_length_call(*signature, args@),
            pivot == pivot_counts_call(*signature, args@),
            diag_views(diagnostics@) == diag_views(checked) + args_report(
                *signature,
                args@,
                arg_types@,
                accepted_as_is@,
                i as int,
            ),
        decreases n_args - i,
    {
        let ghost before = diagnostics@;
        check_one_arg(signature, args, arg_types, accepted_as_is, single, pivot, i, diagnostics);
        assert(diag_views(diagnostics@) =~= diag_views(checked) + args_report(
            *signature,
            args@,
            arg_types@,
            accepted_as_is@,
            i as int + 1,
        ));
        i = i + 1;
    }
    assert(diag_views(diagnostics@) =~= diag_views(start) + call_args_report(
        *signature,
        args@,
        arg_types@,
        accepted_as_is@,
    ));
}

/// The arity of a call decides how its report starts: with fewer arguments
/// than the required parameters (outside the short forms of single-length
/// and pivot calls) the report is that one count; otherwise, with more
/// arguments than a non-variadic signature has parameters, the report opens
/// with that count, at the first argument too many.
pub proof fn lemma_call_args_report_arity(
    sig: BuiltinSignature,
    args: Seq<CallArg>,
    types: Seq<Option<PineType>>,
    as_is: Seq<bool>,
)
    ensures
        args.len() < required_count(sig.params@) && !single_length_call(sig, args) && !pivot_counts_call(sig, args)
            ==> call_args_report(sig, args, types, as_is) == seq![
                too_few_args_diag(sig.name@, required_count(sig.params@), args.len(), first_arg_span(args)),
            ],
        (args.len() >= required_count(sig.params@) || single_length_call(sig, args) || pivot_counts_call(sig, args))
            && !sig.variadic && args.len() > sig.params@.len() ==> call_args_report(sig, args, types, as_is).len() >= 1
            && call_args_report(sig, args, types, as_is)[0] == too_many_args_diag(
                sig.name@,
                sig.params@.len(),
                args.len(),
                args[sig.params@.len() as int].span,
            ),
{
}

} // verus!
