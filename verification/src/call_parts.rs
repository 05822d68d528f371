//! The shapes of call expressions the analyzer recognizes: names of
//! callees, `receiver.method` callees, and method calls on call results.
use vstd::prelude::*;
use vstd::string::*;
use crate::builtin_args::DiagView;
use crate::diagnostics::{Diagnostic, Severity, diag_view, diag_views};
use crate::syntax::{CallArg, Expr, ExprKind, Span};
use crate::text::{
    str_eq, join_dotted, dotted, string_views, opt_view, pair_view, str_opt_view, split_once,
    contains_char, has_char,
};

verus! {

/// The name a callee expression spells: an identifier, or the parts of a
/// qualified name joined with `.`.
pub open spec fn name_of(e: Expr) -> Option<Seq<char>> {
    match e.kind {
        ExprKind::Identifier(n) => Some(n@),
        ExprKind::QualifiedName(parts) => Some(dotted(string_views(parts@))),
        _ => None,
    }
}

pub fn expr_name(expr: &Expr) -> (r: Option<String>)
    ensures
        opt_view(r) == name_of(*expr),
{
    match &expr.kind {
        ExprKind::Identifier(name) => Some(name.clone()),
        ExprKind::QualifiedName(parts) => Some(join_dotted(parts)),
        _ => None,
    }
}

pub open spec fn call_target_diag(span: Span) -> DiagView {
    (Severity::Error, "E_CALL_TARGET"@, "expected function name"@, span)
}

/// The name a call's callee spells; a callee that spells no name is
/// reported at its span.
pub fn call_target_name(callee: &Expr, diagnostics: &mut Vec<Diagnostic>) -> (r: Option<String>)
    ensures
        opt_view(r) == name_of(*callee),
        r is None ==> diag_views(final(diagnostics)@) == diag_views(old(diagnostics)@).push(
            call_target_diag(callee.span),
        ),
        r is Some ==> final(diagnostics)@ == old(diagnostics)@,
{
    let name = expr_name(callee);
    if name.is_none() {
        let ghost before = diagnostics@;
        let d = Diagnostic::error("E_CALL_TARGET", String::from_str("expected function name"), callee.span);
        diagnostics.push(d);
        assert(diag_views(diagnostics@) =~= diag_views(before).push(diag_view(d)));
    }
    name
}

/// The name of a callee whose value the constant evaluator may compute: an
/// identifier, or a qualified name joined with `.`.
pub fn const_call_name(callee: &Expr) -> (r: Option<String>)
    ensures
        opt_view(r) == name_of(*callee),
{
    match &callee.kind {
        ExprKind::Identifier(name) => Some(name.clone()),
        ExprKind::QualifiedName(parts) => Some(join_dotted(parts)),
        _ => None,
    }
}

/// The two parts of a callee of the form `receiver.method`.
pub open spec fn method_parts(e: Expr) -> Option<(Seq<char>, Seq<char>)> {
    match e.kind {
        ExprKind::QualifiedName(parts) => if parts@.len() == 2 {
            Some((parts@[0]@, parts@[1]@))
        } else {
            None
        },
        _ => None,
    }
}

pub fn method_call_parts(expr: &Expr) -> (r: Option<(&str, &str)>)
    ensures
        pair_view(r) == method_parts(*expr),
{
    match &expr.kind {
        ExprKind::QualifiedName(parts) => {
            if parts.len() == 2 {
                Some((parts[0].as_str(), parts[1].as_str()))
            } else {
                None
            }
        },
        _ => None,
    }
}

/// A call `prefix.method(receiver, ...)` whose first argument is an unnamed
/// call written before the callee: the postfix form of a method call on a
/// call result.
pub open spec fn postfix_parts(callee: Expr, args: Seq<CallArg>) -> Option<(Seq<char>, Seq<char>)> {
    match method_parts(callee) {
        None => None,
        Some(parts) => if args.len() == 0 {
            None
        } else if args[0].name is Some || !(args[0].value.kind is Call) || args[0].value.span.end
            >= callee.span.start {
            None
        } else {
            Some(parts)
        },
    }
}

pub fn postfix_call_result_method_parts<'a>(callee: &'a Expr, args: &[CallArg]) -> (r: Option<(&'a str, &'a str)>)
    ensures
        pair_view(r) == postfix_parts(*callee, args@),
{
    let parts = match method_call_parts(callee) {
        Some(parts) => parts,
        None => return None,
    };
    if args.len() == 0 {
        return None;
    }
    let receiver = &args[0];
    let is_call = match &receiver.value.kind {
        ExprKind::Call { .. } => true,
        _ => false,
    };
    if receiver.name.is_some() || !is_call || receiver.value.span.end >= callee.span.start {
        return None;
    }
    Some(parts)
}

/// Matrix methods whose result is again a matrix.
pub open spec fn matrix_producing_methods() -> Set<Seq<char>> {
    set![
        "copy"@, "diff"@, "eigenvectors"@, "inv"@, "kron"@, "mult"@, "pinv"@, "pow"@,
        "submatrix"@, "transpose"@,
    ]
}

fn is_matrix_producing_method(name: &str) -> (r: bool)
    ensures
        r == matrix_producing_methods().contains(name@),
{
    str_eq(name, "copy") || str_eq(name, "diff") || str_eq(name, "eigenvectors") || str_eq(name, "inv")
        || str_eq(name, "kron") || str_eq(name, "mult") || str_eq(name, "pinv") || str_eq(name, "pow")
        || str_eq(name, "submatrix") || str_eq(name, "transpose")
}

/// For `$call_result.method(f(...))`, possibly through a chain of
/// matrix-producing methods on the result of `f(...)`: the function `f`
/// and the method.
pub open spec fn udf_result_parts(callee: Expr, args: Seq<CallArg>) -> Option<(Seq<char>, Seq<char>)>
    decreases args,
{
    match postfix_parts(callee, args) {
        None => None,
        Some((prefix, method)) => if prefix != "$call_result"@ {
            None
        } else {
            match args[0].value.kind {
                ExprKind::Call { callee: producer, args: producer_args } => match producer.kind {
                    ExprKind::Identifier(f) => Some((f@, method)),
                    ExprKind::QualifiedName(_) => {
                        proof {
                            assert(decreases_to!(args => args[0]));
                        }
                        match udf_result_parts(*producer, producer_args@) {
                            Some((f, producer_method)) => if matrix_producing_methods().contains(
                                producer_method,
                            ) {
                                Some((f, method))
                            } else {
                                None
                            },
                            None => None,
                        }
                    },
                    _ => None,
                },
                _ => None,
            }
        },
    }
}

pub fn local_udf_call_result_method_parts<'a>(callee: &'a Expr, args: &'a [CallArg]) -> (r: Option<(&'a str, &'a str)>)
    ensures
        pair_view(r) == udf_result_parts(*callee, args@),
    decreases args@,
{
    let (prefix, method_name) = match postfix_call_result_method_parts(callee, args) {
        Some(parts) => parts,
        None => return None,
    };
    if !str_eq(prefix, "$call_result") {
        return None;
    }
    match &args[0].value.kind {
        ExprKind::Call { callee: producer, args: producer_args } => match &producer.kind {
            ExprKind::Identifier(function_name) => Some((function_name.as_str(), method_name)),
            ExprKind::QualifiedName(_) => {
                proof {
                    assert(decreases_to!(args@ => args@[0]));
                }
                match local_udf_call_result_method_parts(producer, producer_args.as_slice()) {
                    Some((function_name, producer_method)) => {
                        if is_matrix_producing_method(producer_method) {
                            Some((function_name, method_name))
                        } else {
                            None
                        }
                    },
                    None => None,
                }
            },
            _ => None,
        },
        _ => None,
    }
}

/// The method of `$builtin_matrix_result.method(...)` on a call result.
pub fn builtin_matrix_call_result_method_name<'a>(callee: &'a Expr, args: &[CallArg]) -> (r: Option<&'a str>)
    ensures
        str_opt_view(r) == match postfix_parts(*callee, args@) {
            Some((prefix, method)) => if prefix == "$builtin_matrix_result"@ {
                Some(method)
            } else {
                None
            },
            None => None,
        },
{
    match postfix_call_result_method_parts(callee, args) {
        Some((prefix, method_name)) => {
            if str_eq(prefix, "$builtin_matrix_result") {
                Some(method_name)
            } else {
                None
            }
        },
        None => None,
    }
}

/// The method of `$builtin_map_result.method(...)` on a call result.
pub fn builtin_map_call_result_method_name<'a>(callee: &'a Expr, args: &[CallArg]) -> (r: Option<&'a str>)
    ensures
        str_opt_view(r) == match postfix_parts(*callee, args@) {
            Some((prefix, method)) => if prefix == "$builtin_map_result"@ {
                Some(method)
            } else {
                None
            },
            None => None,
        },
{
    match postfix_call_result_method_parts(callee, args) {
        Some((prefix, method_name)) => {
            if str_eq(prefix, "$builtin_map_result") {
                Some(method_name)
            } else {
                None
            }
        },
        None => None,
    }
}

/// For `m.method(m.producer(...))` where `producer` yields a matrix: the
/// receiver `m` and the method.
pub open spec fn bound_matrix_parts(callee: Expr, args: Seq<CallArg>) -> Option<(Seq<char>, Seq<char>)> {
    match postfix_parts(callee, args) {
        None => None,
        Some((prefix, method)) => match args[0].value.kind {
            ExprKind::Call { callee: producer, .. } => match producer.kind {
                ExprKind::QualifiedName(parts) => if parts@.len() == 2 && parts@[0]@ == prefix
                    && matrix_producing_methods().contains(parts@[1]@) {
                    Some((parts@[0]@, method))
                } else {
                    None
                },
                _ => None,
            },
            _ => None,
        },
    }
}

pub fn bound_matrix_call_result_method_parts<'a>(callee: &'a Expr, args: &'a [CallArg]) -> (r: Option<(&'a str, &'a str)>)
    ensures
        pair_view(r) == bound_matrix_parts(*callee, args@),
{
    let (prefix, method_name) = match postfix_call_result_method_parts(callee, args) {
        Some(parts) => parts,
        None => return None,
    };
    match &args[0].value.kind {
        ExprKind::Call { callee: producer, .. } => match &producer.kind {
            ExprKind::QualifiedName(parts) => {
                if parts.len() == 2 && str_eq(parts[0].as_str(), prefix)
                    && is_matrix_producing_method(parts[1].as_str()) {
                    Some((parts[0].as_str(), method_name))
                } else {
                    None
                }
            },
            _ => None,
        },
        _ => None,
    }
}

/// `s` holds exactly one `.`, neither first nor last: `alias.method`.
pub open spec fn is_alias_qualified(s: Seq<char>) -> bool {
    exists|i: int|
        0 < i < s.len() - 1 && s[i] == '.' && forall|j: int| 0 <= j < s.len() && j != i ==> s[j] != '.'
}

/// Splits `alias.method` into its two parts.
pub fn alias_qualified_method_name(name: &str) -> (r: Option<(&str, &str)>)
    ensures
        r is Some <==> is_alias_qualified(name@),
        r matches Some((alias, method)) ==> name@ == alias@ + seq!['.'] + method@ && alias@.len() > 0
            && method@.len() > 0 && !has_char(alias@, '.') && !has_char(method@, '.'),
{
    match split_once(name, '.') {
        None => {
            proof {
                if is_alias_qualified(name@) {
                    let i = choose|i: int|
                        0 < i < name@.len() - 1 && name@[i] == '.' && forall|j: int|
                            0 <= j < name@.len() && j != i ==> name@[j] != '.';
                    assert(name@[i] == '.');
                }
            }
            None
        },
        Some((alias, method_name)) => {
            let ghost s = name@;
            let ghost k = alias@.len() as int;
            assert(s[k] == '.');
            if alias.unicode_len() == 0 || method_name.unicode_len() == 0 || contains_char(method_name, '.') {
                proof {
                    if is_alias_qualified(s) {
                        let i = choose|i: int|
                            0 < i < s.len() - 1 && s[i] == '.' && forall|j: int|
                                0 <= j < s.len() && j != i ==> s[j] != '.';
                        assert(i == k);
                        if has_char(method_name@, '.') {
                            let j = choose|j: int| 0 <= j < method_name@.len() && method_name@[j] == '.';
                            assert(s[k + 1 + j] == method_name@[j]);
                        }
                    }
                }
                None
            } else {
                proof {
                    assert forall|j: int| 0 <= j < s.len() && j != k implies s[j] != '.' by {
                        if j < k {
                            assert(s[j] == alias@[j]);
                        } else {
                            assert(s[j] == method_name@[j - k - 1]);
                        }
                    }
                }
                Some((alias, method_name))
            }
        },
    }
}

/// A positional argument naming `receiver_name`, spanning `span`.
pub fn receiver_call_arg(receiver_name: &str, span: Span) -> (r: CallArg)
    ensures
        r.name is None,
        r.span == span,
        r.value.span == span,
        r.value.kind matches ExprKind::Identifier(n) && n@ == receiver_name@,
{
    CallArg {
        name: None,
        span,
        value: Expr { kind: ExprKind::Identifier(String::from_str(receiver_name)), span },
    }
}

/// `ta.vwap` called with standard-deviation bands: a `stdev_mult` argument
/// or a third positional argument.
pub open spec fn is_vwap_bands_call(name: Seq<char>, args: Seq<CallArg>) -> bool {
    name == "ta.vwap"@ && exists|i: int|
        0 <= i < args.len() && (opt_view(args[i].name) == Some("stdev_mult"@) || (i >= 2
            && args[i].name is None))
}

pub fn is_ta_vwap_bands_call(name: &str, args: &[CallArg]) -> (r: bool)
    ensures
        r == is_vwap_bands_call(name@, args@),
{
    if !str_eq(name, "ta.vwap") {
        return false;
    }
    let mut i: usize = 0;
    while i < args.len()
        invariant
            name@ == "ta.vwap"@,
            i <= args@.len(),
            forall|j: int|
                0 <= j < i ==> !(opt_view(args@[j].name) == Some("stdev_mult"@) || (j >= 2
                    && args@[j].name is None)),
        decreases args@.len() - i,
    {
        let hit = match &args[i].name {
            Some(n) => str_eq(n.as_str(), "stdev_mult"),
            None => i >= 2,
        };
        if hit {
            assert(opt_view(args@[i as int].name) == Some("stdev_mult"@) || (i >= 2
                && args@[i as int].name is None));
            return true;
        }
        i = i + 1;
    }
    false
}

} // verus!
