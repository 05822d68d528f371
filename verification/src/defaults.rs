//! Checking the default values of user-defined function parameters.
//!
//! A default is first brought to a normal form: a literal, a signed numeric
//! literal folded into one, a built-in variable, or the literal of a named
//! built-in constant.  What the built-in tables say of a name is an input.
//! Then it is checked whether that normal form may stand as the default of
//! its parameter.
use vstd::prelude::*;
use vstd::string::*;
use crate::diagnostics::{Diagnostic, Severity, diag_view, diag_views};
use crate::name_set::NameSet;
use crate::syntax::{Expr, ExprKind, FunctionParam, Literal, Span, Stmt, StmtKind, UnaryOp};
use crate::text::{is_prefix, opt_view, starts_with, str_eq, strip_prefix};
use crate::types::{PineType, Qualifier, ValueKind, assignable, can_assign, qualifier_rank};

verus! {

/// What becomes of the default of one parameter.
#[derive(Clone, Copy, Debug, PartialEq, Eq, Structural)]
pub enum DefaultVerdict {
    /// The parameter has no default.
    Absent,
    /// The default has no normal form.
    Unsupported,
    /// The parameter is declared with a type that is not a scalar.
    ReferenceType,
    /// An `na` default without a declared type, or for a `bool` from v6 on.
    NaWithoutType,
    /// The default's type cannot be assigned to the declared type.
    NotAssignable,
    /// The default is kept.
    Accepted,
}

/// A declared parameter type without its `series ` or `simple ` qualifier.
pub open spec fn unqualified_type(t: Seq<char>) -> Seq<char> {
    if is_prefix("series "@, t) {
        t.subrange("series "@.len() as int, t.len() as int)
    } else if is_prefix("simple "@, t) {
        t.subrange("simple "@.len() as int, t.len() as int)
    } else {
        t
    }
}

/// The scalar kind a type name stands for.
pub open spec fn scalar_kind_named(t: Seq<char>) -> Option<ValueKind> {
    if t == "int"@ {
        Some(ValueKind::Int)
    } else if t == "float"@ {
        Some(ValueKind::Float)
    } else if t == "bool"@ {
        Some(ValueKind::Bool)
    } else if t == "string"@ {
        Some(ValueKind::String)
    } else if t == "color"@ {
        Some(ValueKind::Color)
    } else {
        None
    }
}

/// The qualifier a typed parameter is checked at: `simple` when declared so,
/// `series` otherwise.
pub open spec fn declared_qualifier(t: Seq<char>) -> Qualifier {
    if is_prefix("simple "@, t) {
        Qualifier::Simple
    } else {
        Qualifier::Series
    }
}

/// The verdict on the default of `p`, whose normal form has type `norm`
/// (none when it has no normal form), under language version `version`.
pub open spec fn default_verdict(p: FunctionParam, norm: Option<PineType>, version: u16) -> DefaultVerdict {
    if p.default_value is None {
        DefaultVerdict::Absent
    } else {
        match norm {
            None => DefaultVerdict::Unsupported,
            Some(vt) => match opt_view(p.declared_type) {
                None => if vt.kind == ValueKind::Na {
                    DefaultVerdict::NaWithoutType
                } else {
                    DefaultVerdict::Accepted
                },
                Some(t) => match scalar_kind_named(unqualified_type(t)) {
                    None => DefaultVerdict::ReferenceType,
                    Some(k) => if vt.kind == ValueKind::Na && version >= 6 && k == ValueKind::Bool {
                        DefaultVerdict::NaWithoutType
                    } else if !assignable(PineType { qualifier: declared_qualifier(t), kind: k }, vt) {
                        DefaultVerdict::NotAssignable
                    } else {
                        DefaultVerdict::Accepted
                    },
                },
            },
        }
    }
}

pub open spec fn unsupported_default_message() -> Seq<char> {
    "function defaults must be scalar literals, signed numeric literals, or supported built-in variables; calculations, user variables and calls are not supported"@
}

pub open spec fn reference_default_message() -> Seq<char> {
    "default values for reference-type parameters are not supported"@
}

pub open spec fn na_default_message() -> Seq<char> {
    "na defaults require an explicit scalar type; v6 bool defaults cannot be na"@
}

/// The span of a parameter's default value.
pub open spec fn default_span(p: FunctionParam) -> Span {
    match p.default_value {
        Some(v) => v.span,
        None => p.span,
    }
}

/// The diagnostic reported for the default of `p`, if any.
pub open spec fn default_diagnostic(p: FunctionParam, norm: Option<PineType>, version: u16) -> Option<
    (Severity, Seq<char>, Seq<char>, Span),
> {
    match default_verdict(p, norm, version) {
        DefaultVerdict::Absent | DefaultVerdict::Accepted => None,
        DefaultVerdict::Unsupported => Some(
            (Severity::Error, "E_FUNCTION_DEFAULT"@, unsupported_default_message(), default_span(p)),
        ),
        DefaultVerdict::ReferenceType => Some(
            (Severity::Error, "E_FUNCTION_DEFAULT_TYPE"@, reference_default_message(), p.span),
        ),
        DefaultVerdict::NaWithoutType => Some(
            (Severity::Error, "E_FUNCTION_DEFAULT_TYPE"@, na_default_message(), p.span),
        ),
        DefaultVerdict::NotAssignable => Some(
            (
                Severity::Error,
                "E_FUNCTION_DEFAULT_TYPE"@,
                "default value cannot be assigned to parameter `"@ + p.name@ + "` of type `"@
                    + unqualified_type(opt_view(p.declared_type)->Some_0) + "`"@,
                default_span(p),
            ),
        ),
    }
}

pub open spec fn option_seq<T>(o: Option<T>) -> Seq<T> {
    match o {
        Some(x) => seq![x],
        None => Seq::empty(),
    }
}

/// The type of a default's normal form.
pub open spec fn norm_type(n: Option<(Expr, PineType)>) -> Option<PineType> {
    match n {
        Some((_, t)) => Some(t),
        None => None,
    }
}

/// The diagnostics reported for the defaults of `params`, in order.
pub open spec fn default_diagnostics(
    params: Seq<FunctionParam>,
    norms: Seq<Option<(Expr, PineType)>>,
    version: u16,
) -> Seq<(Severity, Seq<char>, Seq<char>, Span)>
    decreases params.len(),
{
    if params.len() == 0 {
        Seq::empty()
    } else {
        let n = params.len() - 1;
        default_diagnostics(params.take(n), norms.take(n), version) + option_seq(
            default_diagnostic(params[n], norm_type(norms[n]), version),
        )
    }
}

/// The default kept for `p`: its normal form, when the verdict is `Accepted`.
pub open spec fn kept_default(p: FunctionParam, n: Option<(Expr, PineType)>, version: u16) -> Option<Expr> {
    if default_verdict(p, norm_type(n), version) == DefaultVerdict::Accepted {
        match n {
            Some((e, _)) => Some(e),
            None => None,
        }
    } else {
        None
    }
}

fn unqualified_type_name(t: &str) -> (r: &str)
    ensures
        r@ == unqualified_type(t@),
{
    match strip_prefix(t, "series ") {
        Some(rest) => {
            assert(rest@ =~= t@.subrange("series "@.len() as int, t@.len() as int));
            rest
        },
        None => match strip_prefix(t, "simple ") {
            Some(rest) => {
                assert(rest@ =~= t@.subrange("simple "@.len() as int, t@.len() as int));
                rest
            },
            None => t,
        },
    }
}

fn scalar_kind_for_name(t: &str) -> (r: Option<ValueKind>)
    ensures
        r == scalar_kind_named(t@),
{
    if str_eq(t, "int") {
        Some(ValueKind::Int)
    } else if str_eq(t, "float") {
        Some(ValueKind::Float)
    } else if str_eq(t, "bool") {
        Some(ValueKind::Bool)
    } else if str_eq(t, "string") {
        Some(ValueKind::String)
    } else if str_eq(t, "color") {
        Some(ValueKind::Color)
    } else {
        None
    }
}

/// The type of a literal: a constant of its kind.
pub open spec fn literal_type(l: Literal) -> PineType {
    PineType {
        qualifier: Qualifier::Const,
        kind: match l {
            Literal::Int(_) => ValueKind::Int,
            Literal::Float(_) => ValueKind::Float,
            Literal::Bool(_) => ValueKind::Bool,
            Literal::String(_) => ValueKind::String,
            Literal::ColorHex(_) => ValueKind::Color,
            Literal::Na => ValueKind::Na,
        },
    }
}

pub fn literal_pine_type(l: &Literal) -> (r: PineType)
    ensures
        r == literal_type(*l),
{
    let kind = match l {
        Literal::Int(_) => ValueKind::Int,
        Literal::Float(_) => ValueKind::Float,
        Literal::Bool(_) => ValueKind::Bool,
        Literal::String(_) => ValueKind::String,
        Literal::ColorHex(_) => ValueKind::Color,
        Literal::Na => ValueKind::Na,
    };
    PineType::new(Qualifier::Const, kind)
}

/// Whether the IEEE-754 double with bits `bits` is finite: its exponent is
/// not all ones.
pub open spec fn float_bits_finite(bits: u64) -> bool {
    (bits >> 52u64) & 0x7ffu64 != 0x7ffu64
}

/// The bits of the negation of the double with bits `bits`: its sign flipped.
pub open spec fn float_bits_negated(bits: u64) -> u64 {
    bits ^ 0x8000_0000_0000_0000u64
}

/// What the built-in tables say of the name a default is written as: the
/// type of the built-in variable an identifier names, and the literal value
/// of the built-in constant a qualified name names.
pub struct BuiltinNameFacts {
    pub variable_type: Option<PineType>,
    pub constant: Option<Literal>,
}

/// The normal form of a default and its type, or none where it has none: a
/// literal stands as it is; `+` or `-` before an integer literal (whose
/// negation fits) or a finite float literal folds into a literal at the
/// default's span; an identifier that no top-level binding in `shadowed`
/// hides stands for the built-in variable of that name; a qualified name
/// whose first part is not hidden becomes the literal of the named constant,
/// at the default's span.
pub open spec fn normalized_default(
    value: Expr,
    shadowed: Set<Seq<char>>,
    variable_type: Option<PineType>,
    constant: Option<Literal>,
) -> Option<(Expr, PineType)> {
    match value.kind {
        ExprKind::Literal(l) => Some((value, literal_type(l))),
        ExprKind::Unary { op, expr } => if op == UnaryOp::Plus || op == UnaryOp::Minus {
            let negative = op == UnaryOp::Minus;
            let folded: Option<Literal> = match expr.kind {
                ExprKind::Literal(Literal::Int(n)) => if negative {
                    if n == i64::MIN {
                        None
                    } else {
                        Some(Literal::Int((-n) as i64))
                    }
                } else {
                    Some(Literal::Int(n))
                },
                ExprKind::Literal(Literal::Float(bits)) => if float_bits_finite(bits) {
                    Some(Literal::Float(if negative { float_bits_negated(bits) } else { bits }))
                } else {
                    None
                },
                _ => None,
            };
            match folded {
                Some(l) => Some((Expr { kind: ExprKind::Literal(l), span: value.span }, literal_type(l))),
                None => None,
            }
        } else {
            None
        },
        ExprKind::Identifier(name) => if shadowed.contains(name@) {
            None
        } else {
            match variable_type {
                Some(t) => Some((value, t)),
                None => None,
            }
        },
        ExprKind::QualifiedName(parts) => if parts@.len() > 0 && shadowed.contains(parts@[0]@) {
            None
        } else {
            match constant {
                Some(l) => Some((Expr { kind: ExprKind::Literal(l), span: value.span }, literal_type(l))),
                None => None,
            }
        },
        _ => None,
    }
}

fn copy_literal(l: &Literal) -> (r: Literal)
    ensures
        r == *l,
{
    match l {
        Literal::Int(n) => Literal::Int(*n),
        Literal::Float(b) => Literal::Float(*b),
        Literal::Bool(b) => Literal::Bool(*b),
        Literal::String(s) => Literal::String(s.clone()),
        Literal::ColorHex(s) => Literal::ColorHex(s.clone()),
        Literal::Na => Literal::Na,
    }
}

/// Brings a default to its normal form.  `variable_type` and `constant` are
/// what the built-in tables say of the name the default is written as.
pub fn normalize_default(
    value: &Expr,
    shadowed: &NameSet,
    variable_type: Option<PineType>,
    constant: Option<Literal>,
) -> (r: Option<(Expr, PineType)>)
    ensures
        r == normalized_default(*value, shadowed@, variable_type, constant),
{
    match &value.kind {
        ExprKind::Literal(l) => {
            let t = literal_pine_type(l);
            Some((Expr { kind: ExprKind::Literal(copy_literal(l)), span: value.span }, t))
        },
        ExprKind::Unary { op, expr } => {
            let negative = match op {
                UnaryOp::Plus => false,
                UnaryOp::Minus => true,
                UnaryOp::Not => {
                    return None;
                },
            };
            let folded: Option<Literal> = match &expr.kind {
                ExprKind::Literal(Literal::Int(n)) => if negative {
                    if *n == i64::MIN {
                        None
                    } else {
                        Some(Literal::Int(-*n))
                    }
                } else {
                    Some(Literal::Int(*n))
                },
                ExprKind::Literal(Literal::Float(bits)) => if (*bits >> 52u64) & 0x7ffu64 != 0x7ffu64 {
                    Some(Literal::Float(if negative { *bits ^ 0x8000_0000_0000_0000u64 } else { *bits }))
                } else {
                    None
                },
                _ => None,
            };
            match folded {
                Some(l) => {
                    let t = literal_pine_type(&l);
                    Some((Expr { kind: ExprKind::Literal(l), span: value.span }, t))
                },
                None => None,
            }
        },
        ExprKind::Identifier(name) => {
            if shadowed.contains(name.as_str()) {
                None
            } else {
                match variable_type {
                    Some(t) => Some((Expr { kind: ExprKind::Identifier(name.clone()), span: value.span }, t)),
                    None => None,
                }
            }
        },
        ExprKind::QualifiedName(parts) => {
            if parts.len() > 0 && shadowed.contains(parts[0].as_str()) {
                None
            } else {
                match constant {
                    Some(l) => {
                        let t = literal_pine_type(&l);
                        Some((Expr { kind: ExprKind::Literal(l), span: value.span }, t))
                    },
                    None => None,
                }
            }
        },
        _ => None,
    }
}

/// Checks the default of one parameter against its normal form, reports
/// what is wrong with it, and gives back the default to keep.
pub fn check_function_default(
    param: &FunctionParam,
    normalized: Option<(Expr, PineType)>,
    version: u16,
    diagnostics: &mut Vec<Diagnostic>,
) -> (r: Option<Expr>)
    ensures
        r == kept_default(*param, normalized, version),
        diag_views(final(diagnostics)@) == diag_views(old(diagnostics)@) + option_seq(
            default_diagnostic(*param, norm_type(normalized), version),
        ),
{
    let ghost old_diags = diagnostics@;
    let ghost norm = norm_type(normalized);
    let value = match &param.default_value {
        None => {
            assert(diag_views(diagnostics@) =~= diag_views(old_diags) + Seq::empty());
            return None;
        },
        Some(value) => value,
    };
    let (expr, value_type) = match normalized {
        None => {
            let d = Diagnostic::error(
                "E_FUNCTION_DEFAULT",
                String::from_str(
                    "function defaults must be scalar literals, signed numeric literals, or supported built-in variables; calculations, user variables and calls are not supported",
                ),
                value.span,
            );
            diagnostics.push(d);
            assert(diag_views(diagnostics@) =~= diag_views(old_diags) + seq![diag_view(d)]);
            return None;
        },
        Some(pair) => pair,
    };
    let explicit_simple = match &param.declared_type {
        Some(t) => starts_with(t.as_str(), "simple "),
        None => false,
    };
    let declared_name: Option<&str> = match &param.declared_type {
        Some(t) => Some(unqualified_type_name(t.as_str())),
        None => None,
    };
    let declared_kind: Option<ValueKind> = match declared_name {
        None => None,
        Some(t) => match scalar_kind_for_name(t) {
            Some(k) => Some(k),
            None => {
                let d = Diagnostic::error(
                    "E_FUNCTION_DEFAULT_TYPE",
                    String::from_str("default values for reference-type parameters are not supported"),
                    param.span,
                );
                diagnostics.push(d);
                assert(diag_views(diagnostics@) =~= diag_views(old_diags) + seq![diag_view(d)]);
                return None;
            },
        },
    };
    let na_rejected = value_type.kind == ValueKind::Na && match declared_kind {
        None => true,
        Some(k) => version >= 6 && k == ValueKind::Bool,
    };
    if na_rejected {
        let d = Diagnostic::error(
            "E_FUNCTION_DEFAULT_TYPE",
            String::from_str("na defaults require an explicit scalar type; v6 bool defaults cannot be na"),
            param.span,
        );
        diagnostics.push(d);
        assert(diag_views(diagnostics@) =~= diag_views(old_diags) + seq![diag_view(d)]);
        return None;
    }
    if let Some(kind) = declared_kind {
        let qualifier = if explicit_simple {
            Qualifier::Simple
        } else {
            Qualifier::Series
        };
        if !can_assign(PineType::new(qualifier, kind), value_type) {
            let t = match declared_name {
                Some(t) => t,
                None => "",
            };
            let mut message = String::from_str("default value cannot be assigned to parameter `");
            message.append(param.name.as_str());
            message.append("` of type `");
            message.append(t);
            message.append("`");
            let d = Diagnostic::error("E_FUNCTION_DEFAULT_TYPE", message, value.span);
            diagnostics.push(d);
            assert(diag_views(diagnostics@) =~= diag_views(old_diags) + seq![diag_view(d)]);
            return None;
        }
    }
    assert(diag_views(diagnostics@) =~= diag_views(old_diags) + Seq::empty());
    Some(expr)
}

/// The normal form of the default of `p`, if it has one.
pub open spec fn normalized_param_default(p: FunctionParam, shadowed: Set<Seq<char>>, f: BuiltinNameFacts) -> Option<
    (Expr, PineType),
> {
    match p.default_value {
        Some(v) => normalized_default(v, shadowed, f.variable_type, f.constant),
        None => None,
    }
}

/// The normal forms of the defaults of `params`.
pub open spec fn param_norms(
    params: Seq<FunctionParam>,
    shadowed: Set<Seq<char>>,
    facts: Seq<BuiltinNameFacts>,
) -> Seq<Option<(Expr, PineType)>> {
    Seq::new(params.len(), |i: int| normalized_param_default(params[i], shadowed, facts[i]))
}

/// A kept default is a literal or a built-in variable at the span of the
/// default as written.
pub proof fn lemma_kept_default_is_literal_or_variable(
    p: FunctionParam,
    shadowed: Set<Seq<char>>,
    f: BuiltinNameFacts,
    version: u16,
)
    ensures
        kept_default(p, normalized_param_default(p, shadowed, f), version) matches Some(e) ==> {
            &&& e.kind is Literal || e.kind is Identifier
            &&& p.default_value is Some
            &&& e.span == default_span(p)
        },
{
}

/// The defaults to keep for `params`, one entry per parameter, with a
/// diagnostic for each default that cannot be kept.  `shadowed` holds the
/// names bound at the top level of the script, and `facts` what the built-in
/// tables say of the name each default is written as.
pub fn function_default_values(
    params: &Vec<FunctionParam>,
    version: u16,
    shadowed: &NameSet,
    facts: Vec<BuiltinNameFacts>,
    diagnostics: &mut Vec<Diagnostic>,
) -> (r: Vec<Option<Expr>>)
    requires
        facts@.len() == params@.len(),
    ensures
        r@.len() == params@.len(),
        forall|i: int|
            0 <= i < params@.len() ==> #[trigger] r@[i] == kept_default(
                params@[i],
                normalized_param_default(params@[i], shadowed@, facts@[i]),
                version,
            ),
        forall|i: int|
            0 <= i < params@.len() ==> (#[trigger] r@[i] matches Some(e) ==> (e.kind is Literal
                || e.kind is Identifier) && e.span == default_span(params@[i])),
        diag_views(final(diagnostics)@) == diag_views(old(diagnostics)@) + default_diagnostics(
            params@,
            param_norms(params@, shadowed@, facts@),
            version,
        ),
{
    let ghost facts0 = facts@;
    let ghost diags0 = diagnostics@;
    let ghost norms0 = param_norms(params@, shadowed@, facts0);
    let mut rest = facts;
    let mut out: Vec<Option<Expr>> = Vec::new();
    let mut i: usize = 0;
    while i < params.len()
        invariant
            i <= params@.len(),
            facts0.len() == params@.len(),
            norms0 == param_norms(params@, shadowed@, facts0),
            rest@ == facts0.subrange(i as int, facts0.len() as int),
            out@.len() == i,
            forall|j: int| 0 <= j < i ==> #[trigger] out@[j] == kept_default(params@[j], norms0[j], version),
            diag_views(diagnostics@) == diag_views(diags0) + default_diagnostics(
                params@.take(i as int),
                norms0.take(i as int),
                version,
            ),
        decreases params@.len() - i,
    {
        let f = rest.remove(0);
        assert(f == facts0[i as int]);
        let n = match &params[i].default_value {
            Some(v) => normalize_default(v, shadowed, f.variable_type, f.constant),
            None => None,
        };
        assert(n == norms0[i as int]);
        let kept = check_function_default(&params[i], n, version, diagnostics);
        out.push(kept);
        proof {
            let p = params@.take(i as int + 1);
            let ns = norms0.take(i as int + 1);
            assert(p.take(i as int) =~= params@.take(i as int));
            assert(ns.take(i as int) =~= norms0.take(i as int));
            assert(p[i as int] == params@[i as int]);
            assert(ns[i as int] == norms0[i as int]);
            assert(default_diagnostics(p, ns, version) == default_diagnostics(
                params@.take(i as int),
                norms0.take(i as int),
                version,
            ) + option_seq(default_diagnostic(params@[i as int], norm_type(norms0[i as int]), version)));
            assert(diag_views(diagnostics@) =~= diag_views(diags0) + default_diagnostics(p, ns, version));
        }
        i = i + 1;
    }
    assert(params@.take(params@.len() as int) =~= params@);
    assert(norms0.take(norms0.len() as int) =~= norms0);
    proof {
        assert forall|i: int| 0 <= i < params@.len() implies (#[trigger] out@[i] matches Some(e) ==> (e.kind is Literal
            || e.kind is Identifier) && e.span == default_span(params@[i])) by {
            lemma_kept_default_is_literal_or_variable(params@[i], shadowed@, facts0[i], version);
        }
    }
    out
}

/// A default that is kept can be assigned to the scalar type its parameter
/// declares, and is never a bare `na` for an untyped parameter.
pub proof fn lemma_kept_default_fits_declared_type(p: FunctionParam, vt: PineType, version: u16)
    requires
        default_verdict(p, Some(vt), version) == DefaultVerdict::Accepted,
    ensures
        p.default_value is Some,
        p.declared_type is None ==> vt.kind != ValueKind::Na,
        p.declared_type matches Some(t) ==> (scalar_kind_named(unqualified_type(t@)) matches Some(k)
            && assignable(PineType { qualifier: declared_qualifier(t@), kind: k }, vt)),
{
}

/// The names a statement binds at the top level of a script, which a
/// built-in variable named as a default can no longer mean.
pub open spec fn shadowing_names(statement: Stmt) -> Set<Seq<char>> {
    match statement.kind {
        StmtKind::Decl { name, .. } => set![name@],
        StmtKind::Reassign { name, .. } => set![name@],
        StmtKind::Function { name, .. } => set![name@],
        StmtKind::TupleDecl { names, .. } => Set::new(
            |n: Seq<char>| exists|i: int| 0 <= i < names@.len() && #[trigger] names@[i]@ == n,
        ),
        StmtKind::Import(Some(alias)) => set![alias@],
        StmtKind::UserType(name) => set![name@],
        StmtKind::Export(Some(name)) => set![name@],
        _ => Set::empty(),
    }
}

fn insert_all(names: &mut NameSet, bindings: &Vec<String>)
    requires
        old(names).wf(),
    ensures
        final(names).wf(),
        final(names)@ == old(names)@ + Set::new(
            |n: Seq<char>| exists|i: int| 0 <= i < bindings@.len() && #[trigger] bindings@[i]@ == n,
        ),
{
    let ghost start = names@;
    let mut k: usize = 0;
    while k < bindings.len()
        invariant
            k <= bindings@.len(),
            names.wf(),
            names@ == start + Set::new(
                |n: Seq<char>| exists|i: int| 0 <= i < k && #[trigger] bindings@[i]@ == n,
            ),
        decreases bindings@.len() - k,
    {
        let ghost before = names@;
        names.insert(bindings[k].clone());
        proof {
            assert forall|n: Seq<char>| names@.contains(n) == (start + Set::new(
                |m: Seq<char>| exists|i: int| 0 <= i < k + 1 && #[trigger] bindings@[i]@ == m,
            )).contains(n) by {
                if n == bindings@[k as int]@ {
                    assert(exists|i: int| 0 <= i < k + 1 && #[trigger] bindings@[i]@ == n);
                }
                if exists|i: int| 0 <= i < k + 1 && #[trigger] bindings@[i]@ == n {
                    let i = choose|i: int| 0 <= i < k + 1 && #[trigger] bindings@[i]@ == n;
                    if i < k {
                        assert(exists|j: int| 0 <= j < k && #[trigger] bindings@[j]@ == n);
                    }
                }
            }
            assert(names@ =~= start + Set::new(
                |m: Seq<char>| exists|i: int| 0 <= i < k + 1 && #[trigger] bindings@[i]@ == m,
            ));
        }
        k = k + 1;
    }
}

/// Records the names a top-level statement binds.
pub fn record_default_shadowing(statement: &Stmt, names: &mut NameSet)
    requires
        old(names).wf(),
    ensures
        final(names).wf(),
        final(names)@ == old(names)@ + shadowing_names(*statement),
{
    let ghost start = names@;
    match &statement.kind {
        StmtKind::Decl { name, .. } | StmtKind::Reassign { name, .. } | StmtKind::Function {
            name,
            ..
        } => {
            names.insert(name.clone());
        },
        StmtKind::TupleDecl { names: bindings, .. } => {
            insert_all(names, bindings);
        },
        StmtKind::Import(alias) => {
            if let Some(alias) = alias {
                names.insert(alias.clone());
            }
        },
        StmtKind::UserType(name) => {
            names.insert(name.clone());
        },
        StmtKind::Export(exported) => {
            if let Some(name) = exported {
                names.insert(name.clone());
            }
        },
        _ => {},
    }
    assert(names@ =~= start + shadowing_names(*statement));
}

/// An `na` default is refused only where the parameter has no declared
/// type, or is declared `bool` from v6 on: for a parameter declared with
/// any other scalar type, an `na` default known no later than `simple` is
/// kept as it was normalised, with nothing reported.
pub proof fn lemma_na_default_is_refused_only_untyped_or_v6_bool(
    p: FunctionParam,
    e: Expr,
    vt: PineType,
    version: u16,
)
    requires
        p.default_value is Some,
        vt.kind == ValueKind::Na,
        qualifier_rank(vt.qualifier) <= qualifier_rank(Qualifier::Simple),
    ensures
        p.declared_type is None ==> default_verdict(p, Some(vt), version) == DefaultVerdict::NaWithoutType,
        (p.declared_type matches Some(t) && scalar_kind_named(unqualified_type(t@)) matches Some(k) && (version < 6
            || k != ValueKind::Bool)) ==> kept_default(p, Some((e, vt)), version) == Some(e) && default_diagnostic(
            p,
            Some(vt),
            version,
        ) is None,
        (p.declared_type matches Some(t) && scalar_kind_named(unqualified_type(t@)) == Some(ValueKind::Bool)
            && version >= 6) ==> default_verdict(p, Some(vt), version) == DefaultVerdict::NaWithoutType,
{
}

} // verus!
