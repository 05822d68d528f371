//! Types and compile-time values of variables at declaration and on
//! reassignment with `:=`.
use vstd::prelude::*;
use vstd::string::*;
use crate::diagnostics::{Diagnostic, Severity, diag_view, diag_views};
use crate::syntax::Span;
use crate::types::{
    PineType, Qualifier, ValueKind, assignable, can_assign, common_kind, common_kind_of,
    later_qualifier, pine_type_name, qualifier_rank, strongest_qualifier, type_label,
};

verus! {

/// The type a declared variable gets: the declared kind, known as early as
/// the initial value; a bare `na` initial value keeps the declared type.
pub open spec fn declared_type_of(target: PineType, value: PineType) -> PineType {
    if value.kind == ValueKind::Na {
        target
    } else {
        PineType { qualifier: value.qualifier, kind: target.kind }
    }
}

pub fn declared_symbol_type(target_type: PineType, value_type: PineType) -> (r: PineType)
    ensures
        r == declared_type_of(target_type, value_type),
{
    if value_type.kind == ValueKind::Na {
        return target_type;
    }
    PineType::new(value_type.qualifier, target_type.kind)
}

/// Whether a symbol of this type is a compile-time constant of `kind`.
pub open spec fn is_const_of(symbol_type: PineType, kind: ValueKind) -> bool {
    symbol_type.qualifier == Qualifier::Const && symbol_type.kind == kind
}

/// The compile-time integer a symbol carries: kept only for `const int`.
pub fn const_int_symbol_value(symbol_type: PineType, value: Option<i64>) -> (r: Option<i64>)
    ensures
        r == (if is_const_of(symbol_type, ValueKind::Int) { value } else { None }),
{
    if symbol_type.qualifier == Qualifier::Const && symbol_type.kind == ValueKind::Int {
        value
    } else {
        None
    }
}

/// The compile-time string a symbol carries: kept only for `const string`.
pub fn const_string_symbol_value(symbol_type: PineType, value: Option<String>) -> (r: Option<
    String,
>)
    ensures
        r == (if is_const_of(symbol_type, ValueKind::String) { value } else { None }),
{
    if symbol_type.qualifier == Qualifier::Const && symbol_type.kind == ValueKind::String {
        value
    } else {
        None
    }
}

/// The compile-time boolean a symbol carries: kept only for `const bool`.
pub fn const_bool_symbol_value(symbol_type: PineType, value: Option<bool>) -> (r: Option<bool>)
    ensures
        r == (if is_const_of(symbol_type, ValueKind::Bool) { value } else { None }),
{
    if symbol_type.qualifier == Qualifier::Const && symbol_type.kind == ValueKind::Bool {
        value
    } else {
        None
    }
}

/// The compile-time color a symbol carries: kept only for `const color`.
pub fn const_color_symbol_value(symbol_type: PineType, value: Option<u32>) -> (r: Option<u32>)
    ensures
        r == (if is_const_of(symbol_type, ValueKind::Color) { value } else { None }),
{
    if symbol_type.qualifier == Qualifier::Const && symbol_type.kind == ValueKind::Color {
        value
    } else {
        None
    }
}

/// A value may be reassigned to a variable when it is assignable as is, or,
/// when neither side is `na`, assignable to the variable promoted to `series`.
pub open spec fn reassignable(target: PineType, value: PineType) -> bool {
    ||| assignable(target, value)
    ||| (target.kind != ValueKind::Na && value.kind != ValueKind::Na && assignable(
        PineType { qualifier: Qualifier::Series, kind: target.kind },
        value,
    ))
}

pub fn can_reassign(target_type: PineType, value_type: PineType) -> (r: bool)
    ensures
        r == reassignable(target_type, value_type),
{
    if can_assign(target_type, value_type) {
        return true;
    }
    if target_type.kind == ValueKind::Na || value_type.kind == ValueKind::Na {
        return false;
    }
    can_assign(PineType::new(Qualifier::Series, target_type.kind), value_type)
}

/// The kind both fit into, or the variable's own kind when there is none.
pub open spec fn merged_kind(target: ValueKind, value: ValueKind) -> ValueKind {
    match common_kind_of(target, value) {
        Some(k) => k,
        None => target,
    }
}

/// The type of a variable after a reassignment: known as late as the later
/// of the two, of the kind both fit into.
pub fn reassigned_symbol_type(target_type: PineType, value_type: PineType) -> (r: PineType)
    ensures
        r.qualifier == later_qualifier(target_type.qualifier, value_type.qualifier),
        r.kind == merged_kind(target_type.kind, value_type.kind),
{
    let q = strongest_qualifier(target_type.qualifier, value_type.qualifier);
    let k = match common_kind(target_type.kind, value_type.kind) {
        Some(k) => k,
        None => target_type.kind,
    };
    PineType::new(q, k)
}

/// The type of a variable declared as a typed `na` scalar after its first
/// reassignment: it takes the value's qualifier.
pub fn typed_na_scalar_reassigned_symbol_type(target_type: PineType, value_type: PineType) -> (r:
    PineType)
    ensures
        r.qualifier == value_type.qualifier,
        r.kind == merged_kind(target_type.kind, value_type.kind),
{
    let k = match common_kind(target_type.kind, value_type.kind) {
        Some(k) => k,
        None => target_type.kind,
    };
    PineType::new(value_type.qualifier, k)
}

pub open spec fn scalar_assignment_kind(kind: ValueKind) -> bool {
    match kind {
        ValueKind::Int | ValueKind::Float | ValueKind::Bool | ValueKind::String
        | ValueKind::Color | ValueKind::Na => true,
        _ => false,
    }
}

/// Whether a value of this kind is a scalar for the purpose of assignment.
pub fn is_scalar_assignment_kind(kind: ValueKind) -> (r: bool)
    ensures
        r == scalar_assignment_kind(kind),
{
    match kind {
        ValueKind::Int | ValueKind::Float | ValueKind::Bool | ValueKind::String
        | ValueKind::Color | ValueKind::Na => true,
        _ => false,
    }
}

/// Every value that may be assigned to a variable may also be reassigned to
/// it, and a value reassigned to a variable of a non-`na` kind is always
/// accepted by that kind at `series`.
pub proof fn lemma_assignable_is_reassignable(target: PineType, value: PineType)
    ensures
        assignable(target, value) ==> reassignable(target, value),
        reassignable(target, value) && target.kind != ValueKind::Na ==> assignable(
            PineType { qualifier: Qualifier::Series, kind: target.kind },
            value,
        ),
{
}

/// Reassigning never makes a variable known earlier, and a value whose kind
/// fits the variable's leaves that kind widened at most to `float`.
pub proof fn lemma_reassignment_only_widens(target: PineType, value: PineType)
    ensures
        qualifier_rank(later_qualifier(target.qualifier, value.qualifier)) >= qualifier_rank(
            target.qualifier,
        ),
        qualifier_rank(later_qualifier(target.qualifier, value.qualifier)) >= qualifier_rank(
            value.qualifier,
        ),
        value.kind == target.kind || value.kind == ValueKind::Na ==> merged_kind(
            target.kind,
            value.kind,
        ) == target.kind,
        target.kind == ValueKind::Int && value.kind == ValueKind::Float ==> merged_kind(
            target.kind,
            value.kind,
        ) == ValueKind::Float,
{
}

/// Whether a variable keeps its value across bars.
#[derive(Clone, Copy, Debug, PartialEq, Eq, Structural)]
pub enum PersistenceKind {
    /// Recomputed on every bar.
    Transient,
    /// Declared with `var`: keeps its value across bars.
    Var,
}

/// A variable that has a `var` slot, numbered `var_slot_id`, persists.
pub fn persistence_kind_for_slot(var_slot_id: Option<u32>) -> (r: PersistenceKind)
    ensures
        r == (if var_slot_id is Some { PersistenceKind::Var } else { PersistenceKind::Transient }),
{
    if var_slot_id.is_some() {
        PersistenceKind::Var
    } else {
        PersistenceKind::Transient
    }
}

/// The later-known of `q` and every qualifier of `context`, in order.
pub open spec fn latest_in(q: Qualifier, context: Seq<Qualifier>) -> Qualifier
    decreases context.len(),
{
    if context.len() == 0 {
        q
    } else {
        later_qualifier(latest_in(q, context.drop_last()), context.last())
    }
}

/// A scalar assigned inside branches whose conditions are known only as
/// late as `context` is known no earlier than those conditions.
pub open spec fn contextualized(value: PineType, context: Seq<Qualifier>) -> PineType {
    if !scalar_assignment_kind(value.kind) {
        value
    } else {
        PineType { qualifier: latest_in(value.qualifier, context), kind: value.kind }
    }
}

/// The type of a value assigned under the conditions of the enclosing
/// branches, whose qualifiers are `context`.
pub fn assignment_contextualized_type(value_type: PineType, context: &[Qualifier]) -> (r: PineType)
    ensures
        r == contextualized(value_type, context@),
{
    if !is_scalar_assignment_kind(value_type.kind) {
        return value_type;
    }
    let mut q = value_type.qualifier;
    let mut i: usize = 0;
    while i < context.len()
        invariant
            i <= context@.len(),
            q == latest_in(value_type.qualifier, context@.take(i as int)),
        decreases context@.len() - i,
    {
        let next = strongest_qualifier(q, context[i]);
        assert(context@.take(i as int + 1).drop_last() =~= context@.take(i as int));
        q = next;
        i = i + 1;
    }
    assert(context@.take(context@.len() as int) =~= context@);
    PineType::new(q, value_type.kind)
}

/// What is known of the variable a reassignment targets.
#[derive(Clone, Copy, Debug, PartialEq, Eq, Structural)]
pub struct ReassignTarget {
    /// Declared as a typed scalar whose initial value was `na`.
    pub typed_na_scalar: bool,
    /// Declared in Pine v3 as an untyped `na`.
    pub legacy_v3_na_origin: bool,
    /// Such a v3 declaration still waiting for a value to fix its type.
    pub pending_legacy_v3_na: bool,
}

/// The outcome of a reassignment `name := value`.
#[derive(Clone, Copy, Debug, PartialEq, Eq, Structural)]
pub struct Reassignment {
    /// The variable's type afterwards.
    pub symbol_type: PineType,
    /// The value may be reassigned to the variable.
    pub valid: bool,
    /// A pending v3 `na` variable was given a value that cannot fix its type,
    /// and waits no longer.
    pub settles_pending: bool,
}

/// The reassignment of a pending v3 `na` variable with a scalar fixes its type.
pub open spec fn infers_legacy_v3_type(t: ReassignTarget, value: PineType) -> bool {
    t.pending_legacy_v3_na && value.kind != ValueKind::Na && scalar_assignment_kind(value.kind)
}

pub open spec fn fails_legacy_v3_inference(t: ReassignTarget, value: PineType) -> bool {
    t.pending_legacy_v3_na && value.kind != ValueKind::Na && !scalar_assignment_kind(value.kind)
}

/// The outcome of reassigning a value of type `value` to a variable of type
/// `target`: a pending v3 `na` takes the value's type, a typed `na` scalar
/// the value's qualifier, any other variable widens to both.
pub open spec fn reassignment_of(target: PineType, value: PineType, t: ReassignTarget) -> Reassignment {
    let typed = t.typed_na_scalar && value.kind != ValueKind::Na && scalar_assignment_kind(value.kind);
    let v3 = infers_legacy_v3_type(t, value);
    Reassignment {
        symbol_type: if v3 {
            value
        } else if typed {
            PineType { qualifier: value.qualifier, kind: merged_kind(target.kind, value.kind) }
        } else {
            PineType {
                qualifier: later_qualifier(target.qualifier, value.qualifier),
                kind: merged_kind(target.kind, value.kind),
            }
        },
        valid: reassignable(target, value) || v3,
        settles_pending: fails_legacy_v3_inference(t, value),
    }
}

pub open spec fn legacy_v3_na_diag(name: Seq<char>, value: PineType, span: Span) -> (Severity, Seq<char>, Seq<char>, Span) {
    (
        Severity::Error,
        "E_LEGACY_V3_NA_INFERENCE"@,
        "Pine v3 untyped `na` declaration `"@ + name + "` must infer exactly one scalar type; "@ + type_label(value)
            + " is not compatible"@,
        span,
    )
}

pub open spec fn reassign_error_diag(name: Seq<char>, target: PineType, value: PineType, span: Span) -> (Severity, Seq<char>, Seq<char>, Span) {
    (
        Severity::Error,
        "E_ASSIGN_TYPE"@,
        "cannot assign "@ + type_label(value) + " to `"@ + name + "` of type "@ + type_label(target),
        span,
    )
}

/// What a reassignment reports: a v3 `na` variable whose type the value
/// cannot fix, or that the value does not fit; else a value that does not
/// fit the variable.
pub open spec fn reassignment_report(name: Seq<char>, target: PineType, value: PineType, t: ReassignTarget, span: Span) -> Seq<
    (Severity, Seq<char>, Seq<char>, Span),
> {
    let r = reassignment_of(target, value, t);
    if fails_legacy_v3_inference(t, value) || (!r.valid && t.legacy_v3_na_origin) {
        seq![legacy_v3_na_diag(name, value, span)]
    } else if !r.valid {
        seq![reassign_error_diag(name, target, value, span)]
    } else {
        Seq::empty()
    }
}

/// Types the reassignment `name := value` of a variable of type
/// `target_type` with a value of type `value_type` (already put in the
/// context of its branches), reporting what does not fit.
pub fn reassignment_outcome(
    name: &str,
    target_type: PineType,
    value_type: PineType,
    target: ReassignTarget,
    span: Span,
    diagnostics: &mut Vec<Diagnostic>,
) -> (r: Reassignment)
    ensures
        r == reassignment_of(target_type, value_type, target),
        diag_views(final(diagnostics)@) == diag_views(old(diagnostics)@) + reassignment_report(
            name@,
            target_type,
            value_type,
            target,
            span,
        ),
{
    let scalar = is_scalar_assignment_kind(value_type.kind);
    let not_na = value_type.kind != ValueKind::Na;
    let typed = target.typed_na_scalar && not_na && scalar;
    let v3 = target.pending_legacy_v3_na && not_na && scalar;
    let invalid_v3 = target.pending_legacy_v3_na && not_na && !scalar;
    let symbol_type = if v3 {
        value_type
    } else if typed {
        typed_na_scalar_reassigned_symbol_type(target_type, value_type)
    } else {
        reassigned_symbol_type(target_type, value_type)
    };
    let valid = can_reassign(target_type, value_type) || v3;
    let ghost before = diagnostics@;
    if invalid_v3 || (!valid && target.legacy_v3_na_origin) {
        let mut message = String::from_str("Pine v3 untyped `na` declaration `");
        message.append(name);
        message.append("` must infer exactly one scalar type; ");
        let actual = pine_type_name(value_type);
        message.append(actual.as_str());
        message.append(" is not compatible");
        let d = Diagnostic::error("E_LEGACY_V3_NA_INFERENCE", message, span);
        diagnostics.push(d);
        assert(diag_views(diagnostics@) =~= diag_views(before) + seq![diag_view(d)]);
    } else if !valid {
        let mut message = String::from_str("cannot assign ");
        let actual = pine_type_name(value_type);
        message.append(actual.as_str());
        message.append(" to `");
        message.append(name);
        message.append("` of type ");
        let declared = pine_type_name(target_type);
        message.append(declared.as_str());
        let d = Diagnostic::error("E_ASSIGN_TYPE", message, span);
        diagnostics.push(d);
        assert(diag_views(diagnostics@) =~= diag_views(before) + seq![diag_view(d)]);
    } else {
        assert(diag_views(diagnostics@) =~= diag_views(before) + Seq::empty());
    }
    Reassignment { symbol_type, valid, settles_pending: invalid_v3 }
}

} // verus!
