//! The typing rules of operators, conditions, loop ranges, assignments,
//! ternary branches and history offsets, with the diagnostics they report.
use vstd::prelude::*;
use vstd::string::*;
use crate::diagnostics::{Diagnostic, Severity, diag_view, diag_views};
use crate::dialect::PineDialect;
use crate::operators::{binary_label, binary_operator_label, unary_label, unary_operator_label};
use crate::syntax::{BinaryOp, Span, UnaryOp};
use crate::types::{
    PineType, Qualifier, ValueKind, assignable, can_assign, common_kind, common_kind_of, is_numeric,
    kind_label, later_qualifier, pine_type_name, qualifier_rank, strongest_qualifier, type_label,
    value_kind_name,
};

verus! {

/// A diagnostic as contracts see it.
pub type DiagView = (Severity, Seq<char>, Seq<char>, Span);

/// The kind of an arithmetic result: a division is a float; otherwise a
/// float when either side is a float, and an int when both are ints.
pub open spec fn arithmetic_kind(op: BinaryOp, left: ValueKind, right: ValueKind) -> ValueKind {
    if op == BinaryOp::Div || left == ValueKind::Float || right == ValueKind::Float {
        ValueKind::Float
    } else {
        ValueKind::Int
    }
}

pub fn numeric_result_kind(op: BinaryOp, left: ValueKind, right: ValueKind) -> (r: ValueKind)
    ensures
        r == arithmetic_kind(op, left, right),
{
    if op == BinaryOp::Div || left == ValueKind::Float || right == ValueKind::Float {
        ValueKind::Float
    } else {
        ValueKind::Int
    }
}

/// What an operator expects of its operands, as its diagnostic says.
pub open spec fn binary_expectation(op: BinaryOp) -> Seq<char> {
    match op {
        BinaryOp::Add => "numeric or string operands"@,
        BinaryOp::Eq | BinaryOp::NotEq => "comparable operands"@,
        BinaryOp::And | BinaryOp::Or => "bool operands"@,
        _ => "numeric operands"@,
    }
}

/// The type of `left op right`, when the operands fit the operator.
pub open spec fn binary_result(op: BinaryOp, left: PineType, right: PineType) -> Option<PineType> {
    let q = later_qualifier(left.qualifier, right.qualifier);
    match op {
        BinaryOp::Add => if left.kind == ValueKind::String && right.kind == ValueKind::String {
            Some(PineType { qualifier: q, kind: ValueKind::String })
        } else if is_numeric(left.kind) && is_numeric(right.kind) {
            Some(PineType { qualifier: q, kind: arithmetic_kind(op, left.kind, right.kind) })
        } else {
            None
        },
        BinaryOp::Sub | BinaryOp::Mul | BinaryOp::Div | BinaryOp::Mod => if is_numeric(left.kind)
            && is_numeric(right.kind) {
            Some(PineType { qualifier: q, kind: arithmetic_kind(op, left.kind, right.kind) })
        } else {
            None
        },
        BinaryOp::Eq | BinaryOp::NotEq => if common_kind_of(left.kind, right.kind) is Some {
            Some(PineType { qualifier: q, kind: ValueKind::Bool })
        } else {
            None
        },
        BinaryOp::Gt | BinaryOp::Gte | BinaryOp::Lt | BinaryOp::Lte => if is_numeric(left.kind)
            && is_numeric(right.kind) {
            Some(PineType { qualifier: q, kind: ValueKind::Bool })
        } else {
            None
        },
        BinaryOp::And | BinaryOp::Or => if left.kind == ValueKind::Bool && right.kind == ValueKind::Bool {
            Some(PineType { qualifier: q, kind: ValueKind::Bool })
        } else {
            None
        },
    }
}

pub open spec fn operator_error_diag(
    op: BinaryOp,
    expected: Seq<char>,
    left: PineType,
    right: PineType,
    span: Span,
) -> DiagView {
    (
        Severity::Error,
        "E_OPERATOR_TYPE"@,
        "operator `"@ + binary_label(op) + "` expects "@ + expected + ", got "@ + type_label(left)
            + " and "@ + type_label(right),
        span,
    )
}

pub open spec fn unary_operator_error_diag(op: UnaryOp, expected: Seq<char>, t: PineType, span: Span) -> DiagView {
    (
        Severity::Error,
        "E_OPERATOR_TYPE"@,
        "operator `"@ + unary_label(op) + "` expects "@ + expected + ", got "@ + type_label(t),
        span,
    )
}

/// Reports a binary operator applied to operands it does not take.
pub fn operator_error(
    op: BinaryOp,
    expected: &str,
    left_type: PineType,
    right_type: PineType,
    span: Span,
    diagnostics: &mut Vec<Diagnostic>,
)
    ensures
        diag_views(final(diagnostics)@) == diag_views(old(diagnostics)@).push(
            operator_error_diag(op, expected@, left_type, right_type, span),
        ),
{
    let mut message = String::from_str("operator `");
    message.append(binary_operator_label(op));
    message.append("` expects ");
    message.append(expected);
    message.append(", got ");
    let left = pine_type_name(left_type);
    message.append(left.as_str());
    message.append(" and ");
    let right = pine_type_name(right_type);
    message.append(right.as_str());
    let ghost before = diagnostics@;
    let d = Diagnostic::error("E_OPERATOR_TYPE", message, span);
    diagnostics.push(d);
    assert(diag_views(diagnostics@) =~= diag_views(before).push(diag_view(d)));
}

/// Reports a unary operator applied to an operand it does not take.
pub fn unary_operator_error(
    op: UnaryOp,
    expected: &str,
    expr_type: PineType,
    span: Span,
    diagnostics: &mut Vec<Diagnostic>,
)
    ensures
        diag_views(final(diagnostics)@) == diag_views(old(diagnostics)@).push(
            unary_operator_error_diag(op, expected@, expr_type, span),
        ),
{
    let mut message = String::from_str("operator `");
    message.append(unary_operator_label(op));
    message.append("` expects ");
    message.append(expected);
    message.append(", got ");
    let actual = pine_type_name(expr_type);
    message.append(actual.as_str());
    let ghost before = diagnostics@;
    let d = Diagnostic::error("E_OPERATOR_TYPE", message, span);
    diagnostics.push(d);
    assert(diag_views(diagnostics@) =~= diag_views(before).push(diag_view(d)));
}

/// The type of `left op right`, reporting operands the operator does not
/// take.
pub fn infer_binary(
    op: BinaryOp,
    left_type: PineType,
    right_type: PineType,
    span: Span,
    diagnostics: &mut Vec<Diagnostic>,
) -> (r: Option<PineType>)
    ensures
        r == binary_result(op, left_type, right_type),
        r is Some ==> final(diagnostics)@ == old(diagnostics)@,
        r is None ==> diag_views(final(diagnostics)@) == diag_views(old(diagnostics)@).push(
            operator_error_diag(op, binary_expectation(op), left_type, right_type, span),
        ),
{
    let q = strongest_qualifier(left_type.qualifier, right_type.qualifier);
    let left_numeric = left_type.kind == ValueKind::Int || left_type.kind == ValueKind::Float;
    let right_numeric = right_type.kind == ValueKind::Int || right_type.kind == ValueKind::Float;
    match op {
        BinaryOp::Add => {
            if left_type.kind == ValueKind::String && right_type.kind == ValueKind::String {
                Some(PineType::new(q, ValueKind::String))
            } else if left_numeric && right_numeric {
                Some(PineType::new(q, numeric_result_kind(op, left_type.kind, right_type.kind)))
            } else {
                operator_error(op, "numeric or string operands", left_type, right_type, span, diagnostics);
                None
            }
        },
        BinaryOp::Sub | BinaryOp::Mul | BinaryOp::Div | BinaryOp::Mod => {
            if left_numeric && right_numeric {
                Some(PineType::new(q, numeric_result_kind(op, left_type.kind, right_type.kind)))
            } else {
                operator_error(op, "numeric operands", left_type, right_type, span, diagnostics);
                None
            }
        },
        BinaryOp::Eq | BinaryOp::NotEq => {
            if common_kind(left_type.kind, right_type.kind).is_some() {
                Some(PineType::new(q, ValueKind::Bool))
            } else {
                operator_error(op, "comparable operands", left_type, right_type, span, diagnostics);
                None
            }
        },
        BinaryOp::Gt | BinaryOp::Gte | BinaryOp::Lt | BinaryOp::Lte => {
            if left_numeric && right_numeric {
                Some(PineType::new(q, ValueKind::Bool))
            } else {
                operator_error(op, "numeric operands", left_type, right_type, span, diagnostics);
                None
            }
        },
        BinaryOp::And | BinaryOp::Or => {
            if left_type.kind == ValueKind::Bool && right_type.kind == ValueKind::Bool {
                Some(PineType::new(q, ValueKind::Bool))
            } else {
                operator_error(op, "bool operands", left_type, right_type, span, diagnostics);
                None
            }
        },
    }
}

/// The type of `op expr`: a sign keeps a numeric type, `not` keeps a bool.
pub open spec fn unary_result(op: UnaryOp, t: PineType) -> Option<PineType> {
    match op {
        UnaryOp::Plus | UnaryOp::Minus => if is_numeric(t.kind) {
            Some(t)
        } else {
            None
        },
        UnaryOp::Not => if t.kind == ValueKind::Bool {
            Some(t)
        } else {
            None
        },
    }
}

pub open spec fn unary_expectation(op: UnaryOp) -> Seq<char> {
    match op {
        UnaryOp::Plus | UnaryOp::Minus => "numeric"@,
        UnaryOp::Not => "bool"@,
    }
}

/// The type of `op expr`, reporting an operand the operator does not take.
pub fn infer_unary(op: UnaryOp, expr_type: PineType, span: Span, diagnostics: &mut Vec<Diagnostic>) -> (r:
    Option<PineType>)
    ensures
        r == unary_result(op, expr_type),
        r is Some ==> final(diagnostics)@ == old(diagnostics)@,
        r is None ==> diag_views(final(diagnostics)@) == diag_views(old(diagnostics)@).push(
            unary_operator_error_diag(op, unary_expectation(op), expr_type, span),
        ),
{
    match op {
        UnaryOp::Plus | UnaryOp::Minus => {
            if expr_type.kind == ValueKind::Int || expr_type.kind == ValueKind::Float {
                return Some(expr_type);
            }
        },
        UnaryOp::Not => {
            if expr_type.kind == ValueKind::Bool {
                return Some(expr_type);
            }
        },
    }
    let expected = match op {
        UnaryOp::Plus | UnaryOp::Minus => "numeric",
        UnaryOp::Not => "bool",
    };
    unary_operator_error(op, expected, expr_type, span, diagnostics);
    None
}

pub open spec fn assign_error_diag(name: Seq<char>, target: PineType, value: PineType, span: Span) -> DiagView {
    (
        Severity::Error,
        "E_ASSIGN_TYPE"@,
        "cannot assign "@ + type_label(value) + " to `"@ + name + "` of type "@ + type_label(target),
        span,
    )
}

/// Reports a value that cannot be assigned to the variable `name`.
pub fn validate_assignment(
    name: &str,
    target_type: PineType,
    value_type: PineType,
    span: Span,
    diagnostics: &mut Vec<Diagnostic>,
)
    ensures
        assignable(target_type, value_type) ==> final(diagnostics)@ == old(diagnostics)@,
        !assignable(target_type, value_type) ==> diag_views(final(diagnostics)@) == diag_views(
            old(diagnostics)@,
        ).push(assign_error_diag(name@, target_type, value_type, span)),
{
    if !can_assign(target_type, value_type) {
        let mut message = String::from_str("cannot assign ");
        let value = pine_type_name(value_type);
        message.append(value.as_str());
        message.append(" to `");
        message.append(name);
        message.append("` of type ");
        let target = pine_type_name(target_type);
        message.append(target.as_str());
        let ghost before = diagnostics@;
        let d = Diagnostic::error("E_ASSIGN_TYPE", message, span);
        diagnostics.push(d);
        assert(diag_views(diagnostics@) =~= diag_views(before).push(diag_view(d)));
    }
}

/// How a condition's type is taken.
#[derive(Clone, Copy, Debug, PartialEq, Eq, Structural)]
pub enum ConditionCheck {
    /// The condition is a bool.
    Bool,
    /// Before v6, a numeric or `na` condition is taken as a bool; the caller
    /// records the conversion.
    NumericAsBool,
    /// The condition is reported.
    Rejected,
}

pub open spec fn condition_check(dialect: PineDialect, t: PineType) -> ConditionCheck {
    if t.kind == ValueKind::Bool {
        ConditionCheck::Bool
    } else if dialect != PineDialect::V6 && (is_numeric(t.kind) || t.kind == ValueKind::Na) {
        ConditionCheck::NumericAsBool
    } else {
        ConditionCheck::Rejected
    }
}

pub open spec fn condition_error_diag(t: PineType, span: Span) -> DiagView {
    (Severity::Error, "E_CONDITION_TYPE"@, "condition must be bool, got "@ + type_label(t), span)
}

/// Checks that a condition is a bool, reporting one that is not and cannot
/// be taken as one.
pub fn expect_bool(dialect: PineDialect, pine_type: PineType, span: Span, diagnostics: &mut Vec<Diagnostic>) -> (r:
    ConditionCheck)
    ensures
        r == condition_check(dialect, pine_type),
        r != ConditionCheck::Rejected ==> final(diagnostics)@ == old(diagnostics)@,
        r == ConditionCheck::Rejected ==> diag_views(final(diagnostics)@) == diag_views(
            old(diagnostics)@,
        ).push(condition_error_diag(pine_type, span)),
{
    if pine_type.kind == ValueKind::Bool {
        return ConditionCheck::Bool;
    }
    if dialect != PineDialect::V6 && (pine_type.kind == ValueKind::Int || pine_type.kind == ValueKind::Float
        || pine_type.kind == ValueKind::Na) {
        return ConditionCheck::NumericAsBool;
    }
    let mut message = String::from_str("condition must be bool, got ");
    let actual = pine_type_name(pine_type);
    message.append(actual.as_str());
    let ghost before = diagnostics@;
    let d = Diagnostic::error("E_CONDITION_TYPE", message, span);
    diagnostics.push(d);
    assert(diag_views(diagnostics@) =~= diag_views(before).push(diag_view(d)));
    ConditionCheck::Rejected
}

pub open spec fn loop_range_error_diag(t: PineType, span: Span) -> DiagView {
    (Severity::Error, "E_LOOP_RANGE_TYPE"@, "for loop range must be int, got "@ + type_label(t), span)
}

/// Reports a `for` loop bound that is not an int.
pub fn expect_int(pine_type: PineType, span: Span, diagnostics: &mut Vec<Diagnostic>)
    ensures
        pine_type.kind == ValueKind::Int ==> final(diagnostics)@ == old(diagnostics)@,
        pine_type.kind != ValueKind::Int ==> diag_views(final(diagnostics)@) == diag_views(
            old(diagnostics)@,
        ).push(loop_range_error_diag(pine_type, span)),
{
    if pine_type.kind != ValueKind::Int {
        let mut message = String::from_str("for loop range must be int, got ");
        let actual = pine_type_name(pine_type);
        message.append(actual.as_str());
        let ghost before = diagnostics@;
        let d = Diagnostic::error("E_LOOP_RANGE_TYPE", message, span);
        diagnostics.push(d);
        assert(diag_views(diagnostics@) =~= diag_views(before).push(diag_view(d)));
    }
}

/// Reports a `for` loop step whose value is known to be zero.
pub fn expect_non_zero_loop_step(known_step: Option<i64>, step_span: Span, diagnostics: &mut Vec<Diagnostic>)
    ensures
        known_step != Some(0i64) ==> final(diagnostics)@ == old(diagnostics)@,
        known_step == Some(0i64) ==> diag_views(final(diagnostics)@) == diag_views(old(diagnostics)@).push(
            (Severity::Error, "E_LOOP_STEP"@, "for loop step cannot be zero"@, step_span),
        ),
{
    if let Some(0) = known_step {
        let ghost before = diagnostics@;
        let d = Diagnostic::error("E_LOOP_STEP", String::from_str("for loop step cannot be zero"), step_span);
        diagnostics.push(d);
        assert(diag_views(diagnostics@) =~= diag_views(before).push(diag_view(d)));
    }
}

/// The type of `condition ? then : else`: the kind both branches fit into,
/// known as late as the condition and the branch taken, or both branches
/// when the condition's value is not known.
pub open spec fn branch_result(
    condition: PineType,
    then_type: PineType,
    else_type: PineType,
    condition_value: Option<bool>,
) -> Option<PineType> {
    match common_kind_of(then_type.kind, else_type.kind) {
        None => None,
        Some(kind) => {
            let branch = match condition_value {
                Some(true) => then_type.qualifier,
                Some(false) => else_type.qualifier,
                None => later_qualifier(then_type.qualifier, else_type.qualifier),
            };
            Some(PineType { qualifier: later_qualifier(condition.qualifier, branch), kind })
        },
    }
}

pub open spec fn branch_error_diag(then_type: PineType, else_type: PineType, span: Span) -> DiagView {
    (
        Severity::Error,
        "E_BRANCH_TYPE"@,
        "ternary branches have incompatible types "@ + kind_label(then_type.kind) + " and "@ + kind_label(
            else_type.kind,
        ),
        span,
    )
}

/// The type of a ternary, reporting branches of incompatible kinds.
pub fn merge_branch_types(
    condition_type: PineType,
    then_type: PineType,
    else_type: PineType,
    condition_value: Option<bool>,
    span: Span,
    diagnostics: &mut Vec<Diagnostic>,
) -> (r: Option<PineType>)
    ensures
        r == branch_result(condition_type, then_type, else_type, condition_value),
        r is Some ==> final(diagnostics)@ == old(diagnostics)@,
        r is None ==> diag_views(final(diagnostics)@) == diag_views(old(diagnostics)@).push(
            branch_error_diag(then_type, else_type, span),
        ),
{
    let kind = match common_kind(then_type.kind, else_type.kind) {
        Some(kind) => kind,
        None => {
            let mut message = String::from_str("ternary branches have incompatible types ");
            message.append(value_kind_name(then_type.kind));
            message.append(" and ");
            message.append(value_kind_name(else_type.kind));
            let ghost before = diagnostics@;
            let d = Diagnostic::error("E_BRANCH_TYPE", message, span);
            diagnostics.push(d);
            assert(diag_views(diagnostics@) =~= diag_views(before).push(diag_view(d)));
            return None;
        },
    };
    let branch_qualifier = match condition_value {
        Some(true) => then_type.qualifier,
        Some(false) => else_type.qualifier,
        None => strongest_qualifier(then_type.qualifier, else_type.qualifier),
    };
    Some(PineType::new(strongest_qualifier(condition_type.qualifier, branch_qualifier), kind))
}

/// Why a history offset is not supported.
#[derive(Clone, Copy, Debug, PartialEq, Eq, Structural)]
pub enum HistoryOffsetIssue {
    /// The offset is known and negative.
    Negative,
    /// The offset's type is not known.
    UnknownType,
    /// The offset's type is not one an offset may have.
    UnsupportedType(PineType),
}

/// What is wrong with a history offset, if anything: a known offset must be
/// non-negative; otherwise its type must be an int, or a float known at
/// input or on the first bar.
pub open spec fn history_offset_issue(known_value: Option<i64>, offset_type: Option<PineType>) -> Option<HistoryOffsetIssue> {
    match known_value {
        Some(v) => if v < 0 {
            Some(HistoryOffsetIssue::Negative)
        } else {
            None
        },
        None => match offset_type {
            None => Some(HistoryOffsetIssue::UnknownType),
            Some(t) => if t.kind == ValueKind::Int || (t.kind == ValueKind::Float && (t.qualifier
                == Qualifier::Input || t.qualifier == Qualifier::Simple)) {
                None
            } else {
                Some(HistoryOffsetIssue::UnsupportedType(t))
            },
        },
    }
}

/// Checks a history offset whose value, when known, is `known_value`.
pub fn validate_history_offset(known_value: Option<i64>, offset_type: Option<PineType>) -> (r: Option<
    HistoryOffsetIssue,
>)
    ensures
        r == history_offset_issue(known_value, offset_type),
{
    if let Some(value) = known_value {
        if value < 0 {
            return Some(HistoryOffsetIssue::Negative);
        }
        return None;
    }
    let t = match offset_type {
        Some(t) => t,
        None => return Some(HistoryOffsetIssue::UnknownType),
    };
    if t.kind == ValueKind::Int {
        return None;
    }
    if t.kind == ValueKind::Float && (t.qualifier == Qualifier::Input || t.qualifier == Qualifier::Simple) {
        return None;
    }
    Some(HistoryOffsetIssue::UnsupportedType(t))
}

/// The feature and message under which a history offset issue is reported
/// as unsupported.
pub open spec fn history_offset_report(issue: HistoryOffsetIssue) -> (Seq<char>, Seq<char>) {
    match issue {
        HistoryOffsetIssue::Negative => (
            "negative_history_offset"@,
            "history offsets must be non-negative in the current supported subset"@,
        ),
        HistoryOffsetIssue::UnknownType => (
            "dynamic_history_offset"@,
            "dynamic history offsets require an integer expression in the current supported subset"@,
        ),
        HistoryOffsetIssue::UnsupportedType(t) => (
            "dynamic_history_offset"@,
            "dynamic history offsets require an integer expression in the current supported subset; got "@
                + type_label(t),
        ),
    }
}

pub fn history_offset_issue_report(issue: HistoryOffsetIssue) -> (r: (&'static str, String))
    ensures
        (r.0@, r.1@) == history_offset_report(issue),
{
    match issue {
        HistoryOffsetIssue::Negative => (
            "negative_history_offset",
            String::from_str("history offsets must be non-negative in the current supported subset"),
        ),
        HistoryOffsetIssue::UnknownType => (
            "dynamic_history_offset",
            String::from_str(
                "dynamic history offsets require an integer expression in the current supported subset",
            ),
        ),
        HistoryOffsetIssue::UnsupportedType(t) => {
            let mut message = String::from_str(
                "dynamic history offsets require an integer expression in the current supported subset; got ",
            );
            let actual = pine_type_name(t);
            message.append(actual.as_str());
            ("dynamic_history_offset", message)
        },
    }
}

/// Binary operators type their operands symmetrically: swapping the operands
/// of any operator neither changes whether they fit nor the result's type.
pub proof fn lemma_binary_typing_is_symmetric(op: BinaryOp, left: PineType, right: PineType)
    ensures
        binary_result(op, left, right) == binary_result(op, right, left),
{
}

/// An operator's result is known as late as the later operand; comparisons
/// and logical operators yield a bool, and arithmetic on two ints other than
/// a division yields an int.
pub proof fn lemma_binary_result_shape(op: BinaryOp, left: PineType, right: PineType)
    requires
        binary_result(op, left, right) is Some,
    ensures
        ({
            let r = binary_result(op, left, right)->Some_0;
            &&& r.qualifier == later_qualifier(left.qualifier, right.qualifier)
            &&& qualifier_rank(r.qualifier) >= qualifier_rank(left.qualifier)
            &&& qualifier_rank(r.qualifier) >= qualifier_rank(right.qualifier)
            &&& (op == BinaryOp::Eq || op == BinaryOp::NotEq || op == BinaryOp::Gt || op
                == BinaryOp::Gte || op == BinaryOp::Lt || op == BinaryOp::Lte || op == BinaryOp::And
                || op == BinaryOp::Or) ==> r.kind == ValueKind::Bool
            &&& (op == BinaryOp::Sub || op == BinaryOp::Mul || op == BinaryOp::Mod || op
                == BinaryOp::Add) && left.kind == ValueKind::Int && right.kind == ValueKind::Int
                ==> r.kind == ValueKind::Int
        }),
{
}

/// With the condition's value unknown, a ternary's type does not depend on
/// the order of its branches.
pub proof fn lemma_branch_merge_is_symmetric(condition: PineType, a: PineType, b: PineType)
    ensures
        branch_result(condition, a, b, None) == branch_result(condition, b, a, None),
{
}

/// The kinds of the loop variables of `for [index, ]item in iterable`.
pub struct ForInExprKinds {
    pub index_kind: Option<ValueKind>,
    pub value_kind: ValueKind,
    pub user_type_name: Option<String>,
}

/// The element kind of an array, or the row kind of a typed matrix.
pub open spec fn iterated_kind(k: ValueKind) -> Option<ValueKind> {
    match k {
        ValueKind::IntArray => Some(ValueKind::Int),
        ValueKind::FloatArray => Some(ValueKind::Float),
        ValueKind::BoolArray => Some(ValueKind::Bool),
        ValueKind::StringArray => Some(ValueKind::String),
        ValueKind::ColorArray => Some(ValueKind::Color),
        ValueKind::LabelArray => Some(ValueKind::Label),
        ValueKind::LineArray => Some(ValueKind::Line),
        ValueKind::LineFillArray => Some(ValueKind::LineFill),
        ValueKind::PolylineArray => Some(ValueKind::Polyline),
        ValueKind::BoxArray => Some(ValueKind::Box),
        ValueKind::TableArray => Some(ValueKind::Table),
        ValueKind::ChartPointArray => Some(ValueKind::ChartPoint),
        ValueKind::FloatMatrix => Some(ValueKind::FloatArray),
        ValueKind::IntMatrix => Some(ValueKind::IntArray),
        ValueKind::BoolMatrix => Some(ValueKind::BoolArray),
        ValueKind::StringMatrix => Some(ValueKind::StringArray),
        ValueKind::ColorMatrix => Some(ValueKind::ColorArray),
        _ => None,
    }
}

/// The loop variable kinds of a `for ... in` over a value of type
/// `iterable_type`: an int index and the element of an array, the rows of
/// a matrix, the elements of a user-type array whose type is named
/// `user_type_array_name`, or the keys (and values, with an index) of a map
/// whose key and value kinds are `map_kinds`.
pub open spec fn for_in_kinds(
    iterable_type: PineType,
    has_index: bool,
    user_type_array_name: Option<Seq<char>>,
    map_kinds: Option<(ValueKind, ValueKind)>,
) -> Option<(Option<ValueKind>, ValueKind, Option<Seq<char>>)> {
    let int_index = if has_index { Some(ValueKind::Int) } else { None };
    match iterated_kind(iterable_type.kind) {
        Some(k) => Some((int_index, k, None)),
        None => if iterable_type.kind == ValueKind::UserTypeArray {
            match user_type_array_name {
                Some(n) => Some((int_index, ValueKind::UserType, Some(n))),
                None => None,
            }
        } else if iterable_type.kind == ValueKind::PineMap {
            match map_kinds {
                Some((key, value)) => Some(
                    (if has_index { Some(key) } else { None }, if has_index { value } else { key }, None),
                ),
                None => None,
            }
        } else {
            None
        },
    }
}

pub open spec fn for_in_view(r: Option<ForInExprKinds>) -> Option<(Option<ValueKind>, ValueKind, Option<Seq<char>>)> {
    match r {
        Some(k) => Some(
            (
                k.index_kind,
                k.value_kind,
                match k.user_type_name {
                    Some(n) => Some(n@),
                    None => None,
                },
            ),
        ),
        None => None,
    }
}

fn iterated_kind_of(k: ValueKind) -> (r: Option<ValueKind>)
    ensures
        r == iterated_kind(k),
{
    match k {
        ValueKind::IntArray => Some(ValueKind::Int),
        ValueKind::FloatArray => Some(ValueKind::Float),
        ValueKind::BoolArray => Some(ValueKind::Bool),
        ValueKind::StringArray => Some(ValueKind::String),
        ValueKind::ColorArray => Some(ValueKind::Color),
        ValueKind::LabelArray => Some(ValueKind::Label),
        ValueKind::LineArray => Some(ValueKind::Line),
        ValueKind::LineFillArray => Some(ValueKind::LineFill),
        ValueKind::PolylineArray => Some(ValueKind::Polyline),
        ValueKind::BoxArray => Some(ValueKind::Box),
        ValueKind::TableArray => Some(ValueKind::Table),
        ValueKind::ChartPointArray => Some(ValueKind::ChartPoint),
        ValueKind::FloatMatrix => Some(ValueKind::FloatArray),
        ValueKind::IntMatrix => Some(ValueKind::IntArray),
        ValueKind::BoolMatrix => Some(ValueKind::BoolArray),
        ValueKind::StringMatrix => Some(ValueKind::StringArray),
        ValueKind::ColorMatrix => Some(ValueKind::ColorArray),
        _ => None,
    }
}

/// The loop variable kinds of a `for ... in`; see `for_in_kinds`.
pub fn for_in_expr_kinds(
    iterable_type: PineType,
    has_index: bool,
    user_type_array_name: Option<String>,
    map_kinds: Option<(ValueKind, ValueKind)>,
) -> (r: Option<ForInExprKinds>)
    ensures
        for_in_view(r) == for_in_kinds(
            iterable_type,
            has_index,
            match user_type_array_name {
                Some(n) => Some(n@),
                None => None,
            },
            map_kinds,
        ),
{
    let int_index = if has_index {
        Some(ValueKind::Int)
    } else {
        None
    };
    if let Some(k) = iterated_kind_of(iterable_type.kind) {
        return Some(ForInExprKinds { index_kind: int_index, value_kind: k, user_type_name: None });
    }
    if iterable_type.kind == ValueKind::UserTypeArray {
        return match user_type_array_name {
            Some(n) => Some(ForInExprKinds { index_kind: int_index, value_kind: ValueKind::UserType, user_type_name: Some(n) }),
            None => None,
        };
    }
    if iterable_type.kind == ValueKind::PineMap {
        return match map_kinds {
            Some((key, value)) => Some(
                ForInExprKinds {
                    index_kind: if has_index {
                        Some(key)
                    } else {
                        None
                    },
                    value_kind: if has_index {
                        value
                    } else {
                        key
                    },
                    user_type_name: None,
                },
            ),
            None => None,
        };
    }
    None
}

} // verus!
