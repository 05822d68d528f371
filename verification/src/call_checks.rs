//! Checking call arguments against what built-in parameters admit, and the
//! diagnostics that report a mismatch.
use vstd::prelude::*;
use vstd::string::*;
use crate::accepts::{Accepts, admits, accepts_type, accepts_label, accepts_expected_label};
use crate::diagnostics::{Diagnostic, Severity};
use crate::signatures::{BuiltinSignature, arg_type_for_param, arg_type_for_param_index};
use crate::syntax::{CallArg, Span};
use crate::types::{
    PineType, Qualifier, ValueKind, type_label, pine_type_name, is_numeric_matrix,
    is_numeric_matrix_kind,
};

verus! {

/// A diagnostic of a call argument whose type does not fit.
pub open spec fn is_call_arg_type_error(d: Diagnostic, span: Span) -> bool {
    &&& d.severity == Severity::Error
    &&& d.code@ == "E_CALL_ARG_TYPE"@
    &&& d.span == span
}

pub open spec fn does_not_accept_message(function: Seq<char>, param: Seq<char>, actual: Seq<char>) -> Seq<char> {
    "`"@ + function + "` argument `"@ + param + "` does not accept "@ + actual
}

pub open spec fn expects_message(
    function: Seq<char>,
    param: Seq<char>,
    expected: Seq<char>,
    actual: Seq<char>,
) -> Seq<char> {
    "`"@ + function + "` argument `"@ + param + "` expects "@ + expected + ", got "@ + actual
}

pub open spec fn requires_message(function: Seq<char>, requirement: Seq<char>) -> Seq<char> {
    "`"@ + function + "` requires "@ + requirement
}

fn argument_prefix(function_name: &str, param_name: &str) -> (r: String)
    ensures
        r@ == "`"@ + function_name@ + "` argument `"@ + param_name@,
{
    let mut s = String::from_str("`");
    s.append(function_name);
    s.append("` argument `");
    s.append(param_name);
    s
}

/// `` `f` argument `p` does not accept <type> ``.
pub fn call_arg_type_diagnostic(function_name: &str, param_name: &str, arg_type: PineType, span: Span) -> (r: Diagnostic)
    ensures
        is_call_arg_type_error(r, span),
        r.message@ == does_not_accept_message(function_name@, param_name@, type_label(arg_type)),
{
    let mut message = argument_prefix(function_name, param_name);
    message.append("` does not accept ");
    let actual = pine_type_name(arg_type);
    message.append(actual.as_str());
    Diagnostic::error("E_CALL_ARG_TYPE", message, span)
}

/// `` `f` argument `p` expects <expected>, got <type> ``.
pub fn call_arg_expected_type_diagnostic(
    function_name: &str,
    param_name: &str,
    expected: &str,
    arg_type: PineType,
    span: Span,
) -> (r: Diagnostic)
    ensures
        is_call_arg_type_error(r, span),
        r.message@ == expects_message(function_name@, param_name@, expected@, type_label(arg_type)),
{
    let actual = pine_type_name(arg_type);
    call_arg_expected_label_diagnostic(function_name, param_name, expected, actual.as_str(), span)
}

/// `` `f` argument `p` expects <expected>, got <actual> ``.
pub fn call_arg_expected_label_diagnostic(
    function_name: &str,
    param_name: &str,
    expected: &str,
    actual: &str,
    span: Span,
) -> (r: Diagnostic)
    ensures
        is_call_arg_type_error(r, span),
        r.message@ == expects_message(function_name@, param_name@, expected@, actual@),
{
    let mut message = argument_prefix(function_name, param_name);
    message.append("` expects ");
    message.append(expected);
    message.append(", got ");
    message.append(actual);
    Diagnostic::error("E_CALL_ARG_TYPE", message, span)
}

/// `` `f` requires <requirement> ``.
pub fn call_requirement_diagnostic(function_name: &str, requirement: &str, span: Span) -> (r: Diagnostic)
    ensures
        is_call_arg_type_error(r, span),
        r.message@ == requires_message(function_name@, requirement@),
{
    let mut message = String::from_str("`");
    message.append(function_name);
    message.append("` requires ");
    message.append(requirement);
    Diagnostic::error("E_CALL_ARG_TYPE", message, span)
}

/// The message for an argument of type `t` that `accepts` refuses: what is
/// expected, when the acceptor has a spelling, else what is not accepted.
pub open spec fn refused_arg_message(function: Seq<char>, param: Seq<char>, accepts: Accepts, t: PineType) -> Seq<char> {
    match accepts_label(accepts) {
        Some(expected) => expects_message(function, param, expected, type_label(t)),
        None => does_not_accept_message(function, param, type_label(t)),
    }
}

/// The diagnostic for an argument of type `arg_type` given to a parameter
/// that admits `accepts`, or `None` when the argument fits.
pub fn call_arg_accepts_type_expected_diagnostic(
    function_name: &str,
    param_name: &str,
    accepts: Accepts,
    arg_type: PineType,
    span: Span,
) -> (r: Option<Diagnostic>)
    ensures
        r is None <==> admits(accepts, arg_type),
        r matches Some(d) ==> is_call_arg_type_error(d, span) && d.message@ == refused_arg_message(
            function_name@,
            param_name@,
            accepts,
            arg_type,
        ),
{
    if accepts_type(accepts, arg_type) {
        return None;
    }
    match accepts_expected_label(accepts) {
        Some(expected) => Some(
            call_arg_expected_type_diagnostic(function_name, param_name, expected.as_str(), arg_type, span),
        ),
        None => Some(call_arg_type_diagnostic(function_name, param_name, arg_type, span)),
    }
}

/// The acceptor that an element of a typed matrix must satisfy.
pub open spec fn element_acceptor(k: ValueKind) -> Option<Accepts> {
    match k {
        ValueKind::FloatMatrix => Some(Accepts::NumericCompatible),
        ValueKind::IntMatrix => Some(Accepts::IntCompatible),
        ValueKind::BoolMatrix => Some(Accepts::BoolCompatible),
        ValueKind::StringMatrix => Some(Accepts::StringCompatible),
        ValueKind::ColorMatrix => Some(Accepts::ColorCompatible),
        _ => None,
    }
}

/// The array kind that holds one row or column of a typed matrix.
pub open spec fn element_array_kind(k: ValueKind) -> Option<ValueKind> {
    match k {
        ValueKind::FloatMatrix => Some(ValueKind::FloatArray),
        ValueKind::IntMatrix => Some(ValueKind::IntArray),
        ValueKind::BoolMatrix => Some(ValueKind::BoolArray),
        ValueKind::StringMatrix => Some(ValueKind::StringArray),
        ValueKind::ColorMatrix => Some(ValueKind::ColorArray),
        _ => None,
    }
}

/// Whether `arg_type` fits as an element of a matrix of type
/// `matrix_type`; `None` when the matrix is not a typed matrix.
pub fn accepts_matrix_element_arg(matrix_type: PineType, arg_type: PineType) -> (r: Option<bool>)
    ensures
        r == match element_acceptor(matrix_type.kind) {
            Some(a) => Some(admits(a, arg_type)),
            None => None,
        },
{
    match matrix_type.kind {
        ValueKind::FloatMatrix => Some(accepts_type(Accepts::NumericCompatible, arg_type)),
        ValueKind::IntMatrix => Some(accepts_type(Accepts::IntCompatible, arg_type)),
        ValueKind::BoolMatrix => Some(accepts_type(Accepts::BoolCompatible, arg_type)),
        ValueKind::StringMatrix => Some(accepts_type(Accepts::StringCompatible, arg_type)),
        ValueKind::ColorMatrix => Some(accepts_type(Accepts::ColorCompatible, arg_type)),
        _ => None,
    }
}

/// Whether `arg_type` fits as a row or column of a matrix of type
/// `matrix_type`; `None` when the matrix is not a typed matrix.
pub fn accepts_matrix_element_array_arg(matrix_type: PineType, arg_type: PineType) -> (r: Option<bool>)
    ensures
        r == match element_array_kind(matrix_type.kind) {
            Some(k) => Some(arg_type.kind == k),
            None => None,
        },
{
    match matrix_type.kind {
        ValueKind::FloatMatrix => Some(arg_type.kind == ValueKind::FloatArray),
        ValueKind::IntMatrix => Some(arg_type.kind == ValueKind::IntArray),
        ValueKind::BoolMatrix => Some(arg_type.kind == ValueKind::BoolArray),
        ValueKind::StringMatrix => Some(arg_type.kind == ValueKind::StringArray),
        ValueKind::ColorMatrix => Some(arg_type.kind == ValueKind::ColorArray),
        _ => None,
    }
}

/// How an element of a matrix of type `matrix_type` is expected to be.
pub fn matrix_element_expected_label(matrix_type: PineType) -> (r: Option<&'static str>)
    ensures
        match r {
            Some(l) => element_acceptor(matrix_type.kind) matches Some(a) && accepts_label(a) == Some(l@),
            None => element_acceptor(matrix_type.kind) is None,
        },
{
    match matrix_type.kind {
        ValueKind::FloatMatrix => Some("numeric-compatible"),
        ValueKind::IntMatrix => Some("integer-compatible"),
        ValueKind::BoolMatrix => Some("bool-compatible"),
        ValueKind::StringMatrix => Some("string-compatible"),
        ValueKind::ColorMatrix => Some("color-compatible"),
        _ => None,
    }
}

/// The type expected of a row or column of a matrix of type `matrix_type`.
pub fn matrix_element_array_expected_type(matrix_type: PineType) -> (r: Option<PineType>)
    ensures
        r == match element_array_kind(matrix_type.kind) {
            Some(k) => Some(PineType { qualifier: Qualifier::Simple, kind: k }),
            None => None,
        },
{
    let kind = match matrix_type.kind {
        ValueKind::FloatMatrix => ValueKind::FloatArray,
        ValueKind::IntMatrix => ValueKind::IntArray,
        ValueKind::BoolMatrix => ValueKind::BoolArray,
        ValueKind::StringMatrix => ValueKind::StringArray,
        ValueKind::ColorMatrix => ValueKind::ColorArray,
        _ => return None,
    };
    Some(PineType::new(Qualifier::Simple, kind))
}

/// Whether the argument of a matrix arithmetic built-in may also be a
/// numeric array besides a numeric matrix or a numeric scalar.
#[derive(Clone, Copy, Debug, PartialEq, Eq, Structural)]
pub enum MatrixPairScalarPolicy {
    Numeric,
    NumericOrNumericArray,
}

/// What the argument paired with a matrix counterpart is expected to be.
pub open spec fn matrix_pair_label(counterpart: Option<PineType>, policy: MatrixPairScalarPolicy) -> Option<Seq<char>> {
    match counterpart {
        None => None,
        Some(c) => if !is_numeric_matrix(c.kind) {
            if policy == MatrixPairScalarPolicy::NumericOrNumericArray && admits(Accepts::NumericArray, c) {
                Some("numeric matrix or numeric array"@)
            } else {
                Some("numeric matrix"@)
            }
        } else {
            match policy {
                MatrixPairScalarPolicy::Numeric => Some("numeric matrix or numeric-compatible"@),
                MatrixPairScalarPolicy::NumericOrNumericArray => Some(
                    "numeric matrix, numeric-compatible, or numeric array"@,
                ),
            }
        },
    }
}

pub fn matrix_pair_expected_label(
    signature: &BuiltinSignature,
    args: &[CallArg],
    arg_types: &[Option<PineType>],
    counterpart_param_index: usize,
    scalar_policy: MatrixPairScalarPolicy,
) -> (r: Option<&'static str>)
    requires
        signature.wf(),
    ensures
        match r {
            Some(l) => matrix_pair_label(
                arg_type_for_param(*signature, args@, arg_types@, counterpart_param_index as int),
                scalar_policy,
            ) == Some(l@),
            None => matrix_pair_label(
                arg_type_for_param(*signature, args@, arg_types@, counterpart_param_index as int),
                scalar_policy,
            ) is None,
        },
{
    let counterpart_type = match arg_type_for_param_index(signature, args, arg_types, counterpart_param_index) {
        Some(t) => t,
        None => return None,
    };
    if !is_numeric_matrix_kind(counterpart_type.kind) {
        if scalar_policy == MatrixPairScalarPolicy::NumericOrNumericArray && accepts_type(
            Accepts::NumericArray,
            counterpart_type,
        ) {
            return Some("numeric matrix or numeric array");
        }
        return Some("numeric matrix");
    }
    Some(
        match scalar_policy {
            MatrixPairScalarPolicy::Numeric => "numeric matrix or numeric-compatible",
            MatrixPairScalarPolicy::NumericOrNumericArray => "numeric matrix, numeric-compatible, or numeric array",
        },
    )
}

/// Whether an argument of type `t` fits a parameter that admits `accepts`,
/// taking into account the types of the other arguments of the call for
/// the matrix cross-parameter acceptors.  A constraint that depends on an
/// argument whose type is unknown is taken to hold.
pub open spec fn call_arg_admits(
    sig: BuiltinSignature,
    args: Seq<CallArg>,
    types: Seq<Option<PineType>>,
    accepts: Accepts,
    t: PineType,
) -> bool {
    match accepts {
        Accepts::MatrixElementCompatible(i) => match arg_type_for_param(sig, args, types, i as int) {
            None => true,
            Some(m) => match element_acceptor(m.kind) {
                Some(a) => admits(a, t),
                None => true,
            },
        },
        Accepts::MatrixElementArray(i) => match arg_type_for_param(sig, args, types, i as int) {
            None => true,
            Some(m) => match element_array_kind(m.kind) {
                Some(k) => t.kind == k,
                None => true,
            },
        },
        Accepts::MatrixOrNumericCompatibleWithMatrixCounterpart(i) => is_numeric_matrix(t.kind) || (
        admits(Accepts::NumericCompatible, t) && match arg_type_for_param(sig, args, types, i as int) {
            None => true,
            Some(c) => is_numeric_matrix(c.kind),
        }),
        Accepts::MatrixOrNumericOrNumericArrayCompatibleWithMatrixCounterpart(i) => is_numeric_matrix(
            t.kind,
        ) || match arg_type_for_param(sig, args, types, i as int) {
            None => admits(Accepts::NumericCompatible, t) || admits(Accepts::NumericArray, t),
            Some(c) => if admits(Accepts::NumericArray, t) {
                is_numeric_matrix(c.kind) || admits(Accepts::NumericArray, c)
            } else {
                admits(Accepts::NumericCompatible, t) && is_numeric_matrix(c.kind)
            },
        },
        _ => admits(accepts, t),
    }
}

pub fn call_arg_accepts_type(
    signature: &BuiltinSignature,
    args: &[CallArg],
    arg_types: &[Option<PineType>],
    accepts: Accepts,
    arg_type: PineType,
) -> (r: bool)
    requires
        signature.wf(),
    ensures
        r == call_arg_admits(*signature, args@, arg_types@, accepts, arg_type),
{
    match accepts {
        Accepts::MatrixElementCompatible(matrix_param_index) => {
            let matrix_type = match arg_type_for_param_index(signature, args, arg_types, matrix_param_index) {
                Some(t) => t,
                None => return true,
            };
            match accepts_matrix_element_arg(matrix_type, arg_type) {
                Some(ok) => ok,
                None => true,
            }
        },
        Accepts::MatrixElementArray(matrix_param_index) => {
            let matrix_type = match arg_type_for_param_index(signature, args, arg_types, matrix_param_index) {
                Some(t) => t,
                None => return true,
            };
            match accepts_matrix_element_array_arg(matrix_type, arg_type) {
                Some(ok) => ok,
                None => true,
            }
        },
        Accepts::MatrixOrNumericCompatibleWithMatrixCounterpart(counterpart_param_index) => {
            if is_numeric_matrix_kind(arg_type.kind) {
                return true;
            }
            if !accepts_type(Accepts::NumericCompatible, arg_type) {
                return false;
            }
            match arg_type_for_param_index(signature, args, arg_types, counterpart_param_index) {
                Some(counterpart_type) => is_numeric_matrix_kind(counterpart_type.kind),
                None => true,
            }
        },
        Accepts::MatrixOrNumericOrNumericArrayCompatibleWithMatrixCounterpart(counterpart_param_index) => {
            if is_numeric_matrix_kind(arg_type.kind) {
                return true;
            }
            let counterpart_type = match arg_type_for_param_index(
                signature,
                args,
                arg_types,
                counterpart_param_index,
            ) {
                Some(t) => t,
                None => {
                    return accepts_type(Accepts::NumericCompatible, arg_type) || accepts_type(
                        Accepts::NumericArray,
                        arg_type,
                    )
                },
            };
            if accepts_type(Accepts::NumericArray, arg_type) {
                return is_numeric_matrix_kind(counterpart_type.kind) || accepts_type(
                    Accepts::NumericArray,
                    counterpart_type,
                );
            }
            accepts_type(Accepts::NumericCompatible, arg_type) && is_numeric_matrix_kind(counterpart_type.kind)
        },
        _ => accepts_type(accepts, arg_type),
    }
}

/// The expectation of a matrix cross-parameter acceptor, when the argument
/// it depends on has a known type that determines one.
pub open spec fn cross_param_label(
    sig: BuiltinSignature,
    args: Seq<CallArg>,
    types: Seq<Option<PineType>>,
    accepts: Accepts,
) -> Option<Seq<char>> {
    match accepts {
        Accepts::MatrixElementCompatible(i) => match arg_type_for_param(sig, args, types, i as int) {
            Some(m) => match element_acceptor(m.kind) {
                Some(a) => accepts_label(a),
                None => None,
            },
            None => None,
        },
        Accepts::MatrixElementArray(i) => match arg_type_for_param(sig, args, types, i as int) {
            Some(m) => match element_array_kind(m.kind) {
                Some(k) => Some(type_label(PineType { qualifier: Qualifier::Simple, kind: k })),
                None => None,
            },
            None => None,
        },
        Accepts::MatrixOrNumericCompatibleWithMatrixCounterpart(i) => matrix_pair_label(
            arg_type_for_param(sig, args, types, i as int),
            MatrixPairScalarPolicy::Numeric,
        ),
        Accepts::MatrixOrNumericOrNumericArrayCompatibleWithMatrixCounterpart(i) => matrix_pair_label(
            arg_type_for_param(sig, args, types, i as int),
            MatrixPairScalarPolicy::NumericOrNumericArray,
        ),
        _ => None,
    }
}

/// The diagnostic for an argument refused by a matrix cross-parameter
/// acceptor, spelled with what the other argument makes it expect.
pub fn call_arg_matrix_cross_param_expected_diagnostic(
    signature: &BuiltinSignature,
    args: &[CallArg],
    arg_types: &[Option<PineType>],
    param_name: &str,
    accepts: Accepts,
    arg_type: PineType,
    span: Span,
) -> (r: Option<Diagnostic>)
    requires
        signature.wf(),
    ensures
        r is Some <==> cross_param_label(*signature, args@, arg_types@, accepts) is Some,
        r matches Some(d) ==> is_call_arg_type_error(d, span) && d.message@ == expects_message(
            signature.name@,
            param_name@,
            cross_param_label(*signature, args@, arg_types@, accepts).unwrap(),
            type_label(arg_type),
        ),
{
    let expected: String = match accepts {
        Accepts::MatrixElementCompatible(matrix_param_index) => {
            let matrix_type = match arg_type_for_param_index(signature, args, arg_types, matrix_param_index) {
                Some(t) => t,
                None => return None,
            };
            match matrix_element_expected_label(matrix_type) {
                Some(l) => String::from_str(l),
                None => return None,
            }
        },
        Accepts::MatrixElementArray(matrix_param_index) => {
            let matrix_type = match arg_type_for_param_index(signature, args, arg_types, matrix_param_index) {
                Some(t) => t,
                None => return None,
            };
            match matrix_element_array_expected_type(matrix_type) {
                Some(t) => pine_type_name(t),
                None => return None,
            }
        },
        Accepts::MatrixOrNumericCompatibleWithMatrixCounterpart(counterpart_param_index) => {
            match matrix_pair_expected_label(
                signature,
                args,
                arg_types,
                counterpart_param_index,
                MatrixPairScalarPolicy::Numeric,
            ) {
                Some(l) => String::from_str(l),
                None => return None,
            }
        },
        Accepts::MatrixOrNumericOrNumericArrayCompatibleWithMatrixCounterpart(counterpart_param_index) => {
            match matrix_pair_expected_label(
                signature,
                args,
                arg_types,
                counterpart_param_index,
                MatrixPairScalarPolicy::NumericOrNumericArray,
            ) {
                Some(l) => String::from_str(l),
                None => return None,
            }
        },
        _ => return None,
    };
    Some(
        call_arg_expected_type_diagnostic(
            signature.name.as_str(),
            param_name,
            expected.as_str(),
            arg_type,
            span,
        ),
    )
}

} // verus!
