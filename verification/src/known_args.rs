//! Call arguments as the argument checks see them: the name and span of
//! each, with what is known of its value at compile time.
use vstd::prelude::*;
use crate::syntax::Span;

verus! {

/// What the checks read of a known numeric argument value: whether it is
/// finite, above zero, below zero, a whole number, no larger than the
/// largest `usize`, and above one hundred.  A value that is not a number
/// is neither finite, above zero nor below zero.
#[derive(Clone, Copy, Debug, PartialEq, Eq, Structural)]
pub struct NumberFacts {
    pub finite: bool,
    pub positive: bool,
    pub negative: bool,
    pub integral: bool,
    pub fits_usize: bool,
    pub over_hundred: bool,
}

/// One argument of a call with what is known of its value at compile time:
/// as a number, a string, a bool, or an integer (`Err` for a statically
/// integer value that does not fit in `i64`).
pub struct KnownArg {
    pub name: Option<String>,
    pub span: Span,
    pub number: Option<NumberFacts>,
    pub text: Option<String>,
    pub flag: Option<bool>,
    pub int_value: Option<Result<i64, ()>>,
}

/// A known value that is finite and above zero.
pub open spec fn is_positive(f: NumberFacts) -> bool {
    f.finite && f.positive
}

/// A known value that is finite and not below zero.
pub open spec fn is_non_negative(f: NumberFacts) -> bool {
    f.finite && !f.negative
}

/// A known value that is a finite whole number not below zero.
pub open spec fn is_non_negative_whole(f: NumberFacts) -> bool {
    f.finite && !f.negative && f.integral
}

/// A known value that is a whole number above zero that fits in `usize`.
pub open spec fn is_positive_count(f: NumberFacts) -> bool {
    f.finite && f.positive && f.integral && f.fits_usize
}

/// A known value that is zero or below, infinities included.
pub open spec fn is_at_most_zero(f: NumberFacts) -> bool {
    !f.positive && (f.negative || f.finite)
}

} // verus!
