//! Argument acceptors: what a built-in parameter admits, whether a given
//! argument type satisfies it, and how the expectation is spelled.
use vstd::prelude::*;
use vstd::string::*;
use crate::types::{
    Qualifier, ValueKind, PineType, qualifier_rank, qualifier_label, kind_label, type_label,
    qualifier_name, value_kind_name, pine_type_name, qualifier_at_most, is_numeric, is_array,
    is_numeric_matrix, is_typed_matrix, is_numeric_matrix_kind,
};

verus! {

/// The scalar family of a qualifier-bounded parameter.
#[derive(Clone, Copy, Debug, PartialEq, Eq, Structural)]
pub enum ScalarKind {
    Int,
    Float,
    Numeric,
    Bool,
    String,
    Color,
}

/// The qualifier constraint of a qualifier-bounded parameter: exactly one
/// qualifier, or any qualifier known no later than the bound.
#[derive(Clone, Copy, Debug, PartialEq, Eq, Structural)]
pub enum QualifierBound {
    Exactly(Qualifier),
    AtMost(Qualifier),
}

/// A scalar parameter with a qualifier constraint; `compatible` also admits
/// `na`.
#[derive(Clone, Copy, Debug, PartialEq, Eq, Structural)]
pub struct QualifierBoundScalar {
    pub bound: QualifierBound,
    pub scalar: ScalarKind,
    pub compatible: bool,
}

impl QualifierBoundScalar {
    pub fn exact(qualifier: Qualifier, scalar: ScalarKind, compatible: bool) -> (r: Self)
        ensures
            r == (QualifierBoundScalar { bound: QualifierBound::Exactly(qualifier), scalar, compatible }),
    {
        QualifierBoundScalar { bound: QualifierBound::Exactly(qualifier), scalar, compatible }
    }

    pub fn at_most(qualifier: Qualifier, scalar: ScalarKind, compatible: bool) -> (r: Self)
        ensures
            r == (QualifierBoundScalar { bound: QualifierBound::AtMost(qualifier), scalar, compatible }),
    {
        QualifierBoundScalar { bound: QualifierBound::AtMost(qualifier), scalar, compatible }
    }

    /// How the expectation is spelled in a diagnostic, e.g. `simple int`,
    /// `const/input numeric` or `input bool-compatible`.
    pub fn expected_label(&self) -> (r: String)
        ensures
            r@ == bound_scalar_label(*self),
    {
        let mut s = String::from_str(bound_name(self.bound));
        s.append(" ");
        s.append(scalar_name(self.scalar, self.compatible));
        s
    }
}

pub open spec fn bound_label(b: QualifierBound) -> Seq<char> {
    match b {
        QualifierBound::Exactly(q) => qualifier_label(q),
        QualifierBound::AtMost(Qualifier::Input) => "const/input"@,
        QualifierBound::AtMost(q) => qualifier_label(q),
    }
}

pub fn bound_name(b: QualifierBound) -> (r: &'static str)
    ensures
        r@ == bound_label(b),
{
    match b {
        QualifierBound::Exactly(q) => qualifier_name(q),
        QualifierBound::AtMost(Qualifier::Input) => "const/input",
        QualifierBound::AtMost(q) => qualifier_name(q),
    }
}

pub open spec fn scalar_label(s: ScalarKind, compatible: bool) -> Seq<char> {
    match (s, compatible) {
        (ScalarKind::Int, false) => "int"@,
        (ScalarKind::Int, true) => "integer-compatible"@,
        (ScalarKind::Float, false) => "float"@,
        (ScalarKind::Float, true) => "float-compatible"@,
        (ScalarKind::Numeric, false) => "numeric"@,
        (ScalarKind::Numeric, true) => "numeric-compatible"@,
        (ScalarKind::Bool, false) => "bool"@,
        (ScalarKind::Bool, true) => "bool-compatible"@,
        (ScalarKind::String, false) => "string"@,
        (ScalarKind::String, true) => "string-compatible"@,
        (ScalarKind::Color, false) => "color"@,
        (ScalarKind::Color, true) => "color-compatible"@,
    }
}

pub fn scalar_name(s: ScalarKind, compatible: bool) -> (r: &'static str)
    ensures
        r@ == scalar_label(s, compatible),
{
    match (s, compatible) {
        (ScalarKind::Int, false) => "int",
        (ScalarKind::Int, true) => "integer-compatible",
        (ScalarKind::Float, false) => "float",
        (ScalarKind::Float, true) => "float-compatible",
        (ScalarKind::Numeric, false) => "numeric",
        (ScalarKind::Numeric, true) => "numeric-compatible",
        (ScalarKind::Bool, false) => "bool",
        (ScalarKind::Bool, true) => "bool-compatible",
        (ScalarKind::String, false) => "string",
        (ScalarKind::String, true) => "string-compatible",
        (ScalarKind::Color, false) => "color",
        (ScalarKind::Color, true) => "color-compatible",
    }
}

pub open spec fn bound_scalar_label(b: QualifierBoundScalar) -> Seq<char> {
    bound_label(b.bound) + " "@ + scalar_label(b.scalar, b.compatible)
}

/// Whether a kind belongs to a scalar family.
pub open spec fn scalar_admits(s: ScalarKind, k: ValueKind) -> bool {
    match s {
        ScalarKind::Int => k == ValueKind::Int,
        ScalarKind::Float | ScalarKind::Numeric => is_numeric(k),
        ScalarKind::Bool => k == ValueKind::Bool,
        ScalarKind::String => k == ValueKind::String,
        ScalarKind::Color => k == ValueKind::Color,
    }
}

pub open spec fn bound_admits(b: QualifierBound, q: Qualifier) -> bool {
    match b {
        QualifierBound::Exactly(e) => q == e,
        QualifierBound::AtMost(m) => qualifier_rank(q) <= qualifier_rank(m),
    }
}

pub open spec fn bound_scalar_admits(b: QualifierBoundScalar, t: PineType) -> bool {
    bound_admits(b.bound, t.qualifier) && (scalar_admits(b.scalar, t.kind) || (b.compatible
        && t.kind == ValueKind::Na))
}

impl QualifierBoundScalar {
    /// Whether an argument of type `t` satisfies this bound.
    pub fn admits(&self, t: PineType) -> (r: bool)
        ensures
            r == bound_scalar_admits(*self, t),
    {
        let qualifier_ok = match self.bound {
            QualifierBound::Exactly(e) => t.qualifier == e,
            QualifierBound::AtMost(m) => qualifier_at_most(t.qualifier, m),
        };
        let kind_ok = match self.scalar {
            ScalarKind::Int => t.kind == ValueKind::Int,
            ScalarKind::Float | ScalarKind::Numeric => t.kind == ValueKind::Int || t.kind
                == ValueKind::Float,
            ScalarKind::Bool => t.kind == ValueKind::Bool,
            ScalarKind::String => t.kind == ValueKind::String,
            ScalarKind::Color => t.kind == ValueKind::Color,
        };
        qualifier_ok && (kind_ok || (self.compatible && t.kind == ValueKind::Na))
    }
}

/// What a built-in parameter admits.
#[derive(Clone, Copy, Debug, PartialEq, Eq, Structural)]
pub enum Accepts {
    Exact(PineType),
    Kind(ValueKind),
    SeriesFloat,
    SeriesNumeric,
    SeriesNumericOrBool,
    SeriesOrSimpleNumeric,
    SeriesOrSimpleNumericOrBool,
    Numeric,
    NumericCompatible,
    IntCompatible,
    BoolCompatible,
    StringCompatible,
    StringConvertible,
    FormatConvertible,
    CastScalar,
    StringCastScalar,
    ColorCompatible,
    NumericOrColorCompatible,
    LabelCompatible,
    LineCompatible,
    LineFillCompatible,
    PolylineCompatible,
    BoxCompatible,
    TableCompatible,
    ValueWhenSource,
    StringOrIntCompatible,
    ChartPointCompatible,
    PlotOrHLine,
    PineMap,
    Array,
    NumericArray,
    NumericOrBoolArray,
    NumericOrStringArray,
    ScalarArray,
    Matrix,
    NumericMatrix,
    FloatMatrix,
    QualifierBoundScalar(QualifierBoundScalar),
    Tuple,
    InputDefval,
    MatrixElementCompatible(usize),
    MatrixElementArray(usize),
    MatrixOrNumericCompatibleWithMatrixCounterpart(usize),
    MatrixOrNumericOrNumericArrayCompatibleWithMatrixCounterpart(usize),
    SimpleInt,
    SimpleIntCompatible,
    SimpleNumeric,
    SimpleBool,
    SimpleString,
    ConstString,
    ConstBool,
    ConstNumeric,
    AtMostInputNumeric,
    AtMostInputInt,
    AtMostInputString,
    AtMostInputBool,
    AtMostInputColor,
}

/// The qualifier bound that a named bounded acceptor stands for.
pub open spec fn bound_of(a: Accepts) -> Option<QualifierBoundScalar> {
    let at_most = |q: Qualifier, s: ScalarKind, c: bool|
        QualifierBoundScalar { bound: QualifierBound::AtMost(q), scalar: s, compatible: c };
    match a {
        Accepts::QualifierBoundScalar(b) => Some(b),
        Accepts::SimpleInt => Some(at_most(Qualifier::Simple, ScalarKind::Int, false)),
        Accepts::SimpleIntCompatible => Some(at_most(Qualifier::Simple, ScalarKind::Int, true)),
        Accepts::SimpleNumeric => Some(at_most(Qualifier::Simple, ScalarKind::Numeric, false)),
        Accepts::SimpleBool => Some(at_most(Qualifier::Simple, ScalarKind::Bool, false)),
        Accepts::SimpleString => Some(at_most(Qualifier::Simple, ScalarKind::String, false)),
        Accepts::ConstString => Some(at_most(Qualifier::Const, ScalarKind::String, false)),
        Accepts::ConstBool => Some(at_most(Qualifier::Const, ScalarKind::Bool, false)),
        Accepts::ConstNumeric => Some(at_most(Qualifier::Const, ScalarKind::Numeric, false)),
        Accepts::AtMostInputNumeric => Some(at_most(Qualifier::Input, ScalarKind::Numeric, false)),
        Accepts::AtMostInputInt => Some(at_most(Qualifier::Input, ScalarKind::Int, false)),
        Accepts::AtMostInputString => Some(at_most(Qualifier::Input, ScalarKind::String, false)),
        Accepts::AtMostInputBool => Some(at_most(Qualifier::Input, ScalarKind::Bool, false)),
        Accepts::AtMostInputColor => Some(at_most(Qualifier::Input, ScalarKind::Color, false)),
        _ => None,
    }
}

impl Accepts {
    /// The qualifier bound that this acceptor stands for, if it is one.
    pub fn qualifier_bound(&self) -> (r: Option<QualifierBoundScalar>)
        ensures
            r == bound_of(*self),
    {
        match *self {
            Accepts::QualifierBoundScalar(b) => Some(b),
            Accepts::SimpleInt => Some(QualifierBoundScalar::at_most(Qualifier::Simple, ScalarKind::Int, false)),
            Accepts::SimpleIntCompatible => Some(QualifierBoundScalar::at_most(Qualifier::Simple, ScalarKind::Int, true)),
            Accepts::SimpleNumeric => Some(QualifierBoundScalar::at_most(Qualifier::Simple, ScalarKind::Numeric, false)),
            Accepts::SimpleBool => Some(QualifierBoundScalar::at_most(Qualifier::Simple, ScalarKind::Bool, false)),
            Accepts::SimpleString => Some(QualifierBoundScalar::at_most(Qualifier::Simple, ScalarKind::String, false)),
            Accepts::ConstString => Some(QualifierBoundScalar::at_most(Qualifier::Const, ScalarKind::String, false)),
            Accepts::ConstBool => Some(QualifierBoundScalar::at_most(Qualifier::Const, ScalarKind::Bool, false)),
            Accepts::ConstNumeric => Some(QualifierBoundScalar::at_most(Qualifier::Const, ScalarKind::Numeric, false)),
            Accepts::AtMostInputNumeric => Some(QualifierBoundScalar::at_most(Qualifier::Input, ScalarKind::Numeric, false)),
            Accepts::AtMostInputInt => Some(QualifierBoundScalar::at_most(Qualifier::Input, ScalarKind::Int, false)),
            Accepts::AtMostInputString => Some(QualifierBoundScalar::at_most(Qualifier::Input, ScalarKind::String, false)),
            Accepts::AtMostInputBool => Some(QualifierBoundScalar::at_most(Qualifier::Input, ScalarKind::Bool, false)),
            Accepts::AtMostInputColor => Some(QualifierBoundScalar::at_most(Qualifier::Input, ScalarKind::Color, false)),
            _ => None,
        }
    }
}

pub open spec fn is_scalar_value(k: ValueKind) -> bool {
    k == ValueKind::Int || k == ValueKind::Float || k == ValueKind::Bool || k == ValueKind::String
        || k == ValueKind::Color
}

pub open spec fn is_series_or_simple(q: Qualifier) -> bool {
    q == Qualifier::Simple || q == Qualifier::Series
}

/// Whether an argument of type `t` satisfies the acceptor `a` on its own.
/// The matrix cross-parameter acceptors constrain an argument only through
/// the type of another argument, so on their own they admit everything.
pub open spec fn admits(a: Accepts, t: PineType) -> bool {
    let k = t.kind;
    let na = k == ValueKind::Na;
    match a {
        Accepts::Exact(e) => k == e.kind && qualifier_rank(t.qualifier) <= qualifier_rank(e.qualifier),
        Accepts::Kind(e) => k == e,
        Accepts::SeriesFloat => is_numeric(k) || na,
        Accepts::SeriesNumeric => t.qualifier == Qualifier::Series && (is_numeric(k) || na),
        Accepts::SeriesNumericOrBool => t.qualifier == Qualifier::Series && (is_numeric(k) || k
            == ValueKind::Bool || na),
        Accepts::SeriesOrSimpleNumeric => is_series_or_simple(t.qualifier) && (is_numeric(k) || na),
        Accepts::SeriesOrSimpleNumericOrBool => is_series_or_simple(t.qualifier) && (is_numeric(k)
            || k == ValueKind::Bool || na),
        Accepts::Numeric => is_numeric(k),
        Accepts::NumericCompatible => is_numeric(k) || na,
        Accepts::IntCompatible => k == ValueKind::Int || na,
        Accepts::BoolCompatible => k == ValueKind::Bool || na,
        Accepts::StringCompatible => k == ValueKind::String || na,
        Accepts::StringConvertible | Accepts::FormatConvertible => is_scalar_value(k) || na,
        Accepts::CastScalar => is_numeric(k) || k == ValueKind::Bool || na,
        Accepts::StringCastScalar => is_numeric(k) || k == ValueKind::Bool || k == ValueKind::String || na,
        Accepts::ColorCompatible => k == ValueKind::Color || na,
        Accepts::NumericOrColorCompatible => is_numeric(k) || k == ValueKind::Color || na,
        Accepts::LabelCompatible => k == ValueKind::Label || na,
        Accepts::LineCompatible => k == ValueKind::Line || na,
        Accepts::LineFillCompatible => k == ValueKind::LineFill || na,
        Accepts::PolylineCompatible => k == ValueKind::Polyline || na,
        Accepts::BoxCompatible => k == ValueKind::Box || na,
        Accepts::TableCompatible => k == ValueKind::Table || na,
        Accepts::ValueWhenSource => is_numeric(k) || k == ValueKind::Bool || k == ValueKind::Color || na,
        Accepts::StringOrIntCompatible => k == ValueKind::String || k == ValueKind::Int || na,
        Accepts::ChartPointCompatible => k == ValueKind::ChartPoint || na,
        Accepts::PlotOrHLine => k == ValueKind::Plot || k == ValueKind::HLine,
        Accepts::PineMap => k == ValueKind::PineMap,
        Accepts::Array => is_array(k),
        Accepts::NumericArray => k == ValueKind::IntArray || k == ValueKind::FloatArray,
        Accepts::NumericOrBoolArray => k == ValueKind::IntArray || k == ValueKind::FloatArray || k
            == ValueKind::BoolArray,
        Accepts::NumericOrStringArray => k == ValueKind::IntArray || k == ValueKind::FloatArray || k
            == ValueKind::StringArray,
        Accepts::ScalarArray => k == ValueKind::IntArray || k == ValueKind::FloatArray || k
            == ValueKind::BoolArray || k == ValueKind::StringArray || k == ValueKind::ColorArray,
        Accepts::Matrix => is_typed_matrix(k),
        Accepts::NumericMatrix => is_numeric_matrix(k),
        Accepts::FloatMatrix => k == ValueKind::FloatMatrix,
        Accepts::Tuple => k == ValueKind::Tuple,
        Accepts::InputDefval => (t.qualifier == Qualifier::Const && is_scalar_value(k)) || k
            == ValueKind::Float,
        Accepts::MatrixElementCompatible(_)
        | Accepts::MatrixElementArray(_)
        | Accepts::MatrixOrNumericCompatibleWithMatrixCounterpart(_)
        | Accepts::MatrixOrNumericOrNumericArrayCompatibleWithMatrixCounterpart(_) => true,
        _ => bound_scalar_admits(bound_of(a).unwrap(), t),
    }
}

/// Whether an argument of type `t` satisfies the acceptor `a` on its own.
pub fn accepts_type(a: Accepts, t: PineType) -> (r: bool)
    ensures
        r == admits(a, t),
{
    let k = t.kind;
    let num = k == ValueKind::Int || k == ValueKind::Float;
    let na = k == ValueKind::Na;
    let scalar = num || k == ValueKind::Bool || k == ValueKind::String || k == ValueKind::Color;
    let series_or_simple = t.qualifier == Qualifier::Simple || t.qualifier == Qualifier::Series;
    match a {
        Accepts::Exact(e) => k == e.kind && qualifier_at_most(t.qualifier, e.qualifier),
        Accepts::Kind(e) => k == e,
        Accepts::SeriesFloat => num || na,
        Accepts::SeriesNumeric => t.qualifier == Qualifier::Series && (num || na),
        Accepts::SeriesNumericOrBool => t.qualifier == Qualifier::Series && (num || k
            == ValueKind::Bool || na),
        Accepts::SeriesOrSimpleNumeric => series_or_simple && (num || na),
        Accepts::SeriesOrSimpleNumericOrBool => series_or_simple && (num || k == ValueKind::Bool
            || na),
        Accepts::Numeric => num,
        Accepts::NumericCompatible => num || na,
        Accepts::IntCompatible => k == ValueKind::Int || na,
        Accepts::BoolCompatible => k == ValueKind::Bool || na,
        Accepts::StringCompatible => k == ValueKind::String || na,
        Accepts::StringConvertible | Accepts::FormatConvertible => scalar || na,
        Accepts::CastScalar => num || k == ValueKind::Bool || na,
        Accepts::StringCastScalar => num || k == ValueKind::Bool || k == ValueKind::String || na,
        Accepts::ColorCompatible => k == ValueKind::Color || na,
        Accepts::NumericOrColorCompatible => num || k == ValueKind::Color || na,
        Accepts::LabelCompatible => k == ValueKind::Label || na,
        Accepts::LineCompatible => k == ValueKind::Line || na,
        Accepts::LineFillCompatible => k == ValueKind::LineFill || na,
        Accepts::PolylineCompatible => k == ValueKind::Polyline || na,
        Accepts::BoxCompatible => k == ValueKind::Box || na,
        Accepts::TableCompatible => k == ValueKind::Table || na,
        Accepts::ValueWhenSource => num || k == ValueKind::Bool || k == ValueKind::Color || na,
        Accepts::StringOrIntCompatible => k == ValueKind::String || k == ValueKind::Int || na,
        Accepts::ChartPointCompatible => k == ValueKind::ChartPoint || na,
        Accepts::PlotOrHLine => k == ValueKind::Plot || k == ValueKind::HLine,
        Accepts::PineMap => k == ValueKind::PineMap,
        Accepts::Array => match k {
            ValueKind::IntArray | ValueKind::FloatArray | ValueKind::BoolArray
            | ValueKind::StringArray | ValueKind::ColorArray | ValueKind::LabelArray
            | ValueKind::LineArray | ValueKind::LineFillArray | ValueKind::PolylineArray
            | ValueKind::BoxArray | ValueKind::TableArray | ValueKind::ChartPointArray
            | ValueKind::UserTypeArray => true,
            _ => false,
        },
        Accepts::NumericArray => k == ValueKind::IntArray || k == ValueKind::FloatArray,
        Accepts::NumericOrBoolArray => k == ValueKind::IntArray || k == ValueKind::FloatArray || k
            == ValueKind::BoolArray,
        Accepts::NumericOrStringArray => k == ValueKind::IntArray || k == ValueKind::FloatArray || k
            == ValueKind::StringArray,
        Accepts::ScalarArray => k == ValueKind::IntArray || k == ValueKind::FloatArray || k
            == ValueKind::BoolArray || k == ValueKind::StringArray || k == ValueKind::ColorArray,
        Accepts::Matrix => k == ValueKind::IntMatrix || k == ValueKind::FloatMatrix || k
            == ValueKind::BoolMatrix || k == ValueKind::StringMatrix || k == ValueKind::ColorMatrix,
        Accepts::NumericMatrix => is_numeric_matrix_kind(k),
        Accepts::FloatMatrix => k == ValueKind::FloatMatrix,
        Accepts::Tuple => k == ValueKind::Tuple,
        Accepts::InputDefval => (t.qualifier == Qualifier::Const && scalar) || k == ValueKind::Float,
        Accepts::MatrixElementCompatible(_)
        | Accepts::MatrixElementArray(_)
        | Accepts::MatrixOrNumericCompatibleWithMatrixCounterpart(_)
        | Accepts::MatrixOrNumericOrNumericArrayCompatibleWithMatrixCounterpart(_) => true,
        _ => {
            match a.qualifier_bound() {
                Some(b) => b.admits(t),
                None => true,
            }
        },
    }
}

/// How the expectation of an acceptor is spelled in a diagnostic, when it
/// has a spelling of its own.
pub open spec fn accepts_label(a: Accepts) -> Option<Seq<char>> {
    match a {
        Accepts::Exact(expected) => Some(type_label(expected)),
        Accepts::Kind(kind) => Some(kind_label(kind)),
        Accepts::SeriesFloat => Some("series float"@),
        Accepts::SeriesNumeric => Some("series numeric"@),
        Accepts::SeriesNumericOrBool => Some("series numeric or bool"@),
        Accepts::SeriesOrSimpleNumeric => Some("series/simple numeric"@),
        Accepts::SeriesOrSimpleNumericOrBool => Some("series/simple numeric or bool"@),
        Accepts::Numeric => Some("numeric"@),
        Accepts::NumericCompatible => Some("numeric-compatible"@),
        Accepts::IntCompatible => Some("integer-compatible"@),
        Accepts::BoolCompatible => Some("bool-compatible"@),
        Accepts::StringCompatible => Some("string-compatible"@),
        Accepts::StringConvertible | Accepts::FormatConvertible => Some("string-convertible"@),
        Accepts::CastScalar => Some("int/float/bool-compatible"@),
        Accepts::StringCastScalar => Some("int/float/bool/string-compatible"@),
        Accepts::ColorCompatible => Some("color-compatible"@),
        Accepts::NumericOrColorCompatible => Some("numeric/color-compatible"@),
        Accepts::LabelCompatible => Some("label-compatible"@),
        Accepts::LineCompatible => Some("line-compatible"@),
        Accepts::LineFillCompatible => Some("linefill-compatible"@),
        Accepts::PolylineCompatible => Some("polyline-compatible"@),
        Accepts::BoxCompatible => Some("box-compatible"@),
        Accepts::TableCompatible => Some("table-compatible"@),
        Accepts::ValueWhenSource => Some("numeric/bool/color-compatible"@),
        Accepts::StringOrIntCompatible => Some("string/int-compatible"@),
        Accepts::ChartPointCompatible => Some("chart.point-compatible"@),
        Accepts::PlotOrHLine => Some("plot/hline"@),
        Accepts::PineMap => Some("map"@),
        Accepts::Array => Some("array"@),
        Accepts::NumericArray => Some("numeric array"@),
        Accepts::NumericOrBoolArray => Some("numeric/bool array"@),
        Accepts::NumericOrStringArray => Some("numeric/string array"@),
        Accepts::ScalarArray => Some("scalar array"@),
        Accepts::Matrix => Some("matrix"@),
        Accepts::NumericMatrix => Some("numeric matrix"@),
        Accepts::FloatMatrix => Some("matrix<float>"@),
        Accepts::Tuple => Some("tuple"@),
        Accepts::InputDefval => Some("const int/float/bool/string/color or series float"@),
        _ => match bound_of(a) {
            Some(b) => Some(bound_scalar_label(b)),
            None => None,
        },
    }
}

fn owned(s: &str) -> (r: Option<String>)
    ensures
        r matches Some(v) && v@ == s@,
{
    Some(String::from_str(s))
}

/// The spelling of what `accepts` expects, when it has one.
pub fn accepts_expected_label(accepts: Accepts) -> (r: Option<String>)
    ensures
        match r {
            Some(v) => accepts_label(accepts) == Some(v@),
            None => accepts_label(accepts) is None,
        },
{
    match accepts {
        Accepts::Exact(expected) => Some(pine_type_name(expected)),
        Accepts::Kind(kind) => owned(value_kind_name(kind)),
        Accepts::SeriesFloat => owned("series float"),
        Accepts::SeriesNumeric => owned("series numeric"),
        Accepts::SeriesNumericOrBool => owned("series numeric or bool"),
        Accepts::SeriesOrSimpleNumeric => owned("series/simple numeric"),
        Accepts::SeriesOrSimpleNumericOrBool => owned("series/simple numeric or bool"),
        Accepts::Numeric => owned("numeric"),
        Accepts::NumericCompatible => owned("numeric-compatible"),
        Accepts::IntCompatible => owned("integer-compatible"),
        Accepts::BoolCompatible => owned("bool-compatible"),
        Accepts::StringCompatible => owned("string-compatible"),
        Accepts::StringConvertible | Accepts::FormatConvertible => owned("string-convertible"),
        Accepts::CastScalar => owned("int/float/bool-compatible"),
        Accepts::StringCastScalar => owned("int/float/bool/string-compatible"),
        Accepts::ColorCompatible => owned("color-compatible"),
        Accepts::NumericOrColorCompatible => owned("numeric/color-compatible"),
        Accepts::LabelCompatible => owned("label-compatible"),
        Accepts::LineCompatible => owned("line-compatible"),
        Accepts::LineFillCompatible => owned("linefill-compatible"),
        Accepts::PolylineCompatible => owned("polyline-compatible"),
        Accepts::BoxCompatible => owned("box-compatible"),
        Accepts::TableCompatible => owned("table-compatible"),
        Accepts::ValueWhenSource => owned("numeric/bool/color-compatible"),
        Accepts::StringOrIntCompatible => owned("string/int-compatible"),
        Accepts::ChartPointCompatible => owned("chart.point-compatible"),
        Accepts::PlotOrHLine => owned("plot/hline"),
        Accepts::PineMap => owned("map"),
        Accepts::Array => owned("array"),
        Accepts::NumericArray => owned("numeric array"),
        Accepts::NumericOrBoolArray => owned("numeric/bool array"),
        Accepts::NumericOrStringArray => owned("numeric/string array"),
        Accepts::ScalarArray => owned("scalar array"),
        Accepts::Matrix => owned("matrix"),
        Accepts::NumericMatrix => owned("numeric matrix"),
        Accepts::FloatMatrix => owned("matrix<float>"),
        Accepts::Tuple => owned("tuple"),
        Accepts::InputDefval => owned("const int/float/bool/string/color or series float"),
        _ => match accepts.qualifier_bound() {
            Some(b) => Some(b.expected_label()),
            None => None,
        },
    }
}

} // verus!
