//! The Pine type vocabulary the analyzer reads: qualifiers, value kinds,
//! qualified types, argument acceptors, and the relations between them.
use vstd::prelude::*;
use vstd::string::*;

verus! {

/// How early a value is known: at compile time, at input time, on the first
/// bar, or on every bar.  The order is `Const < Input < Simple < Series`.
#[derive(Clone, Copy, Debug, PartialEq, Eq, Structural)]
pub enum Qualifier {
    Const,
    Input,
    Simple,
    Series,
}

/// The position of a qualifier in `Const < Input < Simple < Series`.
pub open spec fn qualifier_rank(q: Qualifier) -> int {
    match q {
        Qualifier::Const => 0,
        Qualifier::Input => 1,
        Qualifier::Simple => 2,
        Qualifier::Series => 3,
    }
}

/// The kind of a Pine value, independent of its qualifier.
#[derive(Clone, Copy, Debug, PartialEq, Eq, Structural)]
pub enum ValueKind {
    Int,
    Float,
    Bool,
    String,
    Color,
    Na,
    Void,
    Tuple,
    PineMap,
    UserType,
    UserTypeArray,
    Label,
    Line,
    LineFill,
    Polyline,
    Box,
    Table,
    ChartPoint,
    Plot,
    HLine,
    IntArray,
    FloatArray,
    BoolArray,
    StringArray,
    ColorArray,
    LabelArray,
    LineArray,
    LineFillArray,
    PolylineArray,
    BoxArray,
    TableArray,
    ChartPointArray,
    IntMatrix,
    FloatMatrix,
    BoolMatrix,
    StringMatrix,
    ColorMatrix,
}

/// A qualified Pine type such as `series float`.
#[derive(Clone, Copy, Debug, PartialEq, Eq, Structural)]
pub struct PineType {
    pub qualifier: Qualifier,
    pub kind: ValueKind,
}

impl PineType {
    pub fn new(qualifier: Qualifier, kind: ValueKind) -> (r: PineType)
        ensures
            r.qualifier == qualifier,
            r.kind == kind,
    {
        PineType { qualifier, kind }
    }
}

/// The source name of a qualifier.
pub open spec fn qualifier_label(q: Qualifier) -> Seq<char> {
    match q {
        Qualifier::Const => "const"@,
        Qualifier::Input => "input"@,
        Qualifier::Simple => "simple"@,
        Qualifier::Series => "series"@,
    }
}

pub fn qualifier_name(q: Qualifier) -> (r: &'static str)
    ensures
        r@ == qualifier_label(q),
{
    match q {
        Qualifier::Const => "const",
        Qualifier::Input => "input",
        Qualifier::Simple => "simple",
        Qualifier::Series => "series",
    }
}

/// The source name of a value kind.
pub open spec fn kind_label(k: ValueKind) -> Seq<char> {
    match k {
        ValueKind::Int => "int"@,
        ValueKind::Float => "float"@,
        ValueKind::Bool => "bool"@,
        ValueKind::String => "string"@,
        ValueKind::Color => "color"@,
        ValueKind::Na => "na"@,
        ValueKind::Void => "void"@,
        ValueKind::Tuple => "tuple"@,
        ValueKind::PineMap => "map"@,
        ValueKind::UserType => "object"@,
        ValueKind::UserTypeArray => "array<object>"@,
        ValueKind::Label => "label"@,
        ValueKind::Line => "line"@,
        ValueKind::LineFill => "linefill"@,
        ValueKind::Polyline => "polyline"@,
        ValueKind::Box => "box"@,
        ValueKind::Table => "table"@,
        ValueKind::ChartPoint => "chart.point"@,
        ValueKind::Plot => "plot"@,
        ValueKind::HLine => "hline"@,
        ValueKind::IntArray => "array<int>"@,
        ValueKind::FloatArray => "array<float>"@,
        ValueKind::BoolArray => "array<bool>"@,
        ValueKind::StringArray => "array<string>"@,
        ValueKind::ColorArray => "array<color>"@,
        ValueKind::LabelArray => "array<label>"@,
        ValueKind::LineArray => "array<line>"@,
        ValueKind::LineFillArray => "array<linefill>"@,
        ValueKind::PolylineArray => "array<polyline>"@,
        ValueKind::BoxArray => "array<box>"@,
        ValueKind::TableArray => "array<table>"@,
        ValueKind::ChartPointArray => "array<chart.point>"@,
        ValueKind::IntMatrix => "matrix<int>"@,
        ValueKind::FloatMatrix => "matrix<float>"@,
        ValueKind::BoolMatrix => "matrix<bool>"@,
        ValueKind::StringMatrix => "matrix<string>"@,
        ValueKind::ColorMatrix => "matrix<color>"@,
    }
}

pub fn value_kind_name(k: ValueKind) -> (r: &'static str)
    ensures
        r@ == kind_label(k),
{
    match k {
        ValueKind::Int => "int",
        ValueKind::Float => "float",
        ValueKind::Bool => "bool",
        ValueKind::String => "string",
        ValueKind::Color => "color",
        ValueKind::Na => "na",
        ValueKind::Void => "void",
        ValueKind::Tuple => "tuple",
        ValueKind::PineMap => "map",
        ValueKind::UserType => "object",
        ValueKind::UserTypeArray => "array<object>",
        ValueKind::Label => "label",
        ValueKind::Line => "line",
        ValueKind::LineFill => "linefill",
        ValueKind::Polyline => "polyline",
        ValueKind::Box => "box",
        ValueKind::Table => "table",
        ValueKind::ChartPoint => "chart.point",
        ValueKind::Plot => "plot",
        ValueKind::HLine => "hline",
        ValueKind::IntArray => "array<int>",
        ValueKind::FloatArray => "array<float>",
        ValueKind::BoolArray => "array<bool>",
        ValueKind::StringArray => "array<string>",
        ValueKind::ColorArray => "array<color>",
        ValueKind::LabelArray => "array<label>",
        ValueKind::LineArray => "array<line>",
        ValueKind::LineFillArray => "array<linefill>",
        ValueKind::PolylineArray => "array<polyline>",
        ValueKind::BoxArray => "array<box>",
        ValueKind::TableArray => "array<table>",
        ValueKind::ChartPointArray => "array<chart.point>",
        ValueKind::IntMatrix => "matrix<int>",
        ValueKind::FloatMatrix => "matrix<float>",
        ValueKind::BoolMatrix => "matrix<bool>",
        ValueKind::StringMatrix => "matrix<string>",
        ValueKind::ColorMatrix => "matrix<color>",
    }
}

/// The source spelling of a qualified type, e.g. `series float`.
pub open spec fn type_label(t: PineType) -> Seq<char> {
    qualifier_label(t.qualifier) + " "@ + kind_label(t.kind)
}

pub fn pine_type_name(t: PineType) -> (r: String)
    ensures
        r@ == type_label(t),
{
    let mut s = String::from_str(qualifier_name(t.qualifier));
    s.append(" ");
    s.append(value_kind_name(t.kind));
    s
}

/// The later-known of two qualifiers.
pub open spec fn later_qualifier(a: Qualifier, b: Qualifier) -> Qualifier {
    if qualifier_rank(a) >= qualifier_rank(b) {
        a
    } else {
        b
    }
}

/// The qualifier that is known latest of the two.
pub fn strongest_qualifier(a: Qualifier, b: Qualifier) -> (r: Qualifier)
    ensures
        r == later_qualifier(a, b),
        qualifier_rank(r) >= qualifier_rank(a),
        qualifier_rank(r) >= qualifier_rank(b),
{
    match (a, b) {
        (Qualifier::Series, _) | (_, Qualifier::Series) => Qualifier::Series,
        (Qualifier::Simple, _) | (_, Qualifier::Simple) => Qualifier::Simple,
        (Qualifier::Input, _) | (_, Qualifier::Input) => Qualifier::Input,
        _ => Qualifier::Const,
    }
}

/// Whether `q` is known no later than `bound`.
pub fn qualifier_at_most(q: Qualifier, bound: Qualifier) -> (r: bool)
    ensures
        r == (qualifier_rank(q) <= qualifier_rank(bound)),
{
    match (q, bound) {
        (Qualifier::Const, _) => true,
        (Qualifier::Input, Qualifier::Const) => false,
        (Qualifier::Input, _) => true,
        (Qualifier::Simple, Qualifier::Simple) | (Qualifier::Simple, Qualifier::Series) => true,
        (Qualifier::Simple, _) => false,
        (Qualifier::Series, Qualifier::Series) => true,
        (Qualifier::Series, _) => false,
    }
}

pub open spec fn is_numeric(k: ValueKind) -> bool {
    k == ValueKind::Int || k == ValueKind::Float
}

pub open spec fn is_numeric_matrix(k: ValueKind) -> bool {
    k == ValueKind::IntMatrix || k == ValueKind::FloatMatrix
}

pub open spec fn is_typed_matrix(k: ValueKind) -> bool {
    k == ValueKind::IntMatrix || k == ValueKind::FloatMatrix || k == ValueKind::BoolMatrix
        || k == ValueKind::StringMatrix || k == ValueKind::ColorMatrix
}

pub open spec fn is_array(k: ValueKind) -> bool {
    match k {
        ValueKind::IntArray | ValueKind::FloatArray | ValueKind::BoolArray
        | ValueKind::StringArray | ValueKind::ColorArray | ValueKind::LabelArray
        | ValueKind::LineArray | ValueKind::LineFillArray | ValueKind::PolylineArray
        | ValueKind::BoxArray | ValueKind::TableArray | ValueKind::ChartPointArray
        | ValueKind::UserTypeArray => true,
        _ => false,
    }
}

/// Whether `kind` is a matrix of ints or floats.
pub fn is_numeric_matrix_kind(kind: ValueKind) -> (r: bool)
    ensures
        r == is_numeric_matrix(kind),
{
    match kind {
        ValueKind::IntMatrix | ValueKind::FloatMatrix => true,
        _ => false,
    }
}

/// The kind that both kinds fit into, if any: equal kinds, `int` widened to
/// `float`, or `na` taking the other kind.
pub open spec fn common_kind_of(a: ValueKind, b: ValueKind) -> Option<ValueKind> {
    if a == b {
        Some(a)
    } else if is_numeric(a) && is_numeric(b) {
        Some(ValueKind::Float)
    } else if a == ValueKind::Na {
        Some(b)
    } else if b == ValueKind::Na {
        Some(a)
    } else {
        None
    }
}

pub fn common_kind(a: ValueKind, b: ValueKind) -> (r: Option<ValueKind>)
    ensures
        r == common_kind_of(a, b),
{
    if a == b {
        Some(a)
    } else if (a == ValueKind::Int || a == ValueKind::Float) && (b == ValueKind::Int || b
        == ValueKind::Float) {
        Some(ValueKind::Float)
    } else if a == ValueKind::Na {
        Some(b)
    } else if b == ValueKind::Na {
        Some(a)
    } else {
        None
    }
}

/// A value of type `value` may be stored where `target` is expected: it is
/// known no later than the target, and its kind is the target's kind, an
/// `int` widened to `float`, or `na`.
pub open spec fn assignable(target: PineType, value: PineType) -> bool {
    &&& qualifier_rank(value.qualifier) <= qualifier_rank(target.qualifier)
    &&& (value.kind == target.kind || (target.kind == ValueKind::Float && value.kind
        == ValueKind::Int) || value.kind == ValueKind::Na)
}

pub fn can_assign(target: PineType, value: PineType) -> (r: bool)
    ensures
        r == assignable(target, value),
{
    qualifier_at_most(value.qualifier, target.qualifier) && (value.kind == target.kind || (
    target.kind == ValueKind::Float && value.kind == ValueKind::Int) || value.kind
        == ValueKind::Na)
}

} // verus!
