//! The source spelling of operators, as diagnostics quote them.
use vstd::prelude::*;
use crate::syntax::{UnaryOp, BinaryOp};

verus! {

pub open spec fn unary_label(op: UnaryOp) -> Seq<char> {
    match op {
        UnaryOp::Plus => "+"@,
        UnaryOp::Minus => "-"@,
        UnaryOp::Not => "not"@,
    }
}

pub fn unary_operator_label(op: UnaryOp) -> (r: &'static str)
    ensures
        r@ == unary_label(op),
{
    match op {
        UnaryOp::Plus => "+",
        UnaryOp::Minus => "-",
        UnaryOp::Not => "not",
    }
}

pub open spec fn binary_label(op: BinaryOp) -> Seq<char> {
    match op {
        BinaryOp::Add => "+"@,
        BinaryOp::Sub => "-"@,
        BinaryOp::Mul => "*"@,
        BinaryOp::Div => "/"@,
        BinaryOp::Mod => "%"@,
        BinaryOp::Eq => "=="@,
        BinaryOp::NotEq => "!="@,
        BinaryOp::Gt => ">"@,
        BinaryOp::Gte => ">="@,
        BinaryOp::Lt => "<"@,
        BinaryOp::Lte => "<="@,
        BinaryOp::And => "and"@,
        BinaryOp::Or => "or"@,
    }
}

pub fn binary_operator_label(op: BinaryOp) -> (r: &'static str)
    ensures
        r@ == binary_label(op),
{
    match op {
        BinaryOp::Add => "+",
        BinaryOp::Sub => "-",
        BinaryOp::Mul => "*",
        BinaryOp::Div => "/",
        BinaryOp::Mod => "%",
        BinaryOp::Eq => "==",
        BinaryOp::NotEq => "!=",
        BinaryOp::Gt => ">",
        BinaryOp::Gte => ">=",
        BinaryOp::Lt => "<",
        BinaryOp::Lte => "<=",
        BinaryOp::And => "and",
        BinaryOp::Or => "or",
    }
}

} // verus!
