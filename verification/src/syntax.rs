//! The syntax tree of a Pine script, as far as the analyzer reads it.
use vstd::prelude::*;

verus! {

/// A source range, in character offsets.
#[derive(Clone, Copy, Debug, PartialEq, Eq, Structural)]
pub struct Span {
    pub start: usize,
    pub end: usize,
}

impl Default for Span {
    fn default() -> (r: Span)
        ensures
            r.start == 0,
            r.end == 0,
    {
        Span { start: 0, end: 0 }
    }
}

/// A literal.  A float literal is held by the bits of its IEEE-754 value.
#[derive(Clone, Debug, PartialEq, Eq)]
pub enum Literal {
    Int(i64),
    Float(u64),
    Bool(bool),
    String(String),
    ColorHex(String),
    Na,
}

#[derive(Clone, Copy, Debug, PartialEq, Eq, Structural)]
pub enum UnaryOp {
    Plus,
    Minus,
    Not,
}

#[derive(Clone, Copy, Debug, PartialEq, Eq, Structural)]
pub enum BinaryOp {
    Add,
    Sub,
    Mul,
    Div,
    Mod,
    Eq,
    NotEq,
    Gt,
    Gte,
    Lt,
    Lte,
    And,
    Or,
}

#[derive(Debug, PartialEq, Eq)]
pub struct Expr {
    pub kind: ExprKind,
    pub span: Span,
}

/// An argument of a call, named (`name = value`) or positional.
#[derive(Debug, PartialEq, Eq)]
pub struct CallArg {
    pub name: Option<String>,
    pub span: Span,
    pub value: Expr,
}

#[derive(Debug, PartialEq, Eq)]
pub enum ExprKind {
    Literal(Literal),
    Identifier(String),
    QualifiedName(Vec<String>),
    Call { callee: Box<Expr>, args: Vec<CallArg> },
    Unary { op: UnaryOp, expr: Box<Expr> },
    Binary { op: BinaryOp, left: Box<Expr>, right: Box<Expr> },
    History { expr: Box<Expr>, offset: Box<Expr> },
    Group(Box<Expr>),
    Ternary { condition: Box<Expr>, then_expr: Box<Expr>, else_expr: Box<Expr> },
    If { condition: Box<Expr>, then_branch: Vec<Stmt>, else_branch: Vec<Stmt> },
    Switch { selector: Option<Box<Expr>>, arms: Vec<SwitchArm> },
    For {
        var: String,
        from: Box<Expr>,
        to: Box<Expr>,
        step: Option<Box<Expr>>,
        body: Vec<Stmt>,
    },
    While { condition: Box<Expr>, body: Vec<Stmt> },
    ForIn { index: Option<String>, item: String, iterable: Box<Expr>, body: Vec<Stmt> },
    Tuple(Vec<Expr>),
}

#[derive(Debug, PartialEq, Eq)]
pub struct SwitchArm {
    pub condition: Option<Expr>,
    pub result: SwitchArmResult,
}

#[derive(Debug, PartialEq, Eq)]
pub enum SwitchArmResult {
    Expr(Expr),
    Block(Vec<Stmt>),
}

#[derive(Debug, PartialEq, Eq)]
pub struct FunctionParam {
    pub name: String,
    pub declared_type: Option<String>,
    pub default_value: Option<Expr>,
    pub span: Span,
}

#[derive(Debug, PartialEq, Eq)]
pub enum FunctionBody {
    Expr(Expr),
    Block(Vec<Stmt>),
}

#[derive(Debug, PartialEq, Eq)]
pub struct MethodDecl {
    pub name: String,
    pub params: Vec<FunctionParam>,
    pub body: FunctionBody,
}

#[derive(Debug, PartialEq, Eq)]
pub struct Stmt {
    pub kind: StmtKind,
    pub span: Span,
}

/// A statement.  An import is held by its alias, if it has one; a library
/// declaration by its title; an export by the name of the constant, function
/// or type it exports, if it exports one of those; a type declaration by its
/// name.
#[derive(Debug, PartialEq, Eq)]
pub enum StmtKind {
    Expr(Expr),
    Decl { name: String, value: Expr },
    Reassign { name: String, value: Expr },
    FieldReassign { receiver: String, field: String, value: Expr },
    TupleDecl { names: Vec<String>, value: Expr },
    ArrayFieldReassign { array: Expr, index: Expr, field: String, value: Expr },
    If { condition: Expr, then_branch: Vec<Stmt>, else_branch: Vec<Stmt> },
    For { var: String, from: Expr, to: Expr, step: Option<Expr>, body: Vec<Stmt> },
    ForIn { index: Option<String>, item: String, iterable: Expr, body: Vec<Stmt> },
    While { condition: Expr, body: Vec<Stmt> },
    Break,
    Continue,
    Function { name: String, params: Vec<FunctionParam>, body: FunctionBody },
    Method(MethodDecl),
    Import(Option<String>),
    Library(String),
    Export(Option<String>),
    UserType(String),
    Unsupported { reason: String },
}

} // verus!
