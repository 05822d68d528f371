//! Whether the body of a function ends in a value on every path.
use vstd::prelude::*;
use crate::syntax::{Stmt, StmtKind};

verus! {

/// Whether a statement that ends a function body yields the function's
/// value: an expression, a declaration, a reassignment or a loop does; an
/// `if` does when both of its branches end in one (a missing `else` aside).
pub open spec fn stmt_yields(s: Stmt) -> bool
    decreases s,
{
    match s.kind {
        StmtKind::Expr(_) | StmtKind::Decl { .. } | StmtKind::Reassign { .. } | StmtKind::For { .. }
        | StmtKind::ForIn { .. } | StmtKind::While { .. } => true,
        StmtKind::If { then_branch, else_branch, .. } => branch_yields(then_branch@) && (else_branch@.len()
            == 0 || branch_yields(else_branch@)),
        _ => false,
    }
}

/// Whether a branch ends in a statement that yields a value.
pub open spec fn branch_yields(branch: Seq<Stmt>) -> bool
    decreases branch,
{
    branch.len() > 0 && stmt_yields(branch.last())
}

pub fn function_branch_has_return(branch: &[Stmt]) -> (r: bool)
    ensures
        r == branch_yields(branch@),
    decreases branch@,
{
    if branch.len() == 0 {
        return false;
    }
    proof {
        assert(decreases_to!(branch@ => branch@[branch@.len() - 1]));
    }
    function_statement_has_return(&branch[branch.len() - 1])
}

pub fn function_statement_has_return(statement: &Stmt) -> (r: bool)
    ensures
        r == stmt_yields(*statement),
    decreases *statement,
{
    match &statement.kind {
        StmtKind::Expr(_) | StmtKind::Decl { .. } | StmtKind::Reassign { .. } | StmtKind::For { .. }
        | StmtKind::ForIn { .. } | StmtKind::While { .. } => true,
        StmtKind::If { then_branch, else_branch, .. } => function_branch_has_return(then_branch.as_slice())
            && (else_branch.len() == 0 || function_branch_has_return(else_branch.as_slice())),
        _ => false,
    }
}

} // verus!
