//! Closed sets of built-in names that the analyzer recognizes, and the
//! lookups from a receiver method to the built-in it stands for.
use vstd::prelude::*;
use vstd::string::*;
use crate::text::{str_eq, starts_with, is_prefix, rsplit_once, has_char};

verus! {

/// Methods that may follow an array-valued call result.
pub open spec fn array_call_result_methods() -> Set<Seq<char>> {
    set![
        "size"@, "get"@, "first"@, "last"@, "copy"@, "slice"@,
        "concat"@, "includes"@, "every"@, "some"@, "indexof"@, "lastindexof"@,
        "binary_search"@, "binary_search_leftmost"@, "binary_search_rightmost"@, "abs"@, "min"@, "max"@,
        "sum"@, "avg"@, "range"@, "median"@, "mode"@, "percentile_nearest_rank"@,
        "percentile_linear_interpolation"@, "percentrank"@, "covariance"@, "standardize"@, "variance"@, "stdev"@,
        "sort_indices"@, "join"@, "clear"@, "reverse"@, "pop"@, "shift"@,
        "remove"@, "push"@, "unshift"@, "insert"@, "set"@, "fill"@,
        "sort"@,
    ]
}

/// Methods that may follow a matrix-valued call result.
pub open spec fn matrix_call_result_methods() -> Set<Seq<char>> {
    set![
        "rows"@, "columns"@, "elements_count"@, "get"@, "set"@, "fill"@,
        "reverse"@, "reshape"@, "add_row"@, "add_col"@, "sort"@, "swap_rows"@,
        "swap_columns"@, "remove_row"@, "remove_col"@, "copy"@, "diff"@, "eigenvectors"@,
        "inv"@, "kron"@, "mult"@, "pinv"@, "pow"@, "submatrix"@,
        "transpose"@, "row"@, "col"@, "eigenvalues"@, "is_square"@, "is_zero"@,
        "is_binary"@, "is_diagonal"@, "is_identity"@, "is_symmetric"@, "is_antisymmetric"@, "is_stochastic"@,
        "sum"@, "avg"@, "min"@, "max"@, "mode"@, "trace"@,
        "det"@, "rank"@,
    ]
}

/// Methods that may follow a map-valued call result.
pub open spec fn map_call_result_methods() -> Set<Seq<char>> {
    set![
        "size"@, "put"@, "clear"@, "remove"@, "put_all"@, "get"@,
        "contains"@, "copy"@, "keys"@, "values"@,
    ]
}

/// Methods that an array receiver supports.
pub open spec fn array_methods() -> Set<Seq<char>> {
    set![
        "size"@, "push"@, "get"@, "set"@, "insert"@, "pop"@,
        "remove"@, "shift"@, "unshift"@, "fill"@, "first"@, "last"@,
        "copy"@, "slice"@, "concat"@, "includes"@, "every"@, "some"@,
        "indexof"@, "lastindexof"@, "binary_search"@, "binary_search_leftmost"@, "binary_search_rightmost"@, "abs"@,
        "min"@, "max"@, "sum"@, "avg"@, "range"@, "median"@,
        "mode"@, "percentile_nearest_rank"@, "percentile_linear_interpolation"@, "percentrank"@, "covariance"@, "standardize"@,
        "variance"@, "stdev"@, "sort"@, "sort_indices"@, "reverse"@, "join"@,
        "clear"@,
    ]
}

/// Methods that a map receiver supports.
pub open spec fn map_methods() -> Set<Seq<char>> {
    set![
        "size"@, "put"@, "get"@, "contains"@, "clear"@, "remove"@,
        "copy"@, "put_all"@, "keys"@, "values"@,
    ]
}

/// The `array.*` built-in that a method on an array-valued call result stands for.
pub fn array_call_result_builtin_name(method_name: &str) -> (r: Option<&'static str>)
    ensures
        r is Some <==> array_call_result_methods().contains(method_name@),
        r matches Some(n) ==> n@ == "array."@ + method_name@,
{
    proof {
        reveal_strlit("array.");
    }
    if str_eq(method_name, "size") {
        proof {
            reveal_strlit("size");
            reveal_strlit("array.size");
            assert("array.size"@ =~= "array."@ + "size"@);
        }
        Some("array.size")
    } else if str_eq(method_name, "get") {
        proof {
            reveal_strlit("get");
            reveal_strlit("array.get");
            assert("array.get"@ =~= "array."@ + "get"@);
        }
        Some("array.get")
    } else if str_eq(method_name, "first") {
        proof {
            reveal_strlit("first");
            reveal_strlit("array.first");
            assert("array.first"@ =~= "array."@ + "first"@);
        }
        Some("array.first")
    } else if str_eq(method_name, "last") {
        proof {
            reveal_strlit("last");
            reveal_strlit("array.last");
            assert("array.last"@ =~= "array."@ + "last"@);
        }
        Some("array.last")
    } else if str_eq(method_name, "copy") {
        proof {
            reveal_strlit("copy");
            reveal_strlit("array.copy");
            assert("array.copy"@ =~= "array."@ + "copy"@);
        }
        Some("array.copy")
    } else if str_eq(method_name, "slice") {
        proof {
            reveal_strlit("slice");
            reveal_strlit("array.slice");
            assert("array.slice"@ =~= "array."@ + "slice"@);
        }
        Some("array.slice")
    } else if str_eq(method_name, "concat") {
        proof {
            reveal_strlit("concat");
            reveal_strlit("array.concat");
            assert("array.concat"@ =~= "array."@ + "concat"@);
        }
        Some("array.concat")
    } else if str_eq(method_name, "includes") {
        proof {
            reveal_strlit("includes");
            reveal_strlit("array.includes");
            assert("array.includes"@ =~= "array."@ + "includes"@);
        }
        Some("array.includes")
    } else if str_eq(method_name, "every") {
        proof {
            reveal_strlit("every");
            reveal_strlit("array.every");
            assert("array.every"@ =~= "array."@ + "every"@);
        }
        Some("array.every")
    } else if str_eq(method_name, "some") {
        proof {
            reveal_strlit("some");
            reveal_strlit("array.some");
            assert("array.some"@ =~= "array."@ + "some"@);
        }
        Some("array.some")
    } else if str_eq(method_name, "indexof") {
        proof {
            reveal_strlit("indexof");
            reveal_strlit("array.indexof");
            assert("array.indexof"@ =~= "array."@ + "indexof"@);
        }
        Some("array.indexof")
    } else if str_eq(method_name, "lastindexof") {
        proof {
            reveal_strlit("lastindexof");
            reveal_strlit("array.lastindexof");
            assert("array.lastindexof"@ =~= "array."@ + "lastindexof"@);
        }
        Some("array.lastindexof")
    } else if str_eq(method_name, "binary_search") {
        proof {
            reveal_strlit("binary_search");
            reveal_strlit("array.binary_search");
            assert("array.binary_search"@ =~= "array."@ + "binary_search"@);
        }
        Some("array.binary_search")
    } else if str_eq(method_name, "binary_search_leftmost") {
        proof {
            reveal_strlit("binary_search_leftmost");
            reveal_strlit("array.binary_search_leftmost");
            assert("array.binary_search_leftmost"@ =~= "array."@ + "binary_search_leftmost"@);
        }
        Some("array.binary_search_leftmost")
    } else if str_eq(method_name, "binary_search_rightmost") {
        proof {
            reveal_strlit("binary_search_rightmost");
            reveal_strlit("array.binary_search_rightmost");
            assert("array.binary_search_rightmost"@ =~= "array."@ + "binary_search_rightmost"@);
        }
        Some("array.binary_search_rightmost")
    } else if str_eq(method_name, "abs") {
        proof {
            reveal_strlit("abs");
            reveal_strlit("array.abs");
            assert("array.abs"@ =~= "array."@ + "abs"@);
        }
        Some("array.abs")
    } else if str_eq(method_name, "min") {
        proof {
            reveal_strlit("min");
            reveal_strlit("array.min");
            assert("array.min"@ =~= "array."@ + "min"@);
        }
        Some("array.min")
    } else if str_eq(method_name, "max") {
        proof {
            reveal_strlit("max");
            reveal_strlit("array.max");
            assert("array.max"@ =~= "array."@ + "max"@);
        }
        Some("array.max")
    } else if str_eq(method_name, "sum") {
        proof {
            reveal_strlit("sum");
            reveal_strlit("array.sum");
            assert("array.sum"@ =~= "array."@ + "sum"@);
        }
        Some("array.sum")
    } else if str_eq(method_name, "avg") {
        proof {
            reveal_strlit("avg");
            reveal_strlit("array.avg");
            assert("array.avg"@ =~= "array."@ + "avg"@);
        }
        Some("array.avg")
    } else if str_eq(method_name, "range") {
        proof {
            reveal_strlit("range");
            reveal_strlit("array.range");
            assert("array.range"@ =~= "array."@ + "range"@);
        }
        Some("array.range")
    } else if str_eq(method_name, "median") {
        proof {
            reveal_strlit("median");
            reveal_strlit("array.median");
            assert("array.median"@ =~= "array."@ + "median"@);
        }
        Some("array.median")
    } else if str_eq(method_name, "mode") {
        proof {
            reveal_strlit("mode");
            reveal_strlit("array.mode");
            assert("array.mode"@ =~= "array."@ + "mode"@);
        }
        Some("array.mode")
    } else if str_eq(method_name, "percentile_nearest_rank") {
        proof {
            reveal_strlit("percentile_nearest_rank");
            reveal_strlit("array.percentile_nearest_rank");
            assert("array.percentile_nearest_rank"@ =~= "array."@ + "percentile_nearest_rank"@);
        }
        Some("array.percentile_nearest_rank")
    } else if str_eq(method_name, "percentile_linear_interpolation") {
        proof {
            reveal_strlit("percentile_linear_interpolation");
            reveal_strlit("array.percentile_linear_interpolation");
            assert("array.percentile_linear_interpolation"@ =~= "array."@ + "percentile_linear_interpolation"@);
        }
        Some("array.percentile_linear_interpolation")
    } else if str_eq(method_name, "percentrank") {
        proof {
            reveal_strlit("percentrank");
            reveal_strlit("array.percentrank");
            assert("array.percentrank"@ =~= "array."@ + "percentrank"@);
        }
        Some("array.percentrank")
    } else if str_eq(method_name, "covariance") {
        proof {
            reveal_strlit("covariance");
            reveal_strlit("array.covariance");
            assert("array.covariance"@ =~= "array."@ + "covariance"@);
        }
        Some("array.covariance")
    } else if str_eq(method_name, "standardize") {
        proof {
            reveal_strlit("standardize");
            reveal_strlit("array.standardize");
            assert("array.standardize"@ =~= "array."@ + "standardize"@);
        }
        Some("array.standardize")
    } else if str_eq(method_name, "variance") {
        proof {
            reveal_strlit("variance");
            reveal_strlit("array.variance");
            assert("array.variance"@ =~= "array."@ + "variance"@);
        }
        Some("array.variance")
    } else if str_eq(method_name, "stdev") {
        proof {
            reveal_strlit("stdev");
            reveal_strlit("array.stdev");
            assert("array.stdev"@ =~= "array."@ + "stdev"@);
        }
        Some("array.stdev")
    } else if str_eq(method_name, "sort_indices") {
        proof {
            reveal_strlit("sort_indices");
            reveal_strlit("array.sort_indices");
            assert("array.sort_indices"@ =~= "array."@ + "sort_indices"@);
        }
        Some("array.sort_indices")
    } else if str_eq(method_name, "join") {
        proof {
            reveal_strlit("join");
            reveal_strlit("array.join");
            assert("array.join"@ =~= "array."@ + "join"@);
        }
        Some("array.join")
    } else if str_eq(method_name, "clear") {
        proof {
            reveal_strlit("clear");
            reveal_strlit("array.clear");
            assert("array.clear"@ =~= "array."@ + "clear"@);
        }
        Some("array.clear")
    } else if str_eq(method_name, "reverse") {
        proof {
            reveal_strlit("reverse");
            reveal_strlit("array.reverse");
            assert("array.reverse"@ =~= "array."@ + "reverse"@);
        }
        Some("array.reverse")
    } else if str_eq(method_name, "pop") {
        proof {
            reveal_strlit("pop");
            reveal_strlit("array.pop");
            assert("array.pop"@ =~= "array."@ + "pop"@);
        }
        Some("array.pop")
    } else if str_eq(method_name, "shift") {
        proof {
            reveal_strlit("shift");
            reveal_strlit("array.shift");
            assert("array.shift"@ =~= "array."@ + "shift"@);
        }
        Some("array.shift")
    } else if str_eq(method_name, "remove") {
        proof {
            reveal_strlit("remove");
            reveal_strlit("array.remove");
            assert("array.remove"@ =~= "array."@ + "remove"@);
        }
        Some("array.remove")
    } else if str_eq(method_name, "push") {
        proof {
            reveal_strlit("push");
            reveal_strlit("array.push");
            assert("array.push"@ =~= "array."@ + "push"@);
        }
        Some("array.push")
    } else if str_eq(method_name, "unshift") {
        proof {
            reveal_strlit("unshift");
            reveal_strlit("array.unshift");
            assert("array.unshift"@ =~= "array."@ + "unshift"@);
        }
        Some("array.unshift")
    } else if str_eq(method_name, "insert") {
        proof {
            reveal_strlit("insert");
            reveal_strlit("array.insert");
            assert("array.insert"@ =~= "array."@ + "insert"@);
        }
        Some("array.insert")
    } else if str_eq(method_name, "set") {
        proof {
            reveal_strlit("set");
            reveal_strlit("array.set");
            assert("array.set"@ =~= "array."@ + "set"@);
        }
        Some("array.set")
    } else if str_eq(method_name, "fill") {
        proof {
            reveal_strlit("fill");
            reveal_strlit("array.fill");
            assert("array.fill"@ =~= "array."@ + "fill"@);
        }
        Some("array.fill")
    } else if str_eq(method_name, "sort") {
        proof {
            reveal_strlit("sort");
            reveal_strlit("array.sort");
            assert("array.sort"@ =~= "array."@ + "sort"@);
        }
        Some("array.sort")
    } else {
        None
    }
}

/// The `matrix.*` built-in that a method on a matrix-valued call result stands for.
pub fn matrix_call_result_builtin_name(method_name: &str) -> (r: Option<&'static str>)
    ensures
        r is Some <==> matrix_call_result_methods().contains(method_name@),
        r matches Some(n) ==> n@ == "matrix."@ + method_name@,
{
    proof {
        reveal_strlit("matrix.");
    }
    if str_eq(method_name, "rows") {
        proof {
            reveal_strlit("rows");
            reveal_strlit("matrix.rows");
            assert("matrix.rows"@ =~= "matrix."@ + "rows"@);
        }
        Some("matrix.rows")
    } else if str_eq(method_name, "columns") {
        proof {
            reveal_strlit("columns");
            reveal_strlit("matrix.columns");
            assert("matrix.columns"@ =~= "matrix."@ + "columns"@);
        }
        Some("matrix.columns")
    } else if str_eq(method_name, "elements_count") {
        proof {
            reveal_strlit("elements_count");
            reveal_strlit("matrix.elements_count");
            assert("matrix.elements_count"@ =~= "matrix."@ + "elements_count"@);
        }
        Some("matrix.elements_count")
    } else if str_eq(method_name, "get") {
        proof {
            reveal_strlit("get");
            reveal_strlit("matrix.get");
            assert("matrix.get"@ =~= "matrix."@ + "get"@);
        }
        Some("matrix.get")
    } else if str_eq(method_name, "set") {
        proof {
            reveal_strlit("set");
            reveal_strlit("matrix.set");
            assert("matrix.set"@ =~= "matrix."@ + "set"@);
        }
        Some("matrix.set")
    } else if str_eq(method_name, "fill") {
        proof {
            reveal_strlit("fill");
            reveal_strlit("matrix.fill");
            assert("matrix.fill"@ =~= "matrix."@ + "fill"@);
        }
        Some("matrix.fill")
    } else if str_eq(method_name, "reverse") {
        proof {
            reveal_strlit("reverse");
            reveal_strlit("matrix.reverse");
            assert("matrix.reverse"@ =~= "matrix."@ + "reverse"@);
        }
        Some("matrix.reverse")
    } else if str_eq(method_name, "reshape") {
        proof {
            reveal_strlit("reshape");
            reveal_strlit("matrix.reshape");
            assert("matrix.reshape"@ =~= "matrix."@ + "reshape"@);
        }
        Some("matrix.reshape")
    } else if str_eq(method_name, "add_row") {
        proof {
            reveal_strlit("add_row");
            reveal_strlit("matrix.add_row");
            assert("matrix.add_row"@ =~= "matrix."@ + "add_row"@);
        }
        Some("matrix.add_row")
    } else if str_eq(method_name, "add_col") {
        proof {
            reveal_strlit("add_col");
            reveal_strlit("matrix.add_col");
            assert("matrix.add_col"@ =~= "matrix."@ + "add_col"@);
        }
        Some("matrix.add_col")
    } else if str_eq(method_name, "sort") {
        proof {
            reveal_strlit("sort");
            reveal_strlit("matrix.sort");
            assert("matrix.sort"@ =~= "matrix."@ + "sort"@);
        }
        Some("matrix.sort")
    } else if str_eq(method_name, "swap_rows") {
        proof {
            reveal_strlit("swap_rows");
            reveal_strlit("matrix.swap_rows");
            assert("matrix.swap_rows"@ =~= "matrix."@ + "swap_rows"@);
        }
        Some("matrix.swap_rows")
    } else if str_eq(method_name, "swap_columns") {
        proof {
            reveal_strlit("swap_columns");
            reveal_strlit("matrix.swap_columns");
            assert("matrix.swap_columns"@ =~= "matrix."@ + "swap_columns"@);
        }
        Some("matrix.swap_columns")
    } else if str_eq(method_name, "remove_row") {
        proof {
            reveal_strlit("remove_row");
            reveal_strlit("matrix.remove_row");
            assert("matrix.remove_row"@ =~= "matrix."@ + "remove_row"@);
        }
        Some("matrix.remove_row")
    } else if str_eq(method_name, "remove_col") {
        proof {
            reveal_strlit("remove_col");
            reveal_strlit("matrix.remove_col");
            assert("matrix.remove_col"@ =~= "matrix."@ + "remove_col"@);
        }
        Some("matrix.remove_col")
    } else if str_eq(method_name, "copy") {
        proof {
            reveal_strlit("copy");
            reveal_strlit("matrix.copy");
            assert("matrix.copy"@ =~= "matrix."@ + "copy"@);
        }
        Some("matrix.copy")
    } else if str_eq(method_name, "diff") {
        proof {
            reveal_strlit("diff");
            reveal_strlit("matrix.diff");
            assert("matrix.diff"@ =~= "matrix."@ + "diff"@);
        }
        Some("matrix.diff")
    } else if str_eq(method_name, "eigenvectors") {
        proof {
            reveal_strlit("eigenvectors");
            reveal_strlit("matrix.eigenvectors");
            assert("matrix.eigenvectors"@ =~= "matrix."@ + "eigenvectors"@);
        }
        Some("matrix.eigenvectors")
    } else if str_eq(method_name, "inv") {
        proof {
            reveal_strlit("inv");
            reveal_strlit("matrix.inv");
            assert("matrix.inv"@ =~= "matrix."@ + "inv"@);
        }
        Some("matrix.inv")
    } else if str_eq(method_name, "kron") {
        proof {
            reveal_strlit("kron");
            reveal_strlit("matrix.kron");
            assert("matrix.kron"@ =~= "matrix."@ + "kron"@);
        }
        Some("matrix.kron")
    } else if str_eq(method_name, "mult") {
        proof {
            reveal_strlit("mult");
            reveal_strlit("matrix.mult");
            assert("matrix.mult"@ =~= "matrix."@ + "mult"@);
        }
        Some("matrix.mult")
    } else if str_eq(method_name, "pinv") {
        proof {
            reveal_strlit("pinv");
            reveal_strlit("matrix.pinv");
            assert("matrix.pinv"@ =~= "matrix."@ + "pinv"@);
        }
        Some("matrix.pinv")
    } else if str_eq(method_name, "pow") {
        proof {
            reveal_strlit("pow");
            reveal_strlit("matrix.pow");
            assert("matrix.pow"@ =~= "matrix."@ + "pow"@);
        }
        Some("matrix.pow")
    } else if str_eq(method_name, "submatrix") {
        proof {
            reveal_strlit("submatrix");
            reveal_strlit("matrix.submatrix");
            assert("matrix.submatrix"@ =~= "matrix."@ + "submatrix"@);
        }
        Some("matrix.submatrix")
    } else if str_eq(method_name, "transpose") {
        proof {
            reveal_strlit("transpose");
            reveal_strlit("matrix.transpose");
            assert("matrix.transpose"@ =~= "matrix."@ + "transpose"@);
        }
        Some("matrix.transpose")
    } else if str_eq(method_name, "row") {
        proof {
            reveal_strlit("row");
            reveal_strlit("matrix.row");
            assert("matrix.row"@ =~= "matrix."@ + "row"@);
        }
        Some("matrix.row")
    } else if str_eq(method_name, "col") {
        proof {
            reveal_strlit("col");
            reveal_strlit("matrix.col");
            assert("matrix.col"@ =~= "matrix."@ + "col"@);
        }
        Some("matrix.col")
    } else if str_eq(method_name, "eigenvalues") {
        proof {
            reveal_strlit("eigenvalues");
            reveal_strlit("matrix.eigenvalues");
            assert("matrix.eigenvalues"@ =~= "matrix."@ + "eigenvalues"@);
        }
        Some("matrix.eigenvalues")
    } else if str_eq(method_name, "is_square") {
        proof {
            reveal_strlit("is_square");
            reveal_strlit("matrix.is_square");
            assert("matrix.is_square"@ =~= "matrix."@ + "is_square"@);
        }
        Some("matrix.is_square")
    } else if str_eq(method_name, "is_zero") {
        proof {
            reveal_strlit("is_zero");
            reveal_strlit("matrix.is_zero");
            assert("matrix.is_zero"@ =~= "matrix."@ + "is_zero"@);
        }
        Some("matrix.is_zero")
    } else if str_eq(method_name, "is_binary") {
        proof {
            reveal_strlit("is_binary");
            reveal_strlit("matrix.is_binary");
            assert("matrix.is_binary"@ =~= "matrix."@ + "is_binary"@);
        }
        Some("matrix.is_binary")
    } else if str_eq(method_name, "is_diagonal") {
        proof {
            reveal_strlit("is_diagonal");
            reveal_strlit("matrix.is_diagonal");
            assert("matrix.is_diagonal"@ =~= "matrix."@ + "is_diagonal"@);
        }
        Some("matrix.is_diagonal")
    } else if str_eq(method_name, "is_identity") {
        proof {
            reveal_strlit("is_identity");
            reveal_strlit("matrix.is_identity");
            assert("matrix.is_identity"@ =~= "matrix."@ + "is_identity"@);
        }
        Some("matrix.is_identity")
    } else if str_eq(method_name, "is_symmetric") {
        proof {
            reveal_strlit("is_symmetric");
            reveal_strlit("matrix.is_symmetric");
            assert("matrix.is_symmetric"@ =~= "matrix."@ + "is_symmetric"@);
        }
        Some("matrix.is_symmetric")
    } else if str_eq(method_name, "is_antisymmetric") {
        proof {
            reveal_strlit("is_antisymmetric");
            reveal_strlit("matrix.is_antisymmetric");
            assert("matrix.is_antisymmetric"@ =~= "matrix."@ + "is_antisymmetric"@);
        }
        Some("matrix.is_antisymmetric")
    } else if str_eq(method_name, "is_stochastic") {
        proof {
            reveal_strlit("is_stochastic");
            reveal_strlit("matrix.is_stochastic");
            assert("matrix.is_stochastic"@ =~= "matrix."@ + "is_stochastic"@);
        }
        Some("matrix.is_stochastic")
    } else if str_eq(method_name, "sum") {
        proof {
            reveal_strlit("sum");
            reveal_strlit("matrix.sum");
            assert("matrix.sum"@ =~= "matrix."@ + "sum"@);
        }
        Some("matrix.sum")
    } else if str_eq(method_name, "avg") {
        proof {
            reveal_strlit("avg");
            reveal_strlit("matrix.avg");
            assert("matrix.avg"@ =~= "matrix."@ + "avg"@);
        }
        Some("matrix.avg")
    } else if str_eq(method_name, "min") {
        proof {
            reveal_strlit("min");
            reveal_strlit("matrix.min");
            assert("matrix.min"@ =~= "matrix."@ + "min"@);
        }
        Some("matrix.min")
    } else if str_eq(method_name, "max") {
        proof {
            reveal_strlit("max");
            reveal_strlit("matrix.max");
            assert("matrix.max"@ =~= "matrix."@ + "max"@);
        }
        Some("matrix.max")
    } else if str_eq(method_name, "mode") {
        proof {
            reveal_strlit("mode");
            reveal_strlit("matrix.mode");
            assert("matrix.mode"@ =~= "matrix."@ + "mode"@);
        }
        Some("matrix.mode")
    } else if str_eq(method_name, "trace") {
        proof {
            reveal_strlit("trace");
            reveal_strlit("matrix.trace");
            assert("matrix.trace"@ =~= "matrix."@ + "trace"@);
        }
        Some("matrix.trace")
    } else if str_eq(method_name, "det") {
        proof {
            reveal_strlit("det");
            reveal_strlit("matrix.det");
            assert("matrix.det"@ =~= "matrix."@ + "det"@);
        }
        Some("matrix.det")
    } else if str_eq(method_name, "rank") {
        proof {
            reveal_strlit("rank");
            reveal_strlit("matrix.rank");
            assert("matrix.rank"@ =~= "matrix."@ + "rank"@);
        }
        Some("matrix.rank")
    } else {
        None
    }
}

/// The `map.*` built-in that a method on a map-valued call result stands for.
pub fn map_call_result_builtin_name(method_name: &str) -> (r: Option<&'static str>)
    ensures
        r is Some <==> map_call_result_methods().contains(method_name@),
        r matches Some(n) ==> n@ == "map."@ + method_name@,
{
    proof {
        reveal_strlit("map.");
    }
    if str_eq(method_name, "size") {
        proof {
            reveal_strlit("size");
            reveal_strlit("map.size");
            assert("map.size"@ =~= "map."@ + "size"@);
        }
        Some("map.size")
    } else if str_eq(method_name, "put") {
        proof {
            reveal_strlit("put");
            reveal_strlit("map.put");
            assert("map.put"@ =~= "map."@ + "put"@);
        }
        Some("map.put")
    } else if str_eq(method_name, "clear") {
        proof {
            reveal_strlit("clear");
            reveal_strlit("map.clear");
            assert("map.clear"@ =~= "map."@ + "clear"@);
        }
        Some("map.clear")
    } else if str_eq(method_name, "remove") {
        proof {
            reveal_strlit("remove");
            reveal_strlit("map.remove");
            assert("map.remove"@ =~= "map."@ + "remove"@);
        }
        Some("map.remove")
    } else if str_eq(method_name, "put_all") {
        proof {
            reveal_strlit("put_all");
            reveal_strlit("map.put_all");
            assert("map.put_all"@ =~= "map."@ + "put_all"@);
        }
        Some("map.put_all")
    } else if str_eq(method_name, "get") {
        proof {
            reveal_strlit("get");
            reveal_strlit("map.get");
            assert("map.get"@ =~= "map."@ + "get"@);
        }
        Some("map.get")
    } else if str_eq(method_name, "contains") {
        proof {
            reveal_strlit("contains");
            reveal_strlit("map.contains");
            assert("map.contains"@ =~= "map."@ + "contains"@);
        }
        Some("map.contains")
    } else if str_eq(method_name, "copy") {
        proof {
            reveal_strlit("copy");
            reveal_strlit("map.copy");
            assert("map.copy"@ =~= "map."@ + "copy"@);
        }
        Some("map.copy")
    } else if str_eq(method_name, "keys") {
        proof {
            reveal_strlit("keys");
            reveal_strlit("map.keys");
            assert("map.keys"@ =~= "map."@ + "keys"@);
        }
        Some("map.keys")
    } else if str_eq(method_name, "values") {
        proof {
            reveal_strlit("values");
            reveal_strlit("map.values");
            assert("map.values"@ =~= "map."@ + "values"@);
        }
        Some("map.values")
    } else {
        None
    }
}

/// The `array.*` built-in that a method on an array receiver stands for.
pub fn array_method_builtin_name(method_name: &str) -> (r: Option<&'static str>)
    ensures
        r is Some <==> array_methods().contains(method_name@),
        r matches Some(n) ==> n@ == "array."@ + method_name@,
{
    proof {
        reveal_strlit("array.");
    }
    if str_eq(method_name, "size") {
        proof {
            reveal_strlit("size");
            reveal_strlit("array.size");
            assert("array.size"@ =~= "array."@ + "size"@);
        }
        Some("array.size")
    } else if str_eq(method_name, "push") {
        proof {
            reveal_strlit("push");
            reveal_strlit("array.push");
            assert("array.push"@ =~= "array."@ + "push"@);
        }
        Some("array.push")
    } else if str_eq(method_name, "get") {
        proof {
            reveal_strlit("get");
            reveal_strlit("array.get");
            assert("array.get"@ =~= "array."@ + "get"@);
        }
        Some("array.get")
    } else if str_eq(method_name, "set") {
        proof {
            reveal_strlit("set");
            reveal_strlit("array.set");
            assert("array.set"@ =~= "array."@ + "set"@);
        }
        Some("array.set")
    } else if str_eq(method_name, "insert") {
        proof {
            reveal_strlit("insert");
            reveal_strlit("array.insert");
            assert("array.insert"@ =~= "array."@ + "insert"@);
        }
        Some("array.insert")
    } else if str_eq(method_name, "pop") {
        proof {
            reveal_strlit("pop");
            reveal_strlit("array.pop");
            assert("array.pop"@ =~= "array."@ + "pop"@);
        }
        Some("array.pop")
    } else if str_eq(method_name, "remove") {
        proof {
            reveal_strlit("remove");
            reveal_strlit("array.remove");
            assert("array.remove"@ =~= "array."@ + "remove"@);
        }
        Some("array.remove")
    } else if str_eq(method_name, "shift") {
        proof {
            reveal_strlit("shift");
            reveal_strlit("array.shift");
            assert("array.shift"@ =~= "array."@ + "shift"@);
        }
        Some("array.shift")
    } else if str_eq(method_name, "unshift") {
        proof {
            reveal_strlit("unshift");
            reveal_strlit("array.unshift");
            assert("array.unshift"@ =~= "array."@ + "unshift"@);
        }
        Some("array.unshift")
    } else if str_eq(method_name, "fill") {
        proof {
            reveal_strlit("fill");
            reveal_strlit("array.fill");
            assert("array.fill"@ =~= "array."@ + "fill"@);
        }
        Some("array.fill")
    } else if str_eq(method_name, "first") {
        proof {
            reveal_strlit("first");
            reveal_strlit("array.first");
            assert("array.first"@ =~= "array."@ + "first"@);
        }
        Some("array.first")
    } else if str_eq(method_name, "last") {
        proof {
            reveal_strlit("last");
            reveal_strlit("array.last");
            assert("array.last"@ =~= "array."@ + "last"@);
        }
        Some("array.last")
    } else if str_eq(method_name, "copy") {
        proof {
            reveal_strlit("copy");
            reveal_strlit("array.copy");
            assert("array.copy"@ =~= "array."@ + "copy"@);
        }
        Some("array.copy")
    } else if str_eq(method_name, "slice") {
        proof {
            reveal_strlit("slice");
            reveal_strlit("array.slice");
            assert("array.slice"@ =~= "array."@ + "slice"@);
        }
        Some("array.slice")
    } else if str_eq(method_name, "concat") {
        proof {
            reveal_strlit("concat");
            reveal_strlit("array.concat");
            assert("array.concat"@ =~= "array."@ + "concat"@);
        }
        Some("array.concat")
    } else if str_eq(method_name, "includes") {
        proof {
            reveal_strlit("includes");
            reveal_strlit("array.includes");
            assert("array.includes"@ =~= "array."@ + "includes"@);
        }
        Some("array.includes")
    } else if str_eq(method_name, "every") {
        proof {
            reveal_strlit("every");
            reveal_strlit("array.every");
            assert("array.every"@ =~= "array."@ + "every"@);
        }
        Some("array.every")
    } else if str_eq(method_name, "some") {
        proof {
            reveal_strlit("some");
            reveal_strlit("array.some");
            assert("array.some"@ =~= "array."@ + "some"@);
        }
        Some("array.some")
    } else if str_eq(method_name, "indexof") {
        proof {
            reveal_strlit("indexof");
            reveal_strlit("array.indexof");
            assert("array.indexof"@ =~= "array."@ + "indexof"@);
        }
        Some("array.indexof")
    } else if str_eq(method_name, "lastindexof") {
        proof {
            reveal_strlit("lastindexof");
            reveal_strlit("array.lastindexof");
            assert("array.lastindexof"@ =~= "array."@ + "lastindexof"@);
        }
        Some("array.lastindexof")
    } else if str_eq(method_name, "binary_search") {
        proof {
            reveal_strlit("binary_search");
            reveal_strlit("array.binary_search");
            assert("array.binary_search"@ =~= "array."@ + "binary_search"@);
        }
        Some("array.binary_search")
    } else if str_eq(method_name, "binary_search_leftmost") {
        proof {
            reveal_strlit("binary_search_leftmost");
            reveal_strlit("array.binary_search_leftmost");
            assert("array.binary_search_leftmost"@ =~= "array."@ + "binary_search_leftmost"@);
        }
        Some("array.binary_search_leftmost")
    } else if str_eq(method_name, "binary_search_rightmost") {
        proof {
            reveal_strlit("binary_search_rightmost");
            reveal_strlit("array.binary_search_rightmost");
            assert("array.binary_search_rightmost"@ =~= "array."@ + "binary_search_rightmost"@);
        }
        Some("array.binary_search_rightmost")
    } else if str_eq(method_name, "abs") {
        proof {
            reveal_strlit("abs");
            reveal_strlit("array.abs");
            assert("array.abs"@ =~= "array."@ + "abs"@);
        }
        Some("array.abs")
    } else if str_eq(method_name, "min") {
        proof {
            reveal_strlit("min");
            reveal_strlit("array.min");
            assert("array.min"@ =~= "array."@ + "min"@);
        }
        Some("array.min")
    } else if str_eq(method_name, "max") {
        proof {
            reveal_strlit("max");
            reveal_strlit("array.max");
            assert("array.max"@ =~= "array."@ + "max"@);
        }
        Some("array.max")
    } else if str_eq(method_name, "sum") {
        proof {
            reveal_strlit("sum");
            reveal_strlit("array.sum");
            assert("array.sum"@ =~= "array."@ + "sum"@);
        }
        Some("array.sum")
    } else if str_eq(method_name, "avg") {
        proof {
            reveal_strlit("avg");
            reveal_strlit("array.avg");
            assert("array.avg"@ =~= "array."@ + "avg"@);
        }
        Some("array.avg")
    } else if str_eq(method_name, "range") {
        proof {
            reveal_strlit("range");
            reveal_strlit("array.range");
            assert("array.range"@ =~= "array."@ + "range"@);
        }
        Some("array.range")
    } else if str_eq(method_name, "median") {
        proof {
            reveal_strlit("median");
            reveal_strlit("array.median");
            assert("array.median"@ =~= "array."@ + "median"@);
        }
        Some("array.median")
    } else if str_eq(method_name, "mode") {
        proof {
            reveal_strlit("mode");
            reveal_strlit("array.mode");
            assert("array.mode"@ =~= "array."@ + "mode"@);
        }
        Some("array.mode")
    } else if str_eq(method_name, "percentile_nearest_rank") {
        proof {
            reveal_strlit("percentile_nearest_rank");
            reveal_strlit("array.percentile_nearest_rank");
            assert("array.percentile_nearest_rank"@ =~= "array."@ + "percentile_nearest_rank"@);
        }
        Some("array.percentile_nearest_rank")
    } else if str_eq(method_name, "percentile_linear_interpolation") {
        proof {
            reveal_strlit("percentile_linear_interpolation");
            reveal_strlit("array.percentile_linear_interpolation");
            assert("array.percentile_linear_interpolation"@ =~= "array."@ + "percentile_linear_interpolation"@);
        }
        Some("array.percentile_linear_interpolation")
    } else if str_eq(method_name, "percentrank") {
        proof {
            reveal_strlit("percentrank");
            reveal_strlit("array.percentrank");
            assert("array.percentrank"@ =~= "array."@ + "percentrank"@);
        }
        Some("array.percentrank")
    } else if str_eq(method_name, "covariance") {
        proof {
            reveal_strlit("covariance");
            reveal_strlit("array.covariance");
            assert("array.covariance"@ =~= "array."@ + "covariance"@);
        }
        Some("array.covariance")
    } else if str_eq(method_name, "standardize") {
        proof {
            reveal_strlit("standardize");
            reveal_strlit("array.standardize");
            assert("array.standardize"@ =~= "array."@ + "standardize"@);
        }
        Some("array.standardize")
    } else if str_eq(method_name, "variance") {
        proof {
            reveal_strlit("variance");
            reveal_strlit("array.variance");
            assert("array.variance"@ =~= "array."@ + "variance"@);
        }
        Some("array.variance")
    } else if str_eq(method_name, "stdev") {
        proof {
            reveal_strlit("stdev");
            reveal_strlit("array.stdev");
            assert("array.stdev"@ =~= "array."@ + "stdev"@);
        }
        Some("array.stdev")
    } else if str_eq(method_name, "sort") {
        proof {
            reveal_strlit("sort");
            reveal_strlit("array.sort");
            assert("array.sort"@ =~= "array."@ + "sort"@);
        }
        Some("array.sort")
    } else if str_eq(method_name, "sort_indices") {
        proof {
            reveal_strlit("sort_indices");
            reveal_strlit("array.sort_indices");
            assert("array.sort_indices"@ =~= "array."@ + "sort_indices"@);
        }
        Some("array.sort_indices")
    } else if str_eq(method_name, "reverse") {
        proof {
            reveal_strlit("reverse");
            reveal_strlit("array.reverse");
            assert("array.reverse"@ =~= "array."@ + "reverse"@);
        }
        Some("array.reverse")
    } else if str_eq(method_name, "join") {
        proof {
            reveal_strlit("join");
            reveal_strlit("array.join");
            assert("array.join"@ =~= "array."@ + "join"@);
        }
        Some("array.join")
    } else if str_eq(method_name, "clear") {
        proof {
            reveal_strlit("clear");
            reveal_strlit("array.clear");
            assert("array.clear"@ =~= "array."@ + "clear"@);
        }
        Some("array.clear")
    } else {
        None
    }
}

/// The `map.*` built-in that a method on a map receiver stands for.
pub fn map_method_builtin_name(method_name: &str) -> (r: Option<&'static str>)
    ensures
        r is Some <==> map_methods().contains(method_name@),
        r matches Some(n) ==> n@ == "map."@ + method_name@,
{
    proof {
        reveal_strlit("map.");
    }
    if str_eq(method_name, "size") {
        proof {
            reveal_strlit("size");
            reveal_strlit("map.size");
            assert("map.size"@ =~= "map."@ + "size"@);
        }
        Some("map.size")
    } else if str_eq(method_name, "put") {
        proof {
            reveal_strlit("put");
            reveal_strlit("map.put");
            assert("map.put"@ =~= "map."@ + "put"@);
        }
        Some("map.put")
    } else if str_eq(method_name, "get") {
        proof {
            reveal_strlit("get");
            reveal_strlit("map.get");
            assert("map.get"@ =~= "map."@ + "get"@);
        }
        Some("map.get")
    } else if str_eq(method_name, "contains") {
        proof {
            reveal_strlit("contains");
            reveal_strlit("map.contains");
            assert("map.contains"@ =~= "map."@ + "contains"@);
        }
        Some("map.contains")
    } else if str_eq(method_name, "clear") {
        proof {
            reveal_strlit("clear");
            reveal_strlit("map.clear");
            assert("map.clear"@ =~= "map."@ + "clear"@);
        }
        Some("map.clear")
    } else if str_eq(method_name, "remove") {
        proof {
            reveal_strlit("remove");
            reveal_strlit("map.remove");
            assert("map.remove"@ =~= "map."@ + "remove"@);
        }
        Some("map.remove")
    } else if str_eq(method_name, "copy") {
        proof {
            reveal_strlit("copy");
            reveal_strlit("map.copy");
            assert("map.copy"@ =~= "map."@ + "copy"@);
        }
        Some("map.copy")
    } else if str_eq(method_name, "put_all") {
        proof {
            reveal_strlit("put_all");
            reveal_strlit("map.put_all");
            assert("map.put_all"@ =~= "map."@ + "put_all"@);
        }
        Some("map.put_all")
    } else if str_eq(method_name, "keys") {
        proof {
            reveal_strlit("keys");
            reveal_strlit("map.keys");
            assert("map.keys"@ =~= "map."@ + "keys"@);
        }
        Some("map.keys")
    } else if str_eq(method_name, "values") {
        proof {
            reveal_strlit("values");
            reveal_strlit("map.values");
            assert("map.values"@ =~= "map."@ + "values"@);
        }
        Some("map.values")
    } else {
        None
    }
}

/// Built-ins that declare the script, plot or alert.
pub open spec fn script_output_names() -> Set<Seq<char>> {
    set![
        "indicator"@, "max_bars_back"@, "strategy"@, "alert"@, "alertcondition"@,
        "plot"@, "hline"@, "fill"@, "bgcolor"@, "barcolor"@,
        "plotchar"@, "plotshape"@, "plotarrow"@, "plotbar"@, "plotcandle"@,
    ]
}

fn in_script_output_names(name: &str) -> (r: bool)
    ensures
        r == script_output_names().contains(name@),
{
    str_eq(name, "indicator") ||
        str_eq(name, "max_bars_back") ||
        str_eq(name, "strategy") ||
        str_eq(name, "alert") ||
        str_eq(name, "alertcondition") ||
        str_eq(name, "plot") ||
        str_eq(name, "hline") ||
        str_eq(name, "fill") ||
        str_eq(name, "bgcolor") ||
        str_eq(name, "barcolor") ||
        str_eq(name, "plotchar") ||
        str_eq(name, "plotshape") ||
        str_eq(name, "plotarrow") ||
        str_eq(name, "plotbar") ||
        str_eq(name, "plotcandle")
}

/// Built-ins that create, change or delete labels.
pub open spec fn label_output_names() -> Set<Seq<char>> {
    set![
        "label.new"@, "label.set_x"@, "label.set_xloc"@, "label.set_y"@, "label.set_xy"@,
        "label.set_point"@, "label.set_yloc"@, "label.set_text"@, "label.set_color"@, "label.set_textcolor"@,
        "label.set_style"@, "label.set_size"@, "label.set_tooltip"@, "label.set_textalign"@, "label.set_text_font_family"@,
        "label.set_text_formatting"@, "label.delete"@, "label.copy"@,
    ]
}

fn in_label_output_names(name: &str) -> (r: bool)
    ensures
        r == label_output_names().contains(name@),
{
    str_eq(name, "label.new") ||
        str_eq(name, "label.set_x") ||
        str_eq(name, "label.set_xloc") ||
        str_eq(name, "label.set_y") ||
        str_eq(name, "label.set_xy") ||
        str_eq(name, "label.set_point") ||
        str_eq(name, "label.set_yloc") ||
        str_eq(name, "label.set_text") ||
        str_eq(name, "label.set_color") ||
        str_eq(name, "label.set_textcolor") ||
        str_eq(name, "label.set_style") ||
        str_eq(name, "label.set_size") ||
        str_eq(name, "label.set_tooltip") ||
        str_eq(name, "label.set_textalign") ||
        str_eq(name, "label.set_text_font_family") ||
        str_eq(name, "label.set_text_formatting") ||
        str_eq(name, "label.delete") ||
        str_eq(name, "label.copy")
}

/// Built-ins that create, change or delete lines and polylines.
pub open spec fn line_output_names() -> Set<Seq<char>> {
    set![
        "line.new"@, "line.set_first_point"@, "line.set_x1"@, "line.set_y1"@, "line.set_xy1"@,
        "line.set_second_point"@, "line.set_x2"@, "line.set_y2"@, "line.set_xy2"@, "line.set_xloc"@,
        "line.set_color"@, "line.set_width"@, "line.set_style"@, "line.set_extend"@, "line.delete"@,
        "line.copy"@, "polyline.new"@, "polyline.delete"@,
    ]
}

fn in_line_output_names(name: &str) -> (r: bool)
    ensures
        r == line_output_names().contains(name@),
{
    str_eq(name, "line.new") ||
        str_eq(name, "line.set_first_point") ||
        str_eq(name, "line.set_x1") ||
        str_eq(name, "line.set_y1") ||
        str_eq(name, "line.set_xy1") ||
        str_eq(name, "line.set_second_point") ||
        str_eq(name, "line.set_x2") ||
        str_eq(name, "line.set_y2") ||
        str_eq(name, "line.set_xy2") ||
        str_eq(name, "line.set_xloc") ||
        str_eq(name, "line.set_color") ||
        str_eq(name, "line.set_width") ||
        str_eq(name, "line.set_style") ||
        str_eq(name, "line.set_extend") ||
        str_eq(name, "line.delete") ||
        str_eq(name, "line.copy") ||
        str_eq(name, "polyline.new") ||
        str_eq(name, "polyline.delete")
}

/// Built-ins that create, change or delete boxes.
pub open spec fn box_output_names() -> Set<Seq<char>> {
    set![
        "box.new"@, "box.set_left"@, "box.set_top"@, "box.set_right"@, "box.set_bottom"@,
        "box.set_lefttop"@, "box.set_top_left_point"@, "box.set_rightbottom"@, "box.set_bottom_right_point"@, "box.set_bgcolor"@,
        "box.set_border_color"@, "box.set_border_width"@, "box.set_border_style"@, "box.set_extend"@, "box.set_xloc"@,
        "box.set_text"@, "box.set_text_color"@, "box.set_text_size"@, "box.set_text_halign"@, "box.set_text_valign"@,
        "box.set_text_wrap"@, "box.set_text_font_family"@, "box.set_text_formatting"@, "box.delete"@, "box.copy"@,
    ]
}

fn in_box_output_names(name: &str) -> (r: bool)
    ensures
        r == box_output_names().contains(name@),
{
    str_eq(name, "box.new") ||
        str_eq(name, "box.set_left") ||
        str_eq(name, "box.set_top") ||
        str_eq(name, "box.set_right") ||
        str_eq(name, "box.set_bottom") ||
        str_eq(name, "box.set_lefttop") ||
        str_eq(name, "box.set_top_left_point") ||
        str_eq(name, "box.set_rightbottom") ||
        str_eq(name, "box.set_bottom_right_point") ||
        str_eq(name, "box.set_bgcolor") ||
        str_eq(name, "box.set_border_color") ||
        str_eq(name, "box.set_border_width") ||
        str_eq(name, "box.set_border_style") ||
        str_eq(name, "box.set_extend") ||
        str_eq(name, "box.set_xloc") ||
        str_eq(name, "box.set_text") ||
        str_eq(name, "box.set_text_color") ||
        str_eq(name, "box.set_text_size") ||
        str_eq(name, "box.set_text_halign") ||
        str_eq(name, "box.set_text_valign") ||
        str_eq(name, "box.set_text_wrap") ||
        str_eq(name, "box.set_text_font_family") ||
        str_eq(name, "box.set_text_formatting") ||
        str_eq(name, "box.delete") ||
        str_eq(name, "box.copy")
}

/// Built-ins that create, change or delete tables.
pub open spec fn table_output_names() -> Set<Seq<char>> {
    set![
        "table.new"@, "table.delete"@, "table.clear"@, "table.merge_cells"@, "table.cell"@,
        "table.set_position"@, "table.set_bgcolor"@, "table.set_frame_color"@, "table.set_frame_width"@, "table.set_border_color"@,
        "table.set_border_width"@, "table.cell_set_text"@, "table.cell_set_bgcolor"@, "table.cell_set_text_color"@, "table.cell_set_width"@,
        "table.cell_set_height"@, "table.cell_set_text_size"@, "table.cell_set_text_halign"@, "table.cell_set_text_valign"@, "table.cell_set_tooltip"@,
        "table.cell_set_text_font_family"@, "table.cell_set_text_formatting"@,
    ]
}

fn in_table_output_names(name: &str) -> (r: bool)
    ensures
        r == table_output_names().contains(name@),
{
    str_eq(name, "table.new") ||
        str_eq(name, "table.delete") ||
        str_eq(name, "table.clear") ||
        str_eq(name, "table.merge_cells") ||
        str_eq(name, "table.cell") ||
        str_eq(name, "table.set_position") ||
        str_eq(name, "table.set_bgcolor") ||
        str_eq(name, "table.set_frame_color") ||
        str_eq(name, "table.set_frame_width") ||
        str_eq(name, "table.set_border_color") ||
        str_eq(name, "table.set_border_width") ||
        str_eq(name, "table.cell_set_text") ||
        str_eq(name, "table.cell_set_bgcolor") ||
        str_eq(name, "table.cell_set_text_color") ||
        str_eq(name, "table.cell_set_width") ||
        str_eq(name, "table.cell_set_height") ||
        str_eq(name, "table.cell_set_text_size") ||
        str_eq(name, "table.cell_set_text_halign") ||
        str_eq(name, "table.cell_set_text_valign") ||
        str_eq(name, "table.cell_set_tooltip") ||
        str_eq(name, "table.cell_set_text_font_family") ||
        str_eq(name, "table.cell_set_text_formatting")
}

/// Built-ins that place, cancel or constrain strategy orders.
pub open spec fn strategy_order_names() -> Set<Seq<char>> {
    set![
        "strategy.entry"@, "strategy.close"@, "strategy.close_all"@, "strategy.cancel"@, "strategy.cancel_all"@,
        "strategy.exit"@, "strategy.risk.allow_entry_in"@, "strategy.risk.max_position_size"@, "strategy.risk.max_drawdown"@, "strategy.risk.max_intraday_loss"@,
        "strategy.risk.max_intraday_filled_orders"@, "strategy.risk.max_cons_loss_days"@,
    ]
}

fn in_strategy_order_names(name: &str) -> (r: bool)
    ensures
        r == strategy_order_names().contains(name@),
{
    str_eq(name, "strategy.entry") ||
        str_eq(name, "strategy.close") ||
        str_eq(name, "strategy.close_all") ||
        str_eq(name, "strategy.cancel") ||
        str_eq(name, "strategy.cancel_all") ||
        str_eq(name, "strategy.exit") ||
        str_eq(name, "strategy.risk.allow_entry_in") ||
        str_eq(name, "strategy.risk.max_position_size") ||
        str_eq(name, "strategy.risk.max_drawdown") ||
        str_eq(name, "strategy.risk.max_intraday_loss") ||
        str_eq(name, "strategy.risk.max_intraday_filled_orders") ||
        str_eq(name, "strategy.risk.max_cons_loss_days")
}

/// Built-ins that declare the script, produce output or draw.
pub open spec fn output_or_declaration_names() -> Set<Seq<char>> {
    script_output_names() + label_output_names() + line_output_names() + box_output_names()
        + table_output_names() + strategy_order_names()
}

/// Built-ins that declare the script, produce output, draw, or declare an
/// input (`input` and every `input.*`).
pub open spec fn is_output_or_declaration_name(name: Seq<char>) -> bool {
    output_or_declaration_names().contains(name) || name == "input"@ || is_prefix("input."@, name)
}

/// Whether `name` declares the script, produces output, draws, or declares
/// an input.
pub fn is_output_or_declaration_builtin(name: &str) -> (r: bool)
    ensures
        r == is_output_or_declaration_name(name@),
{
    in_script_output_names(name) || in_label_output_names(name) || in_line_output_names(name)
        || in_box_output_names(name) || in_table_output_names(name) || in_strategy_order_names(name)
        || str_eq(name, "input") || starts_with(name, "input.")
}

/// Built-ins that mutate an array or a matrix in place.
pub open spec fn array_mutation_names() -> Set<Seq<char>> {
    set![
        "matrix.set"@, "matrix.fill"@, "matrix.concat"@, "matrix.reshape"@, "matrix.reverse"@, "matrix.add_row"@,
        "matrix.add_col"@, "matrix.remove_col"@, "matrix.remove_row"@, "matrix.sort"@, "matrix.swap_columns"@, "matrix.swap_rows"@,
        "array.push"@, "array.set"@, "array.insert"@, "array.pop"@, "array.remove"@, "array.shift"@,
        "array.unshift"@, "array.fill"@, "array.clear"@, "array.sort"@, "array.reverse"@, "array.concat"@,
    ]
}

/// Whether `name` mutates an array or a matrix in place.
pub fn is_array_mutation_builtin(name: &str) -> (r: bool)
    ensures
        r == array_mutation_names().contains(name@),
{
    str_eq(name, "matrix.set") ||
        str_eq(name, "matrix.fill") ||
        str_eq(name, "matrix.concat") ||
        str_eq(name, "matrix.reshape") ||
        str_eq(name, "matrix.reverse") ||
        str_eq(name, "matrix.add_row") ||
        str_eq(name, "matrix.add_col") ||
        str_eq(name, "matrix.remove_col") ||
        str_eq(name, "matrix.remove_row") ||
        str_eq(name, "matrix.sort") ||
        str_eq(name, "matrix.swap_columns") ||
        str_eq(name, "matrix.swap_rows") ||
        str_eq(name, "array.push") ||
        str_eq(name, "array.set") ||
        str_eq(name, "array.insert") ||
        str_eq(name, "array.pop") ||
        str_eq(name, "array.remove") ||
        str_eq(name, "array.shift") ||
        str_eq(name, "array.unshift") ||
        str_eq(name, "array.fill") ||
        str_eq(name, "array.clear") ||
        str_eq(name, "array.sort") ||
        str_eq(name, "array.reverse") ||
        str_eq(name, "array.concat")
}

/// Built-ins that mutate a map in place.
pub open spec fn map_mutation_names() -> Set<Seq<char>> {
    set![
        "map.put"@, "map.clear"@, "map.remove"@, "map.put_all"@,
    ]
}

/// Whether `name` mutates a map in place.
pub fn is_map_mutation_builtin(name: &str) -> (r: bool)
    ensures
        r == map_mutation_names().contains(name@),
{
    str_eq(name, "map.put") ||
        str_eq(name, "map.clear") ||
        str_eq(name, "map.remove") ||
        str_eq(name, "map.put_all")
}

/// `i` is the position of the last `.` in `s`.
pub open spec fn is_last_dot(s: Seq<char>, i: int) -> bool {
    0 <= i < s.len() && s[i] == '.' && !has_char(s.subrange(i + 1, s.len() as int), '.')
}

/// What follows the last `.` of `s`, if `s` holds a `.`.
pub open spec fn last_segment(s: Seq<char>) -> Option<Seq<char>> {
    if exists|i: int| is_last_dot(s, i) {
        let i = choose|i: int| is_last_dot(s, i);
        Some(s.subrange(i + 1, s.len() as int))
    } else {
        None
    }
}

/// Splitting at a `.` that the rest does not repeat splits at the last `.`.
pub proof fn lemma_last_segment_of_split(s: Seq<char>, left: Seq<char>, right: Seq<char>)
    requires
        s == left + seq!['.'] + right,
        !has_char(right, '.'),
    ensures
        last_segment(s) == Some(right),
{
    let i = left.len() as int;
    assert(s.subrange(i + 1, s.len() as int) =~= right);
    assert(is_last_dot(s, i));
    let k = choose|k: int| is_last_dot(s, k);
    assert(is_last_dot(s, k));
    if k < i {
        assert(s.subrange(k + 1, s.len() as int)[i - k - 1] == '.');
    } else if k > i {
        assert(right[k - i - 1] == s[k]);
    }
}

/// A name without `.` has no last segment.
pub proof fn lemma_last_segment_none(s: Seq<char>)
    requires
        !has_char(s, '.'),
    ensures
        last_segment(s) is None,
{
    if exists|i: int| is_last_dot(s, i) {
        let i = choose|i: int| is_last_dot(s, i);
        assert(s[i] == '.');
    }
}

/// Whether a method call `receiver.method` names an array method that
/// mutates its receiver.
pub fn is_array_mutation_method_call_name(name: &str) -> (r: bool)
    ensures
        r == match last_segment(name@) {
            Some(m) => array_methods().contains(m) && array_mutation_names().contains("array."@ + m),
            None => false,
        },
{
    match rsplit_once(name, '.') {
        Some((left, method_name)) => {
            proof {
                lemma_last_segment_of_split(name@, left@, method_name@);
            }
            match array_method_builtin_name(method_name) {
                Some(builtin) => is_array_mutation_builtin(builtin),
                None => false,
            }
        },
        None => {
            proof {
                lemma_last_segment_none(name@);
            }
            false
        },
    }
}

/// Whether a method call `receiver.method` names a map method that mutates
/// its receiver.
pub fn is_map_mutation_method_call_name(name: &str) -> (r: bool)
    ensures
        r == match last_segment(name@) {
            Some(m) => map_methods().contains(m) && map_mutation_names().contains("map."@ + m),
            None => false,
        },
{
    match rsplit_once(name, '.') {
        Some((left, method_name)) => {
            proof {
                lemma_last_segment_of_split(name@, left@, method_name@);
            }
            match map_method_builtin_name(method_name) {
                Some(builtin) => is_map_mutation_builtin(builtin),
                None => false,
            }
        },
        None => {
            proof {
                lemma_last_segment_none(name@);
            }
            false
        },
    }
}

/// The extreme-value `ta.*` functions whose `length` overload is resolved
/// by argument count.
pub fn is_ta_extreme_length_overload(name: &str) -> (r: bool)
    ensures
        r == (name@ == "ta.highest"@ || name@ == "ta.lowest"@ || name@ == "ta.highestbars"@
            || name@ == "ta.lowestbars"@),
{
    str_eq(name, "ta.highest") || str_eq(name, "ta.lowest") || str_eq(name, "ta.highestbars")
        || str_eq(name, "ta.lowestbars")
}

/// The pivot functions whose source argument may be left out.
pub fn is_ta_pivot_default_source_overload(name: &str) -> (r: bool)
    ensures
        r == (name@ == "ta.pivothigh"@ || name@ == "ta.pivotlow"@),
{
    str_eq(name, "ta.pivothigh") || str_eq(name, "ta.pivotlow")
}

/// The bar-time functions with several overloads.
pub fn is_time_function_overload(name: &str) -> (r: bool)
    ensures
        r == (name@ == "time"@ || name@ == "time_close"@),
{
    str_eq(name, "time") || str_eq(name, "time_close")
}

pub fn is_timestamp_overload(name: &str) -> (r: bool)
    ensures
        r == (name@ == "timestamp"@),
{
    str_eq(name, "timestamp")
}

/// The message for a collection mutation refused inside a user-defined
/// function.
pub open spec fn collection_mutation_reason(operation: Seq<char>) -> Seq<char> {
    "collection mutation via `"@ + operation
        + "` is not supported inside user-defined functions"@
}

pub fn unsupported_collection_mutation_udf_reason(operation: &str) -> (r: String)
    ensures
        r@ == collection_mutation_reason(operation@),
{
    let mut s = String::from_str("collection mutation via `");
    s.append(operation);
    s.append("` is not supported inside user-defined functions");
    s
}

} // verus!
