//! Choosing among the overloads of a user-defined function for a call.
use vstd::prelude::*;
use crate::syntax::{CallArg, Expr};
use crate::types::{PineType, Qualifier, ValueKind};
use crate::udf_args::{
    BindState, UdfArgErrorView, bind_args, first_unused_from, is_first_missing, lemma_resolved_indices_bind_each_argument, name_views, resolve_args,
    resolve_udf_arg_indices_with_defaults,
};

verus! {

/// The declared type of a parameter of a user-defined function, and the
/// user type it names, if any.
pub struct ParamTypeInfo {
    pub pine_type: PineType,
    pub user_type_name: Option<String>,
}

/// One overload of a user-defined function: its parameters, their defaults
/// and their declared types.
pub struct OverloadCandidate {
    pub params: Vec<String>,
    pub default_values: Vec<Option<Expr>>,
    pub param_types: Vec<Option<ParamTypeInfo>>,
}

/// The rank of a qualifier: `const` 0, `input` 1, `simple` 2, `series` 3.
pub open spec fn qualifier_code(q: Qualifier) -> u8 {
    match q {
        Qualifier::Const => 0,
        Qualifier::Input => 1,
        Qualifier::Simple => 2,
        Qualifier::Series => 3,
    }
}

fn qualifier_code_of(q: Qualifier) -> (r: u8)
    ensures
        r == qualifier_code(q),
{
    match q {
        Qualifier::Const => 0,
        Qualifier::Input => 1,
        Qualifier::Simple => 2,
        Qualifier::Series => 3,
    }
}

pub open spec fn scalar_param_kind(k: ValueKind) -> bool {
    k == ValueKind::Int || k == ValueKind::Float || k == ValueKind::Bool || k == ValueKind::String || k
        == ValueKind::Color
}

/// What passing an argument of type `actual` to a parameter declared
/// `expected` costs: whether an int is widened to a float, and how late the
/// parameter is known.  There is no cost, and the overload does not fit, when
/// the argument's type is unknown, the parameter is untyped or names a user
/// type or a non-scalar kind, the kinds differ otherwise, or the argument is
/// known later than the parameter.
pub open spec fn arg_cost(actual: Option<PineType>, expected: Option<ParamTypeInfo>) -> Option<(u8, u8)> {
    match (actual, expected) {
        (Some(a), Some(e)) => {
            let ek = e.pine_type.kind;
            if e.user_type_name is Some || !scalar_param_kind(ek) {
                None
            } else {
                let conversion: Option<u8> = if a.kind == ek {
                    Some(0u8)
                } else if a.kind == ValueKind::Int && ek == ValueKind::Float {
                    Some(1u8)
                } else {
                    None
                };
                match conversion {
                    None => None,
                    Some(c) => if qualifier_code(a.qualifier) > qualifier_code(e.pine_type.qualifier) {
                        None
                    } else {
                        Some((c, qualifier_code(e.pine_type.qualifier)))
                    },
                }
            }
        },
        _ => None,
    }
}

/// The element at `i`, when there is one.
pub open spec fn elem_at<T>(s: Seq<Option<T>>, i: int) -> Option<T> {
    if 0 <= i < s.len() {
        s[i]
    } else {
        None
    }
}

/// The costs of the first `k` arguments, bound to parameters `ix`.
pub open spec fn costs_of(
    ix: Seq<usize>,
    types: Seq<Option<PineType>>,
    param_types: Seq<Option<ParamTypeInfo>>,
    k: int,
) -> Option<Seq<(u8, u8)>>
    decreases k,
{
    if k <= 0 {
        Some(Seq::empty())
    } else {
        match costs_of(ix, types, param_types, k - 1) {
            None => None,
            Some(s) => match arg_cost(elem_at(types, k - 1), elem_at(param_types, ix[k - 1] as int)) {
                None => None,
                Some(c) => Some(s.push(c)),
            },
        }
    }
}

/// The cost of each argument of the call under an overload, or none when
/// the call does not fit the overload.
pub open spec fn candidate_costs(c: OverloadCandidate, args: Seq<CallArg>, types: Seq<Option<PineType>>) -> Option<
    Seq<(u8, u8)>,
> {
    match resolve_args(name_views(c.params@), args, c.default_values@) {
        Err(_) => None,
        Ok(ix) => costs_of(ix, types, c.param_types@, ix.len() as int),
    }
}

pub open spec fn cost_le(a: (u8, u8), b: (u8, u8)) -> bool {
    a.0 < b.0 || (a.0 == b.0 && a.1 <= b.1)
}

pub open spec fn cost_lt(a: (u8, u8), b: (u8, u8)) -> bool {
    a.0 < b.0 || (a.0 == b.0 && a.1 < b.1)
}

pub open spec fn min_len(a: int, b: int) -> int {
    if a <= b {
        a
    } else {
        b
    }
}

/// Costs `o` dominate costs `c`: no argument costs more, and one costs less.
pub open spec fn dominates(o: Seq<(u8, u8)>, c: Seq<(u8, u8)>) -> bool {
    let n = min_len(o.len() as int, c.len() as int);
    &&& forall|i: int| 0 <= i < n ==> cost_le(#[trigger] o[i], c[i])
    &&& exists|i: int| 0 <= i < n && cost_lt(#[trigger] o[i], c[i])
}

/// The overload at `o` fits the call and its costs dominate those of the
/// overload at `k`.
pub open spec fn dominated_by(costs: Seq<Option<Seq<(u8, u8)>>>, o: int, k: int) -> bool {
    costs[o] is Some && dominates(costs[o]->Some_0, costs[k]->Some_0)
}

/// The overload at `k` fits the call and no fitting overload dominates it.
pub open spec fn undominated(costs: Seq<Option<Seq<(u8, u8)>>>, k: int) -> bool {
    &&& costs[k] is Some
    &&& !exists|o: int| 0 <= o < costs.len() && #[trigger] dominated_by(costs, o, k)
}

/// The costs of every overload, in declaration order.
pub open spec fn all_costs(cands: Seq<OverloadCandidate>, args: Seq<CallArg>, types: Seq<Option<PineType>>) -> Seq<
    Option<Seq<(u8, u8)>>,
> {
    Seq::new(cands.len(), |k: int| candidate_costs(cands[k], args, types))
}

fn arg_cost_of(actual: Option<PineType>, expected: &Option<ParamTypeInfo>) -> (r: Option<(u8, u8)>)
    ensures
        r == arg_cost(actual, *expected),
{
    let a = match actual {
        Some(a) => a,
        None => return None,
    };
    let e = match expected {
        Some(e) => e,
        None => return None,
    };
    let ek = e.pine_type.kind;
    if e.user_type_name.is_some() {
        return None;
    }
    if !(ek == ValueKind::Int || ek == ValueKind::Float || ek == ValueKind::Bool || ek == ValueKind::String || ek
        == ValueKind::Color) {
        return None;
    }
    let conversion: u8 = if a.kind == ek {
        0
    } else if a.kind == ValueKind::Int && ek == ValueKind::Float {
        1
    } else {
        return None;
    };
    let qualifier = qualifier_code_of(e.pine_type.qualifier);
    if qualifier_code_of(a.qualifier) > qualifier {
        return None;
    }
    Some((conversion, qualifier))
}

fn costs_for(c: &OverloadCandidate, args: &[CallArg], types: &[Option<PineType>]) -> (r: Option<Vec<(u8, u8)>>)
    ensures
        match r {
            Some(v) => candidate_costs(*c, args@, types@) == Some(v@),
            None => candidate_costs(*c, args@, types@) is None,
        },
{
    let indices = match resolve_udf_arg_indices_with_defaults(c.params.as_slice(), args, c.default_values.as_slice()) {
        Ok(indices) => indices,
        Err(_) => return None,
    };
    let ghost ix = indices@;
    let mut out: Vec<(u8, u8)> = Vec::new();
    let mut i: usize = 0;
    while i < indices.len()
        invariant
            i <= indices@.len(),
            ix == indices@,
            resolve_args(name_views(c.params@), args@, c.default_values@) == Ok::<Seq<usize>, UdfArgErrorView>(ix),
            costs_of(ix, types@, c.param_types@, i as int) == Some(out@),
        decreases indices@.len() - i,
    {
        let actual: Option<PineType> = if i < types.len() {
            types[i]
        } else {
            None
        };
        let p = indices[i];
        let cost = if p < c.param_types.len() {
            arg_cost_of(actual, &c.param_types[p])
        } else {
            arg_cost_of(actual, &None)
        };
        match cost {
            Some(x) => {
                out.push(x);
            },
            None => {
                assert(costs_of(ix, types@, c.param_types@, i as int + 1) is None);
                let mut k: usize = i + 1;
                while k < indices.len()
                    invariant
                        i < k <= indices@.len(),
                        ix == indices@,
                        resolve_args(name_views(c.params@), args@, c.default_values@) == Ok::<Seq<usize>, UdfArgErrorView>(ix),
                        costs_of(ix, types@, c.param_types@, k as int) is None,
                    decreases indices@.len() - k,
                {
                    k = k + 1;
                }
                return None;
            },
        }
        i = i + 1;
    }
    Some(out)
}

fn dominates_exec(o: &Vec<(u8, u8)>, c: &Vec<(u8, u8)>) -> (r: bool)
    ensures
        r == dominates(o@, c@),
{
    let n = if o.len() <= c.len() {
        o.len()
    } else {
        c.len()
    };
    let mut some_less = false;
    let mut i: usize = 0;
    while i < n
        invariant
            n == min_len(o@.len() as int, c@.len() as int),
            i <= n,
            forall|j: int| 0 <= j < i ==> cost_le(#[trigger] o@[j], c@[j]),
            some_less == exists|j: int| 0 <= j < i && cost_lt(#[trigger] o@[j], c@[j]),
        decreases n - i,
    {
        let (a0, a1) = o[i];
        let (b0, b1) = c[i];
        if !(a0 < b0 || (a0 == b0 && a1 <= b1)) {
            return false;
        }
        if a0 < b0 || (a0 == b0 && a1 < b1) {
            some_less = true;
        }
        i = i + 1;
    }
    some_less
}

/// Chooses the overload of a user-defined function that a call goes to:
/// among the overloads the call fits, the first in declaration order whose
/// argument costs no other fitting overload dominates.  `candidates` holds
/// the function's first declaration followed by its other overloads; a
/// function without other overloads is always chosen.
pub fn select_overload(candidates: &Vec<OverloadCandidate>, args: &[CallArg], types: &[Option<PineType>]) -> (r: Option<
    usize,
>)
    requires
        candidates@.len() > 0,
    ensures
        candidates@.len() == 1 ==> r == Some(0usize),
        candidates@.len() > 1 ==> ({
            let costs = all_costs(candidates@, args@, types@);
            match r {
                Some(w) => {
                    &&& w < candidates@.len()
                    &&& undominated(costs, w as int)
                    &&& forall|k: int| 0 <= k < w ==> !undominated(costs, k)
                },
                None => forall|k: int| 0 <= k < candidates@.len() ==> !undominated(costs, k),
            }
        }),
        (exists|k: int| 0 <= k < candidates@.len() && #[trigger] all_costs(candidates@, args@, types@)[k] is Some)
            ==> r is Some,
{
    if candidates.len() == 1 {
        return Some(0);
    }
    let ghost costs = all_costs(candidates@, args@, types@);
    let mut table: Vec<Option<Vec<(u8, u8)>>> = Vec::new();
    let mut k: usize = 0;
    while k < candidates.len()
        invariant
            k <= candidates@.len(),
            table@.len() == k,
            costs == all_costs(candidates@, args@, types@),
            forall|j: int|
                0 <= j < k ==> match #[trigger] table@[j] {
                    Some(v) => costs[j] == Some(v@),
                    None => costs[j] is None,
                },
            forall|j: int| 0 <= j < k ==> (#[trigger] candidates@[j]).params@.len() <= usize::MAX,
        decreases candidates@.len() - k,
    {
        let n_params = candidates[k].params.len();
        assert(candidates@[k as int].params@.len() == n_params);
        table.push(costs_for(&candidates[k], args, types));
        k = k + 1;
    }
    let n = candidates.len();
    let mut w: usize = 0;
    while w < n
        invariant
            n == candidates@.len(),
            table@.len() == n,
            costs.len() == n,
            costs == all_costs(candidates@, args@, types@),
            w <= n,
            forall|j: int|
                0 <= j < n ==> match #[trigger] table@[j] {
                    Some(v) => costs[j] == Some(v@),
                    None => costs[j] is None,
                },
            forall|j: int| 0 <= j < w ==> !undominated(costs, j),
            forall|j: int| 0 <= j < n ==> (#[trigger] candidates@[j]).params@.len() <= usize::MAX,
        decreases n - w,
    {
        if let Some(mine) = &table[w] {
            let mut dominated = false;
            let mut o: usize = 0;
            while o < n
                invariant
                    n == candidates@.len(),
                    table@.len() == n,
                    costs.len() == n,
                    o <= n,
                    w < n,
                    table@[w as int] == Some(*mine),
                    forall|j: int| 0 <= j < w ==> !undominated(costs, j),
                    costs == all_costs(candidates@, args@, types@),
                    costs[w as int] == Some(mine@),
                    forall|j: int|
                        0 <= j < n ==> match #[trigger] table@[j] {
                            Some(v) => costs[j] == Some(v@),
                            None => costs[j] is None,
                        },
                    dominated == exists|j: int| 0 <= j < o && #[trigger] dominated_by(costs, j, w as int),
                decreases n - o,
            {
                if let Some(other) = &table[o] {
                    if dominates_exec(other, mine) {
                        dominated = true;
                    }
                }
                assert(dominated == exists|j: int| 0 <= j < o + 1 && #[trigger] dominated_by(costs, j, w as int)) by {
                    if dominated_by(costs, o as int, w as int) {
                        assert(0 <= o < o + 1);
                    }
                }
                o = o + 1;
            }
            if !dominated {
                return Some(w);
            }
        }
        w = w + 1;
    }
    proof {
        if exists|k: int| 0 <= k < n && #[trigger] costs[k] is Some {
            let k = choose|k: int| 0 <= k < n && #[trigger] costs[k] is Some;
            lemma_fitting_call_has_undominated_overload(candidates@, args@, types@, k);
        }
    }
    None
}

/// The weight of costs: a widening counts four, each step of lateness one.
pub open spec fn cost_weight(s: Seq<(u8, u8)>) -> int
    decreases s.len(),
{
    if s.len() == 0 {
        0
    } else {
        cost_weight(s.drop_last()) + 4 * s.last().0 + s.last().1
    }
}

pub open spec fn bounded_costs(s: Seq<(u8, u8)>) -> bool {
    forall|i: int| 0 <= i < s.len() ==> (#[trigger] s[i]).1 <= 3
}

proof fn lemma_costs_of_shape(
    ix: Seq<usize>,
    types: Seq<Option<PineType>>,
    param_types: Seq<Option<ParamTypeInfo>>,
    k: int,
)
    requires
        0 <= k,
    ensures
        costs_of(ix, types, param_types, k) matches Some(s) ==> s.len() == k && bounded_costs(s),
    decreases k,
{
    if k > 0 {
        lemma_costs_of_shape(ix, types, param_types, k - 1);
    }
}

proof fn lemma_candidate_costs_shape(c: OverloadCandidate, args: Seq<CallArg>, types: Seq<Option<PineType>>)
    requires
        c.params@.len() <= usize::MAX,
    ensures
        candidate_costs(c, args, types) matches Some(s) ==> s.len() == args.len() && bounded_costs(s),
{
    if let Ok(ix) = resolve_args(name_views(c.params@), args, c.default_values@) {
        lemma_resolved_indices_bind_each_argument(name_views(c.params@), args, c.default_values@);
        lemma_costs_of_shape(ix, types, c.param_types@, ix.len() as int);
    }
}

/// Dominating costs weigh less.
proof fn lemma_dominance_lowers_weight(a: Seq<(u8, u8)>, b: Seq<(u8, u8)>, n: int)
    requires
        0 <= n <= a.len(),
        a.len() == b.len(),
        bounded_costs(a),
        bounded_costs(b),
        forall|i: int| 0 <= i < n ==> cost_le(#[trigger] a[i], b[i]),
    ensures
        cost_weight(a.take(n)) <= cost_weight(b.take(n)),
        (exists|i: int| 0 <= i < n && cost_lt(#[trigger] a[i], b[i])) ==> cost_weight(a.take(n)) < cost_weight(
            b.take(n),
        ),
    decreases n,
{
    if n > 0 {
        lemma_dominance_lowers_weight(a, b, n - 1);
        assert(a.take(n).drop_last() =~= a.take(n - 1));
        assert(b.take(n).drop_last() =~= b.take(n - 1));
        assert(a.take(n).last() == a[n - 1]);
        assert(b.take(n).last() == b[n - 1]);
        assert(cost_le(a[n - 1], b[n - 1]));
        assert(a[n - 1].1 <= 3 && b[n - 1].1 <= 3);
        if exists|i: int| 0 <= i < n && cost_lt(#[trigger] a[i], b[i]) {
            let i = choose|i: int| 0 <= i < n && cost_lt(#[trigger] a[i], b[i]);
            if i < n - 1 {
                assert(exists|j: int| 0 <= j < n - 1 && cost_lt(#[trigger] a[j], b[j]));
            }
        }
    }
}

pub open spec fn fits(costs: Seq<Option<Seq<(u8, u8)>>>, j: int) -> bool {
    costs[j] is Some
}

pub open spec fn no_heavier(costs: Seq<Option<Seq<(u8, u8)>>>, m: int, j: int) -> bool {
    cost_weight(costs[m]->Some_0) <= cost_weight(costs[j]->Some_0)
}

/// `m` fits and weighs no more than any fitting overload among the first `upto`.
pub open spec fn is_lightest(costs: Seq<Option<Seq<(u8, u8)>>>, upto: int, m: int) -> bool {
    &&& 0 <= m < upto
    &&& fits(costs, m)
    &&& forall|j: int| 0 <= j < upto && #[trigger] fits(costs, j) ==> no_heavier(costs, m, j)
}

/// A fitting overload of least weight among the first `upto`.
proof fn lemma_lightest_fitting(costs: Seq<Option<Seq<(u8, u8)>>>, upto: int, some: int)
    requires
        0 <= some < upto <= costs.len(),
        fits(costs, some),
    ensures
        exists|m: int| is_lightest(costs, upto, m),
    decreases upto,
{
    let last = upto - 1;
    if exists|j: int| 0 <= j < last && #[trigger] fits(costs, j) {
        let j0 = choose|j: int| 0 <= j < last && #[trigger] fits(costs, j);
        lemma_lightest_fitting(costs, last, j0);
        let m = choose|m: int| is_lightest(costs, last, m);
        if fits(costs, last) && !no_heavier(costs, m, last) {
            assert forall|j: int| 0 <= j < upto && #[trigger] fits(costs, j) implies no_heavier(costs, last, j) by {
                if j < last {
                    assert(no_heavier(costs, m, j));
                }
            }
            assert(is_lightest(costs, upto, last));
        } else {
            assert(is_lightest(costs, upto, m));
        }
    } else {
        assert(some == last);
        assert forall|j: int| 0 <= j < upto && #[trigger] fits(costs, j) implies no_heavier(costs, last, j) by {
            if j < last {
                assert(false);
            }
        }
        assert(is_lightest(costs, upto, last));
    }
}

/// A call that fits some overload of a function always has an overload to
/// go to: among the fitting overloads, some is dominated by none.
pub proof fn lemma_fitting_call_has_undominated_overload(
    candidates: Seq<OverloadCandidate>,
    args: Seq<CallArg>,
    types: Seq<Option<PineType>>,
    fitting: int,
)
    requires
        0 <= fitting < candidates.len(),
        candidate_costs(candidates[fitting], args, types) is Some,
        forall|k: int| 0 <= k < candidates.len() ==> (#[trigger] candidates[k]).params@.len() <= usize::MAX,
    ensures
        exists|k: int| 0 <= k < candidates.len() && undominated(all_costs(candidates, args, types), k),
{
    let costs = all_costs(candidates, args, types);
    assert(fits(costs, fitting));
    lemma_lightest_fitting(costs, candidates.len() as int, fitting);
    let m = choose|m: int| is_lightest(costs, candidates.len() as int, m);
    assert forall|o: int| 0 <= o < costs.len() implies !#[trigger] dominated_by(costs, o, m) by {
        if dominated_by(costs, o, m) {
            let a = costs[o]->Some_0;
            let b = costs[m]->Some_0;
            lemma_candidate_costs_shape(candidates[o], args, types);
            lemma_candidate_costs_shape(candidates[m], args, types);
            lemma_dominance_lowers_weight(a, b, a.len() as int);
            assert(a.take(a.len() as int) =~= a);
            assert(b.take(b.len() as int) =~= b);
            assert(fits(costs, o));
            assert(no_heavier(costs, m, o));
        }
    }
    assert(undominated(costs, m));
}

/// Widening costs: an int argument passed to a float parameter costs more
/// than passed to an int parameter of the same qualifier (and no less
/// late-known), so, on that argument, the int parameter's cost dominates
/// the float parameter's and not the other way round.  Both fit whenever
/// the argument is known no later than the parameter.
pub proof fn lemma_widening_costs_more_than_an_exact_kind(arg: PineType, q: Qualifier)
    requires
        arg.kind == ValueKind::Int,
        qualifier_code(arg.qualifier) <= qualifier_code(q),
    ensures
        ({
            let to_float = arg_cost(
                Some(arg),
                Some(ParamTypeInfo { pine_type: PineType { qualifier: q, kind: ValueKind::Float }, user_type_name: None }),
            );
            let to_int = arg_cost(
                Some(arg),
                Some(ParamTypeInfo { pine_type: PineType { qualifier: q, kind: ValueKind::Int }, user_type_name: None }),
            );
            &&& to_float is Some
            &&& to_int is Some
            &&& to_float.unwrap().0 > to_int.unwrap().0
            &&& to_float.unwrap().1 == to_int.unwrap().1
            &&& dominates(seq![to_int->0], seq![to_float->0])
            &&& !dominates(seq![to_float->0], seq![to_int->0])
        }),
{
    let to_float = arg_cost(
        Some(arg),
        Some(ParamTypeInfo { pine_type: PineType { qualifier: q, kind: ValueKind::Float }, user_type_name: None }),
    );
    let to_int = arg_cost(
        Some(arg),
        Some(ParamTypeInfo { pine_type: PineType { qualifier: q, kind: ValueKind::Int }, user_type_name: None }),
    );
    let a = seq![to_int->0];
    let b = seq![to_float->0];
    assert(cost_lt(a[0], b[0]));
    assert(dominates(a, b));
    if dominates(b, a) {
        assert(cost_le(b[0], a[0]));
    }
}

proof fn lemma_single_positional_binds_first(c: OverloadCandidate, args: Seq<CallArg>)
    requires
        c.params@.len() == 1,
        args.len() == 1,
        args[0].name is None,
    ensures
        resolve_args(name_views(c.params@), args, c.default_values@) == Ok::<Seq<usize>, UdfArgErrorView>(
            seq![0usize],
        ),
{
    let params = name_views(c.params@);
    assert(args.drop_last() =~= Seq::<CallArg>::empty());
    let init: BindState = (Seq::empty(), Seq::new(params.len(), |i: int| false), 0, false);
    assert(bind_args(params, args.drop_last()) == Ok::<BindState, UdfArgErrorView>(init));
    assert(first_unused_from(init.1, 0) == 0);
    let used = init.1.update(0, true);
    assert(bind_args(params, args) == Ok::<BindState, UdfArgErrorView>((seq![0usize], used, 1, false)));
    assert(!exists|p: int| is_first_missing(used, c.default_values@, p));
}

/// A call with one positional int argument that fits both a float and an
/// int overload of one parameter, declared with the same qualifier, goes to
/// the int overload, in whichever order the two are declared: the int
/// overload's costs are dominated by none, the float overload's are
/// dominated.
pub proof fn lemma_exact_int_overload_is_chosen(
    candidates: Seq<OverloadCandidate>,
    float_at: int,
    int_at: int,
    args: Seq<CallArg>,
    arg: PineType,
    q: Qualifier,
)
    requires
        candidates.len() == 2,
        0 <= float_at < 2,
        0 <= int_at < 2,
        float_at != int_at,
        candidates[float_at].params@.len() == 1,
        candidates[int_at].params@.len() == 1,
        candidates[float_at].param_types@ == seq![
            Some(ParamTypeInfo { pine_type: PineType { qualifier: q, kind: ValueKind::Float }, user_type_name: None }),
        ],
        candidates[int_at].param_types@ == seq![
            Some(ParamTypeInfo { pine_type: PineType { qualifier: q, kind: ValueKind::Int }, user_type_name: None }),
        ],
        args.len() == 1,
        args[0].name is None,
        arg.kind == ValueKind::Int,
        qualifier_code(arg.qualifier) <= qualifier_code(q),
    ensures
        undominated(all_costs(candidates, args, seq![Some(arg)]), int_at),
        !undominated(all_costs(candidates, args, seq![Some(arg)]), float_at),
{
    let types = seq![Some(arg)];
    let costs = all_costs(candidates, args, types);
    lemma_single_positional_binds_first(candidates[float_at], args);
    lemma_single_positional_binds_first(candidates[int_at], args);
    lemma_widening_costs_more_than_an_exact_kind(arg, q);
    let fc = arg_cost(Some(arg), candidates[float_at].param_types@[0]);
    let ic = arg_cost(Some(arg), candidates[int_at].param_types@[0]);
    assert(costs_of(seq![0usize], types, candidates[float_at].param_types@, 0) == Some(Seq::<(u8, u8)>::empty()));
    assert(costs_of(seq![0usize], types, candidates[int_at].param_types@, 0) == Some(Seq::<(u8, u8)>::empty()));
    assert(elem_at(types, 0) == Some(arg));
    assert(costs[float_at] == Some(seq![fc->0]));
    assert(costs[int_at] == Some(seq![ic->0]));
    assert(dominated_by(costs, int_at, float_at));
    assert forall|o: int| 0 <= o < costs.len() implies !#[trigger] dominated_by(costs, o, int_at) by {
        if o == int_at {
            let a = seq![ic->0];
            if dominates(a, a) {
                let w = choose|w: int| 0 <= w < 1 && cost_lt(#[trigger] a[w], a[w]);
                assert(cost_lt(a[w], a[w]));
            }
        }
    }
}

/// An argument fits a scalar parameter of its own kind exactly when it is
/// known no later than the parameter, and then costs nothing to convert;
/// between two such parameters, the one known earlier costs less.  A
/// parameter naming a user type never fits by cost.
pub proof fn lemma_exact_kind_cost(arg: PineType, p1: Qualifier, p2: Qualifier, name: Option<String>)
    requires
        scalar_param_kind(arg.kind),
    ensures
        ({
            let c1 = arg_cost(
                Some(arg),
                Some(ParamTypeInfo { pine_type: PineType { qualifier: p1, kind: arg.kind }, user_type_name: None }),
            );
            let c2 = arg_cost(
                Some(arg),
                Some(ParamTypeInfo { pine_type: PineType { qualifier: p2, kind: arg.kind }, user_type_name: None }),
            );
            &&& (c1 is Some <==> qualifier_code(arg.qualifier) <= qualifier_code(p1))
            &&& (c1 is Some ==> c1.unwrap().0 == 0)
            &&& (c1 is Some && c2 is Some && qualifier_code(p1) < qualifier_code(p2) ==> cost_lt(
                c1.unwrap(),
                c2.unwrap(),
            ))
        }),
        name is Some ==> arg_cost(
            Some(arg),
            Some(ParamTypeInfo { pine_type: PineType { qualifier: p1, kind: arg.kind }, user_type_name: name }),
        ) is None,
{
}

} // verus!
