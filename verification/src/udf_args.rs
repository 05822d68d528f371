//! Binding the arguments of a call to a user-defined function to its
//! parameters.
use vstd::prelude::*;
use vstd::string::*;
use crate::diagnostics::{Diagnostic, Severity};
use crate::text::{append_decimal, decimal};
use crate::syntax::{CallArg, Expr, FunctionParam, Span};

verus! {

/// Why the arguments of a call cannot be bound to the parameters.
#[derive(Debug, PartialEq, Eq)]
pub enum UdfArgError {
    UnknownName { name: String, span: Span },
    Duplicate { name: String, span: Span },
    PositionalAfterNamed { span: Span },
    TooMany { span: Span },
    Missing { param: String },
}

/// A binding error with its names as character sequences.
pub enum UdfArgErrorView {
    UnknownName { name: Seq<char>, span: Span },
    Duplicate { name: Seq<char>, span: Span },
    PositionalAfterNamed { span: Span },
    TooMany { span: Span },
    Missing { param: Seq<char> },
}

impl View for UdfArgError {
    type V = UdfArgErrorView;

    open spec fn view(&self) -> UdfArgErrorView {
        match self {
            UdfArgError::UnknownName { name, span } => UdfArgErrorView::UnknownName { name: name@, span: *span },
            UdfArgError::Duplicate { name, span } => UdfArgErrorView::Duplicate { name: name@, span: *span },
            UdfArgError::PositionalAfterNamed { span } => UdfArgErrorView::PositionalAfterNamed { span: *span },
            UdfArgError::TooMany { span } => UdfArgErrorView::TooMany { span: *span },
            UdfArgError::Missing { param } => UdfArgErrorView::Missing { param: param@ },
        }
    }
}

/// The views of parameter names.
pub open spec fn name_views(names: Seq<String>) -> Seq<Seq<char>> {
    names.map_values(|s: String| s@)
}

/// The names of the parameters, in order.
pub fn function_param_names(params: &[FunctionParam]) -> (r: Vec<String>)
    ensures
        r@.len() == params@.len(),
        forall|i: int| 0 <= i < params@.len() ==> r@[i]@ == params@[i].name@,
{
    let mut names: Vec<String> = Vec::new();
    let mut i: usize = 0;
    while i < params.len()
        invariant
            i <= params@.len(),
            names@.len() == i,
            forall|j: int| 0 <= j < i ==> names@[j]@ == params@[j].name@,
        decreases params@.len() - i,
    {
        names.push(params[i].name.clone());
        i = i + 1;
    }
    names
}

/// Whether some name occurs twice among the parameters.
pub fn has_duplicate_param(params: &[String]) -> (r: bool)
    ensures
        r == exists|i: int, j: int| 0 <= i < j < params@.len() && params@[i]@ == params@[j]@,
{
    let mut i: usize = 0;
    while i < params.len()
        invariant
            i <= params@.len(),
            forall|a: int, b: int| 0 <= a < i && a < b < params@.len() ==> params@[a]@ != params@[b]@,
        decreases params@.len() - i,
    {
        let mut j: usize = i + 1;
        while j < params.len()
            invariant
                i < params@.len(),
                i + 1 <= j <= params@.len(),
                forall|b: int| i < b < j ==> params@[i as int]@ != params@[b]@,
            decreases params@.len() - j,
        {
            if params[j] == params[i] {
                return true;
            }
            j = j + 1;
        }
        i = i + 1;
    }
    false
}

/// `p` is the first parameter called `name`.
pub open spec fn is_first_param_named(params: Seq<Seq<char>>, name: Seq<char>, p: int) -> bool {
    &&& 0 <= p < params.len()
    &&& params[p] == name
    &&& forall|q: int| 0 <= q < p ==> params[q] != name
}

pub open spec fn first_param_named(params: Seq<Seq<char>>, name: Seq<char>) -> Option<int> {
    if exists|p: int| is_first_param_named(params, name, p) {
        Some(choose|p: int| is_first_param_named(params, name, p))
    } else {
        None
    }
}

/// The first parameter at or after `start` that is not bound yet.
pub open spec fn first_unused_from(used: Seq<bool>, start: int) -> int
    decreases used.len() - start,
{
    if start < 0 || start >= used.len() || !used[start] {
        start
    } else {
        first_unused_from(used, start + 1)
    }
}

/// The state of binding after a prefix of the arguments: the parameter of
/// each argument so far, which parameters are bound, where the next
/// positional argument starts looking, and whether a named argument was
/// seen.
pub type BindState = (Seq<usize>, Seq<bool>, int, bool);

/// Binds one more argument: a named one to the first parameter of its name,
/// a positional one to the first unbound parameter from where the last
/// positional one went.
pub open spec fn bind_step(params: Seq<Seq<char>>, st: BindState, arg: CallArg) -> Result<BindState, UdfArgErrorView> {
    let (indices, used, next, saw_named) = st;
    match arg.name {
        Some(n) => match first_param_named(params, n@) {
            None => Err(UdfArgErrorView::UnknownName { name: n@, span: arg.span }),
            Some(p) => if used[p] {
                Err(UdfArgErrorView::Duplicate { name: n@, span: arg.span })
            } else {
                Ok((indices.push(p as usize), used.update(p, true), next, true))
            },
        },
        None => if saw_named {
            Err(UdfArgErrorView::PositionalAfterNamed { span: arg.span })
        } else {
            let p = first_unused_from(used, next);
            if p >= params.len() {
                Err(UdfArgErrorView::TooMany { span: arg.span })
            } else {
                Ok((indices.push(p as usize), used.update(p, true), p + 1, saw_named))
            }
        },
    }
}

/// Binds the arguments in order, stopping at the first that cannot be bound.
pub open spec fn bind_args(params: Seq<Seq<char>>, args: Seq<CallArg>) -> Result<BindState, UdfArgErrorView>
    decreases args.len(),
{
    if args.len() == 0 {
        Ok((Seq::empty(), Seq::new(params.len(), |i: int| false), 0, false))
    } else {
        match bind_args(params, args.drop_last()) {
            Ok(st) => bind_step(params, st, args.last()),
            Err(e) => Err(e),
        }
    }
}

/// Parameter `p` has a default value.
pub open spec fn has_default(defaults: Seq<Option<Expr>>, p: int) -> bool {
    0 <= p < defaults.len() && defaults[p] is Some
}

/// `p` is the first parameter left unbound that has no default.
pub open spec fn is_first_missing(used: Seq<bool>, defaults: Seq<Option<Expr>>, p: int) -> bool {
    &&& 0 <= p < used.len()
    &&& !used[p] && !has_default(defaults, p)
    &&& forall|q: int| 0 <= q < p ==> used[q] || has_default(defaults, q)
}

/// The first parameter left unbound that has no default, when there is one.
pub open spec fn first_missing(used: Seq<bool>, defaults: Seq<Option<Expr>>) -> int {
    choose|p: int| is_first_missing(used, defaults, p)
}

/// The parameter of each argument, or why the arguments cannot be bound:
/// the first argument that cannot be bound, else the first parameter that
/// is left unbound and has no default.
pub open spec fn resolve_args(
    params: Seq<Seq<char>>,
    args: Seq<CallArg>,
    defaults: Seq<Option<Expr>>,
) -> Result<Seq<usize>, UdfArgErrorView> {
    match bind_args(params, args) {
        Err(e) => Err(e),
        Ok((indices, used, next, saw_named)) => if exists|p: int| is_first_missing(used, defaults, p) {
            Err(UdfArgErrorView::Missing { param: params[first_missing(used, defaults)] })
        } else {
            Ok(indices)
        },
    }
}

proof fn lemma_first_param_named(params: Seq<Seq<char>>, name: Seq<char>, p: int)
    requires
        is_first_param_named(params, name, p),
    ensures
        first_param_named(params, name) == Some(p),
{
    let k = choose|k: int| is_first_param_named(params, name, k);
    assert(is_first_param_named(params, name, k));
    if k < p {
        assert(params[k] != name);
    } else if k > p {
        assert(params[p] != name);
    }
}

/// Once binding fails on a prefix of the arguments, it fails the same way
/// on all of them.
proof fn lemma_bind_error_persists(params: Seq<Seq<char>>, args: Seq<CallArg>, k: int)
    requires
        0 <= k <= args.len(),
        bind_args(params, args.subrange(0, k)) is Err,
    ensures
        bind_args(params, args) == bind_args(params, args.subrange(0, k)),
    decreases args.len() - k,
{
    if k == args.len() {
        assert(args.subrange(0, k) =~= args);
    } else {
        assert(args.subrange(0, k + 1).drop_last() =~= args.subrange(0, k));
        lemma_bind_error_persists(params, args, k + 1);
    }
}

proof fn lemma_first_missing(used: Seq<bool>, defaults: Seq<Option<Expr>>, p: int)
    requires
        is_first_missing(used, defaults, p),
    ensures
        first_missing(used, defaults) == p,
{
    let k = first_missing(used, defaults);
    assert(is_first_missing(used, defaults, k));
    if k < p {
        assert(used[k] || has_default(defaults, k));
    } else if k > p {
        assert(used[p] || has_default(defaults, p));
    }
}


/// What holds of the binding state after binding a prefix of the arguments.
pub open spec fn bind_invariant(params: Seq<Seq<char>>, args: Seq<CallArg>, st: BindState) -> bool {
    let (ix, used, next, saw_named) = st;
    &&& ix.len() == args.len()
    &&& used.len() == params.len()
    &&& forall|i: int| 0 <= i < ix.len() ==> ix[i] < params.len()
    &&& forall|p: int| 0 <= p < used.len() ==> (used[p] <==> exists|i: int| 0 <= i < ix.len() && ix[i] == p)
    &&& forall|i: int, j: int| 0 <= i < ix.len() && 0 <= j < ix.len() && i != j ==> ix[i] != ix[j]
    &&& forall|i: int| #![trigger args[i]] 0 <= i < args.len() ==> (args[i].name matches Some(n) ==> params[ix[i] as int] == n@)
    &&& forall|i: int| #![trigger args[i]] 0 <= i < args.len() ==> (args[i].name is None ==> ix[i] == i)
    &&& forall|i: int, j: int| 0 <= i < j < args.len() && (#[trigger] args[i]).name is Some ==> (#[trigger] args[j]).name is Some
    &&& !saw_named ==> {
        &&& next == args.len()
        &&& forall|i: int| #![trigger args[i]] 0 <= i < args.len() ==> args[i].name is None
    }
}

proof fn lemma_first_unused_at_gap(used: Seq<bool>, k: int)
    requires
        0 <= k,
        k >= used.len() || !used[k],
    ensures
        first_unused_from(used, k) == k,
{
}

proof fn lemma_bind_invariant(params: Seq<Seq<char>>, args: Seq<CallArg>)
    requires
        params.len() <= usize::MAX,
        bind_args(params, args) is Ok,
    ensures
        bind_invariant(params, args, bind_args(params, args)->Ok_0),
    decreases args.len(),
{
    if args.len() == 0 {
        return;
    }
    let prev_args = args.drop_last();
    lemma_bind_invariant(params, prev_args);
    let prev = bind_args(params, prev_args)->Ok_0;
    let (ix, used, next, saw) = prev;
    let arg = args.last();
    let k = prev_args.len() as int;
    let st = bind_args(params, args)->Ok_0;
    assert forall|i: int| 0 <= i < k implies args[i] == prev_args[i] by {}
    match arg.name {
        Some(n) => {
            let p = first_param_named(params, n@).unwrap();
            let wp = choose|q: int| is_first_param_named(params, n@, q);
            assert(is_first_param_named(params, n@, wp));
            assert(p == wp);
            assert(!used[p]);
            assert(st == (ix.push(p as usize), used.update(p, true), next, true));
            assert forall|q: int| 0 <= q < st.1.len() implies (st.1[q] <==> exists|i: int|
                0 <= i < st.0.len() && st.0[i] == q) by {
                if q == p {
                    assert(st.0[k] == q);
                } else {
                    if used[q] {
                        let i = choose|i: int| 0 <= i < ix.len() && ix[i] == q;
                        assert(st.0[i] == q);
                    }
                    if exists|i: int| 0 <= i < st.0.len() && st.0[i] == q {
                        let i = choose|i: int| 0 <= i < st.0.len() && st.0[i] == q;
                        assert(i < k);
                        assert(ix[i] == q);
                    }
                }
            }
            assert forall|i: int, j: int|
                0 <= i < st.0.len() && 0 <= j < st.0.len() && i != j implies st.0[i] != st.0[j] by {
                if i == k {
                    assert(!used[p]);
                    assert(ix[j] != p);
                } else if j == k {
                    assert(ix[i] != p);
                }
            }
        },
        None => {
            assert(!saw);
            if k < used.len() && used[k] {
                let i = choose|i: int| 0 <= i < ix.len() && ix[i] == k;
                assert(prev_args[i].name is None);
                assert(ix[i] == i);
            }
            lemma_first_unused_at_gap(used, k);
            assert(st == (ix.push(k as usize), used.update(k, true), k + 1, false));
            assert forall|q: int| 0 <= q < st.1.len() implies (st.1[q] <==> exists|i: int|
                0 <= i < st.0.len() && st.0[i] == q) by {
                if q == k {
                    assert(st.0[k] == q);
                } else {
                    if used[q] {
                        let i = choose|i: int| 0 <= i < ix.len() && ix[i] == q;
                        assert(st.0[i] == q);
                    }
                    if exists|i: int| 0 <= i < st.0.len() && st.0[i] == q {
                        let i = choose|i: int| 0 <= i < st.0.len() && st.0[i] == q;
                        assert(i < k);
                        assert(ix[i] == q);
                    }
                }
            }
            assert forall|i: int, j: int|
                0 <= i < st.0.len() && 0 <= j < st.0.len() && i != j implies st.0[i] != st.0[j] by {
                if i < k && j < k {
                } else if i == k {
                    assert(prev_args[j].name is None);
                    assert(ix[j] == j);
                } else {
                    assert(prev_args[i].name is None);
                    assert(ix[i] == i);
                }
            }
        },
    }
}

proof fn lemma_first_missing_exists(used: Seq<bool>, defaults: Seq<Option<Expr>>, p: int)
    requires
        0 <= p < used.len(),
        !used[p] && !has_default(defaults, p),
    ensures
        exists|q: int| is_first_missing(used, defaults, q),
    decreases p,
{
    if exists|q: int| 0 <= q < p && !used[q] && !has_default(defaults, q) {
        let q = choose|q: int| 0 <= q < p && !used[q] && !has_default(defaults, q);
        lemma_first_missing_exists(used, defaults, q);
    } else {
        assert(is_first_missing(used, defaults, p));
    }
}

/// A successful binding gives each argument its own parameter: a named
/// argument the parameter of its name, a positional argument the parameter
/// at its position; the positional arguments all come before the named
/// ones; every parameter left unbound has a default.
#[verifier::spinoff_prover]
pub proof fn lemma_resolved_indices_bind_each_argument(
    params: Seq<Seq<char>>,
    args: Seq<CallArg>,
    defaults: Seq<Option<Expr>>,
)
    requires
        params.len() <= usize::MAX,
        resolve_args(params, args, defaults) is Ok,
    ensures
        ({
            let ix = resolve_args(params, args, defaults)->Ok_0;
            &&& ix.len() == args.len()
            &&& forall|i: int| 0 <= i < ix.len() ==> ix[i] < params.len()
            &&& forall|i: int, j: int| 0 <= i < j < ix.len() ==> ix[i] != ix[j]
            &&& forall|i: int|
                #![trigger args[i]]
                0 <= i < args.len() ==> (args[i].name matches Some(n) ==> params[ix[i] as int] == n@)
            &&& forall|i: int| #![trigger args[i]] 0 <= i < args.len() ==> (args[i].name is None ==> ix[i] == i)
            &&& forall|i: int, j: int| 0 <= i < j < args.len() && (#[trigger] args[i]).name is Some ==> (#[trigger] args[j]).name is Some
            &&& forall|p: int|
                0 <= p < params.len() ==> has_default(defaults, p) || exists|i: int|
                    0 <= i < ix.len() && ix[i] == p
        }),
{
    lemma_bind_invariant(params, args);
    let st = bind_args(params, args)->Ok_0;
    let ix = st.0;
    let used = st.1;
    assert(bind_invariant(params, args, st));
    assert forall|i: int, j: int| 0 <= i < j < args.len() && (#[trigger] args[i]).name is Some implies (#[trigger] args[j]).name is Some by {
        assert(bind_invariant(params, args, st));
    }
    assert(resolve_args(params, args, defaults) == Ok::<Seq<usize>, UdfArgErrorView>(ix));
    assert forall|p: int| 0 <= p < params.len() implies has_default(defaults, p) || exists|i: int|
        0 <= i < ix.len() && ix[i] == p by {
        if !has_default(defaults, p) && !used[p] {
            lemma_first_missing_exists(used, defaults, p);
        }
    }
}

/// Without defaults, a successful binding binds every parameter exactly
/// once: the call has as many arguments as the function has parameters, and
/// the parameter indices of the arguments are a permutation of them.
pub proof fn lemma_plain_binding_is_a_permutation(params: Seq<Seq<char>>, args: Seq<CallArg>)
    requires
        params.len() <= usize::MAX,
        resolve_args(params, args, Seq::empty()) is Ok,
    ensures
        ({
            let ix = resolve_args(params, args, Seq::empty())->Ok_0;
            &&& ix.len() == args.len()
            &&& args.len() == params.len()
            &&& forall|i: int| 0 <= i < ix.len() ==> ix[i] < params.len()
            &&& forall|i: int, j: int| 0 <= i < j < ix.len() ==> ix[i] != ix[j]
            &&& forall|p: int| 0 <= p < params.len() ==> #[trigger] is_bound(ix, p)
        }),
{
    let defaults = Seq::<Option<Expr>>::empty();
    lemma_resolved_indices_bind_each_argument(params, args, defaults);
    let ix = resolve_args(params, args, defaults)->Ok_0;
    let n = params.len() as int;
    let iv = ix.map_values(|x: usize| x as int);
    assert forall|p: int| 0 <= p < n implies #[trigger] is_bound(ix, p) by {
        assert(!has_default(defaults, p));
    }
    assert(iv.no_duplicates()) by {
        assert forall|i: int, j: int| 0 <= i < iv.len() && 0 <= j < iv.len() && i != j implies iv[i] != iv[j] by {
            if i < j {
                assert(ix[i] != ix[j]);
            } else {
                assert(ix[j] != ix[i]);
            }
        }
    }
    iv.unique_seq_to_set();
    assert(iv.to_set() =~= vstd::set_lib::set_int_range(0, n)) by {
        assert forall|x: int| iv.to_set().contains(x) implies vstd::set_lib::set_int_range(0, n).contains(x) by {
            let i = choose|i: int| 0 <= i < iv.len() && iv[i] == x;
            assert(ix[i] < n);
        }
        assert forall|x: int| vstd::set_lib::set_int_range(0, n).contains(x) implies iv.to_set().contains(x) by {
            assert(!has_default(defaults, x));
            let i = choose|i: int| 0 <= i < ix.len() && ix[i] == x;
            assert(iv[i] == x);
            assert(iv.contains(x));
        }
    }
    vstd::set_lib::lemma_int_range(0, n);
}

/// Binds each argument of a call to a parameter of a user-defined function
/// whose parameters have no defaults.
pub fn resolve_udf_arg_indices(params: &[String], args: &[CallArg]) -> (r: Result<Vec<usize>, UdfArgError>)
    ensures
        match r {
            Ok(indices) => resolve_args(name_views(params@), args@, Seq::empty()) == Ok::<
                Seq<usize>,
                UdfArgErrorView,
            >(indices@),
            Err(e) => resolve_args(name_views(params@), args@, Seq::empty()) == Err::<
                Seq<usize>,
                UdfArgErrorView,
            >(e@),
        },
{
    let no_defaults: Vec<Option<Expr>> = Vec::new();
    resolve_udf_arg_indices_with_defaults(params, args, no_defaults.as_slice())
}

/// Binds each argument of a call to a parameter of a user-defined function;
/// a parameter with a default may be left unbound.
pub fn resolve_udf_arg_indices_with_defaults(
    params: &[String],
    args: &[CallArg],
    defaults: &[Option<Expr>],
) -> (r: Result<Vec<usize>, UdfArgError>)
    ensures
        match r {
            Ok(indices) => resolve_args(name_views(params@), args@, defaults@) == Ok::<
                Seq<usize>,
                UdfArgErrorView,
            >(indices@),
            Err(e) => resolve_args(name_views(params@), args@, defaults@) == Err::<
                Seq<usize>,
                UdfArgErrorView,
            >(e@),
        },
{
    let ghost names = name_views(params@);
    let mut used: Vec<bool> = Vec::new();
    while used.len() < params.len()
        invariant
            used@.len() <= params@.len(),
            forall|k: int| 0 <= k < used@.len() ==> !used@[k],
        decreases params@.len() - used@.len(),
    {
        used.push(false);
    }
    assert(used@ =~= Seq::new(names.len(), |i: int| false));
    let mut indices: Vec<usize> = Vec::new();
    let mut next_positional: usize = 0;
    let mut saw_named = false;
    let mut i: usize = 0;
    assert(args@.subrange(0, 0) =~= Seq::<CallArg>::empty());
    while i < args.len()
        invariant
            names == name_views(params@),
            names.len() == params@.len(),
            i <= args@.len(),
            used@.len() == params@.len(),
            next_positional <= params@.len(),
            bind_args(names, args@.subrange(0, i as int)) == Ok::<BindState, UdfArgErrorView>(
                (indices@, used@, next_positional as int, saw_named),
            ),
        decreases args@.len() - i,
    {
        let arg = &args[i];
        proof {
            assert(args@.subrange(0, i + 1).drop_last() =~= args@.subrange(0, i as int));
            assert(args@.subrange(0, i + 1).last() == args@[i as int]);
        }
        match &arg.name {
            Some(name) => {
                saw_named = true;
                let mut p: usize = 0;
                while p < params.len() && !(params[p] == *name)
                    invariant
                        names == name_views(params@),
                        p <= params@.len(),
                        forall|q: int| 0 <= q < p ==> names[q] != name@,
                    decreases params@.len() - p,
                {
                    proof {
                        assert(names[p as int] == params@[p as int]@);
                    }
                    p = p + 1;
                }
                if p == params.len() {
                    proof {
                        if exists|k: int| is_first_param_named(names, name@, k) {
                            let k = choose|k: int| is_first_param_named(names, name@, k);
                            assert(names[k] == name@);
                        }
                    }
                    let e = Err(UdfArgError::UnknownName { name: name.clone(), span: arg.span });
                    proof {
                        lemma_bind_error_persists(names, args@, i + 1);
                    }
                    return e;
                }
                proof {
                    assert(names[p as int] == params@[p as int]@);
                    lemma_first_param_named(names, name@, p as int);
                }
                if used[p] {
                    let e = Err(UdfArgError::Duplicate { name: name.clone(), span: arg.span });
                    proof {
                        lemma_bind_error_persists(names, args@, i + 1);
                    }
                    return e;
                }
                used.set(p, true);
                indices.push(p);
            },
            None => {
                if saw_named {
                    let e = Err(UdfArgError::PositionalAfterNamed { span: arg.span });
                    proof {
                        lemma_bind_error_persists(names, args@, i + 1);
                    }
                    return e;
                }
                let ghost start = next_positional as int;
                while next_positional < used.len() && used[next_positional]
                    invariant
                        used@.len() == params@.len(),
                        start <= next_positional <= used@.len(),
                        first_unused_from(used@, start) == first_unused_from(used@, next_positional as int),
                    decreases used@.len() - next_positional,
                {
                    next_positional = next_positional + 1;
                }
                if next_positional >= params.len() {
                    let e = Err(UdfArgError::TooMany { span: arg.span });
                    proof {
                        lemma_bind_error_persists(names, args@, i + 1);
                    }
                    return e;
                }
                used.set(next_positional, true);
                indices.push(next_positional);
                next_positional = next_positional + 1;
            },
        }
        i = i + 1;
    }
    proof {
        assert(args@.subrange(0, args@.len() as int) =~= args@);
    }
    let mut p: usize = 0;
    while p < used.len()
        invariant
            used@.len() == params@.len(),
            names == name_views(params@),
            p <= used@.len(),
            forall|q: int| 0 <= q < p ==> used@[q] || has_default(defaults@, q),
            bind_args(names, args@) == Ok::<BindState, UdfArgErrorView>(
                (indices@, used@, next_positional as int, saw_named),
            ),
        decreases used@.len() - p,
    {
        let defaulted = p < defaults.len() && defaults[p].is_some();
        if !used[p] && !defaulted {
            proof {
                assert(is_first_missing(used@, defaults@, p as int));
                lemma_first_missing(used@, defaults@, p as int);
                assert(names[p as int] == params@[p as int]@);
            }
            let e = UdfArgError::Missing { param: params[p].clone() };
            proof {
                assert(e@ == UdfArgErrorView::Missing { param: names[p as int] });
                let st = bind_args(names, args@);
                assert(st is Ok);
                assert(st->Ok_0.1 == used@);
                assert(exists|q: int| is_first_missing(st->Ok_0.1, defaults@, q));
                assert(first_missing(st->Ok_0.1, defaults@) == p);
                assert(resolve_args(names, args@, defaults@) == Err::<Seq<usize>, UdfArgErrorView>(e@));
            }
            return Err(e);
        }
        p = p + 1;
    }
    proof {
        if exists|k: int| is_first_missing(used@, defaults@, k) {
            let k = first_missing(used@, defaults@);
            assert(used@[k] || has_default(defaults@, k));
        }
    }
    Ok(indices)
}

/// The diagnostic that reports a binding error of a call to
/// `function`, which takes `expected` arguments and was given `got`.
pub open spec fn is_udf_arg_diagnostic(
    d: Diagnostic,
    function: Seq<char>,
    call_span: Span,
    expected: nat,
    got: nat,
    e: UdfArgErrorView,
) -> bool {
    &&& d.severity == Severity::Error
    &&& match e {
        UdfArgErrorView::UnknownName { name, span } => d.code@ == "E_FUNCTION_ARG_NAME"@ && d.span == span
            && d.message@ == "`"@ + function + "` has no argument named `"@ + name + "`"@,
        UdfArgErrorView::Duplicate { name, span } => d.code@ == "E_FUNCTION_ARG_DUPLICATE"@ && d.span == span
            && d.message@ == "`"@ + function + "` argument `"@ + name + "` is provided more than once"@,
        UdfArgErrorView::PositionalAfterNamed { span } => d.code@ == "E_FUNCTION_ARG_ORDER"@ && d.span == span
            && d.message@ == "positional arguments cannot follow named arguments in user-defined function calls"@,
        UdfArgErrorView::TooMany { span } => d.code@ == "E_FUNCTION_ARITY"@ && d.span == span && d.message@
            == "`"@ + function + "` expects "@ + decimal(expected) + " argument(s), got "@ + decimal(got),
        UdfArgErrorView::Missing { param } => d.code@ == "E_FUNCTION_ARITY"@ && d.span == call_span
            && d.message@ == "`"@ + function + "` is missing argument `"@ + param + "`"@,
    }
}

/// Reports a binding error of a call to `function_name`, which takes
/// `expected` arguments and was given `got`.
pub fn report_udf_arg_error(
    diagnostics: &mut Vec<Diagnostic>,
    function_name: &str,
    call_span: Span,
    expected: usize,
    got: usize,
    error: UdfArgError,
)
    ensures
        final(diagnostics)@.len() == old(diagnostics)@.len() + 1,
        final(diagnostics)@.subrange(0, old(diagnostics)@.len() as int) == old(diagnostics)@,
        is_udf_arg_diagnostic(
            final(diagnostics)@.last(),
            function_name@,
            call_span,
            expected as nat,
            got as nat,
            error@,
        ),
{
    let d = match error {
        UdfArgError::UnknownName { name, span } => {
            let mut m = String::from_str("`");
            m.append(function_name);
            m.append("` has no argument named `");
            m.append(name.as_str());
            m.append("`");
            Diagnostic::error("E_FUNCTION_ARG_NAME", m, span)
        },
        UdfArgError::Duplicate { name, span } => {
            let mut m = String::from_str("`");
            m.append(function_name);
            m.append("` argument `");
            m.append(name.as_str());
            m.append("` is provided more than once");
            Diagnostic::error("E_FUNCTION_ARG_DUPLICATE", m, span)
        },
        UdfArgError::PositionalAfterNamed { span } => {
            let m = String::from_str(
                "positional arguments cannot follow named arguments in user-defined function calls",
            );
            Diagnostic::error("E_FUNCTION_ARG_ORDER", m, span)
        },
        UdfArgError::TooMany { span } => {
            let mut m = String::from_str("`");
            m.append(function_name);
            m.append("` expects ");
            append_decimal(&mut m, expected);
            m.append(" argument(s), got ");
            append_decimal(&mut m, got);
            Diagnostic::error("E_FUNCTION_ARITY", m, span)
        },
        UdfArgError::Missing { param } => {
            let mut m = String::from_str("`");
            m.append(function_name);
            m.append("` is missing argument `");
            m.append(param.as_str());
            m.append("`");
            Diagnostic::error("E_FUNCTION_ARITY", m, call_span)
        },
    };
    diagnostics.push(d);
    proof {
        assert(diagnostics@.subrange(0, old(diagnostics)@.len() as int) =~= old(diagnostics)@);
    }
}

/// Whether no parameter has a default.
pub open spec fn no_defaults(defaults: Seq<Option<Expr>>) -> bool {
    forall|p: int| 0 <= p < defaults.len() ==> #[trigger] defaults[p] is None
}

/// Whether some argument binds to parameter `p`.
pub open spec fn is_bound(ix: Seq<usize>, p: int) -> bool {
    exists|i: int| 0 <= i < ix.len() && ix[i] == p
}

/// The empty span at the start of a call, where omitted arguments stand.
pub open spec fn call_start(call_span: Span) -> Span {
    Span { start: call_span.start, end: call_span.start }
}

/// The default of parameter `p` as a named argument at the call's start.
pub open spec fn default_arg(params: Seq<String>, defaults: Seq<Option<Expr>>, p: int, call_span: Span) -> CallArg {
    CallArg {
        name: Some(params[p]),
        span: call_start(call_span),
        value: Expr { kind: defaults[p]->Some_0.kind, span: call_start(call_span) },
    }
}

/// The defaults of the first `k` parameters that no argument binds, as
/// named arguments, in parameter order.
pub open spec fn omitted_defaults(
    params: Seq<String>,
    defaults: Seq<Option<Expr>>,
    ix: Seq<usize>,
    call_span: Span,
    k: int,
) -> Seq<CallArg>
    decreases k,
{
    if k <= 0 {
        Seq::empty()
    } else {
        let p = k - 1;
        omitted_defaults(params, defaults, ix, call_span, p) + if !is_bound(ix, p) && defaults[p] is Some {
            seq![default_arg(params, defaults, p, call_span)]
        } else {
            Seq::empty()
        }
    }
}

/// A call to a user-defined function with its omitted defaults: the call's
/// own arguments, in their order, followed by the default of each parameter
/// that no argument binds, as a named argument at the start of the call, in
/// parameter order.  The call stays as it is when it gives an argument for
/// every parameter or no parameter has a default; otherwise its arguments
/// must bind, else their binding error is returned.
pub fn complete_args(
    params: &[String],
    default_values: Vec<Option<Expr>>,
    args: Vec<CallArg>,
    call_span: Span,
) -> (r: Result<Vec<CallArg>, UdfArgError>)
    requires
        default_values@.len() == params@.len(),
    ensures
        args@.len() >= params@.len() || no_defaults(default_values@) ==> (r matches Ok(v) && v@ == args@),
        !(args@.len() >= params@.len() || no_defaults(default_values@)) ==> match resolve_args(
            name_views(params@),
            args@,
            default_values@,
        ) {
            Err(e) => (r matches Err(err) && err@ == e),
            Ok(ix) => (r matches Ok(v) && v@ == args@ + omitted_defaults(
                params@,
                default_values@,
                ix,
                call_span,
                params@.len() as int,
            )),
        },
{
    let n = params.len();
    let mut any_default = false;
    let mut k: usize = 0;
    while k < default_values.len()
        invariant
            k <= default_values@.len(),
            any_default == exists|p: int| 0 <= p < k && #[trigger] default_values@[p] is Some,
        decreases default_values@.len() - k,
    {
        if default_values[k].is_some() {
            any_default = true;
        }
        k = k + 1;
    }
    if args.len() >= n || !any_default {
        return Ok(args);
    }
    let ghost defaults0 = default_values@;
    let indices = match resolve_udf_arg_indices_with_defaults(params, args.as_slice(), default_values.as_slice()) {
        Ok(indices) => indices,
        Err(e) => return Err(e),
    };
    let ghost ix = indices@;
    proof {
        lemma_resolved_indices_bind_each_argument(name_views(params@), args@, defaults0);
    }
    let mut used: Vec<bool> = Vec::new();
    while used.len() < n
        invariant
            used@.len() <= n,
            forall|p: int| 0 <= p < used@.len() ==> !used@[p],
        decreases n - used@.len(),
    {
        used.push(false);
    }
    let mut j: usize = 0;
    while j < indices.len()
        invariant
            n == params@.len(),
            used@.len() == n,
            j <= indices@.len(),
            ix == indices@,
            forall|i: int| 0 <= i < indices@.len() ==> indices@[i] < n,
            forall|p: int| 0 <= p < n ==> (used@[p] <==> exists|i: int| 0 <= i < j && ix[i] == p),
        decreases indices@.len() - j,
    {
        let p = indices[j];
        used.set(p, true);
        proof {
            assert forall|q: int| 0 <= q < n implies (used@[q] <==> exists|i: int| 0 <= i < j + 1 && ix[i] == q) by {
                if q == p {
                    assert(ix[j as int] == q);
                } else if used@[q] {
                    let i = choose|i: int| 0 <= i < j && ix[i] == q;
                    assert(0 <= i < j + 1 && ix[i] == q);
                }
            }
        }
        j = j + 1;
    }
    let mut out: Vec<CallArg> = Vec::new();
    let mut rest = default_values;
    let start = Span { start: call_span.start, end: call_span.start };
    let mut p: usize = 0;
    while p < n
        invariant
            n == params@.len(),
            defaults0.len() == n,
            used@.len() == n,
            p <= n,
            rest@ == defaults0.subrange(p as int, n as int),
            start == call_start(call_span),
            forall|q: int| 0 <= q < n ==> (used@[q] <==> is_bound(ix, q)),
            out@ == omitted_defaults(params@, defaults0, ix, call_span, p as int),
        decreases n - p,
    {
        let d = rest.remove(0);
        assert(d == defaults0[p as int]);
        if !used[p] {
            if let Some(value) = d {
                let arg = CallArg {
                    name: Some(params[p].clone()),
                    span: start,
                    value: Expr { kind: value.kind, span: start },
                };
                out.push(arg);
            }
        }
        assert(out@ =~= omitted_defaults(params@, defaults0, ix, call_span, p as int + 1));
        p = p + 1;
    }
    let mut completed = args;
    completed.append(&mut out);
    Ok(completed)
}

proof fn lemma_omitted_defaults_members(
    params: Seq<String>,
    defaults: Seq<Option<Expr>>,
    ix: Seq<usize>,
    call_span: Span,
    k: int,
)
    requires
        0 <= k,
    ensures
        ({
            let added = omitted_defaults(params, defaults, ix, call_span, k);
            &&& forall|p: int|
                #![trigger default_arg(params, defaults, p, call_span)]
                0 <= p < k && !is_bound(ix, p) && defaults[p] is Some ==> exists|j: int|
                    0 <= j < added.len() && #[trigger] added[j] == default_arg(params, defaults, p, call_span)
            &&& forall|j: int|
                #![trigger added[j]]
                0 <= j < added.len() ==> exists|p: int|
                    0 <= p < k && !is_bound(ix, p) && defaults[p] is Some && added[j] == #[trigger] default_arg(
                        params,
                        defaults,
                        p,
                        call_span,
                    )
        }),
    decreases k,
{
    if k > 0 {
        lemma_omitted_defaults_members(params, defaults, ix, call_span, k - 1);
        let prev = omitted_defaults(params, defaults, ix, call_span, k - 1);
        let added = omitted_defaults(params, defaults, ix, call_span, k);
        assert forall|p: int| #![trigger default_arg(params, defaults, p, call_span)] 0 <= p < k && !is_bound(ix, p) && defaults[p] is Some implies exists|j: int|
            0 <= j < added.len() && #[trigger] added[j] == default_arg(params, defaults, p, call_span) by {
            if p < k - 1 {
                let j = choose|j: int| 0 <= j < prev.len() && #[trigger] prev[j] == default_arg(params, defaults, p, call_span);
                assert(added[j] == prev[j]);
            } else {
                assert(added[prev.len() as int] == default_arg(params, defaults, p, call_span));
            }
        }
        assert forall|j: int| #![trigger added[j]] 0 <= j < added.len() implies exists|p: int|
            0 <= p < k && !is_bound(ix, p) && defaults[p] is Some && added[j] == #[trigger] default_arg(
                params,
                defaults,
                p,
                call_span,
            ) by {
            if j < prev.len() {
                assert(added[j] == prev[j]);
                let p = choose|p: int|
                    0 <= p < k - 1 && !is_bound(ix, p) && defaults[p] is Some && prev[j] == #[trigger] default_arg(
                        params,
                        defaults,
                        p,
                        call_span,
                    );
                assert(0 <= p < k);
            } else {
                assert(added[j] == default_arg(params, defaults, k - 1, call_span));
            }
        }
    }
}

/// Completing a call's arguments leaves no parameter out: each parameter is
/// bound by one of the call's own arguments, or its default is appended as
/// a named argument; and each appended argument is the default of a
/// parameter that no argument of the call binds.
pub proof fn lemma_completed_call_binds_every_parameter(
    params: Seq<String>,
    args: Seq<CallArg>,
    defaults: Seq<Option<Expr>>,
    call_span: Span,
)
    requires
        params.len() <= usize::MAX,
        defaults.len() == params.len(),
        resolve_args(name_views(params), args, defaults) is Ok,
    ensures
        ({
            let ix = resolve_args(name_views(params), args, defaults)->Ok_0;
            let added = omitted_defaults(params, defaults, ix, call_span, params.len() as int);
            &&& forall|p: int|
                0 <= p < params.len() ==> is_bound(ix, p) || exists|j: int|
                    0 <= j < added.len() && #[trigger] added[j] == default_arg(params, defaults, p, call_span)
            &&& forall|j: int|
                0 <= j < added.len() ==> exists|p: int|
                    0 <= p < params.len() && !is_bound(ix, p) && #[trigger] added[j] == default_arg(
                        params,
                        defaults,
                        p,
                        call_span,
                    )
        }),
{
    let names = name_views(params);
    lemma_resolved_indices_bind_each_argument(names, args, defaults);
    let ix = resolve_args(names, args, defaults)->Ok_0;
    lemma_omitted_defaults_members(params, defaults, ix, call_span, params.len() as int);
    let added = omitted_defaults(params, defaults, ix, call_span, params.len() as int);
    assert forall|p: int| #![trigger default_arg(params, defaults, p, call_span)] 0 <= p < params.len() implies is_bound(ix, p) || exists|j: int|
        0 <= j < added.len() && #[trigger] added[j] == default_arg(params, defaults, p, call_span) by {
        if !is_bound(ix, p) {
            assert(has_default(defaults, p));
        }
    }
}

} // verus!
