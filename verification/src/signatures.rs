//! Built-in signatures and the binding of call arguments to parameters.
use vstd::prelude::*;
use crate::accepts::Accepts;
use crate::syntax::CallArg;
use crate::text::str_eq;
use crate::types::PineType;

verus! {

/// A parameter of a built-in: its name, what it admits, and whether a call
/// may leave it out.
pub struct BuiltinParam {
    pub name: String,
    pub accepts: Accepts,
    pub optional: bool,
}

/// A built-in signature.  A variadic signature repeats its last parameter.
pub struct BuiltinSignature {
    pub name: String,
    pub params: Vec<BuiltinParam>,
    pub variadic: bool,
}

impl BuiltinSignature {
    /// A variadic signature has a last parameter to repeat.
    pub open spec fn wf(&self) -> bool {
        self.variadic ==> self.params@.len() > 0
    }
}

/// The name of an argument, if it is named.
pub open spec fn arg_name(arg: CallArg) -> Option<Seq<char>> {
    match arg.name {
        Some(n) => Some(n@),
        None => None,
    }
}

/// `i` is the first parameter called `name`.
pub open spec fn is_first_named(params: Seq<BuiltinParam>, name: Seq<char>, i: int) -> bool {
    &&& 0 <= i < params.len()
    &&& params[i].name@ == name
    &&& forall|j: int| 0 <= j < i ==> params[j].name@ != name
}

/// The first parameter called `name`, if any.
pub open spec fn first_named(params: Seq<BuiltinParam>, name: Seq<char>) -> Option<int> {
    if exists|i: int| is_first_named(params, name, i) {
        Some(choose|i: int| is_first_named(params, name, i))
    } else {
        None
    }
}

/// The parameter that the argument at `arg_index` binds to: a named
/// argument binds to the first parameter of its name, a positional one to
/// the parameter at its position, or to the last parameter of a variadic
/// signature once the positions run out.
pub open spec fn param_slot(sig: BuiltinSignature, arg_index: int, name: Option<Seq<char>>) -> Option<int> {
    match name {
        Some(n) => first_named(sig.params@, n),
        None => if arg_index < sig.params@.len() {
            Some(arg_index)
        } else if sig.variadic {
            Some(sig.params@.len() - 1)
        } else {
            None
        },
    }
}

proof fn lemma_first_named_unique(params: Seq<BuiltinParam>, name: Seq<char>, i: int)
    requires
        is_first_named(params, name, i),
    ensures
        first_named(params, name) == Some(i),
{
    let k = choose|k: int| is_first_named(params, name, k);
    assert(is_first_named(params, name, k));
    if k < i {
        assert(params[k].name@ != name);
    } else if k > i {
        assert(params[i].name@ != name);
    }
}

/// The parameter that the argument at `arg_index` binds to.
pub fn param_index_for_arg(signature: &BuiltinSignature, arg_index: usize, arg: &CallArg) -> (r: Option<usize>)
    requires
        signature.wf(),
    ensures
        match r {
            Some(i) => param_slot(*signature, arg_index as int, arg_name(*arg)) == Some(i as int),
            None => param_slot(*signature, arg_index as int, arg_name(*arg)) is None,
        },
{
    if let Some(name) = &arg.name {
        let mut i: usize = 0;
        while i < signature.params.len()
            invariant
                i <= signature.params@.len(),
                arg.name == Some(*name),
                forall|j: int| 0 <= j < i ==> signature.params@[j].name@ != name@,
            decreases signature.params@.len() - i,
        {
            if str_eq(signature.params[i].name.as_str(), name.as_str()) {
                proof {
                    lemma_first_named_unique(signature.params@, name@, i as int);
                }
                return Some(i);
            }
            i = i + 1;
        }
        return None;
    }
    if arg_index < signature.params.len() {
        Some(arg_index)
    } else if signature.variadic {
        Some(signature.params.len() - 1)
    } else {
        None
    }
}

/// The argument at `i` binds to parameter `p` and its type is known.
pub open spec fn typed_arg_for(
    sig: BuiltinSignature,
    args: Seq<CallArg>,
    types: Seq<Option<PineType>>,
    p: int,
    i: int,
) -> bool {
    &&& 0 <= i < args.len()
    &&& param_slot(sig, i, arg_name(args[i])) == Some(p)
    &&& i < types.len()
    &&& types[i] is Some
}

pub open spec fn first_typed_arg_for(
    sig: BuiltinSignature,
    args: Seq<CallArg>,
    types: Seq<Option<PineType>>,
    p: int,
    i: int,
) -> bool {
    typed_arg_for(sig, args, types, p, i) && forall|j: int|
        0 <= j < i ==> !typed_arg_for(sig, args, types, p, j)
}

/// The type of the first argument that binds to parameter `p` and whose
/// type is known.
pub open spec fn arg_type_for_param(
    sig: BuiltinSignature,
    args: Seq<CallArg>,
    types: Seq<Option<PineType>>,
    p: int,
) -> Option<PineType> {
    if exists|i: int| first_typed_arg_for(sig, args, types, p, i) {
        types[choose|i: int| first_typed_arg_for(sig, args, types, p, i)]
    } else {
        None
    }
}

/// The type of the first argument bound to parameter `param_index` whose
/// type is known.
pub fn arg_type_for_param_index(
    signature: &BuiltinSignature,
    args: &[CallArg],
    arg_types: &[Option<PineType>],
    param_index: usize,
) -> (r: Option<PineType>)
    requires
        signature.wf(),
    ensures
        r == arg_type_for_param(*signature, args@, arg_types@, param_index as int),
{
    let mut i: usize = 0;
    while i < args.len()
        invariant
            signature.wf(),
            i <= args@.len(),
            forall|j: int|
                0 <= j < i ==> !typed_arg_for(*signature, args@, arg_types@, param_index as int, j),
        decreases args@.len() - i,
    {
        let slot = param_index_for_arg(signature, i, &args[i]);
        if slot == Some(param_index) && i < arg_types.len() && arg_types[i].is_some() {
            proof {
                let p = param_index as int;
                assert(first_typed_arg_for(*signature, args@, arg_types@, p, i as int));
                let k = choose|k: int| first_typed_arg_for(*signature, args@, arg_types@, p, k);
                assert(first_typed_arg_for(*signature, args@, arg_types@, p, k));
                if k < i {
                } else if k > i {
                    assert(!typed_arg_for(*signature, args@, arg_types@, p, i as int));
                }
            }
            return arg_types[i];
        }
        i = i + 1;
    }
    proof {
        let p = param_index as int;
        if exists|k: int| first_typed_arg_for(*signature, args@, arg_types@, p, k) {
            let k = choose|k: int| first_typed_arg_for(*signature, args@, arg_types@, p, k);
            assert(typed_arg_for(*signature, args@, arg_types@, p, k));
        }
    }
    None
}

} // verus!
