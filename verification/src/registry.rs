//! The table of registered built-in signatures, looked up by name, and the
//! drawing methods that resolve to one of them.
use vstd::prelude::*;
use vstd::string::*;
use crate::accepts::Accepts;
use crate::signatures::BuiltinSignature;
use crate::text::str_eq;
use crate::types::ValueKind;

verus! {

/// The built-ins that are registered for analysis.
pub struct BuiltinRegistry {
    pub signatures: Vec<BuiltinSignature>,
}

/// `i` is the first registered signature called `name`.
pub open spec fn is_first_registered(sigs: Seq<BuiltinSignature>, name: Seq<char>, i: int) -> bool {
    &&& 0 <= i < sigs.len()
    &&& sigs[i].name@ == name
    &&& forall|j: int| 0 <= j < i ==> sigs[j].name@ != name
}

/// The position of the first registered signature called `name`, if any.
pub open spec fn registered_index(sigs: Seq<BuiltinSignature>, name: Seq<char>) -> Option<int> {
    if exists|i: int| is_first_registered(sigs, name, i) {
        Some(choose|i: int| is_first_registered(sigs, name, i))
    } else {
        None
    }
}

proof fn lemma_first_registered_unique(sigs: Seq<BuiltinSignature>, name: Seq<char>, i: int)
    requires
        is_first_registered(sigs, name, i),
    ensures
        registered_index(sigs, name) == Some(i),
{
    let k = choose|k: int| is_first_registered(sigs, name, k);
    assert(is_first_registered(sigs, name, k));
    if k < i {
        assert(sigs[k].name@ != name);
    } else if k > i {
        assert(sigs[i].name@ != name);
    }
}

impl BuiltinRegistry {
    /// The signature registered under `name`; the first one where a name
    /// occurs twice.
    pub fn get(&self, name: &str) -> (r: Option<&BuiltinSignature>)
        ensures
            match registered_index(self.signatures@, name@) {
                Some(i) => r == Some(&self.signatures@[i]),
                None => r is None,
            },
    {
        let mut i: usize = 0;
        while i < self.signatures.len()
            invariant
                i <= self.signatures@.len(),
                forall|j: int| 0 <= j < i ==> self.signatures@[j].name@ != name@,
            decreases self.signatures@.len() - i,
        {
            if str_eq(self.signatures[i].name.as_str(), name) {
                proof {
                    lemma_first_registered_unique(self.signatures@, name@, i as int);
                }
                return Some(&self.signatures[i]);
            }
            i = i + 1;
        }
        assert(!exists|k: int| is_first_registered(self.signatures@, name@, k));
        None
    }
}

/// The built-in namespace of a drawing kind.
pub open spec fn drawing_namespace(kind: ValueKind) -> Option<Seq<char>> {
    match kind {
        ValueKind::Label => Some("label"@),
        ValueKind::Line => Some("line"@),
        ValueKind::LineFill => Some("linefill"@),
        ValueKind::Polyline => Some("polyline"@),
        ValueKind::Box => Some("box"@),
        ValueKind::Table => Some("table"@),
        _ => None,
    }
}

/// What the receiver parameter of a method on a drawing kind admits.
pub open spec fn drawing_receiver_acceptor(kind: ValueKind) -> Option<Accepts> {
    match kind {
        ValueKind::Label => Some(Accepts::LabelCompatible),
        ValueKind::Line => Some(Accepts::LineCompatible),
        ValueKind::LineFill => Some(Accepts::LineFillCompatible),
        ValueKind::Polyline => Some(Accepts::PolylineCompatible),
        ValueKind::Box => Some(Accepts::BoxCompatible),
        ValueKind::Table => Some(Accepts::TableCompatible),
        _ => None,
    }
}

/// The built-in that `receiver.method(...)` stands for on a drawing: the
/// registered `namespace.method` whose first parameter admits that drawing.
pub open spec fn drawing_method_target(
    sigs: Seq<BuiltinSignature>,
    kind: ValueKind,
    method: Seq<char>,
) -> Option<Seq<char>> {
    match drawing_namespace(kind) {
        None => None,
        Some(ns) => {
            let name = ns + "."@ + method;
            match registered_index(sigs, name) {
                None => None,
                Some(i) => if sigs[i].params@.len() > 0 && drawing_receiver_acceptor(kind) == Some(
                    sigs[i].params@[0].accepts,
                ) {
                    Some(name)
                } else {
                    None
                },
            }
        },
    }
}

fn drawing_namespace_name(kind: ValueKind) -> (r: Option<&'static str>)
    ensures
        match drawing_namespace(kind) {
            Some(ns) => r matches Some(s) && s@ == ns,
            None => r is None,
        },
{
    match kind {
        ValueKind::Label => Some("label"),
        ValueKind::Line => Some("line"),
        ValueKind::LineFill => Some("linefill"),
        ValueKind::Polyline => Some("polyline"),
        ValueKind::Box => Some("box"),
        ValueKind::Table => Some("table"),
        _ => None,
    }
}

fn accepts_drawing_receiver(kind: ValueKind, accepts: Accepts) -> (r: bool)
    ensures
        r == (drawing_receiver_acceptor(kind) == Some(accepts)),
{
    match kind {
        ValueKind::Label => accepts == Accepts::LabelCompatible,
        ValueKind::Line => accepts == Accepts::LineCompatible,
        ValueKind::LineFill => accepts == Accepts::LineFillCompatible,
        ValueKind::Polyline => accepts == Accepts::PolylineCompatible,
        ValueKind::Box => accepts == Accepts::BoxCompatible,
        ValueKind::Table => accepts == Accepts::TableCompatible,
        _ => false,
    }
}

/// The registered built-in that a method call on a drawing resolves to.
pub fn drawing_method_builtin_name(
    registry: &BuiltinRegistry,
    receiver_kind: ValueKind,
    method_name: &str,
) -> (r: Option<String>)
    ensures
        match drawing_method_target(registry.signatures@, receiver_kind, method_name@) {
            Some(name) => r matches Some(s) && s@ == name,
            None => r is None,
        },
{
    let namespace = match drawing_namespace_name(receiver_kind) {
        Some(ns) => ns,
        None => return None,
    };
    let mut builtin_name = String::from_str(namespace);
    builtin_name.append(".");
    builtin_name.append(method_name);
    let signature = match registry.get(builtin_name.as_str()) {
        Some(signature) => signature,
        None => return None,
    };
    if signature.params.len() == 0 {
        return None;
    }
    if accepts_drawing_receiver(receiver_kind, signature.params[0].accepts) {
        Some(builtin_name)
    } else {
        None
    }
}

/// The built-in that a method called on the result of another call resolves
/// to: only `set_right` on a box is admitted there.
pub fn drawing_call_result_builtin_name(
    registry: &BuiltinRegistry,
    receiver_kind: ValueKind,
    method_name: &str,
) -> (r: Option<String>)
    ensures
        receiver_kind == ValueKind::Box && method_name@ == "set_right"@ ==> match drawing_method_target(
            registry.signatures@,
            receiver_kind,
            method_name@,
        ) {
            Some(name) => r matches Some(s) && s@ == name,
            None => r is None,
        },
        !(receiver_kind == ValueKind::Box && method_name@ == "set_right"@) ==> r is None,
{
    if receiver_kind == ValueKind::Box && str_eq(method_name, "set_right") {
        drawing_method_builtin_name(registry, receiver_kind, method_name)
    } else {
        None
    }
}

} // verus!
