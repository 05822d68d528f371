//! Registering the user-defined functions of a script: the checks on their
//! names, parameters, parameter types and defaults, and the table of the
//! functions that pass them.
use vstd::prelude::*;
use vstd::string::*;
use crate::builtin_args::DiagView;
use crate::defaults::{
    BuiltinNameFacts, default_diagnostics, function_default_values, kept_default, normalized_param_default,
    param_norms, record_default_shadowing, shadowing_names, unqualified_type,
};
use crate::diagnostics::{Diagnostic, Severity, diag_view, diag_views};
use crate::name_set::NameSet;
use crate::overloads::ParamTypeInfo;
use crate::syntax::{Expr, FunctionParam, Span, Stmt, StmtKind};
use crate::text::{is_prefix, is_suffix, str_eq, strip_prefix, strip_suffix};
use crate::types::{PineType, Qualifier, ValueKind};
use crate::udf_args::{function_param_names, has_duplicate_param};

verus! {

/// The kind a type name names when it stands alone or as an array element:
/// a scalar, a drawing or a chart point.
pub open spec fn value_kind_named(n: Seq<char>) -> Option<ValueKind> {
    if n == "int"@ {
        Some(ValueKind::Int)
    } else if n == "float"@ {
        Some(ValueKind::Float)
    } else if n == "bool"@ {
        Some(ValueKind::Bool)
    } else if n == "string"@ {
        Some(ValueKind::String)
    } else if n == "color"@ {
        Some(ValueKind::Color)
    } else if n == "label"@ {
        Some(ValueKind::Label)
    } else if n == "line"@ {
        Some(ValueKind::Line)
    } else if n == "linefill"@ {
        Some(ValueKind::LineFill)
    } else if n == "polyline"@ {
        Some(ValueKind::Polyline)
    } else if n == "box"@ {
        Some(ValueKind::Box)
    } else if n == "table"@ {
        Some(ValueKind::Table)
    } else if n == "chart.point"@ {
        Some(ValueKind::ChartPoint)
    } else {
        None
    }
}

/// The kind of an array of elements of kind `k`.
pub open spec fn array_kind_of(k: ValueKind) -> Option<ValueKind> {
    match k {
        ValueKind::Int => Some(ValueKind::IntArray),
        ValueKind::Float => Some(ValueKind::FloatArray),
        ValueKind::Bool => Some(ValueKind::BoolArray),
        ValueKind::String => Some(ValueKind::StringArray),
        ValueKind::Color => Some(ValueKind::ColorArray),
        ValueKind::Label => Some(ValueKind::LabelArray),
        ValueKind::Line => Some(ValueKind::LineArray),
        ValueKind::LineFill => Some(ValueKind::LineFillArray),
        ValueKind::Polyline => Some(ValueKind::PolylineArray),
        ValueKind::Box => Some(ValueKind::BoxArray),
        ValueKind::Table => Some(ValueKind::TableArray),
        ValueKind::ChartPoint => Some(ValueKind::ChartPointArray),
        _ => None,
    }
}

pub open spec fn is_scalar_kind(k: ValueKind) -> bool {
    k == ValueKind::Int || k == ValueKind::Float || k == ValueKind::Bool || k == ValueKind::String
        || k == ValueKind::Color
}

/// The type a declared parameter type `t` stands for, with the user type it
/// names: `simple` only before a scalar; an array of a named kind, or of a
/// user type in `array_user_types`; a scalar at the declared qualifier
/// (`series` unless `simple`); a drawing or chart point; a user type in
/// `user_types`.  None where the type is not supported.
pub open spec fn param_type_of(t: Seq<char>, user_types: Set<Seq<char>>, array_user_types: Set<Seq<char>>) -> Option<
    (PineType, Option<Seq<char>>),
> {
    let simple = is_prefix("simple "@, t);
    let name = unqualified_type(t);
    let qualifier = if simple { Qualifier::Simple } else { Qualifier::Series };
    if simple && !(value_kind_named(name) matches Some(k) && is_scalar_kind(k)) {
        None
    } else if is_prefix("array<"@, name) && is_suffix(">"@, name) {
        let element = name.subrange(6, name.len() - 1);
        match value_kind_named(element) {
            Some(k) => match array_kind_of(k) {
                Some(a) => Some((PineType { qualifier: Qualifier::Series, kind: a }, None)),
                None => None,
            },
            None => if array_user_types.contains(element) {
                Some((PineType { qualifier: Qualifier::Series, kind: ValueKind::UserTypeArray }, Some(element)))
            } else {
                None
            },
        }
    } else {
        match value_kind_named(name) {
            Some(k) => Some(
                (PineType { qualifier: if is_scalar_kind(k) { qualifier } else { Qualifier::Series }, kind: k }, None),
            ),
            None => if user_types.contains(name) {
                Some((PineType { qualifier: Qualifier::Series, kind: ValueKind::UserType }, Some(name)))
            } else {
                None
            },
        }
    }
}

pub open spec fn param_type_diag(t: Seq<char>, span: Span) -> DiagView {
    (
        Severity::Error,
        "E_FUNCTION_PARAM_TYPE"@,
        "function parameter type `"@ + unqualified_type(t) + "` is not supported"@,
        span,
    )
}

fn value_kind_for_name(n: &str) -> (r: Option<ValueKind>)
    ensures
        r == value_kind_named(n@),
{
    if str_eq(n, "int") {
        Some(ValueKind::Int)
    } else if str_eq(n, "float") {
        Some(ValueKind::Float)
    } else if str_eq(n, "bool") {
        Some(ValueKind::Bool)
    } else if str_eq(n, "string") {
        Some(ValueKind::String)
    } else if str_eq(n, "color") {
        Some(ValueKind::Color)
    } else if str_eq(n, "label") {
        Some(ValueKind::Label)
    } else if str_eq(n, "line") {
        Some(ValueKind::Line)
    } else if str_eq(n, "linefill") {
        Some(ValueKind::LineFill)
    } else if str_eq(n, "polyline") {
        Some(ValueKind::Polyline)
    } else if str_eq(n, "box") {
        Some(ValueKind::Box)
    } else if str_eq(n, "table") {
        Some(ValueKind::Table)
    } else if str_eq(n, "chart.point") {
        Some(ValueKind::ChartPoint)
    } else {
        None
    }
}

fn array_kind(k: ValueKind) -> (r: Option<ValueKind>)
    ensures
        r == array_kind_of(k),
{
    match k {
        ValueKind::Int => Some(ValueKind::IntArray),
        ValueKind::Float => Some(ValueKind::FloatArray),
        ValueKind::Bool => Some(ValueKind::BoolArray),
        ValueKind::String => Some(ValueKind::StringArray),
        ValueKind::Color => Some(ValueKind::ColorArray),
        ValueKind::Label => Some(ValueKind::LabelArray),
        ValueKind::Line => Some(ValueKind::LineArray),
        ValueKind::LineFill => Some(ValueKind::LineFillArray),
        ValueKind::Polyline => Some(ValueKind::PolylineArray),
        ValueKind::Box => Some(ValueKind::BoxArray),
        ValueKind::Table => Some(ValueKind::TableArray),
        ValueKind::ChartPoint => Some(ValueKind::ChartPointArray),
        _ => None,
    }
}

fn unqualified<'a>(t: &'a str) -> (r: &'a str)
    ensures
        r@ == unqualified_type(t@),
{
    match strip_prefix(t, "series ") {
        Some(rest) => {
            assert(rest@ =~= t@.subrange("series "@.len() as int, t@.len() as int));
            rest
        },
        None => match strip_prefix(t, "simple ") {
            Some(rest) => {
                assert(rest@ =~= t@.subrange("simple "@.len() as int, t@.len() as int));
                rest
            },
            None => t,
        },
    }
}

/// Resolves a declared parameter type, reporting one that is not supported
/// at `span`.
pub fn function_param_type(
    declared: &str,
    span: Span,
    user_types: &NameSet,
    array_user_types: &NameSet,
    diagnostics: &mut Vec<Diagnostic>,
) -> (r: Option<ParamTypeInfo>)
    ensures
        match r {
            Some(info) => param_type_of(declared@, user_types@, array_user_types@) == Some(
                (info.pine_type, match info.user_type_name {
                    Some(n) => Some(n@),
                    None => None,
                }),
            ) && final(diagnostics)@ == old(diagnostics)@,
            None => param_type_of(declared@, user_types@, array_user_types@) is None && diag_views(
                final(diagnostics)@,
            ) == diag_views(old(diagnostics)@).push(param_type_diag(declared@, span)),
        },
{
    let simple = crate::text::starts_with(declared, "simple ");
    let name = unqualified(declared);
    let qualifier = if simple { Qualifier::Simple } else { Qualifier::Series };
    let named = value_kind_for_name(name);
    let scalar_named = match named {
        Some(k) => k == ValueKind::Int || k == ValueKind::Float || k == ValueKind::Bool || k == ValueKind::String
            || k == ValueKind::Color,
        None => false,
    };
    let resolved: Option<ParamTypeInfo> = if simple && !scalar_named {
        None
    } else {
        proof {
            reveal_strlit("array<");
            reveal_strlit(">");
        }
        let element: Option<&str> = match strip_prefix(name, "array<") {
            Some(rest) => match strip_suffix(rest, ">") {
                Some(inner) => {
                    assert(inner@ =~= name@.subrange(6, name@.len() - 1));
                    assert(is_suffix(">"@, name@)) by {
                        assert(name@.subrange(name@.len() - 1, name@.len() as int) =~= ">"@);
                    }
                    Some(inner)
                },
                None => {
                    proof {
                        if is_suffix(">"@, name@) {
                            assert(name@.subrange(name@.len() - 1, name@.len() as int)[0] == ">"@[0]);
                            assert(name@[name@.len() - 1] == '>');
                            if rest@.len() == 0 {
                                assert(name@ =~= "array<"@);
                                assert(name@[5] == '<');
                            }
                            assert(rest@[rest@.len() - 1] == name@[name@.len() - 1]);
                            assert(rest@.subrange(rest@.len() - 1, rest@.len() as int) =~= ">"@);
                        }
                    }
                    None
                },
            },
            None => None,
        };
        match element {
            Some(element) => match value_kind_for_name(element) {
                Some(k) => match array_kind(k) {
                    Some(a) => Some(ParamTypeInfo { pine_type: PineType::new(Qualifier::Series, a), user_type_name: None }),
                    None => None,
                },
                None => if array_user_types.contains(element) {
                    Some(
                        ParamTypeInfo {
                            pine_type: PineType::new(Qualifier::Series, ValueKind::UserTypeArray),
                            user_type_name: Some(String::from_str(element)),
                        },
                    )
                } else {
                    None
                },
            },
            None => match named {
                Some(k) => Some(
                    ParamTypeInfo {
                        pine_type: PineType::new(if scalar_named { qualifier } else { Qualifier::Series }, k),
                        user_type_name: None,
                    },
                ),
                None => if user_types.contains(name) {
                    Some(
                        ParamTypeInfo {
                            pine_type: PineType::new(Qualifier::Series, ValueKind::UserType),
                            user_type_name: Some(String::from_str(name)),
                        },
                    )
                } else {
                    None
                },
            },
        }
    };
    if resolved.is_none() {
        let mut message = String::from_str("function parameter type `");
        message.append(name);
        message.append("` is not supported");
        let ghost before = diagnostics@;
        let d = Diagnostic::error("E_FUNCTION_PARAM_TYPE", message, span);
        diagnostics.push(d);
        assert(diag_views(diagnostics@) =~= diag_views(before).push(diag_view(d)));
    }
    resolved
}

/// A registered user-defined function: its name, parameters, their declared
/// types, the defaults kept, and the statement that declares it.
pub struct FunctionEntry {
    pub name: String,
    pub params: Vec<String>,
    pub param_types: Vec<Option<ParamTypeInfo>>,
    pub default_values: Vec<Option<Expr>>,
    pub statement: usize,
    pub span: Span,
}

pub open spec fn param_type_view(o: Option<ParamTypeInfo>) -> Option<(PineType, Option<Seq<char>>)> {
    match o {
        Some(info) => Some(
            (info.pine_type, match info.user_type_name {
                Some(n) => Some(n@),
                None => None,
            }),
        ),
        None => None,
    }
}

/// A registered function as contracts see it.
pub struct EntryView {
    pub name: Seq<char>,
    pub params: Seq<Seq<char>>,
    pub param_types: Seq<Option<(PineType, Option<Seq<char>>)>>,
    pub default_values: Seq<Option<Expr>>,
    pub statement: int,
    pub span: Span,
}

pub open spec fn entry_view(e: FunctionEntry) -> EntryView {
    EntryView {
        name: e.name@,
        params: e.params@.map_values(|p: String| p@),
        param_types: e.param_types@.map_values(|o: Option<ParamTypeInfo>| param_type_view(o)),
        default_values: e.default_values@,
        statement: e.statement as int,
        span: e.span,
    }
}

/// The type a parameter declares, if it declares one.
pub open spec fn declared_param_type(p: FunctionParam, ut: Set<Seq<char>>, aut: Set<Seq<char>>) -> Option<
    (PineType, Option<Seq<char>>),
> {
    match p.declared_type {
        Some(t) => param_type_of(t@, ut, aut),
        None => None,
    }
}

/// A parameter whose declared type is not supported.
pub open spec fn bad_param_type(p: FunctionParam, ut: Set<Seq<char>>, aut: Set<Seq<char>>) -> bool {
    p.declared_type is Some && declared_param_type(p, ut, aut) is None
}

/// The reports on the declared types of the first `n` parameters.
pub open spec fn param_type_diags(params: Seq<FunctionParam>, ut: Set<Seq<char>>, aut: Set<Seq<char>>, n: int) -> Seq<
    DiagView,
>
    decreases n,
{
    if n <= 0 {
        Seq::empty()
    } else {
        param_type_diags(params, ut, aut, n - 1) + if bad_param_type(params[n - 1], ut, aut) {
            seq![param_type_diag(params[n - 1].declared_type->Some_0@, params[n - 1].span)]
        } else {
            Seq::empty()
        }
    }
}

/// What registration has gathered: the functions, the names that shadow
/// built-in defaults, and the reports.
pub struct Registration {
    pub entries: Seq<EntryView>,
    pub shadowed: Set<Seq<char>>,
    pub diags: Seq<DiagView>,
}

pub open spec fn entry_names(entries: Seq<EntryView>) -> Seq<Seq<char>> {
    entries.map_values(|e: EntryView| e.name)
}

pub open spec fn function_error(code: Seq<char>, name: Seq<char>, rest: Seq<char>, span: Span) -> DiagView {
    (Severity::Error, code, "function `"@ + name + rest, span)
}

/// Registers the statement at `k` with what the built-in tables say of its
/// parameters' defaults.  A function is refused when its name is taken by
/// an earlier function or by a built-in or initial symbol (`reserved`), when
/// two parameters share a name, or when a declared parameter type is not
/// supported (each such type is reported); otherwise its defaults are
/// checked and it is registered.  Any other statement adds the names it
/// binds to those that shadow built-in defaults.
pub open spec fn register_step(
    r: Registration,
    k: int,
    s: Stmt,
    facts: Seq<BuiltinNameFacts>,
    version: u16,
    reserved: Set<Seq<char>>,
    ut: Set<Seq<char>>,
    aut: Set<Seq<char>>,
) -> Registration {
    match s.kind {
        StmtKind::Function { name, params, body } => {
            let ps = params@;
            if entry_names(r.entries).contains(name@) {
                Registration {
                    diags: r.diags.push(function_error("E_FUNCTION_DUPLICATE"@, name@, "` is already defined"@, s.span)),
                    ..r
                }
            } else if reserved.contains(name@) {
                Registration {
                    diags: r.diags.push(
                        function_error("E_FUNCTION_NAME"@, name@, "` conflicts with an existing symbol"@, s.span),
                    ),
                    ..r
                }
            } else if exists|i: int, j: int| 0 <= i < j < ps.len() && ps[i].name@ == ps[j].name@ {
                Registration {
                    diags: r.diags.push(
                        function_error("E_FUNCTION_PARAM"@, name@, "` has duplicate parameter names"@, s.span),
                    ),
                    ..r
                }
            } else if exists|i: int| 0 <= i < ps.len() && bad_param_type(#[trigger] ps[i], ut, aut) {
                Registration { diags: r.diags + param_type_diags(ps, ut, aut, ps.len() as int), ..r }
            } else {
                Registration {
                    entries: r.entries.push(
                        EntryView {
                            name: name@,
                            params: ps.map_values(|p: FunctionParam| p.name@),
                            param_types: ps.map_values(|p: FunctionParam| declared_param_type(p, ut, aut)),
                            default_values: Seq::new(
                                ps.len(),
                                |i: int| kept_default(ps[i], normalized_param_default(ps[i], r.shadowed, facts[i]), version),
                            ),
                            statement: k,
                            span: s.span,
                        },
                    ),
                    diags: r.diags + default_diagnostics(ps, param_norms(ps, r.shadowed, facts), version),
                    ..r
                }
            }
        },
        _ => Registration { shadowed: r.shadowed + shadowing_names(s), ..r },
    }
}

/// Registration over the first `n` statements of `program`.
pub open spec fn registration(
    program: Seq<Stmt>,
    facts: Seq<Seq<BuiltinNameFacts>>,
    version: u16,
    reserved: Set<Seq<char>>,
    ut: Set<Seq<char>>,
    aut: Set<Seq<char>>,
    n: int,
) -> Registration
    decreases n,
{
    if n <= 0 {
        Registration { entries: Seq::empty(), shadowed: Set::empty(), diags: Seq::empty() }
    } else {
        register_step(
            registration(program, facts, version, reserved, ut, aut, n - 1),
            n - 1,
            program[n - 1],
            facts[n - 1],
            version,
            reserved,
            ut,
            aut,
        )
    }
}

/// Resolves the declared types of `params`, reporting each that is not
/// supported; the flag tells whether all are.
fn resolve_param_types(
    params: &Vec<FunctionParam>,
    user_types: &NameSet,
    array_user_types: &NameSet,
    diagnostics: &mut Vec<Diagnostic>,
) -> (r: (Vec<Option<ParamTypeInfo>>, bool))
    ensures
        r.0@.len() == params@.len(),
        forall|i: int|
            0 <= i < params@.len() ==> param_type_view(#[trigger] r.0@[i]) == declared_param_type(
                params@[i],
                user_types@,
                array_user_types@,
            ),
        r.1 == !exists|i: int| 0 <= i < params@.len() && bad_param_type(#[trigger] params@[i], user_types@, array_user_types@),
        diag_views(final(diagnostics)@) == diag_views(old(diagnostics)@) + param_type_diags(
            params@,
            user_types@,
            array_user_types@,
            params@.len() as int,
        ),
{
    let ghost start = diag_views(diagnostics@);
    let ghost ut = user_types@;
    let ghost aut = array_user_types@;
    let mut out: Vec<Option<ParamTypeInfo>> = Vec::new();
    let mut valid = true;
    let mut i: usize = 0;
    assert(diag_views(diagnostics@) =~= start + param_type_diags(params@, ut, aut, 0));
    while i < params.len()
        invariant
            i <= params@.len(),
            ut == user_types@,
            aut == array_user_types@,
            out@.len() == i,
            forall|j: int| 0 <= j < i ==> param_type_view(#[trigger] out@[j]) == declared_param_type(params@[j], ut, aut),
            valid == !exists|j: int| 0 <= j < i && bad_param_type(#[trigger] params@[j], ut, aut),
            diag_views(diagnostics@) == start + param_type_diags(params@, ut, aut, i as int),
        decreases params@.len() - i,
    {
        let ghost before = diag_views(diagnostics@);
        let p = &params[i];
        let t = match &p.declared_type {
            Some(declared) => {
                let r = function_param_type(declared.as_str(), p.span, user_types, array_user_types, diagnostics);
                if r.is_none() {
                    valid = false;
                }
                r
            },
            None => None,
        };
        proof {
            assert(diag_views(diagnostics@) =~= start + param_type_diags(params@, ut, aut, i as int + 1));
        }
        out.push(t);
        proof {
            assert forall|j: int| 0 <= j < i + 1 implies param_type_view(#[trigger] out@[j]) == declared_param_type(
                params@[j],
                ut,
                aut,
            ) by {
                if j == i {
                    assert(out@[j] == t);
                }
            }
            if !bad_param_type(params@[i as int], ut, aut) {
                assert(forall|j: int| 0 <= j < i + 1 && bad_param_type(#[trigger] params@[j], ut, aut) ==> j < i);
            }
        }
        i = i + 1;
    }
    (out, valid)
}

fn entry_named(entries: &Vec<FunctionEntry>, name: &str) -> (r: bool)
    ensures
        r == entry_names(entries@.map_values(|e: FunctionEntry| entry_view(e))).contains(name@),
{
    let ghost views = entries@.map_values(|e: FunctionEntry| entry_view(e));
    let mut k: usize = 0;
    while k < entries.len()
        invariant
            k <= entries@.len(),
            views == entries@.map_values(|e: FunctionEntry| entry_view(e)),
            forall|j: int| 0 <= j < k ==> entries@[j].name@ != name@,
        decreases entries@.len() - k,
    {
        if str_eq(entries[k].name.as_str(), name) {
            assert(entry_names(views)[k as int] == name@);
            return true;
        }
        k = k + 1;
    }
    assert forall|j: int| 0 <= j < entry_names(views).len() implies entry_names(views)[j] != name@ by {
        assert(entry_names(views)[j] == entries@[j].name@);
    }
    false
}

pub open spec fn facts_views(facts: Seq<Vec<BuiltinNameFacts>>) -> Seq<Seq<BuiltinNameFacts>> {
    facts.map_values(|v: Vec<BuiltinNameFacts>| v@)
}

/// Registers the user-defined functions of `program`, in order.
/// `reserved` holds the names of built-ins and initial symbols, which a
/// function may not take; `user_types` the user types a parameter may be
/// declared with, and `array_user_types` those whose arrays it may be
/// declared with; `facts[k]` what the built-in tables say of the defaults of
/// the parameters of the statement at `k`.
pub fn register_functions(
    program: &Vec<Stmt>,
    version: u16,
    reserved: &NameSet,
    user_types: &NameSet,
    array_user_types: &NameSet,
    facts: Vec<Vec<BuiltinNameFacts>>,
    diagnostics: &mut Vec<Diagnostic>,
) -> (r: Vec<FunctionEntry>)
    requires
        facts@.len() == program@.len(),
        forall|k: int|
            0 <= k < program@.len() ==> (program@[k].kind matches StmtKind::Function { params, .. } ==> (
            #[trigger] facts@[k])@.len() == params@.len()),
    ensures
        ({
            let reg = registration(
                program@,
                facts_views(facts@),
                version,
                reserved@,
                user_types@,
                array_user_types@,
                program@.len() as int,
            );
            &&& r@.map_values(|e: FunctionEntry| entry_view(e)) == reg.entries
            &&& diag_views(final(diagnostics)@) == diag_views(old(diagnostics)@) + reg.diags
        }),
{
    let ghost start = diag_views(diagnostics@);
    let ghost fv = facts_views(facts@);
    let ghost facts0 = facts@;
    let mut rest = facts;
    let mut entries: Vec<FunctionEntry> = Vec::new();
    let mut shadowed = NameSet::new();
    let mut k: usize = 0;
    assert(entries@.map_values(|e: FunctionEntry| entry_view(e)) =~= Seq::<EntryView>::empty());
    assert(diag_views(diagnostics@) =~= start + Seq::<DiagView>::empty());
    while k < program.len()
        invariant
            k <= program@.len(),
            facts0.len() == program@.len(),
            fv == facts_views(facts0),
            rest@ == facts0.subrange(k as int, facts0.len() as int),
            forall|j: int|
                0 <= j < program@.len() ==> (program@[j].kind matches StmtKind::Function { params, .. } ==> (
                #[trigger] facts0[j])@.len() == params@.len()),
            shadowed.wf(),
            ({
                let reg = registration(program@, fv, version, reserved@, user_types@, array_user_types@, k as int);
                &&& entries@.map_values(|e: FunctionEntry| entry_view(e)) == reg.entries
                &&& shadowed@ == reg.shadowed
                &&& diag_views(diagnostics@) == start + reg.diags
            }),
        decreases program@.len() - k,
    {
        let ghost reg0 = registration(program@, fv, version, reserved@, user_types@, array_user_types@, k as int);
        let ghost before = diag_views(diagnostics@);
        let ghost entries0 = entries@.map_values(|e: FunctionEntry| entry_view(e));
        let f = rest.remove(0);
        assert(f == facts0[k as int]);
        assert(fv[k as int] == f@);
        let s = &program[k];
        match &s.kind {
            StmtKind::Function { name, params, body: _ } => {
                if entry_named(&entries, name.as_str()) {
                    let mut m = String::from_str("function `");
                    m.append(name.as_str());
                    m.append("` is already defined");
                    let d = Diagnostic::error("E_FUNCTION_DUPLICATE", m, s.span);
                    diagnostics.push(d);
                    assert(diag_views(diagnostics@) =~= before.push(diag_view(d)));
                } else if reserved.contains(name.as_str()) {
                    let mut m = String::from_str("function `");
                    m.append(name.as_str());
                    m.append("` conflicts with an existing symbol");
                    let d = Diagnostic::error("E_FUNCTION_NAME", m, s.span);
                    diagnostics.push(d);
                    assert(diag_views(diagnostics@) =~= before.push(diag_view(d)));
                } else {
                    let names = function_param_names(params.as_slice());
                    if has_duplicate_param(names.as_slice()) {
                        proof {
                            let (i, j) = choose|i: int, j: int|
                                0 <= i < j < names@.len() && names@[i]@ == names@[j]@;
                            assert(params@[i].name@ == params@[j].name@);
                        }
                        let mut m = String::from_str("function `");
                        m.append(name.as_str());
                        m.append("` has duplicate parameter names");
                        let d = Diagnostic::error("E_FUNCTION_PARAM", m, s.span);
                        diagnostics.push(d);
                        assert(diag_views(diagnostics@) =~= before.push(diag_view(d)));
                    } else {
                        proof {
                            assert(!exists|i: int, j: int|
                                0 <= i < j < params@.len() && params@[i].name@ == params@[j].name@) by {
                                if exists|i: int, j: int| 0 <= i < j < params@.len() && params@[i].name@ == params@[j].name@ {
                                    let (i, j) = choose|i: int, j: int|
                                        0 <= i < j < params@.len() && params@[i].name@ == params@[j].name@;
                                    assert(names@[i]@ == names@[j]@);
                                }
                            }
                        }
                        let (types, valid) = resolve_param_types(params, user_types, array_user_types, diagnostics);
                        if valid {
                            let defaults = function_default_values(params, version, &shadowed, f, diagnostics);
                            let entry = FunctionEntry {
                                name: name.clone(),
                                params: names,
                                param_types: types,
                                default_values: defaults,
                                statement: k,
                                span: s.span,
                            };
                            let ghost ev = entry_view(entry);
                            proof {
                                let ps = params@;
                                assert(ev.params =~= ps.map_values(|p: FunctionParam| p.name@));
                                assert(ev.param_types =~= ps.map_values(|p: FunctionParam| declared_param_type(p, user_types@, array_user_types@)));
                                assert(ev.default_values =~= Seq::new(
                                    ps.len(),
                                    |i: int| kept_default(ps[i], normalized_param_default(ps[i], reg0.shadowed, fv[k as int][i]), version),
                                ));
                                assert(param_type_diags(ps, user_types@, array_user_types@, ps.len() as int) =~= Seq::<DiagView>::empty()) by {
                                    lemma_no_bad_types_no_diags(ps, user_types@, array_user_types@, ps.len() as int);
                                }
                            }
                            entries.push(entry);
                            proof {
                                assert(entries@.map_values(|e: FunctionEntry| entry_view(e)) =~= entries0.push(ev));
                            }
                        }
                    }
                }
            },
            _ => {
                record_default_shadowing(s, &mut shadowed);
            },
        }
        proof {
            let reg1 = registration(program@, fv, version, reserved@, user_types@, array_user_types@, k as int + 1);
            assert(reg1 == register_step(reg0, k as int, program@[k as int], fv[k as int], version, reserved@, user_types@, array_user_types@));
        }
        k = k + 1;
    }
    entries
}

proof fn lemma_no_bad_types_no_diags(ps: Seq<FunctionParam>, ut: Set<Seq<char>>, aut: Set<Seq<char>>, n: int)
    requires
        n <= ps.len(),
        forall|i: int| 0 <= i < n ==> !bad_param_type(#[trigger] ps[i], ut, aut),
    ensures
        param_type_diags(ps, ut, aut, n) == Seq::<DiagView>::empty(),
    decreases n,
{
    if n > 0 {
        lemma_no_bad_types_no_diags(ps, ut, aut, n - 1);
        assert(!bad_param_type(ps[n - 1], ut, aut));
        assert(param_type_diags(ps, ut, aut, n) =~= Seq::<DiagView>::empty());
    }
}

} // verus!
